use lanai_infrastructure::saga::schedule::{SagaAction, SagaCursor};
use lanai_infrastructure::saga::{SagaOrchestrator, SagaReport, SagaStep};

#[derive(Debug)]
struct Recorded {
    name: &'static str,
    fails: bool,
}

impl SagaStep for Recorded {
    type Context = Vec<String>;
    type Error = String;

    fn execute(&self, context: &mut Vec<String>) -> Result<(), String> {
        context.push(format!("execute {}", self.name));
        if self.fails {
            Err(format!("{} failed", self.name))
        } else {
            Ok(())
        }
    }

    fn compensate(&self, context: &mut Vec<String>) {
        context.push(format!("compensate {}", self.name));
    }
}

fn saga_of(steps: &[(&'static str, bool)]) -> SagaOrchestrator<Recorded> {
    let mut saga = SagaOrchestrator::new();
    for (name, fails) in steps {
        saga.add_step(Recorded { name, fails: *fails });
    }
    saga
}

#[test]
fn failure_in_the_middle_compensates_only_what_ran() {
    let saga = saga_of(&[("A", false), ("B", true), ("C", false)]);
    match saga.run_with_report(Vec::new()) {
        SagaReport::Compensated { failed_at, error, context } => {
            assert_eq!(failed_at, 1);
            assert_eq!(error, "B failed");
            assert_eq!(context, vec!["execute A", "execute B", "compensate A"]);
        }
        SagaReport::Completed { .. } => panic!("the saga must not complete"),
    }
    assert_eq!(saga.run(Vec::new()), Err("B failed".to_string()));
}

#[test]
fn all_steps_succeed_without_compensation() {
    let saga = saga_of(&[("A", false), ("B", false), ("C", false)]);
    let context = saga.run(vec!["start".to_string()]);
    assert_eq!(
        context,
        Ok(vec![
            "start".to_string(),
            "execute A".to_string(),
            "execute B".to_string(),
            "execute C".to_string()
        ])
    );
    assert!(matches!(saga.run_with_report(Vec::new()), SagaReport::Completed { .. }));
}

#[test]
fn compensation_runs_in_reverse_order() {
    let saga = saga_of(&[("A", false), ("B", false), ("C", false), ("D", true), ("E", true)]);
    match saga.run_with_report(Vec::new()) {
        SagaReport::Compensated { failed_at, error, context } => {
            assert_eq!(failed_at, 3);
            assert_eq!(error, "D failed");
            assert_eq!(
                context,
                vec![
                    "execute A",
                    "execute B",
                    "execute C",
                    "execute D",
                    "compensate C",
                    "compensate B",
                    "compensate A"
                ]
            );
        }
        SagaReport::Completed { .. } => panic!("the saga must not complete"),
    }
}

#[test]
fn first_step_failing_compensates_nothing() {
    let saga = saga_of(&[("A", true), ("B", false)]);
    match saga.run_with_report(Vec::new()) {
        SagaReport::Compensated { failed_at, error, context } => {
            assert_eq!(failed_at, 0);
            assert_eq!(error, "A failed");
            assert_eq!(context, vec!["execute A"]);
        }
        SagaReport::Completed { .. } => panic!("the saga must not complete"),
    }
}

#[test]
fn saga_without_steps_returns_the_context() {
    let saga: SagaOrchestrator<Recorded> = SagaOrchestrator::new();
    assert_eq!(saga.step_count(), 0);
    assert_eq!(saga.run(vec!["only".to_string()]), Ok(vec!["only".to_string()]));
}

#[test]
fn runs_are_independent() {
    let saga = saga_of(&[("A", false), ("B", true)]);
    assert_eq!(saga.step_count(), 2);
    assert_eq!(saga.run(Vec::new()), Err("B failed".to_string()));
    assert_eq!(saga.run(Vec::new()), Err("B failed".to_string()));
}

#[test]
fn cursor_walks_forward_then_backward() {
    let mut cursor = SagaCursor::new(3);
    assert_eq!(cursor.action(), SagaAction::Execute(0));
    assert_eq!(cursor.advance(true), SagaAction::Execute(1));
    assert_eq!(cursor.advance(true), SagaAction::Execute(2));
    assert_eq!(cursor.advance(false), SagaAction::Compensate(1));
    assert_eq!(cursor.advance(false), SagaAction::Compensate(0));
    assert_eq!(cursor.advance(true), SagaAction::Abort);
    assert_eq!(cursor.advance(true), SagaAction::Abort);

    let mut cursor = SagaCursor::new(2);
    assert_eq!(cursor.advance(true), SagaAction::Execute(1));
    assert_eq!(cursor.advance(true), SagaAction::Complete);
    assert_eq!(cursor.advance(false), SagaAction::Complete);

    let mut cursor = SagaCursor::new(2);
    assert_eq!(cursor.advance(false), SagaAction::Abort);

    assert_eq!(SagaCursor::new(0).action(), SagaAction::Complete);
}
