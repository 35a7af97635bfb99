//! Sliding-window admission control: whether an action under a key is allowed
//! now, given a limit of events per window of seconds.
//!
//! Instants are milliseconds since the Unix epoch. An event counts towards the
//! window that ends at `now` when its instant is no earlier than `now` minus the
//! window; earlier events are dropped at each check.

use vstd::prelude::*;
use vstd::hash_map::StringHashMap;
use vstd::string::StringExecFns;

verus! {

/// The name of the environment variable that holds the shared store's address.
pub const REDIS_URL_ENV: &'static str = "REDIS_URL";

/// A backend that decides admissions.
pub trait RateLimiterBackend {
    /// Whether an action under `key` is allowed now, with at most `limit`
    /// events in any window of `window_secs` seconds.
    fn is_allowed(&mut self, key: &str, limit: u32, window_secs: u64) -> bool;
}

/// The first instant of the window of `window_secs` seconds that ends at `now`.
pub open spec fn window_start(now: i64, window_secs: u64) -> int {
    now - window_secs * 1000
}

/// An event at `instant` counts towards the window that begins at `start`.
pub open spec fn counts_from(instant: i64, start: int) -> bool {
    instant >= start
}

/// The events of `history` that are no earlier than `start`, in their order.
pub open spec fn within_window(history: Seq<i64>, start: int) -> Seq<i64> {
    history.filter(|instant: i64| counts_from(instant, start))
}

/// The events recorded under `key`; none where the key is unknown.
pub open spec fn history_of(store: Map<Seq<char>, Seq<i64>>, key: Seq<char>) -> Seq<i64> {
    if store.contains_key(key) {
        store[key]
    } else {
        Seq::empty()
    }
}

/// The events under `key` that still count at `now`.
pub open spec fn current_events(
    store: Map<Seq<char>, Seq<i64>>,
    key: Seq<char>,
    window_secs: u64,
    now: i64,
) -> Seq<i64> {
    within_window(history_of(store, key), window_start(now, window_secs))
}

/// A check at `now` is allowed when fewer than `limit` events still count.
pub open spec fn allowed_at(
    store: Map<Seq<char>, Seq<i64>>,
    key: Seq<char>,
    limit: u32,
    window_secs: u64,
    now: i64,
) -> bool {
    current_events(store, key, window_secs, now).len() < limit
}

/// The store after a check at `now`: the key's outdated events are gone, and
/// an allowed check is recorded as the latest event.
pub open spec fn after_check(
    store: Map<Seq<char>, Seq<i64>>,
    key: Seq<char>,
    limit: u32,
    window_secs: u64,
    now: i64,
) -> Map<Seq<char>, Seq<i64>> {
    let current = current_events(store, key, window_secs, now);
    if allowed_at(store, key, limit, window_secs, now) {
        store.insert(key, current.push(now))
    } else {
        store.insert(key, current)
    }
}

/// The window's first instant as a 64-bit number, held at the smallest one
/// where the window reaches further back.
pub open spec fn clamped_window_start(now: i64, window_secs: u64) -> i64 {
    if window_start(now, window_secs) < i64::MIN {
        i64::MIN
    } else {
        window_start(now, window_secs) as i64
    }
}

/// Computes [`clamped_window_start`]. No 64-bit instant lies before the
/// smallest one, so the clamped start selects the same events as the exact one.
pub fn window_floor(now: i64, window_secs: u64) -> (start: i64)
    ensures
        start == clamped_window_start(now, window_secs),
        forall|instant: i64| #[trigger]
            counts_from(instant, start as int) == counts_from(
                instant,
                window_start(now, window_secs),
            ),
{
    let exact: i128 = now as i128 - (window_secs as i128) * 1000;
    if exact < i64::MIN as i128 {
        i64::MIN
    } else {
        exact as i64
    }
}

fn keep_recent(history: &Vec<i64>, start: i64) -> (kept: Vec<i64>)
    ensures
        kept@ == within_window(history@, start as int),
{
    let mut kept: Vec<i64> = Vec::new();
    let mut i: usize = 0;
    proof {
        reveal(Seq::filter);
    }
    while i < history.len()
        invariant
            i <= history.len(),
            kept@ == within_window(history@.take(i as int), start as int),
        decreases history.len() - i,
    {
        let instant = history[i];
        proof {
            reveal(Seq::filter);
            let longer = history@.take(i + 1);
            assert(longer.drop_last() =~= history@.take(i as int));
            assert(longer.last() == instant);
        }
        if instant >= start {
            kept.push(instant);
        }
        i += 1;
    }
    proof {
        assert(history@.take(history.len() as int) =~= history@);
    }
    kept
}

/// The in-process backend: the events of each key, held in memory.
pub struct InMemoryRateLimiter {
    store: StringHashMap<Vec<i64>>,
}

impl View for InMemoryRateLimiter {
    type V = Map<Seq<char>, Seq<i64>>;

    closed spec fn view(&self) -> Map<Seq<char>, Seq<i64>> {
        self.store@.map_values(|history: Vec<i64>| history@)
    }
}

/// Reads the wall clock with `chrono::Utc::now` and turns the reading into
/// milliseconds since the Unix epoch with `DateTime::timestamp_millis`. Nothing
/// is claimed of the number. The reading fails only on a machine whose clock is
/// set before 1970.
#[verifier::external_body]
fn unix_millis() -> (now: i64) {
    chrono::Utc::now().timestamp_millis()
}

impl InMemoryRateLimiter {
    /// A backend that has seen no event.
    pub fn new() -> (limiter: Self)
        ensures
            limiter@ == Map::<Seq<char>, Seq<i64>>::empty(),
    {
        let limiter = InMemoryRateLimiter { store: StringHashMap::new() };
        assert(limiter@ =~= Map::<Seq<char>, Seq<i64>>::empty());
        limiter
    }

    /// The events recorded under `key`, oldest first.
    pub fn history(&self, key: &str) -> (events: Vec<i64>)
        ensures
            events@ == history_of(self@, key@),
    {
        match self.store.get(key) {
            Some(history) => history.clone(),
            None => Vec::new(),
        }
    }

    /// Checks `key` at the instant `now`: drops the key's events that are
    /// earlier than the window, allows the action when fewer than `limit`
    /// remain, and records an allowed action at `now`.
    pub fn is_allowed_at(&mut self, key: &str, limit: u32, window_secs: u64, now: i64) -> (allowed:
        bool)
        ensures
            allowed == allowed_at(old(self)@, key@, limit, window_secs, now),
            final(self)@ == after_check(old(self)@, key@, limit, window_secs, now),
    {
        let start = window_floor(now, window_secs);
        let mut current: Vec<i64> = match self.store.get(key) {
            Some(history) => keep_recent(history, start),
            None => Vec::new(),
        };
        proof {
            reveal(Seq::filter);
            assert(within_window(history_of(old(self)@, key@), start as int)
                =~= within_window(
                history_of(old(self)@, key@),
                window_start(now, window_secs),
            )) by {
                assert((|instant: i64| counts_from(instant, start as int)) =~= (|instant: i64|
                    counts_from(instant, window_start(now, window_secs))));
            }
        }
        let allowed = (current.len() as u64) < (limit as u64);
        if allowed {
            current.push(now);
        }
        self.store.insert(String::from_str(key), current);
        assert(final(self)@ =~= after_check(old(self)@, key@, limit, window_secs, now));
        allowed
    }
}

impl RateLimiterBackend for InMemoryRateLimiter {
    /// Checks `key` at the instant that the wall clock shows.
    fn is_allowed(&mut self, key: &str, limit: u32, window_secs: u64) -> (allowed: bool)
        ensures
            exists|now: i64|
                allowed == #[trigger] allowed_at(old(self)@, key@, limit, window_secs, now)
                    && final(self)@ == after_check(old(self)@, key@, limit, window_secs, now),
    {
        let now = unix_millis();
        self.is_allowed_at(key, limit, window_secs, now)
    }
}

/// `redis::Client`, the handle on a shared store, carried as an opaque value.
#[verifier::external_type_specification]
#[verifier::external_body]
pub struct ExRedisClient(redis::Client);

/// `redis::RedisError`, carried as an opaque value.
#[verifier::external_type_specification]
#[verifier::external_body]
pub struct ExRedisError(redis::RedisError);

/// What `redis::Client::open` makes of an address: the handle on the store
/// at that address, or the error with which the client refuses the address.
pub uninterp spec fn client_for(url: Seq<char>) -> Result<redis::Client, redis::RedisError>;

/// Calls `redis::Client::open` on the address. The call checks the address and
/// connects to nothing: it looks at nothing but the address, so that for the
/// client as it is built into a program the same address always gives the
/// same handle or the same error.
#[verifier::external_body]
fn open_client(url: &str) -> (opened: Result<redis::Client, redis::RedisError>)
    ensures
        opened == client_for(url@),
{
    redis::Client::open(url)
}

/// What the shared store answered to the purge and count of one check.
#[derive(Debug, Clone, Copy, PartialEq, Eq, Structural)]
pub enum StoreReply {
    /// No connection to the store could be made.
    Unreachable,
    /// The store was reached and the purge and count failed.
    Failed,
    /// The number of events that still count.
    Count(i64),
}

/// The decision on one check against the shared store.
#[derive(Debug, Clone, Copy, PartialEq, Eq, Structural)]
pub struct Admission {
    /// The action is allowed.
    pub allowed: bool,
    /// The action is to be recorded in the store and the key's expiry renewed.
    pub record: bool,
}

/// The decision that follows from the store's answer: an answer that is no
/// count allows the action and records nothing; a count below the limit allows
/// and records it; any other count denies it.
pub open spec fn admission_for(reply: StoreReply, limit: u32) -> Admission {
    match reply {
        StoreReply::Unreachable => Admission { allowed: true, record: false },
        StoreReply::Failed => Admission { allowed: true, record: false },
        StoreReply::Count(count) => Admission { allowed: count < limit, record: count < limit },
    }
}

/// What one check asks of the shared store.
#[derive(Debug, Clone, PartialEq, Eq)]
pub struct StoreCheck {
    /// The name of the key's ordered set of instants.
    pub store_key: String,
    /// Instants before this one are purged; those from it on are counted.
    pub window_start: i64,
    /// The instant of the check, which is member and score of an allowed action.
    pub now: i64,
    /// The time to live, in seconds, that an allowed action gives the set.
    pub expiry_secs: i64,
}

/// The time to live of a key's set: the window, held at the largest signed
/// 64-bit number.
pub open spec fn expiry_for(window_secs: u64) -> i64 {
    if window_secs > i64::MAX {
        i64::MAX
    } else {
        window_secs as i64
    }
}

/// The shared-store backend: the handle on the store. The exchange with the
/// store is the caller's; what to ask and what to make of the answer is decided
/// here.
pub struct RedisRateLimiter {
    client: redis::Client,
}

impl RedisRateLimiter {
    /// The handle that the backend holds.
    pub closed spec fn handle(&self) -> redis::Client {
        self.client
    }

    /// `made` is the backend on the handle that opening gave, or the error
    /// that opening gave.
    pub open spec fn made_from(
        made: Result<Self, redis::RedisError>,
        opened: Result<redis::Client, redis::RedisError>,
    ) -> bool {
        match opened {
            Ok(client) => made.is_ok() && made.unwrap().handle() == client,
            Err(error) => made == Err::<Self, redis::RedisError>(error),
        }
    }

    /// A backend on the store at `url`: it holds the handle that the store's
    /// client gives for the address. Where the client refuses the address, its
    /// error is returned.
    pub fn new(url: &str) -> (made: Result<Self, redis::RedisError>)
        ensures
            Self::made_from(made, client_for(url@)),
    {
        Self::from_opened(open_client(url))
    }

    /// The backend on an opened handle; the error handed on where there is none.
    pub fn from_opened(opened: Result<redis::Client, redis::RedisError>) -> (made: Result<
        Self,
        redis::RedisError,
    >)
        ensures
            Self::made_from(made, opened),
    {
        match opened {
            Ok(client) => Ok(RedisRateLimiter { client }),
            Err(error) => Err(error),
        }
    }

    /// The handle on the store.
    pub fn client(&self) -> (client: &redis::Client)
        ensures
            *client == self.handle(),
    {
        &self.client
    }

    /// The name under which the store holds the events of `key`.
    pub fn store_key(key: &str) -> (name: String)
        ensures
            name@ == "rate_limit:"@ + key@,
    {
        String::from_str("rate_limit:").concat(key)
    }

    /// What a check of `key` at the instant `now` asks of the store.
    pub fn plan_at(key: &str, window_secs: u64, now: i64) -> (check: StoreCheck)
        ensures
            Self::planned_at(check, key@, window_secs, now),
    {
        let expiry_secs: i64 = if window_secs > 0x7fff_ffff_ffff_ffffu64 {
            i64::MAX
        } else {
            window_secs as i64
        };
        StoreCheck {
            store_key: Self::store_key(key),
            window_start: window_floor(now, window_secs),
            now,
            expiry_secs,
        }
    }

    /// What a check of `key` at the instant that the wall clock shows asks of
    /// the store.
    pub fn plan(key: &str, window_secs: u64) -> (check: StoreCheck)
        ensures
            Self::planned_at(check, key@, window_secs, check.now),
    {
        Self::plan_at(key, window_secs, unix_millis())
    }

    /// `check` is what a check of `key` at the instant `now` asks of the store.
    pub open spec fn planned_at(
        check: StoreCheck,
        key: Seq<char>,
        window_secs: u64,
        now: i64,
    ) -> bool {
        &&& check.store_key@ == "rate_limit:"@ + key
        &&& check.window_start == clamped_window_start(now, window_secs)
        &&& check.now == now
        &&& check.expiry_secs == expiry_for(window_secs)
    }

    /// Checks `key` against the shared store at the instant `now`. `ask` has
    /// the store purge and count, and tells what it answered; `record` has it
    /// add the instant and renew the expiry, and is called only for an action
    /// that the answer allows and asks to record. The action is allowed as the
    /// store's answer decides. Where the store cannot be reached, or fails,
    /// the action is allowed, whatever the key, the limit and the window.
    pub fn is_allowed_at<Q, R>(
        &self,
        key: &str,
        limit: u32,
        window_secs: u64,
        now: i64,
        ask: Q,
        record: R,
    ) -> (allowed: bool) where Q: FnOnce(&StoreCheck) -> StoreReply, R: FnOnce(&StoreCheck)
        requires
            forall|check: &StoreCheck|
                Self::planned_at(*check, key@, window_secs, now) ==> #[trigger] ask.requires(
                    (check,),
                ),
            forall|check: &StoreCheck|
                Self::planned_at(*check, key@, window_secs, now) ==> #[trigger] record.requires(
                    (check,),
                ),
        ensures
            exists|check: StoreCheck, reply: StoreReply|
                Self::planned_at(check, key@, window_secs, now) && #[trigger] ask.ensures(
                    (&check,),
                    reply,
                ) && allowed == admission_for(reply, limit).allowed,
            (forall|check: &StoreCheck, reply: StoreReply| #[trigger]
                ask.ensures((check,), reply) ==> !(reply matches StoreReply::Count(_)))
                ==> allowed,
    {
        let check = Self::plan_at(key, window_secs, now);
        let reply = ask(&check);
        let admission = Self::decide(reply, limit);
        if admission.record {
            record(&check);
        }
        admission.allowed
    }

    /// Checks `key` against the shared store at the instant that the wall
    /// clock shows, as [`RedisRateLimiter::is_allowed_at`] does.
    pub fn is_allowed<Q, R>(
        &self,
        key: &str,
        limit: u32,
        window_secs: u64,
        ask: Q,
        record: R,
    ) -> (allowed: bool) where Q: FnOnce(&StoreCheck) -> StoreReply, R: FnOnce(&StoreCheck)
        requires
            forall|check: &StoreCheck|
                Self::planned_at(*check, key@, window_secs, check.now) ==> #[trigger] ask.requires(
                    (check,),
                ),
            forall|check: &StoreCheck|
                Self::planned_at(*check, key@, window_secs, check.now)
                    ==> #[trigger] record.requires((check,)),
        ensures
            exists|check: StoreCheck, reply: StoreReply|
                Self::planned_at(check, key@, window_secs, check.now) && #[trigger] ask.ensures(
                    (&check,),
                    reply,
                ) && allowed == admission_for(reply, limit).allowed,
            (forall|check: &StoreCheck, reply: StoreReply| #[trigger]
                ask.ensures((check,), reply) ==> !(reply matches StoreReply::Count(_)))
                ==> allowed,
    {
        self.is_allowed_at(key, limit, window_secs, unix_millis(), ask, record)
    }

    /// Decides on a check from the store's answer. A store that cannot be
    /// reached, or that fails, never denies.
    pub fn decide(reply: StoreReply, limit: u32) -> (admission: Admission)
        ensures
            admission == admission_for(reply, limit),
            !(reply matches StoreReply::Count(_)) ==> admission.allowed && !admission.record,
    {
        match reply {
            StoreReply::Count(count) => {
                let below = (count as i128) < (limit as i128);
                Admission { allowed: below, record: below }
            },
            _ => Admission { allowed: true, record: false },
        }
    }
}

/// The backend that a process works with.
pub enum LimiterBackend {
    /// The shared store.
    Shared(RedisRateLimiter),
    /// The in-process fallback.
    Local(InMemoryRateLimiter),
}

/// `backend` is an in-process backend that has seen no event.
pub open spec fn is_fresh_local(backend: LimiterBackend) -> bool {
    backend matches LimiterBackend::Local(local) && local@ == Map::<Seq<char>, Seq<i64>>::empty()
}

/// `backend` is the backend for an attempt to open the shared store and one
/// attempt to reach it: the shared backend on the opened handle, where a store
/// is configured, its handle was opened and the store was reached; else an
/// in-process backend that has seen no event.
pub open spec fn chosen_for(
    backend: LimiterBackend,
    opened: Option<Result<redis::Client, redis::RedisError>>,
    reachable: bool,
) -> bool {
    match opened {
        Some(Ok(client)) => if reachable {
            backend matches LimiterBackend::Shared(shared) && shared.handle() == client
        } else {
            is_fresh_local(backend)
        },
        _ => is_fresh_local(backend),
    }
}

/// What opening the configured store gives; none where no store is configured.
pub open spec fn opened_for(redis_url: Option<&str>) -> Option<
    Result<redis::Client, redis::RedisError>,
> {
    match redis_url {
        Some(url) => Some(client_for(url@)),
        None => None,
    }
}

/// The backend for an attempt to open the shared store; `reachable` says
/// whether the one attempt to reach the store at construction succeeded. The
/// shared backend is chosen where a store is configured, its handle was
/// opened and the store was reached; else an in-process backend that has seen
/// no event.
pub fn select_backend(
    opened: Option<Result<redis::Client, redis::RedisError>>,
    reachable: bool,
) -> (backend: LimiterBackend)
    ensures
        chosen_for(backend, opened, reachable),
{
    match opened {
        Some(Ok(client)) => {
            if reachable {
                LimiterBackend::Shared(RedisRateLimiter { client })
            } else {
                LimiterBackend::Local(InMemoryRateLimiter::new())
            }
        },
        _ => LimiterBackend::Local(InMemoryRateLimiter::new()),
    }
}

/// The backend for a process whose shared store is configured at `redis_url`,
/// or not at all; `reachable` says whether the one attempt to reach that store
/// at construction succeeded. The backend is the shared one, on the handle
/// that the store's client gives for the address, where the address is
/// configured, the client accepts it and the store was reached. In every
/// other case it is an in-process backend that has seen no event.
pub fn create_limiter(redis_url: Option<&str>, reachable: bool) -> (backend: LimiterBackend)
    ensures
        chosen_for(backend, opened_for(redis_url), reachable),
        !reachable || redis_url.is_none() ==> is_fresh_local(backend),
{
    match redis_url {
        Some(url) => select_backend(Some(open_client(url)), reachable),
        None => select_backend(None, reachable),
    }
}

/// A shared store that cannot be reached, or that fails, never denies: for
/// every limit, zero included, the action is allowed and nothing is recorded.
/// Neither the key nor the window has a part in the decision.
pub proof fn unreachable_store_always_allows(limit: u32)
    ensures
        admission_for(StoreReply::Unreachable, limit) == (Admission {
            allowed: true,
            record: false,
        }),
        admission_for(StoreReply::Failed, limit) == (Admission { allowed: true, record: false }),
{
}

/// Under one limit the events recorded for a key never come to exceed it, no
/// event recorded after a check is earlier than the check's window, and a
/// check touches no other key.
pub proof fn check_keeps_the_window(
    store: Map<Seq<char>, Seq<i64>>,
    key: Seq<char>,
    limit: u32,
    window_secs: u64,
    now: i64,
    other: Seq<char>,
)
    ensures
        history_of(store, key).len() <= limit ==> history_of(
            after_check(store, key, limit, window_secs, now),
            key,
        ).len() <= limit,
        current_events(after_check(store, key, limit, window_secs, now), key, window_secs, now)
            == history_of(after_check(store, key, limit, window_secs, now), key),
        other != key ==> history_of(after_check(store, key, limit, window_secs, now), other)
            == history_of(store, other),
{
    let start = window_start(now, window_secs);
    let pred = |instant: i64| counts_from(instant, start);
    let before = history_of(store, key);
    let current = before.filter(pred);
    before.lemma_filter_len(pred);
    let after = history_of(after_check(store, key, limit, window_secs, now), key);
    assert forall|i: int| 0 <= i < current.len() implies pred(#[trigger] current[i]) by {
        before.lemma_filter_pred(pred, i);
    }
    assert forall|i: int| 0 <= i < after.len() implies pred(#[trigger] after[i]) by {
        if i < current.len() {
            assert(after[i] == current[i]);
        }
    }
    filter_keeps_all(after, pred);
}

/// The store after checks of one key at the given instants, one after the
/// other.
pub open spec fn after_checks(
    store: Map<Seq<char>, Seq<i64>>,
    key: Seq<char>,
    limit: u32,
    window_secs: u64,
    instants: Seq<i64>,
) -> Map<Seq<char>, Seq<i64>>
    decreases instants.len(),
{
    if instants.len() == 0 {
        store
    } else {
        after_check(
            after_checks(store, key, limit, window_secs, instants.drop_last()),
            key,
            limit,
            window_secs,
            instants.last(),
        )
    }
}

/// The first `count` of `instants`, or all of them where they are fewer.
pub open spec fn first_of(instants: Seq<i64>, count: int) -> Seq<i64> {
    if count < instants.len() {
        instants.take(count)
    } else {
        instants
    }
}

/// Checks of a key without history, each of them within the window of every
/// later one: the first `limit` checks are allowed and recorded, every
/// further one is denied and leaves no trace.
pub proof fn window_admits_up_to_the_limit(
    store: Map<Seq<char>, Seq<i64>>,
    key: Seq<char>,
    limit: u32,
    window_secs: u64,
    instants: Seq<i64>,
)
    requires
        history_of(store, key).len() == 0,
        forall|a: int, b: int|
            0 <= a <= b < instants.len() ==> counts_from(
                #[trigger] instants[a],
                window_start(#[trigger] instants[b], window_secs),
            ),
    ensures
        history_of(after_checks(store, key, limit, window_secs, instants), key) == first_of(
            instants,
            limit as int,
        ),
        instants.len() > 0 ==> allowed_at(
            after_checks(store, key, limit, window_secs, instants.drop_last()),
            key,
            limit,
            window_secs,
            instants.last(),
        ) == (instants.len() <= limit),
    decreases instants.len(),
{
    if instants.len() == 0 {
        assert(history_of(store, key) =~= instants);
    } else {
        let earlier = instants.drop_last();
        let now = instants.last();
        assert forall|a: int, b: int| 0 <= a <= b < earlier.len() implies counts_from(
            #[trigger] earlier[a],
            window_start(#[trigger] earlier[b], window_secs),
        ) by {
            assert(earlier[a] == instants[a]);
            assert(earlier[b] == instants[b]);
        }
        window_admits_up_to_the_limit(store, key, limit, window_secs, earlier);
        let before = after_checks(store, key, limit, window_secs, earlier);
        let history = first_of(earlier, limit as int);
        let start = window_start(now, window_secs);
        let pred = |instant: i64| counts_from(instant, start);
        assert forall|i: int| 0 <= i < history.len() implies pred(#[trigger] history[i]) by {
            assert(history[i] == instants[i]);
            assert(now == instants[instants.len() - 1]);
            assert(counts_from(
                instants[i],
                window_start(instants[instants.len() - 1], window_secs),
            ));
        }
        filter_keeps_all(history, pred);
        assert(current_events(before, key, window_secs, now) == history);
        if instants.len() <= limit {
            assert(history.push(now) =~= instants);
        } else {
            assert(first_of(instants, limit as int) =~= history);
        }
    }
}

proof fn filter_keeps_all(events: Seq<i64>, pred: spec_fn(i64) -> bool)
    requires
        forall|i: int| 0 <= i < events.len() ==> pred(#[trigger] events[i]),
    ensures
        events.filter(pred) == events,
    decreases events.len(),
{
    reveal(Seq::filter);
    if events.len() > 0 {
        filter_keeps_all(events.drop_last(), pred);
        assert(events.drop_last().push(events.last()) =~= events);
    }
}

} // verus!
