//! The settings and rules of the message-bus client.

use vstd::prelude::*;
use vstd::string::StringExecFns;

pub mod events;

verus! {

/// The name of the environment variable that holds the bus address.
pub const NATS_URL_ENV: &'static str = "NATS_URL";

/// The bus address of a local installation.
pub const DEFAULT_NATS_URL: &'static str = "nats://localhost:4222";

/// The message-bus client of a service.
#[derive(Clone)]
pub struct NatsClient;

/// The settings of a connection to the message bus. Delays are in
/// milliseconds.
#[derive(Debug, Clone)]
pub struct NatsConfig {
    /// The address of the bus, or several separated by commas.
    pub url: String,
    /// The most reconnection attempts; zero for no limit.
    pub max_reconnects: usize,
    /// The delay before the first reconnection attempt.
    pub reconnect_delay: u64,
    /// The longest delay between reconnection attempts.
    pub max_reconnect_delay: u64,
    /// The name under which the connection is known.
    pub connection_name: String,
}

/// The settings of a connection as plain values.
pub struct ConnectionSettings {
    pub url: Seq<char>,
    pub max_reconnects: usize,
    pub reconnect_delay: u64,
    pub max_reconnect_delay: u64,
    pub connection_name: Seq<char>,
}

impl ConnectionSettings {
    /// The settings of a connection under `name` to the bus at `url`:
    /// reconnection without limit, after half a second at first and thirty
    /// seconds at most.
    pub open spec fn standard(url: Seq<char>, name: Seq<char>) -> Self {
        ConnectionSettings {
            url,
            max_reconnects: 0,
            reconnect_delay: 500,
            max_reconnect_delay: 30000,
            connection_name: name,
        }
    }
}

impl View for NatsConfig {
    type V = ConnectionSettings;

    open spec fn view(&self) -> ConnectionSettings {
        ConnectionSettings {
            url: self.url@,
            max_reconnects: self.max_reconnects,
            reconnect_delay: self.reconnect_delay,
            max_reconnect_delay: self.max_reconnect_delay,
            connection_name: self.connection_name@,
        }
    }
}

impl Default for NatsConfig {
    /// The standard settings for the local bus, under the name `lanai-service`.
    fn default() -> (config: Self)
        ensures
            config@ == ConnectionSettings::standard(DEFAULT_NATS_URL@, "lanai-service"@),
    {
        NatsConfig::for_service("lanai-service")
    }
}

/// Two to the power of `exponent`.
pub open spec fn power_of_two(exponent: nat) -> nat
    decreases exponent,
{
    if exponent == 0 {
        1
    } else {
        2 * power_of_two((exponent - 1) as nat)
    }
}

/// The smaller of `delay` doubled `doublings` times and `longest`.
pub open spec fn doubled_delay(delay: u64, doublings: nat, longest: u64) -> int {
    if delay * power_of_two(doublings) < longest {
        delay * power_of_two(doublings)
    } else {
        longest as int
    }
}

/// Doubles `delay` as often as asked, stopping at `longest`.
fn double_up_to(delay: u64, doublings: usize, longest: u64) -> (result: u64)
    ensures
        result == doubled_delay(delay, doublings as nat, longest),
{
    if delay == 0 {
        assert(delay * power_of_two(doublings as nat) == 0) by (nonlinear_arith)
            requires
                delay == 0,
        ;
        return 0;
    }
    let mut current: u64 = delay;
    let mut done: usize = 0;
    assert(delay * power_of_two(0) == delay) by (nonlinear_arith)
        requires
            power_of_two(0) == 1,
    ;
    while done < doublings && current < longest
        invariant
            done <= doublings,
            delay > 0,
            current == delay * power_of_two(done as nat),
        decreases doublings - done,
    {
        assert(power_of_two((done + 1) as nat) == 2 * power_of_two(done as nat));
        assert(delay * (2 * power_of_two(done as nat)) == 2 * (delay * power_of_two(
            done as nat,
        ))) by (nonlinear_arith);
        if current > longest / 2 {
            proof {
                growth(delay, (done + 1) as nat, doublings as nat);
            }
            return longest;
        }
        current = current * 2;
        done += 1;
    }
    if current < longest {
        current
    } else {
        proof {
            growth(delay, done as nat, doublings as nat);
        }
        longest
    }
}

proof fn growth(delay: u64, fewer: nat, more: nat)
    requires
        fewer <= more,
    ensures
        delay * power_of_two(fewer) <= delay * power_of_two(more),
    decreases more - fewer,
{
    if fewer < more {
        growth(delay, fewer, (more - 1) as nat);
        assert(delay * power_of_two((more - 1) as nat) <= delay * (2 * power_of_two(
            (more - 1) as nat,
        ))) by (nonlinear_arith);
    }
}

impl NatsConfig {
    /// The standard settings for the local bus, under the name of a service.
    pub fn for_service(service_name: &str) -> (config: Self)
        ensures
            config@ == ConnectionSettings::standard(DEFAULT_NATS_URL@, service_name@),
    {
        NatsConfig {
            url: String::from_str(DEFAULT_NATS_URL),
            max_reconnects: 0,
            reconnect_delay: 500,
            max_reconnect_delay: 30000,
            connection_name: String::from_str(service_name),
        }
    }

    /// The same settings for the bus at `url`.
    pub fn with_url(self, url: &str) -> (config: Self)
        ensures
            config@ == (ConnectionSettings { url: url@, ..self@ }),
    {
        let mut config = self;
        config.url = String::from_str(url);
        config
    }

    /// The delay before a reconnection attempt, apart from jitter: the first
    /// delay doubled once for every earlier attempt, and the longest delay at
    /// most.
    pub fn backoff_delay(&self, attempts: usize) -> (delay: u64)
        ensures
            delay == doubled_delay(self.reconnect_delay, attempts as nat, self.max_reconnect_delay),
    {
        double_up_to(self.reconnect_delay, attempts, self.max_reconnect_delay)
    }
}

/// The state of the connection to the bus.
#[derive(Debug, Clone, Copy, PartialEq, Eq, Structural)]
pub enum ConnectionState {
    Connected,
    Pending,
    Disconnected,
}

/// The word for the state of a client; `None` stands for a client that was
/// never started.
pub open spec fn status_word(state: Option<ConnectionState>) -> Seq<char> {
    match state {
        Some(ConnectionState::Connected) => "connected"@,
        Some(ConnectionState::Pending) => "connecting"@,
        Some(ConnectionState::Disconnected) => "disconnected"@,
        None => "not_initialized"@,
    }
}

/// What a publisher does after a failed attempt.
#[derive(Debug, Clone, Copy, PartialEq, Eq, Structural)]
pub enum RetryStep {
    /// Wait for so many milliseconds, then publish again.
    RetryAfter(u64),
    /// Give up and hand the error on.
    GiveUp,
}

/// The step after a failure that followed `retries` retries, with at most
/// `max_retries` allowed: the next retry comes after a hundred milliseconds
/// doubled once for every retry so far and once more.
pub open spec fn retry_step(retries: u32, max_retries: u32) -> RetryStep {
    if retries < max_retries {
        RetryStep::RetryAfter(doubled_delay(100, (retries + 1) as nat, u64::MAX) as u64)
    } else {
        RetryStep::GiveUp
    }
}

impl NatsClient {
    /// Whether a client in this state is connected.
    pub fn is_connected(state: Option<ConnectionState>) -> (connected: bool)
        ensures
            connected == (state == Some(ConnectionState::Connected)),
    {
        match state {
            Some(ConnectionState::Connected) => true,
            _ => false,
        }
    }

    /// The word for the state of a client.
    pub fn connection_status(state: Option<ConnectionState>) -> (word: &'static str)
        ensures
            word@ == status_word(state),
    {
        match state {
            Some(ConnectionState::Connected) => "connected",
            Some(ConnectionState::Pending) => "connecting",
            Some(ConnectionState::Disconnected) => "disconnected",
            None => "not_initialized",
        }
    }

    /// What to do after a failed attempt to publish that followed `retries`
    /// retries.
    pub fn after_failed_publish(retries: u32, max_retries: u32) -> (step: RetryStep)
        ensures
            step == retry_step(retries, max_retries),
    {
        if retries < max_retries {
            RetryStep::RetryAfter(double_up_to(100, (retries + 1) as usize, u64::MAX))
        } else {
            RetryStep::GiveUp
        }
    }
}

/// The ways in which publishing can fail.
#[derive(Debug)]
pub enum NatsError {
    /// The client was never started.
    NotInitialized,
    /// The event could not be turned into bytes.
    SerializationError(String),
    /// The bus refused the message.
    PublishError(String),
    /// The connection failed.
    ConnectionError(String),
}

impl NatsError {
    /// What [`NatsError::message`] returns.
    pub open spec fn message_text(self) -> Seq<char> {
        match self {
            NatsError::NotInitialized =>
                "NATS client not initialized. Call NatsClient::init() first."@,
            NatsError::SerializationError(detail) => "Failed to serialize event: "@ + detail@,
            NatsError::PublishError(detail) => "Failed to publish message: "@ + detail@,
            NatsError::ConnectionError(detail) => "Connection error: "@ + detail@,
        }
    }

    /// The error as a line of text.
    pub fn message(&self) -> (text: String)
        ensures
            text@ == self.message_text(),
    {
        match self {
            NatsError::NotInitialized => String::from_str(
                "NATS client not initialized. Call NatsClient::init() first.",
            ),
            NatsError::SerializationError(detail) => String::from_str(
                "Failed to serialize event: ",
            ).concat(detail.as_str()),
            NatsError::PublishError(detail) => String::from_str(
                "Failed to publish message: ",
            ).concat(detail.as_str()),
            NatsError::ConnectionError(detail) => String::from_str("Connection error: ").concat(
                detail.as_str(),
            ),
        }
    }
}

} // verus!
