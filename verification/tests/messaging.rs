use lanai_infrastructure::messaging::events::{product_created_subject, return_completed_subject};
use lanai_infrastructure::messaging::{
    ConnectionState, NatsClient, NatsConfig, NatsError, RetryStep, DEFAULT_NATS_URL, NATS_URL_ENV,
};

#[test]
fn test_default_config() {
    let config = NatsConfig::default();
    assert_eq!(config.max_reconnects, 0);
    assert_eq!(config.reconnect_delay, 500);
}

#[test]
fn test_service_config() {
    let config = NatsConfig::for_service("lanai-inventory-service");
    assert_eq!(config.connection_name, "lanai-inventory-service");
}

#[test]
fn default_config_in_full() {
    let config = NatsConfig::default();
    assert_eq!(config.url, "nats://localhost:4222");
    assert_eq!(config.url, DEFAULT_NATS_URL);
    assert_eq!(config.max_reconnect_delay, 30_000);
    assert_eq!(config.connection_name, "lanai-service");
    assert_eq!(NATS_URL_ENV, "NATS_URL");
    let moved = config.with_url("nats://bus:4222");
    assert_eq!(moved.url, "nats://bus:4222");
    assert_eq!(moved.connection_name, "lanai-service");
}

#[test]
fn backoff_doubles_up_to_the_longest_delay() {
    let config = NatsConfig::default();
    assert_eq!(config.backoff_delay(0), 500);
    assert_eq!(config.backoff_delay(1), 1_000);
    assert_eq!(config.backoff_delay(2), 2_000);
    assert_eq!(config.backoff_delay(5), 16_000);
    assert_eq!(config.backoff_delay(6), 30_000);
    assert_eq!(config.backoff_delay(64), 30_000);
    assert_eq!(config.backoff_delay(usize::MAX), 30_000);
    let mut still = NatsConfig::default();
    still.reconnect_delay = 0;
    assert_eq!(still.backoff_delay(10), 0);
    let mut wide = NatsConfig::default();
    wide.reconnect_delay = 3;
    wide.max_reconnect_delay = u64::MAX;
    assert_eq!(wide.backoff_delay(2), 12);
    assert_eq!(wide.backoff_delay(100), u64::MAX);
}

#[test]
fn retries_back_off_and_end() {
    assert_eq!(NatsClient::after_failed_publish(0, 3), RetryStep::RetryAfter(200));
    assert_eq!(NatsClient::after_failed_publish(1, 3), RetryStep::RetryAfter(400));
    assert_eq!(NatsClient::after_failed_publish(2, 3), RetryStep::RetryAfter(800));
    assert_eq!(NatsClient::after_failed_publish(3, 3), RetryStep::GiveUp);
    assert_eq!(NatsClient::after_failed_publish(0, 0), RetryStep::GiveUp);
}

#[test]
fn connection_states_have_words() {
    assert_eq!(NatsClient::connection_status(Some(ConnectionState::Connected)), "connected");
    assert_eq!(NatsClient::connection_status(Some(ConnectionState::Pending)), "connecting");
    assert_eq!(
        NatsClient::connection_status(Some(ConnectionState::Disconnected)),
        "disconnected"
    );
    assert_eq!(NatsClient::connection_status(None), "not_initialized");
    assert!(NatsClient::is_connected(Some(ConnectionState::Connected)));
    assert!(!NatsClient::is_connected(Some(ConnectionState::Pending)));
    assert!(!NatsClient::is_connected(None));
}

#[test]
fn bus_errors_have_messages() {
    assert_eq!(
        NatsError::NotInitialized.message(),
        "NATS client not initialized. Call NatsClient::init() first."
    );
    assert_eq!(
        NatsError::SerializationError("bad".to_string()).message(),
        "Failed to serialize event: bad"
    );
    assert_eq!(
        NatsError::PublishError("full".to_string()).message(),
        "Failed to publish message: full"
    );
    assert_eq!(
        NatsError::ConnectionError("gone".to_string()).message(),
        "Connection error: gone"
    );
}

#[test]
fn event_subjects() {
    assert_eq!(
        product_created_subject("6f9619ff-8b86-d011-b42d-00c04fc964ff"),
        "lanai.inventory.product.created.6f9619ff-8b86-d011-b42d-00c04fc964ff"
    );
    assert_eq!(return_completed_subject("org"), "lanai.sales.return.completed.org");
}
