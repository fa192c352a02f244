//! Checks of the client wrappers against the real underlying library.
//!
//! No broker is reached: every operation only enqueues a request onto the
//! bounded queue between the client and its (undriven) event loop, so the
//! enqueue behaviour, including saturation, is observable offline.

use simple_mqtt::client::{DefaultClient, DefaultV5Client, QUEUE_CAPACITY};
use simple_mqtt::error::MqttError;
use simple_mqtt::Client;

#[test]
fn v3_client_constructs() {
    let (client, _event_loop) = DefaultClient::new("id-1", "broker.local", 1883);
    assert_eq!(client.publish("topic/a", 0, vec![1]), Ok(()));
}

#[test]
fn v3_client_with_credentials_constructs() {
    let (client, _event_loop) =
        DefaultClient::new_username_password("id-1", "broker.local", 1883, "alice", "pw-alice");
    assert_eq!(client.publish("topic/a", 0, vec![1]), Ok(()));
}

#[test]
fn v5_client_constructs() {
    let (client, _event_loop) = DefaultV5Client::new("id-2", "broker.local", 1883);
    assert_eq!(client.publish("topic/a", 0, vec![1]), Ok(()));
}

#[test]
fn v5_client_with_credentials_constructs() {
    let (client, _event_loop) =
        DefaultV5Client::new_username_password("id-2", "broker.local", 1883, "bob", "pw-bob");
    assert_eq!(client.publish("topic/a", 0, vec![1]), Ok(()));
}

#[test]
fn v3_operations_reject_invalid_qos_without_enqueueing() {
    let (client, _event_loop) = DefaultClient::new("id-1", "broker.local", 1883);
    assert_eq!(client.publish("topic/a", 3, vec![]), Err(MqttError::InvalidQos(3)));
    assert_eq!(client.publish_retain("topic/a", 9, vec![]), Err(MqttError::InvalidQos(9)));
    assert_eq!(client.subscribe("topic/a", 255), Err(MqttError::InvalidQos(255)));
    // Nothing was enqueued by the rejected calls: the queue still takes
    // its full capacity of valid requests.
    for _ in 0..QUEUE_CAPACITY {
        assert_eq!(client.publish("topic/a", 0, vec![]), Ok(()));
    }
    assert_eq!(client.publish("topic/a", 0, vec![]), Err(MqttError::RequestFailed));
}

#[test]
fn v5_operations_reject_invalid_qos() {
    let (client, _event_loop) = DefaultV5Client::new("id-2", "broker.local", 1883);
    assert_eq!(client.publish("topic/a", 3, vec![]), Err(MqttError::InvalidQos(3)));
    assert_eq!(client.publish_retain("topic/a", 200, vec![]), Err(MqttError::InvalidQos(200)));
    assert_eq!(client.subscribe("topic/a", 4), Err(MqttError::InvalidQos(4)));
}

#[test]
fn v3_enqueue_fails_at_capacity() {
    let (client, _event_loop) = DefaultClient::new("id-1", "broker.local", 1883);
    for i in 0..QUEUE_CAPACITY {
        assert_eq!(client.publish("topic/a", 1, vec![i as u8]), Ok(()));
    }
    // The bounded queue is full: each further operation fails at once.
    assert_eq!(client.publish("topic/a", 1, vec![]), Err(MqttError::RequestFailed));
    assert_eq!(client.publish_retain("topic/a", 0, vec![]), Err(MqttError::RequestFailed));
    assert_eq!(client.subscribe("topic/b", 0), Err(MqttError::RequestFailed));
    assert_eq!(client.unsubscribe("topic/b"), Err(MqttError::RequestFailed));
}

#[test]
fn v5_enqueue_fails_at_capacity() {
    let (client, _event_loop) = DefaultV5Client::new("id-2", "broker.local", 1883);
    for _ in 0..QUEUE_CAPACITY {
        assert_eq!(client.subscribe("topic/a", 2), Ok(()));
    }
    assert_eq!(client.publish("topic/a", 1, vec![]), Err(MqttError::RequestFailed));
    assert_eq!(client.publish_retain("topic/a", 0, vec![]), Err(MqttError::RequestFailed));
    assert_eq!(client.subscribe("topic/b", 0), Err(MqttError::RequestFailed));
    assert_eq!(client.unsubscribe("topic/b"), Err(MqttError::RequestFailed));
}

#[test]
fn v3_mixed_operations_fill_the_queue() {
    let (client, _event_loop) = DefaultClient::new("id-1", "broker.local", 1883);
    assert_eq!(client.publish("topic/a", 0, b"plain".to_vec()), Ok(()));
    assert_eq!(client.publish_retain("topic/a", 1, b"kept".to_vec()), Ok(()));
    assert_eq!(client.subscribe("topic/b", 2), Ok(()));
    assert_eq!(client.unsubscribe("topic/b"), Ok(()));
    for _ in 4..QUEUE_CAPACITY {
        assert_eq!(client.unsubscribe("topic/c"), Ok(()));
    }
    assert_eq!(client.unsubscribe("topic/c"), Err(MqttError::RequestFailed));
}

#[test]
fn v3_enqueue_fails_once_event_loop_is_gone() {
    let (client, event_loop) = DefaultClient::new("id-1", "broker.local", 1883);
    drop(event_loop);
    // The receiving end of the request queue is gone: the failure is
    // reported at once, not retried.
    assert_eq!(client.publish("topic/a", 0, vec![]), Err(MqttError::RequestFailed));
}

#[test]
fn get_client_exposes_the_underlying_client() {
    let (client, _event_loop) = DefaultClient::new("id-1", "broker.local", 1883);
    // The escape hatch reaches operations the simplified interface does
    // not cover.
    let raw = client.get_client();
    assert!(raw.try_disconnect().is_ok());
}

#[test]
fn v5_get_client_exposes_the_underlying_client() {
    let (client, _event_loop) = DefaultV5Client::new("id-2", "broker.local", 1883);
    let raw = client.get_client();
    assert!(raw.try_disconnect().is_ok());
}
