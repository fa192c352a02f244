//! Checks of the plain-data layer: the QoS mapping, the connection
//! options and the publish request.

use simple_mqtt::error::MqttError;
use simple_mqtt::options::{V3Options, V5Options};
use simple_mqtt::qos::{qos_from_u8, wire_qos_v3, wire_qos_v5, QosLevel};
use simple_mqtt::request::PublishRequest;

#[test]
fn qos_mapping_accepts_each_valid_value() {
    assert_eq!(qos_from_u8(0), Ok(QosLevel::AtMostOnce));
    assert_eq!(qos_from_u8(1), Ok(QosLevel::AtLeastOnce));
    assert_eq!(qos_from_u8(2), Ok(QosLevel::ExactlyOnce));
}

#[test]
fn qos_mapping_rejects_other_values_carrying_them() {
    assert_eq!(qos_from_u8(3), Err(MqttError::InvalidQos(3)));
    assert_eq!(qos_from_u8(4), Err(MqttError::InvalidQos(4)));
    assert_eq!(qos_from_u8(255), Err(MqttError::InvalidQos(255)));
}

#[test]
fn wire_conversion_matches_levels_v3() {
    assert!(matches!(
        wire_qos_v3(QosLevel::AtMostOnce),
        rumqttc::mqttbytes::QoS::AtMostOnce
    ));
    assert!(matches!(
        wire_qos_v3(QosLevel::AtLeastOnce),
        rumqttc::mqttbytes::QoS::AtLeastOnce
    ));
    assert!(matches!(
        wire_qos_v3(QosLevel::ExactlyOnce),
        rumqttc::mqttbytes::QoS::ExactlyOnce
    ));
}

#[test]
fn wire_conversion_matches_levels_v5() {
    assert!(matches!(
        wire_qos_v5(QosLevel::AtMostOnce),
        rumqttc::v5::mqttbytes::QoS::AtMostOnce
    ));
    assert!(matches!(
        wire_qos_v5(QosLevel::AtLeastOnce),
        rumqttc::v5::mqttbytes::QoS::AtLeastOnce
    ));
    assert!(matches!(
        wire_qos_v5(QosLevel::ExactlyOnce),
        rumqttc::v5::mqttbytes::QoS::ExactlyOnce
    ));
}

#[test]
fn v3_standard_options_carry_fixed_settings() {
    let options = V3Options::standard("device-1", "broker.local", 1883);
    assert_eq!(options.id, "device-1");
    assert_eq!(options.host, "broker.local");
    assert_eq!(options.port, 1883);
    assert_eq!(options.keep_alive_secs, 15);
    assert!(options.clean_session);
    assert_eq!(options.max_incoming_packet_size, 1048576);
    assert_eq!(options.max_outgoing_packet_size, 1048576);
    assert!(options.credentials.is_none());
}

#[test]
fn v5_standard_options_carry_fixed_settings() {
    let options = V5Options::standard("device-2", "broker.local", 1884);
    assert_eq!(options.id, "device-2");
    assert_eq!(options.host, "broker.local");
    assert_eq!(options.port, 1884);
    assert_eq!(options.keep_alive_secs, 15);
    assert!(options.clean_start);
    assert_eq!(options.connection_timeout_secs, 30);
    assert_eq!(options.max_packet_size, Some(1048576));
    assert!(options.credentials.is_none());
}

#[test]
fn v3_credentials_attached_exactly() {
    let options = V3Options::standard("device-1", "broker.local", 1883)
        .with_credentials("alice", "pw-alice");
    match &options.credentials {
        Some(c) => {
            assert_eq!(c.username, "alice");
            assert_eq!(c.password, "pw-alice");
        }
        None => panic!("credentials were not attached"),
    }
    assert_eq!(options.keep_alive_secs, 15);
    assert!(options.clean_session);
    assert_eq!(options.max_incoming_packet_size, 1048576);
    assert_eq!(options.max_outgoing_packet_size, 1048576);
    assert_eq!(options.id, "device-1");
    assert_eq!(options.host, "broker.local");
    assert_eq!(options.port, 1883);
}

#[test]
fn v5_credentials_attached_exactly() {
    let options = V5Options::standard("device-2", "broker.local", 1884)
        .with_credentials("bob", "pw-bob");
    match &options.credentials {
        Some(c) => {
            assert_eq!(c.username, "bob");
            assert_eq!(c.password, "pw-bob");
        }
        None => panic!("credentials were not attached"),
    }
    assert_eq!(options.keep_alive_secs, 15);
    assert!(options.clean_start);
    assert_eq!(options.connection_timeout_secs, 30);
    assert_eq!(options.max_packet_size, Some(1048576));
}

#[test]
fn retain_flag_is_the_sole_difference() {
    let plain = PublishRequest::plain("sensors/a", QosLevel::AtLeastOnce, vec![1, 2, 3]);
    let retained = PublishRequest::retained("sensors/a", QosLevel::AtLeastOnce, vec![1, 2, 3]);
    assert!(!plain.retain);
    assert!(retained.retain);
    assert_eq!(plain.topic, retained.topic);
    assert_eq!(plain.qos, retained.qos);
    assert_eq!(plain.payload, retained.payload);
}
