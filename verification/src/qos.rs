//! The quality-of-service levels of the simplified interface, and the
//! mapping from the numeric form that callers use.

use vstd::prelude::*;
use crate::error::MqttError;

verus! {

/// The three MQTT delivery guarantees, in the simplified interface's own
/// form. The numeric levels `0`, `1` and `2` that callers pass stand for
/// the variants in this order.
#[derive(Clone, Copy, Debug, PartialEq, Eq, Structural)]
pub enum QosLevel {
    /// Level 0: the message is sent once and may be lost.
    AtMostOnce,
    /// Level 1: the message arrives at least once and may be duplicated.
    AtLeastOnce,
    /// Level 2: the message arrives exactly once.
    ExactlyOnce,
}

/// The level that a numeric quality-of-service value stands for.
pub open spec fn level_for(qos: u8) -> QosLevel
    recommends
        qos <= 2,
{
    if qos == 0 {
        QosLevel::AtMostOnce
    } else if qos == 1 {
        QosLevel::AtLeastOnce
    } else {
        QosLevel::ExactlyOnce
    }
}

/// The numeric value that a level stands for.
pub open spec fn value_of(level: QosLevel) -> u8 {
    match level {
        QosLevel::AtMostOnce => 0,
        QosLevel::AtLeastOnce => 1,
        QosLevel::ExactlyOnce => 2,
    }
}

/// Maps a numeric quality-of-service value to its level.
///
/// Exactly the values `0`, `1` and `2` are accepted; any other value is
/// rejected with an invalid-QoS error carrying that value.
pub fn qos_from_u8(qos: u8) -> (r: Result<QosLevel, MqttError>)
    ensures
        qos <= 2 ==> r == Ok::<QosLevel, MqttError>(level_for(qos)),
        qos > 2 ==> r == Err::<QosLevel, MqttError>(MqttError::InvalidQos(qos)),
{
    match qos {
        0u8 => Ok(QosLevel::AtMostOnce),
        1u8 => Ok(QosLevel::AtLeastOnce),
        2u8 => Ok(QosLevel::ExactlyOnce),
        _ => Err(MqttError::InvalidQos(qos)),
    }
}

/// Law: for a valid numeric value, reading the numeric value of the level
/// it stands for gives that value back, so distinct valid values stand for
/// distinct levels.
pub proof fn lemma_qos_round_trip(qos: u8)
    ensures
        qos <= 2 ==> value_of(level_for(qos)) == qos,
{
}

/// Declares the underlying library's v3.x delivery enumeration, variants
/// included, so contracts can name them.
#[verifier::external_type_specification]
pub struct ExV3WireQos(rumqttc::mqttbytes::QoS);

/// Declares the underlying library's v5.0 delivery enumeration, variants
/// included, so contracts can name them.
#[verifier::external_type_specification]
pub struct ExV5WireQos(rumqttc::v5::mqttbytes::QoS);

/// The v3.x wire-level delivery enumeration that a level stands for.
pub open spec fn wire_v3_of(level: QosLevel) -> rumqttc::mqttbytes::QoS {
    match level {
        QosLevel::AtMostOnce => rumqttc::mqttbytes::QoS::AtMostOnce,
        QosLevel::AtLeastOnce => rumqttc::mqttbytes::QoS::AtLeastOnce,
        QosLevel::ExactlyOnce => rumqttc::mqttbytes::QoS::ExactlyOnce,
    }
}

/// The v5.0 wire-level delivery enumeration that a level stands for.
pub open spec fn wire_v5_of(level: QosLevel) -> rumqttc::v5::mqttbytes::QoS {
    match level {
        QosLevel::AtMostOnce => rumqttc::v5::mqttbytes::QoS::AtMostOnce,
        QosLevel::AtLeastOnce => rumqttc::v5::mqttbytes::QoS::AtLeastOnce,
        QosLevel::ExactlyOnce => rumqttc::v5::mqttbytes::QoS::ExactlyOnce,
    }
}

/// Converts a level to the v3.x wire-level delivery enumeration.
pub fn wire_qos_v3(level: QosLevel) -> (q: rumqttc::mqttbytes::QoS)
    ensures
        q == wire_v3_of(level),
{
    match level {
        QosLevel::AtMostOnce => rumqttc::mqttbytes::QoS::AtMostOnce,
        QosLevel::AtLeastOnce => rumqttc::mqttbytes::QoS::AtLeastOnce,
        QosLevel::ExactlyOnce => rumqttc::mqttbytes::QoS::ExactlyOnce,
    }
}

/// Converts a level to the v5.0 wire-level delivery enumeration.
pub fn wire_qos_v5(level: QosLevel) -> (q: rumqttc::v5::mqttbytes::QoS)
    ensures
        q == wire_v5_of(level),
{
    match level {
        QosLevel::AtMostOnce => rumqttc::v5::mqttbytes::QoS::AtMostOnce,
        QosLevel::AtLeastOnce => rumqttc::v5::mqttbytes::QoS::AtLeastOnce,
        QosLevel::ExactlyOnce => rumqttc::v5::mqttbytes::QoS::ExactlyOnce,
    }
}

} // verus!
