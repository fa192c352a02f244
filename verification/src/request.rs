//! The publish request that the simplified interface hands to the
//! underlying client: a topic, a delivery level, the retain flag and the
//! payload bytes.

use vstd::prelude::*;
use crate::qos::QosLevel;

verus! {

/// A fully determined publish request, as handed to the underlying
/// client.
pub struct PublishRequest {
    /// The topic the message is sent to.
    pub topic: String,
    /// The delivery guarantee requested for the message.
    pub qos: QosLevel,
    /// Whether the broker keeps the message for later subscribers.
    pub retain: bool,
    /// The message content.
    pub payload: Vec<u8>,
}

/// The mathematical content of a `PublishRequest` value.
pub ghost struct PublishModel {
    /// The topic the message is sent to.
    pub topic: Seq<char>,
    /// The delivery guarantee requested for the message.
    pub qos: QosLevel,
    /// Whether the broker keeps the message for later subscribers.
    pub retain: bool,
    /// The message content.
    pub payload: Seq<u8>,
}

impl View for PublishRequest {
    type V = PublishModel;

    open spec fn view(&self) -> PublishModel {
        PublishModel {
            topic: self.topic@,
            qos: self.qos,
            retain: self.retain,
            payload: self.payload@,
        }
    }
}

/// The plain publish request for a message: the retain flag is clear.
pub open spec fn plain_publish_model(
    topic: Seq<char>,
    qos: QosLevel,
    payload: Seq<u8>,
) -> PublishModel {
    PublishModel { topic: topic, qos: qos, retain: false, payload: payload }
}

/// The retained publish request for a message: the retain flag is set.
pub open spec fn retained_publish_model(
    topic: Seq<char>,
    qos: QosLevel,
    payload: Seq<u8>,
) -> PublishModel {
    PublishModel { topic: topic, qos: qos, retain: true, payload: payload }
}

impl PublishRequest {
    /// Builds the plain publish request for a message, with the retain
    /// flag clear.
    pub fn plain(topic: &str, qos: QosLevel, payload: Vec<u8>) -> (r: PublishRequest)
        ensures
            r@ == plain_publish_model(topic@, qos, payload@),
    {
        PublishRequest { topic: topic.to_string(), qos: qos, retain: false, payload: payload }
    }

    /// Builds the retained publish request for a message, with the retain
    /// flag set.
    pub fn retained(topic: &str, qos: QosLevel, payload: Vec<u8>) -> (r: PublishRequest)
        ensures
            r@ == retained_publish_model(topic@, qos, payload@),
    {
        PublishRequest { topic: topic.to_string(), qos: qos, retain: true, payload: payload }
    }
}

/// Law: for one message, the retained request sets the retain flag and the
/// plain request clears it, while topic, delivery level and payload are
/// the same in both.
pub proof fn lemma_retain_flag_is_sole_difference(topic: Seq<char>, qos: QosLevel, payload: Seq<u8>)
    ensures
        plain_publish_model(topic, qos, payload).retain == false,
        retained_publish_model(topic, qos, payload).retain == true,
        retained_publish_model(topic, qos, payload) == (PublishModel {
            retain: true,
            ..plain_publish_model(topic, qos, payload)
        }),
{
}

} // verus!
