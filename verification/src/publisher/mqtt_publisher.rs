use crate::publisher::message::{PublishMessage, PublishMessageView};
use vstd::prelude::*;

verus! {

/// A publisher that is bound to one topic. The broker connection stays with
/// the caller; what is made here is the message to send.
pub struct MqttPublisher {
    topic: String,
}

impl MqttPublisher {
    /// The topic the publisher is bound to.
    pub closed spec fn topic(&self) -> Seq<char> {
        self.topic@
    }

    /// A publisher for `topic`.
    pub fn new(topic: String) -> (publisher: Self)
        ensures
            publisher.topic() == topic@,
    {
        MqttPublisher { topic }
    }

    /// The message that carries `payload`, as it is, on the publisher's
    /// topic.
    pub fn publish(&self, payload: String) -> (message: PublishMessage)
        ensures
            message@ == (PublishMessageView { topic: self.topic(), payload: payload@ }),
    {
        PublishMessage { topic: self.topic.clone(), payload }
    }
}

} // verus!
