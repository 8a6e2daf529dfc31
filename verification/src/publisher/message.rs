use crate::config::AppConfig;
use crate::measure::{compact_text, Measure};
use vstd::prelude::*;
use vstd::string::*;

verus! {

/// One message for the publish sink. It is handed over once and never kept.
#[derive(Debug, PartialEq, Eq)]
pub struct PublishMessage {
    pub topic: String,
    pub payload: String,
}

pub struct PublishMessageView {
    pub topic: Seq<char>,
    pub payload: Seq<char>,
}

impl View for PublishMessage {
    type V = PublishMessageView;

    open spec fn view(&self) -> PublishMessageView {
        PublishMessageView { topic: self.topic@, payload: self.payload@ }
    }
}

/// What precedes the number in a payload: `{"value": `.
pub open spec fn payload_head() -> Seq<char> {
    seq!['{', '"', 'v', 'a', 'l', 'u', 'e', '"', ':', ' ']
}

/// The payload that carries `value`: the JSON object `{"value": 343.1}`.
pub open spec fn payload_text(value: Measure) -> Seq<char> {
    (payload_head() + compact_text(value.hundredths as int)).push('}')
}

/// The payload that carries `value`.
pub fn value_payload(value: Measure) -> (payload: String)
    ensures
        payload@ == payload_text(value),
{
    let mut payload = String::from_str("{\"value\": ");
    let number = value.compact();
    payload.append(number.as_str());
    payload.append("}");
    proof {
        reveal_strlit("{\"value\": ");
        reveal_strlit("}");
        assert(payload@ =~= payload_text(value));
    }
    payload
}

/// The topic on which a node says once, at startup, which plant it watches.
pub const PLANT_NAME_TOPIC: &'static str = "config/plant_name";

/// The message that announces the plant of `app_config`: its name, as it is,
/// on `PLANT_NAME_TOPIC`.
pub fn plant_name_announcement(app_config: &AppConfig) -> (message: PublishMessage)
    ensures
        message@ == (PublishMessageView {
            topic: PLANT_NAME_TOPIC@,
            payload: app_config.plant_display.plant_name@,
        }),
{
    PublishMessage {
        topic: String::from_str(PLANT_NAME_TOPIC),
        payload: app_config.plant_display.plant_name.clone(),
    }
}

impl PublishMessage {
    /// The message that reports `value` on `topic`.
    pub fn new(topic: &str, value: Measure) -> (message: Self)
        ensures
            message@ == (PublishMessageView { topic: topic@, payload: payload_text(value) }),
    {
        PublishMessage { topic: String::from_str(topic), payload: value_payload(value) }
    }
}

} // verus!
