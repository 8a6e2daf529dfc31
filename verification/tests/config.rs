use plant_telemetry::config::load_config;
use plant_telemetry::publisher::message::{
    plant_name_announcement, value_payload, PublishMessage, PLANT_NAME_TOPIC,
};
use plant_telemetry::measure::Measure;

#[test]
fn built_in_configuration() {
    let config = load_config().unwrap();
    assert_eq!(config.wifi.ssid, "Vodafone-94BC");
    assert_eq!(config.wifi.password, "");
    assert_eq!(config.home_assistant.url, "mqtt://192.168.0.83:1883");
    assert_eq!(config.plant_display.plant_name, "Vilem zahradni");
}

#[test]
fn announcement_carries_the_plant_name() {
    let config = load_config().unwrap();
    let message = plant_name_announcement(&config);
    assert_eq!(PLANT_NAME_TOPIC, "config/plant_name");
    assert_eq!(message.topic, "config/plant_name");
    assert_eq!(message.payload, "Vilem zahradni");
}

#[test]
fn payload_is_a_json_object() {
    assert_eq!(value_payload(Measure::from_hundredths(34_310)), "{\"value\": 343.1}");
    assert_eq!(value_payload(Measure::from_hundredths(5_000)), "{\"value\": 50.0}");
    assert_eq!(value_payload(Measure::from_hundredths(0)), "{\"value\": 0.0}");
    assert_eq!(value_payload(Measure::from_hundredths(-1_205)), "{\"value\": -12.05}");
}

#[test]
fn message_has_topic_and_payload() {
    let message = PublishMessage::new("sensor/light_intensity", Measure::from_hundredths(34_310));
    assert_eq!(
        message,
        PublishMessage {
            topic: String::from("sensor/light_intensity"),
            payload: String::from("{\"value\": 343.1}"),
        }
    );
}

#[test]
fn publisher_binds_payloads_to_its_topic() {
    let publisher = plant_telemetry::publisher::mqtt_publisher::MqttPublisher::new(
        String::from("sensor/soil_moisture"),
    );
    assert_eq!(
        publisher.publish(String::from("{\"value\": 50.0}")),
        PublishMessage {
            topic: String::from("sensor/soil_moisture"),
            payload: String::from("{\"value\": 50.0}"),
        }
    );
    assert_eq!(
        publisher.publish(String::new()),
        PublishMessage { topic: String::from("sensor/soil_moisture"), payload: String::new() }
    );
}
