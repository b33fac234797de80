use modbus_mqtt_bridge::firmware::bridge::{entry_payload, entry_topic, ModBusMqttBridgeError};
use modbus_mqtt_bridge::firmware::mqtt::MqttError;
use modbus_mqtt_bridge::firmware::registry_map::{RegistryEntry, RegistryType, RegistryValueType};
use rust_mqtt::packet::v5::reason_codes::ReasonCode;

fn entry(topic: &str) -> RegistryEntry<'_> {
    RegistryEntry {
        reg_type: RegistryType::Input,
        address: 0,
        reg_value_type: RegistryValueType::Float,
        topic,
    }
}

#[test]
fn entry_topic_joins_base_and_entry_topic() {
    let topic = entry_topic(&entry("l1_voltage"), "meter-7").unwrap();
    assert_eq!(topic.as_str(), "meter-7/l1_voltage");
}

#[test]
fn entry_topic_fills_the_whole_capacity() {
    let base = "b".repeat(100);
    let specific = "s".repeat(27);
    let topic = entry_topic(&entry(&specific), &base).unwrap();
    assert_eq!(topic.as_str().len(), 128);
}

#[test]
fn entry_topic_reports_what_does_not_fit() {
    let base = "b".repeat(100);
    let specific = "s".repeat(28);
    match entry_topic(&entry(&specific), &base) {
        Err(ModBusMqttBridgeError::TopicFormatError(size, capacity)) => {
            assert_eq!((size, capacity), (129, 128))
        }
        _ => panic!("expected a topic format error"),
    }
    let long_base = "b".repeat(200);
    match entry_topic(&entry("t"), &long_base) {
        Err(ModBusMqttBridgeError::TopicFormatError(size, capacity)) => {
            assert_eq!((size, capacity), (202, 128))
        }
        _ => panic!("expected a topic format error"),
    }
}

#[test]
fn entry_payload_is_test() {
    assert_eq!(entry_payload(), b"test".to_vec());
}

#[test]
fn bridge_error_from_mqtt_error() {
    let err: ModBusMqttBridgeError = MqttError::SendError(ReasonCode::ServerBusy).into();
    match err {
        ModBusMqttBridgeError::MqttError(MqttError::SendError(code)) => {
            assert_eq!(code, ReasonCode::ServerBusy)
        }
        _ => panic!("expected an MQTT error"),
    }
}
