use modbus_mqtt_bridge::status_led::{exception_blink_pattern, LedStep};

#[test]
fn exception_pattern_blinks_the_given_times() {
    let steps = exception_blink_pattern(3);
    assert_eq!(steps.len(), 6);
    for (i, step) in steps.iter().enumerate() {
        assert_eq!(*step, LedStep { on: i % 2 == 0, hold_ms: 100 });
    }
    assert!(exception_blink_pattern(0).is_empty());
}
