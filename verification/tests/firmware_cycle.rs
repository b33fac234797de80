use modbus_mqtt_bridge::firmware::cycle::{
    pico_start, pico_step, PicoCycle, PicoCycleAction, PicoCycleEvent, PicoCycleState,
};

#[test]
fn pico_cycle_retries_every_five_seconds() {
    let (c, actions) = pico_start();
    assert_eq!(c, PicoCycle { state: PicoCycleState::Connecting, led_status: false });
    assert_eq!(actions, vec![PicoCycleAction::SetLed(true), PicoCycleAction::Connect]);
    let (c, actions) = pico_step(3, c, PicoCycleEvent::Connected(false));
    assert_eq!(c.state, PicoCycleState::Retrying);
    assert_eq!(actions, vec![PicoCycleAction::SetLed(false), PicoCycleAction::Wait { ms: 5000 }]);
    let (c, actions) = pico_step(3, c, PicoCycleEvent::Waited);
    assert_eq!(c.state, PicoCycleState::Connecting);
    assert_eq!(actions, vec![PicoCycleAction::SetLed(true), PicoCycleAction::Connect]);
}

#[test]
fn pico_cycle_rounds_toggle_the_led_and_stay_connected() {
    let c = PicoCycle { state: PicoCycleState::JoiningBroker, led_status: false };
    let (c, actions) = pico_step(2, c, PicoCycleEvent::BrokerJoined(true));
    assert_eq!(actions, vec![PicoCycleAction::Publish { entry: 0 }]);
    let (c, actions) = pico_step(2, c, PicoCycleEvent::EntrySent(true));
    assert_eq!(actions, vec![PicoCycleAction::Publish { entry: 1 }]);
    let (c, actions) = pico_step(2, c, PicoCycleEvent::EntrySent(true));
    assert_eq!(c, PicoCycle { state: PicoCycleState::Resting, led_status: true });
    assert_eq!(actions, vec![PicoCycleAction::SetLed(true), PicoCycleAction::Wait { ms: 5000 }]);
    let (c, actions) = pico_step(2, c, PicoCycleEvent::Waited);
    assert_eq!(c.state, PicoCycleState::Publishing { next: 0 });
    assert_eq!(actions, vec![PicoCycleAction::Publish { entry: 0 }]);
    let (c, actions) = pico_step(2, c, PicoCycleEvent::EntrySent(false));
    assert_eq!(c, PicoCycle { state: PicoCycleState::Resting, led_status: false });
    assert_eq!(actions, vec![PicoCycleAction::SetLed(false), PicoCycleAction::Wait { ms: 5000 }]);
}
