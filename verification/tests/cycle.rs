use modbus_mqtt_bridge::configuration::{
    Configuration, MqttConfiguration, NetworkConfiguration, Parity, SerialConfiguration,
};
use modbus_mqtt_bridge::cycle::{cycle_start, cycle_step, CycleAction, CycleEvent, CycleState};

fn config(inter_request_delay: Option<u64>) -> Configuration<'static> {
    Configuration {
        mqtt: MqttConfiguration { endpoint: "127.0.0.1:1883", username: "u", password: "p", device_id: "d" },
        network: NetworkConfiguration { name: "n", password: "p" },
        serial: SerialConfiguration { baud_rate: 9600, data_bits: 8, parity: Parity::NoParity, stop_bits: 1 },
        polling_interval: 60000,
        reconnect_delay: 3000,
        inter_request_delay,
    }
}

#[test]
fn cycle_connects_with_the_reconnect_delay_as_timeout() {
    let (state, actions) = cycle_start(&config(None));
    assert_eq!(state, CycleState::Connecting);
    assert_eq!(actions, vec![CycleAction::SetLed(true), CycleAction::Connect { timeout_ms: 3000 }]);
}

#[test]
fn cycle_retries_after_a_failed_connection_or_broker() {
    let c = config(None);
    let (state, actions) = cycle_step(&c, 2, CycleState::Connecting, CycleEvent::Connected(false));
    assert_eq!(state, CycleState::Retrying);
    assert_eq!(actions, vec![CycleAction::SetLed(false), CycleAction::Wait { ms: 3000 }]);
    let (state, actions) = cycle_step(&c, 2, state, CycleEvent::Waited);
    assert_eq!(state, CycleState::Connecting);
    assert_eq!(actions, vec![CycleAction::SetLed(true), CycleAction::Connect { timeout_ms: 3000 }]);
    let (state, actions) = cycle_step(&c, 2, CycleState::JoiningBroker, CycleEvent::BrokerJoined(false));
    assert_eq!(state, CycleState::Retrying);
    assert_eq!(actions, vec![CycleAction::Wait { ms: 3000 }]);
}

#[test]
fn cycle_publishes_every_entry_then_disconnects_and_rests() {
    let c = config(None);
    let (state, actions) = cycle_step(&c, 2, CycleState::Connecting, CycleEvent::Connected(true));
    assert_eq!(actions, vec![CycleAction::SetLed(false), CycleAction::JoinBroker]);
    let (state, actions) = cycle_step(&c, 2, state, CycleEvent::BrokerJoined(true));
    assert_eq!(state, CycleState::Publishing { next: 0 });
    assert_eq!(actions, vec![CycleAction::SetLed(true), CycleAction::Publish { entry: 0 }]);
    let (state, actions) = cycle_step(&c, 2, state, CycleEvent::EntryDone(true));
    assert_eq!(state, CycleState::Publishing { next: 1 });
    assert_eq!(
        actions,
        vec![CycleAction::SetLed(false), CycleAction::SetLed(true), CycleAction::Publish { entry: 1 }]
    );
    let (state, actions) = cycle_step(&c, 2, state, CycleEvent::EntryDone(true));
    assert_eq!(state, CycleState::Disconnecting);
    assert_eq!(
        actions,
        vec![CycleAction::SetLed(false), CycleAction::SetLed(false), CycleAction::Disconnect]
    );
    let (state, actions) = cycle_step(&c, 2, state, CycleEvent::Disconnected);
    assert_eq!(state, CycleState::Resting);
    assert_eq!(actions, vec![CycleAction::Wait { ms: 60000 }]);
    let (state, _) = cycle_step(&c, 2, state, CycleEvent::Waited);
    assert_eq!(state, CycleState::Connecting);
}

#[test]
fn cycle_waits_between_requests() {
    let c = config(Some(250));
    let (state, actions) = cycle_step(&c, 1, CycleState::Publishing { next: 0 }, CycleEvent::EntryDone(true));
    assert_eq!(state, CycleState::BetweenEntries { next: 1 });
    assert_eq!(actions, vec![CycleAction::SetLed(false), CycleAction::Wait { ms: 250 }]);
    let (state, actions) = cycle_step(&c, 1, state, CycleEvent::Waited);
    assert_eq!(state, CycleState::Disconnecting);
    assert_eq!(actions, vec![CycleAction::SetLed(false), CycleAction::Disconnect]);
}

#[test]
fn cycle_ends_the_round_at_a_failed_entry() {
    let c = config(None);
    let (state, actions) = cycle_step(&c, 5, CycleState::Publishing { next: 2 }, CycleEvent::EntryDone(false));
    assert_eq!(state, CycleState::Disconnecting);
    assert_eq!(
        actions,
        vec![CycleAction::BlinkFailure { blinks: 3 }, CycleAction::SetLed(false), CycleAction::Disconnect]
    );
}

#[test]
fn cycle_with_an_empty_map_disconnects_at_once() {
    let c = config(None);
    let (state, actions) = cycle_step(&c, 0, CycleState::JoiningBroker, CycleEvent::BrokerJoined(true));
    assert_eq!(state, CycleState::Disconnecting);
    assert_eq!(actions, vec![CycleAction::SetLed(false), CycleAction::Disconnect]);
}
