//! The bridge's round of work, as the firmware runs it: connect to the MQTT
//! endpoint and broker, read and publish every registry entry, disconnect,
//! rest, and start over. The decisions are made here; the program performs
//! the actions and reports what came of them.
use vstd::prelude::*;
use crate::configuration::Configuration;

verus! {

/// Where the round stands.
#[derive(Debug, Clone, Copy, PartialEq, Eq, Structural)]
pub enum CycleState {
    /// Connecting to the MQTT endpoint.
    Connecting,
    /// Waiting the reconnect delay after a failed connection.
    Retrying,
    /// Connecting to the MQTT broker.
    JoiningBroker,
    /// Reading and publishing entry `next`.
    Publishing { next: usize },
    /// Waiting the delay between requests, before entry `next`.
    BetweenEntries { next: usize },
    /// Disconnecting from the broker.
    Disconnecting,
    /// Waiting the polling interval.
    Resting,
}

/// What came of the last action.
#[derive(Debug, Clone, Copy, PartialEq, Eq, Structural)]
pub enum CycleEvent {
    /// The connection to the endpoint was made (`true`), or failed or timed out.
    Connected(bool),
    /// The broker accepted the client (`true`) or not.
    BrokerJoined(bool),
    /// The entry was read and published (`true`), or that failed.
    EntryDone(bool),
    /// The disconnection is over, whether it succeeded or not.
    Disconnected,
    /// The wait is over.
    Waited,
}

/// What to do next.
#[derive(Debug, Clone, Copy, PartialEq, Eq, Structural)]
pub enum CycleAction {
    /// Switch the LED on or off.
    SetLed(bool),
    /// Connect to the endpoint, giving up after `timeout_ms` milliseconds.
    Connect { timeout_ms: u64 },
    /// Wait this many milliseconds.
    Wait { ms: u64 },
    /// Connect to the broker.
    JoinBroker,
    /// Read registry entry `entry` and publish it.
    Publish { entry: usize },
    /// Blink the failure pattern `blinks` times (see `exception_blink_pattern`).
    BlinkFailure { blinks: u8 },
    /// Disconnect from the broker.
    Disconnect,
}

/// How many times the LED blinks when an entry fails.
pub const FAILURE_BLINKS: u8 = 3;

/// The event that a state waits for, and the entry it stands at is one of the
/// map's.
pub open spec fn cycle_awaits(entries: nat, s: CycleState, e: CycleEvent) -> bool {
    match s {
        CycleState::Connecting => e is Connected,
        CycleState::JoiningBroker => e is BrokerJoined,
        CycleState::Publishing { next } => e is EntryDone && next < entries,
        CycleState::Disconnecting => e is Disconnected,
        CycleState::Retrying | CycleState::Resting => e is Waited,
        CycleState::BetweenEntries { next } => e is Waited && next <= entries,
    }
}

/// Start a connection: LED on, then connect, waiting at most the reconnect delay.
pub open spec fn connect_actions(c: &Configuration) -> (CycleState, Seq<CycleAction>) {
    (
        CycleState::Connecting,
        seq![CycleAction::SetLed(true), CycleAction::Connect { timeout_ms: c.reconnect_delay }],
    )
}

/// Go on with entry `next`: LED on and publish it, or, past the last entry,
/// LED off and disconnect.
pub open spec fn entry_actions(entries: nat, next: usize) -> (CycleState, Seq<CycleAction>) {
    if next < entries {
        (
            CycleState::Publishing { next },
            seq![CycleAction::SetLed(true), CycleAction::Publish { entry: next }],
        )
    } else {
        (CycleState::Disconnecting, seq![CycleAction::SetLed(false), CycleAction::Disconnect])
    }
}

/// One step of the round: the next state and the actions to perform, in order.
/// - A connection that fails or times out switches the LED off and waits the
///   reconnect delay before connecting again; one that is made switches the
///   LED off and joins the broker.
/// - A broker that refuses the client means waiting the reconnect delay and
///   connecting again; one that accepts it starts the entries from the first.
/// - Each entry switches the LED on and is read and published. A failed entry
///   blinks the failure pattern three times and ends the round: LED off and
///   disconnect. A published entry switches the LED off, then waits the delay
///   between requests if there is one, then goes on with the next entry.
/// - After the last entry: LED off and disconnect. After disconnecting
///   (whatever the outcome): wait the polling interval, then connect again.
pub open spec fn cycle_step_spec(c: &Configuration, entries: nat, s: CycleState, e: CycleEvent) -> (
    CycleState,
    Seq<CycleAction>,
) {
    match (s, e) {
        (CycleState::Connecting, CycleEvent::Connected(true)) => (
            CycleState::JoiningBroker,
            seq![CycleAction::SetLed(false), CycleAction::JoinBroker],
        ),
        (CycleState::Connecting, CycleEvent::Connected(false)) => (
            CycleState::Retrying,
            seq![CycleAction::SetLed(false), CycleAction::Wait { ms: c.reconnect_delay }],
        ),
        (CycleState::JoiningBroker, CycleEvent::BrokerJoined(true)) => entry_actions(entries, 0),
        (CycleState::JoiningBroker, CycleEvent::BrokerJoined(false)) => (
            CycleState::Retrying,
            seq![CycleAction::Wait { ms: c.reconnect_delay }],
        ),
        (CycleState::Publishing { next }, CycleEvent::EntryDone(true)) => match c.inter_request_delay {
            Some(d) => (
                CycleState::BetweenEntries { next: (next + 1) as usize },
                seq![CycleAction::SetLed(false), CycleAction::Wait { ms: d }],
            ),
            None => {
                let (s2, a2) = entry_actions(entries, (next + 1) as usize);
                (s2, seq![CycleAction::SetLed(false)] + a2)
            },
        },
        (CycleState::Publishing { next }, CycleEvent::EntryDone(false)) => (
            CycleState::Disconnecting,
            seq![
                CycleAction::BlinkFailure { blinks: FAILURE_BLINKS },
                CycleAction::SetLed(false),
                CycleAction::Disconnect,
            ],
        ),
        (CycleState::BetweenEntries { next }, CycleEvent::Waited) => entry_actions(entries, next),
        (CycleState::Disconnecting, CycleEvent::Disconnected) => (
            CycleState::Resting,
            seq![CycleAction::Wait { ms: c.polling_interval }],
        ),
        (CycleState::Retrying, CycleEvent::Waited) => connect_actions(c),
        (CycleState::Resting, CycleEvent::Waited) => connect_actions(c),
        _ => (s, Seq::empty()),
    }
}

/// The entry a state stands at is one of the map's (or, between entries, just
/// past the last).
pub open spec fn cycle_state_valid(entries: nat, s: CycleState) -> bool {
    match s {
        CycleState::Publishing { next } => next < entries,
        CycleState::BetweenEntries { next } => next <= entries,
        _ => true,
    }
}

/// Every step keeps the round on the map's entries: from a valid state, the
/// state reached is valid too, so the round never publishes an entry that the
/// map does not have.
pub proof fn lemma_cycle_stays_valid(c: &Configuration, entries: nat, s: CycleState, e: CycleEvent)
    requires
        cycle_state_valid(entries, s),
        cycle_awaits(entries, s, e),
    ensures
        cycle_state_valid(entries, cycle_step_spec(c, entries, s, e).0),
{
}

/// A connection that is made leads to joining the broker, and only a failed
/// one to waiting and retrying.
pub proof fn lemma_cycle_connection(c: &Configuration, entries: nat)
    ensures
        cycle_step_spec(c, entries, CycleState::Connecting, CycleEvent::Connected(true)) == (
            CycleState::JoiningBroker,
            seq![CycleAction::SetLed(false), CycleAction::JoinBroker],
        ),
        cycle_step_spec(c, entries, CycleState::Connecting, CycleEvent::Connected(false)) == (
            CycleState::Retrying,
            seq![CycleAction::SetLed(false), CycleAction::Wait { ms: c.reconnect_delay }],
        ),
        cycle_step_spec(c, entries, CycleState::JoiningBroker, CycleEvent::BrokerJoined(false)) == (
            CycleState::Retrying,
            seq![CycleAction::Wait { ms: c.reconnect_delay }],
        ),
{
}

/// A round publishes the entries in order, each once: joining the broker
/// publishes entry 0; after entry `k` succeeds, the next entry published is
/// `k + 1` (right away, or after the delay between requests where one is
/// set); waiting between entries leads to publishing the entry waited for;
/// after the last entry the round disconnects.
pub proof fn lemma_cycle_round_in_order(c: &Configuration, entries: nat, k: usize)
    requires
        k < entries,
        entries <= usize::MAX,
    ensures
        cycle_step_spec(c, entries, CycleState::JoiningBroker, CycleEvent::BrokerJoined(true)) == (
            CycleState::Publishing { next: 0 },
            seq![CycleAction::SetLed(true), CycleAction::Publish { entry: 0 }],
        ),
        cycle_step_spec(c, entries, CycleState::BetweenEntries { next: k }, CycleEvent::Waited) == (
            CycleState::Publishing { next: k },
            seq![CycleAction::SetLed(true), CycleAction::Publish { entry: k }],
        ),
        k + 1 < entries ==> match c.inter_request_delay {
            Some(d) => cycle_step_spec(
                c,
                entries,
                CycleState::Publishing { next: k },
                CycleEvent::EntryDone(true),
            ) == (
                CycleState::BetweenEntries { next: (k + 1) as usize },
                seq![CycleAction::SetLed(false), CycleAction::Wait { ms: d }],
            ) && cycle_step_spec(
                c,
                entries,
                CycleState::BetweenEntries { next: (k + 1) as usize },
                CycleEvent::Waited,
            ) == (
                CycleState::Publishing { next: (k + 1) as usize },
                seq![CycleAction::SetLed(true), CycleAction::Publish { entry: (k + 1) as usize }],
            ),
            None => cycle_step_spec(
                c,
                entries,
                CycleState::Publishing { next: k },
                CycleEvent::EntryDone(true),
            ) == (
                CycleState::Publishing { next: (k + 1) as usize },
                seq![
                    CycleAction::SetLed(false),
                    CycleAction::SetLed(true),
                    CycleAction::Publish { entry: (k + 1) as usize },
                ],
            ),
        },
        k + 1 == entries ==> match c.inter_request_delay {
            Some(d) => cycle_step_spec(
                c,
                entries,
                CycleState::Publishing { next: k },
                CycleEvent::EntryDone(true),
            ).0 == CycleState::BetweenEntries { next: (k + 1) as usize } && cycle_step_spec(
                c,
                entries,
                CycleState::BetweenEntries { next: (k + 1) as usize },
                CycleEvent::Waited,
            ) == (
                CycleState::Disconnecting,
                seq![CycleAction::SetLed(false), CycleAction::Disconnect],
            ),
            None => cycle_step_spec(
                c,
                entries,
                CycleState::Publishing { next: k },
                CycleEvent::EntryDone(true),
            ) == (
                CycleState::Disconnecting,
                seq![CycleAction::SetLed(false), CycleAction::SetLed(false), CycleAction::Disconnect],
            ),
        },
        cycle_step_spec(c, entries, CycleState::Publishing { next: k }, CycleEvent::EntryDone(false))
            == (
            CycleState::Disconnecting,
            seq![
                CycleAction::BlinkFailure { blinks: 3 },
                CycleAction::SetLed(false),
                CycleAction::Disconnect,
            ],
        ),
{
    assert(seq![CycleAction::SetLed(false)] + seq![
        CycleAction::SetLed(true),
        CycleAction::Publish { entry: (k + 1) as usize },
    ] =~= seq![
        CycleAction::SetLed(false),
        CycleAction::SetLed(true),
        CycleAction::Publish { entry: (k + 1) as usize },
    ]);
    assert(seq![CycleAction::SetLed(false)] + seq![CycleAction::SetLed(false), CycleAction::Disconnect]
        =~= seq![CycleAction::SetLed(false), CycleAction::SetLed(false), CycleAction::Disconnect]);
}

/// The first state and actions: connect.
pub fn cycle_start(config: &Configuration) -> (r: (CycleState, Vec<CycleAction>))
    ensures
        (r.0, r.1@) == connect_actions(config),
{
    let actions = vec![
        CycleAction::SetLed(true),
        CycleAction::Connect { timeout_ms: config.reconnect_delay },
    ];
    assert(actions@ =~= connect_actions(config).1);
    (CycleState::Connecting, actions)
}

fn entry_step(entries: usize, next: usize, mut actions: Vec<CycleAction>) -> (r: (
    CycleState,
    Vec<CycleAction>,
))
    ensures
        r.0 == entry_actions(entries as nat, next).0,
        r.1@ == actions@ + entry_actions(entries as nat, next).1,
{
    let ghost before = actions@;
    if next < entries {
        actions.push(CycleAction::SetLed(true));
        actions.push(CycleAction::Publish { entry: next });
        assert(actions@ =~= before + entry_actions(entries as nat, next).1);
        (CycleState::Publishing { next }, actions)
    } else {
        actions.push(CycleAction::SetLed(false));
        actions.push(CycleAction::Disconnect);
        assert(actions@ =~= before + entry_actions(entries as nat, next).1);
        (CycleState::Disconnecting, actions)
    }
}

/// One step of the round (see `cycle_step_spec`).
pub fn cycle_step(config: &Configuration, entries: usize, s: CycleState, e: CycleEvent) -> (r: (
    CycleState,
    Vec<CycleAction>,
))
    requires
        cycle_awaits(entries as nat, s, e),
    ensures
        (r.0, r.1@) == cycle_step_spec(config, entries as nat, s, e),
{
    let empty: Vec<CycleAction> = Vec::new();
    match (s, e) {
        (CycleState::Connecting, CycleEvent::Connected(ok)) => {
            if ok {
                let actions = vec![CycleAction::SetLed(false), CycleAction::JoinBroker];
                assert(actions@ =~= cycle_step_spec(config, entries as nat, s, e).1);
                (CycleState::JoiningBroker, actions)
            } else {
                let actions = vec![CycleAction::SetLed(false), CycleAction::Wait { ms: config.reconnect_delay }];
                assert(actions@ =~= cycle_step_spec(config, entries as nat, s, e).1);
                (CycleState::Retrying, actions)
            }
        },
        (CycleState::JoiningBroker, CycleEvent::BrokerJoined(ok)) => {
            if ok {
                let r = entry_step(entries, 0, empty);
                assert(r.1@ =~= cycle_step_spec(config, entries as nat, s, e).1);
                r
            } else {
                let actions = vec![CycleAction::Wait { ms: config.reconnect_delay }];
                assert(actions@ =~= cycle_step_spec(config, entries as nat, s, e).1);
                (CycleState::Retrying, actions)
            }
        },
        (CycleState::Publishing { next }, CycleEvent::EntryDone(ok)) => {
            if ok {
                match config.inter_request_delay {
                    Some(d) => {
                        let actions = vec![CycleAction::SetLed(false), CycleAction::Wait { ms: d }];
                        assert(actions@ =~= cycle_step_spec(config, entries as nat, s, e).1);
                        (CycleState::BetweenEntries { next: next + 1 }, actions)
                    },
                    None => {
                        let r = entry_step(entries, next + 1, vec![CycleAction::SetLed(false)]);
                        assert(r.1@ =~= cycle_step_spec(config, entries as nat, s, e).1);
                        r
                    },
                }
            } else {
                let actions = vec![
                    CycleAction::BlinkFailure { blinks: FAILURE_BLINKS },
                    CycleAction::SetLed(false),
                    CycleAction::Disconnect,
                ];
                assert(actions@ =~= cycle_step_spec(config, entries as nat, s, e).1);
                (CycleState::Disconnecting, actions)
            }
        },
        (CycleState::BetweenEntries { next }, CycleEvent::Waited) => {
            let r = entry_step(entries, next, empty);
            assert(r.1@ =~= cycle_step_spec(config, entries as nat, s, e).1);
            r
        },
        (CycleState::Disconnecting, CycleEvent::Disconnected) => {
            let actions = vec![CycleAction::Wait { ms: config.polling_interval }];
            assert(actions@ =~= cycle_step_spec(config, entries as nat, s, e).1);
            (CycleState::Resting, actions)
        },
        (CycleState::Retrying, CycleEvent::Waited) | (CycleState::Resting, CycleEvent::Waited) => {
            cycle_start(config)
        },
        _ => {
            assert(empty@ =~= Seq::<CycleAction>::empty());
            (s, empty)
        },
    }
}

} // verus!
