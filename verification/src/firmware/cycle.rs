//! The first firmware's round of work: connect to the MQTT endpoint and broker
//! (retrying every five seconds), then, for as long as the program runs,
//! publish every registry entry, toggle the LED and wait five seconds.
use vstd::prelude::*;

verus! {

/// How long the first firmware waits before reconnecting and between rounds,
/// in milliseconds.
pub const FIRMWARE_DELAY_MS: u64 = 5000;

/// Where the round stands.
#[derive(Debug, Clone, Copy, PartialEq, Eq, Structural)]
pub enum PicoCycleState {
    /// Connecting to the MQTT endpoint.
    Connecting,
    /// Waiting before connecting again.
    Retrying,
    /// Connecting to the MQTT broker.
    JoiningBroker,
    /// Publishing entry `next`.
    Publishing { next: usize },
    /// Waiting between rounds.
    Resting,
}

/// What came of the last action.
#[derive(Debug, Clone, Copy, PartialEq, Eq, Structural)]
pub enum PicoCycleEvent {
    /// The connection to the endpoint was made (`true`) or failed.
    Connected(bool),
    /// The broker accepted the client (`true`) or not.
    BrokerJoined(bool),
    /// The entry was published (`true`) or that failed.
    EntrySent(bool),
    /// The wait is over.
    Waited,
}

/// What to do next.
#[derive(Debug, Clone, Copy, PartialEq, Eq, Structural)]
pub enum PicoCycleAction {
    /// Switch the LED on or off.
    SetLed(bool),
    /// Connect to the endpoint.
    Connect,
    /// Wait this many milliseconds.
    Wait { ms: u64 },
    /// Connect to the broker.
    JoinBroker,
    /// Publish registry entry `entry`, under the entry's own topic.
    Publish { entry: usize },
}

/// The round's state, with the LED state that the rounds toggle; it starts off
/// and outlives reconnections.
#[derive(Debug, Clone, Copy, PartialEq, Eq, Structural)]
pub struct PicoCycle {
    pub state: PicoCycleState,
    pub led_status: bool,
}

/// The event that a state waits for, and the entry it stands at is one of the
/// map's.
pub open spec fn pico_awaits(entries: nat, c: PicoCycle, e: PicoCycleEvent) -> bool {
    match c.state {
        PicoCycleState::Connecting => e is Connected,
        PicoCycleState::JoiningBroker => e is BrokerJoined,
        PicoCycleState::Publishing { next } => e is EntrySent && next < entries,
        PicoCycleState::Retrying | PicoCycleState::Resting => e is Waited,
    }
}

/// Start a connection: LED on, then connect.
pub open spec fn pico_connect(led_status: bool) -> (PicoCycle, Seq<PicoCycleAction>) {
    (
        PicoCycle { state: PicoCycleState::Connecting, led_status },
        seq![PicoCycleAction::SetLed(true), PicoCycleAction::Connect],
    )
}

/// Go on with entry `next`, or, past the last entry, end the round: toggle
/// the LED and wait.
pub open spec fn pico_entry(entries: nat, next: usize, led_status: bool) -> (
    PicoCycle,
    Seq<PicoCycleAction>,
) {
    if next < entries {
        (
            PicoCycle { state: PicoCycleState::Publishing { next }, led_status },
            seq![PicoCycleAction::Publish { entry: next }],
        )
    } else {
        (
            PicoCycle { state: PicoCycleState::Resting, led_status: !led_status },
            seq![
                PicoCycleAction::SetLed(!led_status),
                PicoCycleAction::Wait { ms: FIRMWARE_DELAY_MS },
            ],
        )
    }
}

/// One step of the round:
/// - a failed connection switches the LED off and waits five seconds before
///   connecting again; a connection that is made switches the LED off and
///   joins the broker;
/// - a broker that refuses the client means waiting five seconds and
///   connecting again; one that accepts it starts the first round;
/// - a round publishes the entries in order and ends at the last one or at
///   the first that fails; the end of a round toggles the LED and waits five
///   seconds, after which the next round starts on the same connection.
pub open spec fn pico_step_spec(entries: nat, c: PicoCycle, e: PicoCycleEvent) -> (
    PicoCycle,
    Seq<PicoCycleAction>,
) {
    match (c.state, e) {
        (PicoCycleState::Connecting, PicoCycleEvent::Connected(true)) => (
            PicoCycle { state: PicoCycleState::JoiningBroker, led_status: c.led_status },
            seq![PicoCycleAction::SetLed(false), PicoCycleAction::JoinBroker],
        ),
        (PicoCycleState::Connecting, PicoCycleEvent::Connected(false)) => (
            PicoCycle { state: PicoCycleState::Retrying, led_status: c.led_status },
            seq![PicoCycleAction::SetLed(false), PicoCycleAction::Wait { ms: FIRMWARE_DELAY_MS }],
        ),
        (PicoCycleState::JoiningBroker, PicoCycleEvent::BrokerJoined(true)) => pico_entry(
            entries,
            0,
            c.led_status,
        ),
        (PicoCycleState::JoiningBroker, PicoCycleEvent::BrokerJoined(false)) => (
            PicoCycle { state: PicoCycleState::Retrying, led_status: c.led_status },
            seq![PicoCycleAction::Wait { ms: FIRMWARE_DELAY_MS }],
        ),
        (PicoCycleState::Publishing { next }, PicoCycleEvent::EntrySent(true)) => pico_entry(
            entries,
            (next + 1) as usize,
            c.led_status,
        ),
        (PicoCycleState::Publishing { next }, PicoCycleEvent::EntrySent(false)) => pico_entry(
            entries,
            entries as usize,
            c.led_status,
        ),
        (PicoCycleState::Retrying, PicoCycleEvent::Waited) => pico_connect(c.led_status),
        (PicoCycleState::Resting, PicoCycleEvent::Waited) => pico_entry(entries, 0, c.led_status),
        _ => (c, Seq::empty()),
    }
}

/// A connection that is made leads to joining the broker, and only a failed
/// one to waiting five seconds and retrying.
pub proof fn lemma_pico_connection(entries: nat, led_status: bool)
    ensures
        pico_step_spec(
            entries,
            PicoCycle { state: PicoCycleState::Connecting, led_status },
            PicoCycleEvent::Connected(true),
        ) == (
            PicoCycle { state: PicoCycleState::JoiningBroker, led_status },
            seq![PicoCycleAction::SetLed(false), PicoCycleAction::JoinBroker],
        ),
        pico_step_spec(
            entries,
            PicoCycle { state: PicoCycleState::Connecting, led_status },
            PicoCycleEvent::Connected(false),
        ) == (
            PicoCycle { state: PicoCycleState::Retrying, led_status },
            seq![PicoCycleAction::SetLed(false), PicoCycleAction::Wait { ms: 5000 }],
        ),
{
}

/// Where every connection, broker join and send succeeds, the firmware
/// publishes the entries in order from the first, each once per round, and
/// every later round starts again from the first.
pub proof fn lemma_pico_round_in_order(entries: nat, k: usize, led_status: bool)
    requires
        k < entries,
        entries <= usize::MAX,
    ensures
        ({
            let (c1, _) = pico_connect(false);
            let (c2, a2) = pico_step_spec(entries, c1, PicoCycleEvent::Connected(true));
            let (c3, a3) = pico_step_spec(entries, c2, PicoCycleEvent::BrokerJoined(true));
            &&& a2 == seq![PicoCycleAction::SetLed(false), PicoCycleAction::JoinBroker]
            &&& c3.state == PicoCycleState::Publishing { next: 0 }
            &&& a3 == seq![PicoCycleAction::Publish { entry: 0 }]
        }),
        k + 1 < entries ==> pico_step_spec(
            entries,
            PicoCycle { state: PicoCycleState::Publishing { next: k }, led_status },
            PicoCycleEvent::EntrySent(true),
        ) == (
            PicoCycle { state: PicoCycleState::Publishing { next: (k + 1) as usize }, led_status },
            seq![PicoCycleAction::Publish { entry: (k + 1) as usize }],
        ),
        k + 1 == entries ==> pico_step_spec(
            entries,
            PicoCycle { state: PicoCycleState::Publishing { next: k }, led_status },
            PicoCycleEvent::EntrySent(true),
        ) == (
            PicoCycle { state: PicoCycleState::Resting, led_status: !led_status },
            seq![PicoCycleAction::SetLed(!led_status), PicoCycleAction::Wait { ms: 5000 }],
        ),
        pico_step_spec(
            entries,
            PicoCycle { state: PicoCycleState::Resting, led_status },
            PicoCycleEvent::Waited,
        ) == (
            PicoCycle { state: PicoCycleState::Publishing { next: 0 }, led_status },
            seq![PicoCycleAction::Publish { entry: 0 }],
        ),
{
}

/// The first state and actions: LED off as the program starts, then connect.
pub fn pico_start() -> (r: (PicoCycle, Vec<PicoCycleAction>))
    ensures
        (r.0, r.1@) == pico_connect(false),
{
    let actions = vec![PicoCycleAction::SetLed(true), PicoCycleAction::Connect];
    assert(actions@ =~= pico_connect(false).1);
    (PicoCycle { state: PicoCycleState::Connecting, led_status: false }, actions)
}

fn pico_entry_step(entries: usize, next: usize, led_status: bool) -> (r: (
    PicoCycle,
    Vec<PicoCycleAction>,
))
    ensures
        (r.0, r.1@) == pico_entry(entries as nat, next, led_status),
{
    if next < entries {
        let actions = vec![PicoCycleAction::Publish { entry: next }];
        assert(actions@ =~= pico_entry(entries as nat, next, led_status).1);
        (PicoCycle { state: PicoCycleState::Publishing { next }, led_status }, actions)
    } else {
        let actions = vec![
            PicoCycleAction::SetLed(!led_status),
            PicoCycleAction::Wait { ms: FIRMWARE_DELAY_MS },
        ];
        assert(actions@ =~= pico_entry(entries as nat, next, led_status).1);
        (PicoCycle { state: PicoCycleState::Resting, led_status: !led_status }, actions)
    }
}

/// One step of the round (see `pico_step_spec`).
pub fn pico_step(entries: usize, c: PicoCycle, e: PicoCycleEvent) -> (r: (
    PicoCycle,
    Vec<PicoCycleAction>,
))
    requires
        pico_awaits(entries as nat, c, e),
    ensures
        (r.0, r.1@) == pico_step_spec(entries as nat, c, e),
{
    match (c.state, e) {
        (PicoCycleState::Connecting, PicoCycleEvent::Connected(ok)) => {
            if ok {
                let actions = vec![PicoCycleAction::SetLed(false), PicoCycleAction::JoinBroker];
                assert(actions@ =~= pico_step_spec(entries as nat, c, e).1);
                (PicoCycle { state: PicoCycleState::JoiningBroker, led_status: c.led_status }, actions)
            } else {
                let actions = vec![
                    PicoCycleAction::SetLed(false),
                    PicoCycleAction::Wait { ms: FIRMWARE_DELAY_MS },
                ];
                assert(actions@ =~= pico_step_spec(entries as nat, c, e).1);
                (PicoCycle { state: PicoCycleState::Retrying, led_status: c.led_status }, actions)
            }
        },
        (PicoCycleState::JoiningBroker, PicoCycleEvent::BrokerJoined(ok)) => {
            if ok {
                pico_entry_step(entries, 0, c.led_status)
            } else {
                let actions = vec![PicoCycleAction::Wait { ms: FIRMWARE_DELAY_MS }];
                assert(actions@ =~= pico_step_spec(entries as nat, c, e).1);
                (PicoCycle { state: PicoCycleState::Retrying, led_status: c.led_status }, actions)
            }
        },
        (PicoCycleState::Publishing { next }, PicoCycleEvent::EntrySent(ok)) => {
            if ok {
                pico_entry_step(entries, next + 1, c.led_status)
            } else {
                pico_entry_step(entries, entries, c.led_status)
            }
        },
        (PicoCycleState::Retrying, PicoCycleEvent::Waited) => {
            let actions = vec![PicoCycleAction::SetLed(true), PicoCycleAction::Connect];
            assert(actions@ =~= pico_connect(c.led_status).1);
            (PicoCycle { state: PicoCycleState::Connecting, led_status: c.led_status }, actions)
        },
        (PicoCycleState::Resting, PicoCycleEvent::Waited) => pico_entry_step(entries, 0, c.led_status),
        _ => {
            let empty: Vec<PicoCycleAction> = Vec::new();
            assert(empty@ =~= Seq::<PicoCycleAction>::empty());
            (c, empty)
        },
    }
}

} // verus!
