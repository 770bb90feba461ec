use vstd::prelude::*;
use vstd::utf8::{is_ascii_chars, is_ascii_chars_encode_utf8};

use crate::sensiron_sensor_reading::{
    encode_frame, u32_le, u32_le_reads_back, DisplayMessage, ErrorMeta, Sen55Frame, Sen55Packed,
};
use crate::run::{phase_before, run, run_step};
use crate::text::{string28_new, string28_push_str, text28, utf8_len};

verus! {

/// Bytes the uplink's text buffer holds.
pub const NOTICE_CAPACITY: usize = 28;

/// What goes to the collecting host for one message.
pub enum Payload {
    /// A measurement: the packed frame followed by the sensor id.
    Measurement([u8; 28]),
    /// An error: its long message and a line break, as far as they fit.
    Notice(heapless::String<28>),
}

/// The text sent for an error message: the message and a line break when
/// both fit the buffer, the message alone when only it fits, and nothing
/// when the message does not fit.
pub open spec fn notice_text(message: Seq<char>) -> Seq<char> {
    if utf8_len(message) + 1 <= NOTICE_CAPACITY {
        message + seq!['\n']
    } else if utf8_len(message) <= NOTICE_CAPACITY {
        message
    } else {
        Seq::<char>::empty()
    }
}

/// The bytes of a measurement record for `sen_id`: the frame's layout and
/// then the id in native byte order.
pub open spec fn measurement_bytes(msg_frame: Sen55Frame, sen_id: u32) -> Seq<u8> {
    encode_frame(msg_frame) + u32_le(sen_id)
}

/// `p` is what goes to the host for `msg` from sensor `sen_id`.
pub open spec fn is_payload_for(msg: DisplayMessage, sen_id: u32, p: Payload) -> bool {
    match msg {
        DisplayMessage::ActiveData(f) => p matches Payload::Measurement(bytes) && bytes@
            == measurement_bytes(f, sen_id),
        DisplayMessage::SystemError(se) => p matches Payload::Notice(text) && text28(text)
            == notice_text(se.long_message@),
    }
}

/// The payload that the uplink writes to its socket for `msg`.
pub fn payload(msg: &DisplayMessage, sen_id: u32) -> (res: Payload)
    ensures
        is_payload_for(*msg, sen_id, res),
{
    match msg {
        DisplayMessage::ActiveData(frame) => {
            let packed = Sen55Packed::new(frame, sen_id);
            Payload::Measurement(packed.to_bytes())
        },
        DisplayMessage::SystemError(se) => {
            let mut text = string28_new();
            let newline = "\n";
            proof {
                reveal_strlit("\n");
                assert(is_ascii_chars(newline@));
                is_ascii_chars_encode_utf8(newline@);
                assert(utf8_len(Seq::<char>::empty()) == 0);
                assert(Seq::<char>::empty() + se.long_message@ =~= se.long_message@);
                assert(newline@ =~= seq!['\n']);
            }
            if string28_push_str(&mut text, se.long_message).is_ok() {
                let _ = string28_push_str(&mut text, newline);
            }
            Payload::Notice(text)
        },
    }
}

/// What goes to the host for an error: its long message and one line break
/// when the message takes at most 27 bytes, the message alone when it takes
/// exactly 28, nothing when it is longer.
pub proof fn error_notices_carry_the_message(se: ErrorMeta, sen_id: u32, p: Payload)
    requires
        is_payload_for(DisplayMessage::SystemError(se), sen_id, p),
    ensures
        p is Notice,
        ({
            let m = se.long_message@;
            let sent = text28(p->Notice_0);
            &&& utf8_len(m) <= 27 ==> sent == m.push('\n')
            &&& utf8_len(m) == 28 ==> sent == m
            &&& utf8_len(m) > 28 ==> sent.len() == 0
        }),
{
    let m = se.long_message@;
    assert(m + seq!['\n'] =~= m.push('\n'));
}

/// What goes to the host for a measurement: the frame's 24 bytes, then the
/// sensor id, which the last four bytes give back read least significant
/// byte first.
pub proof fn measurements_carry_the_frame_and_the_sensor_id(f: Sen55Frame, sen_id: u32, p: Payload)
    requires
        is_payload_for(DisplayMessage::ActiveData(f), sen_id, p),
    ensures
        p is Measurement,
        ({
            let b = p->Measurement_0@;
            &&& b.len() == 28
            &&& b.subrange(0, 24) == encode_frame(f)
            &&& b[24] as int + 256 * b[25] as int + 65536 * b[26] as int + 16777216 * b[27] as int
                == sen_id as int
        }),
{
    let b = p->Measurement_0@;
    u32_le_reads_back(sen_id);
    assert(b.subrange(0, 24) =~= encode_frame(f));
    assert(b[24] == u32_le(sen_id)[0]);
    assert(b[25] == u32_le(sen_id)[1]);
    assert(b[26] == u32_le(sen_id)[2]);
    assert(b[27] == u32_le(sen_id)[3]);
}

/// Pause after each message, in milliseconds.
pub const UPLINK_REST_MS: u64 = 50;

/// Where the uplink stands: what it last asked for.
#[derive(Clone, Copy)]
pub enum UplinkPhase {
    /// Waiting for the next message on the bus.
    Receiving,
    /// Asking whether the network stack is configured.
    CheckingStack { msg: DisplayMessage },
    /// Connecting to the collecting host.
    Connecting { msg: DisplayMessage },
    /// Writing the payload.
    Writing,
    /// Flushing after the write.
    Flushing,
    /// Closing the socket.
    Closing,
    /// Aborting a failed connection.
    Aborting,
    /// Flushing after the abort.
    AbortFlushing,
    /// Pausing before the next message.
    Resting,
}

/// What the uplink asks of the network next.
pub enum UplinkAction {
    /// Wait for the next message on the bus.
    Receive,
    /// Ask whether the network stack is configured.
    CheckStack,
    /// Connect to the collecting host.
    Connect,
    /// Write all of the payload.
    Send(Payload),
    /// Flush the socket.
    Flush,
    /// Close the socket.
    Close,
    /// Abort the connection.
    Abort,
    /// Sleep for the given number of milliseconds.
    Sleep(u64),
}

/// What the network answered to the last action.
pub enum UplinkEvent {
    /// A write, flush, close, abort or sleep has completed.
    Done,
    /// The next message from the bus.
    Message(DisplayMessage),
    /// Whether the network stack is configured.
    StackUp(bool),
    /// Whether connecting worked.
    Connected(bool),
}

/// Where the uplink goes after `event` arrives in `phase`. An answer of
/// another kind than the pending action produces counts as the negative
/// answer (no message yet, stack down, connection failed).
pub open spec fn uplink_next(phase: UplinkPhase, event: UplinkEvent) -> UplinkPhase {
    match phase {
        UplinkPhase::Receiving => match event {
            UplinkEvent::Message(msg) => UplinkPhase::CheckingStack { msg },
            _ => UplinkPhase::Receiving,
        },
        UplinkPhase::CheckingStack { msg } => {
            if event matches UplinkEvent::StackUp(true) {
                UplinkPhase::Connecting { msg }
            } else {
                UplinkPhase::Resting
            }
        },
        UplinkPhase::Connecting { msg } => {
            if event matches UplinkEvent::Connected(true) {
                UplinkPhase::Writing
            } else {
                UplinkPhase::Aborting
            }
        },
        UplinkPhase::Writing => UplinkPhase::Flushing,
        UplinkPhase::Flushing => UplinkPhase::Closing,
        UplinkPhase::Closing => UplinkPhase::Resting,
        UplinkPhase::Aborting => UplinkPhase::AbortFlushing,
        UplinkPhase::AbortFlushing => UplinkPhase::Resting,
        UplinkPhase::Resting => UplinkPhase::Receiving,
    }
}

/// `action` is what the uplink asks for on entering `next`, the payload
/// being the one for the message in `phase`.
pub open spec fn uplink_action(phase: UplinkPhase, next: UplinkPhase, sen_id: u32, action: UplinkAction) -> bool {
    match next {
        UplinkPhase::Receiving => action is Receive,
        UplinkPhase::CheckingStack { .. } => action is CheckStack,
        UplinkPhase::Connecting { .. } => action is Connect,
        UplinkPhase::Writing => match phase {
            UplinkPhase::Connecting { msg } => action matches UplinkAction::Send(p)
                && is_payload_for(msg, sen_id, p),
            _ => false,
        },
        UplinkPhase::Flushing => action is Flush,
        UplinkPhase::Closing => action is Close,
        UplinkPhase::Aborting => action is Abort,
        UplinkPhase::AbortFlushing => action is Flush,
        UplinkPhase::Resting => action == UplinkAction::Sleep(UPLINK_REST_MS),
    }
}

impl UplinkPhase {
    /// One step of the uplink for sensor `sen_id` (see `uplink_next` and
    /// `uplink_action`).
    pub fn step(self, event: UplinkEvent, sen_id: u32) -> (res: (UplinkPhase, UplinkAction))
        ensures
            res.0 == uplink_next(self, event),
            uplink_action(self, res.0, sen_id, res.1),
    {
        match self {
            UplinkPhase::Receiving => match event {
                UplinkEvent::Message(msg) => (UplinkPhase::CheckingStack { msg }, UplinkAction::CheckStack),
                _ => (UplinkPhase::Receiving, UplinkAction::Receive),
            },
            UplinkPhase::CheckingStack { msg } => match event {
                UplinkEvent::StackUp(true) => (UplinkPhase::Connecting { msg }, UplinkAction::Connect),
                _ => (UplinkPhase::Resting, UplinkAction::Sleep(UPLINK_REST_MS)),
            },
            UplinkPhase::Connecting { msg } => match event {
                UplinkEvent::Connected(true) => (
                    UplinkPhase::Writing,
                    UplinkAction::Send(payload(&msg, sen_id)),
                ),
                _ => (UplinkPhase::Aborting, UplinkAction::Abort),
            },
            UplinkPhase::Writing => (UplinkPhase::Flushing, UplinkAction::Flush),
            UplinkPhase::Flushing => (UplinkPhase::Closing, UplinkAction::Close),
            UplinkPhase::Closing => (UplinkPhase::Resting, UplinkAction::Sleep(UPLINK_REST_MS)),
            UplinkPhase::Aborting => (UplinkPhase::AbortFlushing, UplinkAction::Flush),
            UplinkPhase::AbortFlushing => (UplinkPhase::Resting, UplinkAction::Sleep(UPLINK_REST_MS)),
            UplinkPhase::Resting => (UplinkPhase::Receiving, UplinkAction::Receive),
        }
    }
}

/// Something is written to the host only on a connection that was just
/// opened for a received message while the stack was up, and what is
/// written is that message's payload; a refused connection is aborted and
/// flushed without writing.
pub proof fn only_connected_messages_are_sent(phase: UplinkPhase, event: UplinkEvent, sen_id: u32, action: UplinkAction)
    requires
        uplink_action(phase, uplink_next(phase, event), sen_id, action),
    ensures
        action is Send ==> (phase is Connecting && event matches UplinkEvent::Connected(true)),
        (phase is Connecting && !(event matches UplinkEvent::Connected(true))) ==> action is Abort,
{
}

/// Wait for the power rails to settle before the first check, in
/// milliseconds.
pub const RAIL_SETTLE_MS: u64 = 500;

/// Pause between two checks of the link, in milliseconds.
pub const RECHECK_MS: u64 = 10_000;

/// Where the Wi-Fi supervisor stands: what it last asked for.
#[derive(Clone, Copy, Debug, PartialEq, Eq, Structural)]
pub enum WifiPhase {
    /// Waiting for the power rails to settle.
    Settling,
    /// Asking whether the station is connected.
    Checking,
    /// Applying the client configuration.
    Configuring,
    /// Asking whether the radio is started.
    Querying,
    /// Starting the radio.
    Starting,
    /// Connecting to the access point.
    Connecting,
    /// Reporting the outcome of the connection attempt.
    Announcing,
    /// Pausing before the next check.
    Resting,
}

/// What the supervisor asks of the radio next.
#[derive(Clone, Copy, Debug, PartialEq, Eq, Structural)]
pub enum WifiAction {
    /// Sleep for the given number of milliseconds.
    Sleep(u64),
    /// Read the station state.
    CheckLink,
    /// Apply the client configuration (WPA2 personal, the network's name and
    /// password).
    ApplyConfig,
    /// Ask whether the radio is started.
    QueryStarted,
    /// Start the radio.
    Start,
    /// Connect to the access point.
    Connect,
    /// Print whether the connection attempt worked.
    Announce { connected: bool },
}

/// What the radio answered to the last action.
#[derive(Clone, Copy, Debug, PartialEq, Eq, Structural)]
pub enum WifiEvent {
    /// A sleep, a start or an announcement has completed.
    Done,
    /// The station state: whether it is connected.
    Link { connected: bool },
    /// Whether applying the configuration worked.
    Configured { ok: bool },
    /// Whether the radio is started, when the radio could tell.
    Started { started: Option<bool> },
    /// Whether connecting worked.
    Connected { ok: bool },
}

/// One step of the supervisor: given where it stands and what the radio
/// answered, where it goes next and what it asks for.
///
/// An answer of another kind than the pending action produces counts as the
/// negative answer: not connected, not configured, not started, not joined.
pub open spec fn wifi_step(phase: WifiPhase, event: WifiEvent) -> (WifiPhase, WifiAction) {
    match phase {
        WifiPhase::Settling => (WifiPhase::Checking, WifiAction::CheckLink),
        WifiPhase::Checking => {
            if event == (WifiEvent::Link { connected: true }) {
                (WifiPhase::Resting, WifiAction::Sleep(RECHECK_MS))
            } else {
                (WifiPhase::Configuring, WifiAction::ApplyConfig)
            }
        },
        WifiPhase::Configuring => {
            if event == (WifiEvent::Configured { ok: true }) {
                (WifiPhase::Querying, WifiAction::QueryStarted)
            } else {
                (WifiPhase::Resting, WifiAction::Sleep(RECHECK_MS))
            }
        },
        WifiPhase::Querying => {
            if event == (WifiEvent::Started { started: Some(true) }) {
                (WifiPhase::Connecting, WifiAction::Connect)
            } else {
                (WifiPhase::Starting, WifiAction::Start)
            }
        },
        WifiPhase::Starting => (WifiPhase::Connecting, WifiAction::Connect),
        WifiPhase::Connecting => (
            WifiPhase::Announcing,
            WifiAction::Announce { connected: event == (WifiEvent::Connected { ok: true }) },
        ),
        WifiPhase::Announcing => (WifiPhase::Resting, WifiAction::Sleep(RECHECK_MS)),
        WifiPhase::Resting => (WifiPhase::Checking, WifiAction::CheckLink),
    }
}

impl WifiPhase {
    /// Where the supervisor starts: letting the power rails settle.
    pub fn boot() -> (res: (WifiPhase, WifiAction))
        ensures
            res == (WifiPhase::Settling, WifiAction::Sleep(RAIL_SETTLE_MS)),
    {
        (WifiPhase::Settling, WifiAction::Sleep(RAIL_SETTLE_MS))
    }

    /// One step of the supervisor (see `wifi_step`).
    pub fn step(self, event: WifiEvent) -> (res: (WifiPhase, WifiAction))
        ensures
            res == wifi_step(self, event),
    {
        match self {
            WifiPhase::Settling => (WifiPhase::Checking, WifiAction::CheckLink),
            WifiPhase::Checking => match event {
                WifiEvent::Link { connected: true } => (
                    WifiPhase::Resting,
                    WifiAction::Sleep(RECHECK_MS),
                ),
                _ => (WifiPhase::Configuring, WifiAction::ApplyConfig),
            },
            WifiPhase::Configuring => match event {
                WifiEvent::Configured { ok: true } => (
                    WifiPhase::Querying,
                    WifiAction::QueryStarted,
                ),
                _ => (WifiPhase::Resting, WifiAction::Sleep(RECHECK_MS)),
            },
            WifiPhase::Querying => match event {
                WifiEvent::Started { started: Some(true) } => (
                    WifiPhase::Connecting,
                    WifiAction::Connect,
                ),
                _ => (WifiPhase::Starting, WifiAction::Start),
            },
            WifiPhase::Starting => (WifiPhase::Connecting, WifiAction::Connect),
            WifiPhase::Connecting => {
                let connected = match event {
                    WifiEvent::Connected { ok } => ok,
                    _ => false,
                };
                (WifiPhase::Announcing, WifiAction::Announce { connected })
            },
            WifiPhase::Announcing => (WifiPhase::Resting, WifiAction::Sleep(RECHECK_MS)),
            WifiPhase::Resting => (WifiPhase::Checking, WifiAction::CheckLink),
        }
    }
}

/// Steps at most from a phase to the next pause.
pub open spec fn steps_to_rest(phase: WifiPhase) -> nat {
    match phase {
        WifiPhase::Settling => 7,
        WifiPhase::Checking => 6,
        WifiPhase::Configuring => 5,
        WifiPhase::Querying => 4,
        WifiPhase::Starting => 3,
        WifiPhase::Connecting => 2,
        WifiPhase::Announcing => 1,
        WifiPhase::Resting => 0,
    }
}

/// Whatever the radio answers, every step short of the pause brings the
/// supervisor closer to it: each round of checking ends in a pause.
pub proof fn every_round_ends_in_a_pause(phase: WifiPhase, event: WifiEvent)
    requires
        phase != WifiPhase::Resting,
    ensures
        steps_to_rest(wifi_step(phase, event).0) < steps_to_rest(phase),
{
}

/// A connected station is left alone: the supervisor only reconfigures the
/// radio when the station is not connected, and it only connects after the
/// configuration has been applied and the radio is known to be started or
/// has been started.
pub proof fn only_a_disconnected_station_is_reconfigured(phase: WifiPhase, event: WifiEvent)
    ensures
        wifi_step(phase, event).1 == WifiAction::ApplyConfig ==> phase == WifiPhase::Checking
            && event != (WifiEvent::Link { connected: true }),
        wifi_step(phase, event).1 == WifiAction::Connect ==> (phase == WifiPhase::Starting || (
        phase == WifiPhase::Querying && event == (WifiEvent::Started { started: Some(true) }))),
        wifi_step(phase, event).1 == WifiAction::QueryStarted ==> phase == WifiPhase::Configuring
            && event == (WifiEvent::Configured { ok: true }),
{
}

/// The uplink's transition on phases alone.
pub open spec fn uplink_transition() -> spec_fn(UplinkPhase, UplinkEvent) -> UplinkPhase {
    |phase: UplinkPhase, event: UplinkEvent| uplink_next(phase, event)
}

/// The phases the uplink passes through when `events` arrive from `start`.
pub open spec fn uplink_run(start: UplinkPhase, events: Seq<UplinkEvent>) -> Seq<UplinkPhase> {
    run(uplink_transition(), start, events)
}

/// The phases after a connection attempt, up to and including the return to
/// the bus: write, flush, close, pause when the host accepted; abort, flush,
/// pause when it refused.
pub open spec fn after_connect(accepted: bool) -> Seq<UplinkPhase> {
    if accepted {
        seq![
            UplinkPhase::Writing,
            UplinkPhase::Flushing,
            UplinkPhase::Closing,
            UplinkPhase::Resting,
            UplinkPhase::Receiving,
        ]
    } else {
        seq![
            UplinkPhase::Aborting,
            UplinkPhase::AbortFlushing,
            UplinkPhase::Resting,
            UplinkPhase::Receiving,
        ]
    }
}

/// Which action the uplink asks for is fixed by the phase it enters: a
/// connection by `Connecting`, a write by `Writing`, a flush by `Flushing`
/// or `AbortFlushing`, a close by `Closing`, an abort by `Aborting`, the
/// 50 ms pause by `Resting` and the next message by `Receiving`.
pub proof fn uplink_actions_follow_phases(
    phase: UplinkPhase,
    event: UplinkEvent,
    sen_id: u32,
    action: UplinkAction,
)
    requires
        uplink_action(phase, uplink_next(phase, event), sen_id, action),
    ensures
        ({
            let next = uplink_next(phase, event);
            &&& (action is Connect) <==> (next is Connecting)
            &&& (action is Send) <==> (next is Writing)
            &&& (action is Flush) <==> (next is Flushing || next is AbortFlushing)
            &&& (action is Close) <==> (next is Closing)
            &&& (action is Abort) <==> (next is Aborting)
            &&& (action == UplinkAction::Sleep(UPLINK_REST_MS)) <==> (next is Resting)
            &&& (action is Receive) <==> (next is Receiving)
        }),
{
}

/// A message is taken only while waiting on the bus, and it opens exactly
/// one handling of that message; a connection is only opened for the
/// message under way while the stack is up; something is written only
/// after that connection was accepted; the bus is only waited on again
/// after the 50 ms pause.
pub proof fn writes_follow_an_accepted_connection_for_the_message(
    start: UplinkPhase,
    events: Seq<UplinkEvent>,
    k: int,
)
    requires
        0 <= k < events.len(),
    ensures
        ({
            let t = uplink_run(start, events);
            let before = phase_before(start, t, k);
            &&& forall|m: DisplayMessage|
                t[k] == (UplinkPhase::CheckingStack { msg: m }) <==> (before is Receiving
                    && events[k] == UplinkEvent::Message(m))
            &&& forall|m: DisplayMessage|
                t[k] == (UplinkPhase::Connecting { msg: m }) <==> (before
                    == (UplinkPhase::CheckingStack { msg: m })
                    && events[k] matches UplinkEvent::StackUp(true))
            &&& t[k] is Writing <==> (before is Connecting
                && events[k] matches UplinkEvent::Connected(true))
            &&& (t[k] is Receiving && !(before is Receiving)) ==> before is Resting
        }),
{
    run_step(uplink_transition(), start, events, k);
}

/// After a connection attempt the uplink runs through `after_connect`:
/// every accepted connection is written to, flushed and closed, every
/// refused one aborted and flushed, and both pause 50 ms before the next
/// message is taken.
pub proof fn each_connection_ends_before_the_next_message(
    start: UplinkPhase,
    events: Seq<UplinkEvent>,
    i: int,
)
    requires
        0 <= i < events.len(),
        uplink_run(start, events)[i] is Connecting,
    ensures
        ({
            let t = uplink_run(start, events);
            let path = after_connect(events[i + 1] matches UplinkEvent::Connected(true));
            forall|k: int|
                1 <= k <= path.len() && i + k < events.len() ==> #[trigger] t[i + k] == path[k
                    - 1]
        }),
{
    if i + 1 < events.len() {
        run_step(uplink_transition(), start, events, i + 1);
    }
    if i + 2 < events.len() {
        run_step(uplink_transition(), start, events, i + 2);
    }
    if i + 3 < events.len() {
        run_step(uplink_transition(), start, events, i + 3);
    }
    if i + 4 < events.len() {
        run_step(uplink_transition(), start, events, i + 4);
    }
    if i + 5 < events.len() {
        run_step(uplink_transition(), start, events, i + 5);
    }
}

/// Each message causes at most one connection attempt: between two
/// attempts the uplink has paused 50 ms and gone back to the bus for the
/// next message.
pub proof fn at_most_one_connect_per_message(
    start: UplinkPhase,
    events: Seq<UplinkEvent>,
    i: int,
    j: int,
)
    requires
        0 <= i < j < events.len(),
        uplink_run(start, events)[i] is Connecting,
        uplink_run(start, events)[j] is Connecting,
    ensures
        exists|r: int|
            i < r < j && #[trigger] uplink_run(start, events)[r] is Receiving && uplink_run(
                start,
                events,
            )[r - 1] is Resting,
{
    let t = uplink_run(start, events);
    each_connection_ends_before_the_next_message(start, events, i);
    let path = after_connect(events[i + 1] matches UplinkEvent::Connected(true));
    let r = i + path.len() as int;
    if j <= r {
        assert(t[i + (j - i)] == path[j - i - 1]);
    }
    assert(t[i + path.len() as int] == path[path.len() - 1]);
    assert(t[i + (path.len() - 1)] == path[path.len() - 2]);
}

/// Each message causes at most one write: between two writes the uplink
/// has paused 50 ms and gone back to the bus for the next message.
pub proof fn at_most_one_write_per_message(
    start: UplinkPhase,
    events: Seq<UplinkEvent>,
    i: int,
    j: int,
)
    requires
        0 <= i < j < events.len(),
        uplink_run(start, events)[i] is Writing,
        uplink_run(start, events)[j] is Writing,
    ensures
        exists|r: int|
            i < r < j && #[trigger] uplink_run(start, events)[r] is Receiving && uplink_run(
                start,
                events,
            )[r - 1] is Resting,
{
    let t = uplink_run(start, events);
    if i + 1 < events.len() {
        run_step(uplink_transition(), start, events, i + 1);
    }
    if i + 2 < events.len() {
        run_step(uplink_transition(), start, events, i + 2);
    }
    if i + 3 < events.len() {
        run_step(uplink_transition(), start, events, i + 3);
    }
    if i + 4 < events.len() {
        run_step(uplink_transition(), start, events, i + 4);
    }
    assert(t[i + 1] is Flushing);
    assert(t[i + 2] is Closing);
    assert(t[i + 3] is Resting);
    assert(t[i + 4] is Receiving);
}

/// After the rails have settled the supervisor first checks the link,
/// whatever the settling answered; a station found down is then configured
/// at once, and one found up is left alone until the 10 s pause ends.
pub proof fn the_first_round_starts_with_a_link_check(settled: WifiEvent, connected: bool)
    ensures
        wifi_step(WifiPhase::Settling, settled) == (WifiPhase::Checking, WifiAction::CheckLink),
        wifi_step(wifi_step(WifiPhase::Settling, settled).0, WifiEvent::Link { connected }) == (if connected {
            (WifiPhase::Resting, WifiAction::Sleep(10_000))
        } else {
            (WifiPhase::Configuring, WifiAction::ApplyConfig)
        }),
{
}

/// The supervisor's transition on phases alone.
pub open spec fn wifi_transition() -> spec_fn(WifiPhase, WifiEvent) -> WifiPhase {
    |phase: WifiPhase, event: WifiEvent| wifi_step(phase, event).0
}

/// The phases the supervisor passes through when `events` arrive from
/// `start`.
pub open spec fn wifi_run(start: WifiPhase, events: Seq<WifiEvent>) -> Seq<WifiPhase> {
    run(wifi_transition(), start, events)
}

/// The phases of one round that starts with a check of the link, up to and
/// including the 10 s pause, as decided by whether the link was up, whether
/// the configuration was applied and whether the radio was started.
pub open spec fn wifi_round(link_up: bool, configured: bool, started: bool) -> Seq<WifiPhase> {
    if link_up {
        seq![WifiPhase::Resting]
    } else if !configured {
        seq![WifiPhase::Configuring, WifiPhase::Resting]
    } else if started {
        seq![
            WifiPhase::Configuring,
            WifiPhase::Querying,
            WifiPhase::Connecting,
            WifiPhase::Announcing,
            WifiPhase::Resting,
        ]
    } else {
        seq![
            WifiPhase::Configuring,
            WifiPhase::Querying,
            WifiPhase::Starting,
            WifiPhase::Connecting,
            WifiPhase::Announcing,
            WifiPhase::Resting,
        ]
    }
}

/// The supervisor asks to connect exactly when it enters `Connecting`, and
/// sleeps 10 s exactly when it enters `Resting`.
pub proof fn wifi_actions_follow_phases(phase: WifiPhase, event: WifiEvent)
    ensures
        (wifi_step(phase, event).1 == WifiAction::Connect) <==> (wifi_step(phase, event).0
            == WifiPhase::Connecting),
        (wifi_step(phase, event).1 == WifiAction::Sleep(RECHECK_MS)) <==> (wifi_step(
            phase,
            event,
        ).0 == WifiPhase::Resting),
{
}

/// Every round that starts with a check of the link runs through the phases
/// of `wifi_round`, chosen by the answers the radio gives, and ends in the
/// 10 s pause.
pub proof fn each_round_follows_the_answers(start: WifiPhase, events: Seq<WifiEvent>, i: int)
    requires
        0 <= i < events.len(),
        wifi_run(start, events)[i] == WifiPhase::Checking,
    ensures
        ({
            let t = wifi_run(start, events);
            let round = wifi_round(
                events[i + 1] == (WifiEvent::Link { connected: true }),
                events[i + 2] == (WifiEvent::Configured { ok: true }),
                events[i + 3] == (WifiEvent::Started { started: Some(true) }),
            );
            forall|k: int| 1 <= k <= round.len() && i + k < events.len() ==> #[trigger] t[i + k]
                == round[k - 1]
        }),
{
    let t = wifi_run(start, events);
    let round = wifi_round(
        events[i + 1] == (WifiEvent::Link { connected: true }),
        events[i + 2] == (WifiEvent::Configured { ok: true }),
        events[i + 3] == (WifiEvent::Started { started: Some(true) }),
    );
    if i + 1 < events.len() {
        run_step(wifi_transition(), start, events, i + 1);
    }
    if i + 2 < events.len() {
        run_step(wifi_transition(), start, events, i + 2);
    }
    if i + 3 < events.len() {
        run_step(wifi_transition(), start, events, i + 3);
    }
    if i + 4 < events.len() {
        run_step(wifi_transition(), start, events, i + 4);
    }
    if i + 5 < events.len() {
        run_step(wifi_transition(), start, events, i + 5);
    }
    if i + 6 < events.len() {
        run_step(wifi_transition(), start, events, i + 6);
    }
}

/// Facts about a round: it ends in the pause and passes it only there, it
/// tries to connect at most once, and it does try exactly when the station
/// was down and the configuration was applied.
pub proof fn a_round_connects_at_most_once(link_up: bool, configured: bool, started: bool)
    ensures
        ({
            let round = wifi_round(link_up, configured, started);
            &&& round.last() == WifiPhase::Resting
            &&& forall|k: int| 0 <= k < round.len() - 1 ==> #[trigger] round[k] != WifiPhase::Resting
            &&& forall|a: int, b: int|
                0 <= a < round.len() && 0 <= b < round.len() && #[trigger] round[a]
                    == WifiPhase::Connecting && #[trigger] round[b] == WifiPhase::Connecting ==> a == b
            &&& (exists|k: int| 0 <= k < round.len() && #[trigger] round[k] == WifiPhase::Connecting)
                <==> (!link_up && configured)
        }),
{
    let round = wifi_round(link_up, configured, started);
    if !link_up && configured {
        if started {
            assert(round[2] == WifiPhase::Connecting);
        } else {
            assert(round[3] == WifiPhase::Connecting);
        }
    }
}

/// Two connection attempts are always separated by the 10 s pause: the
/// supervisor tries to connect at most once per 10 s.
pub proof fn connects_are_a_pause_apart(start: WifiPhase, events: Seq<WifiEvent>, i: int, j: int)
    requires
        0 <= i < j < events.len(),
        wifi_run(start, events)[i] == WifiPhase::Connecting,
        wifi_run(start, events)[j] == WifiPhase::Connecting,
    ensures
        exists|r: int| i < r < j && #[trigger] wifi_run(start, events)[r] == WifiPhase::Resting,
{
    let t = wifi_run(start, events);
    run_step(wifi_transition(), start, events, i + 1);
    assert(t[i + 1] == WifiPhase::Announcing);
    if i + 2 < events.len() {
        run_step(wifi_transition(), start, events, i + 2);
    }
    assert(t[i + 2] == WifiPhase::Resting);
}

} // verus!
