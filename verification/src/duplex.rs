//! The duplex session: what the send loop and the receive loop of a live
//! match decide.
//!
//! The two loops run on the connection, which this module never sees. Each
//! tick the send loop asks `SendLoop::tick` what to transmit and then reports
//! what the input source gave; for each message the receive loop asks
//! `receive_step` what to do with it. A loop that is told to stop tells the
//! other one through a one-shot signal that carries a `StopCause`.

use vstd::prelude::*;
use crate::codec::{
    decode_state,
    encode_command,
    spec_decode_state,
    spec_encode_command,
    ControlCommand,
    FRAME_LEN,
};
use crate::error::SessionError;
use crate::publisher::{spec_publish, GameEndMessage, SharedStateSlot, StateUpdate};

verus! {

/// The period of the send loop, in milliseconds.
pub const TICK_MILLIS: u64 = 16;

/// One of the two directions.
#[derive(Clone, Copy, Debug, PartialEq, Eq, Structural)]
pub enum Direction {
    Up,
    Down,
}

/// What happened to a key.
#[derive(Clone, Copy, Debug, PartialEq, Eq, Structural)]
pub enum KeyMotion {
    Press,
    Repeat,
    Release,
}

/// What the input source gave during one tick.
#[derive(Clone, Copy, Debug, PartialEq, Eq, Structural)]
pub enum InputSample {
    /// Nothing arrived before the tick ran out.
    Quiet,
    /// A direction key was pressed, repeated or released.
    Key(Direction, KeyMotion),
    /// Something arrived that is no direction key.
    Other,
}

/// Why a loop stops.
#[derive(Clone, Copy, Debug, PartialEq, Eq, Structural)]
pub enum StopCause {
    /// The end-of-match message arrived.
    GameOver,
    /// The remote side closed the connection.
    RemoteClosed,
    /// The local user cancelled.
    Cancelled,
    /// The loop failed.
    Failed(SessionError),
}

/// What the send loop does in one tick.
#[derive(Clone, Debug, PartialEq, Eq)]
pub enum SendAction {
    /// Transmit these bytes as one text message. They may be empty.
    Send(Vec<u8>),
    /// Transmit nothing and leave the loop.
    Stop,
}

/// One message from the connection.
#[derive(Clone, Debug, PartialEq, Eq)]
pub enum IncomingMessage {
    Binary(Vec<u8>),
    Text(String),
    Close,
    /// A message of any other kind.
    Other,
}

/// What the receive loop did with a message.
#[derive(Clone, Copy, Debug, PartialEq, Eq, Structural)]
pub enum ReceiveOutcome {
    /// A frame was decoded and published. The loop goes on.
    Published,
    /// The message was dropped for the given reason. The loop goes on.
    Dropped(SessionError),
    /// The message was of no interest. The loop goes on.
    Ignored,
    /// The loop ends and signals the send loop to stop.
    Stop(StopCause),
}

/// One tick as the send loop sees it: whether a stop was signalled when the
/// tick began, and what the input source gave during it.
pub struct SendStep {
    pub stop_signalled: bool,
    pub sample: InputSample,
}

/// The state of the send loop: which directions are held, and whether the
/// loop has observed a stop.
#[derive(Clone, Copy, Debug)]
pub struct SendLoop {
    held: ControlCommand,
    stopped: bool,
}

/// The directions held after a sample, given those held before it. A press or
/// a repeat holds the key's direction, a release lets it go, a tick without
/// any input lets both go, and anything else changes nothing.
pub open spec fn spec_observe(held: ControlCommand, sample: InputSample) -> ControlCommand {
    match sample {
        InputSample::Quiet => ControlCommand { up: false, down: false },
        InputSample::Key(Direction::Up, motion) => ControlCommand {
            up: !(motion is Release),
            down: held.down,
        },
        InputSample::Key(Direction::Down, motion) => ControlCommand {
            up: held.up,
            down: !(motion is Release),
        },
        InputSample::Other => held,
    }
}

/// Whether the loop is stopped after a tick, and what the tick transmits: the
/// command for the held directions, or nothing once a stop was observed.
pub open spec fn spec_tick(held: ControlCommand, stopped: bool, stop_signalled: bool) -> (
    bool,
    Option<Seq<u8>>,
) {
    if stopped || stop_signalled {
        (true, None)
    } else {
        (false, Some(spec_encode_command(held)))
    }
}

/// What a run of ticks transmits, tick by tick, from a loop that holds `held`
/// and is stopped or not: `None` for a tick that transmits nothing.
pub open spec fn spec_sends(held: ControlCommand, stopped: bool, steps: Seq<SendStep>) -> Seq<
    Option<Seq<u8>>,
>
    decreases steps.len(),
{
    if steps.len() == 0 {
        Seq::empty()
    } else {
        let ticked = spec_tick(held, stopped, steps[0].stop_signalled);
        seq![ticked.1] + spec_sends(
            spec_observe(held, steps[0].sample),
            ticked.0,
            steps.drop_first(),
        )
    }
}

/// What the slot holds after a message, and what the receive loop did with
/// it. A binary message of a frame's length is decoded and published, one of
/// any other length is dropped and the slot left as it was. A text message is
/// published as the end of the match and stops the loop. A close stops the
/// loop. Anything else is ignored.
pub open spec fn spec_receive(message: IncomingMessage, pending: Option<StateUpdate>) -> (
    Option<StateUpdate>,
    ReceiveOutcome,
) {
    match message {
        IncomingMessage::Binary(bytes) => if bytes@.len() == FRAME_LEN {
            (
                spec_publish(pending, StateUpdate::Frame(spec_decode_state(bytes@))),
                ReceiveOutcome::Published,
            )
        } else {
            (pending, ReceiveOutcome::Dropped(SessionError::MalformedFrame))
        },
        IncomingMessage::Text(payload) => (
            spec_publish(pending, StateUpdate::End(GameEndMessage { payload })),
            ReceiveOutcome::Stop(StopCause::GameOver),
        ),
        IncomingMessage::Close => (pending, ReceiveOutcome::Stop(StopCause::RemoteClosed)),
        IncomingMessage::Other => (pending, ReceiveOutcome::Ignored),
    }
}

/// A run of ticks transmits one entry per tick.
pub proof fn lemma_sends_len(held: ControlCommand, stopped: bool, steps: Seq<SendStep>)
    ensures
        spec_sends(held, stopped, steps).len() == steps.len(),
    decreases steps.len(),
{
    if steps.len() > 0 {
        let ticked = spec_tick(held, stopped, steps[0].stop_signalled);
        lemma_sends_len(spec_observe(held, steps[0].sample), ticked.0, steps.drop_first());
    }
}

/// A stopped loop never transmits again, whatever the ticks bring.
pub proof fn lemma_stopped_sends_nothing(held: ControlCommand, steps: Seq<SendStep>, tick: int)
    requires
        0 <= tick < steps.len(),
    ensures
        spec_sends(held, true, steps).len() == steps.len(),
        spec_sends(held, true, steps)[tick] is None,
    decreases steps.len(),
{
    lemma_sends_len(held, true, steps);
    if tick > 0 {
        let next = spec_observe(held, steps[0].sample);
        lemma_sends_len(next, true, steps.drop_first());
        lemma_stopped_sends_nothing(next, steps.drop_first(), tick - 1);
    }
}

/// No send follows a stop: from the tick at which a stop is signalled on,
/// the loop transmits nothing, not even in that tick.
pub proof fn lemma_no_send_after_stop(
    held: ControlCommand,
    stopped: bool,
    steps: Seq<SendStep>,
    stop_tick: int,
    tick: int,
)
    requires
        0 <= stop_tick <= tick < steps.len(),
        steps[stop_tick].stop_signalled,
    ensures
        spec_sends(held, stopped, steps).len() == steps.len(),
        spec_sends(held, stopped, steps)[tick] is None,
    decreases steps.len(),
{
    lemma_sends_len(held, stopped, steps);
    let ticked = spec_tick(held, stopped, steps[0].stop_signalled);
    let next = spec_observe(held, steps[0].sample);
    let rest = steps.drop_first();
    lemma_sends_len(next, ticked.0, rest);
    if stop_tick == 0 {
        if tick > 0 {
            lemma_stopped_sends_nothing(next, rest, tick - 1);
        }
    } else {
        lemma_no_send_after_stop(next, ticked.0, rest, stop_tick - 1, tick - 1);
    }
}

/// Every tick of a running loop transmits: while no stop was signalled, each
/// tick sends a command, the empty one included.
pub proof fn lemma_running_loop_sends_each_tick(
    held: ControlCommand,
    steps: Seq<SendStep>,
    tick: int,
)
    requires
        0 <= tick < steps.len(),
        forall|i: int| 0 <= i <= tick ==> !(#[trigger] steps[i]).stop_signalled,
    ensures
        spec_sends(held, false, steps).len() == steps.len(),
        spec_sends(held, false, steps)[tick] is Some,
    decreases steps.len(),
{
    lemma_sends_len(held, false, steps);
    if tick > 0 {
        let next = spec_observe(held, steps[0].sample);
        let rest = steps.drop_first();
        lemma_sends_len(next, false, rest);
        assert forall|i: int| 0 <= i <= tick - 1 implies !(#[trigger] rest[i]).stop_signalled by {
            assert(rest[i] == steps[i + 1]);
        }
        lemma_running_loop_sends_each_tick(next, rest, tick - 1);
    }
}

impl SendLoop {
    /// The directions that the loop holds.
    pub closed spec fn spec_held(self) -> ControlCommand {
        self.held
    }

    /// Whether the loop has observed a stop.
    pub closed spec fn spec_stopped(self) -> bool {
        self.stopped
    }

    /// A running loop that holds no direction.
    pub fn new() -> (fresh: SendLoop)
        ensures
            fresh.spec_held() == (ControlCommand { up: false, down: false }),
            !fresh.spec_stopped(),
    {
        SendLoop { held: ControlCommand { up: false, down: false }, stopped: false }
    }

    /// The directions that the loop holds.
    pub fn held(&self) -> (held: ControlCommand)
        ensures
            held == self.spec_held(),
    {
        self.held
    }

    /// Whether the loop has observed a stop.
    pub fn is_stopped(&self) -> (stopped: bool)
        ensures
            stopped == self.spec_stopped(),
    {
        self.stopped
    }

    /// Begins a tick. If a stop is signalled, or was observed before, the
    /// loop is stopped and nothing is transmitted; else the command for the
    /// held directions is to be sent, also when it is empty.
    pub fn tick(&mut self, stop_signalled: bool) -> (action: SendAction)
        ensures
            final(self).spec_held() == old(self).spec_held(),
            final(self).spec_stopped() == spec_tick(
                old(self).spec_held(),
                old(self).spec_stopped(),
                stop_signalled,
            ).0,
            match action {
                SendAction::Send(bytes) => Some(bytes@) == spec_tick(
                    old(self).spec_held(),
                    old(self).spec_stopped(),
                    stop_signalled,
                ).1,
                SendAction::Stop => spec_tick(
                    old(self).spec_held(),
                    old(self).spec_stopped(),
                    stop_signalled,
                ).1 is None,
            },
    {
        if self.stopped || stop_signalled {
            self.stopped = true;
            SendAction::Stop
        } else {
            SendAction::Send(encode_command(self.held))
        }
    }

    /// Ends a tick with what the input source gave during it.
    pub fn observe(&mut self, sample: InputSample)
        ensures
            final(self).spec_held() == spec_observe(old(self).spec_held(), sample),
            final(self).spec_stopped() == old(self).spec_stopped(),
    {
        match sample {
            InputSample::Quiet => {
                self.held = ControlCommand { up: false, down: false };
            },
            InputSample::Key(Direction::Up, motion) => {
                let up = match motion {
                    KeyMotion::Release => false,
                    _ => true,
                };
                self.held = ControlCommand { up, down: self.held.down };
            },
            InputSample::Key(Direction::Down, motion) => {
                let down = match motion {
                    KeyMotion::Release => false,
                    _ => true,
                };
                self.held = ControlCommand { up: self.held.up, down };
            },
            InputSample::Other => {},
        }
    }
}

/// Handles one message of the connection: decodes and publishes a frame,
/// drops a malformed one, publishes the end of the match, or stops on a
/// close.
pub fn receive_step(message: IncomingMessage, slot: &mut SharedStateSlot) -> (outcome:
    ReceiveOutcome)
    ensures
        (final(slot)@, outcome) == spec_receive(message, old(slot)@),
{
    match message {
        IncomingMessage::Binary(bytes) => match decode_state(bytes.as_slice()) {
            Ok(frame) => {
                slot.publish(StateUpdate::Frame(frame));
                ReceiveOutcome::Published
            },
            Err(error) => ReceiveOutcome::Dropped(error),
        },
        IncomingMessage::Text(payload) => {
            slot.publish(StateUpdate::End(GameEndMessage::new(payload)));
            ReceiveOutcome::Stop(StopCause::GameOver)
        },
        IncomingMessage::Close => ReceiveOutcome::Stop(StopCause::RemoteClosed),
        IncomingMessage::Other => ReceiveOutcome::Ignored,
    }
}

} // verus!
