//! The state publisher: a single-slot mailbox between the receive loop, which
//! overwrites it, and the reader that drains it once per tick.
//!
//! The slot holds one tagged value or nothing. Whoever shares it across tasks
//! guards the whole slot with one lock, held only for a `publish` or a `take`.

use vstd::prelude::*;
use vstd::utf8::encode_utf8;
use crate::codec::GameStateFrame;
use crate::text::{contains_bytes, decimal_text, spec_decimal, spec_occurs_in};

verus! {

/// The text that announces the end of a match. It is kept as it came; all that
/// is read from it is whether it names a given player.
#[derive(Clone, Debug, PartialEq, Eq)]
pub struct GameEndMessage {
    pub payload: String,
}

/// What the receive loop hands to the reader: a state frame, or the end of
/// the match. Never both.
#[derive(Clone, Debug, PartialEq, Eq)]
pub enum StateUpdate {
    Frame(GameStateFrame),
    End(GameEndMessage),
}

/// The mailbox. Its view is the pending update, if there is one.
#[derive(Debug)]
pub struct SharedStateSlot {
    pending: Option<StateUpdate>,
}

/// What a slot holds after `update` was published into it, whatever it held
/// before.
pub open spec fn spec_publish(before: Option<StateUpdate>, update: StateUpdate) -> Option<
    StateUpdate,
> {
    Some(update)
}

/// What a read of the slot observes, and what the slot holds afterwards.
pub open spec fn spec_take(before: Option<StateUpdate>) -> (Option<StateUpdate>, Option<StateUpdate>) {
    (before, None)
}

/// The last write wins: a frame published and then an end-of-match message
/// published, with no read in between, leave a single read that observes the
/// end-of-match message alone and an empty slot behind it.
pub proof fn lemma_last_write_wins(
    before: Option<StateUpdate>,
    frame: GameStateFrame,
    end: GameEndMessage,
)
    ensures
        spec_take(
            spec_publish(spec_publish(before, StateUpdate::Frame(frame)), StateUpdate::End(end)),
        ) == (Some(StateUpdate::End(end)), None::<StateUpdate>),
{
}

/// Of any two writes without a read in between, a read observes the second,
/// and the read after it observes nothing.
pub proof fn lemma_overwrite_then_drain(
    before: Option<StateUpdate>,
    first: StateUpdate,
    second: StateUpdate,
)
    ensures
        spec_take(spec_publish(spec_publish(before, first), second)).0 == Some(second),
        spec_take(spec_take(spec_publish(spec_publish(before, first), second)).1).0
            == None::<StateUpdate>,
{
}

impl GameEndMessage {
    /// Whether the payload names the player: the decimal digits of the
    /// player's identifier stand somewhere in the payload's UTF-8 bytes.
    pub open spec fn spec_names(self, player: nat) -> bool {
        spec_occurs_in(encode_utf8(self.payload@), encode_utf8(spec_decimal(player)))
    }

    /// Wraps the text of an end-of-match message.
    pub fn new(payload: String) -> (message: GameEndMessage)
        ensures
            message.payload == payload,
    {
        GameEndMessage { payload }
    }

    /// Whether the local player won: whether the payload names them.
    pub fn local_player_won(&self, local_id: u64) -> (won: bool)
        ensures
            won == self.spec_names(local_id as nat),
    {
        let needle = decimal_text(local_id);
        contains_bytes(self.payload.as_str().as_bytes(), needle.as_str().as_bytes())
    }
}

impl View for SharedStateSlot {
    type V = Option<StateUpdate>;

    closed spec fn view(&self) -> Option<StateUpdate> {
        self.pending
    }
}

impl SharedStateSlot {
    /// An empty slot.
    pub fn new() -> (slot: SharedStateSlot)
        ensures
            slot@ is None,
    {
        SharedStateSlot { pending: None }
    }

    /// Whether nothing is pending.
    pub fn is_empty(&self) -> (empty: bool)
        ensures
            empty == (self@ is None),
    {
        self.pending.is_none()
    }

    /// Stores `update`, replacing whatever was pending.
    pub fn publish(&mut self, update: StateUpdate)
        ensures
            final(self)@ == spec_publish(old(self)@, update),
    {
        self.pending = Some(update);
    }

    /// Takes the pending update out, whole, and leaves the slot empty. An
    /// empty slot gives `None`: no update this tick.
    pub fn take(&mut self) -> (update: Option<StateUpdate>)
        ensures
            (update, final(self)@) == spec_take(old(self)@),
    {
        self.pending.take()
    }
}

} // verus!
