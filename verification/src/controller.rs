//! The session controller: the state machine of one match at a time, and the
//! statistics that the presentation layer draws.
//!
//! A `Game` starts idle. Its state changes only through `handle`, which
//! applies one event of the transition table, and through `poll`, which in
//! play drains the state publisher once per frame of the user interface.

use vstd::prelude::*;
use crate::codec::{decode_state, spec_decode_state, GameStateFrame, FRAME_LEN};
use crate::duplex::{spec_receive, IncomingMessage, ReceiveOutcome, StopCause};
use crate::error::SessionError;
use crate::negotiator::{MatchAssignment, MatchAssignmentView};
use crate::publisher::{spec_take, GameEndMessage, SharedStateSlot, StateUpdate};

verus! {

/// Why a match failed.
#[derive(Clone, Copy, Debug, PartialEq, Eq, Structural)]
pub enum FailureReason {
    /// A fatal error of the given kind.
    Error(SessionError),
    /// The connection was closed while the match was in play.
    ConnectionClosed,
}

/// Where a session stands.
#[derive(Clone, Copy, Debug, PartialEq, Eq, Structural)]
pub enum SessionState {
    Idle,
    AwaitingMatch,
    Connecting,
    Playing,
    Ended,
    Failed(FailureReason),
}

/// What can happen to a session.
#[derive(Clone, Debug, PartialEq, Eq)]
pub enum SessionEvent {
    /// The user asked for a match.
    RequestMatch,
    /// Matchmaking delivered an assignment.
    AssignmentReceived(MatchAssignment),
    /// The user gave up waiting, and the queue removal was attempted.
    UserCancel,
    /// An error was reported.
    Failure(SessionError),
    /// The streaming connection is open.
    ConnectSuccess,
    /// The receive loop reported the end of the match.
    GameEnded,
    /// The connection was closed during play.
    ConnectionClosed,
    /// The user acknowledged the end or the failure of the match.
    Acknowledge,
}

/// What the presentation layer draws: the latest frame's numbers, as bit
/// patterns of single-precision numbers, the scores, and whether the local
/// player won the match that ended.
#[derive(Clone, Copy, Debug, PartialEq, Eq, Structural)]
pub struct GameStats {
    pub left_y: u32,
    pub right_y: u32,
    pub ball_x: u32,
    pub ball_y: u32,
    pub speed_x: u32,
    pub speed_y: u32,
    pub player1_score: u8,
    pub player2_score: u8,
    pub winner: bool,
}

/// What a poll gives the user interface.
#[derive(Clone, Copy, Debug, PartialEq, Eq, Structural)]
pub enum PollOutcome {
    /// No update this tick.
    NoUpdate,
    /// The freshest frame.
    Frame(GameStateFrame),
    /// The match is over, and the local player won or lost it.
    MatchOver { won: bool },
}

/// The session controller.
#[derive(Debug)]
pub struct Game {
    state: SessionState,
    id: u64,
    assignment: Option<MatchAssignment>,
    game_stats: GameStats,
}

/// A `Game` as contracts see it.
pub struct GameView {
    pub state: SessionState,
    /// The local player's identifier.
    pub id: u64,
    /// The assignment of the match at hand.
    pub assignment: Option<MatchAssignmentView>,
    pub game_stats: GameStats,
}

/// The transition table. `None` where the event is not legal in the state.
///
/// An error fails a session where it can occur: a rejected request or an
/// invalid assignment while a match is awaited, a failed connection while
/// connecting, a failed transmission in play.
pub open spec fn spec_next_state(state: SessionState, event: SessionEvent) -> Option<SessionState> {
    match (state, event) {
        (SessionState::Idle, SessionEvent::RequestMatch) => Some(SessionState::AwaitingMatch),
        (SessionState::AwaitingMatch, SessionEvent::AssignmentReceived(_)) => Some(
            SessionState::Connecting,
        ),
        (SessionState::AwaitingMatch, SessionEvent::UserCancel) => Some(SessionState::Idle),
        (SessionState::AwaitingMatch, SessionEvent::Failure(error)) => if error
            == SessionError::MatchRequestRejected || error == SessionError::InvalidAssignment {
            Some(SessionState::Failed(FailureReason::Error(error)))
        } else {
            None
        },
        (SessionState::Connecting, SessionEvent::ConnectSuccess) => Some(SessionState::Playing),
        (SessionState::Connecting, SessionEvent::Failure(error)) => if error
            == SessionError::ConnectFailed {
            Some(SessionState::Failed(FailureReason::Error(error)))
        } else {
            None
        },
        (SessionState::Playing, SessionEvent::GameEnded) => Some(SessionState::Ended),
        (SessionState::Playing, SessionEvent::ConnectionClosed) => Some(
            SessionState::Failed(FailureReason::ConnectionClosed),
        ),
        (SessionState::Playing, SessionEvent::Failure(error)) => if error
            == SessionError::SendFailed {
            Some(SessionState::Failed(FailureReason::Error(error)))
        } else {
            None
        },
        (SessionState::Ended, SessionEvent::Acknowledge) => Some(SessionState::Idle),
        (SessionState::Failed(_), SessionEvent::Acknowledge) => Some(SessionState::Idle),
        _ => None,
    }
}

/// The controller after an event. An event that is not legal changes
/// nothing. An assignment is kept from the moment it arrives until the
/// session is idle again, and its arrival clears the statistics.
pub open spec fn spec_handle(game: GameView, event: SessionEvent) -> GameView {
    match spec_next_state(game.state, event) {
        None => game,
        Some(next) => GameView {
            state: next,
            id: game.id,
            assignment: match event {
                SessionEvent::AssignmentReceived(assignment) => Some(assignment@),
                _ => if next is Idle {
                    None
                } else {
                    game.assignment
                },
            },
            game_stats: if event is AssignmentReceived {
                GameStats::spec_new()
            } else {
                game.game_stats
            },
        },
    }
}

/// The controller after the end-of-match message `message` was read: whether
/// the message names the local player is recorded, and in play the match
/// ends.
pub open spec fn spec_end_game(game: GameView, message: GameEndMessage) -> GameView {
    spec_handle(
        GameView {
            game_stats: GameStats { winner: message.spec_names(game.id as nat), ..game.game_stats },
            ..game
        },
        SessionEvent::GameEnded,
    )
}

/// The controller and the slot after a poll, and what the poll gives. Out of
/// play a poll touches nothing. In play it empties the slot: a frame goes
/// into the statistics, an end-of-match message ends the match.
pub open spec fn spec_poll(game: GameView, pending: Option<StateUpdate>) -> (
    GameView,
    Option<StateUpdate>,
    PollOutcome,
) {
    if !(game.state is Playing) {
        (game, pending, PollOutcome::NoUpdate)
    } else {
        match spec_take(pending).0 {
            None => (game, spec_take(pending).1, PollOutcome::NoUpdate),
            Some(StateUpdate::Frame(frame)) => (
                GameView { game_stats: game.game_stats.spec_with_frame(frame), ..game },
                spec_take(pending).1,
                PollOutcome::Frame(frame),
            ),
            Some(StateUpdate::End(message)) => (
                spec_end_game(game, message),
                spec_take(pending).1,
                PollOutcome::MatchOver { won: message.spec_names(game.id as nat) },
            ),
        }
    }
}

/// The event that a loop's stop cause amounts to, if any. A match that is
/// over is learnt from the slot, not from the loop, and a cancellation by the
/// local user is no event of the session.
pub open spec fn spec_event_of_stop(cause: StopCause) -> Option<SessionEvent> {
    match cause {
        StopCause::GameOver => None,
        StopCause::RemoteClosed => Some(SessionEvent::ConnectionClosed),
        StopCause::Cancelled => None,
        StopCause::Failed(error) => Some(SessionEvent::Failure(error)),
    }
}

/// An end-of-match message that the receive loop takes from the connection
/// during play ends the match: the receive loop stops with the match over,
/// and the next poll moves the session from playing to ended, reports whether
/// the local player won and leaves the slot empty.
pub proof fn lemma_end_message_ends_match(
    game: GameView,
    pending: Option<StateUpdate>,
    payload: String,
)
    requires
        game.state is Playing,
    ensures
        spec_receive(IncomingMessage::Text(payload), pending).1 == ReceiveOutcome::Stop(
            StopCause::GameOver,
        ),
        spec_poll(game, spec_receive(IncomingMessage::Text(payload), pending).0).0.state
            == SessionState::Ended,
        spec_poll(game, spec_receive(IncomingMessage::Text(payload), pending).0).1
            == None::<StateUpdate>,
        spec_poll(game, spec_receive(IncomingMessage::Text(payload), pending).0).2
            == (PollOutcome::MatchOver {
            won: (GameEndMessage { payload }).spec_names(game.id as nat),
        }),
{
}

/// A frame never ends a match: a poll that finds a frame stays in play.
pub proof fn lemma_frame_keeps_playing(game: GameView, frame: GameStateFrame)
    requires
        game.state is Playing,
    ensures
        spec_poll(game, Some(StateUpdate::Frame(frame))).0.state == SessionState::Playing,
        spec_poll(game, Some(StateUpdate::Frame(frame))).2 == PollOutcome::Frame(frame),
{
}

/// An ended or failed match is left only by the user's acknowledgement, and
/// only for the idle state.
pub proof fn lemma_terminal_states_return_to_idle(state: SessionState, event: SessionEvent)
    requires
        state is Ended || state is Failed,
    ensures
        spec_next_state(state, event) is Some <==> event is Acknowledge,
        spec_next_state(state, event) is Some ==> spec_next_state(state, event)
            == Some(SessionState::Idle),
{
}

/// The idle state is left only by a request for a match, and play is entered
/// only from connecting, when the connection opens.
pub proof fn lemma_one_match_at_a_time(state: SessionState, event: SessionEvent)
    ensures
        state is Idle ==> (spec_next_state(state, event) is Some <==> event is RequestMatch),
        spec_next_state(state, event) == Some(SessionState::AwaitingMatch) ==> state is Idle,
        spec_next_state(state, event) == Some(SessionState::Playing) ==> state is Connecting
            && event is ConnectSuccess,
{
}

/// A session fails only with a fatal error or a closed connection.
pub proof fn lemma_failures_are_fatal(state: SessionState, event: SessionEvent, error: SessionError)
    requires
        spec_next_state(state, event) == Some(SessionState::Failed(FailureReason::Error(error))),
    ensures
        error.spec_is_fatal(),
        event == SessionEvent::Failure(error),
{
}

impl FailureReason {
    /// The reason in words, for the user.
    pub open spec fn spec_message(self) -> Seq<char> {
        match self {
            FailureReason::Error(error) => error.spec_message(),
            FailureReason::ConnectionClosed => "connection closed"@,
        }
    }

    /// The reason in words, for the user.
    pub fn message(&self) -> (text: String)
        ensures
            text@ == self.spec_message(),
    {
        match self {
            FailureReason::Error(error) => error.message(),
            FailureReason::ConnectionClosed => String::from_str("connection closed"),
        }
    }
}

impl GameStats {
    /// The statistics before any frame: every number's bits zero, nobody has
    /// won.
    pub open spec fn spec_new() -> GameStats {
        GameStats {
            left_y: 0,
            right_y: 0,
            ball_x: 0,
            ball_y: 0,
            speed_x: 0,
            speed_y: 0,
            player1_score: 0,
            player2_score: 0,
            winner: false,
        }
    }

    /// The statistics after a frame: the frame's numbers and scores, the
    /// winner as before.
    pub open spec fn spec_with_frame(self, frame: GameStateFrame) -> GameStats {
        GameStats {
            left_y: frame.left_paddle_y,
            right_y: frame.right_paddle_y,
            ball_x: frame.ball_x,
            ball_y: frame.ball_y,
            speed_x: frame.ball_speed_x,
            speed_y: frame.ball_speed_y,
            player1_score: frame.player1_score,
            player2_score: frame.player2_score,
            winner: self.winner,
        }
    }

    /// The statistics before any frame.
    pub fn new() -> (stats: GameStats)
        ensures
            stats == Self::spec_new(),
    {
        GameStats {
            left_y: 0,
            right_y: 0,
            ball_x: 0,
            ball_y: 0,
            speed_x: 0,
            speed_y: 0,
            player1_score: 0,
            player2_score: 0,
            winner: false,
        }
    }

    /// The statistics with a frame's numbers and scores taken over.
    pub fn with_frame(self, frame: &GameStateFrame) -> (stats: GameStats)
        ensures
            stats == self.spec_with_frame(*frame),
    {
        GameStats {
            left_y: frame.left_paddle_y,
            right_y: frame.right_paddle_y,
            ball_x: frame.ball_x,
            ball_y: frame.ball_y,
            speed_x: frame.ball_speed_x,
            speed_y: frame.ball_speed_y,
            player1_score: frame.player1_score,
            player2_score: frame.player2_score,
            winner: self.winner,
        }
    }
}

impl Default for GameStats {
    fn default() -> (stats: GameStats)
        ensures
            stats == GameStats::spec_new(),
    {
        GameStats::new()
    }
}

impl View for Game {
    type V = GameView;

    closed spec fn view(&self) -> GameView {
        GameView {
            state: self.state,
            id: self.id,
            assignment: match self.assignment {
                Some(assignment) => Some(assignment@),
                None => None,
            },
            game_stats: self.game_stats,
        }
    }
}

impl Game {
    /// A session has its assignment while it connects and plays, and none
    /// while it is idle.
    #[verifier::type_invariant]
    spec fn well_formed(self) -> bool {
        &&& (self.state is Connecting || self.state is Playing) ==> self.assignment is Some
        &&& self.state is Idle ==> self.assignment is None
    }

    /// The idle session of the player `id`.
    pub fn new(id: u64) -> (game: Game)
        ensures
            game@ == (GameView {
                state: SessionState::Idle,
                id,
                assignment: None,
                game_stats: GameStats::spec_new(),
            }),
    {
        Game { state: SessionState::Idle, id, assignment: None, game_stats: GameStats::new() }
    }

    /// Where the session stands.
    pub fn state(&self) -> (state: SessionState)
        ensures
            state == self@.state,
    {
        self.state
    }

    /// The local player's identifier.
    pub fn id(&self) -> (id: u64)
        ensures
            id == self@.id,
    {
        self.id
    }

    /// What the presentation layer draws.
    pub fn game_stats(&self) -> (stats: GameStats)
        ensures
            stats == self@.game_stats,
    {
        self.game_stats
    }

    /// The assignment of the match at hand. There is one while the session
    /// connects and plays, and none while it is idle.
    pub fn assignment(&self) -> (assignment: Option<&MatchAssignment>)
        ensures
            match assignment {
                Some(found) => self@.assignment == Some(found@),
                None => self@.assignment is None,
            },
            (self@.state is Connecting || self@.state is Playing) ==> assignment is Some,
            self@.state is Idle ==> assignment is None,
    {
        proof {
            use_type_invariant(self);
        }
        self.assignment.as_ref()
    }

    /// Applies one event of the transition table. An event that is not legal
    /// in the present state changes nothing and gives `false`.
    pub fn handle(&mut self, event: SessionEvent) -> (moved: bool)
        ensures
            final(self)@ == spec_handle(old(self)@, event),
            moved == (spec_next_state(old(self)@.state, event) is Some),
    {
        proof {
            use_type_invariant(&*self);
        }
        match (self.state, event) {
            (SessionState::Idle, SessionEvent::RequestMatch) => {
                self.state = SessionState::AwaitingMatch;
                true
            },
            (SessionState::AwaitingMatch, SessionEvent::AssignmentReceived(assignment)) => {
                self.assignment = Some(assignment);
                self.game_stats = GameStats::new();
                self.state = SessionState::Connecting;
                true
            },
            (SessionState::AwaitingMatch, SessionEvent::UserCancel) => {
                self.assignment = None;
                self.state = SessionState::Idle;
                true
            },
            (SessionState::AwaitingMatch, SessionEvent::Failure(error)) => {
                match error {
                    SessionError::MatchRequestRejected | SessionError::InvalidAssignment => {
                        self.state = SessionState::Failed(FailureReason::Error(error));
                        true
                    },
                    _ => false,
                }
            },
            (SessionState::Connecting, SessionEvent::ConnectSuccess) => {
                self.state = SessionState::Playing;
                true
            },
            (SessionState::Connecting, SessionEvent::Failure(error)) => {
                match error {
                    SessionError::ConnectFailed => {
                        self.state = SessionState::Failed(FailureReason::Error(error));
                        true
                    },
                    _ => false,
                }
            },
            (SessionState::Playing, SessionEvent::GameEnded) => {
                self.state = SessionState::Ended;
                true
            },
            (SessionState::Playing, SessionEvent::ConnectionClosed) => {
                self.state = SessionState::Failed(FailureReason::ConnectionClosed);
                true
            },
            (SessionState::Playing, SessionEvent::Failure(error)) => {
                match error {
                    SessionError::SendFailed => {
                        self.state = SessionState::Failed(FailureReason::Error(error));
                        true
                    },
                    _ => false,
                }
            },
            (SessionState::Ended, SessionEvent::Acknowledge) => {
                self.assignment = None;
                self.state = SessionState::Idle;
                true
            },
            (SessionState::Failed(_), SessionEvent::Acknowledge) => {
                self.assignment = None;
                self.state = SessionState::Idle;
                true
            },
            _ => false,
        }
    }

    /// Takes in why a loop of the duplex session stopped: a closed connection
    /// and a failure are handled as the events that they are, the end of the
    /// match and a local cancellation change nothing.
    pub fn loop_stopped(&mut self, cause: StopCause) -> (moved: bool)
        ensures
            match spec_event_of_stop(cause) {
                Some(event) => final(self)@ == spec_handle(old(self)@, event) && moved == (
                spec_next_state(old(self)@.state, event) is Some),
                None => final(self)@ == old(self)@ && !moved,
            },
    {
        match cause {
            StopCause::GameOver => false,
            StopCause::RemoteClosed => self.handle(SessionEvent::ConnectionClosed),
            StopCause::Cancelled => false,
            StopCause::Failed(error) => self.handle(SessionEvent::Failure(error)),
        }
    }

    /// Decodes one binary message into the statistics. A message that is no
    /// frame is refused and changes nothing.
    pub fn decode_and_update(&mut self, bytes: &[u8]) -> (done: Result<(), SessionError>)
        ensures
            bytes@.len() == FRAME_LEN ==> done == Ok::<(), SessionError>(()) && final(self)@ == (
            GameView {
                game_stats: old(self)@.game_stats.spec_with_frame(spec_decode_state(bytes@)),
                ..old(self)@
            }),
            bytes@.len() != FRAME_LEN ==> done == Err::<(), SessionError>(
                SessionError::MalformedFrame,
            ) && final(self)@ == old(self)@,
    {
        proof {
            use_type_invariant(&*self);
        }
        match decode_state(bytes) {
            Ok(frame) => {
                self.game_stats = self.game_stats.with_frame(&frame);
                Ok(())
            },
            Err(error) => Err(error),
        }
    }

    /// Reads an end-of-match message: records whether it names the local
    /// player and, in play, ends the match. Gives whether the local player
    /// won.
    pub fn end_game(&mut self, message: &GameEndMessage) -> (won: bool)
        ensures
            won == message.spec_names(old(self)@.id as nat),
            final(self)@ == spec_end_game(old(self)@, *message),
    {
        proof {
            use_type_invariant(&*self);
        }
        let won = message.local_player_won(self.id);
        self.game_stats.winner = won;
        self.handle(SessionEvent::GameEnded);
        won
    }

    /// The once-per-frame call of the user interface. In play it drains the
    /// slot and gives the freshest update, if there is one; in every other
    /// state it does nothing and leaves the slot as it is.
    pub fn poll(&mut self, slot: &mut SharedStateSlot) -> (outcome: PollOutcome)
        ensures
            (final(self)@, final(slot)@, outcome) == spec_poll(old(self)@, old(slot)@),
    {
        proof {
            use_type_invariant(&*self);
        }
        match self.state {
            SessionState::Playing => {},
            _ => {
                return PollOutcome::NoUpdate;
            },
        }
        match slot.take() {
            None => PollOutcome::NoUpdate,
            Some(StateUpdate::Frame(frame)) => {
                self.game_stats = self.game_stats.with_frame(&frame);
                PollOutcome::Frame(frame)
            },
            Some(StateUpdate::End(message)) => {
                let won = self.end_game(&message);
                PollOutcome::MatchOver { won }
            },
        }
    }
}

} // verus!
