use pong_session::codec::{encode_state, GameStateFrame};
use pong_session::controller::{
    FailureReason, Game, GameStats, PollOutcome, SessionEvent, SessionState,
};
use pong_session::duplex::{
    receive_step, IncomingMessage, ReceiveOutcome, SendAction, SendLoop, StopCause,
};
use pong_session::error::SessionError;
use pong_session::negotiator::{MatchAssignment, PlayerSide};
use pong_session::publisher::{GameEndMessage, SharedStateSlot, StateUpdate};

fn assignment() -> MatchAssignment {
    MatchAssignment { game_id: "g-1".to_string(), opponent_id: 8, player_side: PlayerSide::Left }
}

fn frame() -> GameStateFrame {
    GameStateFrame {
        left_paddle_y: 25.0f32.to_bits(),
        right_paddle_y: 75.0f32.to_bits(),
        ball_x: 50.0f32.to_bits(),
        ball_y: 60.0f32.to_bits(),
        ball_speed_x: 1.0f32.to_bits(),
        ball_speed_y: (-1.0f32).to_bits(),
        player1_score: 3,
        player2_score: 4,
    }
}

fn playing(id: u64) -> Game {
    let mut game = Game::new(id);
    assert!(game.handle(SessionEvent::RequestMatch));
    assert!(game.handle(SessionEvent::AssignmentReceived(assignment())));
    assert!(game.handle(SessionEvent::ConnectSuccess));
    assert_eq!(game.state(), SessionState::Playing);
    game
}

fn all_events() -> Vec<SessionEvent> {
    vec![
        SessionEvent::RequestMatch,
        SessionEvent::AssignmentReceived(assignment()),
        SessionEvent::UserCancel,
        SessionEvent::Failure(SessionError::MalformedFrame),
        SessionEvent::Failure(SessionError::MatchRequestRejected),
        SessionEvent::Failure(SessionError::InvalidAssignment),
        SessionEvent::Failure(SessionError::ConnectFailed),
        SessionEvent::Failure(SessionError::SendFailed),
        SessionEvent::Failure(SessionError::QueueCancelFailed),
        SessionEvent::ConnectSuccess,
        SessionEvent::GameEnded,
        SessionEvent::ConnectionClosed,
        SessionEvent::Acknowledge,
    ]
}

#[test]
fn new_game_is_idle() {
    let game = Game::new(12);
    assert_eq!(game.state(), SessionState::Idle);
    assert_eq!(game.id(), 12);
    assert_eq!(game.assignment(), None);
    assert_eq!(game.game_stats(), GameStats::new());
    assert_eq!(GameStats::default(), GameStats::new());
    assert_eq!(GameStats::new().winner, false);
    assert_eq!(GameStats::new().ball_x, 0);
}

#[test]
fn a_whole_match_walks_the_table() {
    let mut game = Game::new(12);
    assert!(game.handle(SessionEvent::RequestMatch));
    assert_eq!(game.state(), SessionState::AwaitingMatch);
    assert!(game.handle(SessionEvent::AssignmentReceived(assignment())));
    assert_eq!(game.state(), SessionState::Connecting);
    assert_eq!(game.assignment(), Some(&assignment()));
    assert!(game.handle(SessionEvent::ConnectSuccess));
    assert_eq!(game.state(), SessionState::Playing);
    assert!(game.handle(SessionEvent::GameEnded));
    assert_eq!(game.state(), SessionState::Ended);
    assert_eq!(game.assignment(), Some(&assignment()));
    assert!(game.handle(SessionEvent::Acknowledge));
    assert_eq!(game.state(), SessionState::Idle);
    assert_eq!(game.assignment(), None);
    assert!(game.handle(SessionEvent::RequestMatch));
    assert_eq!(game.state(), SessionState::AwaitingMatch);
}

#[test]
fn cancelling_the_wait_returns_to_idle() {
    let mut game = Game::new(1);
    game.handle(SessionEvent::RequestMatch);
    assert!(game.handle(SessionEvent::UserCancel));
    assert_eq!(game.state(), SessionState::Idle);
}

#[test]
fn negotiator_errors_fail_the_wait() {
    for error in [SessionError::MatchRequestRejected, SessionError::InvalidAssignment] {
        let mut game = Game::new(1);
        game.handle(SessionEvent::RequestMatch);
        assert!(game.handle(SessionEvent::Failure(error)));
        assert_eq!(game.state(), SessionState::Failed(FailureReason::Error(error)));
        assert!(game.handle(SessionEvent::Acknowledge));
        assert_eq!(game.state(), SessionState::Idle);
    }
}

#[test]
fn failed_queue_removal_does_not_block_the_return_to_idle() {
    let mut game = Game::new(1);
    game.handle(SessionEvent::RequestMatch);
    assert!(!game.handle(SessionEvent::Failure(SessionError::QueueCancelFailed)));
    assert_eq!(game.state(), SessionState::AwaitingMatch);
    assert!(game.handle(SessionEvent::UserCancel));
    assert_eq!(game.state(), SessionState::Idle);
}

#[test]
fn connect_failure_fails_the_session() {
    let mut game = Game::new(1);
    game.handle(SessionEvent::RequestMatch);
    game.handle(SessionEvent::AssignmentReceived(assignment()));
    assert!(game.handle(SessionEvent::Failure(SessionError::ConnectFailed)));
    assert_eq!(
        game.state(),
        SessionState::Failed(FailureReason::Error(SessionError::ConnectFailed))
    );
}

#[test]
fn closed_connection_and_failed_send_fail_the_play() {
    let mut closed = playing(1);
    assert!(closed.handle(SessionEvent::ConnectionClosed));
    assert_eq!(closed.state(), SessionState::Failed(FailureReason::ConnectionClosed));
    let mut failed = playing(1);
    assert!(failed.handle(SessionEvent::Failure(SessionError::SendFailed)));
    assert_eq!(
        failed.state(),
        SessionState::Failed(FailureReason::Error(SessionError::SendFailed))
    );
}

#[test]
fn malformed_frame_never_fails_the_session() {
    let mut game = playing(1);
    assert!(!game.handle(SessionEvent::Failure(SessionError::MalformedFrame)));
    assert_eq!(game.state(), SessionState::Playing);
    assert!(!SessionError::MalformedFrame.is_fatal());
    assert!(!SessionError::QueueCancelFailed.is_fatal());
    assert!(SessionError::MatchRequestRejected.is_fatal());
    assert!(SessionError::InvalidAssignment.is_fatal());
    assert!(SessionError::ConnectFailed.is_fatal());
    assert!(SessionError::SendFailed.is_fatal());
}

#[test]
fn illegal_events_change_nothing() {
    let legal_from_idle = 1;
    let mut moved = 0;
    for event in all_events() {
        let mut game = Game::new(5);
        if game.handle(event) {
            moved += 1;
            assert_eq!(game.state(), SessionState::AwaitingMatch);
        } else {
            assert_eq!(game.state(), SessionState::Idle);
        }
    }
    assert_eq!(moved, legal_from_idle);
    let mut from_playing = 0;
    for event in all_events() {
        let mut game = playing(5);
        if game.handle(event) {
            from_playing += 1;
            assert_ne!(game.state(), SessionState::Playing);
            assert_ne!(game.state(), SessionState::Idle);
        } else {
            assert_eq!(game.state(), SessionState::Playing);
            assert_eq!(game.assignment(), Some(&assignment()));
        }
    }
    assert_eq!(from_playing, 3);
}

#[test]
fn ended_and_failed_leave_only_by_acknowledgement() {
    for event in all_events() {
        let mut ended = playing(5);
        ended.handle(SessionEvent::GameEnded);
        let is_ack = event == SessionEvent::Acknowledge;
        assert_eq!(ended.handle(event.clone()), is_ack);
        assert_eq!(
            ended.state(),
            if is_ack { SessionState::Idle } else { SessionState::Ended }
        );
        let mut failed = playing(5);
        failed.handle(SessionEvent::ConnectionClosed);
        assert_eq!(failed.handle(event), is_ack);
        assert_eq!(
            failed.state(),
            if is_ack {
                SessionState::Idle
            } else {
                SessionState::Failed(FailureReason::ConnectionClosed)
            }
        );
    }
}

#[test]
fn poll_outside_play_touches_nothing() {
    let mut slot = SharedStateSlot::new();
    slot.publish(StateUpdate::Frame(frame()));
    let mut game = Game::new(3);
    assert_eq!(game.poll(&mut slot), PollOutcome::NoUpdate);
    game.handle(SessionEvent::RequestMatch);
    assert_eq!(game.poll(&mut slot), PollOutcome::NoUpdate);
    game.handle(SessionEvent::AssignmentReceived(assignment()));
    assert_eq!(game.poll(&mut slot), PollOutcome::NoUpdate);
    assert_eq!(game.state(), SessionState::Connecting);
    assert_eq!(game.game_stats(), GameStats::new());
    assert_eq!(slot.take(), Some(StateUpdate::Frame(frame())));
}

#[test]
fn poll_in_play_drains_the_freshest_frame() {
    let mut slot = SharedStateSlot::new();
    let mut game = playing(3);
    assert_eq!(game.poll(&mut slot), PollOutcome::NoUpdate);
    slot.publish(StateUpdate::Frame(frame()));
    assert_eq!(game.poll(&mut slot), PollOutcome::Frame(frame()));
    assert!(slot.is_empty());
    assert_eq!(game.state(), SessionState::Playing);
    let stats = game.game_stats();
    assert_eq!(f32::from_bits(stats.left_y), 25.0);
    assert_eq!(f32::from_bits(stats.right_y), 75.0);
    assert_eq!(f32::from_bits(stats.ball_x), 50.0);
    assert_eq!(f32::from_bits(stats.ball_y), 60.0);
    assert_eq!(f32::from_bits(stats.speed_x), 1.0);
    assert_eq!(f32::from_bits(stats.speed_y), -1.0);
    assert_eq!(stats.player1_score, 3);
    assert_eq!(stats.player2_score, 4);
    assert!(!stats.winner);
    assert_eq!(game.poll(&mut slot), PollOutcome::NoUpdate);
}

#[test]
fn end_message_through_the_receive_path_ends_the_match() {
    let mut slot = SharedStateSlot::new();
    let mut game = playing(12);
    let mut send_loop = SendLoop::new();
    assert_eq!(send_loop.tick(false), SendAction::Send(Vec::new()));
    receive_step(IncomingMessage::Binary(encode_state(&frame())), &mut slot);
    let outcome = receive_step(IncomingMessage::Text("{\"winner\":12}".to_string()), &mut slot);
    assert_eq!(outcome, ReceiveOutcome::Stop(StopCause::GameOver));
    assert_eq!(send_loop.tick(true), SendAction::Stop);
    assert_eq!(game.poll(&mut slot), PollOutcome::MatchOver { won: true });
    assert_eq!(game.state(), SessionState::Ended);
    assert!(game.game_stats().winner);
    assert!(slot.is_empty());
    assert_eq!(send_loop.tick(false), SendAction::Stop);
    assert_eq!(send_loop.tick(false), SendAction::Stop);
    assert!(!game.loop_stopped(StopCause::GameOver));
    assert_eq!(game.state(), SessionState::Ended);
    assert_eq!(game.poll(&mut slot), PollOutcome::NoUpdate);
}

#[test]
fn end_message_that_names_the_opponent_is_a_loss() {
    let mut slot = SharedStateSlot::new();
    let mut game = playing(12);
    slot.publish(StateUpdate::End(GameEndMessage::new("{\"winner\":8}".to_string())));
    assert_eq!(game.poll(&mut slot), PollOutcome::MatchOver { won: false });
    assert_eq!(game.state(), SessionState::Ended);
    assert!(!game.game_stats().winner);
}

#[test]
fn loop_stop_causes_map_to_events() {
    let mut closed = playing(1);
    assert!(closed.loop_stopped(StopCause::RemoteClosed));
    assert_eq!(closed.state(), SessionState::Failed(FailureReason::ConnectionClosed));
    let mut failed = playing(1);
    assert!(failed.loop_stopped(StopCause::Failed(SessionError::SendFailed)));
    assert_eq!(
        failed.state(),
        SessionState::Failed(FailureReason::Error(SessionError::SendFailed))
    );
    let mut cancelled = playing(1);
    assert!(!cancelled.loop_stopped(StopCause::Cancelled));
    assert_eq!(cancelled.state(), SessionState::Playing);
    let mut glitch = playing(1);
    assert!(!glitch.loop_stopped(StopCause::Failed(SessionError::MalformedFrame)));
    assert_eq!(glitch.state(), SessionState::Playing);
}

#[test]
fn decode_and_update_takes_frames_and_refuses_the_rest() {
    let mut game = playing(1);
    assert_eq!(game.decode_and_update(&encode_state(&frame())), Ok(()));
    assert_eq!(game.game_stats(), GameStats::new().with_frame(&frame()));
    assert_eq!(game.game_stats().player2_score, 4);
    assert_eq!(game.decode_and_update(&[0u8; 25]), Err(SessionError::MalformedFrame));
    assert_eq!(game.game_stats(), GameStats::new().with_frame(&frame()));
}

#[test]
fn end_game_records_the_winner() {
    let mut game = playing(77);
    assert!(game.end_game(&GameEndMessage::new("77".to_string())));
    assert_eq!(game.state(), SessionState::Ended);
    assert!(game.game_stats().winner);
    let mut idle = Game::new(77);
    assert!(!idle.end_game(&GameEndMessage::new("player 7 won".to_string())));
    assert_eq!(idle.state(), SessionState::Idle);
}

#[test]
fn new_assignment_clears_the_statistics() {
    let mut slot = SharedStateSlot::new();
    let mut game = playing(12);
    slot.publish(StateUpdate::Frame(frame()));
    game.poll(&mut slot);
    slot.publish(StateUpdate::End(GameEndMessage::new("12".to_string())));
    game.poll(&mut slot);
    assert!(game.game_stats().winner);
    game.handle(SessionEvent::Acknowledge);
    game.handle(SessionEvent::RequestMatch);
    assert!(game.game_stats().winner);
    game.handle(SessionEvent::AssignmentReceived(assignment()));
    assert_eq!(game.game_stats(), GameStats::new());
}

#[test]
fn errors_and_reasons_in_words() {
    assert_eq!(SessionError::MalformedFrame.message(), "malformed state frame");
    assert_eq!(SessionError::MatchRequestRejected.message(), "match request rejected");
    assert_eq!(SessionError::InvalidAssignment.message(), "invalid match assignment");
    assert_eq!(SessionError::ConnectFailed.message(), "connection failed");
    assert_eq!(SessionError::SendFailed.message(), "send failed");
    assert_eq!(
        SessionError::QueueCancelFailed.message(),
        "could not leave the matchmaking queue"
    );
    assert_eq!(FailureReason::ConnectionClosed.message(), "connection closed");
    assert_eq!(
        FailureReason::Error(SessionError::SendFailed).message(),
        SessionError::SendFailed.message()
    );
}
