use pong_session::error::SessionError;
use pong_session::negotiator::{
    assignment_from_fields, await_action, cancel_queue_call, check_match_response,
    check_start_response, create_game_call, create_guest_game_call, creation_accepted,
    game_socket_url, is_candidate_assignment, parse_assignment, start_game_call, AwaitAction,
    HttpCall, HttpMethod, MatchAssignment, PlayerSide,
};

fn pair(name: &str, value: &str) -> (String, String) {
    (name.to_string(), value.to_string())
}

#[test]
fn parse_assignment_reads_the_three_fields() {
    let document = "{\"gameId\":\"442c772e-0ec8-447e-8f1d-b87f00c76380\",\"opponentId\":35,\"playerSide\":2}";
    assert_eq!(
        parse_assignment(document),
        Ok(MatchAssignment {
            game_id: "442c772e-0ec8-447e-8f1d-b87f00c76380".to_string(),
            opponent_id: 35,
            player_side: PlayerSide::Right,
        })
    );
}

#[test]
fn parse_assignment_left_side_and_other_members() {
    let document = " { \"extra\" : [1, 2, {\"gameId\": \"no\"}], \"playerSide\" : 1, \"opponentId\" : 0, \"gameId\" : \"g\\u00e9\" } ";
    assert_eq!(
        parse_assignment(document),
        Ok(MatchAssignment {
            game_id: "g\u{e9}".to_string(),
            opponent_id: 0,
            player_side: PlayerSide::Left,
        })
    );
}

#[test]
fn parse_assignment_without_game_id_is_invalid() {
    assert_eq!(
        parse_assignment("{\"opponentId\":35,\"playerSide\":2}"),
        Err(SessionError::InvalidAssignment)
    );
}

#[test]
fn parse_assignment_without_opponent_is_invalid() {
    assert_eq!(
        parse_assignment("{\"gameId\":\"g\",\"playerSide\":2}"),
        Err(SessionError::InvalidAssignment)
    );
}

#[test]
fn parse_assignment_without_side_is_invalid() {
    assert_eq!(
        parse_assignment("{\"gameId\":\"g\",\"opponentId\":35}"),
        Err(SessionError::InvalidAssignment)
    );
}

#[test]
fn parse_assignment_with_members_of_the_wrong_kind_is_invalid() {
    assert_eq!(
        parse_assignment("{\"gameId\":17,\"opponentId\":35,\"playerSide\":2}"),
        Err(SessionError::InvalidAssignment)
    );
    assert_eq!(
        parse_assignment("{\"gameId\":\"g\",\"opponentId\":\"35\",\"playerSide\":2}"),
        Err(SessionError::InvalidAssignment)
    );
    assert_eq!(
        parse_assignment("{\"gameId\":\"g\",\"opponentId\":-35,\"playerSide\":2}"),
        Err(SessionError::InvalidAssignment)
    );
    assert_eq!(
        parse_assignment("{\"gameId\":\"g\",\"opponentId\":35,\"playerSide\":2.0}"),
        Err(SessionError::InvalidAssignment)
    );
}

#[test]
fn parse_assignment_with_a_number_that_is_no_side_is_invalid() {
    assert_eq!(
        parse_assignment("{\"gameId\":\"g\",\"opponentId\":35,\"playerSide\":0}"),
        Err(SessionError::InvalidAssignment)
    );
    assert_eq!(
        parse_assignment("{\"gameId\":\"g\",\"opponentId\":35,\"playerSide\":3}"),
        Err(SessionError::InvalidAssignment)
    );
}

#[test]
fn parse_assignment_of_text_that_is_no_json_is_invalid() {
    assert_eq!(parse_assignment(""), Err(SessionError::InvalidAssignment));
    assert_eq!(parse_assignment("gameId"), Err(SessionError::InvalidAssignment));
    assert_eq!(
        parse_assignment("{\"gameId\":\"g\",\"opponentId\":35,\"playerSide\":2"),
        Err(SessionError::InvalidAssignment)
    );
    assert_eq!(
        parse_assignment("[\"gameId\",\"opponentId\",\"playerSide\"]"),
        Err(SessionError::InvalidAssignment)
    );
}

#[test]
fn assignment_from_fields_needs_all_three() {
    assert_eq!(
        assignment_from_fields(Some("g".to_string()), Some(4), Some(1)),
        Ok(MatchAssignment {
            game_id: "g".to_string(),
            opponent_id: 4,
            player_side: PlayerSide::Left,
        })
    );
    assert_eq!(
        assignment_from_fields(None, Some(4), Some(1)),
        Err(SessionError::InvalidAssignment)
    );
    assert_eq!(
        assignment_from_fields(Some("g".to_string()), None, Some(1)),
        Err(SessionError::InvalidAssignment)
    );
    assert_eq!(
        assignment_from_fields(Some("g".to_string()), Some(4), None),
        Err(SessionError::InvalidAssignment)
    );
    assert_eq!(
        assignment_from_fields(Some("g".to_string()), Some(4), Some(u64::MAX)),
        Err(SessionError::InvalidAssignment)
    );
}

#[test]
fn player_side_numbers() {
    assert_eq!(PlayerSide::from_number(1), Some(PlayerSide::Left));
    assert_eq!(PlayerSide::from_number(2), Some(PlayerSide::Right));
    assert_eq!(PlayerSide::from_number(0), None);
    assert_eq!(PlayerSide::from_number(3), None);
    assert_eq!(PlayerSide::Left.number(), 1);
    assert_eq!(PlayerSide::Right.number(), 2);
}

#[test]
fn only_notifications_with_a_game_id_are_candidates() {
    assert!(is_candidate_assignment("{\"gameId\":\"abc\"}"));
    assert!(is_candidate_assignment("{\"gameId\":\"\",\"message\":\"hi\"}"));
    assert!(!is_candidate_assignment("{\"message\":\"gameId\"}"));
    assert!(!is_candidate_assignment("{\"gameId\":12}"));
    assert!(!is_candidate_assignment("{\"gameId\":null}"));
    assert!(!is_candidate_assignment("not json"));
    assert!(!is_candidate_assignment("\"gameId\""));
}

#[test]
fn creation_is_accepted_on_201_and_202_only() {
    assert!(creation_accepted(201));
    assert!(creation_accepted(202));
    for status in [0u16, 100, 200, 203, 204, 301, 400, 401, 404, 500, u16::MAX] {
        assert!(!creation_accepted(status));
        assert_eq!(check_match_response(status), Err(SessionError::MatchRequestRejected));
    }
    assert_eq!(check_match_response(201), Ok(()));
    assert_eq!(check_match_response(202), Ok(()));
}

#[test]
fn failed_start_is_fatal_only_where_configured() {
    assert_eq!(check_start_response(200, true), Ok(()));
    assert_eq!(check_start_response(200, false), Ok(()));
    assert_eq!(check_start_response(201, true), Err(SessionError::ConnectFailed));
    assert_eq!(check_start_response(500, true), Err(SessionError::ConnectFailed));
    assert_eq!(check_start_response(500, false), Ok(()));
    assert_eq!(check_start_response(404, false), Ok(()));
}

#[test]
fn available_assignment_beats_cancellation() {
    assert_eq!(await_action(true, true), AwaitAction::Deliver);
    assert_eq!(await_action(true, false), AwaitAction::Deliver);
    assert_eq!(await_action(false, true), AwaitAction::CancelQueue);
    assert_eq!(await_action(false, false), AwaitAction::KeepWaiting);
}

#[test]
fn create_game_call_posts_mode_and_token() {
    assert_eq!(
        create_game_call("pong.example:8443", "online", "tok-1"),
        HttpCall {
            method: HttpMethod::Post,
            url: "https://pong.example:8443/api/create-game".to_string(),
            fields: vec![pair("mode", "online"), pair("token", "tok-1")],
        }
    );
}

#[test]
fn create_guest_game_call_posts_mode_and_player_name() {
    assert_eq!(
        create_guest_game_call("localhost", "online", 1207),
        HttpCall {
            method: HttpMethod::Post,
            url: "https://localhost/api/create-game".to_string(),
            fields: vec![pair("mode", "online"), pair("playerName", "1207")],
        }
    );
}

#[test]
fn cancel_queue_call_deletes_with_the_identifier() {
    assert_eq!(
        cancel_queue_call("localhost", 35),
        HttpCall {
            method: HttpMethod::Delete,
            url: "https://localhost/api/chat/removeQueue".to_string(),
            fields: vec![pair("id", "35")],
        }
    );
}

#[test]
fn start_game_call_posts_to_the_game() {
    assert_eq!(
        start_game_call("localhost", "g-17", Some("tok")),
        HttpCall {
            method: HttpMethod::Post,
            url: "https://localhost/api/start-game/g-17".to_string(),
            fields: vec![pair("token", "tok")],
        }
    );
}

#[test]
fn start_game_call_of_a_guest_has_no_body() {
    assert_eq!(
        start_game_call("localhost", "g-17", None),
        HttpCall {
            method: HttpMethod::Post,
            url: "https://localhost/api/start-game/g-17".to_string(),
            fields: Vec::new(),
        }
    );
}

#[test]
fn game_socket_url_names_game_and_side() {
    let left = MatchAssignment {
        game_id: "g-17".to_string(),
        opponent_id: 9,
        player_side: PlayerSide::Left,
    };
    let right = MatchAssignment {
        game_id: "442c".to_string(),
        opponent_id: 9,
        player_side: PlayerSide::Right,
    };
    assert_eq!(game_socket_url("localhost", &left), "wss://localhost/api/game/g-17/1");
    assert_eq!(game_socket_url("h:1", &right), "wss://h:1/api/game/442c/2");
}
