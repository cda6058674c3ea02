//! The session negotiator: what is asked of the server to enter and leave
//! matchmaking and to start a match, how its answers are judged, how an
//! assignment is read from a lobby notification, and what a waiting client
//! does when a notification and a cancellation meet.
//!
//! Nothing here touches the network. Each call that is to be made is
//! described as an `HttpCall`; the caller performs it and reports the status.

use vstd::prelude::*;
use crate::error::SessionError;
use crate::json::{json_number_field, json_text_field, number_field, text_field};
use crate::text::{decimal_text, spec_decimal};

verus! {

/// Which paddle the local client controls.
#[derive(Clone, Copy, Debug, PartialEq, Eq, Structural)]
pub enum PlayerSide {
    Left,
    Right,
}

/// The result of successful matchmaking.
#[derive(Clone, Debug, PartialEq, Eq)]
pub struct MatchAssignment {
    /// The server's token for the match.
    pub game_id: String,
    pub opponent_id: u64,
    pub player_side: PlayerSide,
}

/// A `MatchAssignment` with its text as a sequence of characters.
pub struct MatchAssignmentView {
    pub game_id: Seq<char>,
    pub opponent_id: u64,
    pub player_side: PlayerSide,
}

/// The two request methods that the client uses.
#[derive(Clone, Copy, Debug, PartialEq, Eq, Structural)]
pub enum HttpMethod {
    Post,
    Delete,
}

/// One request to the server: the method, the address, and the members of the
/// JSON object that is its body, in order, each a name and a string.
#[derive(Clone, Debug, PartialEq, Eq)]
pub struct HttpCall {
    pub method: HttpMethod,
    pub url: String,
    pub fields: Vec<(String, String)>,
}

/// An `HttpCall` with its texts as sequences of characters.
pub struct HttpCallView {
    pub method: HttpMethod,
    pub url: Seq<char>,
    pub fields: Seq<(Seq<char>, Seq<char>)>,
}

/// What a client that waits for an assignment does next.
#[derive(Clone, Copy, Debug, PartialEq, Eq, Structural)]
pub enum AwaitAction {
    /// A notification is there: take it.
    Deliver,
    /// The user gave up: leave the matchmaking queue.
    CancelQueue,
    /// Neither: wait one more tick.
    KeepWaiting,
}

impl View for MatchAssignment {
    type V = MatchAssignmentView;

    open spec fn view(&self) -> MatchAssignmentView {
        MatchAssignmentView {
            game_id: self.game_id@,
            opponent_id: self.opponent_id,
            player_side: self.player_side,
        }
    }
}

impl View for HttpCall {
    type V = HttpCallView;

    open spec fn view(&self) -> HttpCallView {
        HttpCallView {
            method: self.method,
            url: self.url@,
            fields: self.fields@.map_values(|pair: (String, String)| (pair.0@, pair.1@)),
        }
    }
}

impl PlayerSide {
    /// The side that a number of the wire stands for: 1 is left, 2 is right,
    /// and no other number is a side.
    pub open spec fn spec_from_number(number: u64) -> Option<PlayerSide> {
        if number == 1 {
            Some(PlayerSide::Left)
        } else if number == 2 {
            Some(PlayerSide::Right)
        } else {
            None
        }
    }

    /// The number that stands for the side on the wire.
    pub open spec fn spec_number(self) -> u64 {
        match self {
            PlayerSide::Left => 1,
            PlayerSide::Right => 2,
        }
    }

    /// Reads a side from its number.
    pub fn from_number(number: u64) -> (side: Option<PlayerSide>)
        ensures
            side == Self::spec_from_number(number),
    {
        if number == 1 {
            Some(PlayerSide::Left)
        } else if number == 2 {
            Some(PlayerSide::Right)
        } else {
            None
        }
    }

    /// The side's number.
    pub fn number(self) -> (number: u64)
        ensures
            number == self.spec_number(),
            Self::spec_from_number(number) == Some(self),
    {
        match self {
            PlayerSide::Left => 1,
            PlayerSide::Right => 2,
        }
    }
}

/// The assignment that three fields of a notification make: all three must be
/// there, and the side must be the number of a side.
pub open spec fn spec_assignment(
    game_id: Option<Seq<char>>,
    opponent_id: Option<u64>,
    side: Option<u64>,
) -> Option<MatchAssignmentView> {
    if game_id is Some && opponent_id is Some && side is Some && PlayerSide::spec_from_number(
        side->0,
    ) is Some {
        Some(
            MatchAssignmentView {
                game_id: game_id->0,
                opponent_id: opponent_id->0,
                player_side: PlayerSide::spec_from_number(side->0)->0,
            },
        )
    } else {
        None
    }
}

/// The assignment that a notification carries: its `gameId` as a string, its
/// `opponentId` and its `playerSide` as unsigned integers.
pub open spec fn spec_parse_assignment(document: Seq<char>) -> Option<MatchAssignmentView> {
    spec_assignment(
        json_text_field(document, "gameId"@),
        json_number_field(document, "opponentId"@),
        json_number_field(document, "playerSide"@),
    )
}

/// Whether the server's answer to a match request accepts it: 201 or 202.
pub open spec fn spec_creation_accepted(status: u16) -> bool {
    status == 201 || status == 202
}

/// Whether the server's answer to a start call accepts it: 200.
pub open spec fn spec_start_accepted(status: u16) -> bool {
    status == 200
}

/// What a waiting client does: a notification that is there is delivered,
/// whether or not the user also asked to cancel; a cancellation is acted on
/// only when no notification is there.
pub open spec fn spec_await_action(message_available: bool, cancel_requested: bool) -> AwaitAction {
    if message_available {
        AwaitAction::Deliver
    } else if cancel_requested {
        AwaitAction::CancelQueue
    } else {
        AwaitAction::KeepWaiting
    }
}

/// The request that enters matchmaking.
pub open spec fn spec_create_game_call(
    host: Seq<char>,
    mode: Seq<char>,
    token: Seq<char>,
) -> HttpCallView {
    HttpCallView {
        method: HttpMethod::Post,
        url: "https://"@ + host + "/api/create-game"@,
        fields: seq![("mode"@, mode), ("token"@, token)],
    }
}

/// The request that enters matchmaking as a guest, who is known by a player
/// identifier in place of a token.
pub open spec fn spec_create_guest_game_call(
    host: Seq<char>,
    mode: Seq<char>,
    player: nat,
) -> HttpCallView {
    HttpCallView {
        method: HttpMethod::Post,
        url: "https://"@ + host + "/api/create-game"@,
        fields: seq![("mode"@, mode), ("playerName"@, spec_decimal(player))],
    }
}

/// The request that leaves the matchmaking queue.
pub open spec fn spec_cancel_queue_call(host: Seq<char>, player: nat) -> HttpCallView {
    HttpCallView {
        method: HttpMethod::Delete,
        url: "https://"@ + host + "/api/chat/removeQueue"@,
        fields: seq![("id"@, spec_decimal(player))],
    }
}

/// The request that marks a match as started. A guest has no token and
/// sends no body.
pub open spec fn spec_start_game_call(
    host: Seq<char>,
    game_id: Seq<char>,
    token: Option<Seq<char>>,
) -> HttpCallView {
    HttpCallView {
        method: HttpMethod::Post,
        url: "https://"@ + host + "/api/start-game/"@ + game_id,
        fields: match token {
            Some(token) => seq![("token"@, token)],
            None => Seq::empty(),
        },
    }
}

/// The address of a match's streaming connection.
pub open spec fn spec_game_socket_url(host: Seq<char>, assignment: MatchAssignmentView) -> Seq<
    char,
> {
    "wss://"@ + host + "/api/game/"@ + assignment.game_id + "/"@ + spec_decimal(
        assignment.player_side.spec_number() as nat,
    )
}

/// If a notification is available in the same instant as a cancellation, the
/// notification is delivered: a match that was found is never discarded.
pub proof fn lemma_assignment_beats_cancel(cancel_requested: bool)
    ensures
        spec_await_action(true, cancel_requested) == AwaitAction::Deliver,
        spec_await_action(false, true) == AwaitAction::CancelQueue,
        spec_await_action(false, false) == AwaitAction::KeepWaiting,
{
}

/// Makes an assignment of the three fields read from a notification. It
/// succeeds exactly when all three are there and the side is 1 or 2; else the
/// assignment is invalid.
pub fn assignment_from_fields(
    game_id: Option<String>,
    opponent_id: Option<u64>,
    side: Option<u64>,
) -> (made: Result<MatchAssignment, SessionError>)
    ensures
        match made {
            Ok(assignment) => spec_assignment(
                match game_id {
                    Some(text) => Some(text@),
                    None => None,
                },
                opponent_id,
                side,
            ) == Some(assignment@),
            Err(error) => error == SessionError::InvalidAssignment && spec_assignment(
                match game_id {
                    Some(text) => Some(text@),
                    None => None,
                },
                opponent_id,
                side,
            ) is None,
        },
{
    let game_id = match game_id {
        Some(text) => text,
        None => return Err(SessionError::InvalidAssignment),
    };
    let opponent_id = match opponent_id {
        Some(number) => number,
        None => return Err(SessionError::InvalidAssignment),
    };
    let player_side = match side {
        Some(number) => match PlayerSide::from_number(number) {
            Some(side) => side,
            None => return Err(SessionError::InvalidAssignment),
        },
        None => return Err(SessionError::InvalidAssignment),
    };
    Ok(MatchAssignment { game_id, opponent_id, player_side })
}

/// Reads the assignment from a lobby notification. It succeeds exactly when
/// the document has a string `gameId`, an unsigned `opponentId` and a
/// `playerSide` of 1 or 2; else the assignment is invalid.
pub fn parse_assignment(document: &str) -> (parsed: Result<MatchAssignment, SessionError>)
    ensures
        match parsed {
            Ok(assignment) => spec_parse_assignment(document@) == Some(assignment@),
            Err(error) => error == SessionError::InvalidAssignment && spec_parse_assignment(
                document@,
            ) is None,
        },
{
    let game_id = text_field(document, "gameId");
    let opponent_id = number_field(document, "opponentId");
    let side = number_field(document, "playerSide");
    assignment_from_fields(game_id, opponent_id, side)
}

/// Whether a lobby notification is a candidate assignment: whether it has a
/// string `gameId`. Only such notifications are handed to a waiting client.
pub fn is_candidate_assignment(document: &str) -> (candidate: bool)
    ensures
        candidate == (json_text_field(document@, "gameId"@) is Some),
{
    text_field(document, "gameId").is_some()
}

/// Whether the status of the answer to a match request accepts it.
pub fn creation_accepted(status: u16) -> (accepted: bool)
    ensures
        accepted == spec_creation_accepted(status),
{
    status == 201 || status == 202
}

/// Judges the answer to a match request: any status but 201 and 202 rejects
/// the request.
pub fn check_match_response(status: u16) -> (checked: Result<(), SessionError>)
    ensures
        spec_creation_accepted(status) ==> checked == Ok::<(), SessionError>(()),
        !spec_creation_accepted(status) ==> checked == Err::<(), SessionError>(
            SessionError::MatchRequestRejected,
        ),
{
    if creation_accepted(status) {
        Ok(())
    } else {
        Err(SessionError::MatchRequestRejected)
    }
}

/// Judges the answer to a start call. Where a failed start is fatal, any
/// status but 200 fails the connection; where it is advisory, every status
/// lets the connection attempt proceed.
pub fn check_start_response(status: u16, start_failure_fatal: bool) -> (checked: Result<
    (),
    SessionError,
>)
    ensures
        (spec_start_accepted(status) || !start_failure_fatal) ==> checked == Ok::<
            (),
            SessionError,
        >(()),
        (!spec_start_accepted(status) && start_failure_fatal) ==> checked == Err::<
            (),
            SessionError,
        >(SessionError::ConnectFailed),
{
    if status == 200 || !start_failure_fatal {
        Ok(())
    } else {
        Err(SessionError::ConnectFailed)
    }
}

/// Decides what a waiting client does this tick.
pub fn await_action(message_available: bool, cancel_requested: bool) -> (action: AwaitAction)
    ensures
        action == spec_await_action(message_available, cancel_requested),
{
    if message_available {
        AwaitAction::Deliver
    } else if cancel_requested {
        AwaitAction::CancelQueue
    } else {
        AwaitAction::KeepWaiting
    }
}

/// A name and a value as one member of a request body.
fn member(name: &str, value: &str) -> (pair: (String, String))
    ensures
        pair.0@ == name@,
        pair.1@ == value@,
{
    (String::from_str(name), String::from_str(value))
}

/// Describes the request that enters matchmaking: a POST to
/// `/api/create-game` with the mode and the token.
pub fn create_game_call(host: &str, mode: &str, token: &str) -> (call: HttpCall)
    ensures
        call@ == spec_create_game_call(host@, mode@, token@),
{
    let mut url = String::from_str("https://");
    url.append(host);
    url.append("/api/create-game");
    let mut fields: Vec<(String, String)> = Vec::new();
    fields.push(member("mode", mode));
    fields.push(member("token", token));
    let call = HttpCall { method: HttpMethod::Post, url, fields };
    assert(call@.fields =~= spec_create_game_call(host@, mode@, token@).fields);
    call
}

/// Describes the request that enters matchmaking as a guest: a POST to
/// `/api/create-game` with the mode and the player's identifier in decimal.
pub fn create_guest_game_call(host: &str, mode: &str, player: u64) -> (call: HttpCall)
    ensures
        call@ == spec_create_guest_game_call(host@, mode@, player as nat),
{
    let mut url = String::from_str("https://");
    url.append(host);
    url.append("/api/create-game");
    let name = decimal_text(player);
    let mut fields: Vec<(String, String)> = Vec::new();
    fields.push(member("mode", mode));
    fields.push(member("playerName", name.as_str()));
    let call = HttpCall { method: HttpMethod::Post, url, fields };
    assert(call@.fields =~= spec_create_guest_game_call(host@, mode@, player as nat).fields);
    call
}

/// Describes the request that leaves the matchmaking queue: a DELETE to
/// `/api/chat/removeQueue` with the player's identifier in decimal.
pub fn cancel_queue_call(host: &str, player: u64) -> (call: HttpCall)
    ensures
        call@ == spec_cancel_queue_call(host@, player as nat),
{
    let mut url = String::from_str("https://");
    url.append(host);
    url.append("/api/chat/removeQueue");
    let id = decimal_text(player);
    let mut fields: Vec<(String, String)> = Vec::new();
    fields.push(member("id", id.as_str()));
    let call = HttpCall { method: HttpMethod::Delete, url, fields };
    assert(call@.fields =~= spec_cancel_queue_call(host@, player as nat).fields);
    call
}

/// Describes the request that marks a match as started: a POST to
/// `/api/start-game/<game id>`, with the token where there is one.
pub fn start_game_call(host: &str, game_id: &str, token: Option<&str>) -> (call: HttpCall)
    ensures
        call@ == spec_start_game_call(
            host@,
            game_id@,
            match token {
                Some(token) => Some(token@),
                None => None,
            },
        ),
{
    let mut url = String::from_str("https://");
    url.append(host);
    url.append("/api/start-game/");
    url.append(game_id);
    let mut fields: Vec<(String, String)> = Vec::new();
    match token {
        Some(token) => {
            fields.push(member("token", token));
        },
        None => {},
    }
    let call = HttpCall { method: HttpMethod::Post, url, fields };
    assert(call@.fields =~= spec_start_game_call(
        host@,
        game_id@,
        match token {
            Some(token) => Some(token@),
            None => None,
        },
    ).fields);
    call
}

/// The address of the streaming connection of a match:
/// `wss://<host>/api/game/<game id>/<side>`, the side as its number.
pub fn game_socket_url(host: &str, assignment: &MatchAssignment) -> (url: String)
    ensures
        url@ == spec_game_socket_url(host@, assignment@),
{
    let mut url = String::from_str("wss://");
    url.append(host);
    url.append("/api/game/");
    url.append(assignment.game_id.as_str());
    url.append("/");
    let side = decimal_text(assignment.player_side.number());
    url.append(side.as_str());
    url
}

} // verus!
