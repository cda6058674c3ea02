//! Entering the lobby as a guest: the request that opens a guest session, the
//! identifier that the server's answer carries, and the address of the
//! notification channel.

use vstd::prelude::*;
use crate::json::{json_nested_number_field, nested_number_field};
use crate::negotiator::{HttpCall, HttpCallView, HttpMethod};
use crate::text::{decimal_text, spec_decimal};

verus! {

/// The request that opens a guest session.
pub open spec fn spec_guest_session_call(host: Seq<char>) -> HttpCallView {
    HttpCallView {
        method: HttpMethod::Post,
        url: "https://"@ + host + "/api/user/guest_cli"@,
        fields: Seq::empty(),
    }
}

/// The address of the notification channel of a player.
pub open spec fn spec_chat_socket_url(host: Seq<char>, player: nat) -> Seq<char> {
    "wss://"@ + host + "/api/chat?userid="@ + spec_decimal(player)
}

/// Describes the request that opens a guest session: a POST to
/// `/api/user/guest_cli` without a body.
pub fn guest_session_call(host: &str) -> (call: HttpCall)
    ensures
        call@ == spec_guest_session_call(host@),
{
    let mut url = String::from_str("https://");
    url.append(host);
    url.append("/api/user/guest_cli");
    let fields: Vec<(String, String)> = Vec::new();
    let call = HttpCall { method: HttpMethod::Post, url, fields };
    assert(call@.fields =~= spec_guest_session_call(host@).fields);
    call
}

/// Reads the player's identifier from the answer to a guest session request:
/// the unsigned integer `id` inside the member `data`.
pub fn guest_id(body: &str) -> (id: Option<u64>)
    ensures
        id == json_nested_number_field(body@, "data"@, "id"@),
{
    nested_number_field(body, "data", "id")
}

/// The address of the notification channel:
/// `wss://<host>/api/chat?userid=<player>`.
pub fn chat_socket_url(host: &str, player: u64) -> (url: String)
    ensures
        url@ == spec_chat_socket_url(host@, player as nat),
{
    let mut url = String::from_str("wss://");
    url.append(host);
    url.append("/api/chat?userid=");
    let id = decimal_text(player);
    url.append(id.as_str());
    url
}

} // verus!
