//! The friends list: whose name a friendship record shows, whether the
//! friendship is accepted, and which lines one page of the list holds.

use vstd::prelude::*;
use crate::json::{json_text_field, text_field};
use crate::text::{decimal_text, spec_decimal};

verus! {

/// How many friends one page shows.
pub const PAGE_LEN: usize = 10;

/// The line of one friend: the name, marked where the friendship is still
/// pending.
pub open spec fn spec_friend_line(name: Seq<char>, accepted: bool) -> Seq<char> {
    if accepted {
        name
    } else {
        name + " (Pending)"@
    }
}

/// The lines of page `index` of a friends list: up to ten friends from the
/// one at `10 * index` on, and `...` after them where more friends follow. A
/// page past the end of the list is empty.
pub open spec fn spec_friends_page(friends: Seq<(Seq<char>, bool)>, index: nat) -> Seq<Seq<char>> {
    let start = index * 10;
    if start >= friends.len() {
        Seq::empty()
    } else {
        let count = if friends.len() - start < 10 {
            friends.len() - start
        } else {
            10
        };
        let lines = Seq::new(
            count as nat,
            |i: int| spec_friend_line(friends[start + i].0, friends[start + i].1),
        );
        if friends.len() - start > 10 {
            lines.push("..."@)
        } else {
            lines
        }
    }
}

/// A friends list with its names as sequences of characters.
pub open spec fn spec_friends_view(friends: Seq<(String, bool)>) -> Seq<(Seq<char>, bool)> {
    friends.map_values(|friend: (String, bool)| (friend.0@, friend.1))
}

/// Lines as sequences of characters.
pub open spec fn spec_lines_view(lines: Seq<String>) -> Seq<Seq<char>> {
    lines.map_values(|line: String| line@)
}

/// Whether a friendship is accepted, from the record's `pending` number: 0 is
/// accepted, 1 is pending, and a record with anything else is left out.
pub open spec fn spec_friend_accepted(pending: Option<u64>) -> Option<bool> {
    if pending == Some(0u64) {
        Some(true)
    } else if pending == Some(1u64) {
        Some(false)
    } else {
        None
    }
}

/// The friend that a friendship record names: of its two users the first
/// that is not the local player. A record without a first user, or without
/// another user than the local player, names nobody.
pub open spec fn spec_friend_id(user1: Option<u64>, user2: Option<u64>, own: u64) -> Option<u64> {
    match user1 {
        None => None,
        Some(first) => if first != own {
            Some(first)
        } else {
            match user2 {
                None => None,
                Some(second) => if second != own {
                    Some(second)
                } else {
                    None
                },
            }
        },
    }
}

/// The address that lists a player's friends.
pub open spec fn spec_friends_url(host: Seq<char>, player: nat) -> Seq<char> {
    "https://"@ + host + "/api/friends/get?user_id="@ + spec_decimal(player)
}

/// The address that gives a player's profile.
pub open spec fn spec_profile_url(host: Seq<char>, player: nat) -> Seq<char> {
    "https://"@ + host + "/api/user/get_profile_id?user_id="@ + spec_decimal(player)
}

/// Whether a friendship is accepted, from the record's `pending` number.
pub fn friend_accepted(pending: Option<u64>) -> (accepted: Option<bool>)
    ensures
        accepted == spec_friend_accepted(pending),
{
    match pending {
        Some(0) => Some(true),
        Some(1) => Some(false),
        _ => None,
    }
}

/// The friend that a friendship record names.
pub fn friend_id(user1: Option<u64>, user2: Option<u64>, own: u64) -> (friend: Option<u64>)
    ensures
        friend == spec_friend_id(user1, user2, own),
{
    match user1 {
        None => None,
        Some(first) => {
            if first != own {
                return Some(first);
            }
            match user2 {
                None => None,
                Some(second) => if second != own {
                    Some(second)
                } else {
                    None
                },
            }
        },
    }
}

/// Reads a player's name from a profile: its string `name`.
pub fn profile_name(profile: &str) -> (name: Option<String>)
    ensures
        match name {
            Some(text) => json_text_field(profile@, "name"@) == Some(text@),
            None => json_text_field(profile@, "name"@) is None,
        },
{
    text_field(profile, "name")
}

/// The address that lists a player's friends:
/// `https://<host>/api/friends/get?user_id=<player>`.
pub fn friends_url(host: &str, player: u64) -> (url: String)
    ensures
        url@ == spec_friends_url(host@, player as nat),
{
    let mut url = String::from_str("https://");
    url.append(host);
    url.append("/api/friends/get?user_id=");
    let id = decimal_text(player);
    url.append(id.as_str());
    url
}

/// The address that gives a player's profile:
/// `https://<host>/api/user/get_profile_id?user_id=<player>`.
pub fn profile_url(host: &str, player: u64) -> (url: String)
    ensures
        url@ == spec_profile_url(host@, player as nat),
{
    let mut url = String::from_str("https://");
    url.append(host);
    url.append("/api/user/get_profile_id?user_id=");
    let id = decimal_text(player);
    url.append(id.as_str());
    url
}

/// The lines of page `index` of a friends list, each friend with its name
/// and whether the friendship is accepted.
pub fn indexed_friends(friends: &Vec<(String, bool)>, index: usize) -> (page: Vec<String>)
    ensures
        spec_lines_view(page@) == spec_friends_page(spec_friends_view(friends@), index as nat),
{
    let mut page: Vec<String> = Vec::new();
    let ghost model = spec_friends_view(friends@);
    if index > friends.len() / PAGE_LEN {
        assert(spec_lines_view(page@) =~= spec_friends_page(model, index as nat));
        return page;
    }
    let start: usize = index * PAGE_LEN;
    if start >= friends.len() {
        assert(spec_lines_view(page@) =~= spec_friends_page(model, index as nat));
        return page;
    }
    let total: usize = friends.len();
    let remaining: usize = total - start;
    let count: usize = if remaining < PAGE_LEN {
        remaining
    } else {
        PAGE_LEN
    };
    let mut i: usize = 0;
    while i < count
        invariant
            i <= count,
            start + count <= friends@.len(),
            total == friends@.len(),
            page@.len() == i,
            forall|j: int|
                0 <= j < i ==> (#[trigger] page@[j])@ == spec_friend_line(
                    friends@[start + j].0@,
                    friends@[start + j].1,
                ),
        decreases count - i,
    {
        let entry = &friends[start + i];
        let mut line = entry.0.clone();
        if !entry.1 {
            line.append(" (Pending)");
        }
        page.push(line);
        i += 1;
    }
    if remaining > PAGE_LEN {
        page.push(String::from_str("..."));
    }
    assert(spec_lines_view(page@) =~= spec_friends_page(model, index as nat));
    page
}

} // verus!
