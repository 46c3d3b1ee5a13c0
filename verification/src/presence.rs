//! Presence: what the requests that register users, list them and keep them
//! alive do to the registry, and what they are answered with.

use crate::ids::{fresh_id, is_id_text};
use crate::json::{member_text, text_member};
use crate::registry::{
    distinct_users, expired, has_user, lemma_live_users_keep, lemma_live_users_listed,
    lemma_user_slot, listed, live_users, user_slot, with_heartbeat, with_user, without_user,
    CallManager, UserRecord, HEARTBEAT_TIMEOUT_SECS,
};
use crate::text::{copy_text, or_empty, text_or_empty};
use crate::user::{CallStatus, User};
use vstd::prelude::*;

verus! {

/// What a request about users is answered with.
#[derive(Debug)]
pub enum UserReply {
    /// The user was registered under `user_id`.
    Registered { user_id: String, username: String },
    /// The registered users.
    Users { users: Vec<User> },
    /// Whether there was a user to disconnect.
    Disconnected { success: bool },
    /// Whether the user whose heartbeat came is registered.
    Heartbeat { success: bool },
    /// The user asked for.
    Found { user_id: String, username: String, status: CallStatus },
    /// There is no user under the id given.
    NotFound,
}

/// The name of a user who gave none.
pub open spec fn default_username() -> Seq<char> {
    "Unknown"@
}

/// The name under which a user registers who gave `username`.
pub open spec fn name_or_default(username: Option<Seq<char>>) -> Seq<char> {
    match username {
        Some(name) => name,
        None => default_username(),
    }
}

/// The text as a value, where there is one.
pub open spec fn text_of(text: Option<&str>) -> Option<Seq<char>> {
    match text {
        Some(t) => Some(t@),
        None => None,
    }
}

/// The text, or the empty text where there is none.
pub open spec fn or_empty_text(text: Option<Seq<char>>) -> Seq<char> {
    match text {
        Some(t) => t,
        None => Seq::empty(),
    }
}

/// The text borrowed, where there is one.
fn borrowed(text: &Option<String>) -> (out: Option<&str>)
    ensures
        match (out, *text) {
            (Some(o), Some(t)) => o@ == t@,
            (None, None) => true,
            _ => false,
        },
{
    match text {
        Some(t) => Some(t.as_str()),
        None => None,
    }
}

/// Whether `record` is that of a user who has just registered under `id`
/// with the name `username` at the time `now`.
pub open spec fn is_new_user(record: UserRecord, id: Seq<char>, username: Seq<char>, now: u64) -> bool {
    &&& record.user.id@ == id
    &&& record.user.username@ == username
    &&& record.user.ip_address is None
    &&& record.user.status == CallStatus::Idle
    &&& record.last_heartbeat == now
}

/// HTTP status of a reply: 404 where the user does not exist, else 200.
pub open spec fn user_status_of(reply: UserReply) -> u16 {
    match reply {
        UserReply::NotFound => 404,
        _ => 200,
    }
}

impl UserReply {
    /// HTTP status of the reply.
    pub fn status_code(&self) -> (code: u16)
        ensures
            code == user_status_of(*self),
    {
        match self {
            UserReply::NotFound => 404,
            _ => 200,
        }
    }
}

/// Registers a user under the id `id`, with the name given or, without one,
/// as "Unknown". The user is idle and was last heard of at `now`.
pub fn register_user_as(manager: &mut CallManager, id: String, username: Option<&str>, now: u64) -> (reply:
    UserReply)
    ensures
        final(manager)@.calls == old(manager)@.calls,
        has_user(final(manager)@.users, id@),
        reply matches UserReply::Registered { user_id, username: name },
        reply->Registered_user_id == id,
        reply->Registered_username@ == name_or_default(text_of(username)),
        exists|record: UserRecord|
            #![trigger with_user(old(manager)@.users, record)]
            is_new_user(record, id@, name_or_default(text_of(username)), now) && final(manager)@.users
                == with_user(old(manager)@.users, record),
{
    let name: String = match username {
        Some(name) => name.to_owned(),
        None => "Unknown".to_owned(),
    };
    let ghost record = UserRecord {
        user: User { id, username: name, ip_address: None, status: CallStatus::Idle },
        last_heartbeat: now,
    };
    manager.register_user(copy_text(&id), copy_text(&name), now);
    assert(is_new_user(record, id@, name_or_default(text_of(username)), now) && manager@.users == with_user(
        old(manager)@.users,
        record,
    ));
    UserReply::Registered { user_id: id, username: name }
}

/// Registers a user under a fresh id, with the name given or, without one,
/// as "Unknown", and answers with the id.
pub fn register_user_named(manager: &mut CallManager, username: Option<&str>, now: u64) -> (reply: UserReply)
    ensures
        final(manager)@.calls == old(manager)@.calls,
        reply matches UserReply::Registered { user_id, username: name },
        is_id_text(reply->Registered_user_id@),
        has_user(final(manager)@.users, reply->Registered_user_id@),
        reply->Registered_username@ == name_or_default(text_of(username)),
        exists|record: UserRecord|
            #![trigger with_user(old(manager)@.users, record)]
            is_new_user(record, reply->Registered_user_id@, name_or_default(text_of(username)), now)
                && final(manager)@.users == with_user(old(manager)@.users, record),
{
    let id = fresh_id();
    register_user_as(manager, id, username, now)
}

/// Lists the registered users in the order in which they registered.
pub fn list_users(manager: &CallManager) -> (reply: UserReply)
    ensures
        reply matches UserReply::Users { users },
        reply->users@.len() == manager@.users.len(),
        forall|i: int|
            0 <= i < manager@.users.len() ==> #[trigger] reply->users@[i] == manager@.users[i].user,
{
    UserReply::Users { users: manager.list_users() }
}

/// Removes the user under `user_id`; without a user id, the user with the
/// empty id.
pub fn disconnect_user_id(manager: &mut CallManager, user_id: Option<&str>) -> (reply: UserReply)
    ensures
        final(manager)@.calls == old(manager)@.calls,
        final(manager)@.users == without_user(old(manager)@.users, text_or_empty(user_id)),
        reply == (UserReply::Disconnected {
            success: has_user(old(manager)@.users, text_or_empty(user_id)),
        }),
{
    let success = manager.disconnect_user(or_empty(user_id));
    UserReply::Disconnected { success }
}

/// Notes a heartbeat of the user under `user_id` at the time `now`, then
/// removes every user that has been silent for more than
/// `HEARTBEAT_TIMEOUT_SECS`.
pub fn heartbeat_of(manager: &mut CallManager, user_id: Option<&str>, now: u64) -> (reply: UserReply)
    ensures
        final(manager)@.calls == old(manager)@.calls,
        final(manager)@.users == live_users(
            with_heartbeat(old(manager)@.users, text_or_empty(user_id), now),
            HEARTBEAT_TIMEOUT_SECS,
            now,
        ),
        reply == (UserReply::Heartbeat {
            success: has_user(old(manager)@.users, text_or_empty(user_id)),
        }),
{
    let success = manager.update_heartbeat(or_empty(user_id), now);
    let _ = manager.disconnect_inactive_users(HEARTBEAT_TIMEOUT_SECS, now);
    UserReply::Heartbeat { success }
}

/// Registers the user that the request body `body` describes: under a
/// fresh id, with the text of its member `username` as name or, without
/// one, as "Unknown".
pub fn register_user(manager: &mut CallManager, body: &serde_json::Value, now: u64) -> (reply: UserReply)
    ensures
        final(manager)@.calls == old(manager)@.calls,
        reply matches UserReply::Registered { user_id, username: name },
        is_id_text(reply->Registered_user_id@),
        has_user(final(manager)@.users, reply->Registered_user_id@),
        reply->Registered_username@ == name_or_default(member_text(*body, "username"@)),
        exists|record: UserRecord|
            #![trigger with_user(old(manager)@.users, record)]
            is_new_user(
                record,
                reply->Registered_user_id@,
                name_or_default(member_text(*body, "username"@)),
                now,
            ) && final(manager)@.users == with_user(old(manager)@.users, record),
{
    let username = text_member(body, "username");
    register_user_named(manager, borrowed(&username), now)
}

/// Removes the user that the request body `body` names in its member
/// `user_id`; without one, the user with the empty id.
pub fn disconnect_user(manager: &mut CallManager, body: &serde_json::Value) -> (reply: UserReply)
    ensures
        final(manager)@.calls == old(manager)@.calls,
        final(manager)@.users == without_user(
            old(manager)@.users,
            or_empty_text(member_text(*body, "user_id"@)),
        ),
        reply == (UserReply::Disconnected {
            success: has_user(old(manager)@.users, or_empty_text(member_text(*body, "user_id"@))),
        }),
{
    let user_id = text_member(body, "user_id");
    disconnect_user_id(manager, borrowed(&user_id))
}

/// Notes a heartbeat, at the time `now`, of the user that the request body
/// `body` names in its member `user_id`, then removes every user that has
/// been silent for more than `HEARTBEAT_TIMEOUT_SECS`.
pub fn user_heartbeat(manager: &mut CallManager, body: &serde_json::Value, now: u64) -> (reply: UserReply)
    ensures
        final(manager)@.calls == old(manager)@.calls,
        final(manager)@.users == live_users(
            with_heartbeat(
                old(manager)@.users,
                or_empty_text(member_text(*body, "user_id"@)),
                now,
            ),
            HEARTBEAT_TIMEOUT_SECS,
            now,
        ),
        reply == (UserReply::Heartbeat {
            success: has_user(old(manager)@.users, or_empty_text(member_text(*body, "user_id"@))),
        }),
{
    let user_id = text_member(body, "user_id");
    heartbeat_of(manager, borrowed(&user_id), now)
}

/// Looks the user under `user_id` up; without a user id, the user with the
/// empty id.
pub fn get_user(manager: &CallManager, user_id: Option<&str>) -> (reply: UserReply)
    ensures
        if has_user(manager@.users, text_or_empty(user_id)) {
            let user = manager@.users[user_slot(manager@.users, text_or_empty(user_id))].user;
            reply == (UserReply::Found {
                user_id: user.id,
                username: user.username,
                status: user.status,
            })
        } else {
            reply == UserReply::NotFound
        },
{
    match manager.get_user(or_empty(user_id)) {
        Some(user) => UserReply::Found {
            user_id: copy_text(&user.id),
            username: copy_text(&user.username),
            status: user.status,
        },
        None => UserReply::NotFound,
    }
}

/// A user whose heartbeat has just come is not removed: it is still
/// registered after the silent users are gone.
pub proof fn lemma_heartbeat_keeps_user(users: Seq<UserRecord>, id: Seq<char>, now: u64, timeout: u64)
    requires
        distinct_users(users),
        has_user(users, id),
    ensures
        has_user(live_users(with_heartbeat(users, id, now), timeout, now), id),
{
    let slot = user_slot(users, id);
    let beaten = with_heartbeat(users, id, now);
    assert(beaten[slot].user.id@ == id);
    lemma_live_users_keep(beaten, timeout, now, slot);
    let live = live_users(beaten, timeout, now);
    let k = choose|k: int| 0 <= k < live.len() && #[trigger] live[k] == beaten[slot];
    assert(live[k].user.id@ == id);
}

/// Users are removed only for silence: one heard of within the timeout
/// stays, one silent for longer is gone.
pub proof fn lemma_timeout(users: Seq<UserRecord>, timeout: u64, now: u64, i: int)
    requires
        distinct_users(users),
        0 <= i < users.len(),
    ensures
        has_user(live_users(users, timeout, now), users[i].user.id@) <==> now
            - users[i].last_heartbeat <= timeout,
{
    let live = live_users(users, timeout, now);
    let id = users[i].user.id@;
    if !expired(users[i].last_heartbeat, timeout, now) {
        lemma_live_users_keep(users, timeout, now, i);
        let k = choose|k: int| 0 <= k < live.len() && #[trigger] live[k] == users[i];
        assert(live[k].user.id@ == id);
    } else {
        lemma_live_users_listed(users, timeout, now);
        if has_user(live, id) {
            let k = user_slot(live, id);
            assert(listed(users, live[k]));
            let j = choose|j: int| 0 <= j < users.len() && #[trigger] users[j] == live[k];
            lemma_user_slot(users, id, i);
            lemma_user_slot(users, id, j);
        }
    }
}

} // verus!
