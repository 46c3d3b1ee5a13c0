//! In-memory registry of the signaling layer: the users that have
//! registered, each with the time of its last heartbeat, and the calls
//! between them. Nothing of it outlives the process.

use crate::text::{copy_optional_text, copy_text};
use crate::user::{CallStatus, User};
use vstd::prelude::*;

verus! {

/// Seconds without a heartbeat after which a user is disconnected.
pub const HEARTBEAT_TIMEOUT_SECS: u64 = 10;

/// A registered user and the time of its last heartbeat, in seconds.
pub struct UserRecord {
    pub user: User,
    pub last_heartbeat: u64,
}

/// How far a call has come.
#[derive(Clone, Copy, Debug, PartialEq, Eq, Structural)]
pub enum CallState {
    Ringing,
    Active,
    OnHold,
    Rejected,
    Ended,
}

/// A call between two users, with what they have exchanged to set it up.
pub struct Call {
    pub call_id: String,
    pub caller_id: String,
    pub callee_id: String,
    pub status: CallState,
    pub offer: Option<String>,
    pub answer: Option<String>,
    pub caller_candidates: Vec<String>,
    pub callee_candidates: Vec<String>,
}

/// The users and calls of the signaling layer, each kind keyed by its id.
pub struct CallManager {
    users: Vec<UserRecord>,
    calls: Vec<Call>,
}

/// Mathematical value of the registry: users in the order in which they
/// registered, calls in the order in which they were created.
pub struct RegistryView {
    pub users: Seq<UserRecord>,
    pub calls: Seq<Call>,
}

/// No two users have the same id.
pub open spec fn distinct_users(users: Seq<UserRecord>) -> bool {
    forall|i: int, j: int|
        #![trigger users[i], users[j]]
        0 <= i < j < users.len() ==> users[i].user.id@ != users[j].user.id@
}

/// No two calls have the same id.
pub open spec fn distinct_calls(calls: Seq<Call>) -> bool {
    forall|i: int, j: int|
        #![trigger calls[i], calls[j]]
        0 <= i < j < calls.len() ==> calls[i].call_id@ != calls[j].call_id@
}

/// Whether a user with this id is registered.
pub open spec fn has_user(users: Seq<UserRecord>, id: Seq<char>) -> bool {
    exists|i: int| #![trigger users[i]] 0 <= i < users.len() && users[i].user.id@ == id
}

/// Place of the user with this id, if one is registered.
pub open spec fn user_slot(users: Seq<UserRecord>, id: Seq<char>) -> int {
    choose|i: int| #![trigger users[i]] 0 <= i < users.len() && users[i].user.id@ == id
}

/// Whether a call with this id exists.
pub open spec fn has_call(calls: Seq<Call>, id: Seq<char>) -> bool {
    exists|i: int| #![trigger calls[i]] 0 <= i < calls.len() && calls[i].call_id@ == id
}

/// Place of the call with this id, if there is one.
pub open spec fn call_slot(calls: Seq<Call>, id: Seq<char>) -> int {
    choose|i: int| #![trigger calls[i]] 0 <= i < calls.len() && calls[i].call_id@ == id
}

/// The records with `record` added: in the place of the user with the same
/// id, if one is registered, and else at the end.
pub open spec fn with_user(users: Seq<UserRecord>, record: UserRecord) -> Seq<UserRecord> {
    if has_user(users, record.user.id@) {
        users.update(user_slot(users, record.user.id@), record)
    } else {
        users.push(record)
    }
}

/// The records without the user with this id.
pub open spec fn without_user(users: Seq<UserRecord>, id: Seq<char>) -> Seq<UserRecord> {
    if has_user(users, id) {
        users.remove(user_slot(users, id))
    } else {
        users
    }
}

/// The records with the user under `id`, if one is registered, last heard
/// of at `now`.
pub open spec fn with_heartbeat(users: Seq<UserRecord>, id: Seq<char>, now: u64) -> Seq<UserRecord> {
    if has_user(users, id) {
        users.update(
            user_slot(users, id),
            UserRecord { user: users[user_slot(users, id)].user, last_heartbeat: now },
        )
    } else {
        users
    }
}

/// Whether a user last heard of at `last_heartbeat` has been silent for
/// more than `timeout` seconds at the time `now`.
pub open spec fn expired(last_heartbeat: u64, timeout: u64, now: u64) -> bool {
    now - last_heartbeat > timeout
}

/// The records of the users that have not expired, in their order.
pub open spec fn live_users(users: Seq<UserRecord>, timeout: u64, now: u64) -> Seq<UserRecord>
    decreases users.len(),
{
    if users.len() == 0 {
        users
    } else {
        let rest = live_users(users.drop_last(), timeout, now);
        if expired(users.last().last_heartbeat, timeout, now) {
            rest
        } else {
            rest.push(users.last())
        }
    }
}

/// The ids of the users that have expired, in the order of their records.
pub open spec fn expired_ids(users: Seq<UserRecord>, timeout: u64, now: u64) -> Seq<Seq<char>>
    decreases users.len(),
{
    if users.len() == 0 {
        Seq::empty()
    } else {
        let rest = expired_ids(users.drop_last(), timeout, now);
        if expired(users.last().last_heartbeat, timeout, now) {
            rest.push(users.last().user.id@)
        } else {
            rest
        }
    }
}

/// Whether `record` is among `users`.
pub open spec fn listed(users: Seq<UserRecord>, record: UserRecord) -> bool {
    exists|i: int| 0 <= i < users.len() && #[trigger] users[i] == record
}

/// Every user that stays was there and has not expired, and every user is
/// either among those that stay or among the expired.
pub proof fn lemma_live_users_listed(users: Seq<UserRecord>, timeout: u64, now: u64)
    ensures
        live_users(users, timeout, now).len() + expired_ids(users, timeout, now).len()
            == users.len(),
        forall|k: int|
            0 <= k < live_users(users, timeout, now).len() ==> listed(
                users,
                #[trigger] live_users(users, timeout, now)[k],
            ) && !expired(live_users(users, timeout, now)[k].last_heartbeat, timeout, now),
    decreases users.len(),
{
    if users.len() > 0 {
        let front = users.drop_last();
        let live = live_users(users, timeout, now);
        let rest = live_users(front, timeout, now);
        lemma_live_users_listed(front, timeout, now);
        assert forall|k: int| 0 <= k < live.len() implies listed(users, #[trigger] live[k])
            && !expired(live[k].last_heartbeat, timeout, now) by {
            if k < rest.len() {
                assert(live[k] == rest[k]);
                assert(listed(front, rest[k]));
                let i = choose|i: int| 0 <= i < front.len() && #[trigger] front[i] == rest[k];
                assert(users[i] == rest[k]);
            } else {
                assert(users[users.len() - 1] == live[k]);
            }
        }
    }
}

/// Every user that has not expired stays.
pub proof fn lemma_live_users_keep(users: Seq<UserRecord>, timeout: u64, now: u64, i: int)
    requires
        0 <= i < users.len(),
        !expired(users[i].last_heartbeat, timeout, now),
    ensures
        listed(live_users(users, timeout, now), users[i]),
    decreases users.len(),
{
    let live = live_users(users, timeout, now);
    if i == users.len() - 1 {
        assert(live[live.len() - 1] == users[i]);
    } else {
        let front = users.drop_last();
        let rest = live_users(front, timeout, now);
        lemma_live_users_keep(front, timeout, now, i);
        let k = choose|k: int| 0 <= k < rest.len() && #[trigger] rest[k] == front[i];
        assert(live[k] == users[i]);
    }
}

/// The users that stay keep distinct ids.
pub proof fn lemma_live_users_distinct(users: Seq<UserRecord>, timeout: u64, now: u64)
    requires
        distinct_users(users),
    ensures
        distinct_users(live_users(users, timeout, now)),
    decreases users.len(),
{
    if users.len() > 0 {
        let front = users.drop_last();
        let live = live_users(users, timeout, now);
        let rest = live_users(front, timeout, now);
        assert(distinct_users(front)) by {
            assert forall|i: int, j: int|
                #![trigger front[i], front[j]]
                0 <= i < j < front.len() implies front[i].user.id@ != front[j].user.id@ by {
                assert(users[i].user.id@ != users[j].user.id@);
            }
        }
        lemma_live_users_distinct(front, timeout, now);
        lemma_live_users_listed(front, timeout, now);
        assert forall|a: int, b: int|
            #![trigger live[a], live[b]]
            0 <= a < b < live.len() implies live[a].user.id@ != live[b].user.id@ by {
            if b < rest.len() {
                assert(rest[a].user.id@ != rest[b].user.id@);
            } else {
                assert(live[a] == rest[a]);
                assert(listed(front, rest[a]));
                let i = choose|i: int| 0 <= i < front.len() && #[trigger] front[i] == rest[a];
                assert(users[i].user.id@ != users[users.len() - 1].user.id@);
            }
        }
    }
}

/// A copy of a user.
pub fn copy_user(user: &User) -> (copy: User)
    ensures
        copy == *user,
{
    User {
        id: copy_text(&user.id),
        username: copy_text(&user.username),
        ip_address: copy_optional_text(&user.ip_address),
        status: user.status,
    }
}

/// Place of the first user with this id.
fn find_user(users: &Vec<UserRecord>, id: &String) -> (found: Option<usize>)
    ensures
        match found {
            Some(i) => i < users@.len() && users@[i as int].user.id@ == id@,
            None => !has_user(users@, id@),
        },
{
    let n: usize = users.len();
    let mut i: usize = 0;
    while i < n
        invariant
            n == users@.len(),
            i <= n,
            forall|j: int| #![trigger users@[j]] 0 <= j < i ==> users@[j].user.id@ != id@,
        decreases n - i,
    {
        if users[i].user.id == *id {
            return Some(i);
        }
        i = i + 1;
    }
    None
}

/// Where ids are distinct, a user found at a place is the one the registry
/// speaks of under that id.
pub proof fn lemma_user_slot(users: Seq<UserRecord>, id: Seq<char>, i: int)
    requires
        distinct_users(users),
        0 <= i < users.len(),
        users[i].user.id@ == id,
    ensures
        has_user(users, id),
        user_slot(users, id) == i,
{
    let s = user_slot(users, id);
    assert(0 <= s < users.len() && users[s].user.id@ == id);
    if s < i {
        assert(users[s].user.id@ != users[i].user.id@);
    } else if i < s {
        assert(users[i].user.id@ != users[s].user.id@);
    }
}

/// The calls with `call` added: in the place of the call with the same id,
/// if there is one, and else at the end.
pub open spec fn with_call(calls: Seq<Call>, call: Call) -> Seq<Call> {
    if has_call(calls, call.call_id@) {
        calls.update(call_slot(calls, call.call_id@), call)
    } else {
        calls.push(call)
    }
}

/// Whether `call` is a call as it is created: it rings, and nothing has been
/// exchanged yet.
pub open spec fn is_new_call(call: Call, call_id: String, caller_id: String, callee_id: String) -> bool {
    &&& call.call_id == call_id
    &&& call.caller_id == caller_id
    &&& call.callee_id == callee_id
    &&& call.status == CallState::Ringing
    &&& call.offer is None
    &&& call.answer is None
    &&& call.caller_candidates@.len() == 0
    &&& call.callee_candidates@.len() == 0
}

/// The call `call` in the state `status`.
pub open spec fn in_state(call: Call, status: CallState) -> Call {
    Call {
        call_id: call.call_id,
        caller_id: call.caller_id,
        callee_id: call.callee_id,
        status,
        offer: call.offer,
        answer: call.answer,
        caller_candidates: call.caller_candidates,
        callee_candidates: call.callee_candidates,
    }
}

/// The call `call` with the caller's offer `offer`.
pub open spec fn with_offer(call: Call, offer: String) -> Call {
    Call {
        call_id: call.call_id,
        caller_id: call.caller_id,
        callee_id: call.callee_id,
        status: call.status,
        offer: Some(offer),
        answer: call.answer,
        caller_candidates: call.caller_candidates,
        callee_candidates: call.callee_candidates,
    }
}

/// The call `call` with the callee's answer `answer`.
pub open spec fn with_answer(call: Call, answer: String) -> Call {
    Call {
        call_id: call.call_id,
        caller_id: call.caller_id,
        callee_id: call.callee_id,
        status: call.status,
        offer: call.offer,
        answer: Some(answer),
        caller_candidates: call.caller_candidates,
        callee_candidates: call.callee_candidates,
    }
}

/// Whether `after` is `before` with one more candidate, at the end of the
/// caller's candidates if `from_caller` holds and of the callee's if not.
pub open spec fn candidate_added(before: Call, after: Call, candidate: String, from_caller: bool) -> bool {
    &&& after.call_id == before.call_id
    &&& after.caller_id == before.caller_id
    &&& after.callee_id == before.callee_id
    &&& after.status == before.status
    &&& after.offer == before.offer
    &&& after.answer == before.answer
    &&& if from_caller {
        &&& after.caller_candidates@ == before.caller_candidates@.push(candidate)
        &&& after.callee_candidates == before.callee_candidates
    } else {
        &&& after.caller_candidates == before.caller_candidates
        &&& after.callee_candidates@ == before.callee_candidates@.push(candidate)
    }
}

/// The calls with the call under `id`, if there is one, in the state
/// `status`.
pub open spec fn calls_in_state(calls: Seq<Call>, id: Seq<char>, status: CallState) -> Seq<Call> {
    if has_call(calls, id) {
        calls.update(call_slot(calls, id), in_state(calls[call_slot(calls, id)], status))
    } else {
        calls
    }
}

/// The calls with the offer `offer` stored in the call under `id`, if there
/// is one.
pub open spec fn calls_with_offer(calls: Seq<Call>, id: Seq<char>, offer: String) -> Seq<Call> {
    if has_call(calls, id) {
        calls.update(call_slot(calls, id), with_offer(calls[call_slot(calls, id)], offer))
    } else {
        calls
    }
}

/// The calls with the answer `answer` stored in the call under `id`, if
/// there is one.
pub open spec fn calls_with_answer(calls: Seq<Call>, id: Seq<char>, answer: String) -> Seq<Call> {
    if has_call(calls, id) {
        calls.update(call_slot(calls, id), with_answer(calls[call_slot(calls, id)], answer))
    } else {
        calls
    }
}

/// Whether `call` rings for the user `user_id`.
pub open spec fn rings_for(call: Call, user_id: Seq<char>) -> bool {
    call.callee_id@ == user_id && call.status == CallState::Ringing
}

/// Place of the first call with this id.
fn find_call(calls: &Vec<Call>, id: &String) -> (found: Option<usize>)
    ensures
        match found {
            Some(i) => i < calls@.len() && calls@[i as int].call_id@ == id@,
            None => !has_call(calls@, id@),
        },
{
    let n: usize = calls.len();
    let mut i: usize = 0;
    while i < n
        invariant
            n == calls@.len(),
            i <= n,
            forall|j: int| #![trigger calls@[j]] 0 <= j < i ==> calls@[j].call_id@ != id@,
        decreases n - i,
    {
        if calls[i].call_id == *id {
            return Some(i);
        }
        i = i + 1;
    }
    None
}

/// Where ids are distinct, a call found at a place is the one the registry
/// speaks of under that id.
pub proof fn lemma_call_slot(calls: Seq<Call>, id: Seq<char>, i: int)
    requires
        distinct_calls(calls),
        0 <= i < calls.len(),
        calls[i].call_id@ == id,
    ensures
        has_call(calls, id),
        call_slot(calls, id) == i,
{
    let s = call_slot(calls, id);
    assert(0 <= s < calls.len() && calls[s].call_id@ == id);
    if s < i {
        assert(calls[s].call_id@ != calls[i].call_id@);
    } else if i < s {
        assert(calls[i].call_id@ != calls[s].call_id@);
    }
}

/// Replacing a call by one of the same id keeps ids distinct.
proof fn lemma_update_keeps_distinct(calls: Seq<Call>, i: int, call: Call)
    requires
        distinct_calls(calls),
        0 <= i < calls.len(),
        call.call_id@ == calls[i].call_id@,
    ensures
        distinct_calls(calls.update(i, call)),
{
    let next = calls.update(i, call);
    assert forall|a: int, b: int|
        #![trigger next[a], next[b]]
        0 <= a < b < next.len() implies next[a].call_id@ != next[b].call_id@ by {
        assert(next[a].call_id@ == calls[a].call_id@);
        assert(next[b].call_id@ == calls[b].call_id@);
    }
}

impl View for CallManager {
    type V = RegistryView;

    closed spec fn view(&self) -> RegistryView {
        RegistryView { users: self.users@, calls: self.calls@ }
    }
}

impl CallManager {
    #[verifier::type_invariant]
    spec fn distinct_ids(self) -> bool {
        distinct_users(self.users@) && distinct_calls(self.calls@)
    }

    /// A registry without users and calls.
    pub fn new() -> (manager: CallManager)
        ensures
            manager@.users.len() == 0,
            manager@.calls.len() == 0,
    {
        CallManager { users: Vec::new(), calls: Vec::new() }
    }

    /// Number of registered users.
    pub fn user_count(&self) -> (n: usize)
        ensures
            n == self@.users.len(),
            distinct_users(self@.users),
    {
        proof {
            use_type_invariant(self);
        }
        self.users.len()
    }

    /// Registers a user under `id`, idle and heard of at `now`. A user that
    /// was registered under the same id is replaced.
    pub fn register_user(&mut self, id: String, username: String, now: u64)
        ensures
            final(self)@.users == with_user(
                old(self)@.users,
                UserRecord { user: User { id, username, ip_address: None, status: CallStatus::Idle }, last_heartbeat: now },
            ),
            final(self)@.calls == old(self)@.calls,
            has_user(final(self)@.users, id@),
            distinct_users(final(self)@.users),
    {
        proof {
            use_type_invariant(&*self);
        }
        let place = find_user(&self.users, &id);
        let record = UserRecord { user: User::new(id, username), last_heartbeat: now };
        let mut users: Vec<UserRecord> = Vec::new();
        core::mem::swap(&mut self.users, &mut users);
        match place {
            Some(i) => {
                proof {
                    lemma_user_slot(users@, record.user.id@, i as int);
                }
                users.set(i, record);
                assert(users@[i as int].user.id@ == record.user.id@);
            },
            None => {
                users.push(record);
                assert(users@[users@.len() - 1].user.id@ == record.user.id@);
            },
        }
        core::mem::swap(&mut self.users, &mut users);
    }

    /// The user registered under `id`, if there is one.
    pub fn get_user(&self, id: &str) -> (found: Option<&User>)
        ensures
            match found {
                Some(user) => has_user(self@.users, id@) && *user == self@.users[user_slot(
                    self@.users,
                    id@,
                )].user,
                None => !has_user(self@.users, id@),
            },
    {
        proof {
            use_type_invariant(self);
        }
        let key = id.to_owned();
        match find_user(&self.users, &key) {
            Some(i) => {
                proof {
                    lemma_user_slot(self.users@, id@, i as int);
                }
                Some(&self.users[i].user)
            },
            None => None,
        }
    }

    /// The registered users, in the order in which they registered.
    pub fn list_users(&self) -> (list: Vec<User>)
        ensures
            list@.len() == self@.users.len(),
            forall|i: int| 0 <= i < list@.len() ==> #[trigger] list@[i] == self@.users[i].user,
    {
        let n: usize = self.users.len();
        let mut list: Vec<User> = Vec::new();
        let mut i: usize = 0;
        while i < n
            invariant
                n == self.users@.len(),
                i <= n,
                list@.len() == i,
                forall|k: int| 0 <= k < i ==> #[trigger] list@[k] == self.users@[k].user,
            decreases n - i,
        {
            list.push(copy_user(&self.users[i].user));
            i = i + 1;
        }
        list
    }

    /// Removes the user registered under `id`; says whether there was one.
    pub fn disconnect_user(&mut self, id: &str) -> (removed: bool)
        ensures
            removed == has_user(old(self)@.users, id@),
            final(self)@.users == without_user(old(self)@.users, id@),
            final(self)@.calls == old(self)@.calls,
            !has_user(final(self)@.users, id@),
    {
        proof {
            use_type_invariant(&*self);
        }
        let key = id.to_owned();
        match find_user(&self.users, &key) {
            Some(i) => {
                proof {
                    lemma_user_slot(self.users@, id@, i as int);
                }
                let mut users: Vec<UserRecord> = Vec::new();
                core::mem::swap(&mut self.users, &mut users);
                let ghost before = users@;
                users.remove(i);
                proof {
                    assert forall|a: int, b: int|
                        #![trigger users@[a], users@[b]]
                        0 <= a < b < users@.len() implies users@[a].user.id@
                        != users@[b].user.id@ by {
                        let a0 = if a < i { a } else { a + 1 };
                        let b0 = if b < i { b } else { b + 1 };
                        assert(users@[a] == before[a0]);
                        assert(users@[b] == before[b0]);
                    }
                    assert forall|a: int|
                        #![trigger users@[a]]
                        0 <= a < users@.len() implies users@[a].user.id@ != id@ by {
                        let a0 = if a < i { a } else { a + 1 };
                        assert(users@[a] == before[a0]);
                        if a0 < i {
                            assert(before[a0].user.id@ != before[i as int].user.id@);
                        } else {
                            assert(before[i as int].user.id@ != before[a0].user.id@);
                        }
                    }
                }
                core::mem::swap(&mut self.users, &mut users);
                true
            },
            None => false,
        }
    }

    /// Notes a heartbeat of the user registered under `id` at the time
    /// `now`; says whether there is such a user.
    pub fn update_heartbeat(&mut self, id: &str, now: u64) -> (known: bool)
        ensures
            known == has_user(old(self)@.users, id@),
            final(self)@.calls == old(self)@.calls,
            final(self)@.users == with_heartbeat(old(self)@.users, id@, now),
            has_user(final(self)@.users, id@) == known,
    {
        proof {
            use_type_invariant(&*self);
        }
        let key = id.to_owned();
        match find_user(&self.users, &key) {
            Some(i) => {
                proof {
                    lemma_user_slot(self.users@, id@, i as int);
                }
                let mut users: Vec<UserRecord> = Vec::new();
                core::mem::swap(&mut self.users, &mut users);
                let ghost before = users@;
                let record = users.remove(i);
                users.insert(i, UserRecord { user: record.user, last_heartbeat: now });
                proof {
                    assert(users@ =~= before.update(
                        i as int,
                        UserRecord { user: before[i as int].user, last_heartbeat: now },
                    ));
                    assert(users@[i as int].user.id@ == id@);
                    assert forall|a: int, b: int|
                        #![trigger users@[a], users@[b]]
                        0 <= a < b < users@.len() implies users@[a].user.id@
                        != users@[b].user.id@ by {
                        assert(users@[a].user.id@ == before[a].user.id@);
                        assert(users@[b].user.id@ == before[b].user.id@);
                    }
                }
                core::mem::swap(&mut self.users, &mut users);
                true
            },
            None => false,
        }
    }

    /// Removes every user whose last heartbeat is more than `timeout`
    /// seconds before `now`, and returns their ids.
    pub fn disconnect_inactive_users(&mut self, timeout: u64, now: u64) -> (gone: Vec<String>)
        ensures
            final(self)@.users == live_users(old(self)@.users, timeout, now),
            final(self)@.calls == old(self)@.calls,
            gone@.len() == expired_ids(old(self)@.users, timeout, now).len(),
            forall|k: int|
                0 <= k < gone@.len() ==> (#[trigger] gone@[k])@ == expired_ids(
                    old(self)@.users,
                    timeout,
                    now,
                )[k],
    {
        proof {
            use_type_invariant(&*self);
        }
        let mut users: Vec<UserRecord> = Vec::new();
        core::mem::swap(&mut self.users, &mut users);
        let ghost before = users@;
        let mut kept: Vec<UserRecord> = Vec::new();
        let mut gone: Vec<String> = Vec::new();
        for record in iter: users
            invariant
                iter.seq() == before,
                kept@ == live_users(before.take(iter.index() as int), timeout, now),
                gone@.len() == expired_ids(before.take(iter.index() as int), timeout, now).len(),
                forall|k: int|
                    0 <= k < gone@.len() ==> (#[trigger] gone@[k])@ == expired_ids(
                        before.take(iter.index() as int),
                        timeout,
                        now,
                    )[k],
        {
            proof {
                let next = before.take(iter.index() + 1);
                assert(next.drop_last() =~= before.take(iter.index() as int));
                assert(next.last() == record);
            }
            if now > record.last_heartbeat && now - record.last_heartbeat > timeout {
                gone.push(copy_text(&record.user.id));
            } else {
                kept.push(record);
            }
        }
        proof {
            assert(before.take(before.len() as int) =~= before);
            lemma_live_users_distinct(before, timeout, now);
        }
        core::mem::swap(&mut self.users, &mut kept);
        gone
    }
    /// Number of calls.
    pub fn call_count(&self) -> (n: usize)
        ensures
            n == self@.calls.len(),
            distinct_calls(self@.calls),
    {
        proof {
            use_type_invariant(self);
        }
        self.calls.len()
    }

    /// Creates a call under `call_id` that rings at `callee_id`. A call that
    /// existed under the same id is replaced.
    pub fn create_call(&mut self, call_id: String, caller_id: String, callee_id: String)
        ensures
            final(self)@.users == old(self)@.users,
            has_call(final(self)@.calls, call_id@),
            exists|call: Call|
                #![trigger with_call(old(self)@.calls, call)]
                is_new_call(call, call_id, caller_id, callee_id) && final(self)@.calls
                    == with_call(old(self)@.calls, call),
    {
        proof {
            use_type_invariant(&*self);
        }
        let place = find_call(&self.calls, &call_id);
        let call = Call {
            call_id,
            caller_id,
            callee_id,
            status: CallState::Ringing,
            offer: None,
            answer: None,
            caller_candidates: Vec::new(),
            callee_candidates: Vec::new(),
        };
        let ghost created = call;
        let mut calls: Vec<Call> = Vec::new();
        core::mem::swap(&mut self.calls, &mut calls);
        let ghost before = calls@;
        match place {
            Some(i) => {
                proof {
                    lemma_call_slot(before, call.call_id@, i as int);
                    lemma_update_keeps_distinct(before, i as int, call);
                }
                calls.set(i, call);
                assert(calls@[i as int].call_id@ == created.call_id@);
            },
            None => {
                calls.push(call);
                assert(calls@[calls@.len() - 1].call_id@ == created.call_id@);
            },
        }
        assert(calls@ == with_call(before, created));
        core::mem::swap(&mut self.calls, &mut calls);
        assert(is_new_call(created, call_id, caller_id, callee_id) && self@.calls == with_call(
            old(self)@.calls,
            created,
        ));
    }

    /// The call with the id `id`, if there is one.
    pub fn get_call(&self, id: &str) -> (found: Option<&Call>)
        ensures
            match found {
                Some(call) => has_call(self@.calls, id@) && *call == self@.calls[call_slot(
                    self@.calls,
                    id@,
                )] && call.call_id@ == id@,
                None => !has_call(self@.calls, id@),
            },
    {
        proof {
            use_type_invariant(self);
        }
        let key = id.to_owned();
        match find_call(&self.calls, &key) {
            Some(i) => {
                proof {
                    lemma_call_slot(self.calls@, id@, i as int);
                }
                Some(&self.calls[i])
            },
            None => None,
        }
    }

    /// Puts the call with the id `id` into the state `status`; says whether
    /// there is such a call.
    pub fn set_call_state(&mut self, id: &str, status: CallState) -> (known: bool)
        ensures
            known == has_call(old(self)@.calls, id@),
            final(self)@.users == old(self)@.users,
            final(self)@.calls == calls_in_state(old(self)@.calls, id@, status),
            has_call(final(self)@.calls, id@) == known,
    {
        proof {
            use_type_invariant(&*self);
        }
        let key = id.to_owned();
        match find_call(&self.calls, &key) {
            Some(i) => {
                let mut calls: Vec<Call> = Vec::new();
                core::mem::swap(&mut self.calls, &mut calls);
                let ghost before = calls@;
                let mut call = calls.remove(i);
                call.status = status;
                proof {
                    lemma_call_slot(before, id@, i as int);
                    lemma_update_keeps_distinct(before, i as int, call);
                }
                calls.insert(i, call);
                assert(calls@ =~= before.update(i as int, in_state(before[i as int], status)));
                assert(calls@[i as int].call_id@ == id@);
                core::mem::swap(&mut self.calls, &mut calls);
                true
            },
            None => false,
        }
    }

    /// Marks the call as accepted: it is active.
    pub fn accept_call(&mut self, id: &str) -> (known: bool)
        ensures
            known == has_call(old(self)@.calls, id@),
            final(self)@.users == old(self)@.users,
            final(self)@.calls == calls_in_state(old(self)@.calls, id@, CallState::Active),
            has_call(final(self)@.calls, id@) == known,
    {
        self.set_call_state(id, CallState::Active)
    }

    /// Marks the call as rejected.
    pub fn reject_call(&mut self, id: &str) -> (known: bool)
        ensures
            known == has_call(old(self)@.calls, id@),
            final(self)@.users == old(self)@.users,
            final(self)@.calls == calls_in_state(old(self)@.calls, id@, CallState::Rejected),
            has_call(final(self)@.calls, id@) == known,
    {
        self.set_call_state(id, CallState::Rejected)
    }

    /// Marks the call as ended.
    pub fn end_call(&mut self, id: &str) -> (known: bool)
        ensures
            known == has_call(old(self)@.calls, id@),
            final(self)@.users == old(self)@.users,
            final(self)@.calls == calls_in_state(old(self)@.calls, id@, CallState::Ended),
            has_call(final(self)@.calls, id@) == known,
    {
        self.set_call_state(id, CallState::Ended)
    }

    /// Marks the call as on hold.
    pub fn hold_call(&mut self, id: &str) -> (known: bool)
        ensures
            known == has_call(old(self)@.calls, id@),
            final(self)@.users == old(self)@.users,
            final(self)@.calls == calls_in_state(old(self)@.calls, id@, CallState::OnHold),
            has_call(final(self)@.calls, id@) == known,
    {
        self.set_call_state(id, CallState::OnHold)
    }

    /// The oldest call that rings for the user `user_id`, if one does.
    pub fn first_incoming_call(&self, user_id: &str) -> (found: Option<&Call>)
        ensures
            match found {
                Some(call) => exists|i: int|
                    #![trigger self@.calls[i]]
                    0 <= i < self@.calls.len() && *call == self@.calls[i] && rings_for(
                        self@.calls[i],
                        user_id@,
                    ) && forall|j: int|
                        #![trigger self@.calls[j]]
                        0 <= j < i ==> !rings_for(self@.calls[j], user_id@),
                None => forall|j: int|
                    #![trigger self@.calls[j]]
                    0 <= j < self@.calls.len() ==> !rings_for(self@.calls[j], user_id@),
            },
    {
        let key = user_id.to_owned();
        let n: usize = self.calls.len();
        let mut i: usize = 0;
        while i < n
            invariant
                n == self.calls@.len(),
                i <= n,
                key@ == user_id@,
                forall|j: int|
                    #![trigger self.calls@[j]]
                    0 <= j < i ==> !rings_for(self.calls@[j], user_id@),
            decreases n - i,
        {
            if self.calls[i].callee_id == key && self.calls[i].status == CallState::Ringing {
                assert(rings_for(self@.calls[i as int], user_id@));
                assert(forall|j: int|
                    #![trigger self@.calls[j]]
                    0 <= j < i ==> !rings_for(self@.calls[j], user_id@));
                return Some(&self.calls[i]);
            }
            i = i + 1;
        }
        None
    }

    /// Stores the caller's offer with the call; says whether there is such a
    /// call.
    pub fn set_offer(&mut self, id: &str, offer: String) -> (known: bool)
        ensures
            known == has_call(old(self)@.calls, id@),
            final(self)@.users == old(self)@.users,
            final(self)@.calls == calls_with_offer(old(self)@.calls, id@, offer),
            has_call(final(self)@.calls, id@) == known,
    {
        proof {
            use_type_invariant(&*self);
        }
        let key = id.to_owned();
        match find_call(&self.calls, &key) {
            Some(i) => {
                let mut calls: Vec<Call> = Vec::new();
                core::mem::swap(&mut self.calls, &mut calls);
                let ghost before = calls@;
                let mut call = calls.remove(i);
                call.offer = Some(offer);
                proof {
                    lemma_call_slot(before, id@, i as int);
                    lemma_update_keeps_distinct(before, i as int, call);
                }
                calls.insert(i, call);
                assert(calls@ =~= before.update(i as int, with_offer(before[i as int], offer)));
                assert(calls@[i as int].call_id@ == id@);
                core::mem::swap(&mut self.calls, &mut calls);
                true
            },
            None => false,
        }
    }

    /// Stores the callee's answer with the call; says whether there is such
    /// a call.
    pub fn set_answer(&mut self, id: &str, answer: String) -> (known: bool)
        ensures
            known == has_call(old(self)@.calls, id@),
            final(self)@.users == old(self)@.users,
            final(self)@.calls == calls_with_answer(old(self)@.calls, id@, answer),
            has_call(final(self)@.calls, id@) == known,
    {
        proof {
            use_type_invariant(&*self);
        }
        let key = id.to_owned();
        match find_call(&self.calls, &key) {
            Some(i) => {
                let mut calls: Vec<Call> = Vec::new();
                core::mem::swap(&mut self.calls, &mut calls);
                let ghost before = calls@;
                let mut call = calls.remove(i);
                call.answer = Some(answer);
                proof {
                    lemma_call_slot(before, id@, i as int);
                    lemma_update_keeps_distinct(before, i as int, call);
                }
                calls.insert(i, call);
                assert(calls@ =~= before.update(i as int, with_answer(before[i as int], answer)));
                assert(calls@[i as int].call_id@ == id@);
                core::mem::swap(&mut self.calls, &mut calls);
                true
            },
            None => false,
        }
    }

    /// Adds a connection candidate to the call, on the caller's side if
    /// `from_caller` holds and on the callee's if not; says whether there is
    /// such a call.
    pub fn add_candidate(&mut self, id: &str, candidate: String, from_caller: bool) -> (known: bool)
        ensures
            known == has_call(old(self)@.calls, id@),
            final(self)@.users == old(self)@.users,
            final(self)@.calls.len() == old(self)@.calls.len(),
            has_call(final(self)@.calls, id@) == known,
            forall|j: int|
                0 <= j < old(self)@.calls.len() && !(known && j == call_slot(old(self)@.calls, id@))
                    ==> #[trigger] final(self)@.calls[j] == old(self)@.calls[j],
            known ==> candidate_added(
                old(self)@.calls[call_slot(old(self)@.calls, id@)],
                final(self)@.calls[call_slot(old(self)@.calls, id@)],
                candidate,
                from_caller,
            ),
    {
        proof {
            use_type_invariant(&*self);
        }
        let key = id.to_owned();
        match find_call(&self.calls, &key) {
            Some(i) => {
                let mut calls: Vec<Call> = Vec::new();
                core::mem::swap(&mut self.calls, &mut calls);
                let ghost before = calls@;
                let mut call = calls.remove(i);
                if from_caller {
                    call.caller_candidates.push(candidate);
                } else {
                    call.callee_candidates.push(candidate);
                }
                proof {
                    lemma_call_slot(before, id@, i as int);
                    lemma_update_keeps_distinct(before, i as int, call);
                }
                calls.insert(i, call);
                assert(calls@ =~= before.update(i as int, call));
                assert(calls@[i as int].call_id@ == id@);
                core::mem::swap(&mut self.calls, &mut calls);
                true
            },
            None => false,
        }
    }
}

} // verus!
