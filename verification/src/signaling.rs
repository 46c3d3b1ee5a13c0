//! Signaling bridge: what each request of the signaling layer does to the
//! registry of calls, what it is answered with, and which command, if any,
//! goes to the call control task. Only accepting and ending a call reach
//! the transport.

use crate::addr::IpAddress;
use crate::control::UdpCommand;
use crate::ids::{fresh_id, is_id_text};
use crate::registry::{
    call_slot, calls_in_state, calls_with_answer, calls_with_offer, candidate_added, has_call,
    is_new_call, rings_for, with_call, Call, CallManager, CallState,
};
use crate::text::{copy_optional_text, copy_text, copy_texts, or_empty, text_or_empty};
use vstd::prelude::*;

verus! {

/// A request of a client to the signaling layer.
#[derive(Debug)]
pub struct SignalingMessage {
    pub message_type: String,
    pub user_id: String,
    pub call_id: Option<String>,
    pub target_user_id: Option<String>,
    pub offer: Option<String>,
    pub answer: Option<String>,
    pub candidate: Option<String>,
    pub ip_address: Option<String>,
}

/// A field that a request needs and does not have.
#[derive(Clone, Copy, Debug, PartialEq, Eq, Structural)]
pub enum Missing {
    TargetUserId,
    CallId,
    Offer,
    Answer,
    Candidate,
}

/// What a reply says of a call.
#[derive(Debug)]
pub struct CallSummary {
    pub call_id: String,
    pub caller_id: String,
    pub callee_id: String,
    pub status: CallState,
}

/// What a request is answered with.
#[derive(Debug)]
pub enum Reply {
    /// A call was created under `call_id`.
    Initiated { call_id: String },
    /// The call was accepted; `call` describes it if it exists.
    Accepted { call: Option<CallSummary> },
    Rejected,
    Ended,
    Held,
    Resumed,
    /// The oldest call that rings for the user, if one does.
    Incoming { call: Option<CallSummary> },
    /// The call asked for.
    Status { summary: CallSummary },
    OfferStored,
    AnswerStored,
    CandidateStored,
    /// The offer of the call, if the caller has sent it.
    Offer { offer: Option<String> },
    /// The answer of the call, if the callee has sent it.
    Answer { answer: Option<String> },
    /// The candidates that the other side of the call has sent.
    Candidates { candidates: Vec<String> },
    /// The request lacks a field.
    Required(Missing),
    /// There is no call under the id given.
    CallNotFound,
}

/// A reply, and the command for the call control task if there is one.
pub struct Outcome {
    pub reply: Reply,
    pub command: Option<UdpCommand>,
}

/// HTTP status of a reply: 400 where the request lacks a field, 404 where
/// the call does not exist, else 200.
pub open spec fn status_of(reply: Reply) -> u16 {
    match reply {
        Reply::Required(_) => 400,
        Reply::CallNotFound => 404,
        _ => 200,
    }
}

/// Whether `summary` says of `call` what it is.
pub open spec fn summarizes(summary: CallSummary, call: Call) -> bool {
    &&& summary.call_id == call.call_id
    &&& summary.caller_id == call.caller_id
    &&& summary.callee_id == call.callee_id
    &&& summary.status == call.status
}

/// Whether `found` describes the call under `id`, and is absent where there
/// is none.
pub open spec fn describes_call(found: Option<CallSummary>, calls: Seq<Call>, id: Seq<char>) -> bool {
    if has_call(calls, id) {
        found matches Some(summary) && summarizes(summary, calls[call_slot(calls, id)])
    } else {
        found is None
    }
}

/// Whether `command` is the command `name` of the user `user_id` towards
/// `peer_ip`, and is absent where no peer address is known.
pub open spec fn carries(
    command: Option<UdpCommand>,
    user_id: Seq<char>,
    name: Seq<char>,
    peer_ip: Option<IpAddress>,
) -> bool {
    match peer_ip {
        Some(ip) => command matches Some(c) && c.user_id@ == user_id && c.command@ == name
            && c.target_ip == Some(ip),
        None => command is None,
    }
}

/// Describes a call.
fn summarize(call: &Call) -> (summary: CallSummary)
    ensures
        summarizes(summary, *call),
{
    CallSummary {
        call_id: copy_text(&call.call_id),
        caller_id: copy_text(&call.caller_id),
        callee_id: copy_text(&call.callee_id),
        status: call.status,
    }
}

/// Describes the call under `id`, if there is one.
fn summary_of(manager: &CallManager, id: &str) -> (found: Option<CallSummary>)
    ensures
        describes_call(found, manager@.calls, id@),
{
    match manager.get_call(id) {
        Some(call) => Some(summarize(call)),
        None => None,
    }
}

/// The command `name` of the user `user_id` towards `peer_ip`, if an
/// address is known.
fn command_for(user_id: &String, name: &str, peer_ip: Option<IpAddress>) -> (command: Option<
    UdpCommand,
>)
    ensures
        carries(command, user_id@, name@, peer_ip),
{
    match peer_ip {
        Some(ip) => Some(
            UdpCommand { user_id: copy_text(user_id), command: name.to_owned(), target_ip: Some(ip) },
        ),
        None => None,
    }
}

impl Reply {
    /// HTTP status of the reply.
    pub fn status_code(&self) -> (code: u16)
        ensures
            code == status_of(*self),
            code == 200 || code == 400 || code == 404,
    {
        match self {
            Reply::Required(_) => 400,
            Reply::CallNotFound => 404,
            _ => 200,
        }
    }
}

/// Creates a call from the sender of `msg` to the user it names, under the
/// id `call_id`. A request that names no user changes nothing.
pub fn initiate_call_as(manager: &mut CallManager, msg: &SignalingMessage, call_id: String) -> (reply:
    Reply)
    ensures
        final(manager)@.users == old(manager)@.users,
        match msg.target_user_id {
            None => final(manager)@ == old(manager)@ && reply == Reply::Required(
                Missing::TargetUserId,
            ),
            Some(target) => {
                &&& reply == (Reply::Initiated { call_id })
                &&& has_call(final(manager)@.calls, call_id@)
                &&& exists|call: Call|
                    #![trigger with_call(old(manager)@.calls, call)]
                    is_new_call(call, call_id, msg.user_id, target) && final(manager)@.calls
                        == with_call(old(manager)@.calls, call)
            },
        },
{
    match &msg.target_user_id {
        Some(target) => {
            manager.create_call(copy_text(&call_id), copy_text(&msg.user_id), copy_text(target));
            Reply::Initiated { call_id }
        },
        None => Reply::Required(Missing::TargetUserId),
    }
}

/// Creates a call from the sender of `msg` to the user it names, under a
/// fresh id, and answers with that id.
pub fn initiate_call(manager: &mut CallManager, msg: &SignalingMessage) -> (reply: Reply)
    ensures
        final(manager)@.users == old(manager)@.users,
        match msg.target_user_id {
            None => final(manager)@ == old(manager)@ && reply == Reply::Required(
                Missing::TargetUserId,
            ),
            Some(target) => {
                &&& reply matches Reply::Initiated { call_id }
                &&& is_id_text(call_id@)
                &&& has_call(final(manager)@.calls, call_id@)
                &&& exists|call: Call|
                    #![trigger with_call(old(manager)@.calls, call)]
                    is_new_call(call, call_id, msg.user_id, target) && final(manager)@.calls
                        == with_call(old(manager)@.calls, call)
            },
        },
{
    if msg.target_user_id.is_none() {
        return Reply::Required(Missing::TargetUserId);
    }
    let call_id = fresh_id();
    initiate_call_as(manager, msg, call_id)
}

/// Accepts the call that `msg` names and, where the peer's address
/// `peer_ip` is known, tells the call control task to start the call
/// towards it.
pub fn accept_call(manager: &mut CallManager, msg: &SignalingMessage, peer_ip: Option<IpAddress>) -> (outcome:
    Outcome)
    ensures
        final(manager)@.users == old(manager)@.users,
        match msg.call_id {
            None => {
                &&& final(manager)@ == old(manager)@
                &&& outcome.reply == Reply::Required(Missing::CallId)
                &&& outcome.command is None
            },
            Some(id) => {
                &&& final(manager)@.calls == calls_in_state(
                    old(manager)@.calls,
                    id@,
                    CallState::Active,
                )
                &&& carries(outcome.command, msg.user_id@, "start_call"@, peer_ip)
                &&& outcome.reply matches Reply::Accepted { call }
                &&& describes_call(call, final(manager)@.calls, id@)
            },
        },
{
    match &msg.call_id {
        Some(id) => {
            manager.accept_call(id.as_str());
            let command = command_for(&msg.user_id, "start_call", peer_ip);
            let call = summary_of(manager, id.as_str());
            Outcome { reply: Reply::Accepted { call }, command }
        },
        None => Outcome { reply: Reply::Required(Missing::CallId), command: None },
    }
}

/// Rejects the call that `msg` names.
pub fn reject_call(manager: &mut CallManager, msg: &SignalingMessage) -> (reply: Reply)
    ensures
        final(manager)@.users == old(manager)@.users,
        match msg.call_id {
            None => final(manager)@ == old(manager)@ && reply == Reply::Required(Missing::CallId),
            Some(id) => final(manager)@.calls == calls_in_state(
                old(manager)@.calls,
                id@,
                CallState::Rejected,
            ) && reply == Reply::Rejected,
        },
{
    match &msg.call_id {
        Some(id) => {
            manager.reject_call(id.as_str());
            Reply::Rejected
        },
        None => Reply::Required(Missing::CallId),
    }
}

/// Ends the call that `msg` names and, where the peer's address `peer_ip`
/// is known, tells the call control task to end the call.
pub fn end_call(manager: &mut CallManager, msg: &SignalingMessage, peer_ip: Option<IpAddress>) -> (outcome:
    Outcome)
    ensures
        final(manager)@.users == old(manager)@.users,
        match msg.call_id {
            None => {
                &&& final(manager)@ == old(manager)@
                &&& outcome.reply == Reply::Required(Missing::CallId)
                &&& outcome.command is None
            },
            Some(id) => {
                &&& final(manager)@.calls == calls_in_state(
                    old(manager)@.calls,
                    id@,
                    CallState::Ended,
                )
                &&& carries(outcome.command, msg.user_id@, "end_call"@, peer_ip)
                &&& outcome.reply == Reply::Ended
            },
        },
{
    match &msg.call_id {
        Some(id) => {
            manager.end_call(id.as_str());
            let command = command_for(&msg.user_id, "end_call", peer_ip);
            Outcome { reply: Reply::Ended, command }
        },
        None => Outcome { reply: Reply::Required(Missing::CallId), command: None },
    }
}

/// Puts the call that `msg` names on hold.
pub fn hold_call(manager: &mut CallManager, msg: &SignalingMessage) -> (reply: Reply)
    ensures
        final(manager)@.users == old(manager)@.users,
        match msg.call_id {
            None => final(manager)@ == old(manager)@ && reply == Reply::Required(Missing::CallId),
            Some(id) => final(manager)@.calls == calls_in_state(
                old(manager)@.calls,
                id@,
                CallState::OnHold,
            ) && reply == Reply::Held,
        },
{
    match &msg.call_id {
        Some(id) => {
            manager.hold_call(id.as_str());
            Reply::Held
        },
        None => Reply::Required(Missing::CallId),
    }
}

/// Takes the call that `msg` names off hold: it is active again.
pub fn resume_call(manager: &mut CallManager, msg: &SignalingMessage) -> (reply: Reply)
    ensures
        final(manager)@.users == old(manager)@.users,
        match msg.call_id {
            None => final(manager)@ == old(manager)@ && reply == Reply::Required(Missing::CallId),
            Some(id) => final(manager)@.calls == calls_in_state(
                old(manager)@.calls,
                id@,
                CallState::Active,
            ) && reply == Reply::Resumed,
        },
{
    match &msg.call_id {
        Some(id) => {
            manager.accept_call(id.as_str());
            Reply::Resumed
        },
        None => Reply::Required(Missing::CallId),
    }
}

/// Looks for a call that rings for the user `user_id`; without a user id,
/// for the user with the empty id.
pub fn check_incoming_calls(manager: &CallManager, user_id: Option<&str>) -> (reply: Reply)
    ensures
        reply matches Reply::Incoming { call },
        match reply->Incoming_call {
            Some(summary) => exists|i: int|
                #![trigger manager@.calls[i]]
                0 <= i < manager@.calls.len() && summarizes(summary, manager@.calls[i])
                    && rings_for(manager@.calls[i], text_or_empty(user_id)) && forall|j: int|
                    #![trigger manager@.calls[j]]
                    0 <= j < i ==> !rings_for(manager@.calls[j], text_or_empty(user_id)),
            None => forall|j: int|
                #![trigger manager@.calls[j]]
                0 <= j < manager@.calls.len() ==> !rings_for(
                    manager@.calls[j],
                    text_or_empty(user_id),
                ),
        },
{
    let call = match manager.first_incoming_call(or_empty(user_id)) {
        Some(call) => Some(summarize(call)),
        None => None,
    };
    Reply::Incoming { call }
}

/// Describes the call under `call_id`; without a call id, the call with the
/// empty id.
pub fn get_call_status(manager: &CallManager, call_id: Option<&str>) -> (reply: Reply)
    ensures
        if has_call(manager@.calls, text_or_empty(call_id)) {
            reply matches Reply::Status { summary } && summarizes(
                summary,
                manager@.calls[call_slot(manager@.calls, text_or_empty(call_id))],
            )
        } else {
            reply == Reply::CallNotFound
        },
{
    match manager.get_call(or_empty(call_id)) {
        Some(call) => Reply::Status { summary: summarize(call) },
        None => Reply::CallNotFound,
    }
}

/// Stores the caller's offer with the call that `msg` names.
pub fn send_offer(manager: &mut CallManager, msg: &SignalingMessage) -> (reply: Reply)
    ensures
        final(manager)@.users == old(manager)@.users,
        match (msg.call_id, msg.offer) {
            (None, _) => final(manager)@ == old(manager)@ && reply == Reply::Required(
                Missing::CallId,
            ),
            (Some(_), None) => final(manager)@ == old(manager)@ && reply == Reply::Required(
                Missing::Offer,
            ),
            (Some(id), Some(offer)) => final(manager)@.calls == calls_with_offer(
                old(manager)@.calls,
                id@,
                offer,
            ) && reply == Reply::OfferStored,
        },
{
    match &msg.call_id {
        Some(id) => match &msg.offer {
            Some(offer) => {
                manager.set_offer(id.as_str(), copy_text(offer));
                Reply::OfferStored
            },
            None => Reply::Required(Missing::Offer),
        },
        None => Reply::Required(Missing::CallId),
    }
}

/// Stores the callee's answer with the call that `msg` names.
pub fn send_answer(manager: &mut CallManager, msg: &SignalingMessage) -> (reply: Reply)
    ensures
        final(manager)@.users == old(manager)@.users,
        match (msg.call_id, msg.answer) {
            (None, _) => final(manager)@ == old(manager)@ && reply == Reply::Required(
                Missing::CallId,
            ),
            (Some(_), None) => final(manager)@ == old(manager)@ && reply == Reply::Required(
                Missing::Answer,
            ),
            (Some(id), Some(answer)) => final(manager)@.calls == calls_with_answer(
                old(manager)@.calls,
                id@,
                answer,
            ) && reply == Reply::AnswerStored,
        },
{
    match &msg.call_id {
        Some(id) => match &msg.answer {
            Some(answer) => {
                manager.set_answer(id.as_str(), copy_text(answer));
                Reply::AnswerStored
            },
            None => Reply::Required(Missing::Answer),
        },
        None => Reply::Required(Missing::CallId),
    }
}

/// Adds the candidate of `msg` to the call that it names: on the caller's
/// side if the sender is the caller, else on the callee's.
pub fn send_candidate(manager: &mut CallManager, msg: &SignalingMessage) -> (reply: Reply)
    ensures
        final(manager)@.users == old(manager)@.users,
        final(manager)@.calls.len() == old(manager)@.calls.len(),
        match (msg.call_id, msg.candidate) {
            (None, _) => final(manager)@ == old(manager)@ && reply == Reply::Required(
                Missing::CallId,
            ),
            (Some(_), None) => final(manager)@ == old(manager)@ && reply == Reply::Required(
                Missing::Candidate,
            ),
            (Some(id), Some(candidate)) => if has_call(old(manager)@.calls, id@) {
                let slot = call_slot(old(manager)@.calls, id@);
                &&& reply == Reply::CandidateStored
                &&& candidate_added(
                    old(manager)@.calls[slot],
                    final(manager)@.calls[slot],
                    candidate,
                    msg.user_id@ == old(manager)@.calls[slot].caller_id@,
                )
                &&& forall|j: int|
                    0 <= j < old(manager)@.calls.len() && j != slot
                        ==> #[trigger] final(manager)@.calls[j] == old(manager)@.calls[j]
            } else {
                final(manager)@ == old(manager)@ && reply == Reply::CallNotFound
            },
        },
{
    let id = match &msg.call_id {
        Some(id) => id,
        None => {
            return Reply::Required(Missing::CallId);
        },
    };
    let candidate = match &msg.candidate {
        Some(candidate) => candidate,
        None => {
            return Reply::Required(Missing::Candidate);
        },
    };
    let from_caller = match manager.get_call(id.as_str()) {
        Some(call) => msg.user_id == call.caller_id,
        None => {
            return Reply::CallNotFound;
        },
    };
    manager.add_candidate(id.as_str(), copy_text(candidate), from_caller);
    Reply::CandidateStored
}

/// The offer of the call under `call_id`, if the caller has sent it.
pub fn get_offer(manager: &CallManager, call_id: Option<&str>) -> (reply: Reply)
    ensures
        if has_call(manager@.calls, text_or_empty(call_id)) {
            reply == (Reply::Offer {
                offer: manager@.calls[call_slot(manager@.calls, text_or_empty(call_id))].offer,
            })
        } else {
            reply == Reply::CallNotFound
        },
{
    match manager.get_call(or_empty(call_id)) {
        Some(call) => Reply::Offer { offer: copy_optional_text(&call.offer) },
        None => Reply::CallNotFound,
    }
}

/// The answer of the call under `call_id`, if the callee has sent it.
pub fn get_answer(manager: &CallManager, call_id: Option<&str>) -> (reply: Reply)
    ensures
        if has_call(manager@.calls, text_or_empty(call_id)) {
            reply == (Reply::Answer {
                answer: manager@.calls[call_slot(manager@.calls, text_or_empty(call_id))].answer,
            })
        } else {
            reply == Reply::CallNotFound
        },
{
    match manager.get_call(or_empty(call_id)) {
        Some(call) => Reply::Answer { answer: copy_optional_text(&call.answer) },
        None => Reply::CallNotFound,
    }
}

/// The candidates that the other side of the call under `call_id` has sent
/// to the user `user_id`: the callee's for the caller, the caller's for
/// anyone else.
pub fn get_candidates(manager: &CallManager, call_id: Option<&str>, user_id: Option<&str>) -> (reply:
    Reply)
    ensures
        if has_call(manager@.calls, text_or_empty(call_id)) {
            let call = manager@.calls[call_slot(manager@.calls, text_or_empty(call_id))];
            &&& reply matches Reply::Candidates { candidates }
            &&& candidates@ == if text_or_empty(user_id) == call.caller_id@ {
                call.callee_candidates@
            } else {
                call.caller_candidates@
            }
        } else {
            reply == Reply::CallNotFound
        },
{
    match manager.get_call(or_empty(call_id)) {
        Some(call) => {
            let asks = or_empty(user_id).to_owned();
            let candidates = if asks == call.caller_id {
                copy_texts(&call.callee_candidates)
            } else {
                copy_texts(&call.caller_candidates)
            };
            Reply::Candidates { candidates }
        },
        None => Reply::CallNotFound,
    }
}

} // verus!
