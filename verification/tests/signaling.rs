use voip_core::addr::IpAddress;
use voip_core::control::{classify, CommandKind};
use voip_core::registry::{CallManager, CallState};
use voip_core::signaling::{
    accept_call, check_incoming_calls, end_call, get_answer, get_call_status, get_candidates,
    get_offer, hold_call, initiate_call, initiate_call_as, reject_call, resume_call, send_answer,
    send_candidate, send_offer, Missing, Reply, SignalingMessage,
};

const PEER: IpAddress = IpAddress::V4(0x0A00_0009);

fn message(user_id: &str) -> SignalingMessage {
    SignalingMessage {
        message_type: "signal".to_string(),
        user_id: user_id.to_string(),
        call_id: None,
        target_user_id: None,
        offer: None,
        answer: None,
        candidate: None,
        ip_address: None,
    }
}

fn about(user_id: &str, call_id: &str) -> SignalingMessage {
    let mut msg = message(user_id);
    msg.call_id = Some(call_id.to_string());
    msg
}

fn ringing(manager: &mut CallManager, call_id: &str, caller: &str, callee: &str) {
    manager.create_call(call_id.to_string(), caller.to_string(), callee.to_string());
}

fn is_id(text: &str) -> bool {
    text.len() == 36
        && text.chars().enumerate().all(|(i, c)| match i {
            8 | 13 | 18 | 23 => c == '-',
            _ => c.is_ascii_digit() || ('a'..='f').contains(&c),
        })
}

#[test]
fn initiate_needs_a_target() {
    let mut manager = CallManager::new();
    let reply = initiate_call(&mut manager, &message("a"));
    assert!(matches!(reply, Reply::Required(Missing::TargetUserId)));
    assert_eq!(reply.status_code(), 400);
    assert_eq!(manager.call_count(), 0);
}

#[test]
fn initiate_creates_a_ringing_call_under_a_fresh_id() {
    let mut manager = CallManager::new();
    let mut msg = message("a");
    msg.target_user_id = Some("b".to_string());
    let first = initiate_call(&mut manager, &msg);
    let second = initiate_call(&mut manager, &msg);
    assert_eq!(first.status_code(), 200);
    let (id1, id2) = match (first, second) {
        (Reply::Initiated { call_id: id1 }, Reply::Initiated { call_id: id2 }) => (id1, id2),
        _ => panic!("both calls must be created"),
    };
    assert!(is_id(&id1));
    assert!(is_id(&id2));
    assert_ne!(id1, id2);
    assert_eq!(manager.call_count(), 2);
    let call = manager.get_call(&id1).expect("the call exists under its id");
    assert_eq!(call.caller_id, "a");
    assert_eq!(call.callee_id, "b");
    assert_eq!(call.status, CallState::Ringing);
}

#[test]
fn initiate_under_a_given_id() {
    let mut manager = CallManager::new();
    let mut msg = message("a");
    msg.target_user_id = Some("b".to_string());
    let reply = initiate_call_as(&mut manager, &msg, "call-7".to_string());
    assert!(matches!(reply, Reply::Initiated { call_id } if call_id == "call-7"));
    assert_eq!(manager.get_call("call-7").unwrap().callee_id, "b");
    let none = initiate_call_as(&mut manager, &message("a"), "call-8".to_string());
    assert!(matches!(none, Reply::Required(Missing::TargetUserId)));
    assert!(manager.get_call("call-8").is_none());
}

#[test]
fn accept_starts_the_call_towards_the_peer() {
    let mut manager = CallManager::new();
    ringing(&mut manager, "c1", "a", "b");
    let outcome = accept_call(&mut manager, &about("b", "c1"), Some(PEER));
    let command = outcome.command.expect("a known peer address gives a command");
    assert_eq!(command.user_id, "b");
    assert_eq!(command.command, "start_call");
    assert_eq!(classify(&command.command), CommandKind::StartCall);
    assert_eq!(command.target_ip, Some(PEER));
    assert_eq!(outcome.reply.status_code(), 200);
    match outcome.reply {
        Reply::Accepted { call: Some(summary) } => {
            assert_eq!(summary.call_id, "c1");
            assert_eq!(summary.caller_id, "a");
            assert_eq!(summary.callee_id, "b");
            assert_eq!(summary.status, CallState::Active);
        }
        _ => panic!("the accepted call must be described"),
    }
    assert_eq!(manager.get_call("c1").unwrap().status, CallState::Active);
}

#[test]
fn accept_without_peer_address_gives_no_command() {
    let mut manager = CallManager::new();
    ringing(&mut manager, "c1", "a", "b");
    let outcome = accept_call(&mut manager, &about("b", "c1"), None);
    assert!(outcome.command.is_none());
    assert!(matches!(outcome.reply, Reply::Accepted { call: Some(_) }));
    assert_eq!(manager.get_call("c1").unwrap().status, CallState::Active);
}

#[test]
fn accept_of_an_unknown_call_still_commands_the_transport() {
    let mut manager = CallManager::new();
    let outcome = accept_call(&mut manager, &about("b", "nope"), Some(PEER));
    assert!(matches!(outcome.reply, Reply::Accepted { call: None }));
    assert_eq!(outcome.command.unwrap().command, "start_call");
    assert_eq!(manager.call_count(), 0);
}

#[test]
fn accept_needs_a_call_id() {
    let mut manager = CallManager::new();
    ringing(&mut manager, "c1", "a", "b");
    let outcome = accept_call(&mut manager, &message("b"), Some(PEER));
    assert!(matches!(outcome.reply, Reply::Required(Missing::CallId)));
    assert_eq!(outcome.reply.status_code(), 400);
    assert!(outcome.command.is_none());
    assert_eq!(manager.get_call("c1").unwrap().status, CallState::Ringing);
}

#[test]
fn end_ends_the_call_at_the_transport() {
    let mut manager = CallManager::new();
    ringing(&mut manager, "c1", "a", "b");
    manager.accept_call("c1");
    let outcome = end_call(&mut manager, &about("a", "c1"), Some(PEER));
    assert!(matches!(outcome.reply, Reply::Ended));
    let command = outcome.command.unwrap();
    assert_eq!(command.user_id, "a");
    assert_eq!(command.command, "end_call");
    assert_eq!(classify(&command.command), CommandKind::EndCall);
    assert_eq!(command.target_ip, Some(PEER));
    assert_eq!(manager.get_call("c1").unwrap().status, CallState::Ended);

    let quiet = end_call(&mut manager, &about("a", "c1"), None);
    assert!(quiet.command.is_none());
    let bad = end_call(&mut manager, &message("a"), Some(PEER));
    assert!(matches!(bad.reply, Reply::Required(Missing::CallId)));
    assert!(bad.command.is_none());
}

#[test]
fn reject_hold_and_resume_change_the_state() {
    let mut manager = CallManager::new();
    ringing(&mut manager, "c1", "a", "b");
    assert!(matches!(hold_call(&mut manager, &about("a", "c1")), Reply::Held));
    assert_eq!(manager.get_call("c1").unwrap().status, CallState::OnHold);
    assert!(matches!(resume_call(&mut manager, &about("a", "c1")), Reply::Resumed));
    assert_eq!(manager.get_call("c1").unwrap().status, CallState::Active);
    assert!(matches!(reject_call(&mut manager, &about("b", "c1")), Reply::Rejected));
    assert_eq!(manager.get_call("c1").unwrap().status, CallState::Rejected);
    for reply in [
        hold_call(&mut manager, &message("a")),
        resume_call(&mut manager, &message("a")),
        reject_call(&mut manager, &message("a")),
    ] {
        assert!(matches!(reply, Reply::Required(Missing::CallId)));
    }
    assert_eq!(manager.get_call("c1").unwrap().status, CallState::Rejected);
}

#[test]
fn incoming_call_is_reported_to_the_callee() {
    let mut manager = CallManager::new();
    ringing(&mut manager, "c1", "a", "b");
    match check_incoming_calls(&manager, Some("b")) {
        Reply::Incoming { call: Some(summary) } => {
            assert_eq!(summary.call_id, "c1");
            assert_eq!(summary.caller_id, "a");
            assert_eq!(summary.status, CallState::Ringing);
        }
        _ => panic!("the call rings for b"),
    }
    assert!(matches!(check_incoming_calls(&manager, Some("a")), Reply::Incoming { call: None }));
    assert!(matches!(check_incoming_calls(&manager, None), Reply::Incoming { call: None }));
    ringing(&mut manager, "c2", "z", "");
    assert!(matches!(
        check_incoming_calls(&manager, None),
        Reply::Incoming { call: Some(summary) } if summary.call_id == "c2"
    ));
}

#[test]
fn status_of_a_call() {
    let mut manager = CallManager::new();
    ringing(&mut manager, "c1", "a", "b");
    match get_call_status(&manager, Some("c1")) {
        Reply::Status { summary } => {
            assert_eq!(summary.call_id, "c1");
            assert_eq!(summary.caller_id, "a");
            assert_eq!(summary.callee_id, "b");
            assert_eq!(summary.status, CallState::Ringing);
        }
        _ => panic!("the call exists"),
    }
    let missing = get_call_status(&manager, Some("c2"));
    assert!(matches!(missing, Reply::CallNotFound));
    assert_eq!(missing.status_code(), 404);
    assert!(matches!(get_call_status(&manager, None), Reply::CallNotFound));
}

#[test]
fn offer_is_stored_and_read_back() {
    let mut manager = CallManager::new();
    ringing(&mut manager, "c1", "a", "b");
    assert!(matches!(get_offer(&manager, Some("c1")), Reply::Offer { offer: None }));
    let mut msg = about("a", "c1");
    assert!(matches!(send_offer(&mut manager, &msg), Reply::Required(Missing::Offer)));
    msg.offer = Some("sdp-offer".to_string());
    assert!(matches!(send_offer(&mut manager, &msg), Reply::OfferStored));
    assert!(matches!(
        get_offer(&manager, Some("c1")),
        Reply::Offer { offer: Some(text) } if text == "sdp-offer"
    ));
    msg.call_id = None;
    assert!(matches!(send_offer(&mut manager, &msg), Reply::Required(Missing::CallId)));
    assert!(matches!(get_offer(&manager, Some("c2")), Reply::CallNotFound));
    assert!(matches!(get_offer(&manager, None), Reply::CallNotFound));
}

#[test]
fn answer_is_stored_and_read_back() {
    let mut manager = CallManager::new();
    ringing(&mut manager, "c1", "a", "b");
    assert!(matches!(get_answer(&manager, Some("c1")), Reply::Answer { answer: None }));
    let mut msg = about("b", "c1");
    assert!(matches!(send_answer(&mut manager, &msg), Reply::Required(Missing::Answer)));
    msg.answer = Some("sdp-answer".to_string());
    assert!(matches!(send_answer(&mut manager, &msg), Reply::AnswerStored));
    assert!(matches!(
        get_answer(&manager, Some("c1")),
        Reply::Answer { answer: Some(text) } if text == "sdp-answer"
    ));
    msg.call_id = None;
    assert!(matches!(send_answer(&mut manager, &msg), Reply::Required(Missing::CallId)));
    assert!(matches!(get_answer(&manager, Some("c2")), Reply::CallNotFound));
}

#[test]
fn candidates_go_to_the_other_side() {
    let mut manager = CallManager::new();
    ringing(&mut manager, "c1", "a", "b");
    let mut from_a = about("a", "c1");
    from_a.candidate = Some("a-1".to_string());
    let mut from_b = about("b", "c1");
    from_b.candidate = Some("b-1".to_string());
    assert!(matches!(send_candidate(&mut manager, &from_a), Reply::CandidateStored));
    assert!(matches!(send_candidate(&mut manager, &from_b), Reply::CandidateStored));
    from_a.candidate = Some("a-2".to_string());
    assert!(matches!(send_candidate(&mut manager, &from_a), Reply::CandidateStored));
    assert!(matches!(
        get_candidates(&manager, Some("c1"), Some("a")),
        Reply::Candidates { candidates } if candidates == vec!["b-1"]
    ));
    assert!(matches!(
        get_candidates(&manager, Some("c1"), Some("b")),
        Reply::Candidates { candidates } if candidates == vec!["a-1", "a-2"]
    ));
    assert!(matches!(
        get_candidates(&manager, Some("c1"), None),
        Reply::Candidates { candidates } if candidates == vec!["a-1", "a-2"]
    ));
    assert!(matches!(get_candidates(&manager, Some("c2"), Some("a")), Reply::CallNotFound));
    assert!(matches!(get_candidates(&manager, None, Some("a")), Reply::CallNotFound));
}

#[test]
fn candidate_needs_a_call_id_a_candidate_and_a_call() {
    let mut manager = CallManager::new();
    ringing(&mut manager, "c1", "a", "b");
    let mut msg = message("a");
    msg.candidate = Some("k".to_string());
    assert!(matches!(send_candidate(&mut manager, &msg), Reply::Required(Missing::CallId)));
    assert!(matches!(
        send_candidate(&mut manager, &about("a", "c1")),
        Reply::Required(Missing::Candidate)
    ));
    msg.call_id = Some("c2".to_string());
    assert!(matches!(send_candidate(&mut manager, &msg), Reply::CallNotFound));
    assert!(manager.get_call("c1").unwrap().caller_candidates.is_empty());
}
