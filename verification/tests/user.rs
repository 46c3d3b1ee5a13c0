use voip_core::user::{CallStatus, User};

#[test]
fn new_user_is_idle_without_address() {
    let user = User::new("id-1".to_string(), "alice".to_string());
    assert_eq!(user.id, "id-1");
    assert_eq!(user.username, "alice");
    assert_eq!(user.ip_address, None);
    assert_eq!(user.status, CallStatus::Idle);
}

#[test]
fn default_status_is_offline() {
    assert_eq!(CallStatus::default(), CallStatus::Offline);
}

#[test]
fn setters_change_one_field() {
    let mut user = User::new("id-1".to_string(), "alice".to_string());
    user.set_ip_address("10.0.0.7".to_string());
    assert_eq!(user.ip_address, Some("10.0.0.7".to_string()));
    assert_eq!(user.status, CallStatus::Idle);
    user.set_status(CallStatus::InCall);
    assert_eq!(user.status, CallStatus::InCall);
    assert_eq!(user.ip_address, Some("10.0.0.7".to_string()));
    assert_eq!(user.id, "id-1");
    assert_eq!(user.username, "alice");
    user.set_status(CallStatus::OnHold);
    assert_eq!(user.status, CallStatus::OnHold);
}
