//! A user of the signaling layer.

use vstd::prelude::*;

verus! {

/// What a user is doing.
#[derive(Debug, Clone, Copy, PartialEq, Eq, Structural)]
pub enum CallStatus {
    Idle,
    Calling,
    InCall,
    OnHold,
    Offline,
}

impl Default for CallStatus {
    /// A user of whom nothing is known is offline.
    fn default() -> (status: CallStatus)
        ensures
            status == CallStatus::Offline,
    {
        CallStatus::Offline
    }
}

/// A registered user.
#[derive(Debug, Clone)]
pub struct User {
    pub id: String,
    pub username: String,
    pub ip_address: Option<String>,
    pub status: CallStatus,
}

impl User {
    /// A user who has just registered: idle, with no address yet.
    pub fn new(id: String, username: String) -> (user: User)
        ensures
            user.id == id,
            user.username == username,
            user.ip_address is None,
            user.status == CallStatus::Idle,
    {
        User { id, username, ip_address: None, status: CallStatus::Idle }
    }

    /// Records the address the user was last seen at.
    pub fn set_ip_address(&mut self, ip: String)
        ensures
            final(self).ip_address == Some(ip),
            final(self).id == old(self).id,
            final(self).username == old(self).username,
            final(self).status == old(self).status,
    {
        self.ip_address = Some(ip);
    }

    /// Records what the user is doing.
    pub fn set_status(&mut self, status: CallStatus)
        ensures
            final(self).status == status,
            final(self).id == old(self).id,
            final(self).username == old(self).username,
            final(self).ip_address == old(self).ip_address,
    {
        self.status = status;
    }
}

} // verus!
