//! Call control: the state machine that turns commands of the signaling
//! layer and pings seen by the receive path into what the transport is to
//! do. It holds at most one call at a time.

use crate::addr::{IpAddress, PeerAddr, AUDIO_PORT};
use crate::packet::{wire_bytes, AudioPacket, PacketView, PING_SEQ};
use crate::receive::{receive_step, ReceiveState};
use crate::jitter::JitterView;
use crate::text::same_text;
use vstd::prelude::*;

verus! {

/// Fewest commands the queue from the signaling layer to the control task
/// holds.
pub const COMMAND_QUEUE_CAPACITY: usize = 32;

/// Number of addresses the queue from the receive path to the control task
/// holds: one, and a ping that finds it taken is dropped.
pub const CALLER_QUEUE_CAPACITY: usize = 1;

/// A command of the signaling layer.
#[derive(Debug, Clone)]
pub struct UdpCommand {
    pub user_id: String,
    pub command: String,
    pub target_ip: Option<IpAddress>,
}

/// What a command asks for.
#[derive(Clone, Copy, Debug, PartialEq, Eq, Structural)]
pub enum CommandKind {
    Ping,
    StartCall,
    EndCall,
    Unknown,
}

/// Where the control task stands.
#[derive(Clone, Copy, Debug, PartialEq, Eq, Structural)]
pub enum Phase {
    /// No peer is known and no call runs.
    Idle,
    /// A peer was learned from its ping; no call runs.
    Pinged,
    /// A call runs.
    Active,
}

/// State of the control task.
#[derive(Clone, Copy, Debug, PartialEq, Eq, Structural)]
pub struct CallControl {
    /// Address learned from the last ping seen since the last `end_call`.
    pub caller_ip: Option<IpAddress>,
    /// Whether a call runs.
    pub active: bool,
}

/// What the transport is to do after a command.
#[derive(Clone, Copy, Debug, PartialEq, Eq, Structural)]
pub enum ControlAction {
    /// Nothing.
    Nothing,
    /// Send one ping datagram to `to`.
    SendPing { to: PeerAddr },
    /// Start the send path towards `target` and the capture stream. Where
    /// `replaces` holds a call was running: it is to be cancelled first, so
    /// that one call runs at a time.
    StartSession { target: PeerAddr, replaces: bool },
    /// Cancel the running call and wait for its send path to end.
    EndSession,
    /// The call cannot start, since no peer address is known.
    Refused,
    /// The command is not known and was ignored.
    Ignored,
}

/// What a command named `name` asks for.
pub open spec fn command_kind(name: Seq<char>) -> CommandKind {
    if name == "ping"@ {
        CommandKind::Ping
    } else if name == "start_call"@ {
        CommandKind::StartCall
    } else if name == "end_call"@ {
        CommandKind::EndCall
    } else {
        CommandKind::Unknown
    }
}

/// The audio endpoint of the host at `ip`.
pub open spec fn audio_endpoint(ip: IpAddress) -> PeerAddr {
    PeerAddr { ip, port: AUDIO_PORT }
}

/// The control task after a step, and what the transport is to do.
pub struct ControlStep {
    pub state: CallControl,
    pub action: ControlAction,
}

impl CallControl {
    /// The state at start: no peer known, no call.
    pub open spec fn idle() -> CallControl {
        CallControl { caller_ip: None, active: false }
    }

    /// Where the control task stands.
    pub open spec fn phase(self) -> Phase {
        if self.active {
            Phase::Active
        } else if self.caller_ip is Some {
            Phase::Pinged
        } else {
            Phase::Idle
        }
    }

    /// The state after the receive path saw a ping from `ip`.
    pub open spec fn learn(self, ip: IpAddress) -> CallControl {
        CallControl { caller_ip: Some(ip), active: self.active }
    }

    /// The peer that a call started now would address: the learned address
    /// if there is one, else the command's.
    pub open spec fn resolve(self, target_ip: Option<IpAddress>) -> Option<IpAddress> {
        if self.caller_ip is Some {
            self.caller_ip
        } else {
            target_ip
        }
    }

    /// The step that a command of kind `kind` with target `target_ip` causes.
    ///
    /// `ping` sends a ping to the target, if it names one, and changes
    /// nothing. `start_call` starts a call to the resolved peer, or is
    /// refused and changes nothing if there is none. `end_call` forgets the
    /// learned address and ends the call if one runs. Any other command is
    /// ignored.
    pub open spec fn step(self, kind: CommandKind, target_ip: Option<IpAddress>) -> ControlStep {
        match kind {
            CommandKind::Ping => ControlStep {
                state: self,
                action: match target_ip {
                    Some(ip) => ControlAction::SendPing { to: audio_endpoint(ip) },
                    None => ControlAction::Nothing,
                },
            },
            CommandKind::StartCall => match self.resolve(target_ip) {
                Some(ip) => ControlStep {
                    state: CallControl { caller_ip: self.caller_ip, active: true },
                    action: ControlAction::StartSession {
                        target: audio_endpoint(ip),
                        replaces: self.active,
                    },
                },
                None => ControlStep { state: self, action: ControlAction::Refused },
            },
            CommandKind::EndCall => ControlStep {
                state: CallControl::idle(),
                action: if self.active {
                    ControlAction::EndSession
                } else {
                    ControlAction::Nothing
                },
            },
            CommandKind::Unknown => ControlStep { state: self, action: ControlAction::Ignored },
        }
    }
}

/// Reads what a command asks for from its name.
pub fn classify(name: &str) -> (kind: CommandKind)
    ensures
        kind == command_kind(name@),
{
    if same_text(name, "ping") {
        CommandKind::Ping
    } else if same_text(name, "start_call") {
        CommandKind::StartCall
    } else if same_text(name, "end_call") {
        CommandKind::EndCall
    } else {
        CommandKind::Unknown
    }
}

/// The datagram of a ping: sequence number 0 and no sample.
pub fn ping_datagram() -> (bytes: Vec<u8>)
    ensures
        bytes@ == wire_bytes(PacketView { seq: PING_SEQ, samples: Seq::empty() }),
        bytes@ == seq![0u8, 0u8],
{
    let packet = AudioPacket { seq: PING_SEQ, samples: Vec::new() };
    proof {
        crate::packet::lemma_ping_wire();
    }
    packet.serialize()
}

impl CallControl {
    /// The state at start.
    pub fn new() -> (state: CallControl)
        ensures
            state == CallControl::idle(),
    {
        CallControl { caller_ip: None, active: false }
    }

    /// Where the control task stands.
    pub fn current_phase(&self) -> (phase: Phase)
        ensures
            phase == self.phase(),
    {
        if self.active {
            Phase::Active
        } else if self.caller_ip.is_some() {
            Phase::Pinged
        } else {
            Phase::Idle
        }
    }

    /// Takes note of a ping that the receive path saw from `ip`.
    pub fn on_caller_detected(&mut self, ip: IpAddress)
        ensures
            *final(self) == old(self).learn(ip),
    {
        self.caller_ip = Some(ip);
    }

    /// Takes one command and says what the transport is to do.
    pub fn on_command(&mut self, command: &UdpCommand) -> (action: ControlAction)
        ensures
            (ControlStep { state: *final(self), action }) == old(self).step(
                command_kind(command.command@),
                command.target_ip,
            ),
    {
        match classify(command.command.as_str()) {
            CommandKind::Ping => match command.target_ip {
                Some(ip) => ControlAction::SendPing { to: PeerAddr::audio(ip) },
                None => ControlAction::Nothing,
            },
            CommandKind::StartCall => {
                let peer = if self.caller_ip.is_some() {
                    self.caller_ip
                } else {
                    command.target_ip
                };
                match peer {
                    Some(ip) => {
                        let replaces = self.active;
                        self.active = true;
                        ControlAction::StartSession { target: PeerAddr::audio(ip), replaces }
                    },
                    None => ControlAction::Refused,
                }
            },
            CommandKind::EndCall => {
                let was_active = self.active;
                self.caller_ip = None;
                self.active = false;
                if was_active {
                    ControlAction::EndSession
                } else {
                    ControlAction::Nothing
                }
            },
            CommandKind::Unknown => ControlAction::Ignored,
        }
    }
}

/// The names of the three commands are told apart.
pub proof fn lemma_command_names()
    ensures
        command_kind("ping"@) == CommandKind::Ping,
        command_kind("start_call"@) == CommandKind::StartCall,
        command_kind("end_call"@) == CommandKind::EndCall,
{
    reveal_strlit("ping");
    reveal_strlit("start_call");
    reveal_strlit("end_call");
    assert("ping"@.len() == 4);
    assert("start_call"@.len() == 10);
    assert("end_call"@.len() == 8);
}

/// A ping to a named target sends one ping datagram to the target's audio
/// port and leaves the state as it was, whether a call runs or not.
pub proof fn lemma_ping_step(state: CallControl, ip: IpAddress)
    ensures
        state.step(CommandKind::Ping, Some(ip)) == (ControlStep {
            state,
            action: ControlAction::SendPing { to: PeerAddr { ip, port: AUDIO_PORT } },
        }),
{
}

/// Peer learning: once the receive path has handed over a ping from `source`,
/// a `start_call` addresses `source` on the audio port, whether the command
/// names no target or another one.
pub proof fn lemma_learned_peer_is_called(
    control: CallControl,
    receiver: ReceiveState,
    jitter: JitterView,
    local_ip: IpAddress,
    source: IpAddress,
    data: Seq<u8>,
    target_ip: Option<IpAddress>,
)
    requires
        receive_step(receiver, jitter, local_ip, source, data).outcome is Ping,
    ensures
        receive_step(receiver, jitter, local_ip, source, data).outcome->from == source,
        source != local_ip,
        control.learn(source).step(CommandKind::StartCall, target_ip).action == (
        ControlAction::StartSession {
            target: PeerAddr { ip: source, port: AUDIO_PORT },
            replaces: control.active,
        }),
        control.learn(source).step(CommandKind::StartCall, target_ip).state.phase()
            == Phase::Active,
{
}

/// A `start_call` without a target, while no peer is known, is refused and
/// changes nothing.
pub proof fn lemma_start_without_peer(state: CallControl)
    requires
        state.caller_ip is None,
    ensures
        state.step(CommandKind::StartCall, None) == (ControlStep {
            state,
            action: ControlAction::Refused,
        }),
{
}

/// An `end_call` while idle changes nothing and asks for nothing.
pub proof fn lemma_end_while_idle(target_ip: Option<IpAddress>)
    ensures
        CallControl::idle().step(CommandKind::EndCall, target_ip) == (ControlStep {
            state: CallControl::idle(),
            action: ControlAction::Nothing,
        }),
{
}

/// An `end_call` while a call runs cancels it; after any `end_call` the
/// control task is idle, and a `start_call` without a target is refused.
pub proof fn lemma_teardown(state: CallControl, target_ip: Option<IpAddress>)
    ensures
        state.active ==> state.step(CommandKind::EndCall, target_ip).action
            == ControlAction::EndSession,
        state.step(CommandKind::EndCall, target_ip).state.phase() == Phase::Idle,
        state.step(CommandKind::EndCall, target_ip).state.step(
            CommandKind::StartCall,
            None,
        ).action == ControlAction::Refused,
{
}

/// At most one call runs: a call is started only by a `start_call` with a
/// peer to address, and one that starts while another runs says so.
pub proof fn lemma_one_session(
    state: CallControl,
    kind: CommandKind,
    target_ip: Option<IpAddress>,
)
    ensures
        ({
            let next = state.step(kind, target_ip);
            &&& next.action is StartSession ==> kind == CommandKind::StartCall
                && next.action->replaces == state.active && next.state.active
            &&& next.action is EndSession ==> state.active && !next.state.active
            &&& !(next.action is StartSession) && !(next.action is EndSession) ==> next.state.active
                == state.active
        }),
{
}

} // verus!
