//! The session state machine: the fixed bring-up sequence to `Ready`, the
//! reactions to asynchronous events once ready, and the two-phase outbound
//! send handshake.

use vstd::prelude::*;

use crate::cmd::EspCmd;
use crate::com::EspRespType;
use crate::ip::EspIpConfig;
use crate::resp::EspResp;
use crate::wifi::EspWifiConfig;

verus! {

/// The bring-up phase, or the ready / sending states past it.
#[derive(Debug, Clone, Copy, PartialEq, Eq, Structural)]
pub enum EspState {
    Reset,
    WaitReady,
    ConfigWifiMode,
    ConfigSta,
    WaitStaConnected,
    ConfigAP,
    StaIp,
    WaitStaGotIp,
    ApIp,
    EnablingMultiConx,
    StartingTcpIpServer,
    SendingMsg { client_id: u8, buff_len: u8 },
    Ready,
}

/// What the caller should do after one step of the machine.
#[derive(Debug, Clone, Copy, PartialEq, Eq, Structural)]
pub enum StateEvent {
    Nothing,
    CmdRequest,
    CmdFailed,
    WaitForResp,
    ClientConnected { client_id: u8 },
    ClientMsg { client_id: u8 },
    ClientDisconnected { client_id: u8 },
    ReadyTosendMsg,
    MsgSent,
}

/// The phase the station branch converges on once the station side is done:
/// the access-point configuration where one is required, else enabling
/// multiplexing.
pub open spec fn sta_next_phase(config: EspWifiConfig) -> EspState {
    if config.has_ap() {
        EspState::ConfigAP
    } else {
        EspState::EnablingMultiConx
    }
}

/// The IP-mode branch, entered once the station is associated: under DHCP
/// wait for the address unless it already arrived, under a static assignment
/// go and assign it.
pub open spec fn ip_mode_branch(ip: EspIpConfig, sta_got_ip: bool, config: EspWifiConfig) -> (
    EspState,
    StateEvent,
) {
    match ip {
        EspIpConfig::Dhcp => {
            if sta_got_ip {
                (sta_next_phase(config), StateEvent::CmdRequest)
            } else {
                (EspState::WaitStaGotIp, StateEvent::WaitForResp)
            }
        },
        EspIpConfig::Static { .. } => (EspState::StaIp, StateEvent::CmdRequest),
    }
}

/// After the join command is acknowledged: continue into the IP-mode branch
/// when the association banner already arrived, else wait for it.
pub open spec fn after_sta_ack(sta_got_ip: bool, sta_connected: bool, config: EspWifiConfig) -> (
    EspState,
    StateEvent,
) {
    if sta_connected {
        ip_mode_branch(config.spec_sta_ip_config().unwrap(), sta_got_ip, config)
    } else {
        (EspState::WaitStaConnected, StateEvent::WaitForResp)
    }
}

/// After the access-point parameters are acknowledged: assign the static
/// address where one is configured, else enable multiplexing.
pub open spec fn after_ap_ack(ip: EspIpConfig) -> (EspState, StateEvent) {
    match ip {
        EspIpConfig::Dhcp => (EspState::EnablingMultiConx, StateEvent::CmdRequest),
        EspIpConfig::Static { .. } => (EspState::ApIp, StateEvent::CmdRequest),
    }
}

/// Whether the state is one of the configuration phases that share the
/// acknowledgment handling.
pub open spec fn in_config_group(s: EspState) -> bool {
    matches!(
        s,
        EspState::ConfigWifiMode | EspState::ConfigSta | EspState::WaitStaConnected
            | EspState::ConfigAP | EspState::StaIp | EspState::WaitStaGotIp | EspState::ApIp
    )
}

/// One step of the machine: from phase and the two persistent station flags,
/// under a classified response, to the next phase, flags, and the action
/// asked of the caller.
pub open spec fn transition(
    s: EspState,
    sta_connected: bool,
    sta_got_ip: bool,
    resp: EspRespType,
    config: EspWifiConfig,
) -> (EspState, bool, bool, StateEvent) {
    match s {
        EspState::Reset => match resp {
            EspRespType::Received(EspResp::Okay) => (
                EspState::WaitReady,
                sta_connected,
                sta_got_ip,
                StateEvent::WaitForResp,
            ),
            EspRespType::Received(EspResp::Ready) => (
                EspState::ConfigWifiMode,
                sta_connected,
                sta_got_ip,
                StateEvent::CmdRequest,
            ),
            EspRespType::Received(EspResp::Error) | EspRespType::Received(EspResp::Fail) => (
                s,
                sta_connected,
                sta_got_ip,
                StateEvent::CmdFailed,
            ),
            _ => (s, sta_connected, sta_got_ip, StateEvent::Nothing),
        },
        EspState::WaitReady => match resp {
            EspRespType::Received(EspResp::Ready) => (
                EspState::ConfigWifiMode,
                sta_connected,
                sta_got_ip,
                StateEvent::CmdRequest,
            ),
            EspRespType::Received(EspResp::Error) | EspRespType::Received(EspResp::Fail)
                | EspRespType::Timeout => (
                EspState::Reset,
                sta_connected,
                sta_got_ip,
                StateEvent::CmdRequest,
            ),
            _ => (s, sta_connected, sta_got_ip, StateEvent::Nothing),
        },
        EspState::EnablingMultiConx => match resp {
            EspRespType::Received(EspResp::Okay) => (
                EspState::StartingTcpIpServer,
                sta_connected,
                sta_got_ip,
                StateEvent::CmdRequest,
            ),
            EspRespType::Received(EspResp::Error) | EspRespType::Received(EspResp::Fail) => (
                s,
                sta_connected,
                sta_got_ip,
                StateEvent::CmdFailed,
            ),
            _ => (s, sta_connected, sta_got_ip, StateEvent::Nothing),
        },
        EspState::StartingTcpIpServer => match resp {
            EspRespType::Received(EspResp::Okay) => (
                EspState::Ready,
                sta_connected,
                sta_got_ip,
                StateEvent::Nothing,
            ),
            EspRespType::Received(EspResp::Error) | EspRespType::Received(EspResp::Fail) => (
                s,
                sta_connected,
                sta_got_ip,
                StateEvent::CmdFailed,
            ),
            _ => (s, sta_connected, sta_got_ip, StateEvent::Nothing),
        },
        EspState::Ready => match resp {
            EspRespType::Received(EspResp::ClientConnected(client_id)) => (
                s,
                sta_connected,
                sta_got_ip,
                StateEvent::ClientConnected { client_id },
            ),
            EspRespType::Received(EspResp::ClientDisconnected(client_id)) => (
                s,
                sta_connected,
                sta_got_ip,
                StateEvent::ClientDisconnected { client_id },
            ),
            EspRespType::Received(EspResp::ClientMsg(client_id)) => (
                s,
                sta_connected,
                sta_got_ip,
                StateEvent::ClientMsg { client_id },
            ),
            EspRespType::Received(EspResp::StaDisconnected) | EspRespType::Received(
                EspResp::Error,
            ) | EspRespType::Received(EspResp::Fail) => (
                EspState::Reset,
                sta_connected,
                sta_got_ip,
                StateEvent::CmdRequest,
            ),
            _ => (s, sta_connected, sta_got_ip, StateEvent::Nothing),
        },
        EspState::SendingMsg { .. } => match resp {
            EspRespType::Received(EspResp::Okay) => (
                s,
                sta_connected,
                sta_got_ip,
                StateEvent::ReadyTosendMsg,
            ),
            EspRespType::Received(EspResp::MsgSent) => (
                EspState::Ready,
                sta_connected,
                sta_got_ip,
                StateEvent::MsgSent,
            ),
            EspRespType::Received(EspResp::Error) | EspRespType::Received(EspResp::Fail) => (
                s,
                sta_connected,
                sta_got_ip,
                StateEvent::CmdFailed,
            ),
            _ => (s, sta_connected, sta_got_ip, StateEvent::Nothing),
        },
        _ => config_group_transition(s, sta_connected, sta_got_ip, resp, config),
    }
}

/// The shared handling of the configuration phases.
pub open spec fn config_group_transition(
    s: EspState,
    sta_connected: bool,
    sta_got_ip: bool,
    resp: EspRespType,
    config: EspWifiConfig,
) -> (EspState, bool, bool, StateEvent) {
    match resp {
        EspRespType::Received(EspResp::Okay) => {
            let (s2, ev) = config_group_ack(s, sta_connected, sta_got_ip, config);
            if s == EspState::ConfigWifiMode && config.has_sta() {
                // entering the station branch starts its flags afresh
                (s2, false, false, ev)
            } else {
                (s2, sta_connected, sta_got_ip, ev)
            }
        },
        EspRespType::Timeout => match s {
            EspState::WaitStaConnected | EspState::WaitStaGotIp => (
                EspState::ConfigSta,
                sta_connected,
                sta_got_ip,
                StateEvent::CmdRequest,
            ),
            _ => (s, sta_connected, sta_got_ip, StateEvent::Nothing),
        },
        EspRespType::Received(EspResp::StaConnected) => {
            if s == EspState::WaitStaConnected && config.has_sta() {
                let (s2, ev) = ip_mode_branch(
                    config.spec_sta_ip_config().unwrap(),
                    sta_got_ip,
                    config,
                );
                (s2, true, sta_got_ip, ev)
            } else {
                (s, true, sta_got_ip, StateEvent::Nothing)
            }
        },
        EspRespType::Received(EspResp::StaDisconnected) => (
            s,
            false,
            sta_got_ip,
            StateEvent::Nothing,
        ),
        EspRespType::Received(EspResp::StaGotIp) => {
            if s == EspState::WaitStaGotIp {
                (sta_next_phase(config), sta_connected, true, StateEvent::CmdRequest)
            } else {
                (s, sta_connected, true, StateEvent::Nothing)
            }
        },
        EspRespType::Received(EspResp::Error) | EspRespType::Received(EspResp::Fail) => match s {
            EspState::WaitStaConnected | EspState::WaitStaGotIp => (
                EspState::ConfigSta,
                sta_connected,
                sta_got_ip,
                StateEvent::CmdRequest,
            ),
            _ => (s, sta_connected, sta_got_ip, StateEvent::CmdFailed),
        },
        _ => (s, sta_connected, sta_got_ip, StateEvent::Nothing),
    }
}

/// Where an acknowledgment moves a configuration phase, by the branch rules:
/// which phases run is decided by the configuration variant and its IP
/// modes.
pub open spec fn config_group_ack(
    s: EspState,
    sta_connected: bool,
    sta_got_ip: bool,
    config: EspWifiConfig,
) -> (EspState, StateEvent) {
    match config {
        EspWifiConfig::Sta { ip, .. } => match s {
            EspState::ConfigWifiMode => (EspState::ConfigSta, StateEvent::CmdRequest),
            EspState::ConfigSta => after_sta_ack(sta_got_ip, sta_connected, config),
            EspState::StaIp => (EspState::EnablingMultiConx, StateEvent::CmdRequest),
            _ => (s, StateEvent::Nothing),
        },
        EspWifiConfig::Ap { ip, .. } => match s {
            EspState::ConfigWifiMode => (EspState::ConfigAP, StateEvent::CmdRequest),
            EspState::ConfigAP => after_ap_ack(ip),
            EspState::ApIp => (EspState::EnablingMultiConx, StateEvent::CmdRequest),
            _ => (s, StateEvent::Nothing),
        },
        EspWifiConfig::ApSta { ap_ip, .. } => match s {
            EspState::ConfigWifiMode => (EspState::ConfigSta, StateEvent::CmdRequest),
            EspState::ConfigSta => after_sta_ack(sta_got_ip, sta_connected, config),
            EspState::StaIp => (EspState::ConfigAP, StateEvent::CmdRequest),
            EspState::ConfigAP => after_ap_ack(ap_ip),
            EspState::ApIp => (EspState::EnablingMultiConx, StateEvent::CmdRequest),
            _ => (s, StateEvent::Nothing),
        },
    }
}

/// The command a phase sends, where it sends one: the wait phases and the
/// terminal states send nothing.
pub open spec fn cmd_of_state(s: EspState, config: EspWifiConfig) -> Option<EspCmd> {
    match s {
        EspState::Reset => Some(EspCmd::Reset),
        EspState::ConfigWifiMode => Some(EspCmd::WifiMode),
        EspState::ConfigSta => if config.has_sta() {
            Some(EspCmd::StaJoinAp)
        } else {
            None
        },
        EspState::ConfigAP => if config.has_ap() {
            Some(EspCmd::ApConfig)
        } else {
            None
        },
        EspState::StaIp => if config.spec_sta_ip() is Some {
            Some(EspCmd::StaIpConfig)
        } else {
            None
        },
        EspState::ApIp => if config.spec_ap_ip() is Some {
            Some(EspCmd::ApIpConfig)
        } else {
            None
        },
        EspState::EnablingMultiConx => Some(EspCmd::EnableMultiCnx),
        EspState::StartingTcpIpServer => Some(EspCmd::CreateTcpServer),
        _ => None,
    }
}

/// Walks the states; the two flags persist across phases because the
/// association and address banners may arrive before or after the phase that
/// needs them.
pub struct EspStateHandler {
    state: EspState,
    sta_connected: bool,
    sta_got_ip: bool,
}

impl EspStateHandler {
    pub closed spec fn spec_state(&self) -> EspState {
        self.state
    }

    pub closed spec fn spec_sta_connected(&self) -> bool {
        self.sta_connected
    }

    pub closed spec fn spec_sta_got_ip(&self) -> bool {
        self.sta_got_ip
    }

    pub fn new() -> (r: Self)
        ensures
            r.spec_state() == EspState::Reset,
            !r.spec_sta_connected(),
            !r.spec_sta_got_ip(),
    {
        Self { state: EspState::Reset, sta_connected: false, sta_got_ip: false }
    }

    /// One step under a classified response: exactly the `transition`
    /// relation.
    pub fn update(&mut self, resp: &EspRespType, config: &EspWifiConfig) -> (r: StateEvent)
        ensures
            (
                final(self).spec_state(),
                final(self).spec_sta_connected(),
                final(self).spec_sta_got_ip(),
                r,
            ) == transition(
                old(self).spec_state(),
                old(self).spec_sta_connected(),
                old(self).spec_sta_got_ip(),
                *resp,
                *config,
            ),
    {
        match self.state {
            EspState::Reset => match resp {
                EspRespType::Received(EspResp::Okay) => {
                    self.state = EspState::WaitReady;
                    StateEvent::WaitForResp
                },
                EspRespType::Received(EspResp::Ready) => {
                    self.state = EspState::ConfigWifiMode;
                    StateEvent::CmdRequest
                },
                EspRespType::Received(EspResp::Error) | EspRespType::Received(EspResp::Fail) => {
                    StateEvent::CmdFailed
                },
                _ => StateEvent::Nothing,
            },
            EspState::WaitReady => match resp {
                EspRespType::Received(EspResp::Ready) => {
                    self.state = EspState::ConfigWifiMode;
                    StateEvent::CmdRequest
                },
                EspRespType::Received(EspResp::Error) | EspRespType::Received(EspResp::Fail)
                    | EspRespType::Timeout => {
                    self.state = EspState::Reset;
                    StateEvent::CmdRequest
                },
                _ => StateEvent::Nothing,
            },
            EspState::EnablingMultiConx => match resp {
                EspRespType::Received(EspResp::Okay) => {
                    self.state = EspState::StartingTcpIpServer;
                    StateEvent::CmdRequest
                },
                EspRespType::Received(EspResp::Error) | EspRespType::Received(EspResp::Fail) => {
                    StateEvent::CmdFailed
                },
                _ => StateEvent::Nothing,
            },
            EspState::StartingTcpIpServer => match resp {
                EspRespType::Received(EspResp::Okay) => {
                    self.state = EspState::Ready;
                    StateEvent::Nothing
                },
                EspRespType::Received(EspResp::Error) | EspRespType::Received(EspResp::Fail) => {
                    StateEvent::CmdFailed
                },
                _ => StateEvent::Nothing,
            },
            EspState::Ready => match resp {
                EspRespType::Received(EspResp::ClientConnected(client_id)) => {
                    StateEvent::ClientConnected { client_id: *client_id }
                },
                EspRespType::Received(EspResp::ClientDisconnected(client_id)) => {
                    StateEvent::ClientDisconnected { client_id: *client_id }
                },
                EspRespType::Received(EspResp::ClientMsg(client_id)) => {
                    StateEvent::ClientMsg { client_id: *client_id }
                },
                EspRespType::Received(EspResp::StaDisconnected) | EspRespType::Received(
                    EspResp::Error,
                ) | EspRespType::Received(EspResp::Fail) => {
                    self.state = EspState::Reset;
                    StateEvent::CmdRequest
                },
                _ => StateEvent::Nothing,
            },
            EspState::SendingMsg { .. } => match resp {
                EspRespType::Received(EspResp::Okay) => StateEvent::ReadyTosendMsg,
                EspRespType::Received(EspResp::MsgSent) => {
                    self.state = EspState::Ready;
                    StateEvent::MsgSent
                },
                EspRespType::Received(EspResp::Error) | EspRespType::Received(EspResp::Fail) => {
                    StateEvent::CmdFailed
                },
                _ => StateEvent::Nothing,
            },
            _ => self.update_config_group(resp, config),
        }
    }

    /// The shared step of the configuration phases.
    fn update_config_group(&mut self, resp: &EspRespType, config: &EspWifiConfig) -> (r:
        StateEvent)
        requires
            in_config_group(old(self).spec_state()),
        ensures
            (
                final(self).spec_state(),
                final(self).spec_sta_connected(),
                final(self).spec_sta_got_ip(),
                r,
            ) == config_group_transition(
                old(self).spec_state(),
                old(self).spec_sta_connected(),
                old(self).spec_sta_got_ip(),
                *resp,
                *config,
            ),
    {
        match resp {
            EspRespType::Received(EspResp::Okay) => {
                let entering_sta = matches!(self.state, EspState::ConfigWifiMode)
                    && !matches!(config, EspWifiConfig::Ap { .. });
                let ev = self.config_group_ack_step(config);
                if entering_sta {
                    self.sta_connected = false;
                    self.sta_got_ip = false;
                }
                ev
            },
            EspRespType::Timeout => match self.state {
                EspState::WaitStaConnected | EspState::WaitStaGotIp => {
                    self.state = EspState::ConfigSta;
                    StateEvent::CmdRequest
                },
                _ => StateEvent::Nothing,
            },
            EspRespType::Received(EspResp::StaConnected) => {
                self.sta_connected = true;
                if matches!(self.state, EspState::WaitStaConnected) && !matches!(
                    config,
                    EspWifiConfig::Ap { .. },
                ) {
                    self.enter_ip_mode_branch(config)
                } else {
                    StateEvent::Nothing
                }
            },
            EspRespType::Received(EspResp::StaDisconnected) => {
                self.sta_connected = false;
                StateEvent::Nothing
            },
            EspRespType::Received(EspResp::StaGotIp) => {
                self.sta_got_ip = true;
                if matches!(self.state, EspState::WaitStaGotIp) {
                    self.state = if matches!(config, EspWifiConfig::Sta { .. }) {
                        EspState::EnablingMultiConx
                    } else {
                        EspState::ConfigAP
                    };
                    StateEvent::CmdRequest
                } else {
                    StateEvent::Nothing
                }
            },
            EspRespType::Received(EspResp::Error) | EspRespType::Received(EspResp::Fail) => {
                match self.state {
                    EspState::WaitStaConnected | EspState::WaitStaGotIp => {
                        self.state = EspState::ConfigSta;
                        StateEvent::CmdRequest
                    },
                    _ => StateEvent::CmdFailed,
                }
            },
            _ => StateEvent::Nothing,
        }
    }

    /// Moves into the IP-mode branch of the station side.
    fn enter_ip_mode_branch(&mut self, config: &EspWifiConfig) -> (r: StateEvent)
        requires
            config.has_sta(),
        ensures
            (final(self).spec_state(), r) == ip_mode_branch(
                config.spec_sta_ip_config().unwrap(),
                old(self).spec_sta_got_ip(),
                *config,
            ),
            final(self).spec_sta_connected() == old(self).spec_sta_connected(),
            final(self).spec_sta_got_ip() == old(self).spec_sta_got_ip(),
    {
        let ip = match config {
            EspWifiConfig::Sta { ip, .. } => ip,
            EspWifiConfig::ApSta { sta_ip, .. } => sta_ip,
            EspWifiConfig::Ap { ip, .. } => ip,
        };
        match ip {
            EspIpConfig::Dhcp => {
                if self.sta_got_ip {
                    self.state = if matches!(config, EspWifiConfig::ApSta { .. }) {
                        EspState::ConfigAP
                    } else {
                        EspState::EnablingMultiConx
                    };
                    StateEvent::CmdRequest
                } else {
                    self.state = EspState::WaitStaGotIp;
                    StateEvent::WaitForResp
                }
            },
            EspIpConfig::Static { .. } => {
                self.state = EspState::StaIp;
                StateEvent::CmdRequest
            },
        }
    }

    /// Moves a configuration phase along on acknowledgment.
    fn config_group_ack_step(&mut self, config: &EspWifiConfig) -> (r: StateEvent)
        requires
            in_config_group(old(self).spec_state()),
        ensures
            (final(self).spec_state(), r) == config_group_ack(
                old(self).spec_state(),
                old(self).spec_sta_connected(),
                old(self).spec_sta_got_ip(),
                *config,
            ),
            final(self).spec_sta_connected() == old(self).spec_sta_connected(),
            final(self).spec_sta_got_ip() == old(self).spec_sta_got_ip(),
    {
        match config {
            EspWifiConfig::Sta { .. } => match self.state {
                EspState::ConfigWifiMode => {
                    self.state = EspState::ConfigSta;
                    StateEvent::CmdRequest
                },
                EspState::ConfigSta => {
                    if self.sta_connected {
                        self.enter_ip_mode_branch(config)
                    } else {
                        self.state = EspState::WaitStaConnected;
                        StateEvent::WaitForResp
                    }
                },
                EspState::StaIp => {
                    self.state = EspState::EnablingMultiConx;
                    StateEvent::CmdRequest
                },
                _ => StateEvent::Nothing,
            },
            EspWifiConfig::Ap { ip, .. } => match self.state {
                EspState::ConfigWifiMode => {
                    self.state = EspState::ConfigAP;
                    StateEvent::CmdRequest
                },
                EspState::ConfigAP => match ip {
                    EspIpConfig::Dhcp => {
                        self.state = EspState::EnablingMultiConx;
                        StateEvent::CmdRequest
                    },
                    EspIpConfig::Static { .. } => {
                        self.state = EspState::ApIp;
                        StateEvent::CmdRequest
                    },
                },
                EspState::ApIp => {
                    self.state = EspState::EnablingMultiConx;
                    StateEvent::CmdRequest
                },
                _ => StateEvent::Nothing,
            },
            EspWifiConfig::ApSta { ap_ip, .. } => match self.state {
                EspState::ConfigWifiMode => {
                    self.state = EspState::ConfigSta;
                    StateEvent::CmdRequest
                },
                EspState::ConfigSta => {
                    if self.sta_connected {
                        self.enter_ip_mode_branch(config)
                    } else {
                        self.state = EspState::WaitStaConnected;
                        StateEvent::WaitForResp
                    }
                },
                EspState::StaIp => {
                    self.state = EspState::ConfigAP;
                    StateEvent::CmdRequest
                },
                EspState::ConfigAP => match ap_ip {
                    EspIpConfig::Dhcp => {
                        self.state = EspState::EnablingMultiConx;
                        StateEvent::CmdRequest
                    },
                    EspIpConfig::Static { .. } => {
                        self.state = EspState::ApIp;
                        StateEvent::CmdRequest
                    },
                },
                EspState::ApIp => {
                    self.state = EspState::EnablingMultiConx;
                    StateEvent::CmdRequest
                },
                _ => StateEvent::Nothing,
            },
        }
    }

    /// The command the current phase sends, where it sends one.
    pub fn get_cmd(&self, config: &EspWifiConfig) -> (r: Option<EspCmd>)
        ensures
            r == cmd_of_state(self.spec_state(), *config),
    {
        match self.state {
            EspState::Reset => Some(EspCmd::Reset),
            EspState::WaitReady => None,
            EspState::ConfigWifiMode => Some(EspCmd::WifiMode),
            EspState::ConfigSta => match config {
                EspWifiConfig::Sta { .. } | EspWifiConfig::ApSta { .. } => Some(EspCmd::StaJoinAp),
                EspWifiConfig::Ap { .. } => None,
            },
            EspState::WaitStaConnected => None,
            EspState::ConfigAP => match config {
                EspWifiConfig::Sta { .. } => None,
                EspWifiConfig::Ap { .. } | EspWifiConfig::ApSta { .. } => Some(EspCmd::ApConfig),
            },
            EspState::StaIp => {
                if config.get_sta_ip().is_some() {
                    Some(EspCmd::StaIpConfig)
                } else {
                    None
                }
            },
            EspState::WaitStaGotIp => None,
            EspState::ApIp => {
                if config.get_ap_ip().is_some() {
                    Some(EspCmd::ApIpConfig)
                } else {
                    None
                }
            },
            EspState::EnablingMultiConx => Some(EspCmd::EnableMultiCnx),
            EspState::StartingTcpIpServer => Some(EspCmd::CreateTcpServer),
            EspState::SendingMsg { .. } => None,
            EspState::Ready => None,
        }
    }

    /// Enters the send handshake for one outbound payload and hands back the
    /// begin-send command to put in flight.
    pub fn start_msg_send_cmd(&mut self, client_id: u8, buff_len: u8) -> (r: EspCmd)
        ensures
            final(self).spec_state() == (EspState::SendingMsg { client_id, buff_len }),
            final(self).spec_sta_connected() == old(self).spec_sta_connected(),
            final(self).spec_sta_got_ip() == old(self).spec_sta_got_ip(),
            r == (EspCmd::StartMsgSend { client_id, msg_len: buff_len }),
    {
        self.state = EspState::SendingMsg { client_id, buff_len };
        EspCmd::StartMsgSend { client_id, msg_len: buff_len }
    }

    pub fn is_ready(&self) -> (r: bool)
        ensures
            r == (self.spec_state() == EspState::Ready),
    {
        matches!(self.state, EspState::Ready)
    }
}

/// The response the happy bring-up path expects of each phase: the ready
/// banner out of the resets and waits for it, the association and address
/// banners out of their waits, plain success everywhere else.
pub open spec fn expected_resp(s: EspState) -> EspRespType {
    match s {
        EspState::Reset => EspRespType::Received(EspResp::Okay),
        EspState::WaitReady => EspRespType::Received(EspResp::Ready),
        EspState::WaitStaConnected => EspRespType::Received(EspResp::StaConnected),
        EspState::WaitStaGotIp => EspRespType::Received(EspResp::StaGotIp),
        _ => EspRespType::Received(EspResp::Okay),
    }
}

/// The machine after `n` steps of the happy path: each phase answered by
/// exactly the response it awaits.
pub open spec fn run_happy(
    s: EspState,
    sta_connected: bool,
    sta_got_ip: bool,
    config: EspWifiConfig,
    n: nat,
) -> (EspState, bool, bool)
    decreases n,
{
    if n == 0 {
        (s, sta_connected, sta_got_ip)
    } else {
        let (s2, c2, g2, _) = transition(s, sta_connected, sta_got_ip, expected_resp(s), config);
        run_happy(s2, c2, g2, config, (n - 1) as nat)
    }
}

/// How many happy-path steps the bring-up takes, decided by the
/// configuration variant and its IP assignment modes alone.
pub open spec fn bringup_steps(config: EspWifiConfig) -> nat {
    match config {
        EspWifiConfig::Sta { .. } => 8,
        EspWifiConfig::Ap { ip, .. } => if ip.is_static() {
            7
        } else {
            6
        },
        EspWifiConfig::ApSta { ap_ip, .. } => if ap_ip.is_static() {
            10
        } else {
            9
        },
    }
}

/// Under any configuration, the bring-up run from the reset phase with
/// every awaited response arriving reaches `Ready` in exactly
/// `bringup_steps(config)` steps — a count fixed by the variant and its IP
/// modes.
pub proof fn lemma_bringup_reaches_ready(config: EspWifiConfig)
    ensures
        run_happy(EspState::Reset, false, false, config, bringup_steps(config)).0
            == EspState::Ready,
{
    reveal_with_fuel(run_happy, 11);
}

/// A phase of the bring-up sequence proper: everything before `Ready`.
pub open spec fn is_bringup_phase(s: EspState) -> bool {
    matches!(
        s,
        EspState::Reset | EspState::WaitReady | EspState::ConfigWifiMode | EspState::ConfigSta
            | EspState::WaitStaConnected | EspState::ConfigAP | EspState::StaIp
            | EspState::WaitStaGotIp | EspState::ApIp | EspState::EnablingMultiConx
            | EspState::StartingTcpIpServer
    )
}

/// An `ERROR` or `FAIL` line in any bring-up phase asks for a resend and
/// nothing more: the station flags keep their values, and the machine
/// either stays put with `CmdFailed` — the sequencer then clears the send
/// timestamp, so the identical line goes out on the next tick — or, out of
/// a wait, re-enters with `CmdRequest` the phase whose command is to go out
/// again (the reset phase out of the ready-wait, the join phase out of the
/// association and address waits).
pub proof fn lemma_error_causes_resend(
    s: EspState,
    sta_connected: bool,
    sta_got_ip: bool,
    e: EspResp,
    config: EspWifiConfig,
)
    requires
        is_bringup_phase(s),
        e == EspResp::Error || e == EspResp::Fail,
    ensures
        ({
            let (s2, c2, g2, ev) = transition(
                s,
                sta_connected,
                sta_got_ip,
                EspRespType::Received(e),
                config,
            );
            &&& c2 == sta_connected
            &&& g2 == sta_got_ip
            &&& (s == EspState::WaitReady ==> s2 == EspState::Reset && ev
                == StateEvent::CmdRequest)
            &&& (s == EspState::WaitStaConnected || s == EspState::WaitStaGotIp ==> s2
                == EspState::ConfigSta && ev == StateEvent::CmdRequest)
            &&& (s != EspState::WaitReady && s != EspState::WaitStaConnected && s
                != EspState::WaitStaGotIp ==> s2 == s && ev == StateEvent::CmdFailed)
        }),
{
}

/// The two-phase send handshake, seen by the machine: entering the send
/// state, plain success says the transport may carry the raw payload now,
/// and the sent-banner closes the handshake back to `Ready`. Nothing else
/// about the machine moves.
pub proof fn lemma_send_handshake(
    client_id: u8,
    buff_len: u8,
    sta_connected: bool,
    sta_got_ip: bool,
    config: EspWifiConfig,
)
    ensures
        transition(
            EspState::SendingMsg { client_id, buff_len },
            sta_connected,
            sta_got_ip,
            EspRespType::Received(EspResp::Okay),
            config,
        ) == (
            EspState::SendingMsg { client_id, buff_len },
            sta_connected,
            sta_got_ip,
            StateEvent::ReadyTosendMsg,
        ),
        transition(
            EspState::SendingMsg { client_id, buff_len },
            sta_connected,
            sta_got_ip,
            EspRespType::Received(EspResp::MsgSent),
            config,
        ) == (EspState::Ready, sta_connected, sta_got_ip, StateEvent::MsgSent),
{
}

} // verus!
