//! The command/response sequencer: sends one command at a time, waits for a
//! classified response under a global timeout, and resends the same command
//! verbatim when the window passes with no response.

use vstd::prelude::*;

use crate::cmd::{cmd_line, EspCmd};
use crate::resp::{parse_ipd, registry_step, scan, EspResp, EspRespHandler};
use crate::serial::EspSerial;
use crate::wifi::EspWifiConfig;

verus! {

/// How long a sent command may wait for its terminal response, in
/// microseconds, before it is resent.
pub const CMD_RESP_TIMEOUT_US: u64 = 10_000_000;

/// What one poll of the sequencer produced: a classified response, or the
/// word that the window has passed.
#[derive(Debug, Clone, Copy, PartialEq, Eq, Structural)]
pub enum EspRespType {
    Received(EspResp),
    Timeout,
}

enum AtComState {
    Idle,
    WaitForResp { t_start_wait: u64 },
    ProcessingCmd { t_cmd_sent: Option<u64>, cmd: EspCmd },
    WrittingMsg { t_msg_sent: u64 },
}

/// Owns the transport and the response handler; one command or one raw
/// payload write is in flight at a time.
pub struct EspAtCom<S: EspSerial> {
    serial_handler: S,
    response_handler: EspRespHandler,
    state: AtComState,
}

impl<S: EspSerial> EspAtCom<S> {
    pub closed spec fn is_idle(&self) -> bool {
        matches!(self.state, AtComState::Idle)
    }

    pub closed spec fn is_waiting(&self) -> bool {
        matches!(self.state, AtComState::WaitForResp { .. })
    }

    pub closed spec fn spec_wait_start(&self) -> u64 {
        match self.state {
            AtComState::WaitForResp { t_start_wait } => t_start_wait,
            _ => 0,
        }
    }

    pub closed spec fn is_processing(&self) -> bool {
        matches!(self.state, AtComState::ProcessingCmd { .. })
    }

    /// The command in flight, where one is.
    pub closed spec fn spec_cmd(&self) -> EspCmd {
        match self.state {
            AtComState::ProcessingCmd { cmd, .. } => cmd,
            _ => EspCmd::Reset,
        }
    }

    /// When the in-flight command went out, `None` while it still has to be
    /// (re)sent.
    pub closed spec fn spec_sent_at(&self) -> Option<u64> {
        match self.state {
            AtComState::ProcessingCmd { t_cmd_sent, .. } => t_cmd_sent,
            _ => None,
        }
    }

    pub closed spec fn is_writing(&self) -> bool {
        matches!(self.state, AtComState::WrittingMsg { .. })
    }

    pub closed spec fn spec_write_start(&self) -> u64 {
        match self.state {
            AtComState::WrittingMsg { t_msg_sent } => t_msg_sent,
            _ => 0,
        }
    }

    /// Everything written to the transport so far.
    pub closed spec fn tx_bytes(&self) -> Seq<u8> {
        self.serial_handler.tx_bytes()
    }

    /// Received bytes not yet drained.
    pub closed spec fn rx_queued(&self) -> Seq<u8> {
        self.serial_handler.rx_queued()
    }

    pub closed spec fn accepts_writes(&self) -> bool {
        self.serial_handler.accepts_writes()
    }

    /// The response handler, for speaking of its window and queues.
    pub closed spec fn resp(&self) -> EspRespHandler {
        self.response_handler
    }

    pub closed spec fn wf(&self) -> bool {
        &&& self.response_handler.wf()
        &&& parse_ipd(self.response_handler.buff()) is None
    }

    /// The sequencer is in exactly one of its four states.
    pub proof fn lemma_state_partition(&self)
        ensures
            self.is_idle() || self.is_waiting() || self.is_processing() || self.is_writing(),
            self.is_idle() ==> !self.is_waiting() && !self.is_processing() && !self.is_writing(),
            self.is_waiting() ==> !self.is_idle() && !self.is_processing() && !self.is_writing(),
            self.is_processing() ==> !self.is_idle() && !self.is_waiting() && !self.is_writing(),
            self.is_writing() ==> !self.is_idle() && !self.is_waiting() && !self.is_processing(),
    {
    }

    /// What the classifier's scan of the queued bytes would hand back.
    pub open spec fn spec_scanned(&self) -> Option<EspRespType> {
        match scan(self.resp().buff(), self.rx_queued(), self.resp().spec_capacity()).0 {
            Some(e) => Some(EspRespType::Received(e)),
            None => None,
        }
    }

    /// What `update` hands back at time `t_us`: the timeout where a wait's
    /// or a write's window has passed, else the classifier's scan outcome
    /// over the queued bytes; nothing while idle, while a pending command
    /// still has to go out, or on the tick that drops a passed window's
    /// send timestamp.
    pub open spec fn spec_outcome(&self, t_us: u64) -> Option<EspRespType> {
        if self.is_waiting() {
            if t_us.wrapping_sub(self.spec_wait_start()) > CMD_RESP_TIMEOUT_US {
                Some(EspRespType::Timeout)
            } else {
                self.spec_scanned()
            }
        } else if self.is_writing() {
            if t_us.wrapping_sub(self.spec_write_start()) > CMD_RESP_TIMEOUT_US {
                Some(EspRespType::Timeout)
            } else {
                self.spec_scanned()
            }
        } else if self.is_processing() {
            match self.spec_sent_at() {
                Some(ts) => if t_us.wrapping_sub(ts) > CMD_RESP_TIMEOUT_US {
                    None
                } else {
                    self.spec_scanned()
                },
                None => None,
            }
        } else {
            None
        }
    }

    /// The sequencer state is the same as `other`'s.
    pub open spec fn same_state(&self, other: &Self) -> bool {
        &&& self.is_idle() == other.is_idle()
        &&& self.is_waiting() == other.is_waiting()
        &&& self.spec_wait_start() == other.spec_wait_start()
        &&& self.is_processing() == other.is_processing()
        &&& self.spec_cmd() == other.spec_cmd()
        &&& self.spec_sent_at() == other.spec_sent_at()
        &&& self.is_writing() == other.is_writing()
        &&& self.spec_write_start() == other.spec_write_start()
    }

    /// Neither the transport nor the response handler moved.
    pub open spec fn same_io(&self, other: &Self) -> bool {
        &&& self.tx_bytes() == other.tx_bytes()
        &&& self.rx_queued() == other.rx_queued()
        &&& self.accepts_writes() == other.accepts_writes()
        &&& self.resp() == other.resp()
    }

    /// Takes ownership of the transport; the classification window holds
    /// `resp_capacity` bytes. The sequencer starts idle.
    pub fn new(serial_handler: S, resp_capacity: usize) -> (r: Self)
        requires
            resp_capacity >= 1,
        ensures
            r.wf(),
            r.is_idle(),
            r.tx_bytes() == serial_handler.tx_bytes(),
            r.rx_queued() == serial_handler.rx_queued(),
            r.accepts_writes() == serial_handler.accepts_writes(),
            r.resp().buff() == Seq::<u8>::empty(),
            forall|id: u8| !r.resp().tracking(id),
    {
        Self {
            serial_handler,
            response_handler: EspRespHandler::new(resp_capacity),
            state: AtComState::Idle,
        }
    }

    /// Accepts a command to send: it goes out on the next `update`.
    pub fn process_cmd(&mut self, cmd: EspCmd)
        requires
            old(self).wf(),
        ensures
            final(self).wf(),
            final(self).same_io(old(self)),
            final(self).is_processing(),
            final(self).spec_cmd() == cmd,
            final(self).spec_sent_at() is None,
    {
        self.state = AtComState::ProcessingCmd { t_cmd_sent: None, cmd }
    }

    /// Starts a bounded wait for an asynchronous response, from `t_us`.
    pub fn wait_for_resp(&mut self, t_us: u64)
        requires
            old(self).wf(),
        ensures
            final(self).wf(),
            final(self).same_io(old(self)),
            final(self).is_waiting(),
            final(self).spec_wait_start() == t_us,
    {
        self.state = AtComState::WaitForResp { t_start_wait: t_us }
    }

    /// Writes a raw payload through the transport; when the transport takes
    /// it, a bounded wait for the sent-banner starts at `t_us`.
    pub fn write_msg(&mut self, msg_buff: &[u8], t_us: u64)
        requires
            old(self).wf(),
        ensures
            final(self).wf(),
            final(self).rx_queued() == old(self).rx_queued(),
            final(self).accepts_writes() == old(self).accepts_writes(),
            final(self).resp() == old(self).resp(),
            old(self).accepts_writes() ==> {
                &&& final(self).tx_bytes() == old(self).tx_bytes() + msg_buff@
                &&& final(self).is_writing()
                &&& final(self).spec_write_start() == t_us
            },
            !old(self).accepts_writes() ==> {
                &&& final(self).tx_bytes() == old(self).tx_bytes()
                &&& final(self).same_state(old(self))
            },
    {
        if self.serial_handler.write_bytes(msg_buff) {
            self.state = AtComState::WrittingMsg { t_msg_sent: t_us }
        }
    }

    /// Forgets the send timestamp of the in-flight command, so the same
    /// command goes out again verbatim on the next `update`. Anywhere else
    /// this changes nothing.
    pub fn retry_cmd(&mut self)
        requires
            old(self).wf(),
        ensures
            final(self).wf(),
            final(self).same_io(old(self)),
            old(self).is_processing() ==> {
                &&& final(self).is_processing()
                &&& final(self).spec_cmd() == old(self).spec_cmd()
                &&& final(self).spec_sent_at() is None
            },
            !old(self).is_processing() ==> final(self).same_state(old(self)),
    {
        match &mut self.state {
            AtComState::ProcessingCmd { t_cmd_sent, cmd: _ } => {
                t_cmd_sent.take();
            },
            _ => {},
        }
    }

    /// The transport itself, e.g. to feed or inspect an in-memory one.
    pub fn serial_mut(&mut self) -> (r: &mut S)
        requires
            old(self).wf(),
        ensures
            r.tx_bytes() == old(self).tx_bytes(),
            r.rx_queued() == old(self).rx_queued(),
            r.accepts_writes() == old(self).accepts_writes(),
            final(self).wf(),
            final(self).same_state(old(self)),
            final(self).resp() == old(self).resp(),
            final(self).tx_bytes() == final(r).tx_bytes(),
            final(self).rx_queued() == final(r).rx_queued(),
            final(self).accepts_writes() == final(r).accepts_writes(),
    {
        &mut self.serial_handler
    }

    /// Takes the oldest queued payload of client `client_id` out of the
    /// response handler's registry.
    pub fn get_client_next_msg(&mut self, client_id: u8) -> (r: Option<
        crate::clients::ClientMessage,
    >)
        requires
            old(self).wf(),
        ensures
            final(self).wf(),
            final(self).same_state(old(self)),
            final(self).tx_bytes() == old(self).tx_bytes(),
            final(self).rx_queued() == old(self).rx_queued(),
            final(self).accepts_writes() == old(self).accepts_writes(),
            final(self).resp().same_shape(&old(self).resp()),
            final(self).resp().buff() == old(self).resp().buff(),
            forall|j: u8| final(self).resp().tracking(j) == old(self).resp().tracking(j),
            forall|j: u8|
                j != client_id && old(self).resp().tracking(j) ==> final(self).resp().queued(j)
                    == old(self).resp().queued(j),
            match r {
                Some(m) => {
                    &&& old(self).resp().tracking(client_id)
                    &&& old(self).resp().queued(client_id).len() > 0
                    &&& m@ == old(self).resp().queued(client_id)[0]
                    &&& final(self).resp().queued(client_id) == old(self).resp().queued(
                        client_id,
                    ).drop_first()
                },
                None => !old(self).resp().tracking(client_id) || old(self).resp().queued(
                    client_id,
                ).len() == 0,
            },
    {
        self.response_handler.get_client_next_msg(client_id)
    }

    /// One tick of the sequencer at time `t_us`.
    ///
    /// Idle: nothing. Waiting (for an asynchronous response or the
    /// sent-banner): report `Timeout` once the window passes, else drain and
    /// classify. A command with no send timestamp goes out now, stamped
    /// `t_us` when the transport takes it. A sent command whose window has
    /// passed with no response forgets its timestamp — the sole retry
    /// mechanism, unbounded — else received bytes are drained and the first
    /// classified response is handed back.
    pub fn update(&mut self, t_us: u64, config: &EspWifiConfig) -> (r: Option<EspRespType>)
        requires
            old(self).wf(),
        ensures
            final(self).wf(),
            final(self).resp().same_shape(&old(self).resp()),
            final(self).accepts_writes() == old(self).accepts_writes(),
            r == old(self).spec_outcome(t_us),
            r is None ==> final(self).resp().same_registry(&old(self).resp()),
            r matches Some(EspRespType::Received(resp)) ==> final(self).tx_bytes() == old(
                self,
            ).tx_bytes() && final(self).resp().buff() == Seq::<u8>::empty(),
            r matches Some(EspRespType::Received(resp)) ==> ({
                let sc = scan(
                    old(self).resp().buff(),
                    old(self).rx_queued(),
                    old(self).resp().spec_capacity(),
                );
                &&& registry_step(old(self).resp(), final(self).resp(), Some(resp), sc.3)
                &&& final(self).resp().buff() == sc.1
                &&& final(self).rx_queued() == old(self).rx_queued().skip(sc.2 as int)
            }),
            r == Some(EspRespType::Timeout) ==> (old(self).is_waiting() || old(self).is_writing())
                && final(self).resp() == old(self).resp() && final(self).rx_queued() == old(
                self,
            ).rx_queued(),
            old(self).is_idle() ==> {
                &&& r is None
                &&& final(self).same_state(old(self))
                &&& final(self).same_io(old(self))
            },
            old(self).is_waiting() ==> {
                &&& final(self).same_state(old(self))
                &&& final(self).tx_bytes() == old(self).tx_bytes()
                &&& (t_us.wrapping_sub(old(self).spec_wait_start()) > CMD_RESP_TIMEOUT_US ==> r
                    == Some(EspRespType::Timeout) && final(self).same_io(old(self)))
                &&& (t_us.wrapping_sub(old(self).spec_wait_start()) <= CMD_RESP_TIMEOUT_US ==> {
                    &&& r != Some(EspRespType::Timeout)
                    &&& (r is None ==> final(self).rx_queued().len() == 0)
                    &&& (old(self).rx_queued().len() == 0 ==> r is None && final(self).resp()
                        == old(self).resp() && final(self).rx_queued() == old(self).rx_queued())
                })
            },
            old(self).is_writing() ==> {
                &&& final(self).same_state(old(self))
                &&& final(self).tx_bytes() == old(self).tx_bytes()
                &&& (t_us.wrapping_sub(old(self).spec_write_start()) > CMD_RESP_TIMEOUT_US ==> r
                    == Some(EspRespType::Timeout) && final(self).same_io(old(self)))
                &&& (t_us.wrapping_sub(old(self).spec_write_start()) <= CMD_RESP_TIMEOUT_US ==> {
                    &&& r != Some(EspRespType::Timeout)
                    &&& (r is None ==> final(self).rx_queued().len() == 0)
                    &&& (old(self).rx_queued().len() == 0 ==> r is None && final(self).resp()
                        == old(self).resp() && final(self).rx_queued() == old(self).rx_queued())
                })
            },
            old(self).is_processing() && old(self).spec_sent_at() is None ==> {
                &&& r is None
                &&& final(self).is_processing()
                &&& final(self).spec_cmd() == old(self).spec_cmd()
                &&& final(self).rx_queued() == old(self).rx_queued()
                &&& final(self).resp() == old(self).resp()
                &&& match cmd_line(old(self).spec_cmd(), *config) {
                    Some(line) => {
                        &&& old(self).accepts_writes() ==> final(self).tx_bytes() == old(self).tx_bytes() + line && final(self).spec_sent_at() == Some(t_us)
                        &&& !old(self).accepts_writes() ==> final(self).tx_bytes() == old(self).tx_bytes() && final(self).spec_sent_at() is None
                    },
                    None => final(self).tx_bytes() == old(self).tx_bytes() && final(self).spec_sent_at() is None,
                }
            },
            old(self).is_processing() ==> (old(self).spec_sent_at() matches Some(ts) ==> {
                &&& final(self).is_processing()
                &&& final(self).spec_cmd() == old(self).spec_cmd()
                &&& final(self).tx_bytes() == old(self).tx_bytes()
                &&& (t_us.wrapping_sub(ts) > CMD_RESP_TIMEOUT_US ==> {
                    &&& r is None
                    &&& final(self).spec_sent_at() is None
                    &&& final(self).rx_queued() == old(self).rx_queued()
                    &&& final(self).resp() == old(self).resp()
                })
                &&& (t_us.wrapping_sub(ts) <= CMD_RESP_TIMEOUT_US ==> {
                    &&& final(self).spec_sent_at() == old(self).spec_sent_at()
                    &&& (match r {
                        None => final(self).rx_queued().len() == 0,
                        Some(EspRespType::Received(resp)) => final(self).resp().buff()
                            == Seq::<u8>::empty(),
                        Some(EspRespType::Timeout) => false,
                    })
                    &&& (old(self).rx_queued().len() == 0 ==> r is None && final(self).resp()
                        == old(self).resp() && final(self).rx_queued() == old(self).rx_queued())
                })
            }),
    {
        match &self.state {
            AtComState::Idle => None,
            AtComState::WaitForResp { t_start_wait } => {
                if t_us.wrapping_sub(*t_start_wait) > CMD_RESP_TIMEOUT_US {
                    Some(EspRespType::Timeout)
                } else if let Some(resp) = self.response_handler.poll(&mut self.serial_handler) {
                    Some(EspRespType::Received(resp))
                } else {
                    None
                }
            },
            AtComState::ProcessingCmd { t_cmd_sent, cmd } => {
                if let Some(t_sent) = t_cmd_sent {
                    if t_us.wrapping_sub(*t_sent) > CMD_RESP_TIMEOUT_US {
                        self.state = AtComState::ProcessingCmd { t_cmd_sent: None, cmd: *cmd };
                        None
                    } else if let Some(resp) = self.response_handler.poll(
                        &mut self.serial_handler,
                    ) {
                        Some(EspRespType::Received(resp))
                    } else {
                        None
                    }
                } else {
                    let cmd_now = *cmd;
                    let sent = cmd_now.send(&mut self.serial_handler, config);
                    if sent {
                        self.state = AtComState::ProcessingCmd {
                            t_cmd_sent: Some(t_us),
                            cmd: cmd_now,
                        };
                    }
                    None
                }
            },
            AtComState::WrittingMsg { t_msg_sent } => {
                if t_us.wrapping_sub(*t_msg_sent) > CMD_RESP_TIMEOUT_US {
                    Some(EspRespType::Timeout)
                } else if let Some(resp) = self.response_handler.poll(&mut self.serial_handler) {
                    Some(EspRespType::Received(resp))
                } else {
                    None
                }
            },
        }
    }
}

} // verus!
