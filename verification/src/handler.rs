//! The session orchestrator: one tick at a time it drives the sequencer,
//! steps the state machine on what came back, and keeps the set of
//! connected clients.

use vstd::prelude::*;

use crate::clients::{ClientMessage, MAX_CLIENT_NB};
use crate::cmd::{cmd_line, EspCmd};
use crate::com::{EspAtCom, EspRespType, CMD_RESP_TIMEOUT_US};
use crate::resp::{registry_step, scan};
use crate::serial::EspSerial;
use crate::state::{cmd_of_state, transition, EspState, EspStateHandler, StateEvent};
use crate::wifi::EspWifiConfig;

verus! {

/// No client id appears twice.
pub open spec fn no_dups(s: Seq<u8>) -> bool {
    forall|i: int, j: int| 0 <= i < j < s.len() ==> s[i] != s[j]
}

/// The connected set after a connect event: the id joins once, and a
/// duplicate or an id past the bound changes nothing.
pub open spec fn set_insert(s: Seq<u8>, id: u8, max: nat) -> Seq<u8> {
    if s.contains(id) || s.len() >= max {
        s
    } else {
        s.push(id)
    }
}

/// A connect event adds its id to the set exactly once: it is there
/// afterwards (unless the set was already full without it), a second
/// connect for the same id changes nothing, and no duplicate ever appears.
pub proof fn lemma_connect_idempotent(s: Seq<u8>, id: u8, max: nat)
    requires
        no_dups(s),
    ensures
        no_dups(set_insert(s, id, max)),
        set_insert(set_insert(s, id, max), id, max) == set_insert(s, id, max),
        s.len() < max ==> set_insert(s, id, max).contains(id),
{
    if !s.contains(id) && s.len() < max {
        let t = s.push(id);
        assert(t[s.len() as int] == id);
        assert(t.contains(id));
        assert forall|i: int, j: int| 0 <= i < j < t.len() implies t[i] != t[j] by {
            if j < s.len() {
            } else {
                assert(t[j] == id);
                assert(t[i] == s[i]);
                assert(!s.contains(id));
                assert(s[i] != id);
            }
        }
    }
}

/// Owns the sequencer, the state machine, the configuration and the
/// connected-client set; the surrounding application calls `update` once
/// per scheduler tick.
pub struct EspWifiHandler<S: EspSerial> {
    at_com_handler: EspAtCom<S>,
    state_handler: EspStateHandler,
    config: EspWifiConfig,
    connected_client: Vec<u8>,
    send_buff: Vec<u8>,
}

impl<S: EspSerial> EspWifiHandler<S> {
    pub closed spec fn com(&self) -> EspAtCom<S> {
        self.at_com_handler
    }

    pub closed spec fn spec_state(&self) -> EspState {
        self.state_handler.spec_state()
    }

    pub closed spec fn spec_sta_connected(&self) -> bool {
        self.state_handler.spec_sta_connected()
    }

    pub closed spec fn spec_sta_got_ip(&self) -> bool {
        self.state_handler.spec_sta_got_ip()
    }

    pub closed spec fn spec_config(&self) -> EspWifiConfig {
        self.config
    }

    /// The connected client ids, in order of connection.
    pub closed spec fn connected(&self) -> Seq<u8> {
        self.connected_client@
    }

    pub open spec fn is_client_connected(&self, id: u8) -> bool {
        self.connected().contains(id)
    }

    /// The payload staged for the send handshake's second phase.
    pub closed spec fn spec_send_buff(&self) -> Seq<u8> {
        self.send_buff@
    }

    pub closed spec fn wf(&self) -> bool {
        &&& self.at_com_handler.wf()
        &&& no_dups(self.connected_client@)
        &&& self.connected_client@.len() <= MAX_CLIENT_NB
        &&& self.send_buff@.len() <= 255
    }

    /// Takes the transport and the configuration; the reset command is put
    /// in flight at once, so the first `update` sends it.
    pub fn new(serial_handler: S, config: EspWifiConfig, resp_capacity: usize) -> (r: Self)
        requires
            resp_capacity >= 1,
        ensures
            r.wf(),
            r.spec_state() == EspState::Reset,
            !r.spec_sta_connected(),
            !r.spec_sta_got_ip(),
            r.spec_config() == config,
            r.connected() == Seq::<u8>::empty(),
            r.spec_send_buff() == Seq::<u8>::empty(),
            r.com().is_processing(),
            r.com().spec_cmd() == EspCmd::Reset,
            r.com().spec_sent_at() is None,
            r.com().tx_bytes() == serial_handler.tx_bytes(),
            r.com().rx_queued() == serial_handler.rx_queued(),
            r.com().accepts_writes() == serial_handler.accepts_writes(),
    {
        let state_handler = EspStateHandler::new();
        let mut at_com_handler = EspAtCom::new(serial_handler, resp_capacity);

        // the reset phase's command goes in flight before the first tick
        if let Some(cmd) = state_handler.get_cmd(&config) {
            at_com_handler.process_cmd(cmd)
        }

        Self {
            at_com_handler,
            state_handler,
            config,
            connected_client: Vec::new(),
            send_buff: Vec::new(),
        }
    }

    /// Whether `id` is in the connected set.
    fn contains_client(&self, id: u8) -> (r: bool)
        ensures
            r == self.connected().contains(id),
    {
        let mut i: usize = 0;
        while i < self.connected_client.len()
            invariant
                0 <= i <= self.connected_client@.len(),
                forall|j: int| 0 <= j < i ==> self.connected_client@[j] != id,
            decreases self.connected_client@.len() - i,
        {
            if self.connected_client[i] == id {
                return true;
            }
            i = i + 1;
        }
        false
    }

    /// Adds a connect event's id to the set, once.
    fn add_connected(&mut self, id: u8)
        requires
            old(self).wf(),
        ensures
            final(self).wf(),
            final(self).connected() == set_insert(old(self).connected(), id, MAX_CLIENT_NB as nat),
            final(self).com() == old(self).com(),
            final(self).spec_state() == old(self).spec_state(),
            final(self).spec_sta_connected() == old(self).spec_sta_connected(),
            final(self).spec_sta_got_ip() == old(self).spec_sta_got_ip(),
            final(self).spec_config() == old(self).spec_config(),
            final(self).spec_send_buff() == old(self).spec_send_buff(),
    {
        if !self.contains_client(id) && self.connected_client.len() < MAX_CLIENT_NB {
            self.connected_client.push(id);
        }
    }

    /// Removes a disconnect event's id from the set; an untracked id is a
    /// no-op.
    fn remove_connected(&mut self, id: u8)
        requires
            old(self).wf(),
        ensures
            final(self).wf(),
            final(self).connected() == old(self).connected().remove_value(id),
            final(self).com() == old(self).com(),
            final(self).spec_state() == old(self).spec_state(),
            final(self).spec_sta_connected() == old(self).spec_sta_connected(),
            final(self).spec_sta_got_ip() == old(self).spec_sta_got_ip(),
            final(self).spec_config() == old(self).spec_config(),
            final(self).spec_send_buff() == old(self).spec_send_buff(),
    {
        let mut i: usize = 0;
        while i < self.connected_client.len()
            invariant
                old(self).wf(),
                *self == *old(self),
                0 <= i <= self.connected_client@.len(),
                forall|j: int| 0 <= j < i ==> self.connected_client@[j] != id,
            decreases self.connected_client@.len() - i,
        {
            if self.connected_client[i] == id {
                let ghost pre = old(self).connected_client@;
                self.connected_client.remove(i);
                proof {
                    pre.index_of_first_ensures(id);
                    pre.remove_ensures(i as int);
                    assert(pre.index_of_first(id) == Some(i as int));
                    let post = pre.remove(i as int);
                    assert(self.connected_client@ == post);
                    assert forall|a: int, b: int| 0 <= a < b < post.len() implies post[a]
                        != post[b] by {
                        let a0: int = if a < i { a } else { a + 1 };
                        let b0: int = if b < i { b } else { b + 1 };
                        assert(post[a] == pre[a0]);
                        assert(post[b] == pre[b0]);
                        assert(pre[a0] != pre[b0]);
                    }
                    assert(no_dups(self.connected_client@));
                }
                return ;
            }
            i = i + 1;
        }
        proof {
            old(self).connected_client@.index_of_first_ensures(id);
        }
    }

    /// One step as `stepped` describes it: the machine took the `transition`
    /// for `resp`, the connected set followed a connect or disconnect event,
    /// the staged payload stayed, and the sequencer was told what the event
    /// asks — a requested command put in flight, a failed one marked for
    /// resend, a wait started at `t_us`, or the staged payload written out.
    pub open spec fn stepped(pre: Self, post: Self, resp: EspRespType, t_us: u64) -> bool {
        let (s2, c2, g2, ev) = transition(
            pre.spec_state(),
            pre.spec_sta_connected(),
            pre.spec_sta_got_ip(),
            resp,
            pre.spec_config(),
        );
        &&& post.spec_state() == s2
        &&& post.spec_sta_connected() == c2
        &&& post.spec_sta_got_ip() == g2
        &&& post.spec_config() == pre.spec_config()
        &&& post.spec_send_buff() == pre.spec_send_buff()
        &&& post.connected() == match ev {
            StateEvent::ClientConnected { client_id } => set_insert(
                pre.connected(),
                client_id,
                MAX_CLIENT_NB as nat,
            ),
            StateEvent::ClientDisconnected { client_id } => pre.connected().remove_value(
                client_id,
            ),
            _ => pre.connected(),
        }
        &&& (ev == StateEvent::CmdRequest ==> match cmd_of_state(s2, pre.spec_config()) {
            Some(c) => {
                &&& post.com().is_processing()
                &&& post.com().spec_cmd() == c
                &&& post.com().spec_sent_at() is None
            },
            None => true,
        })
        &&& (ev == StateEvent::CmdFailed && pre.com().is_processing() ==> {
            &&& post.com().is_processing()
            &&& post.com().spec_cmd() == pre.com().spec_cmd()
            &&& post.com().spec_sent_at() is None
        })
        &&& (ev == StateEvent::WaitForResp ==> post.com().is_waiting() && post.com()
            .spec_wait_start() == t_us)
        &&& (ev == StateEvent::ReadyTosendMsg && pre.com().accepts_writes() ==> post.com()
            .tx_bytes() == pre.com().tx_bytes() + pre.spec_send_buff() && post.com().is_writing())
        &&& (resp is Received ==> post.com().tx_bytes() == pre.com().tx_bytes() || (ev
            == StateEvent::ReadyTosendMsg))
    }

    /// One scheduler tick at time `t_us`: polls the sequencer and, when a
    /// response or timeout came back, steps the state machine and performs
    /// what the event asks. `true` exactly when something came back.
    pub fn update(&mut self, t_us: u64) -> (r: bool)
        requires
            old(self).wf(),
        ensures
            final(self).wf(),
            final(self).spec_config() == old(self).spec_config(),
            !r ==> {
                &&& final(self).spec_state() == old(self).spec_state()
                &&& final(self).spec_sta_connected() == old(self).spec_sta_connected()
                &&& final(self).spec_sta_got_ip() == old(self).spec_sta_got_ip()
                &&& final(self).connected() == old(self).connected()
                &&& final(self).spec_send_buff() == old(self).spec_send_buff()
            },
            r == (old(self).com().spec_outcome(t_us) is Some),
            old(self).com().spec_outcome(t_us) matches Some(resp) ==> Self::stepped(
                *old(self),
                *final(self),
                resp,
                t_us,
            ),
            !r ==> final(self).com().resp().same_registry(&old(self).com().resp()),
            old(self).com().spec_outcome(t_us) matches Some(EspRespType::Received(e))
                ==> registry_step(
                old(self).com().resp(),
                final(self).com().resp(),
                Some(e),
                scan(
                    old(self).com().resp().buff(),
                    old(self).com().rx_queued(),
                    old(self).com().resp().spec_capacity(),
                ).3,
            ),
            old(self).com().spec_outcome(t_us) == Some(EspRespType::Timeout) ==> final(self).com().resp() == old(self).com().resp(),
            old(self).com().is_idle() ==> !r && final(self).com().same_state(&old(self).com())
                && final(self).com().same_io(&old(self).com()),
            (old(self).com().is_processing() && old(self).com().spec_sent_at() is None) ==> {
                &&& !r
                &&& final(self).com().is_processing()
                &&& final(self).com().spec_cmd() == old(self).com().spec_cmd()
                &&& match cmd_line(old(self).com().spec_cmd(), old(self).spec_config()) {
                    Some(line) => {
                        &&& old(self).com().accepts_writes() ==> final(self).com().tx_bytes()
                            == old(self).com().tx_bytes() + line && final(self).com().spec_sent_at()
                            == Some(t_us)
                        &&& !old(self).com().accepts_writes() ==> final(self).com().tx_bytes()
                            == old(self).com().tx_bytes() && final(self).com().spec_sent_at()
                            is None
                    },
                    None => final(self).com().tx_bytes() == old(self).com().tx_bytes() && final(self).com().spec_sent_at() is None,
                }
            },
            old(self).com().is_processing() ==> (old(self).com().spec_sent_at() matches Some(ts)
                ==> (t_us.wrapping_sub(ts) > CMD_RESP_TIMEOUT_US ==> {
                &&& !r
                &&& final(self).com().is_processing()
                &&& final(self).com().spec_cmd() == old(self).com().spec_cmd()
                &&& final(self).com().spec_sent_at() is None
                &&& final(self).com().tx_bytes() == old(self).com().tx_bytes()
            })),
            (old(self).com().is_waiting() && t_us.wrapping_sub(old(self).com().spec_wait_start())
                > CMD_RESP_TIMEOUT_US) ==> r,
            (old(self).com().is_writing() && t_us.wrapping_sub(old(self).com().spec_write_start())
                > CMD_RESP_TIMEOUT_US) ==> r,
    {
        let resp_opt = self.at_com_handler.update(t_us, &self.config);
        match resp_opt {
            None => false,
            Some(resp) => {
                let event = self.state_handler.update(&resp, &self.config);
                match event {
                    StateEvent::Nothing => {},
                    StateEvent::CmdRequest => {
                        if let Some(cmd) = self.state_handler.get_cmd(&self.config) {
                            self.at_com_handler.process_cmd(cmd)
                        }
                    },
                    StateEvent::CmdFailed => self.at_com_handler.retry_cmd(),
                    StateEvent::WaitForResp => self.at_com_handler.wait_for_resp(t_us),
                    StateEvent::ClientConnected { client_id } => {
                        self.add_connected(client_id);
                    },
                    StateEvent::ClientMsg { client_id: _ } => {
                        // the payload already sits in the registry; the
                        // caller retrieves it with `get_client_next_msg`
                    },
                    StateEvent::ClientDisconnected { client_id } => {
                        self.remove_connected(client_id);
                    },
                    StateEvent::ReadyTosendMsg => {
                        let payload = self.take_send_buff_copy();
                        self.at_com_handler.write_msg(payload.as_slice(), t_us);
                    },
                    StateEvent::MsgSent => {},
                }
                proof {
                    assert(Self::stepped(*old(self), *final(self), resp, t_us));
                }
                true
            },
        }
    }

    /// A copy of the staged payload, for the raw write.
    fn take_send_buff_copy(&self) -> (r: Vec<u8>)
        ensures
            r@ == self.spec_send_buff(),
    {
        let mut out: Vec<u8> = Vec::new();
        out.extend_from_slice(self.send_buff.as_slice());
        proof {
            assert(out@ =~= self.spec_send_buff());
        }
        out
    }

    /// Stages a payload for `client_id` and puts the begin-send command in
    /// flight: the handshake's first phase.
    pub fn send_buff_to_client(&mut self, client_id: u8, buff: &[u8])
        requires
            old(self).wf(),
            buff@.len() <= 255,
        ensures
            final(self).wf(),
            final(self).spec_send_buff() == buff@,
            final(self).spec_state() == (EspState::SendingMsg {
                client_id,
                buff_len: buff@.len() as u8,
            }),
            final(self).com().is_processing(),
            final(self).com().spec_cmd() == (EspCmd::StartMsgSend {
                client_id,
                msg_len: buff@.len() as u8,
            }),
            final(self).com().spec_sent_at() is None,
            final(self).spec_config() == old(self).spec_config(),
            final(self).connected() == old(self).connected(),
    {
        let mut staged: Vec<u8> = Vec::new();
        staged.extend_from_slice(buff);
        proof {
            assert(staged@ =~= buff@);
        }
        self.send_buff = staged;

        let buff_len = buff.len();
        let cmd = self.state_handler.start_msg_send_cmd(client_id, buff_len as u8);
        self.at_com_handler.process_cmd(cmd)
    }

    /// Takes the oldest queued payload of client `id`, `None` when the
    /// client is untracked or its queue is empty.
    pub fn get_client_next_msg(&mut self, client_id: u8) -> (r: Option<ClientMessage>)
        requires
            old(self).wf(),
        ensures
            final(self).wf(),
            final(self).spec_state() == old(self).spec_state(),
            final(self).connected() == old(self).connected(),
            final(self).spec_config() == old(self).spec_config(),
            match r {
                Some(m) => {
                    &&& old(self).com().resp().tracking(client_id)
                    &&& old(self).com().resp().queued(client_id).len() > 0
                    &&& m@ == old(self).com().resp().queued(client_id)[0]
                    &&& final(self).com().resp().queued(client_id) == old(self).com().resp().queued(
                        client_id,
                    ).drop_first()
                },
                None => !old(self).com().resp().tracking(client_id) || old(self).com().resp()
                    .queued(client_id).len() == 0,
            },
    {
        self.at_com_handler.get_client_next_msg(client_id)
    }

    /// The transport itself, e.g. to feed or inspect an in-memory one.
    pub fn serial_mut(&mut self) -> (r: &mut S)
        requires
            old(self).wf(),
        ensures
            r.tx_bytes() == old(self).com().tx_bytes(),
            r.rx_queued() == old(self).com().rx_queued(),
            r.accepts_writes() == old(self).com().accepts_writes(),
            final(self).wf(),
            final(self).spec_state() == old(self).spec_state(),
            final(self).spec_sta_connected() == old(self).spec_sta_connected(),
            final(self).spec_sta_got_ip() == old(self).spec_sta_got_ip(),
            final(self).spec_config() == old(self).spec_config(),
            final(self).connected() == old(self).connected(),
            final(self).spec_send_buff() == old(self).spec_send_buff(),
            final(self).com().same_state(&old(self).com()),
            final(self).com().resp() == old(self).com().resp(),
            final(self).com().tx_bytes() == final(r).tx_bytes(),
            final(self).com().rx_queued() == final(r).rx_queued(),
            final(self).com().accepts_writes() == final(r).accepts_writes(),
    {
        self.at_com_handler.serial_mut()
    }

    /// How many clients are connected.
    pub fn connected_count(&self) -> (r: usize)
        ensures
            r == self.connected().len(),
    {
        self.connected_client.len()
    }

    /// Whether `id` is in the connected set.
    pub fn client_is_connected(&self, id: u8) -> (r: bool)
        ensures
            r == self.is_client_connected(id),
    {
        self.contains_client(id)
    }

    pub fn is_ready(&self) -> (r: bool)
        ensures
            r == (self.spec_state() == EspState::Ready),
    {
        self.state_handler.is_ready()
    }
}

} // verus!
