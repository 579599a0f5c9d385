//! The response classifier: recognises the co-processor's terminal marker
//! lines and client-event lines in the sliding receive buffer, and extracts
//! client id and payload from client-message lines.

use vstd::prelude::*;
use vstd::slice::{slice_index_get, slice_subrange, slice_to_vec};
use vstd::string::StringSliceAdditionalSpecFns;

use crate::clients::{
    enqueued, truncated, ClientMessage, ClientsMessages, MAX_CLIENT_MSGS, MAX_CLIENT_NB,
};
use crate::serial::EspSerial;

verus! {

/// A classified inbound line.
#[derive(Debug, Clone, Copy, PartialEq, Eq, Structural)]
pub enum EspResp {
    Ready,
    Okay,
    StaConnected,
    StaDisconnected,
    StaGotIp,
    ClientConnected(u8),
    ClientDisconnected(u8),
    ClientMsg(u8),
    MsgSent,
    Error,
    Fail,
}

/// `s` ends in `suffix`.
pub open spec fn ends_with(s: Seq<u8>, suffix: Seq<u8>) -> bool {
    s.len() >= suffix.len() && s.subrange(s.len() - suffix.len(), s.len() as int) == suffix
}

pub open spec fn is_crlf_byte(b: u8) -> bool {
    b == 13 || b == 10
}

/// `s` without its leading carriage-return and line-feed bytes.
pub open spec fn trim_crlf(s: Seq<u8>) -> Seq<u8>
    decreases s.len(),
{
    if s.len() > 0 && is_crlf_byte(s[0]) {
        trim_crlf(s.drop_first())
    } else {
        s
    }
}

/// Position of the first occurrence of `b` in `s`, or `s.len()` when absent.
pub open spec fn find_pos(s: Seq<u8>, b: u8) -> int
    decreases s.len(),
{
    if s.len() == 0 {
        0
    } else if s[0] == b {
        0
    } else {
        1 + find_pos(s.drop_first(), b)
    }
}

pub proof fn lemma_find_pos(s: Seq<u8>, b: u8)
    ensures
        0 <= find_pos(s, b) <= s.len(),
        find_pos(s, b) < s.len() ==> s[find_pos(s, b)] == b,
        forall|i: int| 0 <= i < find_pos(s, b) ==> s[i] != b,
    decreases s.len(),
{
    if s.len() == 0 {
    } else if s[0] == b {
    } else {
        let t = s.drop_first();
        lemma_find_pos(t, b);
        assert forall|i: int| 0 <= i < find_pos(s, b) implies s[i] != b by {
            if i > 0 {
                assert(s[i] == t[i - 1]);
            }
        }
    }
}

/// Every byte is an ASCII decimal digit, and there is at least one.
pub open spec fn is_dec_digits(s: Seq<u8>) -> bool {
    s.len() > 0 && forall|i: int| 0 <= i < s.len() ==> 48 <= #[trigger] s[i] <= 57
}

/// The number the digit bytes spell, most significant first.
pub open spec fn dec_value(s: Seq<u8>) -> int
    decreases s.len(),
{
    if s.len() == 0 {
        0
    } else {
        dec_value(s.drop_last()) * 10 + s.last() - 48
    }
}

/// The value of a digit string as an unsigned byte: `None` on a non-digit
/// byte, an empty string, or a value past 255.
pub open spec fn parse_u8(s: Seq<u8>) -> Option<u8> {
    if is_dec_digits(s) && 0 <= dec_value(s) <= 255 {
        Some(dec_value(s) as u8)
    } else {
        None
    }
}

proof fn lemma_dec_grows(s: Seq<u8>, i: int)
    requires
        0 <= i <= s.len(),
        dec_value(s.take(i)) > 255,
    ensures
        dec_value(s) > 255,
    decreases s.len() - i,
{
    if i == s.len() {
        assert(s.take(i) =~= s);
    } else {
        assert(s.take(i + 1).drop_last() =~= s.take(i));
        assert(s.take(i + 1).last() == s[i]);
        assert(dec_value(s.take(i + 1)) == dec_value(s.take(i)) * 10 + s[i] - 48);
        lemma_dec_grows(s, i + 1);
    }
}

/// The markers the classifier recognises, each a whole terminal line.
pub open spec fn marker_ready() -> Seq<u8> {
    "ready\r\n".spec_bytes()
}

pub open spec fn marker_ok() -> Seq<u8> {
    "OK\r\n".spec_bytes()
}

pub open spec fn marker_error() -> Seq<u8> {
    "ERROR\r\n".spec_bytes()
}

pub open spec fn marker_fail() -> Seq<u8> {
    "FAIL\r\n".spec_bytes()
}

pub open spec fn marker_sta_connected() -> Seq<u8> {
    "WIFI CONNECTED\r\n".spec_bytes()
}

pub open spec fn marker_sta_disconnected() -> Seq<u8> {
    "WIFI DISCONNECT\r\n".spec_bytes()
}

pub open spec fn marker_sta_got_ip() -> Seq<u8> {
    "WIFI GOT IP\r\n".spec_bytes()
}

pub open spec fn marker_client_connected() -> Seq<u8> {
    ",CONNECT\r\n".spec_bytes()
}

pub open spec fn marker_client_disconnected() -> Seq<u8> {
    ",CLOSED\r\n".spec_bytes()
}

pub open spec fn marker_msg_sent() -> Seq<u8> {
    "SEND OK\r\n".spec_bytes()
}

/// Prefix of a client-message line, after leading CR LF bytes.
pub open spec fn ipd_prefix() -> Seq<u8> {
    "+IPD,".spec_bytes()
}

/// The client id spelled before the first comma of an event line, leading
/// CR LF bytes ignored.
pub open spec fn event_client_id(b: Seq<u8>) -> Option<u8> {
    let t = trim_crlf(b);
    parse_u8(t.take(find_pos(t, 44)))
}

/// The buffer opens (after CR LF bytes) with the client-message prefix.
pub open spec fn has_ipd_prefix(b: Seq<u8>) -> bool {
    let t = trim_crlf(b);
    t.len() >= ipd_prefix().len() && t.take(ipd_prefix().len() as int) == ipd_prefix()
}

/// Client id and payload of a complete client-message line
/// `+IPD,<id>,<len>:<payload>`: the declared length must equal the byte
/// count present after the colon (up to the next colon or comma), and the id
/// must spell an unsigned byte; otherwise nothing is extracted.
pub open spec fn parse_ipd(b: Seq<u8>) -> Option<(u8, Seq<u8>)> {
    if !has_ipd_prefix(b) {
        None
    } else {
        let t = trim_crlf(b);
        let rest = t.skip(ipd_prefix().len() as int);
        let p1 = find_pos(rest, 44);
        if p1 == rest.len() {
            None
        } else {
            let id_part = rest.take(p1);
            let after = rest.skip(p1 + 1);
            let seg = after.take(find_pos(after, 44));
            let pc = find_pos(seg, 58);
            if pc == seg.len() {
                None
            } else {
                let len_part = seg.take(pc);
                let sub = seg.skip(pc + 1);
                let data = sub.take(find_pos(sub, 58));
                match parse_u8(len_part) {
                    Some(n) => if data.len() == n {
                        match parse_u8(id_part) {
                            Some(id) => Some((id, data)),
                            None => None,
                        }
                    } else {
                        None
                    },
                    None => None,
                }
            }
        }
    }
}

/// The classification of the buffer against the terminal markers, tried in
/// this order; the sent-banner is tried before the plain success banner,
/// which it ends in. Client-message extraction is separate (`parse_ipd`).
pub open spec fn classify_terminal(b: Seq<u8>) -> Option<EspResp> {
    if ends_with(b, marker_ready()) {
        Some(EspResp::Ready)
    } else if ends_with(b, marker_msg_sent()) {
        Some(EspResp::MsgSent)
    } else if ends_with(b, marker_ok()) {
        Some(EspResp::Okay)
    } else if ends_with(b, marker_error()) {
        Some(EspResp::Error)
    } else if ends_with(b, marker_fail()) {
        Some(EspResp::Fail)
    } else if ends_with(b, marker_client_connected()) {
        match event_client_id(b) {
            Some(id) => Some(EspResp::ClientConnected(id)),
            None => None,
        }
    } else if ends_with(b, marker_client_disconnected()) {
        match event_client_id(b) {
            Some(id) => Some(EspResp::ClientDisconnected(id)),
            None => None,
        }
    } else if ends_with(b, marker_sta_connected()) {
        Some(EspResp::StaConnected)
    } else if ends_with(b, marker_sta_disconnected()) {
        Some(EspResp::StaDisconnected)
    } else if ends_with(b, marker_sta_got_ip()) {
        Some(EspResp::StaGotIp)
    } else {
        None
    }
}

/// Whether the buffer ends in the given marker.
fn tail_matches(buf: &[u8], pat: &[u8]) -> (r: bool)
    ensures
        r == ends_with(buf@, pat@),
{
    let n = buf.len();
    let m = pat.len();
    if m > n {
        return false;
    }
    let start = n - m;
    let mut i: usize = 0;
    while i < m
        invariant
            0 <= i <= m,
            m <= n,
            n == buf@.len(),
            m == pat@.len(),
            start == n - m,
            forall|j: int| 0 <= j < i ==> buf@[start + j] == pat@[j],
        decreases m - i,
    {
        if *slice_index_get(buf, start + i) != *slice_index_get(pat, i) {
            assert(buf@.subrange(start as int, n as int)[i as int] != pat@[i as int]);
            return false;
        }
        i = i + 1;
    }
    proof {
        assert(buf@.subrange(start as int, n as int) =~= pat@);
    }
    true
}

/// How many leading CR LF bytes the buffer carries.
fn trim_start(buf: &[u8]) -> (k: usize)
    ensures
        k <= buf@.len(),
        trim_crlf(buf@) == buf@.skip(k as int),
        k < buf@.len() ==> !is_crlf_byte(buf@[k as int]),
{
    let mut k: usize = 0;
    while k < buf.len() && (*slice_index_get(buf, k) == 13 || *slice_index_get(buf, k) == 10)
        invariant
            0 <= k <= buf@.len(),
            forall|i: int| 0 <= i < k ==> is_crlf_byte(buf@[i]),
        decreases buf@.len() - k,
    {
        k = k + 1;
    }
    proof {
        lemma_trim_skip(buf@, k as int);
        if k < buf@.len() {
            assert(trim_crlf(buf@.skip(k as int)) == buf@.skip(k as int)) by {
                assert(buf@.skip(k as int).len() > 0);
                assert(buf@.skip(k as int)[0] == buf@[k as int]);
            }
        } else {
            assert(buf@.skip(k as int) =~= Seq::<u8>::empty());
        }
    }
    k
}

proof fn lemma_trim_skip(s: Seq<u8>, k: int)
    requires
        0 <= k <= s.len(),
        forall|i: int| 0 <= i < k ==> is_crlf_byte(s[i]),
    ensures
        trim_crlf(s) == trim_crlf(s.skip(k)),
    decreases k,
{
    if k == 0 {
        assert(s.skip(0) =~= s);
    } else {
        assert(is_crlf_byte(s[0]));
        let t = s.drop_first();
        assert forall|i: int| 0 <= i < k - 1 implies is_crlf_byte(t[i]) by {
            assert(t[i] == s[i + 1]);
        }
        lemma_trim_skip(t, k - 1);
        assert(t.skip(k - 1) =~= s.skip(k));
    }
}

/// Position of the first occurrence of `b`, or the length when absent.
fn find_byte(buf: &[u8], b: u8) -> (p: usize)
    ensures
        p == find_pos(buf@, b),
{
    let mut i: usize = 0;
    while i < buf.len()
        invariant
            0 <= i <= buf@.len(),
            forall|j: int| 0 <= j < i ==> buf@[j] != b,
        decreases buf@.len() - i,
    {
        if *slice_index_get(buf, i) == b {
            proof {
                lemma_find_pos(buf@, b);
            }
            return i;
        }
        i = i + 1;
    }
    proof {
        lemma_find_pos(buf@, b);
    }
    i
}

/// The unsigned byte spelled by a decimal digit string: `None` on any
/// non-digit byte, an empty string, or a value past 255.
pub fn get_u8_from_slice(slice: &[u8]) -> (r: Option<u8>)
    ensures
        r == parse_u8(slice@),
{
    let n = slice.len();
    if n == 0 {
        return None;
    }
    let mut acc: u32 = 0;
    let mut i: usize = 0;
    while i < n
        invariant
            0 <= i <= n,
            n == slice@.len(),
            forall|j: int| 0 <= j < i ==> 48 <= #[trigger] slice@[j] <= 57,
            acc == dec_value(slice@.take(i as int)),
            acc <= 255,
        decreases n - i,
    {
        let b = *slice_index_get(slice, i);
        if b < 48 || b > 57 {
            return None;
        }
        proof {
            assert(slice@.take(i + 1).drop_last() =~= slice@.take(i as int));
            assert(slice@.take(i + 1).last() == slice@[i as int]);
        }
        let next: u32 = acc * 10 + (b - 48) as u32;
        if next > 255 {
            proof {
                lemma_dec_grows(slice@, i + 1);
            }
            return None;
        }
        acc = next;
        i = i + 1;
    }
    proof {
        assert(slice@.take(n as int) =~= slice@);
    }
    Some(acc as u8)
}

/// The client id of an event line: the digits before the first comma,
/// leading CR LF bytes ignored.
fn extract_event_client_id(buf: &[u8]) -> (r: Option<u8>)
    ensures
        r == event_client_id(buf@),
{
    let st = trim_start(buf);
    let t = slice_subrange(buf, st, buf.len());
    let p = find_byte(t, 44);
    proof {
        lemma_find_pos(t@, 44);
    }
    let id_part = slice_subrange(t, 0, p);
    proof {
        assert(id_part@ =~= t@.take(find_pos(t@, 44)));
    }
    get_u8_from_slice(id_part)
}

/// Whether the buffer opens with the given prefix.
fn head_matches(buf: &[u8], pat: &[u8]) -> (r: bool)
    ensures
        r == (buf@.len() >= pat@.len() && buf@.take(pat@.len() as int) == pat@),
{
    let m = pat.len();
    if m > buf.len() {
        return false;
    }
    let mut i: usize = 0;
    while i < m
        invariant
            0 <= i <= m,
            m <= buf@.len(),
            m == pat@.len(),
            forall|j: int| 0 <= j < i ==> buf@[j] == pat@[j],
        decreases m - i,
    {
        if *slice_index_get(buf, i) != *slice_index_get(pat, i) {
            assert(buf@.take(m as int)[i as int] != pat@[i as int]);
            return false;
        }
        i = i + 1;
    }
    proof {
        assert(buf@.take(m as int) =~= pat@);
    }
    true
}

/// Client id and payload of a complete client-message line, exactly as
/// `parse_ipd` reads it.
fn extract_ipd(buf: &[u8]) -> (r: Option<(u8, Vec<u8>)>)
    ensures
        match r {
            Some(p) => parse_ipd(buf@) == Some((p.0, p.1@)),
            None => parse_ipd(buf@) is None,
        },
{
    let st = trim_start(buf);
    let t = slice_subrange(buf, st, buf.len());
    let pat = "+IPD,".as_bytes();
    if !head_matches(t, pat) {
        return None;
    }
    let rest = slice_subrange(t, pat.len(), t.len());
    proof {
        assert(rest@ =~= trim_crlf(buf@).skip(ipd_prefix().len() as int));
    }
    let p1 = find_byte(rest, 44);
    proof {
        lemma_find_pos(rest@, 44);
    }
    if p1 == rest.len() {
        return None;
    }
    let id_part = slice_subrange(rest, 0, p1);
    let after = slice_subrange(rest, p1 + 1, rest.len());
    proof {
        assert(id_part@ =~= rest@.take(p1 as int));
        assert(after@ =~= rest@.skip(p1 + 1));
        lemma_find_pos(after@, 44);
    }
    let p2 = find_byte(after, 44);
    let seg = slice_subrange(after, 0, p2);
    proof {
        assert(seg@ =~= after@.take(find_pos(after@, 44)));
        lemma_find_pos(seg@, 58);
    }
    let pc = find_byte(seg, 58);
    if pc == seg.len() {
        return None;
    }
    let len_part = slice_subrange(seg, 0, pc);
    let sub = slice_subrange(seg, pc + 1, seg.len());
    proof {
        assert(len_part@ =~= seg@.take(pc as int));
        assert(sub@ =~= seg@.skip(pc + 1));
        lemma_find_pos(sub@, 58);
    }
    let pd = find_byte(sub, 58);
    let data = slice_subrange(sub, 0, pd);
    proof {
        assert(data@ =~= sub@.take(find_pos(sub@, 58)));
    }
    match get_u8_from_slice(len_part) {
        Some(n) => {
            if data.len() == n as usize {
                match get_u8_from_slice(id_part) {
                    Some(id) => Some((id, slice_to_vec(data))),
                    None => None,
                }
            } else {
                None
            }
        },
        None => None,
    }
}

/// Classification of a byte buffer against the terminal markers, in their
/// fixed order.
pub fn classify_resp(buf: &[u8]) -> (r: Option<EspResp>)
    ensures
        r == classify_terminal(buf@),
{
    if tail_matches(buf, "ready\r\n".as_bytes()) {
        Some(EspResp::Ready)
    } else if tail_matches(buf, "SEND OK\r\n".as_bytes()) {
        Some(EspResp::MsgSent)
    } else if tail_matches(buf, "OK\r\n".as_bytes()) {
        Some(EspResp::Okay)
    } else if tail_matches(buf, "ERROR\r\n".as_bytes()) {
        Some(EspResp::Error)
    } else if tail_matches(buf, "FAIL\r\n".as_bytes()) {
        Some(EspResp::Fail)
    } else if tail_matches(buf, ",CONNECT\r\n".as_bytes()) {
        match extract_event_client_id(buf) {
            Some(id) => Some(EspResp::ClientConnected(id)),
            None => None,
        }
    } else if tail_matches(buf, ",CLOSED\r\n".as_bytes()) {
        match extract_event_client_id(buf) {
            Some(id) => Some(EspResp::ClientDisconnected(id)),
            None => None,
        }
    } else if tail_matches(buf, "WIFI CONNECTED\r\n".as_bytes()) {
        Some(EspResp::StaConnected)
    } else if tail_matches(buf, "WIFI DISCONNECT\r\n".as_bytes()) {
        Some(EspResp::StaDisconnected)
    } else if tail_matches(buf, "WIFI GOT IP\r\n".as_bytes()) {
        Some(EspResp::StaGotIp)
    } else {
        None
    }
}

} // verus!

// The handler around the classifier: the sliding receive window and the
// per-client queues the extracted payloads land in.

verus! {

/// The receive window after one more byte: the oldest byte leaves when the
/// window is full.
pub open spec fn slid(buf: Seq<u8>, b: u8, cap: nat) -> Seq<u8> {
    if buf.len() < cap {
        buf.push(b)
    } else {
        buf.drop_first().push(b)
    }
}

/// One poll pass of the classifier over queued bytes, as a pure function:
/// each byte slides into the window and the terminal markers are tried at
/// once; the first match ends the pass with the window cleared. When the
/// source runs dry, client-message extraction is tried on the window, which
/// it also clears on success. The result: the event, the window afterwards,
/// how many bytes were taken, and the extracted client message if one was.
pub open spec fn scan(window: Seq<u8>, bytes: Seq<u8>, cap: nat) -> (
    Option<EspResp>,
    Seq<u8>,
    nat,
    Option<(u8, Seq<u8>)>,
)
    decreases bytes.len(),
{
    if bytes.len() == 0 {
        match parse_ipd(window) {
            Some(p) => (Some(EspResp::ClientMsg(p.0)), Seq::<u8>::empty(), 0nat, Some(p)),
            None => (Option::<EspResp>::None, window, 0nat, Option::<(u8, Seq<u8>)>::None),
        }
    } else {
        let w2 = slid(window, bytes[0], cap);
        match classify_terminal(w2) {
            Some(e) => (Some(e), Seq::<u8>::empty(), 1nat, Option::<(u8, Seq<u8>)>::None),
            None => {
                let rest = scan(w2, bytes.drop_first(), cap);
                (rest.0, rest.1, (rest.2 + 1) as nat, rest.3)
            },
        }
    }
}

/// Drains the transport's received bytes through the classifier and owns the
/// registry of per-client message queues.
pub struct EspRespHandler {
    resp_buff: Vec<u8>,
    resp_capacity: usize,
    clients_msgs: ClientsMessages,
}

/// How the registry of per-client queues moves under one classified event:
/// a connect starts a queue (once, within the client bound), a disconnect
/// drops one, a client message appends its extracted payload to the
/// sender's queue (dropped for an untracked sender), and anything else
/// leaves every queue alone.
pub open spec fn registry_step(
    pre: EspRespHandler,
    post: EspRespHandler,
    r: Option<EspResp>,
    msg: Option<(u8, Seq<u8>)>,
) -> bool {
    match r {
        Some(EspResp::ClientConnected(id)) => {
            &&& forall|j: u8| j != id ==> post.tracking(j) == pre.tracking(j)
            &&& forall|j: u8| j != id && pre.tracking(j) ==> post.queued(j) == pre.queued(j)
            &&& (!pre.tracking(id) && pre.client_count() < pre.spec_max_clients()) ==> {
                &&& post.tracking(id)
                &&& post.queued(id) == Seq::<Seq<u8>>::empty()
                &&& post.client_count() == pre.client_count() + 1
            }
            &&& (pre.tracking(id) || pre.client_count() == pre.spec_max_clients())
                ==> post.same_registry(&pre)
        },
        Some(EspResp::ClientDisconnected(id)) => {
            &&& !post.tracking(id)
            &&& forall|j: u8| j != id ==> post.tracking(j) == pre.tracking(j)
            &&& forall|j: u8| j != id && pre.tracking(j) ==> post.queued(j) == pre.queued(j)
            &&& post.client_count() == if pre.tracking(id) {
                pre.client_count() - 1
            } else {
                pre.client_count() as int
            }
        },
        Some(EspResp::ClientMsg(id)) => match msg {
            Some(p) => {
                &&& p.0 == id
                &&& forall|j: u8| post.tracking(j) == pre.tracking(j)
                &&& post.client_count() == pre.client_count()
                &&& forall|j: u8| j != id && pre.tracking(j) ==> post.queued(j) == pre.queued(j)
                &&& pre.tracking(id) ==> post.queued(id) == enqueued(
                    pre.queued(id),
                    truncated(p.1, pre.spec_msg_capacity()),
                    pre.spec_max_msgs(),
                )
                &&& !pre.tracking(id) ==> post.same_registry(&pre)
            },
            None => false,
        },
        _ => post.same_registry(&pre),
    }
}

impl EspRespHandler {
    /// The classification window: the most recent received bytes.
    pub closed spec fn buff(&self) -> Seq<u8> {
        self.resp_buff@
    }

    pub closed spec fn spec_capacity(&self) -> nat {
        self.resp_capacity as nat
    }

    /// Whether a message queue exists for client `id`.
    pub closed spec fn tracking(&self, id: u8) -> bool {
        self.clients_msgs.tracks(id)
    }

    /// The queued payloads of client `id`, oldest first.
    pub closed spec fn queued(&self, id: u8) -> Seq<Seq<u8>> {
        self.clients_msgs.msgs_of(id)
    }

    pub closed spec fn client_count(&self) -> nat {
        self.clients_msgs.client_count()
    }

    pub closed spec fn spec_max_clients(&self) -> nat {
        self.clients_msgs.spec_max_clients()
    }

    pub closed spec fn spec_max_msgs(&self) -> nat {
        self.clients_msgs.spec_max_msgs()
    }

    pub closed spec fn spec_msg_capacity(&self) -> nat {
        self.clients_msgs.spec_msg_capacity()
    }

    pub closed spec fn wf(&self) -> bool {
        &&& self.resp_capacity >= 1
        &&& self.resp_buff@.len() <= self.resp_capacity
        &&& self.clients_msgs.wf()
    }

    /// The registry bounds and window capacity, kept across every call.
    pub open spec fn same_shape(&self, other: &Self) -> bool {
        &&& self.spec_capacity() == other.spec_capacity()
        &&& self.spec_max_clients() == other.spec_max_clients()
        &&& self.spec_max_msgs() == other.spec_max_msgs()
        &&& self.spec_msg_capacity() == other.spec_msg_capacity()
    }

    /// Nothing tracked changes: same clients, same queues.
    pub open spec fn same_registry(&self, other: &Self) -> bool {
        &&& self.client_count() == other.client_count()
        &&& forall|j: u8| self.tracking(j) == other.tracking(j)
        &&& forall|j: u8| other.tracking(j) ==> self.queued(j) == other.queued(j)
    }

    /// An empty window of `resp_capacity` bytes; payloads are truncated to
    /// the same capacity, under the default client and queue bounds.
    pub fn new(resp_capacity: usize) -> (r: Self)
        requires
            resp_capacity >= 1,
        ensures
            r.wf(),
            r.buff() == Seq::<u8>::empty(),
            r.spec_capacity() == resp_capacity,
            r.client_count() == 0,
            forall|id: u8| !r.tracking(id),
            r.spec_max_clients() == MAX_CLIENT_NB,
            r.spec_max_msgs() == MAX_CLIENT_MSGS,
            r.spec_msg_capacity() == resp_capacity,
    {
        Self {
            resp_buff: Vec::new(),
            resp_capacity,
            clients_msgs: ClientsMessages::new(MAX_CLIENT_NB, MAX_CLIENT_MSGS, resp_capacity),
        }
    }

    /// The bytes currently in the classification window.
    pub fn get_resp_buff(&self) -> (r: &[u8])
        ensures
            r@ == self.buff(),
    {
        self.resp_buff.as_slice()
    }

    /// Empties the classification window.
    pub fn clear_buff(&mut self)
        requires
            old(self).wf(),
        ensures
            final(self).wf(),
            final(self).same_shape(old(self)),
            final(self).same_registry(old(self)),
            final(self).buff() == Seq::<u8>::empty(),
    {
        self.resp_buff.clear();
    }

    /// Slides one byte into the window, evicting the oldest when full.
    fn push_byte(&mut self, b: u8)
        requires
            old(self).wf(),
        ensures
            final(self).wf(),
            final(self).same_shape(old(self)),
            final(self).same_registry(old(self)),
            final(self).buff() == slid(old(self).buff(), b, old(self).spec_capacity()),
    {
        if self.resp_buff.len() >= self.resp_capacity {
            self.resp_buff.remove(0);
            self.resp_buff.push(b);
            proof {
                assert(final(self).buff() =~= old(self).buff().drop_first().push(b));
            }
        } else {
            self.resp_buff.push(b);
        }
    }

    /// Classifies the window against the terminal markers and applies the
    /// matched event: connect and disconnect events update the registry, and
    /// any match clears the window.
    fn check_terminal(&mut self) -> (r: Option<EspResp>)
        requires
            old(self).wf(),
        ensures
            final(self).wf(),
            final(self).same_shape(old(self)),
            r == classify_terminal(old(self).buff()),
            r is Some ==> final(self).buff() == Seq::<u8>::empty(),
            r is None ==> *final(self) == *old(self),
            match r {
                Some(EspResp::ClientConnected(id)) => {
                    &&& (old(self).tracking(id) || old(self).client_count() == old(
                        self,
                    ).spec_max_clients()) ==> final(self).same_registry(old(self))
                    &&& (!old(self).tracking(id) && old(self).client_count() < old(
                        self,
                    ).spec_max_clients()) ==> {
                        &&& final(self).tracking(id)
                        &&& final(self).queued(id) == Seq::<Seq<u8>>::empty()
                        &&& final(self).client_count() == old(self).client_count() + 1
                    }
                    &&& forall|j: u8| j != id ==> final(self).tracking(j) == old(self).tracking(j)
                    &&& forall|j: u8|
                        j != id && old(self).tracking(j) ==> final(self).queued(j) == old(
                            self,
                        ).queued(j)
                },
                Some(EspResp::ClientDisconnected(id)) => {
                    &&& !final(self).tracking(id)
                    &&& final(self).client_count() == if old(self).tracking(id) {
                        old(self).client_count() - 1
                    } else {
                        old(self).client_count() as int
                    }
                    &&& forall|j: u8| j != id ==> final(self).tracking(j) == old(self).tracking(j)
                    &&& forall|j: u8|
                        j != id && old(self).tracking(j) ==> final(self).queued(j) == old(
                            self,
                        ).queued(j)
                },
                _ => final(self).same_registry(old(self)),
            },
    {
        let r = classify_resp(self.resp_buff.as_slice());
        match r {
            Some(EspResp::ClientConnected(id)) => {
                self.clients_msgs.add_client(id);
                self.resp_buff.clear();
            },
            Some(EspResp::ClientDisconnected(id)) => {
                self.clients_msgs.remove_client(id);
                self.resp_buff.clear();
            },
            Some(_) => {
                self.resp_buff.clear();
            },
            None => {},
        }
        r
    }

    /// Attempts client-message extraction on the window: on a complete,
    /// well-formed line the payload joins the sender's queue (dropped when
    /// the sender is untracked) and the window clears. An incomplete or
    /// malformed line changes nothing, so bytes still arriving are kept.
    fn check_client_msg(&mut self) -> (r: Option<EspResp>)
        requires
            old(self).wf(),
        ensures
            final(self).wf(),
            final(self).same_shape(old(self)),
            match parse_ipd(old(self).buff()) {
                Some(p) => {
                    &&& r == Some(EspResp::ClientMsg(p.0))
                    &&& final(self).buff() == Seq::<u8>::empty()
                    &&& forall|j: u8| final(self).tracking(j) == old(self).tracking(j)
                    &&& final(self).client_count() == old(self).client_count()
                    &&& !old(self).tracking(p.0) ==> final(self).same_registry(old(self))
                    &&& old(self).tracking(p.0) ==> final(self).queued(p.0) == enqueued(
                        old(self).queued(p.0),
                        truncated(p.1, old(self).spec_msg_capacity()),
                        old(self).spec_max_msgs(),
                    )
                    &&& forall|j: u8|
                        j != p.0 && old(self).tracking(j) ==> final(self).queued(j) == old(
                            self,
                        ).queued(j)
                },
                None => r is None && *final(self) == *old(self),
            },
    {
        match extract_ipd(self.resp_buff.as_slice()) {
            Some((id, data)) => {
                self.clients_msgs.add_client_msg(id, data.as_slice());
                self.resp_buff.clear();
                Some(EspResp::ClientMsg(id))
            },
            None => None,
        }
    }

    /// Drains the transport's received bytes into the window one at a time.
    /// The first terminal marker match returns its event at once, leaving
    /// later bytes queued; once the source is dry, a complete client-message
    /// line is extracted. `None` when nothing complete arrived. The whole
    /// pass is exactly `scan` of the queued bytes: its event comes back, its
    /// window remains, its bytes are taken, and the registry moves per the
    /// event (`registry_step`).
    pub fn poll<S: EspSerial>(&mut self, serial: &mut S) -> (r: Option<EspResp>)
        requires
            old(self).wf(),
        ensures
            final(self).wf(),
            final(self).same_shape(old(self)),
            final(serial).tx_bytes() == old(serial).tx_bytes(),
            final(serial).accepts_writes() == old(serial).accepts_writes(),
            ({
                let sc = scan(old(self).buff(), old(serial).rx_queued(), old(self).spec_capacity());
                &&& r == sc.0
                &&& final(self).buff() == sc.1
                &&& final(serial).rx_queued() == old(serial).rx_queued().skip(sc.2 as int)
                &&& registry_step(*old(self), *final(self), r, sc.3)
            }),
            r is None ==> final(serial).rx_queued().len() == 0 && parse_ipd(final(self).buff())
                is None,
            r is Some ==> final(self).buff() == Seq::<u8>::empty(),
            old(serial).rx_queued().len() == 0 && parse_ipd(old(self).buff()) is None ==> r
                is None && *final(self) == *old(self),
    {
        let ghost cap = old(self).spec_capacity();
        let ghost sc0 = scan(old(self).buff(), old(serial).rx_queued(), cap);
        let ghost mut consumed: int = 0;
        proof {
            assert(old(serial).rx_queued().skip(0) =~= old(serial).rx_queued());
        }
        loop
            invariant
                self.wf(),
                self.same_shape(old(self)),
                self.same_registry(old(self)),
                serial.tx_bytes() == old(serial).tx_bytes(),
                serial.accepts_writes() == old(serial).accepts_writes(),
                0 <= consumed <= old(serial).rx_queued().len(),
                serial.rx_queued() == old(serial).rx_queued().skip(consumed),
                cap == old(self).spec_capacity(),
                sc0 == scan(old(self).buff(), old(serial).rx_queued(), cap),
                sc0 == ({
                    let rest = scan(self.buff(), serial.rx_queued(), cap);
                    (rest.0, rest.1, (rest.2 + consumed) as nat, rest.3)
                }),
                old(serial).rx_queued().len() == 0 ==> *self == *old(self) && serial.rx_queued()
                    == old(serial).rx_queued(),
            ensures
                serial.rx_queued().len() == 0,
                serial.tx_bytes() == old(serial).tx_bytes(),
                serial.accepts_writes() == old(serial).accepts_writes(),
                self.wf(),
                self.same_shape(old(self)),
                self.same_registry(old(self)),
                0 <= consumed <= old(serial).rx_queued().len(),
                serial.rx_queued() == old(serial).rx_queued().skip(consumed),
                cap == old(self).spec_capacity(),
                sc0 == scan(old(self).buff(), old(serial).rx_queued(), cap),
                sc0 == ({
                    let rest = scan(self.buff(), serial.rx_queued(), cap);
                    (rest.0, rest.1, (rest.2 + consumed) as nat, rest.3)
                }),
                old(serial).rx_queued().len() == 0 ==> *self == *old(self) && serial.rx_queued()
                    == old(serial).rx_queued(),
            decreases serial.rx_queued().len(),
        {
            let ghost w_pre = self.buff();
            let ghost rem_pre = serial.rx_queued();
            match serial.try_get_byte() {
                Some(b) => {
                    proof {
                        assert(old(serial).rx_queued().skip(consumed + 1) =~= old(
                            serial,
                        ).rx_queued().skip(consumed).drop_first());
                        consumed = consumed + 1;
                    }
                    self.push_byte(b);
                    proof {
                        assert(self.buff() == slid(w_pre, rem_pre[0], cap));
                    }
                    if let Some(resp) = self.check_terminal() {
                        proof {
                            let w2 = slid(w_pre, rem_pre[0], cap);
                            assert(scan(w_pre, rem_pre, cap) == (
                                Some(resp),
                                Seq::<u8>::empty(),
                                1nat,
                                Option::<(u8, Seq<u8>)>::None,
                            ));
                            assert(sc0.0 == Some(resp) && sc0.1 == Seq::<u8>::empty() && sc0.2
                                == consumed && sc0.3 is None);
                        }
                        return Some(resp);
                    }
                    proof {
                        let w2 = slid(w_pre, rem_pre[0], cap);
                        let rest = scan(w2, rem_pre.drop_first(), cap);
                        assert(scan(w_pre, rem_pre, cap) == (
                            rest.0,
                            rest.1,
                            (rest.2 + 1) as nat,
                            rest.3,
                        ));
                    }
                },
                None => {
                    break;
                },
            }
        }
        let ghost w_dry = self.buff();
        proof {
            assert(scan(w_dry, serial.rx_queued(), cap) == (
                match parse_ipd(w_dry) {
                    Some(p) => (
                        Some(EspResp::ClientMsg(p.0)),
                        Seq::<u8>::empty(),
                        0nat,
                        Some(p),
                    ),
                    None => (
                        Option::<EspResp>::None,
                        w_dry,
                        0nat,
                        Option::<(u8, Seq<u8>)>::None,
                    ),
                }
            ));
        }
        self.check_client_msg()
    }

    /// Takes the oldest queued payload of client `id`, `None` when the
    /// client is untracked or its queue is empty.
    pub fn get_client_next_msg(&mut self, client_id: u8) -> (r: Option<ClientMessage>)
        requires
            old(self).wf(),
        ensures
            final(self).wf(),
            final(self).same_shape(old(self)),
            final(self).buff() == old(self).buff(),
            final(self).client_count() == old(self).client_count(),
            forall|j: u8| final(self).tracking(j) == old(self).tracking(j),
            forall|j: u8|
                j != client_id && old(self).tracking(j) ==> final(self).queued(j) == old(
                    self,
                ).queued(j),
            match r {
                Some(m) => {
                    &&& old(self).tracking(client_id)
                    &&& old(self).queued(client_id).len() > 0
                    &&& m@ == old(self).queued(client_id)[0]
                    &&& final(self).queued(client_id) == old(self).queued(client_id).drop_first()
                },
                None => {
                    &&& (!old(self).tracking(client_id) || old(self).queued(client_id).len() == 0)
                    &&& old(self).tracking(client_id) ==> final(self).queued(client_id) == old(
                        self,
                    ).queued(client_id)
                },
            },
    {
        self.clients_msgs.get_client_next_msg(client_id)
    }
}

} // verus!
