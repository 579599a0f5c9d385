//! Bounded per-client FIFO queues of inbound payloads, keyed by client
//! identifier.

use vstd::prelude::*;
use vstd::slice::slice_subrange;

verus! {

/// Default bound on queued messages per client.
pub const MAX_CLIENT_MSGS: usize = 1;

/// Default bound on simultaneously tracked clients.
pub const MAX_CLIENT_NB: usize = 1;

/// One inbound payload taken off the wire.
pub struct ClientMessage {
    msg_buff: Vec<u8>,
}

impl View for ClientMessage {
    type V = Seq<u8>;

    closed spec fn view(&self) -> Seq<u8> {
        self.msg_buff@
    }
}

impl ClientMessage {
    pub fn get_buff_slice(&self) -> (r: &[u8])
        ensures
            r@ == self@,
    {
        self.msg_buff.as_slice()
    }
}

/// A payload cut down to the per-message capacity: bytes beyond `cap` are
/// dropped on enqueue.
pub open spec fn truncated(bytes: Seq<u8>, cap: nat) -> Seq<u8> {
    if bytes.len() <= cap {
        bytes
    } else {
        bytes.take(cap as int)
    }
}

/// A queue after an enqueue under bound `max`: the message goes to the back,
/// and when the queue is full the oldest message leaves first.
pub open spec fn enqueued(q: Seq<Seq<u8>>, m: Seq<u8>, max: nat) -> Seq<Seq<u8>> {
    if q.len() < max {
        q.push(m)
    } else {
        q.drop_first().push(m)
    }
}

/// A queue after a whole run of enqueues under bound `max`, oldest first.
pub open spec fn enqueue_all(q: Seq<Seq<u8>>, msgs: Seq<Seq<u8>>, max: nat) -> Seq<Seq<u8>>
    decreases msgs.len(),
{
    if msgs.len() == 0 {
        q
    } else {
        enqueue_all(enqueued(q, msgs[0], max), msgs.drop_first(), max)
    }
}

/// What a run of enqueues leaves behind: of everything ever enqueued, in
/// order, exactly the most recent `max` entries survive.
pub proof fn lemma_enqueue_all(q: Seq<Seq<u8>>, msgs: Seq<Seq<u8>>, max: nat)
    requires
        max >= 1,
        q.len() <= max,
        q.len() + msgs.len() >= max,
    ensures
        enqueue_all(q, msgs, max) == (q + msgs).skip(q.len() + msgs.len() - max),
    decreases msgs.len(),
{
    if msgs.len() == 0 {
        assert((q + msgs).skip(q.len() + msgs.len() - max) =~= q);
    } else {
        let m0 = msgs[0];
        let rest = msgs.drop_first();
        if q.len() < max {
            let q2 = q.push(m0);
            lemma_enqueue_all(q2, rest, max);
            assert(q2 + rest =~= q + msgs);
        } else {
            let q2 = q.drop_first().push(m0);
            lemma_enqueue_all(q2, rest, max);
            assert(q2 + rest =~= (q + msgs).skip(1));
            assert((q + msgs).skip(1).skip(q.len() + msgs.len() - max - 1) =~= (q + msgs).skip(
                q.len() + msgs.len() - max,
            ));
        }
    }
}

/// Enqueuing more messages than the bound retains only the most recent
/// `max`, the oldest discarded first, whatever the queue held before.
pub proof fn lemma_eviction_keeps_most_recent(q: Seq<Seq<u8>>, msgs: Seq<Seq<u8>>, max: nat)
    requires
        max >= 1,
        q.len() <= max,
        msgs.len() >= max,
    ensures
        enqueue_all(q, msgs, max) == msgs.skip(msgs.len() - max),
{
    lemma_enqueue_all(q, msgs, max);
    assert((q + msgs).skip(q.len() + msgs.len() - max) =~= msgs.skip(msgs.len() - max));
}

/// The FIFO of not-yet-retrieved payloads of one client.
pub struct ClientMessages {
    client_id: u8,
    messages: Vec<ClientMessage>,
    max_msgs: usize,
    msg_capacity: usize,
}

impl ClientMessages {
    pub closed spec fn spec_id(&self) -> u8 {
        self.client_id
    }

    /// The queued payloads, oldest first.
    pub closed spec fn msgs(&self) -> Seq<Seq<u8>> {
        self.messages@.map_values(|m: ClientMessage| m@)
    }

    pub closed spec fn spec_max_msgs(&self) -> nat {
        self.max_msgs as nat
    }

    pub closed spec fn spec_msg_capacity(&self) -> nat {
        self.msg_capacity as nat
    }

    pub closed spec fn wf(&self) -> bool {
        &&& self.max_msgs >= 1
        &&& self.messages@.len() <= self.max_msgs
    }

    /// An empty queue for `client_id`, holding at most `max_msgs` payloads
    /// of at most `msg_capacity` bytes each.
    pub fn new(client_id: u8, max_msgs: usize, msg_capacity: usize) -> (r: Self)
        requires
            max_msgs >= 1,
        ensures
            r.wf(),
            r.spec_id() == client_id,
            r.msgs() == Seq::<Seq<u8>>::empty(),
            r.spec_max_msgs() == max_msgs,
            r.spec_msg_capacity() == msg_capacity,
    {
        let r = Self { client_id, messages: Vec::new(), max_msgs, msg_capacity };
        proof {
            assert(r.msgs() =~= Seq::<Seq<u8>>::empty());
        }
        r
    }

    /// Enqueues a payload: truncated to the per-message capacity, evicting
    /// the oldest payload when the queue is full.
    pub fn add_message(&mut self, bytes: &[u8])
        requires
            old(self).wf(),
        ensures
            final(self).wf(),
            final(self).spec_id() == old(self).spec_id(),
            final(self).spec_max_msgs() == old(self).spec_max_msgs(),
            final(self).spec_msg_capacity() == old(self).spec_msg_capacity(),
            final(self).msgs() == enqueued(
                old(self).msgs(),
                truncated(bytes@, old(self).spec_msg_capacity()),
                old(self).spec_max_msgs(),
            ),
    {
        let take_len: usize = if bytes.len() <= self.msg_capacity {
            bytes.len()
        } else {
            self.msg_capacity
        };
        let mut buff: Vec<u8> = Vec::new();
        buff.extend_from_slice(slice_subrange(bytes, 0, take_len));
        proof {
            assert(buff@ =~= truncated(bytes@, self.spec_msg_capacity()));
        }

        if self.messages.len() >= self.max_msgs {
            self.messages.remove(0);
            self.messages.push(ClientMessage { msg_buff: buff });
            proof {
                assert(final(self).msgs() =~= old(self).msgs().drop_first().push(
                    truncated(bytes@, old(self).spec_msg_capacity()),
                ));
            }
        } else {
            self.messages.push(ClientMessage { msg_buff: buff });
            proof {
                assert(final(self).msgs() =~= old(self).msgs().push(
                    truncated(bytes@, old(self).spec_msg_capacity()),
                ));
            }
        }
    }

    /// Takes the oldest payload out, or `None` when the queue is empty.
    pub fn get_next_msg(&mut self) -> (r: Option<ClientMessage>)
        requires
            old(self).wf(),
        ensures
            final(self).wf(),
            final(self).spec_id() == old(self).spec_id(),
            final(self).spec_max_msgs() == old(self).spec_max_msgs(),
            final(self).spec_msg_capacity() == old(self).spec_msg_capacity(),
            match r {
                Some(m) => {
                    &&& old(self).msgs().len() > 0
                    &&& m@ == old(self).msgs()[0]
                    &&& final(self).msgs() == old(self).msgs().drop_first()
                },
                None => {
                    &&& old(self).msgs().len() == 0
                    &&& *final(self) == *old(self)
                },
            },
    {
        if self.messages.len() > 0 {
            let m = self.messages.remove(0);
            proof {
                assert(final(self).msgs() =~= old(self).msgs().drop_first());
            }
            Some(m)
        } else {
            None
        }
    }
}

/// The registry: one bounded FIFO per tracked client, created on connect and
/// destroyed on disconnect.
pub struct ClientsMessages {
    clients_messages: Vec<ClientMessages>,
    max_clients: usize,
    max_msgs: usize,
    msg_capacity: usize,
}

impl ClientsMessages {
    pub closed spec fn spec_max_clients(&self) -> nat {
        self.max_clients as nat
    }

    pub closed spec fn spec_max_msgs(&self) -> nat {
        self.max_msgs as nat
    }

    pub closed spec fn spec_msg_capacity(&self) -> nat {
        self.msg_capacity as nat
    }

    /// How many clients are tracked.
    pub closed spec fn client_count(&self) -> nat {
        self.clients_messages@.len()
    }

    /// Whether a queue exists for `id`.
    pub closed spec fn tracks(&self, id: u8) -> bool {
        exists|i: int|
            0 <= i < self.clients_messages@.len() && self.clients_messages@[i].spec_id() == id
    }

    pub closed spec fn index_of(&self, id: u8) -> int {
        choose|i: int|
            0 <= i < self.clients_messages@.len() && self.clients_messages@[i].spec_id() == id
    }

    /// The queued payloads of `id`, oldest first.
    pub closed spec fn msgs_of(&self, id: u8) -> Seq<Seq<u8>> {
        self.clients_messages@[self.index_of(id)].msgs()
    }

    pub closed spec fn wf(&self) -> bool {
        &&& self.max_clients >= 1
        &&& self.max_msgs >= 1
        &&& self.clients_messages@.len() <= self.max_clients
        &&& forall|i: int, j: int|
            0 <= i < j < self.clients_messages@.len() ==> self.clients_messages@[i].spec_id()
                != self.clients_messages@[j].spec_id()
        &&& forall|i: int|
            0 <= i < self.clients_messages@.len() ==> (#[trigger] self.clients_messages@[i]).wf()
                && self.clients_messages@[i].spec_max_msgs() == self.max_msgs
                && self.clients_messages@[i].spec_msg_capacity() == self.msg_capacity
    }

    /// An empty registry for at most `max_clients` clients, each with a FIFO
    /// of `max_msgs` payloads of at most `msg_capacity` bytes.
    pub fn new(max_clients: usize, max_msgs: usize, msg_capacity: usize) -> (r: Self)
        requires
            max_clients >= 1,
            max_msgs >= 1,
        ensures
            r.wf(),
            r.client_count() == 0,
            forall|id: u8| !r.tracks(id),
            r.spec_max_clients() == max_clients,
            r.spec_max_msgs() == max_msgs,
            r.spec_msg_capacity() == msg_capacity,
    {
        Self { clients_messages: Vec::new(), max_clients, max_msgs, msg_capacity }
    }

    /// The index of `id`'s queue, `None` when untracked.
    fn find(&self, id: u8) -> (r: Option<usize>)
        ensures
            match r {
                Some(i) => i < self.clients_messages@.len()
                    && self.clients_messages@[i as int].spec_id() == id,
                None => !self.tracks(id),
            },
    {
        let mut i: usize = 0;
        while i < self.clients_messages.len()
            invariant
                i <= self.clients_messages@.len(),
                forall|j: int| 0 <= j < i ==> self.clients_messages@[j].spec_id() != id,
            decreases self.clients_messages@.len() - i,
        {
            if self.clients_messages[i].client_id == id {
                return Some(i);
            }
            i = i + 1;
        }
        None
    }

    /// Starts a queue for a newly connected client. Tracking an already
    /// tracked id again, or a new id past the client bound, changes nothing.
    pub fn add_client(&mut self, client_id: u8)
        requires
            old(self).wf(),
        ensures
            final(self).wf(),
            final(self).spec_max_clients() == old(self).spec_max_clients(),
            final(self).spec_max_msgs() == old(self).spec_max_msgs(),
            final(self).spec_msg_capacity() == old(self).spec_msg_capacity(),
            old(self).tracks(client_id) || old(self).client_count() == old(self).spec_max_clients() ==> *final(self) == *old(self),
            !old(self).tracks(client_id) && old(self).client_count() < old(self).spec_max_clients() ==> {
                &&& final(self).tracks(client_id)
                &&& final(self).msgs_of(client_id) == Seq::<Seq<u8>>::empty()
                &&& final(self).client_count() == old(self).client_count() + 1
            },
            forall|j: u8| j != client_id ==> final(self).tracks(j) == old(self).tracks(j),
            forall|j: u8|
                j != client_id && old(self).tracks(j) ==> final(self).msgs_of(j) == old(self).msgs_of(j),
    {
        match self.find(client_id) {
            Some(_) => {},
            None => {
                if self.clients_messages.len() < self.max_clients {
                    let q = ClientMessages::new(client_id, self.max_msgs, self.msg_capacity);
                    self.clients_messages.push(q);
                    proof {
                        let pre = old(self).clients_messages@;
                        let post = final(self).clients_messages@;
                        assert(post[pre.len() as int].spec_id() == client_id);
                        assert forall|j: u8| j != client_id implies final(self).tracks(j) == old(self).tracks(j) by {
                            if old(self).tracks(j) {
                                let i = old(self).index_of(j);
                                assert(post[i].spec_id() == j);
                            }
                            if final(self).tracks(j) {
                                let i = final(self).index_of(j);
                                assert(i < pre.len());
                                assert(pre[i].spec_id() == j);
                            }
                        }
                        assert forall|j: u8| j != client_id && old(self).tracks(j) implies final(self).msgs_of(j) == old(self).msgs_of(j) by {
                            let i_old = old(self).index_of(j);
                            let i_new = final(self).index_of(j);
                            assert(post[i_old].spec_id() == j);
                            assert(i_new < pre.len());
                            assert(pre[i_new].spec_id() == j);
                        }
                    }
                }
            },
        }
    }

    /// Drops the queue of a disconnected client; an untracked id is a no-op.
    pub fn remove_client(&mut self, client_id: u8)
        requires
            old(self).wf(),
        ensures
            final(self).wf(),
            final(self).spec_max_clients() == old(self).spec_max_clients(),
            final(self).spec_max_msgs() == old(self).spec_max_msgs(),
            final(self).spec_msg_capacity() == old(self).spec_msg_capacity(),
            !final(self).tracks(client_id),
            !old(self).tracks(client_id) ==> *final(self) == *old(self),
            old(self).tracks(client_id) ==> final(self).client_count() == old(self).client_count()
                - 1,
            forall|j: u8| j != client_id ==> final(self).tracks(j) == old(self).tracks(j),
            forall|j: u8|
                j != client_id && old(self).tracks(j) ==> final(self).msgs_of(j) == old(self).msgs_of(j),
    {
        match self.find(client_id) {
            Some(idx) => {
                self.clients_messages.remove(idx);
                proof {
                    let pre = old(self).clients_messages@;
                    let post = final(self).clients_messages@;
                    let k = idx as int;
                    assert forall|i: int, j: int|
                        0 <= i < j < post.len() implies post[i].spec_id()
                        != post[j].spec_id() by {
                        if j < k {
                        } else if i < k {
                            assert(post[j] == pre[j + 1]);
                        } else {
                            assert(post[i] == pre[i + 1]);
                            assert(post[j] == pre[j + 1]);
                        }
                    }
                    assert(!final(self).tracks(client_id)) by {
                        if final(self).tracks(client_id) {
                            let i = final(self).index_of(client_id);
                            if i < k {
                                assert(pre[i].spec_id() == client_id);
                                assert(pre[k].spec_id() == client_id);
                            } else {
                                assert(pre[i + 1].spec_id() == client_id);
                                assert(pre[k].spec_id() == client_id);
                            }
                        }
                    }
                    assert forall|j: u8| j != client_id implies final(self).tracks(j) == old(self).tracks(j) by {
                        if old(self).tracks(j) {
                            let i = old(self).index_of(j);
                            if i < k {
                                assert(post[i].spec_id() == j);
                            } else {
                                assert(i != k);
                                assert(post[i - 1].spec_id() == j);
                            }
                        }
                        if final(self).tracks(j) {
                            let i = final(self).index_of(j);
                            if i < k {
                                assert(pre[i].spec_id() == j);
                            } else {
                                assert(pre[i + 1].spec_id() == j);
                            }
                        }
                    }
                    assert forall|j: u8| j != client_id && old(self).tracks(j) implies final(self).msgs_of(j) == old(self).msgs_of(j) by {
                        let i_old = old(self).index_of(j);
                        let i_new = final(self).index_of(j);
                        assert(pre[i_old].spec_id() == j);
                        if i_new < k {
                            assert(pre[i_new].spec_id() == j);
                        } else {
                            assert(pre[i_new + 1].spec_id() == j);
                        }
                    }
                }
            },
            None => {},
        }
    }

    /// Appends a payload to the queue of a tracked client; an untracked id
    /// is a no-op and the payload is dropped.
    pub fn add_client_msg(&mut self, client_id: u8, bytes: &[u8])
        requires
            old(self).wf(),
        ensures
            final(self).wf(),
            final(self).spec_max_clients() == old(self).spec_max_clients(),
            final(self).spec_max_msgs() == old(self).spec_max_msgs(),
            final(self).spec_msg_capacity() == old(self).spec_msg_capacity(),
            final(self).client_count() == old(self).client_count(),
            !old(self).tracks(client_id) ==> *final(self) == *old(self),
            forall|j: u8| final(self).tracks(j) == old(self).tracks(j),
            old(self).tracks(client_id) ==> final(self).msgs_of(client_id) == enqueued(
                old(self).msgs_of(client_id),
                truncated(bytes@, old(self).spec_msg_capacity()),
                old(self).spec_max_msgs(),
            ),
            forall|j: u8|
                j != client_id && old(self).tracks(j) ==> final(self).msgs_of(j) == old(self).msgs_of(j),
    {
        match self.find(client_id) {
            Some(idx) => {
                let q = &mut self.clients_messages[idx];
                q.add_message(bytes);
                proof {
                    self.lemma_update_at(*old(self), idx as int, client_id);
                }
            },
            None => {},
        }
    }

    /// Takes the oldest payload of a tracked client, `None` when the client
    /// is untracked or its queue is empty.
    pub fn get_client_next_msg(&mut self, client_id: u8) -> (r: Option<ClientMessage>)
        requires
            old(self).wf(),
        ensures
            final(self).wf(),
            final(self).spec_max_clients() == old(self).spec_max_clients(),
            final(self).spec_max_msgs() == old(self).spec_max_msgs(),
            final(self).spec_msg_capacity() == old(self).spec_msg_capacity(),
            final(self).client_count() == old(self).client_count(),
            forall|j: u8| final(self).tracks(j) == old(self).tracks(j),
            forall|j: u8|
                j != client_id && old(self).tracks(j) ==> final(self).msgs_of(j) == old(self).msgs_of(j),
            match r {
                Some(m) => {
                    &&& old(self).tracks(client_id)
                    &&& old(self).msgs_of(client_id).len() > 0
                    &&& m@ == old(self).msgs_of(client_id)[0]
                    &&& final(self).msgs_of(client_id) == old(self).msgs_of(client_id).drop_first()
                },
                None => {
                    &&& (!old(self).tracks(client_id) || old(self).msgs_of(client_id).len() == 0)
                    &&& old(self).tracks(client_id) ==> final(self).msgs_of(client_id) == old(
                        self,
                    ).msgs_of(client_id)
                },
            },
    {
        match self.find(client_id) {
            Some(idx) => {
                let q = &mut self.clients_messages[idx];
                let r = q.get_next_msg();
                proof {
                    self.lemma_update_at(*old(self), idx as int, client_id);
                }
                r
            },
            None => None,
        }
    }

    /// After an in-place update of the queue at `k` (whose id is `id`,
    /// unchanged, ids elsewhere untouched), tracking and the other queues
    /// read the same, and `msgs_of(id)` reads the queue at `k`.
    proof fn lemma_update_at(&self, pre: Self, k: int, id: u8)
        requires
            pre.wf(),
            0 <= k < pre.clients_messages@.len(),
            pre.clients_messages@[k].spec_id() == id,
            self.clients_messages@.len() == pre.clients_messages@.len(),
            self.max_clients == pre.max_clients,
            self.max_msgs == pre.max_msgs,
            self.msg_capacity == pre.msg_capacity,
            forall|i: int|
                0 <= i < pre.clients_messages@.len() && i != k ==> self.clients_messages@[i]
                    == pre.clients_messages@[i],
            self.clients_messages@[k].spec_id() == id,
            self.clients_messages@[k].wf(),
            self.clients_messages@[k].spec_max_msgs() == pre.max_msgs,
            self.clients_messages@[k].spec_msg_capacity() == pre.msg_capacity,
        ensures
            self.wf(),
            self.client_count() == pre.client_count(),
            forall|j: u8| self.tracks(j) == pre.tracks(j),
            forall|j: u8|
                j != id && pre.tracks(j) ==> self.msgs_of(j) == pre.msgs_of(j),
            pre.tracks(id),
            self.tracks(id),
            self.msgs_of(id) == self.clients_messages@[k].msgs(),
            pre.msgs_of(id) == pre.clients_messages@[k].msgs(),
    {
        let a = pre.clients_messages@;
        let b = self.clients_messages@;
        assert forall|i: int, j: int| 0 <= i < j < b.len() implies b[i].spec_id()
            != b[j].spec_id() by {
            assert(a[i].spec_id() != a[j].spec_id());
        }
        assert forall|j: u8| self.tracks(j) == pre.tracks(j) by {
            if pre.tracks(j) {
                let i = pre.index_of(j);
                assert(b[i].spec_id() == j);
            }
            if self.tracks(j) {
                let i = self.index_of(j);
                assert(a[i].spec_id() == j);
            }
        }
        assert forall|j: u8| j != id && pre.tracks(j) implies self.msgs_of(j) == pre.msgs_of(
            j,
        ) by {
            let i_old = pre.index_of(j);
            let i_new = self.index_of(j);
            assert(a[i_old].spec_id() == j);
            assert(a[i_new].spec_id() == j);
            assert(i_new != k);
        }
        assert(b[self.index_of(id)].spec_id() == id);
        assert(a[pre.index_of(id)].spec_id() == id);
        assert(self.index_of(id) == k);
        assert(pre.index_of(id) == k);
    }
}

} // verus!
