//! The transport the protocol engine talks through: a byte sink/source
//! capability, and an in-memory implementation of it.

use vstd::prelude::*;
use vstd::string::StringSliceAdditionalSpecFns;

verus! {

/// A serial transport: writes go out whole or not at all, and already
/// received bytes are taken one at a time without blocking.
///
/// `tx_bytes` is every byte the transmit side has accepted so far;
/// `rx_queued` is the bytes received but not yet taken.
pub trait EspSerial {
    spec fn tx_bytes(&self) -> Seq<u8>;

    spec fn rx_queued(&self) -> Seq<u8>;

    /// Whether the transmit side would accept a write right now.
    spec fn accepts_writes(&self) -> bool;

    /// Writes the whole buffer, or nothing when the transport refuses.
    fn write_bytes(&mut self, bytes: &[u8]) -> (ok: bool)
        ensures
            ok == old(self).accepts_writes(),
            ok ==> final(self).tx_bytes() == old(self).tx_bytes() + bytes@,
            !ok ==> final(self).tx_bytes() == old(self).tx_bytes(),
            final(self).rx_queued() == old(self).rx_queued(),
            final(self).accepts_writes() == old(self).accepts_writes(),
    ;

    /// Writes the whole string, or nothing when the transport refuses.
    fn write_str(&mut self, s: &str) -> (ok: bool)
        ensures
            ok == old(self).accepts_writes(),
            ok ==> final(self).tx_bytes() == old(self).tx_bytes() + s.spec_bytes(),
            !ok ==> final(self).tx_bytes() == old(self).tx_bytes(),
            final(self).rx_queued() == old(self).rx_queued(),
            final(self).accepts_writes() == old(self).accepts_writes(),
    ;

    /// Takes the oldest received byte, or `None` when none is queued.
    fn try_get_byte(&mut self) -> (b: Option<u8>)
        ensures
            match b {
                Some(x) => {
                    &&& old(self).rx_queued().len() > 0
                    &&& x == old(self).rx_queued()[0]
                    &&& final(self).rx_queued() == old(self).rx_queued().drop_first()
                },
                None => {
                    &&& old(self).rx_queued().len() == 0
                    &&& final(self).rx_queued() == old(self).rx_queued()
                },
            },
            final(self).tx_bytes() == old(self).tx_bytes(),
            final(self).accepts_writes() == old(self).accepts_writes(),
    ;
}

/// An in-memory transport: writes land in a transmit log, and the receive
/// side replays bytes scripted in advance. Drives the engine on a host,
/// in tests and in simulations.
pub struct ScriptedSerial {
    tx: Vec<u8>,
    rx: Vec<u8>,
    accept_writes: bool,
}

impl ScriptedSerial {
    pub closed spec fn spec_accepts(&self) -> bool {
        self.accept_writes
    }

    /// An empty transport that accepts every write.
    pub fn new() -> (r: Self)
        ensures
            r.tx_bytes() == Seq::<u8>::empty(),
            r.rx_queued() == Seq::<u8>::empty(),
            r.spec_accepts(),
    {
        Self { tx: Vec::new(), rx: Vec::new(), accept_writes: true }
    }

    /// Chooses whether further writes are accepted or refused.
    pub fn set_accept_writes(&mut self, accept: bool)
        ensures
            final(self).spec_accepts() == accept,
            final(self).tx_bytes() == old(self).tx_bytes(),
            final(self).rx_queued() == old(self).rx_queued(),
    {
        self.accept_writes = accept;
    }

    /// Queues bytes for the receive side to hand out.
    pub fn push_rx(&mut self, bytes: &[u8])
        ensures
            final(self).rx_queued() == old(self).rx_queued() + bytes@,
            final(self).tx_bytes() == old(self).tx_bytes(),
            final(self).spec_accepts() == old(self).spec_accepts(),
    {
        self.rx.extend_from_slice(bytes);
    }

    /// The transmit log so far.
    pub fn tx_data(&self) -> (r: &Vec<u8>)
        ensures
            r@ == self.tx_bytes(),
    {
        &self.tx
    }

    /// Hands the transmit log out and starts a fresh one.
    pub fn take_tx(&mut self) -> (r: Vec<u8>)
        ensures
            r@ == old(self).tx_bytes(),
            final(self).tx_bytes() == Seq::<u8>::empty(),
            final(self).rx_queued() == old(self).rx_queued(),
            final(self).spec_accepts() == old(self).spec_accepts(),
    {
        let mut out: Vec<u8> = Vec::new();
        core::mem::swap(&mut out, &mut self.tx);
        out
    }

    /// How many received bytes are still queued.
    pub fn rx_len(&self) -> (r: usize)
        ensures
            r == self.rx_queued().len(),
    {
        self.rx.len()
    }
}

impl EspSerial for ScriptedSerial {
    closed spec fn tx_bytes(&self) -> Seq<u8> {
        self.tx@
    }

    closed spec fn rx_queued(&self) -> Seq<u8> {
        self.rx@
    }

    open spec fn accepts_writes(&self) -> bool {
        self.spec_accepts()
    }

    fn write_bytes(&mut self, bytes: &[u8]) -> (ok: bool) {
        if self.accept_writes {
            self.tx.extend_from_slice(bytes);
            true
        } else {
            false
        }
    }

    fn write_str(&mut self, s: &str) -> (ok: bool) {
        self.write_bytes(s.as_bytes())
    }

    fn try_get_byte(&mut self) -> (b: Option<u8>) {
        if self.rx.len() > 0 {
            Some(self.rx.remove(0))
        } else {
            None
        }
    }
}

} // verus!
