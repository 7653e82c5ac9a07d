//! The leased-connection adapter: the byte stream a caller sees while it
//! holds a pooled connection.
//!
//! The adapter is transparent by contract: it forwards reads, writes,
//! flushes and the graceful close to the underlying connection without
//! buffering, transformation or reordering. This module verifies that
//! transparency over the adapter's transcript — every byte written, every
//! byte the peer has delivered, every byte handed back to the caller. The
//! asynchronous polling that moves the bytes lives in the unverified shell;
//! the accounting it must respect is proved here.

use vstd::prelude::*;

verus! {

/// A leased connection as its caller observes it: the transcript of bytes
/// written through the adapter, the bytes the peer has delivered that are
/// not yet read, the bytes already handed back to the caller, and whether
/// the stream is still open for traffic.
pub struct LeasedConnection {
    sent: Vec<u8>,
    pending: Vec<u8>,
    received: Vec<u8>,
    open: bool,
}

impl LeasedConnection {
    /// Every byte written through the adapter, oldest first.
    pub closed spec fn sent_bytes(&self) -> Seq<u8> {
        self.sent@
    }

    /// Bytes delivered by the peer and not yet read, oldest first.
    pub closed spec fn pending_bytes(&self) -> Seq<u8> {
        self.pending@
    }

    /// Every byte handed back to the caller, oldest first.
    pub closed spec fn received_bytes(&self) -> Seq<u8> {
        self.received@
    }

    /// Whether the stream is still open for reads and writes.
    pub closed spec fn is_open(&self) -> bool {
        self.open
    }

    /// A freshly leased connection: open, with empty transcripts.
    pub fn new() -> (r: Self)
        ensures
            r.sent_bytes() == Seq::<u8>::empty(),
            r.pending_bytes() == Seq::<u8>::empty(),
            r.received_bytes() == Seq::<u8>::empty(),
            r.is_open(),
    {
        LeasedConnection { sent: Vec::new(), pending: Vec::new(), received: Vec::new(), open: true }
    }

    /// Whether the stream is still open, observably.
    pub fn stream_open(&self) -> (r: bool)
        ensures
            r == self.is_open(),
    {
        self.open
    }

    /// How many delivered bytes are waiting to be read.
    pub fn pending_len(&self) -> (r: usize)
        ensures
            r == self.pending_bytes().len(),
    {
        self.pending.len()
    }

    /// Write a buffer through the adapter. Transparent: the whole buffer is
    /// forwarded unchanged and in order, nothing else changes, and the
    /// number of bytes written is reported exactly.
    pub fn write(&mut self, buf: &Vec<u8>) -> (n: usize)
        requires
            old(self).is_open(),
        ensures
            n == buf@.len(),
            final(self).sent_bytes() == old(self).sent_bytes() + buf@,
            final(self).pending_bytes() == old(self).pending_bytes(),
            final(self).received_bytes() == old(self).received_bytes(),
            final(self).is_open(),
    {
        append_bytes(&mut self.sent, buf);
        buf.len()
    }

    /// Bytes arriving from the peer. This is the far side of the model: a
    /// test harness or the runtime records here what the peer sent.
    pub fn peer_delivers(&mut self, bytes: &Vec<u8>)
        ensures
            final(self).pending_bytes() == old(self).pending_bytes() + bytes@,
            final(self).sent_bytes() == old(self).sent_bytes(),
            final(self).received_bytes() == old(self).received_bytes(),
            final(self).is_open() == old(self).is_open(),
    {
        append_bytes(&mut self.pending, bytes);
    }

    /// Read up to `max` bytes. Transparent: the caller receives exactly the
    /// oldest delivered bytes, unaltered and in order; what is handed out
    /// plus what stays pending is precisely what was pending before.
    pub fn read(&mut self, max: usize) -> (r: Vec<u8>)
        requires
            old(self).is_open(),
        ensures
            r@.len() == if max <= old(self).pending_bytes().len() {
                max as int
            } else {
                old(self).pending_bytes().len() as int
            },
            r@ == old(self).pending_bytes().take(r@.len() as int),
            final(self).pending_bytes() == old(self).pending_bytes().skip(r@.len() as int),
            final(self).received_bytes() == old(self).received_bytes() + r@,
            final(self).received_bytes() + final(self).pending_bytes() == old(
                self,
            ).received_bytes() + old(self).pending_bytes(),
            final(self).sent_bytes() == old(self).sent_bytes(),
            final(self).is_open(),
    {
        let k: usize = if max <= self.pending.len() {
            max
        } else {
            self.pending.len()
        };
        let mut r: Vec<u8> = Vec::new();
        let mut i: usize = 0;
        while i < k
            invariant
                i <= k,
                k <= self.pending@.len(),
                r@ == self.pending@.take(i as int),
            decreases k - i,
        {
            r.push(self.pending[i]);
            i += 1;
        }
        let mut rest: Vec<u8> = Vec::new();
        let mut j: usize = k;
        while j < self.pending.len()
            invariant
                k <= j <= self.pending@.len(),
                rest@ == self.pending@.subrange(k as int, j as int),
            decreases self.pending@.len() - j,
        {
            rest.push(self.pending[j]);
            j += 1;
        }
        proof {
            assert(rest@ =~= self.pending@.skip(k as int));
        }
        self.pending = rest;
        append_bytes(&mut self.received, &r);
        proof {
            assert(old(self).pending_bytes().take(k as int) + old(self).pending_bytes().skip(
                k as int,
            ) =~= old(self).pending_bytes());
        }
        r
    }

    /// Read everything the peer has delivered so far: what comes back is
    /// the pending transcript itself, identical and in order.
    pub fn drain(&mut self) -> (r: Vec<u8>)
        requires
            old(self).is_open(),
        ensures
            r@ == old(self).pending_bytes(),
            final(self).pending_bytes() == Seq::<u8>::empty(),
            final(self).received_bytes() == old(self).received_bytes() + old(self).pending_bytes(),
            final(self).sent_bytes() == old(self).sent_bytes(),
            final(self).is_open(),
    {
        let max: usize = self.pending.len();
        let r = self.read(max);
        proof {
            assert(r@ =~= old(self).pending_bytes());
            assert(self.pending_bytes() =~= Seq::<u8>::empty());
        }
        r
    }

    /// Flush the adapter. Transparent: it buffers nothing, so there is
    /// nothing to write out and nothing observable changes.
    pub fn flush(&mut self)
        requires
            old(self).is_open(),
        ensures
            *final(self) == *old(self),
    {
    }

    /// Close the stream gracefully. The transcripts stay as they are: a
    /// close alters no byte that was already exchanged.
    pub fn close(&mut self)
        ensures
            !final(self).is_open(),
            final(self).sent_bytes() == old(self).sent_bytes(),
            final(self).pending_bytes() == old(self).pending_bytes(),
            final(self).received_bytes() == old(self).received_bytes(),
    {
        self.open = false;
    }
}

/// Append the bytes of `src` to `dst`, in order.
fn append_bytes(dst: &mut Vec<u8>, src: &Vec<u8>)
    ensures
        final(dst)@ == old(dst)@ + src@,
{
    let mut i: usize = 0;
    while i < src.len()
        invariant
            i <= src@.len(),
            dst@ == old(dst)@ + src@.take(i as int),
        decreases src@.len() - i,
    {
        dst.push(src[i]);
        i += 1;
    }
    proof {
        assert(dst@ =~= old(dst)@ + src@);
    }
}

/// Byte fidelity across buffer boundaries: however a delivered byte
/// sequence is split into successive reads, the chunks concatenate back to
/// exactly that sequence — splitting at a buffer boundary loses, alters
/// and reorders nothing.
pub proof fn lemma_chunked_reads_lose_nothing(data: Seq<u8>, cut: int)
    requires
        0 <= cut <= data.len(),
    ensures
        data.take(cut) + data.skip(cut) == data,
{
    assert(data.take(cut) + data.skip(cut) =~= data);
}

} // verus!
