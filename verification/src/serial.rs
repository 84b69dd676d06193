//! Serial sink: an append-only byte log for diagnostic output.
//!
//! The emulated hardware writes one byte at a time to its serial port; the
//! log records every byte in order and is never truncated. Bytes accumulate
//! in a pending buffer until the storage layer takes them for writing; the
//! abstract log — everything ever appended — only ever grows, and taking the
//! pending bytes does not change it.

use vstd::prelude::*;

verus! {

/// The append-only serial log. Its view is the complete sequence of bytes
/// appended so far: the part already handed to storage (tracked in ghost
/// state) followed by the bytes still pending.
pub struct SerialLog {
    pending: Vec<u8>,
    handed_out: Ghost<Seq<u8>>,
}

impl View for SerialLog {
    type V = Seq<u8>;

    closed spec fn view(&self) -> Seq<u8> {
        self.handed_out@ + self.pending@
    }
}

impl SerialLog {
    /// Bytes appended but not yet taken by the storage layer.
    pub closed spec fn pending_bytes(&self) -> Seq<u8> {
        self.pending@
    }

    /// An empty log.
    pub fn new() -> (r: Self)
        ensures
            r@ == Seq::<u8>::empty(),
            r.pending_bytes() == Seq::<u8>::empty(),
    {
        let r = SerialLog { pending: Vec::new(), handed_out: Ghost(Seq::empty()) };
        proof {
            assert(r@ =~= Seq::<u8>::empty());
        }
        r
    }

    /// Append one byte from the emulated serial port. The log grows by
    /// exactly that byte at the end; everything already logged stays put.
    pub fn put_byte(&mut self, b: u8)
        ensures
            final(self)@ == old(self)@.push(b),
            final(self).pending_bytes() == old(self).pending_bytes().push(b),
            old(self)@ == final(self)@.take(old(self)@.len() as int),
    {
        self.pending.push(b);
        proof {
            assert(self@ =~= old(self)@.push(b));
            assert(old(self)@ =~= self@.take(old(self)@.len() as int));
        }
    }

    /// Number of bytes waiting to be written out.
    pub fn pending_len(&self) -> (r: usize)
        ensures
            r == self.pending_bytes().len(),
    {
        self.pending.len()
    }

    /// Hand the pending bytes to the storage layer, in order, leaving none
    /// pending. The abstract log is unchanged: this moves bytes across the
    /// storage boundary, it never drops or reorders them.
    pub fn take_pending(&mut self) -> (r: Vec<u8>)
        ensures
            r@ == old(self).pending_bytes(),
            final(self)@ == old(self)@,
            final(self).pending_bytes() == Seq::<u8>::empty(),
    {
        let mut taken: Vec<u8> = Vec::new();
        core::mem::swap(&mut taken, &mut self.pending);
        let ghost g = self.handed_out@ + taken@;
        self.handed_out = Ghost(g);
        proof {
            assert(self@ =~= old(self)@);
        }
        taken
    }
}

} // verus!
