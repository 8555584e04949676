//! The host console as the machine sees it: a queue of key presses that wait to
//! be read, and a record of the bytes that were written.
//!
//! Neither type touches a device. A driver moves bytes between them and the
//! real console; a test fills the one and inspects the other.

use std::collections::VecDeque;
use vstd::prelude::*;

verus! {

/// The bytes that the host input holds ready, oldest first.
pub struct HostInput {
    pending: VecDeque<u8>,
}

impl View for HostInput {
    type V = Seq<u8>;

    /// The waiting bytes, in the order in which they will be read.
    closed spec fn view(&self) -> Seq<u8> {
        self.pending@
    }
}

impl HostInput {
    /// An input on which no byte waits.
    pub fn new() -> (input: Self)
        ensures
            input@ == Seq::<u8>::empty(),
    {
        HostInput { pending: VecDeque::new() }
    }

    /// An input on which the given bytes wait, the first of them in front.
    pub fn from_bytes(bytes: &[u8]) -> (input: Self)
        ensures
            input@ == bytes@,
    {
        let mut pending: VecDeque<u8> = VecDeque::new();
        let mut i: usize = 0;
        while i < bytes.len()
            invariant
                i <= bytes.len(),
                pending@ == bytes@.subrange(0, i as int),
            decreases bytes.len() - i,
        {
            pending.push_back(bytes[i]);
            i += 1;
        }
        HostInput { pending }
    }

    /// Puts one more byte at the back of the queue.
    pub fn feed(&mut self, byte: u8)
        ensures
            final(self)@ == old(self)@.push(byte),
    {
        self.pending.push_back(byte);
    }

    /// Takes the byte at the front of the queue, if there is one.
    pub fn next(&mut self) -> (byte: Option<u8>)
        ensures
            old(self)@.len() == 0 ==> byte is None && final(self)@ == old(self)@,
            old(self)@.len() > 0 ==> byte == Some(old(self)@[0]) && final(self)@ == old(
                self,
            )@.drop_first(),
    {
        self.pending.pop_front()
    }

    /// A second input on which the same bytes wait.
    pub fn duplicate(&self) -> (copy: Self)
        ensures
            copy@ == self@,
    {
        HostInput { pending: self.pending.clone() }
    }

    /// How many bytes wait.
    pub fn len(&self) -> (n: usize)
        ensures
            n == self@.len(),
    {
        self.pending.len()
    }

    /// Whether no byte waits.
    pub fn is_empty(&self) -> (empty: bool)
        ensures
            empty == (self@.len() == 0),
    {
        self.pending.len() == 0
    }
}

/// What a host output has taken so far.
pub struct OutputView {
    /// Every byte written, in order.
    pub bytes: Seq<u8>,
    /// How many of them stood there at the latest flush, if there was one.
    pub flushed: Option<nat>,
    /// Whether the output has stopped taking bytes.
    pub closed: bool,
}

/// The host output: the bytes written to it, how far they have been flushed,
/// and whether it still accepts any.
pub struct HostOutput {
    bytes: Vec<u8>,
    flushed: Option<usize>,
    closed: bool,
}

/// A flush mark as a number of the mathematical kind.
pub open spec fn mark(flushed: Option<usize>) -> Option<nat> {
    match flushed {
        Some(n) => Some(n as nat),
        None => None,
    }
}

impl View for HostOutput {
    type V = OutputView;

    closed spec fn view(&self) -> OutputView {
        OutputView { bytes: self.bytes@, flushed: mark(self.flushed), closed: self.closed }
    }
}

/// The output after `buffer` went to it: unchanged when closed, else longer by
/// `buffer`.
pub open spec fn written(out: OutputView, buffer: Seq<u8>) -> OutputView {
    if out.closed {
        out
    } else {
        OutputView { bytes: out.bytes + buffer, ..out }
    }
}

/// The output after a flush: unchanged when closed, else flushed to its end.
pub open spec fn flushed(out: OutputView) -> OutputView {
    if out.closed {
        out
    } else {
        OutputView { flushed: Some(out.bytes.len()), ..out }
    }
}

impl HostOutput {
    /// An open output that has taken nothing.
    pub fn new() -> (out: Self)
        ensures
            out@ == (OutputView { bytes: Seq::<u8>::empty(), flushed: None, closed: false }),
    {
        HostOutput { bytes: Vec::new(), flushed: None, closed: false }
    }

    /// Appends all of `buffer`, or nothing if the output is closed. Returns
    /// whether the bytes were taken.
    pub fn write_all(&mut self, buffer: &[u8]) -> (taken: bool)
        ensures
            taken == !old(self)@.closed,
            final(self)@ == written(old(self)@, buffer@),
    {
        if self.closed {
            return false;
        }
        let mut i: usize = 0;
        while i < buffer.len()
            invariant
                i <= buffer.len(),
                self.bytes@ == old(self).bytes@ + buffer@.subrange(0, i as int),
                self.flushed == old(self).flushed,
                self.closed == old(self).closed,
            decreases buffer.len() - i,
        {
            self.bytes.push(buffer[i]);
            i += 1;
        }
        proof {
            assert(buffer@.subrange(0, i as int) =~= buffer@);
        }
        true
    }

    /// Marks everything written so far as flushed, unless the output is
    /// closed. Returns whether the flush took place.
    pub fn flush(&mut self) -> (done: bool)
        ensures
            done == !old(self)@.closed,
            final(self)@ == flushed(old(self)@),
    {
        if self.closed {
            return false;
        }
        self.flushed = Some(self.bytes.len());
        true
    }

    /// Takes back what was written after the first `len` bytes, and sets the
    /// flush mark to `flushed`. Where fewer than `len` bytes were written, they
    /// all stay.
    pub fn rewind(&mut self, len: usize, flushed: Option<usize>)
        ensures
            final(self)@ == (OutputView {
                bytes: if len <= old(self)@.bytes.len() {
                    old(self)@.bytes.subrange(0, len as int)
                } else {
                    old(self)@.bytes
                },
                flushed: mark(flushed),
                closed: old(self)@.closed,
            }),
    {
        self.bytes.truncate(len);
        self.flushed = flushed;
    }

    /// Hands over every byte written so far and starts afresh, with nothing
    /// written and no flush on record. A driver reads the flush mark first,
    /// then carries the bytes to the console.
    pub fn take(&mut self) -> (bytes: Vec<u8>)
        ensures
            bytes@ == old(self)@.bytes,
            final(self)@ == (OutputView {
                bytes: Seq::<u8>::empty(),
                flushed: None,
                closed: old(self)@.closed,
            }),
    {
        let mut bytes: Vec<u8> = Vec::new();
        std::mem::swap(&mut self.bytes, &mut bytes);
        self.flushed = None;
        bytes
    }

    /// Closes the output: from now on it takes no byte and no flush.
    pub fn close(&mut self)
        ensures
            final(self)@ == (OutputView { closed: true, ..old(self)@ }),
    {
        self.closed = true;
    }

    /// Every byte written so far.
    pub fn bytes(&self) -> (bytes: &Vec<u8>)
        ensures
            bytes@ == self@.bytes,
    {
        &self.bytes
    }

    /// How many bytes were written so far.
    pub fn len(&self) -> (n: usize)
        ensures
            n == self@.bytes.len(),
    {
        self.bytes.len()
    }

    /// How many of the written bytes stood there at the latest flush, or
    /// `None` where nothing was flushed yet.
    pub fn flushed_len(&self) -> (n: Option<usize>)
        ensures
            mark(n) == self@.flushed,
    {
        self.flushed
    }

    /// Whether the output has been closed.
    pub fn is_closed(&self) -> (closed: bool)
        ensures
            closed == self@.closed,
    {
        self.closed
    }
}

} // verus!
