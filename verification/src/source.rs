//! The byte source that a section reader and the record readers it hands out share.
//!
//! The source is a buffer in memory with a read cursor. Besides the cursor it keeps the account
//! of the section in progress: how many of its records have not been consumed, and how many
//! bytes each of them takes. That account is what lets a record reader be given up at any
//! time: whoever uses the source next first moves the cursor past what is still owed.

use vstd::prelude::*;
use vstd::slice::{slice_subrange, slice_to_vec};

verus! {

/// The state of a [`ByteSource`], as plain mathematics.
pub struct SourceState {
    /// Every byte of the source, consumed or not.
    pub bytes: Seq<u8>,
    /// The read cursor: the number of bytes consumed so far.
    pub pos: nat,
    /// How many records of the section in progress have not been consumed.
    pub owed_records: nat,
    /// The size in bytes of each record of the section in progress.
    pub record_size: nat,
}

impl SourceState {
    /// The cursor is inside the source or at its end.
    pub open spec fn wf(self) -> bool {
        self.pos <= self.bytes.len()
    }

    /// The number of bytes that have not been consumed.
    pub open spec fn remaining(self) -> nat {
        (self.bytes.len() - self.pos) as nat
    }

    /// The number of bytes that the section in progress still has a claim to.
    pub open spec fn owed(self) -> nat {
        self.owed_records * self.record_size
    }

    /// Where the header of the next section starts: past everything that is owed to the section
    /// in progress, or at the end of the source where the source ends before that.
    pub open spec fn next_section_start(self) -> nat {
        if self.owed() <= self.remaining() {
            self.pos + self.owed()
        } else {
            self.bytes.len()
        }
    }

    /// The state after the section in progress has been given up: the cursor stands where the
    /// next header starts and nothing is owed.
    pub open spec fn released(self) -> SourceState {
        SourceState { pos: self.next_section_start(), owed_records: 0, ..self }
    }

    /// The state after `n` bytes have been consumed.
    pub open spec fn advanced(self, n: nat) -> SourceState {
        SourceState { pos: self.pos + n, ..self }
    }

    /// The state after everything that was left has been consumed.
    pub open spec fn exhausted(self) -> SourceState {
        SourceState { pos: self.bytes.len(), ..self }
    }

    /// The state at the start of a section of `count` records of `size` bytes each.
    pub open spec fn owing(self, count: nat, size: nat) -> SourceState {
        SourceState { owed_records: count, record_size: size, ..self }
    }

    /// The state after `more` has been put behind the bytes that the source holds.
    pub open spec fn fed(self, more: Seq<u8>) -> SourceState {
        SourceState { bytes: self.bytes + more, ..self }
    }

    /// The state after the bytes before the cursor have been forgotten: what is left of the
    /// source starts at the cursor.
    pub open spec fn compacted(self) -> SourceState {
        SourceState { bytes: self.bytes.skip(self.pos as int), pos: 0, ..self }
    }

    /// The bytes of the record that is read next, where the source holds a whole record.
    pub open spec fn next_record(self) -> Seq<u8> {
        self.bytes.subrange(self.pos as int, (self.pos + self.record_size) as int)
    }

    /// The state after a read of the next record was asked for: unchanged where no record is
    /// owed, else as [`SourceState::after_record`] says.
    pub open spec fn after_read(self) -> SourceState {
        if self.owed_records == 0 {
            self
        } else {
            self.after_record()
        }
    }

    /// The state after `k` reads of a record were asked for, one after another.
    pub open spec fn after_reads(self, k: nat) -> SourceState
        decreases k,
    {
        if k == 0 {
            self
        } else {
            self.after_read().after_reads((k - 1) as nat)
        }
    }

    /// The state after one attempt to read a record of the section in progress: the record is
    /// no longer owed, and the cursor is past it, or at the end of the source where the source
    /// ends inside the record.
    pub open spec fn after_record(self) -> SourceState {
        SourceState {
            pos: if self.record_size <= self.remaining() {
                self.pos + self.record_size
            } else {
                self.bytes.len()
            },
            owed_records: (self.owed_records - 1) as nat,
            ..self
        }
    }
}

/// Asking for a record never moves the place where the next section is looked for: whether
/// the read gives a record, finds none owed or fails, giving the section up afterwards leaves
/// the source exactly as giving it up before would have.
pub proof fn lemma_read_keeps_next_section(s: SourceState)
    requires
        s.wf(),
    ensures
        s.after_read().wf(),
        s.after_read().bytes == s.bytes,
        s.after_read().record_size == s.record_size,
        s.after_read().next_section_start() == s.next_section_start(),
        s.after_read().released() == s.released(),
{
    if s.owed_records > 0 {
        let k = s.owed_records;
        let size = s.record_size;
        assert((k - 1) * size + size == k * size) by (nonlinear_arith);
        assert((k - 1) * size >= 0) by (nonlinear_arith)
            requires
                k >= 1,
                size >= 0,
        ;
    }
}

/// However many records of a section are asked for, none, some, all or more than there are,
/// the next section is looked for in the same place.
pub proof fn lemma_reads_keep_next_section(s: SourceState, k: nat)
    requires
        s.wf(),
    ensures
        s.after_reads(k).wf(),
        s.after_reads(k).bytes == s.bytes,
        s.after_reads(k).record_size == s.record_size,
        s.after_reads(k).next_section_start() == s.next_section_start(),
        s.after_reads(k).released() == s.released(),
    decreases k,
{
    if k > 0 {
        lemma_read_keeps_next_section(s);
        lemma_reads_keep_next_section(s.after_read(), (k - 1) as nat);
    }
}

/// A buffer of bytes in memory that is read once, front to back.
pub struct ByteSource {
    bytes: Vec<u8>,
    pos: usize,
    owed_records: u16,
    record_size: usize,
}

impl View for ByteSource {
    type V = SourceState;

    closed spec fn view(&self) -> SourceState {
        SourceState {
            bytes: self.bytes@,
            pos: self.pos as nat,
            owed_records: self.owed_records as nat,
            record_size: self.record_size as nat,
        }
    }
}

impl ByteSource {
    #[verifier::type_invariant]
    spec fn cursor_in_bounds(self) -> bool {
        self.pos <= self.bytes.len()
    }

    /// A source over `bytes` with the cursor at the first byte.
    pub(crate) fn new(bytes: Vec<u8>) -> (source: ByteSource)
        ensures
            source@ == (SourceState { bytes: bytes@, pos: 0, owed_records: 0, record_size: 0 }),
    {
        ByteSource { bytes, pos: 0, owed_records: 0, record_size: 0 }
    }

    /// The number of bytes consumed so far.
    pub fn position(&self) -> (pos: usize)
        ensures
            pos == self@.pos,
            self@.wf(),
    {
        proof {
            use_type_invariant(self);
        }
        self.pos
    }

    /// The number of bytes that have not been consumed.
    pub fn remaining(&self) -> (left: usize)
        ensures
            left == self@.remaining(),
            self@.wf(),
    {
        proof {
            use_type_invariant(self);
        }
        self.bytes.len() - self.pos
    }

    /// Where the header of the next section starts, as [`SourceState::next_section_start`]
    /// says.
    pub fn next_section_start(&self) -> (start: usize)
        ensures
            start == self@.next_section_start(),
            self@.wf(),
    {
        proof {
            use_type_invariant(self);
        }
        let left = self.bytes.len() - self.pos;
        let count: usize = self.owed_records as usize;
        match count.checked_mul(self.record_size) {
            Some(owed) => {
                if owed <= left {
                    self.pos + owed
                } else {
                    self.bytes.len()
                }
            },
            None => self.bytes.len(),
        }
    }

    /// How many records of the section in progress have not been consumed.
    pub fn owed_records(&self) -> (count: u16)
        ensures
            count == self@.owed_records,
            self@.wf(),
    {
        proof {
            use_type_invariant(self);
        }
        self.owed_records
    }

    /// The size in bytes of each record of the section in progress.
    pub fn record_size(&self) -> (size: usize)
        ensures
            size == self@.record_size,
            self@.wf(),
    {
        proof {
            use_type_invariant(self);
        }
        self.record_size
    }

    /// The next `n` bytes, without consuming them; `None` where fewer than `n` are left.
    pub(crate) fn peek(&self, n: usize) -> (bytes: Option<&[u8]>)
        ensures
            self@.wf(),
            bytes is Some <==> n <= self@.remaining(),
            bytes matches Some(b) ==> b@ == self@.bytes.subrange(
                self@.pos as int,
                self@.pos + n,
            ),
    {
        proof {
            use_type_invariant(self);
        }
        if self.bytes.len() - self.pos < n {
            None
        } else {
            Some(slice_subrange(self.bytes.as_slice(), self.pos, self.pos + n))
        }
    }

    /// The `n` bytes that follow the next `skip` bytes, without consuming anything; `None`
    /// where fewer than `skip + n` bytes are left.
    pub(crate) fn window(&self, skip: usize, n: usize) -> (bytes: Option<&[u8]>)
        ensures
            self@.wf(),
            bytes is Some <==> skip + n <= self@.remaining(),
            bytes matches Some(b) ==> b@ == self@.bytes.subrange(
                self@.pos + skip,
                self@.pos + skip + n,
            ),
    {
        proof {
            use_type_invariant(self);
        }
        let left = self.bytes.len() - self.pos;
        if left < skip || left - skip < n {
            None
        } else {
            let from = self.pos + skip;
            Some(slice_subrange(self.bytes.as_slice(), from, from + n))
        }
    }

    /// Puts `more` behind the bytes that the source holds. Nothing is consumed.
    pub(crate) fn feed(&mut self, more: &[u8])
        ensures
            final(self)@ == old(self)@.fed(more@),
    {
        proof {
            use_type_invariant(&*self);
        }
        let mut bytes = slice_to_vec(self.bytes.as_slice());
        bytes.extend_from_slice(more);
        assert(bytes@ =~= self.bytes@ + more@);
        self.bytes = bytes;
    }

    /// Forgets the bytes before the cursor.
    pub(crate) fn compact(&mut self)
        ensures
            final(self)@ == old(self)@.compacted(),
    {
        proof {
            use_type_invariant(&*self);
        }
        let rest = slice_to_vec(
            slice_subrange(self.bytes.as_slice(), self.pos, self.bytes.len()),
        );
        self.pos = 0;
        self.bytes = rest;
    }

    /// Consumes `n` bytes.
    pub(crate) fn advance(&mut self, n: usize)
        requires
            n <= old(self)@.remaining(),
        ensures
            final(self)@ == old(self)@.advanced(n as nat),
    {
        proof {
            use_type_invariant(&*self);
        }
        self.pos = self.pos + n;
    }

    /// Consumes everything that is left.
    pub(crate) fn exhaust(&mut self)
        ensures
            final(self)@ == old(self)@.exhausted(),
    {
        self.pos = self.bytes.len();
    }

    /// Opens the account of a section of `count` records of `size` bytes each.
    pub(crate) fn owe(&mut self, count: u16, size: usize)
        ensures
            final(self)@ == old(self)@.owing(count as nat, size as nat),
    {
        proof {
            use_type_invariant(&*self);
        }
        self.owed_records = count;
        self.record_size = size;
    }

    /// Strikes one record off the account of the section in progress.
    pub(crate) fn settle_record(&mut self)
        requires
            old(self)@.owed_records > 0,
        ensures
            final(self)@ == old(self)@.owing(
                (old(self)@.owed_records - 1) as nat,
                old(self)@.record_size,
            ),
    {
        proof {
            use_type_invariant(&*self);
        }
        self.owed_records = self.owed_records - 1;
    }

    /// Gives up the section in progress: moves the cursor past every record that is still owed
    /// to it, or to the end of the source where the source ends before that. Tells whether all
    /// that was owed was there.
    pub(crate) fn release(&mut self) -> (complete: bool)
        ensures
            final(self)@ == old(self)@.released(),
            complete == (old(self)@.owed() <= old(self)@.remaining()),
            old(self)@.wf(),
    {
        proof {
            use_type_invariant(&*self);
        }
        let left = self.bytes.len() - self.pos;
        let count: usize = self.owed_records as usize;
        let complete = match count.checked_mul(self.record_size) {
            Some(owed) => {
                if owed <= left {
                    self.pos = self.pos + owed;
                    true
                } else {
                    self.pos = self.bytes.len();
                    false
                }
            },
            None => {
                self.pos = self.bytes.len();
                false
            },
        };
        self.owed_records = 0;
        complete
    }
}

} // verus!
