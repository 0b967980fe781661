//! Incremental framing of raw bytes into newline-terminated lines.
//!
//! A `LineBuffer` owns a growable byte accumulator and a cursor marking the
//! start of the unscanned region. Writes append bytes; `next_line` scans the
//! unscanned region for a newline, returns the bytes up to and including it
//! decoded as UTF-8, and advances the cursor. Undecodable trailing bytes that
//! lack a terminating newline stay buffered, so a multi-byte character split
//! across two reads resolves once both halves are present. A compaction step
//! shifts the leftover partial line to the front and gives capacity back after
//! bursts.
//!
//! Two ghost streams drive the contracts: `written_bytes`, every byte ever
//! handed to `write`, and `consumed_bytes`, every byte ever scanned out as a
//! complete line. Well-formedness pins `written == consumed + buffered`, so
//! no byte is lost or duplicated between arrival and line delivery.

use vstd::prelude::*;
use vstd::utf8::{decode_utf8, valid_utf8};

use crate::constants::{
    DEFAULT_LINE_BUFFER_CAPACITY, LINE_BUFFER_HIGH_WATER, LINE_BUFFER_RESET_LIMIT,
    LINE_BUFFER_SMALL_REMAINDER,
};
use crate::utf8::{
    lemma_utf8_prefix_len_bounds, lemma_utf8_prefix_len_whole, lemma_utf8_prefix_valid,
    string_from_utf8, utf8_prefix_len, utf8_valid_up_to,
};

verus! {

/// Index of the first newline byte in `s`, or `-1` when there is none.
pub open spec fn first_newline(s: Seq<u8>) -> int
    decreases s.len(),
{
    if s.len() == 0 {
        -1
    } else if s[0] == 10 {
        0
    } else {
        let r = first_newline(s.drop_first());
        if r < 0 {
            -1
        } else {
            r + 1
        }
    }
}

/// `first_newline` finds the smallest index of a newline byte, if any.
pub proof fn lemma_first_newline_spec(s: Seq<u8>)
    ensures
        -1 <= first_newline(s) < s.len(),
        first_newline(s) >= 0 ==> s[first_newline(s)] == 10,
        forall|j: int| 0 <= j < first_newline(s) ==> s[j] != 10,
        first_newline(s) == -1 ==> forall|j: int| 0 <= j < s.len() ==> s[j] != 10,
    decreases s.len(),
{
    if s.len() != 0 && s[0] != 10 {
        let t = s.drop_first();
        lemma_first_newline_spec(t);
        assert forall|j: int| 0 <= j < first_newline(s) implies s[j] != 10 by {
            if j > 0 {
                assert(s[j] == t[j - 1]);
            }
        }
        if first_newline(s) == -1 {
            assert forall|j: int| 0 <= j < s.len() implies s[j] != 10 by {
                if j > 0 {
                    assert(s[j] == t[j - 1]);
                }
            }
        }
    }
}

/// A scan that stopped at index `i` on a newline found the first one.
pub proof fn lemma_first_newline_at(s: Seq<u8>, i: int)
    requires
        0 <= i < s.len(),
        s[i] == 10,
        forall|j: int| 0 <= j < i ==> s[j] != 10,
    ensures
        first_newline(s) == i,
    decreases i,
{
    if i > 0 {
        lemma_first_newline_at(s.drop_first(), i - 1);
    }
}

/// A scan that saw no newline matches `first_newline` returning `-1`.
pub proof fn lemma_first_newline_none(s: Seq<u8>)
    requires
        forall|j: int| 0 <= j < s.len() ==> s[j] != 10,
    ensures
        first_newline(s) == -1,
    decreases s.len(),
{
    if s.len() != 0 {
        lemma_first_newline_none(s.drop_first());
    }
}

/// The complete (newline-terminated) lines at the front of `s`, in order.
pub open spec fn complete_lines(s: Seq<u8>) -> Seq<Seq<u8>>
    decreases s.len(),
{
    let n = first_newline(s);
    if n < 0 {
        seq![]
    } else if n + 1 <= s.len() {
        seq![s.take(n + 1)] + complete_lines(s.skip(n + 1))
    } else {
        seq![]
    }
}

/// What remains of `s` after all complete lines: the trailing partial line.
pub open spec fn line_rest(s: Seq<u8>) -> Seq<u8>
    decreases s.len(),
{
    let n = first_newline(s);
    if n < 0 {
        s
    } else if n + 1 <= s.len() {
        line_rest(s.skip(n + 1))
    } else {
        s
    }
}

/// How one complete line is decoded: a fully valid line decodes whole; a line
/// whose tail is malformed decodes as its longest valid prefix; a line with no
/// valid prefix at all yields nothing.
pub open spec fn decoded_line(line: Seq<u8>) -> Option<Seq<char>> {
    let k = utf8_prefix_len(line);
    if k == line.len() {
        Some(decode_utf8(line))
    } else if k > 0 {
        Some(decode_utf8(line.take(k)))
    } else {
        None
    }
}

/// The decodings of the complete lines at the front of `s`, in order; a line
/// with no decodable prefix contributes nothing.
pub open spec fn decoded_lines(s: Seq<u8>) -> Seq<Seq<char>>
    decreases s.len(),
{
    let n = first_newline(s);
    if n < 0 {
        seq![]
    } else if n + 1 <= s.len() {
        match decoded_line(s.take(n + 1)) {
            Some(cs) => seq![cs] + decoded_lines(s.skip(n + 1)),
            None => decoded_lines(s.skip(n + 1)),
        }
    } else {
        seq![]
    }
}

/// Lines drain in arrival order: the first complete line of `s` heads the
/// list, and what follows it carries exactly the remaining lines.
pub proof fn lemma_lines_drain_in_order(s: Seq<u8>)
    requires
        first_newline(s) >= 0,
    ensures
        complete_lines(s).len() > 0,
        complete_lines(s)[0] == s.take(first_newline(s) + 1),
        complete_lines(s.skip(first_newline(s) + 1)) == complete_lines(s).drop_first(),
        line_rest(s) == line_rest(s.skip(first_newline(s) + 1)),
{
    lemma_first_newline_spec(s);
    assert(complete_lines(s).drop_first() =~= complete_lines(s.skip(first_newline(s) + 1)));
}

/// A byte run without a newline holds no complete line and is all remainder.
pub proof fn lemma_no_line_without_newline(s: Seq<u8>)
    requires
        first_newline(s) < 0,
    ensures
        complete_lines(s) == Seq::<Seq<u8>>::empty(),
        line_rest(s) == s,
{
    assert(complete_lines(s) =~= Seq::<Seq<u8>>::empty());
}

/// Incremental assembler of newline-terminated lines from raw byte chunks.
pub struct LineBuffer {
    storage: Vec<u8>,
    start: usize,
    end: usize,
    written: Ghost<Seq<u8>>,
    consumed: Ghost<Seq<u8>>,
}

impl View for LineBuffer {
    type V = Seq<u8>;

    /// The buffered bytes not yet returned as part of a line.
    closed spec fn view(&self) -> Seq<u8> {
        self.storage@.subrange(self.start as int, self.end as int)
    }
}

impl LineBuffer {
    /// Every byte ever handed to `write`.
    pub closed spec fn written_bytes(&self) -> Seq<u8> {
        self.written@
    }

    /// Every byte ever scanned out as part of a complete line, in order.
    pub closed spec fn consumed_bytes(&self) -> Seq<u8> {
        self.consumed@
    }

    /// Allocated extent of the accumulator.
    pub closed spec fn spec_capacity(&self) -> nat {
        self.storage@.len()
    }

    /// The cursor sits within the occupied region, the occupied region within
    /// the allocation, and the byte streams balance.
    pub closed spec fn wf(&self) -> bool {
        &&& self.start <= self.end <= self.storage.len()
        &&& self.written@ == self.consumed@ + self@
    }

    /// An assembler with the default initial capacity.
    pub fn new() -> (r: LineBuffer)
        ensures
            r.wf(),
            r@ == Seq::<u8>::empty(),
            r.written_bytes() == Seq::<u8>::empty(),
            r.consumed_bytes() == Seq::<u8>::empty(),
            r.spec_capacity() == DEFAULT_LINE_BUFFER_CAPACITY,
    {
        Self::with_capacity(DEFAULT_LINE_BUFFER_CAPACITY)
    }

    /// An assembler with the given initial capacity.
    pub fn with_capacity(capacity: usize) -> (r: LineBuffer)
        ensures
            r.wf(),
            r@ == Seq::<u8>::empty(),
            r.written_bytes() == Seq::<u8>::empty(),
            r.consumed_bytes() == Seq::<u8>::empty(),
            r.spec_capacity() == capacity,
    {
        let r = LineBuffer {
            storage: vec![0u8; capacity],
            start: 0,
            end: 0,
            written: Ghost(Seq::empty()),
            consumed: Ghost(Seq::empty()),
        };
        proof {
            assert(r@ =~= Seq::<u8>::empty());
        }
        r
    }

    /// Moves the unscanned region to the front of the allocation.
    fn shift_to_front(&mut self)
        requires
            old(self).wf(),
        ensures
            final(self).wf(),
            final(self)@ == old(self)@,
            final(self).written_bytes() == old(self).written_bytes(),
            final(self).consumed_bytes() == old(self).consumed_bytes(),
            final(self).spec_capacity() == old(self).spec_capacity(),
            final(self).unscanned_from_front(),
    {
        let len = self.end - self.start;
        let mut i: usize = 0;
        while i < len
            invariant
                old(self).wf(),
                i <= len,
                len == old(self).end - old(self).start,
                self.start == old(self).start,
                self.end == old(self).end,
                self.written == old(self).written,
                self.consumed == old(self).consumed,
                self.storage.len() == old(self).storage.len(),
                forall|j: int| i <= j < self.storage.len() ==> self.storage[j] == old(self).storage[j],
                forall|j: int| 0 <= j < i ==> self.storage[j] == old(self).storage[self.start + j],
            decreases len - i,
        {
            let b = self.storage[self.start + i];
            self.storage[i] = b;
            i = i + 1;
        }
        self.start = 0;
        self.end = len;
        proof {
            assert(self@ =~= old(self)@);
        }
    }

    /// True when the cursor has been reset to the allocation's front.
    pub closed spec fn unscanned_from_front(&self) -> bool {
        self.start == 0
    }

    /// Appends the first `data_size` bytes of `data` to the accumulator,
    /// growing it as needed.
    pub fn write(&mut self, data: &[u8], data_size: usize)
        requires
            old(self).wf(),
            data_size <= data@.len(),
            old(self)@.len() + data_size <= usize::MAX,
        ensures
            final(self).wf(),
            final(self)@ == old(self)@ + data@.subrange(0, data_size as int),
            final(self).written_bytes() == old(self).written_bytes() + data@.subrange(
                0,
                data_size as int,
            ),
            final(self).consumed_bytes() == old(self).consumed_bytes(),
    {
        if data_size > self.storage.len() - self.end {
            self.shift_to_front();
            while self.storage.len() < self.end + data_size
                invariant
                    self.wf(),
                    self@ == old(self)@,
                    self.written == old(self).written,
                    self.consumed == old(self).consumed,
                    self.unscanned_from_front(),
                    self.end + data_size <= usize::MAX,
                decreases self.end + data_size - self.storage.len(),
            {
                self.storage.push(0);
                proof {
                    assert(self@ =~= old(self)@);
                }
            }
        }
        let ghost mid = *self;
        let mut i: usize = 0;
        while i < data_size
            invariant
                mid.wf(),
                i <= data_size,
                data_size <= data@.len(),
                mid.end + data_size <= mid.storage.len(),
                self.start == mid.start,
                self.end == mid.end,
                self.written == mid.written,
                self.consumed == mid.consumed,
                self.storage.len() == mid.storage.len(),
                forall|j: int| 0 <= j < mid.end ==> self.storage[j] == mid.storage[j],
                forall|j: int| 0 <= j < i ==> self.storage[mid.end + j] == data[j],
            decreases data_size - i,
        {
            let b = data[i];
            self.storage[self.end + i] = b;
            i = i + 1;
        }
        self.end = self.end + data_size;
        self.written = Ghost(self.written@ + data@.subrange(0, data_size as int));
        proof {
            assert(self@ =~= mid@ + data@.subrange(0, data_size as int));
            assert(mid@ == old(self)@);
            assert(self.written@ =~= self.consumed@ + self@);
        }
    }

    /// Scans the unscanned region for a newline. On a hit, consumes the bytes
    /// up to and including it and returns their UTF-8 decoding: the whole
    /// line when it is valid, its longest valid prefix when only the tail is
    /// malformed, and nothing when no prefix decodes. Without a newline,
    /// returns nothing and leaves the buffer untouched.
    pub fn next_line(&mut self) -> (r: Option<String>)
        requires
            old(self).wf(),
        ensures
            final(self).wf(),
            final(self).written_bytes() == old(self).written_bytes(),
            final(self).spec_capacity() == old(self).spec_capacity(),
            first_newline(old(self)@) < 0 ==> {
                &&& final(self)@ == old(self)@
                &&& (r is None)
                &&& final(self).consumed_bytes() == old(self).consumed_bytes()
            },
            first_newline(old(self)@) >= 0 ==> {
                let line = old(self)@.take(first_newline(old(self)@) + 1);
                &&& final(self)@ == old(self)@.skip(first_newline(old(self)@) + 1)
                &&& final(self).consumed_bytes() == old(self).consumed_bytes() + line
                &&& (match decoded_line(line) {
                    Some(cs) => (r is Some) && r->0@ == cs,
                    None => r is None,
                })
            },
    {
        proof {
            lemma_first_newline_spec(old(self)@);
        }
        let mut i: usize = self.start;
        while i < self.end
            invariant
                self == old(self),
                self.wf(),
                old(self).start <= i <= self.end,
                forall|j: int| self.start <= j < i ==> self.storage[j] != 10,
            decreases self.end - i,
        {
            if self.storage[i] == 10 {
                proof {
                    lemma_first_newline_at(self@, i - self.start);
                }
                let line_len = i + 1 - self.start;
                let mut line: Vec<u8> = Vec::new();
                let mut j: usize = 0;
                while j < line_len
                    invariant
                        self == old(self),
                        self.wf(),
                        self.start <= i < self.end,
                        line_len == i + 1 - self.start,
                        j <= line_len,
                        line@ == self@.subrange(0, j as int),
                    decreases line_len - j,
                {
                    line.push(self.storage[self.start + j]);
                    proof {
                        assert(line@ =~= self@.subrange(0, j + 1 as int));
                    }
                    j = j + 1;
                }
                let ghost n = first_newline(old(self)@);
                let ghost line_bytes = old(self)@.take(n + 1);
                proof {
                    assert(line@ =~= line_bytes);
                }
                self.start = i + 1;
                self.consumed = Ghost(self.consumed@ + line_bytes);
                proof {
                    assert(self@ =~= old(self)@.skip(n + 1));
                    assert(old(self).consumed@ + (line_bytes + self@) =~= old(self).consumed@
                        + line_bytes + self@);
                    assert(old(self)@ =~= line_bytes + self@);
                }
                return Self::decode_line(line);
            }
            i = i + 1;
        }
        proof {
            lemma_first_newline_none(self@);
        }
        None
    }

    /// Decodes one complete line per `decoded_line`.
    fn decode_line(line: Vec<u8>) -> (r: Option<String>)
        ensures
            match decoded_line(line@) {
                Some(cs) => (r is Some) && r->0@ == cs,
                None => r is None,
            },
    {
        let k = utf8_valid_up_to(line.as_slice());
        proof {
            lemma_utf8_prefix_len_bounds(line@);
        }
        if k == line.len() {
            proof {
                lemma_utf8_prefix_len_whole(line@);
                assert(line@.take(k as int) =~= line@);
            }
            match string_from_utf8(line) {
                Some(s) => Some(s),
                None => {
                    proof {
                        assert(false);
                    }
                    None
                },
            }
        } else if k > 0 {
            let ghost whole = line@;
            let mut line = line;
            line.truncate(k);
            proof {
                lemma_utf8_prefix_valid(whole);
                assert(line@ =~= whole.take(utf8_prefix_len(whole)));
            }
            match string_from_utf8(line) {
                Some(s) => Some(s),
                None => {
                    proof {
                        assert(false);
                    }
                    None
                },
            }
        } else {
            None
        }
    }

    /// Whether a complete line awaits in the unscanned region.
    pub fn has_complete_line(&self) -> (r: bool)
        requires
            self.wf(),
        ensures
            r == (first_newline(self@) >= 0),
    {
        proof {
            lemma_first_newline_spec(self@);
        }
        let mut i: usize = self.start;
        while i < self.end
            invariant
                self.wf(),
                self.start <= i <= self.end,
                forall|j: int| self.start <= j < i ==> self.storage[j] != 10,
            decreases self.end - i,
        {
            if self.storage[i] == 10 {
                proof {
                    lemma_first_newline_at(self@, i - self.start);
                }
                return true;
            }
            i = i + 1;
        }
        proof {
            lemma_first_newline_none(self@);
        }
        false
    }

    /// Shifts the leftover partial line to the front and reclaims capacity:
    /// back to the default once the allocation exceeds the high-water mark
    /// while retained data is small, and down to what the data needs once the
    /// allocation balloons past the reset limit.
    pub fn shift_remaining(&mut self)
        requires
            old(self).wf(),
        ensures
            final(self).wf(),
            final(self)@ == old(self)@,
            final(self).written_bytes() == old(self).written_bytes(),
            final(self).consumed_bytes() == old(self).consumed_bytes(),
            final(self).spec_capacity() == shrink_policy(
                old(self).spec_capacity(),
                old(self)@.len(),
            ),
    {
        self.shift_to_front();
        let remaining = self.end;
        if self.storage.len() > LINE_BUFFER_HIGH_WATER && remaining < LINE_BUFFER_SMALL_REMAINDER {
            self.storage.truncate(DEFAULT_LINE_BUFFER_CAPACITY);
            proof {
                assert(self@ =~= old(self)@);
            }
        } else if self.storage.len() > LINE_BUFFER_RESET_LIMIT {
            let target = if remaining > DEFAULT_LINE_BUFFER_CAPACITY {
                remaining
            } else {
                DEFAULT_LINE_BUFFER_CAPACITY
            };
            self.storage.truncate(target);
            proof {
                assert(self@ =~= old(self)@);
            }
        }
    }

    /// Allocated extent of the accumulator.
    pub fn capacity(&self) -> (r: usize)
        ensures
            r == self.spec_capacity(),
    {
        self.storage.len()
    }

    /// Number of buffered bytes not yet returned as part of a line.
    pub fn len(&self) -> (r: usize)
        requires
            self.wf(),
        ensures
            r == self@.len(),
    {
        self.end - self.start
    }

    /// True when no bytes are buffered.
    pub fn is_empty(&self) -> (r: bool)
        requires
            self.wf(),
        ensures
            r == (self@.len() == 0),
    {
        self.end == self.start
    }
}

/// Capacity after compaction, as a function of the old capacity and of how
/// much data is retained.
pub open spec fn shrink_policy(capacity: nat, remaining: nat) -> nat {
    if capacity > LINE_BUFFER_HIGH_WATER && remaining < LINE_BUFFER_SMALL_REMAINDER {
        DEFAULT_LINE_BUFFER_CAPACITY as nat
    } else if capacity > LINE_BUFFER_RESET_LIMIT {
        if remaining > DEFAULT_LINE_BUFFER_CAPACITY {
            remaining
        } else {
            DEFAULT_LINE_BUFFER_CAPACITY as nat
        }
    } else {
        capacity
    }
}

impl Default for LineBuffer {
    /// An assembler with the default initial capacity.
    fn default() -> (r: LineBuffer)
        ensures
            r.wf(),
            r@ == Seq::<u8>::empty(),
            r.written_bytes() == Seq::<u8>::empty(),
            r.consumed_bytes() == Seq::<u8>::empty(),
            r.spec_capacity() == DEFAULT_LINE_BUFFER_CAPACITY,
    {
        LineBuffer::new()
    }
}

/// No byte is lost or duplicated: at every point, the bytes ever written are
/// exactly the bytes returned in lines followed by the bytes still buffered.
pub proof fn lemma_no_byte_loss(buf: &LineBuffer)
    requires
        buf.wf(),
    ensures
        buf.written_bytes() == buf.consumed_bytes() + buf@,
{
}

/// Splitting a transmission across two writes buffers the same stream as one
/// combined write: a multi-byte character split at a read boundary reassembles
/// once both halves are present.
pub proof fn lemma_split_write_same_stream(pending: Seq<u8>, first: Seq<u8>, second: Seq<u8>)
    ensures
        (pending + first) + second == pending + (first + second),
{
    assert((pending + first) + second =~= pending + (first + second));
}

/// A line whose UTF-8 encoding arrives in two pieces decodes correctly once
/// both are present: the assembler sees only their concatenation, and the
/// concatenation of the pieces of an encoding decodes to exactly the encoded
/// characters.
pub proof fn lemma_split_encoding_decodes(line: Seq<char>, first: Seq<u8>, second: Seq<u8>)
    requires
        first + second == vstd::utf8::encode_utf8(line),
    ensures
        decoded_line(first + second) == Some(line),
{
    vstd::utf8::encode_utf8_valid_utf8(line);
    lemma_valid_line_decodes_whole(first + second);
    vstd::utf8::encode_utf8_decode_utf8(line);
}

/// A fully valid UTF-8 line decodes whole; nothing of it is dropped.
pub proof fn lemma_valid_line_decodes_whole(line: Seq<u8>)
    requires
        valid_utf8(line),
    ensures
        decoded_line(line) == Some(decode_utf8(line)),
{
    lemma_utf8_prefix_len_whole(line);
}

/// A valid UTF-8 line round-trips: re-encoding the characters a line was
/// returned as reassembles exactly the bytes the line consumed. Together with
/// `lemma_no_byte_loss`, the lines ever returned carry, byte for byte, the
/// stream ever written.
pub proof fn lemma_line_round_trip(line: Seq<u8>)
    requires
        valid_utf8(line),
    ensures
        decoded_line(line) is Some,
        vstd::utf8::encode_utf8(decoded_line(line)->0) == line,
{
    lemma_valid_line_decodes_whole(line);
    vstd::utf8::decode_utf8_encode_utf8(line);
}

} // verus!
