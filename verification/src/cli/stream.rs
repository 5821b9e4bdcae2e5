//! Byte-level helpers for the CLI's output pipes: bounded stderr record
//! framing, extraction of complete UTF-8 text from partial reads, and
//! diagnostic previews.

use vstd::prelude::*;
use vstd::utf8::{
    decode_utf8, decode_utf8_split, is_char_boundary, length_of_first_scalar, pop_first_scalar,
    valid_utf8, valid_utf8_split,
};

verus! {

/// `String::from_utf8_lossy`: the bytes decoded as UTF-8, with each invalid
/// sequence replaced by U+FFFD.
pub uninterp spec fn lossy_utf8(bytes: Seq<u8>) -> Seq<char>;

/// Decodes `bytes` with `String::from_utf8_lossy`. Claimed: the result is the
/// named lossy decoding of the bytes, and for valid UTF-8 it is exactly the
/// decoded text (the documented borrowed case).
#[verifier::external_body]
pub fn decode_lossy(bytes: &[u8]) -> (r: String)
    ensures
        r@ == lossy_utf8(bytes@),
        valid_utf8(bytes@) ==> r@ == decode_utf8(bytes@),
{
    String::from_utf8_lossy(bytes).into_owned()
}

/// What `std::str::from_utf8` reports about a byte sequence.
pub enum Utf8Check {
    /// The whole sequence is valid UTF-8.
    Valid,
    /// The first `valid_up_to` bytes are valid; the input ends in the middle of a character.
    Incomplete { valid_up_to: usize },
    /// The first `valid_up_to` bytes are valid, then an invalid sequence follows.
    Invalid { valid_up_to: usize },
}

/// `valid_up_to` is the longest valid prefix of `bytes` that `from_utf8` reports.
pub open spec fn longest_valid_prefix(bytes: Seq<u8>, v: int) -> bool {
    &&& 0 <= v < bytes.len()
    &&& valid_utf8(bytes.take(v))
    &&& forall|k: int| v < k <= bytes.len() ==> !valid_utf8(#[trigger] bytes.take(k))
}

/// What `from_utf8` reports about `bytes`: success exactly on valid UTF-8; on
/// failure the longest valid prefix. A failure that is only the end of the
/// input arriving inside a character (the input can still be completed to
/// valid UTF-8) is reported as incomplete, and only such a failure: after the
/// valid prefix, an incomplete report leaves the start of a character that
/// more bytes can complete.
pub open spec fn check_consistent(bytes: Seq<u8>, c: Utf8Check) -> bool {
    &&& (c is Valid) <==> valid_utf8(bytes)
    &&& c matches Utf8Check::Incomplete { valid_up_to } ==> longest_valid_prefix(
        bytes,
        valid_up_to as int,
    )
    &&& c matches Utf8Check::Incomplete { valid_up_to } ==> exists|ext: Seq<u8>| #[trigger]
        valid_utf8(bytes.skip(valid_up_to as int) + ext)
    &&& c matches Utf8Check::Invalid { valid_up_to } ==> longest_valid_prefix(
        bytes,
        valid_up_to as int,
    )
    &&& forall|ext: Seq<u8>| #[trigger]
        valid_utf8(bytes + ext) && !valid_utf8(bytes) ==> c is Incomplete
}

/// Runs `std::str::from_utf8`. Claimed (from its documentation): it succeeds
/// exactly on valid UTF-8; on failure `valid_up_to` is the maximum index whose
/// prefix is valid UTF-8, and `error_len() == None` ("the end of the input was
/// reached unexpectedly", so more data may complete it) is reported when the
/// input is the start of some valid UTF-8; `error_len() == None` also means
/// that the bytes after the valid prefix are the unfinished start of a
/// character ("a valid char whose UTF-8 byte sequence is spanning multiple
/// chunks"), while `Some` means an unexpected byte was found.
#[verifier::external_body]
pub fn check_utf8(bytes: &[u8]) -> (r: Utf8Check)
    ensures
        check_consistent(bytes@, r),
{
    match std::str::from_utf8(bytes) {
        Ok(_) => Utf8Check::Valid,
        Err(error) => match error.error_len() {
            None => Utf8Check::Incomplete { valid_up_to: error.valid_up_to() },
            Some(_) => Utf8Check::Invalid { valid_up_to: error.valid_up_to() },
        },
    }
}

/// The text `take_valid_utf8` extracts from `buffer`, and what it leaves
/// behind, given what `from_utf8` reported.
pub open spec fn take_valid_spec(buffer: Seq<u8>, check: Utf8Check) -> (Option<Seq<char>>, Seq<u8>) {
    if buffer.len() == 0 {
        (None, buffer)
    } else {
        match check {
            Utf8Check::Valid => (Some(decode_utf8(buffer)), Seq::empty()),
            Utf8Check::Incomplete { valid_up_to } => if valid_up_to == 0 {
                (None, buffer)
            } else {
                (
                    Some(decode_utf8(buffer.take(valid_up_to as int))),
                    buffer.skip(valid_up_to as int),
                )
            },
            Utf8Check::Invalid { .. } => (Some(lossy_utf8(buffer)), Seq::empty()),
        }
    }
}

/// Decode the valid UTF-8 prefix currently available in `buffer`, given the
/// report of `from_utf8` on it.
///
/// A read may end in the middle of a multi-byte character: only that
/// incomplete suffix is retained for the next chunk. Actually invalid input is
/// decoded lossily so malformed diagnostics cannot stall the monitor.
pub fn take_valid_utf8_checked(buffer: &mut Vec<u8>, check: Utf8Check) -> (r: Option<String>)
    requires
        check_consistent(old(buffer)@, check),
    ensures
        (match r {
            None => None,
            Some(s) => Some(s@),
        }, final(buffer)@) == take_valid_spec(old(buffer)@, check),
{
    if buffer.len() == 0 {
        return None;
    }
    match check {
        Utf8Check::Valid => {
            let text = decode_lossy(buffer.as_slice());
            buffer.clear();
            Some(text)
        },
        Utf8Check::Incomplete { valid_up_to } => {
            if valid_up_to == 0 {
                return None;
            }
            let ghost whole = buffer@;
            let suffix = buffer.split_off(valid_up_to);
            let text = decode_lossy(buffer.as_slice());
            *buffer = suffix;
            assert(buffer@ =~= whole.skip(valid_up_to as int));
            Some(text)
        },
        Utf8Check::Invalid { .. } => {
            let text = decode_lossy(buffer.as_slice());
            buffer.clear();
            Some(text)
        },
    }
}

/// Decode the valid UTF-8 prefix currently available in `buffer`.
///
/// Returns `None` for an empty buffer and for a buffer holding only the start
/// of one character; the incomplete suffix of a read stays in `buffer`.
pub fn take_valid_utf8(buffer: &mut Vec<u8>) -> (r: Option<String>)
    ensures
        exists|check: Utf8Check|
            (match r {
                None => None,
                Some(s) => Some(s@),
            }, #[trigger] final(buffer)@) == take_valid_spec(old(buffer)@, check) && check_consistent(
                old(buffer)@,
                check,
            ),
        valid_utf8(old(buffer)@) && old(buffer)@.len() > 0 ==> (r matches Some(s) && s@
            == decode_utf8(old(buffer)@) && final(buffer)@.len() == 0),
        old(buffer)@.len() > 0 && (forall|ext: Seq<u8>| !#[trigger] valid_utf8(old(buffer)@ + ext))
            ==> (r matches Some(s) && s@ == lossy_utf8(old(buffer)@)) && final(buffer)@.len() == 0,
{
    let check = check_utf8(buffer.as_slice());
    let ghost c = check;
    proof {
        let whole = buffer@;
        if forall|ext: Seq<u8>| !#[trigger] valid_utf8(whole + ext) {
            assert(whole + Seq::<u8>::empty() =~= whole);
            assert(!valid_utf8(whole + Seq::<u8>::empty()));
            if let Utf8Check::Incomplete { valid_up_to } = c {
                let v = valid_up_to as int;
                let ext = choose|ext: Seq<u8>| #[trigger] valid_utf8(whole.skip(v) + ext);
                vstd::utf8::valid_utf8_concat(whole.take(v), whole.skip(v) + ext);
                assert(whole.take(v) + (whole.skip(v) + ext) =~= whole + ext);
                assert(valid_utf8(whole + ext));
            }
            assert(c is Invalid);
        }
    }
    let r = take_valid_utf8_checked(buffer, check);
    assert((match r {
        None => None,
        Some(s) => Some(s@),
    }, buffer@) == take_valid_spec(old(buffer)@, c));
    r
}

/// A valid prefix of valid UTF-8 ends at a character boundary, the rest is
/// valid too, and decoding splits there.
pub proof fn lemma_valid_prefix_splits(whole: Seq<u8>, v: int)
    requires
        valid_utf8(whole),
        0 <= v <= whole.len(),
        valid_utf8(whole.take(v)),
    ensures
        is_char_boundary(whole, v),
        valid_utf8(whole.skip(v)),
        decode_utf8(whole) == decode_utf8(whole.take(v)) + decode_utf8(whole.skip(v)),
{
    lemma_valid_prefix_boundary(whole, v);
    valid_utf8_split(whole, v);
    decode_utf8_split(whole, v);
    assert(whole.subrange(0, v) =~= whole.take(v));
    assert(whole.subrange(v, whole.len() as int) =~= whole.skip(v));
}

proof fn lemma_valid_prefix_boundary(whole: Seq<u8>, v: int)
    requires
        valid_utf8(whole),
        0 <= v <= whole.len(),
        valid_utf8(whole.take(v)),
    ensures
        is_char_boundary(whole, v),
    decreases whole.len(),
{
    if v > 0 {
        let p = whole.take(v);
        reveal_with_fuel(valid_utf8, 1);
        assert(p[0] == whole[0]);
        let l = length_of_first_scalar(whole);
        assert(length_of_first_scalar(p) == l);
        assert(l <= v);
        assert(pop_first_scalar(p) =~= pop_first_scalar(whole).take(v - l));
        assert(pop_first_scalar(whole).len() < whole.len());
        lemma_valid_prefix_boundary(pop_first_scalar(whole), v - l);
    }
}

/// The text of an optional extraction.
pub open spec fn taken_text(t: Option<Seq<char>>) -> Seq<char> {
    match t {
        Some(x) => x,
        None => Seq::empty(),
    }
}

/// Valid UTF-8 output arriving in two reads, split anywhere (even inside a
/// character), is decoded in full and exactly once: the text taken after the
/// first read followed by the text taken after the second is the decoding of
/// all the output, and nothing is left over.
pub proof fn lemma_two_reads_decode_whole(whole: Seq<u8>, k: int, c1: Utf8Check, c2: Utf8Check)
    requires
        valid_utf8(whole),
        0 <= k <= whole.len(),
        check_consistent(whole.take(k), c1),
        check_consistent(take_valid_spec(whole.take(k), c1).1 + whole.skip(k), c2),
    ensures
        ({
            let (t1, rest1) = take_valid_spec(whole.take(k), c1);
            let (t2, rest2) = take_valid_spec(rest1 + whole.skip(k), c2);
            rest2.len() == 0 && taken_text(t1) + taken_text(t2) == decode_utf8(whole)
        }),
{
    let first = whole.take(k);
    let (t1, rest1) = take_valid_spec(first, c1);
    let buffer2 = rest1 + whole.skip(k);
    assert(first + whole.skip(k) =~= whole);
    assert(valid_utf8(first + whole.skip(k)));
    if valid_utf8(first) {
        lemma_valid_prefix_splits(whole, k);
        assert(buffer2 =~= whole.skip(k));
        if first.len() == 0 {
            assert(whole.skip(k) =~= whole);
        }
        assert(decode_utf8(Seq::<u8>::empty()) =~= Seq::<char>::empty());
        assert(taken_text(t1) + taken_text(take_valid_spec(buffer2, c2).0) =~= decode_utf8(whole));
    } else {
        assert(c1 is Incomplete);
        let v = c1->Incomplete_valid_up_to as int;
        assert(first.take(v) =~= whole.take(v));
        lemma_valid_prefix_splits(whole, v);
        if v == 0 {
            assert(buffer2 =~= whole);
            assert(whole.take(0) =~= Seq::<u8>::empty());
            assert(decode_utf8(Seq::<u8>::empty()) =~= Seq::<char>::empty());
            assert(taken_text(t1) + taken_text(take_valid_spec(buffer2, c2).0) =~= decode_utf8(
                whole,
            ));
        } else {
            assert(buffer2 =~= whole.skip(v));
            assert(taken_text(t1) + taken_text(take_valid_spec(buffer2, c2).0) =~= decode_utf8(
                whole,
            ));
        }
    }
}

/// At most `max_chars` Unicode scalar values of `text`, for diagnostic logging.
pub fn text_preview(text: &str, max_chars: usize) -> (r: String)
    ensures
        r@ == text@.take(if text@.len() < max_chars { text@.len() as int } else { max_chars as int }),
{
    let chars = crate::text::chars_of(text);
    let n = if chars.len() < max_chars {
        chars.len()
    } else {
        max_chars
    };
    let head = crate::text::slice_chars(&chars, 0, n);
    assert(head@ =~= text@.take(n as int));
    crate::text::string_from_chars(head.as_slice())
}

/// Maximum stderr bytes retained while waiting for a record terminator.
pub const MAX_STDERR_RECORD_BYTES: usize = 65536;

/// State of a [`BoundedLineFramer`] as a mathematical value.
pub struct LineModel {
    pub buffer: Seq<u8>,
    pub discarding: bool,
}

/// The record a completed line yields: its bytes without one trailing `\r`,
/// or nothing when that leaves it empty.
pub open spec fn line_record(buffer: Seq<u8>) -> Option<Seq<u8>> {
    let b = if buffer.len() > 0 && buffer.last() == 13u8 {
        buffer.drop_last()
    } else {
        buffer
    };
    if b.len() == 0 {
        None
    } else {
        Some(b)
    }
}

/// One byte of input with record limit `max`.
pub open spec fn line_step(s: LineModel, byte: u8, max: nat) -> (LineModel, Seq<Seq<u8>>) {
    if s.discarding {
        (LineModel { buffer: s.buffer, discarding: byte != 10u8 }, Seq::empty())
    } else if byte == 10u8 {
        (
            LineModel { buffer: Seq::empty(), discarding: false },
            match line_record(s.buffer) {
                Some(r) => seq![r],
                None => Seq::empty(),
            },
        )
    } else if s.buffer.len() == max {
        (LineModel { buffer: Seq::empty(), discarding: true }, Seq::empty())
    } else {
        (LineModel { buffer: s.buffer.push(byte), discarding: false }, Seq::empty())
    }
}

/// Feeding `input` byte by byte: the final state and the raw records completed.
pub open spec fn line_run(s: LineModel, input: Seq<u8>, max: nat) -> (LineModel, Seq<Seq<u8>>)
    decreases input.len(),
{
    if input.len() == 0 {
        (s, Seq::empty())
    } else {
        let (mid, recs) = line_run(s, input.drop_last(), max);
        let (next, more) = line_step(mid, input.last(), max);
        (next, recs + more)
    }
}

/// The text of a record as `from_utf8_lossy` decodes it: exactly its
/// characters when it is valid UTF-8, the lossy decoding otherwise.
pub open spec fn record_text(rec: Seq<u8>) -> Seq<char> {
    if valid_utf8(rec) {
        decode_utf8(rec)
    } else {
        lossy_utf8(rec)
    }
}

/// The text of each record, as `from_utf8_lossy` decodes it.
pub open spec fn records_text(recs: Seq<Seq<u8>>) -> Seq<Seq<char>> {
    recs.map_values(|r: Seq<u8>| record_text(r))
}

pub open spec fn strings_view(v: Seq<String>) -> Seq<Seq<char>> {
    v.map_values(|s: String| s@)
}

/// Splits stderr into newline-terminated records while bounding the memory a
/// single newline-free record may occupy.
pub struct BoundedLineFramer {
    buffer: Vec<u8>,
    discarding: bool,
    max_bytes: usize,
}

impl View for BoundedLineFramer {
    type V = LineModel;

    closed spec fn view(&self) -> LineModel {
        LineModel { buffer: self.buffer@, discarding: self.discarding }
    }
}

impl BoundedLineFramer {
    /// The record limit this framer was made with.
    pub closed spec fn limit(&self) -> nat {
        self.max_bytes as nat
    }

    /// The buffer never exceeds the record limit.
    pub closed spec fn wf(&self) -> bool {
        self.buffer@.len() <= self.max_bytes
    }

    pub fn new(max_bytes: usize) -> (r: Self)
        ensures
            r.wf(),
            r.limit() == max_bytes,
            r@ == (LineModel { buffer: Seq::empty(), discarding: false }),
    {
        BoundedLineFramer { buffer: Vec::new(), discarding: false, max_bytes }
    }

    /// Bytes of the unfinished record held so far.
    pub fn buffered_len(&self) -> (r: usize)
        ensures
            r == self@.buffer.len(),
    {
        self.buffer.len()
    }

    /// Whether an oversized record is being skipped up to its newline.
    pub fn is_discarding(&self) -> (r: bool)
        ensures
            r == self@.discarding,
    {
        self.discarding
    }

    /// Feed raw bytes; returns every record completed by a newline.
    pub fn push_chunk(&mut self, chunk: &[u8]) -> (records: Vec<String>)
        requires
            old(self).wf(),
        ensures
            final(self).wf(),
            final(self).limit() == old(self).limit(),
            final(self)@ == line_run(old(self)@, chunk@, old(self).limit()).0,
            strings_view(records@) == records_text(line_run(old(self)@, chunk@, old(self).limit()).1),
    {
        let mut records: Vec<String> = Vec::new();
        let mut i: usize = 0;
        let ghost start = self@;
        while i < chunk.len()
            invariant
                self.wf(),
                self.limit() == old(self).limit(),
                start == old(self)@,
                0 <= i <= chunk@.len(),
                self@ == line_run(start, chunk@.take(i as int), self.limit()).0,
                strings_view(records@) == records_text(
                    line_run(start, chunk@.take(i as int), self.limit()).1,
                ),
            decreases chunk@.len() - i,
        {
            let byte = chunk[i];
            let ghost before = records@;
            let ghost prior = line_run(start, chunk@.take(i as int), self.limit());
            assert(chunk@.take(i + 1).drop_last() =~= chunk@.take(i as int));
            assert(chunk@.take(i + 1).last() == byte);
            if self.discarding {
                if byte == 10u8 {
                    self.discarding = false;
                }
                assert(records_text(prior.1 + Seq::<Seq<u8>>::empty()) =~= records_text(prior.1));
            } else if byte == 10u8 {
                match self.take_record() {
                    Some(r) => {
                        records.push(r);
                        let ghost rec = line_record(prior.0.buffer).unwrap();
                        assert(strings_view(records@) =~= strings_view(before) + seq![r@]);
                        assert(records_text(prior.1 + seq![rec]) =~= records_text(prior.1) + seq![record_text(rec)]);
                    },
                    None => {
                        assert(records_text(prior.1 + Seq::<Seq<u8>>::empty()) =~= records_text(prior.1));
                    },
                }
                self.buffer.clear();
            } else if self.buffer.len() == self.max_bytes {
                self.buffer.clear();
                self.discarding = true;
                assert(records_text(prior.1 + Seq::<Seq<u8>>::empty()) =~= records_text(prior.1));
            } else {
                self.buffer.push(byte);
                assert(records_text(prior.1 + Seq::<Seq<u8>>::empty()) =~= records_text(prior.1));
            }
            i = i + 1;
        }
        assert(chunk@.take(chunk@.len() as int) =~= chunk@);
        records
    }

    /// End of stream: the final unterminated record, unless it was being discarded.
    pub fn finish(&mut self) -> (r: Option<String>)
        requires
            old(self).wf(),
        ensures
            final(self).wf(),
            final(self).limit() == old(self).limit(),
            final(self)@ == (LineModel { buffer: Seq::empty(), discarding: false }),
            old(self)@.discarding ==> r is None,
            !old(self)@.discarding ==> match line_record(old(self)@.buffer) {
                None => r is None,
                Some(rec) => (r matches Some(s) && s@ == record_text(rec) && s@ == lossy_utf8(rec)),
            },
    {
        if self.discarding {
            self.discarding = false;
            self.buffer.clear();
            None
        } else {
            let r = self.take_record();
            self.buffer.clear();
            r
        }
    }

    /// The record in the buffer: its bytes without one trailing `\r`, decoded
    /// lossily, or nothing when empty. Leaves at most an empty buffer behind.
    pub fn take_record(&mut self) -> (r: Option<String>)
        requires
            old(self).wf(),
        ensures
            final(self).wf(),
            final(self).limit() == old(self).limit(),
            final(self)@.discarding == old(self)@.discarding,
            final(self)@.buffer.len() == 0,
            match line_record(old(self)@.buffer) {
                None => r is None,
                Some(rec) => (r matches Some(s) && s@ == record_text(rec) && s@ == lossy_utf8(rec)),
            },
    {
        let n = self.buffer.len();
        if n > 0 && self.buffer[n - 1] == 13u8 {
            self.buffer.pop();
        }
        if self.buffer.len() == 0 {
            return None;
        }
        let record = decode_lossy(self.buffer.as_slice());
        self.buffer.clear();
        Some(record)
    }
}

/// Feeding `a` and then `b` is the same as feeding `a + b`.
pub proof fn lemma_line_run_concat(s: LineModel, a: Seq<u8>, b: Seq<u8>, max: nat)
    ensures
        line_run(s, a + b, max) == (
            line_run(line_run(s, a, max).0, b, max).0,
            line_run(s, a, max).1 + line_run(line_run(s, a, max).0, b, max).1,
        ),
    decreases b.len(),
{
    if b.len() == 0 {
        assert(a + b =~= a);
        assert(line_run(s, a, max).1 + Seq::<Seq<u8>>::empty() =~= line_run(s, a, max).1);
    } else {
        assert((a + b).drop_last() =~= a + b.drop_last());
        lemma_line_run_concat(s, a, b.drop_last(), max);
        let first = line_run(s, a, max).1;
        let mid = line_run(line_run(s, a, max).0, b.drop_last(), max);
        let st = line_step(mid.0, b.last(), max);
        assert(first + mid.1 + st.1 =~= first + (mid.1 + st.1));
    }
}

/// Every stderr record is non-empty, holds no newline, and is at most `max`
/// bytes long; the buffer itself never exceeds `max` bytes.
pub proof fn lemma_records_bounded(s: LineModel, input: Seq<u8>, max: nat)
    requires
        s.buffer.len() <= max,
        forall|k: int| 0 <= k < s.buffer.len() ==> s.buffer[k] != 10u8,
    ensures
        line_run(s, input, max).0.buffer.len() <= max,
        forall|k: int|
            0 <= k < line_run(s, input, max).0.buffer.len() ==> line_run(s, input, max).0.buffer[k]
                != 10u8,
        forall|i: int|
            #![trigger line_run(s, input, max).1[i]]
            0 <= i < line_run(s, input, max).1.len() ==> {
                let r = line_run(s, input, max).1[i];
                &&& 0 < r.len() <= max
                &&& forall|k: int| 0 <= k < r.len() ==> r[k] != 10u8
            },
    decreases input.len(),
{
    if input.len() > 0 {
        lemma_records_bounded(s, input.drop_last(), max);
        let (mid, recs) = line_run(s, input.drop_last(), max);
        let (next, more) = line_step(mid, input.last(), max);
        if !mid.discarding && input.last() != 10u8 && mid.buffer.len() != max {
            assert forall|k: int| 0 <= k < next.buffer.len() implies next.buffer[k] != 10u8 by {
                if k < mid.buffer.len() {
                    assert(next.buffer[k] == mid.buffer[k]);
                }
            }
        }
        assert forall|i: int|
            #![trigger line_run(s, input, max).1[i]]
            0 <= i < line_run(s, input, max).1.len() implies {
                let r = line_run(s, input, max).1[i];
                &&& 0 < r.len() <= max
                &&& forall|k: int| 0 <= k < r.len() ==> r[k] != 10u8
            } by {
            if i < recs.len() {
                assert(line_run(s, input, max).1[i] == recs[i]);
            } else {
                let r = line_run(s, input, max).1[i];
                assert(r == more[i - recs.len()]);
                assert forall|k: int| 0 <= k < r.len() implies r[k] != 10u8 by {
                    assert(r[k] == mid.buffer[k]);
                }
            }
        }
    }
}

} // verus!
