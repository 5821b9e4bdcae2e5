//! Incremental framing of multi-line JSON objects from the CLI's stdout.
//!
//! The Filen CLI pretty-prints JSON events across multiple lines. The framer
//! accumulates characters until a complete top-level JSON object has been
//! seen. It is aware of JSON string literals and escape sequences, so braces
//! inside file names cannot corrupt the depth tracking; it recovers from
//! stray closing braces in plain-text output, and it caps the buffer size.
//! Oversized objects are discarded while their structure is still tracked.

use crate::text::{
    all_ws, char_width, chars_of, is_blank, lemma_utf8_len_push, slice_chars, string_from_chars,
    trim, trim_bounds, utf8_len, utf8_width, is_trimmed, lemma_trim,
};
use vstd::prelude::*;

verus! {

/// Maximum bytes buffered while waiting for a JSON object to complete.
pub const MAX_BUFFER_BYTES: usize = 1048576;

/// A complete unit of CLI output: either a JSON object or a plain text line.
#[derive(Debug, PartialEq, Eq)]
pub enum Frame {
    Json(String),
    Text(String),
}

/// Abstract value of a [`Frame`].
pub enum FrameView {
    Json(Seq<char>),
    Text(Seq<char>),
}

impl View for Frame {
    type V = FrameView;

    open spec fn view(&self) -> FrameView {
        match self {
            Frame::Json(s) => FrameView::Json(s@),
            Frame::Text(s) => FrameView::Text(s@),
        }
    }
}

/// The framer's state as a mathematical value.
pub struct FramerModel {
    pub buffer: Seq<char>,
    pub depth: int,
    pub in_string: bool,
    pub escaped: bool,
    pub discarding_text: bool,
    pub discarding: bool,
    pub discard_line_start: bool,
    pub discard_closing_line: bool,
}

/// The state of a fresh framer.
pub open spec fn initial_model() -> FramerModel {
    FramerModel {
        buffer: Seq::empty(),
        depth: 0,
        in_string: false,
        escaped: false,
        discarding_text: false,
        discarding: false,
        discard_line_start: false,
        discard_closing_line: false,
    }
}

/// The frame completed by a buffer whose object (if any) is closed at `depth`:
/// nothing for blank content, otherwise the trimmed content, as JSON when it
/// is a balanced object.
pub open spec fn complete_frame(buffer: Seq<char>, depth: int) -> Seq<FrameView> {
    let t = trim(buffer);
    if t.len() == 0 {
        Seq::empty()
    } else if t[0] == '{' && depth == 0 {
        seq![FrameView::Json(t)]
    } else {
        seq![FrameView::Text(t)]
    }
}

/// Result of the column-zero closing-brace detector while discarding.
pub open spec fn discard_track(s: FramerModel, ch: char) -> (bool, bool, bool) {
    // (boundary, discard_line_start, discard_closing_line)
    if !s.discarding {
        (false, s.discard_line_start, s.discard_closing_line)
    } else if ch == '\n' {
        (s.discard_closing_line, true, false)
    } else if (ch == '\r' || ch == ' ' || ch == '\t') && s.discard_closing_line {
        (false, s.discard_line_start, s.discard_closing_line)
    } else if ch == '}' && s.discard_line_start {
        (false, false, true)
    } else {
        (false, false, false)
    }
}

/// String-literal and brace-depth tracking for one character inside an object.
/// The depth saturates at `i32::MAX` (more than two billion unclosed braces).
pub open spec fn lex_track(s: FramerModel, ch: char) -> (bool, bool, int) {
    // (in_string, escaped, depth)
    if s.in_string {
        if s.escaped {
            (true, false, s.depth)
        } else if ch == '\\' {
            (true, true, s.depth)
        } else if ch == '"' {
            (false, false, s.depth)
        } else {
            (true, false, s.depth)
        }
    } else if ch == '"' {
        (true, s.escaped, s.depth)
    } else if ch == '{' {
        (false, s.escaped, if s.depth < i32::MAX { s.depth + 1 } else { s.depth })
    } else if ch == '}' {
        (false, s.escaped, s.depth - 1)
    } else {
        (false, s.escaped, s.depth)
    }
}

/// One character of input: the next state and the frames it completes.
pub open spec fn step(s: FramerModel, ch: char) -> (FramerModel, Seq<FrameView>) {
    if s.discarding_text {
        (FramerModel { discarding_text: ch != '\n', ..s }, Seq::empty())
    } else if s.depth == 0 && !s.discarding {
        if ch == '{' && all_ws(s.buffer) {
            (FramerModel { buffer: s.buffer.push(ch), depth: 1, ..s }, Seq::empty())
        } else if ch == '\n' {
            (FramerModel { buffer: Seq::empty(), ..s }, complete_frame(s.buffer, 1))
        } else if ch != '\r' || s.buffer.len() > 0 {
            let b = s.buffer.push(ch);
            if utf8_len(b) > MAX_BUFFER_BYTES {
                (FramerModel { buffer: Seq::empty(), discarding_text: true, ..s }, Seq::empty())
            } else {
                (FramerModel { buffer: b, ..s }, Seq::empty())
            }
        } else {
            (s, Seq::empty())
        }
    } else {
        let (boundary, dls, dcl) = discard_track(s, ch);
        let (ins, esc, depth) = lex_track(s, ch);
        let b = if s.discarding {
            s.buffer
        } else {
            s.buffer.push(ch)
        };
        if depth <= 0 || boundary {
            (
                initial_model(),
                if s.discarding {
                    Seq::empty()
                } else {
                    complete_frame(b, depth)
                },
            )
        } else if !s.discarding && utf8_len(b) > MAX_BUFFER_BYTES {
            (
                FramerModel {
                    buffer: Seq::empty(),
                    depth,
                    in_string: ins,
                    escaped: esc,
                    discarding_text: s.discarding_text,
                    discarding: true,
                    discard_line_start: ch == '\n',
                    discard_closing_line: false,
                },
                Seq::empty(),
            )
        } else {
            (
                FramerModel {
                    buffer: b,
                    depth,
                    in_string: ins,
                    escaped: esc,
                    discarding_text: s.discarding_text,
                    discarding: s.discarding,
                    discard_line_start: dls,
                    discard_closing_line: dcl,
                },
                Seq::empty(),
            )
        }
    }
}

/// Feeding `input` character by character from state `s`: the final state and
/// every frame completed, in order.
pub open spec fn run(s: FramerModel, input: Seq<char>) -> (FramerModel, Seq<FrameView>)
    decreases input.len(),
{
    if input.len() == 0 {
        (s, Seq::empty())
    } else {
        let (mid, frames) = run(s, input.drop_last());
        let (next, more) = step(mid, input.last());
        (next, frames + more)
    }
}

/// The view of a list of frames.
pub open spec fn frames_view(frames: Seq<Frame>) -> Seq<FrameView> {
    frames.map_values(|f: Frame| f@)
}

/// A state the framer can be in: its buffer never exceeds the byte limit, and
/// brace depth is never negative.
pub open spec fn model_wf(s: FramerModel) -> bool {
    &&& utf8_len(s.buffer) <= MAX_BUFFER_BYTES + 1
    &&& s.depth == 0 && !s.discarding ==> utf8_len(s.buffer) <= MAX_BUFFER_BYTES
    &&& s.depth >= 0
}

/// Accumulates CLI stdout lines into complete JSON objects or text lines.
pub struct JsonFramer {
    buffer: Vec<char>,
    buffer_bytes: usize,
    depth: i32,
    in_string: bool,
    escaped: bool,
    discarding_text: bool,
    discarding: bool,
    discard_line_start: bool,
    discard_closing_line: bool,
}

impl View for JsonFramer {
    type V = FramerModel;

    closed spec fn view(&self) -> FramerModel {
        FramerModel {
            buffer: self.buffer@,
            depth: self.depth as int,
            in_string: self.in_string,
            escaped: self.escaped,
            discarding_text: self.discarding_text,
            discarding: self.discarding,
            discard_line_start: self.discard_line_start,
            discard_closing_line: self.discard_closing_line,
        }
    }
}

impl JsonFramer {
    /// The framer's internal consistency: its byte count matches its buffer.
    pub closed spec fn wf(&self) -> bool {
        &&& self.buffer_bytes == utf8_len(self.buffer@)
        &&& model_wf(self@)
    }

    pub fn new() -> (r: Self)
        ensures
            r.wf(),
            r@ == initial_model(),
    {
        JsonFramer {
            buffer: Vec::new(),
            buffer_bytes: 0,
            depth: 0,
            in_string: false,
            escaped: false,
            discarding_text: false,
            discarding: false,
            discard_line_start: false,
            discard_closing_line: false,
        }
    }

    /// Bytes currently retained while waiting for a record to complete.
    pub fn buffered_bytes(&self) -> (r: usize)
        requires
            self.wf(),
        ensures
            r == utf8_len(self@.buffer),
            r <= MAX_BUFFER_BYTES + 1,
    {
        self.buffer_bytes
    }

    /// Whether an oversized object is currently being skipped.
    pub fn is_discarding(&self) -> (r: bool)
        ensures
            r == self@.discarding,
    {
        self.discarding
    }

    /// Whether an oversized top-level text line is being skipped up to its newline.
    pub fn is_discarding_text(&self) -> (r: bool)
        ensures
            r == self@.discarding_text,
    {
        self.discarding_text
    }

    /// Current brace depth of the object being framed.
    pub fn depth(&self) -> (r: i32)
        ensures
            r == self@.depth,
    {
        self.depth
    }

    fn reset(&mut self)
        ensures
            final(self)@ == initial_model(),
            final(self).wf(),
    {
        self.buffer = Vec::new();
        self.buffer_bytes = 0;
        self.depth = 0;
        self.in_string = false;
        self.escaped = false;
        self.discarding_text = false;
        self.discarding = false;
        self.discard_line_start = false;
        self.discard_closing_line = false;
    }

    /// The frame completed by the current buffer, if it is not blank.
    fn take_complete(&self, depth: i32) -> (r: Option<Frame>)
        ensures
            match r {
                None => complete_frame(self.buffer@, depth as int).len() == 0,
                Some(f) => complete_frame(self.buffer@, depth as int) == seq![f@],
            },
    {
        let (a, b) = trim_bounds(&self.buffer);
        if a >= self.buffer.len() {
            None
        } else {
            let t = slice_chars(&self.buffer, a, b);
            let s = string_from_chars(t.as_slice());
            if t[0] == '{' && depth == 0 {
                Some(Frame::Json(s))
            } else {
                Some(Frame::Text(s))
            }
        }
    }

    fn push_buffer(&mut self, ch: char)
        requires
            old(self).buffer_bytes == utf8_len(old(self).buffer@),
            old(self).buffer_bytes <= MAX_BUFFER_BYTES + 1,
        ensures
            final(self).buffer@ == old(self).buffer@.push(ch),
            final(self).buffer_bytes == utf8_len(final(self).buffer@),
            final(self).buffer_bytes == old(self).buffer_bytes + utf8_width(ch),
            final(self).depth == old(self).depth,
            final(self).in_string == old(self).in_string,
            final(self).escaped == old(self).escaped,
            final(self).discarding_text == old(self).discarding_text,
            final(self).discarding == old(self).discarding,
            final(self).discard_line_start == old(self).discard_line_start,
            final(self).discard_closing_line == old(self).discard_closing_line,
    {
        proof {
            lemma_utf8_len_push(self.buffer@, ch);
        }
        self.buffer.push(ch);
        self.buffer_bytes = self.buffer_bytes + char_width(ch);
    }

    fn clear_buffer(&mut self)
        ensures
            final(self).buffer@ == Seq::<char>::empty(),
            final(self).buffer_bytes == 0,
            final(self).depth == old(self).depth,
            final(self).in_string == old(self).in_string,
            final(self).escaped == old(self).escaped,
            final(self).discarding_text == old(self).discarding_text,
            final(self).discarding == old(self).discarding,
            final(self).discard_line_start == old(self).discard_line_start,
            final(self).discard_closing_line == old(self).discard_closing_line,
    {
        self.buffer = Vec::new();
        self.buffer_bytes = 0;
    }

    /// Feed one character; the frame it completes, if any.
    fn push_char(&mut self, ch: char) -> (r: Option<Frame>)
        requires
            old(self).wf(),
        ensures
            final(self).wf(),
            final(self)@ == step(old(self)@, ch).0,
            match r {
                None => step(old(self)@, ch).1.len() == 0,
                Some(f) => step(old(self)@, ch).1 == seq![f@],
            },
            final(self)@.depth <= old(self)@.depth + 1,
    {
        if self.discarding_text {
            if ch == '\n' {
                self.discarding_text = false;
            }
            return None;
        }
        if self.depth == 0 && !self.discarding {
            if ch == '{' && is_blank(&self.buffer) {
                self.push_buffer(ch);
                self.depth = 1;
                return None;
            }
            if ch == '\n' {
                let frame = self.take_complete(1);
                self.clear_buffer();
                return frame;
            } else if ch != '\r' || self.buffer.len() > 0 {
                self.push_buffer(ch);
                if self.buffer_bytes > MAX_BUFFER_BYTES {
                    self.clear_buffer();
                    self.discarding_text = true;
                }
            }
            return None;
        }
        let ghost s = self@;
        let boundary = if self.discarding {
            if ch == '\n' {
                let boundary = self.discard_closing_line;
                self.discard_line_start = true;
                self.discard_closing_line = false;
                boundary
            } else if (ch == '\r' || ch == ' ' || ch == '\t') && self.discard_closing_line {
                false
            } else if ch == '}' && self.discard_line_start {
                self.discard_line_start = false;
                self.discard_closing_line = true;
                false
            } else {
                self.discard_line_start = false;
                self.discard_closing_line = false;
                false
            }
        } else {
            false
        };
        assert(discard_track(s, ch) == (boundary, self.discard_line_start, self.discard_closing_line));
        if self.in_string {
            if self.escaped {
                self.escaped = false;
            } else if ch == '\\' {
                self.escaped = true;
            } else if ch == '"' {
                self.in_string = false;
            }
        } else {
            if ch == '"' {
                self.in_string = true;
            } else if ch == '{' {
                if self.depth < i32::MAX {
                    self.depth = self.depth + 1;
                }
            } else if ch == '}' {
                self.depth = self.depth - 1;
            }
        }
        assert(lex_track(s, ch) == (self.in_string, self.escaped, self.depth as int));
        if !self.discarding {
            self.push_buffer(ch);
        }
        if self.depth <= 0 || boundary {
            let frame = if !self.discarding {
                self.take_complete(self.depth)
            } else {
                None
            };
            self.reset();
            frame
        } else {
            if !self.discarding && self.buffer_bytes > MAX_BUFFER_BYTES {
                self.clear_buffer();
                self.discarding = true;
                self.discard_line_start = ch == '\n';
                self.discard_closing_line = false;
            }
            None
        }
    }

    /// Feed one chunk of CLI output. Returns every frame completed in it.
    ///
    /// Chunks may contain partial lines, many lines, or several JSON objects.
    pub fn push_chunk(&mut self, chunk: &str) -> (frames: Vec<Frame>)
        requires
            old(self).wf(),
        ensures
            final(self).wf(),
            (final(self)@, frames_view(frames@)) == run(old(self)@, chunk@),
            forall|i: int| 0 <= i < frames@.len() ==> frame_content_ok(#[trigger] frames@[i]@),
    {
        proof {
            lemma_frames_are_trimmed(self@, chunk@);
        }
        let chars = chars_of(chunk);
        let mut frames: Vec<Frame> = Vec::new();
        let mut i: usize = 0;
        let ghost start = self@;
        while i < chars.len()
            invariant
                self.wf(),
                chars@ == chunk@,
                0 <= i <= chars@.len(),
                (self@, frames_view(frames@)) == run(start, chars@.take(i as int)),
            decreases chars@.len() - i,
        {
            let ghost before = frames@;
            let ch = chars[i];
            assert(chars@.take(i + 1).drop_last() =~= chars@.take(i as int));
            assert(chars@.take(i + 1).last() == ch);
            match self.push_char(ch) {
                Some(f) => {
                    frames.push(f);
                    assert(frames_view(frames@) =~= frames_view(before) + seq![f@]);
                },
                None => {
                    assert(frames_view(frames@) =~= frames_view(before) + Seq::<FrameView>::empty());
                },
            }
            i = i + 1;
        }
        assert(chars@.take(chars@.len() as int) =~= chars@);
        assert(frames_view(frames@) == run(start, chunk@).1);
        assert forall|i: int| 0 <= i < frames@.len() implies frame_content_ok(#[trigger] frames@[i]@) by {
            assert(frames_view(frames@)[i] == frames@[i]@);
            assert(frame_content_ok(run(start, chunk@).1[i]));
        }
        frames
    }

    /// Feed one line of CLI output (the line, then a newline).
    pub fn push_line(&mut self, line: &str) -> (frames: Vec<Frame>)
        requires
            old(self).wf(),
        ensures
            final(self).wf(),
            (final(self)@, frames_view(frames@)) == run(old(self)@, line@.push('\n')),
            forall|i: int| 0 <= i < frames@.len() ==> frame_content_ok(#[trigger] frames@[i]@),
    {
        let ghost start = self@;
        let mut frames = self.push_chunk(line);
        let ghost first = frames@;
        proof {
            lemma_run_depth(start, line@);
            reveal_strlit("\n");
        }
        let mut nl = self.push_chunk("\n");
        let ghost second = nl@;
        proof {
            assert("\n"@ =~= seq!['\n']);
            lemma_run_concat(start, line@, seq!['\n']);
            assert(line@ + seq!['\n'] =~= line@.push('\n'));
        }
        frames.append(&mut nl);
        proof {
            assert(frames_view(frames@) =~= frames_view(first) + frames_view(second));
            assert forall|i: int| 0 <= i < frames@.len() implies frame_content_ok(#[trigger] frames@[i]@) by {
                if i < first.len() {
                    assert(frames@[i] == first[i]);
                } else {
                    assert(frames@[i] == second[i - first.len()]);
                }
            }
        }
        frames
    }
}

/// A framer's brace depth is never negative, so the laws about runs from its
/// state apply to it.
pub proof fn lemma_framer_depth_nonnegative(f: &JsonFramer)
    requires
        f.wf(),
    ensures
        model_wf(f@),
        f@.depth >= 0,
{
}

/// Feeding `a` and then `b` is the same as feeding `a + b`: framing does not
/// depend on where the input is split into chunks.
pub proof fn lemma_run_concat(s: FramerModel, a: Seq<char>, b: Seq<char>)
    ensures
        run(s, a + b) == (run(run(s, a).0, b).0, run(s, a).1 + run(run(s, a).0, b).1),
    decreases b.len(),
{
    if b.len() == 0 {
        assert(a + b =~= a);
        assert(run(s, a).1 + Seq::<FrameView>::empty() =~= run(s, a).1);
    } else {
        assert((a + b).drop_last() =~= a + b.drop_last());
        assert((a + b).last() == b.last());
        lemma_run_concat(s, a, b.drop_last());
        let mid = run(run(s, a).0, b.drop_last());
        let st = step(mid.0, b.last());
        assert(run(s, a).1 + mid.1 + st.1 =~= run(s, a).1 + (mid.1 + st.1));
    }
}

/// Each character raises the brace depth by at most one.
pub proof fn lemma_run_depth(s: FramerModel, input: Seq<char>)
    requires
        s.depth >= 0,
    ensures
        run(s, input).0.depth <= s.depth + input.len(),
        run(s, input).0.depth >= 0,
    decreases input.len(),
{
    if input.len() > 0 {
        lemma_run_depth(s, input.drop_last());
    }
}

/// The content of a frame: non-empty and trimmed; a JSON frame starts with
/// `{` and ends with `}`.
pub open spec fn frame_content_ok(f: FrameView) -> bool {
    match f {
        FrameView::Json(t) => t.len() > 0 && is_trimmed(t) && t[0] == '{' && t.last() == '}',
        FrameView::Text(t) => t.len() > 0 && is_trimmed(t),
    }
}

/// Every frame the framer emits is non-empty and carries no leading or
/// trailing whitespace, and every JSON frame starts with `{` and ends with `}`.
pub proof fn lemma_frames_are_trimmed(s: FramerModel, input: Seq<char>)
    requires
        s.depth >= 0,
    ensures
        forall|i: int|
            0 <= i < run(s, input).1.len() ==> frame_content_ok(#[trigger] run(s, input).1[i]),
    decreases input.len(),
{
    if input.len() > 0 {
        lemma_frames_are_trimmed(s, input.drop_last());
        lemma_run_depth(s, input.drop_last());
        let (mid, frames) = run(s, input.drop_last());
        let ch = input.last();
        let more = step(mid, ch).1;
        assert forall|i: int| 0 <= i < more.len() implies frame_content_ok(#[trigger] more[i]) by {
            let b = if mid.depth == 0 && !mid.discarding {
                mid.buffer
            } else {
                mid.buffer.push(ch)
            };
            lemma_trim(b);
            lemma_trim(mid.buffer);
        }
        assert forall|i: int|
            0 <= i < run(s, input).1.len() implies frame_content_ok(
            #[trigger] run(s, input).1[i],
        ) by {
            if i < frames.len() {
                assert(run(s, input).1[i] == frames[i]);
            } else {
                assert(run(s, input).1[i] == more[i - frames.len()]);
            }
        }
    }
}

} // verus!
