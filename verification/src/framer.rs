//! The event framer: one frame's raw text to an event type and a payload.
//!
//! A frame is the text between two blank lines of an event stream. Each of its
//! lines is either an `event:` field, a `data:` field, or ignored.

use crate::text::{from_chars, has_prefix, slice, starts_with, to_chars, trim, trimmed};
use vstd::prelude::*;

verus! {

/// The index of the first line feed in `s`, or the length of `s` if it holds
/// none.
pub open spec fn line_break(s: Seq<char>) -> nat
    decreases s.len(),
{
    if s.len() == 0 || s[0] == '\n' {
        0
    } else {
        1 + line_break(s.skip(1))
    }
}

/// `line` without one trailing carriage return.
pub open spec fn strip_cr(line: Seq<char>) -> Seq<char> {
    if line.len() > 0 && line.last() == '\r' {
        line.drop_last()
    } else {
        line
    }
}

/// The lines of `s`. A line ends at a line feed, or at a carriage return
/// directly followed by a line feed; the terminator belongs to no line, and a
/// terminator at the very end opens no further line.
pub open spec fn lines(s: Seq<char>) -> Seq<Seq<char>>
    decreases s.len(),
{
    if s.len() == 0 {
        Seq::empty()
    } else {
        let k = line_break(s);
        if k >= s.len() {
            seq![s]
        } else {
            seq![strip_cr(s.take(k as int))] + lines(s.skip(k as int + 1))
        }
    }
}

/// The views of the rows of `v`.
pub open spec fn rows(v: Seq<Vec<char>>) -> Seq<Seq<char>> {
    v.map_values(|r: Vec<char>| r@)
}

/// `k` is where the first line of `s` ends.
pub proof fn lemma_line_break(s: Seq<char>, k: int)
    requires
        0 <= k <= s.len(),
        forall|j: int| 0 <= j < k ==> s[j] != '\n',
        k < s.len() ==> s[k] == '\n',
    ensures
        line_break(s) == k,
    decreases s.len(),
{
    if k > 0 {
        let t = s.skip(1);
        assert forall|j: int| 0 <= j < k - 1 implies t[j] != '\n' by {
            assert(t[j] == s[j + 1]);
        }
        lemma_line_break(t, k - 1);
    }
}

/// Splits `s` into its lines.
pub fn split_lines(s: &Vec<char>) -> (out: Vec<Vec<char>>)
    ensures
        rows(out@) == lines(s@),
{
    let n = s.len();
    let mut out: Vec<Vec<char>> = Vec::new();
    let mut pos: usize = 0;
    assert(s@.skip(0) == s@);
    assert(rows(out@) == Seq::<Seq<char>>::empty());
    while pos < n
        invariant
            pos <= n == s.len(),
            lines(s@) == rows(out@) + lines(s@.skip(pos as int)),
        decreases n - pos,
    {
        let ghost rest = s@.skip(pos as int);
        let mut k: usize = pos;
        while k < n && s[k] != '\n'
            invariant
                pos <= k <= n == s.len(),
                forall|j: int| pos <= j < k ==> s@[j] != '\n',
            decreases n - k,
        {
            k = k + 1;
        }
        proof {
            lemma_line_break(rest, k - pos);
        }
        let ghost before = rows(out@);
        if k == n {
            let line = slice(s, pos, n);
            assert(line@ == rest);
            out.push(line);
            assert(rows(out@) == before.push(rest));
            assert(lines(rest) == seq![rest]);
            assert(lines(s@.skip(n as int)) == Seq::<Seq<char>>::empty());
            pos = n;
        } else {
            let end = if k > pos && s[k - 1] == '\r' {
                k - 1
            } else {
                k
            };
            let line = slice(s, pos, end);
            assert(rest.take(k - pos) == s@.subrange(pos as int, k as int));
            assert(line@ == strip_cr(rest.take(k - pos)));
            out.push(line);
            assert(rows(out@) == before.push(line@));
            assert(rest.skip(k - pos + 1) == s@.skip(k + 1));
            pos = k + 1;
        }
    }
    assert(lines(s@.skip(n as int)) == Seq::<Seq<char>>::empty());
    out
}

/// The event type of a frame whose every field leaves it unset.
pub open spec fn default_event_type() -> Seq<char> {
    "message"@
}

/// Whether `line` is an event-type field.
pub open spec fn is_event_line(line: Seq<char>) -> bool {
    has_prefix(line, "event:"@)
}

/// Whether `line` is a data field.
pub open spec fn is_data_line(line: Seq<char>) -> bool {
    has_prefix(line, "data:"@)
}

/// What an event-type field sets: the rest of the line, trimmed.
pub open spec fn event_value(line: Seq<char>) -> Seq<char> {
    trim(line.skip("event:"@.len() as int))
}

/// What a data field contributes: the rest of the line without one leading
/// space. Further white space belongs to the data.
pub open spec fn data_value(line: Seq<char>) -> Seq<char> {
    let rest = line.skip("data:"@.len() as int);
    if rest.len() > 0 && rest[0] == ' ' {
        rest.skip(1)
    } else {
        rest
    }
}

/// The event type that the lines `ls` give: what the last event-type field
/// sets, or the default where there is none.
pub open spec fn event_type(ls: Seq<Seq<char>>) -> Seq<char>
    decreases ls.len(),
{
    if ls.len() == 0 {
        default_event_type()
    } else if is_event_line(ls.last()) {
        event_value(ls.last())
    } else {
        event_type(ls.drop_last())
    }
}

/// The data lines that the lines `ls` give, in order.
pub open spec fn data_lines(ls: Seq<Seq<char>>) -> Seq<Seq<char>>
    decreases ls.len(),
{
    if ls.len() == 0 {
        Seq::empty()
    } else if is_data_line(ls.last()) {
        data_lines(ls.drop_last()).push(data_value(ls.last()))
    } else {
        data_lines(ls.drop_last())
    }
}

/// The parts joined by single line feeds.
pub open spec fn join_lines(parts: Seq<Seq<char>>) -> Seq<char>
    decreases parts.len(),
{
    if parts.len() == 0 {
        Seq::empty()
    } else if parts.len() == 1 {
        parts[0]
    } else {
        join_lines(parts.drop_last()) + seq!['\n'] + parts.last()
    }
}

/// The event that a frame's text yields: none where it has no data line,
/// else the event type and the data lines joined by line feeds.
pub open spec fn parse_frame(frame: Seq<char>) -> Option<(Seq<char>, Seq<char>)> {
    let ls = lines(frame);
    if data_lines(ls).len() == 0 {
        None
    } else {
        Some((event_type(ls), join_lines(data_lines(ls))))
    }
}

/// No line is both an event-type field and a data field.
pub proof fn lemma_fields_disjoint(line: Seq<char>)
    ensures
        !(is_event_line(line) && is_data_line(line)),
{
    reveal_strlit("event:");
    reveal_strlit("data:");
    if is_event_line(line) && is_data_line(line) {
        assert(line.take(6)[0] == 'e');
        assert(line.take(5)[0] == 'd');
    }
}

/// Joins the rows of `parts` by single line feeds.
pub fn join(parts: &Vec<Vec<char>>) -> (out: Vec<char>)
    ensures
        out@ == join_lines(rows(parts@)),
{
    let mut out: Vec<char> = Vec::new();
    let mut i: usize = 0;
    while i < parts.len()
        invariant
            i <= parts.len(),
            out@ == join_lines(rows(parts@).take(i as int)),
        decreases parts.len() - i,
    {
        let ghost done = rows(parts@).take(i as int);
        let ghost next = rows(parts@).take(i + 1);
        assert(next.drop_last() == done);
        assert(next.last() == parts@[i as int]@);
        if i > 0 {
            out.push('\n');
        }
        crate::text::extend(&mut out, &parts[i]);
        i = i + 1;
    }
    assert(rows(parts@).take(parts.len() as int) == rows(parts@));
    out
}

/// Parses one frame, given as scalar values.
pub fn parse_frame_chars(frame: &Vec<char>) -> (r: Option<(Vec<char>, Vec<char>)>)
    ensures
        match r {
            Some((event, payload)) => parse_frame(frame@) == Some((event@, payload@)),
            None => parse_frame(frame@) is None,
        },
{
    let ls = split_lines(frame);
    let event_prefix = to_chars("event:");
    let data_prefix = to_chars("data:");
    let mut event = to_chars("message");
    let mut data: Vec<Vec<char>> = Vec::new();
    let mut i: usize = 0;
    assert(rows(data@) == Seq::<Seq<char>>::empty());
    while i < ls.len()
        invariant
            i <= ls.len(),
            event_prefix@ == "event:"@,
            data_prefix@ == "data:"@,
            event@ == event_type(rows(ls@).take(i as int)),
            rows(data@) == data_lines(rows(ls@).take(i as int)),
        decreases ls.len() - i,
    {
        let line = &ls[i];
        let ghost done = rows(ls@).take(i as int);
        let ghost next = rows(ls@).take(i + 1);
        assert(next.drop_last() == done);
        assert(next.last() == line@);
        proof {
            lemma_fields_disjoint(line@);
        }
        if starts_with(line, &event_prefix) {
            let rest = slice(line, event_prefix.len(), line.len());
            event = trimmed(&rest);
        } else if starts_with(line, &data_prefix) {
            let rest = slice(line, data_prefix.len(), line.len());
            let value = if rest.len() > 0 && rest[0] == ' ' {
                slice(&rest, 1, rest.len())
            } else {
                rest
            };
            let ghost before = rows(data@);
            data.push(value);
            assert(rows(data@) == before.push(value@));
        }
        i = i + 1;
    }
    assert(rows(ls@).take(ls.len() as int) == rows(ls@));
    if data.len() == 0 {
        None
    } else {
        Some((event, join(&data)))
    }
}

/// One event of a stream: its type and its payload, whose lines are joined
/// by line feeds.
#[derive(Debug, Clone, PartialEq, Eq)]
pub struct StreamFrame {
    pub event_type: String,
    pub payload: String,
}

impl View for StreamFrame {
    type V = (Seq<char>, Seq<char>);

    open spec fn view(&self) -> (Seq<char>, Seq<char>) {
        (self.event_type@, self.payload@)
    }
}

/// Parses one frame of an event stream, already stripped of the blank line
/// that ends it. Yields the event type and the payload, or nothing where the
/// frame holds no data line.
pub fn parse_sse_event(event_str: &str) -> (r: Option<(String, String)>)
    ensures
        match r {
            Some((event, payload)) => parse_frame(event_str@) == Some((event@, payload@)),
            None => parse_frame(event_str@) is None,
        },
{
    let frame = to_chars(event_str);
    match parse_frame_chars(&frame) {
        Some((event, payload)) => Some((from_chars(&event), from_chars(&payload))),
        None => None,
    }
}

} // verus!
