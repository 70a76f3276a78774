//! The stream reassembler: decoded chunks of a response body go in, complete
//! frames come out in arrival order, and what is left waits for more text.

use crate::framer::{parse_frame, parse_frame_chars, StreamFrame};
use crate::text::{extend_str, from_chars, slice};
use vstd::prelude::*;

verus! {

/// Whether a frame delimiter, two line feeds in a row, starts at `p` in `s`.
pub open spec fn delimiter_at(s: Seq<char>, p: int) -> bool {
    0 <= p && p + 1 < s.len() && s[p] == '\n' && s[p + 1] == '\n'
}

/// Where the first frame delimiter of `s` starts, if `s` holds one.
pub open spec fn find_delimiter(s: Seq<char>) -> Option<int>
    decreases s.len(),
{
    if s.len() < 2 {
        None
    } else if s[0] == '\n' && s[1] == '\n' {
        Some(0)
    } else {
        match find_delimiter(s.skip(1)) {
            Some(p) => Some(p + 1),
            None => None,
        }
    }
}

/// What `find_delimiter` finds is a delimiter with none before it, and it
/// finds one wherever there is one.
pub proof fn lemma_find_delimiter(s: Seq<char>)
    ensures
        match find_delimiter(s) {
            Some(p) => delimiter_at(s, p) && forall|j: int| 0 <= j < p ==> !delimiter_at(s, j),
            None => forall|j: int| !delimiter_at(s, j),
        },
    decreases s.len(),
{
    if s.len() >= 2 && !(s[0] == '\n' && s[1] == '\n') {
        let t = s.skip(1);
        lemma_find_delimiter(t);
        assert forall|j: int| delimiter_at(s, j) && j > 0 implies delimiter_at(t, j - 1) by {
            assert(t[j - 1] == s[j]);
            assert(t[j] == s[j + 1]);
        }
        match find_delimiter(t) {
            Some(p) => {
                assert(t[p] == s[p + 1]);
                assert(t[p + 1] == s[p + 2]);
                assert forall|j: int| 0 <= j < p + 1 implies !delimiter_at(s, j) by {
                    if j > 0 && delimiter_at(s, j) {
                        assert(delimiter_at(t, j - 1));
                    }
                }
            },
            None => {
                assert forall|j: int| !delimiter_at(s, j) by {
                    if j > 0 && delimiter_at(s, j) {
                        assert(delimiter_at(t, j - 1));
                    }
                }
            },
        }
    }
}

/// A delimiter with none before it is the one that `find_delimiter` finds.
pub proof fn lemma_first_delimiter(s: Seq<char>, p: int)
    requires
        delimiter_at(s, p),
        forall|j: int| 0 <= j < p ==> !delimiter_at(s, j),
    ensures
        find_delimiter(s) == Some(p),
{
    lemma_find_delimiter(s);
    match find_delimiter(s) {
        Some(q) => {
            if q < p {
                assert(!delimiter_at(s, q));
            }
            if p < q {
                assert(!delimiter_at(s, p));
            }
        },
        None => {
            assert(!delimiter_at(s, p));
        },
    }
}

/// The complete frames of `buf`, in order: each is the text before the next
/// delimiter, and the search goes on behind that delimiter.
pub open spec fn complete_frames(buf: Seq<char>) -> Seq<Seq<char>>
    decreases buf.len(),
    via frames_shorten
{
    match find_delimiter(buf) {
        Some(p) => seq![buf.take(p)] + complete_frames(buf.skip(p + 2)),
        None => Seq::empty(),
    }
}

/// What `buf` holds behind its last complete frame: text that waits for a
/// delimiter.
pub open spec fn remainder(buf: Seq<char>) -> Seq<char>
    decreases buf.len(),
    via delimiter_shortens
{
    match find_delimiter(buf) {
        Some(p) => remainder(buf.skip(p + 2)),
        None => buf,
    }
}

#[via_fn]
proof fn frames_shorten(buf: Seq<char>) {
    lemma_find_delimiter(buf);
}

#[via_fn]
proof fn delimiter_shortens(buf: Seq<char>) {
    lemma_find_delimiter(buf);
}

/// The frames, each followed by the delimiter that ended it.
pub open spec fn rejoined(frames: Seq<Seq<char>>) -> Seq<char>
    decreases frames.len(),
{
    if frames.len() == 0 {
        Seq::empty()
    } else {
        frames[0] + seq!['\n', '\n'] + rejoined(frames.skip(1))
    }
}

/// Draining loses nothing and takes all there is: the frames with their
/// delimiters, followed by what is left, are the buffer again; and what is
/// left holds no delimiter.
pub proof fn lemma_drain_is_exact(buf: Seq<char>)
    ensures
        rejoined(complete_frames(buf)) + remainder(buf) == buf,
        find_delimiter(remainder(buf)) is None,
    decreases buf.len(),
{
    lemma_find_delimiter(buf);
    match find_delimiter(buf) {
        Some(p) => {
            let rest = buf.skip(p + 2);
            lemma_drain_is_exact(rest);
            let frames = complete_frames(buf);
            assert(frames[0] == buf.take(p));
            assert(frames.skip(1) == complete_frames(rest));
            assert(buf == buf.take(p) + seq!['\n', '\n'] + rest);
            assert(rejoined(frames) + remainder(buf) == buf.take(p) + seq!['\n', '\n'] + (
            rejoined(complete_frames(rest)) + remainder(rest)));
        },
        None => {
            assert(rejoined(complete_frames(buf)) + remainder(buf) == buf);
        },
    }
}

/// The events of a run of frames, in order: a frame without a data line
/// yields none.
pub open spec fn events_of(frames: Seq<Seq<char>>) -> Seq<(Seq<char>, Seq<char>)>
    decreases frames.len(),
{
    if frames.len() == 0 {
        Seq::empty()
    } else {
        match parse_frame(frames.last()) {
            Some(event) => events_of(frames.drop_last()).push(event),
            None => events_of(frames.drop_last()),
        }
    }
}

/// The events of two runs of frames, one after the other, are the events of
/// the first followed by those of the second.
pub proof fn lemma_events_concat(a: Seq<Seq<char>>, b: Seq<Seq<char>>)
    ensures
        events_of(a + b) == events_of(a) + events_of(b),
    decreases b.len(),
{
    if b.len() == 0 {
        assert(a + b == a);
    } else {
        assert((a + b).drop_last() == a + b.drop_last());
        assert((a + b).last() == b.last());
        lemma_events_concat(a, b.drop_last());
    }
}

/// Text that arrives behind a buffer changes none of the frames that the
/// buffer already completes: the frames of the whole are those of the buffer
/// followed by those of what the buffer left together with the new text.
pub proof fn lemma_append_text(s: Seq<char>, t: Seq<char>)
    ensures
        complete_frames(s + t) == complete_frames(s) + complete_frames(remainder(s) + t),
        remainder(s + t) == remainder(remainder(s) + t),
    decreases s.len(),
{
    lemma_find_delimiter(s);
    match find_delimiter(s) {
        Some(p) => {
            let w = s + t;
            assert(delimiter_at(w, p));
            assert forall|j: int| 0 <= j < p implies !delimiter_at(w, j) by {
                assert(!delimiter_at(s, j));
            }
            lemma_first_delimiter(w, p);
            assert(w.take(p) == s.take(p));
            assert(w.skip(p + 2) == s.skip(p + 2) + t);
            lemma_append_text(s.skip(p + 2), t);
            let head = seq![s.take(p)];
            let mid = complete_frames(s.skip(p + 2));
            let tail = complete_frames(remainder(s) + t);
            assert(head + (mid + tail) == (head + mid) + tail);
        },
        None => {
            assert(complete_frames(s) + complete_frames(s + t) == complete_frames(s + t));
        },
    }
}

/// Chunk-boundary invariance. Text delivered in two pieces, cut anywhere,
/// yields the events, in the order, that it yields when delivered as one
/// piece, and leaves the same text waiting.
pub proof fn lemma_chunk_boundary(pending: Seq<char>, first: Seq<char>, second: Seq<char>)
    ensures
        events_of(complete_frames(pending + (first + second))) == events_of(
            complete_frames(pending + first),
        ) + events_of(complete_frames(remainder(pending + first) + second)),
        remainder(pending + (first + second)) == remainder(remainder(pending + first) + second),
{
    assert(pending + (first + second) == (pending + first) + second);
    lemma_append_text(pending + first, second);
    lemma_events_concat(
        complete_frames(pending + first),
        complete_frames(remainder(pending + first) + second),
    );
}

/// The text that lossy UTF-8 decoding makes of `bytes`: valid sequences
/// decode to their scalar values, and each invalid sequence is replaced by
/// U+FFFD, as the standard library does it.
pub uninterp spec fn utf8_lossy(bytes: Seq<u8>) -> Seq<char>;

/// Decodes a chunk with `String::from_utf8_lossy`, which never fails. The
/// result is named, not described: it depends on the bytes alone.
#[verifier::external_body]
fn decode_lossy(bytes: &[u8]) -> (s: String)
    ensures
        s@ == utf8_lossy(bytes@),
{
    String::from_utf8_lossy(bytes).into_owned()
}

/// Chunk-boundary invariance on the wire. Wherever decoding two chunks one
/// by one gives the text that decoding them as one chunk gives, delivering
/// them one by one yields the same events and leaves the same text waiting.
pub proof fn lemma_chunk_boundary_bytes(pending: Seq<char>, first: Seq<u8>, second: Seq<u8>)
    ensures
        utf8_lossy(first + second) == utf8_lossy(first) + utf8_lossy(second) ==> {
            let a = utf8_lossy(first);
            let b = utf8_lossy(second);
            &&& events_of(complete_frames(pending + utf8_lossy(first + second))) == events_of(
                complete_frames(pending + a),
            ) + events_of(complete_frames(remainder(pending + a) + b))
            &&& remainder(pending + utf8_lossy(first + second)) == remainder(
                remainder(pending + a) + b,
            )
        },
{
    lemma_chunk_boundary(pending, utf8_lossy(first), utf8_lossy(second));
}

/// The views of the events in `v`.
pub open spec fn frame_views(v: Seq<StreamFrame>) -> Seq<(Seq<char>, Seq<char>)> {
    v.map_values(|f: StreamFrame| f@)
}

/// Takes the complete frames out of `buf`: returns their events, in order,
/// and the text that is left.
pub fn drain(buf: &Vec<char>) -> (r: (Vec<StreamFrame>, Vec<char>))
    ensures
        frame_views(r.0@) == events_of(complete_frames(buf@)),
        r.1@ == remainder(buf@),
{
    let n = buf.len();
    let mut events: Vec<StreamFrame> = Vec::new();
    let mut start: usize = 0;
    let mut i: usize = 0;
    let ghost mut frames: Seq<Seq<char>> = Seq::empty();
    assert(buf@.skip(0) == buf@);
    assert(frame_views(events@) == Seq::<(Seq<char>, Seq<char>)>::empty());
    while i < n && i + 1 < n
        invariant
            start <= i <= n == buf.len(),
            complete_frames(buf@) == frames + complete_frames(buf@.skip(start as int)),
            remainder(buf@) == remainder(buf@.skip(start as int)),
            frame_views(events@) == events_of(frames),
            forall|j: int| 0 <= j < i - start ==> !delimiter_at(buf@.skip(start as int), j),
        decreases n - i,
    {
        let ghost rest = buf@.skip(start as int);
        if buf[i] == '\n' && buf[i + 1] == '\n' {
            proof {
                assert(delimiter_at(rest, i - start));
                lemma_first_delimiter(rest, i - start);
                assert(rest.take(i - start) == buf@.subrange(start as int, i as int));
                assert(rest.skip(i - start + 2) == buf@.skip(i + 2));
            }
            let frame = slice(buf, start, i);
            let ghost before = frame_views(events@);
            let ghost old_frames = frames;
            match parse_frame_chars(&frame) {
                Some((event, payload)) => {
                    let item = StreamFrame {
                        event_type: from_chars(&event),
                        payload: from_chars(&payload),
                    };
                    events.push(item);
                    assert(frame_views(events@) == before.push((event@, payload@)));
                },
                None => {},
            }
            proof {
                frames = frames.push(frame@);
                assert(frames.drop_last() == old_frames);
                assert(old_frames + (seq![frame@] + complete_frames(buf@.skip(i + 2)))
                    == frames + complete_frames(buf@.skip(i + 2)));
            }
            start = i + 2;
            i = i + 2;
        } else {
            assert(!delimiter_at(rest, i - start));
            i = i + 1;
        }
    }
    proof {
        let rest = buf@.skip(start as int);
        lemma_find_delimiter(rest);
        if find_delimiter(rest) is Some {
            let p = find_delimiter(rest)->0;
            assert(delimiter_at(rest, p));
            assert(p < i - start);
        }
        assert(frames + Seq::<Seq<char>>::empty() == frames);
        assert(rest == buf@.subrange(start as int, n as int));
    }
    let rest = slice(buf, start, n);
    (events, rest)
}

/// The state of one stream between chunks: the text that waits for a frame
/// delimiter, and how many chunks have arrived.
pub struct Reassembler {
    buffer: Vec<char>,
    chunks: u64,
}

impl Reassembler {
    /// The text that waits for a frame delimiter.
    pub closed spec fn pending(&self) -> Seq<char> {
        self.buffer@
    }

    /// How many chunks have arrived; the count stays at its largest value
    /// rather than wrap.
    pub closed spec fn chunks_seen(&self) -> nat {
        self.chunks as nat
    }

    /// A reassembler at the start of a stream.
    pub fn new() -> (r: Reassembler)
        ensures
            r.pending() == Seq::<char>::empty(),
            r.chunks_seen() == 0,
    {
        Reassembler { buffer: Vec::new(), chunks: 0 }
    }

    /// Takes one chunk, already decoded: appends it to the waiting text,
    /// hands out the events of every frame that is now complete, in order,
    /// and keeps the rest.
    pub fn push_text(&mut self, text: &str) -> (events: Vec<StreamFrame>)
        ensures
            frame_views(events@) == events_of(complete_frames(old(self).pending() + text@)),
            final(self).pending() == remainder(old(self).pending() + text@),
            final(self).chunks_seen() == if old(self).chunks_seen() < u64::MAX {
                old(self).chunks_seen() + 1
            } else {
                old(self).chunks_seen()
            },
    {
        if self.chunks < u64::MAX {
            self.chunks = self.chunks + 1;
        }
        extend_str(&mut self.buffer, text);
        let (events, rest) = drain(&self.buffer);
        self.buffer = rest;
        events
    }

    /// Takes one chunk as it came off the wire: decodes it, tolerating
    /// malformed bytes, and goes on as `push_text` does.
    pub fn push_chunk(&mut self, bytes: &[u8]) -> (events: Vec<StreamFrame>)
        ensures
            frame_views(events@) == events_of(
                complete_frames(old(self).pending() + utf8_lossy(bytes@)),
            ),
            final(self).pending() == remainder(old(self).pending() + utf8_lossy(bytes@)),
            final(self).chunks_seen() == if old(self).chunks_seen() < u64::MAX {
                old(self).chunks_seen() + 1
            } else {
                old(self).chunks_seen()
            },
    {
        let text = decode_lossy(bytes);
        self.push_text(text.as_str())
    }

    /// The text that waits for a frame delimiter.
    pub fn pending_text(&self) -> (s: String)
        ensures
            s@ == self.pending(),
    {
        from_chars(&self.buffer)
    }

    /// How many chunks have arrived.
    pub fn chunk_count(&self) -> (n: u64)
        ensures
            n == self.chunks_seen(),
    {
        self.chunks
    }
}

} // verus!
