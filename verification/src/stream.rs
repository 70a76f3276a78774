//! One session's stream, from its start to its terminal state.
//!
//! The caller owns the connection: it sends the request, awaits each chunk
//! and delivers what this module tells it to. This module decides: which
//! responses open a stream, what each chunk yields, on which channel each
//! event goes out, and how a stream ends.

use crate::framer::StreamFrame;
use crate::reassembler::{
    complete_frames, events_of, frame_views, remainder, utf8_lossy, Reassembler,
};
use crate::text::{decimal, decimal_string, from_chars, slice, to_chars};
use vstd::prelude::*;
use vstd::string::StringExecFns;

verus! {

/// The session that a caller means who names none.
pub open spec fn default_session() -> Seq<char> {
    "__default__"@
}

/// The session id to use: the caller's, or the default where there is none.
pub fn session_or_default(session_id: Option<String>) -> (id: String)
    ensures
        id@ == match session_id {
            Some(given) => given@,
            None => default_session(),
        },
{
    match session_id {
        Some(given) => given,
        None => String::from_str("__default__"),
    }
}

/// The channel on which the events of type `event_type` of `session` go out.
pub open spec fn channel(session: Seq<char>, event_type: Seq<char>) -> Seq<char> {
    "stream:"@ + session + ":"@ + event_type
}

/// The channel on which the terminal failure of `session` goes out.
pub open spec fn error_channel(session: Seq<char>) -> Seq<char> {
    channel(session, "error"@)
}

/// Names the channel for the events of type `event_type` of `session_id`.
pub fn channel_name(session_id: &str, event_type: &str) -> (name: String)
    ensures
        name@ == channel(session_id@, event_type@),
{
    let mut name = String::from_str("stream:");
    name.append(session_id);
    name.append(":");
    name.append(event_type);
    name
}

/// Names the channel for the terminal failure of `session_id`.
pub fn error_channel_name(session_id: &str) -> (name: String)
    ensures
        name@ == error_channel(session_id@),
{
    channel_name(session_id, "error")
}

/// Whether a response with this status opens a stream: the success class,
/// 200 to 299.
pub open spec fn is_success(status: u16) -> bool {
    200 <= status <= 299
}

/// Tests whether a response with this status opens a stream.
pub fn is_success_status(status: u16) -> (r: bool)
    ensures
        r == is_success(status),
{
    200 <= status && status <= 299
}

/// What is reported when the response to the opening request is no success.
pub open spec fn connection_failed_text(session: Seq<char>, status_text: Seq<char>) -> Seq<char> {
    "[sse-proxy] Tab "@ + session + " connection failed: "@ + status_text
}

/// What is reported when no client could be built for the stream.
pub open spec fn client_failure_text(error: Seq<char>) -> Seq<char> {
    "[sse-proxy] Failed to create HTTP client: "@ + error
}

/// Words the failure to build the stream's client.
pub fn client_failure(error: &str) -> (text: String)
    ensures
        text@ == client_failure_text(error@),
{
    let mut text = String::from_str("[sse-proxy] Failed to create HTTP client: ");
    text.append(error);
    text
}

/// What is reported when the transport fails in mid-stream.
pub open spec fn stream_error_text(session: Seq<char>, chunks: nat, error: Seq<char>) -> Seq<
    char,
> {
    "[sse-proxy] Tab "@ + session + " stream error after "@ + decimal(chunks) + " chunks: "@
        + error
}

/// How much of the waiting text a preview shows.
pub const PREVIEW_LIMIT: usize = 200;

/// The preview of the waiting text: all of it up to the limit, else its
/// first part and a note of its whole length.
pub open spec fn preview_of(pending: Seq<char>) -> Seq<char> {
    if pending.len() > PREVIEW_LIMIT {
        pending.take(PREVIEW_LIMIT as int) + "...(truncated, total "@ + decimal(pending.len())
            + " chars)"@
    } else {
        pending
    }
}

/// Makes the preview of the waiting text.
pub fn buffer_preview(pending: &str) -> (r: String)
    ensures
        r@ == preview_of(pending@),
{
    let chars = to_chars(pending);
    if chars.len() > PREVIEW_LIMIT {
        let head = slice(&chars, 0, PREVIEW_LIMIT);
        let mut r = from_chars(&head);
        r.append("...(truncated, total ");
        let total = decimal_string(chars.len() as u64);
        r.append(total.as_str());
        r.append(" chars)");
        r
    } else {
        from_chars(&chars)
    }
}

/// One event on its way to the front-end.
#[derive(Debug, Clone, PartialEq, Eq)]
pub struct Dispatch {
    pub channel: String,
    pub payload: String,
}

impl View for Dispatch {
    type V = (Seq<char>, Seq<char>);

    open spec fn view(&self) -> (Seq<char>, Seq<char>) {
        (self.channel@, self.payload@)
    }
}

/// The views of the dispatches in `v`.
pub open spec fn dispatch_views(v: Seq<Dispatch>) -> Seq<(Seq<char>, Seq<char>)> {
    v.map_values(|d: Dispatch| d@)
}

/// The dispatches for the events of `session`: each event goes out on the
/// channel of its type, in the order of the events.
pub open spec fn dispatches_of(session: Seq<char>, events: Seq<(Seq<char>, Seq<char>)>) -> Seq<
    (Seq<char>, Seq<char>),
> {
    events.map_values(|e: (Seq<char>, Seq<char>)| (channel(session, e.0), e.1))
}

/// Routes the events of `session_id` to their channels.
pub fn route(session_id: &str, events: Vec<StreamFrame>) -> (out: Vec<Dispatch>)
    ensures
        dispatch_views(out@) == dispatches_of(session_id@, frame_views(events@)),
{
    let mut out: Vec<Dispatch> = Vec::new();
    let mut i: usize = 0;
    while i < events.len()
        invariant
            i <= events.len(),
            dispatch_views(out@) == dispatches_of(
                session_id@,
                frame_views(events@).take(i as int),
            ),
        decreases events.len() - i,
    {
        let event = &events[i];
        let item = Dispatch {
            channel: channel_name(session_id, event.event_type.as_str()),
            payload: event.payload.clone(),
        };
        let ghost before = dispatch_views(out@);
        out.push(item);
        assert(dispatch_views(out@) == before.push(item@));
        assert(frame_views(events@).take(i + 1) == frame_views(events@).take(i as int).push(
            event@,
        ));
        i = i + 1;
    }
    assert(frame_views(events@).take(events.len() as int) == frame_views(events@));
    out
}

/// Where a session's stream stands. `Closed` and `Failed` are terminal.
#[derive(Clone, Copy, Debug, PartialEq, Eq, Structural)]
pub enum Phase {
    Created,
    Connecting,
    Streaming,
    Closed,
    Failed,
}

/// Whether nothing follows `phase`.
pub open spec fn is_terminal(phase: Phase) -> bool {
    phase == Phase::Closed || phase == Phase::Failed
}

/// What can happen to a session's stream.
#[derive(Clone, Copy, Debug, PartialEq, Eq, Structural)]
pub enum Signal {
    /// The opening request goes out.
    Connect,
    /// The response to the opening request is a success.
    Accepted,
    /// The opening request failed, or its response is no success.
    Rejected,
    /// A chunk of the body has arrived.
    Chunk,
    /// The body has ended.
    End,
    /// The transport has failed in mid-stream.
    TransportError,
    /// The caller stops the stream.
    Close,
}

/// The phase that follows `phase` on `signal`. A signal that the phase does
/// not wait for changes nothing.
pub open spec fn next_phase(phase: Phase, signal: Signal) -> Phase {
    match (phase, signal) {
        (Phase::Created, Signal::Connect) => Phase::Connecting,
        (Phase::Connecting, Signal::Accepted) => Phase::Streaming,
        (Phase::Connecting, Signal::Rejected) => Phase::Failed,
        (Phase::Streaming, Signal::Chunk) => Phase::Streaming,
        (Phase::Streaming, Signal::End) => Phase::Closed,
        (Phase::Streaming, Signal::TransportError) => Phase::Failed,
        (Phase::Failed, Signal::Close) => Phase::Failed,
        (_, Signal::Close) => Phase::Closed,
        _ => phase,
    }
}

/// How far a phase is from the start.
pub open spec fn rank(phase: Phase) -> nat {
    match phase {
        Phase::Created => 0,
        Phase::Connecting => 1,
        Phase::Streaming => 2,
        Phase::Closed => 3,
        Phase::Failed => 3,
    }
}

/// Nothing follows a terminal phase: whatever happens, a session that is
/// closed stays closed and one that has failed stays failed. Only a new
/// session begins again.
pub proof fn lemma_terminal_stays(phase: Phase, signal: Signal)
    requires
        is_terminal(phase),
    ensures
        next_phase(phase, signal) == phase,
{
}

/// A session never goes back: no signal leads to an earlier phase.
pub proof fn lemma_phases_advance(phase: Phase, signal: Signal)
    ensures
        rank(next_phase(phase, signal)) >= rank(phase),
{
}

/// What the connection reports while the stream is open.
#[derive(Debug, Clone, PartialEq, Eq)]
pub enum StreamEvent {
    /// The next chunk of the body, as it came off the wire.
    Chunk(Vec<u8>),
    /// The body has ended.
    End,
    /// The transport failed; the text says how.
    Error(String),
}

impl StreamEvent {
    /// The signal that the event is to the session's phase.
    pub open spec fn signal(&self) -> Signal {
        match self {
            StreamEvent::Chunk(_) => Signal::Chunk,
            StreamEvent::End => Signal::End,
            StreamEvent::Error(_) => Signal::TransportError,
        }
    }
}

/// What the caller does after an event.
#[derive(Debug, Clone, PartialEq, Eq)]
pub enum StreamStep {
    /// Deliver these, in order, and await the next chunk.
    Emit(Vec<Dispatch>),
    /// The stream ended by itself: stop.
    Closed,
    /// The stream failed: report `message` on the error channel and stop.
    /// `preview` shows the text that was still waiting.
    Failed { message: String, preview: String },
    /// The stream is not open: nothing to do.
    Idle,
}

/// How the opening request ended.
#[derive(Debug, Clone, PartialEq, Eq)]
pub enum Opening {
    /// The stream is open.
    Streaming,
    /// The response was no success; the text goes out on the error channel.
    Rejected(String),
    /// The session was not connecting: nothing has changed.
    Ignored,
}

/// One session's stream.
pub struct StreamSession {
    session_id: String,
    reassembler: Reassembler,
    phase: Phase,
}

impl StreamSession {
    /// The session that the stream belongs to.
    pub closed spec fn session(&self) -> Seq<char> {
        self.session_id@
    }

    /// Where the stream stands.
    pub closed spec fn phase(&self) -> Phase {
        self.phase
    }

    /// The text that waits for a frame delimiter.
    pub closed spec fn pending(&self) -> Seq<char> {
        self.reassembler.pending()
    }

    /// How many chunks have arrived.
    pub closed spec fn chunks_seen(&self) -> nat {
        self.reassembler.chunks_seen()
    }

    /// A stream for `session_id` that nothing has happened to yet.
    pub fn new(session_id: String) -> (s: StreamSession)
        ensures
            s.session() == session_id@,
            s.phase() == Phase::Created,
            s.pending() == Seq::<char>::empty(),
            s.chunks_seen() == 0,
    {
        StreamSession { session_id, reassembler: Reassembler::new(), phase: Phase::Created }
    }

    /// Where the stream stands.
    pub fn current_phase(&self) -> (p: Phase)
        ensures
            p == self.phase(),
    {
        self.phase
    }

    /// The opening request goes out. Tells whether the session was new; a
    /// session in any other phase stays as it is.
    pub fn connect(&mut self) -> (started: bool)
        ensures
            started == (old(self).phase() == Phase::Created),
            final(self).phase() == next_phase(old(self).phase(), Signal::Connect),
            final(self).session() == old(self).session(),
            final(self).pending() == old(self).pending(),
            final(self).chunks_seen() == old(self).chunks_seen(),
    {
        match self.phase {
            Phase::Created => {
                self.phase = Phase::Connecting;
                true
            },
            _ => false,
        }
    }

    /// The response to the opening request has arrived. A success status
    /// opens the stream; any other fails the session, with the status as
    /// context, and nothing is reassembled.
    pub fn on_response(&mut self, status: u16, status_text: &str) -> (r: Opening)
        ensures
            final(self).session() == old(self).session(),
            final(self).pending() == old(self).pending(),
            final(self).chunks_seen() == old(self).chunks_seen(),
            final(self).phase() == next_phase(
                old(self).phase(),
                if is_success(status) {
                    Signal::Accepted
                } else {
                    Signal::Rejected
                },
            ),
            old(self).phase() != Phase::Connecting ==> r is Ignored,
            old(self).phase() == Phase::Connecting && is_success(status) ==> r is Streaming,
            old(self).phase() == Phase::Connecting && !is_success(status) ==> (r matches Opening::Rejected(
                text,
            ) && text@ == connection_failed_text(old(self).session(), status_text@)),
    {
        match self.phase {
            Phase::Connecting => {
                if is_success_status(status) {
                    self.phase = Phase::Streaming;
                    Opening::Streaming
                } else {
                    self.phase = Phase::Failed;
                    let mut text = String::from_str("[sse-proxy] Tab ");
                    text.append(self.session_id.as_str());
                    text.append(" connection failed: ");
                    text.append(status_text);
                    Opening::Rejected(text)
                }
            },
            _ => Opening::Ignored,
        }
    }

    /// The opening request itself failed. The session fails; the text that
    /// goes out on the error channel is the transport's own.
    pub fn on_connect_error(&mut self, error: String) -> (r: Opening)
        ensures
            final(self).session() == old(self).session(),
            final(self).pending() == old(self).pending(),
            final(self).chunks_seen() == old(self).chunks_seen(),
            final(self).phase() == next_phase(old(self).phase(), Signal::Rejected),
            old(self).phase() != Phase::Connecting ==> r is Ignored,
            old(self).phase() == Phase::Connecting ==> (r matches Opening::Rejected(text) && text@
                == error@),
    {
        match self.phase {
            Phase::Connecting => {
                self.phase = Phase::Failed;
                Opening::Rejected(error)
            },
            _ => Opening::Ignored,
        }
    }

    /// Whether to await another chunk. `running` is the session's stop flag
    /// as the caller has just read it: the flag is looked at once per chunk,
    /// so a chunk that is already awaited still completes.
    pub fn should_continue(&self, running: bool) -> (go_on: bool)
        ensures
            go_on == (running && self.phase() == Phase::Streaming),
    {
        running && self.phase == Phase::Streaming
    }

    /// The caller has stopped the stream. A session that has not failed is
    /// closed from now on.
    pub fn close(&mut self)
        ensures
            final(self).phase() == next_phase(old(self).phase(), Signal::Close),
            final(self).session() == old(self).session(),
            final(self).pending() == old(self).pending(),
            final(self).chunks_seen() == old(self).chunks_seen(),
    {
        match self.phase {
            Phase::Failed => {},
            _ => {
                self.phase = Phase::Closed;
            },
        }
    }

    /// Takes what the connection reports. While the stream is open, a chunk
    /// yields the events of the frames that it completes, each on the channel
    /// of its type and in arrival order; the end of the body closes the
    /// session; a transport error fails it, reported with the number of
    /// chunks so far and a preview of the text that still waited. In any
    /// other phase nothing happens.
    pub fn on_event(&mut self, event: StreamEvent) -> (step: StreamStep)
        ensures
            final(self).session() == old(self).session(),
            final(self).phase() == next_phase(old(self).phase(), event.signal()),
            old(self).phase() != Phase::Streaming ==> {
                &&& step is Idle
                &&& final(self).pending() == old(self).pending()
                &&& final(self).chunks_seen() == old(self).chunks_seen()
            },
            old(self).phase() == Phase::Streaming ==> match event {
                StreamEvent::Chunk(bytes) => {
                    let text = old(self).pending() + utf8_lossy(bytes@);
                    &&& final(self).pending() == remainder(text)
                    &&& final(self).chunks_seen() == if old(self).chunks_seen() < u64::MAX {
                        old(self).chunks_seen() + 1
                    } else {
                        old(self).chunks_seen()
                    }
                    &&& step matches StreamStep::Emit(out)
                    &&& dispatch_views(out@) == dispatches_of(
                        old(self).session(),
                        events_of(complete_frames(text)),
                    )
                },
                StreamEvent::End => {
                    &&& step is Closed
                    &&& final(self).pending() == old(self).pending()
                    &&& final(self).chunks_seen() == old(self).chunks_seen()
                },
                StreamEvent::Error(error) => {
                    &&& final(self).pending() == old(self).pending()
                    &&& final(self).chunks_seen() == old(self).chunks_seen()
                    &&& step matches StreamStep::Failed { message, preview }
                    &&& message@ == stream_error_text(
                        old(self).session(),
                        old(self).chunks_seen(),
                        error@,
                    )
                    &&& preview@ == preview_of(old(self).pending())
                },
            },
    {
        match self.phase {
            Phase::Streaming => {},
            _ => {
                return StreamStep::Idle;
            },
        }
        match event {
            StreamEvent::Chunk(bytes) => {
                let events = self.reassembler.push_chunk(bytes.as_slice());
                StreamStep::Emit(route(self.session_id.as_str(), events))
            },
            StreamEvent::End => {
                self.phase = Phase::Closed;
                StreamStep::Closed
            },
            StreamEvent::Error(error) => {
                self.phase = Phase::Failed;
                let mut message = String::from_str("[sse-proxy] Tab ");
                message.append(self.session_id.as_str());
                message.append(" stream error after ");
                let count = decimal_string(self.reassembler.chunk_count());
                message.append(count.as_str());
                message.append(" chunks: ");
                message.append(error.as_str());
                let waiting = self.reassembler.pending_text();
                let preview = buffer_preview(waiting.as_str());
                StreamStep::Failed { message, preview }
            },
        }
    }
}

} // verus!
