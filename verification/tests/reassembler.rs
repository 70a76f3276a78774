use stream_relay::framer::StreamFrame;
use stream_relay::reassembler::{drain, Reassembler};
use stream_relay::text::{from_chars, to_chars};

fn pairs(events: &[StreamFrame]) -> Vec<(String, String)> {
    events.iter().map(|e| (e.event_type.clone(), e.payload.clone())).collect()
}

fn event(event: &str, payload: &str) -> (String, String) {
    (event.to_string(), payload.to_string())
}

#[test]
fn complete_frames_come_out_in_order() {
    let mut r = Reassembler::new();
    let events = r.push_text("event: a\ndata: 1\n\ndata: 2\n\nevent: c\ndata: 3");
    assert_eq!(pairs(&events), vec![event("a", "1"), event("message", "2")]);
    assert_eq!(r.pending_text(), "event: c\ndata: 3");
    assert_eq!(r.chunk_count(), 1);
    let events = r.push_text("\n\n");
    assert_eq!(pairs(&events), vec![event("c", "3")]);
    assert_eq!(r.pending_text(), "");
    assert_eq!(r.chunk_count(), 2);
}

#[test]
fn frames_without_data_are_consumed_silently() {
    let mut r = Reassembler::new();
    let events = r.push_text(": heartbeat\n\nevent: x\n\ndata: y\n\n");
    assert_eq!(pairs(&events), vec![event("message", "y")]);
    assert_eq!(r.pending_text(), "");
}

#[test]
fn a_split_at_any_place_changes_nothing() {
    let whole = "event: chat\ndata: héllo\ndata: wörld\n\n\ndata: x\n\n: ping\n\nevent: e\ndata: tail";
    let chars: Vec<char> = whole.chars().collect();
    let mut one = Reassembler::new();
    let expected = pairs(&one.push_text(whole));
    assert_eq!(
        expected,
        vec![event("chat", "héllo\nwörld"), event("message", "x")]
    );
    for cut in 0..=chars.len() {
        let first: String = chars[..cut].iter().collect();
        let second: String = chars[cut..].iter().collect();
        let mut two = Reassembler::new();
        let mut got = pairs(&two.push_text(&first));
        got.extend(pairs(&two.push_text(&second)));
        assert_eq!(got, expected, "cut at {}", cut);
        assert_eq!(two.pending_text(), one.pending_text(), "cut at {}", cut);
    }
}

#[test]
fn a_byte_split_between_scalar_values_changes_nothing() {
    let whole = "data: a\n\ndata: b\n\n".as_bytes();
    for cut in 0..=whole.len() {
        let mut r = Reassembler::new();
        let mut got = pairs(&r.push_chunk(&whole[..cut]));
        got.extend(pairs(&r.push_chunk(&whole[cut..])));
        assert_eq!(got, vec![event("message", "a"), event("message", "b")], "cut at {}", cut);
        assert_eq!(r.pending_text(), "");
        assert_eq!(r.chunk_count(), 2);
    }
}

#[test]
fn a_delimiter_split_over_two_chunks_is_found() {
    let mut r = Reassembler::new();
    assert!(r.push_text("data: x\n").is_empty());
    assert_eq!(r.pending_text(), "data: x\n");
    assert_eq!(pairs(&r.push_text("\ndata: y")), vec![event("message", "x")]);
    assert_eq!(r.pending_text(), "data: y");
}

#[test]
fn three_line_feeds_leave_one_behind() {
    let mut r = Reassembler::new();
    assert_eq!(pairs(&r.push_text("data: a\n\n\ndata: b\n\n")), vec![event("message", "a"), event("message", "b")]);
    assert_eq!(r.pending_text(), "");
    let (events, rest) = drain(&to_chars("data: a\n\n\n"));
    assert_eq!(pairs(&events), vec![event("message", "a")]);
    assert_eq!(from_chars(&rest), "\n");
}

#[test]
fn malformed_bytes_are_replaced_and_the_stream_goes_on() {
    let mut r = Reassembler::new();
    let events = r.push_chunk(b"data: a\xffb\n\ndata: ok\n\n");
    assert_eq!(pairs(&events), vec![event("message", "a\u{fffd}b"), event("message", "ok")]);
}

#[test]
fn a_scalar_value_cut_in_two_is_lost_to_decoding() {
    let bytes = "data: é\n\n".as_bytes();
    let cut = 7;
    let mut r = Reassembler::new();
    let mut got = pairs(&r.push_chunk(&bytes[..cut]));
    got.extend(pairs(&r.push_chunk(&bytes[cut..])));
    assert_eq!(got, vec![event("message", "\u{fffd}\u{fffd}")]);
}

#[test]
fn drain_of_text_without_delimiter_keeps_all() {
    let (events, rest) = drain(&to_chars("data: waiting\n"));
    assert!(events.is_empty());
    assert_eq!(from_chars(&rest), "data: waiting\n");
    let (events, rest) = drain(&to_chars(""));
    assert!(events.is_empty());
    assert_eq!(from_chars(&rest), "");
}
