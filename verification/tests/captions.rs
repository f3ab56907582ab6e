use live_captions::caption::{assemble_caption, caption_for_result, CaptionChannel, CaptionEvent};

#[test]
fn assemble_concatenates_segments_in_order() {
    let segments = vec![String::from("Hello,"), String::from(" "), String::from("world")];
    let ev = assemble_caption(&segments, false);
    assert_eq!(ev.text, "Hello, world");
    assert!(!ev.is_correction);
}

#[test]
fn assemble_keeps_the_correction_flag() {
    let segments = vec![String::from("again")];
    let ev = assemble_caption(&segments, true);
    assert_eq!(ev.text, "again");
    assert!(ev.is_correction);
}

#[test]
fn silence_still_yields_an_event() {
    // a window may legitimately transcribe to empty text; the event is
    // emitted, not dropped
    let ev = assemble_caption(&Vec::new(), true);
    assert_eq!(ev.text, "");
    assert!(ev.is_correction);
}

#[test]
fn engine_failure_yields_no_event() {
    let r = caption_for_result(&None, true);
    assert!(r.is_none());
}

#[test]
fn engine_success_yields_the_assembled_event() {
    let segments = Some(vec![String::from("one "), String::from("two")]);
    let r = caption_for_result(&segments, false);
    let ev = r.expect("a successful invocation emits an event");
    assert_eq!(ev.text, "one two");
    assert!(!ev.is_correction);
}

#[test]
fn channel_delivers_events_in_emission_order() {
    let mut ch = CaptionChannel::new();
    ch.send(CaptionEvent { text: String::from("first"), is_correction: false });
    ch.send(CaptionEvent { text: String::from("second"), is_correction: true });
    ch.send(CaptionEvent { text: String::from(""), is_correction: true });

    let a = ch.recv().expect("first event");
    assert_eq!(a.text, "first");
    assert!(!a.is_correction);
    let b = ch.recv().expect("second event");
    assert_eq!(b.text, "second");
    assert!(b.is_correction);
    let c = ch.recv().expect("third event, empty text included");
    assert_eq!(c.text, "");
    assert!(c.is_correction);
    assert!(ch.recv().is_none());
}

#[test]
fn emit_appends_one_event_per_successful_invocation() {
    let mut ch = CaptionChannel::new();
    assert!(ch.emit_transcription(&Some(vec![String::from("hi")]), false));
    // a failed engine invocation emits nothing and the loop goes on
    assert!(!ch.emit_transcription(&None, true));
    assert!(ch.emit_transcription(&Some(vec![String::from("hi "), String::from("there")]), true));

    let a = ch.recv().unwrap();
    assert_eq!(a.text, "hi");
    assert!(!a.is_correction);
    let b = ch.recv().unwrap();
    assert_eq!(b.text, "hi there");
    assert!(b.is_correction);
    assert!(ch.recv().is_none());
}

#[test]
fn channel_interleaved_send_and_recv_stays_fifo() {
    let mut ch = CaptionChannel::new();
    ch.send(CaptionEvent { text: String::from("a"), is_correction: false });
    assert_eq!(ch.recv().unwrap().text, "a");
    ch.send(CaptionEvent { text: String::from("b"), is_correction: false });
    ch.send(CaptionEvent { text: String::from("c"), is_correction: true });
    assert_eq!(ch.recv().unwrap().text, "b");
    ch.send(CaptionEvent { text: String::from("d"), is_correction: false });
    assert_eq!(ch.recv().unwrap().text, "c");
    assert_eq!(ch.recv().unwrap().text, "d");
    assert!(ch.recv().is_none());
}
