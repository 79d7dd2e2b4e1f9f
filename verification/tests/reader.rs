use command_reader::event::{ReadResult, StreamEvent};
use command_reader::state::ReaderState;

fn content(ev: StreamEvent) -> Vec<String> {
    ev.into_content_lines()
}

#[test]
fn first_event_is_started_without_io() {
    let mut st = ReaderState::new();
    assert!(st.needs_start());
    assert!(!st.is_done());
    let ev = st.start();
    assert!(ev.is_started());
    assert!(content(ev).is_empty());
    assert!(!st.needs_start());
    assert!(!st.is_done());
}

#[test]
fn printf_three_lines_scenario() {
    // The run a reader makes for a command that prints "a\nb\nc\n".
    let mut st = ReaderState::new();
    let mut lines: Vec<String> = Vec::new();

    let ev = st.start();
    assert!(ev.is_started());

    let reads = vec![
        ReadResult::Line("a".to_string()),
        ReadResult::Line("b".to_string()),
        ReadResult::Line("c".to_string()),
        ReadResult::Eof,
    ];
    let mut saw_ended = false;
    for r in reads {
        let ev = st.absorb(r);
        if ev.is_ended() {
            saw_ended = true;
        } else {
            lines.extend(content(ev));
        }
    }
    assert!(saw_ended);
    assert!(st.is_done());
    assert_eq!(lines, vec!["a".to_string(), "b".to_string(), "c".to_string()]);
}

#[test]
fn batch_order_is_preserved() {
    let mut st = ReaderState::new();
    let _ = st.start();
    let ev = st.absorb(ReadResult::Batch(vec![
        "x".to_string(),
        "y".to_string(),
        "z".to_string(),
    ]));
    assert!(matches!(ev, StreamEvent::Lines(_)));
    assert_eq!(
        content(ev),
        vec!["x".to_string(), "y".to_string(), "z".to_string()]
    );
}

#[test]
fn mixed_run_concatenates_in_order() {
    let mut st = ReaderState::new();
    let _ = st.start();
    let mut lines: Vec<String> = Vec::new();
    let reads = vec![
        ReadResult::Line("a".to_string()),
        ReadResult::Batch(vec!["b".to_string(), "c".to_string()]),
        ReadResult::Line("d".to_string()),
        ReadResult::Eof,
    ];
    for r in reads {
        let ev = st.absorb(r);
        lines.extend(content(ev));
    }
    assert!(st.is_done());
    assert_eq!(
        lines,
        vec![
            "a".to_string(),
            "b".to_string(),
            "c".to_string(),
            "d".to_string()
        ]
    );
}

#[test]
fn background_child_scenario_events() {
    // The run a reader makes for "sh -c 'sleep 5 & echo done'": the shell
    // itself echoes and exits, so the events are Started, "done", Ended.
    let mut st = ReaderState::new();
    let ev = st.start();
    assert!(ev.is_started());
    let ev = st.absorb(ReadResult::Line("done".to_string()));
    assert_eq!(content(ev), vec!["done".to_string()]);
    let ev = st.absorb(ReadResult::Eof);
    assert!(ev.is_ended());
    assert!(st.is_done());
}

#[test]
fn eof_maps_to_ended_and_is_terminal() {
    let mut st = ReaderState::new();
    let _ = st.start();
    let ev = st.absorb(ReadResult::Eof);
    assert!(ev.is_ended());
    assert!(content(ev).is_empty());
    assert!(st.is_done());
}

#[test]
fn calls_after_ended_repeat_ended() {
    let mut st = ReaderState::new();
    let _ = st.start();
    let _ = st.absorb(ReadResult::Eof);
    for _ in 0..5 {
        let ev = st.after_end();
        assert!(ev.is_ended());
        assert!(content(ev).is_empty());
    }
}

#[test]
fn single_line_event_carries_its_text() {
    let ev = StreamEvent::Line("done".to_string());
    assert!(!ev.is_started());
    assert!(!ev.is_ended());
    assert_eq!(content(ev), vec!["done".to_string()]);
}

#[test]
fn lifecycle_events_carry_no_text() {
    assert!(content(StreamEvent::Started).is_empty());
    assert!(content(StreamEvent::Ended).is_empty());
}
