use duplex_chat::dispatch::handle_key;
use duplex_chat::dispatch::KeyInput;
use duplex_chat::dispatch::LoopAction;
use duplex_chat::editor::App;
use duplex_chat::log::MessageLog;
use duplex_chat::session::trim_line_terminator;
use duplex_chat::session::ReadEvent;
use duplex_chat::session::Session;

fn chars(s: &str) -> Vec<char> {
    s.chars().collect()
}

fn all_entries(session: &Session) -> Vec<String> {
    session
        .windowed_snapshot(usize::MAX)
        .into_iter()
        .map(|line| line.into_iter().collect())
        .collect()
}

#[test]
fn received_records_land_trimmed_in_arrival_order() {
    let mut session = Session::new();
    session.handle_read_event(ReadEvent::Record(chars("first\n")));
    session.handle_read_event(ReadEvent::Record(chars("second\r\n")));
    session.handle_read_event(ReadEvent::Record(chars("third")));
    assert_eq!(all_entries(&session), vec!["first", "second", "third"]);
    assert!(!session.should_exit());
}

#[test]
fn no_records_leave_the_log_empty() {
    let session = Session::new();
    assert_eq!(all_entries(&session), Vec::<String>::new());
}

#[test]
fn trim_removes_only_the_terminator() {
    let mut raw = chars("a\r\nb\r\n");
    trim_line_terminator(&mut raw);
    assert_eq!(raw, chars("a\r\nb"));
    let mut bare = chars("plain");
    trim_line_terminator(&mut bare);
    assert_eq!(bare, chars("plain"));
    let mut lone = chars("\n");
    trim_line_terminator(&mut lone);
    assert_eq!(lone, chars(""));
    let mut empty = chars("");
    trim_line_terminator(&mut empty);
    assert_eq!(empty, chars(""));
}

#[test]
fn peer_close_terminates_exactly_once() {
    let mut session = Session::new();
    session.handle_read_event(ReadEvent::Record(chars("line\n")));
    assert!(!session.should_exit());
    session.handle_read_event(ReadEvent::Closed);
    assert!(session.should_exit());
    session.handle_read_event(ReadEvent::Closed);
    assert!(session.should_exit());
    assert_eq!(all_entries(&session), vec!["line"]);
}

#[test]
fn transient_read_failure_changes_nothing() {
    let mut session = Session::new();
    session.take_redraw();
    session.handle_read_event(ReadEvent::Failed);
    assert!(!session.should_exit());
    assert_eq!(all_entries(&session), Vec::<String>::new());
    assert!(!session.take_redraw());
}

#[test]
fn mixed_appends_lose_and_duplicate_nothing() {
    let mut session = Session::new();
    let mut editor = App::new();
    let mut expected: usize = 0;
    for i in 0..10 {
        if i % 2 == 0 {
            session.handle_read_event(ReadEvent::Record(chars("remote\n")));
        } else {
            editor.enter_char('m');
            session.submit_local(&mut editor);
        }
        expected += 1;
        assert_eq!(session.log.len(), expected);
    }
    assert_eq!(session.log.len(), 10);
}

#[test]
fn remote_arrival_marks_redraw_and_render_claims_it() {
    let mut session = Session::new();
    assert!(session.take_redraw());
    assert!(!session.take_redraw());
    session.handle_read_event(ReadEvent::Record(chars("ping\n")));
    assert!(session.take_redraw());
    assert!(!session.take_redraw());
}

#[test]
fn submission_records_line_locally() {
    let mut session = Session::new();
    let mut editor = App::new();
    editor.enter_char('y');
    editor.enter_char('o');
    let line = session.submit_local(&mut editor);
    assert_eq!(line, chars("yo"));
    assert_eq!(all_entries(&session), vec!["yo"]);
    assert_eq!(editor.input, chars(""));
    assert_eq!(editor.cursor_position, 0);
}

#[test]
fn empty_submission_appends_empty_message() {
    let mut session = Session::new();
    let mut editor = App::new();
    editor.input_mode = duplex_chat::editor::InputMode::Editing;
    let action = handle_key(&mut editor, &mut session, KeyInput::Enter, true);
    match action {
        LoopAction::Send(line) => assert_eq!(line, chars("")),
        _ => panic!("an empty submission still sends"),
    }
    assert_eq!(all_entries(&session), vec![""]);
}

#[test]
fn windowed_snapshot_returns_the_tail() {
    let mut log = MessageLog::new();
    log.append(chars("one"));
    log.append(chars("two"));
    log.append(chars("three"));
    let tail: Vec<Vec<char>> = log.windowed_snapshot(2);
    assert_eq!(tail, vec![chars("two"), chars("three")]);
    let all: Vec<Vec<char>> = log.windowed_snapshot(9);
    assert_eq!(all, vec![chars("one"), chars("two"), chars("three")]);
    let none: Vec<Vec<char>> = log.windowed_snapshot(0);
    assert_eq!(none, Vec::<Vec<char>>::new());
    assert_eq!(log.len(), 3);
}

#[test]
fn end_to_end_hello_reaches_the_peer_log() {
    // Initiator side: type "hello" and press Enter.
    let mut initiator = Session::new();
    let mut editor = App::new();
    handle_key(&mut editor, &mut initiator, KeyInput::Char('i'), true);
    for c in "hello".chars() {
        handle_key(&mut editor, &mut initiator, KeyInput::Char(c), true);
    }
    let action = handle_key(&mut editor, &mut initiator, KeyInput::Enter, true);
    let sent = match action {
        LoopAction::Send(line) => line,
        _ => panic!("Enter submits"),
    };
    assert_eq!(all_entries(&initiator), vec!["hello"]);

    // The wire carries the line followed by one newline.
    let mut wire = sent;
    wire.push('\n');

    // Responder side: the receiver task reads the record and applies it;
    // the next render pass is claimed and shows the line.
    let mut responder = Session::new();
    responder.take_redraw();
    responder.handle_read_event(ReadEvent::Record(wire));
    assert!(responder.take_redraw());
    assert_eq!(all_entries(&responder), vec!["hello"]);
}
