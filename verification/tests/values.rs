use std::io;

use niri_ipc::{Event, Request, Response};
use niri_transport::wire::{
    check_line, event_outcome, line_is_whole, read_event, read_reply, reply_outcome, request_line,
};
use niri_transport::{socket_path, NiriReplyError};

#[test]
fn io_error_gives_the_cause_of_a_local_failure() {
    let error = NiriReplyError::IO(io::Error::from(io::ErrorKind::PermissionDenied));
    let cause = error.io_error().unwrap();
    assert_eq!(cause.kind(), io::ErrorKind::PermissionDenied);
}

#[test]
fn io_error_is_absent_from_a_remote_error() {
    let error = NiriReplyError::Niri(String::from("declined"));
    assert!(error.io_error().is_none());
}

#[test]
fn niri_error_msg_gives_the_message_of_a_remote_error() {
    let error = NiriReplyError::Niri(String::from("declined"));
    assert_eq!(error.niri_error_msg(), Some(String::from("declined")));
}

#[test]
fn niri_error_msg_is_absent_from_a_local_failure() {
    let error = NiriReplyError::IO(io::Error::from(io::ErrorKind::NotFound));
    assert_eq!(error.niri_error_msg(), None);
}

#[test]
fn io_error_converts_into_a_local_failure() {
    let error = NiriReplyError::from(io::Error::new(io::ErrorKind::TimedOut, "too slow"));
    let cause = match error {
        NiriReplyError::IO(cause) => cause,
        NiriReplyError::Niri(_) => panic!("an I/O error is a local failure"),
    };
    assert_eq!(cause.kind(), io::ErrorKind::TimedOut);
    assert_eq!(cause.to_string(), "too slow");
}

#[test]
fn request_line_is_the_json_text_and_a_newline() {
    assert_eq!(request_line(&Request::Windows).unwrap(), "\"Windows\"\n");
    assert_eq!(request_line(&Request::EventStream).unwrap(), "\"EventStream\"\n");
    let request = Request::Action(niri_ipc::Action::Quit { skip_confirmation: true });
    assert_eq!(
        request_line(&request).unwrap(),
        "{\"Action\":{\"Quit\":{\"skip_confirmation\":true}}}\n"
    );
}

#[test]
fn request_line_ends_with_its_only_newline() {
    let request = Request::Output {
        output: String::from("two\nlines"),
        action: niri_ipc::OutputAction::Off,
    };
    let line = request_line(&request).unwrap();
    assert!(line.ends_with('\n'));
    assert_eq!(line.matches('\n').count(), 1);
}

#[test]
fn reply_outcome_passes_the_response_on() {
    let outcome = reply_outcome(Ok(Ok(Response::Version(String::from("25.08")))));
    assert!(matches!(outcome, Ok(Response::Version(ref version)) if version == "25.08"));
}

#[test]
fn reply_outcome_turns_a_message_into_a_remote_error() {
    let outcome = reply_outcome(Ok(Err(String::from("no such window"))));
    let error = outcome.unwrap_err();
    assert!(matches!(error, NiriReplyError::Niri(ref message) if message == "no such window"));
}

#[test]
fn reply_outcome_keeps_an_empty_message_remote() {
    let error = reply_outcome(Ok(Err(String::new()))).unwrap_err();
    assert_eq!(error.niri_error_msg(), Some(String::new()));
}

#[test]
fn reply_outcome_turns_a_decoding_failure_into_a_local_error() {
    let failure = serde_json::from_str::<Result<Response, String>>("{\"Ok\":").unwrap_err();
    let text = failure.to_string();
    let error = reply_outcome(Err(failure)).unwrap_err();
    let cause = error.io_error().unwrap();
    assert_eq!(cause.kind(), io::ErrorKind::UnexpectedEof);
    assert_eq!(cause.to_string(), text);
}

#[test]
fn event_outcome_passes_the_event_on() {
    let outcome = event_outcome(Ok(Event::WindowClosed { id: 9 }));
    assert!(matches!(outcome, Ok(Event::WindowClosed { id: 9 })));
}

#[test]
fn event_outcome_turns_a_decoding_failure_into_an_io_error() {
    let failure = serde_json::from_str::<Event>("[1, 2]").unwrap_err();
    let text = failure.to_string();
    let cause = event_outcome(Err(failure)).unwrap_err();
    assert_eq!(cause.kind(), io::ErrorKind::InvalidData);
    assert_eq!(cause.to_string(), text);
}

#[test]
fn read_reply_tells_the_three_shapes_apart() {
    assert!(matches!(read_reply("{\"Ok\":\"Handled\"}\n"), Ok(Response::Handled)));
    let refused = read_reply("{\"Err\":\"no such window\"}\n").unwrap_err();
    assert_eq!(refused.niri_error_msg(), Some(String::from("no such window")));
    let malformed = read_reply("Handled\n").unwrap_err();
    assert!(matches!(malformed, NiriReplyError::IO(_)));
    let empty = read_reply("").unwrap_err();
    assert_eq!(empty.io_error().unwrap().kind(), io::ErrorKind::UnexpectedEof);
}

#[test]
fn read_reply_refuses_two_values_on_one_line() {
    let error = read_reply("{\"Ok\":\"Handled\"}{\"Ok\":\"Handled\"}\n").unwrap_err();
    assert_eq!(error.io_error().unwrap().kind(), io::ErrorKind::InvalidData);
}

#[test]
fn read_event_decodes_one_line() {
    let event = read_event("{\"WorkspaceActivated\":{\"id\":4,\"focused\":false}}\n").unwrap();
    assert!(matches!(event, Event::WorkspaceActivated { id: 4, focused: false }));
    let failure = read_event("{\"WorkspaceActivated\":{\"id\":4}}\n").unwrap_err();
    assert_eq!(failure.kind(), io::ErrorKind::InvalidData);
}

#[test]
fn socket_path_passes_the_value_on() {
    let path = socket_path(Some(String::from("/run/user/1000/niri.sock"))).unwrap();
    assert_eq!(path, "/run/user/1000/niri.sock");
}

#[test]
fn socket_path_reports_an_unset_variable_as_not_found() {
    let error = socket_path::<String>(None).unwrap_err();
    assert_eq!(error.kind(), io::ErrorKind::NotFound);
    assert_eq!(
        error.to_string(),
        "NIRI_SOCKET is not set, are you running this within niri?"
    );
}

#[test]
fn line_is_whole_with_its_newline_or_when_empty() {
    assert!(line_is_whole("{\"Ok\":\"Handled\"}\n"));
    assert!(line_is_whole("\n"));
    assert!(line_is_whole(""));
    assert!(!line_is_whole("{\"Ok\":\"Handled\"}"));
    assert!(!line_is_whole("\n{"));
    assert!(!line_is_whole("caf\u{e9}"));
    assert!(line_is_whole("caf\u{e9}\n"));
}

#[test]
fn check_line_lets_a_whole_line_through() {
    assert!(check_line("\"Handled\"\n", Ok(())).is_ok());
    assert!(check_line("", Ok(())).is_ok());
}

#[test]
fn check_line_keeps_the_failure_of_the_read() {
    let failed = Err(io::Error::new(io::ErrorKind::ConnectionReset, "reset by peer"));
    let cause = check_line("{\"Ok\":\"Handled\"}\n", failed).unwrap_err();
    assert_eq!(cause.kind(), io::ErrorKind::ConnectionReset);
    assert_eq!(cause.to_string(), "reset by peer");
}

#[test]
fn check_line_refuses_a_line_without_its_newline() {
    let cause = check_line("{\"Ok\":\"Handled\"}", Ok(())).unwrap_err();
    assert_eq!(cause.kind(), io::ErrorKind::UnexpectedEof);
    assert_eq!(cause.to_string(), "connection closed in the middle of a line");
}
