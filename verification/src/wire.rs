//! The wire format: one JSON value and a newline, in both directions.
//!
//! The JSON itself is serde_json's work on niri_ipc's types. This module
//! frames what is sent, and says what a line that came back means.

use crate::error::{make_io_error, new_io_error, FailureKind, NiriReplyError};
use vstd::prelude::*;

verus! {

/// `niri_ipc::Request`, carried through as an opaque value.
#[verifier::external_type_specification]
#[verifier::external_body]
pub struct ExRequest(niri_ipc::Request);

/// `niri_ipc::Response`, carried through as an opaque value.
#[verifier::external_type_specification]
#[verifier::external_body]
pub struct ExResponse(niri_ipc::Response);

/// `niri_ipc::Event`, carried through as an opaque value.
#[verifier::external_type_specification]
#[verifier::external_body]
pub struct ExEvent(niri_ipc::Event);

/// `serde_json::Error`, carried through as an opaque value.
#[verifier::external_type_specification]
#[verifier::external_body]
pub struct ExJsonError(serde_json::Error);

/// What a reply line holds, as far as the protocol cares.
pub enum ReplyShape {
    /// A well-formed reply that carries a response.
    Payload,
    /// A well-formed reply that carries niri's error message.
    Refusal(Seq<char>),
    /// Not a reply at all.
    Malformed,
}

/// The JSON text that `serde_json::to_string` writes for a request, or `None`
/// where it reports an error.
pub uninterp spec fn request_json(request: niri_ipc::Request) -> Option<Seq<char>>;

/// What `serde_json::from_str` makes of a line read as a reply.
pub uninterp spec fn reply_shape(line: Seq<char>) -> ReplyShape;

/// What `serde_json::from_str` makes of a line read as an event.
pub uninterp spec fn decoded_event(line: Seq<char>) -> Result<niri_ipc::Event, serde_json::Error>;

/// The `std::io::Error` that serde_json turns one of its own errors into.
pub uninterp spec fn io_error_of_json(error: serde_json::Error) -> std::io::Error;

/// The shape of a decoded reply.
pub open spec fn shape_of(
    decoded: Result<Result<niri_ipc::Response, String>, serde_json::Error>,
) -> ReplyShape {
    match decoded {
        Ok(Ok(_)) => ReplyShape::Payload,
        Ok(Err(message)) => ReplyShape::Refusal(message@),
        Err(_) => ReplyShape::Malformed,
    }
}

/// Calls `serde_json::to_string` on a request. Trusted: the text depends on
/// the request alone, so it is `request_json` of it, and an error comes
/// exactly where `request_json` is `None`.
#[verifier::external_body]
fn encode_request(request: &niri_ipc::Request) -> (json: Result<String, serde_json::Error>)
    ensures
        match json {
            Ok(text) => request_json(*request) == Some(text@),
            Err(_) => request_json(*request) is None,
        },
{
    serde_json::to_string(request)
}

/// Calls `serde_json::from_str` for a reply. Trusted: whether the line is a
/// reply, and the message of one that carries an error, depend on the line's
/// text alone. Nothing is claimed of the response inside.
#[verifier::external_body]
fn decode_reply(line: &str) -> (decoded: Result<
    Result<niri_ipc::Response, String>,
    serde_json::Error,
>)
    ensures
        shape_of(decoded) == reply_shape(line@),
{
    serde_json::from_str::<Result<niri_ipc::Response, String>>(line)
}

/// Calls `serde_json::from_str` for an event. Trusted: the outcome depends on
/// the line's text alone.
#[verifier::external_body]
fn decode_event(line: &str) -> (decoded: Result<niri_ipc::Event, serde_json::Error>)
    ensures
        decoded == decoded_event(line@),
{
    serde_json::from_str::<niri_ipc::Event>(line)
}

/// Calls serde_json's `From<serde_json::Error> for std::io::Error`. Trusted:
/// the result depends on the error alone.
#[verifier::external_body]
fn json_error_into_io(error: serde_json::Error) -> (cause: std::io::Error)
    ensures
        cause == io_error_of_json(error),
{
    std::io::Error::from(error)
}

/// Builds `niri_ipc::Request::EventStream`. Trusted: serde writes an enum's
/// variant without fields as its name in double quotes, and serde_json adds
/// nothing to it.
#[verifier::external_body]
pub(crate) fn event_stream_request() -> (request: niri_ipc::Request)
    ensures
        request_json(request) == Some("\"EventStream\""@),
{
    niri_ipc::Request::EventStream
}

/// The line that carries a request: its JSON text and one newline.
pub open spec fn request_line_of(request: niri_ipc::Request) -> Option<Seq<char>> {
    match request_json(request) {
        Some(json) => Some(json.push('\n')),
        None => None,
    }
}

/// What the caller gets for a decoded reply: the response, niri's message as
/// a remote error, or the decoding failure as a local one.
pub open spec fn reply_outcome_of(
    decoded: Result<Result<niri_ipc::Response, String>, serde_json::Error>,
) -> Result<niri_ipc::Response, NiriReplyError> {
    match decoded {
        Ok(Ok(response)) => Ok(response),
        Ok(Err(message)) => Err(NiriReplyError::Niri(message)),
        Err(error) => Err(NiriReplyError::IO(io_error_of_json(error))),
    }
}

/// What the caller gets for a decoded event: the event, or the decoding
/// failure as an I/O error.
pub open spec fn event_outcome_of(
    decoded: Result<niri_ipc::Event, serde_json::Error>,
) -> Result<niri_ipc::Event, std::io::Error> {
    match decoded {
        Ok(event) => Ok(event),
        Err(error) => Err(io_error_of_json(error)),
    }
}

/// Whether an outcome is what a reply line of this shape gives.
pub open spec fn outcome_fits(
    outcome: Result<niri_ipc::Response, NiriReplyError>,
    shape: ReplyShape,
) -> bool {
    match outcome {
        Ok(_) => shape is Payload,
        Err(NiriReplyError::Niri(message)) => shape == ReplyShape::Refusal(message@),
        Err(NiriReplyError::IO(_)) => shape is Malformed,
    }
}

/// Whether what a read left in its buffer is a message: a line with its
/// newline, or nothing at all where there is no more data.
pub open spec fn is_whole_line(text: Seq<char>) -> bool {
    text.len() == 0 || text.last() == '\n'
}

/// What the error says when the data ends in the middle of a line.
pub open spec fn cut_short_message() -> Seq<char> {
    "connection closed in the middle of a line"@
}

/// Why a read that has ended gives no message, if it gives none: the read
/// failed, or it left a line without its newline.
pub open spec fn line_failure(text: Seq<char>, status: Result<(), std::io::Error>) -> Option<
    std::io::Error,
> {
    match status {
        Err(cause) => Some(cause),
        Ok(_) => if is_whole_line(text) {
            None
        } else {
            Some(new_io_error(FailureKind::UnexpectedEof, cut_short_message()))
        },
    }
}

/// Whether what a read left in its buffer is a message.
pub fn line_is_whole(text: &str) -> (whole: bool)
    ensures
        whole == is_whole_line(text@),
{
    let length: usize = text.unicode_len();
    if length == 0 {
        true
    } else {
        text.get_char(length - 1) == '\n'
    }
}

/// Settles whether a read that has ended gives a message. A failed read gives
/// none, and its failure stands. A read that went through gives one unless it
/// left a line without its newline: no part of a line is ever taken for a
/// message.
pub fn check_line(text: &str, status: Result<(), std::io::Error>) -> (checked: Result<
    (),
    std::io::Error,
>)
    ensures
        checked == match line_failure(text@, status) {
            Some(cause) => Err::<(), std::io::Error>(cause),
            None => Ok(()),
        },
{
    match status {
        Err(cause) => Err(cause),
        Ok(_) => if line_is_whole(text) {
            Ok(())
        } else {
            Err(
                make_io_error(
                    FailureKind::UnexpectedEof,
                    "connection closed in the middle of a line".to_owned(),
                ),
            )
        },
    }
}

/// Frames a request for sending: its JSON text followed by one newline.
/// Fails, as a local error, exactly where the request has no JSON text.
pub fn request_line(request: &niri_ipc::Request) -> (line: Result<String, NiriReplyError>)
    ensures
        match line {
            Ok(text) => request_line_of(*request) == Some(text@),
            Err(error) => request_line_of(*request) is None && error is IO,
        },
{
    match encode_request(request) {
        Ok(mut text) => {
            let ghost json = text@;
            text.append("\n");
            proof {
                reveal_strlit("\n");
                assert(text@ =~= json.push('\n'));
            }
            Ok(text)
        },
        Err(error) => Err(NiriReplyError::IO(json_error_into_io(error))),
    }
}

/// Flattens a decoded reply into the caller's result.
pub fn reply_outcome(
    decoded: Result<Result<niri_ipc::Response, String>, serde_json::Error>,
) -> (outcome: Result<niri_ipc::Response, NiriReplyError>)
    ensures
        outcome == reply_outcome_of(decoded),
{
    match decoded {
        Ok(Ok(response)) => Ok(response),
        Ok(Err(message)) => Err(NiriReplyError::Niri(message)),
        Err(error) => Err(NiriReplyError::IO(json_error_into_io(error))),
    }
}

/// Folds an event's decoding failure into the I/O error channel.
pub fn event_outcome(decoded: Result<niri_ipc::Event, serde_json::Error>) -> (outcome: Result<
    niri_ipc::Event,
    std::io::Error,
>)
    ensures
        outcome == event_outcome_of(decoded),
{
    match decoded {
        Ok(event) => Ok(event),
        Err(error) => Err(json_error_into_io(error)),
    }
}

/// Reads one line as a reply.
pub fn read_reply(line: &str) -> (outcome: Result<niri_ipc::Response, NiriReplyError>)
    ensures
        outcome_fits(outcome, reply_shape(line@)),
{
    reply_outcome(decode_reply(line))
}

/// Reads one line as an event.
pub fn read_event(line: &str) -> (outcome: Result<niri_ipc::Event, std::io::Error>)
    ensures
        outcome == event_outcome_of(decoded_event(line@)),
{
    event_outcome(decode_event(line))
}

/// A reply that carries niri's error message surfaces as a remote error with
/// exactly that message, never as a local one.
pub proof fn refusal_surfaces_as_remote(message: String)
    ensures
        reply_outcome_of(Ok(Err(message))) == Err::<niri_ipc::Response, NiriReplyError>(
            NiriReplyError::Niri(message),
        ),
        outcome_fits(reply_outcome_of(Ok(Err(message))), ReplyShape::Refusal(message@)),
{
}

/// A line that is no reply surfaces as a local error: it is neither dropped
/// nor taken for an answer of niri's.
pub proof fn malformed_reply_surfaces_as_local(error: serde_json::Error)
    ensures
        reply_outcome_of(Err(error)) matches Err(NiriReplyError::IO(_)),
        outcome_fits(reply_outcome_of(Err(error)), ReplyShape::Malformed),
{
}

/// The outcome of reading a line tells what the line held: a response for a
/// reply with one, niri's own message for a refusal, a local error for
/// anything else.
pub proof fn outcome_tells_the_shape(
    outcome: Result<niri_ipc::Response, NiriReplyError>,
    shape: ReplyShape,
)
    requires
        outcome_fits(outcome, shape),
    ensures
        shape is Payload <==> outcome is Ok,
        shape is Malformed <==> outcome matches Err(NiriReplyError::IO(_)),
        shape matches ReplyShape::Refusal(message) ==> (outcome matches Err(
            NiriReplyError::Niri(text),
        ) && text@ == message),
{
}

} // verus!
