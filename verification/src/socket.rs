//! The transport: one connection to niri, the exchanges that run over it,
//! and its conversion into an event stream.

use crate::error::{make_io_error, new_io_error, FailureKind, NiriReplyError};
use crate::events::EventStream;
use crate::exchange::{Exchange, ExchangeState};
use crate::protocol::{Command, Completion, Effect, Progress};
use crate::wire::{event_stream_request, line_failure, reply_shape, request_line_of, ReplyShape};
use vstd::prelude::*;

verus! {

/// Reads `niri_ipc::socket::SOCKET_PATH_ENV`, the name of the environment
/// variable that holds the socket's path. Trusted: niri_ipc sets it to
/// `NIRI_SOCKET`.
#[verifier::external_body]
fn socket_path_variable() -> (name: &'static str)
    ensures
        name@ == "NIRI_SOCKET"@,
{
    niri_ipc::socket::SOCKET_PATH_ENV
}

/// What the error says when the environment names no socket.
pub open spec fn unset_message() -> Seq<char> {
    "NIRI_SOCKET"@ + " is not set, are you running this within niri?"@
}

/// The line that asks niri to start sending events.
pub open spec fn event_stream_line() -> Seq<char> {
    "\"EventStream\""@.push('\n')
}

/// Settles where to connect, given what the environment holds for the socket
/// path: that path, or, where the variable is not set, a not-found error that
/// says so.
pub fn socket_path<P>(found: Option<P>) -> (path: Result<P, std::io::Error>)
    ensures
        path == match found {
            Some(value) => Ok::<P, std::io::Error>(value),
            None => Err(new_io_error(FailureKind::NotFound, unset_message())),
        },
{
    match found {
        Some(value) => Ok(value),
        None => {
            let mut message = socket_path_variable().to_owned();
            message.append(" is not set, are you running this within niri?");
            Err(make_io_error(FailureKind::NotFound, message))
        },
    }
}

/// One connection to niri.
pub struct Socket<S> {
    stream: S,
}

impl<S> Socket<S> {
    /// The connection that the socket owns.
    pub closed spec fn connection(&self) -> S {
        self.stream
    }

    /// Makes the socket of an established connection.
    pub fn from_stream(stream: S) -> (socket: Self)
        ensures
            socket.connection() == stream,
    {
        Socket { stream }
    }

    /// The connection, for the driver to write to and read from.
    pub fn stream_mut(&mut self) -> (stream: &mut S)
        ensures
            *stream == old(self).connection(),
            final(self).connection() == *final(stream),
    {
        &mut self.stream
    }

    /// Starts the exchange of a request for its reply: frames the request and
    /// asks for its line to be written. Fails, without a command, exactly
    /// where the request has no JSON text.
    pub fn send(&mut self, request: niri_ipc::Request) -> (started: Result<
        (Exchange, Command),
        NiriReplyError,
    >)
        ensures
            final(self).connection() == old(self).connection(),
            match started {
                Ok((exchange, command)) => {
                    &&& request_line_of(request) == Some(exchange.line())
                    &&& exchange.state() == ExchangeState::Writing
                    &&& exchange.wf()
                    &&& command@ == Effect::Write(exchange.line())
                },
                Err(error) => request_line_of(request) is None && error is IO,
            },
    {
        Exchange::start(&request)
    }

    /// Starts the conversion into an event stream: asks for the line that
    /// requests events to be written. The socket is given up; the connection
    /// lives on in the subscription.
    pub fn into_event_stream(self) -> (started: (Subscribing<S>, Command))
        ensures
            started.0.wf(),
            started.0.connection() == self.connection(),
            !started.0.closing(),
            started.0.exchange().state() == ExchangeState::Writing,
            started.1@ == Effect::Write(event_stream_line()),
    {
        let request = event_stream_request();
        match Exchange::start(&request) {
            Ok((exchange, command)) => {
                (Subscribing { socket: self, exchange, closing: false }, command)
            },
            Err(_) => vstd::pervasive::unreached(),
        }
    }
}

/// A subscription in flight: the request for events is being exchanged, or
/// the write direction is being closed after it.
pub struct Subscribing<S> {
    socket: Socket<S>,
    exchange: Exchange,
    closing: bool,
}

/// Where a subscription stands after a step.
pub enum Subscription<S> {
    /// The driver is to carry out this command and report back.
    Pending(Subscribing<S>, Command),
    /// The subscription is over: the event stream, or why there is none.
    Ready(Result<EventStream<S>, NiriReplyError>),
}

/// Whether a step's answer is the one that the subscription and the
/// completion call for. While the request is exchanged the steps are those
/// of the exchange, except that a reply with a response leads on to closing
/// the write direction. Once that is done the event stream is handed out.
pub open spec fn subscription_fits<S>(
    before: Subscribing<S>,
    completion: Completion,
    step: Subscription<S>,
) -> bool {
    if before.closing() {
        step matches Subscription::Ready(Ok(events)) && events.fresh_on(before.connection())
    } else {
        match (before.exchange().state(), completion) {
            (ExchangeState::Writing, Completion::Written(Ok(_))) => {
                &&& step matches Subscription::Pending(next, Command::ReadLine(buffer))
                &&& buffer@ == Seq::<char>::empty()
                &&& !next.closing()
                &&& next.exchange().state() == ExchangeState::Reading
                &&& next.connection() == before.connection()
            },
            (ExchangeState::Writing, Completion::Written(Err(cause))) => {
                step matches Subscription::Ready(Err(error)) && error == NiriReplyError::IO(cause)
            },
            (ExchangeState::Reading, Completion::Line(text, status)) => match line_failure(
                text@,
                status,
            ) {
                Some(cause) => {
                    step matches Subscription::Ready(Err(error)) && error == NiriReplyError::IO(
                        cause,
                    )
                },
                None => match reply_shape(text@) {
                    ReplyShape::Payload => {
                        &&& step matches Subscription::Pending(next, Command::ShutdownWrite)
                        &&& next.closing()
                        &&& next.connection() == before.connection()
                    },
                    ReplyShape::Refusal(message) => {
                        &&& step matches Subscription::Ready(Err(NiriReplyError::Niri(said)))
                        &&& said@ == message
                    },
                    ReplyShape::Malformed => step matches Subscription::Ready(
                        Err(NiriReplyError::IO(_)),
                    ),
                },
            },
            _ => false,
        }
    }
}

impl<S> Subscribing<S> {
    /// The connection that is being subscribed.
    pub closed spec fn connection(&self) -> S {
        self.socket.connection()
    }

    /// The exchange of the request for events.
    pub closed spec fn exchange(&self) -> Exchange {
        self.exchange
    }

    /// Whether the request was granted and the write direction is being
    /// closed.
    pub closed spec fn closing(&self) -> bool {
        self.closing
    }

    /// The commands issued so far, oldest first.
    pub open spec fn issued(&self) -> Seq<Effect> {
        if self.closing() {
            self.exchange().issued().push(Effect::ShutdownWrite)
        } else {
            self.exchange().issued()
        }
    }

    /// What holds of every subscription: its exchange is that of the request
    /// for events, and the write direction is closed only after the reply.
    pub open spec fn wf(&self) -> bool {
        &&& self.exchange().wf()
        &&& self.exchange().line() == event_stream_line()
        &&& self.closing() ==> {
            &&& self.exchange().state() == ExchangeState::Done
            &&& self.exchange().issued() == seq![
                Effect::Write(event_stream_line()),
                Effect::ReadLine,
            ]
        }
        &&& !self.closing() ==> self.exchange().state() != ExchangeState::Done
    }

    /// Whether the subscription waits for this completion.
    pub open spec fn expects(&self, completion: Completion) -> bool {
        if self.closing() {
            completion is ShutDown
        } else {
            self.exchange().expects(completion)
        }
    }

    /// The connection, for the driver to write to and read from.
    pub fn stream_mut(&mut self) -> (stream: &mut S)
        ensures
            *stream == old(self).connection(),
            final(self).connection() == *final(stream),
            final(self).exchange() == old(self).exchange(),
            final(self).closing() == old(self).closing(),
    {
        self.socket.stream_mut()
    }

    /// Whether the subscription waits for this completion.
    pub fn accepts(&self, completion: &Completion) -> (accepted: bool)
        ensures
            accepted == self.expects(*completion),
    {
        if self.closing {
            matches!(completion, Completion::ShutDown)
        } else {
            self.exchange.accepts(completion)
        }
    }

    /// Takes the completion of the command last issued and says what comes
    /// next. A granted request is followed by closing the write direction,
    /// and that by the event stream; a failed or refused one ends the
    /// subscription and gives the connection up.
    pub fn advance(self, completion: Completion) -> (step: Subscription<S>)
        requires
            self.wf(),
            self.expects(completion),
        ensures
            subscription_fits(self, completion, step),
            step matches Subscription::Pending(next, command) ==> next.wf() && next.issued()
                == self.issued().push(command@),
    {
        let Subscribing { socket, mut exchange, closing } = self;
        if closing {
            return Subscription::Ready(Ok(EventStream::new(socket.stream)));
        }
        match exchange.advance(completion) {
            Progress::Pending(command) => Subscription::Pending(
                Subscribing { socket, exchange, closing: false },
                command,
            ),
            Progress::Ready(Ok(_)) => Subscription::Pending(
                Subscribing { socket, exchange, closing: true },
                Command::ShutdownWrite,
            ),
            Progress::Ready(Err(error)) => Subscription::Ready(Err(error)),
        }
    }
}

/// A subscription writes once, at its start: no step of it asks for another
/// write.
pub proof fn subscription_writes_only_once<S>(
    before: Subscribing<S>,
    completion: Completion,
    step: Subscription<S>,
)
    requires
        before.wf(),
        before.expects(completion),
        subscription_fits(before, completion, step),
    ensures
        step matches Subscription::Pending(_, command) ==> !(command@ is Write),
{
}

/// A granted subscription has issued one write, of the line that asks for
/// events, then one read, then the closing of the write direction.
pub proof fn subscription_closes_after_reply<S>(subscribing: Subscribing<S>)
    requires
        subscribing.wf(),
        subscribing.closing(),
    ensures
        subscribing.issued() == seq![
            Effect::Write(event_stream_line()),
            Effect::ReadLine,
            Effect::ShutdownWrite,
        ],
{
    assert(subscribing.issued() =~= seq![
        Effect::Write(event_stream_line()),
        Effect::ReadLine,
        Effect::ShutdownWrite,
    ]);
}

/// The event stream comes only out of a subscription that was granted and
/// has closed the write direction, and it has issued nothing yet: from there
/// on the connection sees reads alone.
pub proof fn event_stream_follows_closing<S>(
    before: Subscribing<S>,
    completion: Completion,
    step: Subscription<S>,
)
    requires
        before.wf(),
        before.expects(completion),
        subscription_fits(before, completion, step),
        step matches Subscription::Ready(Ok(_)),
    ensures
        before.closing(),
        completion is ShutDown,
        step matches Subscription::Ready(Ok(events)) && events.fresh_on(before.connection()),
{
}

} // verus!
