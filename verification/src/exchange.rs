//! One request and its reply: write the request's line, read one line,
//! decode it.

use crate::error::NiriReplyError;
use crate::protocol::{Command, Completion, Effect, Progress};
use crate::wire::{
    check_line, line_failure, outcome_fits, read_reply, reply_shape, request_line, request_line_of,
};
use vstd::prelude::*;

verus! {

/// How far an exchange has come.
#[derive(Clone, Copy, PartialEq, Eq, Structural, Debug)]
pub enum ExchangeState {
    /// The request's line is being written.
    Writing,
    /// The request is out and the reply's line is being read.
    Reading,
    /// The exchange is over.
    Done,
}

/// An exchange in flight.
pub struct Exchange {
    state: ExchangeState,
    line: Ghost<Seq<char>>,
    issued: Ghost<Seq<Effect>>,
}

/// The completion that an exchange in this state waits for.
pub open spec fn state_expects(state: ExchangeState, completion: Completion) -> bool {
    match state {
        ExchangeState::Writing => completion is Written,
        ExchangeState::Reading => completion is Line,
        ExchangeState::Done => false,
    }
}

/// The state that a completion leads to.
pub open spec fn state_after(state: ExchangeState, completion: Completion) -> ExchangeState {
    match (state, completion) {
        (ExchangeState::Writing, Completion::Written(Ok(_))) => ExchangeState::Reading,
        _ => ExchangeState::Done,
    }
}

/// Whether a step's answer is the one that the state and the completion call
/// for: after a write that went through, one read into an empty buffer; after
/// a failed write, or a read that gave no message, that failure; after a
/// line, what the line holds.
pub open spec fn answer_fits(
    state: ExchangeState,
    completion: Completion,
    progress: Progress<Result<niri_ipc::Response, NiriReplyError>>,
) -> bool {
    match (state, completion) {
        (ExchangeState::Writing, Completion::Written(Ok(_))) => progress matches Progress::Pending(
            Command::ReadLine(buffer),
        ) && buffer@ == Seq::<char>::empty(),
        (ExchangeState::Writing, Completion::Written(Err(cause))) => progress == Progress::<
            Result<niri_ipc::Response, NiriReplyError>,
        >::Ready(Err(NiriReplyError::IO(cause))),
        (ExchangeState::Reading, Completion::Line(text, status)) => match line_failure(
            text@,
            status,
        ) {
            Some(cause) => progress == Progress::<
                Result<niri_ipc::Response, NiriReplyError>,
            >::Ready(Err(NiriReplyError::IO(cause))),
            None => progress matches Progress::Ready(outcome) && outcome_fits(
                outcome,
                reply_shape(text@),
            ),
        },
        _ => false,
    }
}

/// The commands issued so far, after a step that gave this answer.
pub open spec fn issued_after(
    issued: Seq<Effect>,
    progress: Progress<Result<niri_ipc::Response, NiriReplyError>>,
) -> Seq<Effect> {
    match progress {
        Progress::Pending(command) => issued.push(command@),
        Progress::Ready(_) => issued,
    }
}

impl Exchange {
    /// How far the exchange has come.
    pub closed spec fn state(&self) -> ExchangeState {
        self.state
    }

    /// The line that carries the request.
    pub closed spec fn line(&self) -> Seq<char> {
        self.line@
    }

    /// The commands issued so far, oldest first.
    pub closed spec fn issued(&self) -> Seq<Effect> {
        self.issued@
    }

    /// What holds of every exchange: it has asked for one write of the
    /// request's line and, once that went through, for one read.
    pub open spec fn wf(&self) -> bool {
        match self.state() {
            ExchangeState::Writing => self.issued() == seq![Effect::Write(self.line())],
            ExchangeState::Reading => self.issued() == seq![
                Effect::Write(self.line()),
                Effect::ReadLine,
            ],
            ExchangeState::Done => self.issued() == seq![Effect::Write(self.line())]
                || self.issued() == seq![Effect::Write(self.line()), Effect::ReadLine],
        }
    }

    /// Whether the exchange waits for this completion.
    pub open spec fn expects(&self, completion: Completion) -> bool {
        state_expects(self.state(), completion)
    }

    /// Whether one step led from `before` to `self` with this answer.
    pub open spec fn follows(
        &self,
        before: Exchange,
        completion: Completion,
        progress: Progress<Result<niri_ipc::Response, NiriReplyError>>,
    ) -> bool {
        &&& self.line() == before.line()
        &&& self.state() == state_after(before.state(), completion)
        &&& self.issued() == issued_after(before.issued(), progress)
        &&& answer_fits(before.state(), completion, progress)
    }

    /// Starts an exchange: frames the request and asks for its line to be
    /// written. Fails, without a command, exactly where the request has no
    /// JSON text.
    pub fn start(request: &niri_ipc::Request) -> (started: Result<
        (Exchange, Command),
        NiriReplyError,
    >)
        ensures
            match started {
                Ok((exchange, command)) => {
                    &&& request_line_of(*request) == Some(exchange.line())
                    &&& exchange.state() == ExchangeState::Writing
                    &&& exchange.wf()
                    &&& command@ == Effect::Write(exchange.line())
                },
                Err(error) => request_line_of(*request) is None && error is IO,
            },
    {
        match request_line(request) {
            Ok(text) => {
                let ghost line = text@;
                let ghost issued = seq![Effect::Write(line)];
                let exchange = Exchange {
                    state: ExchangeState::Writing,
                    line: Ghost(line),
                    issued: Ghost(issued),
                };
                Ok((exchange, Command::Write(text)))
            },
            Err(error) => Err(error),
        }
    }

    /// Whether the exchange is over.
    pub fn is_done(&self) -> (done: bool)
        ensures
            done == (self.state() == ExchangeState::Done),
    {
        self.state == ExchangeState::Done
    }

    /// Whether the exchange waits for this completion.
    pub fn accepts(&self, completion: &Completion) -> (accepted: bool)
        ensures
            accepted == self.expects(*completion),
    {
        match self.state {
            ExchangeState::Writing => matches!(completion, Completion::Written(_)),
            ExchangeState::Reading => matches!(completion, Completion::Line(_, _)),
            ExchangeState::Done => false,
        }
    }

    /// Takes the completion of the command last issued and says what comes
    /// next: the read that follows the write, or the result.
    pub fn advance(&mut self, completion: Completion) -> (progress: Progress<
        Result<niri_ipc::Response, NiriReplyError>,
    >)
        requires
            old(self).wf(),
            old(self).expects(completion),
        ensures
            final(self).wf(),
            final(self).follows(*old(self), completion, progress),
    {
        match completion {
            Completion::Written(Ok(_)) => {
                self.state = ExchangeState::Reading;
                proof {
                    self.issued@ = self.issued@.push(Effect::ReadLine);
                    assert(self.issued@ =~= seq![Effect::Write(self.line@), Effect::ReadLine]);
                }
                Progress::Pending(Command::ReadLine(String::new()))
            },
            Completion::Written(Err(cause)) => {
                self.state = ExchangeState::Done;
                Progress::Ready(Err(NiriReplyError::IO(cause)))
            },
            Completion::Line(text, status) => {
                self.state = ExchangeState::Done;
                match check_line(text.as_str(), status) {
                    Ok(_) => Progress::Ready(read_reply(text.as_str())),
                    Err(cause) => Progress::Ready(Err(NiriReplyError::IO(cause))),
                }
            },
            Completion::ShutDown => vstd::pervasive::unreached(),
        }
    }
}

/// An exchange that runs to its reply issues exactly one write, of the
/// request's line, and then exactly one read, in that order; after the read
/// it is over, with a result, and takes no further completion.
pub proof fn exchange_writes_once_then_reads_once(
    request: niri_ipc::Request,
    started: Exchange,
    written: Completion,
    first: Progress<Result<niri_ipc::Response, NiriReplyError>>,
    reading: Exchange,
    read: Completion,
    last: Progress<Result<niri_ipc::Response, NiriReplyError>>,
    done: Exchange,
)
    requires
        started.wf(),
        started.state() == ExchangeState::Writing,
        request_line_of(request) == Some(started.line()),
        written matches Completion::Written(Ok(_)),
        reading.follows(started, written, first),
        read is Line,
        done.follows(reading, read, last),
    ensures
        started.issued() == seq![Effect::Write(request_line_of(request).unwrap())],
        first matches Progress::Pending(Command::ReadLine(_)),
        last is Ready,
        done.state() == ExchangeState::Done,
        done.issued() == seq![
            Effect::Write(request_line_of(request).unwrap()),
            Effect::ReadLine,
        ],
        forall|completion: Completion| !done.expects(completion),
{
    assert(reading.issued() =~= seq![Effect::Write(started.line()), Effect::ReadLine]);
}

/// An exchange whose write fails is over at once: it has issued that one
/// write and no read, and its result is the failure of the write.
pub proof fn exchange_stops_at_failed_write(
    started: Exchange,
    cause: std::io::Error,
    last: Progress<Result<niri_ipc::Response, NiriReplyError>>,
    done: Exchange,
)
    requires
        started.wf(),
        started.state() == ExchangeState::Writing,
        done.follows(started, Completion::Written(Err(cause)), last),
    ensures
        last == Progress::<Result<niri_ipc::Response, NiriReplyError>>::Ready(
            Err(NiriReplyError::IO(cause)),
        ),
        done.state() == ExchangeState::Done,
        done.issued() == seq![Effect::Write(started.line())],
{
}

/// Once the request is written, an exchange gives no result before the
/// driver reports a line: it has asked for a read, it is not over, and the
/// completion of a read is the only one that it takes.
pub proof fn exchange_waits_for_line(
    started: Exchange,
    written: Completion,
    first: Progress<Result<niri_ipc::Response, NiriReplyError>>,
    reading: Exchange,
)
    requires
        started.wf(),
        started.state() == ExchangeState::Writing,
        written matches Completion::Written(Ok(_)),
        reading.follows(started, written, first),
    ensures
        first is Pending,
        reading.state() == ExchangeState::Reading,
        forall|completion: Completion| reading.expects(completion) <==> completion is Line,
{
}

} // verus!
