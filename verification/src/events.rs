//! The event feed of a subscribed connection: an unbounded sequence of
//! decoded events, pulled one line at a time, that ends with its first
//! failure.

use crate::protocol::{Command, Completion, Effect};
use crate::wire::{check_line, decoded_event, event_outcome_of, line_failure, read_event};
use vstd::prelude::*;

verus! {

/// `String::clear` leaves the string empty.
pub assume_specification[ String::clear ](text: &mut String)
    ensures
        final(text)@ == Seq::<char>::empty(),
;

/// The element that a pull yields for the completion of its read: the event
/// that the line decodes to, or the failure of the read or of the decoding.
pub open spec fn pulled(completion: Completion) -> Result<niri_ipc::Event, std::io::Error> {
    match completion {
        Completion::Line(text, status) => match line_failure(text@, status) {
            Some(cause) => Err(cause),
            None => event_outcome_of(decoded_event(text@)),
        },
        _ => arbitrary(),
    }
}

/// The read side of a connection that niri sends events on.
pub struct EventStream<S> {
    stream: S,
    buffer: String,
    ended: bool,
    issued: Ghost<Seq<Effect>>,
}

impl<S> EventStream<S> {
    /// The connection that the events come over.
    pub closed spec fn connection(&self) -> S {
        self.stream
    }

    /// What the line buffer holds between pulls.
    pub closed spec fn residue(&self) -> Seq<char> {
        self.buffer@
    }

    /// Whether the sequence is over.
    pub closed spec fn ended(&self) -> bool {
        self.ended
    }

    /// The commands issued so far, oldest first.
    pub closed spec fn issued(&self) -> Seq<Effect> {
        self.issued@
    }

    /// What holds of every event stream: it has asked for nothing but reads.
    pub open spec fn wf(&self) -> bool {
        forall|i: int| 0 <= i < self.issued().len() ==> self.issued()[i] == Effect::ReadLine
    }

    /// Whether this is the stream as it is first made on a connection.
    pub open spec fn fresh_on(&self, stream: S) -> bool {
        &&& self.connection() == stream
        &&& !self.ended()
        &&& self.issued() == Seq::<Effect>::empty()
        &&& self.wf()
    }

    /// Makes the event stream of a connection that has been subscribed.
    pub(crate) fn new(stream: S) -> (events: Self)
        ensures
            events.fresh_on(stream),
    {
        EventStream { stream, buffer: String::new(), ended: false, issued: Ghost(Seq::empty()) }
    }

    /// The connection, for the driver to read from.
    pub fn stream_mut(&mut self) -> (stream: &mut S)
        ensures
            *stream == old(self).connection(),
            final(self).connection() == *final(stream),
            final(self).residue() == old(self).residue(),
            final(self).ended() == old(self).ended(),
            final(self).issued() == old(self).issued(),
    {
        &mut self.stream
    }

    /// Whether the sequence is over: a pull has failed.
    pub fn is_ended(&self) -> (ended: bool)
        ensures
            ended == self.ended(),
    {
        self.ended
    }

    /// Whether beginning a pull led from `before` to `self` with this
    /// command: while the sequence lasts, one read into an empty buffer;
    /// once it is over, nothing.
    pub open spec fn began(&self, before: Self, command: Option<Command>) -> bool {
        &&& self.connection() == before.connection()
        &&& self.ended() == before.ended()
        &&& before.ended() ==> {
            &&& command is None
            &&& self.issued() == before.issued()
            &&& self.residue() == before.residue()
        }
        &&& !before.ended() ==> {
            &&& command matches Some(Command::ReadLine(buffer))
            &&& buffer@ == Seq::<char>::empty()
            &&& self.issued() == before.issued().push(Effect::ReadLine)
            &&& self.residue() == Seq::<char>::empty()
        }
    }

    /// Whether ending a pull led from `before` to `self` with this element:
    /// the element is what the completion holds, the buffer is kept for the
    /// next pull, and a failure ends the sequence.
    pub open spec fn finished(
        &self,
        before: Self,
        completion: Completion,
        element: Result<niri_ipc::Event, std::io::Error>,
    ) -> bool {
        &&& element == pulled(completion)
        &&& completion matches Completion::Line(text, _) ==> self.residue() == text@
        &&& self.ended() == (before.ended() || element is Err)
        &&& self.connection() == before.connection()
        &&& self.issued() == before.issued()
    }

    /// Begins a pull. While the sequence lasts this asks for one line, to be
    /// read into a buffer that is empty whatever an earlier pull left in it.
    /// Once the sequence is over there is nothing to do.
    pub fn begin_pull(&mut self) -> (command: Option<Command>)
        requires
            old(self).wf(),
        ensures
            final(self).wf(),
            final(self).began(*old(self), command),
    {
        if self.ended {
            return None;
        }
        let mut buffer = String::new();
        std::mem::swap(&mut self.buffer, &mut buffer);
        buffer.clear();
        proof {
            self.issued@ = self.issued@.push(Effect::ReadLine);
        }
        Some(Command::ReadLine(buffer))
    }

    /// Ends a pull with the completion of its read, and yields the element.
    /// The element depends on that completion alone. A failure is the last
    /// element: it ends the sequence.
    pub fn finish_pull(&mut self, completion: Completion) -> (element: Result<
        niri_ipc::Event,
        std::io::Error,
    >)
        requires
            old(self).wf(),
            completion is Line,
        ensures
            final(self).wf(),
            final(self).finished(*old(self), completion, element),
    {
        match completion {
            Completion::Line(text, status) => {
                let element = match check_line(text.as_str(), status) {
                    Ok(_) => read_event(text.as_str()),
                    Err(cause) => Err(cause),
                };
                self.buffer = text;
                if element.is_err() {
                    self.ended = true;
                }
                element
            },
            _ => vstd::pervasive::unreached(),
        }
    }
}

/// An event stream never asks for a write: every command that it has issued
/// is a read.
pub proof fn event_stream_only_reads<S>(events: EventStream<S>, i: int)
    requires
        events.wf(),
        0 <= i < events.issued().len(),
    ensures
        events.issued()[i] == Effect::ReadLine,
        !(events.issued()[i] is Write),
{
}

/// A pull starts from an empty buffer, whatever the pull before it left
/// behind.
pub proof fn pull_starts_clean<S>(
    before: EventStream<S>,
    after: EventStream<S>,
    command: Option<Command>,
)
    requires
        after.began(before, command),
        !before.ended(),
    ensures
        command matches Some(Command::ReadLine(buffer)) && buffer@.len() == 0,
{
}

/// The element of a pull depends on what was read during that pull alone:
/// two streams in any two states yield the same element for the same
/// completion.
pub proof fn pull_depends_on_its_line_alone<S>(
    first_before: EventStream<S>,
    first_after: EventStream<S>,
    first_element: Result<niri_ipc::Event, std::io::Error>,
    second_before: EventStream<S>,
    second_after: EventStream<S>,
    second_element: Result<niri_ipc::Event, std::io::Error>,
    completion: Completion,
)
    requires
        first_after.finished(first_before, completion, first_element),
        second_after.finished(second_before, completion, second_element),
    ensures
        first_element == second_element,
{
}

/// A failed pull is the last: the stream has ended, and stays so, and a pull
/// begun after it asks for nothing.
pub proof fn failure_ends_the_stream<S>(
    before: EventStream<S>,
    failed: EventStream<S>,
    completion: Completion,
    element: Result<niri_ipc::Event, std::io::Error>,
    after: EventStream<S>,
    command: Option<Command>,
)
    requires
        failed.finished(before, completion, element),
        element is Err,
        after.began(failed, command),
    ensures
        failed.ended(),
        after.ended(),
        command is None,
        after.issued() == before.issued(),
{
}

/// A pull that yields an event leaves a stream that has not ended open for
/// the next pull.
pub proof fn event_keeps_the_stream_open<S>(
    before: EventStream<S>,
    after: EventStream<S>,
    completion: Completion,
    element: Result<niri_ipc::Event, std::io::Error>,
)
    requires
        after.finished(before, completion, element),
        element is Ok,
        !before.ended(),
    ensures
        !after.ended(),
{
}

} // verus!
