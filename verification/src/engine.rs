//! The request/reply engine.
//!
//! The engine owns no transport. It is told what happened on the line and
//! answers with what is to be done next: which bytes to send, when to read
//! a line, and in the end what the call comes to. Whoever holds the
//! transport does the writing and the reading, blocking or not, so every
//! such driver frames and decodes in the same way.

use vstd::prelude::*;
use vstd::string::*;
use vstd::utf8::encode_utf8;
use crate::error::{unexpected_eof, Error};
use crate::operations::Operation;
use crate::text::start_of;

verus! {

/// Carriage return and line feed: the characters that end a line.
pub open spec fn is_terminator(c: char) -> bool {
    c == '\r' || c == '\n'
}

/// The bytes that go out for a command: its text, then carriage return and
/// line feed.
pub open spec fn frame(command: Seq<char>) -> Seq<u8> {
    encode_utf8(command) + seq![13u8, 10u8]
}

/// A line that was read to its end, and not cut short by the end of the
/// stream.
pub open spec fn is_whole_line(raw: Seq<char>) -> bool {
    raw.len() > 0 && raw.last() == '\n'
}

/// `line` without the terminator characters at its end. Blanks stay, at the
/// end as elsewhere.
pub open spec fn trimmed(line: Seq<char>) -> Seq<char>
    decreases line.len(),
{
    if line.len() > 0 && is_terminator(line.last()) {
        trimmed(line.drop_last())
    } else {
        line
    }
}

/// Cutting `line` where its last stretch of terminator characters begins
/// trims it.
pub proof fn lemma_trimmed_is(line: Seq<char>, keep: int)
    requires
        0 <= keep <= line.len(),
        forall|i: int| keep <= i < line.len() ==> is_terminator(#[trigger] line[i]),
        keep > 0 ==> !is_terminator(line[keep - 1]),
    ensures
        trimmed(line) == line.take(keep),
    decreases line.len() - keep,
{
    if keep < line.len() {
        let shorter = line.drop_last();
        lemma_trimmed_is(shorter, keep);
        assert(shorter.take(keep) =~= line.take(keep));
    } else {
        assert(line.take(keep) =~= line);
    }
}

/// Removes the terminator characters at the end of a line.
pub fn trim_line(raw: &str) -> (line: &str)
    ensures
        line@ == trimmed(raw@),
{
    let n: usize = raw.unicode_len();
    let mut keep: usize = n;
    while keep > 0 && is_terminator_char(raw.get_char(keep - 1))
        invariant
            keep <= n,
            n == raw@.len(),
            forall|i: int| keep <= i < n ==> is_terminator(#[trigger] raw@[i]),
        decreases keep,
    {
        keep -= 1;
    }
    proof {
        lemma_trimmed_is(raw@, keep as int);
    }
    start_of(raw, keep)
}

fn is_terminator_char(c: char) -> (result: bool)
    ensures
        result == is_terminator(c),
{
    c == '\r' || c == '\n'
}

/// Whether a line was read to its end.
pub fn ends_line(raw: &str) -> (whole: bool)
    ensures
        whole == is_whole_line(raw@),
{
    let n: usize = raw.unicode_len();
    n > 0 && raw.get_char(n - 1) == '\n'
}

/// The bytes to send for a command.
pub fn frame_command(cmd: &str) -> (bytes: Vec<u8>)
    ensures
        bytes@ == frame(cmd@),
{
    let mut bytes = cmd.as_bytes_vec();
    bytes.push(13u8);
    bytes.push(10u8);
    assert(bytes@ =~= frame(cmd@));
    bytes
}

/// Where a call stands.
#[derive(Debug, Clone, Copy, PartialEq, Eq, Structural)]
pub enum Phase {
    /// No call is under way.
    Idle,
    /// The command was handed out and is being written.
    Sending,
    /// The command went out and the reply line is awaited.
    Receiving,
}

/// What happened on the transport since the engine was last asked.
pub enum Event {
    /// Nothing yet: a call begins.
    Start,
    /// The bytes handed out were written and flushed.
    Sent,
    /// A line was read: all that came, up to and with the first line feed,
    /// or up to the end of the stream.
    Line(String),
    /// Writing, flushing or reading failed.
    Failed(std::io::Error),
}

/// What is to be done next.
pub enum Action<T> {
    /// Write these bytes, flush, and report `Sent`.
    Send(Vec<u8>),
    /// Read one line and report it.
    Receive,
    /// The call is over, with this outcome.
    Finish(Result<T, Error>),
}

/// Whether `event` is one that can come in `phase`.
pub open spec fn accepts(phase: Phase, event: Event) -> bool {
    match phase {
        Phase::Idle => event is Start,
        Phase::Sending => event is Sent || event is Failed,
        Phase::Receiving => event is Line || event is Failed,
    }
}

/// Whether `result` is what decoding `line` under `op` comes to.
pub open spec fn decodes_to<O: Operation>(op: O, line: Seq<char>, result: Result<O::Out, Error>) -> bool {
    match op.decoded(line) {
        Some(out) => result is Ok && result->Ok_0@ == out,
        None => result is Err && result->Err_0 is UnexpectedData,
    }
}

/// Whether `result` is what a reply read as `raw` comes to: a transport
/// failure where the stream ended before the line did, and else what the
/// trimmed line decodes to.
pub open spec fn reply_comes_to<O: Operation>(op: O, raw: Seq<char>, result: Result<O::Out, Error>) -> bool {
    if is_whole_line(raw) {
        decodes_to(op, trimmed(raw), result)
    } else {
        result is Err && result->Err_0 is IOError
    }
}

/// One step of sending a command text on its own.
pub open spec fn send_step(cmd: Seq<char>, event: Event, after: Phase, action: Action<()>) -> bool {
    match event {
        Event::Start => after == Phase::Sending && action is Send && action->Send_0@ == frame(cmd),
        Event::Sent => after == Phase::Idle && action == Action::<()>::Finish(Ok(())),
        Event::Failed(error) => after == Phase::Idle && action == Action::<()>::Finish(
            Err(Error::IOError(error)),
        ),
        Event::Line(_) => false,
    }
}

/// One step of a call of `op`.
pub open spec fn operation_step<O: Operation>(
    op: O,
    event: Event,
    after: Phase,
    action: Action<O::Out>,
) -> bool {
    match event {
        Event::Start => after == Phase::Sending && action is Send && action->Send_0@ == frame(
            op.command_text(),
        ),
        Event::Sent => if op.expects_reply() {
            after == Phase::Receiving && action is Receive
        } else {
            after == Phase::Idle && action is Finish && decodes_to(
                op,
                Seq::<char>::empty(),
                action->Finish_0,
            )
        },
        Event::Line(raw) => after == Phase::Idle && action is Finish && reply_comes_to(
            op,
            raw@,
            action->Finish_0,
        ),
        Event::Failed(error) => after == Phase::Idle && action == Action::<O::Out>::Finish(
            Err(Error::IOError(error)),
        ),
    }
}

/// The engine for one instrument. It takes one call at a time, from its
/// start to its finish.
#[derive(Debug)]
pub struct SPE {
    phase: Phase,
}

impl View for SPE {
    type V = Phase;

    closed spec fn view(&self) -> Phase {
        self.phase
    }
}

impl SPE {
    /// An engine with no call under way.
    pub fn new() -> (engine: SPE)
        ensures
            engine@ == Phase::Idle,
    {
        SPE { phase: Phase::Idle }
    }

    /// Where the call under way stands.
    pub fn phase(&self) -> (phase: Phase)
        ensures
            phase == self@,
    {
        self.phase
    }

    /// Whether `event` can be handed to the engine as it stands.
    pub fn accepts(&self, event: &Event) -> (result: bool)
        ensures
            result == accepts(self@, *event),
    {
        match self.phase {
            Phase::Idle => matches!(event, Event::Start),
            Phase::Sending => matches!(event, Event::Sent | Event::Failed(_)),
            Phase::Receiving => matches!(event, Event::Line(_) | Event::Failed(_)),
        }
    }

    /// Sends a command text on its own, without waiting for a reply: the
    /// text goes out with its terminator, and the call is over once it was
    /// written, or once writing failed.
    pub fn write_command(&mut self, cmd: &str, event: Event) -> (action: Action<()>)
        requires
            accepts(old(self)@, event),
            !(event is Line),
        ensures
            send_step(cmd@, event, final(self)@, action),
    {
        match event {
            Event::Start => {
                self.phase = Phase::Sending;
                Action::Send(frame_command(cmd))
            },
            Event::Sent => {
                self.phase = Phase::Idle;
                Action::Finish(Ok(()))
            },
            Event::Failed(error) => {
                self.phase = Phase::Idle;
                Action::Finish(Err(Error::IOError(error)))
            },
            Event::Line(_) => unreached(),
        }
    }

    /// Takes a call of `operation` one step further: sends its command,
    /// then, where it has a reply, asks for the line and decodes it.
    pub fn run_operation<Op: Operation>(&mut self, operation: &Op, event: Event) -> (action: Action<
        Op::Out,
    >)
        requires
            accepts(old(self)@, event),
        ensures
            operation_step(*operation, event, final(self)@, action),
    {
        match event {
            Event::Line(raw) => {
                self.phase = Phase::Idle;
                if ends_line(raw.as_str()) {
                    let line = trim_line(raw.as_str());
                    Action::Finish(operation.parse_line(line))
                } else {
                    Action::Finish(Err(Error::IOError(unexpected_eof())))
                }
            },
            event => {
                let command = operation.command();
                match self.write_command(command.as_str(), event) {
                    Action::Send(bytes) => Action::Send(bytes),
                    Action::Receive => Action::Receive,
                    Action::Finish(Err(error)) => Action::Finish(Err(error)),
                    Action::Finish(Ok(())) => {
                        if operation.has_output() {
                            self.phase = Phase::Receiving;
                            Action::Receive
                        } else {
                            let nothing = String::new();
                            Action::Finish(operation.parse_line(nothing.as_str()))
                        }
                    },
                }
            },
        }
    }
}

} // verus!
