//! Draining the two output streams of a running process line by line.
//!
//! The process and its pipes are the caller's. The caller asks them what
//! [`Drain`] requests, reports what came back, and does as it is told next;
//! which line goes first, when to stop and what to report is decided here.

use crate::exe::{Command, CommandError, CommandErrorWrapper, ExitStatus, Failure};
use vstd::prelude::*;
use vstd::string::StringExecFns;

verus! {

/// A line of either stdout or stderr from a subprocess.
#[derive(Debug)]
pub enum StdioLine {
    /// A line of the standard output.
    Out(String),
    /// A line of the standard error.
    Stderr(String),
}

/// What a stream gave when it was asked for its next line.
#[derive(Debug)]
pub enum Polled {
    /// Nothing yet.
    Pending,
    /// Its next line.
    Line(String),
    /// Reading it failed.
    Failed(std::io::Error),
    /// It has ended.
    End,
}

impl Polled {
    /// A line or a failure is at hand.
    pub open spec fn is_ready(self) -> bool {
        self is Line || self is Failed
    }

    /// What is known of a stream of which `self` was known before it gave
    /// `fresh`: a stream that had given nothing is as `fresh` says, and any
    /// other has not been asked again.
    pub open spec fn absorb(self, fresh: Polled) -> Polled {
        if self is Pending {
            fresh
        } else {
            self
        }
    }
}

/// The result of choosing between the two streams.
#[derive(Debug)]
pub enum Merged {
    /// The line to deliver next.
    Line(StdioLine),
    /// The failure to stop with.
    Failed(std::io::Error),
    /// Both streams have ended.
    Exhausted,
    /// Neither stream has anything at hand, and not both have ended.
    Unready,
}

impl Polled {
    /// What is chosen when this is taken from its stream, which is stderr
    /// where `of_stderr` and stdout where not: its line, or its failure.
    pub open spec fn taken(self, of_stderr: bool) -> Merged {
        match self {
            Polled::Line(line) => Merged::Line(
                if of_stderr {
                    StdioLine::Stderr(line)
                } else {
                    StdioLine::Out(line)
                },
            ),
            Polled::Failed(error) => Merged::Failed(error),
            _ => Merged::Unready,
        }
    }
}

impl StdioLine {
    /// The choice between what stdout and stderr have at hand, then what is
    /// left of stdout and of stderr. What stderr has at hand goes first;
    /// else what stdout has at hand goes; what goes is taken from its
    /// stream, which is left with nothing at hand. Where neither has
    /// anything at hand, both are left as they are, and they are exhausted
    /// if both have ended.
    pub open spec fn spec_merge_streams(out: Polled, err: Polled) -> (Merged, Polled, Polled) {
        if err.is_ready() {
            (err.taken(true), out, Polled::Pending)
        } else if out.is_ready() {
            (out.taken(false), Polled::Pending, err)
        } else if out is End && err is End {
            (Merged::Exhausted, out, err)
        } else {
            (Merged::Unready, out, err)
        }
    }

    /// Chooses between what stdout and stderr have at hand, with preference
    /// given to stderr if both are ready. Returns the choice, then what is
    /// left of stdout and of stderr.
    pub fn merge_streams(out: Polled, err: Polled) -> (merged: (Merged, Polled, Polled))
        ensures
            merged == Self::spec_merge_streams(out, err),
    {
        match err {
            Polled::Line(line) => (Merged::Line(StdioLine::Stderr(line)), out, Polled::Pending),
            Polled::Failed(error) => (Merged::Failed(error), out, Polled::Pending),
            err => match out {
                Polled::Line(line) => (Merged::Line(StdioLine::Out(line)), Polled::Pending, err),
                Polled::Failed(error) => (Merged::Failed(error), Polled::Pending, err),
                Polled::End => match err {
                    Polled::End => (Merged::Exhausted, Polled::End, Polled::End),
                    err => (Merged::Unready, Polled::End, err),
                },
                Polled::Pending => (Merged::Unready, Polled::Pending, err),
            },
        }
    }
}

/// What starting a streaming invocation of `command` returns, given how
/// spawning the process went: the command, kept for the drain, or the
/// failure to spawn together with the command.
pub fn spawned(command: Command, started: Result<(), std::io::Error>) -> (kept: Result<
    Command,
    CommandErrorWrapper,
>)
    ensures
        started is Ok ==> kept == Ok::<Command, CommandErrorWrapper>(command),
        started matches Err(error) ==> (kept matches Err(failure) && failure.reports(
            command,
            CommandError::Io(error),
            "spawning async process"@,
        )),
{
    match started {
        Ok(()) => Ok(command),
        Err(error) => Err(
            CommandError::Io(error).command_with_context(
                command,
                String::from_str("spawning async process"),
            ),
        ),
    }
}

impl Polled {
    /// Whether the stream has given nothing and has not ended.
    fn is_pending(&self) -> (pending: bool)
        ensures
            pending == (*self is Pending),
    {
        match self {
            Polled::Pending => true,
            _ => false,
        }
    }

    /// Whether a line or a failure is at hand.
    fn has_something(&self) -> (ready: bool)
        ensures
            ready == self.is_ready(),
    {
        match self {
            Polled::Line(_) => true,
            Polled::Failed(_) => true,
            _ => false,
        }
    }

    /// Takes in what the stream gave, if it was asked.
    fn absorbing(self, fresh: Polled) -> (known: Polled)
        ensures
            known == self.absorb(fresh),
    {
        match self {
            Polled::Pending => fresh,
            known => known,
        }
    }
}

/// What a [`Drain`] is waiting to be told.
#[derive(Debug, Clone, Copy)]
pub enum Awaiting {
    /// What the streams gave.
    Lines,
    /// That a line has been dealt with.
    Delivery,
    /// How the process ended.
    Exit,
}

/// What the caller tells a [`Drain`].
#[derive(Debug)]
pub enum Event {
    /// What the streams gave when they were asked as requested. A stream
    /// that was not asked counts as having given nothing.
    Polled { out: Polled, err: Polled },
    /// What became of the line that was to be delivered.
    Delivered(Result<(), CommandError>),
    /// How the process ended, or why that could not be learned.
    Exited(Result<ExitStatus, std::io::Error>),
}

/// What a [`Drain`] asks the caller to do next.
#[derive(Debug)]
pub enum Request {
    /// Ask each stream named for its next line, once, and report what they
    /// gave. With `wait`, first suspend until one of them has something to
    /// give.
    Poll { out: bool, err: bool, wait: bool },
    /// Hand the line to whoever consumes the lines, and report how that went.
    Deliver(StdioLine),
    /// Wait for the process to end, and report how it ended.
    AwaitExit,
}

/// The state of draining the output of a running process: the command it
/// was started from, what each stream has at hand, and what the drain
/// expects to be told next.
#[derive(Debug)]
pub struct Drain {
    pub command: Command,
    pub out: Polled,
    pub err: Polled,
    pub awaiting: Awaiting,
}

/// One step of a [`Drain`]: either it goes on, with a request to the caller,
/// or it is over, with the result of the whole invocation.
#[derive(Debug)]
pub enum Step {
    Continue(Drain, Request),
    Return(Result<(), CommandErrorWrapper>),
}

/// A [`Step`] with the stage of its failure as plain text.
pub ghost enum StepView {
    Continue(Drain, Request),
    Return(Result<(), Failure>),
}

impl View for Step {
    type V = StepView;

    open spec fn view(&self) -> StepView {
        match *self {
            Step::Continue(drain, request) => StepView::Continue(drain, request),
            Step::Return(Ok(())) => StepView::Return(Ok(())),
            Step::Return(Err(failure)) => StepView::Return(Err(failure@)),
        }
    }
}

impl Drain {
    /// The event answers what the drain asked for, and an exit status in it
    /// has an exit code or a signal.
    pub open spec fn accepts(self, event: Event) -> bool {
        match event {
            Event::Polled { .. } => self.awaiting is Lines,
            Event::Delivered(_) => self.awaiting is Delivery,
            Event::Exited(ended) => self.awaiting is Exit && (ended matches Ok(status)
                ==> status.is_classifiable()),
        }
    }

    /// Whether `event` is what the drain waits for; [`Drain::step`] takes no
    /// other.
    pub fn expects(&self, event: &Event) -> (expected: bool)
        ensures
            expected == self.accepts(*event),
    {
        match event {
            Event::Polled { .. } => match self.awaiting {
                Awaiting::Lines => true,
                _ => false,
            },
            Event::Delivered(_) => match self.awaiting {
                Awaiting::Delivery => true,
                _ => false,
            },
            Event::Exited(ended) => match self.awaiting {
                Awaiting::Exit => match ended {
                    Ok(status) => status.is_classifiable(),
                    Err(_) => true,
                },
                _ => false,
            },
        }
    }

    /// The request to ask the streams again: each stream that has nothing
    /// at hand and has not ended is asked, and the caller waits for them
    /// only where the other one has nothing at hand either.
    pub open spec fn poll_request(out: Polled, err: Polled) -> Request {
        Request::Poll {
            out: out is Pending,
            err: err is Pending,
            wait: !out.is_ready() && !err.is_ready(),
        }
    }

    /// The end of the drain with `error` at the stage `context`.
    pub open spec fn fails(self, error: CommandError, context: Seq<char>) -> StepView {
        StepView::Return(Err(Failure { command: self.command, error, context }))
    }

    /// What the drain does when it is told `event`.
    ///
    /// Told what the streams gave, it chooses as
    /// [`StdioLine::spec_merge_streams`] does: a line is to be delivered, a
    /// failure ends the drain, two ended streams make it wait for the
    /// process, and otherwise the streams are asked again. Told that a line
    /// was delivered, it asks the streams again; told that the delivery
    /// failed, it ends. Told how the process ended, it ends with the
    /// classification of that.
    pub open spec fn spec_step(self, event: Event) -> StepView {
        match event {
            Event::Polled { out, err } => {
                let merged = StdioLine::spec_merge_streams(
                    self.out.absorb(out),
                    self.err.absorb(err),
                );
                let rest = Drain { out: merged.1, err: merged.2, ..self };
                match merged.0 {
                    Merged::Line(line) => StepView::Continue(
                        Drain { awaiting: Awaiting::Delivery, ..rest },
                        Request::Deliver(line),
                    ),
                    Merged::Failed(error) => self.fails(
                        CommandError::Io(error),
                        "merging async streams"@,
                    ),
                    Merged::Exhausted => StepView::Continue(
                        Drain { awaiting: Awaiting::Exit, ..rest },
                        Request::AwaitExit,
                    ),
                    Merged::Unready => StepView::Continue(
                        rest,
                        Self::poll_request(rest.out, rest.err),
                    ),
                }
            },
            Event::Delivered(delivered) => match delivered {
                Ok(()) => StepView::Continue(
                    Drain { awaiting: Awaiting::Lines, ..self },
                    Self::poll_request(self.out, self.err),
                ),
                Err(error) => self.fails(error, "merging async streams"@),
            },
            Event::Exited(ended) => match ended {
                Ok(status) => match status.outcome() {
                    Ok(()) => StepView::Return(Ok(())),
                    Err(error) => self.fails(error, "checking async exit status"@),
                },
                Err(error) => self.fails(CommandError::Io(error), "merging async streams"@),
            },
        }
    }

    /// Starts to drain the output of the process that was started from
    /// `command`: neither stream has given anything yet, and both are to be
    /// asked.
    pub fn new(command: Command) -> (started: (Drain, Request))
        ensures
            started.0 == (Drain {
                command,
                out: Polled::Pending,
                err: Polled::Pending,
                awaiting: Awaiting::Lines,
            }),
            started.1 == Self::poll_request(Polled::Pending, Polled::Pending),
    {
        (
            Drain { command, out: Polled::Pending, err: Polled::Pending, awaiting: Awaiting::Lines },
            Request::Poll { out: true, err: true, wait: true },
        )
    }

    /// Goes on by asking the streams again.
    fn ask_again(self) -> (stepped: Step)
        ensures
            stepped@ == StepView::Continue(self, Self::poll_request(self.out, self.err)),
    {
        let request = Request::Poll {
            out: self.out.is_pending(),
            err: self.err.is_pending(),
            wait: !self.out.has_something() && !self.err.has_something(),
        };
        Step::Continue(self, request)
    }

    /// Ends the drain with `error` at the stage `context`.
    fn fail(self, error: CommandError, context: &str) -> (stepped: Step)
        ensures
            stepped@ == self.fails(error, context@),
    {
        Step::Return(Err(error.command_with_context(self.command, String::from_str(context))))
    }

    /// Takes the drain one step further: tells it `event` and learns what
    /// to do next, or how the invocation ended.
    pub fn step(self, event: Event) -> (stepped: Step)
        requires
            self.accepts(event),
        ensures
            stepped@ == self.spec_step(event),
    {
        let Drain { command, out, err, awaiting } = self;
        match event {
            Event::Polled { out: fresh_out, err: fresh_err } => {
                let (merged, out, err) = StdioLine::merge_streams(
                    out.absorbing(fresh_out),
                    err.absorbing(fresh_err),
                );
                match merged {
                    Merged::Line(line) => Step::Continue(
                        Drain { command, out, err, awaiting: Awaiting::Delivery },
                        Request::Deliver(line),
                    ),
                    Merged::Failed(error) => Drain { command, out, err, awaiting }.fail(
                        CommandError::Io(error),
                        "merging async streams",
                    ),
                    Merged::Exhausted => Step::Continue(
                        Drain { command, out, err, awaiting: Awaiting::Exit },
                        Request::AwaitExit,
                    ),
                    Merged::Unready => Drain { command, out, err, awaiting }.ask_again(),
                }
            },
            Event::Delivered(delivered) => match delivered {
                Ok(()) => Drain { command, out, err, awaiting: Awaiting::Lines }.ask_again(),
                Err(error) => Drain { command, out, err, awaiting }.fail(
                    error,
                    "merging async streams",
                ),
            },
            Event::Exited(ended) => match ended {
                Ok(status) => match CommandError::analyze_exit_status(status) {
                    Ok(()) => Step::Return(Ok(())),
                    Err(error) => Drain { command, out, err, awaiting }.fail(
                        error,
                        "checking async exit status",
                    ),
                },
                Err(error) => Drain { command, out, err, awaiting }.fail(
                    CommandError::Io(error),
                    "merging async streams",
                ),
            },
        }
    }
}

impl Drain {
    /// The line of one stream that the drain has at hand: of stderr where
    /// `of_stderr`, else of stdout.
    pub open spec fn held(self, of_stderr: bool) -> Seq<String> {
        match (if of_stderr {
            self.err
        } else {
            self.out
        }) {
            Polled::Line(line) => seq![line],
            _ => Seq::empty(),
        }
    }

    /// The line of one stream that `event` brings in: the one that the
    /// stream gave, where the drain had nothing of that stream at hand.
    pub open spec fn read_by(self, event: Event, of_stderr: bool) -> Seq<String> {
        match event {
            Event::Polled { out, err } => {
                let known = if of_stderr {
                    self.err
                } else {
                    self.out
                };
                let fresh = if of_stderr {
                    err
                } else {
                    out
                };
                match fresh {
                    Polled::Line(line) => if known is Pending {
                        seq![line]
                    } else {
                        Seq::empty()
                    },
                    _ => Seq::empty(),
                }
            },
            _ => Seq::empty(),
        }
    }

    /// The lines of one stream that the events of a run bring in, in the
    /// order of the events. The run ends where the drain ends, or where an
    /// event is not what the drain waits for.
    pub open spec fn read_in(self, events: Seq<Event>, of_stderr: bool) -> Seq<String>
        decreases events.len(),
    {
        if events.len() == 0 || !self.accepts(events[0]) {
            Seq::empty()
        } else {
            match self.spec_step(events[0]) {
                StepView::Continue(next, _) => self.read_by(events[0], of_stderr) + next.read_in(
                    events.drop_first(),
                    of_stderr,
                ),
                StepView::Return(_) => self.read_by(events[0], of_stderr),
            }
        }
    }

    /// The lines of one stream that the drain asks to deliver during a run,
    /// in the order of its requests.
    pub open spec fn delivered_in(self, events: Seq<Event>, of_stderr: bool) -> Seq<String>
        decreases events.len(),
    {
        if events.len() == 0 || !self.accepts(events[0]) {
            Seq::empty()
        } else {
            match self.spec_step(events[0]) {
                StepView::Continue(next, request) => delivered_by(request, of_stderr)
                    + next.delivered_in(events.drop_first(), of_stderr),
                StepView::Return(_) => Seq::empty(),
            }
        }
    }
}

impl Drain {
    /// The drain after a run, where the run neither ended it nor held an
    /// event that the drain did not wait for.
    pub open spec fn after(self, events: Seq<Event>) -> Option<Drain>
        decreases events.len(),
    {
        if events.len() == 0 {
            Some(self)
        } else if !self.accepts(events[0]) {
            None
        } else {
            match self.spec_step(events[0]) {
                StepView::Continue(next, _) => next.after(events.drop_first()),
                StepView::Return(_) => None,
            }
        }
    }
}

/// The line of one stream that `request` asks to deliver.
pub open spec fn delivered_by(request: Request, of_stderr: bool) -> Seq<String> {
    match request {
        Request::Deliver(StdioLine::Out(line)) => if of_stderr {
            Seq::empty()
        } else {
            seq![line]
        },
        Request::Deliver(StdioLine::Stderr(line)) => if of_stderr {
            seq![line]
        } else {
            Seq::empty()
        },
        _ => Seq::empty(),
    }
}

/// A line of stderr that is at hand goes before whatever stdout has, and
/// stdout keeps what it has.
pub proof fn lemma_stderr_first(out: Polled, line: String)
    ensures
        StdioLine::spec_merge_streams(out, Polled::Line(line)) == (
            Merged::Line(StdioLine::Stderr(line)),
            out,
            Polled::Pending,
        ),
{
}

/// The drain waits for the process to end exactly when both streams have
/// ended.
pub proof fn lemma_exit_awaited_when_exhausted(drain: Drain, out: Polled, err: Polled)
    requires
        drain.awaiting is Lines,
    ensures
        (drain.spec_step(Event::Polled { out, err }) matches StepView::Continue(_, request)
            && request is AwaitExit) <==> (drain.out.absorb(out) is End && drain.err.absorb(
            err,
        ) is End),
{
}

/// One step that does not end the drain accounts for every line: what was
/// at hand and what the event brought in is what is to be delivered now,
/// followed by what is at hand afterwards.
pub proof fn lemma_step_keeps_lines(drain: Drain, event: Event, of_stderr: bool)
    requires
        drain.accepts(event),
        drain.spec_step(event) is Continue,
    ensures
        drain.held(of_stderr) + drain.read_by(event, of_stderr) == delivered_by(
            drain.spec_step(event)->Continue_1,
            of_stderr,
        ) + (drain.spec_step(event)->Continue_0).held(of_stderr),
{
}

/// Within one stream, lines are delivered in the order in which they were
/// read, none twice and none left out in between: over any run, the lines
/// of a stream that the drain asks to deliver are the first of those that it
/// had at hand or was given during the run.
pub proof fn lemma_lines_keep_their_order(drain: Drain, events: Seq<Event>, of_stderr: bool)
    ensures
        drain.delivered_in(events, of_stderr).is_prefix_of(
            drain.held(of_stderr) + drain.read_in(events, of_stderr),
        ),
    decreases events.len(),
{
    if events.len() == 0 || !drain.accepts(events[0]) {
    } else {
        match drain.spec_step(events[0]) {
            StepView::Continue(next, request) => {
                lemma_step_keeps_lines(drain, events[0], of_stderr);
                lemma_lines_keep_their_order(next, events.drop_first(), of_stderr);
            },
            StepView::Return(_) => {},
        }
    }
}

/// No line is lost or made up: over a run that does not end the drain, the
/// lines of a stream that the drain had at hand or was given are those that
/// it asked to deliver, followed by the one that it has at hand afterwards.
pub proof fn lemma_no_line_is_lost(drain: Drain, events: Seq<Event>, of_stderr: bool)
    requires
        drain.after(events) is Some,
    ensures
        drain.held(of_stderr) + drain.read_in(events, of_stderr) == drain.delivered_in(
            events,
            of_stderr,
        ) + drain.after(events)->0.held(of_stderr),
    decreases events.len(),
{
    if events.len() > 0 {
        let next = drain.spec_step(events[0])->Continue_0;
        lemma_step_keeps_lines(drain, events[0], of_stderr);
        lemma_no_line_is_lost(next, events.drop_first(), of_stderr);
    }
}

} // verus!
