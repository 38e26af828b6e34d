//! The typed events a session emits, in the order they are produced. Each
//! carries its wire data, already rendered; the variant decides the wire
//! event name, and whether the event is terminal for its session.

use vstd::prelude::*;

verus! {

/// One event of a session's ordered sequence.
pub enum Event {
    /// First event of every session.
    TaskStarted { data: String },
    /// One raw line of the child's standard output.
    StdoutLine { data: String },
    /// One raw line of the child's standard error.
    StderrLine { data: String },
    /// A progress notification the child sent over JSON-RPC.
    TaskProgress { data: String },
    /// The result payload of the execution call.
    TaskResult { data: String },
    /// Terminal: the child exited and its outcome is summarized.
    TaskCompleted { data: String },
    /// Non-terminal: one output line was not valid JSON.
    ParseError { data: String },
    /// Terminal: the deadline fired and the child was killed.
    TimeoutError { data: String },
    /// Terminal: the session could not be carried through (spawn, pipe or
    /// write failure).
    FailError { data: String },
}

/// Whether an event ends its session: nothing may follow it.
pub open spec fn is_terminal(e: Event) -> bool {
    match e {
        Event::TaskCompleted { .. } => true,
        Event::TimeoutError { .. } => true,
        Event::FailError { .. } => true,
        _ => false,
    }
}

/// The wire data an event carries.
pub open spec fn event_data(e: Event) -> Seq<char> {
    match e {
        Event::TaskStarted { data } => data@,
        Event::StdoutLine { data } => data@,
        Event::StderrLine { data } => data@,
        Event::TaskProgress { data } => data@,
        Event::TaskResult { data } => data@,
        Event::TaskCompleted { data } => data@,
        Event::ParseError { data } => data@,
        Event::TimeoutError { data } => data@,
        Event::FailError { data } => data@,
    }
}

/// The wire event name of each variant; every error variant shares one name.
pub open spec fn spec_name(e: Event) -> Seq<char> {
    match e {
        Event::TaskStarted { .. } => "task_started"@,
        Event::StdoutLine { .. } => "stdout_line"@,
        Event::StderrLine { .. } => "stderr_line"@,
        Event::TaskProgress { .. } => "task_progress"@,
        Event::TaskResult { .. } => "task_result"@,
        Event::TaskCompleted { .. } => "task_completed"@,
        Event::ParseError { .. } => "error"@,
        Event::TimeoutError { .. } => "error"@,
        Event::FailError { .. } => "error"@,
    }
}

impl Event {
    /// The wire event name.
    pub fn name(&self) -> (r: &'static str)
        ensures
            r@ == spec_name(*self),
    {
        match self {
            Event::TaskStarted { .. } => "task_started",
            Event::StdoutLine { .. } => "stdout_line",
            Event::StderrLine { .. } => "stderr_line",
            Event::TaskProgress { .. } => "task_progress",
            Event::TaskResult { .. } => "task_result",
            Event::TaskCompleted { .. } => "task_completed",
            Event::ParseError { .. } => "error",
            Event::TimeoutError { .. } => "error",
            Event::FailError { .. } => "error",
        }
    }

    /// The wire data.
    pub fn data(&self) -> (r: &String)
        ensures
            r@ == event_data(*self),
    {
        match self {
            Event::TaskStarted { data } => data,
            Event::StdoutLine { data } => data,
            Event::StderrLine { data } => data,
            Event::TaskProgress { data } => data,
            Event::TaskResult { data } => data,
            Event::TaskCompleted { data } => data,
            Event::ParseError { data } => data,
            Event::TimeoutError { data } => data,
            Event::FailError { data } => data,
        }
    }

    /// Whether this event ends its session.
    pub fn terminal(&self) -> (r: bool)
        ensures
            r == is_terminal(*self),
    {
        match self {
            Event::TaskCompleted { .. } => true,
            Event::TimeoutError { .. } => true,
            Event::FailError { .. } => true,
            _ => false,
        }
    }
}

} // verus!
