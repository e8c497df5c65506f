use vstd::prelude::*;

use crate::cli::Config;
use crate::error::AppError;
use crate::error::ErrorCode;
use crate::value::DynValue;

verus! {

/// The watcher's lifecycle phase.
#[derive(Debug, Clone, Copy, PartialEq, Eq, Structural)]
pub enum Phase {
    Disconnected,
    Connecting,
    StatusQuerying,
    Watching,
    TerminatedOk,
    TerminatedError(ErrorCode),
}

/// What the outside world reports to the watcher: the outcome of the
/// operation it last asked for, or the next item of the message stream.
#[derive(Debug)]
pub enum BusEvent {
    /// The run begins.
    Start,
    /// A bus connection is established.
    ConnectSucceeded,
    /// Connecting failed for good, retries included.
    ConnectFailed(AppError),
    /// The initial status query returned this property value.
    StatusQueryValue(DynValue),
    /// The initial status query failed for good, retries included.
    StatusQueryFailed(AppError),
    /// Registering the subscription filter failed for good.
    SubscribeFailed(AppError),
    /// A matched notification arrived and was decoded.
    MessageDecoded(Result<bool, String>),
    /// The message stream itself failed.
    StreamFailed(AppError),
    /// The message stream ended cleanly.
    StreamClosed,
}

/// What the watcher asks the outside world to do next.
#[derive(Debug, Clone, Copy, PartialEq, Eq, Structural)]
pub enum BusOp {
    /// Establish a bus connection, session first, then system.
    Connect,
    /// Run the configured status query.
    QueryStatus,
    /// Register the subscription filter and start streaming.
    Subscribe,
    /// Wait for the next message of the stream.
    AwaitMessage,
    /// Terminate with status 0.
    ExitOk,
    /// Terminate with this status code.
    ExitError(u16),
}

/// One step of the watcher: the phase it moves to, at most one line for the
/// consumer, and the operation to perform next.
#[derive(Debug)]
pub struct Transition {
    pub next: Phase,
    pub output: Option<String>,
    pub op: BusOp,
}

/// A transition that prints the fatal `E`-line for `code` and terminates
/// with that code as exit status.
pub open spec fn spec_is_fatal(t: Transition, code: ErrorCode) -> bool {
    &&& t.next == Phase::TerminatedError(code)
    &&& t.op == BusOp::ExitError(code.spec_code())
    &&& t.output matches Some(s) && s@ == code.spec_waybar()
}

/// The watcher: holds the configuration and decides, one event at a time,
/// how the run proceeds.
pub struct DBusListener {
    pub config: Config,
}

impl DBusListener {
    pub fn new(config: Config) -> (l: DBusListener)
        ensures
            l.config == config,
    {
        DBusListener { config }
    }

    /// Which events can arrive in which phase: the outcome of the operation
    /// the phase asked for. The configuration must have passed validation.
    pub open spec fn admissible(self, phase: Phase, event: BusEvent) -> bool {
        &&& self.config.spec_status_ok()
        &&& match phase {
            Phase::Disconnected => event is Start,
            Phase::Connecting => event is ConnectSucceeded || event is ConnectFailed,
            Phase::StatusQuerying => event is StatusQueryValue || event is StatusQueryFailed,
            Phase::Watching => {
                ||| event is SubscribeFailed
                ||| event is MessageDecoded
                ||| event is StreamFailed
                ||| event is StreamClosed
            },
            Phase::TerminatedOk => false,
            Phase::TerminatedError(_) => false,
        }
    }

    /// Advance the lifecycle by one event.
    ///
    /// Connection, query, subscription and stream failures terminate the run
    /// with their error's `E`-line — except a status-query failure other
    /// than service-unavailable, which is best-effort, and a per-message
    /// decode failure, which is isolated and watching continues.
    pub fn step(&self, phase: Phase, event: BusEvent) -> (t: Transition)
        requires
            self.admissible(phase, event),
        ensures
            phase is Disconnected ==> t.next is Connecting && t.op is Connect && t.output is None,
            phase is Connecting && event is ConnectSucceeded && self.config.status is Some
                ==> t.next is StatusQuerying && t.op is QueryStatus && t.output is None,
            phase is Connecting && event is ConnectSucceeded && self.config.status is None
                ==> t.next is Watching && t.op is Subscribe && t.output is None,
            event matches BusEvent::ConnectFailed(e) ==> spec_is_fatal(t, e@.code()),
            event matches BusEvent::StatusQueryValue(v) ==> t.next is Watching && t.op is Subscribe
                && (match self.config.type_handler.spec_process(v) {
                Some(line) => t.output matches Some(s) && s@ == line,
                None => t.output is None,
            }),
            event matches BusEvent::StatusQueryFailed(e) ==> (if e@.code()
                == ErrorCode::ServiceUnavailable {
                spec_is_fatal(t, ErrorCode::ServiceUnavailable)
            } else {
                t.next is Watching && t.op is Subscribe && t.output is None
            }),
            event matches BusEvent::SubscribeFailed(e) ==> spec_is_fatal(t, e@.code()),
            event matches BusEvent::MessageDecoded(d) ==> t.next is Watching && t.op
                is AwaitMessage && (match d {
                Ok(b) => t.output matches Some(s) && s@ == self.config.type_handler.output_view(b),
                Err(_) => t.output is None,
            }),
            event matches BusEvent::StreamFailed(e) ==> spec_is_fatal(t, e@.code()),
            event is StreamClosed ==> t.next is TerminatedOk && t.op is ExitOk && t.output is None,
    {
        match event {
            BusEvent::Start => Transition {
                next: Phase::Connecting,
                output: None,
                op: BusOp::Connect,
            },
            BusEvent::ConnectSucceeded => {
                if self.config.status.is_some() {
                    Transition { next: Phase::StatusQuerying, output: None, op: BusOp::QueryStatus }
                } else {
                    Transition { next: Phase::Watching, output: None, op: BusOp::Subscribe }
                }
            },
            BusEvent::ConnectFailed(e) => Self::fatal(&e),
            BusEvent::StatusQueryValue(v) => {
                let output = self.config.type_handler.process(&v);
                Transition { next: Phase::Watching, output, op: BusOp::Subscribe }
            },
            BusEvent::StatusQueryFailed(e) => {
                match e.error_code() {
                    ErrorCode::ServiceUnavailable => Self::fatal(&e),
                    _ => Transition { next: Phase::Watching, output: None, op: BusOp::Subscribe },
                }
            },
            BusEvent::SubscribeFailed(e) => Self::fatal(&e),
            BusEvent::MessageDecoded(d) => {
                match d {
                    Ok(b) => Transition {
                        next: Phase::Watching,
                        output: Some(self.config.type_handler.boolean_output(b)),
                        op: BusOp::AwaitMessage,
                    },
                    Err(_) => Transition {
                        next: Phase::Watching,
                        output: None,
                        op: BusOp::AwaitMessage,
                    },
                }
            },
            BusEvent::StreamFailed(e) => Self::fatal(&e),
            BusEvent::StreamClosed => Transition {
                next: Phase::TerminatedOk,
                output: None,
                op: BusOp::ExitOk,
            },
        }
    }

    /// The terminating transition for a fatal error: one `E`-line, then exit
    /// with the error's code.
    fn fatal(e: &AppError) -> (t: Transition)
        ensures
            spec_is_fatal(t, e@.code()),
    {
        let code = e.error_code();
        Transition {
            next: Phase::TerminatedError(code),
            output: Some(code.format_for_waybar()),
            op: BusOp::ExitError(code.code()),
        }
    }
}

} // verus!
