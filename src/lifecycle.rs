use vstd::prelude::*;

verus! {

/// The details carried by an informational, warning or error notification.
#[derive(Debug)]
pub struct Report {
    /// The path of the stage that emitted it, when known.
    pub source: Option<String>,
    pub message: String,
    pub debug: Option<String>,
}

/// A notification from the runtime's ordered stream.
#[derive(Debug)]
pub enum Notification {
    Info(Report),
    Warning(Report),
    Error(Report),
    EndOfStream,
    /// Any other notification; it is passed over.
    Other,
}

#[derive(Debug, Clone, Copy, PartialEq, Eq, Structural)]
pub enum LogLevel {
    Info,
    Warn,
    Error,
}

/// A line to be logged: the level, the originating stage, the message and an
/// optional detail to log at debug level.
#[derive(Debug)]
pub struct LogEntry {
    pub level: LogLevel,
    pub context: Option<String>,
    pub message: String,
    pub detail: Option<String>,
}

/// Where the controller stands in a run.
#[derive(Debug, Clone, Copy, PartialEq, Eq, Structural)]
pub enum Phase {
    Running,
    Terminating,
    Stopped,
}

/// What the loop does after a notification.
#[derive(Debug, Clone, Copy, PartialEq, Eq, Structural)]
pub enum LoopAction {
    Continue,
    Terminate,
}

/// The result of handling one notification.
#[derive(Debug)]
pub struct Step {
    pub action: LoopAction,
    pub log: Option<LogEntry>,
}

/// Whether a notification ends the run.
pub open spec fn is_terminal(n: Notification) -> bool {
    n is Error || n is EndOfStream
}

/// The level at which a notification is logged, if at all.
pub open spec fn log_level_of(n: Notification) -> Option<LogLevel> {
    match n {
        Notification::Info(_) => Some(LogLevel::Info),
        Notification::Warning(_) => Some(LogLevel::Warn),
        Notification::Error(_) => Some(LogLevel::Error),
        Notification::EndOfStream => Some(LogLevel::Info),
        Notification::Other => None,
    }
}

/// A log entry that reports `rep` at `level`, naming its source stage.
pub open spec fn reports(e: LogEntry, level: LogLevel, rep: Report) -> bool {
    e.level == level && e.context == rep.source && e.message == rep.message && e.detail == rep.debug
}

/// The lifecycle controller: it consumes notifications while running, then
/// requests the Null state once and stops.
#[derive(Debug)]
pub struct Controller {
    pub phase: Phase,
}

/// The exit code of a run that reached the event loop: its end, by error or
/// end of stream, is an orderly shutdown.
pub const CLEAN_EXIT: i32 = 0;

impl Controller {
    pub fn new() -> (r: Controller)
        ensures
            r.phase == Phase::Running,
    {
        Controller { phase: Phase::Running }
    }

    /// Classifies one notification: informational ones and warnings are logged
    /// and the loop goes on; an error or the end of the stream is logged and
    /// ends the loop.
    pub fn on_notification(&mut self, n: Notification) -> (r: Step)
        requires
            old(self).phase == Phase::Running,
        ensures
            r.action == (if is_terminal(n) { LoopAction::Terminate } else { LoopAction::Continue }),
            final(self).phase == (if is_terminal(n) { Phase::Terminating } else { Phase::Running }),
            log_level_of(n) is None <==> r.log is None,
            r.log matches Some(e) ==> e.level == log_level_of(n)->Some_0,
            n matches Notification::Info(rep) ==> (r.log matches Some(e) && reports(e, LogLevel::Info, rep)),
            n matches Notification::Warning(rep) ==> (r.log matches Some(e) && reports(e, LogLevel::Warn, rep)),
            n matches Notification::Error(rep) ==> (r.log matches Some(e) && reports(e, LogLevel::Error, rep)),
            n is EndOfStream ==> (r.log matches Some(e) && e.context is None && e.detail is None
                && e.message@ == "Received end of stream"@),
    {
        match n {
            Notification::Info(rep) => Step {
                action: LoopAction::Continue,
                log: Some(LogEntry { level: LogLevel::Info, context: rep.source, message: rep.message, detail: rep.debug }),
            },
            Notification::Warning(rep) => Step {
                action: LoopAction::Continue,
                log: Some(LogEntry { level: LogLevel::Warn, context: rep.source, message: rep.message, detail: rep.debug }),
            },
            Notification::Error(rep) => {
                self.phase = Phase::Terminating;
                Step {
                    action: LoopAction::Terminate,
                    log: Some(LogEntry { level: LogLevel::Error, context: rep.source, message: rep.message, detail: rep.debug }),
                }
            },
            Notification::EndOfStream => {
                self.phase = Phase::Terminating;
                Step {
                    action: LoopAction::Terminate,
                    log: Some(LogEntry {
                        level: LogLevel::Info,
                        context: None,
                        message: "Received end of stream".to_owned(),
                        detail: None,
                    }),
                }
            },
            Notification::Other => Step { action: LoopAction::Continue, log: None },
        }
    }

    /// The stream closed without a terminal notification: the run ends as if
    /// one had come.
    pub fn on_stream_closed(&mut self)
        requires
            old(self).phase == Phase::Running,
        ensures
            final(self).phase == Phase::Terminating,
    {
        self.phase = Phase::Terminating;
    }

    /// Records the answer to the single request for the Null state and stops.
    /// Failing to reach Null is logged but does not change the exit code.
    pub fn finish(&mut self, reached_null: bool) -> (r: (i32, Option<LogEntry>))
        requires
            old(self).phase == Phase::Terminating,
        ensures
            final(self).phase == Phase::Stopped,
            r.0 == CLEAN_EXIT,
            r.1 is Some <==> !reached_null,
            r.1 matches Some(e) ==> e.level == LogLevel::Error,
    {
        self.phase = Phase::Stopped;
        if reached_null {
            (CLEAN_EXIT, None)
        } else {
            (
                CLEAN_EXIT,
                Some(LogEntry {
                    level: LogLevel::Error,
                    context: None,
                    message: "Failed to set the pipeline to the Null state".to_owned(),
                    detail: None,
                }),
            )
        }
    }
}

} // verus!
