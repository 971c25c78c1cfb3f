//! The life of the program as a sequence of requests and replies.
//!
//! A [`Session`] always stands at one [`Request`]: the outside operation its
//! caller has to perform next. The caller performs it and hands the result
//! back as a [`Reply`]; [`Session::handle`] moves the session on and may give
//! a [`Report`] to log. Setting up the watch comes first, and a failure there
//! stops the session. After that the session turns in a loop: wait for a
//! change, let the file settle, read it, run the automation on what was read.
//! A failed read or a failed automation is reported and the loop goes on; only
//! the end of the change signals stops it.
//!
//! A reply that does not answer the request at which the session stands is
//! ignored: the session stays where it is and reports nothing.

use crate::automation::{AutomationError, AutomationErrorView};
use crate::endpoints::SETTLE_MILLIS;
use vstd::prelude::*;

verus! {

/// Why the program cannot start watching.
#[derive(Debug, PartialEq, Eq)]
pub enum StartupError {
    /// No file path was given on the command line.
    MissingPath,
    /// The file watcher could not be created.
    WatcherFailed { cause: String },
    /// The watcher could not be pointed at the file.
    WatchFailed { path: String, cause: String },
}

/// A [`StartupError`] as a mathematical value.
pub enum StartupErrorView {
    MissingPath,
    WatcherFailed { cause: Seq<char> },
    WatchFailed { path: Seq<char>, cause: Seq<char> },
}

impl StartupErrorView {
    /// The text shown to the user for this error.
    pub open spec fn message(self) -> Seq<char> {
        match self {
            StartupErrorView::MissingPath => USAGE@,
            StartupErrorView::WatcherFailed { cause } => cause,
            StartupErrorView::WatchFailed { path, cause } => "Failed to start watching file: "@
                + path + ": "@ + cause,
        }
    }
}

impl View for StartupError {
    type V = StartupErrorView;

    open spec fn view(&self) -> StartupErrorView {
        match self {
            StartupError::MissingPath => StartupErrorView::MissingPath,
            StartupError::WatcherFailed { cause } => StartupErrorView::WatcherFailed {
                cause: cause@,
            },
            StartupError::WatchFailed { path, cause } => StartupErrorView::WatchFailed {
                path: path@,
                cause: cause@,
            },
        }
    }
}

/// What a user is told who gave no file path.
pub const USAGE: &'static str = "Usage: please provide a file path as a command-line argument.";

/// The view of the status with which a session stopped.
pub open spec fn status_view(status: Result<(), StartupError>) -> Result<(), StartupErrorView> {
    match status {
        Ok(()) => Ok(()),
        Err(error) => Err(error@),
    }
}

/// The process exit code for a status: zero for a clean stop, one for an error.
pub open spec fn exit_code_of(status: Result<(), StartupErrorView>) -> u8 {
    if status is Ok {
        0
    } else {
        1
    }
}

impl StartupError {
    /// The text shown to the user for this error.
    pub fn message(&self) -> (text: String)
        ensures
            text@ == self@.message(),
    {
        match self {
            StartupError::MissingPath => USAGE.to_owned(),
            StartupError::WatcherFailed { cause } => cause.clone(),
            StartupError::WatchFailed { path, cause } => "Failed to start watching file: "
                .to_owned().concat(path.as_str()).concat(": ").concat(cause.as_str()),
        }
    }

    /// A copy of the error.
    pub fn duplicate(&self) -> (copy: StartupError)
        ensures
            copy == *self,
    {
        match self {
            StartupError::MissingPath => StartupError::MissingPath,
            StartupError::WatcherFailed { cause } => StartupError::WatcherFailed {
                cause: cause.clone(),
            },
            StartupError::WatchFailed { path, cause } => StartupError::WatchFailed {
                path: path.clone(),
                cause: cause.clone(),
            },
        }
    }
}

/// The process exit code for the status with which a session stopped, or with
/// which it could not be launched: zero for a clean stop, one for an error.
pub fn exit_code(status: &Result<(), StartupError>) -> (code: u8)
    ensures
        code == exit_code_of(status_view(*status)),
        code != 0 <==> status is Err,
{
    match status {
        Ok(()) => 0,
        Err(_) => 1,
    }
}

/// Where a session stands.
#[derive(Debug, PartialEq, Eq)]
pub enum Phase {
    /// The watcher and its signal channel are to be created.
    CreatingWatcher,
    /// The watcher is to be pointed at the file.
    StartingWatch,
    /// The next change signal is awaited.
    Waiting,
    /// A change was signalled; the file is given time to settle.
    Settling,
    /// The file is to be read.
    Reading,
    /// The automation is to be run on `text`, the contents that were read.
    Automating { text: String },
    /// The session is over.
    Stopped { status: Result<(), StartupError> },
}

/// A [`Phase`] as a mathematical value.
pub enum PhaseView {
    CreatingWatcher,
    StartingWatch,
    Waiting,
    Settling,
    Reading,
    Automating { text: Seq<char> },
    Stopped { status: Result<(), StartupErrorView> },
}

impl View for Phase {
    type V = PhaseView;

    open spec fn view(&self) -> PhaseView {
        match self {
            Phase::CreatingWatcher => PhaseView::CreatingWatcher,
            Phase::StartingWatch => PhaseView::StartingWatch,
            Phase::Waiting => PhaseView::Waiting,
            Phase::Settling => PhaseView::Settling,
            Phase::Reading => PhaseView::Reading,
            Phase::Automating { text } => PhaseView::Automating { text: text@ },
            Phase::Stopped { status } => PhaseView::Stopped { status: status_view(*status) },
        }
    }
}

/// The outside operation a session asks of its caller.
#[derive(Debug, PartialEq, Eq)]
pub enum Request {
    /// Create the signal channel and a file watcher that relays into it.
    CreateWatcher,
    /// Start watching the file at `path`, not its directory tree.
    StartWatching { path: String },
    /// Wait for the next change signal.
    AwaitChange,
    /// Sleep for `millis` milliseconds.
    Settle { millis: u64 },
    /// Read the file at `path` as text.
    ReadFile { path: String },
    /// Run the automation on `text`.
    Automate { text: String },
    /// Leave the program with `status`.
    Exit { status: Result<(), StartupError> },
}

/// A [`Request`] as a mathematical value.
pub enum RequestView {
    CreateWatcher,
    StartWatching { path: Seq<char> },
    AwaitChange,
    Settle { millis: u64 },
    ReadFile { path: Seq<char> },
    Automate { text: Seq<char> },
    Exit { status: Result<(), StartupErrorView> },
}

impl View for Request {
    type V = RequestView;

    open spec fn view(&self) -> RequestView {
        match self {
            Request::CreateWatcher => RequestView::CreateWatcher,
            Request::StartWatching { path } => RequestView::StartWatching { path: path@ },
            Request::AwaitChange => RequestView::AwaitChange,
            Request::Settle { millis } => RequestView::Settle { millis: *millis },
            Request::ReadFile { path } => RequestView::ReadFile { path: path@ },
            Request::Automate { text } => RequestView::Automate { text: text@ },
            Request::Exit { status } => RequestView::Exit { status: status_view(*status) },
        }
    }
}

/// The result of an outside operation, as the caller hands it back.
#[derive(Debug, PartialEq, Eq)]
pub enum Reply {
    /// The watcher was created.
    WatcherCreated,
    /// The watcher could not be created.
    WatcherFailed { cause: String },
    /// The file is being watched.
    WatchStarted,
    /// The file could not be watched.
    WatchFailed { cause: String },
    /// A change signal arrived.
    Changed,
    /// No change signal will ever arrive: the sending side is gone.
    Closed,
    /// The settle delay has passed.
    Settled,
    /// The file was read; `text` is what it held.
    Contents { text: String },
    /// The file could not be read.
    Unreadable { cause: String },
    /// The automation has run, with this result.
    Automated { result: Result<(), AutomationError> },
}

/// A [`Reply`] as a mathematical value.
pub enum ReplyView {
    WatcherCreated,
    WatcherFailed { cause: Seq<char> },
    WatchStarted,
    WatchFailed { cause: Seq<char> },
    Changed,
    Closed,
    Settled,
    Contents { text: Seq<char> },
    Unreadable { cause: Seq<char> },
    Automated { result: Result<(), AutomationErrorView> },
}

impl View for Reply {
    type V = ReplyView;

    open spec fn view(&self) -> ReplyView {
        match self {
            Reply::WatcherCreated => ReplyView::WatcherCreated,
            Reply::WatcherFailed { cause } => ReplyView::WatcherFailed { cause: cause@ },
            Reply::WatchStarted => ReplyView::WatchStarted,
            Reply::WatchFailed { cause } => ReplyView::WatchFailed { cause: cause@ },
            Reply::Changed => ReplyView::Changed,
            Reply::Closed => ReplyView::Closed,
            Reply::Settled => ReplyView::Settled,
            Reply::Contents { text } => ReplyView::Contents { text: text@ },
            Reply::Unreadable { cause } => ReplyView::Unreadable { cause: cause@ },
            Reply::Automated { result: Ok(()) } => ReplyView::Automated { result: Ok(()) },
            Reply::Automated { result: Err(error) } => ReplyView::Automated {
                result: Err(error@),
            },
        }
    }
}

/// A failure inside the loop, to be logged on standard error.
#[derive(Debug, PartialEq, Eq)]
pub enum Report {
    /// The file at `path` could not be read after a change.
    ReadFailed { path: String, cause: String },
    /// The automation failed.
    AutomationFailed { error: AutomationError },
}

/// A [`Report`] as a mathematical value.
pub enum ReportView {
    ReadFailed { path: Seq<char>, cause: Seq<char> },
    AutomationFailed { error: AutomationErrorView },
}

impl ReportView {
    /// The line to log.
    pub open spec fn line(self) -> Seq<char> {
        match self {
            ReportView::ReadFailed { path, cause } => "Failed to read file '"@ + path + "': "@
                + cause,
            ReportView::AutomationFailed { error } => "Automation failed: "@ + error.message(),
        }
    }
}

impl View for Report {
    type V = ReportView;

    open spec fn view(&self) -> ReportView {
        match self {
            Report::ReadFailed { path, cause } => ReportView::ReadFailed {
                path: path@,
                cause: cause@,
            },
            Report::AutomationFailed { error } => ReportView::AutomationFailed { error: error@ },
        }
    }
}

impl Report {
    /// The line to log.
    pub fn line(&self) -> (text: String)
        ensures
            text@ == self@.line(),
    {
        match self {
            Report::ReadFailed { path, cause } => "Failed to read file '".to_owned().concat(
                path.as_str(),
            ).concat("': ").concat(cause.as_str()),
            Report::AutomationFailed { error } => "Automation failed: ".to_owned().concat(
                error.message().as_str(),
            ),
        }
    }
}

/// The view of what [`Session::handle`] gives back.
pub open spec fn report_view(report: Option<Report>) -> Option<ReportView> {
    match report {
        Some(report) => Some(report@),
        None => None,
    }
}

/// A watch on one file: the file's path and the phase the watch is in.
#[derive(Debug, PartialEq, Eq)]
pub struct Session {
    pub path: String,
    pub phase: Phase,
}

/// A [`Session`] as a mathematical value.
pub struct SessionView {
    pub path: Seq<char>,
    pub phase: PhaseView,
}

impl View for Session {
    type V = SessionView;

    open spec fn view(&self) -> SessionView {
        SessionView { path: self.path@, phase: self.phase@ }
    }
}

impl SessionView {
    /// The session in another phase, watching the same file.
    pub open spec fn at(self, phase: PhaseView) -> SessionView {
        SessionView { path: self.path, phase }
    }

    /// The request at which the session stands.
    pub open spec fn request(self) -> RequestView {
        match self.phase {
            PhaseView::CreatingWatcher => RequestView::CreateWatcher,
            PhaseView::StartingWatch => RequestView::StartWatching { path: self.path },
            PhaseView::Waiting => RequestView::AwaitChange,
            PhaseView::Settling => RequestView::Settle { millis: SETTLE_MILLIS },
            PhaseView::Reading => RequestView::ReadFile { path: self.path },
            PhaseView::Automating { text } => RequestView::Automate { text },
            PhaseView::Stopped { status } => RequestView::Exit { status },
        }
    }

    /// The session after `reply`, and the report to log. A reply that does not
    /// answer the session's request changes nothing.
    pub open spec fn react(self, reply: ReplyView) -> (SessionView, Option<ReportView>) {
        match (self.phase, reply) {
            (PhaseView::CreatingWatcher, ReplyView::WatcherCreated) => (
                self.at(PhaseView::StartingWatch),
                None,
            ),
            (PhaseView::CreatingWatcher, ReplyView::WatcherFailed { cause }) => (
                self.at(
                    PhaseView::Stopped { status: Err(StartupErrorView::WatcherFailed { cause }) },
                ),
                None,
            ),
            (PhaseView::StartingWatch, ReplyView::WatchStarted) => (
                self.at(PhaseView::Waiting),
                None,
            ),
            (PhaseView::StartingWatch, ReplyView::WatchFailed { cause }) => (
                self.at(
                    PhaseView::Stopped {
                        status: Err(StartupErrorView::WatchFailed { path: self.path, cause }),
                    },
                ),
                None,
            ),
            (PhaseView::Waiting, ReplyView::Changed) => (self.at(PhaseView::Settling), None),
            (PhaseView::Waiting, ReplyView::Closed) => (
                self.at(PhaseView::Stopped { status: Ok(()) }),
                None,
            ),
            (PhaseView::Settling, ReplyView::Settled) => (self.at(PhaseView::Reading), None),
            (PhaseView::Reading, ReplyView::Contents { text }) => (
                self.at(PhaseView::Automating { text }),
                None,
            ),
            (PhaseView::Reading, ReplyView::Unreadable { cause }) => (
                self.at(PhaseView::Waiting),
                Some(ReportView::ReadFailed { path: self.path, cause }),
            ),
            (PhaseView::Automating { .. }, ReplyView::Automated { result: Ok(()) }) => (
                self.at(PhaseView::Waiting),
                None,
            ),
            (PhaseView::Automating { .. }, ReplyView::Automated { result: Err(error) }) => (
                self.at(PhaseView::Waiting),
                Some(ReportView::AutomationFailed { error }),
            ),
            _ => (self, None),
        }
    }
}

/// The view of what [`Session::launch`] gives back.
pub open spec fn launch_view(launched: Result<Session, StartupError>) -> Result<
    SessionView,
    StartupErrorView,
> {
    match launched {
        Ok(session) => Ok(session@),
        Err(error) => Err(error@),
    }
}

/// What the command line `args` launches: a watch on the file named by the
/// first argument after the program's name, or the usage error where there is
/// none. Further arguments are not looked at.
pub open spec fn launched(args: Seq<Seq<char>>) -> Result<SessionView, StartupErrorView> {
    if args.len() >= 2 {
        Ok(SessionView { path: args[1], phase: PhaseView::CreatingWatcher })
    } else {
        Err(StartupErrorView::MissingPath)
    }
}

impl Session {
    /// Starts a session from the program's command line, `args[0]` being the
    /// program's name. Without a path argument there is no session, and so no
    /// request to create a watcher.
    pub fn launch(args: &Vec<String>) -> (session: Result<Session, StartupError>)
        ensures
            launch_view(session) == launched(args.deep_view()),
    {
        if args.len() >= 2 {
            Ok(Session { path: args[1].clone(), phase: Phase::CreatingWatcher })
        } else {
            Err(StartupError::MissingPath)
        }
    }

    /// The request at which the session stands.
    pub fn request(&self) -> (request: Request)
        ensures
            request@ == self@.request(),
    {
        match &self.phase {
            Phase::CreatingWatcher => Request::CreateWatcher,
            Phase::StartingWatch => Request::StartWatching { path: self.path.clone() },
            Phase::Waiting => Request::AwaitChange,
            Phase::Settling => Request::Settle { millis: SETTLE_MILLIS },
            Phase::Reading => Request::ReadFile { path: self.path.clone() },
            Phase::Automating { text } => Request::Automate { text: text.clone() },
            Phase::Stopped { status } => Request::Exit {
                status: match status {
                    Ok(()) => Ok(()),
                    Err(error) => Err(error.duplicate()),
                },
            },
        }
    }

    /// Whether the session is over.
    pub fn is_stopped(&self) -> (stopped: bool)
        ensures
            stopped == (self@.phase is Stopped),
    {
        match &self.phase {
            Phase::Stopped { .. } => true,
            _ => false,
        }
    }

    /// Takes the reply to the session's request, moves the session on and
    /// gives back what is to be logged.
    pub fn handle(&mut self, reply: Reply) -> (report: Option<Report>)
        ensures
            (final(self)@, report_view(report)) == old(self)@.react(reply@),
    {
        match reply {
            Reply::WatcherCreated => {
                if let Phase::CreatingWatcher = self.phase {
                    self.phase = Phase::StartingWatch;
                }
                None
            },
            Reply::WatcherFailed { cause } => {
                if let Phase::CreatingWatcher = self.phase {
                    self.phase = Phase::Stopped {
                        status: Err(StartupError::WatcherFailed { cause }),
                    };
                }
                None
            },
            Reply::WatchStarted => {
                if let Phase::StartingWatch = self.phase {
                    self.phase = Phase::Waiting;
                }
                None
            },
            Reply::WatchFailed { cause } => {
                if let Phase::StartingWatch = self.phase {
                    self.phase = Phase::Stopped {
                        status: Err(StartupError::WatchFailed { path: self.path.clone(), cause }),
                    };
                }
                None
            },
            Reply::Changed => {
                if let Phase::Waiting = self.phase {
                    self.phase = Phase::Settling;
                }
                None
            },
            Reply::Closed => {
                if let Phase::Waiting = self.phase {
                    self.phase = Phase::Stopped { status: Ok(()) };
                }
                None
            },
            Reply::Settled => {
                if let Phase::Settling = self.phase {
                    self.phase = Phase::Reading;
                }
                None
            },
            Reply::Contents { text } => {
                if let Phase::Reading = self.phase {
                    self.phase = Phase::Automating { text };
                }
                None
            },
            Reply::Unreadable { cause } => {
                if let Phase::Reading = self.phase {
                    self.phase = Phase::Waiting;
                    Some(Report::ReadFailed { path: self.path.clone(), cause })
                } else {
                    None
                }
            },
            Reply::Automated { result } => {
                if let Phase::Automating { .. } = self.phase {
                    self.phase = Phase::Waiting;
                    match result {
                        Ok(()) => None,
                        Err(error) => Some(Report::AutomationFailed { error }),
                    }
                } else {
                    None
                }
            },
        }
    }
}

} // verus!
