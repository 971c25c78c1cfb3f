use paste_watch::automation::{AutomationError, Stage};
use paste_watch::session::{exit_code, Phase, Reply, Report, Request, Session, StartupError, USAGE};

fn args(items: &[&str]) -> Vec<String> {
    items.iter().map(|item| item.to_string()).collect()
}

fn session_at(phase: Phase) -> Session {
    Session { path: "notes.txt".to_string(), phase }
}

fn automating(text: &str) -> Phase {
    Phase::Automating { text: text.to_string() }
}

#[test]
fn launch_without_a_path_is_the_usage_error() {
    assert_eq!(Session::launch(&args(&["paste-watch"])), Err(StartupError::MissingPath));
}

#[test]
fn launch_without_any_argument_is_the_usage_error() {
    assert_eq!(Session::launch(&args(&[])), Err(StartupError::MissingPath));
}

#[test]
fn missing_path_exits_with_a_nonzero_code() {
    let launched = Session::launch(&args(&["paste-watch"]));
    let status = launched.map(|_| ());
    assert_eq!(exit_code(&status), 1);
    assert_ne!(exit_code(&status), 0);
}

#[test]
fn usage_message_is_shown_for_a_missing_path() {
    assert_eq!(USAGE, "Usage: please provide a file path as a command-line argument.");
    assert_eq!(StartupError::MissingPath.message(), USAGE);
}

#[test]
fn launch_with_a_path_asks_for_a_watcher() {
    let session = Session::launch(&args(&["paste-watch", "notes.txt"])).expect("session");
    assert_eq!(session.path, "notes.txt");
    assert_eq!(session.phase, Phase::CreatingWatcher);
    assert_eq!(session.request(), Request::CreateWatcher);
    assert!(!session.is_stopped());
}

#[test]
fn launch_looks_at_the_first_path_only() {
    let session = Session::launch(&args(&["paste-watch", "a.txt", "b.txt", "--flag"])).expect("session");
    assert_eq!(session.path, "a.txt");
}

#[test]
fn launch_takes_an_empty_path_as_given() {
    let session = Session::launch(&args(&["paste-watch", ""])).expect("session");
    assert_eq!(session.path, "");
}

#[test]
fn each_phase_has_its_request() {
    assert_eq!(session_at(Phase::CreatingWatcher).request(), Request::CreateWatcher);
    assert_eq!(
        session_at(Phase::StartingWatch).request(),
        Request::StartWatching { path: "notes.txt".to_string() }
    );
    assert_eq!(session_at(Phase::Waiting).request(), Request::AwaitChange);
    assert_eq!(session_at(Phase::Settling).request(), Request::Settle { millis: 100 });
    assert_eq!(
        session_at(Phase::Reading).request(),
        Request::ReadFile { path: "notes.txt".to_string() }
    );
    assert_eq!(
        session_at(automating("abc")).request(),
        Request::Automate { text: "abc".to_string() }
    );
    assert_eq!(
        session_at(Phase::Stopped { status: Ok(()) }).request(),
        Request::Exit { status: Ok(()) }
    );
}

#[test]
fn setup_leads_into_the_loop() {
    let mut session = Session::launch(&args(&["paste-watch", "notes.txt"])).expect("session");
    assert_eq!(session.handle(Reply::WatcherCreated), None);
    assert_eq!(session.request(), Request::StartWatching { path: "notes.txt".to_string() });
    assert_eq!(session.handle(Reply::WatchStarted), None);
    assert_eq!(session.request(), Request::AwaitChange);
}

#[test]
fn change_is_settled_read_and_automated() {
    let mut session = session_at(Phase::Waiting);
    assert_eq!(session.handle(Reply::Changed), None);
    assert_eq!(session.request(), Request::Settle { millis: 100 });
    assert_eq!(session.handle(Reply::Settled), None);
    assert_eq!(session.request(), Request::ReadFile { path: "notes.txt".to_string() });
    assert_eq!(session.handle(Reply::Contents { text: "peer-1".to_string() }), None);
    assert_eq!(session.request(), Request::Automate { text: "peer-1".to_string() });
    assert_eq!(session.handle(Reply::Automated { result: Ok(()) }), None);
    assert_eq!(session.request(), Request::AwaitChange);
}

#[test]
fn automation_gets_the_contents_unchanged() {
    for text in ["", "line\n", "a\r\nb", " padded ", "ünïcödé"] {
        let mut session = session_at(Phase::Reading);
        session.handle(Reply::Contents { text: text.to_string() });
        assert_eq!(session.request(), Request::Automate { text: text.to_string() });
    }
}

#[test]
fn watcher_failure_stops_the_session() {
    let mut session = session_at(Phase::CreatingWatcher);
    assert_eq!(session.handle(Reply::WatcherFailed { cause: "no inotify".to_string() }), None);
    let status = Err(StartupError::WatcherFailed { cause: "no inotify".to_string() });
    assert!(session.is_stopped());
    assert_eq!(exit_code(&status), 1);
    assert_eq!(session.request(), Request::Exit { status });
}

#[test]
fn watch_failure_stops_the_session_and_names_the_file() {
    let mut session = session_at(Phase::StartingWatch);
    assert_eq!(session.handle(Reply::WatchFailed { cause: "No path was found.".to_string() }), None);
    let error = StartupError::WatchFailed {
        path: "notes.txt".to_string(),
        cause: "No path was found.".to_string(),
    };
    assert_eq!(error.message(), "Failed to start watching file: notes.txt: No path was found.");
    assert_eq!(session.request(), Request::Exit { status: Err(error) });
}

#[test]
fn watcher_failure_message_is_the_cause() {
    let error = StartupError::WatcherFailed { cause: "too many open files".to_string() };
    assert_eq!(error.message(), "too many open files");
}

#[test]
fn duplicate_is_an_equal_error() {
    let errors = [
        StartupError::MissingPath,
        StartupError::WatcherFailed { cause: "c".to_string() },
        StartupError::WatchFailed { path: "p".to_string(), cause: "c".to_string() },
    ];
    for error in errors {
        assert_eq!(error.duplicate(), error);
    }
}

#[test]
fn end_of_signals_stops_the_session_cleanly() {
    let mut session = session_at(Phase::Waiting);
    assert_eq!(session.handle(Reply::Closed), None);
    assert!(session.is_stopped());
    assert_eq!(session.request(), Request::Exit { status: Ok(()) });
    assert_eq!(exit_code(&Ok(())), 0);
}

#[test]
fn unreadable_file_is_reported_and_the_loop_goes_on() {
    let mut session = session_at(Phase::Reading);
    let report = session.handle(Reply::Unreadable { cause: "permission denied".to_string() });
    assert_eq!(
        report,
        Some(Report::ReadFailed {
            path: "notes.txt".to_string(),
            cause: "permission denied".to_string(),
        })
    );
    assert_eq!(session.request(), Request::AwaitChange);
    assert!(!session.is_stopped());
}

#[test]
fn read_failure_line_names_file_and_cause() {
    let report = Report::ReadFailed {
        path: "notes.txt".to_string(),
        cause: "permission denied".to_string(),
    };
    assert_eq!(report.line(), "Failed to read file 'notes.txt': permission denied");
}

#[test]
fn failed_automation_is_reported_and_the_loop_goes_on() {
    let mut session = session_at(automating("peer-1"));
    let error = AutomationError { stage: Stage::Connect, cause: "connection refused".to_string() };
    let report = session.handle(Reply::Automated {
        result: Err(AutomationError {
            stage: Stage::Connect,
            cause: "connection refused".to_string(),
        }),
    });
    assert_eq!(report, Some(Report::AutomationFailed { error }));
    assert_eq!(session.request(), Request::AwaitChange);
    assert!(!session.is_stopped());
}

#[test]
fn automation_failure_line_names_stage_and_cause() {
    let report = Report::AutomationFailed {
        error: AutomationError { stage: Stage::Connect, cause: "connection refused".to_string() },
    };
    assert_eq!(
        report.line(),
        "Automation failed: Failed to connect to chromedriver. Is it running on port 9515?: connection refused"
    );
}

#[test]
fn next_change_after_a_failed_automation_is_attempted() {
    let mut session = session_at(automating("old"));
    session.handle(Reply::Automated {
        result: Err(AutomationError { stage: Stage::ClickButton, cause: "stale".to_string() }),
    });
    session.handle(Reply::Changed);
    session.handle(Reply::Settled);
    session.handle(Reply::Contents { text: "new".to_string() });
    assert_eq!(session.request(), Request::Automate { text: "new".to_string() });
}

#[test]
fn next_change_after_a_failed_read_is_attempted() {
    let mut session = session_at(Phase::Reading);
    session.handle(Reply::Unreadable { cause: "gone".to_string() });
    session.handle(Reply::Changed);
    session.handle(Reply::Settled);
    session.handle(Reply::Contents { text: "back".to_string() });
    assert_eq!(session.request(), Request::Automate { text: "back".to_string() });
}

fn every_reply() -> Vec<Reply> {
    vec![
        Reply::WatcherCreated,
        Reply::WatcherFailed { cause: "c".to_string() },
        Reply::WatchStarted,
        Reply::WatchFailed { cause: "c".to_string() },
        Reply::Changed,
        Reply::Closed,
        Reply::Settled,
        Reply::Contents { text: "t".to_string() },
        Reply::Unreadable { cause: "c".to_string() },
        Reply::Automated { result: Ok(()) },
        Reply::Automated {
            result: Err(AutomationError { stage: Stage::Attach, cause: "c".to_string() }),
        },
    ]
}

/// The indices into `every_reply` that answer the request of each phase.
fn answers(phase: &Phase) -> Vec<usize> {
    match phase {
        Phase::CreatingWatcher => vec![0, 1],
        Phase::StartingWatch => vec![2, 3],
        Phase::Waiting => vec![4, 5],
        Phase::Settling => vec![6],
        Phase::Reading => vec![7, 8],
        Phase::Automating { .. } => vec![9, 10],
        Phase::Stopped { .. } => vec![],
    }
}

fn every_phase() -> Vec<Phase> {
    vec![
        Phase::CreatingWatcher,
        Phase::StartingWatch,
        Phase::Waiting,
        Phase::Settling,
        Phase::Reading,
        automating("t"),
        Phase::Stopped { status: Ok(()) },
        Phase::Stopped { status: Err(StartupError::WatcherFailed { cause: "c".to_string() }) },
    ]
}

#[test]
fn reply_to_another_request_is_ignored() {
    for index in 0..every_phase().len() {
        for (number, reply) in every_reply().into_iter().enumerate() {
            let mut session = session_at(every_phase().remove(index));
            if answers(&session.phase).contains(&number) {
                continue;
            }
            assert_eq!(session.handle(reply), None);
            assert_eq!(session, session_at(every_phase().remove(index)));
        }
    }
}

#[test]
fn reply_to_the_request_moves_the_session() {
    for index in 0..every_phase().len() {
        for (number, reply) in every_reply().into_iter().enumerate() {
            let mut session = session_at(every_phase().remove(index));
            if !answers(&session.phase).contains(&number) {
                continue;
            }
            session.handle(reply);
            assert_ne!(session.phase, every_phase().remove(index));
            assert_eq!(session.path, "notes.txt");
        }
    }
}

#[test]
fn only_the_end_of_signals_stops_the_loop() {
    let inside = [Phase::Waiting, Phase::Settling, Phase::Reading, automating("t")];
    for index in 0..inside.len() {
        for (number, reply) in every_reply().into_iter().enumerate() {
            let phase = match &inside[index] {
                Phase::Automating { text } => automating(text),
                Phase::Waiting => Phase::Waiting,
                Phase::Settling => Phase::Settling,
                _ => Phase::Reading,
            };
            let waiting = phase == Phase::Waiting;
            let mut session = session_at(phase);
            session.handle(reply);
            assert_eq!(session.is_stopped(), waiting && number == 5);
        }
    }
}

#[test]
fn stopped_session_stays_stopped() {
    for reply in every_reply() {
        let mut session = session_at(Phase::Stopped { status: Err(StartupError::MissingPath) });
        assert_eq!(session.handle(reply), None);
        assert_eq!(session.request(), Request::Exit { status: Err(StartupError::MissingPath) });
    }
}

/// Follows a session through `replies`; counts the changes it takes, the
/// attempts it starts and the reports it gives.
fn tally(session: &mut Session, replies: Vec<Reply>) -> (usize, usize, usize) {
    let (mut changes, mut attempts, mut reports) = (0, 0, 0);
    for reply in replies {
        let before_waiting = session.phase == Phase::Waiting;
        let before_reading = session.phase == Phase::Reading;
        if session.handle(reply).is_some() {
            reports += 1;
        }
        if before_waiting && session.phase == Phase::Settling {
            changes += 1;
        }
        if before_reading && matches!(session.phase, Phase::Automating { .. }) {
            attempts += 1;
        }
    }
    (changes, attempts, reports)
}

#[test]
fn one_change_starts_one_attempt() {
    let mut session = session_at(Phase::Waiting);
    let replies = vec![
        Reply::Changed,
        Reply::Settled,
        Reply::Contents { text: "t".to_string() },
        Reply::Automated { result: Ok(()) },
    ];
    assert_eq!(tally(&mut session, replies), (1, 1, 0));
    assert_eq!(session.request(), Request::AwaitChange);
}

#[test]
fn changes_are_attempted_once_each_unless_the_read_fails() {
    let mut session = Session::launch(&args(&["paste-watch", "notes.txt"])).expect("session");
    let replies = vec![
        Reply::WatcherCreated,
        Reply::WatchStarted,
        Reply::Changed,
        Reply::Changed,
        Reply::Settled,
        Reply::Contents { text: "one".to_string() },
        Reply::Automated {
            result: Err(AutomationError { stage: Stage::Navigate, cause: "c".to_string() }),
        },
        Reply::Changed,
        Reply::Settled,
        Reply::Unreadable { cause: "gone".to_string() },
        Reply::Changed,
        Reply::Settled,
        Reply::Contents { text: "two".to_string() },
        Reply::Automated { result: Ok(()) },
        Reply::Changed,
    ];
    let (changes, attempts, reports) = tally(&mut session, replies);
    assert_eq!(changes, 4);
    assert_eq!(attempts, 2);
    assert_eq!(reports, 2);
    assert_eq!(session.phase, Phase::Settling);
}
