use notify::event::{AccessKind, CreateKind, DataChange, ModifyKind, RemoveKind};
use notify::{Event, EventKind};
use paste_watch::automation::{Automation, Command, Outcome, Turn};
use paste_watch::notifier::{change_channel, relay, Relayed};
use paste_watch::session::{Phase, Reply, Request, Session};

fn write_event() -> Result<Event, notify::Error> {
    Ok(Event::new(EventKind::Modify(ModifyKind::Data(DataChange::Content))))
}

/// The text that a run started on `text` types, every command succeeding.
fn typed(text: &str) -> Vec<String> {
    let mut run = Automation::new(text);
    let mut typed = Vec::new();
    loop {
        if let Command::EnterText { text } = run.command() {
            typed.push(text);
        }
        match run.advance(Outcome::Done) {
            Turn::Continue(next) => run = next,
            Turn::Finished(result) => {
                assert_eq!(result, Ok(()));
                return typed;
            }
        }
    }
}

#[test]
fn contents_read_reach_the_input() {
    let mut session = Session { path: "notes.txt".to_string(), phase: Phase::Reading };
    session.handle(Reply::Contents { text: "/dns4/peer/tcp/1".to_string() });
    let text = match session.request() {
        Request::Automate { text } => text,
        other => panic!("request is {:?}", other),
    };
    assert_eq!(typed(&text), vec!["/dns4/peer/tcp/1".to_string()]);
}

#[test]
fn burst_of_writes_is_one_change_for_the_session() {
    let (sender, mut receiver) = change_channel();
    let mut forwarded = 0;
    for _ in 0..5 {
        if let Relayed::Forwarded = relay(&sender, write_event()) {
            forwarded += 1;
        }
    }
    assert_eq!(forwarded, 1);

    let mut session = Session { path: "notes.txt".to_string(), phase: Phase::Waiting };
    let mut attempts = 0;
    while receiver.try_recv().is_ok() {
        session.handle(Reply::Changed);
        session.handle(Reply::Settled);
        session.handle(Reply::Contents { text: "t".to_string() });
        if let Request::Automate { .. } = session.request() {
            attempts += 1;
        }
        session.handle(Reply::Automated { result: Ok(()) });
    }
    assert_eq!(attempts, 1);
}

#[test]
fn writes_apart_are_one_attempt_each() {
    let (sender, mut receiver) = change_channel();
    let mut session = Session { path: "notes.txt".to_string(), phase: Phase::Waiting };
    let mut attempts = 0;
    for _ in 0..3 {
        assert!(matches!(relay(&sender, write_event()), Relayed::Forwarded));
        assert!(receiver.try_recv().is_ok());
        session.handle(Reply::Changed);
        session.handle(Reply::Settled);
        session.handle(Reply::Contents { text: "t".to_string() });
        if let Request::Automate { .. } = session.request() {
            attempts += 1;
        }
        session.handle(Reply::Automated { result: Ok(()) });
    }
    assert_eq!(attempts, 3);
}

/// Delivers `events` to the notifier in order. After each event marked `true`
/// the loop runs until it is at rest, every read succeeding. Gives the number
/// of attempts the session started.
fn attempts_for(events: Vec<(EventKind, bool)>) -> usize {
    let (sender, mut receiver) = change_channel();
    let mut session = Session { path: "notes.txt".to_string(), phase: Phase::Waiting };
    let mut attempts = 0;
    for (kind, run_loop) in events {
        relay(&sender, Ok(Event::new(kind)));
        if !run_loop {
            continue;
        }
        while receiver.try_recv().is_ok() {
            session.handle(Reply::Changed);
            session.handle(Reply::Settled);
            session.handle(Reply::Contents { text: "t".to_string() });
            if let Request::Automate { .. } = session.request() {
                attempts += 1;
            }
            session.handle(Reply::Automated { result: Ok(()) });
        }
        assert_eq!(session.request(), Request::AwaitChange);
    }
    attempts
}

fn write() -> EventKind {
    EventKind::Modify(ModifyKind::Data(DataChange::Content))
}

#[test]
fn events_of_other_kinds_start_no_attempt() {
    let events = vec![
        (EventKind::Create(CreateKind::File), true),
        (EventKind::Access(AccessKind::Read), false),
        (EventKind::Remove(RemoveKind::File), false),
        (EventKind::Any, false),
        (EventKind::Other, true),
    ];
    assert_eq!(attempts_for(events), 0);
}

#[test]
fn burst_before_the_loop_runs_is_exactly_one_attempt() {
    for k in 1..6 {
        let mut events: Vec<(EventKind, bool)> = (0..k).map(|_| (write(), false)).collect();
        events.push((EventKind::Other, true));
        assert_eq!(attempts_for(events), 1);
    }
}

#[test]
fn attempts_lie_between_one_and_the_number_of_modifications() {
    let paces = [
        vec![true],
        vec![false, true],
        vec![true, true, true],
        vec![false, false, true, false, true],
        vec![true, false, false, false, true, true],
    ];
    for pace in paces {
        let n = pace.len();
        let mut events = Vec::new();
        for run_loop in pace {
            events.push((EventKind::Create(CreateKind::Any), false));
            events.push((write(), run_loop));
        }
        let attempts = attempts_for(events);
        assert!(attempts >= 1);
        assert!(attempts <= n);
    }
}

#[test]
fn attempts_are_the_signals_the_channel_took() {
    let events = vec![
        (write(), false),
        (write(), true),
        (write(), true),
        (write(), false),
        (write(), false),
        (write(), true),
    ];
    assert_eq!(attempts_for(events), 3);
}
