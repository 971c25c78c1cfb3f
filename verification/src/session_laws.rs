//! What holds of every session, whatever replies its caller hands in.
//!
//! A session is followed through a sequence of replies. The laws below count
//! what happens on the way: the change signals it takes, the automation
//! attempts it starts, the reads that fail. They say that each change taken is
//! attempted once, that no failure inside the loop stops the session, and
//! that the text handed to the automation is the text that was read.

use crate::automation::{AutomationErrorView, CommandView, Stage};
use crate::automation_laws::script;
use crate::endpoints::SETTLE_MILLIS;
use crate::session::{
    exit_code_of, launched, PhaseView, ReplyView, ReportView, RequestView, SessionView,
    StartupErrorView,
};
use vstd::prelude::*;

verus! {

/// The session after the replies `replies`, taken in order.
pub open spec fn run(session: SessionView, replies: Seq<ReplyView>) -> SessionView
    decreases replies.len(),
{
    if replies.len() == 0 {
        session
    } else {
        run(session.react(replies[0]).0, replies.drop_first())
    }
}

/// The reports logged while the session is followed through `replies`, in order.
pub open spec fn reports(session: SessionView, replies: Seq<ReplyView>) -> Seq<ReportView>
    decreases replies.len(),
{
    if replies.len() == 0 {
        Seq::empty()
    } else {
        let (next, report) = session.react(replies[0]);
        let later = reports(next, replies.drop_first());
        match report {
            Some(report) => seq![report] + later,
            None => later,
        }
    }
}

/// Whether `reply` is a change signal that the session takes.
pub open spec fn takes_change(session: SessionView, reply: ReplyView) -> bool {
    session.phase is Waiting && reply is Changed
}

/// Whether `reply` makes the session start an attempt at the automation.
pub open spec fn starts_attempt(session: SessionView, reply: ReplyView) -> bool {
    session.phase is Reading && reply is Contents
}

/// Whether `reply` is a failed read of the file the session asked for.
pub open spec fn fails_read(session: SessionView, reply: ReplyView) -> bool {
    session.phase is Reading && reply is Unreadable
}

/// Whether `reply` is the failure of the attempt the session asked for.
pub open spec fn fails_attempt(session: SessionView, reply: ReplyView) -> bool {
    session.phase is Automating && reply matches ReplyView::Automated { result: Err(_) }
}

/// How many change signals the session takes on its way through `replies`.
pub open spec fn changes_taken(session: SessionView, replies: Seq<ReplyView>) -> nat
    decreases replies.len(),
{
    if replies.len() == 0 {
        0
    } else {
        (if takes_change(session, replies[0]) {
            1nat
        } else {
            0
        }) + changes_taken(session.react(replies[0]).0, replies.drop_first())
    }
}

/// How many attempts at the automation the session starts on its way through `replies`.
pub open spec fn attempts_started(session: SessionView, replies: Seq<ReplyView>) -> nat
    decreases replies.len(),
{
    if replies.len() == 0 {
        0
    } else {
        (if starts_attempt(session, replies[0]) {
            1nat
        } else {
            0
        }) + attempts_started(session.react(replies[0]).0, replies.drop_first())
    }
}

/// How many reads fail on the session's way through `replies`.
pub open spec fn reads_failed(session: SessionView, replies: Seq<ReplyView>) -> nat
    decreases replies.len(),
{
    if replies.len() == 0 {
        0
    } else {
        (if fails_read(session, replies[0]) {
            1nat
        } else {
            0
        }) + reads_failed(session.react(replies[0]).0, replies.drop_first())
    }
}

/// How many attempts fail on the session's way through `replies`.
pub open spec fn attempts_failed(session: SessionView, replies: Seq<ReplyView>) -> nat
    decreases replies.len(),
{
    if replies.len() == 0 {
        0
    } else {
        (if fails_attempt(session, replies[0]) {
            1nat
        } else {
            0
        }) + attempts_failed(session.react(replies[0]).0, replies.drop_first())
    }
}

/// One if the session has taken a change that it has neither read nor given
/// up: it is settling or reading. Zero otherwise.
pub open spec fn in_flight(session: SessionView) -> nat {
    if session.phase is Settling || session.phase is Reading {
        1
    } else {
        0
    }
}

/// Whether the session is inside the loop: the watch is set up and the
/// session has not stopped.
pub open spec fn in_loop(session: SessionView) -> bool {
    session.phase is Waiting || session.phase is Settling || session.phase is Reading
        || session.phase is Automating
}

/// Every change signal that a session takes is accounted for: it has led to
/// exactly one attempt at the automation, or its read has failed, or it is
/// still on its way to the read. No attempt is started without a change.
pub proof fn each_change_is_attempted_once(session: SessionView, replies: Seq<ReplyView>)
    ensures
        changes_taken(session, replies) + in_flight(session) == attempts_started(session, replies)
            + reads_failed(session, replies) + in_flight(run(session, replies)),
    decreases replies.len(),
{
    if replies.len() > 0 {
        each_change_is_attempted_once(session.react(replies[0]).0, replies.drop_first());
    }
}

/// From its launch on, a session never starts more attempts than it has taken
/// change signals: signals that coalesce before they are taken lead to fewer
/// attempts, never to more.
pub proof fn attempts_never_exceed_changes(args: Seq<Seq<char>>, replies: Seq<ReplyView>)
    requires
        launched(args) is Ok,
    ensures
        attempts_started(launched(args)->Ok_0, replies) <= changes_taken(
            launched(args)->Ok_0,
            replies,
        ),
{
    each_change_is_attempted_once(launched(args)->Ok_0, replies);
}

/// A single change signal, taken by a waiting session whose file can be read,
/// starts exactly one attempt, on the text that was read.
pub proof fn one_change_one_attempt(session: SessionView, text: Seq<char>)
    requires
        session.phase is Waiting,
    ensures
        ({
            let replies = seq![
                ReplyView::Changed,
                ReplyView::Settled,
                ReplyView::Contents { text },
            ];
            &&& changes_taken(session, replies) == 1
            &&& attempts_started(session, replies) == 1
            &&& run(session, replies) == session.at(PhaseView::Automating { text })
            &&& run(session, replies).request() == RequestView::Automate { text }
        }),
{
    let replies = seq![ReplyView::Changed, ReplyView::Settled, ReplyView::Contents { text }];
    let two = replies.drop_first();
    let one = two.drop_first();
    assert(two[0] == ReplyView::Settled && one[0] == (ReplyView::Contents { text }));
    assert(one.drop_first().len() == 0);
    reveal_with_fuel(run, 4);
    reveal_with_fuel(changes_taken, 4);
    reveal_with_fuel(attempts_started, 4);
}

/// A failed attempt is reported and leaves the session waiting for the next
/// change.
pub proof fn failed_attempt_is_reported(session: SessionView, error: AutomationErrorView)
    requires
        session.phase is Automating,
    ensures
        session.react(ReplyView::Automated { result: Err(error) }) == (
            session.at(PhaseView::Waiting),
            Some(ReportView::AutomationFailed { error }),
        ),
{
}

/// After a failed attempt the next change still starts a new attempt.
pub proof fn next_change_after_failure_is_attempted(
    session: SessionView,
    error: AutomationErrorView,
    text: Seq<char>,
)
    requires
        session.phase is Automating,
    ensures
        ({
            let failed = session.react(ReplyView::Automated { result: Err(error) }).0;
            let replies = seq![
                ReplyView::Changed,
                ReplyView::Settled,
                ReplyView::Contents { text },
            ];
            &&& attempts_started(failed, replies) == 1
            &&& run(failed, replies).request() == RequestView::Automate { text }
        }),
{
    one_change_one_attempt(session.at(PhaseView::Waiting), text);
}

/// A file that cannot be read after a change is reported, with its path and
/// the cause, and leaves the session waiting for the next change.
pub proof fn unreadable_file_is_reported(session: SessionView, cause: Seq<char>)
    requires
        session.phase is Reading,
    ensures
        session.react(ReplyView::Unreadable { cause }) == (
            session.at(PhaseView::Waiting),
            Some(ReportView::ReadFailed { path: session.path, cause }),
        ),
{
}

/// Inside the loop a single reply stops the session only if it is the end of
/// the change signals, taken while waiting; after any other reply the session
/// is still inside the loop.
pub proof fn only_the_end_of_signals_stops_the_loop(session: SessionView, reply: ReplyView)
    requires
        in_loop(session),
    ensures
        session.react(reply).0.phase is Stopped <==> session.phase is Waiting && reply is Closed,
        !(session.react(reply).0.phase is Stopped) ==> in_loop(session.react(reply).0),
        session.react(reply).0.phase is Stopped ==> session.react(reply).0.phase
            == (PhaseView::Stopped { status: Ok(()) }),
{
}

/// A session inside the loop stays inside it through any replies among which
/// none is the end of the change signals: failed reads and failed attempts do
/// not end it.
pub proof fn loop_survives_failures(session: SessionView, replies: Seq<ReplyView>)
    requires
        in_loop(session),
        forall|i: int| 0 <= i < replies.len() ==> !(replies[i] is Closed),
    ensures
        in_loop(run(session, replies)),
    decreases replies.len(),
{
    if replies.len() > 0 {
        let rest = replies.drop_first();
        assert forall|i: int| 0 <= i < rest.len() implies !(rest[i] is Closed) by {
            assert(rest[i] == replies[i + 1]);
        }
        loop_survives_failures(session.react(replies[0]).0, rest);
    }
}

/// Each failure inside the loop is reported once, and nothing else is: the
/// reports are as many as the failed reads and the failed attempts together.
pub proof fn reports_are_the_failures(session: SessionView, replies: Seq<ReplyView>)
    ensures
        reports(session, replies).len() == reads_failed(session, replies) + attempts_failed(
            session,
            replies,
        ),
    decreases replies.len(),
{
    if replies.len() > 0 {
        reports_are_the_failures(session.react(replies[0]).0, replies.drop_first());
    }
}

/// The text handed to the automation is the text that the read gave, and the
/// automation types that text: the contents of the file, as of that read,
/// reach the input unchanged.
pub proof fn pasted_text_is_what_was_read(session: SessionView, text: Seq<char>)
    requires
        session.phase is Reading,
    ensures
        session.react(ReplyView::Contents { text }).0.request() == (RequestView::Automate {
            text,
        }),
        script(text)[Stage::EnterText.ordinal() as int] == (CommandView::EnterText { text }),
{
}

/// The file is read only once the settle delay has passed, and the delay
/// starts only with a change signal taken while waiting: a reply moves a
/// session into reading only from settling, by `Settled`, and into settling
/// only from waiting, by `Changed`. The delay asked for is always the same.
pub proof fn read_follows_the_settle_delay(session: SessionView, reply: ReplyView)
    ensures
        !(session.phase is Reading) && session.react(reply).0.phase is Reading ==> session.phase
            is Settling && reply is Settled,
        !(session.phase is Settling) && session.react(reply).0.phase is Settling
            ==> session.phase is Waiting && reply is Changed,
        session.phase is Settling ==> session.request() == (RequestView::Settle {
            millis: SETTLE_MILLIS,
        }),
{
}

/// An attempt starts only on a read: a reply moves a session into running the
/// automation only from reading, by the contents that were read, and the
/// attempt runs on exactly those contents.
pub proof fn attempt_starts_only_on_a_read(session: SessionView, reply: ReplyView)
    ensures
        !(session.phase is Automating) && session.react(reply).0.phase is Automating ==> {
            &&& session.phase is Reading
            &&& reply is Contents
            &&& session.react(reply).0.request() == (RequestView::Automate { text: reply->text })
        },
{
}

/// One run at a time: while the automation runs, the session takes nothing but
/// the automation's result. Every other reply, a change signal among them,
/// leaves it as it is, so no second attempt starts before the first is over.
pub proof fn one_run_at_a_time(session: SessionView, reply: ReplyView)
    requires
        session.phase is Automating,
    ensures
        !(reply is Automated) ==> session.react(reply) == (session, None::<ReportView>),
        reply is Automated ==> session.react(reply).0 == session.at(PhaseView::Waiting),
{
}

/// A command line without a path launches nothing: the usage error comes
/// back, the exit code for it is not zero, and there is no session that
/// could ask for a watcher.
pub proof fn missing_path_launches_nothing(args: Seq<Seq<char>>)
    requires
        args.len() < 2,
    ensures
        launched(args) == Err::<SessionView, StartupErrorView>(StartupErrorView::MissingPath),
        exit_code_of(Err(StartupErrorView::MissingPath)) != 0,
{
}

/// A session watches the same file all its life, and once stopped it stays
/// stopped with the same status.
pub proof fn path_and_stop_are_final(session: SessionView, replies: Seq<ReplyView>)
    ensures
        run(session, replies).path == session.path,
        session.phase is Stopped ==> run(session, replies) == session,
    decreases replies.len(),
{
    if replies.len() > 0 {
        path_and_stop_are_final(session.react(replies[0]).0, replies.drop_first());
    }
}

} // verus!
