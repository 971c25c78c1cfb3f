//! What holds between the modifications the watcher delivers and the attempts
//! the session starts, given a channel with one slot.
//!
//! The channel between [`relay`](crate::notifier::relay) and the session is
//! not this crate's: whether it takes a signal is its own answer. The laws
//! here therefore speak of histories that keep the one-slot rule, written
//! down as [`one_slot`], and prove nothing of the channel itself. Of such
//! histories they say that attempts never outnumber modifications, that
//! events of other kinds add none, that a burst leaves one signal, and that
//! a loop that has come to rest has made one attempt for each signal.

use crate::notifier::{relays, Relayed};
use crate::session::{ReplyView, SessionView};
use crate::session_laws::{
    attempts_started, changes_taken, each_change_is_attempted_once, in_flight, reads_failed, run,
    takes_change,
};
use vstd::prelude::*;

verus! {

/// One thing that happens while the program runs.
pub enum Happening {
    /// The watcher delivered `delivered`, and `relay` answered `relayed`.
    Delivered { delivered: Result<notify::Event, notify::Error>, relayed: Relayed },
    /// The caller handed `reply` to the session.
    Replied { reply: ReplyView },
}

impl Happening {
    /// Whether the watcher delivered a modification.
    pub open spec fn is_modification(self) -> bool {
        self matches Happening::Delivered { delivered: Ok(event), .. } && event.kind is Modify
    }

    /// Whether a signal was put into the channel.
    pub open spec fn is_forwarded(self) -> bool {
        self matches Happening::Delivered { relayed, .. } && relayed is Forwarded
    }
}

/// The number of signals that wait in a channel with one slot.
pub open spec fn waiting(pending: bool) -> nat {
    if pending {
        1
    } else {
        0
    }
}

/// The replies among the happenings of `history`, in order.
pub open spec fn replies_of(history: Seq<Happening>) -> Seq<ReplyView>
    decreases history.len(),
{
    if history.len() == 0 {
        Seq::empty()
    } else {
        match history[0] {
            Happening::Replied { reply } => seq![reply] + replies_of(history.drop_first()),
            Happening::Delivered { .. } => replies_of(history.drop_first()),
        }
    }
}

/// How many modifications the watcher delivers in `history`.
pub open spec fn modifications(history: Seq<Happening>) -> nat
    decreases history.len(),
{
    if history.len() == 0 {
        0
    } else {
        (if history[0].is_modification() {
            1nat
        } else {
            0
        }) + modifications(history.drop_first())
    }
}

/// How many signals are put into the channel in `history`.
pub open spec fn forwarded(history: Seq<Happening>) -> nat
    decreases history.len(),
{
    if history.len() == 0 {
        0
    } else {
        (if history[0].is_forwarded() {
            1nat
        } else {
            0
        }) + forwarded(history.drop_first())
    }
}

/// Whether a signal waits in the channel once `happening` is over, given
/// whether one waited before: a forwarded signal waits from then on, and a
/// change that the session takes is the signal that waited.
pub open spec fn pending_then(session: SessionView, pending: bool, happening: Happening) -> bool {
    match happening {
        Happening::Delivered { relayed, .. } => pending || relayed is Forwarded,
        Happening::Replied { reply } => pending && !takes_change(session, reply),
    }
}

/// The session once `happening` is over.
pub open spec fn session_then(session: SessionView, happening: Happening) -> SessionView {
    match happening {
        Happening::Delivered { .. } => session,
        Happening::Replied { reply } => session.react(reply).0,
    }
}

/// Whether a signal waits in the channel after `history`.
pub open spec fn pending_after(session: SessionView, pending: bool, history: Seq<Happening>) -> bool
    decreases history.len(),
{
    if history.len() == 0 {
        pending
    } else {
        pending_after(
            session_then(session, history[0]),
            pending_then(session, pending, history[0]),
            history.drop_first(),
        )
    }
}

/// Whether one happening keeps the one-slot rule: `relay` answers as its
/// contract says; the channel, its consumer being there, takes a signal
/// exactly when none waits and drops it otherwise; and the session is handed
/// a change only when a signal waits.
pub open spec fn keeps_one_slot(session: SessionView, pending: bool, happening: Happening) -> bool {
    match happening {
        Happening::Delivered { delivered, relayed } => {
            &&& relays(delivered, relayed)
            &&& relayed is Forwarded ==> !pending
            &&& relayed is Coalesced ==> pending
        },
        Happening::Replied { reply } => takes_change(session, reply) ==> pending,
    }
}

/// Whether every happening of `history` keeps the one-slot rule, for a
/// session that starts as `session` with a signal waiting or not as
/// `pending` says. This is what the laws below ask of the channel and of the
/// caller; it is not proved of either.
pub open spec fn one_slot(session: SessionView, pending: bool, history: Seq<Happening>) -> bool
    decreases history.len(),
{
    if history.len() == 0 {
        true
    } else {
        keeps_one_slot(session, pending, history[0]) && one_slot(
            session_then(session, history[0]),
            pending_then(session, pending, history[0]),
            history.drop_first(),
        )
    }
}

/// Whether the loop is at rest: the session waits for a change and no signal
/// waits for the session.
pub open spec fn at_rest(session: SessionView, pending: bool) -> bool {
    session.phase is Waiting && !pending
}

/// Counting the changes taken over the replies of `history` unfolds with the
/// history: the first happening counts if it is a change that the session
/// takes, and the rest is counted from the session as it then is.
proof fn changes_unfold(session: SessionView, history: Seq<Happening>)
    requires
        history.len() > 0,
    ensures
        changes_taken(session, replies_of(history)) == changes_taken(
            session_then(session, history[0]),
            replies_of(history.drop_first()),
        ) + (if history[0] matches Happening::Replied { reply } && takes_change(session, reply) {
            1nat
        } else {
            0
        }),
{
    match history[0] {
        Happening::Replied { reply } => {
            let rest = replies_of(history.drop_first());
            assert((seq![reply] + rest).drop_first() =~= rest);
        },
        Happening::Delivered { .. } => {},
    }
}

/// Every signal put into a one-slot channel is accounted for: the session
/// has taken it as a change, or it still waits. None is lost and none is
/// taken twice.
pub proof fn signals_are_accounted_for(session: SessionView, pending: bool, history: Seq<Happening>)
    requires
        one_slot(session, pending, history),
    ensures
        forwarded(history) + waiting(pending) == changes_taken(session, replies_of(history))
            + waiting(pending_after(session, pending, history)),
    decreases history.len(),
{
    if history.len() > 0 {
        changes_unfold(session, history);
        signals_are_accounted_for(
            session_then(session, history[0]),
            pending_then(session, pending, history[0]),
            history.drop_first(),
        );
    }
}

/// Only modifications put signals into the channel, so events of other kinds
/// and watcher errors add none; and once a modification was delivered, a
/// signal was put in or one waited already.
pub proof fn signals_come_from_modifications(
    session: SessionView,
    pending: bool,
    history: Seq<Happening>,
)
    requires
        one_slot(session, pending, history),
    ensures
        forwarded(history) <= modifications(history),
        modifications(history) >= 1 ==> forwarded(history) + waiting(pending) >= 1,
    decreases history.len(),
{
    if history.len() > 0 {
        signals_come_from_modifications(
            session_then(session, history[0]),
            pending_then(session, pending, history[0]),
            history.drop_first(),
        );
    }
}

/// The session never starts more attempts than the watcher has delivered
/// modifications, at whatever pace they come: with a session that waits and an
/// empty channel to start from, every attempt goes back to a modification of
/// its own.
pub proof fn attempts_never_exceed_modifications(session: SessionView, history: Seq<Happening>)
    requires
        session.phase is Waiting,
        one_slot(session, false, history),
    ensures
        attempts_started(session, replies_of(history)) <= modifications(history),
{
    signals_are_accounted_for(session, false, history);
    signals_come_from_modifications(session, false, history);
    each_change_is_attempted_once(session, replies_of(history));
}

/// A loop that has come to rest, and in which every read succeeded, has made
/// exactly one attempt for each signal put into the channel; so it has made at
/// least one if a modification was delivered at all, and no more than there
/// were modifications.
pub proof fn loop_at_rest_has_attempted_each_signal(session: SessionView, history: Seq<Happening>)
    requires
        session.phase is Waiting,
        one_slot(session, false, history),
        reads_failed(session, replies_of(history)) == 0,
        at_rest(run(session, replies_of(history)), pending_after(session, false, history)),
    ensures
        attempts_started(session, replies_of(history)) == forwarded(history),
        attempts_started(session, replies_of(history)) <= modifications(history),
        modifications(history) >= 1 ==> attempts_started(session, replies_of(history)) >= 1,
{
    signals_are_accounted_for(session, false, history);
    signals_come_from_modifications(session, false, history);
    each_change_is_attempted_once(session, replies_of(history));
}

/// A burst leaves one signal: when modifications, one or many, are delivered
/// to an empty channel before the session is handed anything, exactly one
/// signal is put in, and it waits. The others are dropped.
pub proof fn burst_leaves_one_signal(session: SessionView, history: Seq<Happening>)
    requires
        one_slot(session, false, history),
        replies_of(history).len() == 0,
        modifications(history) >= 1,
    ensures
        forwarded(history) == 1,
        pending_after(session, false, history),
{
    signals_are_accounted_for(session, false, history);
    signals_come_from_modifications(session, false, history);
}

/// One waiting signal is one attempt: when a signal waits for a session that
/// waits, no further modification is delivered, every read succeeds and the
/// loop comes to rest, the session has started exactly one attempt.
pub proof fn one_signal_is_one_attempt(session: SessionView, history: Seq<Happening>)
    requires
        session.phase is Waiting,
        one_slot(session, true, history),
        modifications(history) == 0,
        reads_failed(session, replies_of(history)) == 0,
        at_rest(run(session, replies_of(history)), pending_after(session, true, history)),
    ensures
        attempts_started(session, replies_of(history)) == 1,
{
    signals_are_accounted_for(session, true, history);
    signals_come_from_modifications(session, true, history);
    each_change_is_attempted_once(session, replies_of(history));
}

} // verus!
