//! What holds of every run of the automation, whatever the caller reports.
//!
//! A run is followed through a sequence of reported outcomes. Only the number
//! of outcomes that are `Done` before the first failure matters: it fixes the
//! commands that were handed out, in their fixed order and each once, and the
//! result of the run.

use crate::automation::{
    command_for, turn_after, AutomationErrorView, AutomationView, CommandView, OutcomeView, Stage,
    TurnView, STAGES,
};
use vstd::prelude::*;

verus! {

/// A run that pastes `text`, before anything was done.
pub open spec fn fresh(text: Seq<char>) -> AutomationView {
    AutomationView { text, stage: Stage::Attach }
}

/// Where `run` stands after the outcomes `reported`, taken in order. Once the
/// run is over, further outcomes are not looked at.
pub open spec fn after(run: AutomationView, reported: Seq<OutcomeView>) -> TurnView
    decreases reported.len(),
{
    if reported.len() == 0 {
        TurnView::Continue(run)
    } else {
        match turn_after(run, reported[0]) {
            TurnView::Continue(next) => after(next, reported.drop_first()),
            TurnView::Finished(result) => TurnView::Finished(result),
        }
    }
}

/// The commands handed to the caller while `run` is followed through
/// `reported`: the one that is due, then one for each outcome that lets the
/// run go on.
pub open spec fn issued(run: AutomationView, reported: Seq<OutcomeView>) -> Seq<CommandView>
    decreases reported.len(),
{
    let due = seq![command_for(run.stage, run.text)];
    if reported.len() == 0 {
        due
    } else {
        match turn_after(run, reported[0]) {
            TurnView::Continue(next) => due + issued(next, reported.drop_first()),
            TurnView::Finished(_) => due,
        }
    }
}

/// How many outcomes are `Done` before the first failure.
pub open spec fn leading_done(reported: Seq<OutcomeView>) -> nat
    decreases reported.len(),
{
    if reported.len() == 0 || reported[0] is Failed {
        0
    } else {
        1 + leading_done(reported.drop_first())
    }
}

/// How many commands the caller has been handed when `done` outcomes were
/// `Done` before the first failure and `left` stages were open at the start:
/// one more than `done`, and never more than `left`.
pub open spec fn handed_out(done: nat, left: int) -> int {
    if done + 1 <= left {
        done as int + 1
    } else {
        left
    }
}

/// The commands of a complete run that pastes `text`, in order.
pub open spec fn script(text: Seq<char>) -> Seq<CommandView> {
    Seq::new(STAGES as nat, |i: int| command_for(Stage::at(i as nat), text))
}

/// `leading_done` counts a prefix: it is at most the length, every outcome
/// before it is `Done`, and the outcome at it, if there is one, is a failure.
pub proof fn leading_done_is_a_prefix(reported: Seq<OutcomeView>)
    ensures
        leading_done(reported) <= reported.len(),
        forall|i: int| 0 <= i < leading_done(reported) ==> reported[i] is Done,
        leading_done(reported) < reported.len() ==> reported[leading_done(reported) as int] is Failed,
    decreases reported.len(),
{
    if reported.len() == 0 || reported[0] is Failed {
    } else {
        let rest = reported.drop_first();
        leading_done_is_a_prefix(rest);
        assert forall|i: int| 0 <= i < leading_done(reported) implies reported[i] is Done by {
            if i > 0 {
                assert(reported[i] == rest[i - 1]);
            }
        }
        if leading_done(reported) < reported.len() {
            assert(reported[leading_done(reported) as int] == rest[leading_done(rest) as int]);
        }
    }
}

/// A run standing at any stage is decided by the number `d` of outcomes that
/// are `Done` before the first failure, against the number `left` of stages
/// not yet done: with `d >= left` it ends well; with a failure at `d` it ends
/// with the error of the stage `d` places on and that failure's cause;
/// otherwise it is still going, `d` places on. The commands handed out are
/// those of the stages from the present one up to that place, in order.
pub proof fn run_from_any_stage(run: AutomationView, reported: Seq<OutcomeView>)
    ensures
        ({
            let d = leading_done(reported);
            let left = STAGES - run.stage.ordinal();
            let place = Stage::at(run.stage.ordinal() + d);
            &&& after(run, reported) == if d >= left {
                TurnView::Finished(Ok(()))
            } else if d < reported.len() {
                TurnView::Finished(
                    Err(AutomationErrorView { stage: place, cause: reported[d as int]->Failed_0 }),
                )
            } else {
                TurnView::Continue(AutomationView { text: run.text, stage: place })
            }
            &&& issued(run, reported).len() == handed_out(d, left)
            &&& forall|i: int|
                0 <= i < issued(run, reported).len() ==> issued(run, reported)[i] == command_for(
                    Stage::at(run.stage.ordinal() + i as nat),
                    run.text,
                )
        }),
    decreases reported.len(),
{
    if reported.len() == 0 {
    } else {
        match turn_after(run, reported[0]) {
            TurnView::Continue(next) => {
                let rest = reported.drop_first();
                run_from_any_stage(next, rest);
                let d = leading_done(reported);
                if d < reported.len() {
                    assert(reported[d as int] == rest[d - 1]);
                }
                assert forall|i: int| 0 <= i < issued(run, reported).len() implies issued(
                    run,
                    reported,
                )[i] == command_for(Stage::at(run.stage.ordinal() + i as nat), run.text) by {
                    if i > 0 {
                        assert(issued(run, reported)[i] == issued(next, rest)[i - 1]);
                    }
                }
            },
            TurnView::Finished(_) => {},
        }
    }
}

/// A run from its start: after the outcomes `reported`, of which `d` are
/// `Done` before the first failure, the caller has been handed the first
/// `d + 1` commands of the script (all of them once `d` reaches its length),
/// each once and in order, and the run has ended well if every stage was done,
/// has ended with the failed stage and its cause if one failed, and is
/// otherwise waiting for the outcome of the command at place `d`.
pub proof fn run_is_decided_by_leading_done(text: Seq<char>, reported: Seq<OutcomeView>)
    ensures
        ({
            let d = leading_done(reported);
            &&& after(fresh(text), reported) == if d >= STAGES {
                TurnView::Finished(Ok(()))
            } else if d < reported.len() {
                TurnView::Finished(
                    Err(
                        AutomationErrorView {
                            stage: Stage::at(d),
                            cause: reported[d as int]->Failed_0,
                        },
                    ),
                )
            } else {
                TurnView::Continue(AutomationView { text, stage: Stage::at(d) })
            }
            &&& issued(fresh(text), reported) == script(text).take(handed_out(d, STAGES as int))
        }),
{
    run_from_any_stage(fresh(text), reported);
    let d = leading_done(reported);
    assert(issued(fresh(text), reported) =~= script(text).take(handed_out(d, STAGES as int)));
}

/// A run ends well exactly when the first eight outcomes reported are all `Done`.
pub proof fn run_succeeds_iff_every_stage_is_done(text: Seq<char>, reported: Seq<OutcomeView>)
    ensures
        after(fresh(text), reported) == TurnView::Finished(Ok(())) <==> (reported.len() >= STAGES
            && forall|i: int| 0 <= i < STAGES ==> reported[i] is Done),
{
    run_is_decided_by_leading_done(text, reported);
    leading_done_is_a_prefix(reported);
}

/// The first failure ends the run, with the stage at which it came and its
/// cause: nothing is retried and no later stage is attempted.
pub proof fn first_failure_ends_the_run(text: Seq<char>, reported: Seq<OutcomeView>, k: int)
    requires
        0 <= k < reported.len(),
        k < STAGES,
        reported[k] is Failed,
        forall|i: int| 0 <= i < k ==> reported[i] is Done,
    ensures
        after(fresh(text), reported) == TurnView::Finished(
            Err(AutomationErrorView { stage: Stage::at(k as nat), cause: reported[k]->Failed_0 }),
        ),
        issued(fresh(text), reported) == script(text).take(k + 1),
{
    run_is_decided_by_leading_done(text, reported);
    leading_done_is_a_prefix(reported);
}

/// The text typed into the input is the text the run was started with.
pub proof fn typed_text_is_the_payload(text: Seq<char>)
    ensures
        script(text)[Stage::EnterText.ordinal() as int] == (CommandView::EnterText { text }),
        forall|i: int|
            0 <= i < STAGES && script(text)[i] is EnterText ==> i == Stage::EnterText.ordinal(),
{
}

} // verus!
