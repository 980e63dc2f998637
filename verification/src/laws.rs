//! What holds of every run, whatever the collaborators, the user and the
//! monitor do.
//!
//! A run is replayed over a sequence of inputs. Each input is one event,
//! together with what happened around it: whether the user asked to cancel
//! before it, and whether the monitor still listened.

use crate::cancel::CancelStatus;
use crate::counter::lemma_recorded_times;
use crate::model::{delivered, stage_total, step, Action, EventView, OutcomeView, RunState, RunView};
use crate::stage::{lemma_plan_order, plan, plan_for, planned, position, Goal, Stage};
use crate::taskstatus::ProgressMessage;
use vstd::prelude::*;

verus! {

/// One event and its circumstances.
pub struct Input {
    /// Whether the user asked to cancel since the event before.
    pub cancel: bool,
    /// Whether the monitor listens while the event is handled.
    pub open: bool,
    pub event: EventView,
}

/// A run together with its history.
pub struct Trace {
    pub run: RunView,
    pub token: CancelStatus,
    /// Every message sent so far, oldest first.
    pub emitted: Seq<ProgressMessage>,
    /// The stages whose collaborators were invoked so far, in that order.
    pub invoked: Seq<Stage>,
}

/// The history of a run that has just been set up.
pub open spec fn begin(run: RunView, token: CancelStatus) -> Trace {
    Trace { run, token, emitted: Seq::empty(), invoked: Seq::empty() }
}

/// The token as a step finds it.
pub open spec fn seen(token: CancelStatus, cancel: bool) -> CancelStatus {
    if cancel {
        CancelStatus::CancelRequested
    } else {
        token
    }
}

/// The history after one more input.
pub open spec fn advance(trace: Trace, input: Input) -> Trace {
    let s = step(trace.run, seen(trace.token, input.cancel), input.open, input.event);
    Trace {
        run: s.run,
        token: s.token,
        emitted: trace.emitted + s.emitted,
        invoked: match s.action {
            Action::Invoke(stage) => trace.invoked.push(stage),
            _ => trace.invoked,
        },
    }
}

/// The history after all of `inputs`.
pub open spec fn replay(trace: Trace, inputs: Seq<Input>) -> Trace
    decreases inputs.len(),
{
    if inputs.len() == 0 {
        trace
    } else {
        advance(replay(trace, inputs.drop_last()), inputs.last())
    }
}

/// The history of the run `start`, which has not started, after all of
/// `inputs`.
pub open spec fn history(start: RunView, token: CancelStatus, inputs: Seq<Input>) -> Trace {
    replay(begin(start, token), inputs)
}

/// The number of stages in the plan of `run`.
pub open spec fn plan_len(run: RunView) -> int {
    position(run.goal.last_stage(), run.limb_correction) + 1
}

/// The stages were invoked in the order of the plan, none skipped and none
/// repeated, and the run stands where that history puts it.
pub open spec fn in_order(trace: Trace) -> bool {
    let ld = trace.run.limb_correction;
    let n = trace.invoked.len() as int;
    &&& n <= plan_len(trace.run)
    &&& forall|i: int|
        0 <= i < n ==> planned(#[trigger] trace.invoked[i], ld) && position(trace.invoked[i], ld)
            == i
    &&& match trace.run.state {
        RunState::Init => n == 0,
        RunState::Running(stage) => {
            &&& planned(stage, ld)
            &&& n == position(stage, ld) + 1
            &&& trace.run.counter.total == stage_total(stage, trace.run.frames)
            &&& position(stage, ld) >= position(Stage::Stacking, ld) ==> trace.run.frames > 0
        },
        RunState::Finished(outcome) => match outcome {
            OutcomeView::Done => n == plan_len(trace.run),
            OutcomeView::SaveFailed { path, .. } => n == plan_len(trace.run) && path
                == trace.run.output_path && trace.run.goal == Goal::StackedImage,
            OutcomeView::StageFailed { stage, .. } => planned(stage, ld) && stage != Stage::Save
                && n == position(stage, ld) + 1,
            OutcomeView::NoFramesSurvived => trace.run.frames == 0 && (n == position(
                Stage::FrameLimiting,
                ld,
            ) + 1 || n == position(Stage::RotationAnalysis, ld) + 1),
            OutcomeView::Cancelled => n <= position(Stage::Save, ld),
            OutcomeView::ChannelClosed => n <= position(Stage::Save, ld),
            OutcomeView::InvalidParameters => false,
        },
    }
}

/// Only the last message of a run can be the idle one, and it is sent only
/// by the step that ends the run.
pub open spec fn idle_closes(trace: Trace) -> bool {
    &&& forall|i: int| 0 <= i < trace.emitted.len() - 1 ==> #[trigger] trace.emitted[i] is Working
    &&& trace.run.state !is Finished ==> forall|i: int|
        0 <= i < trace.emitted.len() ==> #[trigger] trace.emitted[i] is Working
}

/// A run that has ended has sent the idle message last, and did not end for
/// want of a monitor.
pub open spec fn idle_ends(trace: Trace) -> bool {
    trace.run.state matches RunState::Finished(outcome) ==> {
        &&& outcome !is ChannelClosed
        &&& trace.emitted.len() > 0
        &&& trace.emitted.last() is Idle
    }
}

/// Whether the monitor listens throughout `inputs`.
pub open spec fn all_open(inputs: Seq<Input>) -> bool {
    forall|i: int| 0 <= i < inputs.len() ==> (#[trigger] inputs[i]).open
}

/// The inputs of `n` callbacks in a row with no cancellation and a listening
/// monitor.
pub open spec fn callbacks(n: nat) -> Seq<Input> {
    Seq::new(n, |i: int| Input { cancel: false, open: true, event: EventView::FrameProcessed })
}

proof fn lemma_advance_in_order(trace: Trace, input: Input)
    requires
        in_order(trace),
    ensures
        in_order(advance(trace, input)),
        advance(trace, input).run.output_path == trace.run.output_path,
        advance(trace, input).run.limb_correction == trace.run.limb_correction,
        advance(trace, input).run.decorrelated_colors == trace.run.decorrelated_colors,
        advance(trace, input).run.goal == trace.run.goal,
{
    let ld = trace.run.limb_correction;
    let after = advance(trace, input);
    lemma_plan_order(trace.run.goal.last_stage(), ld);
    match trace.run.state {
        RunState::Running(stage) => {
            lemma_plan_order(stage, ld);
        },
        _ => {},
    }
    assert forall|i: int| 0 <= i < after.invoked.len() implies planned(
        #[trigger] after.invoked[i],
        ld,
    ) && position(after.invoked[i], ld) == i by {
        if i < trace.invoked.len() {
            assert(after.invoked[i] == trace.invoked[i]);
        }
    }
}

proof fn lemma_advance_idle_closes(trace: Trace, input: Input)
    requires
        idle_closes(trace),
    ensures
        idle_closes(advance(trace, input)),
        (input.open && idle_ends(trace)) ==> idle_ends(advance(trace, input)),
{
    let s = step(trace.run, seen(trace.token, input.cancel), input.open, input.event);
    let after = advance(trace, input);
    if trace.run.state is Finished {
        assert(after.emitted =~= trace.emitted);
    } else {
        assert forall|i: int| 0 <= i < after.emitted.len() - 1 implies #[trigger] after.emitted[i]
            is Working by {
            if i >= trace.emitted.len() {
                assert(after.emitted[i] == s.emitted[i - trace.emitted.len()]);
            }
        }
        if after.run.state !is Finished {
            assert forall|i: int| 0 <= i < after.emitted.len() implies #[trigger] after.emitted[i]
                is Working by {
                if i >= trace.emitted.len() {
                    assert(after.emitted[i] == s.emitted[i - trace.emitted.len()]);
                }
            }
        } else if input.open {
            assert(after.emitted.last() == s.emitted.last());
        }
    }
}

proof fn lemma_history_in_order(start: RunView, token: CancelStatus, inputs: Seq<Input>)
    requires
        start.state is Init,
    ensures
        in_order(history(start, token, inputs)),
        history(start, token, inputs).run.output_path == start.output_path,
        history(start, token, inputs).run.limb_correction == start.limb_correction,
        history(start, token, inputs).run.decorrelated_colors == start.decorrelated_colors,
        history(start, token, inputs).run.goal == start.goal,
    decreases inputs.len(),
{
    lemma_plan_order(start.goal.last_stage(), start.limb_correction);
    if inputs.len() > 0 {
        lemma_history_in_order(start, token, inputs.drop_last());
        lemma_advance_in_order(history(start, token, inputs.drop_last()), inputs.last());
    }
}

proof fn lemma_never_invoked(trace: Trace, stage: Stage)
    requires
        in_order(trace),
        planned(stage, trace.run.limb_correction),
        trace.invoked.len() <= position(stage, trace.run.limb_correction),
    ensures
        !trace.invoked.contains(stage),
{
    if trace.invoked.contains(stage) {
        let i = choose|i: int| 0 <= i < trace.invoked.len() && trace.invoked[i] == stage;
        assert(position(trace.invoked[i], trace.run.limb_correction) == i);
    }
}

proof fn lemma_whole_plan(trace: Trace)
    requires
        in_order(trace),
        trace.invoked.len() == plan_len(trace.run),
    ensures
        trace.invoked == plan_for(trace.run.limb_correction, trace.run.goal),
        trace.invoked.contains(trace.run.goal.last_stage()),
        trace.run.goal == Goal::StackedImage ==> trace.invoked == plan(trace.run.limb_correction),
{
    let ld = trace.run.limb_correction;
    let goal = trace.run.goal;
    lemma_plan_order(goal.last_stage(), ld);
    lemma_plan_order(Stage::Save, ld);
    assert forall|i: int| 0 <= i < trace.invoked.len() implies #[trigger] trace.invoked[i]
        == plan(ld)[i] by {
        lemma_plan_order(trace.invoked[i], ld);
    }
    assert(trace.invoked =~= plan_for(ld, goal));
    assert(trace.invoked[trace.invoked.len() - 1] == goal.last_stage());
    if goal == Goal::StackedImage {
        assert(plan_for(ld, goal) =~= plan(ld));
    }
}

/// The orchestrator never requests a cancellation and never leaves the token
/// marked as cancelled. It changes the token in one place only: the step
/// that ends a run in success or in an honoured cancellation puts it back to
/// normal. While a run executes, the token is the user's.
pub proof fn lemma_token_is_reset_at_the_end(
    run: RunView,
    token: CancelStatus,
    open: bool,
    event: EventView,
)
    ensures
        ({
            let s = step(run, token, open, event);
            &&& s.token == token || s.token == CancelStatus::NoStatus
            &&& s.token != token ==> run.state !is Finished && (s.run.state matches RunState::Finished(
                outcome,
            ) && outcome.resets_token())
            &&& s.run.state == RunState::Finished(OutcomeView::Cancelled) && run.state
                !is Finished ==> token == CancelStatus::CancelRequested && s.token
                == CancelStatus::NoStatus
        }),
{
}

/// A run that has ended stays as it is: whatever comes after, it sends
/// nothing, invokes nothing and keeps its outcome.
pub proof fn lemma_finished_is_final(trace: Trace, inputs: Seq<Input>)
    requires
        trace.run.state is Finished,
    ensures
        replay(trace, inputs).run == trace.run,
        replay(trace, inputs).emitted == trace.emitted,
        replay(trace, inputs).invoked == trace.invoked,
    decreases inputs.len(),
{
    if inputs.len() > 0 {
        lemma_finished_is_final(trace, inputs.drop_last());
        let before = replay(trace, inputs.drop_last());
        assert(advance(before, inputs.last()).emitted =~= before.emitted);
    }
}

/// The stages of every run are executed strictly in the order of its plan:
/// at any moment the collaborators invoked so far are the first stages of
/// the plan, one each. The settings of a run never change.
pub proof fn lemma_stages_in_order(start: RunView, token: CancelStatus, inputs: Seq<Input>)
    requires
        start.state is Init,
    ensures
        ({
            let trace = history(start, token, inputs);
            let whole = plan_for(start.limb_correction, start.goal);
            &&& trace.run.output_path == start.output_path
            &&& trace.run.limb_correction == start.limb_correction
            &&& trace.run.decorrelated_colors == start.decorrelated_colors
            &&& trace.run.goal == start.goal
            &&& trace.invoked.len() <= whole.len()
            &&& trace.invoked == whole.take(trace.invoked.len() as int)
            &&& trace.run.state matches RunState::Running(stage) ==> trace.invoked.len() > 0
                && trace.invoked.last() == stage
        }),
{
    let trace = history(start, token, inputs);
    let ld = start.limb_correction;
    let whole = plan_for(ld, start.goal);
    lemma_history_in_order(start, token, inputs);
    lemma_plan_order(Stage::Save, ld);
    lemma_plan_order(start.goal.last_stage(), ld);
    assert forall|i: int| 0 <= i < trace.invoked.len() implies #[trigger] trace.invoked[i]
        == whole[i] by {
        lemma_plan_order(trace.invoked[i], ld);
    }
    assert(trace.invoked =~= whole.take(trace.invoked.len() as int));
}

/// What the outcome of a run says of the stages that were executed.
///
/// A run that is done has executed its whole plan. A save that failed was
/// invoked after every other stage. The save was invoked exactly in the runs
/// that are saving, that are done with a stacked image, or whose save failed:
/// never in a cancelled run, in one whose stage failed, in one without
/// surviving frames or in one that lost its monitor. A run without surviving
/// frames has never invoked the stacking, and the stacking never runs on an
/// empty set of frames. No run ends for invalid parameters.
pub proof fn lemma_outcome_and_stages(start: RunView, token: CancelStatus, inputs: Seq<Input>)
    requires
        start.state is Init,
    ensures
        ({
            let trace = history(start, token, inputs);
            let ld = start.limb_correction;
            &&& trace.run.state != RunState::Finished(OutcomeView::InvalidParameters)
            &&& trace.run.state == RunState::Finished(OutcomeView::Done) ==> trace.invoked
                == plan_for(ld, start.goal)
            &&& trace.run.state matches RunState::Finished(OutcomeView::SaveFailed { path, .. })
                ==> trace.invoked == plan(ld) && path == start.output_path && start.goal
                == Goal::StackedImage
            &&& trace.invoked.contains(Stage::Save) <==> (trace.run.state == RunState::Running(
                Stage::Save,
            ) || (trace.run.state == RunState::Finished(OutcomeView::Done) && start.goal
                == Goal::StackedImage) || (trace.run.state matches RunState::Finished(outcome)
                && outcome is SaveFailed))
            &&& trace.run.state == RunState::Finished(OutcomeView::NoFramesSurvived)
                ==> !trace.invoked.contains(Stage::Stacking)
            &&& trace.run.state == RunState::Running(Stage::Stacking) ==> trace.run.frames > 0
        }),
{
    let trace = history(start, token, inputs);
    let ld = start.limb_correction;
    lemma_history_in_order(start, token, inputs);
    lemma_plan_order(Stage::Save, ld);
    lemma_plan_order(Stage::Stacking, ld);
    lemma_plan_order(start.goal.last_stage(), ld);
    let n = trace.invoked.len() as int;
    if n == plan_len(trace.run) {
        lemma_whole_plan(trace);
    }
    if n <= position(Stage::Save, ld) {
        lemma_never_invoked(trace, Stage::Save);
    }
    if n <= position(Stage::Stacking, ld) {
        lemma_never_invoked(trace, Stage::Stacking);
    }
    match trace.run.state {
        RunState::Running(stage) => {
            lemma_plan_order(stage, ld);
            if stage == Stage::Save {
                assert(trace.invoked[n - 1] == Stage::Save);
            }
        },
        RunState::Finished(OutcomeView::StageFailed { stage, .. }) => {
            lemma_plan_order(stage, ld);
        },
        _ => {},
    }
}

/// Every run sends the idle message at most once, as its last message and
/// in the step that ends it. While the monitor listens, a run that has ended
/// has sent it exactly once, so that the monitor always returns to its idle
/// state, and no run ends for want of a monitor.
pub proof fn lemma_one_idle(start: RunView, token: CancelStatus, inputs: Seq<Input>)
    requires
        start.state is Init,
    ensures
        idle_closes(history(start, token, inputs)),
        all_open(inputs) ==> idle_ends(history(start, token, inputs)),
    decreases inputs.len(),
{
    if inputs.len() > 0 {
        lemma_one_idle(start, token, inputs.drop_last());
        lemma_advance_idle_closes(history(start, token, inputs.drop_last()), inputs.last());
        if all_open(inputs) {
            assert(inputs.last().open);
            assert forall|i: int| 0 <= i < inputs.drop_last().len() implies (
            #[trigger] inputs.drop_last()[i]).open by {
                assert(inputs.drop_last()[i] == inputs[i]);
            }
        }
    }
}

/// A cancellation requested before the run starts ends it as cancelled at
/// the first step: no stage is executed then or ever after, the only message
/// is the idle one, and the token is back to normal.
pub proof fn lemma_cancel_before_start(
    start: RunView,
    token: CancelStatus,
    open: bool,
    rest: Seq<Input>,
)
    requires
        start.state is Init,
    ensures
        ({
            let first = Input { cancel: true, open, event: EventView::Start };
            let ended = advance(begin(start, token), first);
            let last = replay(ended, rest);
            &&& ended.run.state == RunState::Finished(OutcomeView::Cancelled)
            &&& ended.token == CancelStatus::NoStatus
            &&& last.run.state == RunState::Finished(OutcomeView::Cancelled)
            &&& last.invoked == Seq::<Stage>::empty()
            &&& last.emitted == delivered(open, seq![ProgressMessage::Idle])
        }),
{
    let first = Input { cancel: true, open, event: EventView::Start };
    let ended = advance(begin(start, token), first);
    assert(ended.emitted =~= delivered(open, seq![ProgressMessage::Idle]));
    lemma_finished_is_final(ended, rest);
}

/// A cancellation requested while a stage counts its frames ends the run as
/// cancelled at the next callback: that frame is still counted and reported,
/// then the idle message follows and the token is back to normal. No stage is
/// invoked after, and the save was not invoked before: nothing is written.
pub proof fn lemma_cancel_mid_stage(
    start: RunView,
    token: CancelStatus,
    inputs: Seq<Input>,
    stage: Stage,
    rest: Seq<Input>,
)
    requires
        start.state is Init,
        history(start, token, inputs).run.state == RunState::Running(stage),
        stage.counts_frames(),
    ensures
        ({
            let trace = history(start, token, inputs);
            let callback = Input { cancel: true, open: true, event: EventView::FrameProcessed };
            let ended = advance(trace, callback);
            let last = replay(ended, rest);
            &&& ended.run.state == RunState::Finished(OutcomeView::Cancelled)
            &&& ended.run.counter == trace.run.counter.recorded()
            &&& ended.token == CancelStatus::NoStatus
            &&& ended.emitted == trace.emitted.push(
                trace.run.counter.recorded().report(stage.label()),
            ).push(ProgressMessage::Idle)
            &&& last.run.state == RunState::Finished(OutcomeView::Cancelled)
            &&& last.emitted == ended.emitted
            &&& last.invoked == trace.invoked
            &&& !last.invoked.contains(Stage::Save)
        }),
{
    let trace = history(start, token, inputs);
    let callback = Input { cancel: true, open: true, event: EventView::FrameProcessed };
    let ended = advance(trace, callback);
    lemma_history_in_order(start, token, inputs);
    assert(ended.emitted =~= trace.emitted.push(
        trace.run.counter.recorded().report(stage.label()),
    ).push(ProgressMessage::Idle));
    lemma_finished_is_final(ended, rest);
    lemma_plan_order(Stage::Save, trace.run.limb_correction);
    lemma_never_invoked(trace, Stage::Save);
}

/// When the frame limiting leaves no frame, the run ends at once without
/// surviving frames. The stacking is not invoked then or ever after, nor was
/// it before.
pub proof fn lemma_no_frames_survived(
    start: RunView,
    token: CancelStatus,
    inputs: Seq<Input>,
    cancel: bool,
    open: bool,
    rest: Seq<Input>,
)
    requires
        start.state is Init,
        history(start, token, inputs).run.state == RunState::Running(Stage::FrameLimiting),
    ensures
        ({
            let trace = history(start, token, inputs);
            let emptied = Input { cancel, open, event: EventView::StageSucceeded { items: 0 } };
            let ended = advance(trace, emptied);
            let last = replay(ended, rest);
            &&& ended.run.state == RunState::Finished(OutcomeView::NoFramesSurvived)
            &&& ended.run.frames == 0
            &&& ended.emitted == trace.emitted + delivered(open, seq![ProgressMessage::Idle])
            &&& last.run.state == RunState::Finished(OutcomeView::NoFramesSurvived)
            &&& last.emitted == ended.emitted
            &&& last.invoked == trace.invoked
            &&& !last.invoked.contains(Stage::Stacking)
        }),
{
    let trace = history(start, token, inputs);
    let emptied = Input { cancel, open, event: EventView::StageSucceeded { items: 0 } };
    let ended = advance(trace, emptied);
    lemma_history_in_order(start, token, inputs);
    assert(ended.emitted =~= trace.emitted + delivered(open, seq![ProgressMessage::Idle]));
    lemma_finished_is_final(ended, rest);
    lemma_plan_order(Stage::Stacking, trace.run.limb_correction);
    lemma_never_invoked(trace, Stage::Stacking);
}

/// A failure of the save, which runs only after every other stage was
/// invoked and has returned, ends the run as a failed save with the output
/// path and the cause, never as a failed stage. A failure of any other stage
/// ends it as a failed stage with that stage and the cause, and the save was
/// never invoked. Either way the idle message is sent and the token stays.
pub proof fn lemma_failure_outcomes(
    start: RunView,
    token: CancelStatus,
    inputs: Seq<Input>,
    stage: Stage,
    cause: Seq<char>,
    cancel: bool,
    open: bool,
)
    requires
        start.state is Init,
        history(start, token, inputs).run.state == RunState::Running(stage),
    ensures
        ({
            let trace = history(start, token, inputs);
            let failed = Input { cancel, open, event: EventView::StageFailed { cause } };
            let ended = advance(trace, failed);
            &&& stage == Stage::Save ==> {
                &&& ended.run.state == RunState::Finished(
                    OutcomeView::SaveFailed { path: start.output_path, cause },
                )
                &&& trace.invoked == plan(start.limb_correction)
                &&& start.goal == Goal::StackedImage
            }
            &&& stage != Stage::Save ==> {
                &&& ended.run.state == RunState::Finished(
                    OutcomeView::StageFailed { stage, cause },
                )
                &&& !trace.invoked.contains(Stage::Save)
            }
            &&& ended.token == seen(trace.token, cancel)
            &&& ended.invoked == trace.invoked
            &&& ended.emitted == trace.emitted + delivered(open, seq![ProgressMessage::Idle])
        }),
{
    let trace = history(start, token, inputs);
    let ld = trace.run.limb_correction;
    let failed = Input { cancel, open, event: EventView::StageFailed { cause } };
    let ended = advance(trace, failed);
    lemma_history_in_order(start, token, inputs);
    assert(ended.emitted =~= trace.emitted + delivered(open, seq![ProgressMessage::Idle]));
    lemma_plan_order(stage, ld);
    lemma_plan_order(Stage::Save, ld);
    lemma_plan_order(trace.run.goal.last_stage(), ld);
    if stage == Stage::Save {
        lemma_whole_plan(trace);
    } else {
        lemma_never_invoked(trace, Stage::Save);
    }
}

/// A stage that counts frames and is fed `n` of them, with no cancellation
/// pending, sends exactly the counts that its counter reports, one per frame
/// and each one more than the last, stays at work, and invokes nothing.
pub proof fn lemma_stage_counts_frames(trace: Trace, stage: Stage, n: nat)
    requires
        trace.run.state == RunState::Running(stage),
        stage.counts_frames(),
        trace.token != CancelStatus::CancelRequested,
    ensures
        ({
            let fed = replay(trace, callbacks(n));
            &&& fed.run.state == RunState::Running(stage)
            &&& fed.run.counter == trace.run.counter.recorded_times(n)
            &&& fed.run.counter.completed == trace.run.counter.completed + n
            &&& fed.run.frames == trace.run.frames
            &&& fed.token == trace.token
            &&& fed.invoked == trace.invoked
            &&& fed.emitted == trace.emitted + trace.run.counter.reports(stage.label(), n)
        }),
    decreases n,
{
    lemma_recorded_times(trace.run.counter, stage.label(), n);
    if n == 0 {
        assert(callbacks(n) =~= Seq::<Input>::empty());
        assert(trace.emitted =~= trace.emitted + trace.run.counter.reports(stage.label(), n));
    } else {
        let m = (n - 1) as nat;
        lemma_stage_counts_frames(trace, stage, m);
        assert(callbacks(n).drop_last() =~= callbacks(m));
        let before = replay(trace, callbacks(m));
        let fed = replay(trace, callbacks(n));
        assert(fed == advance(before, callbacks(n).last()));
        assert(fed.emitted =~= trace.emitted + trace.run.counter.reports(stage.label(), n));
    }
}

/// A stage that counts frames starts from zero: when it has just been
/// invoked on a set of `total` frames and is fed `n` of them, the counts it
/// reports are exactly 1, 2, ..., `n` of `total`, and its counter ends at `n`.
pub proof fn lemma_stage_counts_from_one(
    start: RunView,
    token: CancelStatus,
    inputs: Seq<Input>,
    next: Input,
    stage: Stage,
    n: nat,
)
    requires
        start.state is Init,
        step(
            history(start, token, inputs).run,
            seen(history(start, token, inputs).token, next.cancel),
            next.open,
            next.event,
        ).action == Action::Invoke(stage),
        stage.counts_frames(),
    ensures
        ({
            let entered = advance(history(start, token, inputs), next);
            let fed = replay(entered, callbacks(n));
            let total = entered.run.frames;
            &&& entered.run.state == RunState::Running(stage)
            &&& fed.run.state == RunState::Running(stage)
            &&& fed.run.counter.completed == n
            &&& fed.emitted.len() == entered.emitted.len() + n
            &&& forall|i: int|
                0 <= i < n ==> #[trigger] fed.emitted[entered.emitted.len() + i] == (
                ProgressMessage::Working {
                    stage_name: stage.label(),
                    total,
                    completed: (i + 1) as nat,
                })
        }),
{
    let entered = advance(history(start, token, inputs), next);
    lemma_stage_counts_frames(entered, stage, n);
    lemma_recorded_times(entered.run.counter, stage.label(), n);
}

} // verus!
