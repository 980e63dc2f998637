//! The pipeline run as a state machine over plain mathematical values.
//!
//! One step takes the run, the cancellation token, whether the monitor still
//! listens, and an event. It gives the run and the token afterwards, the
//! messages sent, and what the caller does next. The executable orchestrator
//! computes exactly this function.

use crate::cancel::CancelStatus;
use crate::counter::CounterState;
use crate::stage::{Goal, Stage};
use crate::taskstatus::ProgressMessage;
use vstd::prelude::*;

verus! {

/// How a run ended.
pub enum OutcomeView {
    /// Every stage of the run's plan ran: the run has reached its goal.
    Done,
    /// The user's cancellation was honoured. Nothing was written.
    Cancelled,
    /// The collaborator of `stage` failed. Nothing was written.
    StageFailed { stage: Stage, cause: Seq<char> },
    /// No frame passed the limits, so there was nothing to stack.
    NoFramesSurvived,
    /// All stages before the save succeeded and writing to `path` failed.
    SaveFailed { path: Seq<char>, cause: Seq<char> },
    /// A required input was missing. No run began.
    InvalidParameters,
    /// The monitor went away while the run still had stages to execute.
    ChannelClosed,
}

impl OutcomeView {
    /// Whether the token is reset when a run ends so: after a success and
    /// after an honoured cancellation.
    pub open spec fn resets_token(self) -> bool {
        self is Done || self is NoFramesSurvived || self is Cancelled
    }
}

/// Where a run stands.
pub enum RunState {
    /// Not started yet.
    Init,
    /// The collaborator of the stage is at work.
    Running(Stage),
    /// Ended. A run that has ended stays as it is.
    Finished(OutcomeView),
}

/// A run of the pipeline.
pub struct RunView {
    /// Where the final image goes.
    pub output_path: Seq<char>,
    /// Whether limb darkening is corrected.
    pub limb_correction: bool,
    /// Whether the colour channels are normalised apart.
    pub decorrelated_colors: bool,
    /// What the run is for.
    pub goal: Goal,
    /// Where the run stands.
    pub state: RunState,
    /// The number of frames in the working set.
    pub frames: nat,
    /// The progress counter of the stage at work.
    pub counter: CounterState,
}

/// What the caller reports to the orchestrator.
pub enum EventView {
    /// The run is to begin.
    Start,
    /// The collaborator at work has called back for one frame.
    FrameProcessed,
    /// The collaborator at work has returned its output, of `items` items.
    StageSucceeded { items: nat },
    /// The collaborator at work has failed.
    StageFailed { cause: Seq<char> },
}

/// What the caller does after a step.
#[derive(Debug, Clone, Copy, PartialEq, Eq, Structural)]
pub enum Action {
    /// Call the collaborator of the stage.
    Invoke(Stage),
    /// Nothing new: go on serving the collaborator at work, if there is one.
    Wait,
    /// The run has ended: report its outcome.
    Finish,
}

/// The result of one step.
pub struct Stepped {
    pub run: RunView,
    pub token: CancelStatus,
    /// The messages that the step sent, oldest first.
    pub emitted: Seq<ProgressMessage>,
    pub action: Action,
}

/// The message that closes a run that has written its image: it reads
/// "Done", one part of one.
pub open spec fn done_message() -> ProgressMessage {
    ProgressMessage::Working { stage_name: "Done"@, total: 1, completed: 1 }
}

/// What reaches the channel of `messages`: all of them while the monitor
/// listens, none once it is gone.
pub open spec fn delivered(open: bool, messages: Seq<ProgressMessage>) -> Seq<ProgressMessage> {
    if open {
        messages
    } else {
        Seq::empty()
    }
}

/// A new run with the given settings.
pub open spec fn initial(
    output_path: Seq<char>,
    limb_correction: bool,
    decorrelated_colors: bool,
    goal: Goal,
) -> RunView {
    RunView {
        output_path,
        limb_correction,
        decorrelated_colors,
        goal,
        state: RunState::Init,
        frames: 0,
        counter: CounterState::fresh(0),
    }
}

/// A step that changes nothing.
pub open spec fn ignore(run: RunView, token: CancelStatus, action: Action) -> Stepped {
    Stepped { run, token, emitted: Seq::empty(), action }
}

/// Ends the run with `outcome`: sends `last` and then the idle message, and
/// resets the token where the outcome calls for it.
pub open spec fn conclude(
    run: RunView,
    token: CancelStatus,
    open: bool,
    outcome: OutcomeView,
    last: Seq<ProgressMessage>,
) -> Stepped {
    Stepped {
        run: RunView { state: RunState::Finished(outcome), ..run },
        token: if outcome.resets_token() {
            CancelStatus::NoStatus
        } else {
            token
        },
        emitted: delivered(open, last.push(ProgressMessage::Idle)),
        action: Action::Finish,
    }
}

/// Ends the run because the monitor is gone: nothing is sent and the token
/// stays.
pub open spec fn abandon(run: RunView, token: CancelStatus) -> Stepped {
    Stepped {
        run: RunView { state: RunState::Finished(OutcomeView::ChannelClosed), ..run },
        token,
        emitted: Seq::empty(),
        action: Action::Finish,
    }
}

/// The number of parts that `stage` announces when it starts on `frames`
/// frames.
pub open spec fn stage_total(stage: Stage, frames: nat) -> nat {
    if stage.counts_frames() {
        frames
    } else {
        0
    }
}

/// The boundary before `stage`: a requested cancellation is honoured here;
/// otherwise the stage starts with a fresh counter, announces itself with
/// nothing done, and its collaborator is invoked.
pub open spec fn enter(run: RunView, token: CancelStatus, open: bool, stage: Stage) -> Stepped {
    if token == CancelStatus::CancelRequested {
        conclude(run, token, open, OutcomeView::Cancelled, Seq::empty())
    } else if !open {
        abandon(run, token)
    } else {
        let counter = CounterState::fresh(stage_total(stage, run.frames));
        Stepped {
            run: RunView { state: RunState::Running(stage), counter, ..run },
            token,
            emitted: seq![counter.report(stage.label())],
            action: Action::Invoke(stage),
        }
    }
}

/// One callback of a stage that counts frames: the frame is counted and
/// reported, and a requested cancellation is honoured right after.
pub open spec fn frame_processed(
    run: RunView,
    token: CancelStatus,
    open: bool,
    stage: Stage,
) -> Stepped {
    let counted = RunView { counter: run.counter.recorded(), ..run };
    let report = counted.counter.report(stage.label());
    if !open {
        abandon(counted, token)
    } else if token == CancelStatus::CancelRequested {
        conclude(counted, token, open, OutcomeView::Cancelled, seq![report])
    } else {
        Stepped { run: counted, token, emitted: seq![report], action: Action::Wait }
    }
}

/// The stage that follows `stage` in the run, or `None` where the run is done
/// after it.
pub open spec fn following(run: RunView, stage: Stage) -> Option<Stage> {
    if stage == run.goal.last_stage() {
        None
    } else {
        stage.successor(run.limb_correction)
    }
}

/// The messages that close a run that is done after `stage`, before the idle
/// one.
pub open spec fn closing(stage: Stage) -> Seq<ProgressMessage> {
    if stage == Stage::Save {
        seq![done_message()]
    } else {
        Seq::empty()
    }
}

/// The collaborator of `stage` has returned `items` items: the working set is
/// replaced, and the run goes on to the next stage, or ends.
pub open spec fn stage_succeeded(
    run: RunView,
    token: CancelStatus,
    open: bool,
    stage: Stage,
    items: nat,
) -> Stepped {
    let frames = if stage.yields_frames() {
        items
    } else {
        run.frames
    };
    let replaced = RunView { frames, ..run };
    if stage.needs_survivors() && frames == 0 {
        conclude(replaced, token, open, OutcomeView::NoFramesSurvived, Seq::empty())
    } else {
        match following(run, stage) {
            Some(next) => enter(replaced, token, open, next),
            None => conclude(replaced, token, open, OutcomeView::Done, closing(stage)),
        }
    }
}

/// The outcome of a run whose stage `stage` failed with `cause`.
pub open spec fn failure(run: RunView, stage: Stage, cause: Seq<char>) -> OutcomeView {
    if stage == Stage::Save {
        OutcomeView::SaveFailed { path: run.output_path, cause }
    } else {
        OutcomeView::StageFailed { stage, cause }
    }
}

/// One step of the run.
pub open spec fn step(run: RunView, token: CancelStatus, open: bool, event: EventView) -> Stepped {
    match run.state {
        RunState::Finished(_) => ignore(run, token, Action::Finish),
        RunState::Init => match event {
            EventView::Start => enter(run, token, open, Stage::MasterCalibrationBuild),
            _ => ignore(run, token, Action::Wait),
        },
        RunState::Running(stage) => match event {
            EventView::Start => ignore(run, token, Action::Wait),
            EventView::FrameProcessed => if stage.counts_frames() {
                frame_processed(run, token, open, stage)
            } else {
                ignore(run, token, Action::Wait)
            },
            EventView::StageSucceeded { items } => stage_succeeded(run, token, open, stage, items),
            EventView::StageFailed { cause } => conclude(
                run,
                token,
                open,
                failure(run, stage, cause),
                Seq::empty(),
            ),
        },
    }
}

} // verus!
