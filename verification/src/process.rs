//! The pipeline orchestrator.
//!
//! The orchestrator decides; the caller acts. The caller reports each event
//! (the run is to begin, a frame was processed, a collaborator returned or
//! failed) and gets back what to do next. Progress goes to the channel and a
//! requested cancellation is honoured at every stage boundary and after
//! every counted frame.

use crate::cancel::{
    is_cancel_requested, reset_cancel_status, set_task_cancelled, CancelContainer, CancelStatus,
};
use crate::counter::StageProgressCounter;
use crate::model::{
    closing, conclude, enter, failure, frame_processed, initial, stage_succeeded, step, Action,
    EventView, OutcomeView, RunState, RunView,
};
use crate::stage::{Goal, NormalizePolicy, Stage};
use crate::taskstatus::{set_task_completed, set_task_status, ProgressChannel, ProgressMessage};
use vstd::prelude::*;

verus! {

/// How a run ended.
#[derive(Debug, Clone, PartialEq, Eq)]
pub enum Outcome {
    /// Every stage of the run's plan ran: the run has reached its goal.
    Done,
    /// The user's cancellation was honoured. Nothing was written.
    Cancelled,
    /// The collaborator of `stage` failed. Nothing was written.
    StageFailed { stage: Stage, cause: String },
    /// No frame passed the limits, so there was nothing to stack.
    NoFramesSurvived,
    /// All stages before the save succeeded and writing to `path` failed.
    SaveFailed { path: String, cause: String },
    /// A required input was missing. No run began.
    InvalidParameters,
    /// The monitor went away while the run still had stages to execute.
    ChannelClosed,
}

impl View for Outcome {
    type V = OutcomeView;

    open spec fn view(&self) -> OutcomeView {
        match self {
            Outcome::Done => OutcomeView::Done,
            Outcome::Cancelled => OutcomeView::Cancelled,
            Outcome::StageFailed { stage, cause } => OutcomeView::StageFailed {
                stage: *stage,
                cause: cause@,
            },
            Outcome::NoFramesSurvived => OutcomeView::NoFramesSurvived,
            Outcome::SaveFailed { path, cause } => OutcomeView::SaveFailed {
                path: path@,
                cause: cause@,
            },
            Outcome::InvalidParameters => OutcomeView::InvalidParameters,
            Outcome::ChannelClosed => OutcomeView::ChannelClosed,
        }
    }
}

impl Outcome {
    /// Whether the token is reset when a run ends so.
    pub fn resets_token(&self) -> (resets: bool)
        ensures
            resets == self@.resets_token(),
    {
        match self {
            Outcome::Done | Outcome::NoFramesSurvived | Outcome::Cancelled => true,
            _ => false,
        }
    }
}

/// What the caller reports to the orchestrator.
#[derive(Debug, Clone, PartialEq, Eq)]
pub enum StageEvent {
    /// The run is to begin.
    Start,
    /// The collaborator at work has called back for one frame.
    FrameProcessed,
    /// The collaborator at work has returned its output, of `items` items.
    StageSucceeded { items: usize },
    /// The collaborator at work has failed.
    StageFailed { cause: String },
}

impl View for StageEvent {
    type V = EventView;

    open spec fn view(&self) -> EventView {
        match self {
            StageEvent::Start => EventView::Start,
            StageEvent::FrameProcessed => EventView::FrameProcessed,
            StageEvent::StageSucceeded { items } => EventView::StageSucceeded {
                items: *items as nat,
            },
            StageEvent::StageFailed { cause } => EventView::StageFailed { cause: cause@ },
        }
    }
}

/// The settings of one run.
pub struct RunParameters {
    /// The primary input file. A run cannot begin without one.
    pub light: Option<String>,
    /// Where the final image goes.
    pub output_path: String,
    /// Whether limb darkening is corrected.
    pub ld_correction: bool,
    /// Whether the colour channels are normalised apart.
    pub decorrelated_colors: bool,
    /// What the run is for.
    pub goal: Goal,
}

enum Phase {
    Init,
    Running(Stage),
    Finished(Outcome),
}

impl View for Phase {
    type V = RunState;

    closed spec fn view(&self) -> RunState {
        match self {
            Phase::Init => RunState::Init,
            Phase::Running(stage) => RunState::Running(*stage),
            Phase::Finished(outcome) => RunState::Finished(outcome@),
        }
    }
}

/// Sequences the stages of one run.
pub struct Orchestrator {
    output_path: String,
    limb_correction: bool,
    decorrelated_colors: bool,
    goal: Goal,
    phase: Phase,
    frames: usize,
    counter: StageProgressCounter,
}

impl View for Orchestrator {
    type V = RunView;

    closed spec fn view(&self) -> RunView {
        RunView {
            output_path: self.output_path@,
            limb_correction: self.limb_correction,
            decorrelated_colors: self.decorrelated_colors,
            goal: self.goal,
            state: self.phase@,
            frames: self.frames as nat,
            counter: self.counter@,
        }
    }
}

/// Whether a step on `event` stays within what the counter can hold: a frame
/// can be counted only while the count is below the machine's largest number.
pub open spec fn countable(run: RunView, event: EventView) -> bool {
    match run.state {
        RunState::Running(stage) => (event is FrameProcessed && stage.counts_frames())
            ==> run.counter.completed < usize::MAX,
        _ => true,
    }
}

impl Orchestrator {
    /// A run that has not started, or `InvalidParameters` when the settings
    /// name no primary input.
    pub fn new(parameters: RunParameters) -> (created: Result<Orchestrator, Outcome>)
        ensures
            created is Ok <==> parameters.light is Some,
            created matches Ok(orchestrator) ==> orchestrator@ == initial(
                parameters.output_path@,
                parameters.ld_correction,
                parameters.decorrelated_colors,
                parameters.goal,
            ),
            created matches Err(outcome) ==> outcome@ == OutcomeView::InvalidParameters,
    {
        if parameters.light.is_none() {
            return Err(Outcome::InvalidParameters);
        }
        Ok(
            Orchestrator {
                output_path: parameters.output_path,
                limb_correction: parameters.ld_correction,
                decorrelated_colors: parameters.decorrelated_colors,
                goal: parameters.goal,
                phase: Phase::Init,
                frames: 0,
                counter: StageProgressCounter::new(0),
            },
        )
    }

    /// Whether the run has ended.
    pub fn is_finished(&self) -> (finished: bool)
        ensures
            finished == (self@.state is Finished),
    {
        match &self.phase {
            Phase::Finished(_) => true,
            _ => false,
        }
    }

    /// How the run ended, once it has.
    pub fn outcome(&self) -> (outcome: Option<&Outcome>)
        ensures
            outcome is Some <==> self@.state is Finished,
            outcome matches Some(ended) ==> self@.state == RunState::Finished(ended@),
    {
        match &self.phase {
            Phase::Finished(outcome) => Some(outcome),
            _ => None,
        }
    }

    /// The stage whose collaborator is at work, if any.
    pub fn current_stage(&self) -> (stage: Option<Stage>)
        ensures
            stage is Some <==> self@.state is Running,
            stage matches Some(current) ==> self@.state == RunState::Running(current),
    {
        match &self.phase {
            Phase::Running(stage) => Some(*stage),
            _ => None,
        }
    }

    /// The number of frames in the working set.
    pub fn frames(&self) -> (frames: usize)
        ensures
            frames == self@.frames,
    {
        self.frames
    }

    /// The parts that the stage at work announced.
    pub fn total(&self) -> (total: usize)
        ensures
            total == self@.counter.total,
    {
        self.counter.total()
    }

    /// The parts of the stage at work that are done.
    pub fn completed(&self) -> (completed: usize)
        ensures
            completed == self@.counter.completed,
    {
        self.counter.completed()
    }

    /// What the run is for.
    pub fn goal(&self) -> (goal: Goal)
        ensures
            goal == self@.goal,
    {
        self.goal
    }

    /// Where the final image goes.
    pub fn output_path(&self) -> (path: &String)
        ensures
            path@ == self@.output_path,
    {
        &self.output_path
    }

    /// The policy that the `Normalize` collaborator is to follow.
    pub fn normalize_policy(&self) -> (policy: NormalizePolicy)
        ensures
            policy == if self@.decorrelated_colors {
                NormalizePolicy::DecorrelatedColors
            } else {
                NormalizePolicy::Plain
            },
    {
        if self.decorrelated_colors {
            NormalizePolicy::DecorrelatedColors
        } else {
            NormalizePolicy::Plain
        }
    }

    /// Whether `event` can be handed to `step` now.
    pub fn can_step(&self, event: &StageEvent) -> (can: bool)
        ensures
            can == countable(self@, event@),
    {
        match (&self.phase, event) {
            (Phase::Running(stage), StageEvent::FrameProcessed) => !stage.is_counting()
                || self.counter.completed() < usize::MAX,
            _ => true,
        }
    }

    /// Ends the run with `outcome`. Where `done` is set, the closing "Done"
    /// message goes out before the idle one.
    fn finish(
        &mut self,
        token: &mut CancelContainer,
        sender: &mut ProgressChannel,
        outcome: Outcome,
        done: bool,
    ) -> (action: Action)
        ensures
            ({
                let last = if done {
                    closing(Stage::Save)
                } else {
                    Seq::empty()
                };
                let s = conclude(
                    old(self)@,
                    old(token).status,
                    old(sender)@.open,
                    outcome@,
                    last,
                );
                &&& final(self)@ == s.run
                &&& final(token).status == s.token
                &&& final(sender)@.open == old(sender)@.open
                &&& final(sender)@.pending == old(sender)@.pending + s.emitted
                &&& action == s.action
            }),
    {
        let ghost before = sender@.pending;
        let resets = outcome.resets_token();
        if done {
            let _ = set_task_status(sender, "Done", 1, 1);
        }
        let _ = set_task_completed(sender);
        if resets {
            reset_cancel_status(token);
        }
        self.phase = Phase::Finished(outcome);
        proof {
            let last = if done {
                closing(Stage::Save)
            } else {
                Seq::empty()
            };
            if sender@.open {
                assert(sender@.pending =~= before + last.push(ProgressMessage::Idle));
            } else {
                assert(sender@.pending =~= before + Seq::<ProgressMessage>::empty());
            }
        }
        Action::Finish
    }

    /// The boundary before `stage`.
    fn enter_stage(
        &mut self,
        token: &mut CancelContainer,
        sender: &mut ProgressChannel,
        stage: Stage,
    ) -> (action: Action)
        ensures
            ({
                let s = enter(old(self)@, old(token).status, old(sender)@.open, stage);
                &&& final(self)@ == s.run
                &&& final(token).status == s.token
                &&& final(sender)@.open == old(sender)@.open
                &&& final(sender)@.pending == old(sender)@.pending + s.emitted
                &&& action == s.action
            }),
    {
        if is_cancel_requested(token) {
            set_task_cancelled(token);
            return self.finish(token, sender, Outcome::Cancelled, false);
        }
        let ghost before = sender@.pending;
        let total = if stage.is_counting() {
            self.frames
        } else {
            0
        };
        match set_task_status(sender, stage.name(), total, 0) {
            Ok(()) => {
                self.counter = StageProgressCounter::new(total);
                self.phase = Phase::Running(stage);
                assert(sender@.pending =~= before + seq![self.counter@.report(stage.label())]);
                Action::Invoke(stage)
            },
            Err(_) => {
                self.phase = Phase::Finished(Outcome::ChannelClosed);
                assert(sender@.pending =~= before + Seq::<ProgressMessage>::empty());
                Action::Finish
            },
        }
    }

    /// One callback of the counting stage `stage`.
    fn count_frame(
        &mut self,
        token: &mut CancelContainer,
        sender: &mut ProgressChannel,
        stage: Stage,
    ) -> (action: Action)
        requires
            old(self)@.counter.completed < usize::MAX,
        ensures
            ({
                let s = frame_processed(
                    old(self)@,
                    old(token).status,
                    old(sender)@.open,
                    stage,
                );
                &&& final(self)@ == s.run
                &&& final(token).status == s.token
                &&& final(sender)@.open == old(sender)@.open
                &&& final(sender)@.pending == old(sender)@.pending + s.emitted
                &&& action == s.action
            }),
    {
        let ghost before = sender@.pending;
        match self.counter.record_progress(sender, stage.name()) {
            Ok(()) => {
                let ghost report = self.counter@.report(stage.label());
                assert(sender@.pending =~= before + seq![report]);
                if is_cancel_requested(token) {
                    set_task_cancelled(token);
                    let action = self.finish(token, sender, Outcome::Cancelled, false);
                    assert(sender@.pending =~= before + seq![report].push(ProgressMessage::Idle));
                    action
                } else {
                    Action::Wait
                }
            },
            Err(_) => {
                self.phase = Phase::Finished(Outcome::ChannelClosed);
                assert(sender@.pending =~= before + Seq::<ProgressMessage>::empty());
                Action::Finish
            },
        }
    }

    /// The collaborator of `stage` has returned `items` items.
    fn stage_done(
        &mut self,
        token: &mut CancelContainer,
        sender: &mut ProgressChannel,
        stage: Stage,
        items: usize,
    ) -> (action: Action)
        ensures
            ({
                let s = stage_succeeded(
                    old(self)@,
                    old(token).status,
                    old(sender)@.open,
                    stage,
                    items as nat,
                );
                &&& final(self)@ == s.run
                &&& final(token).status == s.token
                &&& final(sender)@.open == old(sender)@.open
                &&& final(sender)@.pending == old(sender)@.pending + s.emitted
                &&& action == s.action
            }),
    {
        if stage.is_frame_source() {
            self.frames = items;
        }
        if stage.must_leave_frames() && self.frames == 0 {
            return self.finish(token, sender, Outcome::NoFramesSurvived, false);
        }
        if stage == self.goal.final_stage() {
            return self.finish(token, sender, Outcome::Done, stage == Stage::Save);
        }
        match stage.next(self.limb_correction) {
            Some(next) => self.enter_stage(token, sender, next),
            None => self.finish(token, sender, Outcome::Done, true),
        }
    }

    /// Takes one event and says what the caller does next.
    ///
    /// Before the run has started only `Start` counts, and while a
    /// collaborator is at work only its own events do; a frame is counted
    /// only in a stage that counts frames. A run that has ended answers
    /// `Finish` to everything and changes nothing.
    pub fn step(
        &mut self,
        token: &mut CancelContainer,
        sender: &mut ProgressChannel,
        event: StageEvent,
    ) -> (action: Action)
        requires
            countable(old(self)@, event@),
        ensures
            ({
                let s = step(old(self)@, old(token).status, old(sender)@.open, event@);
                &&& final(self)@ == s.run
                &&& final(token).status == s.token
                &&& final(sender)@.open == old(sender)@.open
                &&& final(sender)@.pending == old(sender)@.pending + s.emitted
                &&& action == s.action
            }),
    {
        let finished = self.is_finished();
        let running = self.current_stage();
        proof {
            assert(sender@.pending =~= sender@.pending + Seq::<ProgressMessage>::empty());
        }
        if finished {
            return Action::Finish;
        }
        match running {
            None => match event {
                StageEvent::Start => self.enter_stage(token, sender, Stage::MasterCalibrationBuild),
                _ => Action::Wait,
            },
            Some(stage) => match event {
                StageEvent::Start => Action::Wait,
                StageEvent::FrameProcessed => {
                    if stage.is_counting() {
                        self.count_frame(token, sender, stage)
                    } else {
                        Action::Wait
                    }
                },
                StageEvent::StageSucceeded { items } => self.stage_done(
                    token,
                    sender,
                    stage,
                    items,
                ),
                StageEvent::StageFailed { cause } => {
                    let outcome = if stage == Stage::Save {
                        Outcome::SaveFailed { path: self.output_path.clone(), cause }
                    } else {
                        Outcome::StageFailed { stage, cause }
                    };
                    assert(outcome@ == failure(self@, stage, cause@));
                    self.finish(token, sender, outcome, false)
                },
            },
        }
    }
}

} // verus!
