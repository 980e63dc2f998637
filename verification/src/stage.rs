//! The stages of the pipeline and the order in which they run.

use vstd::prelude::*;

verus! {

/// One phase of the pipeline. Each has a collaborator that does its work.
#[derive(Debug, Clone, Copy, PartialEq, Eq, Structural)]
pub enum Stage {
    /// Builds the master calibration frames and opens the processing context.
    MasterCalibrationBuild,
    /// Finds each frame's centre-of-mass offset.
    OffsetAnalysis,
    /// Scores each frame's quality.
    SigmaAnalysis,
    /// Drops the frames outside the limits.
    FrameLimiting,
    /// Computes each frame's parallactic rotation.
    RotationAnalysis,
    /// Drizzles the frames onto the stack.
    Stacking,
    /// Merges the stack buffers into one image.
    Finalize,
    /// Corrects limb darkening. Runs only where the caller asked for it.
    LimbCorrection,
    /// Brings the image to its fixed bit depth.
    Normalize,
    /// Writes the image to the output path.
    Save,
}

/// How `Normalize` scales the colour channels.
#[derive(Debug, Clone, Copy, PartialEq, Eq, Structural)]
pub enum NormalizePolicy {
    /// All channels by one common range.
    Plain,
    /// Each channel by its own range.
    DecorrelatedColors,
}

/// What a run is for.
#[derive(Debug, Clone, Copy, PartialEq, Eq, Structural)]
pub enum Goal {
    /// The stacked image, written to the output path: the whole plan.
    StackedImage,
    /// The quality scores of the frames: the plan up to the sigma analysis.
    QualityScores,
}

impl Goal {
    /// The stage after which a run for this goal is done.
    pub open spec fn last_stage(self) -> Stage {
        match self {
            Goal::StackedImage => Stage::Save,
            Goal::QualityScores => Stage::SigmaAnalysis,
        }
    }

    /// The stage after which a run for this goal is done.
    pub fn final_stage(&self) -> (stage: Stage)
        ensures
            stage == self.last_stage(),
    {
        match self {
            Goal::StackedImage => Stage::Save,
            Goal::QualityScores => Stage::SigmaAnalysis,
        }
    }
}

impl Stage {
    /// The name under which the stage reports its progress.
    pub open spec fn label(self) -> Seq<char> {
        match self {
            Stage::MasterCalibrationBuild => "Processing Master Calibration Frames"@,
            Stage::OffsetAnalysis => "Computing Center-of-Mass Offsets"@,
            Stage::SigmaAnalysis => "Frame Sigma Analysis"@,
            Stage::FrameLimiting => "Applying Frame Limits"@,
            Stage::RotationAnalysis => "Computing Parallactic Angle Rotations"@,
            Stage::Stacking => "Stacking"@,
            Stage::Finalize => "Merging Stack Buffers"@,
            Stage::LimbCorrection => "Applying Limb Correction"@,
            Stage::Normalize => "Normalizing Data"@,
            Stage::Save => "Saving"@,
        }
    }

    /// Whether the stage's collaborator calls back once per frame. The other
    /// stages are of unknown length and report no count.
    pub open spec fn counts_frames(self) -> bool {
        self == Stage::OffsetAnalysis || self == Stage::SigmaAnalysis || self
            == Stage::FrameLimiting || self == Stage::RotationAnalysis || self == Stage::Stacking
    }

    /// Whether the stage's output is the frame list that the later stages
    /// work on.
    pub open spec fn yields_frames(self) -> bool {
        self == Stage::MasterCalibrationBuild || self == Stage::OffsetAnalysis || self
            == Stage::SigmaAnalysis || self == Stage::FrameLimiting || self
            == Stage::RotationAnalysis
    }

    /// Whether the pipeline ends at once when the stage leaves no frame: it
    /// never stacks an empty set.
    pub open spec fn needs_survivors(self) -> bool {
        self == Stage::FrameLimiting || self == Stage::RotationAnalysis
    }

    /// The stage that follows this one in a pipeline that goes on, or `None`
    /// after the last. `limb_correction` says whether that stage is wanted.
    pub open spec fn successor(self, limb_correction: bool) -> Option<Stage> {
        match self {
            Stage::MasterCalibrationBuild => Some(Stage::OffsetAnalysis),
            Stage::OffsetAnalysis => Some(Stage::SigmaAnalysis),
            Stage::SigmaAnalysis => Some(Stage::FrameLimiting),
            Stage::FrameLimiting => Some(Stage::RotationAnalysis),
            Stage::RotationAnalysis => Some(Stage::Stacking),
            Stage::Stacking => Some(Stage::Finalize),
            Stage::Finalize => if limb_correction {
                Some(Stage::LimbCorrection)
            } else {
                Some(Stage::Normalize)
            },
            Stage::LimbCorrection => Some(Stage::Normalize),
            Stage::Normalize => Some(Stage::Save),
            Stage::Save => None,
        }
    }

    /// The name under which the stage reports its progress.
    pub fn name(&self) -> (name: &'static str)
        ensures
            name@ == self.label(),
    {
        match self {
            Stage::MasterCalibrationBuild => "Processing Master Calibration Frames",
            Stage::OffsetAnalysis => "Computing Center-of-Mass Offsets",
            Stage::SigmaAnalysis => "Frame Sigma Analysis",
            Stage::FrameLimiting => "Applying Frame Limits",
            Stage::RotationAnalysis => "Computing Parallactic Angle Rotations",
            Stage::Stacking => "Stacking",
            Stage::Finalize => "Merging Stack Buffers",
            Stage::LimbCorrection => "Applying Limb Correction",
            Stage::Normalize => "Normalizing Data",
            Stage::Save => "Saving",
        }
    }

    /// Whether the stage's collaborator calls back once per frame.
    pub fn is_counting(&self) -> (counting: bool)
        ensures
            counting == self.counts_frames(),
    {
        match self {
            Stage::OffsetAnalysis
            | Stage::SigmaAnalysis
            | Stage::FrameLimiting
            | Stage::RotationAnalysis
            | Stage::Stacking => true,
            _ => false,
        }
    }

    /// Whether the stage's output is the frame list.
    pub fn is_frame_source(&self) -> (source: bool)
        ensures
            source == self.yields_frames(),
    {
        match self {
            Stage::MasterCalibrationBuild
            | Stage::OffsetAnalysis
            | Stage::SigmaAnalysis
            | Stage::FrameLimiting
            | Stage::RotationAnalysis => true,
            _ => false,
        }
    }

    /// Whether the pipeline ends when the stage leaves no frame.
    pub fn must_leave_frames(&self) -> (must: bool)
        ensures
            must == self.needs_survivors(),
    {
        match self {
            Stage::FrameLimiting | Stage::RotationAnalysis => true,
            _ => false,
        }
    }

    /// The stage that follows this one, or `None` after the last.
    pub fn next(&self, limb_correction: bool) -> (next: Option<Stage>)
        ensures
            next == self.successor(limb_correction),
    {
        match self {
            Stage::MasterCalibrationBuild => Some(Stage::OffsetAnalysis),
            Stage::OffsetAnalysis => Some(Stage::SigmaAnalysis),
            Stage::SigmaAnalysis => Some(Stage::FrameLimiting),
            Stage::FrameLimiting => Some(Stage::RotationAnalysis),
            Stage::RotationAnalysis => Some(Stage::Stacking),
            Stage::Stacking => Some(Stage::Finalize),
            Stage::Finalize => if limb_correction {
                Some(Stage::LimbCorrection)
            } else {
                Some(Stage::Normalize)
            },
            Stage::LimbCorrection => Some(Stage::Normalize),
            Stage::Normalize => Some(Stage::Save),
            Stage::Save => None,
        }
    }
}

/// The stages of a whole pipeline in the order in which they run.
pub open spec fn plan(limb_correction: bool) -> Seq<Stage> {
    if limb_correction {
        seq![
            Stage::MasterCalibrationBuild,
            Stage::OffsetAnalysis,
            Stage::SigmaAnalysis,
            Stage::FrameLimiting,
            Stage::RotationAnalysis,
            Stage::Stacking,
            Stage::Finalize,
            Stage::LimbCorrection,
            Stage::Normalize,
            Stage::Save,
        ]
    } else {
        seq![
            Stage::MasterCalibrationBuild,
            Stage::OffsetAnalysis,
            Stage::SigmaAnalysis,
            Stage::FrameLimiting,
            Stage::RotationAnalysis,
            Stage::Stacking,
            Stage::Finalize,
            Stage::Normalize,
            Stage::Save,
        ]
    }
}

/// The stages of a run for `goal` in the order in which they run: the plan
/// up to the goal's last stage.
pub open spec fn plan_for(limb_correction: bool, goal: Goal) -> Seq<Stage> {
    plan(limb_correction).take(position(goal.last_stage(), limb_correction) + 1)
}

/// The place of `stage` in the plan, counted from 0. `LimbCorrection` has a
/// place only in a plan that holds it.
pub open spec fn position(stage: Stage, limb_correction: bool) -> int {
    match stage {
        Stage::MasterCalibrationBuild => 0,
        Stage::OffsetAnalysis => 1,
        Stage::SigmaAnalysis => 2,
        Stage::FrameLimiting => 3,
        Stage::RotationAnalysis => 4,
        Stage::Stacking => 5,
        Stage::Finalize => 6,
        Stage::LimbCorrection => 7,
        Stage::Normalize => if limb_correction {
            8
        } else {
            7
        },
        Stage::Save => if limb_correction {
            9
        } else {
            8
        },
    }
}

/// Whether `stage` is part of the plan.
pub open spec fn planned(stage: Stage, limb_correction: bool) -> bool {
    stage == Stage::LimbCorrection ==> limb_correction
}

/// Every planned stage stands in the plan at its position, the plan starts
/// with the calibration build and ends with the save, and each stage's
/// successor is the stage one place further on.
pub proof fn lemma_plan_order(stage: Stage, limb_correction: bool)
    requires
        planned(stage, limb_correction),
    ensures
        0 <= position(stage, limb_correction) < plan(limb_correction).len(),
        plan(limb_correction)[position(stage, limb_correction)] == stage,
        plan(limb_correction)[0] == Stage::MasterCalibrationBuild,
        plan(limb_correction).last() == Stage::Save,
        match stage.successor(limb_correction) {
            Some(next) => planned(next, limb_correction) && position(next, limb_correction)
                == position(stage, limb_correction) + 1,
            None => position(stage, limb_correction) + 1 == plan(limb_correction).len(),
        },
{
}

} // verus!
