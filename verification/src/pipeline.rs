//! The driver's decisions: stage sequencing, subprocess outcomes, and the
//! ensure-viewer-present step.
//!
//! The driver runs the stages strictly in order and fails fast: a stage's
//! error aborts the run, and a subprocess exiting non-zero counts as such
//! an error.  The one conditional step is the viewer, which is built first
//! when its binary is absent.

use vstd::prelude::*;

use crate::errors::PipelineError;
use crate::errors::Stage;

verus! {

/// The fixed working directory the extracted frames are written to and
/// read back from; it is wiped and recreated at the start of every
/// extraction.
pub fn views_dir_name() -> (r: String)
    ensures
        r@ == "views"@,
{
    "views".to_owned()
}

/// The fixed name the reconstructed asset is written to, overwritten each
/// run.
pub fn output_asset_name() -> (r: String)
    ensures
        r@ == "output.ply"@,
{
    "output.ply".to_owned()
}

/// Accepts or refuses a finished subprocess of the given stage: a run goes
/// on exactly when the subprocess exited successfully, and a non-zero exit
/// is the stage's failure, the same as any internal error there.
pub fn subprocess_outcome(stage: Stage, exit_success: bool) -> (r: Result<(), PipelineError>)
    ensures
        match r {
            Ok(_) => exit_success,
            Err(e) => !exit_success && e == PipelineError::Subprocess(stage),
        },
{
    if exit_success {
        Ok(())
    } else {
        Err(PipelineError::Subprocess(stage))
    }
}

/// What to do about the viewer binary before launching it.
#[derive(Clone, Copy, Debug, PartialEq, Eq, Structural)]
pub enum ViewerPlan {
    /// The binary is present: launch it directly.
    Launch,
    /// The binary is absent: build it first, then launch.
    BuildThenLaunch,
}

/// The idempotent ensure-viewer-present step: the viewer is built exactly
/// when its binary is absent, and launched either way.
pub fn viewer_plan(binary_present: bool) -> (r: ViewerPlan)
    ensures
        r == if binary_present {
            ViewerPlan::Launch
        } else {
            ViewerPlan::BuildThenLaunch
        },
{
    if binary_present {
        ViewerPlan::Launch
    } else {
        ViewerPlan::BuildThenLaunch
    }
}

} // verus!
