//! What the local display should show for a snapshot.
//!
//! The display renderer is a plain consumer: given the latest snapshot, it
//! either shows the band label of the latest impulse, prompts the operator
//! to start recording while idle, or leaves the previous content standing.
//! The decision is made here; the drawing itself happens outside the
//! library.

use vstd::prelude::*;

use crate::classify::Classification;
use crate::snapshot::AnalysisSnapshot;

verus! {

/// The renderer's next action.
#[derive(Clone, Copy, PartialEq, Eq, Structural, Debug)]
pub enum DisplayAction {
    /// Show the band label of the latest impulse.
    ShowClassification(Classification),
    /// Show the prompt to start recording.
    ShowIdlePrompt,
    /// Leave the previous content standing.
    KeepPrevious,
}

/// The display rule: an impulse's label wins; otherwise an idle pipeline
/// shows the prompt; a recording pipeline without an impulse changes
/// nothing.
pub open spec fn display_action_spec(s: AnalysisSnapshot) -> DisplayAction {
    match s.latest_impulse {
        Some(imp) => DisplayAction::ShowClassification(imp.coconut_type),
        None => if !s.is_recording {
            DisplayAction::ShowIdlePrompt
        } else {
            DisplayAction::KeepPrevious
        },
    }
}

/// Decides what the display should do for a snapshot.
pub fn plan_display(s: &AnalysisSnapshot) -> (a: DisplayAction)
    ensures
        a == display_action_spec(*s),
{
    match &s.latest_impulse {
        Some(imp) => DisplayAction::ShowClassification(imp.coconut_type),
        None => {
            if !s.is_recording {
                DisplayAction::ShowIdlePrompt
            } else {
                DisplayAction::KeepPrevious
            }
        },
    }
}

} // verus!
