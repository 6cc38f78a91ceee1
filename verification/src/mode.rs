//! The d-pad signaling convention and its inference from raw axis values.
//!
//! The hardware never announces which convention is active. The two
//! conventions overlap in a single reading, the vertical axis at -1, so every
//! other reading settles the mode and that one leaves it as it was.

use vstd::prelude::*;
use crate::event::Axis;

verus! {

/// The convention by which the hardware currently reports d-pad directions.
#[derive(Clone, Copy, Debug, PartialEq, Eq, Structural)]
pub enum DPadMode {
    /// Directions arrive as -1 and 1, and both axes rest at 0.
    Default,
    /// Directions arrive over the full signed 16-bit range, and the vertical
    /// axis rests at -1 instead of 0.
    Left,
}

/// Readings that only the default convention produces on `axis`.
pub open spec fn default_signal(axis: Axis, value: int) -> bool {
    match axis {
        Axis::Horizontal => -1 <= value <= 1,
        Axis::Vertical => 0 <= value <= 1,
    }
}

/// Readings that only the left convention produces: a magnitude above 1.
pub open spec fn left_signal(value: int) -> bool {
    value < -1 || 1 < value
}

/// The mode to believe in after `axis` has reported `value`, when `current`
/// was believed before.
pub open spec fn infer_mode(axis: Axis, value: int, current: DPadMode) -> DPadMode {
    if default_signal(axis, value) {
        DPadMode::Default
    } else if left_signal(value) {
        DPadMode::Left
    } else {
        current
    }
}

/// Sets `dpad_mode` to the convention that the reading gives away, and leaves
/// it alone where the reading fits both.
pub fn update_dpad_mode(axis: Axis, value: i32, dpad_mode: &mut DPadMode)
    ensures
        *final(dpad_mode) == infer_mode(axis, value as int, *old(dpad_mode)),
{
    let rests_or_unit: bool = match axis {
        Axis::Horizontal => value == 0 || value == -1 || value == 1,
        Axis::Vertical => value == 0 || value == 1,
    };
    if rests_or_unit {
        *dpad_mode = DPadMode::Default;
    } else if value < -1 || value > 1 {
        *dpad_mode = DPadMode::Left;
    }
}

/// The one reading that carries the mode forward is the vertical axis at -1:
/// every other reading decides the mode whatever was believed before.
pub proof fn lemma_mode_carried_only_at_vertical_rest(axis: Axis, value: int)
    ensures
        infer_mode(axis, value, DPadMode::Default) != infer_mode(axis, value, DPadMode::Left)
            <==> axis == Axis::Vertical && value == -1,
{
}

} // verus!
