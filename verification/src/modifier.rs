//! Modifier edge detection on raw event flags.
//!
//! Each modifier has its own pair of masks, one for the press edge and one for
//! the release edge. The masks are literal values of the flag encoding and are
//! not derived from each other.

use vstd::prelude::*;

use crate::sequence::KeyStrokeRecorder;

verus! {

/// Flag bits that an option press sets.
pub const K_CG_EVENT_FLAG_MASK_OPTION_DOWN: u64 = 524576;

/// Flag bits that an option release sets.
pub const K_CG_EVENT_FLAG_MASK_OPTION_UP: u64 = 256;

/// Flag bits that a command press sets.
pub const K_CG_EVENT_FLAG_MASK_COMMAND_DOWN: u64 = 1048840;

/// Flag bits that a command release sets.
pub const K_CG_EVENT_FLAG_MASK_COMMAND_UP: u64 = 256;

/// Flag bits that a control press sets.
pub const K_CG_EVENT_FLAG_MASK_CONTROL_DOWN: u64 = 262401;

/// Flag bits that a control release sets.
pub const K_CG_EVENT_FLAG_MASK_CONTROL_UP: u64 = 256;

/// Flag bits that a shift press sets.
pub const K_CG_EVENT_FLAG_MASK_SHIFT_DOWN: u64 = 131330;

/// Flag bits that a shift release sets.
pub const K_CG_EVENT_FLAG_MASK_SHIFT_UP: u64 = 256;

/// The press mask of the modifier with key code `code`, if `code` is one of
/// command, shift, option and control.
pub open spec fn down_mask(code: int) -> Option<u64> {
    if code == 55 {
        Some(K_CG_EVENT_FLAG_MASK_COMMAND_DOWN)
    } else if code == 56 {
        Some(K_CG_EVENT_FLAG_MASK_SHIFT_DOWN)
    } else if code == 58 {
        Some(K_CG_EVENT_FLAG_MASK_OPTION_DOWN)
    } else if code == 59 {
        Some(K_CG_EVENT_FLAG_MASK_CONTROL_DOWN)
    } else {
        None
    }
}

/// The release mask of the modifier with key code `code`, if `code` is one of
/// command, shift, option and control.
pub open spec fn up_mask(code: int) -> Option<u64> {
    if code == 55 {
        Some(K_CG_EVENT_FLAG_MASK_COMMAND_UP)
    } else if code == 56 {
        Some(K_CG_EVENT_FLAG_MASK_SHIFT_UP)
    } else if code == 58 {
        Some(K_CG_EVENT_FLAG_MASK_OPTION_UP)
    } else if code == 59 {
        Some(K_CG_EVENT_FLAG_MASK_CONTROL_UP)
    } else {
        None
    }
}

/// The flags show a press of the modifier `code`: some bit of its press mask
/// is set. False for every key that is not one of the four modifiers.
pub open spec fn is_down(code: int, flags: u64) -> bool {
    match down_mask(code) {
        Some(mask) => flags & mask > 0,
        None => false,
    }
}

/// The flags show a release of the modifier `code`: some bit of its release
/// mask is set. False for every key that is not one of the four modifiers.
pub open spec fn is_up(code: int, flags: u64) -> bool {
    match up_mask(code) {
        Some(mask) => flags & mask > 0,
        None => false,
    }
}

impl KeyStrokeRecorder {
    /// Whether `flag` carries the release edge of the modifier `code`.
    pub fn leader_key_up(code: i64, flag: u64) -> (up: bool)
        ensures
            up == is_up(code as int, flag),
    {
        match code {
            55 => flag & K_CG_EVENT_FLAG_MASK_COMMAND_UP > 0,
            56 => flag & K_CG_EVENT_FLAG_MASK_SHIFT_UP > 0,
            58 => flag & K_CG_EVENT_FLAG_MASK_OPTION_UP > 0,
            59 => flag & K_CG_EVENT_FLAG_MASK_CONTROL_UP > 0,
            _ => false,
        }
    }

    /// Whether `flag` carries the press edge of the modifier `code`.
    pub fn leader_key_down(code: i64, flag: u64) -> (down: bool)
        ensures
            down == is_down(code as int, flag),
    {
        match code {
            55 => flag & K_CG_EVENT_FLAG_MASK_COMMAND_DOWN > 0,
            56 => flag & K_CG_EVENT_FLAG_MASK_SHIFT_DOWN > 0,
            58 => flag & K_CG_EVENT_FLAG_MASK_OPTION_DOWN > 0,
            59 => flag & K_CG_EVENT_FLAG_MASK_CONTROL_DOWN > 0,
            _ => false,
        }
    }
}

/// A key that is none of command, shift, option and control is never seen as
/// pressed or released, whatever the flags.
pub proof fn lemma_only_modifiers_have_edges(code: int, flags: u64)
    requires
        code != 55 && code != 56 && code != 58 && code != 59,
    ensures
        !is_down(code, flags),
        !is_up(code, flags),
{
}

} // verus!
