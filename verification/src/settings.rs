//! Display-settings change requests and their outcomes.
//!
//! A settings change submits a device-mode record whose presence mask names
//! the fields to honor; the operating system answers with one numeric result
//! code out of a documented set of eight. The set is closed: a code outside
//! it indicates a broken binding layer and is surfaced as its own condition,
//! never mapped to a known one.

use vstd::prelude::*;

use crate::flags::DM_DISPLAYORIENTATION;
use crate::mode::{orientation_to_raw, DevModeRecord, DisplayOrientation};

verus! {

/// The settings change was applied.
pub const DISP_CHANGE_SUCCESSFUL: i32 = 0;

/// The settings change will take effect after a restart.
pub const DISP_CHANGE_RESTART: i32 = 1;

/// The display driver failed the requested mode.
pub const DISP_CHANGE_FAILED: i32 = -1;

/// The requested mode is not supported.
pub const DISP_CHANGE_BADMODE: i32 = -2;

/// The settings could not be written to the registry.
pub const DISP_CHANGE_NOTUPDATED: i32 = -3;

/// An invalid set of flags was passed.
pub const DISP_CHANGE_BADFLAGS: i32 = -4;

/// An invalid parameter was passed.
pub const DISP_CHANGE_BADPARAM: i32 = -5;

/// The settings change was unsuccessful because the system is DualView
/// capable.
pub const DISP_CHANGE_BADDUALVIEW: i32 = -6;

/// One of the seven documented reasons the operating system rejects a
/// settings change with.
#[derive(Clone, Copy, Debug, PartialEq, Eq, Structural)]
pub enum SetDisplaySettingsError {
    BadDualView,
    BadFlags,
    BadMode,
    BadParam,
    Failed,
    NotUpdated,
    Restart,
}

/// The outcome of a settings-change request: success, one of the seven
/// documented rejection reasons, or — for a result code outside the
/// documented set — an unrecoverable invariant violation carrying the code.
#[derive(Clone, Copy, Debug, PartialEq, Eq, Structural)]
pub enum SetDisplaySettingsOutcome {
    Success,
    Rejected(SetDisplaySettingsError),
    UnrecognizedCode(i32),
}

/// Whether a numeric result code belongs to the documented set of eight.
pub open spec fn documented_settings_code(code: i32) -> bool {
    DISP_CHANGE_BADDUALVIEW <= code <= DISP_CHANGE_RESTART
}

/// The outcome a numeric result code maps to.
pub open spec fn settings_change_outcome(code: i32) -> SetDisplaySettingsOutcome {
    if code == DISP_CHANGE_SUCCESSFUL {
        SetDisplaySettingsOutcome::Success
    } else if code == DISP_CHANGE_RESTART {
        SetDisplaySettingsOutcome::Rejected(SetDisplaySettingsError::Restart)
    } else if code == DISP_CHANGE_FAILED {
        SetDisplaySettingsOutcome::Rejected(SetDisplaySettingsError::Failed)
    } else if code == DISP_CHANGE_BADMODE {
        SetDisplaySettingsOutcome::Rejected(SetDisplaySettingsError::BadMode)
    } else if code == DISP_CHANGE_NOTUPDATED {
        SetDisplaySettingsOutcome::Rejected(SetDisplaySettingsError::NotUpdated)
    } else if code == DISP_CHANGE_BADFLAGS {
        SetDisplaySettingsOutcome::Rejected(SetDisplaySettingsError::BadFlags)
    } else if code == DISP_CHANGE_BADPARAM {
        SetDisplaySettingsOutcome::Rejected(SetDisplaySettingsError::BadParam)
    } else if code == DISP_CHANGE_BADDUALVIEW {
        SetDisplaySettingsOutcome::Rejected(SetDisplaySettingsError::BadDualView)
    } else {
        SetDisplaySettingsOutcome::UnrecognizedCode(code)
    }
}

impl SetDisplaySettingsError {
    /// Maps a documented rejection code to its named reason.
    fn from_raw(raw: i32) -> (r: SetDisplaySettingsError)
        requires
            documented_settings_code(raw),
            raw != DISP_CHANGE_SUCCESSFUL,
        ensures
            settings_change_outcome(raw) == SetDisplaySettingsOutcome::Rejected(r),
    {
        if raw == DISP_CHANGE_RESTART {
            SetDisplaySettingsError::Restart
        } else if raw == DISP_CHANGE_FAILED {
            SetDisplaySettingsError::Failed
        } else if raw == DISP_CHANGE_BADMODE {
            SetDisplaySettingsError::BadMode
        } else if raw == DISP_CHANGE_NOTUPDATED {
            SetDisplaySettingsError::NotUpdated
        } else if raw == DISP_CHANGE_BADFLAGS {
            SetDisplaySettingsError::BadFlags
        } else if raw == DISP_CHANGE_BADPARAM {
            SetDisplaySettingsError::BadParam
        } else {
            SetDisplaySettingsError::BadDualView
        }
    }
}

/// Classifies the numeric result code of a settings-change request. The
/// success code yields `Success` with no further payload, each documented
/// rejection code its named reason, and any other code the unrecoverable
/// `UnrecognizedCode` condition — never a silent mapping to a known case.
pub fn classify_settings_change(code: i32) -> (r: SetDisplaySettingsOutcome)
    ensures
        r == settings_change_outcome(code),
{
    if code == DISP_CHANGE_SUCCESSFUL {
        SetDisplaySettingsOutcome::Success
    } else if DISP_CHANGE_BADDUALVIEW <= code && code <= DISP_CHANGE_RESTART {
        SetDisplaySettingsOutcome::Rejected(SetDisplaySettingsError::from_raw(code))
    } else {
        SetDisplaySettingsOutcome::UnrecognizedCode(code)
    }
}

/// Builds the record for a temporary orientation change from the adapter's
/// current device-mode record: the presence mask declares the orientation
/// field alone as valid, the orientation field carries the requested value in
/// its numeric form, and every other field is left as queried.
pub fn orientation_change_request(current: DevModeRecord, orientation: DisplayOrientation) -> (r:
    DevModeRecord)
    ensures
        r.fields == DM_DISPLAYORIENTATION,
        r.display_orientation == orientation_to_raw(orientation),
        r.device_name@ == current.device_name@,
        r.spec_version == current.spec_version,
        r.driver_version == current.driver_version,
        r.position_x == current.position_x,
        r.position_y == current.position_y,
        r.bits_per_pel == current.bits_per_pel,
        r.pels_width == current.pels_width,
        r.pels_height == current.pels_height,
        r.display_flags == current.display_flags,
        r.display_frequency == current.display_frequency,
{
    let mut devmode = current;
    devmode.fields = DM_DISPLAYORIENTATION;
    devmode.display_orientation = orientation.as_raw();
    devmode
}

} // verus!
