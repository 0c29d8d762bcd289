//! Decoding and construction of Windows display-configuration records.
//!
//! The operating system reports display adapters, monitors and display modes
//! through fixed-size native records. This crate holds the verified
//! translation layer: it decodes those records (UTF-16 text buffers, state
//! flags, the field-presence mask of a device-mode record) into typed values,
//! builds the adapter and monitor lists from the sequence of enumeration
//! responses, and prepares and classifies display-settings change requests.
//! The operating-system calls themselves live outside the verified library.

pub mod device;
pub mod flags;
pub mod mode;
pub mod settings;
pub mod text;

pub use device::{DeviceRecord, DisplayAdapter, DisplayAdapters, EnumSignal, Monitor, Monitors};
pub use flags::DisplayState;
pub use mode::{DevModeRecord, DisplayDeviceInfo, DisplayOrientation, Point};
pub use settings::{SetDisplaySettingsError, SetDisplaySettingsOutcome};
pub use text::string_from_utf16_and_strip_null;

use vstd::prelude::*;

verus! {

/// Why a native record could not be decoded into its typed representation.
#[derive(Clone, Copy, Debug, PartialEq, Eq, Structural)]
pub enum DecodeError {
    /// A fixed-width text buffer did not hold valid UTF-16.
    InvalidText,
    /// The state-flag word carried a bit outside the documented flag set.
    UnrecognizedStateFlags,
    /// The field-presence mask carried a bit outside the documented field set.
    UnrecognizedFieldMask,
}

} // verus!
