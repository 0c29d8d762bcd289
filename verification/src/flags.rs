//! The bit-sets of the native display records: adapter state flags, the
//! field-presence mask of a device-mode record, and the display flags.
//!
//! The numeric values are the ones the operating system's display headers
//! define. Each bit-set type recognizes exactly the documented bits: building
//! one from a word with any other bit set fails rather than dropping the bit.

use vstd::prelude::*;

verus! {

/// The adapter is part of the desktop.
pub const DISPLAY_DEVICE_ACTIVE: u32 = 0x1;

/// The adapter is represented by a mirroring driver.
pub const DISPLAY_DEVICE_MIRRORING_DRIVER: u32 = 0x8;

/// The adapter has more display modes than its monitors support.
pub const DISPLAY_DEVICE_MODESPRUNED: u32 = 0x8000000;

/// The adapter drives the primary desktop.
pub const DISPLAY_DEVICE_PRIMARY_DEVICE: u32 = 0x4;

/// The adapter is removable and cannot be the primary one.
pub const DISPLAY_DEVICE_REMOVABLE: u32 = 0x20;

/// The adapter is VGA compatible.
pub const DISPLAY_DEVICE_VGA_COMPATIBLE: u32 = 0x10;

/// Every documented adapter state flag.
pub const DISPLAY_STATE_MASK: u32 = DISPLAY_DEVICE_ACTIVE | DISPLAY_DEVICE_MIRRORING_DRIVER
    | DISPLAY_DEVICE_MODESPRUNED | DISPLAY_DEVICE_PRIMARY_DEVICE | DISPLAY_DEVICE_REMOVABLE
    | DISPLAY_DEVICE_VGA_COMPATIBLE;

/// The state flags of one display adapter, as reported by the enumeration
/// call: a bit-set drawn from the six documented flag values.
#[derive(Clone, Copy, Debug, PartialEq, Eq, Structural)]
pub struct DisplayState {
    pub bits: u32,
}

impl DisplayState {
    /// Whether every set bit of `self` is a documented state flag.
    pub open spec fn recognized(self) -> bool {
        self.bits & !DISPLAY_STATE_MASK == 0
    }

    /// Whether every bit of `flag` is set in `self`.
    pub open spec fn spec_contains(self, flag: u32) -> bool {
        self.bits & flag == flag
    }

    /// Builds the state bit-set from the raw flag word; fails exactly when a
    /// bit outside the documented flag set is present.
    pub fn from_bits(bits: u32) -> (r: Option<DisplayState>)
        ensures
            (match r {
                Some(s) => s.bits == bits && s.recognized(),
                None => (DisplayState { bits }).recognized() == false,
            }),
    {
        if bits & !DISPLAY_STATE_MASK == 0 {
            Some(DisplayState { bits })
        } else {
            None
        }
    }

    /// The raw flag word.
    pub fn bits(self) -> (r: u32)
        ensures
            r == self.bits,
    {
        self.bits
    }

    /// Whether every bit of `flag` is set.
    pub fn contains(self, flag: u32) -> (r: bool)
        ensures
            r == self.spec_contains(flag),
    {
        self.bits & flag == flag
    }

    /// Whether the adapter is part of the desktop.
    pub fn active(self) -> (r: bool)
        ensures
            r == self.spec_contains(DISPLAY_DEVICE_ACTIVE),
    {
        self.contains(DISPLAY_DEVICE_ACTIVE)
    }

    /// Whether the adapter drives the primary desktop.
    pub fn primary_device(self) -> (r: bool)
        ensures
            r == self.spec_contains(DISPLAY_DEVICE_PRIMARY_DEVICE),
    {
        self.contains(DISPLAY_DEVICE_PRIMARY_DEVICE)
    }
}

/// Presence bit for the orientation field of a printer-mode record.
pub const DM_ORIENTATION: u32 = 0x1;

/// Presence bit for the paper-size field.
pub const DM_PAPERSIZE: u32 = 0x2;

/// Presence bit for the paper-length field.
pub const DM_PAPERLENGTH: u32 = 0x4;

/// Presence bit for the paper-width field.
pub const DM_PAPERWIDTH: u32 = 0x8;

/// Presence bit for the scale field.
pub const DM_SCALE: u32 = 0x10;

/// Presence bit for the display position field.
pub const DM_POSITION: u32 = 0x20;

/// Presence bit for the pages-per-sheet field.
pub const DM_NUP: u32 = 0x40;

/// Presence bit for the display orientation field.
pub const DM_DISPLAYORIENTATION: u32 = 0x80;

/// Presence bit for the copies field.
pub const DM_COPIES: u32 = 0x100;

/// Presence bit for the default-source field.
pub const DM_DEFAULTSOURCE: u32 = 0x200;

/// Presence bit for the print-quality field.
pub const DM_PRINTQUALITY: u32 = 0x400;

/// Presence bit for the color field.
pub const DM_COLOR: u32 = 0x800;

/// Presence bit for the duplex field.
pub const DM_DUPLEX: u32 = 0x1000;

/// Presence bit for the y-resolution field.
pub const DM_YRESOLUTION: u32 = 0x2000;

/// Presence bit for the TrueType option field.
pub const DM_TTOPTION: u32 = 0x4000;

/// Presence bit for the collate field.
pub const DM_COLLATE: u32 = 0x8000;

/// Presence bit for the form-name field.
pub const DM_FORMNAME: u32 = 0x10000;

/// Presence bit for the logical-pixels field.
pub const DM_LOGPIXELS: u32 = 0x20000;

/// Presence bit for the bits-per-pixel field.
pub const DM_BITSPERPEL: u32 = 0x40000;

/// Presence bit for the pixel-width field.
pub const DM_PELSWIDTH: u32 = 0x80000;

/// Presence bit for the pixel-height field.
pub const DM_PELSHEIGHT: u32 = 0x100000;

/// Presence bit for the display-flags field.
pub const DM_DISPLAYFLAGS: u32 = 0x200000;

/// Presence bit for the display-frequency field.
pub const DM_DISPLAYFREQUENCY: u32 = 0x400000;

/// Presence bit for the ICM-method field.
pub const DM_ICMMETHOD: u32 = 0x800000;

/// Presence bit for the ICM-intent field.
pub const DM_ICMINTENT: u32 = 0x1000000;

/// Presence bit for the media-type field.
pub const DM_MEDIATYPE: u32 = 0x2000000;

/// Presence bit for the dither-type field.
pub const DM_DITHERTYPE: u32 = 0x4000000;

/// Presence bit for the panning-width field.
pub const DM_PANNINGWIDTH: u32 = 0x8000000;

/// Presence bit for the panning-height field.
pub const DM_PANNINGHEIGHT: u32 = 0x10000000;

/// Presence bit for the fixed-output field.
pub const DM_DISPLAYFIXEDOUTPUT: u32 = 0x20000000;

/// Every documented field-presence bit of a device-mode record.
pub const DM_FIELDS_MASK: u32 = DM_ORIENTATION | DM_PAPERSIZE | DM_PAPERLENGTH | DM_PAPERWIDTH
    | DM_SCALE | DM_POSITION | DM_NUP | DM_DISPLAYORIENTATION | DM_COPIES | DM_DEFAULTSOURCE
    | DM_PRINTQUALITY | DM_COLOR | DM_DUPLEX | DM_YRESOLUTION | DM_TTOPTION | DM_COLLATE
    | DM_FORMNAME | DM_LOGPIXELS | DM_BITSPERPEL | DM_PELSWIDTH | DM_PELSHEIGHT | DM_DISPLAYFLAGS
    | DM_DISPLAYFREQUENCY | DM_ICMMETHOD | DM_ICMINTENT | DM_MEDIATYPE | DM_DITHERTYPE
    | DM_PANNINGWIDTH | DM_PANNINGHEIGHT | DM_DISPLAYFIXEDOUTPUT;

/// The field-presence mask of a device-mode record: which of the record's
/// overlapping fields the operating system filled with meaningful values.
#[derive(Clone, Copy, Debug, PartialEq, Eq, Structural)]
pub struct DmFields {
    pub bits: u32,
}

impl DmFields {
    /// Whether every set bit of `self` is a documented presence bit.
    pub open spec fn recognized(self) -> bool {
        self.bits & !DM_FIELDS_MASK == 0
    }

    /// Whether every bit of `flag` is set in `self`.
    pub open spec fn spec_contains(self, flag: u32) -> bool {
        self.bits & flag == flag
    }

    /// Builds the presence mask from the raw word; fails exactly when a bit
    /// outside the documented field set is present.
    pub fn from_bits(bits: u32) -> (r: Option<DmFields>)
        ensures
            (match r {
                Some(f) => f.bits == bits && f.recognized(),
                None => (DmFields { bits }).recognized() == false,
            }),
    {
        if bits & !DM_FIELDS_MASK == 0 {
            Some(DmFields { bits })
        } else {
            None
        }
    }

    /// Whether every bit of `flag` is set.
    pub fn contains(self, flag: u32) -> (r: bool)
        ensures
            r == self.spec_contains(flag),
    {
        self.bits & flag == flag
    }
}

/// The display mode is interlaced.
pub const DM_INTERLACED: u32 = 0x2;

/// Every documented display flag.
pub const DISPLAY_FLAGS_MASK: u32 = DM_INTERLACED;

/// The display-flags word of a device-mode record: a bit-set drawn from the
/// documented display flag values.
#[derive(Clone, Copy, Debug, PartialEq, Eq, Structural)]
pub struct DisplayFlags {
    pub bits: u32,
}

impl DisplayFlags {
    /// Whether every set bit of `self` is a documented display flag.
    pub open spec fn recognized(self) -> bool {
        self.bits & !DISPLAY_FLAGS_MASK == 0
    }

    /// Whether every bit of `flag` is set in `self`.
    pub open spec fn spec_contains(self, flag: u32) -> bool {
        self.bits & flag == flag
    }

    /// Builds the display-flags bit-set from the raw word; fails exactly when
    /// a bit outside the documented flag set is present.
    pub fn from_bits(bits: u32) -> (r: Option<DisplayFlags>)
        ensures
            (match r {
                Some(f) => f.bits == bits && f.recognized(),
                None => (DisplayFlags { bits }).recognized() == false,
            }),
    {
        if bits & !DISPLAY_FLAGS_MASK == 0 {
            Some(DisplayFlags { bits })
        } else {
            None
        }
    }

    /// Whether the mode is interlaced.
    pub fn interlaced(self) -> (r: bool)
        ensures
            r == self.spec_contains(DM_INTERLACED),
    {
        self.bits & DM_INTERLACED == DM_INTERLACED
    }
}

} // verus!
