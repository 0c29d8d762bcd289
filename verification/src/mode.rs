//! The device-mode translator: decoding an adapter's current display-mode
//! record into a typed snapshot, and building an orientation-change request.
//!
//! The native record reuses one storage region for several attribute groups;
//! which group is meaningful is decided by the field-presence mask alone. The
//! decoder therefore reads the mask first and exposes an attribute only when
//! its presence bit is set, whatever value the shared storage happens to hold.

use vstd::prelude::*;

use crate::DecodeError;
use crate::flags::{
    DisplayFlags, DmFields, DISPLAY_FLAGS_MASK, DM_BITSPERPEL, DM_DISPLAYFLAGS,
    DM_DISPLAYFREQUENCY, DM_DISPLAYORIENTATION, DM_FIELDS_MASK, DM_PELSHEIGHT, DM_PELSWIDTH,
    DM_POSITION,
};
use crate::text::{decoded_text, string_from_utf16_and_strip_null};

verus! {

/// The orientation value for the natural (unrotated) position.
pub const DMDO_DEFAULT: u32 = 0;

/// The orientation value for a quarter turn.
pub const DMDO_90: u32 = 1;

/// The orientation value for a half turn.
pub const DMDO_180: u32 = 2;

/// The orientation value for a three-quarter turn.
pub const DMDO_270: u32 = 3;

/// The rotation state of a display output, one of the four values the
/// operating system defines.
#[derive(Clone, Copy, Debug, PartialEq, Eq, Structural)]
pub enum DisplayOrientation {
    Default,
    Rotate90,
    Rotate180,
    Rotate270,
}

/// The numeric form of an orientation value.
pub open spec fn orientation_to_raw(o: DisplayOrientation) -> u32 {
    match o {
        DisplayOrientation::Default => DMDO_DEFAULT,
        DisplayOrientation::Rotate90 => DMDO_90,
        DisplayOrientation::Rotate180 => DMDO_180,
        DisplayOrientation::Rotate270 => DMDO_270,
    }
}

/// The orientation value a numeric form decodes to; an unrecognized number
/// decodes to nothing rather than failing.
pub open spec fn orientation_of_raw(raw: u32) -> Option<DisplayOrientation> {
    if raw == DMDO_DEFAULT {
        Some(DisplayOrientation::Default)
    } else if raw == DMDO_90 {
        Some(DisplayOrientation::Rotate90)
    } else if raw == DMDO_180 {
        Some(DisplayOrientation::Rotate180)
    } else if raw == DMDO_270 {
        Some(DisplayOrientation::Rotate270)
    } else {
        None
    }
}

impl DisplayOrientation {
    /// Decodes the operating system's numeric orientation; an unrecognized
    /// value yields `None`.
    pub fn from_raw(raw: u32) -> (r: Option<DisplayOrientation>)
        ensures
            r == orientation_of_raw(raw),
    {
        if raw == DMDO_DEFAULT {
            Some(DisplayOrientation::Default)
        } else if raw == DMDO_90 {
            Some(DisplayOrientation::Rotate90)
        } else if raw == DMDO_180 {
            Some(DisplayOrientation::Rotate180)
        } else if raw == DMDO_270 {
            Some(DisplayOrientation::Rotate270)
        } else {
            None
        }
    }

    /// Encodes the orientation as the operating system's numeric form.
    pub fn as_raw(self) -> (r: u32)
        ensures
            r == orientation_to_raw(self),
    {
        match self {
            DisplayOrientation::Default => DMDO_DEFAULT,
            DisplayOrientation::Rotate90 => DMDO_90,
            DisplayOrientation::Rotate180 => DMDO_180,
            DisplayOrientation::Rotate270 => DMDO_270,
        }
    }
}

/// Encoding an orientation and decoding the number back yields the same
/// orientation, for each of the four values.
pub proof fn lemma_orientation_round_trip(o: DisplayOrientation)
    ensures
        orientation_of_raw(orientation_to_raw(o)) == Some(o),
{
}

/// Decoding a number to an orientation and encoding it again yields the same
/// number, whenever the number is recognized at all.
pub proof fn lemma_raw_orientation_round_trip(raw: u32)
    ensures
        orientation_of_raw(raw) matches Some(o) ==> orientation_to_raw(o) == raw,
{
}

/// A position on the desktop, in pixels.
#[derive(Clone, Copy, Debug, PartialEq, Eq, Structural)]
pub struct Point {
    pub x: i32,
    pub y: i32,
}

/// The fields of the native device-mode record that the display path reads or
/// writes, as plain values. The operating system fills such a record when the
/// current settings of an adapter are queried; the shared storage region is
/// copied out field by field, and which copies are meaningful is decided by
/// `fields`, the presence mask, alone.
#[derive(Debug)]
pub struct DevModeRecord {
    /// Fixed-width UTF-16 buffer holding the device name.
    pub device_name: Vec<u16>,
    /// Version of the record layout.
    pub spec_version: u16,
    /// Driver version, assigned by the driver vendor.
    pub driver_version: u16,
    /// The field-presence mask (raw word).
    pub fields: u32,
    /// Desktop position, x part; shares storage with printer-mode fields.
    pub position_x: i32,
    /// Desktop position, y part; shares storage with printer-mode fields.
    pub position_y: i32,
    /// Raw orientation value; shares storage with printer-mode fields.
    pub display_orientation: u32,
    /// Color depth, in bits per pixel.
    pub bits_per_pel: u32,
    /// Visible width, in pixels.
    pub pels_width: u32,
    /// Visible height, in pixels.
    pub pels_height: u32,
    /// Raw display-flags word; shares storage with the pages-per-sheet field.
    pub display_flags: u32,
    /// Vertical refresh frequency, in hertz.
    pub display_frequency: u32,
}

/// A decoded snapshot of an adapter's current display mode. Each optional
/// attribute is present exactly when the record's presence mask marked it
/// valid; device name and driver version are always present.
#[derive(Debug)]
pub struct DisplayDeviceInfo {
    pub name: String,
    pub driver_version: u16,
    pub position: Option<Point>,
    pub orientation: Option<DisplayOrientation>,
    pub bits_per_pel: Option<u32>,
    pub pels_width: Option<u32>,
    pub pels_height: Option<u32>,
    pub flags: Option<DisplayFlags>,
    pub frequency: Option<u32>,
}

/// Whether a device-mode record decodes at all: its name buffer must hold
/// valid UTF-16 and its presence mask only documented bits.
pub open spec fn mode_decode_ok(r: DevModeRecord) -> bool {
    &&& decoded_text(r.device_name@) is Some
    &&& r.fields & !DM_FIELDS_MASK == 0
}

/// The error a device-mode record fails to decode with: an invalid name
/// buffer is reported first, an unrecognized presence mask after it.
pub open spec fn mode_decode_error(r: DevModeRecord) -> DecodeError {
    if decoded_text(r.device_name@) is None {
        DecodeError::InvalidText
    } else {
        DecodeError::UnrecognizedFieldMask
    }
}

/// The display-flags value a raw word decodes to; a word with an
/// unrecognized bit decodes to nothing.
pub open spec fn display_flags_of_raw(bits: u32) -> Option<DisplayFlags> {
    if bits & !DISPLAY_FLAGS_MASK == 0 {
        Some(DisplayFlags { bits })
    } else {
        None
    }
}

/// Whether `info` is the decoded snapshot of `r`: the name is the decoded
/// text of the name buffer, the driver version is carried over, and each
/// optional attribute is present with the record's value exactly when its
/// presence bit is set — whatever the unset fields hold.
pub open spec fn info_matches_record(info: DisplayDeviceInfo, r: DevModeRecord) -> bool {
    &&& decoded_text(r.device_name@) == Some(info.name@)
    &&& !info.name@.contains('\0')
    &&& info.driver_version == r.driver_version
    &&& info.position == (if r.fields & DM_POSITION == DM_POSITION {
        Some(Point { x: r.position_x, y: r.position_y })
    } else {
        None::<Point>
    })
    &&& info.orientation == (if r.fields & DM_DISPLAYORIENTATION == DM_DISPLAYORIENTATION {
        orientation_of_raw(r.display_orientation)
    } else {
        None::<DisplayOrientation>
    })
    &&& info.bits_per_pel == (if r.fields & DM_BITSPERPEL == DM_BITSPERPEL {
        Some(r.bits_per_pel)
    } else {
        None::<u32>
    })
    &&& info.pels_width == (if r.fields & DM_PELSWIDTH == DM_PELSWIDTH {
        Some(r.pels_width)
    } else {
        None::<u32>
    })
    &&& info.pels_height == (if r.fields & DM_PELSHEIGHT == DM_PELSHEIGHT {
        Some(r.pels_height)
    } else {
        None::<u32>
    })
    &&& info.flags == (if r.fields & DM_DISPLAYFLAGS == DM_DISPLAYFLAGS {
        display_flags_of_raw(r.display_flags)
    } else {
        None::<DisplayFlags>
    })
    &&& info.frequency == (if r.fields & DM_DISPLAYFREQUENCY == DM_DISPLAYFREQUENCY {
        Some(r.display_frequency)
    } else {
        None::<u32>
    })
}

impl DisplayDeviceInfo {
    /// Decodes a device-mode record into a typed snapshot. The presence mask
    /// is read first; every attribute whose bit is unset comes out absent,
    /// regardless of what the shared storage holds. Fails exactly when the
    /// name buffer is not valid UTF-16 or the mask has an undocumented bit;
    /// an unrecognized orientation value or display-flags word degrades to an
    /// absent attribute instead.
    pub fn from_record(record: &DevModeRecord) -> (r: Result<DisplayDeviceInfo, DecodeError>)
        ensures
            r is Ok <==> mode_decode_ok(*record),
            (match r {
                Ok(info) => info_matches_record(info, *record),
                Err(e) => e == mode_decode_error(*record),
            }),
    {
        let name = match string_from_utf16_and_strip_null(record.device_name.as_slice()) {
            Some(name) => name,
            None => {
                return Err(DecodeError::InvalidText);
            },
        };
        let fields = match DmFields::from_bits(record.fields) {
            Some(fields) => fields,
            None => {
                return Err(DecodeError::UnrecognizedFieldMask);
            },
        };

        let position = if fields.contains(DM_POSITION) {
            Some(Point { x: record.position_x, y: record.position_y })
        } else {
            None
        };

        let orientation = if fields.contains(DM_DISPLAYORIENTATION) {
            DisplayOrientation::from_raw(record.display_orientation)
        } else {
            None
        };

        let bits_per_pel = if fields.contains(DM_BITSPERPEL) {
            Some(record.bits_per_pel)
        } else {
            None
        };

        let pels_width = if fields.contains(DM_PELSWIDTH) {
            Some(record.pels_width)
        } else {
            None
        };

        let pels_height = if fields.contains(DM_PELSHEIGHT) {
            Some(record.pels_height)
        } else {
            None
        };

        let flags = if fields.contains(DM_DISPLAYFLAGS) {
            DisplayFlags::from_bits(record.display_flags)
        } else {
            None
        };

        let frequency = if fields.contains(DM_DISPLAYFREQUENCY) {
            Some(record.display_frequency)
        } else {
            None
        };

        Ok(DisplayDeviceInfo {
            name,
            driver_version: record.driver_version,
            position,
            orientation,
            bits_per_pel,
            pels_width,
            pels_height,
            flags,
            frequency,
        })
    }
}

} // verus!
