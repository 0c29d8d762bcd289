//! Adapters and monitors: decoding the native device records and building
//! the enumeration lists.
//!
//! The operating system reports one device record per enumeration call,
//! indexed from zero, until it answers "no more items"; the caller of this
//! library performs those calls and hands the accumulated records over. The
//! decoding of each record and the construction of the lists are verified
//! here, against the sequence of records exactly as the calls returned them.

use vstd::prelude::*;

use crate::DecodeError;
use crate::flags::{DisplayState, DISPLAY_DEVICE_ACTIVE};
use crate::text::{decoded_text, string_from_utf16_and_strip_null};

verus! {

/// The fields of one native device record, as plain values: the four
/// fixed-width UTF-16 text buffers and the state-flag word the enumeration
/// call fills.
#[derive(Debug)]
pub struct DeviceRecord {
    /// Fixed-width UTF-16 buffer holding the device name.
    pub device_name: Vec<u16>,
    /// Fixed-width UTF-16 buffer holding the human-readable device string.
    pub device_string: Vec<u16>,
    /// The raw state-flag word.
    pub state_flags: u32,
    /// Fixed-width UTF-16 buffer holding the device identifier.
    pub device_id: Vec<u16>,
    /// Fixed-width UTF-16 buffer holding the registry key.
    pub device_key: Vec<u16>,
}

/// One call of the device-enumeration primitive, classified. The primitive
/// is documented to return exactly two values: "found" and "no more items".
/// Any other return value indicates a corrupted call or misuse of the
/// binding layer and is surfaced as its own unrecoverable condition.
#[derive(Clone, Copy, Debug, PartialEq, Eq, Structural)]
pub enum EnumSignal {
    /// The call filled a record; enumeration goes on at the next index.
    Found,
    /// No device exists at the queried index; enumeration is exhausted.
    NoMore,
    /// The call returned a value outside the documented pair.
    InvalidReturn(i32),
}

/// Classifies the boolean-like return value of one enumeration call: one
/// yields `Found`, zero `NoMore`, and anything else the unrecoverable
/// `InvalidReturn` condition carrying the value.
pub fn classify_enum_return(code: i32) -> (r: EnumSignal)
    ensures
        code == 1 ==> r == EnumSignal::Found,
        code == 0 ==> r == EnumSignal::NoMore,
        code != 0 && code != 1 ==> r == EnumSignal::InvalidReturn(code),
{
    if code == 1 {
        EnumSignal::Found
    } else if code == 0 {
        EnumSignal::NoMore
    } else {
        EnumSignal::InvalidReturn(code)
    }
}

/// Whether an adapter record decodes: each of its four text buffers must
/// hold valid UTF-16 once the null units are dropped, and its state-flag
/// word only documented bits.
pub open spec fn adapter_decode_ok(r: DeviceRecord) -> bool {
    &&& decoded_text(r.device_name@) is Some
    &&& decoded_text(r.device_string@) is Some
    &&& (DisplayState { bits: r.state_flags }).recognized()
    &&& decoded_text(r.device_id@) is Some
    &&& decoded_text(r.device_key@) is Some
}

/// The error an adapter record fails to decode with, in the order the
/// fields are read: name and device string first, then the state flags,
/// then identifier and registry key.
pub open spec fn adapter_decode_error(r: DeviceRecord) -> DecodeError {
    if decoded_text(r.device_name@) is None || decoded_text(r.device_string@) is None {
        DecodeError::InvalidText
    } else if !(DisplayState { bits: r.state_flags }).recognized() {
        DecodeError::UnrecognizedStateFlags
    } else {
        DecodeError::InvalidText
    }
}

/// An opaque copy of the native record an entity was decoded from. It is
/// retained only so that further operating-system queries can be scoped to
/// the entity; it is no part of the decoded identity, and nothing of it is
/// exposed but the device-name buffer that scopes those queries.
#[derive(Debug)]
pub struct RetainedRecord {
    record: DeviceRecord,
}

impl RetainedRecord {
    /// The record held.
    pub closed spec fn spec_record(self) -> DeviceRecord {
        self.record
    }

    /// The raw device-name buffer of the held record, the scope for further
    /// operating-system queries.
    pub fn device_name(&self) -> (r: &Vec<u16>)
        ensures
            r@ == self.spec_record().device_name@,
    {
        &self.record.device_name
    }
}

/// The identity and state snapshot of one graphics adapter, decoded from its
/// native record. The record itself is retained, opaquely, so that further
/// operating-system queries can be scoped to this adapter.
#[derive(Debug)]
pub struct DisplayAdapter {
    /// The device name, decoded.
    pub name: String,
    /// The human-readable device string, decoded.
    pub string: String,
    /// The state flags.
    pub state: DisplayState,
    /// The device identifier, decoded.
    pub id: String,
    /// The registry key, decoded.
    pub key: String,
    /// The retained native record.
    pub raw: RetainedRecord,
}

impl DisplayAdapter {
    /// The retained copy of the native record this adapter was decoded from.
    pub open spec fn raw_record(self) -> DeviceRecord {
        self.raw.spec_record()
    }

    /// Whether this adapter is the decoded form of `r`: each text field is
    /// the decoded text of its buffer, the state flags are carried over, and
    /// the record itself is retained.
    pub open spec fn matches_record(self, r: DeviceRecord) -> bool {
        &&& decoded_text(r.device_name@) == Some(self.name@)
        &&& decoded_text(r.device_string@) == Some(self.string@)
        &&& self.state == (DisplayState { bits: r.state_flags })
        &&& decoded_text(r.device_id@) == Some(self.id@)
        &&& decoded_text(r.device_key@) == Some(self.key@)
        &&& self.raw_record() == r
    }

    /// Decodes one adapter record. Fails exactly when a text buffer is not
    /// valid UTF-16 or the state-flag word has an undocumented bit.
    pub fn from_record(record: DeviceRecord) -> (r: Result<DisplayAdapter, DecodeError>)
        ensures
            r is Ok <==> adapter_decode_ok(record),
            (match r {
                Ok(a) => a.matches_record(record),
                Err(e) => e == adapter_decode_error(record),
            }),
    {
        let name = match string_from_utf16_and_strip_null(record.device_name.as_slice()) {
            Some(s) => s,
            None => {
                return Err(DecodeError::InvalidText);
            },
        };
        let string = match string_from_utf16_and_strip_null(record.device_string.as_slice()) {
            Some(s) => s,
            None => {
                return Err(DecodeError::InvalidText);
            },
        };
        let state = match DisplayState::from_bits(record.state_flags) {
            Some(s) => s,
            None => {
                return Err(DecodeError::UnrecognizedStateFlags);
            },
        };
        let id = match string_from_utf16_and_strip_null(record.device_id.as_slice()) {
            Some(s) => s,
            None => {
                return Err(DecodeError::InvalidText);
            },
        };
        let key = match string_from_utf16_and_strip_null(record.device_key.as_slice()) {
            Some(s) => s,
            None => {
                return Err(DecodeError::InvalidText);
            },
        };
        Ok(DisplayAdapter { name, string, state, id, key, raw: RetainedRecord { record } })
    }

    /// The raw device-name buffer of the retained record, the scope for
    /// further operating-system queries about this adapter.
    pub fn enumeration_scope(&self) -> (r: &Vec<u16>)
        ensures
            r@ == self.raw_record().device_name@,
    {
        self.raw.device_name()
    }
}

/// The adapters of `s` whose state flags mark them part of the desktop, in
/// order.
pub open spec fn active_adapters(s: Seq<DisplayAdapter>) -> Seq<DisplayAdapter> {
    s.filter(|a: DisplayAdapter| a.state.spec_contains(DISPLAY_DEVICE_ACTIVE))
}

/// The adapters behind each reference of `s`, in order.
pub open spec fn deref_adapters(s: Seq<&DisplayAdapter>) -> Seq<DisplayAdapter> {
    s.map_values(|a: &DisplayAdapter| *a)
}

/// The ordered list of graphics adapters, built once by exhaustive
/// enumeration and immutable afterwards.
pub struct DisplayAdapters {
    adapters: Vec<DisplayAdapter>,
}

impl View for DisplayAdapters {
    type V = Seq<DisplayAdapter>;

    closed spec fn view(&self) -> Seq<DisplayAdapter> {
        self.adapters@
    }
}

impl DisplayAdapters {
    /// Builds the adapter list from the enumeration responses, in the order
    /// the calls returned them: one decoded adapter per record. Zero records
    /// yield the absent list, not an empty one; a record that does not
    /// decode yields the first error, in enumeration order.
    pub fn new(records: Vec<DeviceRecord>) -> (r: Result<
        Option<DisplayAdapters>,
        DecodeError,
    >)
        ensures
            r is Ok <==> (forall|i: int|
                0 <= i < records@.len() ==> #[trigger] adapter_decode_ok(records@[i])),
            r matches Ok(None) <==> (r is Ok && records@.len() == 0),
            r matches Ok(Some(l)) ==> l@.len() == records@.len() && (forall|i: int|
                0 <= i < records@.len() ==> #[trigger] l@[i].matches_record(records@[i])),
            r matches Err(e) ==> (exists|j: int|
                #![trigger adapter_decode_ok(records@[j])]
                0 <= j < records@.len() && !adapter_decode_ok(records@[j]) && (forall|i: int|
                    0 <= i < j ==> #[trigger] adapter_decode_ok(records@[i])) && e
                    == adapter_decode_error(records@[j])),
    {
        let total = records.len();
        let ghost all = records@;
        let mut rest = records;
        let mut adapters: Vec<DisplayAdapter> = Vec::new();
        let mut idx: usize = 0;
        while rest.len() > 0
            invariant
                all == records@,
                all.len() == total,
                idx + rest@.len() == all.len(),
                rest@ == all.subrange(idx as int, all.len() as int),
                adapters@.len() == idx,
                forall|i: int| 0 <= i < idx ==> #[trigger] adapters@[i].matches_record(all[i]),
                forall|i: int| 0 <= i < idx ==> #[trigger] adapter_decode_ok(all[i]),
            decreases rest@.len(),
        {
            let ghost before = rest@;
            let rec = rest.remove(0);
            proof {
                assert(rec == all[idx as int]);
                assert(before.remove(0) =~= all.subrange(idx as int + 1, all.len() as int));
            }
            match DisplayAdapter::from_record(rec) {
                Ok(a) => {
                    adapters.push(a);
                },
                Err(e) => {
                    proof {
                        assert(records@ == all);
                        assert(!adapter_decode_ok(records@[idx as int]));
                        assert(forall|i: int|
                            0 <= i < idx as int ==> #[trigger] adapter_decode_ok(records@[i]));
                        assert(e == adapter_decode_error(records@[idx as int]));
                    }
                    return Err(e);
                },
            }
            idx += 1;
        }
        if adapters.len() == 0 {
            Ok(None)
        } else {
            Ok(Some(DisplayAdapters { adapters }))
        }
    }

    /// How many adapters the enumeration found.
    pub fn len(&self) -> (n: usize)
        ensures
            n == self@.len(),
    {
        self.adapters.len()
    }

    /// The adapter at position `n` of the enumeration order, if any.
    pub fn nth(&self, n: usize) -> (r: Option<&DisplayAdapter>)
        ensures
            (match r {
                Some(a) => n < self@.len() && *a == self@[n as int],
                None => n >= self@.len(),
            }),
    {
        if n < self.adapters.len() {
            Some(&self.adapters[n])
        } else {
            None
        }
    }

    /// The adapters whose state flags mark them part of the desktop, in
    /// enumeration order.
    pub fn active(&self) -> (r: Vec<&DisplayAdapter>)
        ensures
            deref_adapters(r@) == active_adapters(self@),
    {
        let mut out: Vec<&DisplayAdapter> = Vec::new();
        let mut i: usize = 0;
        proof {
            reveal(Seq::filter);
            assert(self@.subrange(0, 0) =~= Seq::<DisplayAdapter>::empty());
            assert(deref_adapters(out@) =~= active_adapters(self@.subrange(0, 0)));
        }
        while i < self.adapters.len()
            invariant
                i <= self@.len(),
                self@ == self.adapters@,
                deref_adapters(out@) == active_adapters(self@.subrange(0, i as int)),
            decreases self@.len() - i,
        {
            let a = &self.adapters[i];
            let ghost prev = out@;
            proof {
                reveal(Seq::filter);
                assert(self@.subrange(0, i + 1).drop_last() =~= self@.subrange(0, i as int));
                assert(self@.subrange(0, i + 1).last() == self@[i as int]);
            }
            if a.state.active() {
                out.push(a);
                proof {
                    assert(deref_adapters(out@) =~= deref_adapters(prev).push(*a));
                }
            }
            i += 1;
        }
        proof {
            assert(self@.subrange(0, self@.len() as int) =~= self@);
        }
        out
    }
}

/// Whether a monitor record decodes: each of its four text buffers must
/// hold valid UTF-16 once the null units are dropped. The state-flag word of
/// a monitor record is not read.
pub open spec fn monitor_decode_ok(r: DeviceRecord) -> bool {
    &&& decoded_text(r.device_name@) is Some
    &&& decoded_text(r.device_string@) is Some
    &&& decoded_text(r.device_id@) is Some
    &&& decoded_text(r.device_key@) is Some
}

/// The identity snapshot of one monitor, decoded from its native record: a
/// leaf value with no further operations. The record is retained privately,
/// as for an adapter.
#[derive(Debug)]
pub struct Monitor {
    /// The device name, decoded.
    pub name: String,
    /// The human-readable device string, decoded.
    pub string: String,
    /// The device identifier, decoded.
    pub id: String,
    /// The registry key, decoded.
    pub key: String,
    /// The retained native record.
    pub raw: RetainedRecord,
}

impl Monitor {
    /// The retained copy of the native record this monitor was decoded from.
    pub open spec fn raw_record(self) -> DeviceRecord {
        self.raw.spec_record()
    }

    /// Whether this monitor is the decoded form of `r`.
    pub open spec fn matches_record(self, r: DeviceRecord) -> bool {
        &&& decoded_text(r.device_name@) == Some(self.name@)
        &&& decoded_text(r.device_string@) == Some(self.string@)
        &&& decoded_text(r.device_id@) == Some(self.id@)
        &&& decoded_text(r.device_key@) == Some(self.key@)
        &&& self.raw_record() == r
    }

    /// Decodes one monitor record. Fails exactly when a text buffer is not
    /// valid UTF-16.
    pub fn from_record(record: DeviceRecord) -> (r: Result<Monitor, DecodeError>)
        ensures
            r is Ok <==> monitor_decode_ok(record),
            (match r {
                Ok(m) => m.matches_record(record),
                Err(e) => e == DecodeError::InvalidText,
            }),
    {
        let name = match string_from_utf16_and_strip_null(record.device_name.as_slice()) {
            Some(s) => s,
            None => {
                return Err(DecodeError::InvalidText);
            },
        };
        let string = match string_from_utf16_and_strip_null(record.device_string.as_slice()) {
            Some(s) => s,
            None => {
                return Err(DecodeError::InvalidText);
            },
        };
        let id = match string_from_utf16_and_strip_null(record.device_id.as_slice()) {
            Some(s) => s,
            None => {
                return Err(DecodeError::InvalidText);
            },
        };
        let key = match string_from_utf16_and_strip_null(record.device_key.as_slice()) {
            Some(s) => s,
            None => {
                return Err(DecodeError::InvalidText);
            },
        };
        Ok(Monitor { name, string, id, key, raw: RetainedRecord { record } })
    }
}

/// The ordered list of monitors attached to one adapter; absent when the
/// adapter has none.
pub struct Monitors {
    monitors: Vec<Monitor>,
}

impl View for Monitors {
    type V = Seq<Monitor>;

    closed spec fn view(&self) -> Seq<Monitor> {
        self.monitors@
    }
}

impl Monitors {
    /// Builds the monitor list of one adapter from the enumeration responses
    /// scoped to it, in the order the calls returned them. Zero records
    /// yield the absent list — the operating system reuses its one "no more
    /// items" signal for "no monitors attached", so the two cases cannot be
    /// told apart here. A record that does not decode yields the first
    /// error, in enumeration order.
    pub fn new(records: Vec<DeviceRecord>) -> (r: Result<Option<Monitors>, DecodeError>)
        ensures
            r is Ok <==> (forall|i: int|
                0 <= i < records@.len() ==> #[trigger] monitor_decode_ok(records@[i])),
            r matches Ok(None) <==> (r is Ok && records@.len() == 0),
            r matches Ok(Some(l)) ==> l@.len() == records@.len() && (forall|i: int|
                0 <= i < records@.len() ==> #[trigger] l@[i].matches_record(records@[i])),
            r matches Err(e) ==> e == DecodeError::InvalidText && (exists|j: int|
                #![trigger monitor_decode_ok(records@[j])]
                0 <= j < records@.len() && !monitor_decode_ok(records@[j]) && (forall|i: int|
                    0 <= i < j ==> #[trigger] monitor_decode_ok(records@[i]))),
    {
        let total = records.len();
        let ghost all = records@;
        let mut rest = records;
        let mut monitors: Vec<Monitor> = Vec::new();
        let mut idx: usize = 0;
        while rest.len() > 0
            invariant
                all == records@,
                all.len() == total,
                idx + rest@.len() == all.len(),
                rest@ == all.subrange(idx as int, all.len() as int),
                monitors@.len() == idx,
                forall|i: int| 0 <= i < idx ==> #[trigger] monitors@[i].matches_record(all[i]),
                forall|i: int| 0 <= i < idx ==> #[trigger] monitor_decode_ok(all[i]),
            decreases rest@.len(),
        {
            let ghost before = rest@;
            let rec = rest.remove(0);
            proof {
                assert(rec == all[idx as int]);
                assert(before.remove(0) =~= all.subrange(idx as int + 1, all.len() as int));
            }
            match Monitor::from_record(rec) {
                Ok(m) => {
                    monitors.push(m);
                },
                Err(e) => {
                    proof {
                        assert(records@ == all);
                        assert(!monitor_decode_ok(records@[idx as int]));
                        assert(forall|i: int|
                            0 <= i < idx as int ==> #[trigger] monitor_decode_ok(records@[i]));
                    }
                    return Err(e);
                },
            }
            idx += 1;
        }
        if monitors.len() == 0 {
            Ok(None)
        } else {
            Ok(Some(Monitors { monitors }))
        }
    }

    /// How many monitors the enumeration found.
    pub fn len(&self) -> (n: usize)
        ensures
            n == self@.len(),
    {
        self.monitors.len()
    }

    /// The monitor at position `n` of the enumeration order, if any.
    pub fn nth(&self, n: usize) -> (r: Option<&Monitor>)
        ensures
            (match r {
                Some(m) => n < self@.len() && *m == self@[n as int],
                None => n >= self@.len(),
            }),
    {
        if n < self.monitors.len() {
            Some(&self.monitors[n])
        } else {
            None
        }
    }
}

} // verus!
