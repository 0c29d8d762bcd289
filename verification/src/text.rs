//! Text decoding for the fixed-width UTF-16 buffers of the native display
//! records.
//!
//! Device names, device strings, identifiers and registry keys all arrive as
//! fixed-size UTF-16 buffers that are null-terminated and null-padded, and may
//! keep stale content after an embedded null from a prior use. Decoding drops
//! every null code unit, wherever it stands, and decodes what remains.

use vstd::prelude::*;

verus! {

/// What `String::from_utf16` returns for a sequence of UTF-16 code units: the
/// decoded characters, or nothing when the units are not valid UTF-16. The
/// result depends on the code units alone.
pub uninterp spec fn utf16_decoded(units: Seq<u16>) -> Option<Seq<char>>;

/// The code units of `units` that are not the null unit, in order.
pub open spec fn strip_null_units(units: Seq<u16>) -> Seq<u16> {
    units.filter(|u: u16| u != 0)
}

/// The text a fixed-width buffer decodes to: every null code unit is dropped
/// first, and what remains is decoded as UTF-16.
pub open spec fn decoded_text(units: Seq<u16>) -> Option<Seq<char>> {
    utf16_decoded(strip_null_units(units))
}

/// Relies on `String::from_utf16`: it decodes a UTF-16 code-unit slice and
/// fails exactly on invalid data. A unit below the surrogate range decodes to
/// the character with that code point, one unit to one character, and no
/// nonzero unit decodes to a null character.
#[verifier::external_body]
fn decode_utf16_units(units: &Vec<u16>) -> (r: Option<String>)
    ensures
        (match r {
            Some(s) => utf16_decoded(units@) == Some(s@),
            None => utf16_decoded(units@) is None,
        }),
        (forall|i: int| 0 <= i < units@.len() ==> units@[i] < 0xD800) ==> (match r {
            Some(s) => s@ == Seq::new(units@.len(), |i: int| ((units@[i] as u32) as char)),
            None => false,
        }),
        (match r {
            Some(s) => !units@.contains(0) ==> !s@.contains('\0'),
            None => true,
        }),
{
    String::from_utf16(units).ok()
}

/// Decodes a fixed-width UTF-16 text buffer, dropping every null code unit
/// (terminator, padding, and embedded nulls alike) before decoding, so the
/// result never holds a null character. Returns `None` exactly when the
/// remaining units are not valid UTF-16.
pub fn string_from_utf16_and_strip_null(v: &[u16]) -> (r: Option<String>)
    ensures
        (match r {
            Some(s) => decoded_text(v@) == Some(s@) && !s@.contains('\0'),
            None => decoded_text(v@) is None,
        }),
{
    let mut kept: Vec<u16> = Vec::new();
    let mut i: usize = 0;
    proof {
        reveal(Seq::filter);
        assert(v@.subrange(0, 0) =~= Seq::<u16>::empty());
    }
    while i < v.len()
        invariant
            i <= v@.len(),
            kept@ == strip_null_units(v@.subrange(0, i as int)),
            forall|k: int| 0 <= k < kept@.len() ==> kept@[k] != 0,
        decreases v@.len() - i,
    {
        let u = v[i];
        proof {
            reveal(Seq::filter);
            assert(v@.subrange(0, i + 1).drop_last() =~= v@.subrange(0, i as int));
            assert(v@.subrange(0, i + 1).last() == v@[i as int]);
        }
        if u != 0 {
            kept.push(u);
        }
        i += 1;
    }
    proof {
        assert(v@.subrange(0, v@.len() as int) =~= v@);
    }
    decode_utf16_units(&kept)
}

} // verus!
