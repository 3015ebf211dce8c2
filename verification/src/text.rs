//! The text resolver: turning a firmware wide-character path into a
//! displayable string.
//!
//! The device-path-to-text interface hands back a firmware-allocated,
//! null-terminated buffer of 16-bit code units.  The resolver reads that
//! buffer one code unit at a time and keeps every unit that is
//! representable as a character, silently dropping the rest (the UTF-16
//! surrogate range) — display is best effort and an unrepresentable unit
//! is no error.  The buffer stays owned by the firmware; the driver copies
//! the units out and hands them here as plain values.

use vstd::prelude::*;

verus! {

/// Descriptor for the device-path-to-text conversion interface.  In
/// firmware memory the record holds two entry points, converting a single
/// device-path node or a full device path into a wide-character string;
/// both take two flags controlling display verbosity and shortcut
/// substitution.  The entry points are firmware calls made by the driver,
/// so the model keeps no fields.
pub struct DevicePathToText {
}

/// Whether a 16-bit code unit is displayable, i.e. representable as a
/// character: everything except the UTF-16 surrogate range.
pub open spec fn displayable(u: u16) -> bool {
    u < 0xD800 || u >= 0xE000
}

/// The characters a sequence of 16-bit code units displays as: each
/// displayable unit becomes the character with that code point, in order,
/// and every other unit is dropped.
pub open spec fn display_chars(units: Seq<u16>) -> Seq<char>
    decreases units.len(),
{
    if units.len() == 0 {
        Seq::empty()
    } else if displayable(units.last()) {
        display_chars(units.drop_last()).push(units.last() as char)
    } else {
        display_chars(units.drop_last())
    }
}

/// Relies on char::from_u32: returns the character with the given code
/// point, or None when the value is in the surrogate range or above the
/// largest code point.
pub assume_specification[ char::from_u32 ](v: u32) -> (r: Option<char>)
    ensures
        r == (if v < 0xD800 || (0xE000 <= v && v <= 0x10FFFF) {
            Some(v as char)
        } else {
            None::<char>
        }),
;

/// Relies on String::push: appends the given character to the end of the
/// string.
pub assume_specification[ String::push ](s: &mut String, ch: char)
    ensures
        final(s)@ == old(s)@.push(ch),
;

/// Law: display is best effort and unit-local.  A code unit outside the
/// displayable range contributes nothing to the displayed text — it is
/// dropped silently, with every other unit unaffected — while a
/// displayable unit is kept as the character with its code point.
pub proof fn lemma_display_chars_push(units: Seq<u16>, u: u16)
    ensures
        !displayable(u) ==> display_chars(units.push(u)) == display_chars(units),
        displayable(u) ==> display_chars(units.push(u)) == display_chars(units).push(u as char),
{
    assert(units.push(u).drop_last() =~= units);
    assert(units.push(u).last() == u);
}

/// Decodes a wide-character path, one code unit at a time, into the
/// crate's own text representation, dropping every unit outside the
/// displayable range without raising an error.
pub fn display_string(units: &Vec<u16>) -> (r: String)
    ensures
        r@ == display_chars(units@),
{
    let mut r = String::new();
    let mut i: usize = 0;
    while i < units.len()
        invariant
            i <= units@.len(),
            r@ == display_chars(units@.take(i as int)),
        decreases units@.len() - i,
    {
        let u: u16 = units[i];
        if u < 0xD800 || u >= 0xE000 {
            if let Some(c) = char::from_u32(u as u32) {
                r.push(c);
            }
        }
        proof {
            assert(units@.take(i + 1).drop_last() =~= units@.take(i as int));
        }
        i = i + 1;
    }
    proof {
        assert(units@.take(units@.len() as int) =~= units@);
    }
    r
}

} // verus!
