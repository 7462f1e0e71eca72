//! Key label mapping: the engine's raw key encoding — a mode tag plus a
//! pitch-class index — rendered as a display label such as `"C Major"`.
//!
//! A fixed table names the twelve pitch classes; an index outside the table
//! (a defensive case, not expected of a well-behaved engine) is named
//! `"Unknown"` rather than failing.

use vstd::prelude::*;
use vstd::string::StringExecFns;

verus! {

/// The raw key encoding the Analysis Engine reports: major or minor mode
/// together with a pitch-class index (0 = C, 1 = C#, ..., 11 = B).
#[derive(Clone, Copy, PartialEq, Eq, Structural)]
pub enum RawKey {
    Major(u32),
    Minor(u32),
}

/// The pitch-class index the key carries, whatever its mode.
pub open spec fn pitch_class(key: RawKey) -> u32 {
    match key {
        RawKey::Major(pc) => pc,
        RawKey::Minor(pc) => pc,
    }
}

/// The chromatic name of pitch class `pc`, or `"Unknown"` for an index
/// outside the twelve-entry table.
pub open spec fn note_name(pc: u32) -> Seq<char> {
    if pc == 0 {
        "C"@
    } else if pc == 1 {
        "C#"@
    } else if pc == 2 {
        "D"@
    } else if pc == 3 {
        "D#"@
    } else if pc == 4 {
        "E"@
    } else if pc == 5 {
        "F"@
    } else if pc == 6 {
        "F#"@
    } else if pc == 7 {
        "G"@
    } else if pc == 8 {
        "G#"@
    } else if pc == 9 {
        "A"@
    } else if pc == 10 {
        "A#"@
    } else if pc == 11 {
        "B"@
    } else {
        "Unknown"@
    }
}

/// The name of the key's mode.
pub open spec fn mode_name(key: RawKey) -> Seq<char> {
    match key {
        RawKey::Major(_) => "Major"@,
        RawKey::Minor(_) => "Minor"@,
    }
}

/// The display label of a raw key: its pitch-class name, a space, and its
/// mode name.
pub open spec fn key_label(key: RawKey) -> Seq<char> {
    note_name(pitch_class(key)) + " "@ + mode_name(key)
}

/// The chromatic name of pitch class `pc` from the fixed twelve-entry table,
/// `"Unknown"` past its end.
fn note_name_str(pc: u32) -> (name: &'static str)
    ensures
        name@ == note_name(pc),
{
    if pc == 0 {
        "C"
    } else if pc == 1 {
        "C#"
    } else if pc == 2 {
        "D"
    } else if pc == 3 {
        "D#"
    } else if pc == 4 {
        "E"
    } else if pc == 5 {
        "F"
    } else if pc == 6 {
        "F#"
    } else if pc == 7 {
        "G"
    } else if pc == 8 {
        "G#"
    } else if pc == 9 {
        "A"
    } else if pc == 10 {
        "A#"
    } else if pc == 11 {
        "B"
    } else {
        "Unknown"
    }
}

/// Render a raw key as its display label, `"<PitchClassName> <Major|Minor>"`.
pub fn key_to_string(key: RawKey) -> (label: String)
    ensures
        label@ == key_label(key),
{
    let pc = match key {
        RawKey::Major(pc) => pc,
        RawKey::Minor(pc) => pc,
    };
    let mode = match key {
        RawKey::Major(_) => "Major",
        RawKey::Minor(_) => "Minor",
    };
    let mut label = note_name_str(pc).to_owned();
    label.append(" ");
    label.append(mode);
    label
}

} // verus!
