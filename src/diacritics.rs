//! The three diacritic tables, one per pitch-accent class.
use vstd::prelude::*;

use crate::error::AccentError;

verus! {

/// Short (falling) tone: a grave accent on `a`, `i`, `u`.
pub open spec fn grave_form(c: char) -> Option<Seq<char>> {
    match c {
        'a' => Some("\u{e0}"@),
        'i' => Some("\u{ec}"@),
        'u' => Some("u\u{300}"@),
        _ => None,
    }
}

/// Acute (rising) tone on long and nasal vowels.
pub open spec fn acute_form(c: char) -> Option<Seq<char>> {
    match c {
        '\u{16b}' => Some("\u{16b}\u{301}"@),
        'e' => Some("\u{119}\u{301}"@),
        '\u{117}' => Some("\u{117}\u{301}"@),
        '\u{12f}' => Some("\u{12f}\u{301}"@),
        '\u{105}' => Some("\u{105}\u{301}"@),
        '\u{173}' => Some("\u{173}\u{301}"@),
        _ => None,
    }
}

/// Broken (circumflex) tone: a tilde, also on the sonorants `l`, `m`, `r`.
pub open spec fn tilde_form(c: char) -> Option<Seq<char>> {
    match c {
        '\u{105}' => Some("\u{105}\u{303}"@),
        'e' => Some("\u{1ebd}"@),
        '\u{117}' => Some("\u{117}\u{303}"@),
        '\u{119}' => Some("\u{119}\u{303}"@),
        '\u{12f}' => Some("\u{12f}\u{303}"@),
        'l' => Some("l\u{303}"@),
        'm' => Some("m\u{303}"@),
        'o' => Some("\u{f5}"@),
        'r' => Some("r\u{303}"@),
        '\u{173}' => Some("\u{173}\u{303}"@),
        '\u{16b}' => Some("\u{16b}\u{303}"@),
        'y' => Some("\u{1ef9}"@),
        _ => None,
    }
}

/// The stress types that name a diacritic table.
pub open spec fn is_stress_type(stress_type: u8) -> bool {
    stress_type <= 2
}

/// The table of a stress type, looked up at `c`.
pub open spec fn table_entry(stress_type: u8, c: char) -> Option<Seq<char>> {
    if stress_type == 0 {
        grave_form(c)
    } else if stress_type == 1 {
        acute_form(c)
    } else if stress_type == 2 {
        tilde_form(c)
    } else {
        None
    }
}

/// The key set of the table of a stress type.
pub open spec fn table_keys(stress_type: u8) -> Set<char> {
    Set::new(|c: char| table_entry(stress_type, c) is Some)
}

/// What looking `c` up in the table of `stress_type` yields.
pub open spec fn accent_form(stress_type: u8, c: char) -> Result<Seq<char>, AccentError> {
    if !is_stress_type(stress_type) {
        Err(AccentError::InvalidStressType)
    } else {
        match table_entry(stress_type, c) {
            Some(form) => Ok(form),
            None => Err(AccentError::MissingMapping),
        }
    }
}

/// No accented form is empty.
pub proof fn lemma_forms_not_empty(stress_type: u8, c: char)
    ensures
        accent_form(stress_type, c) is Ok ==> accent_form(stress_type, c)->Ok_0.len() >= 1,
{
    reveal_strlit("\u{e0}");
    reveal_strlit("\u{ec}");
    reveal_strlit("u\u{300}");
    reveal_strlit("\u{16b}\u{301}");
    reveal_strlit("\u{119}\u{301}");
    reveal_strlit("\u{117}\u{301}");
    reveal_strlit("\u{12f}\u{301}");
    reveal_strlit("\u{105}\u{301}");
    reveal_strlit("\u{173}\u{301}");
    reveal_strlit("\u{105}\u{303}");
    reveal_strlit("\u{1ebd}");
    reveal_strlit("\u{117}\u{303}");
    reveal_strlit("\u{119}\u{303}");
    reveal_strlit("\u{12f}\u{303}");
    reveal_strlit("l\u{303}");
    reveal_strlit("m\u{303}");
    reveal_strlit("\u{f5}");
    reveal_strlit("r\u{303}");
    reveal_strlit("\u{173}\u{303}");
    reveal_strlit("\u{16b}\u{303}");
    reveal_strlit("\u{1ef9}");
}

/// The accented form of `c` in the table of `stress_type`.
pub fn make_stressed(c: char, stress_type: u8) -> (r: Result<&'static str, AccentError>)
    ensures
        match r {
            Ok(s) => accent_form(stress_type, c) == Ok::<Seq<char>, AccentError>(s@),
            Err(e) => accent_form(stress_type, c) == Err::<Seq<char>, AccentError>(e),
        },
{
    if stress_type == 0 {
        match c {
            'a' => Ok("\u{e0}"),
            'i' => Ok("\u{ec}"),
            'u' => Ok("u\u{300}"),
            _ => Err(AccentError::MissingMapping),
        }
    } else if stress_type == 1 {
        match c {
            '\u{16b}' => Ok("\u{16b}\u{301}"),
            'e' => Ok("\u{119}\u{301}"),
            '\u{117}' => Ok("\u{117}\u{301}"),
            '\u{12f}' => Ok("\u{12f}\u{301}"),
            '\u{105}' => Ok("\u{105}\u{301}"),
            '\u{173}' => Ok("\u{173}\u{301}"),
            _ => Err(AccentError::MissingMapping),
        }
    } else if stress_type == 2 {
        match c {
            '\u{105}' => Ok("\u{105}\u{303}"),
            'e' => Ok("\u{1ebd}"),
            '\u{117}' => Ok("\u{117}\u{303}"),
            '\u{119}' => Ok("\u{119}\u{303}"),
            '\u{12f}' => Ok("\u{12f}\u{303}"),
            'l' => Ok("l\u{303}"),
            'm' => Ok("m\u{303}"),
            'o' => Ok("\u{f5}"),
            'r' => Ok("r\u{303}"),
            '\u{173}' => Ok("\u{173}\u{303}"),
            '\u{16b}' => Ok("\u{16b}\u{303}"),
            'y' => Ok("\u{1ef9}"),
            _ => Err(AccentError::MissingMapping),
        }
    } else {
        Err(AccentError::InvalidStressType)
    }
}

} // verus!
