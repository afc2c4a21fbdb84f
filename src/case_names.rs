//! Translating English case names to the Lithuanian case labels.
use vstd::prelude::*;

use crate::text::same_text;

verus! {

/// What `str::to_lowercase` makes of a string.
pub uninterp spec fn lower_of(s: Seq<char>) -> Seq<char>;

/// Every code point is ASCII.
pub open spec fn is_ascii_text(s: Seq<char>) -> bool {
    forall|i: int| 0 <= i < s.len() ==> #[trigger] s[i] <= '\u{7f}'
}

/// `lower` is the ASCII lower case of `c`: `A`..=`Z` become `a`..=`z`, all
/// else stays as it is.
pub open spec fn is_ascii_lower_of(c: char, lower: char) -> bool {
    if 'A' <= c && c <= 'Z' {
        lower as int == c as int + 32
    } else {
        lower == c
    }
}

/// `s` is `name` with the case of some of its ASCII letters changed.
pub open spec fn is_casing_of(s: Seq<char>, name: Seq<char>) -> bool {
    &&& is_ascii_text(s)
    &&& s.len() == name.len()
    &&& forall|i: int| 0 <= i < s.len() ==> is_ascii_lower_of(#[trigger] s[i], name[i])
}

/// Relies on `str::to_lowercase`: the result depends on the code points
/// alone, and on ASCII text it maps `A`..=`Z` to `a`..=`z` one for one and
/// keeps every other code point.
#[verifier::external_body]
fn lowercase(s: &str) -> (r: String)
    ensures
        r@ == lower_of(s@),
        is_ascii_text(s@) ==> r@.len() == s@.len() && forall|i: int|
            0 <= i < s@.len() ==> is_ascii_lower_of(s@[i], #[trigger] r@[i]),
{
    s.to_lowercase()
}

/// The English name, in lower case, of case number `i` (0 to 6).
pub open spec fn english_case_name(i: int) -> Seq<char> {
    if i == 0 {
        "nominative"@
    } else if i == 1 {
        "genitive"@
    } else if i == 2 {
        "dative"@
    } else if i == 3 {
        "accusative"@
    } else if i == 4 {
        "instrumental"@
    } else if i == 5 {
        "locative"@
    } else {
        "vocative"@
    }
}

/// The Lithuanian label of case number `i` (0 to 6).
pub open spec fn lithuanian_case_label(i: int) -> Seq<char> {
    if i == 0 {
        "Vardininkas"@
    } else if i == 1 {
        "Kilmininkas"@
    } else if i == 2 {
        "Naudininkas"@
    } else if i == 3 {
        "Galininkas"@
    } else if i == 4 {
        "\u{12e}nagininkas"@
    } else if i == 5 {
        "Vietininkas"@
    } else {
        "\u{160}auksmininkas"@
    }
}

/// The label of a lower-case English case name, or `UNKNOWN`.
pub open spec fn case_label(lowered: Seq<char>) -> Seq<char> {
    if lowered == "nominative"@ {
        "Vardininkas"@
    } else if lowered == "genitive"@ {
        "Kilmininkas"@
    } else if lowered == "dative"@ {
        "Naudininkas"@
    } else if lowered == "accusative"@ {
        "Galininkas"@
    } else if lowered == "instrumental"@ {
        "\u{12e}nagininkas"@
    } else if lowered == "locative"@ {
        "Vietininkas"@
    } else if lowered == "vocative"@ {
        "\u{160}auksmininkas"@
    } else {
        "UNKNOWN"@
    }
}

/// The Lithuanian label of an English case name that is already in lower
/// case, or `UNKNOWN` for any other text.
pub fn lookup_case_name(lowered: &str) -> (r: &'static str)
    ensures
        r@ == case_label(lowered@),
{
    if same_text(lowered, "nominative") {
        "Vardininkas"
    } else if same_text(lowered, "genitive") {
        "Kilmininkas"
    } else if same_text(lowered, "dative") {
        "Naudininkas"
    } else if same_text(lowered, "accusative") {
        "Galininkas"
    } else if same_text(lowered, "instrumental") {
        "\u{12e}nagininkas"
    } else if same_text(lowered, "locative") {
        "Vietininkas"
    } else if same_text(lowered, "vocative") {
        "\u{160}auksmininkas"
    } else {
        "UNKNOWN"
    }
}

/// The English names of the cases differ from one another, and `case_label`
/// gives each its own label.
proof fn lemma_case_table()
    ensures
        forall|i: int|
            0 <= i < 7 ==> case_label(#[trigger] english_case_name(i)) == lithuanian_case_label(i),
{
    reveal_strlit("nominative");
    reveal_strlit("genitive");
    reveal_strlit("dative");
    reveal_strlit("accusative");
    reveal_strlit("instrumental");
    reveal_strlit("locative");
    reveal_strlit("vocative");
    // The seven names start with seven different letters.
    assert("nominative"@[0] == 'n');
    assert("genitive"@[0] == 'g');
    assert("dative"@[0] == 'd');
    assert("accusative"@[0] == 'a');
    assert("instrumental"@[0] == 'i');
    assert("locative"@[0] == 'l');
    assert("vocative"@[0] == 'v');
}

/// The Lithuanian label of an English case name, whatever the case of its
/// letters, or `UNKNOWN` when the name is not one of the seven cases.
pub fn get_case_name(case: &str) -> (r: &'static str)
    ensures
        r@ == case_label(lower_of(case@)),
        forall|i: int|
            0 <= i < 7 && is_casing_of(case@, #[trigger] english_case_name(i))
                ==> r@ == lithuanian_case_label(i),
        is_ascii_text(case@) && (forall|i: int|
            0 <= i < 7 ==> !is_casing_of(case@, #[trigger] english_case_name(i))) ==> r@
            == "UNKNOWN"@,
{
    let lowered = lowercase(case);
    let r = lookup_case_name(lowered.as_str());
    proof {
        lemma_case_table();
        if is_ascii_text(case@) {
            assert forall|i: int|
                0 <= i < 7 && is_casing_of(case@, #[trigger] english_case_name(i)) implies lowered@
                == english_case_name(i) by {
                let name = english_case_name(i);
                assert forall|k: int| 0 <= k < name.len() implies lowered@[k] == name[k] by {
                    assert(is_ascii_lower_of(case@[k], name[k]));
                    assert(is_ascii_lower_of(case@[k], lowered@[k]));
                }
                assert(lowered@ =~= name);
            }
            if forall|i: int| 0 <= i < 7 ==> !is_casing_of(case@, #[trigger] english_case_name(i)) {
                assert forall|i: int| 0 <= i < 7 implies lowered@ != #[trigger] english_case_name(
                    i,
                ) by {
                    if lowered@ == english_case_name(i) {
                        assert forall|k: int| 0 <= k < case@.len() implies is_ascii_lower_of(
                            #[trigger] case@[k],
                            english_case_name(i)[k],
                        ) by {
                            assert(is_ascii_lower_of(case@[k], lowered@[k]));
                        }
                        assert(is_casing_of(case@, english_case_name(i)));
                    }
                }
                assert(lowered@ != english_case_name(0));
                assert(lowered@ != english_case_name(1));
                assert(lowered@ != english_case_name(2));
                assert(lowered@ != english_case_name(3));
                assert(lowered@ != english_case_name(4));
                assert(lowered@ != english_case_name(5));
                assert(lowered@ != english_case_name(6));
            }
        }
    }
    r
}

} // verus!
