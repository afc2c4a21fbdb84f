//! Choosing a stress option for a case and writing the accented word.
use vstd::prelude::*;

use crate::diacritics::{accent_form, lemma_forms_not_empty, make_stressed, table_keys};
use crate::error::AccentError;
use crate::text::same_text;

verus! {

/// One stress placement that the analyzer proposes for a word.
#[derive(Debug, Clone)]
pub struct StressOption {
    /// The Lithuanian label of the grammatical case.
    pub grammatical_case: String,
    /// The pitch-accent class: 0, 1 or 2.
    pub stress_type: u8,
    /// The zero-based code-point index of the stressed letter.
    pub stressed_letter_index: usize,
}

/// Whether the option is the one for `case`, compared exactly.
pub open spec fn names_case(option: StressOption, case: Seq<char>) -> bool {
    option.grammatical_case@ == case
}

/// Index `i` holds the first option for `case`.
pub open spec fn is_first_match(options: Seq<StressOption>, case: Seq<char>, i: int) -> bool {
    &&& 0 <= i < options.len()
    &&& names_case(options[i], case)
    &&& forall|j: int| 0 <= j < i ==> !names_case(#[trigger] options[j], case)
}

/// The option chosen for `case`: the first one, in list order, that names it.
pub open spec fn selected(options: Seq<StressOption>, case: Seq<char>) -> Result<
    StressOption,
    AccentError,
> {
    if exists|i: int| is_first_match(options, case, i) {
        Ok(options[choose|i: int| is_first_match(options, case, i)])
    } else {
        Err(AccentError::CaseNotFound)
    }
}

/// The word with the letter at `index` replaced by its accented form.
pub open spec fn rendered(word: Seq<char>, stress_type: u8, index: int) -> Result<
    Seq<char>,
    AccentError,
> {
    if index < 0 || index >= word.len() {
        Err(AccentError::IndexOutOfRange)
    } else {
        match accent_form(stress_type, word[index]) {
            Ok(form) => Ok(word.take(index) + form + word.skip(index + 1)),
            Err(e) => Err(e),
        }
    }
}

/// The word accented for `case`, with the option chosen from `options`.
pub open spec fn accentuation(word: Seq<char>, case: Seq<char>, options: Seq<StressOption>) -> Result<
    Seq<char>,
    AccentError,
> {
    match selected(options, case) {
        Ok(option) => rendered(word, option.stress_type, option.stressed_letter_index as int),
        Err(e) => Err(e),
    }
}

/// There is at most one first match.
proof fn lemma_first_match_unique(options: Seq<StressOption>, case: Seq<char>, i: int, k: int)
    requires
        is_first_match(options, case, i),
        is_first_match(options, case, k),
    ensures
        i == k,
{
    if i < k {
        assert(!names_case(options[i], case));
    } else if k < i {
        assert(!names_case(options[k], case));
    }
}

/// Rendering touches no code point but the stressed one: the letters before
/// the index come out as they were, the accented form stands at the index,
/// the letters after it follow unchanged, and the length grows by the length
/// of the accented form less one.
pub proof fn lemma_render_keeps_other_letters(word: Seq<char>, stress_type: u8, index: int)
    requires
        rendered(word, stress_type, index) is Ok,
    ensures
        ({
            let out = rendered(word, stress_type, index)->Ok_0;
            let form = accent_form(stress_type, word[index])->Ok_0;
            &&& 0 <= index < word.len()
            &&& form.len() >= 1
            &&& out.len() == word.len() - 1 + form.len()
            &&& forall|j: int| 0 <= j < index ==> out[j] == word[j]
            &&& out.subrange(index, index + form.len()) == form
            &&& forall|j: int|
                index < j < word.len() ==> out[j + form.len() - 1] == #[trigger] word[j]
        }),
{
    let form = accent_form(stress_type, word[index])->Ok_0;
    let out = rendered(word, stress_type, index)->Ok_0;
    lemma_forms_not_empty(stress_type, word[index]);
    assert(out == word.take(index) + form + word.skip(index + 1));
    assert(out.subrange(index, index + form.len()) =~= form);
    assert forall|j: int| index < j < word.len() implies out[j + form.len() - 1] == #[trigger] word[j] by {
        assert(word.skip(index + 1)[j - index - 1] == word[j]);
    }
}

/// A letter that is a key of the table of the stress type never makes
/// rendering fail: no mapping is missing and no index is out of range.
pub proof fn lemma_table_keys_render(word: Seq<char>, stress_type: u8, index: int)
    requires
        0 <= index < word.len(),
        table_keys(stress_type).contains(word[index]),
    ensures
        rendered(word, stress_type, index) is Ok,
{
}

/// The first option, in list order, whose case is exactly `target_case`.
pub fn select<'a>(options: &'a Vec<StressOption>, target_case: &str) -> (r: Result<
    &'a StressOption,
    AccentError,
>)
    ensures
        match r {
            Ok(option) => exists|i: int|
                is_first_match(options@, target_case@, i) && options@[i] == *option,
            Err(e) => e == AccentError::CaseNotFound && forall|i: int|
                0 <= i < options@.len() ==> !names_case(#[trigger] options@[i], target_case@),
        },
        match r {
            Ok(option) => selected(options@, target_case@) == Ok::<StressOption, AccentError>(
                *option,
            ),
            Err(e) => selected(options@, target_case@) == Err::<StressOption, AccentError>(e),
        },
{
    let mut i: usize = 0;
    while i < options.len()
        invariant
            i <= options@.len(),
            forall|j: int| 0 <= j < i ==> !names_case(#[trigger] options@[j], target_case@),
        decreases options@.len() - i,
    {
        let option = &options[i];
        if same_text(option.grammatical_case.as_str(), target_case) {
            proof {
                assert(is_first_match(options@, target_case@, i as int));
                let k = choose|k: int| is_first_match(options@, target_case@, k);
                lemma_first_match_unique(options@, target_case@, i as int, k);
            }
            return Ok(option);
        }
        i = i + 1;
    }
    Err(AccentError::CaseNotFound)
}

/// The word with the code point at `index` replaced by its accented form in
/// the table of `stress_type`; every other code point is kept.
pub fn render(word: &str, stress_type: u8, index: usize) -> (r: Result<String, AccentError>)
    ensures
        match r {
            Ok(s) => rendered(word@, stress_type, index as int) == Ok::<Seq<char>, AccentError>(
                s@,
            ),
            Err(e) => rendered(word@, stress_type, index as int) == Err::<Seq<char>, AccentError>(
                e,
            ),
        },
{
    let n = word.unicode_len();
    if index >= n {
        return Err(AccentError::IndexOutOfRange);
    }
    let c = word.get_char(index);
    match make_stressed(c, stress_type) {
        Ok(form) => {
            let mut out = String::from_str(word.substring_char(0, index));
            out.append(form);
            out.append(word.substring_char(index + 1, n));
            assert(word@.skip(index + 1) == word@.subrange(index + 1, n as int));
            Ok(out)
        },
        Err(e) => Err(e),
    }
}

/// `word` accented for `case`: the first option for the case is chosen from
/// `options`, the candidates that the analyzer gave for the word, and its
/// stressed letter takes the mark of its stress type.
pub fn get_accentuation(word: &str, case: &str, options: &Vec<StressOption>) -> (r: Result<
    String,
    AccentError,
>)
    ensures
        match r {
            Ok(s) => accentuation(word@, case@, options@) == Ok::<Seq<char>, AccentError>(s@),
            Err(e) => accentuation(word@, case@, options@) == Err::<Seq<char>, AccentError>(e),
        },
{
    match select(options, case) {
        Ok(option) => render(word, option.stress_type, option.stressed_letter_index),
        Err(e) => Err(e),
    }
}

} // verus!
