use lithuanian_phonology::diacritics::make_stressed;
use lithuanian_phonology::{get_accentuation, render, select, AccentError, StressOption};

fn option(case: &str, stress_type: u8, index: usize) -> StressOption {
    StressOption {
        grammatical_case: case.to_string(),
        stress_type,
        stressed_letter_index: index,
    }
}

fn gera_options() -> Vec<StressOption> {
    vec![
        option("Vardininkas", 0, 3),
        option("UNKNOWN", 2, 1),
        option("Galininkas", 0, 3),
    ]
}

fn zodi_options() -> Vec<StressOption> {
    vec![option("Vardininkas", 2, 1), option("Galininkas", 2, 1)]
}

#[test]
fn gera_nominative_takes_grave_on_last_letter() {
    assert_eq!(
        get_accentuation("gera", "Vardininkas", &gera_options()),
        Ok(String::from("ger\u{e0}"))
    );
}

#[test]
fn gera_unknown_label_matches_fixture_record() {
    assert_eq!(
        get_accentuation("gera", "UNKNOWN", &gera_options()),
        Ok(String::from("g\u{1ebd}ra"))
    );
}

#[test]
fn zodi_accusative_takes_tilde_on_o() {
    assert_eq!(
        get_accentuation("\u{17e}od\u{12f}", "Galininkas", &zodi_options()),
        Ok(String::from("\u{17e}\u{f5}d\u{12f}"))
    );
}

#[test]
fn absent_case_is_case_not_found() {
    assert_eq!(
        get_accentuation("gera", "Kilmininkas", &gera_options()),
        Err(AccentError::CaseNotFound)
    );
    assert_eq!(
        get_accentuation("gera", "Vardininkas", &Vec::new()),
        Err(AccentError::CaseNotFound)
    );
}

#[test]
fn case_match_is_exact() {
    assert_eq!(
        get_accentuation("gera", "vardininkas", &gera_options()),
        Err(AccentError::CaseNotFound)
    );
}

#[test]
fn index_past_end_is_out_of_range() {
    assert_eq!(render("gera", 0, 4), Err(AccentError::IndexOutOfRange));
    assert_eq!(render("", 2, 0), Err(AccentError::IndexOutOfRange));
    let options = vec![option("Vardininkas", 0, 9)];
    assert_eq!(
        get_accentuation("gera", "Vardininkas", &options),
        Err(AccentError::IndexOutOfRange)
    );
}

#[test]
fn letter_without_form_is_missing_mapping() {
    assert_eq!(render("gera", 0, 0), Err(AccentError::MissingMapping));
    assert_eq!(render("gera", 1, 3), Err(AccentError::MissingMapping));
}

#[test]
fn stress_type_above_two_is_invalid() {
    assert_eq!(render("gera", 3, 1), Err(AccentError::InvalidStressType));
    assert_eq!(make_stressed('a', 7), Err(AccentError::InvalidStressType));
}

#[test]
fn select_takes_first_of_duplicates() {
    let options = vec![
        option("Kilmininkas", 1, 0),
        option("Vardininkas", 0, 3),
        option("Vardininkas", 2, 1),
    ];
    let chosen = select(&options, "Vardininkas").unwrap();
    assert_eq!(chosen.stress_type, 0);
    assert_eq!(chosen.stressed_letter_index, 3);
    assert_eq!(
        get_accentuation("gera", "Vardininkas", &options),
        Ok(String::from("ger\u{e0}"))
    );
}

#[test]
fn select_without_match_fails() {
    let options = gera_options();
    assert_eq!(select(&options, "Vietininkas").err(), Some(AccentError::CaseNotFound));
}

#[test]
fn render_changes_only_the_stressed_letter() {
    let word = "kalnas";
    let out = render(word, 2, 2).unwrap();
    assert_eq!(out, "kal\u{303}nas");
    let before: Vec<char> = word.chars().collect();
    let after: Vec<char> = out.chars().collect();
    assert_eq!(after.len(), before.len() + 1);
    assert_eq!(&after[..2], &before[..2]);
    assert_eq!(&after[4..], &before[3..]);
}

#[test]
fn render_with_precomposed_form_keeps_length() {
    let out = render("gera", 0, 3).unwrap();
    assert_eq!(out.chars().count(), 4);
    assert_eq!(out, "ger\u{e0}");
}

#[test]
fn render_on_multibyte_word() {
    assert_eq!(render("\u{17e}\u{105}sis", 1, 1), Ok(String::from("\u{17e}\u{105}\u{301}sis")));
    assert_eq!(render("\u{17e}\u{105}sis", 2, 1), Ok(String::from("\u{17e}\u{105}\u{303}sis")));
}

#[test]
fn every_table_key_renders() {
    let keys: [&[char]; 3] = [
        &['a', 'i', 'u'],
        &['\u{16b}', 'e', '\u{117}', '\u{12f}', '\u{105}', '\u{173}'],
        &[
            '\u{105}', 'e', '\u{117}', '\u{119}', '\u{12f}', 'l', 'm', 'o', 'r', '\u{173}',
            '\u{16b}', 'y',
        ],
    ];
    for (stress_type, letters) in keys.iter().enumerate() {
        for &c in letters.iter() {
            let word: String = ['x', c, 'x'].iter().collect();
            let out = render(&word, stress_type as u8, 1).unwrap();
            assert!(out.starts_with('x') && out.ends_with('x'));
            assert_ne!(out, word);
        }
    }
}

#[test]
fn table_forms_are_exact() {
    assert_eq!(make_stressed('u', 0), Ok("u\u{300}"));
    assert_eq!(make_stressed('i', 0), Ok("\u{ec}"));
    assert_eq!(make_stressed('e', 1), Ok("\u{119}\u{301}"));
    assert_eq!(make_stressed('e', 2), Ok("\u{1ebd}"));
    assert_eq!(make_stressed('y', 2), Ok("\u{1ef9}"));
    assert_eq!(make_stressed('y', 0), Err(AccentError::MissingMapping));
}
