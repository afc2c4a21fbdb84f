//! Lithuanian pitch-accent rendering.
//!
//! Given a word, a grammatical case and the stress options that a
//! phonological analyzer proposes for the word, the library picks the option
//! for the case and writes the word with the matching diacritic mark.
pub mod error;
pub mod text;
pub mod case_names;
pub mod diacritics;
pub mod accent;

pub use accent::{get_accentuation, render, select, StressOption};
pub use case_names::get_case_name;
pub use error::AccentError;
