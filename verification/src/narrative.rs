//! The narrative contagion page: the analysis form, and the themes its
//! spread and counter-narrative tools work on.

use vstd::prelude::*;
use crate::forms::{outcome_view, require_text, required_spec};

verus! {

broadcast use vstd::string::group_string_axioms;

/// Reads the analysis form: the trimmed text is required.
pub fn prepare_narrative_text(text: &str) -> (r: Result<String, &'static str>)
    ensures
        outcome_view(r) == required_spec(text@, "Please enter text to analyze."@),
{
    require_text(text, "Please enter text to analyze.")
}

/// Reads a theme field of the spread and counter-narrative tools: the
/// trimmed theme is required.
pub fn prepare_theme(theme: &str) -> (r: Result<String, &'static str>)
    ensures
        outcome_view(r) == required_spec(theme@, "Select a narrative theme first."@),
{
    require_text(theme, "Select a narrative theme first.")
}

/// The theme a tool holds after an analysis arrives: the theme of the
/// first narrative found, or the one it held when none was found.
pub fn theme_after_analysis(current: String, themes: &Vec<String>) -> (r: String)
    ensures
        themes.len() > 0 ==> r@ == themes@[0]@,
        themes.len() == 0 ==> r@ == current@,
{
    if themes.len() > 0 {
        String::from_str(themes[0].as_str())
    } else {
        current
    }
}

} // verus!
