//! The multilingual outreach page: the offered languages, the translation
//! form and the cultural adaptation form.

use vstd::prelude::*;
use vstd::string::*;
use crate::forms::{opt_view, optional_spec, optional_text};
use crate::text::{text_eq, trim, trim_spec};

verus! {

broadcast use vstd::string::group_string_axioms;

/// A language that content can be translated between.
pub struct Language {
    pub code: String,
    pub name: String,
}

/// The `(code, name)` view of a list of languages.
pub open spec fn languages_view(v: Seq<Language>) -> Seq<(Seq<char>, Seq<char>)> {
    v.map_values(|l: Language| (l.code@, l.name@))
}

/// The languages offered while the server's list has not arrived.
pub open spec fn fallback_languages_spec() -> Seq<(Seq<char>, Seq<char>)> {
    seq![
        ("en"@, "English"@),
        ("es"@, "Spanish"@),
        ("fr"@, "French"@),
        ("zh"@, "Mandarin"@),
        ("ar"@, "Arabic"@),
        ("hi"@, "Hindi"@),
        ("pt"@, "Portuguese"@),
        ("de"@, "German"@),
        ("ja"@, "Japanese"@),
        ("ko"@, "Korean"@)
    ]
}

/// The languages offered while the server's list has not arrived.
pub fn fallback_languages() -> (r: Vec<Language>)
    ensures
        languages_view(r@) == fallback_languages_spec(),
{
    let mut v: Vec<Language> = Vec::new();
    v.push(Language { code: String::from_str("en"), name: String::from_str("English") });
    v.push(Language { code: String::from_str("es"), name: String::from_str("Spanish") });
    v.push(Language { code: String::from_str("fr"), name: String::from_str("French") });
    v.push(Language { code: String::from_str("zh"), name: String::from_str("Mandarin") });
    v.push(Language { code: String::from_str("ar"), name: String::from_str("Arabic") });
    v.push(Language { code: String::from_str("hi"), name: String::from_str("Hindi") });
    v.push(Language { code: String::from_str("pt"), name: String::from_str("Portuguese") });
    v.push(Language { code: String::from_str("de"), name: String::from_str("German") });
    v.push(Language { code: String::from_str("ja"), name: String::from_str("Japanese") });
    v.push(Language { code: String::from_str("ko"), name: String::from_str("Korean") });
    proof {
        assert(languages_view(v@) =~= fallback_languages_spec());
    }
    v
}

/// The languages to offer: the server's list once it has arrived, else
/// the fallback list.
pub fn offered_languages(loaded: Option<Vec<Language>>) -> (r: Vec<Language>)
    ensures
        loaded matches Some(l) ==> r@ == l@,
        loaded is None ==> languages_view(r@) == fallback_languages_spec(),
{
    match loaded {
        Some(l) => l,
        None => fallback_languages(),
    }
}

/// The display name of the language with code `code`: that of the first
/// language with that code, or the code itself when none has it.
pub open spec fn language_name_spec(langs: Seq<(Seq<char>, Seq<char>)>, code: Seq<char>) -> Seq<char>
    decreases langs.len(),
{
    if langs.len() == 0 {
        code
    } else if langs[0].0 == code {
        langs[0].1
    } else {
        language_name_spec(langs.drop_first(), code)
    }
}

/// The display name of the language with code `code` (the code itself
/// when no offered language has it).
pub fn language_name(langs: &Vec<Language>, code: &str) -> (r: String)
    ensures
        r@ == language_name_spec(languages_view(langs@), code@),
{
    let ghost lv = languages_view(langs@);
    let mut i: usize = 0;
    proof {
        assert(lv.skip(0) =~= lv);
    }
    while i < langs.len()
        invariant
            lv == languages_view(langs@),
            i <= langs.len(),
            language_name_spec(lv, code@) == language_name_spec(lv.skip(i as int), code@),
        decreases langs.len() - i,
    {
        proof {
            assert(lv.skip(i as int)[0] == lv[i as int]);
            assert(lv.skip(i as int).drop_first() =~= lv.skip(i + 1));
        }
        if text_eq(langs[i].code.as_str(), code) {
            return String::from_str(langs[i].name.as_str());
        }
        i += 1;
    }
    proof {
        assert(lv.skip(i as int).len() == 0);
    }
    String::from_str(code)
}

/// What a translation is requested with: the trimmed text, the display
/// names of both languages and the optional trimmed context.
pub struct TranslationRequest {
    pub text: String,
    pub source_name: String,
    pub target_name: String,
    pub context: Option<String>,
}

/// Reads the translation form: the trimmed source text is required, and
/// the two language codes must differ.
pub fn prepare_translation(
    text: &str,
    source_code: &str,
    target_code: &str,
    context: &str,
    langs: &Vec<Language>,
) -> (r: Result<TranslationRequest, &'static str>)
    ensures
        trim_spec(text@).len() == 0 ==> r == Err::<TranslationRequest, &'static str>(
            "Source text is required.",
        ),
        trim_spec(text@).len() > 0 && source_code@ == target_code@ ==> r == Err::<
            TranslationRequest,
            &'static str,
        >("Source and target languages must be different."),
        trim_spec(text@).len() > 0 && source_code@ != target_code@ ==> (r matches Ok(q)
            && q.text@ == trim_spec(text@)
            && q.source_name@ == language_name_spec(languages_view(langs@), source_code@)
            && q.target_name@ == language_name_spec(languages_view(langs@), target_code@)
            && opt_view(q.context) == optional_spec(context@)),
{
    let t = trim(text);
    if t.is_empty() {
        return Err("Source text is required.");
    }
    if text_eq(source_code, target_code) {
        return Err("Source and target languages must be different.");
    }
    Ok(TranslationRequest {
        text: String::from_str(t),
        source_name: language_name(langs, source_code),
        target_name: language_name(langs, target_code),
        context: optional_text(context),
    })
}

/// Reads the cultural adaptation form: the trimmed text, then the trimmed
/// target culture, are required.
pub fn prepare_adaptation(text: &str, culture: &str) -> (r: Result<(String, String), &'static str>)
    ensures
        trim_spec(text@).len() == 0 ==> r == Err::<(String, String), &'static str>(
            "Text is required.",
        ),
        trim_spec(text@).len() > 0 && trim_spec(culture@).len() == 0 ==> r == Err::<
            (String, String),
            &'static str,
        >("Target culture is required."),
        trim_spec(text@).len() > 0 && trim_spec(culture@).len() > 0 ==> (r matches Ok(q)
            && q.0@ == trim_spec(text@) && q.1@ == trim_spec(culture@)),
{
    let t = trim(text);
    if t.is_empty() {
        return Err("Text is required.");
    }
    let c = trim(culture);
    if c.is_empty() {
        return Err("Target culture is required.");
    }
    Ok((String::from_str(t), String::from_str(c)))
}

} // verus!
