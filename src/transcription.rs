use vstd::prelude::*;

use crate::text::{trim_text, trimmed};

verus! {

/// Language detected in a transcription.
#[derive(Debug, Clone, Copy, PartialEq, Eq, Structural)]
pub enum Language {
    Polish,
    English,
    Unknown,
}

/// Language-identifier code that the speech engine reports for Polish.
pub const POLISH_LANG_ID: i32 = 18;

/// Language-identifier code that the speech engine reports for English.
pub const ENGLISH_LANG_ID: i32 = 0;

/// The language tag for an engine language-identifier code.
pub open spec fn language_of_id(id: i32) -> Language {
    if id == POLISH_LANG_ID {
        Language::Polish
    } else if id == ENGLISH_LANG_ID {
        Language::English
    } else {
        Language::Unknown
    }
}

/// Maps an engine language-identifier code to a language tag; codes without a
/// tag of their own map to `Unknown`.
pub fn language_from_id(id: i32) -> (r: Language)
    ensures
        r == language_of_id(id),
{
    if id == POLISH_LANG_ID {
        Language::Polish
    } else if id == ENGLISH_LANG_ID {
        Language::English
    } else {
        Language::Unknown
    }
}

/// The short code of a language, used as a hint for text refinement.
pub open spec fn language_code(lang: Language) -> &'static str {
    match lang {
        Language::Polish => "pl",
        Language::English => "en",
        Language::Unknown => "auto",
    }
}

impl From<Language> for &'static str {
    fn from(lang: Language) -> (r: &'static str)
        ensures
            r == language_code(lang),
    {
        match lang {
            Language::Polish => "pl",
            Language::English => "en",
            Language::Unknown => "auto",
        }
    }
}

impl vstd::std_specs::convert::FromSpecImpl<Language> for &'static str {
    open spec fn obeys_from_spec() -> bool {
        true
    }

    open spec fn from_spec(lang: Language) -> &'static str {
        language_code(lang)
    }
}

/// The engine's segments, each followed by one space.
pub open spec fn joined_segments(segments: Seq<Seq<char>>) -> Seq<char>
    decreases segments.len(),
{
    if segments.len() == 0 {
        Seq::empty()
    } else {
        joined_segments(segments.drop_last()) + segments.last() + seq![' ']
    }
}

/// The transcript text and language for the engine's segments and the
/// language code it detected: the segments joined by single spaces, without
/// leading and trailing white space; the language is taken from the code when
/// there is at least one segment, and is `Unknown` otherwise.
pub fn transcript_from_segments(segments: &Vec<String>, lang_id: i32) -> (r: (String, Language))
    ensures
        r.0@ == trimmed(joined_segments(segments@.map_values(|s: String| s@))),
        r.1 == (if segments@.len() > 0 { language_of_id(lang_id) } else { Language::Unknown }),
{
    let ghost views = segments@.map_values(|s: String| s@);
    let mut text = String::new();
    let mut i: usize = 0;
    proof {
        reveal_strlit(" ");
        assert(views.subrange(0, 0) =~= Seq::<Seq<char>>::empty());
    }
    while i < segments.len()
        invariant
            i <= segments@.len(),
            views == segments@.map_values(|s: String| s@),
            text@ == joined_segments(views.subrange(0, i as int)),
        decreases segments@.len() - i,
    {
        text.append(segments[i].as_str());
        proof {
            reveal_strlit(" ");
        }
        text.append(" ");
        assert(views.subrange(0, i + 1).drop_last() =~= views.subrange(0, i as int));
        i = i + 1;
    }
    assert(views.subrange(0, segments@.len() as int) =~= views);
    let language = if segments.len() > 0 {
        language_from_id(lang_id)
    } else {
        Language::Unknown
    };
    (trim_text(text.as_str()), language)
}

} // verus!
