use vstd::prelude::*;
use vstd::string::*;

use crate::text::{lower_seq, to_ascii_lower, lemma_lower_seq_idem};

verus! {

/// Errors raised while reading a language name.
#[derive(Debug, Clone, PartialEq, Hash)]
pub enum LanguageError {
    /// The given string names no supported language; it carries the input.
    FormatError(String),
}

/// The closed set of languages a request can name. `Detect` asks the remote
/// service to infer the source language and is never a valid target.
#[derive(Debug, Clone, Copy, PartialEq, Eq, Hash, Structural)]
pub enum Language {
    Detect,
    English,
    Arabic,
    Chinese,
    French,
    German,
    Italian,
    Japanese,
    Portuguese,
    Russian,
    Spanish,
    Polish,
    Indonesian,
}

/// The short code of each language, as the remote service expects it.
pub open spec fn code_spec(l: Language) -> Seq<char> {
    match l {
        Language::Detect => "auto"@,
        Language::English => "en"@,
        Language::Arabic => "ar"@,
        Language::Chinese => "zh"@,
        Language::French => "fr"@,
        Language::German => "de"@,
        Language::Italian => "it"@,
        Language::Japanese => "ja"@,
        Language::Portuguese => "pt"@,
        Language::Russian => "ru"@,
        Language::Spanish => "es"@,
        Language::Polish => "pl"@,
        Language::Indonesian => "id"@,
    }
}

/// The display name of each language.
pub open spec fn pretty_spec(l: Language) -> Seq<char> {
    match l {
        Language::Detect => "Detected"@,
        Language::English => "English"@,
        Language::Arabic => "Arabic"@,
        Language::Chinese => "Chinese"@,
        Language::French => "French"@,
        Language::German => "German"@,
        Language::Italian => "Italian"@,
        Language::Japanese => "Japanese"@,
        Language::Portuguese => "Portuguese"@,
        Language::Russian => "Russian"@,
        Language::Spanish => "Spanish"@,
        Language::Polish => "Polish"@,
        Language::Indonesian => "Indonesian"@,
    }
}

/// Which language an already-lowercased keyword names: either a short code,
/// a lowercased display name, or `auto` for detection.
pub open spec fn keyword_spec(t: Seq<char>) -> Option<Language> {
    if t == "en"@ || t == "english"@ {
        Some(Language::English)
    } else if t == "ar"@ || t == "arabic"@ {
        Some(Language::Arabic)
    } else if t == "zh"@ || t == "chinese"@ {
        Some(Language::Chinese)
    } else if t == "fr"@ || t == "french"@ {
        Some(Language::French)
    } else if t == "de"@ || t == "german"@ {
        Some(Language::German)
    } else if t == "it"@ || t == "italian"@ {
        Some(Language::Italian)
    } else if t == "pt"@ || t == "portuguese"@ {
        Some(Language::Portuguese)
    } else if t == "ru"@ || t == "russian"@ {
        Some(Language::Russian)
    } else if t == "es"@ || t == "spanish"@ {
        Some(Language::Spanish)
    } else if t == "ja"@ || t == "japanese"@ {
        Some(Language::Japanese)
    } else if t == "pl"@ || t == "polish"@ {
        Some(Language::Polish)
    } else if t == "id"@ || t == "indonesian"@ {
        Some(Language::Indonesian)
    } else if t == "auto"@ {
        Some(Language::Detect)
    } else {
        None
    }
}

/// What parsing a language string yields: matching is case-insensitive over
/// the short codes and the display names.
pub open spec fn parse_spec(s: Seq<char>) -> Option<Language> {
    keyword_spec(lower_seq(s))
}

impl Language {
    /// The short code of the language. (ex. "ar", "de")
    pub fn as_code(&self) -> (r: &'static str)
        ensures
            r@ == code_spec(*self),
    {
        match self {
            Language::Detect => "auto",
            Language::English => "en",
            Language::Arabic => "ar",
            Language::Chinese => "zh",
            Language::French => "fr",
            Language::German => "de",
            Language::Italian => "it",
            Language::Japanese => "ja",
            Language::Portuguese => "pt",
            Language::Russian => "ru",
            Language::Spanish => "es",
            Language::Polish => "pl",
            Language::Indonesian => "id",
        }
    }

    /// The display name of the language. (ex. "Arabic", "German")
    pub fn as_pretty(&self) -> (r: &'static str)
        ensures
            r@ == pretty_spec(*self),
    {
        match self {
            Language::Detect => "Detected",
            Language::English => "English",
            Language::Arabic => "Arabic",
            Language::Chinese => "Chinese",
            Language::French => "French",
            Language::German => "German",
            Language::Italian => "Italian",
            Language::Japanese => "Japanese",
            Language::Portuguese => "Portuguese",
            Language::Russian => "Russian",
            Language::Spanish => "Spanish",
            Language::Polish => "Polish",
            Language::Indonesian => "Indonesian",
        }
    }

    /// Read a language from a string such as "en" or "French"; case does not
    /// matter. An unrecognized string is a format error carrying the input.
    pub fn from(s: &str) -> (r: Result<Language, LanguageError>)
        ensures
            parse_spec(s@) is Some ==> r == Ok::<Language, LanguageError>(parse_spec(s@)->Some_0),
            parse_spec(s@) is None ==> (r matches Err(LanguageError::FormatError(m)) && m@ == s@),
    {
        let t = to_ascii_lower(s);
        if t == String::from_str("en") || t == String::from_str("english") {
            Ok(Language::English)
        } else if t == String::from_str("ar") || t == String::from_str("arabic") {
            Ok(Language::Arabic)
        } else if t == String::from_str("zh") || t == String::from_str("chinese") {
            Ok(Language::Chinese)
        } else if t == String::from_str("fr") || t == String::from_str("french") {
            Ok(Language::French)
        } else if t == String::from_str("de") || t == String::from_str("german") {
            Ok(Language::German)
        } else if t == String::from_str("it") || t == String::from_str("italian") {
            Ok(Language::Italian)
        } else if t == String::from_str("pt") || t == String::from_str("portuguese") {
            Ok(Language::Portuguese)
        } else if t == String::from_str("ru") || t == String::from_str("russian") {
            Ok(Language::Russian)
        } else if t == String::from_str("es") || t == String::from_str("spanish") {
            Ok(Language::Spanish)
        } else if t == String::from_str("ja") || t == String::from_str("japanese") {
            Ok(Language::Japanese)
        } else if t == String::from_str("pl") || t == String::from_str("polish") {
            Ok(Language::Polish)
        } else if t == String::from_str("id") || t == String::from_str("indonesian") {
            Ok(Language::Indonesian)
        } else if t == String::from_str("auto") {
            Ok(Language::Detect)
        } else {
            Err(LanguageError::FormatError(s.to_owned()))
        }
    }
}

/// The message a language error displays.
pub open spec fn language_error_message_spec(e: LanguageError) -> Seq<char> {
    match e {
        LanguageError::FormatError(m) => "Unknown Language: "@ + m@,
    }
}

impl LanguageError {
    /// Render the error as a human-readable message.
    pub fn message(&self) -> (r: String)
        ensures
            r@ == language_error_message_spec(*self),
    {
        match self {
            LanguageError::FormatError(m) => String::from_str("Unknown Language: ").concat(
                m.as_str(),
            ),
        }
    }
}

/// Declares unic_langid::LanguageIdentifier so that signatures can carry
/// it; its value stays opaque.
#[verifier::external_type_specification]
#[verifier::external_body]
pub struct ExLanguageIdentifier(unic_langid::LanguageIdentifier);

/// Relies on the `language` field of unic_langid::LanguageIdentifier and
/// unic_langid::subtags::Language::as_str: the canonical language subtag,
/// which is two to eight lowercase ASCII letters, or `und` when unset.
#[verifier::external_body]
fn langid_subtag(id: &unic_langid::LanguageIdentifier) -> (r: String)
    ensures
        2 <= r@.len() <= 8,
{
    id.language.as_str().to_owned()
}

/// Which real language a canonical language subtag names. Only the short
/// codes take part: display names, and `auto`, are no subtags.
pub open spec fn subtag_spec(s: Seq<char>) -> Option<Language> {
    if s == "en"@ {
        Some(Language::English)
    } else if s == "ar"@ {
        Some(Language::Arabic)
    } else if s == "zh"@ {
        Some(Language::Chinese)
    } else if s == "fr"@ {
        Some(Language::French)
    } else if s == "de"@ {
        Some(Language::German)
    } else if s == "it"@ {
        Some(Language::Italian)
    } else if s == "pt"@ {
        Some(Language::Portuguese)
    } else if s == "ru"@ {
        Some(Language::Russian)
    } else if s == "es"@ {
        Some(Language::Spanish)
    } else if s == "ja"@ {
        Some(Language::Japanese)
    } else if s == "pl"@ {
        Some(Language::Polish)
    } else if s == "id"@ {
        Some(Language::Indonesian)
    } else {
        None
    }
}

/// Read a language from a canonical language subtag, matching the short
/// codes exactly.
pub fn language_from_subtag(s: &str) -> (r: Result<Language, LanguageError>)
    ensures
        subtag_spec(s@) is Some ==> r == Ok::<Language, LanguageError>(subtag_spec(s@)->Some_0),
        subtag_spec(s@) is None ==> (r matches Err(LanguageError::FormatError(m)) && m@
            == "Unknown Language"@),
{
    let t = String::from_str(s);
    if t == String::from_str("en") {
        Ok(Language::English)
    } else if t == String::from_str("ar") {
        Ok(Language::Arabic)
    } else if t == String::from_str("zh") {
        Ok(Language::Chinese)
    } else if t == String::from_str("fr") {
        Ok(Language::French)
    } else if t == String::from_str("de") {
        Ok(Language::German)
    } else if t == String::from_str("it") {
        Ok(Language::Italian)
    } else if t == String::from_str("pt") {
        Ok(Language::Portuguese)
    } else if t == String::from_str("ru") {
        Ok(Language::Russian)
    } else if t == String::from_str("es") {
        Ok(Language::Spanish)
    } else if t == String::from_str("ja") {
        Ok(Language::Japanese)
    } else if t == String::from_str("pl") {
        Ok(Language::Polish)
    } else if t == String::from_str("id") {
        Ok(Language::Indonesian)
    } else {
        Err(LanguageError::FormatError(String::from_str("Unknown Language")))
    }
}

impl Language {
    /// Read a language out of a unic_langid identifier, going by its
    /// canonical language subtag alone. Detection is never the result.
    pub fn from_unic_langid(s: unic_langid::LanguageIdentifier) -> (r: Result<
        Language,
        LanguageError,
    >)
        ensures
            r matches Ok(l) ==> l != Language::Detect,
            r matches Err(e) ==> (e matches LanguageError::FormatError(m) && m@
                == "Unknown Language"@),
    {
        let code = langid_subtag(&s);
        language_from_subtag(code.as_str())
    }
}

/// Parsing is case-insensitive: a string and its lowered form name the
/// same language, or both fail.
pub proof fn lemma_parse_case_insensitive(s: Seq<char>)
    ensures
        parse_spec(s) == parse_spec(lower_seq(s)),
{
    lemma_lower_seq_idem(s);
}

/// Length and leading characters of every keyword the parser accepts:
/// enough to tell any two distinct keywords apart.
proof fn lemma_keyword_chars()
    ensures
        "en"@.len() == 2 && "en"@[0] == 'e' && "en"@[1] == 'n',
        "ar"@.len() == 2 && "ar"@[0] == 'a' && "ar"@[1] == 'r',
        "zh"@.len() == 2 && "zh"@[0] == 'z' && "zh"@[1] == 'h',
        "fr"@.len() == 2 && "fr"@[0] == 'f' && "fr"@[1] == 'r',
        "de"@.len() == 2 && "de"@[0] == 'd' && "de"@[1] == 'e',
        "it"@.len() == 2 && "it"@[0] == 'i' && "it"@[1] == 't',
        "pt"@.len() == 2 && "pt"@[0] == 'p' && "pt"@[1] == 't',
        "ru"@.len() == 2 && "ru"@[0] == 'r' && "ru"@[1] == 'u',
        "es"@.len() == 2 && "es"@[0] == 'e' && "es"@[1] == 's',
        "ja"@.len() == 2 && "ja"@[0] == 'j' && "ja"@[1] == 'a',
        "pl"@.len() == 2 && "pl"@[0] == 'p' && "pl"@[1] == 'l',
        "id"@.len() == 2 && "id"@[0] == 'i' && "id"@[1] == 'd',
        "auto"@.len() == 4,
        "english"@.len() == 7 && "english"@[0] == 'e',
        "arabic"@.len() == 6 && "arabic"@[0] == 'a',
        "chinese"@.len() == 7 && "chinese"@[0] == 'c',
        "french"@.len() == 6 && "french"@[0] == 'f',
        "german"@.len() == 6 && "german"@[0] == 'g',
        "italian"@.len() == 7 && "italian"@[0] == 'i',
        "portuguese"@.len() == 10 && "portuguese"@[0] == 'p',
        "russian"@.len() == 7 && "russian"@[0] == 'r',
        "spanish"@.len() == 7 && "spanish"@[0] == 's',
        "japanese"@.len() == 8 && "japanese"@[0] == 'j',
        "polish"@.len() == 6 && "polish"@[0] == 'p',
        "indonesian"@.len() == 10 && "indonesian"@[0] == 'i',
{
    reveal_strlit("en");
    reveal_strlit("ar");
    reveal_strlit("zh");
    reveal_strlit("fr");
    reveal_strlit("de");
    reveal_strlit("it");
    reveal_strlit("pt");
    reveal_strlit("ru");
    reveal_strlit("es");
    reveal_strlit("ja");
    reveal_strlit("pl");
    reveal_strlit("id");
    reveal_strlit("auto");
    reveal_strlit("english");
    reveal_strlit("arabic");
    reveal_strlit("chinese");
    reveal_strlit("french");
    reveal_strlit("german");
    reveal_strlit("italian");
    reveal_strlit("portuguese");
    reveal_strlit("russian");
    reveal_strlit("spanish");
    reveal_strlit("japanese");
    reveal_strlit("polish");
    reveal_strlit("indonesian");
}

/// The short code of every language parses back to that language.
pub proof fn lemma_parse_code_round_trip(l: Language)
    ensures
        parse_spec(code_spec(l)) == Some(l),
{
    reveal_strlit("auto");
    reveal_strlit("en");
    reveal_strlit("ar");
    reveal_strlit("zh");
    reveal_strlit("fr");
    reveal_strlit("de");
    reveal_strlit("it");
    reveal_strlit("ja");
    reveal_strlit("pt");
    reveal_strlit("ru");
    reveal_strlit("es");
    reveal_strlit("pl");
    reveal_strlit("id");
    reveal_strlit("english");
    reveal_strlit("arabic");
    reveal_strlit("chinese");
    reveal_strlit("french");
    reveal_strlit("german");
    reveal_strlit("italian");
    reveal_strlit("portuguese");
    reveal_strlit("russian");
    reveal_strlit("spanish");
    reveal_strlit("japanese");
    reveal_strlit("polish");
    reveal_strlit("indonesian");
    lemma_keyword_chars();
    assert(lower_seq(code_spec(l)) =~= code_spec(l));
}

/// The display name of every real language parses back to that language.
/// `Detect` is left out: its label `Detected` is a sentinel, not a name
/// that parsing accepts.
pub proof fn lemma_parse_pretty_round_trip(l: Language)
    requires
        l != Language::Detect,
    ensures
        parse_spec(pretty_spec(l)) == Some(l),
{
    reveal_strlit("auto");
    reveal_strlit("en");
    reveal_strlit("ar");
    reveal_strlit("zh");
    reveal_strlit("fr");
    reveal_strlit("de");
    reveal_strlit("it");
    reveal_strlit("ja");
    reveal_strlit("pt");
    reveal_strlit("ru");
    reveal_strlit("es");
    reveal_strlit("pl");
    reveal_strlit("id");
    reveal_strlit("english");
    reveal_strlit("arabic");
    reveal_strlit("chinese");
    reveal_strlit("french");
    reveal_strlit("german");
    reveal_strlit("italian");
    reveal_strlit("portuguese");
    reveal_strlit("russian");
    reveal_strlit("spanish");
    reveal_strlit("japanese");
    reveal_strlit("polish");
    reveal_strlit("indonesian");
    reveal_strlit("English");
    reveal_strlit("Arabic");
    reveal_strlit("Chinese");
    reveal_strlit("French");
    reveal_strlit("German");
    reveal_strlit("Italian");
    reveal_strlit("Portuguese");
    reveal_strlit("Russian");
    reveal_strlit("Spanish");
    reveal_strlit("Japanese");
    reveal_strlit("Polish");
    reveal_strlit("Indonesian");
    lemma_keyword_chars();
    match l {
        Language::Detect => {
        },
        Language::English => {
            assert(lower_seq(pretty_spec(l)) =~= "english"@);
        },
        Language::Arabic => {
            assert(lower_seq(pretty_spec(l)) =~= "arabic"@);
        },
        Language::Chinese => {
            assert(lower_seq(pretty_spec(l)) =~= "chinese"@);
        },
        Language::French => {
            assert(lower_seq(pretty_spec(l)) =~= "french"@);
        },
        Language::German => {
            assert(lower_seq(pretty_spec(l)) =~= "german"@);
        },
        Language::Italian => {
            assert(lower_seq(pretty_spec(l)) =~= "italian"@);
        },
        Language::Japanese => {
            assert(lower_seq(pretty_spec(l)) =~= "japanese"@);
        },
        Language::Portuguese => {
            assert(lower_seq(pretty_spec(l)) =~= "portuguese"@);
        },
        Language::Russian => {
            assert(lower_seq(pretty_spec(l)) =~= "russian"@);
        },
        Language::Spanish => {
            assert(lower_seq(pretty_spec(l)) =~= "spanish"@);
        },
        Language::Polish => {
            assert(lower_seq(pretty_spec(l)) =~= "polish"@);
        },
        Language::Indonesian => {
            assert(lower_seq(pretty_spec(l)) =~= "indonesian"@);
        },
    }
}

impl core::str::FromStr for Language {
    type Err = LanguageError;

    fn from_str(s: &str) -> Result<Language, LanguageError> {
        Language::from(s)
    }
}

impl Default for Language {
    /// The implementation-chosen default target language.
    fn default() -> (r: Self)
        ensures
            r == Language::English,
    {
        Language::English
    }
}

} // verus!

