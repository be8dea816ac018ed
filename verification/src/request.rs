use vstd::prelude::*;
use vstd::string::*;

use crate::language::{Language, code_spec};
use crate::client::{PreparedCall, TranslateError, prepare_call, normalize_spec, payload_spec, length_limit};

verus! {

/// The record of a completed exchange with the remote service.
#[derive(Debug, Clone, PartialEq, Hash)]
pub struct Translation {
    pub url: String,
    pub source: Language,
    pub target: Language,
    pub input: String,
    pub output: String,
}

/// What submitting a request amounts to: either a finished `Translation`
/// (the empty-text short circuit) or one call to perform.
pub enum Submission {
    Done(Translation),
    Call(PreparedCall),
}

/// A fluent accumulator for a translation request. Every setter consumes
/// its receiver and hands an updated value back; values already obtained
/// are never changed.
#[derive(Debug, Clone, PartialEq, Hash)]
pub struct TranslationBuilder {
    pub url: String,
    pub source: Language,
    pub target: Language,
    pub input: String,
    pub key: Option<String>,
}

impl TranslationBuilder {
    /// The credential the builder will forward, if one was supplied.
    pub open spec fn key_spec(&self) -> Option<Seq<char>> {
        match self.key {
            Some(k) => Some(k@),
            None => None,
        }
    }

    /// A fresh builder: detect the source, target the default language,
    /// aim at the default public endpoint, carry no text and no
    /// credential.
    pub fn new() -> (r: Self)
        ensures
            r.url@ == "https://libretranslate.com/"@,
            r.source == Language::Detect,
            r.target == Language::English,
            r.input@ == Seq::<char>::empty(),
            r.key_spec() is None,
    {
        Self {
            url: String::from_str("https://libretranslate.com/"),
            source: Language::Detect,
            target: Language::English,
            input: String::new(),
            key: None,
        }
    }

    /// The same request aimed at another endpoint.
    pub fn url(self, url: &str) -> (r: Self)
        ensures
            r.url@ == url@,
            r.source == self.source,
            r.target == self.target,
            r.input == self.input,
            r.key_spec() == self.key_spec(),
    {
        Self { url: String::from_str(url), ..self }
    }

    /// The same request with its source language replaced.
    pub fn from_lang(self, lang: Language) -> (r: Self)
        ensures
            r.url == self.url,
            r.source == lang,
            r.target == self.target,
            r.input == self.input,
            r.key_spec() == self.key_spec(),
    {
        Self { source: lang, ..self }
    }

    /// The same request translating into the given language.
    pub fn to_lang(self, lang: Language) -> (r: Self)
        ensures
            r.url == self.url,
            r.source == self.source,
            r.target == lang,
            r.input == self.input,
            r.key_spec() == self.key_spec(),
    {
        Self { target: lang, ..self }
    }

    /// The same request carrying the given text.
    pub fn text(self, text: &str) -> (r: Self)
        ensures
            r.url == self.url,
            r.source == self.source,
            r.target == self.target,
            r.input@ == text@,
            r.key_spec() == self.key_spec(),
    {
        Self { input: String::from_str(text), ..self }
    }

    /// The same request carrying the given credential.
    pub fn key(self, key: &str) -> (r: Self)
        ensures
            r.url == self.url,
            r.source == self.source,
            r.target == self.target,
            r.input == self.input,
            r.key_spec() == Some(key@),
    {
        Self { key: Some(String::from_str(key)), ..self }
    }

    /// The record of this request completed with the service's output:
    /// it keeps the configured base URL, languages and input.
    pub fn complete(&self, output: String) -> (r: Translation)
        ensures
            r.url@ == self.url@,
            r.source == self.source,
            r.target == self.target,
            r.input@ == self.input@,
            r.output@ == output@,
    {
        Translation {
            url: self.url.clone(),
            source: self.source,
            target: self.target,
            input: self.input.clone(),
            output,
        }
    }

    /// Validate the request and lay out what submitting it means: empty
    /// text is answered at once with an empty output and no call; text at
    /// or above the length limit is rejected; anything else becomes one
    /// prepared call.
    pub fn prepare(&self) -> (r: Result<Submission, TranslateError>)
        ensures
            self.input@.len() == 0 ==> (r matches Ok(Submission::Done(t)) && t.url@ == self.url@
                && t.source == self.source && t.target == self.target && t.input@
                == Seq::<char>::empty() && t.output@ == Seq::<char>::empty()),
            self.input@.len() >= length_limit() ==> r matches Err(TranslateError::LengthError),
            (0 < self.input@.len() < length_limit()) ==> (r matches Ok(Submission::Call(pc))
                && pc.url@ == normalize_spec(self.url@) && pc.body@ == payload_spec(
                self.input@,
                code_spec(self.source),
                code_spec(self.target),
                self.key_spec(),
            )),
    {
        if self.input.as_str().is_empty() {
            return Ok(
                Submission::Done(
                    Translation {
                        url: self.url.clone(),
                        source: self.source,
                        target: self.target,
                        input: String::new(),
                        output: String::new(),
                    },
                ),
            );
        }
        let key: Option<&str> = match &self.key {
            Some(k) => Some(k.as_str()),
            None => None,
        };
        match prepare_call(self.source, self.target, self.input.as_str(), self.url.as_str(), key) {
            Ok(pc) => Ok(Submission::Call(pc)),
            Err(e) => Err(e),
        }
    }
}

impl Default for TranslationBuilder {
    /// The same configuration a fresh builder starts from.
    fn default() -> (r: Self)
        ensures
            r.url@ == "https://libretranslate.com/"@,
            r.source == Language::Detect,
            r.target == Language::English,
            r.input@ == Seq::<char>::empty(),
            r.key_spec() is None,
    {
        Self::new()
    }
}

/// A borrowed query, made by `Translate`, that one call can carry out.
pub struct Query<'a> {
    pub url: &'a str,
    pub text: &'a str,
    pub source: Language,
    pub target: Language,
}

impl<'a> Query<'a> {
    /// The same query translating into the given language.
    pub fn to_lang(self, language: Language) -> (r: Query<'a>)
        ensures
            r.url@ == self.url@,
            r.text@ == self.text@,
            r.source == self.source,
            r.target == language,
    {
        Query { target: language, ..self }
    }

    /// The same query with its source language replaced.
    pub fn from_lang(self, language: Language) -> (r: Query<'a>)
        ensures
            r.url@ == self.url@,
            r.text@ == self.text@,
            r.source == language,
            r.target == self.target,
    {
        Query { source: language, ..self }
    }

    /// The same query aimed at another endpoint.
    pub fn url(self, url: &'a str) -> (r: Query<'a>)
        ensures
            r.url@ == url@,
            r.text@ == self.text@,
            r.source == self.source,
            r.target == self.target,
    {
        Query { url, ..self }
    }

    /// Validate the query and lay the call it asks for out.
    pub fn prepare(&self) -> (r: Result<PreparedCall, TranslateError>)
        ensures
            self.text@.len() >= length_limit() ==> r matches Err(TranslateError::LengthError),
            self.text@.len() < length_limit() ==> (r matches Ok(pc) && pc.url@ == normalize_spec(
                self.url@,
            ) && pc.body@ == payload_spec(
                self.text@,
                code_spec(self.source),
                code_spec(self.target),
                None,
            )),
    {
        prepare_call(self.source, self.target, self.text, self.url, None)
    }
}

/// Make a query out of any text value.
pub trait Translate {
    /// The text the query will carry.
    spec fn text_view(&self) -> Seq<char>;

    /// A query into the given language, with the source left to detection
    /// and the default endpoint.
    fn to_lang(&self, language: Language) -> (q: Query<'_>)
        ensures
            q.url@ == "https://libretranslate.com/"@,
            q.text@ == self.text_view(),
            q.source == Language::Detect,
            q.target == language,
    ;

    /// A query from the given language into the default language, with the
    /// default endpoint.
    fn from_lang(&self, language: Language) -> (q: Query<'_>)
        ensures
            q.url@ == "https://libretranslate.com/"@,
            q.text@ == self.text_view(),
            q.source == language,
            q.target == Language::English,
    ;
}

impl Translate for String {
    open spec fn text_view(&self) -> Seq<char> {
        self@
    }

    fn to_lang(&self, language: Language) -> (q: Query<'_>) {
        Query {
            url: "https://libretranslate.com/",
            text: self.as_str(),
            source: Language::Detect,
            target: language,
        }
    }

    fn from_lang(&self, language: Language) -> (q: Query<'_>) {
        Query {
            url: "https://libretranslate.com/",
            text: self.as_str(),
            source: language,
            target: Language::English,
        }
    }
}

impl Translate for str {
    open spec fn text_view(&self) -> Seq<char> {
        self@
    }

    fn to_lang(&self, language: Language) -> (q: Query<'_>) {
        Query {
            url: "https://libretranslate.com/",
            text: self,
            source: Language::Detect,
            target: language,
        }
    }

    fn from_lang(&self, language: Language) -> (q: Query<'_>) {
        Query {
            url: "https://libretranslate.com/",
            text: self,
            source: language,
            target: Language::English,
        }
    }
}

} // verus!
