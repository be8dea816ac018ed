use vstd::prelude::*;
use vstd::string::*;

use crate::language::{Language, code_spec};
use crate::text::push_char;
use crate::json::{json_accepts, json_str_field, parse_json, get_str_field};

verus! {

/// Errors raised while carrying a translation request out.
#[derive(Debug, Clone, PartialEq, Hash)]
pub enum TranslateError {
    /// A transport-level failure, carrying the underlying message.
    HttpError(String),
    /// A malformed response, a missing field, or an error the remote
    /// service reported; carries the message.
    ParseError(String),
    /// Reserved for a failure of source-language detection; no path raises
    /// it yet.
    DetectError,
    /// The input text was at or above the length threshold.
    LengthError,
}

/// The message each error displays.
pub open spec fn error_message_spec(e: TranslateError) -> Seq<char> {
    match e {
        TranslateError::HttpError(m) => "HTTP request error: "@ + m@,
        TranslateError::ParseError(m) => "JSON parsing error: "@ + m@,
        TranslateError::DetectError => "Language detection error"@,
        TranslateError::LengthError => "Requested text is too long"@,
    }
}

impl TranslateError {
    /// Render the error as a human-readable message.
    pub fn message(&self) -> (r: String)
        ensures
            r@ == error_message_spec(*self),
    {
        match self {
            TranslateError::HttpError(m) => String::from_str("HTTP request error: ").concat(
                m.as_str(),
            ),
            TranslateError::ParseError(m) => String::from_str("JSON parsing error: ").concat(
                m.as_str(),
            ),
            TranslateError::DetectError => String::from_str("Language detection error"),
            TranslateError::LengthError => String::from_str("Requested text is too long"),
        }
    }
}

/// The most text a request may carry: character counts at or above this
/// bound are rejected before any call is made.
pub open spec fn length_limit() -> nat {
    5000
}

/// The call target: the base URL with the `translate` path segment joined
/// by exactly one separating slash.
pub open spec fn normalize_spec(u: Seq<char>) -> Seq<char> {
    if u.len() > 0 && u.last() == '/' {
        u + "translate"@
    } else {
        u + "/translate"@
    }
}

/// Join the `translate` path segment onto a base URL, inserting a slash
/// only when the base does not already end with one.
pub fn normalize_endpoint(url: &str) -> (r: String)
    ensures
        r@ == normalize_spec(url@),
{
    let n = url.unicode_len();
    if n > 0 && url.get_char(n - 1) == '/' {
        String::from_str(url).concat("translate")
    } else {
        String::from_str(url).concat("/translate")
    }
}

/// How one character is written inside a JSON string: quotes and
/// backslashes get a backslash, control characters a `\u00XX` escape,
/// everything else stands as itself.
pub open spec fn escape_char_spec(c: char) -> Seq<char> {
    if c == '"' {
        seq!['\\', '"']
    } else if c == '\\' {
        seq!['\\', '\\']
    } else if (c as u32) < 32 {
        seq!['\\', 'u', '0', '0', hex_digit((c as u32 / 16) as u32), hex_digit((c as u32 % 16) as u32)]
    } else {
        seq![c]
    }
}

/// The lowercase hexadecimal digit for a value below sixteen.
pub open spec fn hex_digit(n: u32) -> char {
    if n < 10 {
        ((48 + n) as u32) as char
    } else {
        ((87 + n) as u32) as char
    }
}

/// A character sequence as it is written inside a JSON string literal.
pub open spec fn escape_seq(s: Seq<char>) -> Seq<char>
    decreases s.len(),
{
    if s.len() == 0 {
        Seq::empty()
    } else {
        escape_seq(s.drop_last()) + escape_char_spec(s.last())
    }
}

fn push_hex_digit(out: &mut String, n: u32)
    requires
        n < 16,
    ensures
        final(out)@ == old(out)@.push(hex_digit(n)),
{
    let b: u8 = if n < 10 {
        (48 + n) as u8
    } else {
        (87 + n) as u8
    };
    push_char(out, b as char);
}

fn push_escaped(out: &mut String, c: char)
    ensures
        final(out)@ == old(out)@ + escape_char_spec(c),
{
    let ghost start = out@;
    if c == '"' {
        push_char(out, '\\');
        push_char(out, '"');
        proof {
            assert(out@ =~= start + escape_char_spec(c));
        }
    } else if c == '\\' {
        push_char(out, '\\');
        push_char(out, '\\');
        proof {
            assert(out@ =~= start + escape_char_spec(c));
        }
    } else {
        let u = c as u32;
        if u < 32 {
            push_char(out, '\\');
            push_char(out, 'u');
            push_char(out, '0');
            push_char(out, '0');
            push_hex_digit(out, u / 16);
            push_hex_digit(out, u % 16);
            proof {
                assert(out@ =~= start + escape_char_spec(c));
            }
        } else {
            push_char(out, c);
            proof {
                assert(out@ =~= start + escape_char_spec(c));
            }
        }
    }
}

/// Write a string as JSON string-literal content.
pub fn escape_string(s: &str) -> (r: String)
    ensures
        r@ == escape_seq(s@),
{
    let n = s.unicode_len();
    let mut out = String::new();
    let mut i: usize = 0;
    while i < n
        invariant
            n == s@.len(),
            i <= n,
            out@ == escape_seq(s@.subrange(0, i as int)),
        decreases n - i,
    {
        let c = s.get_char(i);
        push_escaped(&mut out, c);
        proof {
            assert(s@.subrange(0, i + 1 as int).drop_last() =~= s@.subrange(0, i as int));
            assert(s@.subrange(0, i + 1 as int).last() == s@[i as int]);
        }
        i = i + 1;
    }
    proof {
        assert(s@.subrange(0, n as int) =~= s@);
    }
    out
}

/// The JSON body of a request: the text under `q`, the two language codes,
/// and the credential under `api_key` only when one was supplied.
pub open spec fn payload_spec(
    q: Seq<char>,
    src: Seq<char>,
    tgt: Seq<char>,
    key: Option<Seq<char>>,
) -> Seq<char> {
    "{\"q\":\""@ + escape_seq(q) + "\",\"source\":\""@ + src + "\",\"target\":\""@ + tgt + (
    match key {
        Some(k) => "\",\"api_key\":\""@ + escape_seq(k) + "\"}"@,
        None => "\"}"@,
    })
}

/// Build the JSON payload for a request.
pub fn build_payload(text: &str, source: Language, target: Language, key: Option<&str>) -> (r:
    String)
    ensures
        key is Some ==> r@ == payload_spec(
            text@,
            code_spec(source),
            code_spec(target),
            Some(key->0@),
        ),
        key is None ==> r@ == payload_spec(text@, code_spec(source), code_spec(target), None),
{
    let mut out = String::from_str("{\"q\":\"");
    let escaped = escape_string(text);
    out.append(escaped.as_str());
    out.append("\",\"source\":\"");
    out.append(source.as_code());
    out.append("\",\"target\":\"");
    out.append(target.as_code());
    match key {
        Some(k) => {
            out.append("\",\"api_key\":\"");
            let escaped_key = escape_string(k);
            out.append(escaped_key.as_str());
            out.append("\"}");
            proof {
                assert(out@ =~= payload_spec(
                    text@,
                    code_spec(source),
                    code_spec(target),
                    Some(key->0@),
                ));
            }
        },
        None => {
            out.append("\"}");
            proof {
                assert(out@ =~= payload_spec(text@, code_spec(source), code_spec(target), None));
            }
        },
    }
    out
}

/// Everything a single POST to the remote service needs: the normalized
/// call target and the JSON body.
#[derive(Debug, Clone, PartialEq, Hash)]
pub struct PreparedCall {
    pub url: String,
    pub body: String,
}

/// Validate a request and lay out the call it asks for: texts at or above
/// the length limit are rejected before anything else happens.
pub fn prepare_call(
    source: Language,
    target: Language,
    input: &str,
    url: &str,
    key: Option<&str>,
) -> (r: Result<PreparedCall, TranslateError>)
    ensures
        input@.len() >= length_limit() ==> r matches Err(TranslateError::LengthError),
        input@.len() < length_limit() ==> (r matches Ok(pc) && pc.url@ == normalize_spec(url@)
            && pc.body@ == payload_spec(
            input@,
            code_spec(source),
            code_spec(target),
            match key {
                Some(k) => Some(k@),
                None => None,
            },
        )),
{
    let complete_url = normalize_endpoint(url);
    if input.unicode_len() >= 5000 {
        return Err(TranslateError::LengthError);
    }
    let body = build_payload(input, source, target, key);
    Ok(PreparedCall { url: complete_url, body })
}

/// The verdict on the two string fields read from a parsed response: the
/// service's error channel wins; otherwise the translated text must be
/// there.
pub fn classify_fields(err: Option<String>, text: Option<String>) -> (r: Result<
    String,
    TranslateError,
>)
    ensures
        err matches Some(e) ==> (r matches Err(TranslateError::ParseError(m)) && m@ == e@),
        (err is None && text is Some) ==> (r matches Ok(o) && o@ == text->0@),
        err is None && text is None ==> (r matches Err(TranslateError::ParseError(m)) && m@
            == "Unable to find translatedText in parsed JSON"@),
{
    match err {
        Some(e) => Err(TranslateError::ParseError(e)),
        None => match text {
            Some(t) => Ok(t),
            None => Err(
                TranslateError::ParseError(
                    String::from_str("Unable to find translatedText in parsed JSON"),
                ),
            ),
        },
    }
}

/// Read a raw response body: reject what is not JSON, surface the remote
/// error channel, and otherwise hand the translated text out. Every
/// failure of this stage is a parse error.
pub fn interpret_response(body: &str) -> (r: Result<String, TranslateError>)
    ensures
        !json_accepts(body@) ==> r is Err,
        r is Err ==> r->Err_0 matches TranslateError::ParseError(_),
        (json_accepts(body@) && json_str_field(body@, "error"@) is Some) ==> (r matches Err(
            TranslateError::ParseError(m),
        ) && m@ == json_str_field(body@, "error"@)->Some_0),
        (json_accepts(body@) && json_str_field(body@, "error"@) is None && json_str_field(
            body@,
            "translatedText"@,
        ) is Some) ==> (r matches Ok(o) && o@ == json_str_field(body@, "translatedText"@)->Some_0),
        (json_accepts(body@) && json_str_field(body@, "error"@) is None && json_str_field(
            body@,
            "translatedText"@,
        ) is None) ==> (r matches Err(TranslateError::ParseError(m)) && m@
            == "Unable to find translatedText in parsed JSON"@),
{
    match parse_json(body) {
        Err(e) => Err(TranslateError::ParseError(e)),
        Ok(_) => {
            let err_field = get_str_field(body, "error");
            let text_field = get_str_field(body, "translatedText");
            classify_fields(err_field, text_field)
        },
    }
}

} // verus!
