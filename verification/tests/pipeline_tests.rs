use translate_core::client::{
    build_payload, escape_string, interpret_response, normalize_endpoint, prepare_call,
};
use translate_core::{Language, Submission, Translate, TranslateError, TranslationBuilder};

#[test]
fn endpoint_gets_exactly_one_separating_slash() {
    assert_eq!(normalize_endpoint("http://x/"), "http://x/translate");
    assert_eq!(normalize_endpoint("http://x"), "http://x/translate");
}

#[test]
fn text_under_the_limit_passes_validation() {
    let text = "a".repeat(4999);
    let r = prepare_call(Language::Detect, Language::English, &text, "http://x", None);
    assert!(r.is_ok());
}

#[test]
fn text_at_the_limit_is_a_length_error() {
    let text = "a".repeat(5000);
    let r = prepare_call(Language::Detect, Language::English, &text, "http://x", None);
    assert_eq!(r.unwrap_err(), TranslateError::LengthError);
}

#[test]
fn payload_omits_api_key_without_a_credential() {
    let body = build_payload("hi", Language::Spanish, Language::English, None);
    assert_eq!(body, "{\"q\":\"hi\",\"source\":\"es\",\"target\":\"en\"}");
}

#[test]
fn payload_carries_the_credential_verbatim() {
    let body = build_payload("hi", Language::Detect, Language::French, Some("k123"));
    assert_eq!(
        body,
        "{\"q\":\"hi\",\"source\":\"auto\",\"target\":\"fr\",\"api_key\":\"k123\"}"
    );
}

#[test]
fn payload_text_is_json_escaped() {
    assert_eq!(escape_string("a\"b\\c\n"), "a\\\"b\\\\c\\u000a");
    let body = build_payload("say \"hi\"", Language::Detect, Language::English, None);
    assert_eq!(
        body,
        "{\"q\":\"say \\\"hi\\\"\",\"source\":\"auto\",\"target\":\"en\"}"
    );
    let parsed: serde_json::Value = serde_json::from_str(&body).unwrap();
    assert_eq!(parsed["q"], "say \"hi\"");
}

#[test]
fn translated_text_is_handed_out() {
    let r = interpret_response("{\"translatedText\": \"bonjour\"}");
    assert_eq!(r.unwrap(), "bonjour");
}

#[test]
fn remote_error_channel_becomes_a_parse_error() {
    let r = interpret_response("{\"error\": \"invalid language\"}");
    match r {
        Err(TranslateError::ParseError(m)) => assert_eq!(m, "invalid language"),
        other => panic!("expected a parse error, got {:?}", other),
    }
}

#[test]
fn malformed_json_is_a_parse_error() {
    match interpret_response("this is not json") {
        Err(TranslateError::ParseError(_)) => {}
        other => panic!("expected a parse error, got {:?}", other),
    }
}

#[test]
fn missing_translated_text_names_the_field() {
    match interpret_response("{\"other\": 1}") {
        Err(TranslateError::ParseError(m)) => {
            assert_eq!(m, "Unable to find translatedText in parsed JSON")
        }
        other => panic!("expected a parse error, got {:?}", other),
    }
}

#[test]
fn non_string_translated_text_is_rejected() {
    assert!(interpret_response("{\"translatedText\": 5}").is_err());
}

#[test]
fn non_string_error_field_is_ignored() {
    let r = interpret_response("{\"error\": 5, \"translatedText\": \"x\"}");
    assert_eq!(r.unwrap(), "x");
}

#[test]
fn error_messages_match_their_kind() {
    assert_eq!(
        TranslateError::LengthError.message(),
        "Requested text is too long"
    );
    assert_eq!(
        TranslateError::DetectError.message(),
        "Language detection error"
    );
    assert_eq!(
        TranslateError::HttpError(String::from("down")).message(),
        "HTTP request error: down"
    );
    assert_eq!(
        TranslateError::ParseError(String::from("bad")).message(),
        "JSON parsing error: bad"
    );
}

#[test]
fn builder_starts_from_the_default_configuration() {
    let b = TranslationBuilder::new();
    assert_eq!(b.url, "https://libretranslate.com/");
    assert_eq!(b.source, Language::Detect);
    assert_eq!(b.target, Language::English);
    assert_eq!(b.input, "");
    assert_eq!(b.key, None);
    assert_eq!(TranslationBuilder::default(), b);
}

#[test]
fn builder_setters_return_updated_values() {
    let b = TranslationBuilder::new()
        .url("http://localhost:5050/")
        .from_lang(Language::Spanish)
        .to_lang(Language::German)
        .text("hola")
        .key("k");
    assert_eq!(b.url, "http://localhost:5050/");
    assert_eq!(b.source, Language::Spanish);
    assert_eq!(b.target, Language::German);
    assert_eq!(b.input, "hola");
    assert_eq!(b.key, Some(String::from("k")));
}

#[test]
fn builder_values_stay_independent() {
    let base = TranslationBuilder::new().text("first");
    let changed = base.clone().text("second");
    assert_eq!(base.input, "first");
    assert_eq!(changed.input, "second");
}

#[test]
fn empty_text_short_circuits_without_a_call() {
    let b = TranslationBuilder::new().url("http://x/").to_lang(Language::French);
    match b.prepare() {
        Ok(Submission::Done(t)) => {
            assert_eq!(t.url, "http://x/");
            assert_eq!(t.source, Language::Detect);
            assert_eq!(t.target, Language::French);
            assert_eq!(t.input, "");
            assert_eq!(t.output, "");
        }
        other => panic!("expected a finished translation, got {:?}", other.is_ok()),
    }
}

#[test]
fn builder_prepares_one_call() {
    let b = TranslationBuilder::new().url("http://x").to_lang(Language::French).text("hi");
    match b.prepare() {
        Ok(Submission::Call(pc)) => {
            assert_eq!(pc.url, "http://x/translate");
            assert_eq!(
                pc.body,
                "{\"q\":\"hi\",\"source\":\"auto\",\"target\":\"fr\"}"
            );
        }
        other => panic!("expected a prepared call, got {:?}", other.is_ok()),
    }
}

#[test]
fn builder_rejects_text_at_the_limit() {
    let b = TranslationBuilder::new().text(&"a".repeat(5000));
    match b.prepare() {
        Err(TranslateError::LengthError) => {}
        other => panic!("expected a length error, got {:?}", other.is_ok()),
    }
}

#[test]
fn completing_a_request_keeps_the_base_url() {
    let b = TranslationBuilder::new().url("http://x").to_lang(Language::French).text("hi");
    let t = b.complete(String::from("salut"));
    assert_eq!(t.url, "http://x");
    assert_eq!(t.source, Language::Detect);
    assert_eq!(t.target, Language::French);
    assert_eq!(t.input, "hi");
    assert_eq!(t.output, "salut");
}

#[test]
fn queries_carry_their_defaults() {
    let text = String::from("hola");
    let q = text.to_lang(Language::English);
    assert_eq!(q.url, "https://libretranslate.com/");
    assert_eq!(q.text, "hola");
    assert_eq!(q.source, Language::Detect);
    assert_eq!(q.target, Language::English);
    let q2 = text.from_lang(Language::Spanish);
    assert_eq!(q2.source, Language::Spanish);
    assert_eq!(q2.target, Language::English);
    let q3 = q2.url("http://y/").to_lang(Language::German).from_lang(Language::Italian);
    let pc = q3.prepare().unwrap();
    assert_eq!(pc.url, "http://y/translate");
    assert_eq!(
        pc.body,
        "{\"q\":\"hola\",\"source\":\"it\",\"target\":\"de\"}"
    );
}
