use hyprwhspr_rs::document::{count_openings, document_from, parse_document, MAX_OPENINGS};
use hyprwhspr_rs::{Config, ConfigError, Real32, VadConfig};

#[test]
fn comments_and_trailing_commas_are_accepted() {
    let text = "// settings\n{\n  \"audio_feedback\": true, /* on */\n  \"shortcuts\": { \"press\": \"CTRL+D\", },\n}\n";
    let value = parse_document(text).expect("document");
    assert_eq!(value["audio_feedback"].as_bool(), Some(true));
    assert_eq!(value["shortcuts"]["press"].as_str(), Some("CTRL+D"));
    assert!(value.get("missing").is_none());
}

#[test]
fn plain_json_is_accepted() {
    let value = parse_document("{\"threads\": 8, \"models_dirs\": [\"~/m\", \"/n\"]}").expect("document");
    assert_eq!(value["threads"].as_u64(), Some(8));
    assert_eq!(value["models_dirs"][1].as_str(), Some("/n"));
    assert_eq!(parse_document("[1, 2]").expect("array").as_array().map(|a| a.len()), Some(2));
}

#[test]
fn a_text_that_does_not_parse_is_malformed() {
    assert_eq!(parse_document("{"), Err(ConfigError::MalformedDocument));
    assert_eq!(parse_document("{\"a\": }"), Err(ConfigError::MalformedDocument));
    assert_eq!(parse_document("{} {}"), Err(ConfigError::MalformedDocument));
    assert_eq!(parse_document("/* open"), Err(ConfigError::MalformedDocument));
}

#[test]
fn a_text_without_a_value_is_malformed() {
    assert_eq!(parse_document(""), Err(ConfigError::MalformedDocument));
    assert_eq!(parse_document("  \n"), Err(ConfigError::MalformedDocument));
    assert_eq!(parse_document("// only a comment\n"), Err(ConfigError::MalformedDocument));
}

#[test]
fn an_outcome_without_a_value_is_malformed() {
    assert_eq!(document_from(Ok(None)), Err(ConfigError::MalformedDocument));
    assert_eq!(
        document_from(Ok(Some(serde_json::Value::Bool(true)))),
        Ok(serde_json::Value::Bool(true))
    );
}

#[test]
fn openings_are_counted_wherever_they_stand() {
    assert_eq!(count_openings(""), 0);
    assert_eq!(count_openings("{\"a\": [1, {\"b\": []}]}"), 4);
    assert_eq!(count_openings("\"[{\" // [ {"), 4);
    assert_eq!(count_openings("]}é日本"), 0);
}

#[test]
fn a_text_with_too_many_openings_is_refused() {
    let deep = "[".repeat(MAX_OPENINGS + 1) + &"]".repeat(MAX_OPENINGS + 1);
    assert_eq!(parse_document(&deep), Err(ConfigError::MalformedDocument));
    let wide = format!("[{}]", vec!["[]"; MAX_OPENINGS - 1].join(","));
    assert_eq!(count_openings(&wide), MAX_OPENINGS);
    assert_eq!(parse_document(&wide).expect("wide").as_array().map(|a| a.len()), Some(MAX_OPENINGS - 1));
    let nested = "[".repeat(MAX_OPENINGS) + &"]".repeat(MAX_OPENINGS);
    assert!(parse_document(&nested).is_ok());
}

#[test]
fn a_null_span_of_speech_stands_for_no_limit() {
    let text = "{\"transcription\":{\"whisper_cpp\":{\"vad\":{\"max_speech_s\":null}}}}";
    let value = parse_document(text).expect("document");
    let entry = &value["transcription"]["whisper_cpp"]["vad"]["max_speech_s"];
    assert!(entry.is_null());
    let decoded = VadConfig::decode_max_speech_s(None);
    assert!(f32::from_bits(decoded.to_bits()).is_infinite());
    assert!(f32::from_bits(decoded.to_bits()) > 0.0);
}

#[test]
fn a_given_span_of_speech_is_taken_as_it_is() {
    let decoded = VadConfig::decode_max_speech_s(Some(Real32::from_bits(12.5f32.to_bits())));
    assert_eq!(f32::from_bits(decoded.to_bits()), 12.5);
}

#[test]
fn the_default_span_of_speech_is_left_out_of_a_document() {
    let config = Config::default();
    assert!(config.transcription.whisper_cpp.vad.omits_max_speech_s());
}

#[test]
fn a_finite_span_of_speech_is_written_and_any_other_is_left_out() {
    let mut vad = VadConfig::default();
    vad.max_speech_s = Real32::from_bits(30.0f32.to_bits());
    assert!(!vad.omits_max_speech_s());
    vad.max_speech_s = Real32::from_bits(f32::NEG_INFINITY.to_bits());
    assert!(vad.omits_max_speech_s());
    vad.max_speech_s = Real32::from_bits(f32::NAN.to_bits());
    assert!(vad.omits_max_speech_s());
}

#[test]
fn error_messages() {
    assert_eq!(ConfigError::MalformedDocument.message(), "configuration document is malformed");
    assert_eq!(ConfigError::Io.message(), "configuration file or directory is not accessible");
    assert_eq!(ConfigError::Encode.message(), "settings could not be serialized");
    assert_eq!(ConfigError::Environment.message(), "home directory is not set");
}
