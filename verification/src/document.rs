//! From the text of a settings document to the JSON value it spells out.

use crate::error::ConfigError;
use vstd::prelude::*;
use vstd::string::*;

verus! {

/// `serde_json::Value`, a JSON value. The library hands it on and never
/// looks inside.
#[verifier::external_type_specification]
#[verifier::external_body]
pub struct ExJsonValue(serde_json::Value);

/// `jsonc_parser::errors::ParseError`, the reason for which a text did not
/// parse. The library only tells it from success.
#[verifier::external_type_specification]
#[verifier::external_body]
pub struct ExParseError(jsonc_parser::errors::ParseError);

/// What `jsonc_parser::parse_to_serde_value` makes of a text under its
/// default options, which admit comments, trailing commas and unquoted
/// property names: a value, nothing where the text holds only blanks and
/// comments, or the reason for which it does not parse.
pub uninterp spec fn jsonc_parsed(text: Seq<char>) -> Result<
    Option<serde_json::Value>,
    jsonc_parser::errors::ParseError,
>;

/// The most opening brackets and braces that a document may hold. The
/// parser descends once for each level of nesting, and a text cannot nest
/// deeper than it has openings; this bound keeps the descent shallow.
pub const MAX_OPENINGS: usize = 128;

/// Whether a byte opens an array or an object.
pub open spec fn is_opening(byte: u8) -> bool {
    byte == 0x5b || byte == 0x7b
}

/// How many bytes of a text open an array or an object, wherever they
/// stand.
pub open spec fn openings(bytes: Seq<u8>) -> nat
    decreases bytes.len(),
{
    if bytes.len() == 0 {
        0
    } else {
        openings(bytes.drop_last()) + if is_opening(bytes.last()) {
            1nat
        } else {
            0nat
        }
    }
}

/// Counts the bytes of `text` that open an array or an object.
pub fn count_openings(text: &str) -> (n: usize)
    ensures
        n == openings(text.spec_bytes()),
{
    let bytes = text.as_bytes();
    let mut n: usize = 0;
    let mut i: usize = 0;
    proof {
        assert(bytes@.subrange(0, 0) =~= Seq::<u8>::empty());
    }
    while i < bytes.len()
        invariant
            i <= bytes@.len(),
            n <= i,
            n == openings(bytes@.subrange(0, i as int)),
        decreases bytes@.len() - i,
    {
        proof {
            assert(bytes@.subrange(0, i + 1).drop_last() =~= bytes@.subrange(0, i as int));
        }
        if bytes[i] == 0x5b || bytes[i] == 0x7b {
            n = n + 1;
        }
        i = i + 1;
    }
    proof {
        assert(bytes@.subrange(0, bytes@.len() as int) =~= bytes@);
    }
    n
}

/// Calls `jsonc_parser::parse_to_serde_value` with the default options.
/// Nothing is claimed of the outcome but that it is decided by the text.
/// The parser recurses once for each level of nesting, so the text is
/// asked to hold few enough openings.
#[verifier::external_body]
fn parse_jsonc(text: &str) -> (r: Result<
    Option<serde_json::Value>,
    jsonc_parser::errors::ParseError,
>)
    requires
        openings(text.spec_bytes()) <= MAX_OPENINGS,
    ensures
        r == jsonc_parsed(text@),
{
    jsonc_parser::parse_to_serde_value(text, &jsonc_parser::ParseOptions::default())
}

/// The document that a parse stands for: its value if it has one; a text
/// that does not parse, or that holds nothing but blanks and comments, is
/// malformed.
pub open spec fn document_of(
    parsed: Result<Option<serde_json::Value>, jsonc_parser::errors::ParseError>,
) -> Result<serde_json::Value, ConfigError> {
    match parsed {
        Ok(Some(value)) => Ok(value),
        Ok(None) => Err(ConfigError::MalformedDocument),
        Err(_) => Err(ConfigError::MalformedDocument),
    }
}

/// Turns the outcome of a parse into a document or an error.
pub fn document_from(
    parsed: Result<Option<serde_json::Value>, jsonc_parser::errors::ParseError>,
) -> (r: Result<serde_json::Value, ConfigError>)
    ensures
        r == document_of(parsed),
{
    match parsed {
        Ok(Some(value)) => Ok(value),
        Ok(None) => Err(ConfigError::MalformedDocument),
        Err(_) => Err(ConfigError::MalformedDocument),
    }
}

/// Parses the text of a settings document, written in JSON with comments
/// and trailing commas, into the value it spells out. A text with more
/// than [`MAX_OPENINGS`] opening brackets and braces is refused unread.
pub fn parse_document(content: &str) -> (r: Result<serde_json::Value, ConfigError>)
    ensures
        r == if openings(content.spec_bytes()) > MAX_OPENINGS {
            Err(ConfigError::MalformedDocument)
        } else {
            document_of(jsonc_parsed(content@))
        },
{
    if count_openings(content) > MAX_OPENINGS {
        Err(ConfigError::MalformedDocument)
    } else {
        document_from(parse_jsonc(content))
    }
}

} // verus!
