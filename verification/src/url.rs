//! URLs, as the `url` crate parses and serializes them.

use crate::codec::{survives, Codec, CodecError};
use crate::json::{Json, JsonValue};
use vstd::prelude::*;

verus! {

/// The serialization of the URL that `input` parses to, if it parses to one.
pub uninterp spec fn url_serialization(input: Seq<char>) -> Option<Seq<char>>;

/// The error of `url::Url::parse`. Nothing is read from it.
#[verifier::external_type_specification]
#[verifier::external_body]
pub struct ExParseError(url::ParseError);

/// `url::Url::parse`, and `Url::as_str` on the URL that it returns. Whether
/// the input parses, and the serialization of the URL that it parses to, are
/// a function of the input alone, named `url_serialization`.
#[verifier::external_body]
fn parse_and_serialize(input: &str) -> (result: Result<String, url::ParseError>)
    ensures
        match result {
            Ok(text) => url_serialization(input@) == Some(text@),
            Err(_) => url_serialization(input@) is None,
        },
{
    match url::Url::parse(input) {
        Ok(url) => Ok(String::from(url.as_str())),
        Err(error) => Err(error),
    }
}

/// A string is the text of a URL where it is the serialization of the URL
/// that it parses to.
pub open spec fn is_url_text(text: Seq<char>) -> bool {
    url_serialization(text) == Some(text)
}

/// The serialization of the URL that `input` stands for: `input` must parse,
/// and what it parses to must parse to itself.
pub open spec fn url_text(input: Seq<char>) -> Option<Seq<char>> {
    match url_serialization(input) {
        Some(text) if is_url_text(text) => Some(text),
        _ => None,
    }
}

/// A parsed URL, kept as its serialization.
#[derive(Debug, PartialEq, Eq, PartialOrd, Ord, Hash)]
pub struct Url {
    serialization: String,
}

impl DeepView for Url {
    type V = Seq<char>;

    closed spec fn deep_view(&self) -> Seq<char> {
        self.serialization@
    }
}

impl Clone for Url {
    fn clone(&self) -> (copy: Url)
        ensures
            copy.deep_view() == self.deep_view(),
    {
        proof {
            use_type_invariant(self);
        }
        Url { serialization: self.serialization.clone() }
    }
}

impl Url {
    #[verifier::type_invariant]
    spec fn well_formed(self) -> bool {
        is_url_text(self.serialization@)
    }

    /// Parses an absolute URL from a string.
    pub fn parse(input: &str) -> (result: Result<Url, CodecError>)
        ensures
            match result {
                Ok(url) => url_text(input@) == Some(url.deep_view()),
                Err(error) => url_text(input@) is None && error == CodecError::InvalidUrl,
            },
    {
        match parse_and_serialize(input) {
            Err(_) => Err(CodecError::InvalidUrl),
            Ok(text) => match parse_and_serialize(text.as_str()) {
                Err(_) => Err(CodecError::InvalidUrl),
                Ok(again) => {
                    if again == text {
                        Ok(Url { serialization: text })
                    } else {
                        Err(CodecError::InvalidUrl)
                    }
                },
            },
        }
    }

    /// Returns the serialization of this URL.
    pub fn as_str(&self) -> (text: &str)
        ensures
            text@ == self.deep_view(),
            is_url_text(text@),
    {
        proof {
            use_type_invariant(self);
        }
        self.serialization.as_str()
    }

    /// Tells whether two URLs have the same serialization.
    pub fn same(&self, other: &Url) -> (same: bool)
        ensures
            same == (self.deep_view() == other.deep_view()),
    {
        self.serialization == other.serialization
    }

    /// The text of a URL comes back unchanged from the string that stands
    /// for it.
    pub proof fn lemma_round_trip(text: Seq<char>)
        requires
            is_url_text(text),
        ensures
            survives::<Url>(text),
    {
    }
}

impl Codec for Url {
    open spec fn encode(value: Seq<char>) -> JsonValue {
        JsonValue::String(value)
    }

    open spec fn decode(json: JsonValue) -> Result<Seq<char>, CodecError> {
        match json {
            JsonValue::String(input) => match url_text(input) {
                Some(text) => Ok(text),
                None => Err(CodecError::InvalidUrl),
            },
            _ => Err(CodecError::UnexpectedType),
        }
    }

    fn serialize(&self) -> (json: Json) {
        Json::String(self.serialization.clone())
    }

    fn deserialize(json: &Json) -> (result: Result<Url, CodecError>) {
        match json {
            Json::String(input) => Url::parse(input.as_str()),
            _ => Err(CodecError::UnexpectedType),
        }
    }
}

} // verus!
