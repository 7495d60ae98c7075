//! URI references, as the `fluent_uri` crate accepts them.

use crate::codec::{survives, Codec, CodecError};
use crate::json::{Json, JsonValue};
use vstd::prelude::*;
use vstd::string::StringSliceAdditionalSpecFns;
use vstd::utf8::encode_utf8;

verus! {

/// Whether a string is a URI reference.
pub uninterp spec fn is_uri_reference(text: Seq<char>) -> bool;

/// The error of `fluent_uri::Uri::parse`. Nothing is read from it.
#[verifier::external_type_specification]
#[verifier::external_body]
pub struct ExUriParseError(fluent_uri::ParseError);

/// `fluent_uri::Uri::parse`. Whether it accepts the text is a function of
/// the text alone, named `is_uri_reference`. The crate panics on a text of
/// more than `i32::MAX` bytes, which the bound on the input excludes.
#[verifier::external_body]
fn check_uri_reference(text: &str) -> (result: Result<(), fluent_uri::ParseError>)
    requires
        text.spec_bytes().len() <= i32::MAX,
    ensures
        result is Ok <==> is_uri_reference(text@),
{
    match fluent_uri::Uri::parse(text) {
        Ok(_) => Ok(()),
        Err(error) => Err(error),
    }
}

/// A string is the text of a URI where it is a URI reference of at most
/// `i32::MAX` bytes.
pub open spec fn is_uri_text(text: Seq<char>) -> bool {
    encode_utf8(text).len() <= i32::MAX && is_uri_reference(text)
}

/// A URI reference, kept as the string that it was parsed from.
#[derive(Debug, PartialOrd, Ord, Hash)]
pub struct Uri {
    text: String,
}

impl DeepView for Uri {
    type V = Seq<char>;

    closed spec fn deep_view(&self) -> Seq<char> {
        self.text@
    }
}

impl Clone for Uri {
    fn clone(&self) -> (copy: Uri)
        ensures
            copy.deep_view() == self.deep_view(),
    {
        proof {
            use_type_invariant(self);
        }
        Uri { text: self.text.clone() }
    }
}

impl PartialEq for Uri {
    fn eq(&self, other: &Uri) -> (equal: bool) {
        self.text == other.text
    }
}

impl Eq for Uri {

}

impl vstd::std_specs::cmp::PartialEqSpecImpl for Uri {
    open spec fn obeys_eq_spec() -> bool {
        true
    }

    open spec fn eq_spec(&self, other: &Uri) -> bool {
        self.deep_view() == other.deep_view()
    }
}

impl Uri {
    #[verifier::type_invariant]
    spec fn well_formed(self) -> bool {
        is_uri_text(self.text@)
    }

    /// Parses a URI reference from a string.
    pub fn from_str(text: &str) -> (result: Result<Uri, CodecError>)
        ensures
            match result {
                Ok(uri) => is_uri_text(text@) && uri.deep_view() == text@,
                Err(error) => !is_uri_text(text@) && error == CodecError::InvalidUri,
            },
    {
        if text.as_bytes().len() > i32::MAX as usize {
            return Err(CodecError::InvalidUri);
        }
        match check_uri_reference(text) {
            Ok(_) => Ok(Uri { text: text.to_owned() }),
            Err(_) => Err(CodecError::InvalidUri),
        }
    }

    /// Returns the URI reference as a string slice.
    pub fn as_str(&self) -> (text: &str)
        ensures
            text@ == self.deep_view(),
            is_uri_text(text@),
    {
        proof {
            use_type_invariant(self);
        }
        self.text.as_str()
    }

    /// The text of a URI comes back unchanged from the string that stands
    /// for it.
    pub proof fn lemma_round_trip(text: Seq<char>)
        requires
            is_uri_text(text),
        ensures
            survives::<Uri>(text),
    {
    }
}

impl core::str::FromStr for Uri {
    type Err = CodecError;

    fn from_str(text: &str) -> (result: Result<Uri, CodecError>) {
        Uri::from_str(text)
    }
}

impl Codec for Uri {
    open spec fn encode(value: Seq<char>) -> JsonValue {
        JsonValue::String(value)
    }

    open spec fn decode(json: JsonValue) -> Result<Seq<char>, CodecError> {
        match json {
            JsonValue::String(text) => {
                if is_uri_text(text) {
                    Ok(text)
                } else {
                    Err(CodecError::InvalidUri)
                }
            },
            _ => Err(CodecError::UnexpectedType),
        }
    }

    fn serialize(&self) -> (json: Json) {
        Json::String(self.text.clone())
    }

    fn deserialize(json: &Json) -> (result: Result<Uri, CodecError>) {
        match json {
            Json::String(text) => Uri::from_str(text.as_str()),
            _ => Err(CodecError::UnexpectedType),
        }
    }
}

} // verus!
