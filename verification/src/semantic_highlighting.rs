//! Semantic highlighting of lines, with the tokens of a line packed into one
//! base64 string.

use crate::basic::{VersionedTextDocumentIdentifier, VersionedTextDocumentIdentifierModel};
use crate::codec::{
    Codec, CodecError, field, find, get, get_optional, group_lookup, lemma_sequence_round_trip,
    lookup, Member, optional, optional_field, outcome, put, put_optional, Record, required,
    survives,
};
use crate::json::{Json, JsonValue, lemma_array_view, lemma_object_view};
use vstd::prelude::*;
use vstd::string::StringSliceAdditionalSpecFns;
use vstd::utf8::encode_utf8;

verus! {

#[derive(Debug, PartialEq, Eq, Structural, Clone, Default)]
pub struct SemanticHighlightingClientCapability {
    /// `true` if the client supports semantic highlighting support text documents. Otherwise, `false`. It is `false` by default.
    pub semantic_highlighting: bool,
}

impl DeepView for SemanticHighlightingClientCapability {
    type V = SemanticHighlightingClientCapability;

    open spec fn deep_view(&self) -> SemanticHighlightingClientCapability {
        SemanticHighlightingClientCapability {
            semantic_highlighting: self.semantic_highlighting.deep_view(),
        }
    }
}

impl Record for SemanticHighlightingClientCapability {
    open spec fn members(before: Seq<Member>, value: SemanticHighlightingClientCapability) -> Seq<Member> {
        before + field::<bool>("semanticHighlighting"@, value.semantic_highlighting)
    }

    open spec fn read(members: Seq<Member>) -> Result<SemanticHighlightingClientCapability, CodecError> {
        let semantic_highlighting = required::<bool>(members, "semanticHighlighting"@);
        if semantic_highlighting is Err {
            Err(semantic_highlighting->Err_0)
        } else {
            Ok(
                SemanticHighlightingClientCapability {
                    semantic_highlighting: semantic_highlighting->Ok_0,
                },
            )
        }
    }

    fn write(&self, members: &mut Vec<(String, Json)>) {
        put(members, "semanticHighlighting", &self.semantic_highlighting);
    }

    fn scan(members: &Vec<(String, Json)>) -> (result: Result<SemanticHighlightingClientCapability, CodecError>) {
        let semantic_highlighting = get::<bool>(members, "semanticHighlighting");
        if let Err(error) = semantic_highlighting {
            Err(error)
        } else {
            Ok(
                SemanticHighlightingClientCapability {
                    semantic_highlighting: semantic_highlighting.unwrap(),
                },
            )
        }
    }
}

impl SemanticHighlightingClientCapability {
    /// Every value comes back unchanged from the document that stands for it.
    pub proof fn lemma_survives(value: SemanticHighlightingClientCapability)
        ensures
            survives::<SemanticHighlightingClientCapability>(value),
    {
        broadcast use group_lookup;

        reveal(required);
        reveal_strlit("semanticHighlighting");
    }
}

#[derive(Debug, PartialEq, Eq, Clone, Default)]
pub struct SemanticHighlightingServerCapability {
    /// A "lookup table" of semantic highlighting [TextMate scopes](https://manual.macromates.com/en/language_grammars)
    /// supported by the language server. If not defined or empty, then the server does not support the semantic highlighting
    /// feature. Otherwise, clients should reuse this "lookup table" when receiving semantic highlighting notifications from
    /// the server.
    pub scopes: Option<Vec<Vec<String>>>,
}

/// What a [`SemanticHighlightingServerCapability`] stands for.
pub struct SemanticHighlightingServerCapabilityModel {
    pub scopes: Option<Seq<Seq<Seq<char>>>>,
}

impl DeepView for SemanticHighlightingServerCapability {
    type V = SemanticHighlightingServerCapabilityModel;

    open spec fn deep_view(&self) -> SemanticHighlightingServerCapabilityModel {
        SemanticHighlightingServerCapabilityModel {
            scopes: self.scopes.deep_view(),
        }
    }
}

impl Record for SemanticHighlightingServerCapability {
    open spec fn members(before: Seq<Member>, value: SemanticHighlightingServerCapabilityModel) -> Seq<Member> {
        before + optional_field::<Vec<Vec<String>>>("scopes"@, value.scopes)
    }

    open spec fn read(members: Seq<Member>) -> Result<SemanticHighlightingServerCapabilityModel, CodecError> {
        let scopes = optional::<Vec<Vec<String>>>(members, "scopes"@);
        if scopes is Err {
            Err(scopes->Err_0)
        } else {
            Ok(
                SemanticHighlightingServerCapabilityModel {
                    scopes: scopes->Ok_0,
                },
            )
        }
    }

    fn write(&self, members: &mut Vec<(String, Json)>) {
        put_optional(members, "scopes", &self.scopes);
    }

    fn scan(members: &Vec<(String, Json)>) -> (result: Result<SemanticHighlightingServerCapability, CodecError>) {
        let scopes = get_optional::<Vec<Vec<String>>>(members, "scopes");
        if let Err(error) = scopes {
            Err(error)
        } else {
            Ok(
                SemanticHighlightingServerCapability {
                    scopes: scopes.unwrap(),
                },
            )
        }
    }
}

impl SemanticHighlightingServerCapability {
    /// Every value comes back unchanged from the document that stands for it.
    pub proof fn lemma_survives(value: SemanticHighlightingServerCapabilityModel)
        ensures
            survives::<SemanticHighlightingServerCapability>(value),
    {
        broadcast use group_lookup;

        reveal(optional);
        reveal_strlit("scopes");
        if let Some(inner) = value.scopes {
            assert forall|i: int| 0 <= i < inner.len() implies survives::<Vec<String>>(
                #[trigger] inner[i],
            ) by {
                let list1 = inner[i];
                lemma_sequence_round_trip::<String>(list1);
            }
            lemma_sequence_round_trip::<Vec<String>>(inner);
        }
    }
}

/// A highlighted stretch of one line: where it starts, how long it is, and the
/// index of its scope in the server's lookup table.
#[derive(Debug, PartialEq, Eq, Structural, Clone, Copy)]
pub struct SemanticHighlightingToken {
    pub character: u32,
    pub length: u16,
    pub scope: u16,
}

impl DeepView for SemanticHighlightingToken {
    type V = SemanticHighlightingToken;

    open spec fn deep_view(&self) -> SemanticHighlightingToken {
        *self
    }
}

/// The base64 text, in the standard alphabet with padding, that stands for `bytes`.
pub uninterp spec fn base64_encoding(bytes: Seq<u8>) -> Seq<char>;

/// The bytes that the base64 text `text` stands for, if it is well formed.
pub uninterp spec fn base64_decoding(text: Seq<char>) -> Option<Seq<u8>>;

/// The error of `base64::decode_config`. Nothing is read from it.
#[verifier::external_type_specification]
#[verifier::external_body]
pub struct ExBase64DecodeError(base64::DecodeError);

/// `base64::encode_config` with the `STANDARD` configuration. The text it
/// returns is a function of the bytes alone, named `base64_encoding`. The
/// crate panics where the length of the text would not fit in `usize`, which
/// the bound on the input excludes.
#[verifier::external_body]
fn base64_encode(bytes: &Vec<u8>) -> (text: String)
    requires
        bytes.len() <= usize::MAX / 2,
    ensures
        text@ == base64_encoding(bytes@),
{
    base64::encode_config(bytes, base64::STANDARD)
}

/// `base64::decode_config` with the `STANDARD` configuration. Whether it
/// accepts the text, and the bytes it then returns, are a function of the
/// text alone, named `base64_decoding`. The crate computes four times the
/// length of the text, which the bound on the input keeps within `usize`.
#[verifier::external_body]
fn base64_decode(text: &str) -> (result: Result<Vec<u8>, base64::DecodeError>)
    requires
        text.spec_bytes().len() <= usize::MAX / 4,
    ensures
        match result {
            Ok(bytes) => base64_decoding(text@) == Some(bytes@),
            Err(_) => base64_decoding(text@) is None,
        },
{
    base64::decode_config(text, base64::STANDARD)
}

/// The integer whose big-endian bytes are `b0` to `b3`.
pub open spec fn be32(b0: u8, b1: u8, b2: u8, b3: u8) -> u32 {
    (b0 * 0x100_0000 + b1 * 0x1_0000 + b2 * 0x100 + b3) as u32
}

/// The integer whose big-endian bytes are `b0` and `b1`.
pub open spec fn be16(b0: u8, b1: u8) -> u16 {
    (b0 * 0x100 + b1) as u16
}

/// The eight bytes of a token: the character offset in four bytes, the length
/// and the scope in two bytes each, all big-endian.
pub open spec fn token_bytes(token: SemanticHighlightingToken) -> Seq<u8> {
    seq![
        (token.character / 0x100_0000) as u8,
        (token.character / 0x1_0000 % 0x100) as u8,
        (token.character / 0x100 % 0x100) as u8,
        (token.character % 0x100) as u8,
        (token.length / 0x100) as u8,
        (token.length % 0x100) as u8,
        (token.scope / 0x100) as u8,
        (token.scope % 0x100) as u8,
    ]
}

/// The token that the eight bytes from `at` on stand for.
pub open spec fn token_at(bytes: Seq<u8>, at: int) -> SemanticHighlightingToken {
    SemanticHighlightingToken {
        character: be32(bytes[at], bytes[at + 1], bytes[at + 2], bytes[at + 3]),
        length: be16(bytes[at + 4], bytes[at + 5]),
        scope: be16(bytes[at + 6], bytes[at + 7]),
    }
}

/// The bytes of a list of tokens: eight for each token, in order.
pub open spec fn pack(tokens: Seq<SemanticHighlightingToken>) -> Seq<u8>
    decreases tokens.len(),
{
    if tokens.len() == 0 {
        Seq::empty()
    } else {
        pack(tokens.drop_last()) + token_bytes(tokens.last())
    }
}

/// The tokens that a run of whole eight-byte records stands for.
pub open spec fn unpack(bytes: Seq<u8>) -> Seq<SemanticHighlightingToken> {
    Seq::new((bytes.len() / 8) as nat, |i: int| token_at(bytes, 8 * i))
}

/// A token string longer than this many bytes is refused unread.
pub open spec fn longest_token_text() -> int {
    (usize::MAX / 4) as int
}

impl SemanticHighlightingToken {
    /// The document that stands for a line's tokens: the base64 text of their
    /// bytes, or `null` where the line has no token list.
    pub open spec fn encode_tokens(tokens: Option<Seq<SemanticHighlightingToken>>) -> JsonValue {
        match tokens {
            Some(tokens) => JsonValue::String(base64_encoding(pack(tokens))),
            None => JsonValue::Null,
        }
    }

    /// The tokens that a document stands for. `null` stands for no token
    /// list. A string must be base64 text whose bytes fill whole records.
    pub open spec fn decode_tokens(json: JsonValue) -> Result<
        Option<Seq<SemanticHighlightingToken>>,
        CodecError,
    > {
        match json {
            JsonValue::Null => Ok(None),
            JsonValue::String(text) => {
                if encode_utf8(text).len() > longest_token_text() {
                    Err(CodecError::MalformedBase64)
                } else {
                    match base64_decoding(text) {
                        None => Err(CodecError::MalformedBase64),
                        Some(bytes) => Self::decode_bytes(bytes),
                    }
                }
            },
            _ => Err(CodecError::UnexpectedType),
        }
    }

    /// The tokens that the bytes of a token string stand for.
    pub open spec fn decode_bytes(bytes: Seq<u8>) -> Result<
        Option<Seq<SemanticHighlightingToken>>,
        CodecError,
    > {
        if bytes.len() % 8 != 0 {
            Err(CodecError::MalformedBase64)
        } else {
            Ok(Some(unpack(bytes)))
        }
    }

    /// Reads the tokens of a line from a base64 encoded string.
    pub fn deserialize_tokens(json: &Json) -> (result: Result<
        Option<Vec<SemanticHighlightingToken>>,
        CodecError,
    >)
        ensures
            outcome(result) == Self::decode_tokens(json.deep_view()),
    {
        match json {
            Json::Null => Ok(None),
            Json::String(text) => {
                if text.as_str().as_bytes().len() > usize::MAX / 4 {
                    Err(CodecError::MalformedBase64)
                } else {
                    match base64_decode(text.as_str()) {
                        Err(_) => Err(CodecError::MalformedBase64),
                        Ok(bytes) => Self::tokens_of_bytes(&bytes),
                    }
                }
            },
            _ => Err(CodecError::UnexpectedType),
        }
    }

    /// Splits the bytes of a token string into tokens. A trailing partial
    /// record makes the whole string malformed.
    pub fn tokens_of_bytes(bytes: &Vec<u8>) -> (result: Result<
        Option<Vec<SemanticHighlightingToken>>,
        CodecError,
    >)
        ensures
            outcome(result) == Self::decode_bytes(bytes@),
    {
        if bytes.len() % 8 != 0 {
            return Err(CodecError::MalformedBase64);
        }
        let count = bytes.len() / 8;
        let mut tokens: Vec<SemanticHighlightingToken> = Vec::new();
        let mut i: usize = 0;
        while i < count
            invariant
                i <= count,
                count == bytes.len() / 8,
                bytes.len() % 8 == 0,
                tokens.len() == i,
                forall|k: int| 0 <= k < i ==> tokens@[k] == token_at(bytes@, 8 * k),
            decreases count - i,
        {
            let at = 8 * i;
            let character: u32 = (bytes[at] as u32) * 0x100_0000 + (bytes[at + 1] as u32) * 0x1_0000
                + (bytes[at + 2] as u32) * 0x100 + (bytes[at + 3] as u32);
            let length: u16 = (bytes[at + 4] as u16) * 0x100 + (bytes[at + 5] as u16);
            let scope: u16 = (bytes[at + 6] as u16) * 0x100 + (bytes[at + 7] as u16);
            tokens.push(SemanticHighlightingToken { character, length, scope });
            i += 1;
        }
        proof {
            assert(tokens.deep_view() =~= unpack(bytes@));
        }
        Ok(Some(tokens))
    }

    /// Writes the tokens of a line as a base64 encoded string.
    pub fn serialize_tokens(tokens: &Option<Vec<SemanticHighlightingToken>>) -> (json: Json)
        requires
            tokens matches Some(list) ==> list.len() <= usize::MAX / 16,
        ensures
            json.deep_view() == Self::encode_tokens(tokens.deep_view()),
    {
        match tokens {
            Some(list) => {
                let bytes = Self::bytes_of_tokens(list);
                Json::String(base64_encode(&bytes))
            },
            None => Json::Null,
        }
    }

    /// Lays out the tokens of a line as bytes.
    pub fn bytes_of_tokens(tokens: &Vec<SemanticHighlightingToken>) -> (bytes: Vec<u8>)
        requires
            tokens.len() <= usize::MAX / 16,
        ensures
            bytes@ == pack(tokens.deep_view()),
            bytes.len() == 8 * tokens.len(),
    {
        let mut bytes: Vec<u8> = Vec::new();
        let mut i: usize = 0;
        proof {
            assert(tokens.deep_view().take(0) =~= Seq::empty());
        }
        while i < tokens.len()
            invariant
                i <= tokens.len(),
                bytes@ == pack(tokens.deep_view().take(i as int)),
                bytes.len() == 8 * i,
            decreases tokens.len() - i,
        {
            let token = tokens[i];
            let ghost before = bytes@;
            bytes.push((token.character / 0x100_0000) as u8);
            bytes.push((token.character / 0x1_0000 % 0x100) as u8);
            bytes.push((token.character / 0x100 % 0x100) as u8);
            bytes.push((token.character % 0x100) as u8);
            bytes.push((token.length / 0x100) as u8);
            bytes.push((token.length % 0x100) as u8);
            bytes.push((token.scope / 0x100) as u8);
            bytes.push((token.scope % 0x100) as u8);
            proof {
                let next = tokens.deep_view().take(i + 1);
                assert(next.drop_last() =~= tokens.deep_view().take(i as int));
                assert(next.last() == token);
                assert(bytes@ =~= before + token_bytes(token));
            }
            i += 1;
        }
        proof {
            assert(tokens.deep_view().take(i as int) =~= tokens.deep_view());
        }
        bytes
    }
}

/// The bytes of a list of tokens hold eight bytes for each token, those of the
/// `k`-th token from byte `8 * k` on.
pub proof fn lemma_pack_layout(tokens: Seq<SemanticHighlightingToken>)
    ensures
        pack(tokens).len() == 8 * tokens.len(),
        forall|k: int, j: int|
            0 <= k < tokens.len() && 0 <= j < 8 ==> #[trigger] pack(tokens)[8 * k + j]
                == token_bytes(tokens[k])[j],
    decreases tokens.len(),
{
    if tokens.len() > 0 {
        lemma_pack_layout(tokens.drop_last());
        let head = pack(tokens.drop_last());
        assert forall|k: int, j: int| 0 <= k < tokens.len() && 0 <= j < 8 implies #[trigger] pack(
            tokens,
        )[8 * k + j] == token_bytes(tokens[k])[j] by {
            if k < tokens.len() - 1 {
                assert(pack(tokens)[8 * k + j] == head[8 * k + j]);
                assert(tokens.drop_last()[k] == tokens[k]);
            } else {
                assert(pack(tokens)[8 * k + j] == token_bytes(tokens.last())[j]);
            }
        }
    }
}

/// An integer comes back unchanged from its four big-endian bytes.
pub proof fn lemma_be32(x: u32)
    ensures
        be32(
            (x / 0x100_0000) as u8,
            (x / 0x1_0000 % 0x100) as u8,
            (x / 0x100 % 0x100) as u8,
            (x % 0x100) as u8,
        ) == x,
{
}

/// An integer comes back unchanged from its two big-endian bytes.
pub proof fn lemma_be16(x: u16)
    ensures
        be16((x / 0x100) as u8, (x % 0x100) as u8) == x,
{
}

/// A token comes back unchanged from its eight bytes.
pub proof fn lemma_token_bytes(token: SemanticHighlightingToken)
    ensures
        token_bytes(token).len() == 8,
        token_at(token_bytes(token), 0) == token,
{
    lemma_be32(token.character);
    lemma_be16(token.length);
    lemma_be16(token.scope);
}

/// Tokens come back unchanged from their bytes.
pub proof fn lemma_unpack_pack(tokens: Seq<SemanticHighlightingToken>)
    ensures
        unpack(pack(tokens)) == tokens,
{
    lemma_pack_layout(tokens);
    let bytes = pack(tokens);
    assert forall|k: int| 0 <= k < tokens.len() implies unpack(bytes)[k] == tokens[k] by {
        let own = token_bytes(tokens[k]);
        lemma_token_bytes(tokens[k]);
        assert(bytes[8 * k + 0] == own[0]);
        assert(bytes[8 * k + 1] == own[1]);
        assert(bytes[8 * k + 2] == own[2]);
        assert(bytes[8 * k + 3] == own[3]);
        assert(bytes[8 * k + 4] == own[4]);
        assert(bytes[8 * k + 5] == own[5]);
        assert(bytes[8 * k + 6] == own[6]);
        assert(bytes[8 * k + 7] == own[7]);
        assert(token_at(bytes, 8 * k) == token_at(own, 0));
    }
    assert(unpack(bytes) =~= tokens);
}

/// A line's tokens come back unchanged from the document that stands for
/// them, wherever the base64 text of their bytes is short enough to be read
/// and decodes to those bytes.
pub proof fn lemma_tokens_round_trip(tokens: Option<Seq<SemanticHighlightingToken>>)
    ensures
        tokens matches Some(list) ==> ({
            let text = base64_encoding(pack(list));
            encode_utf8(text).len() <= longest_token_text() && base64_decoding(text) == Some(
                pack(list),
            ) ==> SemanticHighlightingToken::decode_tokens(
                SemanticHighlightingToken::encode_tokens(tokens),
            ) == Ok::<Option<Seq<SemanticHighlightingToken>>, CodecError>(tokens)
        }),
        tokens is None ==> SemanticHighlightingToken::decode_tokens(
            SemanticHighlightingToken::encode_tokens(tokens),
        ) == Ok::<Option<Seq<SemanticHighlightingToken>>, CodecError>(tokens),
{
    if let Some(list) = tokens {
        lemma_pack_layout(list);
        lemma_unpack_pack(list);
    }
}

/// Represents a semantic highlighting information that has to be applied on a specific line of the text document.
#[derive(Debug, PartialEq, Eq, Clone)]
pub struct SemanticHighlightingInformation {
    /// The zero-based line position in the text document.
    pub line: i32,
    /// A base64 encoded string representing every single highlighted characters with its start position, length and the "lookup table" index of
    /// of the semantic highlighting [TextMate scopes](https://manual.macromates.com/en/language_grammars).
    /// If the `tokens` is empty or not defined, then no highlighted positions are available for the line.
    pub tokens: Option<Vec<SemanticHighlightingToken>>,
}

/// What a [`SemanticHighlightingInformation`] stands for.
pub struct SemanticHighlightingInformationModel {
    pub line: i32,
    pub tokens: Option<Seq<SemanticHighlightingToken>>,
}

impl DeepView for SemanticHighlightingInformation {
    type V = SemanticHighlightingInformationModel;

    open spec fn deep_view(&self) -> SemanticHighlightingInformationModel {
        SemanticHighlightingInformationModel {
            line: self.line.deep_view(),
            tokens: self.tokens.deep_view(),
        }
    }
}

impl SemanticHighlightingInformation {
    /// Whether the tokens of the line are few enough for their bytes to be
    /// laid out in memory.
    pub open spec fn fits(self) -> bool {
        self.tokens matches Some(list) ==> list.len() <= usize::MAX / 16
    }

    /// The members that stand for the highlighting of a line. The token
    /// list is left out where the line has none.
    pub open spec fn members(value: SemanticHighlightingInformationModel) -> Seq<Member> {
        Seq::empty() + field::<i32>("line"@, value.line) + match value.tokens {
            Some(_) => seq![("tokens"@, SemanticHighlightingToken::encode_tokens(value.tokens))],
            None => Seq::empty(),
        }
    }

    /// The document that stands for the highlighting of a line.
    pub open spec fn encode(value: SemanticHighlightingInformationModel) -> JsonValue {
        JsonValue::Object(Self::members(value))
    }

    /// The highlighting of a line that a document stands for. A missing
    /// token list stands for none.
    pub open spec fn decode(json: JsonValue) -> Result<
        SemanticHighlightingInformationModel,
        CodecError,
    > {
        match json {
            JsonValue::Object(members) => {
                let line = required::<i32>(members, "line"@);
                let tokens = match lookup(members, "tokens"@) {
                    Some(json) => SemanticHighlightingToken::decode_tokens(json),
                    None => Ok(None),
                };
                if line is Err {
                    Err(line->Err_0)
                } else if tokens is Err {
                    Err(tokens->Err_0)
                } else {
                    Ok(
                        SemanticHighlightingInformationModel {
                            line: line->Ok_0,
                            tokens: tokens->Ok_0,
                        },
                    )
                }
            },
            _ => Err(CodecError::UnexpectedType),
        }
    }

    /// Writes the highlighting of a line.
    pub fn serialize(&self) -> (json: Json)
        requires
            self.fits(),
        ensures
            json.deep_view() == Self::encode(self.deep_view()),
    {
        let mut members: Vec<(String, Json)> = Vec::new();
        proof {
            assert(members.deep_view() =~= Seq::empty());
        }
        put(&mut members, "line", &self.line);
        if self.tokens.is_some() {
            let ghost before = members.deep_view();
            members.push(("tokens".to_owned(), SemanticHighlightingToken::serialize_tokens(&self.tokens)));
            proof {
                assert(members.deep_view() =~= before + seq![
                    ("tokens"@, SemanticHighlightingToken::encode_tokens(self.tokens.deep_view())),
                ]);
            }
        } else {
            proof {
                assert(members.deep_view() =~= members.deep_view() + Seq::empty());
            }
        }
        proof {
            lemma_object_view(members);
        }
        Json::Object(members)
    }

    /// Reads the highlighting of a line.
    pub fn deserialize(json: &Json) -> (result: Result<SemanticHighlightingInformation, CodecError>)
        ensures
            outcome(result) == Self::decode(json.deep_view()),
    {
        match json {
            Json::Object(members) => {
                proof {
                    lemma_object_view(*members);
                }
                let line = get::<i32>(members, "line");
                let tokens = match find(members, "tokens") {
                    Some(json) => SemanticHighlightingToken::deserialize_tokens(json),
                    None => Ok(None),
                };
                if let Err(error) = line {
                    Err(error)
                } else if let Err(error) = tokens {
                    Err(error)
                } else {
                    Ok(
                        SemanticHighlightingInformation {
                            line: line.unwrap(),
                            tokens: tokens.unwrap(),
                        },
                    )
                }
            },
            _ => Err(CodecError::UnexpectedType),
        }
    }
}

/// The documents that stand for the highlighting of a list of lines, in order.
pub open spec fn encode_lines(lines: Seq<SemanticHighlightingInformationModel>) -> Seq<JsonValue> {
    Seq::new(lines.len(), |i: int| SemanticHighlightingInformation::encode(lines[i]))
}

/// The highlighting that the documents of a list stand for, in order, or the
/// error of the first document that stands for none.
pub open spec fn decode_lines(items: Seq<JsonValue>) -> Result<
    Seq<SemanticHighlightingInformationModel>,
    CodecError,
>
    decreases items.len(),
{
    if items.len() == 0 {
        Ok(Seq::empty())
    } else {
        match decode_lines(items.drop_last()) {
            Err(error) => Err(error),
            Ok(lines) => match SemanticHighlightingInformation::decode(items.last()) {
                Err(error) => Err(error),
                Ok(line) => Ok(lines.push(line)),
            },
        }
    }
}

/// An error among the first `n` documents is the error of the whole list.
pub proof fn lemma_decode_lines_error(items: Seq<JsonValue>, n: int)
    requires
        0 <= n <= items.len(),
        decode_lines(items.take(n)) is Err,
    ensures
        decode_lines(items) == decode_lines(items.take(n)),
    decreases items.len(),
{
    if n < items.len() {
        assert(items.drop_last().take(n) =~= items.take(n));
        lemma_decode_lines_error(items.drop_last(), n);
    } else {
        assert(items.take(n) =~= items);
    }
}

/// Parameters for the semantic highlighting (server-side) push notification.
#[derive(Debug, PartialEq, Eq, Clone)]
pub struct SemanticHighlightingParams {
    /// The text document that has to be decorated with the semantic highlighting information.
    pub text_document: VersionedTextDocumentIdentifier,
    /// An array of semantic highlighting information.
    pub lines: Vec<SemanticHighlightingInformation>,
}

/// What [`SemanticHighlightingParams`] stand for.
pub struct SemanticHighlightingParamsModel {
    pub text_document: VersionedTextDocumentIdentifierModel,
    pub lines: Seq<SemanticHighlightingInformationModel>,
}

impl DeepView for SemanticHighlightingParams {
    type V = SemanticHighlightingParamsModel;

    open spec fn deep_view(&self) -> SemanticHighlightingParamsModel {
        SemanticHighlightingParamsModel {
            text_document: self.text_document.deep_view(),
            lines: self.lines.deep_view(),
        }
    }
}

impl SemanticHighlightingParams {
    /// Whether the tokens of each line are few enough for their bytes to be
    /// laid out in memory.
    pub open spec fn fits(self) -> bool {
        forall|i: int| 0 <= i < self.lines@.len() ==> (#[trigger] self.lines@[i]).fits()
    }

    /// The document that stands for the parameters.
    pub open spec fn encode(value: SemanticHighlightingParamsModel) -> JsonValue {
        JsonValue::Object(
            Seq::empty() + field::<VersionedTextDocumentIdentifier>(
                "textDocument"@,
                value.text_document,
            ) + seq![("lines"@, JsonValue::Array(encode_lines(value.lines)))],
        )
    }

    /// The parameters that a document stands for.
    pub open spec fn decode(json: JsonValue) -> Result<SemanticHighlightingParamsModel, CodecError> {
        match json {
            JsonValue::Object(members) => {
                let text_document = required::<VersionedTextDocumentIdentifier>(
                    members,
                    "textDocument"@,
                );
                let lines = match lookup(members, "lines"@) {
                    Some(JsonValue::Array(items)) => decode_lines(items),
                    Some(_) => Err(CodecError::UnexpectedType),
                    None => Err(CodecError::MissingField),
                };
                if text_document is Err {
                    Err(text_document->Err_0)
                } else if lines is Err {
                    Err(lines->Err_0)
                } else {
                    Ok(
                        SemanticHighlightingParamsModel {
                            text_document: text_document->Ok_0,
                            lines: lines->Ok_0,
                        },
                    )
                }
            },
            _ => Err(CodecError::UnexpectedType),
        }
    }

    /// Writes the parameters.
    pub fn serialize(&self) -> (json: Json)
        requires
            self.fits(),
        ensures
            json.deep_view() == Self::encode(self.deep_view()),
    {
        let mut members: Vec<(String, Json)> = Vec::new();
        proof {
            assert(members.deep_view() =~= Seq::empty());
        }
        put(&mut members, "textDocument", &self.text_document);
        let mut items: Vec<Json> = Vec::new();
        let mut i: usize = 0;
        while i < self.lines.len()
            invariant
                i <= self.lines.len(),
                self.fits(),
                items.len() == i,
                forall|k: int|
                    0 <= k < i ==> (#[trigger] items@[k]).deep_view()
                        == SemanticHighlightingInformation::encode(self.lines@[k].deep_view()),
            decreases self.lines.len() - i,
        {
            items.push(self.lines[i].serialize());
            i += 1;
        }
        proof {
            lemma_array_view(items);
            assert(items.deep_view() =~= encode_lines(self.lines.deep_view()));
        }
        let ghost before = members.deep_view();
        members.push(("lines".to_owned(), Json::Array(items)));
        proof {
            assert(members.deep_view() =~= before + seq![
                ("lines"@, JsonValue::Array(encode_lines(self.lines.deep_view()))),
            ]);
            lemma_object_view(members);
        }
        Json::Object(members)
    }

    /// Reads the parameters.
    pub fn deserialize(json: &Json) -> (result: Result<SemanticHighlightingParams, CodecError>)
        ensures
            outcome(result) == Self::decode(json.deep_view()),
    {
        match json {
            Json::Object(members) => {
                proof {
                    lemma_object_view(*members);
                }
                let text_document = get::<VersionedTextDocumentIdentifier>(members, "textDocument");
                let lines = match find(members, "lines") {
                    Some(Json::Array(items)) => {
                        proof {
                            lemma_array_view(*items);
                        }
                        read_lines(items)
                    },
                    Some(_) => Err(CodecError::UnexpectedType),
                    None => Err(CodecError::MissingField),
                };
                if let Err(error) = text_document {
                    Err(error)
                } else if let Err(error) = lines {
                    Err(error)
                } else {
                    Ok(
                        SemanticHighlightingParams {
                            text_document: text_document.unwrap(),
                            lines: lines.unwrap(),
                        },
                    )
                }
            },
            _ => Err(CodecError::UnexpectedType),
        }
    }
}

/// Reads the highlighting of a list of lines.
pub fn read_lines(items: &Vec<Json>) -> (result: Result<
    Vec<SemanticHighlightingInformation>,
    CodecError,
>)
    ensures
        outcome(result) == decode_lines(items.deep_view()),
{
    let mut lines: Vec<SemanticHighlightingInformation> = Vec::new();
    let mut i: usize = 0;
    proof {
        assert(items.deep_view().take(0) =~= Seq::empty());
        assert(lines.deep_view() =~= Seq::empty());
    }
    while i < items.len()
        invariant
            i <= items.len(),
            decode_lines(items.deep_view().take(i as int)) == Ok::<
                Seq<SemanticHighlightingInformationModel>,
                CodecError,
            >(lines.deep_view()),
        decreases items.len() - i,
    {
        let ghost next = items.deep_view().take(i + 1);
        proof {
            assert(next.drop_last() =~= items.deep_view().take(i as int));
            assert(next.last() == items@[i as int].deep_view());
        }
        match SemanticHighlightingInformation::deserialize(&items[i]) {
            Ok(line) => {
                let ghost so_far = lines.deep_view();
                lines.push(line);
                proof {
                    assert(lines.deep_view() =~= so_far.push(line.deep_view()));
                }
            },
            Err(error) => {
                proof {
                    assert(decode_lines(next) == Err::<
                        Seq<SemanticHighlightingInformationModel>,
                        CodecError,
                    >(error));
                    lemma_decode_lines_error(items.deep_view(), i + 1);
                }
                return Err(error);
            },
        }
        i += 1;
    }
    proof {
        assert(items.deep_view().take(i as int) =~= items.deep_view());
    }
    Ok(lines)
}

} // verus!
