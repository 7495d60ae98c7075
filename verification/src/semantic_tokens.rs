//! Semantic tokens of a document, with the tokens packed into one flat array
//! of integers.

use crate::basic::{
    DocumentFilter, NumberOrString, Range, TextDocumentIdentifier, TextDocumentIdentifierModel,
};
use crate::codec::{
    Codec, CodecError, field, find, get, get_optional, group_lookup, lemma_sequence_round_trip,
    lookup, Member, optional, optional_field, outcome, put, put_optional, Record, required,
    survives,
};
use crate::json::{Json, JsonValue, lemma_object_view};
use crate::progress::{
    PartialResultParams, PartialResultParamsModel, WorkDoneProgressOptions, WorkDoneProgressParams,
    WorkDoneProgressParamsModel,
};
use crate::registration::{
    StaticRegistrationOptions, StaticRegistrationOptionsModel, TextDocumentRegistrationOptions,
    TextDocumentRegistrationOptionsModel,
};
use std::borrow::Cow;
use vstd::prelude::*;
use vstd::std_specs::convert::FromSpecImpl;

verus! {

/// @since 3.16.0 - Proposed state
#[derive(Debug, PartialEq, Eq, Clone, Default)]
pub struct SemanticTokensLegend {
    /// The token types a server uses.
    pub token_types: Vec<SemanticTokenType>,
    /// The token modifiers a server uses.
    pub token_modifiers: Vec<SemanticTokenModifier>,
}

/// What a [`SemanticTokensLegend`] stands for.
pub struct SemanticTokensLegendModel {
    pub token_types: Seq<Seq<char>>,
    pub token_modifiers: Seq<Seq<char>>,
}

impl DeepView for SemanticTokensLegend {
    type V = SemanticTokensLegendModel;

    open spec fn deep_view(&self) -> SemanticTokensLegendModel {
        SemanticTokensLegendModel {
            token_types: self.token_types.deep_view(),
            token_modifiers: self.token_modifiers.deep_view(),
        }
    }
}

impl Record for SemanticTokensLegend {
    open spec fn members(before: Seq<Member>, value: SemanticTokensLegendModel) -> Seq<Member> {
        before + field::<Vec<SemanticTokenType>>("tokenTypes"@, value.token_types)
            + field::<Vec<SemanticTokenModifier>>("tokenModifiers"@, value.token_modifiers)
    }

    open spec fn read(members: Seq<Member>) -> Result<SemanticTokensLegendModel, CodecError> {
        let token_types = required::<Vec<SemanticTokenType>>(members, "tokenTypes"@);
        let token_modifiers = required::<Vec<SemanticTokenModifier>>(members, "tokenModifiers"@);
        if token_types is Err {
            Err(token_types->Err_0)
        } else if token_modifiers is Err {
            Err(token_modifiers->Err_0)
        } else {
            Ok(
                SemanticTokensLegendModel {
                    token_types: token_types->Ok_0,
                    token_modifiers: token_modifiers->Ok_0,
                },
            )
        }
    }

    fn write(&self, members: &mut Vec<(String, Json)>) {
        put(members, "tokenTypes", &self.token_types);
        put(members, "tokenModifiers", &self.token_modifiers);
    }

    fn scan(members: &Vec<(String, Json)>) -> (result: Result<SemanticTokensLegend, CodecError>) {
        let token_types = get::<Vec<SemanticTokenType>>(members, "tokenTypes");
        let token_modifiers = get::<Vec<SemanticTokenModifier>>(members, "tokenModifiers");
        if let Err(error) = token_types {
            Err(error)
        } else if let Err(error) = token_modifiers {
            Err(error)
        } else {
            Ok(
                SemanticTokensLegend {
                    token_types: token_types.unwrap(),
                    token_modifiers: token_modifiers.unwrap(),
                },
            )
        }
    }
}

impl SemanticTokensLegend {
    /// Every value comes back unchanged from the document that stands for it.
    pub proof fn lemma_survives(value: SemanticTokensLegendModel)
        ensures
            survives::<SemanticTokensLegend>(value),
    {
        broadcast use group_lookup;

        reveal(required);
        reveal_strlit("tokenTypes");
        reveal_strlit("tokenModifiers");
        let list = value.token_types;
        assert forall|i: int| 0 <= i < list.len() implies survives::<SemanticTokenType>(
            #[trigger] list[i],
        ) by {
            SemanticTokenType::lemma_survives(list[i]);
        }
        lemma_sequence_round_trip::<SemanticTokenType>(list);
        let list = value.token_modifiers;
        assert forall|i: int| 0 <= i < list.len() implies survives::<SemanticTokenModifier>(
            #[trigger] list[i],
        ) by {
            SemanticTokenModifier::lemma_survives(list[i]);
        }
        lemma_sequence_round_trip::<SemanticTokenModifier>(list);
    }
}

/// @since 3.16.0 - Proposed state
#[derive(Debug, PartialEq, Eq, Clone, Default)]
pub struct SemanticTokens {
    /// An optional result id. If provided and clients support delta updating
    /// the client will include the result id in the next semantic token request.
    /// A server can then instead of computing all sematic tokens again simply
    /// send a delta.
    pub result_id: Option<String>,
    /// The actual tokens. For a detailed description about how the data is
    /// structured please see
    /// https://github.com/microsoft/vscode-extension-samples/blob/5ae1f7787122812dcc84e37427ca90af5ee09f14/semantic-tokens-sample/vscode.proposed.d.ts#L71
    pub data: Vec<SemanticToken>,
}

/// What a [`SemanticTokens`] stands for.
pub struct SemanticTokensModel {
    pub result_id: Option<Seq<char>>,
    pub data: Seq<SemanticToken>,
}

impl DeepView for SemanticTokens {
    type V = SemanticTokensModel;

    open spec fn deep_view(&self) -> SemanticTokensModel {
        SemanticTokensModel {
            result_id: self.result_id.deep_view(),
            data: self.data.deep_view(),
        }
    }
}

impl Record for SemanticTokens {
    open spec fn members(before: Seq<Member>, value: SemanticTokensModel) -> Seq<Member> {
        before + optional_field::<String>("resultId"@, value.result_id)
            + token_field("data"@, value.data)
    }

    open spec fn read(members: Seq<Member>) -> Result<SemanticTokensModel, CodecError> {
        let result_id = optional::<String>(members, "resultId"@);
        let data = required_tokens(members, "data"@);
        if result_id is Err {
            Err(result_id->Err_0)
        } else if data is Err {
            Err(data->Err_0)
        } else {
            Ok(
                SemanticTokensModel {
                    result_id: result_id->Ok_0,
                    data: data->Ok_0,
                },
            )
        }
    }

    fn write(&self, members: &mut Vec<(String, Json)>) {
        put_optional(members, "resultId", &self.result_id);
        put_tokens(members, "data", &self.data);
    }

    fn scan(members: &Vec<(String, Json)>) -> (result: Result<SemanticTokens, CodecError>) {
        let result_id = get_optional::<String>(members, "resultId");
        let data = get_tokens(members, "data");
        if let Err(error) = result_id {
            Err(error)
        } else if let Err(error) = data {
            Err(error)
        } else {
            Ok(
                SemanticTokens {
                    result_id: result_id.unwrap(),
                    data: data.unwrap(),
                },
            )
        }
    }
}

/// @since 3.16.0 - Proposed state
#[derive(Debug, PartialEq, Eq, Clone, Default)]
pub struct SemanticTokensPartialResult {
    pub data: Vec<SemanticToken>,
}

/// What a [`SemanticTokensPartialResult`] stands for.
pub struct SemanticTokensPartialResultModel {
    pub data: Seq<SemanticToken>,
}

impl DeepView for SemanticTokensPartialResult {
    type V = SemanticTokensPartialResultModel;

    open spec fn deep_view(&self) -> SemanticTokensPartialResultModel {
        SemanticTokensPartialResultModel {
            data: self.data.deep_view(),
        }
    }
}

impl Record for SemanticTokensPartialResult {
    open spec fn members(before: Seq<Member>, value: SemanticTokensPartialResultModel) -> Seq<Member> {
        before + token_field("data"@, value.data)
    }

    open spec fn read(members: Seq<Member>) -> Result<SemanticTokensPartialResultModel, CodecError> {
        let data = required_tokens(members, "data"@);
        if data is Err {
            Err(data->Err_0)
        } else {
            Ok(
                SemanticTokensPartialResultModel {
                    data: data->Ok_0,
                },
            )
        }
    }

    fn write(&self, members: &mut Vec<(String, Json)>) {
        put_tokens(members, "data", &self.data);
    }

    fn scan(members: &Vec<(String, Json)>) -> (result: Result<SemanticTokensPartialResult, CodecError>) {
        let data = get_tokens(members, "data");
        if let Err(error) = data {
            Err(error)
        } else {
            Ok(
                SemanticTokensPartialResult {
                    data: data.unwrap(),
                },
            )
        }
    }
}

#[derive(Debug, PartialEq, Eq, Clone)]
pub enum SemanticTokensResult {
    Tokens(SemanticTokens),
    Partial(SemanticTokensPartialResult),
}

/// What a [`SemanticTokensResult`] stands for.
pub enum SemanticTokensResultModel {
    Tokens(SemanticTokensModel),
    Partial(SemanticTokensPartialResultModel),
}

impl DeepView for SemanticTokensResult {
    type V = SemanticTokensResultModel;

    open spec fn deep_view(&self) -> SemanticTokensResultModel {
        match self {
            SemanticTokensResult::Tokens(value) => SemanticTokensResultModel::Tokens(value.deep_view()),
            SemanticTokensResult::Partial(value) => SemanticTokensResultModel::Partial(value.deep_view()),
        }
    }
}

impl Codec for SemanticTokensResult {
    open spec fn encode(value: SemanticTokensResultModel) -> JsonValue {
        match value {
            SemanticTokensResultModel::Tokens(value) => SemanticTokens::encode(value),
            SemanticTokensResultModel::Partial(value) => SemanticTokensPartialResult::encode(value),
        }
    }

    open spec fn decode(json: JsonValue) -> Result<SemanticTokensResultModel, CodecError> {
        if let Ok(value) = SemanticTokens::decode(json) {
            Ok(SemanticTokensResultModel::Tokens(value))
        } else if let Ok(value) = SemanticTokensPartialResult::decode(json) {
            Ok(SemanticTokensResultModel::Partial(value))
        } else {
            Err(CodecError::NoVariantMatched)
        }
    }

    fn serialize(&self) -> (json: Json) {
        match self {
            SemanticTokensResult::Tokens(value) => value.serialize(),
            SemanticTokensResult::Partial(value) => value.serialize(),
        }
    }

    fn deserialize(json: &Json) -> (result: Result<SemanticTokensResult, CodecError>) {
        if let Ok(value) = SemanticTokens::deserialize(json) {
            Ok(SemanticTokensResult::Tokens(value))
        } else if let Ok(value) = SemanticTokensPartialResult::deserialize(json) {
            Ok(SemanticTokensResult::Partial(value))
        } else {
            Err(CodecError::NoVariantMatched)
        }
    }
}

impl SemanticTokensResult {
    /// A value comes back unchanged from its document exactly when its
    /// payload does and no variant declared before its own reads the
    /// payload's document.
    pub proof fn lemma_round_trip(value: SemanticTokensResultModel)
        ensures
            survives::<SemanticTokensResult>(value) <==> match value {
                SemanticTokensResultModel::Tokens(v) => survives::<SemanticTokens>(v),
                SemanticTokensResultModel::Partial(v) => SemanticTokens::decode(SemanticTokensPartialResult::encode(v)) is Err
                    && survives::<SemanticTokensPartialResult>(v),
            },
    {
    }
}

impl From<SemanticTokens> for SemanticTokensResult {
    fn from(from: SemanticTokens) -> (result: SemanticTokensResult) {
        SemanticTokensResult::Tokens(from)
    }
}

impl FromSpecImpl<SemanticTokens> for SemanticTokensResult {
    open spec fn obeys_from_spec() -> bool {
        true
    }

    open spec fn from_spec(from: SemanticTokens) -> SemanticTokensResult {
        SemanticTokensResult::Tokens(from)
    }
}

impl From<SemanticTokensPartialResult> for SemanticTokensResult {
    fn from(from: SemanticTokensPartialResult) -> (result: SemanticTokensResult) {
        SemanticTokensResult::Partial(from)
    }
}

impl FromSpecImpl<SemanticTokensPartialResult> for SemanticTokensResult {
    open spec fn obeys_from_spec() -> bool {
        true
    }

    open spec fn from_spec(from: SemanticTokensPartialResult) -> SemanticTokensResult {
        SemanticTokensResult::Partial(from)
    }
}

/// @since 3.16.0 - Proposed state
#[derive(Debug, PartialEq, Eq, Clone, Default)]
pub struct SemanticTokensEdit {
    pub start: u32,
    pub delete_count: u32,
    pub data: Option<Vec<SemanticToken>>,
}

/// What a [`SemanticTokensEdit`] stands for.
pub struct SemanticTokensEditModel {
    pub start: u32,
    pub delete_count: u32,
    pub data: Option<Seq<SemanticToken>>,
}

impl DeepView for SemanticTokensEdit {
    type V = SemanticTokensEditModel;

    open spec fn deep_view(&self) -> SemanticTokensEditModel {
        SemanticTokensEditModel {
            start: self.start.deep_view(),
            delete_count: self.delete_count.deep_view(),
            data: self.data.deep_view(),
        }
    }
}

impl Record for SemanticTokensEdit {
    open spec fn members(before: Seq<Member>, value: SemanticTokensEditModel) -> Seq<Member> {
        before + field::<u32>("start"@, value.start)
            + field::<u32>("deleteCount"@, value.delete_count)
            + optional_token_field("data"@, value.data)
    }

    open spec fn read(members: Seq<Member>) -> Result<SemanticTokensEditModel, CodecError> {
        let start = required::<u32>(members, "start"@);
        let delete_count = required::<u32>(members, "deleteCount"@);
        let data = optional_tokens(members, "data"@);
        if start is Err {
            Err(start->Err_0)
        } else if delete_count is Err {
            Err(delete_count->Err_0)
        } else if data is Err {
            Err(data->Err_0)
        } else {
            Ok(
                SemanticTokensEditModel {
                    start: start->Ok_0,
                    delete_count: delete_count->Ok_0,
                    data: data->Ok_0,
                },
            )
        }
    }

    fn write(&self, members: &mut Vec<(String, Json)>) {
        put(members, "start", &self.start);
        put(members, "deleteCount", &self.delete_count);
        put_optional_tokens(members, "data", &self.data);
    }

    fn scan(members: &Vec<(String, Json)>) -> (result: Result<SemanticTokensEdit, CodecError>) {
        let start = get::<u32>(members, "start");
        let delete_count = get::<u32>(members, "deleteCount");
        let data = get_optional_tokens(members, "data");
        if let Err(error) = start {
            Err(error)
        } else if let Err(error) = delete_count {
            Err(error)
        } else if let Err(error) = data {
            Err(error)
        } else {
            Ok(
                SemanticTokensEdit {
                    start: start.unwrap(),
                    delete_count: delete_count.unwrap(),
                    data: data.unwrap(),
                },
            )
        }
    }
}

#[derive(Debug, PartialEq, Eq, Clone)]
pub enum SemanticTokensEditResult {
    Tokens(SemanticTokens),
    TokensEdits(SemanticTokensEdits),
    PartialTokens(SemanticTokensPartialResult),
    PartialTokensEdit(SemanticTokensEditsPartialResult),
}

/// What a [`SemanticTokensEditResult`] stands for.
pub enum SemanticTokensEditResultModel {
    Tokens(SemanticTokensModel),
    TokensEdits(SemanticTokensEditsModel),
    PartialTokens(SemanticTokensPartialResultModel),
    PartialTokensEdit(SemanticTokensEditsPartialResultModel),
}

impl DeepView for SemanticTokensEditResult {
    type V = SemanticTokensEditResultModel;

    open spec fn deep_view(&self) -> SemanticTokensEditResultModel {
        match self {
            SemanticTokensEditResult::Tokens(value) => SemanticTokensEditResultModel::Tokens(value.deep_view()),
            SemanticTokensEditResult::TokensEdits(value) => SemanticTokensEditResultModel::TokensEdits(value.deep_view()),
            SemanticTokensEditResult::PartialTokens(value) => SemanticTokensEditResultModel::PartialTokens(value.deep_view()),
            SemanticTokensEditResult::PartialTokensEdit(value) => SemanticTokensEditResultModel::PartialTokensEdit(value.deep_view()),
        }
    }
}

impl Codec for SemanticTokensEditResult {
    open spec fn encode(value: SemanticTokensEditResultModel) -> JsonValue {
        match value {
            SemanticTokensEditResultModel::Tokens(value) => SemanticTokens::encode(value),
            SemanticTokensEditResultModel::TokensEdits(value) => SemanticTokensEdits::encode(value),
            SemanticTokensEditResultModel::PartialTokens(value) => SemanticTokensPartialResult::encode(value),
            SemanticTokensEditResultModel::PartialTokensEdit(value) => SemanticTokensEditsPartialResult::encode(value),
        }
    }

    open spec fn decode(json: JsonValue) -> Result<SemanticTokensEditResultModel, CodecError> {
        if let Ok(value) = SemanticTokens::decode(json) {
            Ok(SemanticTokensEditResultModel::Tokens(value))
        } else if let Ok(value) = SemanticTokensEdits::decode(json) {
            Ok(SemanticTokensEditResultModel::TokensEdits(value))
        } else if let Ok(value) = SemanticTokensPartialResult::decode(json) {
            Ok(SemanticTokensEditResultModel::PartialTokens(value))
        } else if let Ok(value) = SemanticTokensEditsPartialResult::decode(json) {
            Ok(SemanticTokensEditResultModel::PartialTokensEdit(value))
        } else {
            Err(CodecError::NoVariantMatched)
        }
    }

    fn serialize(&self) -> (json: Json) {
        match self {
            SemanticTokensEditResult::Tokens(value) => value.serialize(),
            SemanticTokensEditResult::TokensEdits(value) => value.serialize(),
            SemanticTokensEditResult::PartialTokens(value) => value.serialize(),
            SemanticTokensEditResult::PartialTokensEdit(value) => value.serialize(),
        }
    }

    fn deserialize(json: &Json) -> (result: Result<SemanticTokensEditResult, CodecError>) {
        if let Ok(value) = SemanticTokens::deserialize(json) {
            Ok(SemanticTokensEditResult::Tokens(value))
        } else if let Ok(value) = SemanticTokensEdits::deserialize(json) {
            Ok(SemanticTokensEditResult::TokensEdits(value))
        } else if let Ok(value) = SemanticTokensPartialResult::deserialize(json) {
            Ok(SemanticTokensEditResult::PartialTokens(value))
        } else if let Ok(value) = SemanticTokensEditsPartialResult::deserialize(json) {
            Ok(SemanticTokensEditResult::PartialTokensEdit(value))
        } else {
            Err(CodecError::NoVariantMatched)
        }
    }
}

impl SemanticTokensEditResult {
    /// A value comes back unchanged from its document exactly when its
    /// payload does and no variant declared before its own reads the
    /// payload's document.
    pub proof fn lemma_round_trip(value: SemanticTokensEditResultModel)
        ensures
            survives::<SemanticTokensEditResult>(value) <==> match value {
                SemanticTokensEditResultModel::Tokens(v) => survives::<SemanticTokens>(v),
                SemanticTokensEditResultModel::TokensEdits(v) => SemanticTokens::decode(SemanticTokensEdits::encode(v)) is Err
                    && survives::<SemanticTokensEdits>(v),
                SemanticTokensEditResultModel::PartialTokens(v) => SemanticTokens::decode(SemanticTokensPartialResult::encode(v)) is Err
                    && SemanticTokensEdits::decode(SemanticTokensPartialResult::encode(v)) is Err
                    && survives::<SemanticTokensPartialResult>(v),
                SemanticTokensEditResultModel::PartialTokensEdit(v) => SemanticTokens::decode(SemanticTokensEditsPartialResult::encode(v)) is Err
                    && SemanticTokensEdits::decode(SemanticTokensEditsPartialResult::encode(v)) is Err
                    && SemanticTokensPartialResult::decode(SemanticTokensEditsPartialResult::encode(v)) is Err
                    && survives::<SemanticTokensEditsPartialResult>(v),
            },
    {
    }
}

impl From<SemanticTokens> for SemanticTokensEditResult {
    fn from(from: SemanticTokens) -> (result: SemanticTokensEditResult) {
        SemanticTokensEditResult::Tokens(from)
    }
}

impl FromSpecImpl<SemanticTokens> for SemanticTokensEditResult {
    open spec fn obeys_from_spec() -> bool {
        true
    }

    open spec fn from_spec(from: SemanticTokens) -> SemanticTokensEditResult {
        SemanticTokensEditResult::Tokens(from)
    }
}

impl From<SemanticTokensEdits> for SemanticTokensEditResult {
    fn from(from: SemanticTokensEdits) -> (result: SemanticTokensEditResult) {
        SemanticTokensEditResult::TokensEdits(from)
    }
}

impl FromSpecImpl<SemanticTokensEdits> for SemanticTokensEditResult {
    open spec fn obeys_from_spec() -> bool {
        true
    }

    open spec fn from_spec(from: SemanticTokensEdits) -> SemanticTokensEditResult {
        SemanticTokensEditResult::TokensEdits(from)
    }
}

impl From<SemanticTokensPartialResult> for SemanticTokensEditResult {
    fn from(from: SemanticTokensPartialResult) -> (result: SemanticTokensEditResult) {
        SemanticTokensEditResult::PartialTokens(from)
    }
}

impl FromSpecImpl<SemanticTokensPartialResult> for SemanticTokensEditResult {
    open spec fn obeys_from_spec() -> bool {
        true
    }

    open spec fn from_spec(from: SemanticTokensPartialResult) -> SemanticTokensEditResult {
        SemanticTokensEditResult::PartialTokens(from)
    }
}

impl From<SemanticTokensEditsPartialResult> for SemanticTokensEditResult {
    fn from(from: SemanticTokensEditsPartialResult) -> (result: SemanticTokensEditResult) {
        SemanticTokensEditResult::PartialTokensEdit(from)
    }
}

impl FromSpecImpl<SemanticTokensEditsPartialResult> for SemanticTokensEditResult {
    open spec fn obeys_from_spec() -> bool {
        true
    }

    open spec fn from_spec(from: SemanticTokensEditsPartialResult) -> SemanticTokensEditResult {
        SemanticTokensEditResult::PartialTokensEdit(from)
    }
}

/// @since 3.16.0 - Proposed state
#[derive(Debug, PartialEq, Eq, Clone, Default)]
pub struct SemanticTokensEdits {
    pub result_id: Option<String>,
    /// For a detailed description how these edits are structured pls see
    /// https://github.com/microsoft/vscode-extension-samples/blob/5ae1f7787122812dcc84e37427ca90af5ee09f14/semantic-tokens-sample/vscode.proposed.d.ts#L131
    pub edits: Vec<SemanticTokensEdit>,
}

/// What a [`SemanticTokensEdits`] stands for.
pub struct SemanticTokensEditsModel {
    pub result_id: Option<Seq<char>>,
    pub edits: Seq<SemanticTokensEditModel>,
}

impl DeepView for SemanticTokensEdits {
    type V = SemanticTokensEditsModel;

    open spec fn deep_view(&self) -> SemanticTokensEditsModel {
        SemanticTokensEditsModel {
            result_id: self.result_id.deep_view(),
            edits: self.edits.deep_view(),
        }
    }
}

impl Record for SemanticTokensEdits {
    open spec fn members(before: Seq<Member>, value: SemanticTokensEditsModel) -> Seq<Member> {
        before + optional_field::<String>("resultId"@, value.result_id)
            + field::<Vec<SemanticTokensEdit>>("edits"@, value.edits)
    }

    open spec fn read(members: Seq<Member>) -> Result<SemanticTokensEditsModel, CodecError> {
        let result_id = optional::<String>(members, "resultId"@);
        let edits = required::<Vec<SemanticTokensEdit>>(members, "edits"@);
        if result_id is Err {
            Err(result_id->Err_0)
        } else if edits is Err {
            Err(edits->Err_0)
        } else {
            Ok(
                SemanticTokensEditsModel {
                    result_id: result_id->Ok_0,
                    edits: edits->Ok_0,
                },
            )
        }
    }

    fn write(&self, members: &mut Vec<(String, Json)>) {
        put_optional(members, "resultId", &self.result_id);
        put(members, "edits", &self.edits);
    }

    fn scan(members: &Vec<(String, Json)>) -> (result: Result<SemanticTokensEdits, CodecError>) {
        let result_id = get_optional::<String>(members, "resultId");
        let edits = get::<Vec<SemanticTokensEdit>>(members, "edits");
        if let Err(error) = result_id {
            Err(error)
        } else if let Err(error) = edits {
            Err(error)
        } else {
            Ok(
                SemanticTokensEdits {
                    result_id: result_id.unwrap(),
                    edits: edits.unwrap(),
                },
            )
        }
    }
}

impl SemanticTokensEdits {
    /// A value comes back unchanged from the document that stands for it
    /// where its fields meet what is asked of them here.
    pub proof fn lemma_round_trip(value: SemanticTokensEditsModel)
        requires
            survives::<Vec<SemanticTokensEdit>>(value.edits),
        ensures
            survives::<SemanticTokensEdits>(value),
    {
        broadcast use group_lookup;

        reveal(required);
        reveal(optional);
        reveal_strlit("resultId");
        reveal_strlit("edits");
    }
}

/// @since 3.16.0 - Proposed state
#[derive(Debug, PartialEq, Eq, Clone, Default)]
pub struct SemanticTokensEditsPartialResult {
    pub edits: Vec<SemanticTokensEdit>,
}

/// What a [`SemanticTokensEditsPartialResult`] stands for.
pub struct SemanticTokensEditsPartialResultModel {
    pub edits: Seq<SemanticTokensEditModel>,
}

impl DeepView for SemanticTokensEditsPartialResult {
    type V = SemanticTokensEditsPartialResultModel;

    open spec fn deep_view(&self) -> SemanticTokensEditsPartialResultModel {
        SemanticTokensEditsPartialResultModel {
            edits: self.edits.deep_view(),
        }
    }
}

impl Record for SemanticTokensEditsPartialResult {
    open spec fn members(before: Seq<Member>, value: SemanticTokensEditsPartialResultModel) -> Seq<Member> {
        before + field::<Vec<SemanticTokensEdit>>("edits"@, value.edits)
    }

    open spec fn read(members: Seq<Member>) -> Result<SemanticTokensEditsPartialResultModel, CodecError> {
        let edits = required::<Vec<SemanticTokensEdit>>(members, "edits"@);
        if edits is Err {
            Err(edits->Err_0)
        } else {
            Ok(
                SemanticTokensEditsPartialResultModel {
                    edits: edits->Ok_0,
                },
            )
        }
    }

    fn write(&self, members: &mut Vec<(String, Json)>) {
        put(members, "edits", &self.edits);
    }

    fn scan(members: &Vec<(String, Json)>) -> (result: Result<SemanticTokensEditsPartialResult, CodecError>) {
        let edits = get::<Vec<SemanticTokensEdit>>(members, "edits");
        if let Err(error) = edits {
            Err(error)
        } else {
            Ok(
                SemanticTokensEditsPartialResult {
                    edits: edits.unwrap(),
                },
            )
        }
    }
}

impl SemanticTokensEditsPartialResult {
    /// A value comes back unchanged from the document that stands for it
    /// where its fields meet what is asked of them here.
    pub proof fn lemma_round_trip(value: SemanticTokensEditsPartialResultModel)
        requires
            survives::<Vec<SemanticTokensEdit>>(value.edits),
        ensures
            survives::<SemanticTokensEditsPartialResult>(value),
    {
        broadcast use group_lookup;

        reveal(required);
        reveal_strlit("edits");
    }
}

/// Capabilities specific to the `textDocument/semanticTokens`
///
/// @since 3.16.0 - Proposed state
#[derive(Debug, PartialEq, Eq, Clone, Default)]
pub struct SemanticTokensClientCapabilities {
    /// Whether implementation supports dynamic registration. If this is set to `true`
    /// the client supports the new `(TextDocumentRegistrationOptions & StaticRegistrationOptions)`
    /// return value for the corresponding server capability as well.
    pub dynamic_registration: Option<bool>,
    /// The token types known by the client.
    pub token_types: Vec<SemanticTokenType>,
    /// The token modifiers known by the client.
    pub token_modifiers: Vec<SemanticTokenModifier>,
}

/// What a [`SemanticTokensClientCapabilities`] stands for.
pub struct SemanticTokensClientCapabilitiesModel {
    pub dynamic_registration: Option<bool>,
    pub token_types: Seq<Seq<char>>,
    pub token_modifiers: Seq<Seq<char>>,
}

impl DeepView for SemanticTokensClientCapabilities {
    type V = SemanticTokensClientCapabilitiesModel;

    open spec fn deep_view(&self) -> SemanticTokensClientCapabilitiesModel {
        SemanticTokensClientCapabilitiesModel {
            dynamic_registration: self.dynamic_registration.deep_view(),
            token_types: self.token_types.deep_view(),
            token_modifiers: self.token_modifiers.deep_view(),
        }
    }
}

impl Record for SemanticTokensClientCapabilities {
    open spec fn members(before: Seq<Member>, value: SemanticTokensClientCapabilitiesModel) -> Seq<Member> {
        before + optional_field::<bool>("dynamicRegistration"@, value.dynamic_registration)
            + field::<Vec<SemanticTokenType>>("tokenTypes"@, value.token_types)
            + field::<Vec<SemanticTokenModifier>>("tokenModifiers"@, value.token_modifiers)
    }

    open spec fn read(members: Seq<Member>) -> Result<SemanticTokensClientCapabilitiesModel, CodecError> {
        let dynamic_registration = optional::<bool>(members, "dynamicRegistration"@);
        let token_types = required::<Vec<SemanticTokenType>>(members, "tokenTypes"@);
        let token_modifiers = required::<Vec<SemanticTokenModifier>>(members, "tokenModifiers"@);
        if dynamic_registration is Err {
            Err(dynamic_registration->Err_0)
        } else if token_types is Err {
            Err(token_types->Err_0)
        } else if token_modifiers is Err {
            Err(token_modifiers->Err_0)
        } else {
            Ok(
                SemanticTokensClientCapabilitiesModel {
                    dynamic_registration: dynamic_registration->Ok_0,
                    token_types: token_types->Ok_0,
                    token_modifiers: token_modifiers->Ok_0,
                },
            )
        }
    }

    fn write(&self, members: &mut Vec<(String, Json)>) {
        put_optional(members, "dynamicRegistration", &self.dynamic_registration);
        put(members, "tokenTypes", &self.token_types);
        put(members, "tokenModifiers", &self.token_modifiers);
    }

    fn scan(members: &Vec<(String, Json)>) -> (result: Result<SemanticTokensClientCapabilities, CodecError>) {
        let dynamic_registration = get_optional::<bool>(members, "dynamicRegistration");
        let token_types = get::<Vec<SemanticTokenType>>(members, "tokenTypes");
        let token_modifiers = get::<Vec<SemanticTokenModifier>>(members, "tokenModifiers");
        if let Err(error) = dynamic_registration {
            Err(error)
        } else if let Err(error) = token_types {
            Err(error)
        } else if let Err(error) = token_modifiers {
            Err(error)
        } else {
            Ok(
                SemanticTokensClientCapabilities {
                    dynamic_registration: dynamic_registration.unwrap(),
                    token_types: token_types.unwrap(),
                    token_modifiers: token_modifiers.unwrap(),
                },
            )
        }
    }
}

impl SemanticTokensClientCapabilities {
    /// Every value comes back unchanged from the document that stands for it.
    pub proof fn lemma_survives(value: SemanticTokensClientCapabilitiesModel)
        ensures
            survives::<SemanticTokensClientCapabilities>(value),
    {
        broadcast use group_lookup;

        reveal(required);
        reveal(optional);
        reveal_strlit("dynamicRegistration");
        reveal_strlit("tokenTypes");
        reveal_strlit("tokenModifiers");
        let list = value.token_types;
        assert forall|i: int| 0 <= i < list.len() implies survives::<SemanticTokenType>(
            #[trigger] list[i],
        ) by {
            SemanticTokenType::lemma_survives(list[i]);
        }
        lemma_sequence_round_trip::<SemanticTokenType>(list);
        let list = value.token_modifiers;
        assert forall|i: int| 0 <= i < list.len() implies survives::<SemanticTokenModifier>(
            #[trigger] list[i],
        ) by {
            SemanticTokenModifier::lemma_survives(list[i]);
        }
        lemma_sequence_round_trip::<SemanticTokenModifier>(list);
    }
}

/// @since 3.16.0 - Proposed state
#[derive(Debug, PartialEq, Eq, Clone, Default)]
pub struct SemanticTokensOptions {
    /// Its members are written among those of this value.
    pub work_done_progress_options: WorkDoneProgressOptions,
    /// The legend used by the server
    pub legend: SemanticTokensLegend,
    /// Server supports providing semantic tokens for a sepcific range
    /// of a document.
    pub range_provider: Option<bool>,
    /// Server supports providing semantic tokens for a full document.
    pub document_provider: Option<SemanticTokensDocumentProvider>,
}

/// What a [`SemanticTokensOptions`] stands for.
pub struct SemanticTokensOptionsModel {
    pub work_done_progress_options: WorkDoneProgressOptions,
    pub legend: SemanticTokensLegendModel,
    pub range_provider: Option<bool>,
    pub document_provider: Option<SemanticTokensDocumentProvider>,
}

impl DeepView for SemanticTokensOptions {
    type V = SemanticTokensOptionsModel;

    open spec fn deep_view(&self) -> SemanticTokensOptionsModel {
        SemanticTokensOptionsModel {
            work_done_progress_options: self.work_done_progress_options.deep_view(),
            legend: self.legend.deep_view(),
            range_provider: self.range_provider.deep_view(),
            document_provider: self.document_provider.deep_view(),
        }
    }
}

impl Record for SemanticTokensOptions {
    open spec fn members(before: Seq<Member>, value: SemanticTokensOptionsModel) -> Seq<Member> {
        WorkDoneProgressOptions::members(before, value.work_done_progress_options)
            + field::<SemanticTokensLegend>("legend"@, value.legend)
            + optional_field::<bool>("rangeProvider"@, value.range_provider)
            + optional_field::<SemanticTokensDocumentProvider>(
                "documentProvider"@,
                value.document_provider,
            )
    }

    open spec fn read(members: Seq<Member>) -> Result<SemanticTokensOptionsModel, CodecError> {
        let work_done_progress_options = WorkDoneProgressOptions::read(members);
        let legend = required::<SemanticTokensLegend>(members, "legend"@);
        let range_provider = optional::<bool>(members, "rangeProvider"@);
        let document_provider = optional::<SemanticTokensDocumentProvider>(
            members,
            "documentProvider"@,
        );
        if work_done_progress_options is Err {
            Err(work_done_progress_options->Err_0)
        } else if legend is Err {
            Err(legend->Err_0)
        } else if range_provider is Err {
            Err(range_provider->Err_0)
        } else if document_provider is Err {
            Err(document_provider->Err_0)
        } else {
            Ok(
                SemanticTokensOptionsModel {
                    work_done_progress_options: work_done_progress_options->Ok_0,
                    legend: legend->Ok_0,
                    range_provider: range_provider->Ok_0,
                    document_provider: document_provider->Ok_0,
                },
            )
        }
    }

    fn write(&self, members: &mut Vec<(String, Json)>) {
        self.work_done_progress_options.write(members);
        put(members, "legend", &self.legend);
        put_optional(members, "rangeProvider", &self.range_provider);
        put_optional(members, "documentProvider", &self.document_provider);
    }

    fn scan(members: &Vec<(String, Json)>) -> (result: Result<SemanticTokensOptions, CodecError>) {
        let work_done_progress_options = WorkDoneProgressOptions::scan(members);
        let legend = get::<SemanticTokensLegend>(members, "legend");
        let range_provider = get_optional::<bool>(members, "rangeProvider");
        let document_provider = get_optional::<SemanticTokensDocumentProvider>(
            members,
            "documentProvider",
        );
        if let Err(error) = work_done_progress_options {
            Err(error)
        } else if let Err(error) = legend {
            Err(error)
        } else if let Err(error) = range_provider {
            Err(error)
        } else if let Err(error) = document_provider {
            Err(error)
        } else {
            Ok(
                SemanticTokensOptions {
                    work_done_progress_options: work_done_progress_options.unwrap(),
                    legend: legend.unwrap(),
                    range_provider: range_provider.unwrap(),
                    document_provider: document_provider.unwrap(),
                },
            )
        }
    }
}

impl SemanticTokensOptions {
    /// A value comes back unchanged from the document that stands for it
    /// where its fields meet what is asked of them here.
    pub proof fn lemma_round_trip(value: SemanticTokensOptionsModel)
        requires
            value.document_provider matches Some(v) ==> survives::<SemanticTokensDocumentProvider>(v),
        ensures
            survives::<SemanticTokensOptions>(value),
    {
        broadcast use group_lookup;

        reveal(required);
        reveal(optional);
        reveal_strlit("workDoneProgress");
        reveal_strlit("legend");
        reveal_strlit("rangeProvider");
        reveal_strlit("documentProvider");
        SemanticTokensLegend::lemma_survives(value.legend);
    }
}

#[derive(Debug, PartialEq, Eq, Clone)]
pub struct SemanticTokensRegistrationOptions {
    /// Its members are written among those of this value.
    pub text_document_registration_options: TextDocumentRegistrationOptions,
    /// Its members are written among those of this value.
    pub semantic_tokens_options: SemanticTokensOptions,
    /// Its members are written among those of this value.
    pub static_registration_options: StaticRegistrationOptions,
}

/// What a [`SemanticTokensRegistrationOptions`] stands for.
pub struct SemanticTokensRegistrationOptionsModel {
    pub text_document_registration_options: TextDocumentRegistrationOptionsModel,
    pub semantic_tokens_options: SemanticTokensOptionsModel,
    pub static_registration_options: StaticRegistrationOptionsModel,
}

impl DeepView for SemanticTokensRegistrationOptions {
    type V = SemanticTokensRegistrationOptionsModel;

    open spec fn deep_view(&self) -> SemanticTokensRegistrationOptionsModel {
        SemanticTokensRegistrationOptionsModel {
            text_document_registration_options: self.text_document_registration_options.deep_view(),
            semantic_tokens_options: self.semantic_tokens_options.deep_view(),
            static_registration_options: self.static_registration_options.deep_view(),
        }
    }
}

impl Record for SemanticTokensRegistrationOptions {
    open spec fn members(before: Seq<Member>, value: SemanticTokensRegistrationOptionsModel) -> Seq<Member> {
        StaticRegistrationOptions::members(
            SemanticTokensOptions::members(
                TextDocumentRegistrationOptions::members(
                    before,
                    value.text_document_registration_options,
                ),
                value.semantic_tokens_options,
            ),
            value.static_registration_options,
        )
    }

    open spec fn read(members: Seq<Member>) -> Result<SemanticTokensRegistrationOptionsModel, CodecError> {
        let text_document_registration_options = TextDocumentRegistrationOptions::read(members);
        let semantic_tokens_options = SemanticTokensOptions::read(members);
        let static_registration_options = StaticRegistrationOptions::read(members);
        if text_document_registration_options is Err {
            Err(text_document_registration_options->Err_0)
        } else if semantic_tokens_options is Err {
            Err(semantic_tokens_options->Err_0)
        } else if static_registration_options is Err {
            Err(static_registration_options->Err_0)
        } else {
            Ok(
                SemanticTokensRegistrationOptionsModel {
                    text_document_registration_options: text_document_registration_options->Ok_0,
                    semantic_tokens_options: semantic_tokens_options->Ok_0,
                    static_registration_options: static_registration_options->Ok_0,
                },
            )
        }
    }

    fn write(&self, members: &mut Vec<(String, Json)>) {
        self.text_document_registration_options.write(members);
        self.semantic_tokens_options.write(members);
        self.static_registration_options.write(members);
    }

    fn scan(members: &Vec<(String, Json)>) -> (result: Result<SemanticTokensRegistrationOptions, CodecError>) {
        let text_document_registration_options = TextDocumentRegistrationOptions::scan(members);
        let semantic_tokens_options = SemanticTokensOptions::scan(members);
        let static_registration_options = StaticRegistrationOptions::scan(members);
        if let Err(error) = text_document_registration_options {
            Err(error)
        } else if let Err(error) = semantic_tokens_options {
            Err(error)
        } else if let Err(error) = static_registration_options {
            Err(error)
        } else {
            Ok(
                SemanticTokensRegistrationOptions {
                    text_document_registration_options: text_document_registration_options.unwrap(),
                    semantic_tokens_options: semantic_tokens_options.unwrap(),
                    static_registration_options: static_registration_options.unwrap(),
                },
            )
        }
    }
}

impl SemanticTokensRegistrationOptions {
    /// A value comes back unchanged from the document that stands for it
    /// where its fields meet what is asked of them here.
    pub proof fn lemma_round_trip(value: SemanticTokensRegistrationOptionsModel)
        requires
            value.semantic_tokens_options.document_provider matches Some(v) ==> survives::<SemanticTokensDocumentProvider>(v),
        ensures
            survives::<SemanticTokensRegistrationOptions>(value),
    {
        broadcast use group_lookup;

        reveal(required);
        reveal(optional);
        reveal_strlit("documentSelector");
        reveal_strlit("workDoneProgress");
        reveal_strlit("legend");
        reveal_strlit("rangeProvider");
        reveal_strlit("documentProvider");
        reveal_strlit("id");
        if let Some(inner) = value.text_document_registration_options.document_selector {
            assert forall|i: int| 0 <= i < inner.len() implies survives::<DocumentFilter>(
                #[trigger] inner[i],
            ) by {
                DocumentFilter::lemma_survives(inner[i]);
            }
            lemma_sequence_round_trip::<DocumentFilter>(inner);
        }
        SemanticTokensLegend::lemma_survives(value.semantic_tokens_options.legend);
    }
}

#[derive(Debug, PartialEq, Eq, Clone)]
pub enum SemanticTokensServerCapabilities {
    SemanticTokensOptions(SemanticTokensOptions),
    SemanticTokensRegistrationOptions(SemanticTokensRegistrationOptions),
}

/// What a [`SemanticTokensServerCapabilities`] stands for.
pub enum SemanticTokensServerCapabilitiesModel {
    SemanticTokensOptions(SemanticTokensOptionsModel),
    SemanticTokensRegistrationOptions(SemanticTokensRegistrationOptionsModel),
}

impl DeepView for SemanticTokensServerCapabilities {
    type V = SemanticTokensServerCapabilitiesModel;

    open spec fn deep_view(&self) -> SemanticTokensServerCapabilitiesModel {
        match self {
            SemanticTokensServerCapabilities::SemanticTokensOptions(value) => SemanticTokensServerCapabilitiesModel::SemanticTokensOptions(value.deep_view()),
            SemanticTokensServerCapabilities::SemanticTokensRegistrationOptions(value) => SemanticTokensServerCapabilitiesModel::SemanticTokensRegistrationOptions(value.deep_view()),
        }
    }
}

impl Codec for SemanticTokensServerCapabilities {
    open spec fn encode(value: SemanticTokensServerCapabilitiesModel) -> JsonValue {
        match value {
            SemanticTokensServerCapabilitiesModel::SemanticTokensOptions(value) => SemanticTokensOptions::encode(value),
            SemanticTokensServerCapabilitiesModel::SemanticTokensRegistrationOptions(value) => SemanticTokensRegistrationOptions::encode(value),
        }
    }

    open spec fn decode(json: JsonValue) -> Result<SemanticTokensServerCapabilitiesModel, CodecError> {
        if let Ok(value) = SemanticTokensOptions::decode(json) {
            Ok(SemanticTokensServerCapabilitiesModel::SemanticTokensOptions(value))
        } else if let Ok(value) = SemanticTokensRegistrationOptions::decode(json) {
            Ok(SemanticTokensServerCapabilitiesModel::SemanticTokensRegistrationOptions(value))
        } else {
            Err(CodecError::NoVariantMatched)
        }
    }

    fn serialize(&self) -> (json: Json) {
        match self {
            SemanticTokensServerCapabilities::SemanticTokensOptions(value) => value.serialize(),
            SemanticTokensServerCapabilities::SemanticTokensRegistrationOptions(value) => value.serialize(),
        }
    }

    fn deserialize(json: &Json) -> (result: Result<SemanticTokensServerCapabilities, CodecError>) {
        if let Ok(value) = SemanticTokensOptions::deserialize(json) {
            Ok(SemanticTokensServerCapabilities::SemanticTokensOptions(value))
        } else if let Ok(value) = SemanticTokensRegistrationOptions::deserialize(json) {
            Ok(SemanticTokensServerCapabilities::SemanticTokensRegistrationOptions(value))
        } else {
            Err(CodecError::NoVariantMatched)
        }
    }
}

impl SemanticTokensServerCapabilities {
    /// A value comes back unchanged from its document exactly when its
    /// payload does and no variant declared before its own reads the
    /// payload's document.
    pub proof fn lemma_round_trip(value: SemanticTokensServerCapabilitiesModel)
        ensures
            survives::<SemanticTokensServerCapabilities>(value) <==> match value {
                SemanticTokensServerCapabilitiesModel::SemanticTokensOptions(v) => survives::<SemanticTokensOptions>(v),
                SemanticTokensServerCapabilitiesModel::SemanticTokensRegistrationOptions(v) => SemanticTokensOptions::decode(SemanticTokensRegistrationOptions::encode(v)) is Err
                    && survives::<SemanticTokensRegistrationOptions>(v),
            },
    {
    }
}

impl From<SemanticTokensOptions> for SemanticTokensServerCapabilities {
    fn from(from: SemanticTokensOptions) -> (result: SemanticTokensServerCapabilities) {
        SemanticTokensServerCapabilities::SemanticTokensOptions(from)
    }
}

impl FromSpecImpl<SemanticTokensOptions> for SemanticTokensServerCapabilities {
    open spec fn obeys_from_spec() -> bool {
        true
    }

    open spec fn from_spec(from: SemanticTokensOptions) -> SemanticTokensServerCapabilities {
        SemanticTokensServerCapabilities::SemanticTokensOptions(from)
    }
}

impl From<SemanticTokensRegistrationOptions> for SemanticTokensServerCapabilities {
    fn from(from: SemanticTokensRegistrationOptions) -> (result: SemanticTokensServerCapabilities) {
        SemanticTokensServerCapabilities::SemanticTokensRegistrationOptions(from)
    }
}

impl FromSpecImpl<SemanticTokensRegistrationOptions> for SemanticTokensServerCapabilities {
    open spec fn obeys_from_spec() -> bool {
        true
    }

    open spec fn from_spec(from: SemanticTokensRegistrationOptions) -> SemanticTokensServerCapabilities {
        SemanticTokensServerCapabilities::SemanticTokensRegistrationOptions(from)
    }
}

#[derive(Debug, PartialEq, Eq, Clone)]
pub struct SemanticTokensParams {
    /// Its members are written among those of this value.
    pub work_done_progress_params: WorkDoneProgressParams,
    /// Its members are written among those of this value.
    pub partial_result_params: PartialResultParams,
    /// The text document.
    pub text_document: TextDocumentIdentifier,
}

/// What a [`SemanticTokensParams`] stands for.
pub struct SemanticTokensParamsModel {
    pub work_done_progress_params: WorkDoneProgressParamsModel,
    pub partial_result_params: PartialResultParamsModel,
    pub text_document: TextDocumentIdentifierModel,
}

impl DeepView for SemanticTokensParams {
    type V = SemanticTokensParamsModel;

    open spec fn deep_view(&self) -> SemanticTokensParamsModel {
        SemanticTokensParamsModel {
            work_done_progress_params: self.work_done_progress_params.deep_view(),
            partial_result_params: self.partial_result_params.deep_view(),
            text_document: self.text_document.deep_view(),
        }
    }
}

impl Record for SemanticTokensParams {
    open spec fn members(before: Seq<Member>, value: SemanticTokensParamsModel) -> Seq<Member> {
        PartialResultParams::members(
            WorkDoneProgressParams::members(before, value.work_done_progress_params),
            value.partial_result_params,
        ) + field::<TextDocumentIdentifier>("textDocument"@, value.text_document)
    }

    open spec fn read(members: Seq<Member>) -> Result<SemanticTokensParamsModel, CodecError> {
        let work_done_progress_params = WorkDoneProgressParams::read(members);
        let partial_result_params = PartialResultParams::read(members);
        let text_document = required::<TextDocumentIdentifier>(members, "textDocument"@);
        if work_done_progress_params is Err {
            Err(work_done_progress_params->Err_0)
        } else if partial_result_params is Err {
            Err(partial_result_params->Err_0)
        } else if text_document is Err {
            Err(text_document->Err_0)
        } else {
            Ok(
                SemanticTokensParamsModel {
                    work_done_progress_params: work_done_progress_params->Ok_0,
                    partial_result_params: partial_result_params->Ok_0,
                    text_document: text_document->Ok_0,
                },
            )
        }
    }

    fn write(&self, members: &mut Vec<(String, Json)>) {
        self.work_done_progress_params.write(members);
        self.partial_result_params.write(members);
        put(members, "textDocument", &self.text_document);
    }

    fn scan(members: &Vec<(String, Json)>) -> (result: Result<SemanticTokensParams, CodecError>) {
        let work_done_progress_params = WorkDoneProgressParams::scan(members);
        let partial_result_params = PartialResultParams::scan(members);
        let text_document = get::<TextDocumentIdentifier>(members, "textDocument");
        if let Err(error) = work_done_progress_params {
            Err(error)
        } else if let Err(error) = partial_result_params {
            Err(error)
        } else if let Err(error) = text_document {
            Err(error)
        } else {
            Ok(
                SemanticTokensParams {
                    work_done_progress_params: work_done_progress_params.unwrap(),
                    partial_result_params: partial_result_params.unwrap(),
                    text_document: text_document.unwrap(),
                },
            )
        }
    }
}

impl SemanticTokensParams {
    /// A value comes back unchanged from the document that stands for it
    /// where its fields meet what is asked of them here.
    pub proof fn lemma_round_trip(value: SemanticTokensParamsModel)
        requires
            survives::<TextDocumentIdentifier>(value.text_document),
        ensures
            survives::<SemanticTokensParams>(value),
    {
        broadcast use group_lookup;

        reveal(required);
        reveal(optional);
        reveal_strlit("workDoneToken");
        reveal_strlit("partialResultToken");
        reveal_strlit("textDocument");
        if let Some(inner) = value.work_done_progress_params.work_done_token {
            NumberOrString::lemma_survives(inner);
        }
        if let Some(inner) = value.partial_result_params.partial_result_token {
            NumberOrString::lemma_survives(inner);
        }
    }
}

#[derive(Debug, PartialEq, Eq, Clone)]
pub struct SemanticTokensEditsParams {
    /// Its members are written among those of this value.
    pub work_done_progress_params: WorkDoneProgressParams,
    /// Its members are written among those of this value.
    pub partial_result_params: PartialResultParams,
    /// The text document.
    pub text_document: TextDocumentIdentifier,
    /// The previous result id.
    pub previous_result_id: String,
}

/// What a [`SemanticTokensEditsParams`] stands for.
pub struct SemanticTokensEditsParamsModel {
    pub work_done_progress_params: WorkDoneProgressParamsModel,
    pub partial_result_params: PartialResultParamsModel,
    pub text_document: TextDocumentIdentifierModel,
    pub previous_result_id: Seq<char>,
}

impl DeepView for SemanticTokensEditsParams {
    type V = SemanticTokensEditsParamsModel;

    open spec fn deep_view(&self) -> SemanticTokensEditsParamsModel {
        SemanticTokensEditsParamsModel {
            work_done_progress_params: self.work_done_progress_params.deep_view(),
            partial_result_params: self.partial_result_params.deep_view(),
            text_document: self.text_document.deep_view(),
            previous_result_id: self.previous_result_id.deep_view(),
        }
    }
}

impl Record for SemanticTokensEditsParams {
    open spec fn members(before: Seq<Member>, value: SemanticTokensEditsParamsModel) -> Seq<Member> {
        PartialResultParams::members(
            WorkDoneProgressParams::members(before, value.work_done_progress_params),
            value.partial_result_params,
        ) + field::<TextDocumentIdentifier>("textDocument"@, value.text_document)
            + field::<String>("previousResultId"@, value.previous_result_id)
    }

    open spec fn read(members: Seq<Member>) -> Result<SemanticTokensEditsParamsModel, CodecError> {
        let work_done_progress_params = WorkDoneProgressParams::read(members);
        let partial_result_params = PartialResultParams::read(members);
        let text_document = required::<TextDocumentIdentifier>(members, "textDocument"@);
        let previous_result_id = required::<String>(members, "previousResultId"@);
        if work_done_progress_params is Err {
            Err(work_done_progress_params->Err_0)
        } else if partial_result_params is Err {
            Err(partial_result_params->Err_0)
        } else if text_document is Err {
            Err(text_document->Err_0)
        } else if previous_result_id is Err {
            Err(previous_result_id->Err_0)
        } else {
            Ok(
                SemanticTokensEditsParamsModel {
                    work_done_progress_params: work_done_progress_params->Ok_0,
                    partial_result_params: partial_result_params->Ok_0,
                    text_document: text_document->Ok_0,
                    previous_result_id: previous_result_id->Ok_0,
                },
            )
        }
    }

    fn write(&self, members: &mut Vec<(String, Json)>) {
        self.work_done_progress_params.write(members);
        self.partial_result_params.write(members);
        put(members, "textDocument", &self.text_document);
        put(members, "previousResultId", &self.previous_result_id);
    }

    fn scan(members: &Vec<(String, Json)>) -> (result: Result<SemanticTokensEditsParams, CodecError>) {
        let work_done_progress_params = WorkDoneProgressParams::scan(members);
        let partial_result_params = PartialResultParams::scan(members);
        let text_document = get::<TextDocumentIdentifier>(members, "textDocument");
        let previous_result_id = get::<String>(members, "previousResultId");
        if let Err(error) = work_done_progress_params {
            Err(error)
        } else if let Err(error) = partial_result_params {
            Err(error)
        } else if let Err(error) = text_document {
            Err(error)
        } else if let Err(error) = previous_result_id {
            Err(error)
        } else {
            Ok(
                SemanticTokensEditsParams {
                    work_done_progress_params: work_done_progress_params.unwrap(),
                    partial_result_params: partial_result_params.unwrap(),
                    text_document: text_document.unwrap(),
                    previous_result_id: previous_result_id.unwrap(),
                },
            )
        }
    }
}

impl SemanticTokensEditsParams {
    /// A value comes back unchanged from the document that stands for it
    /// where its fields meet what is asked of them here.
    pub proof fn lemma_round_trip(value: SemanticTokensEditsParamsModel)
        requires
            survives::<TextDocumentIdentifier>(value.text_document),
        ensures
            survives::<SemanticTokensEditsParams>(value),
    {
        broadcast use group_lookup;

        reveal(required);
        reveal(optional);
        reveal_strlit("workDoneToken");
        reveal_strlit("partialResultToken");
        reveal_strlit("textDocument");
        reveal_strlit("previousResultId");
        if let Some(inner) = value.work_done_progress_params.work_done_token {
            NumberOrString::lemma_survives(inner);
        }
        if let Some(inner) = value.partial_result_params.partial_result_token {
            NumberOrString::lemma_survives(inner);
        }
    }
}

#[derive(Debug, PartialEq, Eq, Clone)]
pub struct SemanticTokensRangeParams {
    /// Its members are written among those of this value.
    pub work_done_progress_params: WorkDoneProgressParams,
    /// Its members are written among those of this value.
    pub partial_result_params: PartialResultParams,
    /// The text document.
    pub text_document: TextDocumentIdentifier,
    /// The range the semantic tokens are requested for.
    pub range: Range,
}

/// What a [`SemanticTokensRangeParams`] stands for.
pub struct SemanticTokensRangeParamsModel {
    pub work_done_progress_params: WorkDoneProgressParamsModel,
    pub partial_result_params: PartialResultParamsModel,
    pub text_document: TextDocumentIdentifierModel,
    pub range: Range,
}

impl DeepView for SemanticTokensRangeParams {
    type V = SemanticTokensRangeParamsModel;

    open spec fn deep_view(&self) -> SemanticTokensRangeParamsModel {
        SemanticTokensRangeParamsModel {
            work_done_progress_params: self.work_done_progress_params.deep_view(),
            partial_result_params: self.partial_result_params.deep_view(),
            text_document: self.text_document.deep_view(),
            range: self.range.deep_view(),
        }
    }
}

impl Record for SemanticTokensRangeParams {
    open spec fn members(before: Seq<Member>, value: SemanticTokensRangeParamsModel) -> Seq<Member> {
        PartialResultParams::members(
            WorkDoneProgressParams::members(before, value.work_done_progress_params),
            value.partial_result_params,
        ) + field::<TextDocumentIdentifier>("textDocument"@, value.text_document)
            + field::<Range>("range"@, value.range)
    }

    open spec fn read(members: Seq<Member>) -> Result<SemanticTokensRangeParamsModel, CodecError> {
        let work_done_progress_params = WorkDoneProgressParams::read(members);
        let partial_result_params = PartialResultParams::read(members);
        let text_document = required::<TextDocumentIdentifier>(members, "textDocument"@);
        let range = required::<Range>(members, "range"@);
        if work_done_progress_params is Err {
            Err(work_done_progress_params->Err_0)
        } else if partial_result_params is Err {
            Err(partial_result_params->Err_0)
        } else if text_document is Err {
            Err(text_document->Err_0)
        } else if range is Err {
            Err(range->Err_0)
        } else {
            Ok(
                SemanticTokensRangeParamsModel {
                    work_done_progress_params: work_done_progress_params->Ok_0,
                    partial_result_params: partial_result_params->Ok_0,
                    text_document: text_document->Ok_0,
                    range: range->Ok_0,
                },
            )
        }
    }

    fn write(&self, members: &mut Vec<(String, Json)>) {
        self.work_done_progress_params.write(members);
        self.partial_result_params.write(members);
        put(members, "textDocument", &self.text_document);
        put(members, "range", &self.range);
    }

    fn scan(members: &Vec<(String, Json)>) -> (result: Result<SemanticTokensRangeParams, CodecError>) {
        let work_done_progress_params = WorkDoneProgressParams::scan(members);
        let partial_result_params = PartialResultParams::scan(members);
        let text_document = get::<TextDocumentIdentifier>(members, "textDocument");
        let range = get::<Range>(members, "range");
        if let Err(error) = work_done_progress_params {
            Err(error)
        } else if let Err(error) = partial_result_params {
            Err(error)
        } else if let Err(error) = text_document {
            Err(error)
        } else if let Err(error) = range {
            Err(error)
        } else {
            Ok(
                SemanticTokensRangeParams {
                    work_done_progress_params: work_done_progress_params.unwrap(),
                    partial_result_params: partial_result_params.unwrap(),
                    text_document: text_document.unwrap(),
                    range: range.unwrap(),
                },
            )
        }
    }
}

impl SemanticTokensRangeParams {
    /// A value comes back unchanged from the document that stands for it
    /// where its fields meet what is asked of them here.
    pub proof fn lemma_round_trip(value: SemanticTokensRangeParamsModel)
        requires
            survives::<TextDocumentIdentifier>(value.text_document),
        ensures
            survives::<SemanticTokensRangeParams>(value),
    {
        broadcast use group_lookup;

        reveal(required);
        reveal(optional);
        reveal_strlit("workDoneToken");
        reveal_strlit("partialResultToken");
        reveal_strlit("textDocument");
        reveal_strlit("range");
        if let Some(inner) = value.work_done_progress_params.work_done_token {
            NumberOrString::lemma_survives(inner);
        }
        if let Some(inner) = value.partial_result_params.partial_result_token {
            NumberOrString::lemma_survives(inner);
        }
        Range::lemma_survives(value.range);
    }
}

#[derive(Debug, PartialEq, Eq, Clone)]
pub enum SemanticTokensRangeResult {
    Tokens(SemanticTokens),
    Partial(SemanticTokensPartialResult),
}

/// What a [`SemanticTokensRangeResult`] stands for.
pub enum SemanticTokensRangeResultModel {
    Tokens(SemanticTokensModel),
    Partial(SemanticTokensPartialResultModel),
}

impl DeepView for SemanticTokensRangeResult {
    type V = SemanticTokensRangeResultModel;

    open spec fn deep_view(&self) -> SemanticTokensRangeResultModel {
        match self {
            SemanticTokensRangeResult::Tokens(value) => SemanticTokensRangeResultModel::Tokens(value.deep_view()),
            SemanticTokensRangeResult::Partial(value) => SemanticTokensRangeResultModel::Partial(value.deep_view()),
        }
    }
}

impl Codec for SemanticTokensRangeResult {
    open spec fn encode(value: SemanticTokensRangeResultModel) -> JsonValue {
        match value {
            SemanticTokensRangeResultModel::Tokens(value) => SemanticTokens::encode(value),
            SemanticTokensRangeResultModel::Partial(value) => SemanticTokensPartialResult::encode(value),
        }
    }

    open spec fn decode(json: JsonValue) -> Result<SemanticTokensRangeResultModel, CodecError> {
        if let Ok(value) = SemanticTokens::decode(json) {
            Ok(SemanticTokensRangeResultModel::Tokens(value))
        } else if let Ok(value) = SemanticTokensPartialResult::decode(json) {
            Ok(SemanticTokensRangeResultModel::Partial(value))
        } else {
            Err(CodecError::NoVariantMatched)
        }
    }

    fn serialize(&self) -> (json: Json) {
        match self {
            SemanticTokensRangeResult::Tokens(value) => value.serialize(),
            SemanticTokensRangeResult::Partial(value) => value.serialize(),
        }
    }

    fn deserialize(json: &Json) -> (result: Result<SemanticTokensRangeResult, CodecError>) {
        if let Ok(value) = SemanticTokens::deserialize(json) {
            Ok(SemanticTokensRangeResult::Tokens(value))
        } else if let Ok(value) = SemanticTokensPartialResult::deserialize(json) {
            Ok(SemanticTokensRangeResult::Partial(value))
        } else {
            Err(CodecError::NoVariantMatched)
        }
    }
}

impl SemanticTokensRangeResult {
    /// A value comes back unchanged from its document exactly when its
    /// payload does and no variant declared before its own reads the
    /// payload's document.
    pub proof fn lemma_round_trip(value: SemanticTokensRangeResultModel)
        ensures
            survives::<SemanticTokensRangeResult>(value) <==> match value {
                SemanticTokensRangeResultModel::Tokens(v) => survives::<SemanticTokens>(v),
                SemanticTokensRangeResultModel::Partial(v) => SemanticTokens::decode(SemanticTokensPartialResult::encode(v)) is Err
                    && survives::<SemanticTokensPartialResult>(v),
            },
    {
    }
}

impl From<SemanticTokens> for SemanticTokensRangeResult {
    fn from(tokens: SemanticTokens) -> (result: SemanticTokensRangeResult) {
        SemanticTokensRangeResult::Tokens(tokens)
    }
}

impl FromSpecImpl<SemanticTokens> for SemanticTokensRangeResult {
    open spec fn obeys_from_spec() -> bool {
        true
    }

    open spec fn from_spec(tokens: SemanticTokens) -> SemanticTokensRangeResult {
        SemanticTokensRangeResult::Tokens(tokens)
    }
}

impl From<SemanticTokensPartialResult> for SemanticTokensRangeResult {
    fn from(partial: SemanticTokensPartialResult) -> (result: SemanticTokensRangeResult) {
        SemanticTokensRangeResult::Partial(partial)
    }
}

impl FromSpecImpl<SemanticTokensPartialResult> for SemanticTokensRangeResult {
    open spec fn obeys_from_spec() -> bool {
        true
    }

    open spec fn from_spec(partial: SemanticTokensPartialResult) -> SemanticTokensRangeResult {
        SemanticTokensRangeResult::Partial(partial)
    }
}

/// A set of predefined token types. This set is not fixed
/// and clients can specify additional token types via the
/// corresponding client capabilities.
#[derive(Debug, PartialEq, Eq, Hash, PartialOrd)]
pub struct SemanticTokenType(Cow<'static, str>);

impl Clone for SemanticTokenType {
    fn clone(&self) -> (copy: SemanticTokenType)
        ensures
            copy.deep_view() == self.deep_view(),
    {
        match &self.0 {
            Cow::Borrowed(name) => SemanticTokenType(Cow::Borrowed(name)),
            Cow::Owned(name) => SemanticTokenType(Cow::Owned(name.clone())),
        }
    }
}

impl DeepView for SemanticTokenType {
    type V = Seq<char>;

    closed spec fn deep_view(&self) -> Seq<char> {
        self.0.deep_view()
    }
}

impl SemanticTokenType {
    /// The token type `comment`.
    #[allow(non_snake_case)]
    pub fn COMMENT() -> (token: SemanticTokenType)
        ensures
            token.deep_view() == "comment"@,
    {
        SemanticTokenType::new("comment")
    }

    /// The token type `keyword`.
    #[allow(non_snake_case)]
    pub fn KEYWORD() -> (token: SemanticTokenType)
        ensures
            token.deep_view() == "keyword"@,
    {
        SemanticTokenType::new("keyword")
    }

    /// The token type `string`.
    #[allow(non_snake_case)]
    pub fn STRING() -> (token: SemanticTokenType)
        ensures
            token.deep_view() == "string"@,
    {
        SemanticTokenType::new("string")
    }

    /// The token type `number`.
    #[allow(non_snake_case)]
    pub fn NUMBER() -> (token: SemanticTokenType)
        ensures
            token.deep_view() == "number"@,
    {
        SemanticTokenType::new("number")
    }

    /// The token type `regexp`.
    #[allow(non_snake_case)]
    pub fn REGEXP() -> (token: SemanticTokenType)
        ensures
            token.deep_view() == "regexp"@,
    {
        SemanticTokenType::new("regexp")
    }

    /// The token type `operator`.
    #[allow(non_snake_case)]
    pub fn OPERATOR() -> (token: SemanticTokenType)
        ensures
            token.deep_view() == "operator"@,
    {
        SemanticTokenType::new("operator")
    }

    /// The token type `namespace`.
    #[allow(non_snake_case)]
    pub fn NAMESPACE() -> (token: SemanticTokenType)
        ensures
            token.deep_view() == "namespace"@,
    {
        SemanticTokenType::new("namespace")
    }

    /// The token type `type`.
    #[allow(non_snake_case)]
    pub fn TYPE() -> (token: SemanticTokenType)
        ensures
            token.deep_view() == "type"@,
    {
        SemanticTokenType::new("type")
    }

    /// The token type `struct`.
    #[allow(non_snake_case)]
    pub fn STRUCT() -> (token: SemanticTokenType)
        ensures
            token.deep_view() == "struct"@,
    {
        SemanticTokenType::new("struct")
    }

    /// The token type `class`.
    #[allow(non_snake_case)]
    pub fn CLASS() -> (token: SemanticTokenType)
        ensures
            token.deep_view() == "class"@,
    {
        SemanticTokenType::new("class")
    }

    /// The token type `interface`.
    #[allow(non_snake_case)]
    pub fn INTERFACE() -> (token: SemanticTokenType)
        ensures
            token.deep_view() == "interface"@,
    {
        SemanticTokenType::new("interface")
    }

    /// The token type `enum`.
    #[allow(non_snake_case)]
    pub fn ENUM() -> (token: SemanticTokenType)
        ensures
            token.deep_view() == "enum"@,
    {
        SemanticTokenType::new("enum")
    }

    /// The token type `typeParameter`.
    #[allow(non_snake_case)]
    pub fn TYPE_PARAMETER() -> (token: SemanticTokenType)
        ensures
            token.deep_view() == "typeParameter"@,
    {
        SemanticTokenType::new("typeParameter")
    }

    /// The token type `function`.
    #[allow(non_snake_case)]
    pub fn FUNCTION() -> (token: SemanticTokenType)
        ensures
            token.deep_view() == "function"@,
    {
        SemanticTokenType::new("function")
    }

    /// The token type `member`.
    #[allow(non_snake_case)]
    pub fn MEMBER() -> (token: SemanticTokenType)
        ensures
            token.deep_view() == "member"@,
    {
        SemanticTokenType::new("member")
    }

    /// The token type `property`.
    #[allow(non_snake_case)]
    pub fn PROPERTY() -> (token: SemanticTokenType)
        ensures
            token.deep_view() == "property"@,
    {
        SemanticTokenType::new("property")
    }

    /// The token type `macro`.
    #[allow(non_snake_case)]
    pub fn MACRO() -> (token: SemanticTokenType)
        ensures
            token.deep_view() == "macro"@,
    {
        SemanticTokenType::new("macro")
    }

    /// The token type `variable`.
    #[allow(non_snake_case)]
    pub fn VARIABLE() -> (token: SemanticTokenType)
        ensures
            token.deep_view() == "variable"@,
    {
        SemanticTokenType::new("variable")
    }

    /// The token type `parameter`.
    #[allow(non_snake_case)]
    pub fn PARAMETER() -> (token: SemanticTokenType)
        ensures
            token.deep_view() == "parameter"@,
    {
        SemanticTokenType::new("parameter")
    }

    /// The token type `label`.
    #[allow(non_snake_case)]
    pub fn LABEL() -> (token: SemanticTokenType)
        ensures
            token.deep_view() == "label"@,
    {
        SemanticTokenType::new("label")
    }

    /// The token type with the given name.
    pub fn new(tag: &'static str) -> (token: SemanticTokenType)
        ensures
            token.deep_view() == tag@,
    {
        SemanticTokenType(Cow::Borrowed(tag))
    }

    /// The name of this token type.
    pub fn as_str(&self) -> (name: &str)
        ensures
            name@ == self.deep_view(),
    {
        match &self.0 {
            Cow::Borrowed(name) => name,
            Cow::Owned(name) => name.as_str(),
        }
    }

    /// Every name comes back unchanged from the string that stands for it.
    pub proof fn lemma_survives(value: Seq<char>)
        ensures
            survives::<SemanticTokenType>(value),
    {
    }
}

impl From<String> for SemanticTokenType {
    fn from(from: String) -> (token: SemanticTokenType) {
        SemanticTokenType(Cow::Owned(from))
    }
}

impl FromSpecImpl<String> for SemanticTokenType {
    open spec fn obeys_from_spec() -> bool {
        true
    }

    closed spec fn from_spec(from: String) -> SemanticTokenType {
        SemanticTokenType(Cow::Owned(from))
    }
}

impl From<&'static str> for SemanticTokenType {
    fn from(from: &'static str) -> (token: SemanticTokenType) {
        SemanticTokenType(Cow::Borrowed(from))
    }
}

impl FromSpecImpl<&'static str> for SemanticTokenType {
    open spec fn obeys_from_spec() -> bool {
        true
    }

    closed spec fn from_spec(from: &'static str) -> SemanticTokenType {
        SemanticTokenType(Cow::Borrowed(from))
    }
}

impl Codec for SemanticTokenType {
    open spec fn encode(value: Seq<char>) -> JsonValue {
        JsonValue::String(value)
    }

    open spec fn decode(json: JsonValue) -> Result<Seq<char>, CodecError> {
        match json {
            JsonValue::String(name) => Ok(name),
            _ => Err(CodecError::UnexpectedType),
        }
    }

    fn serialize(&self) -> (json: Json) {
        Json::String(self.as_str().to_owned())
    }

    fn deserialize(json: &Json) -> (result: Result<SemanticTokenType, CodecError>) {
        match json {
            Json::String(name) => Ok(SemanticTokenType(Cow::Owned(name.clone()))),
            _ => Err(CodecError::UnexpectedType),
        }
    }
}
/// A set of predefined token modifiers. This set is not fixed
/// and clients can specify additional token types via the
/// corresponding client capabilities.
#[derive(Debug, PartialEq, Eq, Hash, PartialOrd)]
pub struct SemanticTokenModifier(Cow<'static, str>);

impl Clone for SemanticTokenModifier {
    fn clone(&self) -> (copy: SemanticTokenModifier)
        ensures
            copy.deep_view() == self.deep_view(),
    {
        match &self.0 {
            Cow::Borrowed(name) => SemanticTokenModifier(Cow::Borrowed(name)),
            Cow::Owned(name) => SemanticTokenModifier(Cow::Owned(name.clone())),
        }
    }
}

impl DeepView for SemanticTokenModifier {
    type V = Seq<char>;

    closed spec fn deep_view(&self) -> Seq<char> {
        self.0.deep_view()
    }
}

impl SemanticTokenModifier {
    /// The token modifier `documentation`.
    #[allow(non_snake_case)]
    pub fn DOCUMENTATION() -> (modifier: SemanticTokenModifier)
        ensures
            modifier.deep_view() == "documentation"@,
    {
        SemanticTokenModifier::new("documentation")
    }

    /// The token modifier `declaration`.
    #[allow(non_snake_case)]
    pub fn DECLARATION() -> (modifier: SemanticTokenModifier)
        ensures
            modifier.deep_view() == "declaration"@,
    {
        SemanticTokenModifier::new("declaration")
    }

    /// The token modifier `definition`.
    #[allow(non_snake_case)]
    pub fn DEFINITION() -> (modifier: SemanticTokenModifier)
        ensures
            modifier.deep_view() == "definition"@,
    {
        SemanticTokenModifier::new("definition")
    }

    /// The token modifier `static`.
    #[allow(non_snake_case)]
    pub fn STATIC() -> (modifier: SemanticTokenModifier)
        ensures
            modifier.deep_view() == "static"@,
    {
        SemanticTokenModifier::new("static")
    }

    /// The token modifier `abstract`.
    #[allow(non_snake_case)]
    pub fn ABSTRACT() -> (modifier: SemanticTokenModifier)
        ensures
            modifier.deep_view() == "abstract"@,
    {
        SemanticTokenModifier::new("abstract")
    }

    /// The token modifier `deprecated`.
    #[allow(non_snake_case)]
    pub fn DEPRECATED() -> (modifier: SemanticTokenModifier)
        ensures
            modifier.deep_view() == "deprecated"@,
    {
        SemanticTokenModifier::new("deprecated")
    }

    /// The token modifier `readonly`.
    #[allow(non_snake_case)]
    pub fn READONLY() -> (modifier: SemanticTokenModifier)
        ensures
            modifier.deep_view() == "readonly"@,
    {
        SemanticTokenModifier::new("readonly")
    }

    /// The token modifier with the given name.
    pub fn new(tag: &'static str) -> (modifier: SemanticTokenModifier)
        ensures
            modifier.deep_view() == tag@,
    {
        SemanticTokenModifier(Cow::Borrowed(tag))
    }

    /// The name of this token modifier.
    pub fn as_str(&self) -> (name: &str)
        ensures
            name@ == self.deep_view(),
    {
        match &self.0 {
            Cow::Borrowed(name) => name,
            Cow::Owned(name) => name.as_str(),
        }
    }

    /// Every name comes back unchanged from the string that stands for it.
    pub proof fn lemma_survives(value: Seq<char>)
        ensures
            survives::<SemanticTokenModifier>(value),
    {
    }
}

impl From<String> for SemanticTokenModifier {
    fn from(from: String) -> (modifier: SemanticTokenModifier) {
        SemanticTokenModifier(Cow::Owned(from))
    }
}

impl FromSpecImpl<String> for SemanticTokenModifier {
    open spec fn obeys_from_spec() -> bool {
        true
    }

    closed spec fn from_spec(from: String) -> SemanticTokenModifier {
        SemanticTokenModifier(Cow::Owned(from))
    }
}

impl From<&'static str> for SemanticTokenModifier {
    fn from(from: &'static str) -> (modifier: SemanticTokenModifier) {
        SemanticTokenModifier(Cow::Borrowed(from))
    }
}

impl FromSpecImpl<&'static str> for SemanticTokenModifier {
    open spec fn obeys_from_spec() -> bool {
        true
    }

    closed spec fn from_spec(from: &'static str) -> SemanticTokenModifier {
        SemanticTokenModifier(Cow::Borrowed(from))
    }
}

impl Codec for SemanticTokenModifier {
    open spec fn encode(value: Seq<char>) -> JsonValue {
        JsonValue::String(value)
    }

    open spec fn decode(json: JsonValue) -> Result<Seq<char>, CodecError> {
        match json {
            JsonValue::String(name) => Ok(name),
            _ => Err(CodecError::UnexpectedType),
        }
    }

    fn serialize(&self) -> (json: Json) {
        Json::String(self.as_str().to_owned())
    }

    fn deserialize(json: &Json) -> (result: Result<SemanticTokenModifier, CodecError>) {
        match json {
            Json::String(name) => Ok(SemanticTokenModifier(Cow::Owned(name.clone()))),
            _ => Err(CodecError::UnexpectedType),
        }
    }
}
/// One token of the relative encoding: its position relative to the token
/// before it, its length, and the indices of its type and modifiers in the
/// server's legend.
#[derive(Debug, PartialEq, Eq, Structural, Clone, Copy, Default)]
pub struct SemanticToken {
    pub delta_line: u32,
    pub delta_start: u32,
    pub length: u32,
    pub token_type: u32,
    pub token_modifiers_bitset: u32,
}

impl DeepView for SemanticToken {
    type V = SemanticToken;

    open spec fn deep_view(&self) -> SemanticToken {
        *self
    }
}

/// The five integers of a token, in the order in which they are written.
pub open spec fn token_numbers(token: SemanticToken) -> Seq<u32> {
    seq![
        token.delta_line,
        token.delta_start,
        token.length,
        token.token_type,
        token.token_modifiers_bitset,
    ]
}

/// The integers of a list of tokens: five for each token, in order.
pub open spec fn flatten(tokens: Seq<SemanticToken>) -> Seq<u32>
    decreases tokens.len(),
{
    if tokens.len() == 0 {
        Seq::empty()
    } else {
        flatten(tokens.drop_last()) + token_numbers(tokens.last())
    }
}

/// The token that the five integers from `at` on stand for.
pub open spec fn token_at(numbers: Seq<u32>, at: int) -> SemanticToken {
    SemanticToken {
        delta_line: numbers[at],
        delta_start: numbers[at + 1],
        length: numbers[at + 2],
        token_type: numbers[at + 3],
        token_modifiers_bitset: numbers[at + 4],
    }
}

/// The tokens that a run of whole five-integer records stands for.
pub open spec fn unflatten(numbers: Seq<u32>) -> Seq<SemanticToken> {
    Seq::new((numbers.len() / 5) as nat, |i: int| token_at(numbers, 5 * i))
}

impl SemanticToken {
    /// The document that stands for a list of tokens: one array of integers.
    pub open spec fn encode_tokens(tokens: Seq<SemanticToken>) -> JsonValue {
        Vec::<u32>::encode(flatten(tokens))
    }

    /// The tokens that a document stands for: it must be an array of
    /// integers whose length is a multiple of five.
    pub open spec fn decode_tokens(json: JsonValue) -> Result<Seq<SemanticToken>, CodecError> {
        match Vec::<u32>::decode(json) {
            Err(error) => Err(error),
            Ok(numbers) => Self::decode_numbers(numbers),
        }
    }

    /// The tokens that the integers of a token array stand for.
    pub open spec fn decode_numbers(numbers: Seq<u32>) -> Result<Seq<SemanticToken>, CodecError> {
        if numbers.len() % 5 != 0 {
            Err(CodecError::TokenArrayLengthInvalid)
        } else {
            Ok(unflatten(numbers))
        }
    }

    /// The document that stands for a token list which may be absent.
    pub open spec fn encode_tokens_opt(tokens: Option<Seq<SemanticToken>>) -> JsonValue {
        match tokens {
            Some(tokens) => Self::encode_tokens(tokens),
            None => JsonValue::Null,
        }
    }

    /// The token list, if any, that a document stands for.
    pub open spec fn decode_tokens_opt(json: JsonValue) -> Result<
        Option<Seq<SemanticToken>>,
        CodecError,
    > {
        match json {
            JsonValue::Null => Ok(None),
            _ => match Self::decode_tokens(json) {
                Ok(tokens) => Ok(Some(tokens)),
                Err(error) => Err(error),
            },
        }
    }

    /// Reads a list of tokens from a flat array of integers.
    pub fn deserialize_tokens(json: &Json) -> (result: Result<Vec<SemanticToken>, CodecError>)
        ensures
            outcome(result) == Self::decode_tokens(json.deep_view()),
    {
        match Vec::<u32>::deserialize(json) {
            Err(error) => Err(error),
            Ok(numbers) => {
                proof {
                    assert(numbers.deep_view() =~= numbers@);
                }
                Self::tokens_of_numbers(&numbers)
            },
        }
    }

    /// Groups the integers of a token array into tokens. A length that is
    /// not a multiple of five is an error.
    pub fn tokens_of_numbers(numbers: &Vec<u32>) -> (result: Result<Vec<SemanticToken>, CodecError>)
        ensures
            outcome(result) == Self::decode_numbers(numbers@),
    {
        if numbers.len() % 5 != 0 {
            return Err(CodecError::TokenArrayLengthInvalid);
        }
        let count = numbers.len() / 5;
        let mut tokens: Vec<SemanticToken> = Vec::new();
        let mut i: usize = 0;
        while i < count
            invariant
                i <= count,
                count == numbers.len() / 5,
                numbers.len() % 5 == 0,
                tokens.len() == i,
                forall|k: int| 0 <= k < i ==> tokens@[k] == token_at(numbers@, 5 * k),
            decreases count - i,
        {
            let at = 5 * i;
            tokens.push(
                SemanticToken {
                    delta_line: numbers[at],
                    delta_start: numbers[at + 1],
                    length: numbers[at + 2],
                    token_type: numbers[at + 3],
                    token_modifiers_bitset: numbers[at + 4],
                },
            );
            i += 1;
        }
        proof {
            assert(tokens.deep_view() =~= unflatten(numbers@));
        }
        Ok(tokens)
    }

    /// Writes a list of tokens as a flat array of integers.
    pub fn serialize_tokens(tokens: &[SemanticToken]) -> (json: Json)
        ensures
            json.deep_view() == Self::encode_tokens(tokens.deep_view()),
    {
        let mut numbers: Vec<u32> = Vec::new();
        let mut i: usize = 0;
        proof {
            assert(tokens.deep_view().take(0) =~= Seq::empty());
        }
        while i < tokens.len()
            invariant
                i <= tokens.len(),
                numbers@ == flatten(tokens.deep_view().take(i as int)),
            decreases tokens.len() - i,
        {
            let token = tokens[i];
            let ghost before = numbers@;
            numbers.push(token.delta_line);
            numbers.push(token.delta_start);
            numbers.push(token.length);
            numbers.push(token.token_type);
            numbers.push(token.token_modifiers_bitset);
            proof {
                let next = tokens.deep_view().take(i + 1);
                assert(next.drop_last() =~= tokens.deep_view().take(i as int));
                assert(next.last() == token);
                assert(numbers@ =~= before + token_numbers(token));
            }
            i += 1;
        }
        proof {
            assert(tokens.deep_view().take(i as int) =~= tokens.deep_view());
            assert(numbers.deep_view() =~= numbers@);
        }
        numbers.serialize()
    }

    /// Reads a token list that may be absent: `null` stands for none.
    pub fn deserialize_tokens_opt(json: &Json) -> (result: Result<
        Option<Vec<SemanticToken>>,
        CodecError,
    >)
        ensures
            outcome(result) == Self::decode_tokens_opt(json.deep_view()),
    {
        match json {
            Json::Null => Ok(None),
            _ => match Self::deserialize_tokens(json) {
                Ok(tokens) => Ok(Some(tokens)),
                Err(error) => Err(error),
            },
        }
    }

    /// Writes a token list that may be absent: none is written as `null`.
    pub fn serialize_tokens_opt(data: &Option<Vec<SemanticToken>>) -> (json: Json)
        ensures
            json.deep_view() == Self::encode_tokens_opt(data.deep_view()),
    {
        match data {
            Some(tokens) => Self::serialize_tokens(tokens.as_slice()),
            None => Json::Null,
        }
    }
}

/// The integers of a list of tokens hold five integers for each token, those
/// of the `k`-th token from position `5 * k` on.
pub proof fn lemma_flatten_layout(tokens: Seq<SemanticToken>)
    ensures
        flatten(tokens).len() == 5 * tokens.len(),
        forall|k: int, j: int|
            0 <= k < tokens.len() && 0 <= j < 5 ==> #[trigger] flatten(tokens)[5 * k + j]
                == token_numbers(tokens[k])[j],
    decreases tokens.len(),
{
    if tokens.len() > 0 {
        lemma_flatten_layout(tokens.drop_last());
        let head = flatten(tokens.drop_last());
        assert forall|k: int, j: int| 0 <= k < tokens.len() && 0 <= j < 5 implies #[trigger] flatten(
            tokens,
        )[5 * k + j] == token_numbers(tokens[k])[j] by {
            if k < tokens.len() - 1 {
                assert(flatten(tokens)[5 * k + j] == head[5 * k + j]);
                assert(tokens.drop_last()[k] == tokens[k]);
            } else {
                assert(flatten(tokens)[5 * k + j] == token_numbers(tokens.last())[j]);
            }
        }
    }
}

/// Tokens come back unchanged from their integers.
pub proof fn lemma_unflatten_flatten(tokens: Seq<SemanticToken>)
    ensures
        unflatten(flatten(tokens)) == tokens,
{
    lemma_flatten_layout(tokens);
    let numbers = flatten(tokens);
    assert forall|k: int| 0 <= k < tokens.len() implies unflatten(numbers)[k] == tokens[k] by {
        let token = tokens[k];
        assert(numbers[5 * k + 0] == token_numbers(token)[0]);
        assert(numbers[5 * k + 1] == token_numbers(token)[1]);
        assert(numbers[5 * k + 2] == token_numbers(token)[2]);
        assert(numbers[5 * k + 3] == token_numbers(token)[3]);
        assert(numbers[5 * k + 4] == token_numbers(token)[4]);
    }
    assert(unflatten(numbers) =~= tokens);
}

/// A list of tokens comes back unchanged from the array that stands for it.
pub proof fn lemma_tokens_round_trip(tokens: Seq<SemanticToken>)
    ensures
        SemanticToken::decode_tokens(SemanticToken::encode_tokens(tokens)) == Ok::<
            Seq<SemanticToken>,
            CodecError,
        >(tokens),
{
    lemma_flatten_layout(tokens);
    lemma_unflatten_flatten(tokens);
    lemma_sequence_round_trip::<u32>(flatten(tokens));
}

/// The member that stands for a token list which is always written.
pub open spec fn token_field(key: Seq<char>, tokens: Seq<SemanticToken>) -> Seq<Member> {
    seq![(key, SemanticToken::encode_tokens(tokens))]
}

/// The member, if any, that stands for a token list which is left out when
/// absent.
pub open spec fn optional_token_field(key: Seq<char>, tokens: Option<Seq<SemanticToken>>) -> Seq<
    Member,
> {
    match tokens {
        Some(tokens) => seq![(key, SemanticToken::encode_tokens(tokens))],
        None => Seq::empty(),
    }
}

/// The token list of a field that an object must have.
pub open spec fn required_tokens(members: Seq<Member>, key: Seq<char>) -> Result<
    Seq<SemanticToken>,
    CodecError,
> {
    match lookup(members, key) {
        Some(json) => SemanticToken::decode_tokens(json),
        None => Err(CodecError::MissingField),
    }
}

/// The token list of a field that an object may lack, or hold as `null`.
pub open spec fn optional_tokens(members: Seq<Member>, key: Seq<char>) -> Result<
    Option<Seq<SemanticToken>>,
    CodecError,
> {
    match lookup(members, key) {
        Some(json) => SemanticToken::decode_tokens_opt(json),
        None => Ok(None),
    }
}

/// Appends the member of a token list which is always written.
pub fn put_tokens(members: &mut Vec<(String, Json)>, key: &str, tokens: &Vec<SemanticToken>)
    ensures
        final(members).deep_view() == old(members).deep_view() + token_field(
            key@,
            tokens.deep_view(),
        ),
{
    let ghost before = members.deep_view();
    members.push((key.to_owned(), SemanticToken::serialize_tokens(tokens.as_slice())));
    proof {
        assert(members.deep_view() =~= before + token_field(key@, tokens.deep_view()));
    }
}

/// Appends the member of a token list which is left out when absent.
pub fn put_optional_tokens(
    members: &mut Vec<(String, Json)>,
    key: &str,
    tokens: &Option<Vec<SemanticToken>>,
)
    ensures
        final(members).deep_view() == old(members).deep_view() + optional_token_field(
            key@,
            tokens.deep_view(),
        ),
{
    let ghost before = members.deep_view();
    match tokens {
        Some(list) => {
            members.push((key.to_owned(), SemanticToken::serialize_tokens(list.as_slice())));
        },
        None => {},
    }
    proof {
        assert(members.deep_view() =~= before + optional_token_field(key@, tokens.deep_view()));
    }
}

/// Reads the token list of a field that an object must have.
pub fn get_tokens(members: &Vec<(String, Json)>, key: &str) -> (result: Result<
    Vec<SemanticToken>,
    CodecError,
>)
    ensures
        outcome(result) == required_tokens(members.deep_view(), key@),
{
    match find(members, key) {
        Some(json) => SemanticToken::deserialize_tokens(json),
        None => Err(CodecError::MissingField),
    }
}

/// Reads the token list of a field that an object may lack, or hold as `null`.
pub fn get_optional_tokens(members: &Vec<(String, Json)>, key: &str) -> (result: Result<
    Option<Vec<SemanticToken>>,
    CodecError,
>)
    ensures
        outcome(result) == optional_tokens(members.deep_view(), key@),
{
    match find(members, key) {
        Some(json) => SemanticToken::deserialize_tokens_opt(json),
        None => Ok(None),
    }
}

/// Whether a server provides semantic tokens for a full document: a plain
/// boolean, or an object that says whether it supports deltas.
#[derive(Debug, PartialEq, Eq, Structural, Clone)]
pub enum SemanticTokensDocumentProvider {
    Bool(bool),
    /// The server supports deltas for full documents.
    Edits { edits: Option<bool> },
}

impl DeepView for SemanticTokensDocumentProvider {
    type V = SemanticTokensDocumentProvider;

    open spec fn deep_view(&self) -> SemanticTokensDocumentProvider {
        match self {
            SemanticTokensDocumentProvider::Bool(value) => SemanticTokensDocumentProvider::Bool(
                value.deep_view(),
            ),
            SemanticTokensDocumentProvider::Edits { edits } => {
                SemanticTokensDocumentProvider::Edits { edits: edits.deep_view() }
            },
        }
    }
}

impl SemanticTokensDocumentProvider {
    /// The provider that an object with an optional `edits` member stands for.
    pub open spec fn decode_edits(json: JsonValue) -> Result<
        SemanticTokensDocumentProvider,
        CodecError,
    > {
        match json {
            JsonValue::Object(members) => match optional::<bool>(members, "edits"@) {
                Ok(edits) => Ok(SemanticTokensDocumentProvider::Edits { edits }),
                Err(error) => Err(error),
            },
            _ => Err(CodecError::UnexpectedType),
        }
    }

    /// Reads a provider from an object with an optional `edits` member.
    pub fn deserialize_edits(json: &Json) -> (result: Result<
        SemanticTokensDocumentProvider,
        CodecError,
    >)
        ensures
            outcome(result) == Self::decode_edits(json.deep_view()),
    {
        match json {
            Json::Object(members) => {
                proof {
                    lemma_object_view(*members);
                }
                match get_optional::<bool>(members, "edits") {
                    Ok(edits) => Ok(SemanticTokensDocumentProvider::Edits { edits }),
                    Err(error) => Err(error),
                }
            },
            _ => Err(CodecError::UnexpectedType),
        }
    }
}

impl Codec for SemanticTokensDocumentProvider {
    open spec fn encode(value: SemanticTokensDocumentProvider) -> JsonValue {
        match value {
            SemanticTokensDocumentProvider::Bool(value) => bool::encode(value),
            SemanticTokensDocumentProvider::Edits { edits } => JsonValue::Object(
                Seq::empty() + optional_field::<bool>("edits"@, edits),
            ),
        }
    }

    open spec fn decode(json: JsonValue) -> Result<SemanticTokensDocumentProvider, CodecError> {
        if let Ok(value) = bool::decode(json) {
            Ok(SemanticTokensDocumentProvider::Bool(value))
        } else if let Ok(value) = Self::decode_edits(json) {
            Ok(value)
        } else {
            Err(CodecError::NoVariantMatched)
        }
    }

    fn serialize(&self) -> (json: Json) {
        match self {
            SemanticTokensDocumentProvider::Bool(value) => value.serialize(),
            SemanticTokensDocumentProvider::Edits { edits } => {
                let mut members: Vec<(String, Json)> = Vec::new();
                proof {
                    assert(members.deep_view() =~= Seq::empty());
                }
                put_optional(&mut members, "edits", edits);
                proof {
                    lemma_object_view(members);
                }
                Json::Object(members)
            },
        }
    }

    fn deserialize(json: &Json) -> (result: Result<SemanticTokensDocumentProvider, CodecError>) {
        if let Ok(value) = bool::deserialize(json) {
            Ok(SemanticTokensDocumentProvider::Bool(value))
        } else if let Ok(value) = Self::deserialize_edits(json) {
            Ok(value)
        } else {
            Err(CodecError::NoVariantMatched)
        }
    }
}

} // verus!
