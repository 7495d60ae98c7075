//! Renaming a symbol throughout a workspace.

use crate::basic::{
    NumberOrString, Position, Range, TextDocumentIdentifier, TextDocumentPositionParams,
    TextDocumentPositionParamsModel,
};
use crate::codec::{
    Codec, CodecError, field, get, get_optional, group_lookup, Member, optional, optional_field,
    put, put_optional, Record, required, survives,
};
use crate::json::{Json, JsonValue, lemma_object_view};
use crate::progress::{WorkDoneProgressOptions, WorkDoneProgressParams, WorkDoneProgressParamsModel};
use vstd::prelude::*;
use vstd::std_specs::convert::FromSpecImpl;

verus! {

#[derive(Debug, PartialEq, Eq, Clone)]
pub struct RenameParams {
    /// Text Document and Position fields
    pub text_document_position: TextDocumentPositionParams,
    /// The new name of the symbol. If the given name is not valid the
    /// request must return a [ResponseError](#ResponseError) with an
    /// appropriate message set.
    pub new_name: String,
    /// Its members are written among those of this value.
    pub work_done_progress_params: WorkDoneProgressParams,
}

/// What a [`RenameParams`] stands for.
pub struct RenameParamsModel {
    pub text_document_position: TextDocumentPositionParamsModel,
    pub new_name: Seq<char>,
    pub work_done_progress_params: WorkDoneProgressParamsModel,
}

impl DeepView for RenameParams {
    type V = RenameParamsModel;

    open spec fn deep_view(&self) -> RenameParamsModel {
        RenameParamsModel {
            text_document_position: self.text_document_position.deep_view(),
            new_name: self.new_name.deep_view(),
            work_done_progress_params: self.work_done_progress_params.deep_view(),
        }
    }
}

impl Record for RenameParams {
    open spec fn members(before: Seq<Member>, value: RenameParamsModel) -> Seq<Member> {
        WorkDoneProgressParams::members(
            TextDocumentPositionParams::members(before, value.text_document_position)
                + field::<String>("newName"@, value.new_name),
            value.work_done_progress_params,
        )
    }

    open spec fn read(members: Seq<Member>) -> Result<RenameParamsModel, CodecError> {
        let text_document_position = TextDocumentPositionParams::read(members);
        let new_name = required::<String>(members, "newName"@);
        let work_done_progress_params = WorkDoneProgressParams::read(members);
        if text_document_position is Err {
            Err(text_document_position->Err_0)
        } else if new_name is Err {
            Err(new_name->Err_0)
        } else if work_done_progress_params is Err {
            Err(work_done_progress_params->Err_0)
        } else {
            Ok(
                RenameParamsModel {
                    text_document_position: text_document_position->Ok_0,
                    new_name: new_name->Ok_0,
                    work_done_progress_params: work_done_progress_params->Ok_0,
                },
            )
        }
    }

    fn write(&self, members: &mut Vec<(String, Json)>) {
        self.text_document_position.write(members);
        put(members, "newName", &self.new_name);
        self.work_done_progress_params.write(members);
    }

    fn scan(members: &Vec<(String, Json)>) -> (result: Result<RenameParams, CodecError>) {
        let text_document_position = TextDocumentPositionParams::scan(members);
        let new_name = get::<String>(members, "newName");
        let work_done_progress_params = WorkDoneProgressParams::scan(members);
        if let Err(error) = text_document_position {
            Err(error)
        } else if let Err(error) = new_name {
            Err(error)
        } else if let Err(error) = work_done_progress_params {
            Err(error)
        } else {
            Ok(
                RenameParams {
                    text_document_position: text_document_position.unwrap(),
                    new_name: new_name.unwrap(),
                    work_done_progress_params: work_done_progress_params.unwrap(),
                },
            )
        }
    }
}

impl RenameParams {
    /// A value comes back unchanged from the document that stands for it
    /// where its fields meet what is asked of them here.
    pub proof fn lemma_round_trip(value: RenameParamsModel)
        requires
            survives::<TextDocumentIdentifier>(value.text_document_position.text_document),
        ensures
            survives::<RenameParams>(value),
    {
        broadcast use group_lookup;

        reveal(required);
        reveal(optional);
        reveal_strlit("textDocument");
        reveal_strlit("position");
        reveal_strlit("newName");
        reveal_strlit("workDoneToken");
        Position::lemma_survives(value.text_document_position.position);
        if let Some(inner) = value.work_done_progress_params.work_done_token {
            NumberOrString::lemma_survives(inner);
        }
    }
}

#[derive(Debug, PartialEq, Eq, Structural, Clone)]
pub enum RenameProviderCapability {
    Simple(bool),
    Options(RenameOptions),
}

impl DeepView for RenameProviderCapability {
    type V = RenameProviderCapability;

    open spec fn deep_view(&self) -> RenameProviderCapability {
        match self {
            RenameProviderCapability::Simple(value) => RenameProviderCapability::Simple(value.deep_view()),
            RenameProviderCapability::Options(value) => RenameProviderCapability::Options(value.deep_view()),
        }
    }
}

impl Codec for RenameProviderCapability {
    open spec fn encode(value: RenameProviderCapability) -> JsonValue {
        match value {
            RenameProviderCapability::Simple(value) => bool::encode(value),
            RenameProviderCapability::Options(value) => RenameOptions::encode(value),
        }
    }

    open spec fn decode(json: JsonValue) -> Result<RenameProviderCapability, CodecError> {
        if let Ok(value) = bool::decode(json) {
            Ok(RenameProviderCapability::Simple(value))
        } else if let Ok(value) = RenameOptions::decode(json) {
            Ok(RenameProviderCapability::Options(value))
        } else {
            Err(CodecError::NoVariantMatched)
        }
    }

    fn serialize(&self) -> (json: Json) {
        match self {
            RenameProviderCapability::Simple(value) => value.serialize(),
            RenameProviderCapability::Options(value) => value.serialize(),
        }
    }

    fn deserialize(json: &Json) -> (result: Result<RenameProviderCapability, CodecError>) {
        if let Ok(value) = bool::deserialize(json) {
            Ok(RenameProviderCapability::Simple(value))
        } else if let Ok(value) = RenameOptions::deserialize(json) {
            Ok(RenameProviderCapability::Options(value))
        } else {
            Err(CodecError::NoVariantMatched)
        }
    }
}

impl RenameProviderCapability {
    /// A value comes back unchanged from its document exactly when its
    /// payload does and no variant declared before its own reads the
    /// payload's document.
    pub proof fn lemma_round_trip(value: RenameProviderCapability)
        ensures
            survives::<RenameProviderCapability>(value) <==> match value {
                RenameProviderCapability::Simple(v) => survives::<bool>(v),
                RenameProviderCapability::Options(v) => bool::decode(RenameOptions::encode(v)) is Err
                    && survives::<RenameOptions>(v),
            },
    {
    }

    /// Every value comes back unchanged from the document that stands for it.
    pub proof fn lemma_survives(value: RenameProviderCapability)
        ensures
            survives::<RenameProviderCapability>(value),
    {
        broadcast use group_lookup;

        reveal(required);
        reveal(optional);
        reveal_strlit("prepareProvider");
        reveal_strlit("workDoneProgress");
        match value {
            RenameProviderCapability::Simple(_) => {},
            RenameProviderCapability::Options(v) => {
                RenameOptions::lemma_survives(v);
            },
        }
    }
}

impl From<RenameOptions> for RenameProviderCapability {
    fn from(from: RenameOptions) -> (result: RenameProviderCapability) {
        RenameProviderCapability::Options(from)
    }
}

impl FromSpecImpl<RenameOptions> for RenameProviderCapability {
    open spec fn obeys_from_spec() -> bool {
        true
    }

    open spec fn from_spec(from: RenameOptions) -> RenameProviderCapability {
        RenameProviderCapability::Options(from)
    }
}

impl From<bool> for RenameProviderCapability {
    fn from(from: bool) -> (result: RenameProviderCapability) {
        RenameProviderCapability::Simple(from)
    }
}

impl FromSpecImpl<bool> for RenameProviderCapability {
    open spec fn obeys_from_spec() -> bool {
        true
    }

    open spec fn from_spec(from: bool) -> RenameProviderCapability {
        RenameProviderCapability::Simple(from)
    }
}

#[derive(Debug, PartialEq, Eq, Structural, Clone)]
pub struct RenameOptions {
    /// Renames should be checked and tested before being executed.
    pub prepare_provider: Option<bool>,
    /// Its members are written among those of this value.
    pub work_done_progress_options: WorkDoneProgressOptions,
}

impl DeepView for RenameOptions {
    type V = RenameOptions;

    open spec fn deep_view(&self) -> RenameOptions {
        RenameOptions {
            prepare_provider: self.prepare_provider.deep_view(),
            work_done_progress_options: self.work_done_progress_options.deep_view(),
        }
    }
}

impl Record for RenameOptions {
    open spec fn members(before: Seq<Member>, value: RenameOptions) -> Seq<Member> {
        WorkDoneProgressOptions::members(
            before + optional_field::<bool>("prepareProvider"@, value.prepare_provider),
            value.work_done_progress_options,
        )
    }

    open spec fn read(members: Seq<Member>) -> Result<RenameOptions, CodecError> {
        let prepare_provider = optional::<bool>(members, "prepareProvider"@);
        let work_done_progress_options = WorkDoneProgressOptions::read(members);
        if prepare_provider is Err {
            Err(prepare_provider->Err_0)
        } else if work_done_progress_options is Err {
            Err(work_done_progress_options->Err_0)
        } else {
            Ok(
                RenameOptions {
                    prepare_provider: prepare_provider->Ok_0,
                    work_done_progress_options: work_done_progress_options->Ok_0,
                },
            )
        }
    }

    fn write(&self, members: &mut Vec<(String, Json)>) {
        put_optional(members, "prepareProvider", &self.prepare_provider);
        self.work_done_progress_options.write(members);
    }

    fn scan(members: &Vec<(String, Json)>) -> (result: Result<RenameOptions, CodecError>) {
        let prepare_provider = get_optional::<bool>(members, "prepareProvider");
        let work_done_progress_options = WorkDoneProgressOptions::scan(members);
        if let Err(error) = prepare_provider {
            Err(error)
        } else if let Err(error) = work_done_progress_options {
            Err(error)
        } else {
            Ok(
                RenameOptions {
                    prepare_provider: prepare_provider.unwrap(),
                    work_done_progress_options: work_done_progress_options.unwrap(),
                },
            )
        }
    }
}

impl RenameOptions {
    /// Every value comes back unchanged from the document that stands for it.
    pub proof fn lemma_survives(value: RenameOptions)
        ensures
            survives::<RenameOptions>(value),
    {
        broadcast use group_lookup;

        reveal(optional);
        reveal_strlit("prepareProvider");
        reveal_strlit("workDoneProgress");
    }
}

/// The answer to a prepare-rename request: the range of the string to rename,
/// alone or with a placeholder text for the string.
#[derive(Debug, PartialEq, Eq, Clone)]
pub enum PrepareRenameResponse {
    Range(Range),
    RangeWithPlaceholder { range: Range, placeholder: String },
}

/// What a [`PrepareRenameResponse`] stands for.
pub enum PrepareRenameResponseModel {
    Range(Range),
    RangeWithPlaceholder { range: Range, placeholder: Seq<char> },
}

impl DeepView for PrepareRenameResponse {
    type V = PrepareRenameResponseModel;

    open spec fn deep_view(&self) -> PrepareRenameResponseModel {
        match self {
            PrepareRenameResponse::Range(range) => PrepareRenameResponseModel::Range(
                range.deep_view(),
            ),
            PrepareRenameResponse::RangeWithPlaceholder { range, placeholder } => {
                PrepareRenameResponseModel::RangeWithPlaceholder {
                    range: range.deep_view(),
                    placeholder: placeholder.deep_view(),
                }
            },
        }
    }
}

impl PrepareRenameResponse {
    /// The members of a range with a placeholder.
    pub open spec fn placeholder_members(range: Range, placeholder: Seq<char>) -> Seq<Member> {
        Seq::empty() + field::<Range>("range"@, range) + field::<String>(
            "placeholder"@,
            placeholder,
        )
    }

    /// The range and placeholder that the members of an object stand for.
    pub open spec fn read_placeholder(members: Seq<Member>) -> Result<
        PrepareRenameResponseModel,
        CodecError,
    > {
        let range = required::<Range>(members, "range"@);
        let placeholder = required::<String>(members, "placeholder"@);
        if range is Err {
            Err(range->Err_0)
        } else if placeholder is Err {
            Err(placeholder->Err_0)
        } else {
            Ok(
                PrepareRenameResponseModel::RangeWithPlaceholder {
                    range: range->Ok_0,
                    placeholder: placeholder->Ok_0,
                },
            )
        }
    }

    /// The range and placeholder that a document stands for.
    pub open spec fn decode_placeholder(json: JsonValue) -> Result<
        PrepareRenameResponseModel,
        CodecError,
    > {
        match json {
            JsonValue::Object(members) => Self::read_placeholder(members),
            _ => Err(CodecError::UnexpectedType),
        }
    }

    /// Reads a range with a placeholder from an object.
    pub fn deserialize_placeholder(json: &Json) -> (result: Result<PrepareRenameResponse, CodecError>)
        ensures
            crate::codec::outcome(result) == Self::decode_placeholder(json.deep_view()),
    {
        match json {
            Json::Object(members) => {
                proof {
                    lemma_object_view(*members);
                }
                let range = get::<Range>(members, "range");
                let placeholder = get::<String>(members, "placeholder");
                if let Err(error) = range {
                    Err(error)
                } else if let Err(error) = placeholder {
                    Err(error)
                } else {
                    Ok(
                        PrepareRenameResponse::RangeWithPlaceholder {
                            range: range.unwrap(),
                            placeholder: placeholder.unwrap(),
                        },
                    )
                }
            },
            _ => Err(CodecError::UnexpectedType),
        }
    }
}

impl Codec for PrepareRenameResponse {
    open spec fn encode(value: PrepareRenameResponseModel) -> JsonValue {
        match value {
            PrepareRenameResponseModel::Range(range) => Range::encode(range),
            PrepareRenameResponseModel::RangeWithPlaceholder { range, placeholder } => {
                JsonValue::Object(Self::placeholder_members(range, placeholder))
            },
        }
    }

    open spec fn decode(json: JsonValue) -> Result<PrepareRenameResponseModel, CodecError> {
        if let Ok(range) = Range::decode(json) {
            Ok(PrepareRenameResponseModel::Range(range))
        } else if let Ok(value) = Self::decode_placeholder(json) {
            Ok(value)
        } else {
            Err(CodecError::NoVariantMatched)
        }
    }

    fn serialize(&self) -> (json: Json) {
        match self {
            PrepareRenameResponse::Range(range) => range.serialize(),
            PrepareRenameResponse::RangeWithPlaceholder { range, placeholder } => {
                let mut members: Vec<(String, Json)> = Vec::new();
                proof {
                    assert(members.deep_view() =~= Seq::empty());
                }
                put(&mut members, "range", range);
                put(&mut members, "placeholder", placeholder);
                proof {
                    lemma_object_view(members);
                }
                Json::Object(members)
            },
        }
    }

    fn deserialize(json: &Json) -> (result: Result<PrepareRenameResponse, CodecError>) {
        if let Ok(range) = Range::deserialize(json) {
            Ok(PrepareRenameResponse::Range(range))
        } else if let Ok(value) = Self::deserialize_placeholder(json) {
            Ok(value)
        } else {
            Err(CodecError::NoVariantMatched)
        }
    }
}

} // verus!
