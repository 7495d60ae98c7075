//! Renaming while typing: ranges that change together.

use crate::basic::{
    DocumentFilter, NumberOrString, Position, Range, TextDocumentIdentifier,
    TextDocumentPositionParams, TextDocumentPositionParamsModel,
};
use crate::codec::{
    Codec, CodecError, field, get, get_optional, group_lookup, lemma_sequence_round_trip, Member,
    optional, optional_field, put, put_optional, Record, required, survives,
};
use crate::json::{Json, JsonValue};
use crate::progress::{WorkDoneProgressOptions, WorkDoneProgressParams, WorkDoneProgressParamsModel};
use crate::registration::{
    StaticRegistrationOptions, StaticRegistrationOptionsModel, TextDocumentRegistrationOptions,
    TextDocumentRegistrationOptionsModel,
};
use vstd::prelude::*;

verus! {

#[derive(Debug, PartialEq, Eq, Structural, Clone, Default)]
pub struct OnTypeRenameOptions {
    /// Its members are written among those of this value.
    pub work_done_progress_options: WorkDoneProgressOptions,
}

impl DeepView for OnTypeRenameOptions {
    type V = OnTypeRenameOptions;

    open spec fn deep_view(&self) -> OnTypeRenameOptions {
        OnTypeRenameOptions {
            work_done_progress_options: self.work_done_progress_options.deep_view(),
        }
    }
}

impl Record for OnTypeRenameOptions {
    open spec fn members(before: Seq<Member>, value: OnTypeRenameOptions) -> Seq<Member> {
        WorkDoneProgressOptions::members(before, value.work_done_progress_options)
    }

    open spec fn read(members: Seq<Member>) -> Result<OnTypeRenameOptions, CodecError> {
        let work_done_progress_options = WorkDoneProgressOptions::read(members);
        if work_done_progress_options is Err {
            Err(work_done_progress_options->Err_0)
        } else {
            Ok(
                OnTypeRenameOptions {
                    work_done_progress_options: work_done_progress_options->Ok_0,
                },
            )
        }
    }

    fn write(&self, members: &mut Vec<(String, Json)>) {
        self.work_done_progress_options.write(members);
    }

    fn scan(members: &Vec<(String, Json)>) -> (result: Result<OnTypeRenameOptions, CodecError>) {
        let work_done_progress_options = WorkDoneProgressOptions::scan(members);
        if let Err(error) = work_done_progress_options {
            Err(error)
        } else {
            Ok(
                OnTypeRenameOptions {
                    work_done_progress_options: work_done_progress_options.unwrap(),
                },
            )
        }
    }
}

impl OnTypeRenameOptions {
    /// Every value comes back unchanged from the document that stands for it.
    pub proof fn lemma_survives(value: OnTypeRenameOptions)
        ensures
            survives::<OnTypeRenameOptions>(value),
    {
        broadcast use group_lookup;

        reveal(optional);
        reveal_strlit("workDoneProgress");
    }
}

#[derive(Debug, PartialEq, Eq, Clone)]
pub struct OnTypeRenameRegistrationOptions {
    /// Its members are written among those of this value.
    pub text_document_registration_options: TextDocumentRegistrationOptions,
    /// Its members are written among those of this value.
    pub on_type_rename_options: OnTypeRenameOptions,
    /// Its members are written among those of this value.
    pub static_registration_options: StaticRegistrationOptions,
}

/// What a [`OnTypeRenameRegistrationOptions`] stands for.
pub struct OnTypeRenameRegistrationOptionsModel {
    pub text_document_registration_options: TextDocumentRegistrationOptionsModel,
    pub on_type_rename_options: OnTypeRenameOptions,
    pub static_registration_options: StaticRegistrationOptionsModel,
}

impl DeepView for OnTypeRenameRegistrationOptions {
    type V = OnTypeRenameRegistrationOptionsModel;

    open spec fn deep_view(&self) -> OnTypeRenameRegistrationOptionsModel {
        OnTypeRenameRegistrationOptionsModel {
            text_document_registration_options: self.text_document_registration_options.deep_view(),
            on_type_rename_options: self.on_type_rename_options.deep_view(),
            static_registration_options: self.static_registration_options.deep_view(),
        }
    }
}

impl Record for OnTypeRenameRegistrationOptions {
    open spec fn members(before: Seq<Member>, value: OnTypeRenameRegistrationOptionsModel) -> Seq<Member> {
        StaticRegistrationOptions::members(
            OnTypeRenameOptions::members(
                TextDocumentRegistrationOptions::members(
                    before,
                    value.text_document_registration_options,
                ),
                value.on_type_rename_options,
            ),
            value.static_registration_options,
        )
    }

    open spec fn read(members: Seq<Member>) -> Result<OnTypeRenameRegistrationOptionsModel, CodecError> {
        let text_document_registration_options = TextDocumentRegistrationOptions::read(members);
        let on_type_rename_options = OnTypeRenameOptions::read(members);
        let static_registration_options = StaticRegistrationOptions::read(members);
        if text_document_registration_options is Err {
            Err(text_document_registration_options->Err_0)
        } else if on_type_rename_options is Err {
            Err(on_type_rename_options->Err_0)
        } else if static_registration_options is Err {
            Err(static_registration_options->Err_0)
        } else {
            Ok(
                OnTypeRenameRegistrationOptionsModel {
                    text_document_registration_options: text_document_registration_options->Ok_0,
                    on_type_rename_options: on_type_rename_options->Ok_0,
                    static_registration_options: static_registration_options->Ok_0,
                },
            )
        }
    }

    fn write(&self, members: &mut Vec<(String, Json)>) {
        self.text_document_registration_options.write(members);
        self.on_type_rename_options.write(members);
        self.static_registration_options.write(members);
    }

    fn scan(members: &Vec<(String, Json)>) -> (result: Result<OnTypeRenameRegistrationOptions, CodecError>) {
        let text_document_registration_options = TextDocumentRegistrationOptions::scan(members);
        let on_type_rename_options = OnTypeRenameOptions::scan(members);
        let static_registration_options = StaticRegistrationOptions::scan(members);
        if let Err(error) = text_document_registration_options {
            Err(error)
        } else if let Err(error) = on_type_rename_options {
            Err(error)
        } else if let Err(error) = static_registration_options {
            Err(error)
        } else {
            Ok(
                OnTypeRenameRegistrationOptions {
                    text_document_registration_options: text_document_registration_options.unwrap(),
                    on_type_rename_options: on_type_rename_options.unwrap(),
                    static_registration_options: static_registration_options.unwrap(),
                },
            )
        }
    }
}

impl OnTypeRenameRegistrationOptions {
    /// Every value comes back unchanged from the document that stands for it.
    pub proof fn lemma_survives(value: OnTypeRenameRegistrationOptionsModel)
        ensures
            survives::<OnTypeRenameRegistrationOptions>(value),
    {
        broadcast use group_lookup;

        reveal(optional);
        reveal_strlit("documentSelector");
        reveal_strlit("workDoneProgress");
        reveal_strlit("id");
        if let Some(inner) = value.text_document_registration_options.document_selector {
            assert forall|i: int| 0 <= i < inner.len() implies survives::<DocumentFilter>(
                #[trigger] inner[i],
            ) by {
                DocumentFilter::lemma_survives(inner[i]);
            }
            lemma_sequence_round_trip::<DocumentFilter>(inner);
        }
    }
}

#[derive(Debug, PartialEq, Eq, Clone)]
pub enum OnTypeRenameServerCapabilities {
    Options(OnTypeRenameOptions),
    RegistrationOptions(OnTypeRenameRegistrationOptions),
}

/// What a [`OnTypeRenameServerCapabilities`] stands for.
pub enum OnTypeRenameServerCapabilitiesModel {
    Options(OnTypeRenameOptions),
    RegistrationOptions(OnTypeRenameRegistrationOptionsModel),
}

impl DeepView for OnTypeRenameServerCapabilities {
    type V = OnTypeRenameServerCapabilitiesModel;

    open spec fn deep_view(&self) -> OnTypeRenameServerCapabilitiesModel {
        match self {
            OnTypeRenameServerCapabilities::Options(value) => OnTypeRenameServerCapabilitiesModel::Options(value.deep_view()),
            OnTypeRenameServerCapabilities::RegistrationOptions(value) => OnTypeRenameServerCapabilitiesModel::RegistrationOptions(value.deep_view()),
        }
    }
}

impl Codec for OnTypeRenameServerCapabilities {
    open spec fn encode(value: OnTypeRenameServerCapabilitiesModel) -> JsonValue {
        match value {
            OnTypeRenameServerCapabilitiesModel::Options(value) => OnTypeRenameOptions::encode(value),
            OnTypeRenameServerCapabilitiesModel::RegistrationOptions(value) => OnTypeRenameRegistrationOptions::encode(value),
        }
    }

    open spec fn decode(json: JsonValue) -> Result<OnTypeRenameServerCapabilitiesModel, CodecError> {
        if let Ok(value) = OnTypeRenameOptions::decode(json) {
            Ok(OnTypeRenameServerCapabilitiesModel::Options(value))
        } else if let Ok(value) = OnTypeRenameRegistrationOptions::decode(json) {
            Ok(OnTypeRenameServerCapabilitiesModel::RegistrationOptions(value))
        } else {
            Err(CodecError::NoVariantMatched)
        }
    }

    fn serialize(&self) -> (json: Json) {
        match self {
            OnTypeRenameServerCapabilities::Options(value) => value.serialize(),
            OnTypeRenameServerCapabilities::RegistrationOptions(value) => value.serialize(),
        }
    }

    fn deserialize(json: &Json) -> (result: Result<OnTypeRenameServerCapabilities, CodecError>) {
        if let Ok(value) = OnTypeRenameOptions::deserialize(json) {
            Ok(OnTypeRenameServerCapabilities::Options(value))
        } else if let Ok(value) = OnTypeRenameRegistrationOptions::deserialize(json) {
            Ok(OnTypeRenameServerCapabilities::RegistrationOptions(value))
        } else {
            Err(CodecError::NoVariantMatched)
        }
    }
}

impl OnTypeRenameServerCapabilities {
    /// A value comes back unchanged from its document exactly when its
    /// payload does and no variant declared before its own reads the
    /// payload's document.
    pub proof fn lemma_round_trip(value: OnTypeRenameServerCapabilitiesModel)
        ensures
            survives::<OnTypeRenameServerCapabilities>(value) <==> match value {
                OnTypeRenameServerCapabilitiesModel::Options(v) => survives::<OnTypeRenameOptions>(v),
                OnTypeRenameServerCapabilitiesModel::RegistrationOptions(v) => OnTypeRenameOptions::decode(OnTypeRenameRegistrationOptions::encode(v)) is Err
                    && survives::<OnTypeRenameRegistrationOptions>(v),
            },
    {
    }
}

#[derive(Debug, PartialEq, Eq, Clone)]
pub struct OnTypeRenameParams {
    /// Its members are written among those of this value.
    pub text_document_position_params: TextDocumentPositionParams,
    /// Its members are written among those of this value.
    pub work_done_progress_params: WorkDoneProgressParams,
}

/// What a [`OnTypeRenameParams`] stands for.
pub struct OnTypeRenameParamsModel {
    pub text_document_position_params: TextDocumentPositionParamsModel,
    pub work_done_progress_params: WorkDoneProgressParamsModel,
}

impl DeepView for OnTypeRenameParams {
    type V = OnTypeRenameParamsModel;

    open spec fn deep_view(&self) -> OnTypeRenameParamsModel {
        OnTypeRenameParamsModel {
            text_document_position_params: self.text_document_position_params.deep_view(),
            work_done_progress_params: self.work_done_progress_params.deep_view(),
        }
    }
}

impl Record for OnTypeRenameParams {
    open spec fn members(before: Seq<Member>, value: OnTypeRenameParamsModel) -> Seq<Member> {
        WorkDoneProgressParams::members(
            TextDocumentPositionParams::members(before, value.text_document_position_params),
            value.work_done_progress_params,
        )
    }

    open spec fn read(members: Seq<Member>) -> Result<OnTypeRenameParamsModel, CodecError> {
        let text_document_position_params = TextDocumentPositionParams::read(members);
        let work_done_progress_params = WorkDoneProgressParams::read(members);
        if text_document_position_params is Err {
            Err(text_document_position_params->Err_0)
        } else if work_done_progress_params is Err {
            Err(work_done_progress_params->Err_0)
        } else {
            Ok(
                OnTypeRenameParamsModel {
                    text_document_position_params: text_document_position_params->Ok_0,
                    work_done_progress_params: work_done_progress_params->Ok_0,
                },
            )
        }
    }

    fn write(&self, members: &mut Vec<(String, Json)>) {
        self.text_document_position_params.write(members);
        self.work_done_progress_params.write(members);
    }

    fn scan(members: &Vec<(String, Json)>) -> (result: Result<OnTypeRenameParams, CodecError>) {
        let text_document_position_params = TextDocumentPositionParams::scan(members);
        let work_done_progress_params = WorkDoneProgressParams::scan(members);
        if let Err(error) = text_document_position_params {
            Err(error)
        } else if let Err(error) = work_done_progress_params {
            Err(error)
        } else {
            Ok(
                OnTypeRenameParams {
                    text_document_position_params: text_document_position_params.unwrap(),
                    work_done_progress_params: work_done_progress_params.unwrap(),
                },
            )
        }
    }
}

impl OnTypeRenameParams {
    /// A value comes back unchanged from the document that stands for it
    /// where its fields meet what is asked of them here.
    pub proof fn lemma_round_trip(value: OnTypeRenameParamsModel)
        requires
            survives::<TextDocumentIdentifier>(value.text_document_position_params.text_document),
        ensures
            survives::<OnTypeRenameParams>(value),
    {
        broadcast use group_lookup;

        reveal(required);
        reveal(optional);
        reveal_strlit("textDocument");
        reveal_strlit("position");
        reveal_strlit("workDoneToken");
        Position::lemma_survives(value.text_document_position_params.position);
        if let Some(inner) = value.work_done_progress_params.work_done_token {
            NumberOrString::lemma_survives(inner);
        }
    }
}

#[derive(Debug, PartialEq, Eq, Clone)]
pub struct OnTypeRenameRanges {
    /// A list of ranges that can be renamed together. The ranges must have
    /// identical length and contain identical text content. The ranges cannot overlap.
    pub ranges: Vec<Range>,
    /// An optional word pattern (regular expression) that describes valid contents for
    /// the given ranges. If no pattern is provided, the client configuration's word
    /// pattern will be used.
    pub word_pattern: Option<String>,
}

/// What a [`OnTypeRenameRanges`] stands for.
pub struct OnTypeRenameRangesModel {
    pub ranges: Seq<Range>,
    pub word_pattern: Option<Seq<char>>,
}

impl DeepView for OnTypeRenameRanges {
    type V = OnTypeRenameRangesModel;

    open spec fn deep_view(&self) -> OnTypeRenameRangesModel {
        OnTypeRenameRangesModel {
            ranges: self.ranges.deep_view(),
            word_pattern: self.word_pattern.deep_view(),
        }
    }
}

impl Record for OnTypeRenameRanges {
    open spec fn members(before: Seq<Member>, value: OnTypeRenameRangesModel) -> Seq<Member> {
        before + field::<Vec<Range>>("ranges"@, value.ranges)
            + optional_field::<String>("wordPattern"@, value.word_pattern)
    }

    open spec fn read(members: Seq<Member>) -> Result<OnTypeRenameRangesModel, CodecError> {
        let ranges = required::<Vec<Range>>(members, "ranges"@);
        let word_pattern = optional::<String>(members, "wordPattern"@);
        if ranges is Err {
            Err(ranges->Err_0)
        } else if word_pattern is Err {
            Err(word_pattern->Err_0)
        } else {
            Ok(
                OnTypeRenameRangesModel {
                    ranges: ranges->Ok_0,
                    word_pattern: word_pattern->Ok_0,
                },
            )
        }
    }

    fn write(&self, members: &mut Vec<(String, Json)>) {
        put(members, "ranges", &self.ranges);
        put_optional(members, "wordPattern", &self.word_pattern);
    }

    fn scan(members: &Vec<(String, Json)>) -> (result: Result<OnTypeRenameRanges, CodecError>) {
        let ranges = get::<Vec<Range>>(members, "ranges");
        let word_pattern = get_optional::<String>(members, "wordPattern");
        if let Err(error) = ranges {
            Err(error)
        } else if let Err(error) = word_pattern {
            Err(error)
        } else {
            Ok(
                OnTypeRenameRanges {
                    ranges: ranges.unwrap(),
                    word_pattern: word_pattern.unwrap(),
                },
            )
        }
    }
}

impl OnTypeRenameRanges {
    /// Every value comes back unchanged from the document that stands for it.
    pub proof fn lemma_survives(value: OnTypeRenameRangesModel)
        ensures
            survives::<OnTypeRenameRanges>(value),
    {
        broadcast use group_lookup;

        reveal(required);
        reveal(optional);
        reveal_strlit("ranges");
        reveal_strlit("wordPattern");
        let list = value.ranges;
        assert forall|i: int| 0 <= i < list.len() implies survives::<Range>(
            #[trigger] list[i],
        ) by {
            Range::lemma_survives(list[i]);
        }
        lemma_sequence_round_trip::<Range>(list);
    }
}

} // verus!
