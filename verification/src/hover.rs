//! What is shown for the position under the mouse.

use crate::basic::{
    DocumentFilter, MarkupContent, MarkupContentModel, NumberOrString, Position, Range,
    TextDocumentIdentifier, TextDocumentPositionParams, TextDocumentPositionParamsModel,
};
use crate::codec::{
    Codec, CodecError, field, get, get_optional, group_lookup, lemma_sequence_round_trip, Member,
    optional, optional_field, put, put_optional, Record, required, survives,
};
use crate::json::{Json, JsonValue};
use crate::progress::{WorkDoneProgressOptions, WorkDoneProgressParams, WorkDoneProgressParamsModel};
use crate::registration::{TextDocumentRegistrationOptions, TextDocumentRegistrationOptionsModel};
use vstd::prelude::*;

verus! {

/// Hover options.
#[derive(Debug, PartialEq, Eq, Structural, Clone, Default)]
pub struct HoverOptions {
    /// Its members are written among those of this value.
    pub work_done_progress_options: WorkDoneProgressOptions,
}

impl DeepView for HoverOptions {
    type V = HoverOptions;

    open spec fn deep_view(&self) -> HoverOptions {
        HoverOptions {
            work_done_progress_options: self.work_done_progress_options.deep_view(),
        }
    }
}

impl Record for HoverOptions {
    open spec fn members(before: Seq<Member>, value: HoverOptions) -> Seq<Member> {
        WorkDoneProgressOptions::members(before, value.work_done_progress_options)
    }

    open spec fn read(members: Seq<Member>) -> Result<HoverOptions, CodecError> {
        let work_done_progress_options = WorkDoneProgressOptions::read(members);
        if work_done_progress_options is Err {
            Err(work_done_progress_options->Err_0)
        } else {
            Ok(
                HoverOptions {
                    work_done_progress_options: work_done_progress_options->Ok_0,
                },
            )
        }
    }

    fn write(&self, members: &mut Vec<(String, Json)>) {
        self.work_done_progress_options.write(members);
    }

    fn scan(members: &Vec<(String, Json)>) -> (result: Result<HoverOptions, CodecError>) {
        let work_done_progress_options = WorkDoneProgressOptions::scan(members);
        if let Err(error) = work_done_progress_options {
            Err(error)
        } else {
            Ok(
                HoverOptions {
                    work_done_progress_options: work_done_progress_options.unwrap(),
                },
            )
        }
    }
}

impl HoverOptions {
    /// Every value comes back unchanged from the document that stands for it.
    pub proof fn lemma_survives(value: HoverOptions)
        ensures
            survives::<HoverOptions>(value),
    {
        broadcast use group_lookup;

        reveal(optional);
        reveal_strlit("workDoneProgress");
    }
}

#[derive(Debug, PartialEq, Eq, Clone, Default)]
pub struct HoverRegistrationOptions {
    /// Its members are written among those of this value.
    pub text_document_registration_options: TextDocumentRegistrationOptions,
    /// Its members are written among those of this value.
    pub hover_options: HoverOptions,
}

/// What a [`HoverRegistrationOptions`] stands for.
pub struct HoverRegistrationOptionsModel {
    pub text_document_registration_options: TextDocumentRegistrationOptionsModel,
    pub hover_options: HoverOptions,
}

impl DeepView for HoverRegistrationOptions {
    type V = HoverRegistrationOptionsModel;

    open spec fn deep_view(&self) -> HoverRegistrationOptionsModel {
        HoverRegistrationOptionsModel {
            text_document_registration_options: self.text_document_registration_options.deep_view(),
            hover_options: self.hover_options.deep_view(),
        }
    }
}

impl Record for HoverRegistrationOptions {
    open spec fn members(before: Seq<Member>, value: HoverRegistrationOptionsModel) -> Seq<Member> {
        HoverOptions::members(
            TextDocumentRegistrationOptions::members(
                before,
                value.text_document_registration_options,
            ),
            value.hover_options,
        )
    }

    open spec fn read(members: Seq<Member>) -> Result<HoverRegistrationOptionsModel, CodecError> {
        let text_document_registration_options = TextDocumentRegistrationOptions::read(members);
        let hover_options = HoverOptions::read(members);
        if text_document_registration_options is Err {
            Err(text_document_registration_options->Err_0)
        } else if hover_options is Err {
            Err(hover_options->Err_0)
        } else {
            Ok(
                HoverRegistrationOptionsModel {
                    text_document_registration_options: text_document_registration_options->Ok_0,
                    hover_options: hover_options->Ok_0,
                },
            )
        }
    }

    fn write(&self, members: &mut Vec<(String, Json)>) {
        self.text_document_registration_options.write(members);
        self.hover_options.write(members);
    }

    fn scan(members: &Vec<(String, Json)>) -> (result: Result<HoverRegistrationOptions, CodecError>) {
        let text_document_registration_options = TextDocumentRegistrationOptions::scan(members);
        let hover_options = HoverOptions::scan(members);
        if let Err(error) = text_document_registration_options {
            Err(error)
        } else if let Err(error) = hover_options {
            Err(error)
        } else {
            Ok(
                HoverRegistrationOptions {
                    text_document_registration_options: text_document_registration_options.unwrap(),
                    hover_options: hover_options.unwrap(),
                },
            )
        }
    }
}

impl HoverRegistrationOptions {
    /// Every value comes back unchanged from the document that stands for it.
    pub proof fn lemma_survives(value: HoverRegistrationOptionsModel)
        ensures
            survives::<HoverRegistrationOptions>(value),
    {
        broadcast use group_lookup;

        reveal(optional);
        reveal_strlit("documentSelector");
        reveal_strlit("workDoneProgress");
        if let Some(inner) = value.text_document_registration_options.document_selector {
            assert forall|i: int| 0 <= i < inner.len() implies survives::<DocumentFilter>(
                #[trigger] inner[i],
            ) by {
                DocumentFilter::lemma_survives(inner[i]);
            }
            lemma_sequence_round_trip::<DocumentFilter>(inner);
        }
    }
}

#[derive(Debug, PartialEq, Eq, Clone)]
pub struct HoverParams {
    /// Its members are written among those of this value.
    pub text_document_position_params: TextDocumentPositionParams,
    /// Its members are written among those of this value.
    pub work_done_progress_params: WorkDoneProgressParams,
}

/// What a [`HoverParams`] stands for.
pub struct HoverParamsModel {
    pub text_document_position_params: TextDocumentPositionParamsModel,
    pub work_done_progress_params: WorkDoneProgressParamsModel,
}

impl DeepView for HoverParams {
    type V = HoverParamsModel;

    open spec fn deep_view(&self) -> HoverParamsModel {
        HoverParamsModel {
            text_document_position_params: self.text_document_position_params.deep_view(),
            work_done_progress_params: self.work_done_progress_params.deep_view(),
        }
    }
}

impl Record for HoverParams {
    open spec fn members(before: Seq<Member>, value: HoverParamsModel) -> Seq<Member> {
        WorkDoneProgressParams::members(
            TextDocumentPositionParams::members(before, value.text_document_position_params),
            value.work_done_progress_params,
        )
    }

    open spec fn read(members: Seq<Member>) -> Result<HoverParamsModel, CodecError> {
        let text_document_position_params = TextDocumentPositionParams::read(members);
        let work_done_progress_params = WorkDoneProgressParams::read(members);
        if text_document_position_params is Err {
            Err(text_document_position_params->Err_0)
        } else if work_done_progress_params is Err {
            Err(work_done_progress_params->Err_0)
        } else {
            Ok(
                HoverParamsModel {
                    text_document_position_params: text_document_position_params->Ok_0,
                    work_done_progress_params: work_done_progress_params->Ok_0,
                },
            )
        }
    }

    fn write(&self, members: &mut Vec<(String, Json)>) {
        self.text_document_position_params.write(members);
        self.work_done_progress_params.write(members);
    }

    fn scan(members: &Vec<(String, Json)>) -> (result: Result<HoverParams, CodecError>) {
        let text_document_position_params = TextDocumentPositionParams::scan(members);
        let work_done_progress_params = WorkDoneProgressParams::scan(members);
        if let Err(error) = text_document_position_params {
            Err(error)
        } else if let Err(error) = work_done_progress_params {
            Err(error)
        } else {
            Ok(
                HoverParams {
                    text_document_position_params: text_document_position_params.unwrap(),
                    work_done_progress_params: work_done_progress_params.unwrap(),
                },
            )
        }
    }
}

impl HoverParams {
    /// A value comes back unchanged from the document that stands for it
    /// where its fields meet what is asked of them here.
    pub proof fn lemma_round_trip(value: HoverParamsModel)
        requires
            survives::<TextDocumentIdentifier>(value.text_document_position_params.text_document),
        ensures
            survives::<HoverParams>(value),
    {
        broadcast use group_lookup;

        reveal(required);
        reveal(optional);
        reveal_strlit("textDocument");
        reveal_strlit("position");
        reveal_strlit("workDoneToken");
        Position::lemma_survives(value.text_document_position_params.position);
        if let Some(inner) = value.work_done_progress_params.work_done_token {
            NumberOrString::lemma_survives(inner);
        }
    }
}

/// The result of a hover request.
#[derive(Debug, PartialEq, Eq, Clone)]
pub struct Hover {
    /// The hover's content
    pub contents: HoverContents,
    /// An optional range is a range inside a text document
    /// that is used to visualize a hover, e.g. by changing the background color.
    pub range: Option<Range>,
}

/// What a [`Hover`] stands for.
pub struct HoverModel {
    pub contents: HoverContentsModel,
    pub range: Option<Range>,
}

impl DeepView for Hover {
    type V = HoverModel;

    open spec fn deep_view(&self) -> HoverModel {
        HoverModel {
            contents: self.contents.deep_view(),
            range: self.range.deep_view(),
        }
    }
}

impl Record for Hover {
    open spec fn members(before: Seq<Member>, value: HoverModel) -> Seq<Member> {
        before + field::<HoverContents>("contents"@, value.contents)
            + optional_field::<Range>("range"@, value.range)
    }

    open spec fn read(members: Seq<Member>) -> Result<HoverModel, CodecError> {
        let contents = required::<HoverContents>(members, "contents"@);
        let range = optional::<Range>(members, "range"@);
        if contents is Err {
            Err(contents->Err_0)
        } else if range is Err {
            Err(range->Err_0)
        } else {
            Ok(
                HoverModel {
                    contents: contents->Ok_0,
                    range: range->Ok_0,
                },
            )
        }
    }

    fn write(&self, members: &mut Vec<(String, Json)>) {
        put(members, "contents", &self.contents);
        put_optional(members, "range", &self.range);
    }

    fn scan(members: &Vec<(String, Json)>) -> (result: Result<Hover, CodecError>) {
        let contents = get::<HoverContents>(members, "contents");
        let range = get_optional::<Range>(members, "range");
        if let Err(error) = contents {
            Err(error)
        } else if let Err(error) = range {
            Err(error)
        } else {
            Ok(
                Hover {
                    contents: contents.unwrap(),
                    range: range.unwrap(),
                },
            )
        }
    }
}

impl Hover {
    /// Every value comes back unchanged from the document that stands for it.
    pub proof fn lemma_survives(value: HoverModel)
        ensures
            survives::<Hover>(value),
    {
        broadcast use group_lookup;

        reveal(required);
        reveal(optional);
        reveal_strlit("contents");
        reveal_strlit("range");
        HoverContents::lemma_survives(value.contents);
        if let Some(inner) = value.range {
            Range::lemma_survives(inner);
        }
    }
}

/// Hover contents could be single entry or multiple entries.
#[derive(Debug, PartialEq, Eq, Clone)]
pub enum HoverContents {
    Scalar(MarkedString),
    Array(Vec<MarkedString>),
    Markup(MarkupContent),
}

/// What a [`HoverContents`] stands for.
pub enum HoverContentsModel {
    Scalar(MarkedStringModel),
    Array(Seq<MarkedStringModel>),
    Markup(MarkupContentModel),
}

impl DeepView for HoverContents {
    type V = HoverContentsModel;

    open spec fn deep_view(&self) -> HoverContentsModel {
        match self {
            HoverContents::Scalar(value) => HoverContentsModel::Scalar(value.deep_view()),
            HoverContents::Array(value) => HoverContentsModel::Array(value.deep_view()),
            HoverContents::Markup(value) => HoverContentsModel::Markup(value.deep_view()),
        }
    }
}

impl Codec for HoverContents {
    open spec fn encode(value: HoverContentsModel) -> JsonValue {
        match value {
            HoverContentsModel::Scalar(value) => MarkedString::encode(value),
            HoverContentsModel::Array(value) => Vec::<MarkedString>::encode(value),
            HoverContentsModel::Markup(value) => MarkupContent::encode(value),
        }
    }

    open spec fn decode(json: JsonValue) -> Result<HoverContentsModel, CodecError> {
        if let Ok(value) = MarkedString::decode(json) {
            Ok(HoverContentsModel::Scalar(value))
        } else if let Ok(value) = Vec::<MarkedString>::decode(json) {
            Ok(HoverContentsModel::Array(value))
        } else if let Ok(value) = MarkupContent::decode(json) {
            Ok(HoverContentsModel::Markup(value))
        } else {
            Err(CodecError::NoVariantMatched)
        }
    }

    fn serialize(&self) -> (json: Json) {
        match self {
            HoverContents::Scalar(value) => value.serialize(),
            HoverContents::Array(value) => value.serialize(),
            HoverContents::Markup(value) => value.serialize(),
        }
    }

    fn deserialize(json: &Json) -> (result: Result<HoverContents, CodecError>) {
        if let Ok(value) = MarkedString::deserialize(json) {
            Ok(HoverContents::Scalar(value))
        } else if let Ok(value) = Vec::<MarkedString>::deserialize(json) {
            Ok(HoverContents::Array(value))
        } else if let Ok(value) = MarkupContent::deserialize(json) {
            Ok(HoverContents::Markup(value))
        } else {
            Err(CodecError::NoVariantMatched)
        }
    }
}

impl HoverContents {
    /// A value comes back unchanged from its document exactly when its
    /// payload does and no variant declared before its own reads the
    /// payload's document.
    pub proof fn lemma_round_trip(value: HoverContentsModel)
        ensures
            survives::<HoverContents>(value) <==> match value {
                HoverContentsModel::Scalar(v) => survives::<MarkedString>(v),
                HoverContentsModel::Array(v) => MarkedString::decode(Vec::<MarkedString>::encode(v)) is Err
                    && survives::<Vec<MarkedString>>(v),
                HoverContentsModel::Markup(v) => MarkedString::decode(MarkupContent::encode(v)) is Err
                    && Vec::<MarkedString>::decode(MarkupContent::encode(v)) is Err
                    && survives::<MarkupContent>(v),
            },
    {
    }

    /// Every value comes back unchanged from the document that stands for it.
    pub proof fn lemma_survives(value: HoverContentsModel)
        ensures
            survives::<HoverContents>(value),
    {
        broadcast use group_lookup;

        reveal(required);
        reveal(optional);
        reveal_strlit("language");
        reveal_strlit("value");
        reveal_strlit("kind");
        match value {
            HoverContentsModel::Scalar(v) => {
                MarkedString::lemma_survives(v);
            },
            HoverContentsModel::Array(v) => {
                assert forall|i: int| 0 <= i < v.len() implies survives::<MarkedString>(
                    #[trigger] v[i],
                ) by {
                    MarkedString::lemma_survives(v[i]);
                }
                lemma_sequence_round_trip::<MarkedString>(v);
            },
            HoverContentsModel::Markup(v) => {
                MarkupContent::lemma_survives(v);
            },
        }
    }
}

/// The marked string is rendered:
/// - as markdown if it is represented as a string
/// - as code block of the given langauge if it is represented as a pair of a language and a value
///
/// The pair of a language and a value is an equivalent to markdown:
///     ```${language}
///     ${value}
///     ```
#[derive(Debug, PartialEq, Eq, Clone)]
pub enum MarkedString {
    String(String),
    LanguageString(LanguageString),
}

/// What a [`MarkedString`] stands for.
pub enum MarkedStringModel {
    String(Seq<char>),
    LanguageString(LanguageStringModel),
}

impl DeepView for MarkedString {
    type V = MarkedStringModel;

    open spec fn deep_view(&self) -> MarkedStringModel {
        match self {
            MarkedString::String(value) => MarkedStringModel::String(value.deep_view()),
            MarkedString::LanguageString(value) => MarkedStringModel::LanguageString(value.deep_view()),
        }
    }
}

impl Codec for MarkedString {
    open spec fn encode(value: MarkedStringModel) -> JsonValue {
        match value {
            MarkedStringModel::String(value) => String::encode(value),
            MarkedStringModel::LanguageString(value) => LanguageString::encode(value),
        }
    }

    open spec fn decode(json: JsonValue) -> Result<MarkedStringModel, CodecError> {
        if let Ok(value) = String::decode(json) {
            Ok(MarkedStringModel::String(value))
        } else if let Ok(value) = LanguageString::decode(json) {
            Ok(MarkedStringModel::LanguageString(value))
        } else {
            Err(CodecError::NoVariantMatched)
        }
    }

    fn serialize(&self) -> (json: Json) {
        match self {
            MarkedString::String(value) => value.serialize(),
            MarkedString::LanguageString(value) => value.serialize(),
        }
    }

    fn deserialize(json: &Json) -> (result: Result<MarkedString, CodecError>) {
        if let Ok(value) = String::deserialize(json) {
            Ok(MarkedString::String(value))
        } else if let Ok(value) = LanguageString::deserialize(json) {
            Ok(MarkedString::LanguageString(value))
        } else {
            Err(CodecError::NoVariantMatched)
        }
    }
}

impl MarkedString {
    /// A marked string that is rendered as markdown.
    pub fn from_markdown(markdown: String) -> (result: MarkedString)
        ensures
            result == MarkedString::String(markdown),
    {
        MarkedString::String(markdown)
    }

    /// A marked string that is rendered as a code block of the given language.
    pub fn from_language_code(language: String, code_block: String) -> (result: MarkedString)
        ensures
            result == MarkedString::LanguageString(LanguageString { language, value: code_block }),
    {
        MarkedString::LanguageString(LanguageString { language, value: code_block })
    }

    /// A value comes back unchanged from its document exactly when its
    /// payload does and no variant declared before its own reads the
    /// payload's document.
    pub proof fn lemma_round_trip(value: MarkedStringModel)
        ensures
            survives::<MarkedString>(value) <==> match value {
                MarkedStringModel::String(v) => survives::<String>(v),
                MarkedStringModel::LanguageString(v) => String::decode(LanguageString::encode(v)) is Err
                    && survives::<LanguageString>(v),
            },
    {
    }

    /// Every value comes back unchanged from the document that stands for it.
    pub proof fn lemma_survives(value: MarkedStringModel)
        ensures
            survives::<MarkedString>(value),
    {
        broadcast use group_lookup;

        reveal(required);
        reveal(optional);
        reveal_strlit("language");
        reveal_strlit("value");
        match value {
            MarkedStringModel::String(_) => {},
            MarkedStringModel::LanguageString(v) => {
                LanguageString::lemma_survives(v);
            },
        }
    }
}

#[derive(Debug, PartialEq, Eq, Clone)]
pub struct LanguageString {
    pub language: String,
    pub value: String,
}

/// What a [`LanguageString`] stands for.
pub struct LanguageStringModel {
    pub language: Seq<char>,
    pub value: Seq<char>,
}

impl DeepView for LanguageString {
    type V = LanguageStringModel;

    open spec fn deep_view(&self) -> LanguageStringModel {
        LanguageStringModel {
            language: self.language.deep_view(),
            value: self.value.deep_view(),
        }
    }
}

impl Record for LanguageString {
    open spec fn members(before: Seq<Member>, value: LanguageStringModel) -> Seq<Member> {
        before + field::<String>("language"@, value.language)
            + field::<String>("value"@, value.value)
    }

    open spec fn read(members: Seq<Member>) -> Result<LanguageStringModel, CodecError> {
        let language = required::<String>(members, "language"@);
        let value = required::<String>(members, "value"@);
        if language is Err {
            Err(language->Err_0)
        } else if value is Err {
            Err(value->Err_0)
        } else {
            Ok(
                LanguageStringModel {
                    language: language->Ok_0,
                    value: value->Ok_0,
                },
            )
        }
    }

    fn write(&self, members: &mut Vec<(String, Json)>) {
        put(members, "language", &self.language);
        put(members, "value", &self.value);
    }

    fn scan(members: &Vec<(String, Json)>) -> (result: Result<LanguageString, CodecError>) {
        let language = get::<String>(members, "language");
        let value = get::<String>(members, "value");
        if let Err(error) = language {
            Err(error)
        } else if let Err(error) = value {
            Err(error)
        } else {
            Ok(
                LanguageString {
                    language: language.unwrap(),
                    value: value.unwrap(),
                },
            )
        }
    }
}

impl LanguageString {
    /// Every value comes back unchanged from the document that stands for it.
    pub proof fn lemma_survives(value: LanguageStringModel)
        ensures
            survives::<LanguageString>(value),
    {
        broadcast use group_lookup;

        reveal(required);
        reveal_strlit("language");
        reveal_strlit("value");
    }
}

} // verus!
