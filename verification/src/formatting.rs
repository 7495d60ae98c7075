//! Formatting of a document, a range or while typing.

use crate::basic::{
    DocumentFilter, DocumentFilterModel, NumberOrString, Position, Range, TextDocumentIdentifier,
    TextDocumentIdentifierModel, TextDocumentPositionParams, TextDocumentPositionParamsModel,
};
use crate::codec::{
    Codec, CodecError, field, get, get_optional, group_lookup, lemma_sequence_round_trip, Member,
    nullable_field, optional, optional_field, outcome, put, put_nullable, put_optional, Record,
    required, survives,
};
use crate::json::{Json, JsonValue, Number};
use crate::progress::{WorkDoneProgressParams, WorkDoneProgressParamsModel};
use vstd::prelude::*;

verus! {

#[derive(Debug, PartialEq, Clone)]
pub struct DocumentFormattingParams {
    /// The document to format.
    pub text_document: TextDocumentIdentifier,
    /// The format options.
    pub options: FormattingOptions,
    /// Its members are written among those of this value.
    pub work_done_progress_params: WorkDoneProgressParams,
}

/// What a [`DocumentFormattingParams`] stands for.
pub struct DocumentFormattingParamsModel {
    pub text_document: TextDocumentIdentifierModel,
    pub options: FormattingOptionsModel,
    pub work_done_progress_params: WorkDoneProgressParamsModel,
}

impl DeepView for DocumentFormattingParams {
    type V = DocumentFormattingParamsModel;

    open spec fn deep_view(&self) -> DocumentFormattingParamsModel {
        DocumentFormattingParamsModel {
            text_document: self.text_document.deep_view(),
            options: self.options.deep_view(),
            work_done_progress_params: self.work_done_progress_params.deep_view(),
        }
    }
}

impl Record for DocumentFormattingParams {
    open spec fn members(before: Seq<Member>, value: DocumentFormattingParamsModel) -> Seq<Member> {
        WorkDoneProgressParams::members(
            before + field::<TextDocumentIdentifier>("textDocument"@, value.text_document)
                + field::<FormattingOptions>("options"@, value.options),
            value.work_done_progress_params,
        )
    }

    open spec fn read(members: Seq<Member>) -> Result<DocumentFormattingParamsModel, CodecError> {
        let text_document = required::<TextDocumentIdentifier>(members, "textDocument"@);
        let options = required::<FormattingOptions>(members, "options"@);
        let work_done_progress_params = WorkDoneProgressParams::read(members);
        if text_document is Err {
            Err(text_document->Err_0)
        } else if options is Err {
            Err(options->Err_0)
        } else if work_done_progress_params is Err {
            Err(work_done_progress_params->Err_0)
        } else {
            Ok(
                DocumentFormattingParamsModel {
                    text_document: text_document->Ok_0,
                    options: options->Ok_0,
                    work_done_progress_params: work_done_progress_params->Ok_0,
                },
            )
        }
    }

    fn write(&self, members: &mut Vec<(String, Json)>) {
        put(members, "textDocument", &self.text_document);
        put(members, "options", &self.options);
        self.work_done_progress_params.write(members);
    }

    fn scan(members: &Vec<(String, Json)>) -> (result: Result<DocumentFormattingParams, CodecError>) {
        let text_document = get::<TextDocumentIdentifier>(members, "textDocument");
        let options = get::<FormattingOptions>(members, "options");
        let work_done_progress_params = WorkDoneProgressParams::scan(members);
        if let Err(error) = text_document {
            Err(error)
        } else if let Err(error) = options {
            Err(error)
        } else if let Err(error) = work_done_progress_params {
            Err(error)
        } else {
            Ok(
                DocumentFormattingParams {
                    text_document: text_document.unwrap(),
                    options: options.unwrap(),
                    work_done_progress_params: work_done_progress_params.unwrap(),
                },
            )
        }
    }
}

impl DocumentFormattingParams {
    /// A value comes back unchanged from the document that stands for it
    /// where its fields meet what is asked of them here.
    pub proof fn lemma_round_trip(value: DocumentFormattingParamsModel)
        requires
            survives::<TextDocumentIdentifier>(value.text_document),
            survives::<FormattingOptions>(value.options),
        ensures
            survives::<DocumentFormattingParams>(value),
    {
        broadcast use group_lookup;

        reveal(required);
        reveal(optional);
        reveal_strlit("textDocument");
        reveal_strlit("options");
        reveal_strlit("workDoneToken");
        if let Some(inner) = value.work_done_progress_params.work_done_token {
            NumberOrString::lemma_survives(inner);
        }
    }
}

/// Value-object describing what options formatting should use.
#[derive(Debug, PartialEq, Clone, Default)]
pub struct FormattingOptions {
    /// Size of a tab in spaces.
    pub tab_size: u64,
    /// Prefer spaces over tabs.
    pub insert_spaces: bool,
    /// Signature for further properties.
    pub properties: Vec<(String, FormattingProperty)>,
    /// Trim trailing whitespaces on a line.
    pub trim_trailing_whitespace: Option<bool>,
    /// Insert a newline character at the end of the file if one does not exist.
    pub insert_final_newline: Option<bool>,
    /// Trim all newlines after the final newline at the end of the file.
    pub trim_final_newlines: Option<bool>,
}

/// What a [`FormattingOptions`] stands for.
pub struct FormattingOptionsModel {
    pub tab_size: u64,
    pub insert_spaces: bool,
    pub properties: Seq<(Seq<char>, FormattingPropertyModel)>,
    pub trim_trailing_whitespace: Option<bool>,
    pub insert_final_newline: Option<bool>,
    pub trim_final_newlines: Option<bool>,
}

impl DeepView for FormattingOptions {
    type V = FormattingOptionsModel;

    open spec fn deep_view(&self) -> FormattingOptionsModel {
        FormattingOptionsModel {
            tab_size: self.tab_size.deep_view(),
            insert_spaces: self.insert_spaces.deep_view(),
            properties: self.properties.deep_view(),
            trim_trailing_whitespace: self.trim_trailing_whitespace.deep_view(),
            insert_final_newline: self.insert_final_newline.deep_view(),
            trim_final_newlines: self.trim_final_newlines.deep_view(),
        }
    }
}

impl Record for FormattingOptions {
    open spec fn members(before: Seq<Member>, value: FormattingOptionsModel) -> Seq<Member> {
        before + field::<u64>("tabSize"@, value.tab_size)
            + field::<bool>("insertSpaces"@, value.insert_spaces)
            + property_members(value.properties)
            + optional_field::<bool>("trimTrailingWhitespace"@, value.trim_trailing_whitespace)
            + optional_field::<bool>("insertFinalNewline"@, value.insert_final_newline)
            + optional_field::<bool>("trimFinalNewlines"@, value.trim_final_newlines)
    }

    open spec fn read(members: Seq<Member>) -> Result<FormattingOptionsModel, CodecError> {
        let tab_size = required::<u64>(members, "tabSize"@);
        let insert_spaces = required::<bool>(members, "insertSpaces"@);
        let properties = properties_of(members);
        let trim_trailing_whitespace = optional::<bool>(members, "trimTrailingWhitespace"@);
        let insert_final_newline = optional::<bool>(members, "insertFinalNewline"@);
        let trim_final_newlines = optional::<bool>(members, "trimFinalNewlines"@);
        if tab_size is Err {
            Err(tab_size->Err_0)
        } else if insert_spaces is Err {
            Err(insert_spaces->Err_0)
        } else if properties is Err {
            Err(properties->Err_0)
        } else if trim_trailing_whitespace is Err {
            Err(trim_trailing_whitespace->Err_0)
        } else if insert_final_newline is Err {
            Err(insert_final_newline->Err_0)
        } else if trim_final_newlines is Err {
            Err(trim_final_newlines->Err_0)
        } else {
            Ok(
                FormattingOptionsModel {
                    tab_size: tab_size->Ok_0,
                    insert_spaces: insert_spaces->Ok_0,
                    properties: properties->Ok_0,
                    trim_trailing_whitespace: trim_trailing_whitespace->Ok_0,
                    insert_final_newline: insert_final_newline->Ok_0,
                    trim_final_newlines: trim_final_newlines->Ok_0,
                },
            )
        }
    }

    fn write(&self, members: &mut Vec<(String, Json)>) {
        put(members, "tabSize", &self.tab_size);
        put(members, "insertSpaces", &self.insert_spaces);
        put_properties(members, &self.properties);
        put_optional(members, "trimTrailingWhitespace", &self.trim_trailing_whitespace);
        put_optional(members, "insertFinalNewline", &self.insert_final_newline);
        put_optional(members, "trimFinalNewlines", &self.trim_final_newlines);
    }

    fn scan(members: &Vec<(String, Json)>) -> (result: Result<FormattingOptions, CodecError>) {
        let tab_size = get::<u64>(members, "tabSize");
        let insert_spaces = get::<bool>(members, "insertSpaces");
        let properties = get_properties(members);
        let trim_trailing_whitespace = get_optional::<bool>(members, "trimTrailingWhitespace");
        let insert_final_newline = get_optional::<bool>(members, "insertFinalNewline");
        let trim_final_newlines = get_optional::<bool>(members, "trimFinalNewlines");
        if let Err(error) = tab_size {
            Err(error)
        } else if let Err(error) = insert_spaces {
            Err(error)
        } else if let Err(error) = properties {
            Err(error)
        } else if let Err(error) = trim_trailing_whitespace {
            Err(error)
        } else if let Err(error) = insert_final_newline {
            Err(error)
        } else if let Err(error) = trim_final_newlines {
            Err(error)
        } else {
            Ok(
                FormattingOptions {
                    tab_size: tab_size.unwrap(),
                    insert_spaces: insert_spaces.unwrap(),
                    properties: properties.unwrap(),
                    trim_trailing_whitespace: trim_trailing_whitespace.unwrap(),
                    insert_final_newline: insert_final_newline.unwrap(),
                    trim_final_newlines: trim_final_newlines.unwrap(),
                },
            )
        }
    }
}

#[derive(Debug, PartialEq, Clone)]
pub enum FormattingProperty {
    Bool(bool),
    Number(Number),
    String(String),
}

/// What a [`FormattingProperty`] stands for.
pub enum FormattingPropertyModel {
    Bool(bool),
    Number(Number),
    String(Seq<char>),
}

impl DeepView for FormattingProperty {
    type V = FormattingPropertyModel;

    open spec fn deep_view(&self) -> FormattingPropertyModel {
        match self {
            FormattingProperty::Bool(value) => FormattingPropertyModel::Bool(value.deep_view()),
            FormattingProperty::Number(value) => FormattingPropertyModel::Number(value.deep_view()),
            FormattingProperty::String(value) => FormattingPropertyModel::String(value.deep_view()),
        }
    }
}

impl Codec for FormattingProperty {
    open spec fn encode(value: FormattingPropertyModel) -> JsonValue {
        match value {
            FormattingPropertyModel::Bool(value) => bool::encode(value),
            FormattingPropertyModel::Number(value) => Number::encode(value),
            FormattingPropertyModel::String(value) => String::encode(value),
        }
    }

    open spec fn decode(json: JsonValue) -> Result<FormattingPropertyModel, CodecError> {
        if let Ok(value) = bool::decode(json) {
            Ok(FormattingPropertyModel::Bool(value))
        } else if let Ok(value) = Number::decode(json) {
            Ok(FormattingPropertyModel::Number(value))
        } else if let Ok(value) = String::decode(json) {
            Ok(FormattingPropertyModel::String(value))
        } else {
            Err(CodecError::NoVariantMatched)
        }
    }

    fn serialize(&self) -> (json: Json) {
        match self {
            FormattingProperty::Bool(value) => value.serialize(),
            FormattingProperty::Number(value) => value.serialize(),
            FormattingProperty::String(value) => value.serialize(),
        }
    }

    fn deserialize(json: &Json) -> (result: Result<FormattingProperty, CodecError>) {
        if let Ok(value) = bool::deserialize(json) {
            Ok(FormattingProperty::Bool(value))
        } else if let Ok(value) = Number::deserialize(json) {
            Ok(FormattingProperty::Number(value))
        } else if let Ok(value) = String::deserialize(json) {
            Ok(FormattingProperty::String(value))
        } else {
            Err(CodecError::NoVariantMatched)
        }
    }
}

impl FormattingProperty {
    /// A value comes back unchanged from its document exactly when its
    /// payload does and no variant declared before its own reads the
    /// payload's document.
    pub proof fn lemma_round_trip(value: FormattingPropertyModel)
        ensures
            survives::<FormattingProperty>(value) <==> match value {
                FormattingPropertyModel::Bool(v) => survives::<bool>(v),
                FormattingPropertyModel::Number(v) => bool::decode(Number::encode(v)) is Err
                    && survives::<Number>(v),
                FormattingPropertyModel::String(v) => bool::decode(String::encode(v)) is Err
                    && Number::decode(String::encode(v)) is Err
                    && survives::<String>(v),
            },
    {
    }

    /// Every value comes back unchanged from the document that stands for it.
    pub proof fn lemma_survives(value: FormattingPropertyModel)
        ensures
            survives::<FormattingProperty>(value),
    {
    }
}

#[derive(Debug, PartialEq, Clone)]
pub struct DocumentRangeFormattingParams {
    /// The document to format.
    pub text_document: TextDocumentIdentifier,
    /// The range to format
    pub range: Range,
    /// The format options
    pub options: FormattingOptions,
    /// Its members are written among those of this value.
    pub work_done_progress_params: WorkDoneProgressParams,
}

/// What a [`DocumentRangeFormattingParams`] stands for.
pub struct DocumentRangeFormattingParamsModel {
    pub text_document: TextDocumentIdentifierModel,
    pub range: Range,
    pub options: FormattingOptionsModel,
    pub work_done_progress_params: WorkDoneProgressParamsModel,
}

impl DeepView for DocumentRangeFormattingParams {
    type V = DocumentRangeFormattingParamsModel;

    open spec fn deep_view(&self) -> DocumentRangeFormattingParamsModel {
        DocumentRangeFormattingParamsModel {
            text_document: self.text_document.deep_view(),
            range: self.range.deep_view(),
            options: self.options.deep_view(),
            work_done_progress_params: self.work_done_progress_params.deep_view(),
        }
    }
}

impl Record for DocumentRangeFormattingParams {
    open spec fn members(before: Seq<Member>, value: DocumentRangeFormattingParamsModel) -> Seq<Member> {
        WorkDoneProgressParams::members(
            before + field::<TextDocumentIdentifier>("textDocument"@, value.text_document)
                + field::<Range>("range"@, value.range)
                + field::<FormattingOptions>("options"@, value.options),
            value.work_done_progress_params,
        )
    }

    open spec fn read(members: Seq<Member>) -> Result<DocumentRangeFormattingParamsModel, CodecError> {
        let text_document = required::<TextDocumentIdentifier>(members, "textDocument"@);
        let range = required::<Range>(members, "range"@);
        let options = required::<FormattingOptions>(members, "options"@);
        let work_done_progress_params = WorkDoneProgressParams::read(members);
        if text_document is Err {
            Err(text_document->Err_0)
        } else if range is Err {
            Err(range->Err_0)
        } else if options is Err {
            Err(options->Err_0)
        } else if work_done_progress_params is Err {
            Err(work_done_progress_params->Err_0)
        } else {
            Ok(
                DocumentRangeFormattingParamsModel {
                    text_document: text_document->Ok_0,
                    range: range->Ok_0,
                    options: options->Ok_0,
                    work_done_progress_params: work_done_progress_params->Ok_0,
                },
            )
        }
    }

    fn write(&self, members: &mut Vec<(String, Json)>) {
        put(members, "textDocument", &self.text_document);
        put(members, "range", &self.range);
        put(members, "options", &self.options);
        self.work_done_progress_params.write(members);
    }

    fn scan(members: &Vec<(String, Json)>) -> (result: Result<DocumentRangeFormattingParams, CodecError>) {
        let text_document = get::<TextDocumentIdentifier>(members, "textDocument");
        let range = get::<Range>(members, "range");
        let options = get::<FormattingOptions>(members, "options");
        let work_done_progress_params = WorkDoneProgressParams::scan(members);
        if let Err(error) = text_document {
            Err(error)
        } else if let Err(error) = range {
            Err(error)
        } else if let Err(error) = options {
            Err(error)
        } else if let Err(error) = work_done_progress_params {
            Err(error)
        } else {
            Ok(
                DocumentRangeFormattingParams {
                    text_document: text_document.unwrap(),
                    range: range.unwrap(),
                    options: options.unwrap(),
                    work_done_progress_params: work_done_progress_params.unwrap(),
                },
            )
        }
    }
}

impl DocumentRangeFormattingParams {
    /// A value comes back unchanged from the document that stands for it
    /// where its fields meet what is asked of them here.
    pub proof fn lemma_round_trip(value: DocumentRangeFormattingParamsModel)
        requires
            survives::<TextDocumentIdentifier>(value.text_document),
            survives::<FormattingOptions>(value.options),
        ensures
            survives::<DocumentRangeFormattingParams>(value),
    {
        broadcast use group_lookup;

        reveal(required);
        reveal(optional);
        reveal_strlit("textDocument");
        reveal_strlit("range");
        reveal_strlit("options");
        reveal_strlit("workDoneToken");
        Range::lemma_survives(value.range);
        if let Some(inner) = value.work_done_progress_params.work_done_token {
            NumberOrString::lemma_survives(inner);
        }
    }
}

#[derive(Debug, PartialEq, Clone)]
pub struct DocumentOnTypeFormattingParams {
    /// Text Document and Position fields.
    pub text_document_position: TextDocumentPositionParams,
    /// The character that has been typed.
    pub ch: String,
    /// The format options.
    pub options: FormattingOptions,
}

/// What a [`DocumentOnTypeFormattingParams`] stands for.
pub struct DocumentOnTypeFormattingParamsModel {
    pub text_document_position: TextDocumentPositionParamsModel,
    pub ch: Seq<char>,
    pub options: FormattingOptionsModel,
}

impl DeepView for DocumentOnTypeFormattingParams {
    type V = DocumentOnTypeFormattingParamsModel;

    open spec fn deep_view(&self) -> DocumentOnTypeFormattingParamsModel {
        DocumentOnTypeFormattingParamsModel {
            text_document_position: self.text_document_position.deep_view(),
            ch: self.ch.deep_view(),
            options: self.options.deep_view(),
        }
    }
}

impl Record for DocumentOnTypeFormattingParams {
    open spec fn members(before: Seq<Member>, value: DocumentOnTypeFormattingParamsModel) -> Seq<Member> {
        TextDocumentPositionParams::members(before, value.text_document_position)
            + field::<String>("ch"@, value.ch)
            + field::<FormattingOptions>("options"@, value.options)
    }

    open spec fn read(members: Seq<Member>) -> Result<DocumentOnTypeFormattingParamsModel, CodecError> {
        let text_document_position = TextDocumentPositionParams::read(members);
        let ch = required::<String>(members, "ch"@);
        let options = required::<FormattingOptions>(members, "options"@);
        if text_document_position is Err {
            Err(text_document_position->Err_0)
        } else if ch is Err {
            Err(ch->Err_0)
        } else if options is Err {
            Err(options->Err_0)
        } else {
            Ok(
                DocumentOnTypeFormattingParamsModel {
                    text_document_position: text_document_position->Ok_0,
                    ch: ch->Ok_0,
                    options: options->Ok_0,
                },
            )
        }
    }

    fn write(&self, members: &mut Vec<(String, Json)>) {
        self.text_document_position.write(members);
        put(members, "ch", &self.ch);
        put(members, "options", &self.options);
    }

    fn scan(members: &Vec<(String, Json)>) -> (result: Result<DocumentOnTypeFormattingParams, CodecError>) {
        let text_document_position = TextDocumentPositionParams::scan(members);
        let ch = get::<String>(members, "ch");
        let options = get::<FormattingOptions>(members, "options");
        if let Err(error) = text_document_position {
            Err(error)
        } else if let Err(error) = ch {
            Err(error)
        } else if let Err(error) = options {
            Err(error)
        } else {
            Ok(
                DocumentOnTypeFormattingParams {
                    text_document_position: text_document_position.unwrap(),
                    ch: ch.unwrap(),
                    options: options.unwrap(),
                },
            )
        }
    }
}

impl DocumentOnTypeFormattingParams {
    /// A value comes back unchanged from the document that stands for it
    /// where its fields meet what is asked of them here.
    pub proof fn lemma_round_trip(value: DocumentOnTypeFormattingParamsModel)
        requires
            survives::<TextDocumentIdentifier>(value.text_document_position.text_document),
            survives::<FormattingOptions>(value.options),
        ensures
            survives::<DocumentOnTypeFormattingParams>(value),
    {
        broadcast use group_lookup;

        reveal(required);
        reveal_strlit("textDocument");
        reveal_strlit("position");
        reveal_strlit("ch");
        reveal_strlit("options");
        Position::lemma_survives(value.text_document_position.position);
    }
}

/// Extends TextDocumentRegistrationOptions
#[derive(Debug, PartialEq, Eq, Clone, Default)]
pub struct DocumentOnTypeFormattingRegistrationOptions {
    /// A document selector to identify the scope of the registration. If set to null
    /// the document selector provided on the client side will be used.
    pub document_selector: Option<Vec<DocumentFilter>>,
    /// A character on which formatting should be triggered, like `}`.
    pub first_trigger_character: String,
    /// More trigger characters.
    pub more_trigger_character: Option<Vec<String>>,
}

/// What a [`DocumentOnTypeFormattingRegistrationOptions`] stands for.
pub struct DocumentOnTypeFormattingRegistrationOptionsModel {
    pub document_selector: Option<Seq<DocumentFilterModel>>,
    pub first_trigger_character: Seq<char>,
    pub more_trigger_character: Option<Seq<Seq<char>>>,
}

impl DeepView for DocumentOnTypeFormattingRegistrationOptions {
    type V = DocumentOnTypeFormattingRegistrationOptionsModel;

    open spec fn deep_view(&self) -> DocumentOnTypeFormattingRegistrationOptionsModel {
        DocumentOnTypeFormattingRegistrationOptionsModel {
            document_selector: self.document_selector.deep_view(),
            first_trigger_character: self.first_trigger_character.deep_view(),
            more_trigger_character: self.more_trigger_character.deep_view(),
        }
    }
}

impl Record for DocumentOnTypeFormattingRegistrationOptions {
    open spec fn members(before: Seq<Member>, value: DocumentOnTypeFormattingRegistrationOptionsModel) -> Seq<Member> {
        before + nullable_field::<Vec<DocumentFilter>>("documentSelector"@, value.document_selector)
            + field::<String>("firstTriggerCharacter"@, value.first_trigger_character)
            + optional_field::<Vec<String>>("moreTriggerCharacter"@, value.more_trigger_character)
    }

    open spec fn read(members: Seq<Member>) -> Result<DocumentOnTypeFormattingRegistrationOptionsModel, CodecError> {
        let document_selector = optional::<Vec<DocumentFilter>>(members, "documentSelector"@);
        let first_trigger_character = required::<String>(members, "firstTriggerCharacter"@);
        let more_trigger_character = optional::<Vec<String>>(members, "moreTriggerCharacter"@);
        if document_selector is Err {
            Err(document_selector->Err_0)
        } else if first_trigger_character is Err {
            Err(first_trigger_character->Err_0)
        } else if more_trigger_character is Err {
            Err(more_trigger_character->Err_0)
        } else {
            Ok(
                DocumentOnTypeFormattingRegistrationOptionsModel {
                    document_selector: document_selector->Ok_0,
                    first_trigger_character: first_trigger_character->Ok_0,
                    more_trigger_character: more_trigger_character->Ok_0,
                },
            )
        }
    }

    fn write(&self, members: &mut Vec<(String, Json)>) {
        put_nullable(members, "documentSelector", &self.document_selector);
        put(members, "firstTriggerCharacter", &self.first_trigger_character);
        put_optional(members, "moreTriggerCharacter", &self.more_trigger_character);
    }

    fn scan(members: &Vec<(String, Json)>) -> (result: Result<DocumentOnTypeFormattingRegistrationOptions, CodecError>) {
        let document_selector = get_optional::<Vec<DocumentFilter>>(members, "documentSelector");
        let first_trigger_character = get::<String>(members, "firstTriggerCharacter");
        let more_trigger_character = get_optional::<Vec<String>>(members, "moreTriggerCharacter");
        if let Err(error) = document_selector {
            Err(error)
        } else if let Err(error) = first_trigger_character {
            Err(error)
        } else if let Err(error) = more_trigger_character {
            Err(error)
        } else {
            Ok(
                DocumentOnTypeFormattingRegistrationOptions {
                    document_selector: document_selector.unwrap(),
                    first_trigger_character: first_trigger_character.unwrap(),
                    more_trigger_character: more_trigger_character.unwrap(),
                },
            )
        }
    }
}

impl DocumentOnTypeFormattingRegistrationOptions {
    /// Every value comes back unchanged from the document that stands for it.
    pub proof fn lemma_survives(value: DocumentOnTypeFormattingRegistrationOptionsModel)
        ensures
            survives::<DocumentOnTypeFormattingRegistrationOptions>(value),
    {
        broadcast use group_lookup;

        reveal(required);
        reveal(optional);
        reveal_strlit("documentSelector");
        reveal_strlit("firstTriggerCharacter");
        reveal_strlit("moreTriggerCharacter");
        if let Some(inner) = value.document_selector {
            assert forall|i: int| 0 <= i < inner.len() implies survives::<DocumentFilter>(
                #[trigger] inner[i],
            ) by {
                DocumentFilter::lemma_survives(inner[i]);
            }
            lemma_sequence_round_trip::<DocumentFilter>(inner);
        }
        if let Some(inner) = value.more_trigger_character {
            lemma_sequence_round_trip::<String>(inner);
        }
    }
}

/// Whether a key names one of the formatting options that have a field of
/// their own.
pub open spec fn is_named_option(key: Seq<char>) -> bool {
    key == "tabSize"@ || key == "insertSpaces"@ || key == "trimTrailingWhitespace"@ || key
        == "insertFinalNewline"@ || key == "trimFinalNewlines"@
}

/// The members that stand for the further properties of the formatting
/// options, in order.
pub open spec fn property_members(
    properties: Seq<(Seq<char>, FormattingPropertyModel)>,
) -> Seq<Member> {
    Seq::new(
        properties.len(),
        |i: int| (properties[i].0, FormattingProperty::encode(properties[i].1)),
    )
}

/// The further properties among the members of the formatting options: each
/// member that is no named option, in order, or the error of the first
/// such member whose document is no property.
pub open spec fn properties_of(members: Seq<Member>) -> Result<
    Seq<(Seq<char>, FormattingPropertyModel)>,
    CodecError,
>
    decreases members.len(),
{
    if members.len() == 0 {
        Ok(Seq::empty())
    } else {
        match properties_of(members.drop_last()) {
            Err(error) => Err(error),
            Ok(found) => {
                if is_named_option(members.last().0) {
                    Ok(found)
                } else {
                    match FormattingProperty::decode(members.last().1) {
                        Err(error) => Err(error),
                        Ok(property) => Ok(found.push((members.last().0, property))),
                    }
                }
            },
        }
    }
}

/// An error among the first `n` members is the error of all of them.
pub proof fn lemma_properties_error(members: Seq<Member>, n: int)
    requires
        0 <= n <= members.len(),
        properties_of(members.take(n)) is Err,
    ensures
        properties_of(members) == properties_of(members.take(n)),
    decreases members.len(),
{
    if n < members.len() {
        assert(members.drop_last().take(n) =~= members.take(n));
        lemma_properties_error(members.drop_last(), n);
    } else {
        assert(members.take(n) =~= members);
    }
}

/// Tells whether a key names one of the formatting options that have a field
/// of their own.
pub fn named_option(key: &String) -> (named: bool)
    ensures
        named == is_named_option(key@),
{
    *key == "tabSize".to_owned() || *key == "insertSpaces".to_owned() || *key
        == "trimTrailingWhitespace".to_owned() || *key == "insertFinalNewline".to_owned() || *key
        == "trimFinalNewlines".to_owned()
}

/// Appends the members of the further properties of the formatting options.
pub fn put_properties(
    members: &mut Vec<(String, Json)>,
    properties: &Vec<(String, FormattingProperty)>,
)
    ensures
        final(members).deep_view() == old(members).deep_view() + property_members(
            properties.deep_view(),
        ),
{
    let ghost before = members.deep_view();
    let mut i: usize = 0;
    while i < properties.len()
        invariant
            i <= properties.len(),
            members.deep_view() == before + property_members(properties.deep_view()).take(i as int),
        decreases properties.len() - i,
    {
        let ghost so_far = members.deep_view();
        members.push((properties[i].0.clone(), properties[i].1.serialize()));
        proof {
            let all = property_members(properties.deep_view());
            assert(all.take(i + 1) =~= all.take(i as int).push(all[i as int]));
            assert(members.deep_view() =~= so_far.push(all[i as int]));
        }
        i += 1;
    }
    proof {
        let all = property_members(properties.deep_view());
        assert(all.take(i as int) =~= all);
    }
}

/// Reads the further properties among the members of the formatting options.
pub fn get_properties(members: &Vec<(String, Json)>) -> (result: Result<
    Vec<(String, FormattingProperty)>,
    CodecError,
>)
    ensures
        outcome(result) == properties_of(members.deep_view()),
{
    let mut found: Vec<(String, FormattingProperty)> = Vec::new();
    let mut i: usize = 0;
    proof {
        assert(members.deep_view().take(0) =~= Seq::empty());
        assert(found.deep_view() =~= Seq::empty());
    }
    while i < members.len()
        invariant
            i <= members.len(),
            properties_of(members.deep_view().take(i as int)) == Ok::<
                Seq<(Seq<char>, FormattingPropertyModel)>,
                CodecError,
            >(found.deep_view()),
        decreases members.len() - i,
    {
        let ghost next = members.deep_view().take(i + 1);
        proof {
            assert(next.drop_last() =~= members.deep_view().take(i as int));
            assert(next.last() == members@[i as int].deep_view());
        }
        if !named_option(&members[i].0) {
            match FormattingProperty::deserialize(&members[i].1) {
                Ok(property) => {
                    let ghost so_far = found.deep_view();
                    found.push((members[i].0.clone(), property));
                    proof {
                        assert(found.deep_view() =~= so_far.push(
                            (members@[i as int].0@, property.deep_view()),
                        ));
                    }
                },
                Err(error) => {
                    proof {
                        assert(properties_of(next) == Err::<
                            Seq<(Seq<char>, FormattingPropertyModel)>,
                            CodecError,
                        >(error));
                        lemma_properties_error(members.deep_view(), i + 1);
                    }
                    return Err(error);
                },
            }
        }
        i += 1;
    }
    proof {
        assert(members.deep_view().take(i as int) =~= members.deep_view());
    }
    Ok(found)
}

} // verus!
