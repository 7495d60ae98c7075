//! Keeping the server's copy of a document in step with the editor.

use crate::basic::{
    DocumentFilter, DocumentFilterModel, Range, TextDocumentIdentifier, TextDocumentIdentifierModel,
    TextDocumentItem, TextDocumentItemModel, VersionedTextDocumentIdentifier,
    VersionedTextDocumentIdentifierModel,
};
use crate::codec::{
    Codec, CodecError, field, get, get_optional, group_lookup, lemma_sequence_round_trip, Member,
    nullable_field, optional, optional_field, put, put_nullable, put_optional, Record, required,
    survives,
};
use crate::json::{Json, JsonValue, Number};
use crate::registration::{TextDocumentRegistrationOptions, TextDocumentRegistrationOptionsModel};
use vstd::prelude::*;

verus! {

#[derive(Debug, PartialEq, Eq, Clone)]
pub struct DidOpenTextDocumentParams {
    /// The document that was opened.
    pub text_document: TextDocumentItem,
}

/// What a [`DidOpenTextDocumentParams`] stands for.
pub struct DidOpenTextDocumentParamsModel {
    pub text_document: TextDocumentItemModel,
}

impl DeepView for DidOpenTextDocumentParams {
    type V = DidOpenTextDocumentParamsModel;

    open spec fn deep_view(&self) -> DidOpenTextDocumentParamsModel {
        DidOpenTextDocumentParamsModel {
            text_document: self.text_document.deep_view(),
        }
    }
}

impl Record for DidOpenTextDocumentParams {
    open spec fn members(before: Seq<Member>, value: DidOpenTextDocumentParamsModel) -> Seq<Member> {
        before + field::<TextDocumentItem>("textDocument"@, value.text_document)
    }

    open spec fn read(members: Seq<Member>) -> Result<DidOpenTextDocumentParamsModel, CodecError> {
        let text_document = required::<TextDocumentItem>(members, "textDocument"@);
        if text_document is Err {
            Err(text_document->Err_0)
        } else {
            Ok(
                DidOpenTextDocumentParamsModel {
                    text_document: text_document->Ok_0,
                },
            )
        }
    }

    fn write(&self, members: &mut Vec<(String, Json)>) {
        put(members, "textDocument", &self.text_document);
    }

    fn scan(members: &Vec<(String, Json)>) -> (result: Result<DidOpenTextDocumentParams, CodecError>) {
        let text_document = get::<TextDocumentItem>(members, "textDocument");
        if let Err(error) = text_document {
            Err(error)
        } else {
            Ok(
                DidOpenTextDocumentParams {
                    text_document: text_document.unwrap(),
                },
            )
        }
    }
}

impl DidOpenTextDocumentParams {
    /// A value comes back unchanged from the document that stands for it
    /// where its fields meet what is asked of them here.
    pub proof fn lemma_round_trip(value: DidOpenTextDocumentParamsModel)
        requires
            survives::<TextDocumentItem>(value.text_document),
        ensures
            survives::<DidOpenTextDocumentParams>(value),
    {
        broadcast use group_lookup;

        reveal(required);
        reveal_strlit("textDocument");
    }
}

#[derive(Debug, PartialEq, Eq, Clone)]
pub struct DidChangeTextDocumentParams {
    /// The document that did change. The version number points
    /// to the version after all provided content changes have
    /// been applied.
    pub text_document: VersionedTextDocumentIdentifier,
    /// The actual content changes.
    pub content_changes: Vec<TextDocumentContentChangeEvent>,
}

/// What a [`DidChangeTextDocumentParams`] stands for.
pub struct DidChangeTextDocumentParamsModel {
    pub text_document: VersionedTextDocumentIdentifierModel,
    pub content_changes: Seq<TextDocumentContentChangeEventModel>,
}

impl DeepView for DidChangeTextDocumentParams {
    type V = DidChangeTextDocumentParamsModel;

    open spec fn deep_view(&self) -> DidChangeTextDocumentParamsModel {
        DidChangeTextDocumentParamsModel {
            text_document: self.text_document.deep_view(),
            content_changes: self.content_changes.deep_view(),
        }
    }
}

impl Record for DidChangeTextDocumentParams {
    open spec fn members(before: Seq<Member>, value: DidChangeTextDocumentParamsModel) -> Seq<Member> {
        before + field::<VersionedTextDocumentIdentifier>("textDocument"@, value.text_document)
            + field::<Vec<TextDocumentContentChangeEvent>>("contentChanges"@, value.content_changes)
    }

    open spec fn read(members: Seq<Member>) -> Result<DidChangeTextDocumentParamsModel, CodecError> {
        let text_document = required::<VersionedTextDocumentIdentifier>(members, "textDocument"@);
        let content_changes = required::<Vec<TextDocumentContentChangeEvent>>(
            members,
            "contentChanges"@,
        );
        if text_document is Err {
            Err(text_document->Err_0)
        } else if content_changes is Err {
            Err(content_changes->Err_0)
        } else {
            Ok(
                DidChangeTextDocumentParamsModel {
                    text_document: text_document->Ok_0,
                    content_changes: content_changes->Ok_0,
                },
            )
        }
    }

    fn write(&self, members: &mut Vec<(String, Json)>) {
        put(members, "textDocument", &self.text_document);
        put(members, "contentChanges", &self.content_changes);
    }

    fn scan(members: &Vec<(String, Json)>) -> (result: Result<DidChangeTextDocumentParams, CodecError>) {
        let text_document = get::<VersionedTextDocumentIdentifier>(members, "textDocument");
        let content_changes = get::<Vec<TextDocumentContentChangeEvent>>(members, "contentChanges");
        if let Err(error) = text_document {
            Err(error)
        } else if let Err(error) = content_changes {
            Err(error)
        } else {
            Ok(
                DidChangeTextDocumentParams {
                    text_document: text_document.unwrap(),
                    content_changes: content_changes.unwrap(),
                },
            )
        }
    }
}

impl DidChangeTextDocumentParams {
    /// A value comes back unchanged from the document that stands for it
    /// where its fields meet what is asked of them here.
    pub proof fn lemma_round_trip(value: DidChangeTextDocumentParamsModel)
        requires
            survives::<VersionedTextDocumentIdentifier>(value.text_document),
        ensures
            survives::<DidChangeTextDocumentParams>(value),
    {
        broadcast use group_lookup;

        reveal(required);
        reveal_strlit("textDocument");
        reveal_strlit("contentChanges");
        let list = value.content_changes;
        assert forall|i: int| 0 <= i < list.len() implies survives::<TextDocumentContentChangeEvent>(
            #[trigger] list[i],
        ) by {
            TextDocumentContentChangeEvent::lemma_survives(list[i]);
        }
        lemma_sequence_round_trip::<TextDocumentContentChangeEvent>(list);
    }
}

/// An event describing a change to a text document. If range and rangeLength are omitted
/// the new text is considered to be the full content of the document.
#[derive(Debug, PartialEq, Eq, Clone)]
pub struct TextDocumentContentChangeEvent {
    /// The range of the document that changed.
    pub range: Option<Range>,
    /// The length of the range that got replaced.
    /// NOTE: seems redundant, see: <https://github.com/Microsoft/language-server-protocol/issues/9>
    pub range_length: Option<u64>,
    /// The new text of the document.
    pub text: String,
}

/// What a [`TextDocumentContentChangeEvent`] stands for.
pub struct TextDocumentContentChangeEventModel {
    pub range: Option<Range>,
    pub range_length: Option<u64>,
    pub text: Seq<char>,
}

impl DeepView for TextDocumentContentChangeEvent {
    type V = TextDocumentContentChangeEventModel;

    open spec fn deep_view(&self) -> TextDocumentContentChangeEventModel {
        TextDocumentContentChangeEventModel {
            range: self.range.deep_view(),
            range_length: self.range_length.deep_view(),
            text: self.text.deep_view(),
        }
    }
}

impl Record for TextDocumentContentChangeEvent {
    open spec fn members(before: Seq<Member>, value: TextDocumentContentChangeEventModel) -> Seq<Member> {
        before + optional_field::<Range>("range"@, value.range)
            + optional_field::<u64>("rangeLength"@, value.range_length)
            + field::<String>("text"@, value.text)
    }

    open spec fn read(members: Seq<Member>) -> Result<TextDocumentContentChangeEventModel, CodecError> {
        let range = optional::<Range>(members, "range"@);
        let range_length = optional::<u64>(members, "rangeLength"@);
        let text = required::<String>(members, "text"@);
        if range is Err {
            Err(range->Err_0)
        } else if range_length is Err {
            Err(range_length->Err_0)
        } else if text is Err {
            Err(text->Err_0)
        } else {
            Ok(
                TextDocumentContentChangeEventModel {
                    range: range->Ok_0,
                    range_length: range_length->Ok_0,
                    text: text->Ok_0,
                },
            )
        }
    }

    fn write(&self, members: &mut Vec<(String, Json)>) {
        put_optional(members, "range", &self.range);
        put_optional(members, "rangeLength", &self.range_length);
        put(members, "text", &self.text);
    }

    fn scan(members: &Vec<(String, Json)>) -> (result: Result<TextDocumentContentChangeEvent, CodecError>) {
        let range = get_optional::<Range>(members, "range");
        let range_length = get_optional::<u64>(members, "rangeLength");
        let text = get::<String>(members, "text");
        if let Err(error) = range {
            Err(error)
        } else if let Err(error) = range_length {
            Err(error)
        } else if let Err(error) = text {
            Err(error)
        } else {
            Ok(
                TextDocumentContentChangeEvent {
                    range: range.unwrap(),
                    range_length: range_length.unwrap(),
                    text: text.unwrap(),
                },
            )
        }
    }
}

impl TextDocumentContentChangeEvent {
    /// Every value comes back unchanged from the document that stands for it.
    pub proof fn lemma_survives(value: TextDocumentContentChangeEventModel)
        ensures
            survives::<TextDocumentContentChangeEvent>(value),
    {
        broadcast use group_lookup;

        reveal(required);
        reveal(optional);
        reveal_strlit("range");
        reveal_strlit("rangeLength");
        reveal_strlit("text");
        if let Some(inner) = value.range {
            Range::lemma_survives(inner);
        }
    }
}

/// Descibe options to be used when registered for text document change events.
///
/// Extends TextDocumentRegistrationOptions
#[derive(Debug, PartialEq, Eq, Clone)]
pub struct TextDocumentChangeRegistrationOptions {
    /// A document selector to identify the scope of the registration. If set to null
    /// the document selector provided on the client side will be used.
    pub document_selector: Option<Vec<DocumentFilter>>,
    /// How documents are synced to the server. See TextDocumentSyncKind.Full
    /// and TextDocumentSyncKindIncremental.
    pub sync_kind: i32,
}

/// What a [`TextDocumentChangeRegistrationOptions`] stands for.
pub struct TextDocumentChangeRegistrationOptionsModel {
    pub document_selector: Option<Seq<DocumentFilterModel>>,
    pub sync_kind: i32,
}

impl DeepView for TextDocumentChangeRegistrationOptions {
    type V = TextDocumentChangeRegistrationOptionsModel;

    open spec fn deep_view(&self) -> TextDocumentChangeRegistrationOptionsModel {
        TextDocumentChangeRegistrationOptionsModel {
            document_selector: self.document_selector.deep_view(),
            sync_kind: self.sync_kind.deep_view(),
        }
    }
}

impl Record for TextDocumentChangeRegistrationOptions {
    open spec fn members(before: Seq<Member>, value: TextDocumentChangeRegistrationOptionsModel) -> Seq<Member> {
        before + nullable_field::<Vec<DocumentFilter>>("documentSelector"@, value.document_selector)
            + field::<i32>("syncKind"@, value.sync_kind)
    }

    open spec fn read(members: Seq<Member>) -> Result<TextDocumentChangeRegistrationOptionsModel, CodecError> {
        let document_selector = optional::<Vec<DocumentFilter>>(members, "documentSelector"@);
        let sync_kind = required::<i32>(members, "syncKind"@);
        if document_selector is Err {
            Err(document_selector->Err_0)
        } else if sync_kind is Err {
            Err(sync_kind->Err_0)
        } else {
            Ok(
                TextDocumentChangeRegistrationOptionsModel {
                    document_selector: document_selector->Ok_0,
                    sync_kind: sync_kind->Ok_0,
                },
            )
        }
    }

    fn write(&self, members: &mut Vec<(String, Json)>) {
        put_nullable(members, "documentSelector", &self.document_selector);
        put(members, "syncKind", &self.sync_kind);
    }

    fn scan(members: &Vec<(String, Json)>) -> (result: Result<TextDocumentChangeRegistrationOptions, CodecError>) {
        let document_selector = get_optional::<Vec<DocumentFilter>>(members, "documentSelector");
        let sync_kind = get::<i32>(members, "syncKind");
        if let Err(error) = document_selector {
            Err(error)
        } else if let Err(error) = sync_kind {
            Err(error)
        } else {
            Ok(
                TextDocumentChangeRegistrationOptions {
                    document_selector: document_selector.unwrap(),
                    sync_kind: sync_kind.unwrap(),
                },
            )
        }
    }
}

impl TextDocumentChangeRegistrationOptions {
    /// Every value comes back unchanged from the document that stands for it.
    pub proof fn lemma_survives(value: TextDocumentChangeRegistrationOptionsModel)
        ensures
            survives::<TextDocumentChangeRegistrationOptions>(value),
    {
        broadcast use group_lookup;

        reveal(required);
        reveal(optional);
        reveal_strlit("documentSelector");
        reveal_strlit("syncKind");
        if let Some(inner) = value.document_selector {
            assert forall|i: int| 0 <= i < inner.len() implies survives::<DocumentFilter>(
                #[trigger] inner[i],
            ) by {
                DocumentFilter::lemma_survives(inner[i]);
            }
            lemma_sequence_round_trip::<DocumentFilter>(inner);
        }
    }
}

/// The parameters send in a will save text document notification.
#[derive(Debug, PartialEq, Eq, Clone)]
pub struct WillSaveTextDocumentParams {
    /// The document that will be saved.
    pub text_document: TextDocumentIdentifier,
    /// The 'TextDocumentSaveReason'.
    pub reason: TextDocumentSaveReason,
}

/// What a [`WillSaveTextDocumentParams`] stands for.
pub struct WillSaveTextDocumentParamsModel {
    pub text_document: TextDocumentIdentifierModel,
    pub reason: TextDocumentSaveReason,
}

impl DeepView for WillSaveTextDocumentParams {
    type V = WillSaveTextDocumentParamsModel;

    open spec fn deep_view(&self) -> WillSaveTextDocumentParamsModel {
        WillSaveTextDocumentParamsModel {
            text_document: self.text_document.deep_view(),
            reason: self.reason.deep_view(),
        }
    }
}

impl Record for WillSaveTextDocumentParams {
    open spec fn members(before: Seq<Member>, value: WillSaveTextDocumentParamsModel) -> Seq<Member> {
        before + field::<TextDocumentIdentifier>("textDocument"@, value.text_document)
            + field::<TextDocumentSaveReason>("reason"@, value.reason)
    }

    open spec fn read(members: Seq<Member>) -> Result<WillSaveTextDocumentParamsModel, CodecError> {
        let text_document = required::<TextDocumentIdentifier>(members, "textDocument"@);
        let reason = required::<TextDocumentSaveReason>(members, "reason"@);
        if text_document is Err {
            Err(text_document->Err_0)
        } else if reason is Err {
            Err(reason->Err_0)
        } else {
            Ok(
                WillSaveTextDocumentParamsModel {
                    text_document: text_document->Ok_0,
                    reason: reason->Ok_0,
                },
            )
        }
    }

    fn write(&self, members: &mut Vec<(String, Json)>) {
        put(members, "textDocument", &self.text_document);
        put(members, "reason", &self.reason);
    }

    fn scan(members: &Vec<(String, Json)>) -> (result: Result<WillSaveTextDocumentParams, CodecError>) {
        let text_document = get::<TextDocumentIdentifier>(members, "textDocument");
        let reason = get::<TextDocumentSaveReason>(members, "reason");
        if let Err(error) = text_document {
            Err(error)
        } else if let Err(error) = reason {
            Err(error)
        } else {
            Ok(
                WillSaveTextDocumentParams {
                    text_document: text_document.unwrap(),
                    reason: reason.unwrap(),
                },
            )
        }
    }
}

impl WillSaveTextDocumentParams {
    /// A value comes back unchanged from the document that stands for it
    /// where its fields meet what is asked of them here.
    pub proof fn lemma_round_trip(value: WillSaveTextDocumentParamsModel)
        requires
            survives::<TextDocumentIdentifier>(value.text_document),
        ensures
            survives::<WillSaveTextDocumentParams>(value),
    {
        broadcast use group_lookup;

        reveal(required);
        reveal_strlit("textDocument");
        reveal_strlit("reason");
        TextDocumentSaveReason::lemma_survives(value.reason);
    }
}

/// Represents reasons why a text document is saved.
#[derive(Debug, PartialEq, Eq, Structural, Clone, Copy)]
pub enum TextDocumentSaveReason {
    /// Manually triggered, e.g. by the user pressing save, by starting debugging,
    /// or by an API call.
    Manual,
    /// Automatic after a delay.
    AfterDelay,
    /// When the editor lost focus.
    FocusOut,
}

impl DeepView for TextDocumentSaveReason {
    type V = TextDocumentSaveReason;

    open spec fn deep_view(&self) -> TextDocumentSaveReason {
        *self
    }
}

impl TextDocumentSaveReason {
    /// The integer that stands for a variant on the wire.
    pub open spec fn number(self) -> u8 {
        match self {
            TextDocumentSaveReason::Manual => 1,
            TextDocumentSaveReason::AfterDelay => 2,
            TextDocumentSaveReason::FocusOut => 3,
        }
    }

    /// The variant that an integer stands for, if any.
    pub open spec fn variant(number: int) -> Option<TextDocumentSaveReason> {
        if number == 1 {
            Some(TextDocumentSaveReason::Manual)
        } else if number == 2 {
            Some(TextDocumentSaveReason::AfterDelay)
        } else if number == 3 {
            Some(TextDocumentSaveReason::FocusOut)
        } else {
            None
        }
    }

    /// Gives the integer that stands for this variant on the wire.
    pub fn to_number(self) -> (number: u8)
        ensures
            number == self.number(),
    {
        match self {
            TextDocumentSaveReason::Manual => 1,
            TextDocumentSaveReason::AfterDelay => 2,
            TextDocumentSaveReason::FocusOut => 3,
        }
    }

    /// Gives the variant that an integer stands for, if any.
    pub fn from_number(number: u64) -> (variant: Option<TextDocumentSaveReason>)
        ensures
            variant == Self::variant(number as int),
    {
        if number == 1 {
            Some(TextDocumentSaveReason::Manual)
        } else if number == 2 {
            Some(TextDocumentSaveReason::AfterDelay)
        } else if number == 3 {
            Some(TextDocumentSaveReason::FocusOut)
        } else {
            None
        }
    }

    /// Every variant comes back unchanged from the integer that stands for it.
    pub proof fn lemma_survives(value: TextDocumentSaveReason)
        ensures
            survives::<TextDocumentSaveReason>(value),
    {
    }

    /// An integer is refused exactly when it names no variant, and the
    /// error then holds it together with the bounds of those that do.
    pub proof fn lemma_refusal(number: Number)
        requires
            !(number is Float),
        ensures
            TextDocumentSaveReason::decode(JsonValue::Number(number)) is Err <==> !(number matches Number::PosInt(n)
                && 1 <= n <= 3),
            TextDocumentSaveReason::decode(JsonValue::Number(number)) is Err ==> TextDocumentSaveReason::decode(
                JsonValue::Number(number),
            ) == Err::<TextDocumentSaveReason, CodecError>(
                CodecError::InvalidEnumValue { value: number, lowest: 1, highest: 3 },
            ),
    {
    }
}

impl Codec for TextDocumentSaveReason {
    open spec fn encode(value: TextDocumentSaveReason) -> JsonValue {
        JsonValue::Number(Number::PosInt(value.number() as u64))
    }

    open spec fn decode(json: JsonValue) -> Result<TextDocumentSaveReason, CodecError> {
        match json {
            JsonValue::Number(Number::PosInt(n)) => match Self::variant(n as int) {
                Some(variant) => Ok(variant),
                None => Err(
                    CodecError::InvalidEnumValue { value: Number::PosInt(n), lowest: 1, highest: 3 },
                ),
            },
            JsonValue::Number(Number::NegInt(n)) => Err(
                CodecError::InvalidEnumValue { value: Number::NegInt(n), lowest: 1, highest: 3 },
            ),
            _ => Err(CodecError::UnexpectedType),
        }
    }

    fn serialize(&self) -> (json: Json) {
        Json::Number(Number::PosInt(self.to_number() as u64))
    }

    fn deserialize(json: &Json) -> (result: Result<TextDocumentSaveReason, CodecError>) {
        match json {
            Json::Number(Number::PosInt(n)) => match Self::from_number(*n) {
                Some(variant) => Ok(variant),
                None => Err(
                    CodecError::InvalidEnumValue { value: Number::PosInt(*n), lowest: 1, highest: 3 },
                ),
            },
            Json::Number(Number::NegInt(n)) => Err(
                CodecError::InvalidEnumValue { value: Number::NegInt(*n), lowest: 1, highest: 3 },
            ),
            _ => Err(CodecError::UnexpectedType),
        }
    }
}

#[derive(Debug, PartialEq, Eq, Clone)]
pub struct DidCloseTextDocumentParams {
    /// The document that was closed.
    pub text_document: TextDocumentIdentifier,
}

/// What a [`DidCloseTextDocumentParams`] stands for.
pub struct DidCloseTextDocumentParamsModel {
    pub text_document: TextDocumentIdentifierModel,
}

impl DeepView for DidCloseTextDocumentParams {
    type V = DidCloseTextDocumentParamsModel;

    open spec fn deep_view(&self) -> DidCloseTextDocumentParamsModel {
        DidCloseTextDocumentParamsModel {
            text_document: self.text_document.deep_view(),
        }
    }
}

impl Record for DidCloseTextDocumentParams {
    open spec fn members(before: Seq<Member>, value: DidCloseTextDocumentParamsModel) -> Seq<Member> {
        before + field::<TextDocumentIdentifier>("textDocument"@, value.text_document)
    }

    open spec fn read(members: Seq<Member>) -> Result<DidCloseTextDocumentParamsModel, CodecError> {
        let text_document = required::<TextDocumentIdentifier>(members, "textDocument"@);
        if text_document is Err {
            Err(text_document->Err_0)
        } else {
            Ok(
                DidCloseTextDocumentParamsModel {
                    text_document: text_document->Ok_0,
                },
            )
        }
    }

    fn write(&self, members: &mut Vec<(String, Json)>) {
        put(members, "textDocument", &self.text_document);
    }

    fn scan(members: &Vec<(String, Json)>) -> (result: Result<DidCloseTextDocumentParams, CodecError>) {
        let text_document = get::<TextDocumentIdentifier>(members, "textDocument");
        if let Err(error) = text_document {
            Err(error)
        } else {
            Ok(
                DidCloseTextDocumentParams {
                    text_document: text_document.unwrap(),
                },
            )
        }
    }
}

impl DidCloseTextDocumentParams {
    /// A value comes back unchanged from the document that stands for it
    /// where its fields meet what is asked of them here.
    pub proof fn lemma_round_trip(value: DidCloseTextDocumentParamsModel)
        requires
            survives::<TextDocumentIdentifier>(value.text_document),
        ensures
            survives::<DidCloseTextDocumentParams>(value),
    {
        broadcast use group_lookup;

        reveal(required);
        reveal_strlit("textDocument");
    }
}

#[derive(Debug, PartialEq, Eq, Clone)]
pub struct DidSaveTextDocumentParams {
    /// The document that was saved.
    pub text_document: TextDocumentIdentifier,
}

/// What a [`DidSaveTextDocumentParams`] stands for.
pub struct DidSaveTextDocumentParamsModel {
    pub text_document: TextDocumentIdentifierModel,
}

impl DeepView for DidSaveTextDocumentParams {
    type V = DidSaveTextDocumentParamsModel;

    open spec fn deep_view(&self) -> DidSaveTextDocumentParamsModel {
        DidSaveTextDocumentParamsModel {
            text_document: self.text_document.deep_view(),
        }
    }
}

impl Record for DidSaveTextDocumentParams {
    open spec fn members(before: Seq<Member>, value: DidSaveTextDocumentParamsModel) -> Seq<Member> {
        before + field::<TextDocumentIdentifier>("textDocument"@, value.text_document)
    }

    open spec fn read(members: Seq<Member>) -> Result<DidSaveTextDocumentParamsModel, CodecError> {
        let text_document = required::<TextDocumentIdentifier>(members, "textDocument"@);
        if text_document is Err {
            Err(text_document->Err_0)
        } else {
            Ok(
                DidSaveTextDocumentParamsModel {
                    text_document: text_document->Ok_0,
                },
            )
        }
    }

    fn write(&self, members: &mut Vec<(String, Json)>) {
        put(members, "textDocument", &self.text_document);
    }

    fn scan(members: &Vec<(String, Json)>) -> (result: Result<DidSaveTextDocumentParams, CodecError>) {
        let text_document = get::<TextDocumentIdentifier>(members, "textDocument");
        if let Err(error) = text_document {
            Err(error)
        } else {
            Ok(
                DidSaveTextDocumentParams {
                    text_document: text_document.unwrap(),
                },
            )
        }
    }
}

impl DidSaveTextDocumentParams {
    /// A value comes back unchanged from the document that stands for it
    /// where its fields meet what is asked of them here.
    pub proof fn lemma_round_trip(value: DidSaveTextDocumentParamsModel)
        requires
            survives::<TextDocumentIdentifier>(value.text_document),
        ensures
            survives::<DidSaveTextDocumentParams>(value),
    {
        broadcast use group_lookup;

        reveal(required);
        reveal_strlit("textDocument");
    }
}

#[derive(Debug, PartialEq, Eq, Clone)]
pub struct TextDocumentSaveRegistrationOptions {
    /// The client is supposed to include the content on save.
    pub include_text: Option<bool>,
    /// Its members are written among those of this value.
    pub text_document_registration_options: TextDocumentRegistrationOptions,
}

/// What a [`TextDocumentSaveRegistrationOptions`] stands for.
pub struct TextDocumentSaveRegistrationOptionsModel {
    pub include_text: Option<bool>,
    pub text_document_registration_options: TextDocumentRegistrationOptionsModel,
}

impl DeepView for TextDocumentSaveRegistrationOptions {
    type V = TextDocumentSaveRegistrationOptionsModel;

    open spec fn deep_view(&self) -> TextDocumentSaveRegistrationOptionsModel {
        TextDocumentSaveRegistrationOptionsModel {
            include_text: self.include_text.deep_view(),
            text_document_registration_options: self.text_document_registration_options.deep_view(),
        }
    }
}

impl Record for TextDocumentSaveRegistrationOptions {
    open spec fn members(before: Seq<Member>, value: TextDocumentSaveRegistrationOptionsModel) -> Seq<Member> {
        TextDocumentRegistrationOptions::members(
            before + optional_field::<bool>("includeText"@, value.include_text),
            value.text_document_registration_options,
        )
    }

    open spec fn read(members: Seq<Member>) -> Result<TextDocumentSaveRegistrationOptionsModel, CodecError> {
        let include_text = optional::<bool>(members, "includeText"@);
        let text_document_registration_options = TextDocumentRegistrationOptions::read(members);
        if include_text is Err {
            Err(include_text->Err_0)
        } else if text_document_registration_options is Err {
            Err(text_document_registration_options->Err_0)
        } else {
            Ok(
                TextDocumentSaveRegistrationOptionsModel {
                    include_text: include_text->Ok_0,
                    text_document_registration_options: text_document_registration_options->Ok_0,
                },
            )
        }
    }

    fn write(&self, members: &mut Vec<(String, Json)>) {
        put_optional(members, "includeText", &self.include_text);
        self.text_document_registration_options.write(members);
    }

    fn scan(members: &Vec<(String, Json)>) -> (result: Result<TextDocumentSaveRegistrationOptions, CodecError>) {
        let include_text = get_optional::<bool>(members, "includeText");
        let text_document_registration_options = TextDocumentRegistrationOptions::scan(members);
        if let Err(error) = include_text {
            Err(error)
        } else if let Err(error) = text_document_registration_options {
            Err(error)
        } else {
            Ok(
                TextDocumentSaveRegistrationOptions {
                    include_text: include_text.unwrap(),
                    text_document_registration_options: text_document_registration_options.unwrap(),
                },
            )
        }
    }
}

impl TextDocumentSaveRegistrationOptions {
    /// Every value comes back unchanged from the document that stands for it.
    pub proof fn lemma_survives(value: TextDocumentSaveRegistrationOptionsModel)
        ensures
            survives::<TextDocumentSaveRegistrationOptions>(value),
    {
        broadcast use group_lookup;

        reveal(optional);
        reveal_strlit("includeText");
        reveal_strlit("documentSelector");
        if let Some(inner) = value.text_document_registration_options.document_selector {
            assert forall|i: int| 0 <= i < inner.len() implies survives::<DocumentFilter>(
                #[trigger] inner[i],
            ) by {
                DocumentFilter::lemma_survives(inner[i]);
            }
            lemma_sequence_round_trip::<DocumentFilter>(inner);
        }
    }
}

} // verus!
