//! Notebook documents and their cells.

use crate::basic::{
    TextDocumentIdentifier, TextDocumentIdentifierModel, TextDocumentItem, TextDocumentItemModel,
    VersionedTextDocumentIdentifier, VersionedTextDocumentIdentifierModel,
};
use crate::codec::{
    Codec, CodecError, field, get, get_optional, group_lookup, lemma_sequence_round_trip, Member,
    optional, optional_field, outcome, put, put_optional, Record, required, survives,
};
use crate::document_sync::{TextDocumentContentChangeEvent, TextDocumentContentChangeEventModel};
use crate::json::{Json, JsonValue, lemma_object_view, LSPObject, Number};
use crate::uri::{is_uri_text, Uri};
use vstd::prelude::*;

verus! {

/// A notebook document.
///
/// @since 3.17.0
#[derive(Debug, PartialEq, Eq, Clone)]
pub struct NotebookDocument {
    /// The notebook document's URI.
    pub uri: Uri,
    /// The type of the notebook.
    pub notebook_type: String,
    /// The version number of this document (it will increase after each
    /// change, including undo/redo).
    pub version: i32,
    /// Additional metadata stored with the notebook
    /// document.
    pub metadata: Option<LSPObject>,
    /// The cells of a notebook.
    pub cells: Vec<NotebookCell>,
}

/// What a [`NotebookDocument`] stands for.
pub struct NotebookDocumentModel {
    pub uri: Seq<char>,
    pub notebook_type: Seq<char>,
    pub version: i32,
    pub metadata: Option<Seq<(Seq<char>, JsonValue)>>,
    pub cells: Seq<NotebookCellModel>,
}

impl DeepView for NotebookDocument {
    type V = NotebookDocumentModel;

    open spec fn deep_view(&self) -> NotebookDocumentModel {
        NotebookDocumentModel {
            uri: self.uri.deep_view(),
            notebook_type: self.notebook_type.deep_view(),
            version: self.version.deep_view(),
            metadata: self.metadata.deep_view(),
            cells: self.cells.deep_view(),
        }
    }
}

impl Record for NotebookDocument {
    open spec fn members(before: Seq<Member>, value: NotebookDocumentModel) -> Seq<Member> {
        before + field::<Uri>("uri"@, value.uri)
            + field::<String>("notebookType"@, value.notebook_type)
            + field::<i32>("version"@, value.version)
            + optional_field::<LSPObject>("metadata"@, value.metadata)
            + field::<Vec<NotebookCell>>("cells"@, value.cells)
    }

    open spec fn read(members: Seq<Member>) -> Result<NotebookDocumentModel, CodecError> {
        let uri = required::<Uri>(members, "uri"@);
        let notebook_type = required::<String>(members, "notebookType"@);
        let version = required::<i32>(members, "version"@);
        let metadata = optional::<LSPObject>(members, "metadata"@);
        let cells = required::<Vec<NotebookCell>>(members, "cells"@);
        if uri is Err {
            Err(uri->Err_0)
        } else if notebook_type is Err {
            Err(notebook_type->Err_0)
        } else if version is Err {
            Err(version->Err_0)
        } else if metadata is Err {
            Err(metadata->Err_0)
        } else if cells is Err {
            Err(cells->Err_0)
        } else {
            Ok(
                NotebookDocumentModel {
                    uri: uri->Ok_0,
                    notebook_type: notebook_type->Ok_0,
                    version: version->Ok_0,
                    metadata: metadata->Ok_0,
                    cells: cells->Ok_0,
                },
            )
        }
    }

    fn write(&self, members: &mut Vec<(String, Json)>) {
        put(members, "uri", &self.uri);
        put(members, "notebookType", &self.notebook_type);
        put(members, "version", &self.version);
        put_optional(members, "metadata", &self.metadata);
        put(members, "cells", &self.cells);
    }

    fn scan(members: &Vec<(String, Json)>) -> (result: Result<NotebookDocument, CodecError>) {
        let uri = get::<Uri>(members, "uri");
        let notebook_type = get::<String>(members, "notebookType");
        let version = get::<i32>(members, "version");
        let metadata = get_optional::<LSPObject>(members, "metadata");
        let cells = get::<Vec<NotebookCell>>(members, "cells");
        if let Err(error) = uri {
            Err(error)
        } else if let Err(error) = notebook_type {
            Err(error)
        } else if let Err(error) = version {
            Err(error)
        } else if let Err(error) = metadata {
            Err(error)
        } else if let Err(error) = cells {
            Err(error)
        } else {
            Ok(
                NotebookDocument {
                    uri: uri.unwrap(),
                    notebook_type: notebook_type.unwrap(),
                    version: version.unwrap(),
                    metadata: metadata.unwrap(),
                    cells: cells.unwrap(),
                },
            )
        }
    }
}

impl NotebookDocument {
    /// A value comes back unchanged from the document that stands for it
    /// where its fields meet what is asked of them here.
    pub proof fn lemma_round_trip(value: NotebookDocumentModel)
        requires
            is_uri_text(value.uri),
            value.metadata matches Some(v) ==> survives::<LSPObject>(v),
            survives::<Vec<NotebookCell>>(value.cells),
        ensures
            survives::<NotebookDocument>(value),
    {
        broadcast use group_lookup;

        reveal(required);
        reveal(optional);
        reveal_strlit("uri");
        reveal_strlit("notebookType");
        reveal_strlit("version");
        reveal_strlit("metadata");
        reveal_strlit("cells");
        Uri::lemma_round_trip(value.uri);
    }
}

/// A notebook cell.
///
/// A cell's document URI must be unique across ALL notebook
/// cells and can therefore be used to uniquely identify a
/// notebook cell or the cell's text document.
///
/// @since 3.17.0
#[derive(Debug, PartialEq, Eq, Clone)]
pub struct NotebookCell {
    /// The cell's kind
    pub kind: NotebookCellKind,
    /// The URI of the cell's text document content.
    pub document: Uri,
    /// Additional metadata stored with the cell.
    pub metadata: Option<LSPObject>,
    /// Additional execution summary information
    /// if supported by the client.
    pub execution_summary: Option<ExecutionSummary>,
}

/// What a [`NotebookCell`] stands for.
pub struct NotebookCellModel {
    pub kind: NotebookCellKind,
    pub document: Seq<char>,
    pub metadata: Option<Seq<(Seq<char>, JsonValue)>>,
    pub execution_summary: Option<ExecutionSummary>,
}

impl DeepView for NotebookCell {
    type V = NotebookCellModel;

    open spec fn deep_view(&self) -> NotebookCellModel {
        NotebookCellModel {
            kind: self.kind.deep_view(),
            document: self.document.deep_view(),
            metadata: self.metadata.deep_view(),
            execution_summary: self.execution_summary.deep_view(),
        }
    }
}

impl Record for NotebookCell {
    open spec fn members(before: Seq<Member>, value: NotebookCellModel) -> Seq<Member> {
        before + field::<NotebookCellKind>("kind"@, value.kind)
            + field::<Uri>("document"@, value.document)
            + optional_field::<LSPObject>("metadata"@, value.metadata)
            + optional_field::<ExecutionSummary>("executionSummary"@, value.execution_summary)
    }

    open spec fn read(members: Seq<Member>) -> Result<NotebookCellModel, CodecError> {
        let kind = required::<NotebookCellKind>(members, "kind"@);
        let document = required::<Uri>(members, "document"@);
        let metadata = optional::<LSPObject>(members, "metadata"@);
        let execution_summary = optional::<ExecutionSummary>(members, "executionSummary"@);
        if kind is Err {
            Err(kind->Err_0)
        } else if document is Err {
            Err(document->Err_0)
        } else if metadata is Err {
            Err(metadata->Err_0)
        } else if execution_summary is Err {
            Err(execution_summary->Err_0)
        } else {
            Ok(
                NotebookCellModel {
                    kind: kind->Ok_0,
                    document: document->Ok_0,
                    metadata: metadata->Ok_0,
                    execution_summary: execution_summary->Ok_0,
                },
            )
        }
    }

    fn write(&self, members: &mut Vec<(String, Json)>) {
        put(members, "kind", &self.kind);
        put(members, "document", &self.document);
        put_optional(members, "metadata", &self.metadata);
        put_optional(members, "executionSummary", &self.execution_summary);
    }

    fn scan(members: &Vec<(String, Json)>) -> (result: Result<NotebookCell, CodecError>) {
        let kind = get::<NotebookCellKind>(members, "kind");
        let document = get::<Uri>(members, "document");
        let metadata = get_optional::<LSPObject>(members, "metadata");
        let execution_summary = get_optional::<ExecutionSummary>(members, "executionSummary");
        if let Err(error) = kind {
            Err(error)
        } else if let Err(error) = document {
            Err(error)
        } else if let Err(error) = metadata {
            Err(error)
        } else if let Err(error) = execution_summary {
            Err(error)
        } else {
            Ok(
                NotebookCell {
                    kind: kind.unwrap(),
                    document: document.unwrap(),
                    metadata: metadata.unwrap(),
                    execution_summary: execution_summary.unwrap(),
                },
            )
        }
    }
}

impl NotebookCell {
    /// A value comes back unchanged from the document that stands for it
    /// where its fields meet what is asked of them here.
    pub proof fn lemma_round_trip(value: NotebookCellModel)
        requires
            is_uri_text(value.document),
            value.metadata matches Some(v) ==> survives::<LSPObject>(v),
        ensures
            survives::<NotebookCell>(value),
    {
        broadcast use group_lookup;

        reveal(required);
        reveal(optional);
        reveal_strlit("kind");
        reveal_strlit("document");
        reveal_strlit("metadata");
        reveal_strlit("executionSummary");
        NotebookCellKind::lemma_survives(value.kind);
        Uri::lemma_round_trip(value.document);
        if let Some(inner) = value.execution_summary {
            ExecutionSummary::lemma_survives(inner);
        }
    }
}

#[derive(Debug, PartialEq, Eq, Structural, Clone)]
pub struct ExecutionSummary {
    /// A strict monotonically increasing value
    /// indicating the execution order of a cell
    /// inside a notebook.
    pub execution_order: u32,
    /// Whether the execution was successful or
    /// not if known by the client.
    pub success: Option<bool>,
}

impl DeepView for ExecutionSummary {
    type V = ExecutionSummary;

    open spec fn deep_view(&self) -> ExecutionSummary {
        ExecutionSummary {
            execution_order: self.execution_order.deep_view(),
            success: self.success.deep_view(),
        }
    }
}

impl Record for ExecutionSummary {
    open spec fn members(before: Seq<Member>, value: ExecutionSummary) -> Seq<Member> {
        before + field::<u32>("executionOrder"@, value.execution_order)
            + optional_field::<bool>("success"@, value.success)
    }

    open spec fn read(members: Seq<Member>) -> Result<ExecutionSummary, CodecError> {
        let execution_order = required::<u32>(members, "executionOrder"@);
        let success = optional::<bool>(members, "success"@);
        if execution_order is Err {
            Err(execution_order->Err_0)
        } else if success is Err {
            Err(success->Err_0)
        } else {
            Ok(
                ExecutionSummary {
                    execution_order: execution_order->Ok_0,
                    success: success->Ok_0,
                },
            )
        }
    }

    fn write(&self, members: &mut Vec<(String, Json)>) {
        put(members, "executionOrder", &self.execution_order);
        put_optional(members, "success", &self.success);
    }

    fn scan(members: &Vec<(String, Json)>) -> (result: Result<ExecutionSummary, CodecError>) {
        let execution_order = get::<u32>(members, "executionOrder");
        let success = get_optional::<bool>(members, "success");
        if let Err(error) = execution_order {
            Err(error)
        } else if let Err(error) = success {
            Err(error)
        } else {
            Ok(
                ExecutionSummary {
                    execution_order: execution_order.unwrap(),
                    success: success.unwrap(),
                },
            )
        }
    }
}

impl ExecutionSummary {
    /// Every value comes back unchanged from the document that stands for it.
    pub proof fn lemma_survives(value: ExecutionSummary)
        ensures
            survives::<ExecutionSummary>(value),
    {
        broadcast use group_lookup;

        reveal(required);
        reveal(optional);
        reveal_strlit("executionOrder");
        reveal_strlit("success");
    }
}

#[derive(Debug, PartialEq, Eq, Structural, Clone, Copy)]
pub enum NotebookCellKind {
    /// A markup-cell is formatted source that is used for display.
    Markup,
    /// A code-cell is source code.
    Code,
}

impl DeepView for NotebookCellKind {
    type V = NotebookCellKind;

    open spec fn deep_view(&self) -> NotebookCellKind {
        *self
    }
}

impl NotebookCellKind {
    /// The integer that stands for a variant on the wire.
    pub open spec fn number(self) -> u8 {
        match self {
            NotebookCellKind::Markup => 1,
            NotebookCellKind::Code => 2,
        }
    }

    /// The variant that an integer stands for, if any.
    pub open spec fn variant(number: int) -> Option<NotebookCellKind> {
        if number == 1 {
            Some(NotebookCellKind::Markup)
        } else if number == 2 {
            Some(NotebookCellKind::Code)
        } else {
            None
        }
    }

    /// Gives the integer that stands for this variant on the wire.
    pub fn to_number(self) -> (number: u8)
        ensures
            number == self.number(),
    {
        match self {
            NotebookCellKind::Markup => 1,
            NotebookCellKind::Code => 2,
        }
    }

    /// Gives the variant that an integer stands for, if any.
    pub fn from_number(number: u64) -> (variant: Option<NotebookCellKind>)
        ensures
            variant == Self::variant(number as int),
    {
        if number == 1 {
            Some(NotebookCellKind::Markup)
        } else if number == 2 {
            Some(NotebookCellKind::Code)
        } else {
            None
        }
    }

    /// Every variant comes back unchanged from the integer that stands for it.
    pub proof fn lemma_survives(value: NotebookCellKind)
        ensures
            survives::<NotebookCellKind>(value),
    {
    }

    /// An integer is refused exactly when it names no variant, and the
    /// error then holds it together with the bounds of those that do.
    pub proof fn lemma_refusal(number: Number)
        requires
            !(number is Float),
        ensures
            NotebookCellKind::decode(JsonValue::Number(number)) is Err <==> !(number matches Number::PosInt(n)
                && 1 <= n <= 2),
            NotebookCellKind::decode(JsonValue::Number(number)) is Err ==> NotebookCellKind::decode(
                JsonValue::Number(number),
            ) == Err::<NotebookCellKind, CodecError>(
                CodecError::InvalidEnumValue { value: number, lowest: 1, highest: 2 },
            ),
    {
    }
}

impl Codec for NotebookCellKind {
    open spec fn encode(value: NotebookCellKind) -> JsonValue {
        JsonValue::Number(Number::PosInt(value.number() as u64))
    }

    open spec fn decode(json: JsonValue) -> Result<NotebookCellKind, CodecError> {
        match json {
            JsonValue::Number(Number::PosInt(n)) => match Self::variant(n as int) {
                Some(variant) => Ok(variant),
                None => Err(
                    CodecError::InvalidEnumValue { value: Number::PosInt(n), lowest: 1, highest: 2 },
                ),
            },
            JsonValue::Number(Number::NegInt(n)) => Err(
                CodecError::InvalidEnumValue { value: Number::NegInt(n), lowest: 1, highest: 2 },
            ),
            _ => Err(CodecError::UnexpectedType),
        }
    }

    fn serialize(&self) -> (json: Json) {
        Json::Number(Number::PosInt(self.to_number() as u64))
    }

    fn deserialize(json: &Json) -> (result: Result<NotebookCellKind, CodecError>) {
        match json {
            Json::Number(Number::PosInt(n)) => match Self::from_number(*n) {
                Some(variant) => Ok(variant),
                None => Err(
                    CodecError::InvalidEnumValue { value: Number::PosInt(*n), lowest: 1, highest: 2 },
                ),
            },
            Json::Number(Number::NegInt(n)) => Err(
                CodecError::InvalidEnumValue { value: Number::NegInt(*n), lowest: 1, highest: 2 },
            ),
            _ => Err(CodecError::UnexpectedType),
        }
    }
}

/// Capabilities specific to the notebook document support.
///
/// @since 3.17.0
#[derive(Debug, PartialEq, Eq, Structural, Clone, Default)]
pub struct NotebookDocumentClientCapabilities {
    /// Capabilities specific to notebook document synchronization
    ///
    /// @since 3.17.0
    pub synchronization: NotebookDocumentSyncClientCapabilities,
}

impl DeepView for NotebookDocumentClientCapabilities {
    type V = NotebookDocumentClientCapabilities;

    open spec fn deep_view(&self) -> NotebookDocumentClientCapabilities {
        NotebookDocumentClientCapabilities {
            synchronization: self.synchronization.deep_view(),
        }
    }
}

impl Record for NotebookDocumentClientCapabilities {
    open spec fn members(before: Seq<Member>, value: NotebookDocumentClientCapabilities) -> Seq<Member> {
        before
            + field::<NotebookDocumentSyncClientCapabilities>(
                "synchronization"@,
                value.synchronization,
            )
    }

    open spec fn read(members: Seq<Member>) -> Result<NotebookDocumentClientCapabilities, CodecError> {
        let synchronization = required::<NotebookDocumentSyncClientCapabilities>(
            members,
            "synchronization"@,
        );
        if synchronization is Err {
            Err(synchronization->Err_0)
        } else {
            Ok(
                NotebookDocumentClientCapabilities {
                    synchronization: synchronization->Ok_0,
                },
            )
        }
    }

    fn write(&self, members: &mut Vec<(String, Json)>) {
        put(members, "synchronization", &self.synchronization);
    }

    fn scan(members: &Vec<(String, Json)>) -> (result: Result<NotebookDocumentClientCapabilities, CodecError>) {
        let synchronization = get::<NotebookDocumentSyncClientCapabilities>(
            members,
            "synchronization",
        );
        if let Err(error) = synchronization {
            Err(error)
        } else {
            Ok(
                NotebookDocumentClientCapabilities {
                    synchronization: synchronization.unwrap(),
                },
            )
        }
    }
}

impl NotebookDocumentClientCapabilities {
    /// Every value comes back unchanged from the document that stands for it.
    pub proof fn lemma_survives(value: NotebookDocumentClientCapabilities)
        ensures
            survives::<NotebookDocumentClientCapabilities>(value),
    {
        broadcast use group_lookup;

        reveal(required);
        reveal_strlit("synchronization");
        NotebookDocumentSyncClientCapabilities::lemma_survives(value.synchronization);
    }
}

/// Notebook specific client capabilities.
///
/// @since 3.17.0
#[derive(Debug, PartialEq, Eq, Structural, Clone, Default)]
pub struct NotebookDocumentSyncClientCapabilities {
    /// Whether implementation supports dynamic registration. If this is
    /// set to `true` the client supports the new
    /// `(TextDocumentRegistrationOptions & StaticRegistrationOptions)`
    /// return value for the corresponding server capability as well.
    pub dynamic_registration: Option<bool>,
    /// The client supports sending execution summary data per cell.
    pub execution_summary_report: Option<bool>,
}

impl DeepView for NotebookDocumentSyncClientCapabilities {
    type V = NotebookDocumentSyncClientCapabilities;

    open spec fn deep_view(&self) -> NotebookDocumentSyncClientCapabilities {
        NotebookDocumentSyncClientCapabilities {
            dynamic_registration: self.dynamic_registration.deep_view(),
            execution_summary_report: self.execution_summary_report.deep_view(),
        }
    }
}

impl Record for NotebookDocumentSyncClientCapabilities {
    open spec fn members(before: Seq<Member>, value: NotebookDocumentSyncClientCapabilities) -> Seq<Member> {
        before + optional_field::<bool>("dynamicRegistration"@, value.dynamic_registration)
            + optional_field::<bool>("executionSummaryReport"@, value.execution_summary_report)
    }

    open spec fn read(members: Seq<Member>) -> Result<NotebookDocumentSyncClientCapabilities, CodecError> {
        let dynamic_registration = optional::<bool>(members, "dynamicRegistration"@);
        let execution_summary_report = optional::<bool>(members, "executionSummaryReport"@);
        if dynamic_registration is Err {
            Err(dynamic_registration->Err_0)
        } else if execution_summary_report is Err {
            Err(execution_summary_report->Err_0)
        } else {
            Ok(
                NotebookDocumentSyncClientCapabilities {
                    dynamic_registration: dynamic_registration->Ok_0,
                    execution_summary_report: execution_summary_report->Ok_0,
                },
            )
        }
    }

    fn write(&self, members: &mut Vec<(String, Json)>) {
        put_optional(members, "dynamicRegistration", &self.dynamic_registration);
        put_optional(members, "executionSummaryReport", &self.execution_summary_report);
    }

    fn scan(members: &Vec<(String, Json)>) -> (result: Result<NotebookDocumentSyncClientCapabilities, CodecError>) {
        let dynamic_registration = get_optional::<bool>(members, "dynamicRegistration");
        let execution_summary_report = get_optional::<bool>(members, "executionSummaryReport");
        if let Err(error) = dynamic_registration {
            Err(error)
        } else if let Err(error) = execution_summary_report {
            Err(error)
        } else {
            Ok(
                NotebookDocumentSyncClientCapabilities {
                    dynamic_registration: dynamic_registration.unwrap(),
                    execution_summary_report: execution_summary_report.unwrap(),
                },
            )
        }
    }
}

impl NotebookDocumentSyncClientCapabilities {
    /// Every value comes back unchanged from the document that stands for it.
    pub proof fn lemma_survives(value: NotebookDocumentSyncClientCapabilities)
        ensures
            survives::<NotebookDocumentSyncClientCapabilities>(value),
    {
        broadcast use group_lookup;

        reveal(optional);
        reveal_strlit("dynamicRegistration");
        reveal_strlit("executionSummaryReport");
    }
}

///  Options specific to a notebook plus its cells
///  to be synced to the server.
///
///  If a selector provides a notebook document
///  filter but no cell selector all cells of a
///  matching notebook document will be synced.
///
///  If a selector provides no notebook document
///  filter but only a cell selector all notebook
///  documents that contain at least one matching
///  cell will be synced.
///
///  @since 3.17.0
#[derive(Debug, PartialEq, Eq, Clone)]
pub struct NotebookDocumentSyncOptions {
    /// The notebooks to be synced
    pub notebook_selector: Vec<NotebookSelector>,
    /// Whether save notification should be forwarded to
    /// the server. Will only be honored if mode === `notebook`.
    pub save: Option<bool>,
}

/// What a [`NotebookDocumentSyncOptions`] stands for.
pub struct NotebookDocumentSyncOptionsModel {
    pub notebook_selector: Seq<NotebookSelectorModel>,
    pub save: Option<bool>,
}

impl DeepView for NotebookDocumentSyncOptions {
    type V = NotebookDocumentSyncOptionsModel;

    open spec fn deep_view(&self) -> NotebookDocumentSyncOptionsModel {
        NotebookDocumentSyncOptionsModel {
            notebook_selector: self.notebook_selector.deep_view(),
            save: self.save.deep_view(),
        }
    }
}

impl Record for NotebookDocumentSyncOptions {
    open spec fn members(before: Seq<Member>, value: NotebookDocumentSyncOptionsModel) -> Seq<Member> {
        before + field::<Vec<NotebookSelector>>("notebookSelector"@, value.notebook_selector)
            + optional_field::<bool>("save"@, value.save)
    }

    open spec fn read(members: Seq<Member>) -> Result<NotebookDocumentSyncOptionsModel, CodecError> {
        let notebook_selector = required::<Vec<NotebookSelector>>(members, "notebookSelector"@);
        let save = optional::<bool>(members, "save"@);
        if notebook_selector is Err {
            Err(notebook_selector->Err_0)
        } else if save is Err {
            Err(save->Err_0)
        } else {
            Ok(
                NotebookDocumentSyncOptionsModel {
                    notebook_selector: notebook_selector->Ok_0,
                    save: save->Ok_0,
                },
            )
        }
    }

    fn write(&self, members: &mut Vec<(String, Json)>) {
        put(members, "notebookSelector", &self.notebook_selector);
        put_optional(members, "save", &self.save);
    }

    fn scan(members: &Vec<(String, Json)>) -> (result: Result<NotebookDocumentSyncOptions, CodecError>) {
        let notebook_selector = get::<Vec<NotebookSelector>>(members, "notebookSelector");
        let save = get_optional::<bool>(members, "save");
        if let Err(error) = notebook_selector {
            Err(error)
        } else if let Err(error) = save {
            Err(error)
        } else {
            Ok(
                NotebookDocumentSyncOptions {
                    notebook_selector: notebook_selector.unwrap(),
                    save: save.unwrap(),
                },
            )
        }
    }
}

impl NotebookDocumentSyncOptions {
    /// A value comes back unchanged from the document that stands for it
    /// where its fields meet what is asked of them here.
    pub proof fn lemma_round_trip(value: NotebookDocumentSyncOptionsModel)
        requires
            survives::<Vec<NotebookSelector>>(value.notebook_selector),
        ensures
            survives::<NotebookDocumentSyncOptions>(value),
    {
        broadcast use group_lookup;

        reveal(required);
        reveal(optional);
        reveal_strlit("notebookSelector");
        reveal_strlit("save");
    }
}

/// Registration options specific to a notebook.
///
/// @since 3.17.0
#[derive(Debug, PartialEq, Eq, Clone)]
pub struct NotebookDocumentSyncRegistrationOptions {
    /// The notebooks to be synced
    pub notebook_selector: Vec<NotebookSelector>,
    /// Whether save notification should be forwarded to
    /// the server. Will only be honored if mode === `notebook`.
    pub save: Option<bool>,
    /// The id used to register the request. The id can be used to deregister
    /// the request again. See also Registration#id.
    pub id: Option<String>,
}

/// What a [`NotebookDocumentSyncRegistrationOptions`] stands for.
pub struct NotebookDocumentSyncRegistrationOptionsModel {
    pub notebook_selector: Seq<NotebookSelectorModel>,
    pub save: Option<bool>,
    pub id: Option<Seq<char>>,
}

impl DeepView for NotebookDocumentSyncRegistrationOptions {
    type V = NotebookDocumentSyncRegistrationOptionsModel;

    open spec fn deep_view(&self) -> NotebookDocumentSyncRegistrationOptionsModel {
        NotebookDocumentSyncRegistrationOptionsModel {
            notebook_selector: self.notebook_selector.deep_view(),
            save: self.save.deep_view(),
            id: self.id.deep_view(),
        }
    }
}

impl Record for NotebookDocumentSyncRegistrationOptions {
    open spec fn members(before: Seq<Member>, value: NotebookDocumentSyncRegistrationOptionsModel) -> Seq<Member> {
        before + field::<Vec<NotebookSelector>>("notebookSelector"@, value.notebook_selector)
            + optional_field::<bool>("save"@, value.save)
            + optional_field::<String>("id"@, value.id)
    }

    open spec fn read(members: Seq<Member>) -> Result<NotebookDocumentSyncRegistrationOptionsModel, CodecError> {
        let notebook_selector = required::<Vec<NotebookSelector>>(members, "notebookSelector"@);
        let save = optional::<bool>(members, "save"@);
        let id = optional::<String>(members, "id"@);
        if notebook_selector is Err {
            Err(notebook_selector->Err_0)
        } else if save is Err {
            Err(save->Err_0)
        } else if id is Err {
            Err(id->Err_0)
        } else {
            Ok(
                NotebookDocumentSyncRegistrationOptionsModel {
                    notebook_selector: notebook_selector->Ok_0,
                    save: save->Ok_0,
                    id: id->Ok_0,
                },
            )
        }
    }

    fn write(&self, members: &mut Vec<(String, Json)>) {
        put(members, "notebookSelector", &self.notebook_selector);
        put_optional(members, "save", &self.save);
        put_optional(members, "id", &self.id);
    }

    fn scan(members: &Vec<(String, Json)>) -> (result: Result<NotebookDocumentSyncRegistrationOptions, CodecError>) {
        let notebook_selector = get::<Vec<NotebookSelector>>(members, "notebookSelector");
        let save = get_optional::<bool>(members, "save");
        let id = get_optional::<String>(members, "id");
        if let Err(error) = notebook_selector {
            Err(error)
        } else if let Err(error) = save {
            Err(error)
        } else if let Err(error) = id {
            Err(error)
        } else {
            Ok(
                NotebookDocumentSyncRegistrationOptions {
                    notebook_selector: notebook_selector.unwrap(),
                    save: save.unwrap(),
                    id: id.unwrap(),
                },
            )
        }
    }
}

impl NotebookDocumentSyncRegistrationOptions {
    /// A value comes back unchanged from the document that stands for it
    /// where its fields meet what is asked of them here.
    pub proof fn lemma_round_trip(value: NotebookDocumentSyncRegistrationOptionsModel)
        requires
            survives::<Vec<NotebookSelector>>(value.notebook_selector),
        ensures
            survives::<NotebookDocumentSyncRegistrationOptions>(value),
    {
        broadcast use group_lookup;

        reveal(required);
        reveal(optional);
        reveal_strlit("notebookSelector");
        reveal_strlit("save");
        reveal_strlit("id");
    }
}

/// A notebook cell text document filter denotes a cell text
/// document by different properties.
///
/// @since 3.17.0
#[derive(Debug, PartialEq, Eq, Clone)]
pub struct NotebookCellTextDocumentFilter {
    /// A filter that matches against the notebook
    /// containing the notebook cell. If a string
    /// value is provided it matches against the
    /// notebook type. '*' matches every notebook.
    pub notebook: Notebook,
    /// A language id like `python`.
    ///
    /// Will be matched against the language id of the
    /// notebook cell document. '*' matches every language.
    pub language: Option<String>,
}

/// What a [`NotebookCellTextDocumentFilter`] stands for.
pub struct NotebookCellTextDocumentFilterModel {
    pub notebook: NotebookModel,
    pub language: Option<Seq<char>>,
}

impl DeepView for NotebookCellTextDocumentFilter {
    type V = NotebookCellTextDocumentFilterModel;

    open spec fn deep_view(&self) -> NotebookCellTextDocumentFilterModel {
        NotebookCellTextDocumentFilterModel {
            notebook: self.notebook.deep_view(),
            language: self.language.deep_view(),
        }
    }
}

impl Record for NotebookCellTextDocumentFilter {
    open spec fn members(before: Seq<Member>, value: NotebookCellTextDocumentFilterModel) -> Seq<Member> {
        before + field::<Notebook>("notebook"@, value.notebook)
            + optional_field::<String>("language"@, value.language)
    }

    open spec fn read(members: Seq<Member>) -> Result<NotebookCellTextDocumentFilterModel, CodecError> {
        let notebook = required::<Notebook>(members, "notebook"@);
        let language = optional::<String>(members, "language"@);
        if notebook is Err {
            Err(notebook->Err_0)
        } else if language is Err {
            Err(language->Err_0)
        } else {
            Ok(
                NotebookCellTextDocumentFilterModel {
                    notebook: notebook->Ok_0,
                    language: language->Ok_0,
                },
            )
        }
    }

    fn write(&self, members: &mut Vec<(String, Json)>) {
        put(members, "notebook", &self.notebook);
        put_optional(members, "language", &self.language);
    }

    fn scan(members: &Vec<(String, Json)>) -> (result: Result<NotebookCellTextDocumentFilter, CodecError>) {
        let notebook = get::<Notebook>(members, "notebook");
        let language = get_optional::<String>(members, "language");
        if let Err(error) = notebook {
            Err(error)
        } else if let Err(error) = language {
            Err(error)
        } else {
            Ok(
                NotebookCellTextDocumentFilter {
                    notebook: notebook.unwrap(),
                    language: language.unwrap(),
                },
            )
        }
    }
}

impl NotebookCellTextDocumentFilter {
    /// A value comes back unchanged from the document that stands for it
    /// where its fields meet what is asked of them here.
    pub proof fn lemma_round_trip(value: NotebookCellTextDocumentFilterModel)
        requires
            survives::<Notebook>(value.notebook),
        ensures
            survives::<NotebookCellTextDocumentFilter>(value),
    {
        broadcast use group_lookup;

        reveal(required);
        reveal(optional);
        reveal_strlit("notebook");
        reveal_strlit("language");
    }
}

#[derive(Debug, PartialEq, Eq, Clone)]
#[allow(inconsistent_fields)]
pub enum NotebookSelector {
    ByNotebook {
        /// The notebook to be synced. If a string
        /// value is provided it matches against the
        /// notebook type. '*' matches every notebook.
        notebook: Notebook,
        /// The cells of the matching notebook to be synced.
        cells: Option<Vec<NotebookCellSelector>>,
    },
    ByCells {
        /// The notebook to be synced. If a string
        /// value is provided it matches against the
        /// notebook type. '*' matches every notebook.
        notebook: Option<Notebook>,
        /// The cells of the matching notebook to be synced.
        cells: Vec<NotebookCellSelector>,
    },
}

/// What a [`NotebookSelector`] stands for.
#[allow(inconsistent_fields)]
pub enum NotebookSelectorModel {
    ByNotebook { notebook: NotebookModel, cells: Option<Seq<NotebookCellSelectorModel>> },
    ByCells { notebook: Option<NotebookModel>, cells: Seq<NotebookCellSelectorModel> },
}

impl DeepView for NotebookSelector {
    type V = NotebookSelectorModel;

    open spec fn deep_view(&self) -> NotebookSelectorModel {
        match self {
            NotebookSelector::ByNotebook { notebook, cells } => NotebookSelectorModel::ByNotebook {
                notebook: notebook.deep_view(),
                cells: cells.deep_view(),
            },
            NotebookSelector::ByCells { notebook, cells } => NotebookSelectorModel::ByCells {
                notebook: notebook.deep_view(),
                cells: cells.deep_view(),
            },
        }
    }
}

impl NotebookSelector {
    /// The members that stand for a value, in the order in which they are
    /// written.
    pub open spec fn members(value: NotebookSelectorModel) -> Seq<Member> {
        match value {
            NotebookSelectorModel::ByNotebook { notebook, cells } => Seq::empty()
                + field::<Notebook>("notebook"@, notebook)
                + optional_field::<Vec<NotebookCellSelector>>("cells"@, cells),
            NotebookSelectorModel::ByCells { notebook, cells } => Seq::empty()
                + optional_field::<Notebook>("notebook"@, notebook)
                + field::<Vec<NotebookCellSelector>>("cells"@, cells),
        }
    }

    /// The value of the variant `ByNotebook` that the members of an object
    /// stand for.
    pub open spec fn read_by_notebook(members: Seq<Member>) -> Result<NotebookSelectorModel, CodecError> {
        let notebook = required::<Notebook>(members, "notebook"@);
        let cells = optional::<Vec<NotebookCellSelector>>(members, "cells"@);
        if notebook is Err {
            Err(notebook->Err_0)
        } else if cells is Err {
            Err(cells->Err_0)
        } else {
            Ok(
                NotebookSelectorModel::ByNotebook {
                    notebook: notebook->Ok_0,
                    cells: cells->Ok_0,
                },
            )
        }
    }

    /// Reads a value of the variant `ByNotebook` from the members of an object.
    pub fn scan_by_notebook(members: &Vec<(String, Json)>) -> (result: Result<NotebookSelector, CodecError>)
        ensures
            outcome(result) == Self::read_by_notebook(members.deep_view()),
    {
        let notebook = get::<Notebook>(members, "notebook");
        let cells = get_optional::<Vec<NotebookCellSelector>>(members, "cells");
        if let Err(error) = notebook {
            Err(error)
        } else if let Err(error) = cells {
            Err(error)
        } else {
            Ok(
                NotebookSelector::ByNotebook {
                    notebook: notebook.unwrap(),
                    cells: cells.unwrap(),
                },
            )
        }
    }

    /// The value of the variant `ByCells` that the members of an object
    /// stand for.
    pub open spec fn read_by_cells(members: Seq<Member>) -> Result<NotebookSelectorModel, CodecError> {
        let notebook = optional::<Notebook>(members, "notebook"@);
        let cells = required::<Vec<NotebookCellSelector>>(members, "cells"@);
        if notebook is Err {
            Err(notebook->Err_0)
        } else if cells is Err {
            Err(cells->Err_0)
        } else {
            Ok(
                NotebookSelectorModel::ByCells {
                    notebook: notebook->Ok_0,
                    cells: cells->Ok_0,
                },
            )
        }
    }

    /// Reads a value of the variant `ByCells` from the members of an object.
    pub fn scan_by_cells(members: &Vec<(String, Json)>) -> (result: Result<NotebookSelector, CodecError>)
        ensures
            outcome(result) == Self::read_by_cells(members.deep_view()),
    {
        let notebook = get_optional::<Notebook>(members, "notebook");
        let cells = get::<Vec<NotebookCellSelector>>(members, "cells");
        if let Err(error) = notebook {
            Err(error)
        } else if let Err(error) = cells {
            Err(error)
        } else {
            Ok(
                NotebookSelector::ByCells {
                    notebook: notebook.unwrap(),
                    cells: cells.unwrap(),
                },
            )
        }
    }

    /// A value comes back unchanged from its document exactly when its own
    /// variant reads its members as the value and no variant declared before
    /// reads them at all.
    pub proof fn lemma_round_trip(value: NotebookSelectorModel)
        ensures
            survives::<NotebookSelector>(value) <==> match value {
                NotebookSelectorModel::ByNotebook { .. } => Self::read_by_notebook(Self::members(value)) == Ok::<NotebookSelectorModel, CodecError>(value),
                NotebookSelectorModel::ByCells { .. } => Self::read_by_notebook(Self::members(value)) is Err
                    && Self::read_by_cells(Self::members(value)) == Ok::<NotebookSelectorModel, CodecError>(value),
            },
    {
    }
}

impl Codec for NotebookSelector {
    open spec fn encode(value: NotebookSelectorModel) -> JsonValue {
        JsonValue::Object(Self::members(value))
    }

    open spec fn decode(json: JsonValue) -> Result<NotebookSelectorModel, CodecError> {
        match json {
            JsonValue::Object(members) => {
                if let Ok(value) = Self::read_by_notebook(members) {
                    Ok(value)
                } else if let Ok(value) = Self::read_by_cells(members) {
                    Ok(value)
                } else {
                    Err(CodecError::NoVariantMatched)
                }
            },
            _ => Err(CodecError::NoVariantMatched),
        }
    }

    fn serialize(&self) -> (json: Json) {
        let mut members: Vec<(String, Json)> = Vec::new();
        proof {
            assert(members.deep_view() =~= Seq::empty());
        }
        match self {
            NotebookSelector::ByNotebook { notebook, cells } => {
                put(&mut members, "notebook", notebook);
                put_optional(&mut members, "cells", cells);
            },
            NotebookSelector::ByCells { notebook, cells } => {
                put_optional(&mut members, "notebook", notebook);
                put(&mut members, "cells", cells);
            },
        }
        proof {
            lemma_object_view(members);
        }
        Json::Object(members)
    }

    fn deserialize(json: &Json) -> (result: Result<NotebookSelector, CodecError>) {
        match json {
            Json::Object(members) => {
                proof {
                    lemma_object_view(*members);
                }
                if let Ok(value) = Self::scan_by_notebook(members) {
                    Ok(value)
                } else if let Ok(value) = Self::scan_by_cells(members) {
                    Ok(value)
                } else {
                    Err(CodecError::NoVariantMatched)
                }
            },
            _ => Err(CodecError::NoVariantMatched),
        }
    }
}

#[derive(Debug, PartialEq, Eq, Clone)]
pub struct NotebookCellSelector {
    pub language: String,
}

/// What a [`NotebookCellSelector`] stands for.
pub struct NotebookCellSelectorModel {
    pub language: Seq<char>,
}

impl DeepView for NotebookCellSelector {
    type V = NotebookCellSelectorModel;

    open spec fn deep_view(&self) -> NotebookCellSelectorModel {
        NotebookCellSelectorModel {
            language: self.language.deep_view(),
        }
    }
}

impl Record for NotebookCellSelector {
    open spec fn members(before: Seq<Member>, value: NotebookCellSelectorModel) -> Seq<Member> {
        before + field::<String>("language"@, value.language)
    }

    open spec fn read(members: Seq<Member>) -> Result<NotebookCellSelectorModel, CodecError> {
        let language = required::<String>(members, "language"@);
        if language is Err {
            Err(language->Err_0)
        } else {
            Ok(
                NotebookCellSelectorModel {
                    language: language->Ok_0,
                },
            )
        }
    }

    fn write(&self, members: &mut Vec<(String, Json)>) {
        put(members, "language", &self.language);
    }

    fn scan(members: &Vec<(String, Json)>) -> (result: Result<NotebookCellSelector, CodecError>) {
        let language = get::<String>(members, "language");
        if let Err(error) = language {
            Err(error)
        } else {
            Ok(
                NotebookCellSelector {
                    language: language.unwrap(),
                },
            )
        }
    }
}

impl NotebookCellSelector {
    /// Every value comes back unchanged from the document that stands for it.
    pub proof fn lemma_survives(value: NotebookCellSelectorModel)
        ensures
            survives::<NotebookCellSelector>(value),
    {
        broadcast use group_lookup;

        reveal(required);
        reveal_strlit("language");
    }
}

#[derive(Debug, PartialEq, Eq, Clone)]
pub enum Notebook {
    String(String),
    NotebookDocumentFilter(NotebookDocumentFilter),
}

/// What a [`Notebook`] stands for.
pub enum NotebookModel {
    String(Seq<char>),
    NotebookDocumentFilter(NotebookDocumentFilterModel),
}

impl DeepView for Notebook {
    type V = NotebookModel;

    open spec fn deep_view(&self) -> NotebookModel {
        match self {
            Notebook::String(value) => NotebookModel::String(value.deep_view()),
            Notebook::NotebookDocumentFilter(value) => NotebookModel::NotebookDocumentFilter(value.deep_view()),
        }
    }
}

impl Codec for Notebook {
    open spec fn encode(value: NotebookModel) -> JsonValue {
        match value {
            NotebookModel::String(value) => String::encode(value),
            NotebookModel::NotebookDocumentFilter(value) => NotebookDocumentFilter::encode(value),
        }
    }

    open spec fn decode(json: JsonValue) -> Result<NotebookModel, CodecError> {
        if let Ok(value) = String::decode(json) {
            Ok(NotebookModel::String(value))
        } else if let Ok(value) = NotebookDocumentFilter::decode(json) {
            Ok(NotebookModel::NotebookDocumentFilter(value))
        } else {
            Err(CodecError::NoVariantMatched)
        }
    }

    fn serialize(&self) -> (json: Json) {
        match self {
            Notebook::String(value) => value.serialize(),
            Notebook::NotebookDocumentFilter(value) => value.serialize(),
        }
    }

    fn deserialize(json: &Json) -> (result: Result<Notebook, CodecError>) {
        if let Ok(value) = String::deserialize(json) {
            Ok(Notebook::String(value))
        } else if let Ok(value) = NotebookDocumentFilter::deserialize(json) {
            Ok(Notebook::NotebookDocumentFilter(value))
        } else {
            Err(CodecError::NoVariantMatched)
        }
    }
}

impl Notebook {
    /// A value comes back unchanged from its document exactly when its
    /// payload does and no variant declared before its own reads the
    /// payload's document.
    pub proof fn lemma_round_trip(value: NotebookModel)
        ensures
            survives::<Notebook>(value) <==> match value {
                NotebookModel::String(v) => survives::<String>(v),
                NotebookModel::NotebookDocumentFilter(v) => String::decode(NotebookDocumentFilter::encode(v)) is Err
                    && survives::<NotebookDocumentFilter>(v),
            },
    {
    }
}

/// A notebook document filter denotes a notebook document by
/// different properties.
///
/// @since 3.17.0
#[derive(Debug, PartialEq, Eq, Clone)]
#[allow(inconsistent_fields)]
pub enum NotebookDocumentFilter {
    ByType {
        /// The type of the enclosing notebook.
        notebook_type: String,
        /// A Uri [scheme](#Uri.scheme), like `file` or `untitled`.
        scheme: Option<String>,
        /// A glob pattern.
        pattern: Option<String>,
    },
    ByScheme {
        /// The type of the enclosing notebook.
        notebook_type: Option<String>,
        /// A Uri [scheme](#Uri.scheme), like `file` or `untitled`.
        scheme: String,
        /// A glob pattern.
        pattern: Option<String>,
    },
    ByPattern {
        /// The type of the enclosing notebook.
        notebook_type: Option<String>,
        /// A Uri [scheme](#Uri.scheme), like `file` or `untitled`.
        scheme: Option<String>,
        /// A glob pattern.
        pattern: String,
    },
}

/// What a [`NotebookDocumentFilter`] stands for.
#[allow(inconsistent_fields)]
pub enum NotebookDocumentFilterModel {
    ByType { notebook_type: Seq<char>, scheme: Option<Seq<char>>, pattern: Option<Seq<char>> },
    ByScheme { notebook_type: Option<Seq<char>>, scheme: Seq<char>, pattern: Option<Seq<char>> },
    ByPattern { notebook_type: Option<Seq<char>>, scheme: Option<Seq<char>>, pattern: Seq<char> },
}

impl DeepView for NotebookDocumentFilter {
    type V = NotebookDocumentFilterModel;

    open spec fn deep_view(&self) -> NotebookDocumentFilterModel {
        match self {
            NotebookDocumentFilter::ByType { notebook_type, scheme, pattern } => NotebookDocumentFilterModel::ByType {
                notebook_type: notebook_type.deep_view(),
                scheme: scheme.deep_view(),
                pattern: pattern.deep_view(),
            },
            NotebookDocumentFilter::ByScheme { notebook_type, scheme, pattern } => NotebookDocumentFilterModel::ByScheme {
                notebook_type: notebook_type.deep_view(),
                scheme: scheme.deep_view(),
                pattern: pattern.deep_view(),
            },
            NotebookDocumentFilter::ByPattern { notebook_type, scheme, pattern } => NotebookDocumentFilterModel::ByPattern {
                notebook_type: notebook_type.deep_view(),
                scheme: scheme.deep_view(),
                pattern: pattern.deep_view(),
            },
        }
    }
}

impl NotebookDocumentFilter {
    /// The members that stand for a value, in the order in which they are
    /// written.
    pub open spec fn members(value: NotebookDocumentFilterModel) -> Seq<Member> {
        match value {
            NotebookDocumentFilterModel::ByType { notebook_type, scheme, pattern } => Seq::empty()
                + field::<String>("notebookType"@, notebook_type)
                + optional_field::<String>("scheme"@, scheme)
                + optional_field::<String>("pattern"@, pattern),
            NotebookDocumentFilterModel::ByScheme { notebook_type, scheme, pattern } => Seq::empty()
                + optional_field::<String>("notebookType"@, notebook_type)
                + field::<String>("scheme"@, scheme)
                + optional_field::<String>("pattern"@, pattern),
            NotebookDocumentFilterModel::ByPattern { notebook_type, scheme, pattern } => Seq::empty()
                + optional_field::<String>("notebookType"@, notebook_type)
                + optional_field::<String>("scheme"@, scheme)
                + field::<String>("pattern"@, pattern),
        }
    }

    /// The value of the variant `ByType` that the members of an object
    /// stand for.
    pub open spec fn read_by_type(members: Seq<Member>) -> Result<NotebookDocumentFilterModel, CodecError> {
        let notebook_type = required::<String>(members, "notebookType"@);
        let scheme = optional::<String>(members, "scheme"@);
        let pattern = optional::<String>(members, "pattern"@);
        if notebook_type is Err {
            Err(notebook_type->Err_0)
        } else if scheme is Err {
            Err(scheme->Err_0)
        } else if pattern is Err {
            Err(pattern->Err_0)
        } else {
            Ok(
                NotebookDocumentFilterModel::ByType {
                    notebook_type: notebook_type->Ok_0,
                    scheme: scheme->Ok_0,
                    pattern: pattern->Ok_0,
                },
            )
        }
    }

    /// Reads a value of the variant `ByType` from the members of an object.
    pub fn scan_by_type(members: &Vec<(String, Json)>) -> (result: Result<NotebookDocumentFilter, CodecError>)
        ensures
            outcome(result) == Self::read_by_type(members.deep_view()),
    {
        let notebook_type = get::<String>(members, "notebookType");
        let scheme = get_optional::<String>(members, "scheme");
        let pattern = get_optional::<String>(members, "pattern");
        if let Err(error) = notebook_type {
            Err(error)
        } else if let Err(error) = scheme {
            Err(error)
        } else if let Err(error) = pattern {
            Err(error)
        } else {
            Ok(
                NotebookDocumentFilter::ByType {
                    notebook_type: notebook_type.unwrap(),
                    scheme: scheme.unwrap(),
                    pattern: pattern.unwrap(),
                },
            )
        }
    }

    /// The value of the variant `ByScheme` that the members of an object
    /// stand for.
    pub open spec fn read_by_scheme(members: Seq<Member>) -> Result<NotebookDocumentFilterModel, CodecError> {
        let notebook_type = optional::<String>(members, "notebookType"@);
        let scheme = required::<String>(members, "scheme"@);
        let pattern = optional::<String>(members, "pattern"@);
        if notebook_type is Err {
            Err(notebook_type->Err_0)
        } else if scheme is Err {
            Err(scheme->Err_0)
        } else if pattern is Err {
            Err(pattern->Err_0)
        } else {
            Ok(
                NotebookDocumentFilterModel::ByScheme {
                    notebook_type: notebook_type->Ok_0,
                    scheme: scheme->Ok_0,
                    pattern: pattern->Ok_0,
                },
            )
        }
    }

    /// Reads a value of the variant `ByScheme` from the members of an object.
    pub fn scan_by_scheme(members: &Vec<(String, Json)>) -> (result: Result<NotebookDocumentFilter, CodecError>)
        ensures
            outcome(result) == Self::read_by_scheme(members.deep_view()),
    {
        let notebook_type = get_optional::<String>(members, "notebookType");
        let scheme = get::<String>(members, "scheme");
        let pattern = get_optional::<String>(members, "pattern");
        if let Err(error) = notebook_type {
            Err(error)
        } else if let Err(error) = scheme {
            Err(error)
        } else if let Err(error) = pattern {
            Err(error)
        } else {
            Ok(
                NotebookDocumentFilter::ByScheme {
                    notebook_type: notebook_type.unwrap(),
                    scheme: scheme.unwrap(),
                    pattern: pattern.unwrap(),
                },
            )
        }
    }

    /// The value of the variant `ByPattern` that the members of an object
    /// stand for.
    pub open spec fn read_by_pattern(members: Seq<Member>) -> Result<NotebookDocumentFilterModel, CodecError> {
        let notebook_type = optional::<String>(members, "notebookType"@);
        let scheme = optional::<String>(members, "scheme"@);
        let pattern = required::<String>(members, "pattern"@);
        if notebook_type is Err {
            Err(notebook_type->Err_0)
        } else if scheme is Err {
            Err(scheme->Err_0)
        } else if pattern is Err {
            Err(pattern->Err_0)
        } else {
            Ok(
                NotebookDocumentFilterModel::ByPattern {
                    notebook_type: notebook_type->Ok_0,
                    scheme: scheme->Ok_0,
                    pattern: pattern->Ok_0,
                },
            )
        }
    }

    /// Reads a value of the variant `ByPattern` from the members of an object.
    pub fn scan_by_pattern(members: &Vec<(String, Json)>) -> (result: Result<NotebookDocumentFilter, CodecError>)
        ensures
            outcome(result) == Self::read_by_pattern(members.deep_view()),
    {
        let notebook_type = get_optional::<String>(members, "notebookType");
        let scheme = get_optional::<String>(members, "scheme");
        let pattern = get::<String>(members, "pattern");
        if let Err(error) = notebook_type {
            Err(error)
        } else if let Err(error) = scheme {
            Err(error)
        } else if let Err(error) = pattern {
            Err(error)
        } else {
            Ok(
                NotebookDocumentFilter::ByPattern {
                    notebook_type: notebook_type.unwrap(),
                    scheme: scheme.unwrap(),
                    pattern: pattern.unwrap(),
                },
            )
        }
    }

    /// A value comes back unchanged from its document exactly when its own
    /// variant reads its members as the value and no variant declared before
    /// reads them at all.
    pub proof fn lemma_round_trip(value: NotebookDocumentFilterModel)
        ensures
            survives::<NotebookDocumentFilter>(value) <==> match value {
                NotebookDocumentFilterModel::ByType { .. } => Self::read_by_type(Self::members(value)) == Ok::<NotebookDocumentFilterModel, CodecError>(value),
                NotebookDocumentFilterModel::ByScheme { .. } => Self::read_by_type(Self::members(value)) is Err
                    && Self::read_by_scheme(Self::members(value)) == Ok::<NotebookDocumentFilterModel, CodecError>(value),
                NotebookDocumentFilterModel::ByPattern { .. } => Self::read_by_type(Self::members(value)) is Err
                    && Self::read_by_scheme(Self::members(value)) is Err
                    && Self::read_by_pattern(Self::members(value)) == Ok::<NotebookDocumentFilterModel, CodecError>(value),
            },
    {
    }
}

impl Codec for NotebookDocumentFilter {
    open spec fn encode(value: NotebookDocumentFilterModel) -> JsonValue {
        JsonValue::Object(Self::members(value))
    }

    open spec fn decode(json: JsonValue) -> Result<NotebookDocumentFilterModel, CodecError> {
        match json {
            JsonValue::Object(members) => {
                if let Ok(value) = Self::read_by_type(members) {
                    Ok(value)
                } else if let Ok(value) = Self::read_by_scheme(members) {
                    Ok(value)
                } else if let Ok(value) = Self::read_by_pattern(members) {
                    Ok(value)
                } else {
                    Err(CodecError::NoVariantMatched)
                }
            },
            _ => Err(CodecError::NoVariantMatched),
        }
    }

    fn serialize(&self) -> (json: Json) {
        let mut members: Vec<(String, Json)> = Vec::new();
        proof {
            assert(members.deep_view() =~= Seq::empty());
        }
        match self {
            NotebookDocumentFilter::ByType { notebook_type, scheme, pattern } => {
                put(&mut members, "notebookType", notebook_type);
                put_optional(&mut members, "scheme", scheme);
                put_optional(&mut members, "pattern", pattern);
            },
            NotebookDocumentFilter::ByScheme { notebook_type, scheme, pattern } => {
                put_optional(&mut members, "notebookType", notebook_type);
                put(&mut members, "scheme", scheme);
                put_optional(&mut members, "pattern", pattern);
            },
            NotebookDocumentFilter::ByPattern { notebook_type, scheme, pattern } => {
                put_optional(&mut members, "notebookType", notebook_type);
                put_optional(&mut members, "scheme", scheme);
                put(&mut members, "pattern", pattern);
            },
        }
        proof {
            lemma_object_view(members);
        }
        Json::Object(members)
    }

    fn deserialize(json: &Json) -> (result: Result<NotebookDocumentFilter, CodecError>) {
        match json {
            Json::Object(members) => {
                proof {
                    lemma_object_view(*members);
                }
                if let Ok(value) = Self::scan_by_type(members) {
                    Ok(value)
                } else if let Ok(value) = Self::scan_by_scheme(members) {
                    Ok(value)
                } else if let Ok(value) = Self::scan_by_pattern(members) {
                    Ok(value)
                } else {
                    Err(CodecError::NoVariantMatched)
                }
            },
            _ => Err(CodecError::NoVariantMatched),
        }
    }
}

/// The params sent in an open notebook document notification.
///
/// @since 3.17.0
#[derive(Debug, PartialEq, Eq, Clone)]
pub struct DidOpenNotebookDocumentParams {
    /// The notebook document that got opened.
    pub notebook_document: NotebookDocument,
    /// The text documents that represent the content
    /// of a notebook cell.
    pub cell_text_documents: Vec<TextDocumentItem>,
}

/// What a [`DidOpenNotebookDocumentParams`] stands for.
pub struct DidOpenNotebookDocumentParamsModel {
    pub notebook_document: NotebookDocumentModel,
    pub cell_text_documents: Seq<TextDocumentItemModel>,
}

impl DeepView for DidOpenNotebookDocumentParams {
    type V = DidOpenNotebookDocumentParamsModel;

    open spec fn deep_view(&self) -> DidOpenNotebookDocumentParamsModel {
        DidOpenNotebookDocumentParamsModel {
            notebook_document: self.notebook_document.deep_view(),
            cell_text_documents: self.cell_text_documents.deep_view(),
        }
    }
}

impl Record for DidOpenNotebookDocumentParams {
    open spec fn members(before: Seq<Member>, value: DidOpenNotebookDocumentParamsModel) -> Seq<Member> {
        before + field::<NotebookDocument>("notebookDocument"@, value.notebook_document)
            + field::<Vec<TextDocumentItem>>("cellTextDocuments"@, value.cell_text_documents)
    }

    open spec fn read(members: Seq<Member>) -> Result<DidOpenNotebookDocumentParamsModel, CodecError> {
        let notebook_document = required::<NotebookDocument>(members, "notebookDocument"@);
        let cell_text_documents = required::<Vec<TextDocumentItem>>(members, "cellTextDocuments"@);
        if notebook_document is Err {
            Err(notebook_document->Err_0)
        } else if cell_text_documents is Err {
            Err(cell_text_documents->Err_0)
        } else {
            Ok(
                DidOpenNotebookDocumentParamsModel {
                    notebook_document: notebook_document->Ok_0,
                    cell_text_documents: cell_text_documents->Ok_0,
                },
            )
        }
    }

    fn write(&self, members: &mut Vec<(String, Json)>) {
        put(members, "notebookDocument", &self.notebook_document);
        put(members, "cellTextDocuments", &self.cell_text_documents);
    }

    fn scan(members: &Vec<(String, Json)>) -> (result: Result<DidOpenNotebookDocumentParams, CodecError>) {
        let notebook_document = get::<NotebookDocument>(members, "notebookDocument");
        let cell_text_documents = get::<Vec<TextDocumentItem>>(members, "cellTextDocuments");
        if let Err(error) = notebook_document {
            Err(error)
        } else if let Err(error) = cell_text_documents {
            Err(error)
        } else {
            Ok(
                DidOpenNotebookDocumentParams {
                    notebook_document: notebook_document.unwrap(),
                    cell_text_documents: cell_text_documents.unwrap(),
                },
            )
        }
    }
}

impl DidOpenNotebookDocumentParams {
    /// A value comes back unchanged from the document that stands for it
    /// where its fields meet what is asked of them here.
    pub proof fn lemma_round_trip(value: DidOpenNotebookDocumentParamsModel)
        requires
            survives::<NotebookDocument>(value.notebook_document),
            survives::<Vec<TextDocumentItem>>(value.cell_text_documents),
        ensures
            survives::<DidOpenNotebookDocumentParams>(value),
    {
        broadcast use group_lookup;

        reveal(required);
        reveal_strlit("notebookDocument");
        reveal_strlit("cellTextDocuments");
    }
}

/// The params sent in a change notebook document notification.
///
/// @since 3.17.0
#[derive(Debug, PartialEq, Eq, Clone)]
pub struct DidChangeNotebookDocumentParams {
    /// The notebook document that did change. The version number points
    /// to the version after all provided changes have been applied.
    pub notebook_document: VersionedNotebookDocumentIdentifier,
    /// The actual changes to the notebook document.
    ///
    /// The change describes single state change to the notebook document.
    /// So it moves a notebook document, its cells and its cell text document
    /// contents from state S to S'.
    ///
    /// To mirror the content of a notebook using change events use the
    /// following approach:
    /// - start with the same initial content
    /// - apply the 'notebookDocument/didChange' notifications in the order
    ///   you receive them.
    pub change: NotebookDocumentChangeEvent,
}

/// What a [`DidChangeNotebookDocumentParams`] stands for.
pub struct DidChangeNotebookDocumentParamsModel {
    pub notebook_document: VersionedNotebookDocumentIdentifierModel,
    pub change: NotebookDocumentChangeEventModel,
}

impl DeepView for DidChangeNotebookDocumentParams {
    type V = DidChangeNotebookDocumentParamsModel;

    open spec fn deep_view(&self) -> DidChangeNotebookDocumentParamsModel {
        DidChangeNotebookDocumentParamsModel {
            notebook_document: self.notebook_document.deep_view(),
            change: self.change.deep_view(),
        }
    }
}

impl Record for DidChangeNotebookDocumentParams {
    open spec fn members(before: Seq<Member>, value: DidChangeNotebookDocumentParamsModel) -> Seq<Member> {
        before
            + field::<VersionedNotebookDocumentIdentifier>(
                "notebookDocument"@,
                value.notebook_document,
            )
            + field::<NotebookDocumentChangeEvent>("change"@, value.change)
    }

    open spec fn read(members: Seq<Member>) -> Result<DidChangeNotebookDocumentParamsModel, CodecError> {
        let notebook_document = required::<VersionedNotebookDocumentIdentifier>(
            members,
            "notebookDocument"@,
        );
        let change = required::<NotebookDocumentChangeEvent>(members, "change"@);
        if notebook_document is Err {
            Err(notebook_document->Err_0)
        } else if change is Err {
            Err(change->Err_0)
        } else {
            Ok(
                DidChangeNotebookDocumentParamsModel {
                    notebook_document: notebook_document->Ok_0,
                    change: change->Ok_0,
                },
            )
        }
    }

    fn write(&self, members: &mut Vec<(String, Json)>) {
        put(members, "notebookDocument", &self.notebook_document);
        put(members, "change", &self.change);
    }

    fn scan(members: &Vec<(String, Json)>) -> (result: Result<DidChangeNotebookDocumentParams, CodecError>) {
        let notebook_document = get::<VersionedNotebookDocumentIdentifier>(
            members,
            "notebookDocument",
        );
        let change = get::<NotebookDocumentChangeEvent>(members, "change");
        if let Err(error) = notebook_document {
            Err(error)
        } else if let Err(error) = change {
            Err(error)
        } else {
            Ok(
                DidChangeNotebookDocumentParams {
                    notebook_document: notebook_document.unwrap(),
                    change: change.unwrap(),
                },
            )
        }
    }
}

impl DidChangeNotebookDocumentParams {
    /// A value comes back unchanged from the document that stands for it
    /// where its fields meet what is asked of them here.
    pub proof fn lemma_round_trip(value: DidChangeNotebookDocumentParamsModel)
        requires
            survives::<VersionedNotebookDocumentIdentifier>(value.notebook_document),
            survives::<NotebookDocumentChangeEvent>(value.change),
        ensures
            survives::<DidChangeNotebookDocumentParams>(value),
    {
        broadcast use group_lookup;

        reveal(required);
        reveal_strlit("notebookDocument");
        reveal_strlit("change");
    }
}

/// A versioned notebook document identifier.
///
/// @since 3.17.0
#[derive(Debug, PartialEq, Eq, Clone)]
pub struct VersionedNotebookDocumentIdentifier {
    /// The version number of this notebook document.
    pub version: i32,
    /// The notebook document's URI.
    pub uri: Uri,
}

/// What a [`VersionedNotebookDocumentIdentifier`] stands for.
pub struct VersionedNotebookDocumentIdentifierModel {
    pub version: i32,
    pub uri: Seq<char>,
}

impl DeepView for VersionedNotebookDocumentIdentifier {
    type V = VersionedNotebookDocumentIdentifierModel;

    open spec fn deep_view(&self) -> VersionedNotebookDocumentIdentifierModel {
        VersionedNotebookDocumentIdentifierModel {
            version: self.version.deep_view(),
            uri: self.uri.deep_view(),
        }
    }
}

impl Record for VersionedNotebookDocumentIdentifier {
    open spec fn members(before: Seq<Member>, value: VersionedNotebookDocumentIdentifierModel) -> Seq<Member> {
        before + field::<i32>("version"@, value.version)
            + field::<Uri>("uri"@, value.uri)
    }

    open spec fn read(members: Seq<Member>) -> Result<VersionedNotebookDocumentIdentifierModel, CodecError> {
        let version = required::<i32>(members, "version"@);
        let uri = required::<Uri>(members, "uri"@);
        if version is Err {
            Err(version->Err_0)
        } else if uri is Err {
            Err(uri->Err_0)
        } else {
            Ok(
                VersionedNotebookDocumentIdentifierModel {
                    version: version->Ok_0,
                    uri: uri->Ok_0,
                },
            )
        }
    }

    fn write(&self, members: &mut Vec<(String, Json)>) {
        put(members, "version", &self.version);
        put(members, "uri", &self.uri);
    }

    fn scan(members: &Vec<(String, Json)>) -> (result: Result<VersionedNotebookDocumentIdentifier, CodecError>) {
        let version = get::<i32>(members, "version");
        let uri = get::<Uri>(members, "uri");
        if let Err(error) = version {
            Err(error)
        } else if let Err(error) = uri {
            Err(error)
        } else {
            Ok(
                VersionedNotebookDocumentIdentifier {
                    version: version.unwrap(),
                    uri: uri.unwrap(),
                },
            )
        }
    }
}

impl VersionedNotebookDocumentIdentifier {
    /// A value comes back unchanged from the document that stands for it
    /// where its fields meet what is asked of them here.
    pub proof fn lemma_round_trip(value: VersionedNotebookDocumentIdentifierModel)
        requires
            is_uri_text(value.uri),
        ensures
            survives::<VersionedNotebookDocumentIdentifier>(value),
    {
        broadcast use group_lookup;

        reveal(required);
        reveal_strlit("version");
        reveal_strlit("uri");
        Uri::lemma_round_trip(value.uri);
    }
}

/// A change event for a notebook document.
///
/// @since 3.17.0
#[derive(Debug, PartialEq, Eq, Clone)]
pub struct NotebookDocumentChangeEvent {
    /// The changed meta data if any.
    pub metadata: Option<LSPObject>,
    /// Changes to cells
    pub cells: Option<NotebookDocumentCellChange>,
}

/// What a [`NotebookDocumentChangeEvent`] stands for.
pub struct NotebookDocumentChangeEventModel {
    pub metadata: Option<Seq<(Seq<char>, JsonValue)>>,
    pub cells: Option<NotebookDocumentCellChangeModel>,
}

impl DeepView for NotebookDocumentChangeEvent {
    type V = NotebookDocumentChangeEventModel;

    open spec fn deep_view(&self) -> NotebookDocumentChangeEventModel {
        NotebookDocumentChangeEventModel {
            metadata: self.metadata.deep_view(),
            cells: self.cells.deep_view(),
        }
    }
}

impl Record for NotebookDocumentChangeEvent {
    open spec fn members(before: Seq<Member>, value: NotebookDocumentChangeEventModel) -> Seq<Member> {
        before + optional_field::<LSPObject>("metadata"@, value.metadata)
            + optional_field::<NotebookDocumentCellChange>("cells"@, value.cells)
    }

    open spec fn read(members: Seq<Member>) -> Result<NotebookDocumentChangeEventModel, CodecError> {
        let metadata = optional::<LSPObject>(members, "metadata"@);
        let cells = optional::<NotebookDocumentCellChange>(members, "cells"@);
        if metadata is Err {
            Err(metadata->Err_0)
        } else if cells is Err {
            Err(cells->Err_0)
        } else {
            Ok(
                NotebookDocumentChangeEventModel {
                    metadata: metadata->Ok_0,
                    cells: cells->Ok_0,
                },
            )
        }
    }

    fn write(&self, members: &mut Vec<(String, Json)>) {
        put_optional(members, "metadata", &self.metadata);
        put_optional(members, "cells", &self.cells);
    }

    fn scan(members: &Vec<(String, Json)>) -> (result: Result<NotebookDocumentChangeEvent, CodecError>) {
        let metadata = get_optional::<LSPObject>(members, "metadata");
        let cells = get_optional::<NotebookDocumentCellChange>(members, "cells");
        if let Err(error) = metadata {
            Err(error)
        } else if let Err(error) = cells {
            Err(error)
        } else {
            Ok(
                NotebookDocumentChangeEvent {
                    metadata: metadata.unwrap(),
                    cells: cells.unwrap(),
                },
            )
        }
    }
}

impl NotebookDocumentChangeEvent {
    /// A value comes back unchanged from the document that stands for it
    /// where its fields meet what is asked of them here.
    pub proof fn lemma_round_trip(value: NotebookDocumentChangeEventModel)
        requires
            value.metadata matches Some(v) ==> survives::<LSPObject>(v),
            value.cells matches Some(v) ==> survives::<NotebookDocumentCellChange>(v),
        ensures
            survives::<NotebookDocumentChangeEvent>(value),
    {
        broadcast use group_lookup;

        reveal(optional);
        reveal_strlit("metadata");
        reveal_strlit("cells");
    }
}

#[derive(Debug, PartialEq, Eq, Clone)]
pub struct NotebookDocumentCellChange {
    /// Changes to the cell structure to add or
    /// remove cells.
    pub structure: Option<NotebookDocumentCellChangeStructure>,
    /// Changes to notebook cells properties like its
    /// kind, execution summary or metadata.
    pub data: Option<Vec<NotebookCell>>,
    /// Changes to the text content of notebook cells.
    pub text_content: Option<Vec<NotebookDocumentChangeTextContent>>,
}

/// What a [`NotebookDocumentCellChange`] stands for.
pub struct NotebookDocumentCellChangeModel {
    pub structure: Option<NotebookDocumentCellChangeStructureModel>,
    pub data: Option<Seq<NotebookCellModel>>,
    pub text_content: Option<Seq<NotebookDocumentChangeTextContentModel>>,
}

impl DeepView for NotebookDocumentCellChange {
    type V = NotebookDocumentCellChangeModel;

    open spec fn deep_view(&self) -> NotebookDocumentCellChangeModel {
        NotebookDocumentCellChangeModel {
            structure: self.structure.deep_view(),
            data: self.data.deep_view(),
            text_content: self.text_content.deep_view(),
        }
    }
}

impl Record for NotebookDocumentCellChange {
    open spec fn members(before: Seq<Member>, value: NotebookDocumentCellChangeModel) -> Seq<Member> {
        before
            + optional_field::<NotebookDocumentCellChangeStructure>("structure"@, value.structure)
            + optional_field::<Vec<NotebookCell>>("data"@, value.data)
            + optional_field::<Vec<NotebookDocumentChangeTextContent>>(
                "textContent"@,
                value.text_content,
            )
    }

    open spec fn read(members: Seq<Member>) -> Result<NotebookDocumentCellChangeModel, CodecError> {
        let structure = optional::<NotebookDocumentCellChangeStructure>(members, "structure"@);
        let data = optional::<Vec<NotebookCell>>(members, "data"@);
        let text_content = optional::<Vec<NotebookDocumentChangeTextContent>>(
            members,
            "textContent"@,
        );
        if structure is Err {
            Err(structure->Err_0)
        } else if data is Err {
            Err(data->Err_0)
        } else if text_content is Err {
            Err(text_content->Err_0)
        } else {
            Ok(
                NotebookDocumentCellChangeModel {
                    structure: structure->Ok_0,
                    data: data->Ok_0,
                    text_content: text_content->Ok_0,
                },
            )
        }
    }

    fn write(&self, members: &mut Vec<(String, Json)>) {
        put_optional(members, "structure", &self.structure);
        put_optional(members, "data", &self.data);
        put_optional(members, "textContent", &self.text_content);
    }

    fn scan(members: &Vec<(String, Json)>) -> (result: Result<NotebookDocumentCellChange, CodecError>) {
        let structure = get_optional::<NotebookDocumentCellChangeStructure>(members, "structure");
        let data = get_optional::<Vec<NotebookCell>>(members, "data");
        let text_content = get_optional::<Vec<NotebookDocumentChangeTextContent>>(
            members,
            "textContent",
        );
        if let Err(error) = structure {
            Err(error)
        } else if let Err(error) = data {
            Err(error)
        } else if let Err(error) = text_content {
            Err(error)
        } else {
            Ok(
                NotebookDocumentCellChange {
                    structure: structure.unwrap(),
                    data: data.unwrap(),
                    text_content: text_content.unwrap(),
                },
            )
        }
    }
}

impl NotebookDocumentCellChange {
    /// A value comes back unchanged from the document that stands for it
    /// where its fields meet what is asked of them here.
    pub proof fn lemma_round_trip(value: NotebookDocumentCellChangeModel)
        requires
            value.structure matches Some(v) ==> survives::<NotebookDocumentCellChangeStructure>(v),
            value.data matches Some(v) ==> survives::<Vec<NotebookCell>>(v),
            value.text_content matches Some(v) ==> survives::<Vec<NotebookDocumentChangeTextContent>>(v),
        ensures
            survives::<NotebookDocumentCellChange>(value),
    {
        broadcast use group_lookup;

        reveal(optional);
        reveal_strlit("structure");
        reveal_strlit("data");
        reveal_strlit("textContent");
    }
}

#[derive(Debug, PartialEq, Eq, Clone)]
pub struct NotebookDocumentChangeTextContent {
    pub document: VersionedTextDocumentIdentifier,
    pub changes: Vec<TextDocumentContentChangeEvent>,
}

/// What a [`NotebookDocumentChangeTextContent`] stands for.
pub struct NotebookDocumentChangeTextContentModel {
    pub document: VersionedTextDocumentIdentifierModel,
    pub changes: Seq<TextDocumentContentChangeEventModel>,
}

impl DeepView for NotebookDocumentChangeTextContent {
    type V = NotebookDocumentChangeTextContentModel;

    open spec fn deep_view(&self) -> NotebookDocumentChangeTextContentModel {
        NotebookDocumentChangeTextContentModel {
            document: self.document.deep_view(),
            changes: self.changes.deep_view(),
        }
    }
}

impl Record for NotebookDocumentChangeTextContent {
    open spec fn members(before: Seq<Member>, value: NotebookDocumentChangeTextContentModel) -> Seq<Member> {
        before + field::<VersionedTextDocumentIdentifier>("document"@, value.document)
            + field::<Vec<TextDocumentContentChangeEvent>>("changes"@, value.changes)
    }

    open spec fn read(members: Seq<Member>) -> Result<NotebookDocumentChangeTextContentModel, CodecError> {
        let document = required::<VersionedTextDocumentIdentifier>(members, "document"@);
        let changes = required::<Vec<TextDocumentContentChangeEvent>>(members, "changes"@);
        if document is Err {
            Err(document->Err_0)
        } else if changes is Err {
            Err(changes->Err_0)
        } else {
            Ok(
                NotebookDocumentChangeTextContentModel {
                    document: document->Ok_0,
                    changes: changes->Ok_0,
                },
            )
        }
    }

    fn write(&self, members: &mut Vec<(String, Json)>) {
        put(members, "document", &self.document);
        put(members, "changes", &self.changes);
    }

    fn scan(members: &Vec<(String, Json)>) -> (result: Result<NotebookDocumentChangeTextContent, CodecError>) {
        let document = get::<VersionedTextDocumentIdentifier>(members, "document");
        let changes = get::<Vec<TextDocumentContentChangeEvent>>(members, "changes");
        if let Err(error) = document {
            Err(error)
        } else if let Err(error) = changes {
            Err(error)
        } else {
            Ok(
                NotebookDocumentChangeTextContent {
                    document: document.unwrap(),
                    changes: changes.unwrap(),
                },
            )
        }
    }
}

impl NotebookDocumentChangeTextContent {
    /// A value comes back unchanged from the document that stands for it
    /// where its fields meet what is asked of them here.
    pub proof fn lemma_round_trip(value: NotebookDocumentChangeTextContentModel)
        requires
            survives::<VersionedTextDocumentIdentifier>(value.document),
        ensures
            survives::<NotebookDocumentChangeTextContent>(value),
    {
        broadcast use group_lookup;

        reveal(required);
        reveal_strlit("document");
        reveal_strlit("changes");
        let list = value.changes;
        assert forall|i: int| 0 <= i < list.len() implies survives::<TextDocumentContentChangeEvent>(
            #[trigger] list[i],
        ) by {
            TextDocumentContentChangeEvent::lemma_survives(list[i]);
        }
        lemma_sequence_round_trip::<TextDocumentContentChangeEvent>(list);
    }
}

#[derive(Debug, PartialEq, Eq, Clone)]
pub struct NotebookDocumentCellChangeStructure {
    /// The change to the cell array.
    pub array: NotebookCellArrayChange,
    /// Additional opened cell text documents.
    pub did_open: Option<Vec<TextDocumentItem>>,
    /// Additional closed cell text documents.
    pub did_close: Option<Vec<TextDocumentIdentifier>>,
}

/// What a [`NotebookDocumentCellChangeStructure`] stands for.
pub struct NotebookDocumentCellChangeStructureModel {
    pub array: NotebookCellArrayChangeModel,
    pub did_open: Option<Seq<TextDocumentItemModel>>,
    pub did_close: Option<Seq<TextDocumentIdentifierModel>>,
}

impl DeepView for NotebookDocumentCellChangeStructure {
    type V = NotebookDocumentCellChangeStructureModel;

    open spec fn deep_view(&self) -> NotebookDocumentCellChangeStructureModel {
        NotebookDocumentCellChangeStructureModel {
            array: self.array.deep_view(),
            did_open: self.did_open.deep_view(),
            did_close: self.did_close.deep_view(),
        }
    }
}

impl Record for NotebookDocumentCellChangeStructure {
    open spec fn members(before: Seq<Member>, value: NotebookDocumentCellChangeStructureModel) -> Seq<Member> {
        before + field::<NotebookCellArrayChange>("array"@, value.array)
            + optional_field::<Vec<TextDocumentItem>>("didOpen"@, value.did_open)
            + optional_field::<Vec<TextDocumentIdentifier>>("didClose"@, value.did_close)
    }

    open spec fn read(members: Seq<Member>) -> Result<NotebookDocumentCellChangeStructureModel, CodecError> {
        let array = required::<NotebookCellArrayChange>(members, "array"@);
        let did_open = optional::<Vec<TextDocumentItem>>(members, "didOpen"@);
        let did_close = optional::<Vec<TextDocumentIdentifier>>(members, "didClose"@);
        if array is Err {
            Err(array->Err_0)
        } else if did_open is Err {
            Err(did_open->Err_0)
        } else if did_close is Err {
            Err(did_close->Err_0)
        } else {
            Ok(
                NotebookDocumentCellChangeStructureModel {
                    array: array->Ok_0,
                    did_open: did_open->Ok_0,
                    did_close: did_close->Ok_0,
                },
            )
        }
    }

    fn write(&self, members: &mut Vec<(String, Json)>) {
        put(members, "array", &self.array);
        put_optional(members, "didOpen", &self.did_open);
        put_optional(members, "didClose", &self.did_close);
    }

    fn scan(members: &Vec<(String, Json)>) -> (result: Result<NotebookDocumentCellChangeStructure, CodecError>) {
        let array = get::<NotebookCellArrayChange>(members, "array");
        let did_open = get_optional::<Vec<TextDocumentItem>>(members, "didOpen");
        let did_close = get_optional::<Vec<TextDocumentIdentifier>>(members, "didClose");
        if let Err(error) = array {
            Err(error)
        } else if let Err(error) = did_open {
            Err(error)
        } else if let Err(error) = did_close {
            Err(error)
        } else {
            Ok(
                NotebookDocumentCellChangeStructure {
                    array: array.unwrap(),
                    did_open: did_open.unwrap(),
                    did_close: did_close.unwrap(),
                },
            )
        }
    }
}

impl NotebookDocumentCellChangeStructure {
    /// A value comes back unchanged from the document that stands for it
    /// where its fields meet what is asked of them here.
    pub proof fn lemma_round_trip(value: NotebookDocumentCellChangeStructureModel)
        requires
            survives::<NotebookCellArrayChange>(value.array),
            value.did_open matches Some(v) ==> survives::<Vec<TextDocumentItem>>(v),
            value.did_close matches Some(v) ==> survives::<Vec<TextDocumentIdentifier>>(v),
        ensures
            survives::<NotebookDocumentCellChangeStructure>(value),
    {
        broadcast use group_lookup;

        reveal(required);
        reveal(optional);
        reveal_strlit("array");
        reveal_strlit("didOpen");
        reveal_strlit("didClose");
    }
}

/// A change describing how to move a `NotebookCell`
/// array from state S to S'.
///
/// @since 3.17.0
#[derive(Debug, PartialEq, Eq, Clone)]
pub struct NotebookCellArrayChange {
    /// The start offset of the cell that changed.
    pub start: u32,
    /// The deleted cells
    pub delete_count: u32,
    /// The new cells, if any
    pub cells: Option<Vec<NotebookCell>>,
}

/// What a [`NotebookCellArrayChange`] stands for.
pub struct NotebookCellArrayChangeModel {
    pub start: u32,
    pub delete_count: u32,
    pub cells: Option<Seq<NotebookCellModel>>,
}

impl DeepView for NotebookCellArrayChange {
    type V = NotebookCellArrayChangeModel;

    open spec fn deep_view(&self) -> NotebookCellArrayChangeModel {
        NotebookCellArrayChangeModel {
            start: self.start.deep_view(),
            delete_count: self.delete_count.deep_view(),
            cells: self.cells.deep_view(),
        }
    }
}

impl Record for NotebookCellArrayChange {
    open spec fn members(before: Seq<Member>, value: NotebookCellArrayChangeModel) -> Seq<Member> {
        before + field::<u32>("start"@, value.start)
            + field::<u32>("deleteCount"@, value.delete_count)
            + optional_field::<Vec<NotebookCell>>("cells"@, value.cells)
    }

    open spec fn read(members: Seq<Member>) -> Result<NotebookCellArrayChangeModel, CodecError> {
        let start = required::<u32>(members, "start"@);
        let delete_count = required::<u32>(members, "deleteCount"@);
        let cells = optional::<Vec<NotebookCell>>(members, "cells"@);
        if start is Err {
            Err(start->Err_0)
        } else if delete_count is Err {
            Err(delete_count->Err_0)
        } else if cells is Err {
            Err(cells->Err_0)
        } else {
            Ok(
                NotebookCellArrayChangeModel {
                    start: start->Ok_0,
                    delete_count: delete_count->Ok_0,
                    cells: cells->Ok_0,
                },
            )
        }
    }

    fn write(&self, members: &mut Vec<(String, Json)>) {
        put(members, "start", &self.start);
        put(members, "deleteCount", &self.delete_count);
        put_optional(members, "cells", &self.cells);
    }

    fn scan(members: &Vec<(String, Json)>) -> (result: Result<NotebookCellArrayChange, CodecError>) {
        let start = get::<u32>(members, "start");
        let delete_count = get::<u32>(members, "deleteCount");
        let cells = get_optional::<Vec<NotebookCell>>(members, "cells");
        if let Err(error) = start {
            Err(error)
        } else if let Err(error) = delete_count {
            Err(error)
        } else if let Err(error) = cells {
            Err(error)
        } else {
            Ok(
                NotebookCellArrayChange {
                    start: start.unwrap(),
                    delete_count: delete_count.unwrap(),
                    cells: cells.unwrap(),
                },
            )
        }
    }
}

impl NotebookCellArrayChange {
    /// A value comes back unchanged from the document that stands for it
    /// where its fields meet what is asked of them here.
    pub proof fn lemma_round_trip(value: NotebookCellArrayChangeModel)
        requires
            value.cells matches Some(v) ==> survives::<Vec<NotebookCell>>(v),
        ensures
            survives::<NotebookCellArrayChange>(value),
    {
        broadcast use group_lookup;

        reveal(required);
        reveal(optional);
        reveal_strlit("start");
        reveal_strlit("deleteCount");
        reveal_strlit("cells");
    }
}

/// The params sent in a save notebook document notification.
///
/// @since 3.17.0
#[derive(Debug, PartialEq, Eq, Clone)]
pub struct DidSaveNotebookDocumentParams {
    /// The notebook document that got saved.
    pub notebook_document: NotebookDocumentIdentifier,
}

/// What a [`DidSaveNotebookDocumentParams`] stands for.
pub struct DidSaveNotebookDocumentParamsModel {
    pub notebook_document: NotebookDocumentIdentifierModel,
}

impl DeepView for DidSaveNotebookDocumentParams {
    type V = DidSaveNotebookDocumentParamsModel;

    open spec fn deep_view(&self) -> DidSaveNotebookDocumentParamsModel {
        DidSaveNotebookDocumentParamsModel {
            notebook_document: self.notebook_document.deep_view(),
        }
    }
}

impl Record for DidSaveNotebookDocumentParams {
    open spec fn members(before: Seq<Member>, value: DidSaveNotebookDocumentParamsModel) -> Seq<Member> {
        before + field::<NotebookDocumentIdentifier>("notebookDocument"@, value.notebook_document)
    }

    open spec fn read(members: Seq<Member>) -> Result<DidSaveNotebookDocumentParamsModel, CodecError> {
        let notebook_document = required::<NotebookDocumentIdentifier>(
            members,
            "notebookDocument"@,
        );
        if notebook_document is Err {
            Err(notebook_document->Err_0)
        } else {
            Ok(
                DidSaveNotebookDocumentParamsModel {
                    notebook_document: notebook_document->Ok_0,
                },
            )
        }
    }

    fn write(&self, members: &mut Vec<(String, Json)>) {
        put(members, "notebookDocument", &self.notebook_document);
    }

    fn scan(members: &Vec<(String, Json)>) -> (result: Result<DidSaveNotebookDocumentParams, CodecError>) {
        let notebook_document = get::<NotebookDocumentIdentifier>(members, "notebookDocument");
        if let Err(error) = notebook_document {
            Err(error)
        } else {
            Ok(
                DidSaveNotebookDocumentParams {
                    notebook_document: notebook_document.unwrap(),
                },
            )
        }
    }
}

impl DidSaveNotebookDocumentParams {
    /// A value comes back unchanged from the document that stands for it
    /// where its fields meet what is asked of them here.
    pub proof fn lemma_round_trip(value: DidSaveNotebookDocumentParamsModel)
        requires
            survives::<NotebookDocumentIdentifier>(value.notebook_document),
        ensures
            survives::<DidSaveNotebookDocumentParams>(value),
    {
        broadcast use group_lookup;

        reveal(required);
        reveal_strlit("notebookDocument");
    }
}

/// A literal to identify a notebook document in the client.
///
/// @since 3.17.0
#[derive(Debug, PartialEq, Eq, Clone)]
pub struct NotebookDocumentIdentifier {
    /// The notebook document's URI.
    pub uri: Uri,
}

/// What a [`NotebookDocumentIdentifier`] stands for.
pub struct NotebookDocumentIdentifierModel {
    pub uri: Seq<char>,
}

impl DeepView for NotebookDocumentIdentifier {
    type V = NotebookDocumentIdentifierModel;

    open spec fn deep_view(&self) -> NotebookDocumentIdentifierModel {
        NotebookDocumentIdentifierModel {
            uri: self.uri.deep_view(),
        }
    }
}

impl Record for NotebookDocumentIdentifier {
    open spec fn members(before: Seq<Member>, value: NotebookDocumentIdentifierModel) -> Seq<Member> {
        before + field::<Uri>("uri"@, value.uri)
    }

    open spec fn read(members: Seq<Member>) -> Result<NotebookDocumentIdentifierModel, CodecError> {
        let uri = required::<Uri>(members, "uri"@);
        if uri is Err {
            Err(uri->Err_0)
        } else {
            Ok(
                NotebookDocumentIdentifierModel {
                    uri: uri->Ok_0,
                },
            )
        }
    }

    fn write(&self, members: &mut Vec<(String, Json)>) {
        put(members, "uri", &self.uri);
    }

    fn scan(members: &Vec<(String, Json)>) -> (result: Result<NotebookDocumentIdentifier, CodecError>) {
        let uri = get::<Uri>(members, "uri");
        if let Err(error) = uri {
            Err(error)
        } else {
            Ok(
                NotebookDocumentIdentifier {
                    uri: uri.unwrap(),
                },
            )
        }
    }
}

impl NotebookDocumentIdentifier {
    /// A value comes back unchanged from the document that stands for it
    /// where its fields meet what is asked of them here.
    pub proof fn lemma_round_trip(value: NotebookDocumentIdentifierModel)
        requires
            is_uri_text(value.uri),
        ensures
            survives::<NotebookDocumentIdentifier>(value),
    {
        broadcast use group_lookup;

        reveal(required);
        reveal_strlit("uri");
        Uri::lemma_round_trip(value.uri);
    }
}

/// The params sent in a close notebook document notification.
///
/// @since 3.17.0
#[derive(Debug, PartialEq, Eq, Clone)]
pub struct DidCloseNotebookDocumentParams {
    /// The notebook document that got closed.
    pub notebook_document: NotebookDocumentIdentifier,
    /// The text documents that represent the content
    /// of a notebook cell that got closed.
    pub cell_text_documents: Vec<TextDocumentIdentifier>,
}

/// What a [`DidCloseNotebookDocumentParams`] stands for.
pub struct DidCloseNotebookDocumentParamsModel {
    pub notebook_document: NotebookDocumentIdentifierModel,
    pub cell_text_documents: Seq<TextDocumentIdentifierModel>,
}

impl DeepView for DidCloseNotebookDocumentParams {
    type V = DidCloseNotebookDocumentParamsModel;

    open spec fn deep_view(&self) -> DidCloseNotebookDocumentParamsModel {
        DidCloseNotebookDocumentParamsModel {
            notebook_document: self.notebook_document.deep_view(),
            cell_text_documents: self.cell_text_documents.deep_view(),
        }
    }
}

impl Record for DidCloseNotebookDocumentParams {
    open spec fn members(before: Seq<Member>, value: DidCloseNotebookDocumentParamsModel) -> Seq<Member> {
        before + field::<NotebookDocumentIdentifier>("notebookDocument"@, value.notebook_document)
            + field::<Vec<TextDocumentIdentifier>>("cellTextDocuments"@, value.cell_text_documents)
    }

    open spec fn read(members: Seq<Member>) -> Result<DidCloseNotebookDocumentParamsModel, CodecError> {
        let notebook_document = required::<NotebookDocumentIdentifier>(
            members,
            "notebookDocument"@,
        );
        let cell_text_documents = required::<Vec<TextDocumentIdentifier>>(
            members,
            "cellTextDocuments"@,
        );
        if notebook_document is Err {
            Err(notebook_document->Err_0)
        } else if cell_text_documents is Err {
            Err(cell_text_documents->Err_0)
        } else {
            Ok(
                DidCloseNotebookDocumentParamsModel {
                    notebook_document: notebook_document->Ok_0,
                    cell_text_documents: cell_text_documents->Ok_0,
                },
            )
        }
    }

    fn write(&self, members: &mut Vec<(String, Json)>) {
        put(members, "notebookDocument", &self.notebook_document);
        put(members, "cellTextDocuments", &self.cell_text_documents);
    }

    fn scan(members: &Vec<(String, Json)>) -> (result: Result<DidCloseNotebookDocumentParams, CodecError>) {
        let notebook_document = get::<NotebookDocumentIdentifier>(members, "notebookDocument");
        let cell_text_documents = get::<Vec<TextDocumentIdentifier>>(members, "cellTextDocuments");
        if let Err(error) = notebook_document {
            Err(error)
        } else if let Err(error) = cell_text_documents {
            Err(error)
        } else {
            Ok(
                DidCloseNotebookDocumentParams {
                    notebook_document: notebook_document.unwrap(),
                    cell_text_documents: cell_text_documents.unwrap(),
                },
            )
        }
    }
}

impl DidCloseNotebookDocumentParams {
    /// A value comes back unchanged from the document that stands for it
    /// where its fields meet what is asked of them here.
    pub proof fn lemma_round_trip(value: DidCloseNotebookDocumentParamsModel)
        requires
            survives::<NotebookDocumentIdentifier>(value.notebook_document),
            survives::<Vec<TextDocumentIdentifier>>(value.cell_text_documents),
        ensures
            survives::<DidCloseNotebookDocumentParams>(value),
    {
        broadcast use group_lookup;

        reveal(required);
        reveal_strlit("notebookDocument");
        reveal_strlit("cellTextDocuments");
    }
}

} // verus!
