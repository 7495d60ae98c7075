//! Changes to many resources of a workspace at once.

use crate::basic::{
    TextEdit, TextEditModel, VersionedTextDocumentIdentifier, VersionedTextDocumentIdentifierModel,
};
use crate::codec::{
    Codec, CodecError, field, find, get, get_optional, group_lookup, lemma_sequence_round_trip,
    lookup, Member, optional, optional_field, put, put_optional, Record, required, survives,
    traits_of,
};
use crate::json::{Json, JsonValue};
use crate::url::{is_url_text, Url};
use crate::url_map;
use vstd::prelude::*;

verus! {

/// Describes textual changes on a single text document. The text document is referred to as a
/// `VersionedTextDocumentIdentifier` to allow clients to check the text document version before an
/// edit is applied. A `TextDocumentEdit` describes all changes on a version Si and after they are
/// applied move the document to version Si+1. So the creator of a `TextDocumentEdit` doesn't need to
/// sort the array or do any kind of ordering. However the edits must be non overlapping.
#[derive(Debug, PartialEq, Eq, Clone)]
pub struct TextDocumentEdit {
    /// The text document to change.
    pub text_document: VersionedTextDocumentIdentifier,
    /// The edits to be applied.
    pub edits: Vec<TextEdit>,
}

/// What a [`TextDocumentEdit`] stands for.
pub struct TextDocumentEditModel {
    pub text_document: VersionedTextDocumentIdentifierModel,
    pub edits: Seq<TextEditModel>,
}

impl DeepView for TextDocumentEdit {
    type V = TextDocumentEditModel;

    open spec fn deep_view(&self) -> TextDocumentEditModel {
        TextDocumentEditModel {
            text_document: self.text_document.deep_view(),
            edits: self.edits.deep_view(),
        }
    }
}

impl Record for TextDocumentEdit {
    open spec fn members(before: Seq<Member>, value: TextDocumentEditModel) -> Seq<Member> {
        before + field::<VersionedTextDocumentIdentifier>("textDocument"@, value.text_document)
            + field::<Vec<TextEdit>>("edits"@, value.edits)
    }

    open spec fn read(members: Seq<Member>) -> Result<TextDocumentEditModel, CodecError> {
        let text_document = required::<VersionedTextDocumentIdentifier>(members, "textDocument"@);
        let edits = required::<Vec<TextEdit>>(members, "edits"@);
        if text_document is Err {
            Err(text_document->Err_0)
        } else if edits is Err {
            Err(edits->Err_0)
        } else {
            Ok(
                TextDocumentEditModel {
                    text_document: text_document->Ok_0,
                    edits: edits->Ok_0,
                },
            )
        }
    }

    fn write(&self, members: &mut Vec<(String, Json)>) {
        put(members, "textDocument", &self.text_document);
        put(members, "edits", &self.edits);
    }

    fn scan(members: &Vec<(String, Json)>) -> (result: Result<TextDocumentEdit, CodecError>) {
        let text_document = get::<VersionedTextDocumentIdentifier>(members, "textDocument");
        let edits = get::<Vec<TextEdit>>(members, "edits");
        if let Err(error) = text_document {
            Err(error)
        } else if let Err(error) = edits {
            Err(error)
        } else {
            Ok(
                TextDocumentEdit {
                    text_document: text_document.unwrap(),
                    edits: edits.unwrap(),
                },
            )
        }
    }
}

impl TextDocumentEdit {
    /// A value comes back unchanged from the document that stands for it
    /// where its fields meet what is asked of them here.
    pub proof fn lemma_round_trip(value: TextDocumentEditModel)
        requires
            survives::<VersionedTextDocumentIdentifier>(value.text_document),
        ensures
            survives::<TextDocumentEdit>(value),
    {
        broadcast use group_lookup;

        reveal(required);
        reveal_strlit("textDocument");
        reveal_strlit("edits");
        let list = value.edits;
        assert forall|i: int| 0 <= i < list.len() implies survives::<TextEdit>(
            #[trigger] list[i],
        ) by {
            TextEdit::lemma_survives(list[i]);
        }
        lemma_sequence_round_trip::<TextEdit>(list);
    }
}

/// Options to create a file.
#[derive(Debug, PartialEq, Eq, Structural, Clone)]
pub struct CreateFileOptions {
    /// Overwrite existing file. Overwrite wins over `ignoreIfExists`
    pub overwrite: Option<bool>,
    /// Ignore if exists.
    pub ignore_if_exists: Option<bool>,
}

impl DeepView for CreateFileOptions {
    type V = CreateFileOptions;

    open spec fn deep_view(&self) -> CreateFileOptions {
        CreateFileOptions {
            overwrite: self.overwrite.deep_view(),
            ignore_if_exists: self.ignore_if_exists.deep_view(),
        }
    }
}

impl Record for CreateFileOptions {
    open spec fn members(before: Seq<Member>, value: CreateFileOptions) -> Seq<Member> {
        before + optional_field::<bool>("overwrite"@, value.overwrite)
            + optional_field::<bool>("ignoreIfExists"@, value.ignore_if_exists)
    }

    open spec fn read(members: Seq<Member>) -> Result<CreateFileOptions, CodecError> {
        let overwrite = optional::<bool>(members, "overwrite"@);
        let ignore_if_exists = optional::<bool>(members, "ignoreIfExists"@);
        if overwrite is Err {
            Err(overwrite->Err_0)
        } else if ignore_if_exists is Err {
            Err(ignore_if_exists->Err_0)
        } else {
            Ok(
                CreateFileOptions {
                    overwrite: overwrite->Ok_0,
                    ignore_if_exists: ignore_if_exists->Ok_0,
                },
            )
        }
    }

    fn write(&self, members: &mut Vec<(String, Json)>) {
        put_optional(members, "overwrite", &self.overwrite);
        put_optional(members, "ignoreIfExists", &self.ignore_if_exists);
    }

    fn scan(members: &Vec<(String, Json)>) -> (result: Result<CreateFileOptions, CodecError>) {
        let overwrite = get_optional::<bool>(members, "overwrite");
        let ignore_if_exists = get_optional::<bool>(members, "ignoreIfExists");
        if let Err(error) = overwrite {
            Err(error)
        } else if let Err(error) = ignore_if_exists {
            Err(error)
        } else {
            Ok(
                CreateFileOptions {
                    overwrite: overwrite.unwrap(),
                    ignore_if_exists: ignore_if_exists.unwrap(),
                },
            )
        }
    }
}

impl CreateFileOptions {
    /// Every value comes back unchanged from the document that stands for it.
    pub proof fn lemma_survives(value: CreateFileOptions)
        ensures
            survives::<CreateFileOptions>(value),
    {
        broadcast use group_lookup;

        reveal(optional);
        reveal_strlit("overwrite");
        reveal_strlit("ignoreIfExists");
    }
}

/// Create file operation
#[derive(Debug, PartialEq, Eq, Clone)]
pub struct CreateFile {
    /// The resource to create.
    pub uri: Url,
    /// Additional options
    pub options: Option<CreateFileOptions>,
}

/// What a [`CreateFile`] stands for.
pub struct CreateFileModel {
    pub uri: Seq<char>,
    pub options: Option<CreateFileOptions>,
}

impl DeepView for CreateFile {
    type V = CreateFileModel;

    open spec fn deep_view(&self) -> CreateFileModel {
        CreateFileModel {
            uri: self.uri.deep_view(),
            options: self.options.deep_view(),
        }
    }
}

impl Record for CreateFile {
    open spec fn members(before: Seq<Member>, value: CreateFileModel) -> Seq<Member> {
        before + field::<Url>("uri"@, value.uri)
            + optional_field::<CreateFileOptions>("options"@, value.options)
    }

    open spec fn read(members: Seq<Member>) -> Result<CreateFileModel, CodecError> {
        let uri = required::<Url>(members, "uri"@);
        let options = optional::<CreateFileOptions>(members, "options"@);
        if uri is Err {
            Err(uri->Err_0)
        } else if options is Err {
            Err(options->Err_0)
        } else {
            Ok(
                CreateFileModel {
                    uri: uri->Ok_0,
                    options: options->Ok_0,
                },
            )
        }
    }

    fn write(&self, members: &mut Vec<(String, Json)>) {
        put(members, "uri", &self.uri);
        put_optional(members, "options", &self.options);
    }

    fn scan(members: &Vec<(String, Json)>) -> (result: Result<CreateFile, CodecError>) {
        let uri = get::<Url>(members, "uri");
        let options = get_optional::<CreateFileOptions>(members, "options");
        if let Err(error) = uri {
            Err(error)
        } else if let Err(error) = options {
            Err(error)
        } else {
            Ok(
                CreateFile {
                    uri: uri.unwrap(),
                    options: options.unwrap(),
                },
            )
        }
    }
}

impl CreateFile {
    /// A value comes back unchanged from the document that stands for it
    /// where its fields meet what is asked of them here.
    pub proof fn lemma_round_trip(value: CreateFileModel)
        requires
            is_url_text(value.uri),
        ensures
            survives::<CreateFile>(value),
    {
        broadcast use group_lookup;

        reveal(required);
        reveal(optional);
        reveal_strlit("uri");
        reveal_strlit("options");
        Url::lemma_round_trip(value.uri);
        if let Some(inner) = value.options {
            CreateFileOptions::lemma_survives(inner);
        }
    }
}

/// Rename file options
#[derive(Debug, PartialEq, Eq, Structural, Clone)]
pub struct RenameFileOptions {
    /// Overwrite target if existing. Overwrite wins over `ignoreIfExists`
    pub overwrite: Option<bool>,
    /// Ignores if target exists.
    pub ignore_if_exists: Option<bool>,
}

impl DeepView for RenameFileOptions {
    type V = RenameFileOptions;

    open spec fn deep_view(&self) -> RenameFileOptions {
        RenameFileOptions {
            overwrite: self.overwrite.deep_view(),
            ignore_if_exists: self.ignore_if_exists.deep_view(),
        }
    }
}

impl Record for RenameFileOptions {
    open spec fn members(before: Seq<Member>, value: RenameFileOptions) -> Seq<Member> {
        before + optional_field::<bool>("overwrite"@, value.overwrite)
            + optional_field::<bool>("ignoreIfExists"@, value.ignore_if_exists)
    }

    open spec fn read(members: Seq<Member>) -> Result<RenameFileOptions, CodecError> {
        let overwrite = optional::<bool>(members, "overwrite"@);
        let ignore_if_exists = optional::<bool>(members, "ignoreIfExists"@);
        if overwrite is Err {
            Err(overwrite->Err_0)
        } else if ignore_if_exists is Err {
            Err(ignore_if_exists->Err_0)
        } else {
            Ok(
                RenameFileOptions {
                    overwrite: overwrite->Ok_0,
                    ignore_if_exists: ignore_if_exists->Ok_0,
                },
            )
        }
    }

    fn write(&self, members: &mut Vec<(String, Json)>) {
        put_optional(members, "overwrite", &self.overwrite);
        put_optional(members, "ignoreIfExists", &self.ignore_if_exists);
    }

    fn scan(members: &Vec<(String, Json)>) -> (result: Result<RenameFileOptions, CodecError>) {
        let overwrite = get_optional::<bool>(members, "overwrite");
        let ignore_if_exists = get_optional::<bool>(members, "ignoreIfExists");
        if let Err(error) = overwrite {
            Err(error)
        } else if let Err(error) = ignore_if_exists {
            Err(error)
        } else {
            Ok(
                RenameFileOptions {
                    overwrite: overwrite.unwrap(),
                    ignore_if_exists: ignore_if_exists.unwrap(),
                },
            )
        }
    }
}

impl RenameFileOptions {
    /// Every value comes back unchanged from the document that stands for it.
    pub proof fn lemma_survives(value: RenameFileOptions)
        ensures
            survives::<RenameFileOptions>(value),
    {
        broadcast use group_lookup;

        reveal(optional);
        reveal_strlit("overwrite");
        reveal_strlit("ignoreIfExists");
    }
}

/// Rename file operation
#[derive(Debug, PartialEq, Eq, Clone)]
pub struct RenameFile {
    /// The old (existing) location.
    pub old_uri: Url,
    /// The new location.
    pub new_uri: Url,
    /// Rename options.
    pub options: Option<RenameFileOptions>,
}

/// What a [`RenameFile`] stands for.
pub struct RenameFileModel {
    pub old_uri: Seq<char>,
    pub new_uri: Seq<char>,
    pub options: Option<RenameFileOptions>,
}

impl DeepView for RenameFile {
    type V = RenameFileModel;

    open spec fn deep_view(&self) -> RenameFileModel {
        RenameFileModel {
            old_uri: self.old_uri.deep_view(),
            new_uri: self.new_uri.deep_view(),
            options: self.options.deep_view(),
        }
    }
}

impl Record for RenameFile {
    open spec fn members(before: Seq<Member>, value: RenameFileModel) -> Seq<Member> {
        before + field::<Url>("oldUri"@, value.old_uri)
            + field::<Url>("newUri"@, value.new_uri)
            + optional_field::<RenameFileOptions>("options"@, value.options)
    }

    open spec fn read(members: Seq<Member>) -> Result<RenameFileModel, CodecError> {
        let old_uri = required::<Url>(members, "oldUri"@);
        let new_uri = required::<Url>(members, "newUri"@);
        let options = optional::<RenameFileOptions>(members, "options"@);
        if old_uri is Err {
            Err(old_uri->Err_0)
        } else if new_uri is Err {
            Err(new_uri->Err_0)
        } else if options is Err {
            Err(options->Err_0)
        } else {
            Ok(
                RenameFileModel {
                    old_uri: old_uri->Ok_0,
                    new_uri: new_uri->Ok_0,
                    options: options->Ok_0,
                },
            )
        }
    }

    fn write(&self, members: &mut Vec<(String, Json)>) {
        put(members, "oldUri", &self.old_uri);
        put(members, "newUri", &self.new_uri);
        put_optional(members, "options", &self.options);
    }

    fn scan(members: &Vec<(String, Json)>) -> (result: Result<RenameFile, CodecError>) {
        let old_uri = get::<Url>(members, "oldUri");
        let new_uri = get::<Url>(members, "newUri");
        let options = get_optional::<RenameFileOptions>(members, "options");
        if let Err(error) = old_uri {
            Err(error)
        } else if let Err(error) = new_uri {
            Err(error)
        } else if let Err(error) = options {
            Err(error)
        } else {
            Ok(
                RenameFile {
                    old_uri: old_uri.unwrap(),
                    new_uri: new_uri.unwrap(),
                    options: options.unwrap(),
                },
            )
        }
    }
}

impl RenameFile {
    /// A value comes back unchanged from the document that stands for it
    /// where its fields meet what is asked of them here.
    pub proof fn lemma_round_trip(value: RenameFileModel)
        requires
            is_url_text(value.old_uri),
            is_url_text(value.new_uri),
        ensures
            survives::<RenameFile>(value),
    {
        broadcast use group_lookup;

        reveal(required);
        reveal(optional);
        reveal_strlit("oldUri");
        reveal_strlit("newUri");
        reveal_strlit("options");
        Url::lemma_round_trip(value.old_uri);
        Url::lemma_round_trip(value.new_uri);
        if let Some(inner) = value.options {
            RenameFileOptions::lemma_survives(inner);
        }
    }
}

/// Delete file options
#[derive(Debug, PartialEq, Eq, Structural, Clone)]
pub struct DeleteFileOptions {
    /// Delete the content recursively if a folder is denoted.
    pub recursive: Option<bool>,
    /// Ignore the operation if the file doesn't exist.
    pub ignore_if_not_exists: Option<bool>,
}

impl DeepView for DeleteFileOptions {
    type V = DeleteFileOptions;

    open spec fn deep_view(&self) -> DeleteFileOptions {
        DeleteFileOptions {
            recursive: self.recursive.deep_view(),
            ignore_if_not_exists: self.ignore_if_not_exists.deep_view(),
        }
    }
}

impl Record for DeleteFileOptions {
    open spec fn members(before: Seq<Member>, value: DeleteFileOptions) -> Seq<Member> {
        before + optional_field::<bool>("recursive"@, value.recursive)
            + optional_field::<bool>("ignoreIfNotExists"@, value.ignore_if_not_exists)
    }

    open spec fn read(members: Seq<Member>) -> Result<DeleteFileOptions, CodecError> {
        let recursive = optional::<bool>(members, "recursive"@);
        let ignore_if_not_exists = optional::<bool>(members, "ignoreIfNotExists"@);
        if recursive is Err {
            Err(recursive->Err_0)
        } else if ignore_if_not_exists is Err {
            Err(ignore_if_not_exists->Err_0)
        } else {
            Ok(
                DeleteFileOptions {
                    recursive: recursive->Ok_0,
                    ignore_if_not_exists: ignore_if_not_exists->Ok_0,
                },
            )
        }
    }

    fn write(&self, members: &mut Vec<(String, Json)>) {
        put_optional(members, "recursive", &self.recursive);
        put_optional(members, "ignoreIfNotExists", &self.ignore_if_not_exists);
    }

    fn scan(members: &Vec<(String, Json)>) -> (result: Result<DeleteFileOptions, CodecError>) {
        let recursive = get_optional::<bool>(members, "recursive");
        let ignore_if_not_exists = get_optional::<bool>(members, "ignoreIfNotExists");
        if let Err(error) = recursive {
            Err(error)
        } else if let Err(error) = ignore_if_not_exists {
            Err(error)
        } else {
            Ok(
                DeleteFileOptions {
                    recursive: recursive.unwrap(),
                    ignore_if_not_exists: ignore_if_not_exists.unwrap(),
                },
            )
        }
    }
}

impl DeleteFileOptions {
    /// Every value comes back unchanged from the document that stands for it.
    pub proof fn lemma_survives(value: DeleteFileOptions)
        ensures
            survives::<DeleteFileOptions>(value),
    {
        broadcast use group_lookup;

        reveal(optional);
        reveal_strlit("recursive");
        reveal_strlit("ignoreIfNotExists");
    }
}

/// Delete file operation
#[derive(Debug, PartialEq, Eq, Clone)]
pub struct DeleteFile {
    /// The file to delete.
    pub uri: Url,
    /// Delete options.
    pub options: Option<DeleteFileOptions>,
}

/// What a [`DeleteFile`] stands for.
pub struct DeleteFileModel {
    pub uri: Seq<char>,
    pub options: Option<DeleteFileOptions>,
}

impl DeepView for DeleteFile {
    type V = DeleteFileModel;

    open spec fn deep_view(&self) -> DeleteFileModel {
        DeleteFileModel {
            uri: self.uri.deep_view(),
            options: self.options.deep_view(),
        }
    }
}

impl Record for DeleteFile {
    open spec fn members(before: Seq<Member>, value: DeleteFileModel) -> Seq<Member> {
        before + field::<Url>("uri"@, value.uri)
            + optional_field::<DeleteFileOptions>("options"@, value.options)
    }

    open spec fn read(members: Seq<Member>) -> Result<DeleteFileModel, CodecError> {
        let uri = required::<Url>(members, "uri"@);
        let options = optional::<DeleteFileOptions>(members, "options"@);
        if uri is Err {
            Err(uri->Err_0)
        } else if options is Err {
            Err(options->Err_0)
        } else {
            Ok(
                DeleteFileModel {
                    uri: uri->Ok_0,
                    options: options->Ok_0,
                },
            )
        }
    }

    fn write(&self, members: &mut Vec<(String, Json)>) {
        put(members, "uri", &self.uri);
        put_optional(members, "options", &self.options);
    }

    fn scan(members: &Vec<(String, Json)>) -> (result: Result<DeleteFile, CodecError>) {
        let uri = get::<Url>(members, "uri");
        let options = get_optional::<DeleteFileOptions>(members, "options");
        if let Err(error) = uri {
            Err(error)
        } else if let Err(error) = options {
            Err(error)
        } else {
            Ok(
                DeleteFile {
                    uri: uri.unwrap(),
                    options: options.unwrap(),
                },
            )
        }
    }
}

impl DeleteFile {
    /// A value comes back unchanged from the document that stands for it
    /// where its fields meet what is asked of them here.
    pub proof fn lemma_round_trip(value: DeleteFileModel)
        requires
            is_url_text(value.uri),
        ensures
            survives::<DeleteFile>(value),
    {
        broadcast use group_lookup;

        reveal(required);
        reveal(optional);
        reveal_strlit("uri");
        reveal_strlit("options");
        Url::lemma_round_trip(value.uri);
        if let Some(inner) = value.options {
            DeleteFileOptions::lemma_survives(inner);
        }
    }
}

/// A workspace edit represents changes to many resources managed in the workspace.
#[derive(Debug, PartialEq, Eq, Clone, Default)]
pub struct WorkspaceEdit {
    /// Holds changes to existing resources.
    pub changes: Option<Vec<(Url, Vec<TextEdit>)>>,
    /// Depending on the client capability `workspace.workspaceEdit.resourceOperations` document changes
    /// are either an array of `TextDocumentEdit`s to express changes to n different text documents
    /// where each text document edit addresses a specific version of a text document. Or it can contain
    /// above `TextDocumentEdit`s mixed with create, rename and delete file / folder operations.
    ///
    /// Whether a client supports versioned document edits is expressed via
    /// `workspace.workspaceEdit.documentChanges` client capability.
    ///
    /// If a client neither supports `documentChanges` nor `workspace.workspaceEdit.resourceOperations` then
    /// only plain `TextEdit`s using the `changes` property are supported.
    pub document_changes: Option<DocumentChanges>,
}

/// What a [`WorkspaceEdit`] stands for.
pub struct WorkspaceEditModel {
    pub changes: Option<Seq<(Seq<char>, Seq<TextEditModel>)>>,
    pub document_changes: Option<DocumentChangesModel>,
}

impl DeepView for WorkspaceEdit {
    type V = WorkspaceEditModel;

    open spec fn deep_view(&self) -> WorkspaceEditModel {
        WorkspaceEditModel {
            changes: self.changes.deep_view(),
            document_changes: self.document_changes.deep_view(),
        }
    }
}

impl Record for WorkspaceEdit {
    open spec fn members(before: Seq<Member>, value: WorkspaceEditModel) -> Seq<Member> {
        before + url_map::field("changes"@, value.changes)
            + optional_field::<DocumentChanges>("documentChanges"@, value.document_changes)
    }

    open spec fn read(members: Seq<Member>) -> Result<WorkspaceEditModel, CodecError> {
        let changes = url_map::decode(lookup(members, "changes"@));
        let document_changes = optional::<DocumentChanges>(members, "documentChanges"@);
        if changes is Err {
            Err(changes->Err_0)
        } else if document_changes is Err {
            Err(document_changes->Err_0)
        } else {
            Ok(
                WorkspaceEditModel {
                    changes: changes->Ok_0,
                    document_changes: document_changes->Ok_0,
                },
            )
        }
    }

    fn write(&self, members: &mut Vec<(String, Json)>) {
        url_map::put(members, "changes", &self.changes);
        put_optional(members, "documentChanges", &self.document_changes);
    }

    fn scan(members: &Vec<(String, Json)>) -> (result: Result<WorkspaceEdit, CodecError>) {
        let changes = url_map::deserialize(find(members, "changes"));
        let document_changes = get_optional::<DocumentChanges>(members, "documentChanges");
        if let Err(error) = changes {
            Err(error)
        } else if let Err(error) = document_changes {
            Err(error)
        } else {
            Ok(
                WorkspaceEdit {
                    changes: changes.unwrap(),
                    document_changes: document_changes.unwrap(),
                },
            )
        }
    }
}

impl WorkspaceEdit {
    /// A workspace edit that makes the given changes to documents.
    pub fn new(changes: Vec<(Url, Vec<TextEdit>)>) -> (result: WorkspaceEdit)
        ensures
            result == (WorkspaceEdit { changes: Some(changes), document_changes: None }),
    {
        WorkspaceEdit { changes: Some(changes), document_changes: None }
    }
}

#[derive(Debug, PartialEq, Eq, Clone)]
pub enum DocumentChanges {
    Edits(Vec<TextDocumentEdit>),
    Operations(Vec<DocumentChangeOperation>),
}

/// What a [`DocumentChanges`] stands for.
pub enum DocumentChangesModel {
    Edits(Seq<TextDocumentEditModel>),
    Operations(Seq<DocumentChangeOperationModel>),
}

impl DeepView for DocumentChanges {
    type V = DocumentChangesModel;

    open spec fn deep_view(&self) -> DocumentChangesModel {
        match self {
            DocumentChanges::Edits(value) => DocumentChangesModel::Edits(value.deep_view()),
            DocumentChanges::Operations(value) => DocumentChangesModel::Operations(value.deep_view()),
        }
    }
}

impl Codec for DocumentChanges {
    open spec fn encode(value: DocumentChangesModel) -> JsonValue {
        match value {
            DocumentChangesModel::Edits(value) => Vec::<TextDocumentEdit>::encode(value),
            DocumentChangesModel::Operations(value) => Vec::<DocumentChangeOperation>::encode(value),
        }
    }

    open spec fn decode(json: JsonValue) -> Result<DocumentChangesModel, CodecError> {
        if let Ok(value) = Vec::<TextDocumentEdit>::decode(json) {
            Ok(DocumentChangesModel::Edits(value))
        } else if let Ok(value) = Vec::<DocumentChangeOperation>::decode(json) {
            Ok(DocumentChangesModel::Operations(value))
        } else {
            Err(CodecError::NoVariantMatched)
        }
    }

    fn serialize(&self) -> (json: Json) {
        match self {
            DocumentChanges::Edits(value) => value.serialize(),
            DocumentChanges::Operations(value) => value.serialize(),
        }
    }

    fn deserialize(json: &Json) -> (result: Result<DocumentChanges, CodecError>) {
        if let Ok(value) = Vec::<TextDocumentEdit>::deserialize(json) {
            Ok(DocumentChanges::Edits(value))
        } else if let Ok(value) = Vec::<DocumentChangeOperation>::deserialize(json) {
            Ok(DocumentChanges::Operations(value))
        } else {
            Err(CodecError::NoVariantMatched)
        }
    }
}

impl DocumentChanges {
    /// A value comes back unchanged from its document exactly when its
    /// payload does and no variant declared before its own reads the
    /// payload's document.
    pub proof fn lemma_round_trip(value: DocumentChangesModel)
        ensures
            survives::<DocumentChanges>(value) <==> match value {
                DocumentChangesModel::Edits(v) => survives::<Vec<TextDocumentEdit>>(v),
                DocumentChangesModel::Operations(v) => Vec::<TextDocumentEdit>::decode(Vec::<DocumentChangeOperation>::encode(v)) is Err
                    && survives::<Vec<DocumentChangeOperation>>(v),
            },
    {
    }
}

#[derive(Debug, PartialEq, Eq, Clone)]
pub enum DocumentChangeOperation {
    Op(ResourceOp),
    Edit(TextDocumentEdit),
}

/// What a [`DocumentChangeOperation`] stands for.
pub enum DocumentChangeOperationModel {
    Op(ResourceOpModel),
    Edit(TextDocumentEditModel),
}

impl DeepView for DocumentChangeOperation {
    type V = DocumentChangeOperationModel;

    open spec fn deep_view(&self) -> DocumentChangeOperationModel {
        match self {
            DocumentChangeOperation::Op(value) => DocumentChangeOperationModel::Op(value.deep_view()),
            DocumentChangeOperation::Edit(value) => DocumentChangeOperationModel::Edit(value.deep_view()),
        }
    }
}

impl Codec for DocumentChangeOperation {
    open spec fn encode(value: DocumentChangeOperationModel) -> JsonValue {
        match value {
            DocumentChangeOperationModel::Op(value) => ResourceOp::encode(value),
            DocumentChangeOperationModel::Edit(value) => TextDocumentEdit::encode(value),
        }
    }

    open spec fn decode(json: JsonValue) -> Result<DocumentChangeOperationModel, CodecError> {
        if let Ok(value) = ResourceOp::decode(json) {
            Ok(DocumentChangeOperationModel::Op(value))
        } else if let Ok(value) = TextDocumentEdit::decode(json) {
            Ok(DocumentChangeOperationModel::Edit(value))
        } else {
            Err(CodecError::NoVariantMatched)
        }
    }

    fn serialize(&self) -> (json: Json) {
        match self {
            DocumentChangeOperation::Op(value) => value.serialize(),
            DocumentChangeOperation::Edit(value) => value.serialize(),
        }
    }

    fn deserialize(json: &Json) -> (result: Result<DocumentChangeOperation, CodecError>) {
        if let Ok(value) = ResourceOp::deserialize(json) {
            Ok(DocumentChangeOperation::Op(value))
        } else if let Ok(value) = TextDocumentEdit::deserialize(json) {
            Ok(DocumentChangeOperation::Edit(value))
        } else {
            Err(CodecError::NoVariantMatched)
        }
    }
}

impl DocumentChangeOperation {
    /// A value comes back unchanged from its document exactly when its
    /// payload does and no variant declared before its own reads the
    /// payload's document.
    pub proof fn lemma_round_trip(value: DocumentChangeOperationModel)
        ensures
            survives::<DocumentChangeOperation>(value) <==> match value {
                DocumentChangeOperationModel::Op(v) => survives::<ResourceOp>(v),
                DocumentChangeOperationModel::Edit(v) => ResourceOp::decode(TextDocumentEdit::encode(v)) is Err
                    && survives::<TextDocumentEdit>(v),
            },
    {
    }
}

#[derive(Debug, PartialEq, Eq, Clone, Default)]
pub struct WorkspaceEditCapability {
    /// The client supports versioned document changes in `WorkspaceEdit`s
    pub document_changes: Option<bool>,
    /// The resource operations the client supports. Clients should at least
    /// support 'create', 'rename' and 'delete' files and folders.
    pub resource_operations: Option<Vec<ResourceOperationKind>>,
    /// The failure handling strategy of a client if applying the workspace edit
    /// failes.
    pub failure_handling: Option<FailureHandlingKind>,
}

/// What a [`WorkspaceEditCapability`] stands for.
pub struct WorkspaceEditCapabilityModel {
    pub document_changes: Option<bool>,
    pub resource_operations: Option<Seq<ResourceOperationKind>>,
    pub failure_handling: Option<FailureHandlingKind>,
}

impl DeepView for WorkspaceEditCapability {
    type V = WorkspaceEditCapabilityModel;

    open spec fn deep_view(&self) -> WorkspaceEditCapabilityModel {
        WorkspaceEditCapabilityModel {
            document_changes: self.document_changes.deep_view(),
            resource_operations: self.resource_operations.deep_view(),
            failure_handling: self.failure_handling.deep_view(),
        }
    }
}

impl Record for WorkspaceEditCapability {
    open spec fn members(before: Seq<Member>, value: WorkspaceEditCapabilityModel) -> Seq<Member> {
        before + optional_field::<bool>("documentChanges"@, value.document_changes)
            + optional_field::<Vec<ResourceOperationKind>>(
                "resourceOperations"@,
                value.resource_operations,
            )
            + optional_field::<FailureHandlingKind>("failureHandling"@, value.failure_handling)
    }

    open spec fn read(members: Seq<Member>) -> Result<WorkspaceEditCapabilityModel, CodecError> {
        let document_changes = optional::<bool>(members, "documentChanges"@);
        let resource_operations = optional::<Vec<ResourceOperationKind>>(
            members,
            "resourceOperations"@,
        );
        let failure_handling = optional::<FailureHandlingKind>(members, "failureHandling"@);
        if document_changes is Err {
            Err(document_changes->Err_0)
        } else if resource_operations is Err {
            Err(resource_operations->Err_0)
        } else if failure_handling is Err {
            Err(failure_handling->Err_0)
        } else {
            Ok(
                WorkspaceEditCapabilityModel {
                    document_changes: document_changes->Ok_0,
                    resource_operations: resource_operations->Ok_0,
                    failure_handling: failure_handling->Ok_0,
                },
            )
        }
    }

    fn write(&self, members: &mut Vec<(String, Json)>) {
        put_optional(members, "documentChanges", &self.document_changes);
        put_optional(members, "resourceOperations", &self.resource_operations);
        put_optional(members, "failureHandling", &self.failure_handling);
    }

    fn scan(members: &Vec<(String, Json)>) -> (result: Result<WorkspaceEditCapability, CodecError>) {
        let document_changes = get_optional::<bool>(members, "documentChanges");
        let resource_operations = get_optional::<Vec<ResourceOperationKind>>(
            members,
            "resourceOperations",
        );
        let failure_handling = get_optional::<FailureHandlingKind>(members, "failureHandling");
        if let Err(error) = document_changes {
            Err(error)
        } else if let Err(error) = resource_operations {
            Err(error)
        } else if let Err(error) = failure_handling {
            Err(error)
        } else {
            Ok(
                WorkspaceEditCapability {
                    document_changes: document_changes.unwrap(),
                    resource_operations: resource_operations.unwrap(),
                    failure_handling: failure_handling.unwrap(),
                },
            )
        }
    }
}

impl WorkspaceEditCapability {
    /// Every value comes back unchanged from the document that stands for it.
    pub proof fn lemma_survives(value: WorkspaceEditCapabilityModel)
        ensures
            survives::<WorkspaceEditCapability>(value),
    {
        broadcast use group_lookup;

        reveal(optional);
        reveal_strlit("documentChanges");
        reveal_strlit("resourceOperations");
        reveal_strlit("failureHandling");
        if let Some(inner) = value.resource_operations {
            assert forall|i: int| 0 <= i < inner.len() implies survives::<ResourceOperationKind>(
                #[trigger] inner[i],
            ) by {
                ResourceOperationKind::lemma_survives(inner[i]);
            }
            lemma_sequence_round_trip::<ResourceOperationKind>(inner);
        }
        if let Some(inner) = value.failure_handling {
            FailureHandlingKind::lemma_survives(inner);
        }
    }
}

#[derive(Debug, PartialEq, Eq, Structural, Clone, Copy)]
pub enum ResourceOperationKind {
    Create,
    Rename,
    Delete,
}

impl DeepView for ResourceOperationKind {
    type V = ResourceOperationKind;

    open spec fn deep_view(&self) -> ResourceOperationKind {
        *self
    }
}

impl ResourceOperationKind {
    /// The string that stands for a variant on the wire.
    pub open spec fn name(self) -> Seq<char> {
        match self {
            ResourceOperationKind::Create => "create"@,
            ResourceOperationKind::Rename => "rename"@,
            ResourceOperationKind::Delete => "delete"@,
        }
    }

    /// The variant that a string stands for, if any.
    pub open spec fn named(name: Seq<char>) -> Option<ResourceOperationKind> {
        if name == "create"@ {
            Some(ResourceOperationKind::Create)
        } else if name == "rename"@ {
            Some(ResourceOperationKind::Rename)
        } else if name == "delete"@ {
            Some(ResourceOperationKind::Delete)
        } else {
            None
        }
    }

    /// Gives the string that stands for this variant on the wire.
    pub fn as_str(&self) -> (name: &'static str)
        ensures
            name@ == self.name(),
    {
        match self {
            ResourceOperationKind::Create => "create",
            ResourceOperationKind::Rename => "rename",
            ResourceOperationKind::Delete => "delete",
        }
    }

    /// Gives the variant that a string stands for, if any.
    pub fn from_name(name: &String) -> (variant: Option<ResourceOperationKind>)
        ensures
            variant == Self::named(name@),
    {
        if *name == "create".to_owned() {
            Some(ResourceOperationKind::Create)
        } else if *name == "rename".to_owned() {
            Some(ResourceOperationKind::Rename)
        } else if *name == "delete".to_owned() {
            Some(ResourceOperationKind::Delete)
        } else {
            None
        }
    }

    /// Every variant comes back unchanged from the string that stands for it.
    pub proof fn lemma_survives(value: ResourceOperationKind)
        ensures
            survives::<ResourceOperationKind>(value),
    {
        reveal_strlit("create");
        reveal_strlit("rename");
        reveal_strlit("delete");
        assert(traits_of("create"@) == (6nat, 'c', 't', 't'));
        assert(traits_of("rename"@) == (6nat, 'r', 'm', 'm'));
        assert(traits_of("delete"@) == (6nat, 'd', 't', 't'));
    }
}

impl Codec for ResourceOperationKind {
    open spec fn encode(value: ResourceOperationKind) -> JsonValue {
        JsonValue::String(value.name())
    }

    open spec fn decode(json: JsonValue) -> Result<ResourceOperationKind, CodecError> {
        match json {
            JsonValue::String(name) => match Self::named(name) {
                Some(variant) => Ok(variant),
                None => Err(CodecError::UnknownVariant),
            },
            _ => Err(CodecError::UnexpectedType),
        }
    }

    fn serialize(&self) -> (json: Json) {
        Json::String(self.as_str().to_owned())
    }

    fn deserialize(json: &Json) -> (result: Result<ResourceOperationKind, CodecError>) {
        match json {
            Json::String(name) => match Self::from_name(name) {
                Some(variant) => Ok(variant),
                None => Err(CodecError::UnknownVariant),
            },
            _ => Err(CodecError::UnexpectedType),
        }
    }
}

#[derive(Debug, PartialEq, Eq, Structural, Clone, Copy)]
pub enum FailureHandlingKind {
    Abort,
    Transactional,
    TextOnlyTransactional,
    Undo,
}

impl DeepView for FailureHandlingKind {
    type V = FailureHandlingKind;

    open spec fn deep_view(&self) -> FailureHandlingKind {
        *self
    }
}

impl FailureHandlingKind {
    /// The string that stands for a variant on the wire.
    pub open spec fn name(self) -> Seq<char> {
        match self {
            FailureHandlingKind::Abort => "abort"@,
            FailureHandlingKind::Transactional => "transactional"@,
            FailureHandlingKind::TextOnlyTransactional => "textOnlyTransactional"@,
            FailureHandlingKind::Undo => "undo"@,
        }
    }

    /// The variant that a string stands for, if any.
    pub open spec fn named(name: Seq<char>) -> Option<FailureHandlingKind> {
        if name == "abort"@ {
            Some(FailureHandlingKind::Abort)
        } else if name == "transactional"@ {
            Some(FailureHandlingKind::Transactional)
        } else if name == "textOnlyTransactional"@ {
            Some(FailureHandlingKind::TextOnlyTransactional)
        } else if name == "undo"@ {
            Some(FailureHandlingKind::Undo)
        } else {
            None
        }
    }

    /// Gives the string that stands for this variant on the wire.
    pub fn as_str(&self) -> (name: &'static str)
        ensures
            name@ == self.name(),
    {
        match self {
            FailureHandlingKind::Abort => "abort",
            FailureHandlingKind::Transactional => "transactional",
            FailureHandlingKind::TextOnlyTransactional => "textOnlyTransactional",
            FailureHandlingKind::Undo => "undo",
        }
    }

    /// Gives the variant that a string stands for, if any.
    pub fn from_name(name: &String) -> (variant: Option<FailureHandlingKind>)
        ensures
            variant == Self::named(name@),
    {
        if *name == "abort".to_owned() {
            Some(FailureHandlingKind::Abort)
        } else if *name == "transactional".to_owned() {
            Some(FailureHandlingKind::Transactional)
        } else if *name == "textOnlyTransactional".to_owned() {
            Some(FailureHandlingKind::TextOnlyTransactional)
        } else if *name == "undo".to_owned() {
            Some(FailureHandlingKind::Undo)
        } else {
            None
        }
    }

    /// Every variant comes back unchanged from the string that stands for it.
    pub proof fn lemma_survives(value: FailureHandlingKind)
        ensures
            survives::<FailureHandlingKind>(value),
    {
        reveal_strlit("abort");
        reveal_strlit("transactional");
        reveal_strlit("textOnlyTransactional");
        reveal_strlit("undo");
        assert(traits_of("abort"@) == (5nat, 'a', 't', 'r'));
        assert(traits_of("transactional"@) == (13nat, 't', 's', 'a'));
        assert(traits_of("textOnlyTransactional"@) == (21nat, 't', 'O', 'a'));
        assert(traits_of("undo"@) == (4nat, 'u', ' ', 'd'));
    }
}

impl Codec for FailureHandlingKind {
    open spec fn encode(value: FailureHandlingKind) -> JsonValue {
        JsonValue::String(value.name())
    }

    open spec fn decode(json: JsonValue) -> Result<FailureHandlingKind, CodecError> {
        match json {
            JsonValue::String(name) => match Self::named(name) {
                Some(variant) => Ok(variant),
                None => Err(CodecError::UnknownVariant),
            },
            _ => Err(CodecError::UnexpectedType),
        }
    }

    fn serialize(&self) -> (json: Json) {
        Json::String(self.as_str().to_owned())
    }

    fn deserialize(json: &Json) -> (result: Result<FailureHandlingKind, CodecError>) {
        match json {
            Json::String(name) => match Self::from_name(name) {
                Some(variant) => Ok(variant),
                None => Err(CodecError::UnknownVariant),
            },
            _ => Err(CodecError::UnexpectedType),
        }
    }
}

#[derive(Debug, PartialEq, Eq, Clone)]
pub struct ApplyWorkspaceEditParams {
    /// The edits to apply.
    pub edit: WorkspaceEdit,
}

/// What a [`ApplyWorkspaceEditParams`] stands for.
pub struct ApplyWorkspaceEditParamsModel {
    pub edit: WorkspaceEditModel,
}

impl DeepView for ApplyWorkspaceEditParams {
    type V = ApplyWorkspaceEditParamsModel;

    open spec fn deep_view(&self) -> ApplyWorkspaceEditParamsModel {
        ApplyWorkspaceEditParamsModel {
            edit: self.edit.deep_view(),
        }
    }
}

impl Record for ApplyWorkspaceEditParams {
    open spec fn members(before: Seq<Member>, value: ApplyWorkspaceEditParamsModel) -> Seq<Member> {
        before + field::<WorkspaceEdit>("edit"@, value.edit)
    }

    open spec fn read(members: Seq<Member>) -> Result<ApplyWorkspaceEditParamsModel, CodecError> {
        let edit = required::<WorkspaceEdit>(members, "edit"@);
        if edit is Err {
            Err(edit->Err_0)
        } else {
            Ok(
                ApplyWorkspaceEditParamsModel {
                    edit: edit->Ok_0,
                },
            )
        }
    }

    fn write(&self, members: &mut Vec<(String, Json)>) {
        put(members, "edit", &self.edit);
    }

    fn scan(members: &Vec<(String, Json)>) -> (result: Result<ApplyWorkspaceEditParams, CodecError>) {
        let edit = get::<WorkspaceEdit>(members, "edit");
        if let Err(error) = edit {
            Err(error)
        } else {
            Ok(
                ApplyWorkspaceEditParams {
                    edit: edit.unwrap(),
                },
            )
        }
    }
}

impl ApplyWorkspaceEditParams {
    /// A value comes back unchanged from the document that stands for it
    /// where its fields meet what is asked of them here.
    pub proof fn lemma_round_trip(value: ApplyWorkspaceEditParamsModel)
        requires
            survives::<WorkspaceEdit>(value.edit),
        ensures
            survives::<ApplyWorkspaceEditParams>(value),
    {
        broadcast use group_lookup;

        reveal(required);
        reveal_strlit("edit");
    }
}

#[derive(Debug, PartialEq, Eq, Structural, Clone)]
pub struct ApplyWorkspaceEditResponse {
    /// Indicates whether the edit was applied or not.
    pub applied: bool,
}

impl DeepView for ApplyWorkspaceEditResponse {
    type V = ApplyWorkspaceEditResponse;

    open spec fn deep_view(&self) -> ApplyWorkspaceEditResponse {
        ApplyWorkspaceEditResponse {
            applied: self.applied.deep_view(),
        }
    }
}

impl Record for ApplyWorkspaceEditResponse {
    open spec fn members(before: Seq<Member>, value: ApplyWorkspaceEditResponse) -> Seq<Member> {
        before + field::<bool>("applied"@, value.applied)
    }

    open spec fn read(members: Seq<Member>) -> Result<ApplyWorkspaceEditResponse, CodecError> {
        let applied = required::<bool>(members, "applied"@);
        if applied is Err {
            Err(applied->Err_0)
        } else {
            Ok(
                ApplyWorkspaceEditResponse {
                    applied: applied->Ok_0,
                },
            )
        }
    }

    fn write(&self, members: &mut Vec<(String, Json)>) {
        put(members, "applied", &self.applied);
    }

    fn scan(members: &Vec<(String, Json)>) -> (result: Result<ApplyWorkspaceEditResponse, CodecError>) {
        let applied = get::<bool>(members, "applied");
        if let Err(error) = applied {
            Err(error)
        } else {
            Ok(
                ApplyWorkspaceEditResponse {
                    applied: applied.unwrap(),
                },
            )
        }
    }
}

impl ApplyWorkspaceEditResponse {
    /// Every value comes back unchanged from the document that stands for it.
    pub proof fn lemma_survives(value: ApplyWorkspaceEditResponse)
        ensures
            survives::<ApplyWorkspaceEditResponse>(value),
    {
        broadcast use group_lookup;

        reveal(required);
        reveal_strlit("applied");
    }
}

/// A change to a file or folder as a whole. The member `kind` of its object
/// says which: `create`, `rename` or `delete`.
#[derive(Debug, PartialEq, Eq, Clone)]
pub enum ResourceOp {
    Create(CreateFile),
    Rename(RenameFile),
    Delete(DeleteFile),
}

/// What a [`ResourceOp`] stands for.
pub enum ResourceOpModel {
    Create(CreateFileModel),
    Rename(RenameFileModel),
    Delete(DeleteFileModel),
}

impl DeepView for ResourceOp {
    type V = ResourceOpModel;

    open spec fn deep_view(&self) -> ResourceOpModel {
        match self {
            ResourceOp::Create(value) => ResourceOpModel::Create(value.deep_view()),
            ResourceOp::Rename(value) => ResourceOpModel::Rename(value.deep_view()),
            ResourceOp::Delete(value) => ResourceOpModel::Delete(value.deep_view()),
        }
    }
}

impl Record for ResourceOp {
    open spec fn members(before: Seq<Member>, value: ResourceOpModel) -> Seq<Member> {
        match value {
            ResourceOpModel::Create(value) => CreateFile::members(
                before + field::<String>("kind"@, "create"@),
                value,
            ),
            ResourceOpModel::Rename(value) => RenameFile::members(
                before + field::<String>("kind"@, "rename"@),
                value,
            ),
            ResourceOpModel::Delete(value) => DeleteFile::members(
                before + field::<String>("kind"@, "delete"@),
                value,
            ),
        }
    }

    open spec fn read(members: Seq<Member>) -> Result<ResourceOpModel, CodecError> {
        match required::<String>(members, "kind"@) {
            Err(error) => Err(error),
            Ok(kind) => {
                if kind == "create"@ {
                    match CreateFile::read(members) {
                        Ok(value) => Ok(ResourceOpModel::Create(value)),
                        Err(error) => Err(error),
                    }
                } else if kind == "rename"@ {
                    match RenameFile::read(members) {
                        Ok(value) => Ok(ResourceOpModel::Rename(value)),
                        Err(error) => Err(error),
                    }
                } else if kind == "delete"@ {
                    match DeleteFile::read(members) {
                        Ok(value) => Ok(ResourceOpModel::Delete(value)),
                        Err(error) => Err(error),
                    }
                } else {
                    Err(CodecError::UnknownVariant)
                }
            },
        }
    }

    fn write(&self, members: &mut Vec<(String, Json)>) {
        match self {
            ResourceOp::Create(value) => {
                put(members, "kind", &"create".to_owned());
                value.write(members);
            },
            ResourceOp::Rename(value) => {
                put(members, "kind", &"rename".to_owned());
                value.write(members);
            },
            ResourceOp::Delete(value) => {
                put(members, "kind", &"delete".to_owned());
                value.write(members);
            },
        }
    }

    fn scan(members: &Vec<(String, Json)>) -> (result: Result<ResourceOp, CodecError>) {
        match get::<String>(members, "kind") {
            Err(error) => Err(error),
            Ok(kind) => {
                if kind == "create".to_owned() {
                    match CreateFile::scan(members) {
                        Ok(value) => Ok(ResourceOp::Create(value)),
                        Err(error) => Err(error),
                    }
                } else if kind == "rename".to_owned() {
                    match RenameFile::scan(members) {
                        Ok(value) => Ok(ResourceOp::Rename(value)),
                        Err(error) => Err(error),
                    }
                } else if kind == "delete".to_owned() {
                    match DeleteFile::scan(members) {
                        Ok(value) => Ok(ResourceOp::Delete(value)),
                        Err(error) => Err(error),
                    }
                } else {
                    Err(CodecError::UnknownVariant)
                }
            },
        }
    }
}

} // verus!
