//! Data types of the Language Server Protocol, with their form on the wire.
//!
//! Every type of the protocol travels as a JSON document. What the document
//! of a value is, and which value a document stands for, is said by the two
//! spec functions of [`Codec`]; `serialize` and `deserialize` compute them and
//! are proved to do so. The types that are written as objects say it member
//! by member, through [`Record`].
//!
//! Most of the protocol is plain records. The parts with rules of their own
//! are
//!
//! - enumerations that travel as integers, such as [`DiagnosticSeverity`],
//!   and [`SymbolKind`], which reads every unknown integer as `Unknown`;
//! - unions without a tag, such as [`NumberOrString`], which are read as the
//!   first variant that accepts the document;
//! - [`TagSupport`], which some clients send as a boolean;
//! - [`WatchKind`], a set of flags that travels as one integer;
//! - the tokens of [`SemanticHighlightingInformation`], packed into a base64
//!   string, and those of [`SemanticTokens`], packed into a flat array.
//!
//! Proof functions named `lemma_survives` state that every value of a type
//! comes back unchanged from its document; those named `lemma_round_trip`
//! state exactly which values do.
//!
//! URLs are parsed by the `url` crate, URI references by `fluent_uri`, and
//! base64 text is written and read by the `base64` crate. What these return
//! is taken on trust, under the names [`url::url_serialization`],
//! [`uri::is_uri_reference`], [`semantic_highlighting::base64_encoding`] and
//! [`semantic_highlighting::base64_decoding`].

pub mod basic;
pub mod call_hierarchy;
pub mod capabilities;
pub mod code_action;
pub mod code_lens;
pub mod codec;
pub mod color;
pub mod commands;
pub mod completion;
pub mod configuration;
pub mod diagnostic;
pub mod document_link;
pub mod document_sync;
pub mod file_operations;
pub mod folding_range;
pub mod formatting;
pub mod hover;
pub mod json;
pub mod lifecycle;
pub mod navigation;
pub mod notebook;
pub mod notification;
pub mod progress;
pub mod registration;
pub mod rename;
pub mod request;
pub mod selection_range;
pub mod semantic_highlighting;
pub mod semantic_tokens;
pub mod server_capabilities;
pub mod signature_help;
pub mod symbols;
pub mod tag_support;
pub mod type_rename;
pub mod uri;
pub mod url;
pub mod url_map;
pub mod watched_files;
pub mod window;
pub mod workspace_edit;
pub mod workspace_folders;

pub use crate::basic::{
    CancelParams, CancelParamsModel, Command, CommandModel, DocumentFilter, DocumentFilterModel,
    Location, LocationLink, LocationLinkModel, LocationModel, MarkupContent, MarkupContentModel,
    MarkupKind, NumberOrString, NumberOrStringModel, Position, Range, TextDocumentIdentifier,
    TextDocumentIdentifierModel, TextDocumentItem, TextDocumentItemModel,
    TextDocumentPositionParams, TextDocumentPositionParamsModel, TextEdit, TextEditModel,
    VersionedTextDocumentIdentifier, VersionedTextDocumentIdentifierModel,
};
pub use crate::call_hierarchy::{
    CallHierarchyIncomingCall, CallHierarchyIncomingCallModel, CallHierarchyIncomingCallsParams,
    CallHierarchyIncomingCallsParamsModel, CallHierarchyItem, CallHierarchyItemModel,
    CallHierarchyOptions, CallHierarchyOutgoingCall, CallHierarchyOutgoingCallModel,
    CallHierarchyOutgoingCallsParams, CallHierarchyOutgoingCallsParamsModel,
    CallHierarchyPrepareParams, CallHierarchyPrepareParamsModel, CallHierarchyServerCapability,
};
pub use crate::capabilities::{
    ClientCapabilities, ClientCapabilitiesModel, CodeActionCapability, CodeActionCapabilityModel,
    CodeActionKindLiteralSupport, CodeActionKindLiteralSupportModel, CodeActionLiteralSupport,
    CodeActionLiteralSupportModel, DocumentLinkCapabilities, DocumentSymbolClientCapabilities,
    DocumentSymbolClientCapabilitiesModel, FoldingRangeCapability, GenericCapability,
    GenericOptions, GenericParams, GenericParamsModel, GenericRegistrationOptions,
    GenericRegistrationOptionsModel, GotoCapability, HoverCapability, HoverCapabilityModel,
    ParameterInformationSettings, RenameCapability, SignatureHelpCapability,
    SignatureHelpCapabilityModel, SignatureInformationSettings, SignatureInformationSettingsModel,
    SymbolKindCapability, SymbolKindCapabilityModel, SynchronizationCapability,
    TextDocumentClientCapabilities, TextDocumentClientCapabilitiesModel, WindowClientCapabilities,
    WorkspaceClientCapabilities, WorkspaceClientCapabilitiesModel,
    WorkspaceSymbolClientCapabilities, WorkspaceSymbolClientCapabilitiesModel,
};
pub use crate::code_action::{
    CodeAction, CodeActionContext, CodeActionContextModel, CodeActionKind, CodeActionModel,
    CodeActionOptions, CodeActionOptionsModel, CodeActionOrCommand, CodeActionOrCommandModel,
    CodeActionParams, CodeActionParamsModel,
};
pub use crate::code_lens::{
    CodeLens, CodeLensModel, CodeLensParams, CodeLensParamsModel,
    CodeLensWorkspaceClientCapabilities,
};
pub use crate::codec::{Codec, CodecError, Member, Record};
pub use crate::color::{
    Color, ColorInformation, ColorPresentation, ColorPresentationModel, ColorPresentationParams,
    ColorPresentationParamsModel, DocumentColorParams, DocumentColorParamsModel,
};
pub use crate::commands::{
    ExecuteCommandParams, ExecuteCommandParamsModel, ExecuteCommandRegistrationOptions,
    ExecuteCommandRegistrationOptionsModel,
};
pub use crate::completion::{
    CompletionCapability, CompletionCapabilityModel, CompletionClientCapabilities,
    CompletionClientCapabilitiesModel, CompletionContext, CompletionContextModel, CompletionItem,
    CompletionItemCapability, CompletionItemCapabilityModel, CompletionItemCapabilityResolveSupport,
    CompletionItemCapabilityResolveSupportModel, CompletionItemKind, CompletionItemKindCapability,
    CompletionItemKindCapabilityModel, CompletionItemModel, CompletionItemTag, CompletionList,
    CompletionListModel, CompletionOptions, CompletionOptionsModel, CompletionParams,
    CompletionParamsModel, CompletionRegistrationOptions, CompletionRegistrationOptionsModel,
    CompletionResponse, CompletionResponseModel, CompletionTextEdit, CompletionTextEditModel,
    CompletionTriggerKind, Documentation, DocumentationModel, InsertReplaceEdit,
    InsertReplaceEditModel, InsertTextFormat, InsertTextMode, InsertTextModeSupport,
    InsertTextModeSupportModel,
};
pub use crate::configuration::{
    ConfigurationItem, ConfigurationItemModel, ConfigurationParams, ConfigurationParamsModel,
    DidChangeConfigurationParams, DidChangeConfigurationParamsModel,
};
pub use crate::diagnostic::{
    Diagnostic, DiagnosticModel, DiagnosticRelatedInformation, DiagnosticRelatedInformationModel,
    DiagnosticSeverity, DiagnosticTag, PublishDiagnosticsCapability,
    PublishDiagnosticsCapabilityModel, PublishDiagnosticsParams, PublishDiagnosticsParamsModel,
};
pub use crate::document_link::{
    DocumentLink, DocumentLinkModel, DocumentLinkOptions, DocumentLinkParams,
    DocumentLinkParamsModel,
};
pub use crate::document_sync::{
    DidChangeTextDocumentParams, DidChangeTextDocumentParamsModel, DidCloseTextDocumentParams,
    DidCloseTextDocumentParamsModel, DidOpenTextDocumentParams, DidOpenTextDocumentParamsModel,
    DidSaveTextDocumentParams, DidSaveTextDocumentParamsModel,
    TextDocumentChangeRegistrationOptions, TextDocumentChangeRegistrationOptionsModel,
    TextDocumentContentChangeEvent, TextDocumentContentChangeEventModel, TextDocumentSaveReason,
    TextDocumentSaveRegistrationOptions, TextDocumentSaveRegistrationOptionsModel,
    WillSaveTextDocumentParams, WillSaveTextDocumentParamsModel,
};
pub use crate::file_operations::{
    CreateFilesParams, CreateFilesParamsModel, DeleteFilesParams, DeleteFilesParamsModel,
    FileCreate, FileCreateModel, FileDelete, FileDeleteModel, FileOperationPattern,
    FileOperationPatternKind, FileOperationPatternModel, FileOperationPatternOptions,
    FileOperationRegistrationOptions, FileOperationRegistrationOptionsModel, FileRename,
    FileRenameModel, RenameFilesParams, RenameFilesParamsModel,
    WorkspaceFileOperationsClientCapabilities, WorkspaceFileOperationsServerCapabilities,
    WorkspaceFileOperationsServerCapabilitiesModel, WorkspaceFoldersServerCapabilities,
    WorkspaceFoldersServerCapabilitiesModel, WorkspaceServerCapabilities,
    WorkspaceServerCapabilitiesModel,
};
pub use crate::folding_range::{
    FoldingProviderOptions, FoldingRange, FoldingRangeKind, FoldingRangeParams,
    FoldingRangeParamsModel, FoldingRangeProviderCapability, FoldingRangeProviderCapabilityModel,
};
pub use crate::formatting::{
    DocumentFormattingParams, DocumentFormattingParamsModel, DocumentOnTypeFormattingParams,
    DocumentOnTypeFormattingParamsModel, DocumentOnTypeFormattingRegistrationOptions,
    DocumentOnTypeFormattingRegistrationOptionsModel, DocumentRangeFormattingParams,
    DocumentRangeFormattingParamsModel, FormattingOptions, FormattingOptionsModel,
    FormattingProperty, FormattingPropertyModel,
};
pub use crate::hover::{
    Hover, HoverContents, HoverContentsModel, HoverModel, HoverOptions, HoverParams,
    HoverParamsModel, HoverRegistrationOptions, HoverRegistrationOptionsModel, LanguageString,
    LanguageStringModel, MarkedString, MarkedStringModel,
};
pub use crate::json::{Json, JsonValue, LSPObject, Number};
pub use crate::lifecycle::{
    ClientInfo, ClientInfoModel, InitializedParams, InitializeError, InitializeParams,
    InitializeParamsModel, InitializeResult, InitializeResultModel, ServerInfo, ServerInfoModel,
    TraceOption,
};
pub use crate::navigation::{
    DocumentHighlight, DocumentHighlightKind, DocumentHighlightParams, DocumentHighlightParamsModel,
    GotoDefinitionParams, GotoDefinitionParamsModel, GotoDefinitionResponse,
    GotoDefinitionResponseModel, ReferenceContext, ReferenceParams, ReferenceParamsModel,
};
pub use crate::notebook::{
    DidChangeNotebookDocumentParams, DidChangeNotebookDocumentParamsModel,
    DidCloseNotebookDocumentParams, DidCloseNotebookDocumentParamsModel,
    DidOpenNotebookDocumentParams, DidOpenNotebookDocumentParamsModel,
    DidSaveNotebookDocumentParams, DidSaveNotebookDocumentParamsModel, ExecutionSummary, Notebook,
    NotebookCell, NotebookCellArrayChange, NotebookCellArrayChangeModel, NotebookCellKind,
    NotebookCellModel, NotebookCellSelector, NotebookCellSelectorModel,
    NotebookCellTextDocumentFilter, NotebookCellTextDocumentFilterModel, NotebookDocument,
    NotebookDocumentCellChange, NotebookDocumentCellChangeModel,
    NotebookDocumentCellChangeStructure, NotebookDocumentCellChangeStructureModel,
    NotebookDocumentChangeEvent, NotebookDocumentChangeEventModel,
    NotebookDocumentChangeTextContent, NotebookDocumentChangeTextContentModel,
    NotebookDocumentClientCapabilities, NotebookDocumentFilter, NotebookDocumentFilterModel,
    NotebookDocumentIdentifier, NotebookDocumentIdentifierModel, NotebookDocumentModel,
    NotebookDocumentSyncClientCapabilities, NotebookDocumentSyncOptions,
    NotebookDocumentSyncOptionsModel, NotebookDocumentSyncRegistrationOptions,
    NotebookDocumentSyncRegistrationOptionsModel, NotebookModel, NotebookSelector,
    NotebookSelectorModel, VersionedNotebookDocumentIdentifier,
    VersionedNotebookDocumentIdentifierModel,
};
pub use crate::progress::{
    PartialResultParams, PartialResultParamsModel, ProgressParams, ProgressParamsModel,
    ProgressParamsValue, ProgressParamsValueModel, WorkDoneProgress, WorkDoneProgressBegin,
    WorkDoneProgressBeginModel, WorkDoneProgressCancelParams, WorkDoneProgressCancelParamsModel,
    WorkDoneProgressCreateParams, WorkDoneProgressCreateParamsModel, WorkDoneProgressEnd,
    WorkDoneProgressEndModel, WorkDoneProgressModel, WorkDoneProgressOptions,
    WorkDoneProgressParams, WorkDoneProgressParamsModel, WorkDoneProgressReport,
    WorkDoneProgressReportModel,
};
pub use crate::registration::{
    ColorProviderOptions, Registration, RegistrationModel, RegistrationParams,
    RegistrationParamsModel, StaticRegistrationOptions, StaticRegistrationOptionsModel,
    StaticTextDocumentColorProviderOptions, StaticTextDocumentColorProviderOptionsModel,
    StaticTextDocumentRegistrationOptions, StaticTextDocumentRegistrationOptionsModel,
    TextDocumentRegistrationOptions, TextDocumentRegistrationOptionsModel, Unregistration,
    UnregistrationModel, UnregistrationParams, UnregistrationParamsModel,
};
pub use crate::rename::{
    PrepareRenameResponse, PrepareRenameResponseModel, RenameOptions, RenameParams,
    RenameParamsModel, RenameProviderCapability,
};
pub use crate::selection_range::{
    SelectionRange, SelectionRangeOptions, SelectionRangeParams, SelectionRangeParamsModel,
    SelectionRangeProviderCapability, SelectionRangeProviderCapabilityModel,
    SelectionRangeRegistrationOptions, SelectionRangeRegistrationOptionsModel,
};
pub use crate::semantic_highlighting::{
    SemanticHighlightingClientCapability, SemanticHighlightingInformation,
    SemanticHighlightingInformationModel, SemanticHighlightingParams,
    SemanticHighlightingParamsModel, SemanticHighlightingServerCapability,
    SemanticHighlightingServerCapabilityModel, SemanticHighlightingToken,
};
pub use crate::semantic_tokens::{
    SemanticToken, SemanticTokenModifier, SemanticTokens, SemanticTokensClientCapabilities,
    SemanticTokensClientCapabilitiesModel, SemanticTokensDocumentProvider, SemanticTokensEdit,
    SemanticTokensEditModel, SemanticTokensEditResult, SemanticTokensEditResultModel,
    SemanticTokensEdits, SemanticTokensEditsModel, SemanticTokensEditsParams,
    SemanticTokensEditsParamsModel, SemanticTokensEditsPartialResult,
    SemanticTokensEditsPartialResultModel, SemanticTokensLegend, SemanticTokensLegendModel,
    SemanticTokensModel, SemanticTokensOptions, SemanticTokensOptionsModel, SemanticTokensParams,
    SemanticTokensParamsModel, SemanticTokensPartialResult, SemanticTokensPartialResultModel,
    SemanticTokensRangeParams, SemanticTokensRangeParamsModel, SemanticTokensRangeResult,
    SemanticTokensRangeResultModel, SemanticTokensRegistrationOptions,
    SemanticTokensRegistrationOptionsModel, SemanticTokensResult, SemanticTokensResultModel,
    SemanticTokensServerCapabilities, SemanticTokensServerCapabilitiesModel, SemanticTokenType,
};
pub use crate::server_capabilities::{
    CodeActionProviderCapability, CodeActionProviderCapabilityModel, CodeLensOptions,
    ColorProviderCapability, ColorProviderCapabilityModel, DocumentOnTypeFormattingOptions,
    DocumentOnTypeFormattingOptionsModel, ExecuteCommandOptions, ExecuteCommandOptionsModel,
    HoverProviderCapability, ImplementationProviderCapability,
    ImplementationProviderCapabilityModel, SaveOptions, ServerCapabilities, ServerCapabilitiesModel,
    TextDocumentSyncCapability, TextDocumentSyncKind, TextDocumentSyncOptions,
    TextDocumentSyncSaveOptions, TypeDefinitionProviderCapability,
    TypeDefinitionProviderCapabilityModel,
};
pub use crate::signature_help::{
    ParameterInformation, ParameterInformationModel, ParameterLabel, ParameterLabelModel,
    SignatureHelp, SignatureHelpContext, SignatureHelpContextModel, SignatureHelpModel,
    SignatureHelpOptions, SignatureHelpOptionsModel, SignatureHelpParams, SignatureHelpParamsModel,
    SignatureHelpRegistrationOptions, SignatureHelpRegistrationOptionsModel,
    SignatureHelpTriggerKind, SignatureInformation, SignatureInformationModel,
};
pub use crate::symbols::{
    DocumentSymbol, DocumentSymbolModel, DocumentSymbolParams, DocumentSymbolParamsModel,
    DocumentSymbolResponse, DocumentSymbolResponseModel, SymbolInformation, SymbolInformationModel,
    SymbolKind, SymbolTag, WorkspaceSymbolParams, WorkspaceSymbolParamsModel,
};
pub use crate::tag_support::{TagSupport, TagSupportModel};
pub use crate::type_rename::{
    OnTypeRenameOptions, OnTypeRenameParams, OnTypeRenameParamsModel, OnTypeRenameRanges,
    OnTypeRenameRangesModel, OnTypeRenameRegistrationOptions, OnTypeRenameRegistrationOptionsModel,
    OnTypeRenameServerCapabilities, OnTypeRenameServerCapabilitiesModel,
};
pub use crate::uri::Uri;
pub use crate::url::Url;
pub use crate::url_map::{Changes, ChangesModel};
pub use crate::watched_files::{
    DidChangeWatchedFilesParams, DidChangeWatchedFilesParamsModel,
    DidChangeWatchedFilesRegistrationOptions, DidChangeWatchedFilesRegistrationOptionsModel,
    FileChangeType, FileEvent, FileEventModel, FileSystemWatcher, FileSystemWatcherModel, WatchKind,
};
pub use crate::window::{
    LogMessageParams, LogMessageParamsModel, MessageActionItem, MessageActionItemCapabilities,
    MessageActionItemModel, MessageActionItemProperty, MessageActionItemPropertyModel, MessageType,
    ShowMessageParams, ShowMessageParamsModel, ShowMessageRequestClientCapabilities,
    ShowMessageRequestParams, ShowMessageRequestParamsModel,
};
pub use crate::workspace_edit::{
    ApplyWorkspaceEditParams, ApplyWorkspaceEditParamsModel, ApplyWorkspaceEditResponse, CreateFile,
    CreateFileModel, CreateFileOptions, DeleteFile, DeleteFileModel, DeleteFileOptions,
    DocumentChangeOperation, DocumentChangeOperationModel, DocumentChanges, DocumentChangesModel,
    FailureHandlingKind, RenameFile, RenameFileModel, RenameFileOptions, ResourceOp,
    ResourceOperationKind, ResourceOpModel, TextDocumentEdit, TextDocumentEditModel, WorkspaceEdit,
    WorkspaceEditCapability, WorkspaceEditCapabilityModel, WorkspaceEditModel,
};
pub use crate::workspace_folders::{
    DidChangeWorkspaceFoldersParams, DidChangeWorkspaceFoldersParamsModel, WorkspaceCapability,
    WorkspaceCapabilityModel, WorkspaceFolder, WorkspaceFolderCapability,
    WorkspaceFolderCapabilityChangeNotifications, WorkspaceFolderCapabilityChangeNotificationsModel,
    WorkspaceFolderCapabilityModel, WorkspaceFolderModel, WorkspaceFoldersChangeEvent,
    WorkspaceFoldersChangeEventModel,
};
