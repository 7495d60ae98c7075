//! The requests of the protocol.

use crate::basic::{Command, Location, TextDocumentPositionParams, TextEdit};
use crate::code_action::CodeActionParams;
use crate::code_lens::{CodeLens, CodeLensParams};
use crate::commands::ExecuteCommandParams;
use crate::completion::{CompletionItem, CompletionParams, CompletionResponse};
use crate::document_link::{DocumentLink, DocumentLinkParams};
use crate::formatting::{
    DocumentFormattingParams, DocumentOnTypeFormattingParams, DocumentRangeFormattingParams,
};
use crate::hover::Hover;
use crate::json::Json;
use crate::lifecycle::{InitializeParams, InitializeResult};
use crate::navigation::{DocumentHighlight, GotoDefinitionResponse, ReferenceParams};
use crate::registration::{RegistrationParams, UnregistrationParams};
use crate::rename::RenameParams;
use crate::signature_help::SignatureHelp;
use crate::symbols::{
    DocumentSymbolParams, DocumentSymbolResponse, SymbolInformation, WorkspaceSymbolParams,
};
use crate::window::{MessageActionItem, ShowMessageRequestParams};
use crate::workspace_edit::{ApplyWorkspaceEditParams, ApplyWorkspaceEditResponse, WorkspaceEdit};
use vstd::prelude::*;

verus! {

/// A request of the protocol: the name of its method, the type of its
/// parameters and the type of its result.
pub trait Request {
    type Params;

    type Result;

    const METHOD: &'static str;
}

#[derive(Debug)]
pub struct Initialize;

impl Request for Initialize {
    type Params = InitializeParams;

    type Result = InitializeResult;

    const METHOD: &'static str = "initialize";
}

#[derive(Debug)]
pub struct Shutdown;

impl Request for Shutdown {
    type Params = ();

    type Result = ();

    const METHOD: &'static str = "shutdown";
}

#[derive(Debug)]
pub struct ShowMessageRequest;

impl Request for ShowMessageRequest {
    type Params = ShowMessageRequestParams;

    type Result = Option<MessageActionItem>;

    const METHOD: &'static str = "window/showMessageRequest";
}

#[derive(Debug)]
pub struct RegisterCapability;

impl Request for RegisterCapability {
    type Params = RegistrationParams;

    type Result = ();

    const METHOD: &'static str = "client/registerCapability";
}

/// The client/unregisterCapability request is sent from the server to the client to unregister a
/// previously register capability.
#[derive(Debug)]
pub struct UnregisterCapability;

impl Request for UnregisterCapability {
    type Params = UnregistrationParams;

    type Result = ();

    const METHOD: &'static str = "client/unregisterCapability";
}

#[derive(Debug)]
pub struct Completion;

impl Request for Completion {
    type Params = CompletionParams;

    type Result = Option<CompletionResponse>;

    const METHOD: &'static str = "textDocument/completion";
}

/// The request is sent from the client to the server to resolve additional information for a given completion item.
#[derive(Debug)]
pub struct ResolveCompletionItem;

impl Request for ResolveCompletionItem {
    type Params = CompletionItem;

    type Result = CompletionItem;

    const METHOD: &'static str = "completionItem/resolve";
}

/// The hover request is sent from the client to the server to request hover information at a given text
/// document position.
#[derive(Debug)]
pub struct HoverRequest;

impl Request for HoverRequest {
    type Params = TextDocumentPositionParams;

    type Result = Option<Hover>;

    const METHOD: &'static str = "textDocument/hover";
}

/// The signature help request is sent from the client to the server to request signature information at
/// a given cursor position.
#[derive(Debug)]
pub struct SignatureHelpRequest;

impl Request for SignatureHelpRequest {
    type Params = TextDocumentPositionParams;

    type Result = Option<SignatureHelp>;

    const METHOD: &'static str = "textDocument/signatureHelp";
}

/// The goto definition request is sent from the client to the server to resolve the definition location of
/// a symbol at a given text document position.
#[derive(Debug)]
pub struct GotoDefinition;

impl Request for GotoDefinition {
    type Params = TextDocumentPositionParams;

    type Result = Option<GotoDefinitionResponse>;

    const METHOD: &'static str = "textDocument/definition";
}

/// The references request is sent from the client to the server to resolve project-wide references for the
/// symbol denoted by the given text document position.
#[derive(Debug)]
pub struct References;

impl Request for References {
    type Params = ReferenceParams;

    type Result = Option<Vec<Location>>;

    const METHOD: &'static str = "textDocument/references";
}

/// The goto type definition request is sent from the client to the
/// server to resolve the type definition location of a symbol at a
/// given text document position.
#[derive(Debug)]
pub struct GotoTypeDefinition;

impl Request for GotoTypeDefinition {
    type Params = TextDocumentPositionParams;

    type Result = Option<GotoDefinitionResponse>;

    const METHOD: &'static str = "textDocument/typeDefinition";
}

/// The goto implementation request is sent from the client to the
/// server to resolve the implementation location of a symbol at a
/// given text document position.
#[derive(Debug)]
pub struct GotoImplementation;

impl Request for GotoImplementation {
    type Params = TextDocumentPositionParams;

    type Result = Option<GotoDefinitionResponse>;

    const METHOD: &'static str = "textDocument/implementation";
}

#[derive(Debug)]
pub struct DocumentHighlightRequest;

impl Request for DocumentHighlightRequest {
    type Params = TextDocumentPositionParams;

    type Result = Option<Vec<DocumentHighlight>>;

    const METHOD: &'static str = "textDocument/documentHighlight";
}

#[derive(Debug)]
pub struct DocumentSymbolRequest;

impl Request for DocumentSymbolRequest {
    type Params = DocumentSymbolParams;

    type Result = Option<DocumentSymbolResponse>;

    const METHOD: &'static str = "textDocument/documentSymbol";
}

#[derive(Debug)]
pub struct WorkspaceSymbol;

impl Request for WorkspaceSymbol {
    type Params = WorkspaceSymbolParams;

    type Result = Option<Vec<SymbolInformation>>;

    const METHOD: &'static str = "workspace/symbol";
}

/// The workspace/executeCommand request is sent from the client to the server to trigger command execution on the server. In most cases the server creates a WorkspaceEdit structure and applies the changes to the workspace using the request workspace/applyEdit which is sent from the server to the client.
#[derive(Debug)]
pub struct ExecuteCommand;

impl Request for ExecuteCommand {
    type Params = ExecuteCommandParams;

    type Result = Option<Json>;

    const METHOD: &'static str = "workspace/executeCommand";
}

/// The workspace/applyEdit request is sent from the server to the client to modify resource on the
/// client side.
#[derive(Debug)]
pub struct ApplyWorkspaceEdit;

impl Request for ApplyWorkspaceEdit {
    type Params = ApplyWorkspaceEditParams;

    type Result = ApplyWorkspaceEditResponse;

    const METHOD: &'static str = "workspace/applyEdit";
}

#[derive(Debug)]
pub struct CodeActionRequest;

impl Request for CodeActionRequest {
    type Params = CodeActionParams;

    type Result = Option<Vec<Command>>;

    const METHOD: &'static str = "textDocument/codeAction";
}

#[derive(Debug)]
pub struct CodeLensRequest;

impl Request for CodeLensRequest {
    type Params = CodeLensParams;

    type Result = Option<Vec<CodeLens>>;

    const METHOD: &'static str = "textDocument/codeLens";
}

#[derive(Debug)]
pub struct CodeLensResolve;

impl Request for CodeLensResolve {
    type Params = CodeLens;

    type Result = CodeLens;

    const METHOD: &'static str = "codeLens/resolve";
}

/// The document links request is sent from the client to the server to request the location of links in a document.
#[derive(Debug)]
pub struct DocumentLinkRequest;

impl Request for DocumentLinkRequest {
    type Params = DocumentLinkParams;

    type Result = Option<Vec<DocumentLink>>;

    const METHOD: &'static str = "textDocument/documentLink";
}

#[derive(Debug)]
pub struct DocumentLinkResolve;

impl Request for DocumentLinkResolve {
    type Params = DocumentLink;

    type Result = DocumentLink;

    const METHOD: &'static str = "documentLink/resolve";
}

#[derive(Debug)]
pub struct Formatting;

impl Request for Formatting {
    type Params = DocumentFormattingParams;

    type Result = Option<Vec<TextEdit>>;

    const METHOD: &'static str = "textDocument/formatting";
}

/// The document range formatting request is sent from the client to the server to format a given range in a document.
#[derive(Debug)]
pub struct RangeFormatting;

impl Request for RangeFormatting {
    type Params = DocumentRangeFormattingParams;

    type Result = Option<Vec<TextEdit>>;

    const METHOD: &'static str = "textDocument/rangeFormatting";
}

#[derive(Debug)]
pub struct OnTypeFormatting;

impl Request for OnTypeFormatting {
    type Params = DocumentOnTypeFormattingParams;

    type Result = Option<Vec<TextEdit>>;

    const METHOD: &'static str = "textDocument/onTypeFormatting";
}

#[derive(Debug)]
pub struct Rename;

impl Request for Rename {
    type Params = RenameParams;

    type Result = Option<WorkspaceEdit>;

    const METHOD: &'static str = "textDocument/rename";
}
} // verus!
