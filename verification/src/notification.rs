//! The notifications of the protocol.

use crate::basic::CancelParams;
use crate::configuration::DidChangeConfigurationParams;
use crate::diagnostic::PublishDiagnosticsParams;
use crate::document_sync::{
    DidChangeTextDocumentParams, DidCloseTextDocumentParams, DidOpenTextDocumentParams,
    DidSaveTextDocumentParams,
};
use crate::registration::{RegistrationParams, UnregistrationParams};
use crate::watched_files::DidChangeWatchedFilesParams;
use crate::window::{LogMessageParams, ShowMessageParams};
use vstd::prelude::*;

verus! {

/// A notification of the protocol: the name of its method and the type of
/// its parameters.
pub trait Notification {
    type Params;

    const METHOD: &'static str;
}

/// The base protocol now offers support for request cancellation. To cancel a request,
/// a notification message with the following properties is sent:
///
/// A request that got canceled still needs to return from the server and send a response back.
/// It can not be left open / hanging. This is in line with the JSON RPC protocol that requires
/// that every request sends a response back. In addition it allows for returning partial results on cancel.
#[derive(Debug)]
pub struct Cancel;

impl Notification for Cancel {
    type Params = CancelParams;

    const METHOD: &'static str = "$/cancelRequest";
}

/// The initialized notification is sent from the client to the server after the client received
/// the result of the initialize request but before the client is sending any other request or
/// notification to the server. The server can use the initialized notification for example to
/// dynamically register capabilities.
#[derive(Debug)]
pub struct Initialized;

impl Notification for Initialized {
    type Params = ();

    const METHOD: &'static str = "initialized";
}

#[derive(Debug)]
pub struct Exit;

impl Notification for Exit {
    type Params = ();

    const METHOD: &'static str = "exit";
}

#[derive(Debug)]
pub struct ShowMessage;

impl Notification for ShowMessage {
    type Params = ShowMessageParams;

    const METHOD: &'static str = "window/showMessage";
}

#[derive(Debug)]
pub struct LogMessage;

impl Notification for LogMessage {
    type Params = LogMessageParams;

    const METHOD: &'static str = "window/logMessage";
}

#[derive(Debug)]
pub struct TelemetryEvent;

impl Notification for TelemetryEvent {
    type Params = ();

    const METHOD: &'static str = "telemetry/event";
}

#[derive(Debug)]
pub struct RegisterCapability;

impl Notification for RegisterCapability {
    type Params = RegistrationParams;

    const METHOD: &'static str = "client/registerCapability";
}

/// The client/unregisterCapability request is sent from the server to the client to unregister a
/// previously register capability.
#[derive(Debug)]
pub struct UnregisterCapability;

impl Notification for UnregisterCapability {
    type Params = UnregistrationParams;

    const METHOD: &'static str = "client/unregisterCapability";
}

#[derive(Debug)]
pub struct DidChangeConfiguration;

impl Notification for DidChangeConfiguration {
    type Params = DidChangeConfigurationParams;

    const METHOD: &'static str = "workspace/didChangeConfiguration";
}

#[derive(Debug)]
pub struct DidOpenTextDocument;

impl Notification for DidOpenTextDocument {
    type Params = DidOpenTextDocumentParams;

    const METHOD: &'static str = "textDocument/didOpen";
}

#[derive(Debug)]
pub struct DidChangeTextDocument;

impl Notification for DidChangeTextDocument {
    type Params = DidChangeTextDocumentParams;

    const METHOD: &'static str = "textDocument/didChange";
}

/// The document will save notification is sent from the client to the server before the document
/// is actually saved.
#[derive(Debug)]
pub struct WillSave;

impl Notification for WillSave {
    type Params = ();

    const METHOD: &'static str = "textDocument/willSave";
}

/// The document will save request is sent from the client to the server before the document is
/// actually saved. The request can return an array of TextEdits which will be applied to the text
/// document before it is saved. Please note that clients might drop results if computing the text
/// edits took too long or if a server constantly fails on this request. This is done to keep the
/// save fast and reliable.
#[derive(Debug)]
pub struct WillSaveWaitUntil;

impl Notification for WillSaveWaitUntil {
    type Params = ();

    const METHOD: &'static str = "textDocument/willSaveWaitUntil";
}

#[derive(Debug)]
pub struct DidCloseTextDocument;

impl Notification for DidCloseTextDocument {
    type Params = DidCloseTextDocumentParams;

    const METHOD: &'static str = "textDocument/didClose";
}

#[derive(Debug)]
pub struct DidSaveTextDocument;

impl Notification for DidSaveTextDocument {
    type Params = DidSaveTextDocumentParams;

    const METHOD: &'static str = "textDocument/didSave";
}

#[derive(Debug)]
pub struct DidChangeWatchedFiles;

impl Notification for DidChangeWatchedFiles {
    type Params = DidChangeWatchedFilesParams;

    const METHOD: &'static str = "workspace/didChangeWatchedFiles";
}

#[derive(Debug)]
pub struct PublishDiagnostics;

impl Notification for PublishDiagnostics {
    type Params = PublishDiagnosticsParams;

    const METHOD: &'static str = "textDocument/publishDiagnostics";
}
} // verus!
