use lsp_types::notification::Notification;
use lsp_types::request::Request;
use lsp_types::{
    CompletionItem, CompletionResponse, Diagnostic, DiagnosticSeverity, Hover, HoverContents,
    InitializeResult, Position, PublishDiagnosticsParams, Range, ServerCapabilities,
    TextDocumentSyncCapability, TextDocumentSyncKind,
};
use lsp_types::{
    notification, request, CodeAction, CodeActionKind, CodeActionOrCommand, Codec, Command,
    CompletionItemCapability, CompletionItemTag, FormattingOptions, FormattingProperty,
    InitializeParams, Json, LanguageString, MarkedString, Number, NumberOrString,
    ResourceOperationKind, SemanticHighlightingInformation, SemanticHighlightingToken,
    SemanticToken, SemanticTokens, SemanticTokensEdit, TagSupport, Url, WatchKind, WorkspaceEdit,
};
use std::fmt::Debug;

fn to_value(json: &Json) -> serde_json::Value {
    match json {
        Json::Null => serde_json::Value::Null,
        Json::Bool(b) => serde_json::Value::Bool(*b),
        Json::Number(Number::PosInt(n)) => serde_json::Value::from(*n),
        Json::Number(Number::NegInt(n)) => serde_json::Value::from(*n),
        Json::Number(Number::Float(bits)) => serde_json::Value::from(f64::from_bits(*bits)),
        Json::String(s) => serde_json::Value::String(s.clone()),
        Json::Array(items) => serde_json::Value::Array(items.iter().map(to_value).collect()),
        Json::Object(members) => serde_json::Value::Object(
            members.iter().map(|(key, value)| (key.clone(), to_value(value))).collect(),
        ),
    }
}

fn from_value(value: &serde_json::Value) -> Json {
    match value {
        serde_json::Value::Null => Json::Null,
        serde_json::Value::Bool(b) => Json::Bool(*b),
        serde_json::Value::Number(n) => {
            if let Some(n) = n.as_u64() {
                Json::Number(Number::PosInt(n))
            } else if let Some(n) = n.as_i64() {
                Json::Number(Number::NegInt(n))
            } else {
                Json::Number(Number::Float(n.as_f64().unwrap().to_bits()))
            }
        }
        serde_json::Value::String(s) => Json::String(s.clone()),
        serde_json::Value::Array(items) => Json::Array(items.iter().map(from_value).collect()),
        serde_json::Value::Object(members) => Json::Object(
            members.iter().map(|(key, value)| (key.clone(), from_value(value))).collect(),
        ),
    }
}

fn to_text(json: &Json) -> String {
    serde_json::to_string(&to_value(json)).unwrap()
}

fn from_text(text: &str) -> Json {
    from_value(&serde_json::from_str::<serde_json::Value>(text).unwrap())
}

fn test_serialization<T: Codec + PartialEq + Debug>(ms: &T, expected: &str) {
    let json_str = to_text(&ms.serialize());
    assert_eq!(&json_str, expected);
    let deserialized = T::deserialize(&from_text(&json_str)).unwrap();
    assert_eq!(&deserialized, ms);
}

fn test_deserialization<T: Codec + PartialEq + Debug>(json: &str, expected: &T) {
    let value = T::deserialize(&from_text(json)).unwrap();
    assert_eq!(&value, expected);
}

fn test_highlighting_serialization(ms: &SemanticHighlightingInformation, expected: &str) {
    let json_str = to_text(&ms.serialize());
    assert_eq!(&json_str, expected);
    let deserialized = SemanticHighlightingInformation::deserialize(&from_text(&json_str)).unwrap();
    assert_eq!(&deserialized, ms);
}

#[test]
fn number_or_string() {
    test_serialization(&NumberOrString::Number(123), r#"123"#);

    test_serialization(&NumberOrString::String("abcd".into()), r#""abcd""#);
}

#[test]
fn marked_string() {
    test_serialization(&MarkedString::from_markdown("xxx".into()), r#""xxx""#);

    test_serialization(
        &MarkedString::from_language_code("lang".into(), "code".into()),
        r#"{"language":"lang","value":"code"}"#,
    );
}

#[test]
fn language_string() {
    test_serialization(
        &LanguageString {
            language: "LL".into(),
            value: "VV".into(),
        },
        r#"{"language":"LL","value":"VV"}"#,
    );
}

#[test]
fn workspace_edit() {
    test_serialization(
        &WorkspaceEdit {
            changes: Some(vec![].into_iter().collect()),
            document_changes: None,
        },
        r#"{"changes":{}}"#,
    );

    test_serialization(
        &WorkspaceEdit {
            changes: None,
            document_changes: None,
        },
        r#"{}"#,
    );

    test_serialization(
        &WorkspaceEdit {
            changes: Some(
                vec![(Url::parse("file://test").unwrap(), vec![])]
                    .into_iter()
                    .collect(),
            ),
            document_changes: None,
        },
        r#"{"changes":{"file://test/":[]}}"#,
    );
}

#[test]
fn formatting_options() {
    test_serialization(
        &FormattingOptions {
            tab_size: 123,
            insert_spaces: true,
            properties: Vec::new(),
            trim_trailing_whitespace: None,
            insert_final_newline: None,
            trim_final_newlines: None,
        },
        r#"{"tabSize":123,"insertSpaces":true}"#,
    );

    test_serialization(
        &FormattingOptions {
            tab_size: 123,
            insert_spaces: true,
            properties: vec![(
                "prop".to_string(),
                FormattingProperty::Number(Number::Float(1.0f64.to_bits())),
            )]
            .into_iter()
            .collect(),
            trim_trailing_whitespace: None,
            insert_final_newline: None,
            trim_final_newlines: None,
        },
        r#"{"tabSize":123,"insertSpaces":true,"prop":1.0}"#,
    );
}

#[test]
fn root_uri_can_be_missing() {
    InitializeParams::deserialize(&from_text(r#"{ "capabilities": {} }"#)).unwrap();
}

#[test]
fn test_watch_kind() {
    test_serialization(&WatchKind::Create(), "1");
    test_serialization(&(WatchKind::Create() | WatchKind::Change()), "3");
    test_serialization(
        &(WatchKind::Create() | WatchKind::Change() | WatchKind::Delete()),
        "7",
    );
}

#[test]
fn test_resource_operation_kind() {
    test_serialization(
        &vec![
            ResourceOperationKind::Create,
            ResourceOperationKind::Rename,
            ResourceOperationKind::Delete,
        ],
        r#"["create","rename","delete"]"#,
    );
}

#[test]
fn test_code_action_response() {
    test_serialization(
        &vec![
            CodeActionOrCommand::Command(Command {
                title: "title".to_string(),
                command: "command".to_string(),
                arguments: None,
            }),
            CodeActionOrCommand::CodeAction(CodeAction {
                title: "title".to_string(),
                kind: Some(CodeActionKind::QUICKFIX()),
                command: None,
                diagnostics: None,
                edit: None,
                is_preferred: None,
            }),
        ],
        r#"[{"title":"title","command":"command"},{"title":"title","kind":"quickfix"}]"#,
    )
}

#[test]
fn lib_test_semantic_highlighting_information_serialization() {
    test_highlighting_serialization(
        &SemanticHighlightingInformation {
            line: 10,
            tokens: Some(vec![
                SemanticHighlightingToken {
                    character: 0x00000001,
                    length: 0x0002,
                    scope: 0x0003,
                },
                SemanticHighlightingToken {
                    character: 0x00112222,
                    length: 0x0FF0,
                    scope: 0x0202,
                },
            ]),
        },
        r#"{"line":10,"tokens":"AAAAAQACAAMAESIiD/ACAg=="}"#,
    );

    test_highlighting_serialization(
        &SemanticHighlightingInformation {
            line: 22,
            tokens: None,
        },
        r#"{"line":22}"#,
    );
}

#[test]
fn semantic_highlighting_test_semantic_highlighting_information_serialization() {
    test_highlighting_serialization(
        &SemanticHighlightingInformation {
            line: 10,
            tokens: Some(vec![
                SemanticHighlightingToken {
                    character: 0x00000001,
                    length: 0x0002,
                    scope: 0x0003,
                },
                SemanticHighlightingToken {
                    character: 0x00112222,
                    length: 0x0FF0,
                    scope: 0x0202,
                },
            ]),
        },
        r#"{"line":10,"tokens":"AAAAAQACAAMAESIiD/ACAg=="}"#,
    );

    test_highlighting_serialization(
        &SemanticHighlightingInformation {
            line: 22,
            tokens: None,
        },
        r#"{"line":22}"#,
    );
}

#[test]
fn lib_test_tag_support_deserialization() {
    let mut empty = CompletionItemCapability::default();
    empty.tag_support = None;

    test_deserialization(r#"{}"#, &empty);
    test_deserialization(r#"{"tagSupport": false}"#, &empty);

    let mut t = CompletionItemCapability::default();
    t.tag_support = Some(TagSupport { value_set: vec![] });
    test_deserialization(r#"{"tagSupport": true}"#, &t);

    let mut t = CompletionItemCapability::default();
    t.tag_support = Some(TagSupport {
        value_set: vec![CompletionItemTag::Deprecated],
    });
    test_deserialization(r#"{"tagSupport": {"valueSet": [1]}}"#, &t);
}

#[test]
fn completion_test_tag_support_deserialization() {
    let mut empty = CompletionItemCapability::default();
    empty.tag_support = None;

    test_deserialization(r#"{}"#, &empty);
    test_deserialization(r#"{"tagSupport": false}"#, &empty);

    let mut t = CompletionItemCapability::default();
    t.tag_support = Some(TagSupport { value_set: vec![] });
    test_deserialization(r#"{"tagSupport": true}"#, &t);

    let mut t = CompletionItemCapability::default();
    t.tag_support = Some(TagSupport {
        value_set: vec![CompletionItemTag::Deprecated],
    });
    test_deserialization(r#"{"tagSupport": {"valueSet": [1]}}"#, &t);
}

#[test]
fn test_semantic_tokens_support_serialization() {
    test_serialization(
        &SemanticTokens {
            result_id: None,
            data: vec![],
        },
        r#"{"data":[]}"#,
    );

    test_serialization(
        &SemanticTokens {
            result_id: None,
            data: vec![SemanticToken {
                delta_line: 2,
                delta_start: 5,
                length: 3,
                token_type: 0,
                token_modifiers_bitset: 3,
            }],
        },
        r#"{"data":[2,5,3,0,3]}"#,
    );

    test_serialization(
        &SemanticTokens {
            result_id: None,
            data: vec![
                SemanticToken {
                    delta_line: 2,
                    delta_start: 5,
                    length: 3,
                    token_type: 0,
                    token_modifiers_bitset: 3,
                },
                SemanticToken {
                    delta_line: 0,
                    delta_start: 5,
                    length: 4,
                    token_type: 1,
                    token_modifiers_bitset: 0,
                },
            ],
        },
        r#"{"data":[2,5,3,0,3,0,5,4,1,0]}"#,
    );
}

#[test]
fn test_semantic_tokens_support_deserialization() {
    test_deserialization(
        r#"{"data":[]}"#,
        &SemanticTokens {
            result_id: None,
            data: vec![],
        },
    );

    test_deserialization(
        r#"{"data":[2,5,3,0,3]}"#,
        &SemanticTokens {
            result_id: None,
            data: vec![SemanticToken {
                delta_line: 2,
                delta_start: 5,
                length: 3,
                token_type: 0,
                token_modifiers_bitset: 3,
            }],
        },
    );

    test_deserialization(
        r#"{"data":[2,5,3,0,3,0,5,4,1,0]}"#,
        &SemanticTokens {
            result_id: None,
            data: vec![
                SemanticToken {
                    delta_line: 2,
                    delta_start: 5,
                    length: 3,
                    token_type: 0,
                    token_modifiers_bitset: 3,
                },
                SemanticToken {
                    delta_line: 0,
                    delta_start: 5,
                    length: 4,
                    token_type: 1,
                    token_modifiers_bitset: 0,
                },
            ],
        },
    );
}

#[test]
#[should_panic]
fn test_semantic_tokens_support_deserialization_err() {
    test_deserialization(
        r#"{"data":[1]}"#,
        &SemanticTokens {
            result_id: None,
            data: vec![],
        },
    );
}

#[test]
fn test_semantic_tokens_edit_support_deserialization() {
    test_deserialization(
        r#"{"start":0,"deleteCount":1,"data":[2,5,3,0,3,0,5,4,1,0]}"#,
        &SemanticTokensEdit {
            start: 0,
            delete_count: 1,
            data: Some(vec![
                SemanticToken {
                    delta_line: 2,
                    delta_start: 5,
                    length: 3,
                    token_type: 0,
                    token_modifiers_bitset: 3,
                },
                SemanticToken {
                    delta_line: 0,
                    delta_start: 5,
                    length: 4,
                    token_type: 1,
                    token_modifiers_bitset: 0,
                },
            ]),
        },
    );

    test_deserialization(
        r#"{"start":0,"deleteCount":1}"#,
        &SemanticTokensEdit {
            start: 0,
            delete_count: 1,
            data: None,
        },
    );
}

#[test]
fn test_semantic_tokens_edit_support_serialization() {
    test_serialization(
        &SemanticTokensEdit {
            start: 0,
            delete_count: 1,
            data: Some(vec![
                SemanticToken {
                    delta_line: 2,
                    delta_start: 5,
                    length: 3,
                    token_type: 0,
                    token_modifiers_bitset: 3,
                },
                SemanticToken {
                    delta_line: 0,
                    delta_start: 5,
                    length: 4,
                    token_type: 1,
                    token_modifiers_bitset: 0,
                },
            ]),
        },
        r#"{"start":0,"deleteCount":1,"data":[2,5,3,0,3,0,5,4,1,0]}"#,
    );

    test_serialization(
        &SemanticTokensEdit {
            start: 0,
            delete_count: 1,
            data: None,
        },
        r#"{"start":0,"deleteCount":1}"#,
    );
}

#[test]
fn check_macro_definitions() {
    assert_eq!(<request::Initialize as Request>::METHOD, "initialize");
    assert_eq!(<request::Shutdown as Request>::METHOD, "shutdown");
    assert_eq!(<request::ShowMessageRequest as Request>::METHOD, "window/showMessageRequest");
    assert_eq!(<request::RegisterCapability as Request>::METHOD, "client/registerCapability");
    assert_eq!(<request::UnregisterCapability as Request>::METHOD, "client/unregisterCapability");
    assert_eq!(<request::WorkspaceSymbol as Request>::METHOD, "workspace/symbol");
    assert_eq!(<request::ExecuteCommand as Request>::METHOD, "workspace/executeCommand");
    assert_eq!(<request::Completion as Request>::METHOD, "textDocument/completion");
    assert_eq!(<request::ResolveCompletionItem as Request>::METHOD, "completionItem/resolve");
    assert_eq!(<request::HoverRequest as Request>::METHOD, "textDocument/hover");
    assert_eq!(<request::SignatureHelpRequest as Request>::METHOD, "textDocument/signatureHelp");
    assert_eq!(<request::GotoDefinition as Request>::METHOD, "textDocument/definition");
    assert_eq!(<request::References as Request>::METHOD, "textDocument/references");
    assert_eq!(
        <request::DocumentHighlightRequest as Request>::METHOD,
        "textDocument/documentHighlight"
    );
    assert_eq!(<request::DocumentSymbolRequest as Request>::METHOD, "textDocument/documentSymbol");
    assert_eq!(<request::CodeActionRequest as Request>::METHOD, "textDocument/codeAction");
    assert_eq!(<request::CodeLensRequest as Request>::METHOD, "textDocument/codeLens");
    assert_eq!(<request::CodeLensResolve as Request>::METHOD, "codeLens/resolve");
    assert_eq!(<request::DocumentLinkRequest as Request>::METHOD, "textDocument/documentLink");
    assert_eq!(<request::DocumentLinkResolve as Request>::METHOD, "documentLink/resolve");
    assert_eq!(<request::ApplyWorkspaceEdit as Request>::METHOD, "workspace/applyEdit");
    assert_eq!(<request::RangeFormatting as Request>::METHOD, "textDocument/rangeFormatting");
    assert_eq!(<request::OnTypeFormatting as Request>::METHOD, "textDocument/onTypeFormatting");
    assert_eq!(<request::Formatting as Request>::METHOD, "textDocument/formatting");
    assert_eq!(<request::Rename as Request>::METHOD, "textDocument/rename");
}

#[test]
fn notifications_name_their_methods() {
    assert_eq!(<notification::Cancel as Notification>::METHOD, "$/cancelRequest");
    assert_eq!(<notification::Exit as Notification>::METHOD, "exit");
    assert_eq!(
        <notification::PublishDiagnostics as Notification>::METHOD,
        "textDocument/publishDiagnostics"
    );
}

#[test]
fn initialize_result_is_read_from_text() {
    let text = r#"{
        "capabilities": {
            "textDocumentSync": 2,
            "hoverProvider": true,
            "completionProvider": {"resolveProvider": false, "triggerCharacters": [".", ":"]},
            "definitionProvider": true,
            "renameProvider": {"prepareProvider": true},
            "foldingRangeProvider": true,
            "unknownToThisVersion": {"x": 1}
        },
        "serverInfo": {"name": "server", "version": "1.0"}
    }"#;
    let result = InitializeResult::deserialize(&from_text(text)).unwrap();
    assert_eq!(
        result.capabilities.text_document_sync,
        Some(TextDocumentSyncCapability::Kind(TextDocumentSyncKind::Incremental))
    );
    assert_eq!(result.capabilities.definition_provider, Some(true));
    assert_eq!(
        result.capabilities.completion_provider.as_ref().unwrap().trigger_characters,
        Some(vec![".".to_string(), ":".to_string()])
    );
    assert_eq!(result.server_info.as_ref().unwrap().name, "server");
    assert_eq!(
        to_text(&result.serialize()),
        concat_text(&[
            r#"{"capabilities":{"textDocumentSync":2,"hoverProvider":true,"#,
            r#""completionProvider":{"resolveProvider":false,"triggerCharacters":[".",":"]},"#,
            r#""definitionProvider":true,"renameProvider":{"prepareProvider":true},"#,
            r#""foldingRangeProvider":true},"serverInfo":{"name":"server","version":"1.0"}}"#,
        ])
    );
    test_serialization(&ServerCapabilities::default(), "{}");
}

fn concat_text(parts: &[&str]) -> String {
    parts.iter().map(|part| part.to_string()).collect()
}

#[test]
fn diagnostics_are_written_as_text() {
    let range = Range::new(Position::new(1, 2), Position::new(1, 9));
    let params = PublishDiagnosticsParams::new(
        Url::parse("file:///src/main.rs").unwrap(),
        vec![
            Diagnostic::new_simple(range, "unused".to_string()),
            Diagnostic::new_with_code_number(
                range,
                DiagnosticSeverity::Error,
                308,
                Some("rustc".to_string()),
                "mismatched types".to_string(),
            ),
        ],
        None,
    );
    test_serialization(
        &params,
        &concat_text(&[
            r#"{"uri":"file:///src/main.rs","diagnostics":["#,
            r#"{"range":{"start":{"line":1,"character":2},"end":{"line":1,"character":9}},"#,
            r#""message":"unused"},"#,
            r#"{"range":{"start":{"line":1,"character":2},"end":{"line":1,"character":9}},"#,
            r#""severity":1,"code":308,"source":"rustc","message":"mismatched types"}]}"#,
        ]),
    );
}

#[test]
fn completion_and_hover_are_read_from_text() {
    let items = CompletionResponse::deserialize(&from_text(
        r#"[{"label":"push","kind":2,"detail":"fn push(&mut self, value: T)"}]"#,
    ))
    .unwrap();
    let mut expected =
        CompletionItem::new_simple("push".to_string(), "fn push(&mut self, value: T)".to_string());
    expected.kind = Some(lsp_types::CompletionItemKind::Method);
    assert_eq!(items, CompletionResponse::Array(vec![expected]));
    test_deserialization(
        r#"{"contents":["a",{"language":"rust","value":"b"}]}"#,
        &Hover {
            contents: HoverContents::Array(vec![
                MarkedString::from_markdown("a".to_string()),
                MarkedString::from_language_code("rust".to_string(), "b".to_string()),
            ]),
            range: None,
        },
    );
}
