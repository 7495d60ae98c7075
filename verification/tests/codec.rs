use lsp_types::url_map;
use lsp_types::{
    ExecutionSummary, FileOperationPattern, FileOperationPatternKind, LSPObject, Notebook,
    NotebookCell, NotebookCellKind, NotebookCellSelector, NotebookDocumentFilter, NotebookSelector,
};
use lsp_types::{
    Codec, CodecError, ColorProviderCapability, CompletionItemCapability, CompletionItemKind,
    CompletionItemTag, DiagnosticSeverity, DiagnosticTag, DocumentHighlightKind, DocumentSymbol,
    DocumentSymbolResponse, FailureHandlingKind, FileChangeType, FoldingProviderOptions,
    FoldingRangeKind, FoldingRangeProviderCapability, GotoDefinitionResponse, HoverContents,
    InsertTextFormat, Json, Location, MarkedString, MarkupContent, MarkupKind, MessageType,
    Number, NumberOrString, ParameterLabel, Position, PrepareRenameResponse, Range, ResourceOp,
    SelectionRange, SemanticHighlightingInformation, SemanticHighlightingToken, SemanticToken,
    SemanticTokens, SemanticTokensPartialResult, SemanticTokensResult,
    StaticTextDocumentColorProviderOptions, SymbolKind, SymbolTag, TagSupport,
    TextDocumentSaveReason, TextDocumentSyncKind, TextEdit, TraceOption, Uri, Url, WatchKind,
    WorkspaceEdit,
};
use std::fmt::Debug;

fn number(n: u64) -> Json {
    Json::Number(Number::PosInt(n))
}

fn text(s: &str) -> Json {
    Json::String(s.to_string())
}

fn object(members: Vec<(&str, Json)>) -> Json {
    Json::Object(members.into_iter().map(|(key, value)| (key.to_string(), value)).collect())
}

fn round_trip<T: Codec + PartialEq + Debug>(value: T) {
    assert_eq!(T::deserialize(&value.serialize()), Ok(value));
}

#[test]
fn integer_enums_round_trip() {
    for value in [
        DiagnosticSeverity::Error,
        DiagnosticSeverity::Warning,
        DiagnosticSeverity::Information,
        DiagnosticSeverity::Hint,
    ] {
        round_trip(value);
    }
    for value in [MessageType::Error, MessageType::Warning, MessageType::Info, MessageType::Log] {
        round_trip(value);
    }
    for value in [InsertTextFormat::PlainText, InsertTextFormat::Snippet] {
        round_trip(value);
    }
    for value in [
        DocumentHighlightKind::Text,
        DocumentHighlightKind::Read,
        DocumentHighlightKind::Write,
    ] {
        round_trip(value);
    }
    for value in [FileChangeType::Created, FileChangeType::Changed, FileChangeType::Deleted] {
        round_trip(value);
    }
    for value in [
        TextDocumentSaveReason::Manual,
        TextDocumentSaveReason::AfterDelay,
        TextDocumentSaveReason::FocusOut,
    ] {
        round_trip(value);
    }
    for value in [
        TextDocumentSyncKind::NoSync,
        TextDocumentSyncKind::Full,
        TextDocumentSyncKind::Incremental,
    ] {
        round_trip(value);
    }
    round_trip(CompletionItemTag::Deprecated);
    round_trip(DiagnosticTag::Unnecessary);
    round_trip(DiagnosticTag::Deprecated);
    round_trip(SymbolTag::Deprecated);
    round_trip(SymbolKind::File);
    round_trip(SymbolKind::TypeParameter);
    round_trip(SymbolKind::Unknown);
}

#[test]
fn integer_enums_are_written_as_their_numbers() {
    assert_eq!(DiagnosticSeverity::Error.serialize(), number(1));
    assert_eq!(DiagnosticSeverity::Hint.serialize(), number(4));
    assert_eq!(TextDocumentSyncKind::NoSync.serialize(), number(0));
    assert_eq!(TextDocumentSyncKind::Incremental.serialize(), number(2));
    assert_eq!(CompletionItemKind::Text.serialize(), number(1));
    assert_eq!(CompletionItemKind::TypeParameter.serialize(), number(25));
    assert_eq!(SymbolKind::TypeParameter.serialize(), number(26));
    assert_eq!(SymbolKind::Unknown.serialize(), number(255));
    assert_eq!(CompletionItemKind::deserialize(&number(14)), Ok(CompletionItemKind::Keyword));
    assert_eq!(SymbolKind::deserialize(&number(12)), Ok(SymbolKind::Function));
}

#[test]
fn enum_decode_of_an_integer_out_of_range_fails() {
    assert_eq!(
        DiagnosticSeverity::deserialize(&number(5)),
        Err(CodecError::InvalidEnumValue { value: Number::PosInt(5), lowest: 1, highest: 4 })
    );
    assert_eq!(
        DiagnosticSeverity::deserialize(&number(0)),
        Err(CodecError::InvalidEnumValue { value: Number::PosInt(0), lowest: 1, highest: 4 })
    );
    assert_eq!(
        DiagnosticSeverity::deserialize(&Json::Number(Number::NegInt(-1))),
        Err(CodecError::InvalidEnumValue { value: Number::NegInt(-1), lowest: 1, highest: 4 })
    );
    assert_eq!(
        CompletionItemKind::deserialize(&number(26)),
        Err(CodecError::InvalidEnumValue { value: Number::PosInt(26), lowest: 1, highest: 25 })
    );
    assert_eq!(DiagnosticSeverity::deserialize(&text("1")), Err(CodecError::UnexpectedType));
}

#[test]
fn symbol_kind_falls_back_to_unknown() {
    assert_eq!(SymbolKind::deserialize(&number(99)), Ok(SymbolKind::Unknown));
    assert_eq!(SymbolKind::deserialize(&number(0)), Ok(SymbolKind::Unknown));
    assert_eq!(SymbolKind::deserialize(&number(27)), Ok(SymbolKind::Unknown));
    assert_eq!(SymbolKind::deserialize(&number(u64::MAX)), Ok(SymbolKind::Unknown));
    assert_eq!(SymbolKind::deserialize(&Json::Bool(true)), Err(CodecError::UnexpectedType));
}

#[test]
fn string_enums_round_trip() {
    for value in [TraceOption::Off, TraceOption::Messages, TraceOption::Verbose] {
        round_trip(value);
    }
    for value in [
        FailureHandlingKind::Abort,
        FailureHandlingKind::Transactional,
        FailureHandlingKind::TextOnlyTransactional,
        FailureHandlingKind::Undo,
    ] {
        round_trip(value);
    }
    for value in [FoldingRangeKind::Comment, FoldingRangeKind::Imports, FoldingRangeKind::Region] {
        round_trip(value);
    }
    assert_eq!(FailureHandlingKind::TextOnlyTransactional.serialize(), text("textOnlyTransactional"));
    assert_eq!(MarkupKind::PlainText.serialize(), text("plaintext"));
    assert_eq!(MarkupKind::deserialize(&text("markdown")), Ok(MarkupKind::Markdown));
    assert_eq!(MarkupKind::deserialize(&text("html")), Err(CodecError::UnknownVariant));
    assert_eq!(TraceOption::default(), TraceOption::Off);
}

#[test]
fn unions_round_trip() {
    round_trip(NumberOrString::Number(7));
    round_trip(NumberOrString::String("seven".to_string()));
    round_trip(MarkedString::from_markdown("text".to_string()));
    round_trip(MarkedString::from_language_code("rust".to_string(), "fn main() {}".to_string()));
    round_trip(ParameterLabel::Simple("x".to_string()));
    round_trip(ParameterLabel::LabelOffsets([3, 9]));
    round_trip(HoverContents::Scalar(MarkedString::String("a".to_string())));
    round_trip(HoverContents::Array(vec![
        MarkedString::String("a".to_string()),
        MarkedString::from_language_code("c".to_string(), "int x;".to_string()),
    ]));
    round_trip(HoverContents::Markup(MarkupContent {
        kind: MarkupKind::Markdown,
        value: "# title".to_string(),
    }));
    let range = Range::new(Position::new(1, 2), Position::new(3, 4));
    round_trip(PrepareRenameResponse::Range(range));
    round_trip(PrepareRenameResponse::RangeWithPlaceholder {
        range,
        placeholder: "name".to_string(),
    });
    round_trip(FoldingRangeProviderCapability::Simple(true));
    round_trip(FoldingRangeProviderCapability::FoldingProvider(FoldingProviderOptions {}));
    let location = Location::new(Url::parse("file:///a/b.rs").unwrap(), range);
    round_trip(GotoDefinitionResponse::Scalar(location.clone()));
    round_trip(GotoDefinitionResponse::Array(vec![location.clone(), location]));
}

#[test]
fn the_first_variant_that_matches_wins() {
    // An empty object has the shape of the folding provider options, which
    // are declared first.
    let options = FoldingRangeProviderCapability::Options(StaticTextDocumentColorProviderOptions {
        document_selector: None,
        id: None,
    });
    assert_eq!(
        FoldingRangeProviderCapability::deserialize(&options.serialize()),
        Ok(FoldingRangeProviderCapability::FoldingProvider(FoldingProviderOptions {}))
    );
    let partial = SemanticTokensResult::Partial(SemanticTokensPartialResult { data: vec![] });
    assert_eq!(
        SemanticTokensResult::deserialize(&partial.serialize()),
        Ok(SemanticTokensResult::Tokens(SemanticTokens { result_id: None, data: vec![] }))
    );
    assert_eq!(
        ColorProviderCapability::deserialize(&Json::Bool(false)),
        Ok(ColorProviderCapability::Simple(false))
    );
}

#[test]
fn a_document_of_no_variant_is_refused() {
    assert_eq!(NumberOrString::deserialize(&Json::Bool(true)), Err(CodecError::NoVariantMatched));
    assert_eq!(NumberOrString::deserialize(&Json::Null), Err(CodecError::NoVariantMatched));
    assert_eq!(
        NumberOrString::deserialize(&Json::Number(Number::NegInt(-3))),
        Err(CodecError::NoVariantMatched)
    );
    assert_eq!(MarkedString::deserialize(&number(1)), Err(CodecError::NoVariantMatched));
    assert_eq!(
        ParameterLabel::deserialize(&Json::Array(vec![number(1)])),
        Err(CodecError::NoVariantMatched)
    );
    assert_eq!(
        PrepareRenameResponse::deserialize(&object(vec![("placeholder", text("x"))])),
        Err(CodecError::NoVariantMatched)
    );
}

#[test]
fn watch_kind_is_a_set_of_three_flags() {
    let create_and_change = WatchKind::deserialize(&number(3)).unwrap();
    assert_eq!(create_and_change, WatchKind::Create() | WatchKind::Change());
    assert!(create_and_change.contains(WatchKind::Create()));
    assert!(create_and_change.contains(WatchKind::Change()));
    assert!(!create_and_change.contains(WatchKind::Delete()));
    assert_eq!((WatchKind::Create() | WatchKind::Change()).serialize(), number(3));
    assert_eq!((WatchKind::Create() | WatchKind::Change()).bits(), 3);
    assert_eq!(
        WatchKind::deserialize(&number(8)),
        Err(CodecError::InvalidFlagBits { value: Number::PosInt(8) })
    );
    assert_eq!(
        WatchKind::deserialize(&number(300)),
        Err(CodecError::InvalidFlagBits { value: Number::PosInt(300) })
    );
    assert_eq!(WatchKind::deserialize(&number(0)), Ok(WatchKind::empty()));
    assert_eq!(WatchKind::deserialize(&number(7)), Ok(WatchKind::all()));
    assert_eq!(WatchKind::from_bits(4), Some(WatchKind::Delete()));
    assert_eq!(WatchKind::from_bits(9), None);
    assert_eq!(WatchKind::Create().union(WatchKind::Delete()).bits(), 5);
    assert_eq!(WatchKind::deserialize(&text("1")), Err(CodecError::UnexpectedType));
}

#[test]
fn tag_support_may_be_a_boolean() {
    type Tags = TagSupport<DiagnosticTag>;
    assert_eq!(Tags::deserialize_compat(None), Ok(None));
    assert_eq!(Tags::deserialize_compat(Some(&Json::Null)), Ok(None));
    assert_eq!(Tags::deserialize_compat(Some(&Json::Bool(false))), Ok(None));
    assert_eq!(
        Tags::deserialize_compat(Some(&Json::Bool(true))),
        Ok(Some(TagSupport { value_set: vec![] }))
    );
    assert_eq!(
        Tags::deserialize_compat(Some(&object(vec![("valueSet", Json::Array(vec![number(2)]))]))),
        Ok(Some(TagSupport { value_set: vec![DiagnosticTag::Deprecated] }))
    );
    assert_eq!(
        TagSupport::<CompletionItemTag>::deserialize_compat(Some(&object(vec![(
            "valueSet",
            Json::Array(vec![number(1)])
        )]))),
        Ok(Some(TagSupport { value_set: vec![CompletionItemTag::Deprecated] }))
    );
    assert_eq!(
        Tags::deserialize_compat(Some(&text("x"))),
        Err(CodecError::InvalidTagSupportShape)
    );
    assert_eq!(
        Tags::deserialize_compat(Some(&number(1))),
        Err(CodecError::InvalidTagSupportShape)
    );
    assert_eq!(
        Tags::deserialize_compat(Some(&Json::Array(vec![]))),
        Err(CodecError::InvalidTagSupportShape)
    );
    assert_eq!(
        Tags::deserialize_compat(Some(&object(vec![]))),
        Err(CodecError::MissingField)
    );
    assert_eq!(
        CompletionItemCapability::deserialize(&object(vec![("tagSupport", text("x"))])),
        Err(CodecError::InvalidTagSupportShape)
    );
}

fn two_tokens() -> Vec<SemanticHighlightingToken> {
    vec![
        SemanticHighlightingToken { character: 1, length: 2, scope: 3 },
        SemanticHighlightingToken { character: 0x00112222, length: 0x0FF0, scope: 0x0202 },
    ]
}

#[test]
fn highlighting_tokens_are_packed_into_base64() {
    assert_eq!(
        SemanticHighlightingToken::serialize_tokens(&Some(two_tokens())),
        text("AAAAAQACAAMAESIiD/ACAg==")
    );
    assert_eq!(
        SemanticHighlightingToken::deserialize_tokens(&text("AAAAAQACAAMAESIiD/ACAg==")),
        Ok(Some(two_tokens()))
    );
    assert_eq!(
        SemanticHighlightingToken::bytes_of_tokens(&two_tokens()),
        vec![0, 0, 0, 1, 0, 2, 0, 3, 0x00, 0x11, 0x22, 0x22, 0x0F, 0xF0, 0x02, 0x02]
    );
    assert_eq!(
        SemanticHighlightingToken::tokens_of_bytes(&vec![0xFF, 0xFF, 0xFF, 0xFF, 0x80, 0, 0, 0x7F]),
        Ok(Some(vec![SemanticHighlightingToken {
            character: u32::MAX,
            length: 0x8000,
            scope: 0x7F
        }]))
    );
    assert_eq!(SemanticHighlightingToken::serialize_tokens(&None), Json::Null);
    assert_eq!(SemanticHighlightingToken::deserialize_tokens(&Json::Null), Ok(None));
    assert_eq!(SemanticHighlightingToken::serialize_tokens(&Some(vec![])), text(""));
    assert_eq!(SemanticHighlightingToken::deserialize_tokens(&text("")), Ok(Some(vec![])));
}

#[test]
fn an_absent_token_list_is_left_out() {
    let line = SemanticHighlightingInformation { line: 22, tokens: None };
    assert_eq!(line.serialize(), object(vec![("line", number(22))]));
    assert_eq!(
        SemanticHighlightingInformation::deserialize(&object(vec![("line", number(22))])),
        Ok(line)
    );
    let empty = SemanticHighlightingInformation { line: 3, tokens: Some(vec![]) };
    assert_eq!(empty.serialize(), object(vec![("line", number(3)), ("tokens", text(""))]));
    assert_eq!(SemanticHighlightingInformation::deserialize(&empty.serialize()), Ok(empty));
}

#[test]
fn malformed_token_strings_are_refused() {
    // not base64
    assert_eq!(
        SemanticHighlightingToken::deserialize_tokens(&text("!!!!")),
        Err(CodecError::MalformedBase64)
    );
    // base64 of three bytes: no whole record
    assert_eq!(
        SemanticHighlightingToken::deserialize_tokens(&text("AAAA")),
        Err(CodecError::MalformedBase64)
    );
    // base64 of nine bytes: a record and a partial one
    assert_eq!(
        SemanticHighlightingToken::deserialize_tokens(&text("AAAAAQACAAMA")),
        Err(CodecError::MalformedBase64)
    );
    assert_eq!(
        SemanticHighlightingToken::tokens_of_bytes(&vec![0; 7]),
        Err(CodecError::MalformedBase64)
    );
    assert_eq!(
        SemanticHighlightingToken::deserialize_tokens(&number(1)),
        Err(CodecError::UnexpectedType)
    );
}

#[test]
fn semantic_tokens_are_five_integers_each() {
    let token = SemanticToken {
        delta_line: 2,
        delta_start: 5,
        length: 3,
        token_type: 0,
        token_modifiers_bitset: 3,
    };
    let array = Json::Array(vec![number(2), number(5), number(3), number(0), number(3)]);
    assert_eq!(SemanticToken::deserialize_tokens(&array), Ok(vec![token]));
    assert_eq!(SemanticToken::serialize_tokens(&[token]), array);
    assert_eq!(SemanticToken::tokens_of_numbers(&vec![2, 5, 3, 0, 3]), Ok(vec![token]));
    assert_eq!(
        SemanticToken::deserialize_tokens(&Json::Array(vec![number(1)])),
        Err(CodecError::TokenArrayLengthInvalid)
    );
    assert_eq!(
        SemanticToken::tokens_of_numbers(&vec![1, 2, 3, 4, 5, 6]),
        Err(CodecError::TokenArrayLengthInvalid)
    );
    assert_eq!(SemanticToken::deserialize_tokens(&Json::Array(vec![])), Ok(vec![]));
    assert_eq!(
        SemanticToken::deserialize_tokens(&Json::Array(vec![number(1 << 40)])),
        Err(CodecError::UnexpectedType)
    );
    assert_eq!(SemanticToken::deserialize_tokens_opt(&Json::Null), Ok(None));
    assert_eq!(SemanticToken::deserialize_tokens_opt(&array), Ok(Some(vec![token])));
    assert_eq!(SemanticToken::serialize_tokens_opt(&None), Json::Null);
    assert_eq!(SemanticToken::serialize_tokens_opt(&Some(vec![token])), array);
}

#[test]
fn workspace_edit_changes_are_an_object_or_left_out() {
    let empty = WorkspaceEdit { changes: Some(vec![]), document_changes: None };
    assert_eq!(empty.serialize(), object(vec![("changes", object(vec![]))]));
    let absent = WorkspaceEdit { changes: None, document_changes: None };
    assert_eq!(absent.serialize(), object(vec![]));
    assert_eq!(WorkspaceEdit::deserialize(&object(vec![])), Ok(absent.clone()));
    assert_eq!(WorkspaceEdit::deserialize(&object(vec![("changes", Json::Null)])), Ok(absent));
    assert_eq!(
        WorkspaceEdit::deserialize(&object(vec![("changes", number(1))])),
        Err(CodecError::UnexpectedType)
    );
    assert_eq!(
        WorkspaceEdit::deserialize(&object(vec![(
            "changes",
            object(vec![("not a url", Json::Array(vec![]))])
        )])),
        Err(CodecError::InvalidUrl)
    );
}

#[test]
fn changes_hold_each_url_once() {
    let edit = TextEdit::new(Range::new(Position::new(0, 0), Position::new(0, 1)), "x".into());
    // the two keys are texts of the same URL
    let members = object(vec![
        ("file://test", Json::Array(vec![])),
        ("file://other/", Json::Array(vec![])),
        ("file://test/", Json::Array(vec![edit.serialize()])),
    ]);
    let map = url_map::deserialize(Some(&members)).unwrap().unwrap();
    assert_eq!(
        map,
        vec![
            (Url::parse("file://test/").unwrap(), vec![edit.clone()]),
            (Url::parse("file://other/").unwrap(), vec![]),
        ]
    );
    assert_eq!(
        url_map::serialize(&Some(map)),
        object(vec![
            ("file://test/", Json::Array(vec![edit.serialize()])),
            ("file://other/", Json::Array(vec![])),
        ])
    );
    assert_eq!(url_map::serialize(&None), Json::Null);
    assert_eq!(url_map::deserialize(None), Ok(None));
}

#[test]
fn urls_are_kept_as_their_serialization() {
    let url = Url::parse("file://test").unwrap();
    assert_eq!(url.as_str(), "file://test/");
    assert_eq!(url.serialize(), text("file://test/"));
    assert_eq!(Url::parse("HTTP://Example.COM/a/../b").unwrap().as_str(), "http://example.com/b");
    assert_eq!(Url::deserialize(&text("urn:isbn:0451450523")).unwrap().as_str(), "urn:isbn:0451450523");
    assert_eq!(Url::parse("no scheme"), Err(CodecError::InvalidUrl));
    assert_eq!(Url::deserialize(&text("/relative/path")), Err(CodecError::InvalidUrl));
    assert_eq!(Url::deserialize(&number(1)), Err(CodecError::UnexpectedType));
    assert!(url.same(&Url::parse("file://test/").unwrap()));
    assert!(!url.same(&Url::parse("file://other/").unwrap()));
}

#[test]
fn uris_are_kept_as_written() {
    let uri = Uri::from_str("HTTP://Example.COM/a/../b?q#f").unwrap();
    assert_eq!(uri.as_str(), "HTTP://Example.COM/a/../b?q#f");
    assert_eq!(uri.serialize(), text("HTTP://Example.COM/a/../b?q#f"));
    assert_eq!(Uri::deserialize(&text("relative/path")).unwrap().as_str(), "relative/path");
    assert_eq!(Uri::from_str("a b"), Err(CodecError::InvalidUri));
    assert_eq!(Uri::deserialize(&text("http://[::1")), Err(CodecError::InvalidUri));
    assert_eq!(Uri::deserialize(&Json::Null), Err(CodecError::UnexpectedType));
    assert_eq!(uri, "HTTP://Example.COM/a/../b?q#f".parse::<Uri>().unwrap());
    assert!(Uri::from_str("a").unwrap() < Uri::from_str("b").unwrap());
}

#[test]
fn records_are_read_by_key() {
    let json = object(vec![
        ("character", number(7)),
        ("extra", Json::Null),
        ("line", number(3)),
    ]);
    assert_eq!(Position::deserialize(&json), Ok(Position::new(3, 7)));
    assert_eq!(
        Position::deserialize(&object(vec![("line", number(3))])),
        Err(CodecError::MissingField)
    );
    assert_eq!(
        Position::deserialize(&object(vec![("line", text("3")), ("character", number(7))])),
        Err(CodecError::UnexpectedType)
    );
    assert_eq!(
        Position::deserialize(&Json::Array(vec![number(3), number(7)])),
        Err(CodecError::UnexpectedType)
    );
    assert_eq!(
        Position::new(3, 7).serialize(),
        object(vec![("line", number(3)), ("character", number(7))])
    );
}

#[test]
fn resource_operations_are_tagged_by_kind() {
    let json = object(vec![("kind", text("delete")), ("uri", text("file:///gone"))]);
    let op = ResourceOp::deserialize(&json).unwrap();
    assert!(matches!(&op, ResourceOp::Delete(delete) if delete.uri.as_str() == "file:///gone"));
    assert_eq!(op.serialize(), json);
    assert_eq!(
        ResourceOp::deserialize(&object(vec![("kind", text("move"))])),
        Err(CodecError::UnknownVariant)
    );
    assert_eq!(ResourceOp::deserialize(&object(vec![])), Err(CodecError::MissingField));
}

#[test]
fn nested_values_round_trip() {
    let range = Range::new(Position::new(1, 0), Position::new(9, 0));
    let leaf = DocumentSymbol {
        name: "field".to_string(),
        detail: None,
        kind: SymbolKind::Field,
        tags: Some(vec![SymbolTag::Deprecated]),
        deprecated: None,
        range,
        selection_range: range,
        children: None,
    };
    let root = DocumentSymbol {
        name: "Type".to_string(),
        detail: Some("struct".to_string()),
        kind: SymbolKind::Struct,
        tags: None,
        deprecated: Some(false),
        range,
        selection_range: range,
        children: Some(vec![leaf.clone(), leaf]),
    };
    round_trip(DocumentSymbolResponse::Nested(vec![root.clone()]));
    round_trip(root.clone());
    assert_eq!(root.clone(), root);
    let inner = SelectionRange { range, parent: None };
    let outer = SelectionRange { range, parent: Some(Box::new(inner)) };
    round_trip(SelectionRange { range, parent: Some(Box::new(outer)) });
}

#[test]
fn notebook_filters_are_told_apart_by_their_members() {
    let by_type = NotebookDocumentFilter::ByType {
        notebook_type: "jupyter".to_string(),
        scheme: Some("file".to_string()),
        pattern: None,
    };
    assert_eq!(
        by_type.serialize(),
        object(vec![("notebookType", text("jupyter")), ("scheme", text("file"))])
    );
    round_trip(by_type);
    round_trip(NotebookDocumentFilter::ByScheme {
        notebook_type: None,
        scheme: "file".to_string(),
        pattern: Some("*.ipynb".to_string()),
    });
    round_trip(NotebookDocumentFilter::ByPattern {
        notebook_type: None,
        scheme: None,
        pattern: "*.ipynb".to_string(),
    });
    // with a type, the first variant reads the members
    let by_scheme = NotebookDocumentFilter::ByScheme {
        notebook_type: Some("jupyter".to_string()),
        scheme: "file".to_string(),
        pattern: None,
    };
    assert_eq!(
        NotebookDocumentFilter::deserialize(&by_scheme.serialize()),
        Ok(NotebookDocumentFilter::ByType {
            notebook_type: "jupyter".to_string(),
            scheme: Some("file".to_string()),
            pattern: None,
        })
    );
    assert_eq!(
        NotebookDocumentFilter::deserialize(&object(vec![])),
        Err(CodecError::NoVariantMatched)
    );
    assert_eq!(NotebookDocumentFilter::deserialize(&text("x")), Err(CodecError::NoVariantMatched));
    round_trip(Notebook::String("*".to_string()));
    round_trip(NotebookSelector::ByCells {
        notebook: None,
        cells: vec![NotebookCellSelector { language: "python".to_string() }],
    });
}

#[test]
fn notebook_cells_round_trip() {
    let cell = NotebookCell {
        kind: NotebookCellKind::Code,
        document: Uri::from_str("vscode-notebook-cell:/a.ipynb#c1").unwrap(),
        metadata: Some(LSPObject { members: vec![("tags".to_string(), Json::Array(vec![]))] }),
        execution_summary: Some(ExecutionSummary { execution_order: 3, success: Some(true) }),
    };
    assert_eq!(
        cell.serialize(),
        object(vec![
            ("kind", number(2)),
            ("document", text("vscode-notebook-cell:/a.ipynb#c1")),
            ("metadata", object(vec![("tags", Json::Array(vec![]))])),
            ("executionSummary", object(vec![("executionOrder", number(3)), ("success", Json::Bool(true))])),
        ])
    );
    round_trip(cell);
    assert_eq!(LSPObject::deserialize(&number(1)), Err(CodecError::UnexpectedType));
    round_trip(FileOperationPattern {
        glob: "**/*.rs".to_string(),
        matches: Some(FileOperationPatternKind::File),
        options: None,
    });
}
