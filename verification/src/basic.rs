//! The building blocks of the protocol: positions, ranges, locations, edits and
//! the identifiers of text documents.

use crate::codec::{
    Codec, CodecError, field, get, get_optional, group_lookup, lemma_sequence_round_trip, Member,
    nullable_field, optional, optional_field, put, put_nullable, put_optional, Record, required,
    survives, traits_of,
};
use crate::json::{Json, JsonValue};
use crate::url::{is_url_text, Url};
use vstd::prelude::*;

verus! {

#[derive(Debug, PartialEq, Eq, Hash, Clone)]
pub enum NumberOrString {
    Number(u64),
    String(String),
}

/// What a [`NumberOrString`] stands for.
pub enum NumberOrStringModel {
    Number(u64),
    String(Seq<char>),
}

impl DeepView for NumberOrString {
    type V = NumberOrStringModel;

    open spec fn deep_view(&self) -> NumberOrStringModel {
        match self {
            NumberOrString::Number(value) => NumberOrStringModel::Number(value.deep_view()),
            NumberOrString::String(value) => NumberOrStringModel::String(value.deep_view()),
        }
    }
}

impl Codec for NumberOrString {
    open spec fn encode(value: NumberOrStringModel) -> JsonValue {
        match value {
            NumberOrStringModel::Number(value) => u64::encode(value),
            NumberOrStringModel::String(value) => String::encode(value),
        }
    }

    open spec fn decode(json: JsonValue) -> Result<NumberOrStringModel, CodecError> {
        if let Ok(value) = u64::decode(json) {
            Ok(NumberOrStringModel::Number(value))
        } else if let Ok(value) = String::decode(json) {
            Ok(NumberOrStringModel::String(value))
        } else {
            Err(CodecError::NoVariantMatched)
        }
    }

    fn serialize(&self) -> (json: Json) {
        match self {
            NumberOrString::Number(value) => value.serialize(),
            NumberOrString::String(value) => value.serialize(),
        }
    }

    fn deserialize(json: &Json) -> (result: Result<NumberOrString, CodecError>) {
        if let Ok(value) = u64::deserialize(json) {
            Ok(NumberOrString::Number(value))
        } else if let Ok(value) = String::deserialize(json) {
            Ok(NumberOrString::String(value))
        } else {
            Err(CodecError::NoVariantMatched)
        }
    }
}

impl NumberOrString {
    /// A value comes back unchanged from its document exactly when its
    /// payload does and no variant declared before its own reads the
    /// payload's document.
    pub proof fn lemma_round_trip(value: NumberOrStringModel)
        ensures
            survives::<NumberOrString>(value) <==> match value {
                NumberOrStringModel::Number(v) => survives::<u64>(v),
                NumberOrStringModel::String(v) => u64::decode(String::encode(v)) is Err
                    && survives::<String>(v),
            },
    {
    }

    /// Every value comes back unchanged from the document that stands for it.
    pub proof fn lemma_survives(value: NumberOrStringModel)
        ensures
            survives::<NumberOrString>(value),
    {
    }
}

#[derive(Debug, PartialEq, Eq, Clone)]
pub struct CancelParams {
    /// The request id to cancel.
    pub id: NumberOrString,
}

/// What a [`CancelParams`] stands for.
pub struct CancelParamsModel {
    pub id: NumberOrStringModel,
}

impl DeepView for CancelParams {
    type V = CancelParamsModel;

    open spec fn deep_view(&self) -> CancelParamsModel {
        CancelParamsModel {
            id: self.id.deep_view(),
        }
    }
}

impl Record for CancelParams {
    open spec fn members(before: Seq<Member>, value: CancelParamsModel) -> Seq<Member> {
        before + field::<NumberOrString>("id"@, value.id)
    }

    open spec fn read(members: Seq<Member>) -> Result<CancelParamsModel, CodecError> {
        let id = required::<NumberOrString>(members, "id"@);
        if id is Err {
            Err(id->Err_0)
        } else {
            Ok(
                CancelParamsModel {
                    id: id->Ok_0,
                },
            )
        }
    }

    fn write(&self, members: &mut Vec<(String, Json)>) {
        put(members, "id", &self.id);
    }

    fn scan(members: &Vec<(String, Json)>) -> (result: Result<CancelParams, CodecError>) {
        let id = get::<NumberOrString>(members, "id");
        if let Err(error) = id {
            Err(error)
        } else {
            Ok(
                CancelParams {
                    id: id.unwrap(),
                },
            )
        }
    }
}

impl CancelParams {
    /// Every value comes back unchanged from the document that stands for it.
    pub proof fn lemma_survives(value: CancelParamsModel)
        ensures
            survives::<CancelParams>(value),
    {
        broadcast use group_lookup;

        reveal(required);
        reveal_strlit("id");
        NumberOrString::lemma_survives(value.id);
    }
}

/// Position in a text document expressed as zero-based line and character offset.
/// A position is between two characters like an 'insert' cursor in a editor.
#[derive(Debug, PartialEq, Eq, Structural, PartialOrd, Ord, Clone, Copy, Default)]
pub struct Position {
    /// Line position in a document (zero-based).
    pub line: u64,
    /// Character offset on a line in a document (zero-based).
    pub character: u64,
}

impl DeepView for Position {
    type V = Position;

    open spec fn deep_view(&self) -> Position {
        Position {
            line: self.line.deep_view(),
            character: self.character.deep_view(),
        }
    }
}

impl Record for Position {
    open spec fn members(before: Seq<Member>, value: Position) -> Seq<Member> {
        before + field::<u64>("line"@, value.line)
            + field::<u64>("character"@, value.character)
    }

    open spec fn read(members: Seq<Member>) -> Result<Position, CodecError> {
        let line = required::<u64>(members, "line"@);
        let character = required::<u64>(members, "character"@);
        if line is Err {
            Err(line->Err_0)
        } else if character is Err {
            Err(character->Err_0)
        } else {
            Ok(
                Position {
                    line: line->Ok_0,
                    character: character->Ok_0,
                },
            )
        }
    }

    fn write(&self, members: &mut Vec<(String, Json)>) {
        put(members, "line", &self.line);
        put(members, "character", &self.character);
    }

    fn scan(members: &Vec<(String, Json)>) -> (result: Result<Position, CodecError>) {
        let line = get::<u64>(members, "line");
        let character = get::<u64>(members, "character");
        if let Err(error) = line {
            Err(error)
        } else if let Err(error) = character {
            Err(error)
        } else {
            Ok(
                Position {
                    line: line.unwrap(),
                    character: character.unwrap(),
                },
            )
        }
    }
}

impl Position {
    /// Builds the value from its fields.
    pub fn new(line: u64, character: u64) -> (result: Position)
        ensures
            result == (Position { line, character }),
    {
        Position { line, character }
    }

    /// Every value comes back unchanged from the document that stands for it.
    pub proof fn lemma_survives(value: Position)
        ensures
            survives::<Position>(value),
    {
        broadcast use group_lookup;

        reveal(required);
        reveal_strlit("line");
        reveal_strlit("character");
    }
}

/// A range in a text document expressed as (zero-based) start and end positions.
/// A range is comparable to a selection in an editor. Therefore the end position is exclusive.
#[derive(Debug, PartialEq, Eq, Structural, Clone, Copy, Default)]
pub struct Range {
    /// The range's start position.
    pub start: Position,
    /// The range's end position.
    pub end: Position,
}

impl DeepView for Range {
    type V = Range;

    open spec fn deep_view(&self) -> Range {
        Range {
            start: self.start.deep_view(),
            end: self.end.deep_view(),
        }
    }
}

impl Record for Range {
    open spec fn members(before: Seq<Member>, value: Range) -> Seq<Member> {
        before + field::<Position>("start"@, value.start)
            + field::<Position>("end"@, value.end)
    }

    open spec fn read(members: Seq<Member>) -> Result<Range, CodecError> {
        let start = required::<Position>(members, "start"@);
        let end = required::<Position>(members, "end"@);
        if start is Err {
            Err(start->Err_0)
        } else if end is Err {
            Err(end->Err_0)
        } else {
            Ok(
                Range {
                    start: start->Ok_0,
                    end: end->Ok_0,
                },
            )
        }
    }

    fn write(&self, members: &mut Vec<(String, Json)>) {
        put(members, "start", &self.start);
        put(members, "end", &self.end);
    }

    fn scan(members: &Vec<(String, Json)>) -> (result: Result<Range, CodecError>) {
        let start = get::<Position>(members, "start");
        let end = get::<Position>(members, "end");
        if let Err(error) = start {
            Err(error)
        } else if let Err(error) = end {
            Err(error)
        } else {
            Ok(
                Range {
                    start: start.unwrap(),
                    end: end.unwrap(),
                },
            )
        }
    }
}

impl Range {
    /// Builds the value from its fields.
    pub fn new(start: Position, end: Position) -> (result: Range)
        ensures
            result == (Range { start, end }),
    {
        Range { start, end }
    }

    /// Every value comes back unchanged from the document that stands for it.
    pub proof fn lemma_survives(value: Range)
        ensures
            survives::<Range>(value),
    {
        broadcast use group_lookup;

        reveal(required);
        reveal_strlit("start");
        reveal_strlit("end");
        Position::lemma_survives(value.start);
        Position::lemma_survives(value.end);
    }
}

/// Represents a location inside a resource, such as a line inside a text file.
#[derive(Debug, PartialEq, Eq, Clone)]
pub struct Location {
    pub uri: Url,
    pub range: Range,
}

/// What a [`Location`] stands for.
pub struct LocationModel {
    pub uri: Seq<char>,
    pub range: Range,
}

impl DeepView for Location {
    type V = LocationModel;

    open spec fn deep_view(&self) -> LocationModel {
        LocationModel {
            uri: self.uri.deep_view(),
            range: self.range.deep_view(),
        }
    }
}

impl Record for Location {
    open spec fn members(before: Seq<Member>, value: LocationModel) -> Seq<Member> {
        before + field::<Url>("uri"@, value.uri)
            + field::<Range>("range"@, value.range)
    }

    open spec fn read(members: Seq<Member>) -> Result<LocationModel, CodecError> {
        let uri = required::<Url>(members, "uri"@);
        let range = required::<Range>(members, "range"@);
        if uri is Err {
            Err(uri->Err_0)
        } else if range is Err {
            Err(range->Err_0)
        } else {
            Ok(
                LocationModel {
                    uri: uri->Ok_0,
                    range: range->Ok_0,
                },
            )
        }
    }

    fn write(&self, members: &mut Vec<(String, Json)>) {
        put(members, "uri", &self.uri);
        put(members, "range", &self.range);
    }

    fn scan(members: &Vec<(String, Json)>) -> (result: Result<Location, CodecError>) {
        let uri = get::<Url>(members, "uri");
        let range = get::<Range>(members, "range");
        if let Err(error) = uri {
            Err(error)
        } else if let Err(error) = range {
            Err(error)
        } else {
            Ok(
                Location {
                    uri: uri.unwrap(),
                    range: range.unwrap(),
                },
            )
        }
    }
}

impl Location {
    /// Builds the value from its fields.
    pub fn new(uri: Url, range: Range) -> (result: Location)
        ensures
            result == (Location { uri, range }),
    {
        Location { uri, range }
    }

    /// A value comes back unchanged from the document that stands for it
    /// where its fields meet what is asked of them here.
    pub proof fn lemma_round_trip(value: LocationModel)
        requires
            is_url_text(value.uri),
        ensures
            survives::<Location>(value),
    {
        broadcast use group_lookup;

        reveal(required);
        reveal_strlit("uri");
        reveal_strlit("range");
        Url::lemma_round_trip(value.uri);
        Range::lemma_survives(value.range);
    }
}

/// Represents a link between a source and a target location.
#[derive(Debug, PartialEq, Eq, Clone)]
pub struct LocationLink {
    /// Span of the origin of this link.
    ///
    ///  Used as the underlined span for mouse interaction. Defaults to the word range at
    ///  the mouse position.
    pub origin_selection_range: Option<Range>,
    /// The target resource identifier of this link.
    pub target_uri: Url,
    /// The full target range of this link.
    pub target_range: Range,
    /// The span of this link.
    pub target_selection_range: Range,
}

/// What a [`LocationLink`] stands for.
pub struct LocationLinkModel {
    pub origin_selection_range: Option<Range>,
    pub target_uri: Seq<char>,
    pub target_range: Range,
    pub target_selection_range: Range,
}

impl DeepView for LocationLink {
    type V = LocationLinkModel;

    open spec fn deep_view(&self) -> LocationLinkModel {
        LocationLinkModel {
            origin_selection_range: self.origin_selection_range.deep_view(),
            target_uri: self.target_uri.deep_view(),
            target_range: self.target_range.deep_view(),
            target_selection_range: self.target_selection_range.deep_view(),
        }
    }
}

impl Record for LocationLink {
    open spec fn members(before: Seq<Member>, value: LocationLinkModel) -> Seq<Member> {
        before + optional_field::<Range>("originSelectionRange"@, value.origin_selection_range)
            + field::<Url>("targetUri"@, value.target_uri)
            + field::<Range>("targetRange"@, value.target_range)
            + field::<Range>("targetSelectionRange"@, value.target_selection_range)
    }

    open spec fn read(members: Seq<Member>) -> Result<LocationLinkModel, CodecError> {
        let origin_selection_range = optional::<Range>(members, "originSelectionRange"@);
        let target_uri = required::<Url>(members, "targetUri"@);
        let target_range = required::<Range>(members, "targetRange"@);
        let target_selection_range = required::<Range>(members, "targetSelectionRange"@);
        if origin_selection_range is Err {
            Err(origin_selection_range->Err_0)
        } else if target_uri is Err {
            Err(target_uri->Err_0)
        } else if target_range is Err {
            Err(target_range->Err_0)
        } else if target_selection_range is Err {
            Err(target_selection_range->Err_0)
        } else {
            Ok(
                LocationLinkModel {
                    origin_selection_range: origin_selection_range->Ok_0,
                    target_uri: target_uri->Ok_0,
                    target_range: target_range->Ok_0,
                    target_selection_range: target_selection_range->Ok_0,
                },
            )
        }
    }

    fn write(&self, members: &mut Vec<(String, Json)>) {
        put_optional(members, "originSelectionRange", &self.origin_selection_range);
        put(members, "targetUri", &self.target_uri);
        put(members, "targetRange", &self.target_range);
        put(members, "targetSelectionRange", &self.target_selection_range);
    }

    fn scan(members: &Vec<(String, Json)>) -> (result: Result<LocationLink, CodecError>) {
        let origin_selection_range = get_optional::<Range>(members, "originSelectionRange");
        let target_uri = get::<Url>(members, "targetUri");
        let target_range = get::<Range>(members, "targetRange");
        let target_selection_range = get::<Range>(members, "targetSelectionRange");
        if let Err(error) = origin_selection_range {
            Err(error)
        } else if let Err(error) = target_uri {
            Err(error)
        } else if let Err(error) = target_range {
            Err(error)
        } else if let Err(error) = target_selection_range {
            Err(error)
        } else {
            Ok(
                LocationLink {
                    origin_selection_range: origin_selection_range.unwrap(),
                    target_uri: target_uri.unwrap(),
                    target_range: target_range.unwrap(),
                    target_selection_range: target_selection_range.unwrap(),
                },
            )
        }
    }
}

impl LocationLink {
    /// A value comes back unchanged from the document that stands for it
    /// where its fields meet what is asked of them here.
    pub proof fn lemma_round_trip(value: LocationLinkModel)
        requires
            is_url_text(value.target_uri),
        ensures
            survives::<LocationLink>(value),
    {
        broadcast use group_lookup;

        reveal(required);
        reveal(optional);
        reveal_strlit("originSelectionRange");
        reveal_strlit("targetUri");
        reveal_strlit("targetRange");
        reveal_strlit("targetSelectionRange");
        if let Some(inner) = value.origin_selection_range {
            Range::lemma_survives(inner);
        }
        Url::lemma_round_trip(value.target_uri);
        Range::lemma_survives(value.target_range);
        Range::lemma_survives(value.target_selection_range);
    }
}

/// Represents a reference to a command. Provides a title which will be used to represent a command in the UI.
/// Commands are identitifed using a string identifier and the protocol currently doesn't specify a set of
/// well known commands. So executing a command requires some tool extension code.
#[derive(Debug, PartialEq, Clone, Default)]
pub struct Command {
    /// Title of the command, like `save`.
    pub title: String,
    /// The identifier of the actual command handler.
    pub command: String,
    /// Arguments that the command handler should be
    /// invoked with.
    pub arguments: Option<Vec<Json>>,
}

/// What a [`Command`] stands for.
pub struct CommandModel {
    pub title: Seq<char>,
    pub command: Seq<char>,
    pub arguments: Option<Seq<JsonValue>>,
}

impl DeepView for Command {
    type V = CommandModel;

    open spec fn deep_view(&self) -> CommandModel {
        CommandModel {
            title: self.title.deep_view(),
            command: self.command.deep_view(),
            arguments: self.arguments.deep_view(),
        }
    }
}

impl Record for Command {
    open spec fn members(before: Seq<Member>, value: CommandModel) -> Seq<Member> {
        before + field::<String>("title"@, value.title)
            + field::<String>("command"@, value.command)
            + optional_field::<Vec<Json>>("arguments"@, value.arguments)
    }

    open spec fn read(members: Seq<Member>) -> Result<CommandModel, CodecError> {
        let title = required::<String>(members, "title"@);
        let command = required::<String>(members, "command"@);
        let arguments = optional::<Vec<Json>>(members, "arguments"@);
        if title is Err {
            Err(title->Err_0)
        } else if command is Err {
            Err(command->Err_0)
        } else if arguments is Err {
            Err(arguments->Err_0)
        } else {
            Ok(
                CommandModel {
                    title: title->Ok_0,
                    command: command->Ok_0,
                    arguments: arguments->Ok_0,
                },
            )
        }
    }

    fn write(&self, members: &mut Vec<(String, Json)>) {
        put(members, "title", &self.title);
        put(members, "command", &self.command);
        put_optional(members, "arguments", &self.arguments);
    }

    fn scan(members: &Vec<(String, Json)>) -> (result: Result<Command, CodecError>) {
        let title = get::<String>(members, "title");
        let command = get::<String>(members, "command");
        let arguments = get_optional::<Vec<Json>>(members, "arguments");
        if let Err(error) = title {
            Err(error)
        } else if let Err(error) = command {
            Err(error)
        } else if let Err(error) = arguments {
            Err(error)
        } else {
            Ok(
                Command {
                    title: title.unwrap(),
                    command: command.unwrap(),
                    arguments: arguments.unwrap(),
                },
            )
        }
    }
}

impl Command {
    /// Builds the value from its fields.
    pub fn new(title: String, command: String, arguments: Option<Vec<Json>>) -> (result: Command)
        ensures
            result == (Command { title, command, arguments }),
    {
        Command { title, command, arguments }
    }

    /// Every value comes back unchanged from the document that stands for it.
    pub proof fn lemma_survives(value: CommandModel)
        ensures
            survives::<Command>(value),
    {
        broadcast use group_lookup;

        reveal(required);
        reveal(optional);
        reveal_strlit("title");
        reveal_strlit("command");
        reveal_strlit("arguments");
        if let Some(inner) = value.arguments {
            lemma_sequence_round_trip::<Json>(inner);
        }
    }
}

/// A textual edit applicable to a text document.
///
/// If n `TextEdit`s are applied to a text document all text edits describe changes to the initial document version.
/// Execution wise text edits should applied from the bottom to the top of the text document. Overlapping text edits
/// are not supported.
#[derive(Debug, PartialEq, Eq, Clone, Default)]
pub struct TextEdit {
    /// The range of the text document to be manipulated. To insert
    /// text into a document create a range where start === end.
    pub range: Range,
    /// The string to be inserted. For delete operations use an
    /// empty string.
    pub new_text: String,
}

/// What a [`TextEdit`] stands for.
pub struct TextEditModel {
    pub range: Range,
    pub new_text: Seq<char>,
}

impl DeepView for TextEdit {
    type V = TextEditModel;

    open spec fn deep_view(&self) -> TextEditModel {
        TextEditModel {
            range: self.range.deep_view(),
            new_text: self.new_text.deep_view(),
        }
    }
}

impl Record for TextEdit {
    open spec fn members(before: Seq<Member>, value: TextEditModel) -> Seq<Member> {
        before + field::<Range>("range"@, value.range)
            + field::<String>("newText"@, value.new_text)
    }

    open spec fn read(members: Seq<Member>) -> Result<TextEditModel, CodecError> {
        let range = required::<Range>(members, "range"@);
        let new_text = required::<String>(members, "newText"@);
        if range is Err {
            Err(range->Err_0)
        } else if new_text is Err {
            Err(new_text->Err_0)
        } else {
            Ok(
                TextEditModel {
                    range: range->Ok_0,
                    new_text: new_text->Ok_0,
                },
            )
        }
    }

    fn write(&self, members: &mut Vec<(String, Json)>) {
        put(members, "range", &self.range);
        put(members, "newText", &self.new_text);
    }

    fn scan(members: &Vec<(String, Json)>) -> (result: Result<TextEdit, CodecError>) {
        let range = get::<Range>(members, "range");
        let new_text = get::<String>(members, "newText");
        if let Err(error) = range {
            Err(error)
        } else if let Err(error) = new_text {
            Err(error)
        } else {
            Ok(
                TextEdit {
                    range: range.unwrap(),
                    new_text: new_text.unwrap(),
                },
            )
        }
    }
}

impl TextEdit {
    /// Builds the value from its fields.
    pub fn new(range: Range, new_text: String) -> (result: TextEdit)
        ensures
            result == (TextEdit { range, new_text }),
    {
        TextEdit { range, new_text }
    }

    /// Every value comes back unchanged from the document that stands for it.
    pub proof fn lemma_survives(value: TextEditModel)
        ensures
            survives::<TextEdit>(value),
    {
        broadcast use group_lookup;

        reveal(required);
        reveal_strlit("range");
        reveal_strlit("newText");
        Range::lemma_survives(value.range);
    }
}

/// Text documents are identified using a URI. On the protocol level, URIs are passed as strings.
#[derive(Debug, PartialEq, Eq, Clone)]
pub struct TextDocumentIdentifier {
    /// The text document's URI.
    pub uri: Url,
}

/// What a [`TextDocumentIdentifier`] stands for.
pub struct TextDocumentIdentifierModel {
    pub uri: Seq<char>,
}

impl DeepView for TextDocumentIdentifier {
    type V = TextDocumentIdentifierModel;

    open spec fn deep_view(&self) -> TextDocumentIdentifierModel {
        TextDocumentIdentifierModel {
            uri: self.uri.deep_view(),
        }
    }
}

impl Record for TextDocumentIdentifier {
    open spec fn members(before: Seq<Member>, value: TextDocumentIdentifierModel) -> Seq<Member> {
        before + field::<Url>("uri"@, value.uri)
    }

    open spec fn read(members: Seq<Member>) -> Result<TextDocumentIdentifierModel, CodecError> {
        let uri = required::<Url>(members, "uri"@);
        if uri is Err {
            Err(uri->Err_0)
        } else {
            Ok(
                TextDocumentIdentifierModel {
                    uri: uri->Ok_0,
                },
            )
        }
    }

    fn write(&self, members: &mut Vec<(String, Json)>) {
        put(members, "uri", &self.uri);
    }

    fn scan(members: &Vec<(String, Json)>) -> (result: Result<TextDocumentIdentifier, CodecError>) {
        let uri = get::<Url>(members, "uri");
        if let Err(error) = uri {
            Err(error)
        } else {
            Ok(
                TextDocumentIdentifier {
                    uri: uri.unwrap(),
                },
            )
        }
    }
}

impl TextDocumentIdentifier {
    /// Builds the value from its fields.
    pub fn new(uri: Url) -> (result: TextDocumentIdentifier)
        ensures
            result == (TextDocumentIdentifier { uri }),
    {
        TextDocumentIdentifier { uri }
    }

    /// A value comes back unchanged from the document that stands for it
    /// where its fields meet what is asked of them here.
    pub proof fn lemma_round_trip(value: TextDocumentIdentifierModel)
        requires
            is_url_text(value.uri),
        ensures
            survives::<TextDocumentIdentifier>(value),
    {
        broadcast use group_lookup;

        reveal(required);
        reveal_strlit("uri");
        Url::lemma_round_trip(value.uri);
    }
}

/// An item to transfer a text document from the client to the server.
#[derive(Debug, PartialEq, Eq, Clone)]
pub struct TextDocumentItem {
    /// The text document's URI.
    pub uri: Url,
    /// The text document's language identifier.
    pub language_id: String,
    /// The version number of this document (it will strictly increase after each
    /// change, including undo/redo).
    pub version: i64,
    /// The content of the opened text document.
    pub text: String,
}

/// What a [`TextDocumentItem`] stands for.
pub struct TextDocumentItemModel {
    pub uri: Seq<char>,
    pub language_id: Seq<char>,
    pub version: i64,
    pub text: Seq<char>,
}

impl DeepView for TextDocumentItem {
    type V = TextDocumentItemModel;

    open spec fn deep_view(&self) -> TextDocumentItemModel {
        TextDocumentItemModel {
            uri: self.uri.deep_view(),
            language_id: self.language_id.deep_view(),
            version: self.version.deep_view(),
            text: self.text.deep_view(),
        }
    }
}

impl Record for TextDocumentItem {
    open spec fn members(before: Seq<Member>, value: TextDocumentItemModel) -> Seq<Member> {
        before + field::<Url>("uri"@, value.uri)
            + field::<String>("languageId"@, value.language_id)
            + field::<i64>("version"@, value.version)
            + field::<String>("text"@, value.text)
    }

    open spec fn read(members: Seq<Member>) -> Result<TextDocumentItemModel, CodecError> {
        let uri = required::<Url>(members, "uri"@);
        let language_id = required::<String>(members, "languageId"@);
        let version = required::<i64>(members, "version"@);
        let text = required::<String>(members, "text"@);
        if uri is Err {
            Err(uri->Err_0)
        } else if language_id is Err {
            Err(language_id->Err_0)
        } else if version is Err {
            Err(version->Err_0)
        } else if text is Err {
            Err(text->Err_0)
        } else {
            Ok(
                TextDocumentItemModel {
                    uri: uri->Ok_0,
                    language_id: language_id->Ok_0,
                    version: version->Ok_0,
                    text: text->Ok_0,
                },
            )
        }
    }

    fn write(&self, members: &mut Vec<(String, Json)>) {
        put(members, "uri", &self.uri);
        put(members, "languageId", &self.language_id);
        put(members, "version", &self.version);
        put(members, "text", &self.text);
    }

    fn scan(members: &Vec<(String, Json)>) -> (result: Result<TextDocumentItem, CodecError>) {
        let uri = get::<Url>(members, "uri");
        let language_id = get::<String>(members, "languageId");
        let version = get::<i64>(members, "version");
        let text = get::<String>(members, "text");
        if let Err(error) = uri {
            Err(error)
        } else if let Err(error) = language_id {
            Err(error)
        } else if let Err(error) = version {
            Err(error)
        } else if let Err(error) = text {
            Err(error)
        } else {
            Ok(
                TextDocumentItem {
                    uri: uri.unwrap(),
                    language_id: language_id.unwrap(),
                    version: version.unwrap(),
                    text: text.unwrap(),
                },
            )
        }
    }
}

impl TextDocumentItem {
    /// Builds the value from its fields.
    pub fn new(
        uri: Url,
        language_id: String,
        version: i64,
        text: String,
    ) -> (result: TextDocumentItem)
        ensures
            result == (TextDocumentItem { uri, language_id, version, text }),
    {
        TextDocumentItem { uri, language_id, version, text }
    }

    /// A value comes back unchanged from the document that stands for it
    /// where its fields meet what is asked of them here.
    pub proof fn lemma_round_trip(value: TextDocumentItemModel)
        requires
            is_url_text(value.uri),
        ensures
            survives::<TextDocumentItem>(value),
    {
        broadcast use group_lookup;

        reveal(required);
        reveal_strlit("uri");
        reveal_strlit("languageId");
        reveal_strlit("version");
        reveal_strlit("text");
        Url::lemma_round_trip(value.uri);
    }
}

/// An identifier to denote a specific version of a text document.
#[derive(Debug, PartialEq, Eq, Clone)]
pub struct VersionedTextDocumentIdentifier {
    /// The text document's URI.
    pub uri: Url,
    /// The version number of this document.
    pub version: Option<i64>,
}

/// What a [`VersionedTextDocumentIdentifier`] stands for.
pub struct VersionedTextDocumentIdentifierModel {
    pub uri: Seq<char>,
    pub version: Option<i64>,
}

impl DeepView for VersionedTextDocumentIdentifier {
    type V = VersionedTextDocumentIdentifierModel;

    open spec fn deep_view(&self) -> VersionedTextDocumentIdentifierModel {
        VersionedTextDocumentIdentifierModel {
            uri: self.uri.deep_view(),
            version: self.version.deep_view(),
        }
    }
}

impl Record for VersionedTextDocumentIdentifier {
    open spec fn members(before: Seq<Member>, value: VersionedTextDocumentIdentifierModel) -> Seq<Member> {
        before + field::<Url>("uri"@, value.uri)
            + nullable_field::<i64>("version"@, value.version)
    }

    open spec fn read(members: Seq<Member>) -> Result<VersionedTextDocumentIdentifierModel, CodecError> {
        let uri = required::<Url>(members, "uri"@);
        let version = optional::<i64>(members, "version"@);
        if uri is Err {
            Err(uri->Err_0)
        } else if version is Err {
            Err(version->Err_0)
        } else {
            Ok(
                VersionedTextDocumentIdentifierModel {
                    uri: uri->Ok_0,
                    version: version->Ok_0,
                },
            )
        }
    }

    fn write(&self, members: &mut Vec<(String, Json)>) {
        put(members, "uri", &self.uri);
        put_nullable(members, "version", &self.version);
    }

    fn scan(members: &Vec<(String, Json)>) -> (result: Result<VersionedTextDocumentIdentifier, CodecError>) {
        let uri = get::<Url>(members, "uri");
        let version = get_optional::<i64>(members, "version");
        if let Err(error) = uri {
            Err(error)
        } else if let Err(error) = version {
            Err(error)
        } else {
            Ok(
                VersionedTextDocumentIdentifier {
                    uri: uri.unwrap(),
                    version: version.unwrap(),
                },
            )
        }
    }
}

impl VersionedTextDocumentIdentifier {
    /// The identifier of the given version of a document.
    pub fn new(uri: Url, version: i64) -> (result: VersionedTextDocumentIdentifier)
        ensures
            result == (VersionedTextDocumentIdentifier { uri, version: Some(version) }),
    {
        VersionedTextDocumentIdentifier { uri, version: Some(version) }
    }

    /// A value comes back unchanged from the document that stands for it
    /// where its fields meet what is asked of them here.
    pub proof fn lemma_round_trip(value: VersionedTextDocumentIdentifierModel)
        requires
            is_url_text(value.uri),
        ensures
            survives::<VersionedTextDocumentIdentifier>(value),
    {
        broadcast use group_lookup;

        reveal(required);
        reveal(optional);
        reveal_strlit("uri");
        reveal_strlit("version");
        Url::lemma_round_trip(value.uri);
    }
}

/// A parameter literal used in requests to pass a text document and a position inside that document.
#[derive(Debug, PartialEq, Eq, Clone)]
pub struct TextDocumentPositionParams {
    /// The text document.
    pub text_document: TextDocumentIdentifier,
    /// The position inside the text document.
    pub position: Position,
}

/// What a [`TextDocumentPositionParams`] stands for.
pub struct TextDocumentPositionParamsModel {
    pub text_document: TextDocumentIdentifierModel,
    pub position: Position,
}

impl DeepView for TextDocumentPositionParams {
    type V = TextDocumentPositionParamsModel;

    open spec fn deep_view(&self) -> TextDocumentPositionParamsModel {
        TextDocumentPositionParamsModel {
            text_document: self.text_document.deep_view(),
            position: self.position.deep_view(),
        }
    }
}

impl Record for TextDocumentPositionParams {
    open spec fn members(before: Seq<Member>, value: TextDocumentPositionParamsModel) -> Seq<Member> {
        before + field::<TextDocumentIdentifier>("textDocument"@, value.text_document)
            + field::<Position>("position"@, value.position)
    }

    open spec fn read(members: Seq<Member>) -> Result<TextDocumentPositionParamsModel, CodecError> {
        let text_document = required::<TextDocumentIdentifier>(members, "textDocument"@);
        let position = required::<Position>(members, "position"@);
        if text_document is Err {
            Err(text_document->Err_0)
        } else if position is Err {
            Err(position->Err_0)
        } else {
            Ok(
                TextDocumentPositionParamsModel {
                    text_document: text_document->Ok_0,
                    position: position->Ok_0,
                },
            )
        }
    }

    fn write(&self, members: &mut Vec<(String, Json)>) {
        put(members, "textDocument", &self.text_document);
        put(members, "position", &self.position);
    }

    fn scan(members: &Vec<(String, Json)>) -> (result: Result<TextDocumentPositionParams, CodecError>) {
        let text_document = get::<TextDocumentIdentifier>(members, "textDocument");
        let position = get::<Position>(members, "position");
        if let Err(error) = text_document {
            Err(error)
        } else if let Err(error) = position {
            Err(error)
        } else {
            Ok(
                TextDocumentPositionParams {
                    text_document: text_document.unwrap(),
                    position: position.unwrap(),
                },
            )
        }
    }
}

impl TextDocumentPositionParams {
    /// Builds the value from its fields.
    pub fn new(
        text_document: TextDocumentIdentifier,
        position: Position,
    ) -> (result: TextDocumentPositionParams)
        ensures
            result == (TextDocumentPositionParams { text_document, position }),
    {
        TextDocumentPositionParams { text_document, position }
    }

    /// A value comes back unchanged from the document that stands for it
    /// where its fields meet what is asked of them here.
    pub proof fn lemma_round_trip(value: TextDocumentPositionParamsModel)
        requires
            survives::<TextDocumentIdentifier>(value.text_document),
        ensures
            survives::<TextDocumentPositionParams>(value),
    {
        broadcast use group_lookup;

        reveal(required);
        reveal_strlit("textDocument");
        reveal_strlit("position");
        Position::lemma_survives(value.position);
    }
}

/// A document filter denotes a document through properties like language, schema or pattern.
/// Examples are a filter that applies to TypeScript files on disk or a filter the applies to JSON
/// files with name package.json:
///
/// { language: 'typescript', scheme: 'file' }
/// { language: 'json', pattern: '**/package.json' }
#[derive(Debug, PartialEq, Eq, Clone)]
pub struct DocumentFilter {
    /// A language id, like `typescript`.
    pub language: Option<String>,
    /// A Uri [scheme](#Uri.scheme), like `file` or `untitled`.
    pub scheme: Option<String>,
    /// A glob pattern, like `*.{ts,js}`.
    pub pattern: Option<String>,
}

/// What a [`DocumentFilter`] stands for.
pub struct DocumentFilterModel {
    pub language: Option<Seq<char>>,
    pub scheme: Option<Seq<char>>,
    pub pattern: Option<Seq<char>>,
}

impl DeepView for DocumentFilter {
    type V = DocumentFilterModel;

    open spec fn deep_view(&self) -> DocumentFilterModel {
        DocumentFilterModel {
            language: self.language.deep_view(),
            scheme: self.scheme.deep_view(),
            pattern: self.pattern.deep_view(),
        }
    }
}

impl Record for DocumentFilter {
    open spec fn members(before: Seq<Member>, value: DocumentFilterModel) -> Seq<Member> {
        before + optional_field::<String>("language"@, value.language)
            + optional_field::<String>("scheme"@, value.scheme)
            + optional_field::<String>("pattern"@, value.pattern)
    }

    open spec fn read(members: Seq<Member>) -> Result<DocumentFilterModel, CodecError> {
        let language = optional::<String>(members, "language"@);
        let scheme = optional::<String>(members, "scheme"@);
        let pattern = optional::<String>(members, "pattern"@);
        if language is Err {
            Err(language->Err_0)
        } else if scheme is Err {
            Err(scheme->Err_0)
        } else if pattern is Err {
            Err(pattern->Err_0)
        } else {
            Ok(
                DocumentFilterModel {
                    language: language->Ok_0,
                    scheme: scheme->Ok_0,
                    pattern: pattern->Ok_0,
                },
            )
        }
    }

    fn write(&self, members: &mut Vec<(String, Json)>) {
        put_optional(members, "language", &self.language);
        put_optional(members, "scheme", &self.scheme);
        put_optional(members, "pattern", &self.pattern);
    }

    fn scan(members: &Vec<(String, Json)>) -> (result: Result<DocumentFilter, CodecError>) {
        let language = get_optional::<String>(members, "language");
        let scheme = get_optional::<String>(members, "scheme");
        let pattern = get_optional::<String>(members, "pattern");
        if let Err(error) = language {
            Err(error)
        } else if let Err(error) = scheme {
            Err(error)
        } else if let Err(error) = pattern {
            Err(error)
        } else {
            Ok(
                DocumentFilter {
                    language: language.unwrap(),
                    scheme: scheme.unwrap(),
                    pattern: pattern.unwrap(),
                },
            )
        }
    }
}

impl DocumentFilter {
    /// Every value comes back unchanged from the document that stands for it.
    pub proof fn lemma_survives(value: DocumentFilterModel)
        ensures
            survives::<DocumentFilter>(value),
    {
        broadcast use group_lookup;

        reveal(optional);
        reveal_strlit("language");
        reveal_strlit("scheme");
        reveal_strlit("pattern");
    }
}

/// Describes the content type that a client supports in various
/// result literals like `Hover`, `ParameterInfo` or `CompletionItem`.
///
/// Please note that `MarkupKinds` must not start with a `$`. This kinds
/// are reserved for internal usage.
#[derive(Debug, PartialEq, Eq, Structural, Clone, Copy)]
pub enum MarkupKind {
    /// Plain text is supported as a content format
    PlainText,
    /// Markdown is supported as a content format
    Markdown,
}

impl DeepView for MarkupKind {
    type V = MarkupKind;

    open spec fn deep_view(&self) -> MarkupKind {
        *self
    }
}

impl MarkupKind {
    /// The string that stands for a variant on the wire.
    pub open spec fn name(self) -> Seq<char> {
        match self {
            MarkupKind::PlainText => "plaintext"@,
            MarkupKind::Markdown => "markdown"@,
        }
    }

    /// The variant that a string stands for, if any.
    pub open spec fn named(name: Seq<char>) -> Option<MarkupKind> {
        if name == "plaintext"@ {
            Some(MarkupKind::PlainText)
        } else if name == "markdown"@ {
            Some(MarkupKind::Markdown)
        } else {
            None
        }
    }

    /// Gives the string that stands for this variant on the wire.
    pub fn as_str(&self) -> (name: &'static str)
        ensures
            name@ == self.name(),
    {
        match self {
            MarkupKind::PlainText => "plaintext",
            MarkupKind::Markdown => "markdown",
        }
    }

    /// Gives the variant that a string stands for, if any.
    pub fn from_name(name: &String) -> (variant: Option<MarkupKind>)
        ensures
            variant == Self::named(name@),
    {
        if *name == "plaintext".to_owned() {
            Some(MarkupKind::PlainText)
        } else if *name == "markdown".to_owned() {
            Some(MarkupKind::Markdown)
        } else {
            None
        }
    }

    /// Every variant comes back unchanged from the string that stands for it.
    pub proof fn lemma_survives(value: MarkupKind)
        ensures
            survives::<MarkupKind>(value),
    {
        reveal_strlit("plaintext");
        reveal_strlit("markdown");
        assert(traits_of("plaintext"@) == (9nat, 'p', 'n', 'x'));
        assert(traits_of("markdown"@) == (8nat, 'm', 'd', 'w'));
    }
}

impl Codec for MarkupKind {
    open spec fn encode(value: MarkupKind) -> JsonValue {
        JsonValue::String(value.name())
    }

    open spec fn decode(json: JsonValue) -> Result<MarkupKind, CodecError> {
        match json {
            JsonValue::String(name) => match Self::named(name) {
                Some(variant) => Ok(variant),
                None => Err(CodecError::UnknownVariant),
            },
            _ => Err(CodecError::UnexpectedType),
        }
    }

    fn serialize(&self) -> (json: Json) {
        Json::String(self.as_str().to_owned())
    }

    fn deserialize(json: &Json) -> (result: Result<MarkupKind, CodecError>) {
        match json {
            Json::String(name) => match Self::from_name(name) {
                Some(variant) => Ok(variant),
                None => Err(CodecError::UnknownVariant),
            },
            _ => Err(CodecError::UnexpectedType),
        }
    }
}

/// A `MarkupContent` literal represents a string value which content is interpreted base on its
/// kind flag. Currently the protocol supports `plaintext` and `markdown` as markup kinds.
///
/// If the kind is `markdown` then the value can contain fenced code blocks like in GitHub issues.
/// See <https://help.github.com/articles/creating-and-highlighting-code-blocks/#syntax-highlighting>
///
/// Here is an example how such a string can be constructed using JavaScript / TypeScript:
/// ```ignore
/// let markdown: MarkupContent = {
///     kind: MarkupKind::Markdown,
///     value: [
///         "# Header",
///         "Some text",
///         "```typescript",
///         "someCode();",
///         "```"
///     ]
///     .join("\n"),
/// };
/// ```
///
/// Please Note* that clients might sanitize the return markdown. A client could decide to
/// remove HTML from the markdown to avoid script execution.
#[derive(Debug, PartialEq, Eq, Clone)]
pub struct MarkupContent {
    pub kind: MarkupKind,
    pub value: String,
}

/// What a [`MarkupContent`] stands for.
pub struct MarkupContentModel {
    pub kind: MarkupKind,
    pub value: Seq<char>,
}

impl DeepView for MarkupContent {
    type V = MarkupContentModel;

    open spec fn deep_view(&self) -> MarkupContentModel {
        MarkupContentModel {
            kind: self.kind.deep_view(),
            value: self.value.deep_view(),
        }
    }
}

impl Record for MarkupContent {
    open spec fn members(before: Seq<Member>, value: MarkupContentModel) -> Seq<Member> {
        before + field::<MarkupKind>("kind"@, value.kind)
            + field::<String>("value"@, value.value)
    }

    open spec fn read(members: Seq<Member>) -> Result<MarkupContentModel, CodecError> {
        let kind = required::<MarkupKind>(members, "kind"@);
        let value = required::<String>(members, "value"@);
        if kind is Err {
            Err(kind->Err_0)
        } else if value is Err {
            Err(value->Err_0)
        } else {
            Ok(
                MarkupContentModel {
                    kind: kind->Ok_0,
                    value: value->Ok_0,
                },
            )
        }
    }

    fn write(&self, members: &mut Vec<(String, Json)>) {
        put(members, "kind", &self.kind);
        put(members, "value", &self.value);
    }

    fn scan(members: &Vec<(String, Json)>) -> (result: Result<MarkupContent, CodecError>) {
        let kind = get::<MarkupKind>(members, "kind");
        let value = get::<String>(members, "value");
        if let Err(error) = kind {
            Err(error)
        } else if let Err(error) = value {
            Err(error)
        } else {
            Ok(
                MarkupContent {
                    kind: kind.unwrap(),
                    value: value.unwrap(),
                },
            )
        }
    }
}

impl MarkupContent {
    /// Every value comes back unchanged from the document that stands for it.
    pub proof fn lemma_survives(value: MarkupContentModel)
        ensures
            survives::<MarkupContent>(value),
    {
        broadcast use group_lookup;

        reveal(required);
        reveal_strlit("kind");
        reveal_strlit("value");
        MarkupKind::lemma_survives(value.kind);
    }
}

} // verus!
