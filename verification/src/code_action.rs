//! Code actions: changes that a server offers for a range of a document.

use crate::basic::{
    Command, CommandModel, NumberOrString, Range, TextDocumentIdentifier,
    TextDocumentIdentifierModel,
};
use crate::codec::{
    Codec, CodecError, field, get, get_optional, group_lookup, lemma_sequence_round_trip, Member,
    optional, optional_field, put, put_optional, Record, required, survives,
};
use crate::diagnostic::{Diagnostic, DiagnosticModel};
use crate::json::{Json, JsonValue};
use crate::progress::{
    PartialResultParams, PartialResultParamsModel, WorkDoneProgressOptions, WorkDoneProgressParams,
    WorkDoneProgressParamsModel,
};
use crate::workspace_edit::{WorkspaceEdit, WorkspaceEditModel};
use std::borrow::Cow;
use vstd::prelude::*;
use vstd::std_specs::convert::FromSpecImpl;

verus! {

/// Params for the CodeActionRequest
#[derive(Debug, PartialEq, Eq, Clone)]
pub struct CodeActionParams {
    /// The document in which the command was invoked.
    pub text_document: TextDocumentIdentifier,
    /// The range for which the command was invoked.
    pub range: Range,
    /// Context carrying additional information.
    pub context: CodeActionContext,
    /// Its members are written among those of this value.
    pub work_done_progress_params: WorkDoneProgressParams,
    /// Its members are written among those of this value.
    pub partial_result_params: PartialResultParams,
}

/// What a [`CodeActionParams`] stands for.
pub struct CodeActionParamsModel {
    pub text_document: TextDocumentIdentifierModel,
    pub range: Range,
    pub context: CodeActionContextModel,
    pub work_done_progress_params: WorkDoneProgressParamsModel,
    pub partial_result_params: PartialResultParamsModel,
}

impl DeepView for CodeActionParams {
    type V = CodeActionParamsModel;

    open spec fn deep_view(&self) -> CodeActionParamsModel {
        CodeActionParamsModel {
            text_document: self.text_document.deep_view(),
            range: self.range.deep_view(),
            context: self.context.deep_view(),
            work_done_progress_params: self.work_done_progress_params.deep_view(),
            partial_result_params: self.partial_result_params.deep_view(),
        }
    }
}

impl Record for CodeActionParams {
    open spec fn members(before: Seq<Member>, value: CodeActionParamsModel) -> Seq<Member> {
        PartialResultParams::members(
            WorkDoneProgressParams::members(
                before + field::<TextDocumentIdentifier>("textDocument"@, value.text_document)
                    + field::<Range>("range"@, value.range)
                    + field::<CodeActionContext>("context"@, value.context),
                value.work_done_progress_params,
            ),
            value.partial_result_params,
        )
    }

    open spec fn read(members: Seq<Member>) -> Result<CodeActionParamsModel, CodecError> {
        let text_document = required::<TextDocumentIdentifier>(members, "textDocument"@);
        let range = required::<Range>(members, "range"@);
        let context = required::<CodeActionContext>(members, "context"@);
        let work_done_progress_params = WorkDoneProgressParams::read(members);
        let partial_result_params = PartialResultParams::read(members);
        if text_document is Err {
            Err(text_document->Err_0)
        } else if range is Err {
            Err(range->Err_0)
        } else if context is Err {
            Err(context->Err_0)
        } else if work_done_progress_params is Err {
            Err(work_done_progress_params->Err_0)
        } else if partial_result_params is Err {
            Err(partial_result_params->Err_0)
        } else {
            Ok(
                CodeActionParamsModel {
                    text_document: text_document->Ok_0,
                    range: range->Ok_0,
                    context: context->Ok_0,
                    work_done_progress_params: work_done_progress_params->Ok_0,
                    partial_result_params: partial_result_params->Ok_0,
                },
            )
        }
    }

    fn write(&self, members: &mut Vec<(String, Json)>) {
        put(members, "textDocument", &self.text_document);
        put(members, "range", &self.range);
        put(members, "context", &self.context);
        self.work_done_progress_params.write(members);
        self.partial_result_params.write(members);
    }

    fn scan(members: &Vec<(String, Json)>) -> (result: Result<CodeActionParams, CodecError>) {
        let text_document = get::<TextDocumentIdentifier>(members, "textDocument");
        let range = get::<Range>(members, "range");
        let context = get::<CodeActionContext>(members, "context");
        let work_done_progress_params = WorkDoneProgressParams::scan(members);
        let partial_result_params = PartialResultParams::scan(members);
        if let Err(error) = text_document {
            Err(error)
        } else if let Err(error) = range {
            Err(error)
        } else if let Err(error) = context {
            Err(error)
        } else if let Err(error) = work_done_progress_params {
            Err(error)
        } else if let Err(error) = partial_result_params {
            Err(error)
        } else {
            Ok(
                CodeActionParams {
                    text_document: text_document.unwrap(),
                    range: range.unwrap(),
                    context: context.unwrap(),
                    work_done_progress_params: work_done_progress_params.unwrap(),
                    partial_result_params: partial_result_params.unwrap(),
                },
            )
        }
    }
}

impl CodeActionParams {
    /// A value comes back unchanged from the document that stands for it
    /// where its fields meet what is asked of them here.
    pub proof fn lemma_round_trip(value: CodeActionParamsModel)
        requires
            survives::<TextDocumentIdentifier>(value.text_document),
            survives::<CodeActionContext>(value.context),
        ensures
            survives::<CodeActionParams>(value),
    {
        broadcast use group_lookup;

        reveal(required);
        reveal(optional);
        reveal_strlit("textDocument");
        reveal_strlit("range");
        reveal_strlit("context");
        reveal_strlit("workDoneToken");
        reveal_strlit("partialResultToken");
        Range::lemma_survives(value.range);
        if let Some(inner) = value.work_done_progress_params.work_done_token {
            NumberOrString::lemma_survives(inner);
        }
        if let Some(inner) = value.partial_result_params.partial_result_token {
            NumberOrString::lemma_survives(inner);
        }
    }
}

#[derive(Debug, PartialEq, Clone)]
pub enum CodeActionOrCommand {
    Command(Command),
    CodeAction(CodeAction),
}

/// What a [`CodeActionOrCommand`] stands for.
pub enum CodeActionOrCommandModel {
    Command(CommandModel),
    CodeAction(CodeActionModel),
}

impl DeepView for CodeActionOrCommand {
    type V = CodeActionOrCommandModel;

    open spec fn deep_view(&self) -> CodeActionOrCommandModel {
        match self {
            CodeActionOrCommand::Command(value) => CodeActionOrCommandModel::Command(value.deep_view()),
            CodeActionOrCommand::CodeAction(value) => CodeActionOrCommandModel::CodeAction(value.deep_view()),
        }
    }
}

impl Codec for CodeActionOrCommand {
    open spec fn encode(value: CodeActionOrCommandModel) -> JsonValue {
        match value {
            CodeActionOrCommandModel::Command(value) => Command::encode(value),
            CodeActionOrCommandModel::CodeAction(value) => CodeAction::encode(value),
        }
    }

    open spec fn decode(json: JsonValue) -> Result<CodeActionOrCommandModel, CodecError> {
        if let Ok(value) = Command::decode(json) {
            Ok(CodeActionOrCommandModel::Command(value))
        } else if let Ok(value) = CodeAction::decode(json) {
            Ok(CodeActionOrCommandModel::CodeAction(value))
        } else {
            Err(CodecError::NoVariantMatched)
        }
    }

    fn serialize(&self) -> (json: Json) {
        match self {
            CodeActionOrCommand::Command(value) => value.serialize(),
            CodeActionOrCommand::CodeAction(value) => value.serialize(),
        }
    }

    fn deserialize(json: &Json) -> (result: Result<CodeActionOrCommand, CodecError>) {
        if let Ok(value) = Command::deserialize(json) {
            Ok(CodeActionOrCommand::Command(value))
        } else if let Ok(value) = CodeAction::deserialize(json) {
            Ok(CodeActionOrCommand::CodeAction(value))
        } else {
            Err(CodecError::NoVariantMatched)
        }
    }
}

impl CodeActionOrCommand {
    /// A value comes back unchanged from its document exactly when its
    /// payload does and no variant declared before its own reads the
    /// payload's document.
    pub proof fn lemma_round_trip(value: CodeActionOrCommandModel)
        ensures
            survives::<CodeActionOrCommand>(value) <==> match value {
                CodeActionOrCommandModel::Command(v) => survives::<Command>(v),
                CodeActionOrCommandModel::CodeAction(v) => Command::decode(CodeAction::encode(v)) is Err
                    && survives::<CodeAction>(v),
            },
    {
    }
}

impl From<Command> for CodeActionOrCommand {
    fn from(comand: Command) -> (result: CodeActionOrCommand) {
        CodeActionOrCommand::Command(comand)
    }
}

impl FromSpecImpl<Command> for CodeActionOrCommand {
    open spec fn obeys_from_spec() -> bool {
        true
    }

    open spec fn from_spec(comand: Command) -> CodeActionOrCommand {
        CodeActionOrCommand::Command(comand)
    }
}

impl From<CodeAction> for CodeActionOrCommand {
    fn from(action: CodeAction) -> (result: CodeActionOrCommand) {
        CodeActionOrCommand::CodeAction(action)
    }
}

impl FromSpecImpl<CodeAction> for CodeActionOrCommand {
    open spec fn obeys_from_spec() -> bool {
        true
    }

    open spec fn from_spec(action: CodeAction) -> CodeActionOrCommand {
        CodeActionOrCommand::CodeAction(action)
    }
}

#[derive(Debug, PartialEq, Clone, Default)]
pub struct CodeAction {
    /// A short, human-readable, title for this code action.
    pub title: String,
    /// The kind of the code action.
    /// Used to filter code actions.
    pub kind: Option<CodeActionKind>,
    /// The diagnostics that this code action resolves.
    pub diagnostics: Option<Vec<Diagnostic>>,
    /// The workspace edit this code action performs.
    pub edit: Option<WorkspaceEdit>,
    /// A command this code action executes. If a code action
    /// provides an edit and a command, first the edit is
    /// executed and then the command.
    pub command: Option<Command>,
    /// Marks this as a preferred action. Preferred actions are used by the `auto fix` command and can be targeted
    /// by keybindings.
    /// A quick fix should be marked preferred if it properly addresses the underlying error.
    /// A refactoring should be marked preferred if it is the most reasonable choice of actions to take.
    pub is_preferred: Option<bool>,
}

/// What a [`CodeAction`] stands for.
pub struct CodeActionModel {
    pub title: Seq<char>,
    pub kind: Option<Seq<char>>,
    pub diagnostics: Option<Seq<DiagnosticModel>>,
    pub edit: Option<WorkspaceEditModel>,
    pub command: Option<CommandModel>,
    pub is_preferred: Option<bool>,
}

impl DeepView for CodeAction {
    type V = CodeActionModel;

    open spec fn deep_view(&self) -> CodeActionModel {
        CodeActionModel {
            title: self.title.deep_view(),
            kind: self.kind.deep_view(),
            diagnostics: self.diagnostics.deep_view(),
            edit: self.edit.deep_view(),
            command: self.command.deep_view(),
            is_preferred: self.is_preferred.deep_view(),
        }
    }
}

impl Record for CodeAction {
    open spec fn members(before: Seq<Member>, value: CodeActionModel) -> Seq<Member> {
        before + field::<String>("title"@, value.title)
            + optional_field::<CodeActionKind>("kind"@, value.kind)
            + optional_field::<Vec<Diagnostic>>("diagnostics"@, value.diagnostics)
            + optional_field::<WorkspaceEdit>("edit"@, value.edit)
            + optional_field::<Command>("command"@, value.command)
            + optional_field::<bool>("isPreferred"@, value.is_preferred)
    }

    open spec fn read(members: Seq<Member>) -> Result<CodeActionModel, CodecError> {
        let title = required::<String>(members, "title"@);
        let kind = optional::<CodeActionKind>(members, "kind"@);
        let diagnostics = optional::<Vec<Diagnostic>>(members, "diagnostics"@);
        let edit = optional::<WorkspaceEdit>(members, "edit"@);
        let command = optional::<Command>(members, "command"@);
        let is_preferred = optional::<bool>(members, "isPreferred"@);
        if title is Err {
            Err(title->Err_0)
        } else if kind is Err {
            Err(kind->Err_0)
        } else if diagnostics is Err {
            Err(diagnostics->Err_0)
        } else if edit is Err {
            Err(edit->Err_0)
        } else if command is Err {
            Err(command->Err_0)
        } else if is_preferred is Err {
            Err(is_preferred->Err_0)
        } else {
            Ok(
                CodeActionModel {
                    title: title->Ok_0,
                    kind: kind->Ok_0,
                    diagnostics: diagnostics->Ok_0,
                    edit: edit->Ok_0,
                    command: command->Ok_0,
                    is_preferred: is_preferred->Ok_0,
                },
            )
        }
    }

    fn write(&self, members: &mut Vec<(String, Json)>) {
        put(members, "title", &self.title);
        put_optional(members, "kind", &self.kind);
        put_optional(members, "diagnostics", &self.diagnostics);
        put_optional(members, "edit", &self.edit);
        put_optional(members, "command", &self.command);
        put_optional(members, "isPreferred", &self.is_preferred);
    }

    fn scan(members: &Vec<(String, Json)>) -> (result: Result<CodeAction, CodecError>) {
        let title = get::<String>(members, "title");
        let kind = get_optional::<CodeActionKind>(members, "kind");
        let diagnostics = get_optional::<Vec<Diagnostic>>(members, "diagnostics");
        let edit = get_optional::<WorkspaceEdit>(members, "edit");
        let command = get_optional::<Command>(members, "command");
        let is_preferred = get_optional::<bool>(members, "isPreferred");
        if let Err(error) = title {
            Err(error)
        } else if let Err(error) = kind {
            Err(error)
        } else if let Err(error) = diagnostics {
            Err(error)
        } else if let Err(error) = edit {
            Err(error)
        } else if let Err(error) = command {
            Err(error)
        } else if let Err(error) = is_preferred {
            Err(error)
        } else {
            Ok(
                CodeAction {
                    title: title.unwrap(),
                    kind: kind.unwrap(),
                    diagnostics: diagnostics.unwrap(),
                    edit: edit.unwrap(),
                    command: command.unwrap(),
                    is_preferred: is_preferred.unwrap(),
                },
            )
        }
    }
}

impl CodeAction {
    /// A value comes back unchanged from the document that stands for it
    /// where its fields meet what is asked of them here.
    pub proof fn lemma_round_trip(value: CodeActionModel)
        requires
            value.diagnostics matches Some(v) ==> survives::<Vec<Diagnostic>>(v),
            value.edit matches Some(v) ==> survives::<WorkspaceEdit>(v),
        ensures
            survives::<CodeAction>(value),
    {
        broadcast use group_lookup;

        reveal(required);
        reveal(optional);
        reveal_strlit("title");
        reveal_strlit("kind");
        reveal_strlit("diagnostics");
        reveal_strlit("edit");
        reveal_strlit("command");
        reveal_strlit("isPreferred");
        if let Some(inner) = value.kind {
            CodeActionKind::lemma_survives(inner);
        }
        if let Some(inner) = value.command {
            Command::lemma_survives(inner);
        }
    }
}

/// Contains additional diagnostic information about the context in which
/// a code action is run.
#[derive(Debug, PartialEq, Eq, Clone, Default)]
pub struct CodeActionContext {
    /// An array of diagnostics.
    pub diagnostics: Vec<Diagnostic>,
    /// Requested kind of actions to return.
    ///
    /// Actions not of this kind are filtered out by the client before being shown. So servers
    /// can omit computing them.
    pub only: Option<Vec<CodeActionKind>>,
}

/// What a [`CodeActionContext`] stands for.
pub struct CodeActionContextModel {
    pub diagnostics: Seq<DiagnosticModel>,
    pub only: Option<Seq<Seq<char>>>,
}

impl DeepView for CodeActionContext {
    type V = CodeActionContextModel;

    open spec fn deep_view(&self) -> CodeActionContextModel {
        CodeActionContextModel {
            diagnostics: self.diagnostics.deep_view(),
            only: self.only.deep_view(),
        }
    }
}

impl Record for CodeActionContext {
    open spec fn members(before: Seq<Member>, value: CodeActionContextModel) -> Seq<Member> {
        before + field::<Vec<Diagnostic>>("diagnostics"@, value.diagnostics)
            + optional_field::<Vec<CodeActionKind>>("only"@, value.only)
    }

    open spec fn read(members: Seq<Member>) -> Result<CodeActionContextModel, CodecError> {
        let diagnostics = required::<Vec<Diagnostic>>(members, "diagnostics"@);
        let only = optional::<Vec<CodeActionKind>>(members, "only"@);
        if diagnostics is Err {
            Err(diagnostics->Err_0)
        } else if only is Err {
            Err(only->Err_0)
        } else {
            Ok(
                CodeActionContextModel {
                    diagnostics: diagnostics->Ok_0,
                    only: only->Ok_0,
                },
            )
        }
    }

    fn write(&self, members: &mut Vec<(String, Json)>) {
        put(members, "diagnostics", &self.diagnostics);
        put_optional(members, "only", &self.only);
    }

    fn scan(members: &Vec<(String, Json)>) -> (result: Result<CodeActionContext, CodecError>) {
        let diagnostics = get::<Vec<Diagnostic>>(members, "diagnostics");
        let only = get_optional::<Vec<CodeActionKind>>(members, "only");
        if let Err(error) = diagnostics {
            Err(error)
        } else if let Err(error) = only {
            Err(error)
        } else {
            Ok(
                CodeActionContext {
                    diagnostics: diagnostics.unwrap(),
                    only: only.unwrap(),
                },
            )
        }
    }
}

impl CodeActionContext {
    /// A value comes back unchanged from the document that stands for it
    /// where its fields meet what is asked of them here.
    pub proof fn lemma_round_trip(value: CodeActionContextModel)
        requires
            survives::<Vec<Diagnostic>>(value.diagnostics),
        ensures
            survives::<CodeActionContext>(value),
    {
        broadcast use group_lookup;

        reveal(required);
        reveal(optional);
        reveal_strlit("diagnostics");
        reveal_strlit("only");
        if let Some(inner) = value.only {
            assert forall|i: int| 0 <= i < inner.len() implies survives::<CodeActionKind>(
                #[trigger] inner[i],
            ) by {
                CodeActionKind::lemma_survives(inner[i]);
            }
            lemma_sequence_round_trip::<CodeActionKind>(inner);
        }
    }
}

#[derive(Debug, PartialEq, Eq, Clone)]
pub struct CodeActionOptions {
    /// CodeActionKinds that this server may return.
    ///
    /// The list of kinds may be generic, such as `CodeActionKind.Refactor`, or the server
    /// may list out every specific kind they provide.
    pub code_action_kinds: Option<Vec<CodeActionKind>>,
    /// Its members are written among those of this value.
    pub work_done_progress_options: WorkDoneProgressOptions,
}

/// What a [`CodeActionOptions`] stands for.
pub struct CodeActionOptionsModel {
    pub code_action_kinds: Option<Seq<Seq<char>>>,
    pub work_done_progress_options: WorkDoneProgressOptions,
}

impl DeepView for CodeActionOptions {
    type V = CodeActionOptionsModel;

    open spec fn deep_view(&self) -> CodeActionOptionsModel {
        CodeActionOptionsModel {
            code_action_kinds: self.code_action_kinds.deep_view(),
            work_done_progress_options: self.work_done_progress_options.deep_view(),
        }
    }
}

impl Record for CodeActionOptions {
    open spec fn members(before: Seq<Member>, value: CodeActionOptionsModel) -> Seq<Member> {
        WorkDoneProgressOptions::members(
            before
                + optional_field::<Vec<CodeActionKind>>("codeActionKinds"@, value.code_action_kinds),
            value.work_done_progress_options,
        )
    }

    open spec fn read(members: Seq<Member>) -> Result<CodeActionOptionsModel, CodecError> {
        let code_action_kinds = optional::<Vec<CodeActionKind>>(members, "codeActionKinds"@);
        let work_done_progress_options = WorkDoneProgressOptions::read(members);
        if code_action_kinds is Err {
            Err(code_action_kinds->Err_0)
        } else if work_done_progress_options is Err {
            Err(work_done_progress_options->Err_0)
        } else {
            Ok(
                CodeActionOptionsModel {
                    code_action_kinds: code_action_kinds->Ok_0,
                    work_done_progress_options: work_done_progress_options->Ok_0,
                },
            )
        }
    }

    fn write(&self, members: &mut Vec<(String, Json)>) {
        put_optional(members, "codeActionKinds", &self.code_action_kinds);
        self.work_done_progress_options.write(members);
    }

    fn scan(members: &Vec<(String, Json)>) -> (result: Result<CodeActionOptions, CodecError>) {
        let code_action_kinds = get_optional::<Vec<CodeActionKind>>(members, "codeActionKinds");
        let work_done_progress_options = WorkDoneProgressOptions::scan(members);
        if let Err(error) = code_action_kinds {
            Err(error)
        } else if let Err(error) = work_done_progress_options {
            Err(error)
        } else {
            Ok(
                CodeActionOptions {
                    code_action_kinds: code_action_kinds.unwrap(),
                    work_done_progress_options: work_done_progress_options.unwrap(),
                },
            )
        }
    }
}

impl CodeActionOptions {
    /// Every value comes back unchanged from the document that stands for it.
    pub proof fn lemma_survives(value: CodeActionOptionsModel)
        ensures
            survives::<CodeActionOptions>(value),
    {
        broadcast use group_lookup;

        reveal(optional);
        reveal_strlit("codeActionKinds");
        reveal_strlit("workDoneProgress");
        if let Some(inner) = value.code_action_kinds {
            assert forall|i: int| 0 <= i < inner.len() implies survives::<CodeActionKind>(
                #[trigger] inner[i],
            ) by {
                CodeActionKind::lemma_survives(inner[i]);
            }
            lemma_sequence_round_trip::<CodeActionKind>(inner);
        }
    }
}

/// The kind of a code action: a hierarchy of names separated by `.`, such as
/// `refactor.extract`.
#[derive(Debug, PartialEq, Eq, Hash, PartialOrd)]
pub struct CodeActionKind(Cow<'static, str>);

impl Clone for CodeActionKind {
    fn clone(&self) -> (copy: CodeActionKind)
        ensures
            copy.deep_view() == self.deep_view(),
    {
        match &self.0 {
            Cow::Borrowed(name) => CodeActionKind(Cow::Borrowed(name)),
            Cow::Owned(name) => CodeActionKind(Cow::Owned(name.clone())),
        }
    }
}

impl DeepView for CodeActionKind {
    type V = Seq<char>;

    closed spec fn deep_view(&self) -> Seq<char> {
        self.0.deep_view()
    }
}

impl CodeActionKind {
    /// Empty kind.
    #[allow(non_snake_case)]
    pub fn EMPTY() -> (kind: CodeActionKind)
        ensures
            kind.deep_view() == ""@,
    {
        CodeActionKind::new("")
    }

    /// Base kind for quickfix actions: 'quickfix'
    #[allow(non_snake_case)]
    pub fn QUICKFIX() -> (kind: CodeActionKind)
        ensures
            kind.deep_view() == "quickfix"@,
    {
        CodeActionKind::new("quickfix")
    }

    /// Base kind for refactoring actions: 'refactor'
    #[allow(non_snake_case)]
    pub fn REFACTOR() -> (kind: CodeActionKind)
        ensures
            kind.deep_view() == "refactor"@,
    {
        CodeActionKind::new("refactor")
    }

    /// Base kind for refactoring extraction actions: 'refactor.extract'
    ///
    /// Example extract actions:
    ///
    /// - Extract method
    /// - Extract function
    /// - Extract variable
    /// - Extract interface from class
    /// - ...
    #[allow(non_snake_case)]
    pub fn REFACTOR_EXTRACT() -> (kind: CodeActionKind)
        ensures
            kind.deep_view() == "refactor.extract"@,
    {
        CodeActionKind::new("refactor.extract")
    }

    /// Base kind for refactoring inline actions: 'refactor.inline'
    ///
    /// Example inline actions:
    ///
    /// - Inline function
    /// - Inline variable
    /// - Inline constant
    /// - ...
    #[allow(non_snake_case)]
    pub fn REFACTOR_INLINE() -> (kind: CodeActionKind)
        ensures
            kind.deep_view() == "refactor.inline"@,
    {
        CodeActionKind::new("refactor.inline")
    }

    /// Base kind for refactoring rewrite actions: 'refactor.rewrite'
    ///
    /// Example rewrite actions:
    ///
    /// - Convert JavaScript function to class
    /// - Add or remove parameter
    /// - Encapsulate field
    /// - Make method static
    /// - Move method to base class
    /// - ...
    #[allow(non_snake_case)]
    pub fn REFACTOR_REWRITE() -> (kind: CodeActionKind)
        ensures
            kind.deep_view() == "refactor.rewrite"@,
    {
        CodeActionKind::new("refactor.rewrite")
    }

    /// Base kind for source actions: `source`
    ///
    /// Source code actions apply to the entire file.
    #[allow(non_snake_case)]
    pub fn SOURCE() -> (kind: CodeActionKind)
        ensures
            kind.deep_view() == "source"@,
    {
        CodeActionKind::new("source")
    }

    /// Base kind for an organize imports source action: `source.organizeImports`
    #[allow(non_snake_case)]
    pub fn SOURCE_ORGANIZE_IMPORTS() -> (kind: CodeActionKind)
        ensures
            kind.deep_view() == "source.organizeImports"@,
    {
        CodeActionKind::new("source.organizeImports")
    }

    /// The code action kind with the given name.
    pub fn new(tag: &'static str) -> (kind: CodeActionKind)
        ensures
            kind.deep_view() == tag@,
    {
        CodeActionKind(Cow::Borrowed(tag))
    }

    /// The name of this code action kind.
    pub fn as_str(&self) -> (name: &str)
        ensures
            name@ == self.deep_view(),
    {
        match &self.0 {
            Cow::Borrowed(name) => name,
            Cow::Owned(name) => name.as_str(),
        }
    }

    /// Every name comes back unchanged from the string that stands for it.
    pub proof fn lemma_survives(value: Seq<char>)
        ensures
            survives::<CodeActionKind>(value),
    {
    }
}

impl From<String> for CodeActionKind {
    fn from(from: String) -> (kind: CodeActionKind) {
        CodeActionKind(Cow::Owned(from))
    }
}

impl FromSpecImpl<String> for CodeActionKind {
    open spec fn obeys_from_spec() -> bool {
        true
    }

    closed spec fn from_spec(from: String) -> CodeActionKind {
        CodeActionKind(Cow::Owned(from))
    }
}

impl From<&'static str> for CodeActionKind {
    fn from(from: &'static str) -> (kind: CodeActionKind) {
        CodeActionKind(Cow::Borrowed(from))
    }
}

impl FromSpecImpl<&'static str> for CodeActionKind {
    open spec fn obeys_from_spec() -> bool {
        true
    }

    closed spec fn from_spec(from: &'static str) -> CodeActionKind {
        CodeActionKind(Cow::Borrowed(from))
    }
}

impl Codec for CodeActionKind {
    open spec fn encode(value: Seq<char>) -> JsonValue {
        JsonValue::String(value)
    }

    open spec fn decode(json: JsonValue) -> Result<Seq<char>, CodecError> {
        match json {
            JsonValue::String(name) => Ok(name),
            _ => Err(CodecError::UnexpectedType),
        }
    }

    fn serialize(&self) -> (json: Json) {
        Json::String(self.as_str().to_owned())
    }

    fn deserialize(json: &Json) -> (result: Result<CodeActionKind, CodecError>) {
        match json {
            Json::String(name) => Ok(CodeActionKind(Cow::Owned(name.clone()))),
            _ => Err(CodecError::UnexpectedType),
        }
    }
}

} // verus!
