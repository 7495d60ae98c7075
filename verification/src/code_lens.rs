//! Code lenses: commands shown along with source text.

use crate::basic::{
    Command, CommandModel, NumberOrString, Range, TextDocumentIdentifier,
    TextDocumentIdentifierModel,
};
use crate::codec::{
    Codec, CodecError, field, get, get_optional, group_lookup, Member, optional, optional_field,
    put, put_optional, Record, required, survives,
};
use crate::json::{Json, JsonValue};
use crate::progress::{
    PartialResultParams, PartialResultParamsModel, WorkDoneProgressParams,
    WorkDoneProgressParamsModel,
};
use vstd::prelude::*;

verus! {

#[derive(Debug, PartialEq, Eq, Clone)]
pub struct CodeLensParams {
    /// The document to request code lens for.
    pub text_document: TextDocumentIdentifier,
    /// Its members are written among those of this value.
    pub work_done_progress_params: WorkDoneProgressParams,
    /// Its members are written among those of this value.
    pub partial_result_params: PartialResultParams,
}

/// What a [`CodeLensParams`] stands for.
pub struct CodeLensParamsModel {
    pub text_document: TextDocumentIdentifierModel,
    pub work_done_progress_params: WorkDoneProgressParamsModel,
    pub partial_result_params: PartialResultParamsModel,
}

impl DeepView for CodeLensParams {
    type V = CodeLensParamsModel;

    open spec fn deep_view(&self) -> CodeLensParamsModel {
        CodeLensParamsModel {
            text_document: self.text_document.deep_view(),
            work_done_progress_params: self.work_done_progress_params.deep_view(),
            partial_result_params: self.partial_result_params.deep_view(),
        }
    }
}

impl Record for CodeLensParams {
    open spec fn members(before: Seq<Member>, value: CodeLensParamsModel) -> Seq<Member> {
        PartialResultParams::members(
            WorkDoneProgressParams::members(
                before + field::<TextDocumentIdentifier>("textDocument"@, value.text_document),
                value.work_done_progress_params,
            ),
            value.partial_result_params,
        )
    }

    open spec fn read(members: Seq<Member>) -> Result<CodeLensParamsModel, CodecError> {
        let text_document = required::<TextDocumentIdentifier>(members, "textDocument"@);
        let work_done_progress_params = WorkDoneProgressParams::read(members);
        let partial_result_params = PartialResultParams::read(members);
        if text_document is Err {
            Err(text_document->Err_0)
        } else if work_done_progress_params is Err {
            Err(work_done_progress_params->Err_0)
        } else if partial_result_params is Err {
            Err(partial_result_params->Err_0)
        } else {
            Ok(
                CodeLensParamsModel {
                    text_document: text_document->Ok_0,
                    work_done_progress_params: work_done_progress_params->Ok_0,
                    partial_result_params: partial_result_params->Ok_0,
                },
            )
        }
    }

    fn write(&self, members: &mut Vec<(String, Json)>) {
        put(members, "textDocument", &self.text_document);
        self.work_done_progress_params.write(members);
        self.partial_result_params.write(members);
    }

    fn scan(members: &Vec<(String, Json)>) -> (result: Result<CodeLensParams, CodecError>) {
        let text_document = get::<TextDocumentIdentifier>(members, "textDocument");
        let work_done_progress_params = WorkDoneProgressParams::scan(members);
        let partial_result_params = PartialResultParams::scan(members);
        if let Err(error) = text_document {
            Err(error)
        } else if let Err(error) = work_done_progress_params {
            Err(error)
        } else if let Err(error) = partial_result_params {
            Err(error)
        } else {
            Ok(
                CodeLensParams {
                    text_document: text_document.unwrap(),
                    work_done_progress_params: work_done_progress_params.unwrap(),
                    partial_result_params: partial_result_params.unwrap(),
                },
            )
        }
    }
}

impl CodeLensParams {
    /// A value comes back unchanged from the document that stands for it
    /// where its fields meet what is asked of them here.
    pub proof fn lemma_round_trip(value: CodeLensParamsModel)
        requires
            survives::<TextDocumentIdentifier>(value.text_document),
        ensures
            survives::<CodeLensParams>(value),
    {
        broadcast use group_lookup;

        reveal(required);
        reveal(optional);
        reveal_strlit("textDocument");
        reveal_strlit("workDoneToken");
        reveal_strlit("partialResultToken");
        if let Some(inner) = value.work_done_progress_params.work_done_token {
            NumberOrString::lemma_survives(inner);
        }
        if let Some(inner) = value.partial_result_params.partial_result_token {
            NumberOrString::lemma_survives(inner);
        }
    }
}

/// A code lens represents a command that should be shown along with
/// source text, like the number of references, a way to run tests, etc.
///
/// A code lens is _unresolved_ when no command is associated to it. For performance
/// reasons the creation of a code lens and resolving should be done in two stages.
#[derive(Debug, PartialEq, Clone)]
pub struct CodeLens {
    /// The range in which this code lens is valid. Should only span a single line.
    pub range: Range,
    /// The command this code lens represents.
    pub command: Option<Command>,
    /// A data entry field that is preserved on a code lens item between
    /// a code lens and a code lens resolve request.
    pub data: Option<Json>,
}

/// What a [`CodeLens`] stands for.
pub struct CodeLensModel {
    pub range: Range,
    pub command: Option<CommandModel>,
    pub data: Option<JsonValue>,
}

impl DeepView for CodeLens {
    type V = CodeLensModel;

    open spec fn deep_view(&self) -> CodeLensModel {
        CodeLensModel {
            range: self.range.deep_view(),
            command: self.command.deep_view(),
            data: self.data.deep_view(),
        }
    }
}

impl Record for CodeLens {
    open spec fn members(before: Seq<Member>, value: CodeLensModel) -> Seq<Member> {
        before + field::<Range>("range"@, value.range)
            + optional_field::<Command>("command"@, value.command)
            + optional_field::<Json>("data"@, value.data)
    }

    open spec fn read(members: Seq<Member>) -> Result<CodeLensModel, CodecError> {
        let range = required::<Range>(members, "range"@);
        let command = optional::<Command>(members, "command"@);
        let data = optional::<Json>(members, "data"@);
        if range is Err {
            Err(range->Err_0)
        } else if command is Err {
            Err(command->Err_0)
        } else if data is Err {
            Err(data->Err_0)
        } else {
            Ok(
                CodeLensModel {
                    range: range->Ok_0,
                    command: command->Ok_0,
                    data: data->Ok_0,
                },
            )
        }
    }

    fn write(&self, members: &mut Vec<(String, Json)>) {
        put(members, "range", &self.range);
        put_optional(members, "command", &self.command);
        put_optional(members, "data", &self.data);
    }

    fn scan(members: &Vec<(String, Json)>) -> (result: Result<CodeLens, CodecError>) {
        let range = get::<Range>(members, "range");
        let command = get_optional::<Command>(members, "command");
        let data = get_optional::<Json>(members, "data");
        if let Err(error) = range {
            Err(error)
        } else if let Err(error) = command {
            Err(error)
        } else if let Err(error) = data {
            Err(error)
        } else {
            Ok(
                CodeLens {
                    range: range.unwrap(),
                    command: command.unwrap(),
                    data: data.unwrap(),
                },
            )
        }
    }
}

impl CodeLens {
    /// A value comes back unchanged from the document that stands for it
    /// where its fields meet what is asked of them here.
    pub proof fn lemma_round_trip(value: CodeLensModel)
        requires
            value.data != Some(JsonValue::Null),
        ensures
            survives::<CodeLens>(value),
    {
        broadcast use group_lookup;

        reveal(required);
        reveal(optional);
        reveal_strlit("range");
        reveal_strlit("command");
        reveal_strlit("data");
        Range::lemma_survives(value.range);
        if let Some(inner) = value.command {
            Command::lemma_survives(inner);
        }
    }
}

#[derive(Debug, PartialEq, Eq, Structural, Clone)]
pub struct CodeLensWorkspaceClientCapabilities {
    /// Whether the client implementation supports a refresh request send from the server
    /// to the client. This is useful if a server detects a change which requires a
    /// re-calculation of all code lenses.
    pub refresh_support: Option<bool>,
}

impl DeepView for CodeLensWorkspaceClientCapabilities {
    type V = CodeLensWorkspaceClientCapabilities;

    open spec fn deep_view(&self) -> CodeLensWorkspaceClientCapabilities {
        CodeLensWorkspaceClientCapabilities {
            refresh_support: self.refresh_support.deep_view(),
        }
    }
}

impl Record for CodeLensWorkspaceClientCapabilities {
    open spec fn members(before: Seq<Member>, value: CodeLensWorkspaceClientCapabilities) -> Seq<Member> {
        before + optional_field::<bool>("refreshSupport"@, value.refresh_support)
    }

    open spec fn read(members: Seq<Member>) -> Result<CodeLensWorkspaceClientCapabilities, CodecError> {
        let refresh_support = optional::<bool>(members, "refreshSupport"@);
        if refresh_support is Err {
            Err(refresh_support->Err_0)
        } else {
            Ok(
                CodeLensWorkspaceClientCapabilities {
                    refresh_support: refresh_support->Ok_0,
                },
            )
        }
    }

    fn write(&self, members: &mut Vec<(String, Json)>) {
        put_optional(members, "refreshSupport", &self.refresh_support);
    }

    fn scan(members: &Vec<(String, Json)>) -> (result: Result<CodeLensWorkspaceClientCapabilities, CodecError>) {
        let refresh_support = get_optional::<bool>(members, "refreshSupport");
        if let Err(error) = refresh_support {
            Err(error)
        } else {
            Ok(
                CodeLensWorkspaceClientCapabilities {
                    refresh_support: refresh_support.unwrap(),
                },
            )
        }
    }
}

impl CodeLensWorkspaceClientCapabilities {
    /// Every value comes back unchanged from the document that stands for it.
    pub proof fn lemma_survives(value: CodeLensWorkspaceClientCapabilities)
        ensures
            survives::<CodeLensWorkspaceClientCapabilities>(value),
    {
        broadcast use group_lookup;

        reveal(optional);
        reveal_strlit("refreshSupport");
    }
}

} // verus!
