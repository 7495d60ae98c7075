//! What a client can do, as it tells the server on initialization.

use crate::basic::{
    DocumentFilter, MarkupKind, NumberOrString, Position, TextDocumentIdentifier,
    TextDocumentPositionParams, TextDocumentPositionParamsModel,
};
use crate::codec::{
    Codec, CodecError, field, get, get_optional, group_lookup, lemma_sequence_round_trip, Member,
    nullable_field, optional, optional_field, put, put_nullable, put_optional, Record, required,
    survives,
};
use crate::completion::{CompletionCapability, CompletionCapabilityModel};
use crate::diagnostic::{PublishDiagnosticsCapability, PublishDiagnosticsCapabilityModel};
use crate::json::{Json, JsonValue};
use crate::progress::{
    PartialResultParams, PartialResultParamsModel, WorkDoneProgressOptions, WorkDoneProgressParams,
    WorkDoneProgressParamsModel,
};
use crate::registration::{
    StaticRegistrationOptions, StaticRegistrationOptionsModel, TextDocumentRegistrationOptions,
    TextDocumentRegistrationOptionsModel,
};
use crate::semantic_highlighting::SemanticHighlightingClientCapability;
use crate::semantic_tokens::{
    SemanticTokensClientCapabilities, SemanticTokensClientCapabilitiesModel,
};
use crate::symbols::{SymbolKind, SymbolTag};
use crate::tag_support::{
    compat, get_compat, lemma_tag_support_round_trip, TagSupport, TagSupportModel,
};
use crate::workspace_edit::{WorkspaceEditCapability, WorkspaceEditCapabilityModel};
use vstd::prelude::*;

verus! {

#[derive(Debug, PartialEq, Eq, Clone)]
pub struct GenericRegistrationOptions {
    /// Its members are written among those of this value.
    pub text_document_registration_options: TextDocumentRegistrationOptions,
    /// Its members are written among those of this value.
    pub options: GenericOptions,
    /// Its members are written among those of this value.
    pub static_registration_options: StaticRegistrationOptions,
}

/// What a [`GenericRegistrationOptions`] stands for.
pub struct GenericRegistrationOptionsModel {
    pub text_document_registration_options: TextDocumentRegistrationOptionsModel,
    pub options: GenericOptions,
    pub static_registration_options: StaticRegistrationOptionsModel,
}

impl DeepView for GenericRegistrationOptions {
    type V = GenericRegistrationOptionsModel;

    open spec fn deep_view(&self) -> GenericRegistrationOptionsModel {
        GenericRegistrationOptionsModel {
            text_document_registration_options: self.text_document_registration_options.deep_view(),
            options: self.options.deep_view(),
            static_registration_options: self.static_registration_options.deep_view(),
        }
    }
}

impl Record for GenericRegistrationOptions {
    open spec fn members(before: Seq<Member>, value: GenericRegistrationOptionsModel) -> Seq<Member> {
        StaticRegistrationOptions::members(
            GenericOptions::members(
                TextDocumentRegistrationOptions::members(
                    before,
                    value.text_document_registration_options,
                ),
                value.options,
            ),
            value.static_registration_options,
        )
    }

    open spec fn read(members: Seq<Member>) -> Result<GenericRegistrationOptionsModel, CodecError> {
        let text_document_registration_options = TextDocumentRegistrationOptions::read(members);
        let options = GenericOptions::read(members);
        let static_registration_options = StaticRegistrationOptions::read(members);
        if text_document_registration_options is Err {
            Err(text_document_registration_options->Err_0)
        } else if options is Err {
            Err(options->Err_0)
        } else if static_registration_options is Err {
            Err(static_registration_options->Err_0)
        } else {
            Ok(
                GenericRegistrationOptionsModel {
                    text_document_registration_options: text_document_registration_options->Ok_0,
                    options: options->Ok_0,
                    static_registration_options: static_registration_options->Ok_0,
                },
            )
        }
    }

    fn write(&self, members: &mut Vec<(String, Json)>) {
        self.text_document_registration_options.write(members);
        self.options.write(members);
        self.static_registration_options.write(members);
    }

    fn scan(members: &Vec<(String, Json)>) -> (result: Result<GenericRegistrationOptions, CodecError>) {
        let text_document_registration_options = TextDocumentRegistrationOptions::scan(members);
        let options = GenericOptions::scan(members);
        let static_registration_options = StaticRegistrationOptions::scan(members);
        if let Err(error) = text_document_registration_options {
            Err(error)
        } else if let Err(error) = options {
            Err(error)
        } else if let Err(error) = static_registration_options {
            Err(error)
        } else {
            Ok(
                GenericRegistrationOptions {
                    text_document_registration_options: text_document_registration_options.unwrap(),
                    options: options.unwrap(),
                    static_registration_options: static_registration_options.unwrap(),
                },
            )
        }
    }
}

impl GenericRegistrationOptions {
    /// Every value comes back unchanged from the document that stands for it.
    pub proof fn lemma_survives(value: GenericRegistrationOptionsModel)
        ensures
            survives::<GenericRegistrationOptions>(value),
    {
        broadcast use group_lookup;

        reveal(optional);
        reveal_strlit("documentSelector");
        reveal_strlit("workDoneProgress");
        reveal_strlit("id");
        if let Some(inner) = value.text_document_registration_options.document_selector {
            assert forall|i: int| 0 <= i < inner.len() implies survives::<DocumentFilter>(
                #[trigger] inner[i],
            ) by {
                DocumentFilter::lemma_survives(inner[i]);
            }
            lemma_sequence_round_trip::<DocumentFilter>(inner);
        }
    }
}

#[derive(Debug, PartialEq, Eq, Structural, Clone)]
pub struct GenericOptions {
    /// Its members are written among those of this value.
    pub work_done_progress_options: WorkDoneProgressOptions,
}

impl DeepView for GenericOptions {
    type V = GenericOptions;

    open spec fn deep_view(&self) -> GenericOptions {
        GenericOptions {
            work_done_progress_options: self.work_done_progress_options.deep_view(),
        }
    }
}

impl Record for GenericOptions {
    open spec fn members(before: Seq<Member>, value: GenericOptions) -> Seq<Member> {
        WorkDoneProgressOptions::members(before, value.work_done_progress_options)
    }

    open spec fn read(members: Seq<Member>) -> Result<GenericOptions, CodecError> {
        let work_done_progress_options = WorkDoneProgressOptions::read(members);
        if work_done_progress_options is Err {
            Err(work_done_progress_options->Err_0)
        } else {
            Ok(
                GenericOptions {
                    work_done_progress_options: work_done_progress_options->Ok_0,
                },
            )
        }
    }

    fn write(&self, members: &mut Vec<(String, Json)>) {
        self.work_done_progress_options.write(members);
    }

    fn scan(members: &Vec<(String, Json)>) -> (result: Result<GenericOptions, CodecError>) {
        let work_done_progress_options = WorkDoneProgressOptions::scan(members);
        if let Err(error) = work_done_progress_options {
            Err(error)
        } else {
            Ok(
                GenericOptions {
                    work_done_progress_options: work_done_progress_options.unwrap(),
                },
            )
        }
    }
}

impl GenericOptions {
    /// Every value comes back unchanged from the document that stands for it.
    pub proof fn lemma_survives(value: GenericOptions)
        ensures
            survives::<GenericOptions>(value),
    {
        broadcast use group_lookup;

        reveal(optional);
        reveal_strlit("workDoneProgress");
    }
}

#[derive(Debug, PartialEq, Eq, Clone)]
pub struct GenericParams {
    /// Its members are written among those of this value.
    pub text_document_position_params: TextDocumentPositionParams,
    /// Its members are written among those of this value.
    pub work_done_progress_params: WorkDoneProgressParams,
    /// Its members are written among those of this value.
    pub partial_result_params: PartialResultParams,
}

/// What a [`GenericParams`] stands for.
pub struct GenericParamsModel {
    pub text_document_position_params: TextDocumentPositionParamsModel,
    pub work_done_progress_params: WorkDoneProgressParamsModel,
    pub partial_result_params: PartialResultParamsModel,
}

impl DeepView for GenericParams {
    type V = GenericParamsModel;

    open spec fn deep_view(&self) -> GenericParamsModel {
        GenericParamsModel {
            text_document_position_params: self.text_document_position_params.deep_view(),
            work_done_progress_params: self.work_done_progress_params.deep_view(),
            partial_result_params: self.partial_result_params.deep_view(),
        }
    }
}

impl Record for GenericParams {
    open spec fn members(before: Seq<Member>, value: GenericParamsModel) -> Seq<Member> {
        PartialResultParams::members(
            WorkDoneProgressParams::members(
                TextDocumentPositionParams::members(before, value.text_document_position_params),
                value.work_done_progress_params,
            ),
            value.partial_result_params,
        )
    }

    open spec fn read(members: Seq<Member>) -> Result<GenericParamsModel, CodecError> {
        let text_document_position_params = TextDocumentPositionParams::read(members);
        let work_done_progress_params = WorkDoneProgressParams::read(members);
        let partial_result_params = PartialResultParams::read(members);
        if text_document_position_params is Err {
            Err(text_document_position_params->Err_0)
        } else if work_done_progress_params is Err {
            Err(work_done_progress_params->Err_0)
        } else if partial_result_params is Err {
            Err(partial_result_params->Err_0)
        } else {
            Ok(
                GenericParamsModel {
                    text_document_position_params: text_document_position_params->Ok_0,
                    work_done_progress_params: work_done_progress_params->Ok_0,
                    partial_result_params: partial_result_params->Ok_0,
                },
            )
        }
    }

    fn write(&self, members: &mut Vec<(String, Json)>) {
        self.text_document_position_params.write(members);
        self.work_done_progress_params.write(members);
        self.partial_result_params.write(members);
    }

    fn scan(members: &Vec<(String, Json)>) -> (result: Result<GenericParams, CodecError>) {
        let text_document_position_params = TextDocumentPositionParams::scan(members);
        let work_done_progress_params = WorkDoneProgressParams::scan(members);
        let partial_result_params = PartialResultParams::scan(members);
        if let Err(error) = text_document_position_params {
            Err(error)
        } else if let Err(error) = work_done_progress_params {
            Err(error)
        } else if let Err(error) = partial_result_params {
            Err(error)
        } else {
            Ok(
                GenericParams {
                    text_document_position_params: text_document_position_params.unwrap(),
                    work_done_progress_params: work_done_progress_params.unwrap(),
                    partial_result_params: partial_result_params.unwrap(),
                },
            )
        }
    }
}

impl GenericParams {
    /// A value comes back unchanged from the document that stands for it
    /// where its fields meet what is asked of them here.
    pub proof fn lemma_round_trip(value: GenericParamsModel)
        requires
            survives::<TextDocumentIdentifier>(value.text_document_position_params.text_document),
        ensures
            survives::<GenericParams>(value),
    {
        broadcast use group_lookup;

        reveal(required);
        reveal(optional);
        reveal_strlit("textDocument");
        reveal_strlit("position");
        reveal_strlit("workDoneToken");
        reveal_strlit("partialResultToken");
        Position::lemma_survives(value.text_document_position_params.position);
        if let Some(inner) = value.work_done_progress_params.work_done_token {
            NumberOrString::lemma_survives(inner);
        }
        if let Some(inner) = value.partial_result_params.partial_result_token {
            NumberOrString::lemma_survives(inner);
        }
    }
}

#[derive(Debug, PartialEq, Eq, Structural, Clone, Copy, Default)]
pub struct GenericCapability {
    /// This capability supports dynamic registration.
    pub dynamic_registration: Option<bool>,
}

impl DeepView for GenericCapability {
    type V = GenericCapability;

    open spec fn deep_view(&self) -> GenericCapability {
        GenericCapability {
            dynamic_registration: self.dynamic_registration.deep_view(),
        }
    }
}

impl Record for GenericCapability {
    open spec fn members(before: Seq<Member>, value: GenericCapability) -> Seq<Member> {
        before + optional_field::<bool>("dynamicRegistration"@, value.dynamic_registration)
    }

    open spec fn read(members: Seq<Member>) -> Result<GenericCapability, CodecError> {
        let dynamic_registration = optional::<bool>(members, "dynamicRegistration"@);
        if dynamic_registration is Err {
            Err(dynamic_registration->Err_0)
        } else {
            Ok(
                GenericCapability {
                    dynamic_registration: dynamic_registration->Ok_0,
                },
            )
        }
    }

    fn write(&self, members: &mut Vec<(String, Json)>) {
        put_optional(members, "dynamicRegistration", &self.dynamic_registration);
    }

    fn scan(members: &Vec<(String, Json)>) -> (result: Result<GenericCapability, CodecError>) {
        let dynamic_registration = get_optional::<bool>(members, "dynamicRegistration");
        if let Err(error) = dynamic_registration {
            Err(error)
        } else {
            Ok(
                GenericCapability {
                    dynamic_registration: dynamic_registration.unwrap(),
                },
            )
        }
    }
}

impl GenericCapability {
    /// Every value comes back unchanged from the document that stands for it.
    pub proof fn lemma_survives(value: GenericCapability)
        ensures
            survives::<GenericCapability>(value),
    {
        broadcast use group_lookup;

        reveal(optional);
        reveal_strlit("dynamicRegistration");
    }
}

#[derive(Debug, PartialEq, Eq, Structural, Clone, Copy, Default)]
pub struct GotoCapability {
    pub dynamic_registration: Option<bool>,
    /// The client supports additional metadata in the form of definition links.
    pub link_support: Option<bool>,
}

impl DeepView for GotoCapability {
    type V = GotoCapability;

    open spec fn deep_view(&self) -> GotoCapability {
        GotoCapability {
            dynamic_registration: self.dynamic_registration.deep_view(),
            link_support: self.link_support.deep_view(),
        }
    }
}

impl Record for GotoCapability {
    open spec fn members(before: Seq<Member>, value: GotoCapability) -> Seq<Member> {
        before + optional_field::<bool>("dynamicRegistration"@, value.dynamic_registration)
            + nullable_field::<bool>("linkSupport"@, value.link_support)
    }

    open spec fn read(members: Seq<Member>) -> Result<GotoCapability, CodecError> {
        let dynamic_registration = optional::<bool>(members, "dynamicRegistration"@);
        let link_support = optional::<bool>(members, "linkSupport"@);
        if dynamic_registration is Err {
            Err(dynamic_registration->Err_0)
        } else if link_support is Err {
            Err(link_support->Err_0)
        } else {
            Ok(
                GotoCapability {
                    dynamic_registration: dynamic_registration->Ok_0,
                    link_support: link_support->Ok_0,
                },
            )
        }
    }

    fn write(&self, members: &mut Vec<(String, Json)>) {
        put_optional(members, "dynamicRegistration", &self.dynamic_registration);
        put_nullable(members, "linkSupport", &self.link_support);
    }

    fn scan(members: &Vec<(String, Json)>) -> (result: Result<GotoCapability, CodecError>) {
        let dynamic_registration = get_optional::<bool>(members, "dynamicRegistration");
        let link_support = get_optional::<bool>(members, "linkSupport");
        if let Err(error) = dynamic_registration {
            Err(error)
        } else if let Err(error) = link_support {
            Err(error)
        } else {
            Ok(
                GotoCapability {
                    dynamic_registration: dynamic_registration.unwrap(),
                    link_support: link_support.unwrap(),
                },
            )
        }
    }
}

impl GotoCapability {
    /// Every value comes back unchanged from the document that stands for it.
    pub proof fn lemma_survives(value: GotoCapability)
        ensures
            survives::<GotoCapability>(value),
    {
        broadcast use group_lookup;

        reveal(optional);
        reveal_strlit("dynamicRegistration");
        reveal_strlit("linkSupport");
    }
}

/// Specific capabilities for the `SymbolKind` in the `workspace/symbol` request.
#[derive(Debug, PartialEq, Eq, Clone, Default)]
pub struct SymbolKindCapability {
    /// The symbol kind values the client supports. When this
    /// property exists the client also guarantees that it will
    /// handle values outside its set gracefully and falls back
    /// to a default value when unknown.
    ///
    /// If this property is not present the client only supports
    /// the symbol kinds from `File` to `Array` as defined in
    /// the initial version of the protocol.
    pub value_set: Option<Vec<SymbolKind>>,
}

/// What a [`SymbolKindCapability`] stands for.
pub struct SymbolKindCapabilityModel {
    pub value_set: Option<Seq<SymbolKind>>,
}

impl DeepView for SymbolKindCapability {
    type V = SymbolKindCapabilityModel;

    open spec fn deep_view(&self) -> SymbolKindCapabilityModel {
        SymbolKindCapabilityModel {
            value_set: self.value_set.deep_view(),
        }
    }
}

impl Record for SymbolKindCapability {
    open spec fn members(before: Seq<Member>, value: SymbolKindCapabilityModel) -> Seq<Member> {
        before + nullable_field::<Vec<SymbolKind>>("valueSet"@, value.value_set)
    }

    open spec fn read(members: Seq<Member>) -> Result<SymbolKindCapabilityModel, CodecError> {
        let value_set = optional::<Vec<SymbolKind>>(members, "valueSet"@);
        if value_set is Err {
            Err(value_set->Err_0)
        } else {
            Ok(
                SymbolKindCapabilityModel {
                    value_set: value_set->Ok_0,
                },
            )
        }
    }

    fn write(&self, members: &mut Vec<(String, Json)>) {
        put_nullable(members, "valueSet", &self.value_set);
    }

    fn scan(members: &Vec<(String, Json)>) -> (result: Result<SymbolKindCapability, CodecError>) {
        let value_set = get_optional::<Vec<SymbolKind>>(members, "valueSet");
        if let Err(error) = value_set {
            Err(error)
        } else {
            Ok(
                SymbolKindCapability {
                    value_set: value_set.unwrap(),
                },
            )
        }
    }
}

impl SymbolKindCapability {
    /// Every value comes back unchanged from the document that stands for it.
    pub proof fn lemma_survives(value: SymbolKindCapabilityModel)
        ensures
            survives::<SymbolKindCapability>(value),
    {
        broadcast use group_lookup;

        reveal(optional);
        reveal_strlit("valueSet");
        if let Some(inner) = value.value_set {
            assert forall|i: int| 0 <= i < inner.len() implies survives::<SymbolKind>(
                #[trigger] inner[i],
            ) by {
                SymbolKind::lemma_survives(inner[i]);
            }
            lemma_sequence_round_trip::<SymbolKind>(inner);
        }
    }
}

#[derive(Debug, PartialEq, Eq, Clone, Default)]
pub struct WorkspaceSymbolClientCapabilities {
    /// This capability supports dynamic registration.
    pub dynamic_registration: Option<bool>,
    /// Specific capabilities for the `SymbolKind` in the `workspace/symbol` request.
    pub symbol_kind: Option<SymbolKindCapability>,
    /// The client supports tags on `SymbolInformation`.
    /// Clients supporting tags have to handle unknown tags gracefully.
    ///
    /// @since 3.16.0
    ///
    pub tag_support: Option<TagSupport<SymbolTag>>,
}

/// What a [`WorkspaceSymbolClientCapabilities`] stands for.
pub struct WorkspaceSymbolClientCapabilitiesModel {
    pub dynamic_registration: Option<bool>,
    pub symbol_kind: Option<SymbolKindCapabilityModel>,
    pub tag_support: Option<TagSupportModel<SymbolTag>>,
}

impl DeepView for WorkspaceSymbolClientCapabilities {
    type V = WorkspaceSymbolClientCapabilitiesModel;

    open spec fn deep_view(&self) -> WorkspaceSymbolClientCapabilitiesModel {
        WorkspaceSymbolClientCapabilitiesModel {
            dynamic_registration: self.dynamic_registration.deep_view(),
            symbol_kind: self.symbol_kind.deep_view(),
            tag_support: self.tag_support.deep_view(),
        }
    }
}

impl Record for WorkspaceSymbolClientCapabilities {
    open spec fn members(before: Seq<Member>, value: WorkspaceSymbolClientCapabilitiesModel) -> Seq<Member> {
        before + optional_field::<bool>("dynamicRegistration"@, value.dynamic_registration)
            + optional_field::<SymbolKindCapability>("symbolKind"@, value.symbol_kind)
            + optional_field::<TagSupport<SymbolTag>>("tagSupport"@, value.tag_support)
    }

    open spec fn read(members: Seq<Member>) -> Result<WorkspaceSymbolClientCapabilitiesModel, CodecError> {
        let dynamic_registration = optional::<bool>(members, "dynamicRegistration"@);
        let symbol_kind = optional::<SymbolKindCapability>(members, "symbolKind"@);
        let tag_support = compat::<SymbolTag>(members, "tagSupport"@);
        if dynamic_registration is Err {
            Err(dynamic_registration->Err_0)
        } else if symbol_kind is Err {
            Err(symbol_kind->Err_0)
        } else if tag_support is Err {
            Err(tag_support->Err_0)
        } else {
            Ok(
                WorkspaceSymbolClientCapabilitiesModel {
                    dynamic_registration: dynamic_registration->Ok_0,
                    symbol_kind: symbol_kind->Ok_0,
                    tag_support: tag_support->Ok_0,
                },
            )
        }
    }

    fn write(&self, members: &mut Vec<(String, Json)>) {
        put_optional(members, "dynamicRegistration", &self.dynamic_registration);
        put_optional(members, "symbolKind", &self.symbol_kind);
        put_optional(members, "tagSupport", &self.tag_support);
    }

    fn scan(members: &Vec<(String, Json)>) -> (result: Result<WorkspaceSymbolClientCapabilities, CodecError>) {
        let dynamic_registration = get_optional::<bool>(members, "dynamicRegistration");
        let symbol_kind = get_optional::<SymbolKindCapability>(members, "symbolKind");
        let tag_support = get_compat::<SymbolTag>(members, "tagSupport");
        if let Err(error) = dynamic_registration {
            Err(error)
        } else if let Err(error) = symbol_kind {
            Err(error)
        } else if let Err(error) = tag_support {
            Err(error)
        } else {
            Ok(
                WorkspaceSymbolClientCapabilities {
                    dynamic_registration: dynamic_registration.unwrap(),
                    symbol_kind: symbol_kind.unwrap(),
                    tag_support: tag_support.unwrap(),
                },
            )
        }
    }
}

impl WorkspaceSymbolClientCapabilities {
    /// Every value comes back unchanged from the document that stands for it.
    pub proof fn lemma_survives(value: WorkspaceSymbolClientCapabilitiesModel)
        ensures
            survives::<WorkspaceSymbolClientCapabilities>(value),
    {
        broadcast use group_lookup;

        reveal(optional);
        reveal(optional_field);
        reveal_strlit("dynamicRegistration");
        reveal_strlit("symbolKind");
        reveal_strlit("tagSupport");
        if let Some(inner) = value.symbol_kind {
            SymbolKindCapability::lemma_survives(inner);
        }
        if let Some(support) = value.tag_support {
            let list = support.value_set;
            assert forall|i: int| 0 <= i < list.len() implies survives::<SymbolTag>(
                #[trigger] list[i],
            ) by {
                SymbolTag::lemma_survives(list[i]);
            }
            lemma_tag_support_round_trip::<SymbolTag>(support);
        }
    }
}

/// Workspace specific client capabilities.
#[derive(Debug, PartialEq, Eq, Clone, Default)]
pub struct WorkspaceClientCapabilities {
    /// The client supports applying batch edits to the workspace by supporting
    /// the request 'workspace/applyEdit'
    pub apply_edit: Option<bool>,
    /// Capabilities specific to `WorkspaceEdit`s
    pub workspace_edit: Option<WorkspaceEditCapability>,
    /// Capabilities specific to the `workspace/didChangeConfiguration` notification.
    pub did_change_configuration: Option<GenericCapability>,
    /// Capabilities specific to the `workspace/didChangeWatchedFiles` notification.
    pub did_change_watched_files: Option<GenericCapability>,
    /// Capabilities specific to the `workspace/symbol` request.
    pub symbol: Option<WorkspaceSymbolClientCapabilities>,
    /// Capabilities specific to the `workspace/executeCommand` request.
    pub execute_command: Option<GenericCapability>,
    /// The client has support for workspace folders.
    pub workspace_folders: Option<bool>,
    /// The client supports `workspace/configuration` requests.
    pub configuration: Option<bool>,
}

/// What a [`WorkspaceClientCapabilities`] stands for.
pub struct WorkspaceClientCapabilitiesModel {
    pub apply_edit: Option<bool>,
    pub workspace_edit: Option<WorkspaceEditCapabilityModel>,
    pub did_change_configuration: Option<GenericCapability>,
    pub did_change_watched_files: Option<GenericCapability>,
    pub symbol: Option<WorkspaceSymbolClientCapabilitiesModel>,
    pub execute_command: Option<GenericCapability>,
    pub workspace_folders: Option<bool>,
    pub configuration: Option<bool>,
}

impl DeepView for WorkspaceClientCapabilities {
    type V = WorkspaceClientCapabilitiesModel;

    open spec fn deep_view(&self) -> WorkspaceClientCapabilitiesModel {
        WorkspaceClientCapabilitiesModel {
            apply_edit: self.apply_edit.deep_view(),
            workspace_edit: self.workspace_edit.deep_view(),
            did_change_configuration: self.did_change_configuration.deep_view(),
            did_change_watched_files: self.did_change_watched_files.deep_view(),
            symbol: self.symbol.deep_view(),
            execute_command: self.execute_command.deep_view(),
            workspace_folders: self.workspace_folders.deep_view(),
            configuration: self.configuration.deep_view(),
        }
    }
}

impl Record for WorkspaceClientCapabilities {
    open spec fn members(before: Seq<Member>, value: WorkspaceClientCapabilitiesModel) -> Seq<Member> {
        before + optional_field::<bool>("applyEdit"@, value.apply_edit)
            + optional_field::<WorkspaceEditCapability>("workspaceEdit"@, value.workspace_edit)
            + optional_field::<GenericCapability>(
                "didChangeConfiguration"@,
                value.did_change_configuration,
            )
            + optional_field::<GenericCapability>(
                "didChangeWatchedFiles"@,
                value.did_change_watched_files,
            )
            + optional_field::<WorkspaceSymbolClientCapabilities>("symbol"@, value.symbol)
            + optional_field::<GenericCapability>("executeCommand"@, value.execute_command)
            + optional_field::<bool>("workspaceFolders"@, value.workspace_folders)
            + optional_field::<bool>("configuration"@, value.configuration)
    }

    open spec fn read(members: Seq<Member>) -> Result<WorkspaceClientCapabilitiesModel, CodecError> {
        let apply_edit = optional::<bool>(members, "applyEdit"@);
        let workspace_edit = optional::<WorkspaceEditCapability>(members, "workspaceEdit"@);
        let did_change_configuration = optional::<GenericCapability>(
            members,
            "didChangeConfiguration"@,
        );
        let did_change_watched_files = optional::<GenericCapability>(
            members,
            "didChangeWatchedFiles"@,
        );
        let symbol = optional::<WorkspaceSymbolClientCapabilities>(members, "symbol"@);
        let execute_command = optional::<GenericCapability>(members, "executeCommand"@);
        let workspace_folders = optional::<bool>(members, "workspaceFolders"@);
        let configuration = optional::<bool>(members, "configuration"@);
        if apply_edit is Err {
            Err(apply_edit->Err_0)
        } else if workspace_edit is Err {
            Err(workspace_edit->Err_0)
        } else if did_change_configuration is Err {
            Err(did_change_configuration->Err_0)
        } else if did_change_watched_files is Err {
            Err(did_change_watched_files->Err_0)
        } else if symbol is Err {
            Err(symbol->Err_0)
        } else if execute_command is Err {
            Err(execute_command->Err_0)
        } else if workspace_folders is Err {
            Err(workspace_folders->Err_0)
        } else if configuration is Err {
            Err(configuration->Err_0)
        } else {
            Ok(
                WorkspaceClientCapabilitiesModel {
                    apply_edit: apply_edit->Ok_0,
                    workspace_edit: workspace_edit->Ok_0,
                    did_change_configuration: did_change_configuration->Ok_0,
                    did_change_watched_files: did_change_watched_files->Ok_0,
                    symbol: symbol->Ok_0,
                    execute_command: execute_command->Ok_0,
                    workspace_folders: workspace_folders->Ok_0,
                    configuration: configuration->Ok_0,
                },
            )
        }
    }

    fn write(&self, members: &mut Vec<(String, Json)>) {
        put_optional(members, "applyEdit", &self.apply_edit);
        put_optional(members, "workspaceEdit", &self.workspace_edit);
        put_optional(members, "didChangeConfiguration", &self.did_change_configuration);
        put_optional(members, "didChangeWatchedFiles", &self.did_change_watched_files);
        put_optional(members, "symbol", &self.symbol);
        put_optional(members, "executeCommand", &self.execute_command);
        put_optional(members, "workspaceFolders", &self.workspace_folders);
        put_optional(members, "configuration", &self.configuration);
    }

    fn scan(members: &Vec<(String, Json)>) -> (result: Result<WorkspaceClientCapabilities, CodecError>) {
        let apply_edit = get_optional::<bool>(members, "applyEdit");
        let workspace_edit = get_optional::<WorkspaceEditCapability>(members, "workspaceEdit");
        let did_change_configuration = get_optional::<GenericCapability>(
            members,
            "didChangeConfiguration",
        );
        let did_change_watched_files = get_optional::<GenericCapability>(
            members,
            "didChangeWatchedFiles",
        );
        let symbol = get_optional::<WorkspaceSymbolClientCapabilities>(members, "symbol");
        let execute_command = get_optional::<GenericCapability>(members, "executeCommand");
        let workspace_folders = get_optional::<bool>(members, "workspaceFolders");
        let configuration = get_optional::<bool>(members, "configuration");
        if let Err(error) = apply_edit {
            Err(error)
        } else if let Err(error) = workspace_edit {
            Err(error)
        } else if let Err(error) = did_change_configuration {
            Err(error)
        } else if let Err(error) = did_change_watched_files {
            Err(error)
        } else if let Err(error) = symbol {
            Err(error)
        } else if let Err(error) = execute_command {
            Err(error)
        } else if let Err(error) = workspace_folders {
            Err(error)
        } else if let Err(error) = configuration {
            Err(error)
        } else {
            Ok(
                WorkspaceClientCapabilities {
                    apply_edit: apply_edit.unwrap(),
                    workspace_edit: workspace_edit.unwrap(),
                    did_change_configuration: did_change_configuration.unwrap(),
                    did_change_watched_files: did_change_watched_files.unwrap(),
                    symbol: symbol.unwrap(),
                    execute_command: execute_command.unwrap(),
                    workspace_folders: workspace_folders.unwrap(),
                    configuration: configuration.unwrap(),
                },
            )
        }
    }
}

#[derive(Debug, PartialEq, Eq, Structural, Clone, Default)]
pub struct SynchronizationCapability {
    /// Whether text document synchronization supports dynamic registration.
    pub dynamic_registration: Option<bool>,
    /// The client supports sending will save notifications.
    pub will_save: Option<bool>,
    /// The client supports sending a will save request and
    /// waits for a response providing text edits which will
    /// be applied to the document before it is saved.
    pub will_save_wait_until: Option<bool>,
    /// The client supports did save notifications.
    pub did_save: Option<bool>,
}

impl DeepView for SynchronizationCapability {
    type V = SynchronizationCapability;

    open spec fn deep_view(&self) -> SynchronizationCapability {
        SynchronizationCapability {
            dynamic_registration: self.dynamic_registration.deep_view(),
            will_save: self.will_save.deep_view(),
            will_save_wait_until: self.will_save_wait_until.deep_view(),
            did_save: self.did_save.deep_view(),
        }
    }
}

impl Record for SynchronizationCapability {
    open spec fn members(before: Seq<Member>, value: SynchronizationCapability) -> Seq<Member> {
        before + optional_field::<bool>("dynamicRegistration"@, value.dynamic_registration)
            + optional_field::<bool>("willSave"@, value.will_save)
            + optional_field::<bool>("willSaveWaitUntil"@, value.will_save_wait_until)
            + optional_field::<bool>("didSave"@, value.did_save)
    }

    open spec fn read(members: Seq<Member>) -> Result<SynchronizationCapability, CodecError> {
        let dynamic_registration = optional::<bool>(members, "dynamicRegistration"@);
        let will_save = optional::<bool>(members, "willSave"@);
        let will_save_wait_until = optional::<bool>(members, "willSaveWaitUntil"@);
        let did_save = optional::<bool>(members, "didSave"@);
        if dynamic_registration is Err {
            Err(dynamic_registration->Err_0)
        } else if will_save is Err {
            Err(will_save->Err_0)
        } else if will_save_wait_until is Err {
            Err(will_save_wait_until->Err_0)
        } else if did_save is Err {
            Err(did_save->Err_0)
        } else {
            Ok(
                SynchronizationCapability {
                    dynamic_registration: dynamic_registration->Ok_0,
                    will_save: will_save->Ok_0,
                    will_save_wait_until: will_save_wait_until->Ok_0,
                    did_save: did_save->Ok_0,
                },
            )
        }
    }

    fn write(&self, members: &mut Vec<(String, Json)>) {
        put_optional(members, "dynamicRegistration", &self.dynamic_registration);
        put_optional(members, "willSave", &self.will_save);
        put_optional(members, "willSaveWaitUntil", &self.will_save_wait_until);
        put_optional(members, "didSave", &self.did_save);
    }

    fn scan(members: &Vec<(String, Json)>) -> (result: Result<SynchronizationCapability, CodecError>) {
        let dynamic_registration = get_optional::<bool>(members, "dynamicRegistration");
        let will_save = get_optional::<bool>(members, "willSave");
        let will_save_wait_until = get_optional::<bool>(members, "willSaveWaitUntil");
        let did_save = get_optional::<bool>(members, "didSave");
        if let Err(error) = dynamic_registration {
            Err(error)
        } else if let Err(error) = will_save {
            Err(error)
        } else if let Err(error) = will_save_wait_until {
            Err(error)
        } else if let Err(error) = did_save {
            Err(error)
        } else {
            Ok(
                SynchronizationCapability {
                    dynamic_registration: dynamic_registration.unwrap(),
                    will_save: will_save.unwrap(),
                    will_save_wait_until: will_save_wait_until.unwrap(),
                    did_save: did_save.unwrap(),
                },
            )
        }
    }
}

impl SynchronizationCapability {
    /// Every value comes back unchanged from the document that stands for it.
    pub proof fn lemma_survives(value: SynchronizationCapability)
        ensures
            survives::<SynchronizationCapability>(value),
    {
        broadcast use group_lookup;

        reveal(optional);
        reveal_strlit("dynamicRegistration");
        reveal_strlit("willSave");
        reveal_strlit("willSaveWaitUntil");
        reveal_strlit("didSave");
    }
}

#[derive(Debug, PartialEq, Eq, Clone, Default)]
pub struct HoverCapability {
    /// Whether completion supports dynamic registration.
    pub dynamic_registration: Option<bool>,
    /// Client supports the follow content formats for the content
    /// property. The order describes the preferred format of the client.
    pub content_format: Option<Vec<MarkupKind>>,
}

/// What a [`HoverCapability`] stands for.
pub struct HoverCapabilityModel {
    pub dynamic_registration: Option<bool>,
    pub content_format: Option<Seq<MarkupKind>>,
}

impl DeepView for HoverCapability {
    type V = HoverCapabilityModel;

    open spec fn deep_view(&self) -> HoverCapabilityModel {
        HoverCapabilityModel {
            dynamic_registration: self.dynamic_registration.deep_view(),
            content_format: self.content_format.deep_view(),
        }
    }
}

impl Record for HoverCapability {
    open spec fn members(before: Seq<Member>, value: HoverCapabilityModel) -> Seq<Member> {
        before + optional_field::<bool>("dynamicRegistration"@, value.dynamic_registration)
            + optional_field::<Vec<MarkupKind>>("contentFormat"@, value.content_format)
    }

    open spec fn read(members: Seq<Member>) -> Result<HoverCapabilityModel, CodecError> {
        let dynamic_registration = optional::<bool>(members, "dynamicRegistration"@);
        let content_format = optional::<Vec<MarkupKind>>(members, "contentFormat"@);
        if dynamic_registration is Err {
            Err(dynamic_registration->Err_0)
        } else if content_format is Err {
            Err(content_format->Err_0)
        } else {
            Ok(
                HoverCapabilityModel {
                    dynamic_registration: dynamic_registration->Ok_0,
                    content_format: content_format->Ok_0,
                },
            )
        }
    }

    fn write(&self, members: &mut Vec<(String, Json)>) {
        put_optional(members, "dynamicRegistration", &self.dynamic_registration);
        put_optional(members, "contentFormat", &self.content_format);
    }

    fn scan(members: &Vec<(String, Json)>) -> (result: Result<HoverCapability, CodecError>) {
        let dynamic_registration = get_optional::<bool>(members, "dynamicRegistration");
        let content_format = get_optional::<Vec<MarkupKind>>(members, "contentFormat");
        if let Err(error) = dynamic_registration {
            Err(error)
        } else if let Err(error) = content_format {
            Err(error)
        } else {
            Ok(
                HoverCapability {
                    dynamic_registration: dynamic_registration.unwrap(),
                    content_format: content_format.unwrap(),
                },
            )
        }
    }
}

impl HoverCapability {
    /// Every value comes back unchanged from the document that stands for it.
    pub proof fn lemma_survives(value: HoverCapabilityModel)
        ensures
            survives::<HoverCapability>(value),
    {
        broadcast use group_lookup;

        reveal(optional);
        reveal_strlit("dynamicRegistration");
        reveal_strlit("contentFormat");
        if let Some(inner) = value.content_format {
            assert forall|i: int| 0 <= i < inner.len() implies survives::<MarkupKind>(
                #[trigger] inner[i],
            ) by {
                MarkupKind::lemma_survives(inner[i]);
            }
            lemma_sequence_round_trip::<MarkupKind>(inner);
        }
    }
}

#[derive(Debug, PartialEq, Eq, Clone)]
pub struct SignatureInformationSettings {
    /// Client supports the follow content formats for the documentation
    /// property. The order describes the preferred format of the client.
    pub documentation_format: Option<Vec<MarkupKind>>,
    pub parameter_information: Option<ParameterInformationSettings>,
}

/// What a [`SignatureInformationSettings`] stands for.
pub struct SignatureInformationSettingsModel {
    pub documentation_format: Option<Seq<MarkupKind>>,
    pub parameter_information: Option<ParameterInformationSettings>,
}

impl DeepView for SignatureInformationSettings {
    type V = SignatureInformationSettingsModel;

    open spec fn deep_view(&self) -> SignatureInformationSettingsModel {
        SignatureInformationSettingsModel {
            documentation_format: self.documentation_format.deep_view(),
            parameter_information: self.parameter_information.deep_view(),
        }
    }
}

impl Record for SignatureInformationSettings {
    open spec fn members(before: Seq<Member>, value: SignatureInformationSettingsModel) -> Seq<Member> {
        before
            + optional_field::<Vec<MarkupKind>>("documentationFormat"@, value.documentation_format)
            + optional_field::<ParameterInformationSettings>(
                "parameterInformation"@,
                value.parameter_information,
            )
    }

    open spec fn read(members: Seq<Member>) -> Result<SignatureInformationSettingsModel, CodecError> {
        let documentation_format = optional::<Vec<MarkupKind>>(members, "documentationFormat"@);
        let parameter_information = optional::<ParameterInformationSettings>(
            members,
            "parameterInformation"@,
        );
        if documentation_format is Err {
            Err(documentation_format->Err_0)
        } else if parameter_information is Err {
            Err(parameter_information->Err_0)
        } else {
            Ok(
                SignatureInformationSettingsModel {
                    documentation_format: documentation_format->Ok_0,
                    parameter_information: parameter_information->Ok_0,
                },
            )
        }
    }

    fn write(&self, members: &mut Vec<(String, Json)>) {
        put_optional(members, "documentationFormat", &self.documentation_format);
        put_optional(members, "parameterInformation", &self.parameter_information);
    }

    fn scan(members: &Vec<(String, Json)>) -> (result: Result<SignatureInformationSettings, CodecError>) {
        let documentation_format = get_optional::<Vec<MarkupKind>>(members, "documentationFormat");
        let parameter_information = get_optional::<ParameterInformationSettings>(
            members,
            "parameterInformation",
        );
        if let Err(error) = documentation_format {
            Err(error)
        } else if let Err(error) = parameter_information {
            Err(error)
        } else {
            Ok(
                SignatureInformationSettings {
                    documentation_format: documentation_format.unwrap(),
                    parameter_information: parameter_information.unwrap(),
                },
            )
        }
    }
}

impl SignatureInformationSettings {
    /// Every value comes back unchanged from the document that stands for it.
    pub proof fn lemma_survives(value: SignatureInformationSettingsModel)
        ensures
            survives::<SignatureInformationSettings>(value),
    {
        broadcast use group_lookup;

        reveal(optional);
        reveal_strlit("documentationFormat");
        reveal_strlit("parameterInformation");
        if let Some(inner) = value.documentation_format {
            assert forall|i: int| 0 <= i < inner.len() implies survives::<MarkupKind>(
                #[trigger] inner[i],
            ) by {
                MarkupKind::lemma_survives(inner[i]);
            }
            lemma_sequence_round_trip::<MarkupKind>(inner);
        }
        if let Some(inner) = value.parameter_information {
            ParameterInformationSettings::lemma_survives(inner);
        }
    }
}

#[derive(Debug, PartialEq, Eq, Structural, Clone)]
pub struct ParameterInformationSettings {
    /// The client supports processing label offsets instead of a
    /// simple label string.
    pub label_offset_support: Option<bool>,
}

impl DeepView for ParameterInformationSettings {
    type V = ParameterInformationSettings;

    open spec fn deep_view(&self) -> ParameterInformationSettings {
        ParameterInformationSettings {
            label_offset_support: self.label_offset_support.deep_view(),
        }
    }
}

impl Record for ParameterInformationSettings {
    open spec fn members(before: Seq<Member>, value: ParameterInformationSettings) -> Seq<Member> {
        before + optional_field::<bool>("labelOffsetSupport"@, value.label_offset_support)
    }

    open spec fn read(members: Seq<Member>) -> Result<ParameterInformationSettings, CodecError> {
        let label_offset_support = optional::<bool>(members, "labelOffsetSupport"@);
        if label_offset_support is Err {
            Err(label_offset_support->Err_0)
        } else {
            Ok(
                ParameterInformationSettings {
                    label_offset_support: label_offset_support->Ok_0,
                },
            )
        }
    }

    fn write(&self, members: &mut Vec<(String, Json)>) {
        put_optional(members, "labelOffsetSupport", &self.label_offset_support);
    }

    fn scan(members: &Vec<(String, Json)>) -> (result: Result<ParameterInformationSettings, CodecError>) {
        let label_offset_support = get_optional::<bool>(members, "labelOffsetSupport");
        if let Err(error) = label_offset_support {
            Err(error)
        } else {
            Ok(
                ParameterInformationSettings {
                    label_offset_support: label_offset_support.unwrap(),
                },
            )
        }
    }
}

impl ParameterInformationSettings {
    /// Every value comes back unchanged from the document that stands for it.
    pub proof fn lemma_survives(value: ParameterInformationSettings)
        ensures
            survives::<ParameterInformationSettings>(value),
    {
        broadcast use group_lookup;

        reveal(optional);
        reveal_strlit("labelOffsetSupport");
    }
}

#[derive(Debug, PartialEq, Eq, Clone, Default)]
pub struct SignatureHelpCapability {
    /// Whether completion supports dynamic registration.
    pub dynamic_registration: Option<bool>,
    /// The client supports the following `SignatureInformation`
    /// specific properties.
    pub signature_information: Option<SignatureInformationSettings>,
    /// The client supports to send additional context information for a
    /// `textDocument/signatureHelp` request. A client that opts into
    /// contextSupport will also support the `retriggerCharacters` on
    /// `SignatureHelpOptions`.
    pub context_support: Option<bool>,
}

/// What a [`SignatureHelpCapability`] stands for.
pub struct SignatureHelpCapabilityModel {
    pub dynamic_registration: Option<bool>,
    pub signature_information: Option<SignatureInformationSettingsModel>,
    pub context_support: Option<bool>,
}

impl DeepView for SignatureHelpCapability {
    type V = SignatureHelpCapabilityModel;

    open spec fn deep_view(&self) -> SignatureHelpCapabilityModel {
        SignatureHelpCapabilityModel {
            dynamic_registration: self.dynamic_registration.deep_view(),
            signature_information: self.signature_information.deep_view(),
            context_support: self.context_support.deep_view(),
        }
    }
}

impl Record for SignatureHelpCapability {
    open spec fn members(before: Seq<Member>, value: SignatureHelpCapabilityModel) -> Seq<Member> {
        before + optional_field::<bool>("dynamicRegistration"@, value.dynamic_registration)
            + optional_field::<SignatureInformationSettings>(
                "signatureInformation"@,
                value.signature_information,
            )
            + optional_field::<bool>("contextSupport"@, value.context_support)
    }

    open spec fn read(members: Seq<Member>) -> Result<SignatureHelpCapabilityModel, CodecError> {
        let dynamic_registration = optional::<bool>(members, "dynamicRegistration"@);
        let signature_information = optional::<SignatureInformationSettings>(
            members,
            "signatureInformation"@,
        );
        let context_support = optional::<bool>(members, "contextSupport"@);
        if dynamic_registration is Err {
            Err(dynamic_registration->Err_0)
        } else if signature_information is Err {
            Err(signature_information->Err_0)
        } else if context_support is Err {
            Err(context_support->Err_0)
        } else {
            Ok(
                SignatureHelpCapabilityModel {
                    dynamic_registration: dynamic_registration->Ok_0,
                    signature_information: signature_information->Ok_0,
                    context_support: context_support->Ok_0,
                },
            )
        }
    }

    fn write(&self, members: &mut Vec<(String, Json)>) {
        put_optional(members, "dynamicRegistration", &self.dynamic_registration);
        put_optional(members, "signatureInformation", &self.signature_information);
        put_optional(members, "contextSupport", &self.context_support);
    }

    fn scan(members: &Vec<(String, Json)>) -> (result: Result<SignatureHelpCapability, CodecError>) {
        let dynamic_registration = get_optional::<bool>(members, "dynamicRegistration");
        let signature_information = get_optional::<SignatureInformationSettings>(
            members,
            "signatureInformation",
        );
        let context_support = get_optional::<bool>(members, "contextSupport");
        if let Err(error) = dynamic_registration {
            Err(error)
        } else if let Err(error) = signature_information {
            Err(error)
        } else if let Err(error) = context_support {
            Err(error)
        } else {
            Ok(
                SignatureHelpCapability {
                    dynamic_registration: dynamic_registration.unwrap(),
                    signature_information: signature_information.unwrap(),
                    context_support: context_support.unwrap(),
                },
            )
        }
    }
}

impl SignatureHelpCapability {
    /// Every value comes back unchanged from the document that stands for it.
    pub proof fn lemma_survives(value: SignatureHelpCapabilityModel)
        ensures
            survives::<SignatureHelpCapability>(value),
    {
        broadcast use group_lookup;

        reveal(optional);
        reveal_strlit("dynamicRegistration");
        reveal_strlit("signatureInformation");
        reveal_strlit("contextSupport");
        if let Some(inner) = value.signature_information {
            SignatureInformationSettings::lemma_survives(inner);
        }
    }
}

/// Text document specific client capabilities.
#[derive(Debug, PartialEq, Eq, Clone, Default)]
pub struct TextDocumentClientCapabilities {
    pub synchronization: Option<SynchronizationCapability>,
    /// Capabilities specific to the `textDocument/completion`
    pub completion: Option<CompletionCapability>,
    /// Capabilities specific to the `textDocument/hover`
    pub hover: Option<HoverCapability>,
    /// Capabilities specific to the `textDocument/signatureHelp`
    pub signature_help: Option<SignatureHelpCapability>,
    /// Capabilities specific to the `textDocument/references`
    pub references: Option<GenericCapability>,
    /// Capabilities specific to the `textDocument/documentHighlight`
    pub document_highlight: Option<GenericCapability>,
    /// Capabilities specific to the `textDocument/documentSymbol`
    pub document_symbol: Option<DocumentSymbolClientCapabilities>,
    /// Capabilities specific to the `textDocument/formatting`
    pub formatting: Option<GenericCapability>,
    /// Capabilities specific to the `textDocument/rangeFormatting`
    pub range_formatting: Option<GenericCapability>,
    /// Capabilities specific to the `textDocument/onTypeFormatting`
    pub on_type_formatting: Option<GenericCapability>,
    /// Capabilities specific to the `textDocument/declaration`
    pub declaration: Option<GotoCapability>,
    /// Capabilities specific to the `textDocument/definition`
    pub definition: Option<GotoCapability>,
    /// Capabilities specific to the `textDocument/typeDefinition`
    pub type_definition: Option<GotoCapability>,
    /// Capabilities specific to the `textDocument/implementation`
    pub implementation: Option<GotoCapability>,
    /// Capabilities specific to the `textDocument/codeAction`
    pub code_action: Option<CodeActionCapability>,
    /// Capabilities specific to the `textDocument/codeLens`
    pub code_lens: Option<GenericCapability>,
    /// Capabilities specific to the `textDocument/documentLink`
    pub document_link: Option<DocumentLinkCapabilities>,
    /// Capabilities specific to the `textDocument/documentColor` and the
    /// `textDocument/colorPresentation` request.
    pub color_provider: Option<GenericCapability>,
    /// Capabilities specific to the `textDocument/rename`
    pub rename: Option<RenameCapability>,
    /// Capabilities specific to `textDocument/publishDiagnostics`.
    pub publish_diagnostics: Option<PublishDiagnosticsCapability>,
    /// Capabilities specific to `textDocument/foldingRange` requests.
    pub folding_range: Option<FoldingRangeCapability>,
    /// The client's semantic highlighting capability.
    pub semantic_highlighting_capabilities: Option<SemanticHighlightingClientCapability>,
    /// Capabilities specific to the `textDocument/semanticTokens`
    pub semantic_tokens: Option<SemanticTokensClientCapabilities>,
}

/// What a [`TextDocumentClientCapabilities`] stands for.
pub struct TextDocumentClientCapabilitiesModel {
    pub synchronization: Option<SynchronizationCapability>,
    pub completion: Option<CompletionCapabilityModel>,
    pub hover: Option<HoverCapabilityModel>,
    pub signature_help: Option<SignatureHelpCapabilityModel>,
    pub references: Option<GenericCapability>,
    pub document_highlight: Option<GenericCapability>,
    pub document_symbol: Option<DocumentSymbolClientCapabilitiesModel>,
    pub formatting: Option<GenericCapability>,
    pub range_formatting: Option<GenericCapability>,
    pub on_type_formatting: Option<GenericCapability>,
    pub declaration: Option<GotoCapability>,
    pub definition: Option<GotoCapability>,
    pub type_definition: Option<GotoCapability>,
    pub implementation: Option<GotoCapability>,
    pub code_action: Option<CodeActionCapabilityModel>,
    pub code_lens: Option<GenericCapability>,
    pub document_link: Option<DocumentLinkCapabilities>,
    pub color_provider: Option<GenericCapability>,
    pub rename: Option<RenameCapability>,
    pub publish_diagnostics: Option<PublishDiagnosticsCapabilityModel>,
    pub folding_range: Option<FoldingRangeCapability>,
    pub semantic_highlighting_capabilities: Option<SemanticHighlightingClientCapability>,
    pub semantic_tokens: Option<SemanticTokensClientCapabilitiesModel>,
}

impl DeepView for TextDocumentClientCapabilities {
    type V = TextDocumentClientCapabilitiesModel;

    open spec fn deep_view(&self) -> TextDocumentClientCapabilitiesModel {
        TextDocumentClientCapabilitiesModel {
            synchronization: self.synchronization.deep_view(),
            completion: self.completion.deep_view(),
            hover: self.hover.deep_view(),
            signature_help: self.signature_help.deep_view(),
            references: self.references.deep_view(),
            document_highlight: self.document_highlight.deep_view(),
            document_symbol: self.document_symbol.deep_view(),
            formatting: self.formatting.deep_view(),
            range_formatting: self.range_formatting.deep_view(),
            on_type_formatting: self.on_type_formatting.deep_view(),
            declaration: self.declaration.deep_view(),
            definition: self.definition.deep_view(),
            type_definition: self.type_definition.deep_view(),
            implementation: self.implementation.deep_view(),
            code_action: self.code_action.deep_view(),
            code_lens: self.code_lens.deep_view(),
            document_link: self.document_link.deep_view(),
            color_provider: self.color_provider.deep_view(),
            rename: self.rename.deep_view(),
            publish_diagnostics: self.publish_diagnostics.deep_view(),
            folding_range: self.folding_range.deep_view(),
            semantic_highlighting_capabilities: self.semantic_highlighting_capabilities.deep_view(),
            semantic_tokens: self.semantic_tokens.deep_view(),
        }
    }
}

impl Record for TextDocumentClientCapabilities {
    open spec fn members(before: Seq<Member>, value: TextDocumentClientCapabilitiesModel) -> Seq<Member> {
        before
            + optional_field::<SynchronizationCapability>("synchronization"@, value.synchronization)
            + optional_field::<CompletionCapability>("completion"@, value.completion)
            + optional_field::<HoverCapability>("hover"@, value.hover)
            + optional_field::<SignatureHelpCapability>("signatureHelp"@, value.signature_help)
            + optional_field::<GenericCapability>("references"@, value.references)
            + optional_field::<GenericCapability>("documentHighlight"@, value.document_highlight)
            + optional_field::<DocumentSymbolClientCapabilities>(
                "documentSymbol"@,
                value.document_symbol,
            )
            + optional_field::<GenericCapability>("formatting"@, value.formatting)
            + optional_field::<GenericCapability>("rangeFormatting"@, value.range_formatting)
            + optional_field::<GenericCapability>("onTypeFormatting"@, value.on_type_formatting)
            + optional_field::<GotoCapability>("declaration"@, value.declaration)
            + optional_field::<GotoCapability>("definition"@, value.definition)
            + optional_field::<GotoCapability>("typeDefinition"@, value.type_definition)
            + optional_field::<GotoCapability>("implementation"@, value.implementation)
            + optional_field::<CodeActionCapability>("codeAction"@, value.code_action)
            + optional_field::<GenericCapability>("codeLens"@, value.code_lens)
            + optional_field::<DocumentLinkCapabilities>("documentLink"@, value.document_link)
            + optional_field::<GenericCapability>("colorProvider"@, value.color_provider)
            + optional_field::<RenameCapability>("rename"@, value.rename)
            + optional_field::<PublishDiagnosticsCapability>(
                "publishDiagnostics"@,
                value.publish_diagnostics,
            )
            + optional_field::<FoldingRangeCapability>("foldingRange"@, value.folding_range)
            + optional_field::<SemanticHighlightingClientCapability>(
                "semanticHighlightingCapabilities"@,
                value.semantic_highlighting_capabilities,
            )
            + optional_field::<SemanticTokensClientCapabilities>(
                "semanticTokens"@,
                value.semantic_tokens,
            )
    }

    open spec fn read(members: Seq<Member>) -> Result<TextDocumentClientCapabilitiesModel, CodecError> {
        let synchronization = optional::<SynchronizationCapability>(members, "synchronization"@);
        let completion = optional::<CompletionCapability>(members, "completion"@);
        let hover = optional::<HoverCapability>(members, "hover"@);
        let signature_help = optional::<SignatureHelpCapability>(members, "signatureHelp"@);
        let references = optional::<GenericCapability>(members, "references"@);
        let document_highlight = optional::<GenericCapability>(members, "documentHighlight"@);
        let document_symbol = optional::<DocumentSymbolClientCapabilities>(
            members,
            "documentSymbol"@,
        );
        let formatting = optional::<GenericCapability>(members, "formatting"@);
        let range_formatting = optional::<GenericCapability>(members, "rangeFormatting"@);
        let on_type_formatting = optional::<GenericCapability>(members, "onTypeFormatting"@);
        let declaration = optional::<GotoCapability>(members, "declaration"@);
        let definition = optional::<GotoCapability>(members, "definition"@);
        let type_definition = optional::<GotoCapability>(members, "typeDefinition"@);
        let implementation = optional::<GotoCapability>(members, "implementation"@);
        let code_action = optional::<CodeActionCapability>(members, "codeAction"@);
        let code_lens = optional::<GenericCapability>(members, "codeLens"@);
        let document_link = optional::<DocumentLinkCapabilities>(members, "documentLink"@);
        let color_provider = optional::<GenericCapability>(members, "colorProvider"@);
        let rename = optional::<RenameCapability>(members, "rename"@);
        let publish_diagnostics = optional::<PublishDiagnosticsCapability>(
            members,
            "publishDiagnostics"@,
        );
        let folding_range = optional::<FoldingRangeCapability>(members, "foldingRange"@);
        let semantic_highlighting_capabilities = optional::<SemanticHighlightingClientCapability>(
            members,
            "semanticHighlightingCapabilities"@,
        );
        let semantic_tokens = optional::<SemanticTokensClientCapabilities>(
            members,
            "semanticTokens"@,
        );
        if synchronization is Err {
            Err(synchronization->Err_0)
        } else if completion is Err {
            Err(completion->Err_0)
        } else if hover is Err {
            Err(hover->Err_0)
        } else if signature_help is Err {
            Err(signature_help->Err_0)
        } else if references is Err {
            Err(references->Err_0)
        } else if document_highlight is Err {
            Err(document_highlight->Err_0)
        } else if document_symbol is Err {
            Err(document_symbol->Err_0)
        } else if formatting is Err {
            Err(formatting->Err_0)
        } else if range_formatting is Err {
            Err(range_formatting->Err_0)
        } else if on_type_formatting is Err {
            Err(on_type_formatting->Err_0)
        } else if declaration is Err {
            Err(declaration->Err_0)
        } else if definition is Err {
            Err(definition->Err_0)
        } else if type_definition is Err {
            Err(type_definition->Err_0)
        } else if implementation is Err {
            Err(implementation->Err_0)
        } else if code_action is Err {
            Err(code_action->Err_0)
        } else if code_lens is Err {
            Err(code_lens->Err_0)
        } else if document_link is Err {
            Err(document_link->Err_0)
        } else if color_provider is Err {
            Err(color_provider->Err_0)
        } else if rename is Err {
            Err(rename->Err_0)
        } else if publish_diagnostics is Err {
            Err(publish_diagnostics->Err_0)
        } else if folding_range is Err {
            Err(folding_range->Err_0)
        } else if semantic_highlighting_capabilities is Err {
            Err(semantic_highlighting_capabilities->Err_0)
        } else if semantic_tokens is Err {
            Err(semantic_tokens->Err_0)
        } else {
            Ok(
                TextDocumentClientCapabilitiesModel {
                    synchronization: synchronization->Ok_0,
                    completion: completion->Ok_0,
                    hover: hover->Ok_0,
                    signature_help: signature_help->Ok_0,
                    references: references->Ok_0,
                    document_highlight: document_highlight->Ok_0,
                    document_symbol: document_symbol->Ok_0,
                    formatting: formatting->Ok_0,
                    range_formatting: range_formatting->Ok_0,
                    on_type_formatting: on_type_formatting->Ok_0,
                    declaration: declaration->Ok_0,
                    definition: definition->Ok_0,
                    type_definition: type_definition->Ok_0,
                    implementation: implementation->Ok_0,
                    code_action: code_action->Ok_0,
                    code_lens: code_lens->Ok_0,
                    document_link: document_link->Ok_0,
                    color_provider: color_provider->Ok_0,
                    rename: rename->Ok_0,
                    publish_diagnostics: publish_diagnostics->Ok_0,
                    folding_range: folding_range->Ok_0,
                    semantic_highlighting_capabilities: semantic_highlighting_capabilities->Ok_0,
                    semantic_tokens: semantic_tokens->Ok_0,
                },
            )
        }
    }

    fn write(&self, members: &mut Vec<(String, Json)>) {
        put_optional(members, "synchronization", &self.synchronization);
        put_optional(members, "completion", &self.completion);
        put_optional(members, "hover", &self.hover);
        put_optional(members, "signatureHelp", &self.signature_help);
        put_optional(members, "references", &self.references);
        put_optional(members, "documentHighlight", &self.document_highlight);
        put_optional(members, "documentSymbol", &self.document_symbol);
        put_optional(members, "formatting", &self.formatting);
        put_optional(members, "rangeFormatting", &self.range_formatting);
        put_optional(members, "onTypeFormatting", &self.on_type_formatting);
        put_optional(members, "declaration", &self.declaration);
        put_optional(members, "definition", &self.definition);
        put_optional(members, "typeDefinition", &self.type_definition);
        put_optional(members, "implementation", &self.implementation);
        put_optional(members, "codeAction", &self.code_action);
        put_optional(members, "codeLens", &self.code_lens);
        put_optional(members, "documentLink", &self.document_link);
        put_optional(members, "colorProvider", &self.color_provider);
        put_optional(members, "rename", &self.rename);
        put_optional(members, "publishDiagnostics", &self.publish_diagnostics);
        put_optional(members, "foldingRange", &self.folding_range);
        put_optional(
            members,
            "semanticHighlightingCapabilities",
            &self.semantic_highlighting_capabilities,
        );
        put_optional(members, "semanticTokens", &self.semantic_tokens);
    }

    fn scan(members: &Vec<(String, Json)>) -> (result: Result<TextDocumentClientCapabilities, CodecError>) {
        let synchronization = get_optional::<SynchronizationCapability>(members, "synchronization");
        let completion = get_optional::<CompletionCapability>(members, "completion");
        let hover = get_optional::<HoverCapability>(members, "hover");
        let signature_help = get_optional::<SignatureHelpCapability>(members, "signatureHelp");
        let references = get_optional::<GenericCapability>(members, "references");
        let document_highlight = get_optional::<GenericCapability>(members, "documentHighlight");
        let document_symbol = get_optional::<DocumentSymbolClientCapabilities>(
            members,
            "documentSymbol",
        );
        let formatting = get_optional::<GenericCapability>(members, "formatting");
        let range_formatting = get_optional::<GenericCapability>(members, "rangeFormatting");
        let on_type_formatting = get_optional::<GenericCapability>(members, "onTypeFormatting");
        let declaration = get_optional::<GotoCapability>(members, "declaration");
        let definition = get_optional::<GotoCapability>(members, "definition");
        let type_definition = get_optional::<GotoCapability>(members, "typeDefinition");
        let implementation = get_optional::<GotoCapability>(members, "implementation");
        let code_action = get_optional::<CodeActionCapability>(members, "codeAction");
        let code_lens = get_optional::<GenericCapability>(members, "codeLens");
        let document_link = get_optional::<DocumentLinkCapabilities>(members, "documentLink");
        let color_provider = get_optional::<GenericCapability>(members, "colorProvider");
        let rename = get_optional::<RenameCapability>(members, "rename");
        let publish_diagnostics = get_optional::<PublishDiagnosticsCapability>(
            members,
            "publishDiagnostics",
        );
        let folding_range = get_optional::<FoldingRangeCapability>(members, "foldingRange");
        let semantic_highlighting_capabilities = get_optional::<SemanticHighlightingClientCapability>(
            members,
            "semanticHighlightingCapabilities",
        );
        let semantic_tokens = get_optional::<SemanticTokensClientCapabilities>(
            members,
            "semanticTokens",
        );
        if let Err(error) = synchronization {
            Err(error)
        } else if let Err(error) = completion {
            Err(error)
        } else if let Err(error) = hover {
            Err(error)
        } else if let Err(error) = signature_help {
            Err(error)
        } else if let Err(error) = references {
            Err(error)
        } else if let Err(error) = document_highlight {
            Err(error)
        } else if let Err(error) = document_symbol {
            Err(error)
        } else if let Err(error) = formatting {
            Err(error)
        } else if let Err(error) = range_formatting {
            Err(error)
        } else if let Err(error) = on_type_formatting {
            Err(error)
        } else if let Err(error) = declaration {
            Err(error)
        } else if let Err(error) = definition {
            Err(error)
        } else if let Err(error) = type_definition {
            Err(error)
        } else if let Err(error) = implementation {
            Err(error)
        } else if let Err(error) = code_action {
            Err(error)
        } else if let Err(error) = code_lens {
            Err(error)
        } else if let Err(error) = document_link {
            Err(error)
        } else if let Err(error) = color_provider {
            Err(error)
        } else if let Err(error) = rename {
            Err(error)
        } else if let Err(error) = publish_diagnostics {
            Err(error)
        } else if let Err(error) = folding_range {
            Err(error)
        } else if let Err(error) = semantic_highlighting_capabilities {
            Err(error)
        } else if let Err(error) = semantic_tokens {
            Err(error)
        } else {
            Ok(
                TextDocumentClientCapabilities {
                    synchronization: synchronization.unwrap(),
                    completion: completion.unwrap(),
                    hover: hover.unwrap(),
                    signature_help: signature_help.unwrap(),
                    references: references.unwrap(),
                    document_highlight: document_highlight.unwrap(),
                    document_symbol: document_symbol.unwrap(),
                    formatting: formatting.unwrap(),
                    range_formatting: range_formatting.unwrap(),
                    on_type_formatting: on_type_formatting.unwrap(),
                    declaration: declaration.unwrap(),
                    definition: definition.unwrap(),
                    type_definition: type_definition.unwrap(),
                    implementation: implementation.unwrap(),
                    code_action: code_action.unwrap(),
                    code_lens: code_lens.unwrap(),
                    document_link: document_link.unwrap(),
                    color_provider: color_provider.unwrap(),
                    rename: rename.unwrap(),
                    publish_diagnostics: publish_diagnostics.unwrap(),
                    folding_range: folding_range.unwrap(),
                    semantic_highlighting_capabilities: semantic_highlighting_capabilities.unwrap(),
                    semantic_tokens: semantic_tokens.unwrap(),
                },
            )
        }
    }
}

/// Window specific client capabilities.
#[derive(Debug, PartialEq, Clone, Default)]
pub struct WindowClientCapabilities {
    /// Whether client supports create a work done progress UI from the server side.
    pub work_done_progress: Option<bool>,
}

impl DeepView for WindowClientCapabilities {
    type V = WindowClientCapabilities;

    open spec fn deep_view(&self) -> WindowClientCapabilities {
        WindowClientCapabilities {
            work_done_progress: self.work_done_progress.deep_view(),
        }
    }
}

impl Record for WindowClientCapabilities {
    open spec fn members(before: Seq<Member>, value: WindowClientCapabilities) -> Seq<Member> {
        before + optional_field::<bool>("workDoneProgress"@, value.work_done_progress)
    }

    open spec fn read(members: Seq<Member>) -> Result<WindowClientCapabilities, CodecError> {
        let work_done_progress = optional::<bool>(members, "workDoneProgress"@);
        if work_done_progress is Err {
            Err(work_done_progress->Err_0)
        } else {
            Ok(
                WindowClientCapabilities {
                    work_done_progress: work_done_progress->Ok_0,
                },
            )
        }
    }

    fn write(&self, members: &mut Vec<(String, Json)>) {
        put_optional(members, "workDoneProgress", &self.work_done_progress);
    }

    fn scan(members: &Vec<(String, Json)>) -> (result: Result<WindowClientCapabilities, CodecError>) {
        let work_done_progress = get_optional::<bool>(members, "workDoneProgress");
        if let Err(error) = work_done_progress {
            Err(error)
        } else {
            Ok(
                WindowClientCapabilities {
                    work_done_progress: work_done_progress.unwrap(),
                },
            )
        }
    }
}

impl WindowClientCapabilities {
    /// Every value comes back unchanged from the document that stands for it.
    pub proof fn lemma_survives(value: WindowClientCapabilities)
        ensures
            survives::<WindowClientCapabilities>(value),
    {
        broadcast use group_lookup;

        reveal(optional);
        reveal_strlit("workDoneProgress");
    }
}

/// Where ClientCapabilities are currently empty:
#[derive(Debug, PartialEq, Clone, Default)]
pub struct ClientCapabilities {
    /// Workspace specific client capabilities.
    pub workspace: Option<WorkspaceClientCapabilities>,
    /// Text document specific client capabilities.
    pub text_document: Option<TextDocumentClientCapabilities>,
    /// Window specific client capabilities.
    pub window: Option<WindowClientCapabilities>,
    /// Experimental client capabilities.
    pub experimental: Option<Json>,
}

/// What a [`ClientCapabilities`] stands for.
pub struct ClientCapabilitiesModel {
    pub workspace: Option<WorkspaceClientCapabilitiesModel>,
    pub text_document: Option<TextDocumentClientCapabilitiesModel>,
    pub window: Option<WindowClientCapabilities>,
    pub experimental: Option<JsonValue>,
}

impl DeepView for ClientCapabilities {
    type V = ClientCapabilitiesModel;

    open spec fn deep_view(&self) -> ClientCapabilitiesModel {
        ClientCapabilitiesModel {
            workspace: self.workspace.deep_view(),
            text_document: self.text_document.deep_view(),
            window: self.window.deep_view(),
            experimental: self.experimental.deep_view(),
        }
    }
}

impl Record for ClientCapabilities {
    open spec fn members(before: Seq<Member>, value: ClientCapabilitiesModel) -> Seq<Member> {
        before + optional_field::<WorkspaceClientCapabilities>("workspace"@, value.workspace)
            + optional_field::<TextDocumentClientCapabilities>("textDocument"@, value.text_document)
            + optional_field::<WindowClientCapabilities>("window"@, value.window)
            + optional_field::<Json>("experimental"@, value.experimental)
    }

    open spec fn read(members: Seq<Member>) -> Result<ClientCapabilitiesModel, CodecError> {
        let workspace = optional::<WorkspaceClientCapabilities>(members, "workspace"@);
        let text_document = optional::<TextDocumentClientCapabilities>(members, "textDocument"@);
        let window = optional::<WindowClientCapabilities>(members, "window"@);
        let experimental = optional::<Json>(members, "experimental"@);
        if workspace is Err {
            Err(workspace->Err_0)
        } else if text_document is Err {
            Err(text_document->Err_0)
        } else if window is Err {
            Err(window->Err_0)
        } else if experimental is Err {
            Err(experimental->Err_0)
        } else {
            Ok(
                ClientCapabilitiesModel {
                    workspace: workspace->Ok_0,
                    text_document: text_document->Ok_0,
                    window: window->Ok_0,
                    experimental: experimental->Ok_0,
                },
            )
        }
    }

    fn write(&self, members: &mut Vec<(String, Json)>) {
        put_optional(members, "workspace", &self.workspace);
        put_optional(members, "textDocument", &self.text_document);
        put_optional(members, "window", &self.window);
        put_optional(members, "experimental", &self.experimental);
    }

    fn scan(members: &Vec<(String, Json)>) -> (result: Result<ClientCapabilities, CodecError>) {
        let workspace = get_optional::<WorkspaceClientCapabilities>(members, "workspace");
        let text_document = get_optional::<TextDocumentClientCapabilities>(members, "textDocument");
        let window = get_optional::<WindowClientCapabilities>(members, "window");
        let experimental = get_optional::<Json>(members, "experimental");
        if let Err(error) = workspace {
            Err(error)
        } else if let Err(error) = text_document {
            Err(error)
        } else if let Err(error) = window {
            Err(error)
        } else if let Err(error) = experimental {
            Err(error)
        } else {
            Ok(
                ClientCapabilities {
                    workspace: workspace.unwrap(),
                    text_document: text_document.unwrap(),
                    window: window.unwrap(),
                    experimental: experimental.unwrap(),
                },
            )
        }
    }
}

impl ClientCapabilities {
    /// A value comes back unchanged from the document that stands for it
    /// where its fields meet what is asked of them here.
    pub proof fn lemma_round_trip(value: ClientCapabilitiesModel)
        requires
            value.workspace matches Some(v) ==> survives::<WorkspaceClientCapabilities>(v),
            value.text_document matches Some(v) ==> survives::<TextDocumentClientCapabilities>(v),
            value.experimental != Some(JsonValue::Null),
        ensures
            survives::<ClientCapabilities>(value),
    {
        broadcast use group_lookup;

        reveal(optional);
        reveal_strlit("workspace");
        reveal_strlit("textDocument");
        reveal_strlit("window");
        reveal_strlit("experimental");
        if let Some(inner) = value.window {
            WindowClientCapabilities::lemma_survives(inner);
        }
    }
}

#[derive(Debug, PartialEq, Eq, Clone, Default)]
pub struct CodeActionCapability {
    ///
    /// This capability supports dynamic registration.
    ///
    pub dynamic_registration: Option<bool>,
    /// The client support code action literals as a valid
    /// response of the `textDocument/codeAction` request.
    pub code_action_literal_support: Option<CodeActionLiteralSupport>,
    /// Whether code action supports the `isPreferred` property.
    pub is_preferred_support: Option<bool>,
}

/// What a [`CodeActionCapability`] stands for.
pub struct CodeActionCapabilityModel {
    pub dynamic_registration: Option<bool>,
    pub code_action_literal_support: Option<CodeActionLiteralSupportModel>,
    pub is_preferred_support: Option<bool>,
}

impl DeepView for CodeActionCapability {
    type V = CodeActionCapabilityModel;

    open spec fn deep_view(&self) -> CodeActionCapabilityModel {
        CodeActionCapabilityModel {
            dynamic_registration: self.dynamic_registration.deep_view(),
            code_action_literal_support: self.code_action_literal_support.deep_view(),
            is_preferred_support: self.is_preferred_support.deep_view(),
        }
    }
}

impl Record for CodeActionCapability {
    open spec fn members(before: Seq<Member>, value: CodeActionCapabilityModel) -> Seq<Member> {
        before + optional_field::<bool>("dynamicRegistration"@, value.dynamic_registration)
            + optional_field::<CodeActionLiteralSupport>(
                "codeActionLiteralSupport"@,
                value.code_action_literal_support,
            )
            + optional_field::<bool>("isPreferredSupport"@, value.is_preferred_support)
    }

    open spec fn read(members: Seq<Member>) -> Result<CodeActionCapabilityModel, CodecError> {
        let dynamic_registration = optional::<bool>(members, "dynamicRegistration"@);
        let code_action_literal_support = optional::<CodeActionLiteralSupport>(
            members,
            "codeActionLiteralSupport"@,
        );
        let is_preferred_support = optional::<bool>(members, "isPreferredSupport"@);
        if dynamic_registration is Err {
            Err(dynamic_registration->Err_0)
        } else if code_action_literal_support is Err {
            Err(code_action_literal_support->Err_0)
        } else if is_preferred_support is Err {
            Err(is_preferred_support->Err_0)
        } else {
            Ok(
                CodeActionCapabilityModel {
                    dynamic_registration: dynamic_registration->Ok_0,
                    code_action_literal_support: code_action_literal_support->Ok_0,
                    is_preferred_support: is_preferred_support->Ok_0,
                },
            )
        }
    }

    fn write(&self, members: &mut Vec<(String, Json)>) {
        put_optional(members, "dynamicRegistration", &self.dynamic_registration);
        put_optional(members, "codeActionLiteralSupport", &self.code_action_literal_support);
        put_optional(members, "isPreferredSupport", &self.is_preferred_support);
    }

    fn scan(members: &Vec<(String, Json)>) -> (result: Result<CodeActionCapability, CodecError>) {
        let dynamic_registration = get_optional::<bool>(members, "dynamicRegistration");
        let code_action_literal_support = get_optional::<CodeActionLiteralSupport>(
            members,
            "codeActionLiteralSupport",
        );
        let is_preferred_support = get_optional::<bool>(members, "isPreferredSupport");
        if let Err(error) = dynamic_registration {
            Err(error)
        } else if let Err(error) = code_action_literal_support {
            Err(error)
        } else if let Err(error) = is_preferred_support {
            Err(error)
        } else {
            Ok(
                CodeActionCapability {
                    dynamic_registration: dynamic_registration.unwrap(),
                    code_action_literal_support: code_action_literal_support.unwrap(),
                    is_preferred_support: is_preferred_support.unwrap(),
                },
            )
        }
    }
}

impl CodeActionCapability {
    /// Every value comes back unchanged from the document that stands for it.
    pub proof fn lemma_survives(value: CodeActionCapabilityModel)
        ensures
            survives::<CodeActionCapability>(value),
    {
        broadcast use group_lookup;

        reveal(optional);
        reveal_strlit("dynamicRegistration");
        reveal_strlit("codeActionLiteralSupport");
        reveal_strlit("isPreferredSupport");
        if let Some(inner) = value.code_action_literal_support {
            CodeActionLiteralSupport::lemma_survives(inner);
        }
    }
}

#[derive(Debug, PartialEq, Eq, Clone, Default)]
pub struct CodeActionLiteralSupport {
    /// The code action kind is support with the following value set.
    pub code_action_kind: CodeActionKindLiteralSupport,
}

/// What a [`CodeActionLiteralSupport`] stands for.
pub struct CodeActionLiteralSupportModel {
    pub code_action_kind: CodeActionKindLiteralSupportModel,
}

impl DeepView for CodeActionLiteralSupport {
    type V = CodeActionLiteralSupportModel;

    open spec fn deep_view(&self) -> CodeActionLiteralSupportModel {
        CodeActionLiteralSupportModel {
            code_action_kind: self.code_action_kind.deep_view(),
        }
    }
}

impl Record for CodeActionLiteralSupport {
    open spec fn members(before: Seq<Member>, value: CodeActionLiteralSupportModel) -> Seq<Member> {
        before + field::<CodeActionKindLiteralSupport>("codeActionKind"@, value.code_action_kind)
    }

    open spec fn read(members: Seq<Member>) -> Result<CodeActionLiteralSupportModel, CodecError> {
        let code_action_kind = required::<CodeActionKindLiteralSupport>(members, "codeActionKind"@);
        if code_action_kind is Err {
            Err(code_action_kind->Err_0)
        } else {
            Ok(
                CodeActionLiteralSupportModel {
                    code_action_kind: code_action_kind->Ok_0,
                },
            )
        }
    }

    fn write(&self, members: &mut Vec<(String, Json)>) {
        put(members, "codeActionKind", &self.code_action_kind);
    }

    fn scan(members: &Vec<(String, Json)>) -> (result: Result<CodeActionLiteralSupport, CodecError>) {
        let code_action_kind = get::<CodeActionKindLiteralSupport>(members, "codeActionKind");
        if let Err(error) = code_action_kind {
            Err(error)
        } else {
            Ok(
                CodeActionLiteralSupport {
                    code_action_kind: code_action_kind.unwrap(),
                },
            )
        }
    }
}

impl CodeActionLiteralSupport {
    /// Every value comes back unchanged from the document that stands for it.
    pub proof fn lemma_survives(value: CodeActionLiteralSupportModel)
        ensures
            survives::<CodeActionLiteralSupport>(value),
    {
        broadcast use group_lookup;

        reveal(required);
        reveal_strlit("codeActionKind");
        CodeActionKindLiteralSupport::lemma_survives(value.code_action_kind);
    }
}

#[derive(Debug, PartialEq, Eq, Clone, Default)]
pub struct CodeActionKindLiteralSupport {
    /// The code action kind values the client supports. When this
    /// property exists the client also guarantees that it will
    /// handle values outside its set gracefully and falls back
    /// to a default value when unknown.
    pub value_set: Vec<String>,
}

/// What a [`CodeActionKindLiteralSupport`] stands for.
pub struct CodeActionKindLiteralSupportModel {
    pub value_set: Seq<Seq<char>>,
}

impl DeepView for CodeActionKindLiteralSupport {
    type V = CodeActionKindLiteralSupportModel;

    open spec fn deep_view(&self) -> CodeActionKindLiteralSupportModel {
        CodeActionKindLiteralSupportModel {
            value_set: self.value_set.deep_view(),
        }
    }
}

impl Record for CodeActionKindLiteralSupport {
    open spec fn members(before: Seq<Member>, value: CodeActionKindLiteralSupportModel) -> Seq<Member> {
        before + field::<Vec<String>>("valueSet"@, value.value_set)
    }

    open spec fn read(members: Seq<Member>) -> Result<CodeActionKindLiteralSupportModel, CodecError> {
        let value_set = required::<Vec<String>>(members, "valueSet"@);
        if value_set is Err {
            Err(value_set->Err_0)
        } else {
            Ok(
                CodeActionKindLiteralSupportModel {
                    value_set: value_set->Ok_0,
                },
            )
        }
    }

    fn write(&self, members: &mut Vec<(String, Json)>) {
        put(members, "valueSet", &self.value_set);
    }

    fn scan(members: &Vec<(String, Json)>) -> (result: Result<CodeActionKindLiteralSupport, CodecError>) {
        let value_set = get::<Vec<String>>(members, "valueSet");
        if let Err(error) = value_set {
            Err(error)
        } else {
            Ok(
                CodeActionKindLiteralSupport {
                    value_set: value_set.unwrap(),
                },
            )
        }
    }
}

impl CodeActionKindLiteralSupport {
    /// Every value comes back unchanged from the document that stands for it.
    pub proof fn lemma_survives(value: CodeActionKindLiteralSupportModel)
        ensures
            survives::<CodeActionKindLiteralSupport>(value),
    {
        broadcast use group_lookup;

        reveal(required);
        reveal_strlit("valueSet");
        let list = value.value_set;
        lemma_sequence_round_trip::<String>(list);
    }
}

#[derive(Debug, PartialEq, Eq, Structural, Clone)]
pub struct DocumentLinkCapabilities {
    /// Whether document link supports dynamic registration.
    pub dynamic_registration: Option<bool>,
    /// Whether the client support the `tooltip` property on `DocumentLink`.
    pub tooltip_support: Option<bool>,
}

impl DeepView for DocumentLinkCapabilities {
    type V = DocumentLinkCapabilities;

    open spec fn deep_view(&self) -> DocumentLinkCapabilities {
        DocumentLinkCapabilities {
            dynamic_registration: self.dynamic_registration.deep_view(),
            tooltip_support: self.tooltip_support.deep_view(),
        }
    }
}

impl Record for DocumentLinkCapabilities {
    open spec fn members(before: Seq<Member>, value: DocumentLinkCapabilities) -> Seq<Member> {
        before + optional_field::<bool>("dynamicRegistration"@, value.dynamic_registration)
            + optional_field::<bool>("tooltipSupport"@, value.tooltip_support)
    }

    open spec fn read(members: Seq<Member>) -> Result<DocumentLinkCapabilities, CodecError> {
        let dynamic_registration = optional::<bool>(members, "dynamicRegistration"@);
        let tooltip_support = optional::<bool>(members, "tooltipSupport"@);
        if dynamic_registration is Err {
            Err(dynamic_registration->Err_0)
        } else if tooltip_support is Err {
            Err(tooltip_support->Err_0)
        } else {
            Ok(
                DocumentLinkCapabilities {
                    dynamic_registration: dynamic_registration->Ok_0,
                    tooltip_support: tooltip_support->Ok_0,
                },
            )
        }
    }

    fn write(&self, members: &mut Vec<(String, Json)>) {
        put_optional(members, "dynamicRegistration", &self.dynamic_registration);
        put_optional(members, "tooltipSupport", &self.tooltip_support);
    }

    fn scan(members: &Vec<(String, Json)>) -> (result: Result<DocumentLinkCapabilities, CodecError>) {
        let dynamic_registration = get_optional::<bool>(members, "dynamicRegistration");
        let tooltip_support = get_optional::<bool>(members, "tooltipSupport");
        if let Err(error) = dynamic_registration {
            Err(error)
        } else if let Err(error) = tooltip_support {
            Err(error)
        } else {
            Ok(
                DocumentLinkCapabilities {
                    dynamic_registration: dynamic_registration.unwrap(),
                    tooltip_support: tooltip_support.unwrap(),
                },
            )
        }
    }
}

impl DocumentLinkCapabilities {
    /// Every value comes back unchanged from the document that stands for it.
    pub proof fn lemma_survives(value: DocumentLinkCapabilities)
        ensures
            survives::<DocumentLinkCapabilities>(value),
    {
        broadcast use group_lookup;

        reveal(optional);
        reveal_strlit("dynamicRegistration");
        reveal_strlit("tooltipSupport");
    }
}

#[derive(Debug, PartialEq, Eq, Clone, Default)]
pub struct DocumentSymbolClientCapabilities {
    /// This capability supports dynamic registration.
    pub dynamic_registration: Option<bool>,
    /// Specific capabilities for the `SymbolKind`.
    pub symbol_kind: Option<SymbolKindCapability>,
    /// The client support hierarchical document symbols.
    pub hierarchical_document_symbol_support: Option<bool>,
    /// The client supports tags on `SymbolInformation`. Tags are supported on
    /// `DocumentSymbol` if `hierarchicalDocumentSymbolSupport` is set to true.
    /// Clients supporting tags have to handle unknown tags gracefully.
    ///
    /// @since 3.16.0
    pub tag_support: Option<TagSupport<SymbolTag>>,
}

/// What a [`DocumentSymbolClientCapabilities`] stands for.
pub struct DocumentSymbolClientCapabilitiesModel {
    pub dynamic_registration: Option<bool>,
    pub symbol_kind: Option<SymbolKindCapabilityModel>,
    pub hierarchical_document_symbol_support: Option<bool>,
    pub tag_support: Option<TagSupportModel<SymbolTag>>,
}

impl DeepView for DocumentSymbolClientCapabilities {
    type V = DocumentSymbolClientCapabilitiesModel;

    open spec fn deep_view(&self) -> DocumentSymbolClientCapabilitiesModel {
        DocumentSymbolClientCapabilitiesModel {
            dynamic_registration: self.dynamic_registration.deep_view(),
            symbol_kind: self.symbol_kind.deep_view(),
            hierarchical_document_symbol_support: self.hierarchical_document_symbol_support.deep_view(),
            tag_support: self.tag_support.deep_view(),
        }
    }
}

impl Record for DocumentSymbolClientCapabilities {
    open spec fn members(before: Seq<Member>, value: DocumentSymbolClientCapabilitiesModel) -> Seq<Member> {
        before + optional_field::<bool>("dynamicRegistration"@, value.dynamic_registration)
            + optional_field::<SymbolKindCapability>("symbolKind"@, value.symbol_kind)
            + optional_field::<bool>(
                "hierarchicalDocumentSymbolSupport"@,
                value.hierarchical_document_symbol_support,
            )
            + optional_field::<TagSupport<SymbolTag>>("tagSupport"@, value.tag_support)
    }

    open spec fn read(members: Seq<Member>) -> Result<DocumentSymbolClientCapabilitiesModel, CodecError> {
        let dynamic_registration = optional::<bool>(members, "dynamicRegistration"@);
        let symbol_kind = optional::<SymbolKindCapability>(members, "symbolKind"@);
        let hierarchical_document_symbol_support = optional::<bool>(
            members,
            "hierarchicalDocumentSymbolSupport"@,
        );
        let tag_support = compat::<SymbolTag>(members, "tagSupport"@);
        if dynamic_registration is Err {
            Err(dynamic_registration->Err_0)
        } else if symbol_kind is Err {
            Err(symbol_kind->Err_0)
        } else if hierarchical_document_symbol_support is Err {
            Err(hierarchical_document_symbol_support->Err_0)
        } else if tag_support is Err {
            Err(tag_support->Err_0)
        } else {
            Ok(
                DocumentSymbolClientCapabilitiesModel {
                    dynamic_registration: dynamic_registration->Ok_0,
                    symbol_kind: symbol_kind->Ok_0,
                    hierarchical_document_symbol_support: hierarchical_document_symbol_support->Ok_0,
                    tag_support: tag_support->Ok_0,
                },
            )
        }
    }

    fn write(&self, members: &mut Vec<(String, Json)>) {
        put_optional(members, "dynamicRegistration", &self.dynamic_registration);
        put_optional(members, "symbolKind", &self.symbol_kind);
        put_optional(
            members,
            "hierarchicalDocumentSymbolSupport",
            &self.hierarchical_document_symbol_support,
        );
        put_optional(members, "tagSupport", &self.tag_support);
    }

    fn scan(members: &Vec<(String, Json)>) -> (result: Result<DocumentSymbolClientCapabilities, CodecError>) {
        let dynamic_registration = get_optional::<bool>(members, "dynamicRegistration");
        let symbol_kind = get_optional::<SymbolKindCapability>(members, "symbolKind");
        let hierarchical_document_symbol_support = get_optional::<bool>(
            members,
            "hierarchicalDocumentSymbolSupport",
        );
        let tag_support = get_compat::<SymbolTag>(members, "tagSupport");
        if let Err(error) = dynamic_registration {
            Err(error)
        } else if let Err(error) = symbol_kind {
            Err(error)
        } else if let Err(error) = hierarchical_document_symbol_support {
            Err(error)
        } else if let Err(error) = tag_support {
            Err(error)
        } else {
            Ok(
                DocumentSymbolClientCapabilities {
                    dynamic_registration: dynamic_registration.unwrap(),
                    symbol_kind: symbol_kind.unwrap(),
                    hierarchical_document_symbol_support: hierarchical_document_symbol_support.unwrap(),
                    tag_support: tag_support.unwrap(),
                },
            )
        }
    }
}

impl DocumentSymbolClientCapabilities {
    /// Every value comes back unchanged from the document that stands for it.
    pub proof fn lemma_survives(value: DocumentSymbolClientCapabilitiesModel)
        ensures
            survives::<DocumentSymbolClientCapabilities>(value),
    {
        broadcast use group_lookup;

        reveal(optional);
        reveal(optional_field);
        reveal_strlit("dynamicRegistration");
        reveal_strlit("symbolKind");
        reveal_strlit("hierarchicalDocumentSymbolSupport");
        reveal_strlit("tagSupport");
        if let Some(inner) = value.symbol_kind {
            SymbolKindCapability::lemma_survives(inner);
        }
        if let Some(support) = value.tag_support {
            let list = support.value_set;
            assert forall|i: int| 0 <= i < list.len() implies survives::<SymbolTag>(
                #[trigger] list[i],
            ) by {
                SymbolTag::lemma_survives(list[i]);
            }
            lemma_tag_support_round_trip::<SymbolTag>(support);
        }
    }
}

#[derive(Debug, PartialEq, Eq, Structural, Clone, Default)]
pub struct RenameCapability {
    /// Whether rename supports dynamic registration.
    pub dynamic_registration: Option<bool>,
    /// Client supports testing for validity of rename operations before execution.
    pub prepare_support: Option<bool>,
}

impl DeepView for RenameCapability {
    type V = RenameCapability;

    open spec fn deep_view(&self) -> RenameCapability {
        RenameCapability {
            dynamic_registration: self.dynamic_registration.deep_view(),
            prepare_support: self.prepare_support.deep_view(),
        }
    }
}

impl Record for RenameCapability {
    open spec fn members(before: Seq<Member>, value: RenameCapability) -> Seq<Member> {
        before + optional_field::<bool>("dynamicRegistration"@, value.dynamic_registration)
            + optional_field::<bool>("prepareSupport"@, value.prepare_support)
    }

    open spec fn read(members: Seq<Member>) -> Result<RenameCapability, CodecError> {
        let dynamic_registration = optional::<bool>(members, "dynamicRegistration"@);
        let prepare_support = optional::<bool>(members, "prepareSupport"@);
        if dynamic_registration is Err {
            Err(dynamic_registration->Err_0)
        } else if prepare_support is Err {
            Err(prepare_support->Err_0)
        } else {
            Ok(
                RenameCapability {
                    dynamic_registration: dynamic_registration->Ok_0,
                    prepare_support: prepare_support->Ok_0,
                },
            )
        }
    }

    fn write(&self, members: &mut Vec<(String, Json)>) {
        put_optional(members, "dynamicRegistration", &self.dynamic_registration);
        put_optional(members, "prepareSupport", &self.prepare_support);
    }

    fn scan(members: &Vec<(String, Json)>) -> (result: Result<RenameCapability, CodecError>) {
        let dynamic_registration = get_optional::<bool>(members, "dynamicRegistration");
        let prepare_support = get_optional::<bool>(members, "prepareSupport");
        if let Err(error) = dynamic_registration {
            Err(error)
        } else if let Err(error) = prepare_support {
            Err(error)
        } else {
            Ok(
                RenameCapability {
                    dynamic_registration: dynamic_registration.unwrap(),
                    prepare_support: prepare_support.unwrap(),
                },
            )
        }
    }
}

impl RenameCapability {
    /// Every value comes back unchanged from the document that stands for it.
    pub proof fn lemma_survives(value: RenameCapability)
        ensures
            survives::<RenameCapability>(value),
    {
        broadcast use group_lookup;

        reveal(optional);
        reveal_strlit("dynamicRegistration");
        reveal_strlit("prepareSupport");
    }
}

#[derive(Debug, PartialEq, Eq, Structural, Clone, Default)]
pub struct FoldingRangeCapability {
    /// Whether implementation supports dynamic registration for folding range providers. If this is set to `true`
    /// the client supports the new `(FoldingRangeProviderOptions & TextDocumentRegistrationOptions & StaticRegistrationOptions)`
    /// return value for the corresponding server capability as well.
    pub dynamic_registration: Option<bool>,
    /// The maximum number of folding ranges that the client prefers to receive per document. The value serves as a
    /// hint, servers are free to follow the limit.
    pub range_limit: Option<u64>,
    /// If set, the client signals that it only supports folding complete lines. If set, client will
    /// ignore specified `startCharacter` and `endCharacter` properties in a FoldingRange.
    pub line_folding_only: Option<bool>,
}

impl DeepView for FoldingRangeCapability {
    type V = FoldingRangeCapability;

    open spec fn deep_view(&self) -> FoldingRangeCapability {
        FoldingRangeCapability {
            dynamic_registration: self.dynamic_registration.deep_view(),
            range_limit: self.range_limit.deep_view(),
            line_folding_only: self.line_folding_only.deep_view(),
        }
    }
}

impl Record for FoldingRangeCapability {
    open spec fn members(before: Seq<Member>, value: FoldingRangeCapability) -> Seq<Member> {
        before + optional_field::<bool>("dynamicRegistration"@, value.dynamic_registration)
            + optional_field::<u64>("rangeLimit"@, value.range_limit)
            + optional_field::<bool>("lineFoldingOnly"@, value.line_folding_only)
    }

    open spec fn read(members: Seq<Member>) -> Result<FoldingRangeCapability, CodecError> {
        let dynamic_registration = optional::<bool>(members, "dynamicRegistration"@);
        let range_limit = optional::<u64>(members, "rangeLimit"@);
        let line_folding_only = optional::<bool>(members, "lineFoldingOnly"@);
        if dynamic_registration is Err {
            Err(dynamic_registration->Err_0)
        } else if range_limit is Err {
            Err(range_limit->Err_0)
        } else if line_folding_only is Err {
            Err(line_folding_only->Err_0)
        } else {
            Ok(
                FoldingRangeCapability {
                    dynamic_registration: dynamic_registration->Ok_0,
                    range_limit: range_limit->Ok_0,
                    line_folding_only: line_folding_only->Ok_0,
                },
            )
        }
    }

    fn write(&self, members: &mut Vec<(String, Json)>) {
        put_optional(members, "dynamicRegistration", &self.dynamic_registration);
        put_optional(members, "rangeLimit", &self.range_limit);
        put_optional(members, "lineFoldingOnly", &self.line_folding_only);
    }

    fn scan(members: &Vec<(String, Json)>) -> (result: Result<FoldingRangeCapability, CodecError>) {
        let dynamic_registration = get_optional::<bool>(members, "dynamicRegistration");
        let range_limit = get_optional::<u64>(members, "rangeLimit");
        let line_folding_only = get_optional::<bool>(members, "lineFoldingOnly");
        if let Err(error) = dynamic_registration {
            Err(error)
        } else if let Err(error) = range_limit {
            Err(error)
        } else if let Err(error) = line_folding_only {
            Err(error)
        } else {
            Ok(
                FoldingRangeCapability {
                    dynamic_registration: dynamic_registration.unwrap(),
                    range_limit: range_limit.unwrap(),
                    line_folding_only: line_folding_only.unwrap(),
                },
            )
        }
    }
}

impl FoldingRangeCapability {
    /// Every value comes back unchanged from the document that stands for it.
    pub proof fn lemma_survives(value: FoldingRangeCapability)
        ensures
            survives::<FoldingRangeCapability>(value),
    {
        broadcast use group_lookup;

        reveal(optional);
        reveal_strlit("dynamicRegistration");
        reveal_strlit("rangeLimit");
        reveal_strlit("lineFoldingOnly");
    }
}

} // verus!
