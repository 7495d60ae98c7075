//! What a server can do, as it tells the client on initialization.

use crate::call_hierarchy::CallHierarchyServerCapability;
use crate::code_action::{CodeActionOptions, CodeActionOptionsModel};
use crate::codec::{
    Codec, CodecError, field, get, get_optional, group_lookup, lemma_sequence_round_trip, Member,
    optional, optional_field, put, put_optional, Record, required, survives,
};
use crate::completion::{CompletionOptions, CompletionOptionsModel};
use crate::document_link::DocumentLinkOptions;
use crate::folding_range::{FoldingRangeProviderCapability, FoldingRangeProviderCapabilityModel};
use crate::hover::HoverOptions;
use crate::json::{Json, JsonValue, Number};
use crate::progress::WorkDoneProgressOptions;
use crate::registration::{
    ColorProviderOptions, StaticTextDocumentColorProviderOptions,
    StaticTextDocumentColorProviderOptionsModel, StaticTextDocumentRegistrationOptions,
    StaticTextDocumentRegistrationOptionsModel,
};
use crate::rename::RenameProviderCapability;
use crate::selection_range::{
    SelectionRangeProviderCapability, SelectionRangeProviderCapabilityModel,
};
use crate::semantic_highlighting::{
    SemanticHighlightingServerCapability, SemanticHighlightingServerCapabilityModel,
};
use crate::semantic_tokens::{
    SemanticTokensServerCapabilities, SemanticTokensServerCapabilitiesModel,
};
use crate::signature_help::{SignatureHelpOptions, SignatureHelpOptionsModel};
use crate::workspace_folders::{WorkspaceCapability, WorkspaceCapabilityModel};
use vstd::prelude::*;
use vstd::std_specs::convert::FromSpecImpl;

verus! {

/// Defines how the host (editor) should sync document changes to the language server.
#[derive(Debug, PartialEq, Eq, Structural, Clone, Copy)]
pub enum TextDocumentSyncKind {
    /// Documents should not be synced at all.
    NoSync,
    /// Documents are synced by always sending the full content of the document.
    Full,
    /// Documents are synced by sending the full content on open. After that only
    /// incremental updates to the document are sent.
    Incremental,
}

impl DeepView for TextDocumentSyncKind {
    type V = TextDocumentSyncKind;

    open spec fn deep_view(&self) -> TextDocumentSyncKind {
        *self
    }
}

impl TextDocumentSyncKind {
    /// The integer that stands for a variant on the wire.
    pub open spec fn number(self) -> u8 {
        match self {
            TextDocumentSyncKind::NoSync => 0,
            TextDocumentSyncKind::Full => 1,
            TextDocumentSyncKind::Incremental => 2,
        }
    }

    /// The variant that an integer stands for, if any.
    pub open spec fn variant(number: int) -> Option<TextDocumentSyncKind> {
        if number == 0 {
            Some(TextDocumentSyncKind::NoSync)
        } else if number == 1 {
            Some(TextDocumentSyncKind::Full)
        } else if number == 2 {
            Some(TextDocumentSyncKind::Incremental)
        } else {
            None
        }
    }

    /// Gives the integer that stands for this variant on the wire.
    pub fn to_number(self) -> (number: u8)
        ensures
            number == self.number(),
    {
        match self {
            TextDocumentSyncKind::NoSync => 0,
            TextDocumentSyncKind::Full => 1,
            TextDocumentSyncKind::Incremental => 2,
        }
    }

    /// Gives the variant that an integer stands for, if any.
    pub fn from_number(number: u64) -> (variant: Option<TextDocumentSyncKind>)
        ensures
            variant == Self::variant(number as int),
    {
        if number == 0 {
            Some(TextDocumentSyncKind::NoSync)
        } else if number == 1 {
            Some(TextDocumentSyncKind::Full)
        } else if number == 2 {
            Some(TextDocumentSyncKind::Incremental)
        } else {
            None
        }
    }

    /// Every variant comes back unchanged from the integer that stands for it.
    pub proof fn lemma_survives(value: TextDocumentSyncKind)
        ensures
            survives::<TextDocumentSyncKind>(value),
    {
    }

    /// An integer is refused exactly when it names no variant, and the
    /// error then holds it together with the bounds of those that do.
    pub proof fn lemma_refusal(number: Number)
        requires
            !(number is Float),
        ensures
            TextDocumentSyncKind::decode(JsonValue::Number(number)) is Err <==> !(number matches Number::PosInt(n)
                && 0 <= n <= 2),
            TextDocumentSyncKind::decode(JsonValue::Number(number)) is Err ==> TextDocumentSyncKind::decode(
                JsonValue::Number(number),
            ) == Err::<TextDocumentSyncKind, CodecError>(
                CodecError::InvalidEnumValue { value: number, lowest: 0, highest: 2 },
            ),
    {
    }
}

impl Codec for TextDocumentSyncKind {
    open spec fn encode(value: TextDocumentSyncKind) -> JsonValue {
        JsonValue::Number(Number::PosInt(value.number() as u64))
    }

    open spec fn decode(json: JsonValue) -> Result<TextDocumentSyncKind, CodecError> {
        match json {
            JsonValue::Number(Number::PosInt(n)) => match Self::variant(n as int) {
                Some(variant) => Ok(variant),
                None => Err(
                    CodecError::InvalidEnumValue { value: Number::PosInt(n), lowest: 0, highest: 2 },
                ),
            },
            JsonValue::Number(Number::NegInt(n)) => Err(
                CodecError::InvalidEnumValue { value: Number::NegInt(n), lowest: 0, highest: 2 },
            ),
            _ => Err(CodecError::UnexpectedType),
        }
    }

    fn serialize(&self) -> (json: Json) {
        Json::Number(Number::PosInt(self.to_number() as u64))
    }

    fn deserialize(json: &Json) -> (result: Result<TextDocumentSyncKind, CodecError>) {
        match json {
            Json::Number(Number::PosInt(n)) => match Self::from_number(*n) {
                Some(variant) => Ok(variant),
                None => Err(
                    CodecError::InvalidEnumValue { value: Number::PosInt(*n), lowest: 0, highest: 2 },
                ),
            },
            Json::Number(Number::NegInt(n)) => Err(
                CodecError::InvalidEnumValue { value: Number::NegInt(*n), lowest: 0, highest: 2 },
            ),
            _ => Err(CodecError::UnexpectedType),
        }
    }
}

/// Code Lens options.
#[derive(Debug, PartialEq, Eq, Structural, Clone)]
pub struct CodeLensOptions {
    /// Code lens has a resolve provider as well.
    pub resolve_provider: Option<bool>,
}

impl DeepView for CodeLensOptions {
    type V = CodeLensOptions;

    open spec fn deep_view(&self) -> CodeLensOptions {
        CodeLensOptions {
            resolve_provider: self.resolve_provider.deep_view(),
        }
    }
}

impl Record for CodeLensOptions {
    open spec fn members(before: Seq<Member>, value: CodeLensOptions) -> Seq<Member> {
        before + optional_field::<bool>("resolveProvider"@, value.resolve_provider)
    }

    open spec fn read(members: Seq<Member>) -> Result<CodeLensOptions, CodecError> {
        let resolve_provider = optional::<bool>(members, "resolveProvider"@);
        if resolve_provider is Err {
            Err(resolve_provider->Err_0)
        } else {
            Ok(
                CodeLensOptions {
                    resolve_provider: resolve_provider->Ok_0,
                },
            )
        }
    }

    fn write(&self, members: &mut Vec<(String, Json)>) {
        put_optional(members, "resolveProvider", &self.resolve_provider);
    }

    fn scan(members: &Vec<(String, Json)>) -> (result: Result<CodeLensOptions, CodecError>) {
        let resolve_provider = get_optional::<bool>(members, "resolveProvider");
        if let Err(error) = resolve_provider {
            Err(error)
        } else {
            Ok(
                CodeLensOptions {
                    resolve_provider: resolve_provider.unwrap(),
                },
            )
        }
    }
}

impl CodeLensOptions {
    /// Every value comes back unchanged from the document that stands for it.
    pub proof fn lemma_survives(value: CodeLensOptions)
        ensures
            survives::<CodeLensOptions>(value),
    {
        broadcast use group_lookup;

        reveal(optional);
        reveal_strlit("resolveProvider");
    }
}

/// Format document on type options
#[derive(Debug, PartialEq, Eq, Clone, Default)]
pub struct DocumentOnTypeFormattingOptions {
    /// A character on which formatting should be triggered, like `}`.
    pub first_trigger_character: String,
    /// More trigger characters.
    pub more_trigger_character: Option<Vec<String>>,
}

/// What a [`DocumentOnTypeFormattingOptions`] stands for.
pub struct DocumentOnTypeFormattingOptionsModel {
    pub first_trigger_character: Seq<char>,
    pub more_trigger_character: Option<Seq<Seq<char>>>,
}

impl DeepView for DocumentOnTypeFormattingOptions {
    type V = DocumentOnTypeFormattingOptionsModel;

    open spec fn deep_view(&self) -> DocumentOnTypeFormattingOptionsModel {
        DocumentOnTypeFormattingOptionsModel {
            first_trigger_character: self.first_trigger_character.deep_view(),
            more_trigger_character: self.more_trigger_character.deep_view(),
        }
    }
}

impl Record for DocumentOnTypeFormattingOptions {
    open spec fn members(before: Seq<Member>, value: DocumentOnTypeFormattingOptionsModel) -> Seq<Member> {
        before + field::<String>("firstTriggerCharacter"@, value.first_trigger_character)
            + optional_field::<Vec<String>>("moreTriggerCharacter"@, value.more_trigger_character)
    }

    open spec fn read(members: Seq<Member>) -> Result<DocumentOnTypeFormattingOptionsModel, CodecError> {
        let first_trigger_character = required::<String>(members, "firstTriggerCharacter"@);
        let more_trigger_character = optional::<Vec<String>>(members, "moreTriggerCharacter"@);
        if first_trigger_character is Err {
            Err(first_trigger_character->Err_0)
        } else if more_trigger_character is Err {
            Err(more_trigger_character->Err_0)
        } else {
            Ok(
                DocumentOnTypeFormattingOptionsModel {
                    first_trigger_character: first_trigger_character->Ok_0,
                    more_trigger_character: more_trigger_character->Ok_0,
                },
            )
        }
    }

    fn write(&self, members: &mut Vec<(String, Json)>) {
        put(members, "firstTriggerCharacter", &self.first_trigger_character);
        put_optional(members, "moreTriggerCharacter", &self.more_trigger_character);
    }

    fn scan(members: &Vec<(String, Json)>) -> (result: Result<DocumentOnTypeFormattingOptions, CodecError>) {
        let first_trigger_character = get::<String>(members, "firstTriggerCharacter");
        let more_trigger_character = get_optional::<Vec<String>>(members, "moreTriggerCharacter");
        if let Err(error) = first_trigger_character {
            Err(error)
        } else if let Err(error) = more_trigger_character {
            Err(error)
        } else {
            Ok(
                DocumentOnTypeFormattingOptions {
                    first_trigger_character: first_trigger_character.unwrap(),
                    more_trigger_character: more_trigger_character.unwrap(),
                },
            )
        }
    }
}

impl DocumentOnTypeFormattingOptions {
    /// Every value comes back unchanged from the document that stands for it.
    pub proof fn lemma_survives(value: DocumentOnTypeFormattingOptionsModel)
        ensures
            survives::<DocumentOnTypeFormattingOptions>(value),
    {
        broadcast use group_lookup;

        reveal(required);
        reveal(optional);
        reveal_strlit("firstTriggerCharacter");
        reveal_strlit("moreTriggerCharacter");
        if let Some(inner) = value.more_trigger_character {
            lemma_sequence_round_trip::<String>(inner);
        }
    }
}

/// Execute command options.
#[derive(Debug, PartialEq, Eq, Clone, Default)]
pub struct ExecuteCommandOptions {
    /// The commands to be executed on the server
    pub commands: Vec<String>,
    /// Its members are written among those of this value.
    pub work_done_progress_options: WorkDoneProgressOptions,
}

/// What a [`ExecuteCommandOptions`] stands for.
pub struct ExecuteCommandOptionsModel {
    pub commands: Seq<Seq<char>>,
    pub work_done_progress_options: WorkDoneProgressOptions,
}

impl DeepView for ExecuteCommandOptions {
    type V = ExecuteCommandOptionsModel;

    open spec fn deep_view(&self) -> ExecuteCommandOptionsModel {
        ExecuteCommandOptionsModel {
            commands: self.commands.deep_view(),
            work_done_progress_options: self.work_done_progress_options.deep_view(),
        }
    }
}

impl Record for ExecuteCommandOptions {
    open spec fn members(before: Seq<Member>, value: ExecuteCommandOptionsModel) -> Seq<Member> {
        WorkDoneProgressOptions::members(
            before + field::<Vec<String>>("commands"@, value.commands),
            value.work_done_progress_options,
        )
    }

    open spec fn read(members: Seq<Member>) -> Result<ExecuteCommandOptionsModel, CodecError> {
        let commands = required::<Vec<String>>(members, "commands"@);
        let work_done_progress_options = WorkDoneProgressOptions::read(members);
        if commands is Err {
            Err(commands->Err_0)
        } else if work_done_progress_options is Err {
            Err(work_done_progress_options->Err_0)
        } else {
            Ok(
                ExecuteCommandOptionsModel {
                    commands: commands->Ok_0,
                    work_done_progress_options: work_done_progress_options->Ok_0,
                },
            )
        }
    }

    fn write(&self, members: &mut Vec<(String, Json)>) {
        put(members, "commands", &self.commands);
        self.work_done_progress_options.write(members);
    }

    fn scan(members: &Vec<(String, Json)>) -> (result: Result<ExecuteCommandOptions, CodecError>) {
        let commands = get::<Vec<String>>(members, "commands");
        let work_done_progress_options = WorkDoneProgressOptions::scan(members);
        if let Err(error) = commands {
            Err(error)
        } else if let Err(error) = work_done_progress_options {
            Err(error)
        } else {
            Ok(
                ExecuteCommandOptions {
                    commands: commands.unwrap(),
                    work_done_progress_options: work_done_progress_options.unwrap(),
                },
            )
        }
    }
}

impl ExecuteCommandOptions {
    /// Every value comes back unchanged from the document that stands for it.
    pub proof fn lemma_survives(value: ExecuteCommandOptionsModel)
        ensures
            survives::<ExecuteCommandOptions>(value),
    {
        broadcast use group_lookup;

        reveal(required);
        reveal(optional);
        reveal_strlit("commands");
        reveal_strlit("workDoneProgress");
        let list = value.commands;
        lemma_sequence_round_trip::<String>(list);
    }
}

/// Save options.
#[derive(Debug, PartialEq, Eq, Structural, Clone, Default)]
pub struct SaveOptions {
    /// The client is supposed to include the content on save.
    pub include_text: Option<bool>,
}

impl DeepView for SaveOptions {
    type V = SaveOptions;

    open spec fn deep_view(&self) -> SaveOptions {
        SaveOptions {
            include_text: self.include_text.deep_view(),
        }
    }
}

impl Record for SaveOptions {
    open spec fn members(before: Seq<Member>, value: SaveOptions) -> Seq<Member> {
        before + optional_field::<bool>("includeText"@, value.include_text)
    }

    open spec fn read(members: Seq<Member>) -> Result<SaveOptions, CodecError> {
        let include_text = optional::<bool>(members, "includeText"@);
        if include_text is Err {
            Err(include_text->Err_0)
        } else {
            Ok(
                SaveOptions {
                    include_text: include_text->Ok_0,
                },
            )
        }
    }

    fn write(&self, members: &mut Vec<(String, Json)>) {
        put_optional(members, "includeText", &self.include_text);
    }

    fn scan(members: &Vec<(String, Json)>) -> (result: Result<SaveOptions, CodecError>) {
        let include_text = get_optional::<bool>(members, "includeText");
        if let Err(error) = include_text {
            Err(error)
        } else {
            Ok(
                SaveOptions {
                    include_text: include_text.unwrap(),
                },
            )
        }
    }
}

impl SaveOptions {
    /// Every value comes back unchanged from the document that stands for it.
    pub proof fn lemma_survives(value: SaveOptions)
        ensures
            survives::<SaveOptions>(value),
    {
        broadcast use group_lookup;

        reveal(optional);
        reveal_strlit("includeText");
    }
}

#[derive(Debug, PartialEq, Eq, Structural, Clone)]
pub enum TextDocumentSyncSaveOptions {
    Supported(bool),
    SaveOptions(SaveOptions),
}

impl DeepView for TextDocumentSyncSaveOptions {
    type V = TextDocumentSyncSaveOptions;

    open spec fn deep_view(&self) -> TextDocumentSyncSaveOptions {
        match self {
            TextDocumentSyncSaveOptions::Supported(value) => TextDocumentSyncSaveOptions::Supported(value.deep_view()),
            TextDocumentSyncSaveOptions::SaveOptions(value) => TextDocumentSyncSaveOptions::SaveOptions(value.deep_view()),
        }
    }
}

impl Codec for TextDocumentSyncSaveOptions {
    open spec fn encode(value: TextDocumentSyncSaveOptions) -> JsonValue {
        match value {
            TextDocumentSyncSaveOptions::Supported(value) => bool::encode(value),
            TextDocumentSyncSaveOptions::SaveOptions(value) => SaveOptions::encode(value),
        }
    }

    open spec fn decode(json: JsonValue) -> Result<TextDocumentSyncSaveOptions, CodecError> {
        if let Ok(value) = bool::decode(json) {
            Ok(TextDocumentSyncSaveOptions::Supported(value))
        } else if let Ok(value) = SaveOptions::decode(json) {
            Ok(TextDocumentSyncSaveOptions::SaveOptions(value))
        } else {
            Err(CodecError::NoVariantMatched)
        }
    }

    fn serialize(&self) -> (json: Json) {
        match self {
            TextDocumentSyncSaveOptions::Supported(value) => value.serialize(),
            TextDocumentSyncSaveOptions::SaveOptions(value) => value.serialize(),
        }
    }

    fn deserialize(json: &Json) -> (result: Result<TextDocumentSyncSaveOptions, CodecError>) {
        if let Ok(value) = bool::deserialize(json) {
            Ok(TextDocumentSyncSaveOptions::Supported(value))
        } else if let Ok(value) = SaveOptions::deserialize(json) {
            Ok(TextDocumentSyncSaveOptions::SaveOptions(value))
        } else {
            Err(CodecError::NoVariantMatched)
        }
    }
}

impl TextDocumentSyncSaveOptions {
    /// A value comes back unchanged from its document exactly when its
    /// payload does and no variant declared before its own reads the
    /// payload's document.
    pub proof fn lemma_round_trip(value: TextDocumentSyncSaveOptions)
        ensures
            survives::<TextDocumentSyncSaveOptions>(value) <==> match value {
                TextDocumentSyncSaveOptions::Supported(v) => survives::<bool>(v),
                TextDocumentSyncSaveOptions::SaveOptions(v) => bool::decode(SaveOptions::encode(v)) is Err
                    && survives::<SaveOptions>(v),
            },
    {
    }

    /// Every value comes back unchanged from the document that stands for it.
    pub proof fn lemma_survives(value: TextDocumentSyncSaveOptions)
        ensures
            survives::<TextDocumentSyncSaveOptions>(value),
    {
        broadcast use group_lookup;

        reveal(required);
        reveal(optional);
        reveal_strlit("includeText");
        match value {
            TextDocumentSyncSaveOptions::Supported(_) => {},
            TextDocumentSyncSaveOptions::SaveOptions(v) => {
                SaveOptions::lemma_survives(v);
            },
        }
    }
}

impl From<SaveOptions> for TextDocumentSyncSaveOptions {
    fn from(from: SaveOptions) -> (result: TextDocumentSyncSaveOptions) {
        TextDocumentSyncSaveOptions::SaveOptions(from)
    }
}

impl FromSpecImpl<SaveOptions> for TextDocumentSyncSaveOptions {
    open spec fn obeys_from_spec() -> bool {
        true
    }

    open spec fn from_spec(from: SaveOptions) -> TextDocumentSyncSaveOptions {
        TextDocumentSyncSaveOptions::SaveOptions(from)
    }
}

impl From<bool> for TextDocumentSyncSaveOptions {
    fn from(from: bool) -> (result: TextDocumentSyncSaveOptions) {
        TextDocumentSyncSaveOptions::Supported(from)
    }
}

impl FromSpecImpl<bool> for TextDocumentSyncSaveOptions {
    open spec fn obeys_from_spec() -> bool {
        true
    }

    open spec fn from_spec(from: bool) -> TextDocumentSyncSaveOptions {
        TextDocumentSyncSaveOptions::Supported(from)
    }
}

#[derive(Debug, PartialEq, Eq, Structural, Clone, Default)]
pub struct TextDocumentSyncOptions {
    /// Open and close notifications are sent to the server.
    pub open_close: Option<bool>,
    /// Change notifications are sent to the server. See TextDocumentSyncKind.None, TextDocumentSyncKind.Full
    /// and TextDocumentSyncKindIncremental.
    pub change: Option<TextDocumentSyncKind>,
    /// Will save notifications are sent to the server.
    pub will_save: Option<bool>,
    /// Will save wait until requests are sent to the server.
    pub will_save_wait_until: Option<bool>,
    /// Save notifications are sent to the server.
    pub save: Option<TextDocumentSyncSaveOptions>,
}

impl DeepView for TextDocumentSyncOptions {
    type V = TextDocumentSyncOptions;

    open spec fn deep_view(&self) -> TextDocumentSyncOptions {
        TextDocumentSyncOptions {
            open_close: self.open_close.deep_view(),
            change: self.change.deep_view(),
            will_save: self.will_save.deep_view(),
            will_save_wait_until: self.will_save_wait_until.deep_view(),
            save: self.save.deep_view(),
        }
    }
}

impl Record for TextDocumentSyncOptions {
    open spec fn members(before: Seq<Member>, value: TextDocumentSyncOptions) -> Seq<Member> {
        before + optional_field::<bool>("openClose"@, value.open_close)
            + optional_field::<TextDocumentSyncKind>("change"@, value.change)
            + optional_field::<bool>("willSave"@, value.will_save)
            + optional_field::<bool>("willSaveWaitUntil"@, value.will_save_wait_until)
            + optional_field::<TextDocumentSyncSaveOptions>("save"@, value.save)
    }

    open spec fn read(members: Seq<Member>) -> Result<TextDocumentSyncOptions, CodecError> {
        let open_close = optional::<bool>(members, "openClose"@);
        let change = optional::<TextDocumentSyncKind>(members, "change"@);
        let will_save = optional::<bool>(members, "willSave"@);
        let will_save_wait_until = optional::<bool>(members, "willSaveWaitUntil"@);
        let save = optional::<TextDocumentSyncSaveOptions>(members, "save"@);
        if open_close is Err {
            Err(open_close->Err_0)
        } else if change is Err {
            Err(change->Err_0)
        } else if will_save is Err {
            Err(will_save->Err_0)
        } else if will_save_wait_until is Err {
            Err(will_save_wait_until->Err_0)
        } else if save is Err {
            Err(save->Err_0)
        } else {
            Ok(
                TextDocumentSyncOptions {
                    open_close: open_close->Ok_0,
                    change: change->Ok_0,
                    will_save: will_save->Ok_0,
                    will_save_wait_until: will_save_wait_until->Ok_0,
                    save: save->Ok_0,
                },
            )
        }
    }

    fn write(&self, members: &mut Vec<(String, Json)>) {
        put_optional(members, "openClose", &self.open_close);
        put_optional(members, "change", &self.change);
        put_optional(members, "willSave", &self.will_save);
        put_optional(members, "willSaveWaitUntil", &self.will_save_wait_until);
        put_optional(members, "save", &self.save);
    }

    fn scan(members: &Vec<(String, Json)>) -> (result: Result<TextDocumentSyncOptions, CodecError>) {
        let open_close = get_optional::<bool>(members, "openClose");
        let change = get_optional::<TextDocumentSyncKind>(members, "change");
        let will_save = get_optional::<bool>(members, "willSave");
        let will_save_wait_until = get_optional::<bool>(members, "willSaveWaitUntil");
        let save = get_optional::<TextDocumentSyncSaveOptions>(members, "save");
        if let Err(error) = open_close {
            Err(error)
        } else if let Err(error) = change {
            Err(error)
        } else if let Err(error) = will_save {
            Err(error)
        } else if let Err(error) = will_save_wait_until {
            Err(error)
        } else if let Err(error) = save {
            Err(error)
        } else {
            Ok(
                TextDocumentSyncOptions {
                    open_close: open_close.unwrap(),
                    change: change.unwrap(),
                    will_save: will_save.unwrap(),
                    will_save_wait_until: will_save_wait_until.unwrap(),
                    save: save.unwrap(),
                },
            )
        }
    }
}

impl TextDocumentSyncOptions {
    /// Every value comes back unchanged from the document that stands for it.
    pub proof fn lemma_survives(value: TextDocumentSyncOptions)
        ensures
            survives::<TextDocumentSyncOptions>(value),
    {
        broadcast use group_lookup;

        reveal(optional);
        reveal_strlit("openClose");
        reveal_strlit("change");
        reveal_strlit("willSave");
        reveal_strlit("willSaveWaitUntil");
        reveal_strlit("save");
        if let Some(inner) = value.change {
            TextDocumentSyncKind::lemma_survives(inner);
        }
        if let Some(inner) = value.save {
            TextDocumentSyncSaveOptions::lemma_survives(inner);
        }
    }
}

#[derive(Debug, PartialEq, Eq, Structural, Clone)]
pub enum TextDocumentSyncCapability {
    Kind(TextDocumentSyncKind),
    Options(TextDocumentSyncOptions),
}

impl DeepView for TextDocumentSyncCapability {
    type V = TextDocumentSyncCapability;

    open spec fn deep_view(&self) -> TextDocumentSyncCapability {
        match self {
            TextDocumentSyncCapability::Kind(value) => TextDocumentSyncCapability::Kind(value.deep_view()),
            TextDocumentSyncCapability::Options(value) => TextDocumentSyncCapability::Options(value.deep_view()),
        }
    }
}

impl Codec for TextDocumentSyncCapability {
    open spec fn encode(value: TextDocumentSyncCapability) -> JsonValue {
        match value {
            TextDocumentSyncCapability::Kind(value) => TextDocumentSyncKind::encode(value),
            TextDocumentSyncCapability::Options(value) => TextDocumentSyncOptions::encode(value),
        }
    }

    open spec fn decode(json: JsonValue) -> Result<TextDocumentSyncCapability, CodecError> {
        if let Ok(value) = TextDocumentSyncKind::decode(json) {
            Ok(TextDocumentSyncCapability::Kind(value))
        } else if let Ok(value) = TextDocumentSyncOptions::decode(json) {
            Ok(TextDocumentSyncCapability::Options(value))
        } else {
            Err(CodecError::NoVariantMatched)
        }
    }

    fn serialize(&self) -> (json: Json) {
        match self {
            TextDocumentSyncCapability::Kind(value) => value.serialize(),
            TextDocumentSyncCapability::Options(value) => value.serialize(),
        }
    }

    fn deserialize(json: &Json) -> (result: Result<TextDocumentSyncCapability, CodecError>) {
        if let Ok(value) = TextDocumentSyncKind::deserialize(json) {
            Ok(TextDocumentSyncCapability::Kind(value))
        } else if let Ok(value) = TextDocumentSyncOptions::deserialize(json) {
            Ok(TextDocumentSyncCapability::Options(value))
        } else {
            Err(CodecError::NoVariantMatched)
        }
    }
}

impl TextDocumentSyncCapability {
    /// A value comes back unchanged from its document exactly when its
    /// payload does and no variant declared before its own reads the
    /// payload's document.
    pub proof fn lemma_round_trip(value: TextDocumentSyncCapability)
        ensures
            survives::<TextDocumentSyncCapability>(value) <==> match value {
                TextDocumentSyncCapability::Kind(v) => survives::<TextDocumentSyncKind>(v),
                TextDocumentSyncCapability::Options(v) => TextDocumentSyncKind::decode(TextDocumentSyncOptions::encode(v)) is Err
                    && survives::<TextDocumentSyncOptions>(v),
            },
    {
    }

    /// Every value comes back unchanged from the document that stands for it.
    pub proof fn lemma_survives(value: TextDocumentSyncCapability)
        ensures
            survives::<TextDocumentSyncCapability>(value),
    {
        broadcast use group_lookup;

        reveal(required);
        reveal(optional);
        reveal_strlit("openClose");
        reveal_strlit("change");
        reveal_strlit("willSave");
        reveal_strlit("willSaveWaitUntil");
        reveal_strlit("save");
        match value {
            TextDocumentSyncCapability::Kind(v) => {
                TextDocumentSyncKind::lemma_survives(v);
            },
            TextDocumentSyncCapability::Options(v) => {
                TextDocumentSyncOptions::lemma_survives(v);
            },
        }
    }
}

impl From<TextDocumentSyncOptions> for TextDocumentSyncCapability {
    fn from(from: TextDocumentSyncOptions) -> (result: TextDocumentSyncCapability) {
        TextDocumentSyncCapability::Options(from)
    }
}

impl FromSpecImpl<TextDocumentSyncOptions> for TextDocumentSyncCapability {
    open spec fn obeys_from_spec() -> bool {
        true
    }

    open spec fn from_spec(from: TextDocumentSyncOptions) -> TextDocumentSyncCapability {
        TextDocumentSyncCapability::Options(from)
    }
}

impl From<TextDocumentSyncKind> for TextDocumentSyncCapability {
    fn from(from: TextDocumentSyncKind) -> (result: TextDocumentSyncCapability) {
        TextDocumentSyncCapability::Kind(from)
    }
}

impl FromSpecImpl<TextDocumentSyncKind> for TextDocumentSyncCapability {
    open spec fn obeys_from_spec() -> bool {
        true
    }

    open spec fn from_spec(from: TextDocumentSyncKind) -> TextDocumentSyncCapability {
        TextDocumentSyncCapability::Kind(from)
    }
}

#[derive(Debug, PartialEq, Eq, Clone)]
pub enum ImplementationProviderCapability {
    Simple(bool),
    Options(StaticTextDocumentRegistrationOptions),
}

/// What a [`ImplementationProviderCapability`] stands for.
pub enum ImplementationProviderCapabilityModel {
    Simple(bool),
    Options(StaticTextDocumentRegistrationOptionsModel),
}

impl DeepView for ImplementationProviderCapability {
    type V = ImplementationProviderCapabilityModel;

    open spec fn deep_view(&self) -> ImplementationProviderCapabilityModel {
        match self {
            ImplementationProviderCapability::Simple(value) => ImplementationProviderCapabilityModel::Simple(value.deep_view()),
            ImplementationProviderCapability::Options(value) => ImplementationProviderCapabilityModel::Options(value.deep_view()),
        }
    }
}

impl Codec for ImplementationProviderCapability {
    open spec fn encode(value: ImplementationProviderCapabilityModel) -> JsonValue {
        match value {
            ImplementationProviderCapabilityModel::Simple(value) => bool::encode(value),
            ImplementationProviderCapabilityModel::Options(value) => StaticTextDocumentRegistrationOptions::encode(value),
        }
    }

    open spec fn decode(json: JsonValue) -> Result<ImplementationProviderCapabilityModel, CodecError> {
        if let Ok(value) = bool::decode(json) {
            Ok(ImplementationProviderCapabilityModel::Simple(value))
        } else if let Ok(value) = StaticTextDocumentRegistrationOptions::decode(json) {
            Ok(ImplementationProviderCapabilityModel::Options(value))
        } else {
            Err(CodecError::NoVariantMatched)
        }
    }

    fn serialize(&self) -> (json: Json) {
        match self {
            ImplementationProviderCapability::Simple(value) => value.serialize(),
            ImplementationProviderCapability::Options(value) => value.serialize(),
        }
    }

    fn deserialize(json: &Json) -> (result: Result<ImplementationProviderCapability, CodecError>) {
        if let Ok(value) = bool::deserialize(json) {
            Ok(ImplementationProviderCapability::Simple(value))
        } else if let Ok(value) = StaticTextDocumentRegistrationOptions::deserialize(json) {
            Ok(ImplementationProviderCapability::Options(value))
        } else {
            Err(CodecError::NoVariantMatched)
        }
    }
}

impl ImplementationProviderCapability {
    /// A value comes back unchanged from its document exactly when its
    /// payload does and no variant declared before its own reads the
    /// payload's document.
    pub proof fn lemma_round_trip(value: ImplementationProviderCapabilityModel)
        ensures
            survives::<ImplementationProviderCapability>(value) <==> match value {
                ImplementationProviderCapabilityModel::Simple(v) => survives::<bool>(v),
                ImplementationProviderCapabilityModel::Options(v) => bool::decode(StaticTextDocumentRegistrationOptions::encode(v)) is Err
                    && survives::<StaticTextDocumentRegistrationOptions>(v),
            },
    {
    }

    /// Every value comes back unchanged from the document that stands for it.
    pub proof fn lemma_survives(value: ImplementationProviderCapabilityModel)
        ensures
            survives::<ImplementationProviderCapability>(value),
    {
        broadcast use group_lookup;

        reveal(required);
        reveal(optional);
        reveal_strlit("documentSelector");
        reveal_strlit("id");
        match value {
            ImplementationProviderCapabilityModel::Simple(_) => {},
            ImplementationProviderCapabilityModel::Options(v) => {
                StaticTextDocumentRegistrationOptions::lemma_survives(v);
            },
        }
    }
}

impl From<StaticTextDocumentRegistrationOptions> for ImplementationProviderCapability {
    fn from(from: StaticTextDocumentRegistrationOptions) -> (result: ImplementationProviderCapability) {
        ImplementationProviderCapability::Options(from)
    }
}

impl FromSpecImpl<StaticTextDocumentRegistrationOptions> for ImplementationProviderCapability {
    open spec fn obeys_from_spec() -> bool {
        true
    }

    open spec fn from_spec(from: StaticTextDocumentRegistrationOptions) -> ImplementationProviderCapability {
        ImplementationProviderCapability::Options(from)
    }
}

impl From<bool> for ImplementationProviderCapability {
    fn from(from: bool) -> (result: ImplementationProviderCapability) {
        ImplementationProviderCapability::Simple(from)
    }
}

impl FromSpecImpl<bool> for ImplementationProviderCapability {
    open spec fn obeys_from_spec() -> bool {
        true
    }

    open spec fn from_spec(from: bool) -> ImplementationProviderCapability {
        ImplementationProviderCapability::Simple(from)
    }
}

#[derive(Debug, PartialEq, Eq, Clone)]
pub enum TypeDefinitionProviderCapability {
    Simple(bool),
    Options(StaticTextDocumentRegistrationOptions),
}

/// What a [`TypeDefinitionProviderCapability`] stands for.
pub enum TypeDefinitionProviderCapabilityModel {
    Simple(bool),
    Options(StaticTextDocumentRegistrationOptionsModel),
}

impl DeepView for TypeDefinitionProviderCapability {
    type V = TypeDefinitionProviderCapabilityModel;

    open spec fn deep_view(&self) -> TypeDefinitionProviderCapabilityModel {
        match self {
            TypeDefinitionProviderCapability::Simple(value) => TypeDefinitionProviderCapabilityModel::Simple(value.deep_view()),
            TypeDefinitionProviderCapability::Options(value) => TypeDefinitionProviderCapabilityModel::Options(value.deep_view()),
        }
    }
}

impl Codec for TypeDefinitionProviderCapability {
    open spec fn encode(value: TypeDefinitionProviderCapabilityModel) -> JsonValue {
        match value {
            TypeDefinitionProviderCapabilityModel::Simple(value) => bool::encode(value),
            TypeDefinitionProviderCapabilityModel::Options(value) => StaticTextDocumentRegistrationOptions::encode(value),
        }
    }

    open spec fn decode(json: JsonValue) -> Result<TypeDefinitionProviderCapabilityModel, CodecError> {
        if let Ok(value) = bool::decode(json) {
            Ok(TypeDefinitionProviderCapabilityModel::Simple(value))
        } else if let Ok(value) = StaticTextDocumentRegistrationOptions::decode(json) {
            Ok(TypeDefinitionProviderCapabilityModel::Options(value))
        } else {
            Err(CodecError::NoVariantMatched)
        }
    }

    fn serialize(&self) -> (json: Json) {
        match self {
            TypeDefinitionProviderCapability::Simple(value) => value.serialize(),
            TypeDefinitionProviderCapability::Options(value) => value.serialize(),
        }
    }

    fn deserialize(json: &Json) -> (result: Result<TypeDefinitionProviderCapability, CodecError>) {
        if let Ok(value) = bool::deserialize(json) {
            Ok(TypeDefinitionProviderCapability::Simple(value))
        } else if let Ok(value) = StaticTextDocumentRegistrationOptions::deserialize(json) {
            Ok(TypeDefinitionProviderCapability::Options(value))
        } else {
            Err(CodecError::NoVariantMatched)
        }
    }
}

impl TypeDefinitionProviderCapability {
    /// A value comes back unchanged from its document exactly when its
    /// payload does and no variant declared before its own reads the
    /// payload's document.
    pub proof fn lemma_round_trip(value: TypeDefinitionProviderCapabilityModel)
        ensures
            survives::<TypeDefinitionProviderCapability>(value) <==> match value {
                TypeDefinitionProviderCapabilityModel::Simple(v) => survives::<bool>(v),
                TypeDefinitionProviderCapabilityModel::Options(v) => bool::decode(StaticTextDocumentRegistrationOptions::encode(v)) is Err
                    && survives::<StaticTextDocumentRegistrationOptions>(v),
            },
    {
    }

    /// Every value comes back unchanged from the document that stands for it.
    pub proof fn lemma_survives(value: TypeDefinitionProviderCapabilityModel)
        ensures
            survives::<TypeDefinitionProviderCapability>(value),
    {
        broadcast use group_lookup;

        reveal(required);
        reveal(optional);
        reveal_strlit("documentSelector");
        reveal_strlit("id");
        match value {
            TypeDefinitionProviderCapabilityModel::Simple(_) => {},
            TypeDefinitionProviderCapabilityModel::Options(v) => {
                StaticTextDocumentRegistrationOptions::lemma_survives(v);
            },
        }
    }
}

impl From<StaticTextDocumentRegistrationOptions> for TypeDefinitionProviderCapability {
    fn from(from: StaticTextDocumentRegistrationOptions) -> (result: TypeDefinitionProviderCapability) {
        TypeDefinitionProviderCapability::Options(from)
    }
}

impl FromSpecImpl<StaticTextDocumentRegistrationOptions> for TypeDefinitionProviderCapability {
    open spec fn obeys_from_spec() -> bool {
        true
    }

    open spec fn from_spec(from: StaticTextDocumentRegistrationOptions) -> TypeDefinitionProviderCapability {
        TypeDefinitionProviderCapability::Options(from)
    }
}

impl From<bool> for TypeDefinitionProviderCapability {
    fn from(from: bool) -> (result: TypeDefinitionProviderCapability) {
        TypeDefinitionProviderCapability::Simple(from)
    }
}

impl FromSpecImpl<bool> for TypeDefinitionProviderCapability {
    open spec fn obeys_from_spec() -> bool {
        true
    }

    open spec fn from_spec(from: bool) -> TypeDefinitionProviderCapability {
        TypeDefinitionProviderCapability::Simple(from)
    }
}

#[derive(Debug, PartialEq, Eq, Structural, Clone)]
pub enum HoverProviderCapability {
    Simple(bool),
    Options(HoverOptions),
}

impl DeepView for HoverProviderCapability {
    type V = HoverProviderCapability;

    open spec fn deep_view(&self) -> HoverProviderCapability {
        match self {
            HoverProviderCapability::Simple(value) => HoverProviderCapability::Simple(value.deep_view()),
            HoverProviderCapability::Options(value) => HoverProviderCapability::Options(value.deep_view()),
        }
    }
}

impl Codec for HoverProviderCapability {
    open spec fn encode(value: HoverProviderCapability) -> JsonValue {
        match value {
            HoverProviderCapability::Simple(value) => bool::encode(value),
            HoverProviderCapability::Options(value) => HoverOptions::encode(value),
        }
    }

    open spec fn decode(json: JsonValue) -> Result<HoverProviderCapability, CodecError> {
        if let Ok(value) = bool::decode(json) {
            Ok(HoverProviderCapability::Simple(value))
        } else if let Ok(value) = HoverOptions::decode(json) {
            Ok(HoverProviderCapability::Options(value))
        } else {
            Err(CodecError::NoVariantMatched)
        }
    }

    fn serialize(&self) -> (json: Json) {
        match self {
            HoverProviderCapability::Simple(value) => value.serialize(),
            HoverProviderCapability::Options(value) => value.serialize(),
        }
    }

    fn deserialize(json: &Json) -> (result: Result<HoverProviderCapability, CodecError>) {
        if let Ok(value) = bool::deserialize(json) {
            Ok(HoverProviderCapability::Simple(value))
        } else if let Ok(value) = HoverOptions::deserialize(json) {
            Ok(HoverProviderCapability::Options(value))
        } else {
            Err(CodecError::NoVariantMatched)
        }
    }
}

impl HoverProviderCapability {
    /// A value comes back unchanged from its document exactly when its
    /// payload does and no variant declared before its own reads the
    /// payload's document.
    pub proof fn lemma_round_trip(value: HoverProviderCapability)
        ensures
            survives::<HoverProviderCapability>(value) <==> match value {
                HoverProviderCapability::Simple(v) => survives::<bool>(v),
                HoverProviderCapability::Options(v) => bool::decode(HoverOptions::encode(v)) is Err
                    && survives::<HoverOptions>(v),
            },
    {
    }

    /// Every value comes back unchanged from the document that stands for it.
    pub proof fn lemma_survives(value: HoverProviderCapability)
        ensures
            survives::<HoverProviderCapability>(value),
    {
        broadcast use group_lookup;

        reveal(required);
        reveal(optional);
        reveal_strlit("workDoneProgress");
        match value {
            HoverProviderCapability::Simple(_) => {},
            HoverProviderCapability::Options(v) => {
                HoverOptions::lemma_survives(v);
            },
        }
    }
}

impl From<HoverOptions> for HoverProviderCapability {
    fn from(from: HoverOptions) -> (result: HoverProviderCapability) {
        HoverProviderCapability::Options(from)
    }
}

impl FromSpecImpl<HoverOptions> for HoverProviderCapability {
    open spec fn obeys_from_spec() -> bool {
        true
    }

    open spec fn from_spec(from: HoverOptions) -> HoverProviderCapability {
        HoverProviderCapability::Options(from)
    }
}

impl From<bool> for HoverProviderCapability {
    fn from(from: bool) -> (result: HoverProviderCapability) {
        HoverProviderCapability::Simple(from)
    }
}

impl FromSpecImpl<bool> for HoverProviderCapability {
    open spec fn obeys_from_spec() -> bool {
        true
    }

    open spec fn from_spec(from: bool) -> HoverProviderCapability {
        HoverProviderCapability::Simple(from)
    }
}

#[derive(Debug, PartialEq, Eq, Clone)]
pub enum ColorProviderCapability {
    Simple(bool),
    ColorProvider(ColorProviderOptions),
    Options(StaticTextDocumentColorProviderOptions),
}

/// What a [`ColorProviderCapability`] stands for.
pub enum ColorProviderCapabilityModel {
    Simple(bool),
    ColorProvider(ColorProviderOptions),
    Options(StaticTextDocumentColorProviderOptionsModel),
}

impl DeepView for ColorProviderCapability {
    type V = ColorProviderCapabilityModel;

    open spec fn deep_view(&self) -> ColorProviderCapabilityModel {
        match self {
            ColorProviderCapability::Simple(value) => ColorProviderCapabilityModel::Simple(value.deep_view()),
            ColorProviderCapability::ColorProvider(value) => ColorProviderCapabilityModel::ColorProvider(value.deep_view()),
            ColorProviderCapability::Options(value) => ColorProviderCapabilityModel::Options(value.deep_view()),
        }
    }
}

impl Codec for ColorProviderCapability {
    open spec fn encode(value: ColorProviderCapabilityModel) -> JsonValue {
        match value {
            ColorProviderCapabilityModel::Simple(value) => bool::encode(value),
            ColorProviderCapabilityModel::ColorProvider(value) => ColorProviderOptions::encode(value),
            ColorProviderCapabilityModel::Options(value) => StaticTextDocumentColorProviderOptions::encode(value),
        }
    }

    open spec fn decode(json: JsonValue) -> Result<ColorProviderCapabilityModel, CodecError> {
        if let Ok(value) = bool::decode(json) {
            Ok(ColorProviderCapabilityModel::Simple(value))
        } else if let Ok(value) = ColorProviderOptions::decode(json) {
            Ok(ColorProviderCapabilityModel::ColorProvider(value))
        } else if let Ok(value) = StaticTextDocumentColorProviderOptions::decode(json) {
            Ok(ColorProviderCapabilityModel::Options(value))
        } else {
            Err(CodecError::NoVariantMatched)
        }
    }

    fn serialize(&self) -> (json: Json) {
        match self {
            ColorProviderCapability::Simple(value) => value.serialize(),
            ColorProviderCapability::ColorProvider(value) => value.serialize(),
            ColorProviderCapability::Options(value) => value.serialize(),
        }
    }

    fn deserialize(json: &Json) -> (result: Result<ColorProviderCapability, CodecError>) {
        if let Ok(value) = bool::deserialize(json) {
            Ok(ColorProviderCapability::Simple(value))
        } else if let Ok(value) = ColorProviderOptions::deserialize(json) {
            Ok(ColorProviderCapability::ColorProvider(value))
        } else if let Ok(value) = StaticTextDocumentColorProviderOptions::deserialize(json) {
            Ok(ColorProviderCapability::Options(value))
        } else {
            Err(CodecError::NoVariantMatched)
        }
    }
}

impl ColorProviderCapability {
    /// A value comes back unchanged from its document exactly when its
    /// payload does and no variant declared before its own reads the
    /// payload's document.
    pub proof fn lemma_round_trip(value: ColorProviderCapabilityModel)
        ensures
            survives::<ColorProviderCapability>(value) <==> match value {
                ColorProviderCapabilityModel::Simple(v) => survives::<bool>(v),
                ColorProviderCapabilityModel::ColorProvider(v) => bool::decode(ColorProviderOptions::encode(v)) is Err
                    && survives::<ColorProviderOptions>(v),
                ColorProviderCapabilityModel::Options(v) => bool::decode(StaticTextDocumentColorProviderOptions::encode(v)) is Err
                    && ColorProviderOptions::decode(StaticTextDocumentColorProviderOptions::encode(v)) is Err
                    && survives::<StaticTextDocumentColorProviderOptions>(v),
            },
    {
    }
}

impl From<ColorProviderOptions> for ColorProviderCapability {
    fn from(from: ColorProviderOptions) -> (result: ColorProviderCapability) {
        ColorProviderCapability::ColorProvider(from)
    }
}

impl FromSpecImpl<ColorProviderOptions> for ColorProviderCapability {
    open spec fn obeys_from_spec() -> bool {
        true
    }

    open spec fn from_spec(from: ColorProviderOptions) -> ColorProviderCapability {
        ColorProviderCapability::ColorProvider(from)
    }
}

impl From<StaticTextDocumentColorProviderOptions> for ColorProviderCapability {
    fn from(from: StaticTextDocumentColorProviderOptions) -> (result: ColorProviderCapability) {
        ColorProviderCapability::Options(from)
    }
}

impl FromSpecImpl<StaticTextDocumentColorProviderOptions> for ColorProviderCapability {
    open spec fn obeys_from_spec() -> bool {
        true
    }

    open spec fn from_spec(from: StaticTextDocumentColorProviderOptions) -> ColorProviderCapability {
        ColorProviderCapability::Options(from)
    }
}

impl From<bool> for ColorProviderCapability {
    fn from(from: bool) -> (result: ColorProviderCapability) {
        ColorProviderCapability::Simple(from)
    }
}

impl FromSpecImpl<bool> for ColorProviderCapability {
    open spec fn obeys_from_spec() -> bool {
        true
    }

    open spec fn from_spec(from: bool) -> ColorProviderCapability {
        ColorProviderCapability::Simple(from)
    }
}

#[derive(Debug, PartialEq, Eq, Clone)]
pub enum CodeActionProviderCapability {
    Simple(bool),
    Options(CodeActionOptions),
}

/// What a [`CodeActionProviderCapability`] stands for.
pub enum CodeActionProviderCapabilityModel {
    Simple(bool),
    Options(CodeActionOptionsModel),
}

impl DeepView for CodeActionProviderCapability {
    type V = CodeActionProviderCapabilityModel;

    open spec fn deep_view(&self) -> CodeActionProviderCapabilityModel {
        match self {
            CodeActionProviderCapability::Simple(value) => CodeActionProviderCapabilityModel::Simple(value.deep_view()),
            CodeActionProviderCapability::Options(value) => CodeActionProviderCapabilityModel::Options(value.deep_view()),
        }
    }
}

impl Codec for CodeActionProviderCapability {
    open spec fn encode(value: CodeActionProviderCapabilityModel) -> JsonValue {
        match value {
            CodeActionProviderCapabilityModel::Simple(value) => bool::encode(value),
            CodeActionProviderCapabilityModel::Options(value) => CodeActionOptions::encode(value),
        }
    }

    open spec fn decode(json: JsonValue) -> Result<CodeActionProviderCapabilityModel, CodecError> {
        if let Ok(value) = bool::decode(json) {
            Ok(CodeActionProviderCapabilityModel::Simple(value))
        } else if let Ok(value) = CodeActionOptions::decode(json) {
            Ok(CodeActionProviderCapabilityModel::Options(value))
        } else {
            Err(CodecError::NoVariantMatched)
        }
    }

    fn serialize(&self) -> (json: Json) {
        match self {
            CodeActionProviderCapability::Simple(value) => value.serialize(),
            CodeActionProviderCapability::Options(value) => value.serialize(),
        }
    }

    fn deserialize(json: &Json) -> (result: Result<CodeActionProviderCapability, CodecError>) {
        if let Ok(value) = bool::deserialize(json) {
            Ok(CodeActionProviderCapability::Simple(value))
        } else if let Ok(value) = CodeActionOptions::deserialize(json) {
            Ok(CodeActionProviderCapability::Options(value))
        } else {
            Err(CodecError::NoVariantMatched)
        }
    }
}

impl CodeActionProviderCapability {
    /// A value comes back unchanged from its document exactly when its
    /// payload does and no variant declared before its own reads the
    /// payload's document.
    pub proof fn lemma_round_trip(value: CodeActionProviderCapabilityModel)
        ensures
            survives::<CodeActionProviderCapability>(value) <==> match value {
                CodeActionProviderCapabilityModel::Simple(v) => survives::<bool>(v),
                CodeActionProviderCapabilityModel::Options(v) => bool::decode(CodeActionOptions::encode(v)) is Err
                    && survives::<CodeActionOptions>(v),
            },
    {
    }

    /// Every value comes back unchanged from the document that stands for it.
    pub proof fn lemma_survives(value: CodeActionProviderCapabilityModel)
        ensures
            survives::<CodeActionProviderCapability>(value),
    {
        broadcast use group_lookup;

        reveal(required);
        reveal(optional);
        reveal_strlit("codeActionKinds");
        reveal_strlit("workDoneProgress");
        match value {
            CodeActionProviderCapabilityModel::Simple(_) => {},
            CodeActionProviderCapabilityModel::Options(v) => {
                CodeActionOptions::lemma_survives(v);
            },
        }
    }
}

impl From<CodeActionOptions> for CodeActionProviderCapability {
    fn from(from: CodeActionOptions) -> (result: CodeActionProviderCapability) {
        CodeActionProviderCapability::Options(from)
    }
}

impl FromSpecImpl<CodeActionOptions> for CodeActionProviderCapability {
    open spec fn obeys_from_spec() -> bool {
        true
    }

    open spec fn from_spec(from: CodeActionOptions) -> CodeActionProviderCapability {
        CodeActionProviderCapability::Options(from)
    }
}

impl From<bool> for CodeActionProviderCapability {
    fn from(from: bool) -> (result: CodeActionProviderCapability) {
        CodeActionProviderCapability::Simple(from)
    }
}

impl FromSpecImpl<bool> for CodeActionProviderCapability {
    open spec fn obeys_from_spec() -> bool {
        true
    }

    open spec fn from_spec(from: bool) -> CodeActionProviderCapability {
        CodeActionProviderCapability::Simple(from)
    }
}

#[derive(Debug, PartialEq, Clone, Default)]
pub struct ServerCapabilities {
    /// Defines how text documents are synced.
    pub text_document_sync: Option<TextDocumentSyncCapability>,
    /// Capabilities specific to `textDocument/selectionRange` requests.
    pub selection_range_provider: Option<SelectionRangeProviderCapability>,
    /// The server provides hover support.
    pub hover_provider: Option<HoverProviderCapability>,
    /// The server provides completion support.
    pub completion_provider: Option<CompletionOptions>,
    /// The server provides signature help support.
    pub signature_help_provider: Option<SignatureHelpOptions>,
    /// The server provides goto definition support.
    pub definition_provider: Option<bool>,
    /// The server provides goto type definition support.
    pub type_definition_provider: Option<TypeDefinitionProviderCapability>,
    /// the server provides goto implementation support.
    pub implementation_provider: Option<ImplementationProviderCapability>,
    /// The server provides find references support.
    pub references_provider: Option<bool>,
    /// The server provides document highlight support.
    pub document_highlight_provider: Option<bool>,
    /// The server provides document symbol support.
    pub document_symbol_provider: Option<bool>,
    /// The server provides workspace symbol support.
    pub workspace_symbol_provider: Option<bool>,
    /// The server provides code actions.
    pub code_action_provider: Option<CodeActionProviderCapability>,
    /// The server provides code lens.
    pub code_lens_provider: Option<CodeLensOptions>,
    /// The server provides document formatting.
    pub document_formatting_provider: Option<bool>,
    /// The server provides document range formatting.
    pub document_range_formatting_provider: Option<bool>,
    /// The server provides document formatting on typing.
    pub document_on_type_formatting_provider: Option<DocumentOnTypeFormattingOptions>,
    /// The server provides rename support.
    pub rename_provider: Option<RenameProviderCapability>,
    /// The server provides document link support.
    pub document_link_provider: Option<DocumentLinkOptions>,
    /// The server provides color provider support.
    pub color_provider: Option<ColorProviderCapability>,
    /// The server provides folding provider support.
    pub folding_range_provider: Option<FoldingRangeProviderCapability>,
    /// The server provides go to declaration support.
    pub declaration_provider: Option<bool>,
    /// The server provides execute command support.
    pub execute_command_provider: Option<ExecuteCommandOptions>,
    /// Workspace specific server capabilities
    pub workspace: Option<WorkspaceCapability>,
    /// Semantic highlighting server capabilities.
    pub semantic_highlighting: Option<SemanticHighlightingServerCapability>,
    /// Call hierarchy provider capabilities.
    pub call_hierarchy_provider: Option<CallHierarchyServerCapability>,
    /// Semantic tokens server capabilities.
    pub semantic_tokens_provider: Option<SemanticTokensServerCapabilities>,
    /// Experimental server capabilities.
    pub experimental: Option<Json>,
}

/// What a [`ServerCapabilities`] stands for.
pub struct ServerCapabilitiesModel {
    pub text_document_sync: Option<TextDocumentSyncCapability>,
    pub selection_range_provider: Option<SelectionRangeProviderCapabilityModel>,
    pub hover_provider: Option<HoverProviderCapability>,
    pub completion_provider: Option<CompletionOptionsModel>,
    pub signature_help_provider: Option<SignatureHelpOptionsModel>,
    pub definition_provider: Option<bool>,
    pub type_definition_provider: Option<TypeDefinitionProviderCapabilityModel>,
    pub implementation_provider: Option<ImplementationProviderCapabilityModel>,
    pub references_provider: Option<bool>,
    pub document_highlight_provider: Option<bool>,
    pub document_symbol_provider: Option<bool>,
    pub workspace_symbol_provider: Option<bool>,
    pub code_action_provider: Option<CodeActionProviderCapabilityModel>,
    pub code_lens_provider: Option<CodeLensOptions>,
    pub document_formatting_provider: Option<bool>,
    pub document_range_formatting_provider: Option<bool>,
    pub document_on_type_formatting_provider: Option<DocumentOnTypeFormattingOptionsModel>,
    pub rename_provider: Option<RenameProviderCapability>,
    pub document_link_provider: Option<DocumentLinkOptions>,
    pub color_provider: Option<ColorProviderCapabilityModel>,
    pub folding_range_provider: Option<FoldingRangeProviderCapabilityModel>,
    pub declaration_provider: Option<bool>,
    pub execute_command_provider: Option<ExecuteCommandOptionsModel>,
    pub workspace: Option<WorkspaceCapabilityModel>,
    pub semantic_highlighting: Option<SemanticHighlightingServerCapabilityModel>,
    pub call_hierarchy_provider: Option<CallHierarchyServerCapability>,
    pub semantic_tokens_provider: Option<SemanticTokensServerCapabilitiesModel>,
    pub experimental: Option<JsonValue>,
}

impl DeepView for ServerCapabilities {
    type V = ServerCapabilitiesModel;

    open spec fn deep_view(&self) -> ServerCapabilitiesModel {
        ServerCapabilitiesModel {
            text_document_sync: self.text_document_sync.deep_view(),
            selection_range_provider: self.selection_range_provider.deep_view(),
            hover_provider: self.hover_provider.deep_view(),
            completion_provider: self.completion_provider.deep_view(),
            signature_help_provider: self.signature_help_provider.deep_view(),
            definition_provider: self.definition_provider.deep_view(),
            type_definition_provider: self.type_definition_provider.deep_view(),
            implementation_provider: self.implementation_provider.deep_view(),
            references_provider: self.references_provider.deep_view(),
            document_highlight_provider: self.document_highlight_provider.deep_view(),
            document_symbol_provider: self.document_symbol_provider.deep_view(),
            workspace_symbol_provider: self.workspace_symbol_provider.deep_view(),
            code_action_provider: self.code_action_provider.deep_view(),
            code_lens_provider: self.code_lens_provider.deep_view(),
            document_formatting_provider: self.document_formatting_provider.deep_view(),
            document_range_formatting_provider: self.document_range_formatting_provider.deep_view(),
            document_on_type_formatting_provider: self.document_on_type_formatting_provider.deep_view(),
            rename_provider: self.rename_provider.deep_view(),
            document_link_provider: self.document_link_provider.deep_view(),
            color_provider: self.color_provider.deep_view(),
            folding_range_provider: self.folding_range_provider.deep_view(),
            declaration_provider: self.declaration_provider.deep_view(),
            execute_command_provider: self.execute_command_provider.deep_view(),
            workspace: self.workspace.deep_view(),
            semantic_highlighting: self.semantic_highlighting.deep_view(),
            call_hierarchy_provider: self.call_hierarchy_provider.deep_view(),
            semantic_tokens_provider: self.semantic_tokens_provider.deep_view(),
            experimental: self.experimental.deep_view(),
        }
    }
}

impl Record for ServerCapabilities {
    open spec fn members(before: Seq<Member>, value: ServerCapabilitiesModel) -> Seq<Member> {
        before
            + optional_field::<TextDocumentSyncCapability>(
                "textDocumentSync"@,
                value.text_document_sync,
            )
            + optional_field::<SelectionRangeProviderCapability>(
                "selectionRangeProvider"@,
                value.selection_range_provider,
            )
            + optional_field::<HoverProviderCapability>("hoverProvider"@, value.hover_provider)
            + optional_field::<CompletionOptions>("completionProvider"@, value.completion_provider)
            + optional_field::<SignatureHelpOptions>(
                "signatureHelpProvider"@,
                value.signature_help_provider,
            )
            + optional_field::<bool>("definitionProvider"@, value.definition_provider)
            + optional_field::<TypeDefinitionProviderCapability>(
                "typeDefinitionProvider"@,
                value.type_definition_provider,
            )
            + optional_field::<ImplementationProviderCapability>(
                "implementationProvider"@,
                value.implementation_provider,
            )
            + optional_field::<bool>("referencesProvider"@, value.references_provider)
            + optional_field::<bool>(
                "documentHighlightProvider"@,
                value.document_highlight_provider,
            )
            + optional_field::<bool>("documentSymbolProvider"@, value.document_symbol_provider)
            + optional_field::<bool>("workspaceSymbolProvider"@, value.workspace_symbol_provider)
            + optional_field::<CodeActionProviderCapability>(
                "codeActionProvider"@,
                value.code_action_provider,
            )
            + optional_field::<CodeLensOptions>("codeLensProvider"@, value.code_lens_provider)
            + optional_field::<bool>(
                "documentFormattingProvider"@,
                value.document_formatting_provider,
            )
            + optional_field::<bool>(
                "documentRangeFormattingProvider"@,
                value.document_range_formatting_provider,
            )
            + optional_field::<DocumentOnTypeFormattingOptions>(
                "documentOnTypeFormattingProvider"@,
                value.document_on_type_formatting_provider,
            )
            + optional_field::<RenameProviderCapability>("renameProvider"@, value.rename_provider)
            + optional_field::<DocumentLinkOptions>(
                "documentLinkProvider"@,
                value.document_link_provider,
            )
            + optional_field::<ColorProviderCapability>("colorProvider"@, value.color_provider)
            + optional_field::<FoldingRangeProviderCapability>(
                "foldingRangeProvider"@,
                value.folding_range_provider,
            )
            + optional_field::<bool>("declarationProvider"@, value.declaration_provider)
            + optional_field::<ExecuteCommandOptions>(
                "executeCommandProvider"@,
                value.execute_command_provider,
            )
            + optional_field::<WorkspaceCapability>("workspace"@, value.workspace)
            + optional_field::<SemanticHighlightingServerCapability>(
                "semanticHighlighting"@,
                value.semantic_highlighting,
            )
            + optional_field::<CallHierarchyServerCapability>(
                "callHierarchyProvider"@,
                value.call_hierarchy_provider,
            )
            + optional_field::<SemanticTokensServerCapabilities>(
                "semanticTokensProvider"@,
                value.semantic_tokens_provider,
            )
            + optional_field::<Json>("experimental"@, value.experimental)
    }

    open spec fn read(members: Seq<Member>) -> Result<ServerCapabilitiesModel, CodecError> {
        let text_document_sync = optional::<TextDocumentSyncCapability>(
            members,
            "textDocumentSync"@,
        );
        let selection_range_provider = optional::<SelectionRangeProviderCapability>(
            members,
            "selectionRangeProvider"@,
        );
        let hover_provider = optional::<HoverProviderCapability>(members, "hoverProvider"@);
        let completion_provider = optional::<CompletionOptions>(members, "completionProvider"@);
        let signature_help_provider = optional::<SignatureHelpOptions>(
            members,
            "signatureHelpProvider"@,
        );
        let definition_provider = optional::<bool>(members, "definitionProvider"@);
        let type_definition_provider = optional::<TypeDefinitionProviderCapability>(
            members,
            "typeDefinitionProvider"@,
        );
        let implementation_provider = optional::<ImplementationProviderCapability>(
            members,
            "implementationProvider"@,
        );
        let references_provider = optional::<bool>(members, "referencesProvider"@);
        let document_highlight_provider = optional::<bool>(members, "documentHighlightProvider"@);
        let document_symbol_provider = optional::<bool>(members, "documentSymbolProvider"@);
        let workspace_symbol_provider = optional::<bool>(members, "workspaceSymbolProvider"@);
        let code_action_provider = optional::<CodeActionProviderCapability>(
            members,
            "codeActionProvider"@,
        );
        let code_lens_provider = optional::<CodeLensOptions>(members, "codeLensProvider"@);
        let document_formatting_provider = optional::<bool>(members, "documentFormattingProvider"@);
        let document_range_formatting_provider = optional::<bool>(
            members,
            "documentRangeFormattingProvider"@,
        );
        let document_on_type_formatting_provider = optional::<DocumentOnTypeFormattingOptions>(
            members,
            "documentOnTypeFormattingProvider"@,
        );
        let rename_provider = optional::<RenameProviderCapability>(members, "renameProvider"@);
        let document_link_provider = optional::<DocumentLinkOptions>(
            members,
            "documentLinkProvider"@,
        );
        let color_provider = optional::<ColorProviderCapability>(members, "colorProvider"@);
        let folding_range_provider = optional::<FoldingRangeProviderCapability>(
            members,
            "foldingRangeProvider"@,
        );
        let declaration_provider = optional::<bool>(members, "declarationProvider"@);
        let execute_command_provider = optional::<ExecuteCommandOptions>(
            members,
            "executeCommandProvider"@,
        );
        let workspace = optional::<WorkspaceCapability>(members, "workspace"@);
        let semantic_highlighting = optional::<SemanticHighlightingServerCapability>(
            members,
            "semanticHighlighting"@,
        );
        let call_hierarchy_provider = optional::<CallHierarchyServerCapability>(
            members,
            "callHierarchyProvider"@,
        );
        let semantic_tokens_provider = optional::<SemanticTokensServerCapabilities>(
            members,
            "semanticTokensProvider"@,
        );
        let experimental = optional::<Json>(members, "experimental"@);
        if text_document_sync is Err {
            Err(text_document_sync->Err_0)
        } else if selection_range_provider is Err {
            Err(selection_range_provider->Err_0)
        } else if hover_provider is Err {
            Err(hover_provider->Err_0)
        } else if completion_provider is Err {
            Err(completion_provider->Err_0)
        } else if signature_help_provider is Err {
            Err(signature_help_provider->Err_0)
        } else if definition_provider is Err {
            Err(definition_provider->Err_0)
        } else if type_definition_provider is Err {
            Err(type_definition_provider->Err_0)
        } else if implementation_provider is Err {
            Err(implementation_provider->Err_0)
        } else if references_provider is Err {
            Err(references_provider->Err_0)
        } else if document_highlight_provider is Err {
            Err(document_highlight_provider->Err_0)
        } else if document_symbol_provider is Err {
            Err(document_symbol_provider->Err_0)
        } else if workspace_symbol_provider is Err {
            Err(workspace_symbol_provider->Err_0)
        } else if code_action_provider is Err {
            Err(code_action_provider->Err_0)
        } else if code_lens_provider is Err {
            Err(code_lens_provider->Err_0)
        } else if document_formatting_provider is Err {
            Err(document_formatting_provider->Err_0)
        } else if document_range_formatting_provider is Err {
            Err(document_range_formatting_provider->Err_0)
        } else if document_on_type_formatting_provider is Err {
            Err(document_on_type_formatting_provider->Err_0)
        } else if rename_provider is Err {
            Err(rename_provider->Err_0)
        } else if document_link_provider is Err {
            Err(document_link_provider->Err_0)
        } else if color_provider is Err {
            Err(color_provider->Err_0)
        } else if folding_range_provider is Err {
            Err(folding_range_provider->Err_0)
        } else if declaration_provider is Err {
            Err(declaration_provider->Err_0)
        } else if execute_command_provider is Err {
            Err(execute_command_provider->Err_0)
        } else if workspace is Err {
            Err(workspace->Err_0)
        } else if semantic_highlighting is Err {
            Err(semantic_highlighting->Err_0)
        } else if call_hierarchy_provider is Err {
            Err(call_hierarchy_provider->Err_0)
        } else if semantic_tokens_provider is Err {
            Err(semantic_tokens_provider->Err_0)
        } else if experimental is Err {
            Err(experimental->Err_0)
        } else {
            Ok(
                ServerCapabilitiesModel {
                    text_document_sync: text_document_sync->Ok_0,
                    selection_range_provider: selection_range_provider->Ok_0,
                    hover_provider: hover_provider->Ok_0,
                    completion_provider: completion_provider->Ok_0,
                    signature_help_provider: signature_help_provider->Ok_0,
                    definition_provider: definition_provider->Ok_0,
                    type_definition_provider: type_definition_provider->Ok_0,
                    implementation_provider: implementation_provider->Ok_0,
                    references_provider: references_provider->Ok_0,
                    document_highlight_provider: document_highlight_provider->Ok_0,
                    document_symbol_provider: document_symbol_provider->Ok_0,
                    workspace_symbol_provider: workspace_symbol_provider->Ok_0,
                    code_action_provider: code_action_provider->Ok_0,
                    code_lens_provider: code_lens_provider->Ok_0,
                    document_formatting_provider: document_formatting_provider->Ok_0,
                    document_range_formatting_provider: document_range_formatting_provider->Ok_0,
                    document_on_type_formatting_provider: document_on_type_formatting_provider->Ok_0,
                    rename_provider: rename_provider->Ok_0,
                    document_link_provider: document_link_provider->Ok_0,
                    color_provider: color_provider->Ok_0,
                    folding_range_provider: folding_range_provider->Ok_0,
                    declaration_provider: declaration_provider->Ok_0,
                    execute_command_provider: execute_command_provider->Ok_0,
                    workspace: workspace->Ok_0,
                    semantic_highlighting: semantic_highlighting->Ok_0,
                    call_hierarchy_provider: call_hierarchy_provider->Ok_0,
                    semantic_tokens_provider: semantic_tokens_provider->Ok_0,
                    experimental: experimental->Ok_0,
                },
            )
        }
    }

    fn write(&self, members: &mut Vec<(String, Json)>) {
        put_optional(members, "textDocumentSync", &self.text_document_sync);
        put_optional(members, "selectionRangeProvider", &self.selection_range_provider);
        put_optional(members, "hoverProvider", &self.hover_provider);
        put_optional(members, "completionProvider", &self.completion_provider);
        put_optional(members, "signatureHelpProvider", &self.signature_help_provider);
        put_optional(members, "definitionProvider", &self.definition_provider);
        put_optional(members, "typeDefinitionProvider", &self.type_definition_provider);
        put_optional(members, "implementationProvider", &self.implementation_provider);
        put_optional(members, "referencesProvider", &self.references_provider);
        put_optional(members, "documentHighlightProvider", &self.document_highlight_provider);
        put_optional(members, "documentSymbolProvider", &self.document_symbol_provider);
        put_optional(members, "workspaceSymbolProvider", &self.workspace_symbol_provider);
        put_optional(members, "codeActionProvider", &self.code_action_provider);
        put_optional(members, "codeLensProvider", &self.code_lens_provider);
        put_optional(members, "documentFormattingProvider", &self.document_formatting_provider);
        put_optional(
            members,
            "documentRangeFormattingProvider",
            &self.document_range_formatting_provider,
        );
        put_optional(
            members,
            "documentOnTypeFormattingProvider",
            &self.document_on_type_formatting_provider,
        );
        put_optional(members, "renameProvider", &self.rename_provider);
        put_optional(members, "documentLinkProvider", &self.document_link_provider);
        put_optional(members, "colorProvider", &self.color_provider);
        put_optional(members, "foldingRangeProvider", &self.folding_range_provider);
        put_optional(members, "declarationProvider", &self.declaration_provider);
        put_optional(members, "executeCommandProvider", &self.execute_command_provider);
        put_optional(members, "workspace", &self.workspace);
        put_optional(members, "semanticHighlighting", &self.semantic_highlighting);
        put_optional(members, "callHierarchyProvider", &self.call_hierarchy_provider);
        put_optional(members, "semanticTokensProvider", &self.semantic_tokens_provider);
        put_optional(members, "experimental", &self.experimental);
    }

    fn scan(members: &Vec<(String, Json)>) -> (result: Result<ServerCapabilities, CodecError>) {
        let text_document_sync = get_optional::<TextDocumentSyncCapability>(
            members,
            "textDocumentSync",
        );
        let selection_range_provider = get_optional::<SelectionRangeProviderCapability>(
            members,
            "selectionRangeProvider",
        );
        let hover_provider = get_optional::<HoverProviderCapability>(members, "hoverProvider");
        let completion_provider = get_optional::<CompletionOptions>(members, "completionProvider");
        let signature_help_provider = get_optional::<SignatureHelpOptions>(
            members,
            "signatureHelpProvider",
        );
        let definition_provider = get_optional::<bool>(members, "definitionProvider");
        let type_definition_provider = get_optional::<TypeDefinitionProviderCapability>(
            members,
            "typeDefinitionProvider",
        );
        let implementation_provider = get_optional::<ImplementationProviderCapability>(
            members,
            "implementationProvider",
        );
        let references_provider = get_optional::<bool>(members, "referencesProvider");
        let document_highlight_provider = get_optional::<bool>(
            members,
            "documentHighlightProvider",
        );
        let document_symbol_provider = get_optional::<bool>(members, "documentSymbolProvider");
        let workspace_symbol_provider = get_optional::<bool>(members, "workspaceSymbolProvider");
        let code_action_provider = get_optional::<CodeActionProviderCapability>(
            members,
            "codeActionProvider",
        );
        let code_lens_provider = get_optional::<CodeLensOptions>(members, "codeLensProvider");
        let document_formatting_provider = get_optional::<bool>(
            members,
            "documentFormattingProvider",
        );
        let document_range_formatting_provider = get_optional::<bool>(
            members,
            "documentRangeFormattingProvider",
        );
        let document_on_type_formatting_provider = get_optional::<DocumentOnTypeFormattingOptions>(
            members,
            "documentOnTypeFormattingProvider",
        );
        let rename_provider = get_optional::<RenameProviderCapability>(members, "renameProvider");
        let document_link_provider = get_optional::<DocumentLinkOptions>(
            members,
            "documentLinkProvider",
        );
        let color_provider = get_optional::<ColorProviderCapability>(members, "colorProvider");
        let folding_range_provider = get_optional::<FoldingRangeProviderCapability>(
            members,
            "foldingRangeProvider",
        );
        let declaration_provider = get_optional::<bool>(members, "declarationProvider");
        let execute_command_provider = get_optional::<ExecuteCommandOptions>(
            members,
            "executeCommandProvider",
        );
        let workspace = get_optional::<WorkspaceCapability>(members, "workspace");
        let semantic_highlighting = get_optional::<SemanticHighlightingServerCapability>(
            members,
            "semanticHighlighting",
        );
        let call_hierarchy_provider = get_optional::<CallHierarchyServerCapability>(
            members,
            "callHierarchyProvider",
        );
        let semantic_tokens_provider = get_optional::<SemanticTokensServerCapabilities>(
            members,
            "semanticTokensProvider",
        );
        let experimental = get_optional::<Json>(members, "experimental");
        if let Err(error) = text_document_sync {
            Err(error)
        } else if let Err(error) = selection_range_provider {
            Err(error)
        } else if let Err(error) = hover_provider {
            Err(error)
        } else if let Err(error) = completion_provider {
            Err(error)
        } else if let Err(error) = signature_help_provider {
            Err(error)
        } else if let Err(error) = definition_provider {
            Err(error)
        } else if let Err(error) = type_definition_provider {
            Err(error)
        } else if let Err(error) = implementation_provider {
            Err(error)
        } else if let Err(error) = references_provider {
            Err(error)
        } else if let Err(error) = document_highlight_provider {
            Err(error)
        } else if let Err(error) = document_symbol_provider {
            Err(error)
        } else if let Err(error) = workspace_symbol_provider {
            Err(error)
        } else if let Err(error) = code_action_provider {
            Err(error)
        } else if let Err(error) = code_lens_provider {
            Err(error)
        } else if let Err(error) = document_formatting_provider {
            Err(error)
        } else if let Err(error) = document_range_formatting_provider {
            Err(error)
        } else if let Err(error) = document_on_type_formatting_provider {
            Err(error)
        } else if let Err(error) = rename_provider {
            Err(error)
        } else if let Err(error) = document_link_provider {
            Err(error)
        } else if let Err(error) = color_provider {
            Err(error)
        } else if let Err(error) = folding_range_provider {
            Err(error)
        } else if let Err(error) = declaration_provider {
            Err(error)
        } else if let Err(error) = execute_command_provider {
            Err(error)
        } else if let Err(error) = workspace {
            Err(error)
        } else if let Err(error) = semantic_highlighting {
            Err(error)
        } else if let Err(error) = call_hierarchy_provider {
            Err(error)
        } else if let Err(error) = semantic_tokens_provider {
            Err(error)
        } else if let Err(error) = experimental {
            Err(error)
        } else {
            Ok(
                ServerCapabilities {
                    text_document_sync: text_document_sync.unwrap(),
                    selection_range_provider: selection_range_provider.unwrap(),
                    hover_provider: hover_provider.unwrap(),
                    completion_provider: completion_provider.unwrap(),
                    signature_help_provider: signature_help_provider.unwrap(),
                    definition_provider: definition_provider.unwrap(),
                    type_definition_provider: type_definition_provider.unwrap(),
                    implementation_provider: implementation_provider.unwrap(),
                    references_provider: references_provider.unwrap(),
                    document_highlight_provider: document_highlight_provider.unwrap(),
                    document_symbol_provider: document_symbol_provider.unwrap(),
                    workspace_symbol_provider: workspace_symbol_provider.unwrap(),
                    code_action_provider: code_action_provider.unwrap(),
                    code_lens_provider: code_lens_provider.unwrap(),
                    document_formatting_provider: document_formatting_provider.unwrap(),
                    document_range_formatting_provider: document_range_formatting_provider.unwrap(),
                    document_on_type_formatting_provider: document_on_type_formatting_provider.unwrap(),
                    rename_provider: rename_provider.unwrap(),
                    document_link_provider: document_link_provider.unwrap(),
                    color_provider: color_provider.unwrap(),
                    folding_range_provider: folding_range_provider.unwrap(),
                    declaration_provider: declaration_provider.unwrap(),
                    execute_command_provider: execute_command_provider.unwrap(),
                    workspace: workspace.unwrap(),
                    semantic_highlighting: semantic_highlighting.unwrap(),
                    call_hierarchy_provider: call_hierarchy_provider.unwrap(),
                    semantic_tokens_provider: semantic_tokens_provider.unwrap(),
                    experimental: experimental.unwrap(),
                },
            )
        }
    }
}

} // verus!
