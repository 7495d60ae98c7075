//! Help on the signature of what is being called.

use crate::basic::{
    DocumentFilter, NumberOrString, Position, TextDocumentIdentifier, TextDocumentPositionParams,
    TextDocumentPositionParamsModel,
};
use crate::codec::{
    Codec, CodecError, field, get, get_optional, group_lookup, lemma_sequence_round_trip, Member,
    optional, optional_field, put, put_optional, Record, required, survives,
};
use crate::completion::{Documentation, DocumentationModel};
use crate::json::{Json, JsonValue, lemma_array_view, Number};
use crate::progress::{WorkDoneProgressOptions, WorkDoneProgressParams, WorkDoneProgressParamsModel};
use crate::registration::{TextDocumentRegistrationOptions, TextDocumentRegistrationOptionsModel};
use vstd::prelude::*;

verus! {

/// Signature help options.
#[derive(Debug, PartialEq, Eq, Clone, Default)]
pub struct SignatureHelpOptions {
    /// The characters that trigger signature help automatically.
    pub trigger_characters: Option<Vec<String>>,
    ///  List of characters that re-trigger signature help.
    /// These trigger characters are only active when signature help is already showing. All trigger characters
    /// are also counted as re-trigger characters.
    pub retrigger_characters: Option<Vec<String>>,
    /// Its members are written among those of this value.
    pub work_done_progress_options: WorkDoneProgressOptions,
}

/// What a [`SignatureHelpOptions`] stands for.
pub struct SignatureHelpOptionsModel {
    pub trigger_characters: Option<Seq<Seq<char>>>,
    pub retrigger_characters: Option<Seq<Seq<char>>>,
    pub work_done_progress_options: WorkDoneProgressOptions,
}

impl DeepView for SignatureHelpOptions {
    type V = SignatureHelpOptionsModel;

    open spec fn deep_view(&self) -> SignatureHelpOptionsModel {
        SignatureHelpOptionsModel {
            trigger_characters: self.trigger_characters.deep_view(),
            retrigger_characters: self.retrigger_characters.deep_view(),
            work_done_progress_options: self.work_done_progress_options.deep_view(),
        }
    }
}

impl Record for SignatureHelpOptions {
    open spec fn members(before: Seq<Member>, value: SignatureHelpOptionsModel) -> Seq<Member> {
        WorkDoneProgressOptions::members(
            before + optional_field::<Vec<String>>("triggerCharacters"@, value.trigger_characters)
                + optional_field::<Vec<String>>("retriggerCharacters"@, value.retrigger_characters),
            value.work_done_progress_options,
        )
    }

    open spec fn read(members: Seq<Member>) -> Result<SignatureHelpOptionsModel, CodecError> {
        let trigger_characters = optional::<Vec<String>>(members, "triggerCharacters"@);
        let retrigger_characters = optional::<Vec<String>>(members, "retriggerCharacters"@);
        let work_done_progress_options = WorkDoneProgressOptions::read(members);
        if trigger_characters is Err {
            Err(trigger_characters->Err_0)
        } else if retrigger_characters is Err {
            Err(retrigger_characters->Err_0)
        } else if work_done_progress_options is Err {
            Err(work_done_progress_options->Err_0)
        } else {
            Ok(
                SignatureHelpOptionsModel {
                    trigger_characters: trigger_characters->Ok_0,
                    retrigger_characters: retrigger_characters->Ok_0,
                    work_done_progress_options: work_done_progress_options->Ok_0,
                },
            )
        }
    }

    fn write(&self, members: &mut Vec<(String, Json)>) {
        put_optional(members, "triggerCharacters", &self.trigger_characters);
        put_optional(members, "retriggerCharacters", &self.retrigger_characters);
        self.work_done_progress_options.write(members);
    }

    fn scan(members: &Vec<(String, Json)>) -> (result: Result<SignatureHelpOptions, CodecError>) {
        let trigger_characters = get_optional::<Vec<String>>(members, "triggerCharacters");
        let retrigger_characters = get_optional::<Vec<String>>(members, "retriggerCharacters");
        let work_done_progress_options = WorkDoneProgressOptions::scan(members);
        if let Err(error) = trigger_characters {
            Err(error)
        } else if let Err(error) = retrigger_characters {
            Err(error)
        } else if let Err(error) = work_done_progress_options {
            Err(error)
        } else {
            Ok(
                SignatureHelpOptions {
                    trigger_characters: trigger_characters.unwrap(),
                    retrigger_characters: retrigger_characters.unwrap(),
                    work_done_progress_options: work_done_progress_options.unwrap(),
                },
            )
        }
    }
}

impl SignatureHelpOptions {
    /// Every value comes back unchanged from the document that stands for it.
    pub proof fn lemma_survives(value: SignatureHelpOptionsModel)
        ensures
            survives::<SignatureHelpOptions>(value),
    {
        broadcast use group_lookup;

        reveal(optional);
        reveal_strlit("triggerCharacters");
        reveal_strlit("retriggerCharacters");
        reveal_strlit("workDoneProgress");
        if let Some(inner) = value.trigger_characters {
            lemma_sequence_round_trip::<String>(inner);
        }
        if let Some(inner) = value.retrigger_characters {
            lemma_sequence_round_trip::<String>(inner);
        }
    }
}

/// Signature help options.
#[derive(Debug, PartialEq, Eq, Clone)]
pub struct SignatureHelpRegistrationOptions {
    /// Its members are written among those of this value.
    pub text_document_registration_options: TextDocumentRegistrationOptions,
}

/// What a [`SignatureHelpRegistrationOptions`] stands for.
pub struct SignatureHelpRegistrationOptionsModel {
    pub text_document_registration_options: TextDocumentRegistrationOptionsModel,
}

impl DeepView for SignatureHelpRegistrationOptions {
    type V = SignatureHelpRegistrationOptionsModel;

    open spec fn deep_view(&self) -> SignatureHelpRegistrationOptionsModel {
        SignatureHelpRegistrationOptionsModel {
            text_document_registration_options: self.text_document_registration_options.deep_view(),
        }
    }
}

impl Record for SignatureHelpRegistrationOptions {
    open spec fn members(before: Seq<Member>, value: SignatureHelpRegistrationOptionsModel) -> Seq<Member> {
        TextDocumentRegistrationOptions::members(before, value.text_document_registration_options)
    }

    open spec fn read(members: Seq<Member>) -> Result<SignatureHelpRegistrationOptionsModel, CodecError> {
        let text_document_registration_options = TextDocumentRegistrationOptions::read(members);
        if text_document_registration_options is Err {
            Err(text_document_registration_options->Err_0)
        } else {
            Ok(
                SignatureHelpRegistrationOptionsModel {
                    text_document_registration_options: text_document_registration_options->Ok_0,
                },
            )
        }
    }

    fn write(&self, members: &mut Vec<(String, Json)>) {
        self.text_document_registration_options.write(members);
    }

    fn scan(members: &Vec<(String, Json)>) -> (result: Result<SignatureHelpRegistrationOptions, CodecError>) {
        let text_document_registration_options = TextDocumentRegistrationOptions::scan(members);
        if let Err(error) = text_document_registration_options {
            Err(error)
        } else {
            Ok(
                SignatureHelpRegistrationOptions {
                    text_document_registration_options: text_document_registration_options.unwrap(),
                },
            )
        }
    }
}

impl SignatureHelpRegistrationOptions {
    /// Every value comes back unchanged from the document that stands for it.
    pub proof fn lemma_survives(value: SignatureHelpRegistrationOptionsModel)
        ensures
            survives::<SignatureHelpRegistrationOptions>(value),
    {
        broadcast use group_lookup;

        reveal(optional);
        reveal_strlit("documentSelector");
        if let Some(inner) = value.text_document_registration_options.document_selector {
            assert forall|i: int| 0 <= i < inner.len() implies survives::<DocumentFilter>(
                #[trigger] inner[i],
            ) by {
                DocumentFilter::lemma_survives(inner[i]);
            }
            lemma_sequence_round_trip::<DocumentFilter>(inner);
        }
    }
}

/// Signature help options.
#[derive(Debug, PartialEq, Eq, Structural, Clone, Copy)]
pub enum SignatureHelpTriggerKind {
    /// Signature help was invoked manually by the user or by a command.
    Invoked,
    ///  Signature help was triggered by a trigger character.
    TriggerCharacter,
    /// Signature help was triggered by the cursor moving or by the document content changing.
    ContentChange,
}

impl DeepView for SignatureHelpTriggerKind {
    type V = SignatureHelpTriggerKind;

    open spec fn deep_view(&self) -> SignatureHelpTriggerKind {
        *self
    }
}

impl SignatureHelpTriggerKind {
    /// The integer that stands for a variant on the wire.
    pub open spec fn number(self) -> u8 {
        match self {
            SignatureHelpTriggerKind::Invoked => 1,
            SignatureHelpTriggerKind::TriggerCharacter => 2,
            SignatureHelpTriggerKind::ContentChange => 3,
        }
    }

    /// The variant that an integer stands for, if any.
    pub open spec fn variant(number: int) -> Option<SignatureHelpTriggerKind> {
        if number == 1 {
            Some(SignatureHelpTriggerKind::Invoked)
        } else if number == 2 {
            Some(SignatureHelpTriggerKind::TriggerCharacter)
        } else if number == 3 {
            Some(SignatureHelpTriggerKind::ContentChange)
        } else {
            None
        }
    }

    /// Gives the integer that stands for this variant on the wire.
    pub fn to_number(self) -> (number: u8)
        ensures
            number == self.number(),
    {
        match self {
            SignatureHelpTriggerKind::Invoked => 1,
            SignatureHelpTriggerKind::TriggerCharacter => 2,
            SignatureHelpTriggerKind::ContentChange => 3,
        }
    }

    /// Gives the variant that an integer stands for, if any.
    pub fn from_number(number: u64) -> (variant: Option<SignatureHelpTriggerKind>)
        ensures
            variant == Self::variant(number as int),
    {
        if number == 1 {
            Some(SignatureHelpTriggerKind::Invoked)
        } else if number == 2 {
            Some(SignatureHelpTriggerKind::TriggerCharacter)
        } else if number == 3 {
            Some(SignatureHelpTriggerKind::ContentChange)
        } else {
            None
        }
    }

    /// Every variant comes back unchanged from the integer that stands for it.
    pub proof fn lemma_survives(value: SignatureHelpTriggerKind)
        ensures
            survives::<SignatureHelpTriggerKind>(value),
    {
    }

    /// An integer is refused exactly when it names no variant, and the
    /// error then holds it together with the bounds of those that do.
    pub proof fn lemma_refusal(number: Number)
        requires
            !(number is Float),
        ensures
            SignatureHelpTriggerKind::decode(JsonValue::Number(number)) is Err <==> !(number matches Number::PosInt(n)
                && 1 <= n <= 3),
            SignatureHelpTriggerKind::decode(JsonValue::Number(number)) is Err ==> SignatureHelpTriggerKind::decode(
                JsonValue::Number(number),
            ) == Err::<SignatureHelpTriggerKind, CodecError>(
                CodecError::InvalidEnumValue { value: number, lowest: 1, highest: 3 },
            ),
    {
    }
}

impl Codec for SignatureHelpTriggerKind {
    open spec fn encode(value: SignatureHelpTriggerKind) -> JsonValue {
        JsonValue::Number(Number::PosInt(value.number() as u64))
    }

    open spec fn decode(json: JsonValue) -> Result<SignatureHelpTriggerKind, CodecError> {
        match json {
            JsonValue::Number(Number::PosInt(n)) => match Self::variant(n as int) {
                Some(variant) => Ok(variant),
                None => Err(
                    CodecError::InvalidEnumValue { value: Number::PosInt(n), lowest: 1, highest: 3 },
                ),
            },
            JsonValue::Number(Number::NegInt(n)) => Err(
                CodecError::InvalidEnumValue { value: Number::NegInt(n), lowest: 1, highest: 3 },
            ),
            _ => Err(CodecError::UnexpectedType),
        }
    }

    fn serialize(&self) -> (json: Json) {
        Json::Number(Number::PosInt(self.to_number() as u64))
    }

    fn deserialize(json: &Json) -> (result: Result<SignatureHelpTriggerKind, CodecError>) {
        match json {
            Json::Number(Number::PosInt(n)) => match Self::from_number(*n) {
                Some(variant) => Ok(variant),
                None => Err(
                    CodecError::InvalidEnumValue { value: Number::PosInt(*n), lowest: 1, highest: 3 },
                ),
            },
            Json::Number(Number::NegInt(n)) => Err(
                CodecError::InvalidEnumValue { value: Number::NegInt(*n), lowest: 1, highest: 3 },
            ),
            _ => Err(CodecError::UnexpectedType),
        }
    }
}

#[derive(Debug, PartialEq, Eq, Clone)]
pub struct SignatureHelpParams {
    /// The signature help context. This is only available if the client specifies
    /// to send this using the client capability  `textDocument.signatureHelp.contextSupport === true`
    pub context: Option<SignatureHelpContext>,
    /// Its members are written among those of this value.
    pub text_document_position_params: TextDocumentPositionParams,
    /// Its members are written among those of this value.
    pub work_done_progress_params: WorkDoneProgressParams,
}

/// What a [`SignatureHelpParams`] stands for.
pub struct SignatureHelpParamsModel {
    pub context: Option<SignatureHelpContextModel>,
    pub text_document_position_params: TextDocumentPositionParamsModel,
    pub work_done_progress_params: WorkDoneProgressParamsModel,
}

impl DeepView for SignatureHelpParams {
    type V = SignatureHelpParamsModel;

    open spec fn deep_view(&self) -> SignatureHelpParamsModel {
        SignatureHelpParamsModel {
            context: self.context.deep_view(),
            text_document_position_params: self.text_document_position_params.deep_view(),
            work_done_progress_params: self.work_done_progress_params.deep_view(),
        }
    }
}

impl Record for SignatureHelpParams {
    open spec fn members(before: Seq<Member>, value: SignatureHelpParamsModel) -> Seq<Member> {
        WorkDoneProgressParams::members(
            TextDocumentPositionParams::members(
                before + optional_field::<SignatureHelpContext>("context"@, value.context),
                value.text_document_position_params,
            ),
            value.work_done_progress_params,
        )
    }

    open spec fn read(members: Seq<Member>) -> Result<SignatureHelpParamsModel, CodecError> {
        let context = optional::<SignatureHelpContext>(members, "context"@);
        let text_document_position_params = TextDocumentPositionParams::read(members);
        let work_done_progress_params = WorkDoneProgressParams::read(members);
        if context is Err {
            Err(context->Err_0)
        } else if text_document_position_params is Err {
            Err(text_document_position_params->Err_0)
        } else if work_done_progress_params is Err {
            Err(work_done_progress_params->Err_0)
        } else {
            Ok(
                SignatureHelpParamsModel {
                    context: context->Ok_0,
                    text_document_position_params: text_document_position_params->Ok_0,
                    work_done_progress_params: work_done_progress_params->Ok_0,
                },
            )
        }
    }

    fn write(&self, members: &mut Vec<(String, Json)>) {
        put_optional(members, "context", &self.context);
        self.text_document_position_params.write(members);
        self.work_done_progress_params.write(members);
    }

    fn scan(members: &Vec<(String, Json)>) -> (result: Result<SignatureHelpParams, CodecError>) {
        let context = get_optional::<SignatureHelpContext>(members, "context");
        let text_document_position_params = TextDocumentPositionParams::scan(members);
        let work_done_progress_params = WorkDoneProgressParams::scan(members);
        if let Err(error) = context {
            Err(error)
        } else if let Err(error) = text_document_position_params {
            Err(error)
        } else if let Err(error) = work_done_progress_params {
            Err(error)
        } else {
            Ok(
                SignatureHelpParams {
                    context: context.unwrap(),
                    text_document_position_params: text_document_position_params.unwrap(),
                    work_done_progress_params: work_done_progress_params.unwrap(),
                },
            )
        }
    }
}

impl SignatureHelpParams {
    /// A value comes back unchanged from the document that stands for it
    /// where its fields meet what is asked of them here.
    pub proof fn lemma_round_trip(value: SignatureHelpParamsModel)
        requires
            survives::<TextDocumentIdentifier>(value.text_document_position_params.text_document),
        ensures
            survives::<SignatureHelpParams>(value),
    {
        broadcast use group_lookup;

        reveal(required);
        reveal(optional);
        reveal_strlit("context");
        reveal_strlit("textDocument");
        reveal_strlit("position");
        reveal_strlit("workDoneToken");
        if let Some(inner) = value.context {
            SignatureHelpContext::lemma_survives(inner);
        }
        Position::lemma_survives(value.text_document_position_params.position);
        if let Some(inner) = value.work_done_progress_params.work_done_token {
            NumberOrString::lemma_survives(inner);
        }
    }
}

#[derive(Debug, PartialEq, Eq, Clone)]
pub struct SignatureHelpContext {
    ///  Action that caused signature help to be triggered.
    pub trigger_kind: SignatureHelpTriggerKind,
    /// Character that caused signature help to be triggered.
    /// This is undefined when `triggerKind !== SignatureHelpTriggerKind.TriggerCharacter`
    pub trigger_character: Option<String>,
    /// `true` if signature help was already showing when it was triggered.
    /// Retriggers occur when the signature help is already active and can be caused by actions such as
    /// typing a trigger character, a cursor move, or document content changes.
    pub is_retrigger: bool,
    /// The currently active `SignatureHelp`.
    /// The `activeSignatureHelp` has its `SignatureHelp.activeSignature` field updated based on
    /// the user navigating through available signatures.
    pub active_signature_help: Option<SignatureHelp>,
}

/// What a [`SignatureHelpContext`] stands for.
pub struct SignatureHelpContextModel {
    pub trigger_kind: SignatureHelpTriggerKind,
    pub trigger_character: Option<Seq<char>>,
    pub is_retrigger: bool,
    pub active_signature_help: Option<SignatureHelpModel>,
}

impl DeepView for SignatureHelpContext {
    type V = SignatureHelpContextModel;

    open spec fn deep_view(&self) -> SignatureHelpContextModel {
        SignatureHelpContextModel {
            trigger_kind: self.trigger_kind.deep_view(),
            trigger_character: self.trigger_character.deep_view(),
            is_retrigger: self.is_retrigger.deep_view(),
            active_signature_help: self.active_signature_help.deep_view(),
        }
    }
}

impl Record for SignatureHelpContext {
    open spec fn members(before: Seq<Member>, value: SignatureHelpContextModel) -> Seq<Member> {
        before + field::<SignatureHelpTriggerKind>("triggerKind"@, value.trigger_kind)
            + optional_field::<String>("triggerCharacter"@, value.trigger_character)
            + field::<bool>("isRetrigger"@, value.is_retrigger)
            + optional_field::<SignatureHelp>("activeSignatureHelp"@, value.active_signature_help)
    }

    open spec fn read(members: Seq<Member>) -> Result<SignatureHelpContextModel, CodecError> {
        let trigger_kind = required::<SignatureHelpTriggerKind>(members, "triggerKind"@);
        let trigger_character = optional::<String>(members, "triggerCharacter"@);
        let is_retrigger = required::<bool>(members, "isRetrigger"@);
        let active_signature_help = optional::<SignatureHelp>(members, "activeSignatureHelp"@);
        if trigger_kind is Err {
            Err(trigger_kind->Err_0)
        } else if trigger_character is Err {
            Err(trigger_character->Err_0)
        } else if is_retrigger is Err {
            Err(is_retrigger->Err_0)
        } else if active_signature_help is Err {
            Err(active_signature_help->Err_0)
        } else {
            Ok(
                SignatureHelpContextModel {
                    trigger_kind: trigger_kind->Ok_0,
                    trigger_character: trigger_character->Ok_0,
                    is_retrigger: is_retrigger->Ok_0,
                    active_signature_help: active_signature_help->Ok_0,
                },
            )
        }
    }

    fn write(&self, members: &mut Vec<(String, Json)>) {
        put(members, "triggerKind", &self.trigger_kind);
        put_optional(members, "triggerCharacter", &self.trigger_character);
        put(members, "isRetrigger", &self.is_retrigger);
        put_optional(members, "activeSignatureHelp", &self.active_signature_help);
    }

    fn scan(members: &Vec<(String, Json)>) -> (result: Result<SignatureHelpContext, CodecError>) {
        let trigger_kind = get::<SignatureHelpTriggerKind>(members, "triggerKind");
        let trigger_character = get_optional::<String>(members, "triggerCharacter");
        let is_retrigger = get::<bool>(members, "isRetrigger");
        let active_signature_help = get_optional::<SignatureHelp>(members, "activeSignatureHelp");
        if let Err(error) = trigger_kind {
            Err(error)
        } else if let Err(error) = trigger_character {
            Err(error)
        } else if let Err(error) = is_retrigger {
            Err(error)
        } else if let Err(error) = active_signature_help {
            Err(error)
        } else {
            Ok(
                SignatureHelpContext {
                    trigger_kind: trigger_kind.unwrap(),
                    trigger_character: trigger_character.unwrap(),
                    is_retrigger: is_retrigger.unwrap(),
                    active_signature_help: active_signature_help.unwrap(),
                },
            )
        }
    }
}

impl SignatureHelpContext {
    /// Every value comes back unchanged from the document that stands for it.
    pub proof fn lemma_survives(value: SignatureHelpContextModel)
        ensures
            survives::<SignatureHelpContext>(value),
    {
        broadcast use group_lookup;

        reveal(required);
        reveal(optional);
        reveal_strlit("triggerKind");
        reveal_strlit("triggerCharacter");
        reveal_strlit("isRetrigger");
        reveal_strlit("activeSignatureHelp");
        SignatureHelpTriggerKind::lemma_survives(value.trigger_kind);
        if let Some(inner) = value.active_signature_help {
            SignatureHelp::lemma_survives(inner);
        }
    }
}

/// Signature help represents the signature of something
/// callable. There can be multiple signature but only one
/// active and only one active parameter.
#[derive(Debug, PartialEq, Eq, Clone)]
pub struct SignatureHelp {
    /// One or more signatures.
    pub signatures: Vec<SignatureInformation>,
    /// The active signature.
    pub active_signature: Option<i64>,
    /// The active parameter of the active signature.
    pub active_parameter: Option<i64>,
}

/// What a [`SignatureHelp`] stands for.
pub struct SignatureHelpModel {
    pub signatures: Seq<SignatureInformationModel>,
    pub active_signature: Option<i64>,
    pub active_parameter: Option<i64>,
}

impl DeepView for SignatureHelp {
    type V = SignatureHelpModel;

    open spec fn deep_view(&self) -> SignatureHelpModel {
        SignatureHelpModel {
            signatures: self.signatures.deep_view(),
            active_signature: self.active_signature.deep_view(),
            active_parameter: self.active_parameter.deep_view(),
        }
    }
}

impl Record for SignatureHelp {
    open spec fn members(before: Seq<Member>, value: SignatureHelpModel) -> Seq<Member> {
        before + field::<Vec<SignatureInformation>>("signatures"@, value.signatures)
            + optional_field::<i64>("activeSignature"@, value.active_signature)
            + optional_field::<i64>("activeParameter"@, value.active_parameter)
    }

    open spec fn read(members: Seq<Member>) -> Result<SignatureHelpModel, CodecError> {
        let signatures = required::<Vec<SignatureInformation>>(members, "signatures"@);
        let active_signature = optional::<i64>(members, "activeSignature"@);
        let active_parameter = optional::<i64>(members, "activeParameter"@);
        if signatures is Err {
            Err(signatures->Err_0)
        } else if active_signature is Err {
            Err(active_signature->Err_0)
        } else if active_parameter is Err {
            Err(active_parameter->Err_0)
        } else {
            Ok(
                SignatureHelpModel {
                    signatures: signatures->Ok_0,
                    active_signature: active_signature->Ok_0,
                    active_parameter: active_parameter->Ok_0,
                },
            )
        }
    }

    fn write(&self, members: &mut Vec<(String, Json)>) {
        put(members, "signatures", &self.signatures);
        put_optional(members, "activeSignature", &self.active_signature);
        put_optional(members, "activeParameter", &self.active_parameter);
    }

    fn scan(members: &Vec<(String, Json)>) -> (result: Result<SignatureHelp, CodecError>) {
        let signatures = get::<Vec<SignatureInformation>>(members, "signatures");
        let active_signature = get_optional::<i64>(members, "activeSignature");
        let active_parameter = get_optional::<i64>(members, "activeParameter");
        if let Err(error) = signatures {
            Err(error)
        } else if let Err(error) = active_signature {
            Err(error)
        } else if let Err(error) = active_parameter {
            Err(error)
        } else {
            Ok(
                SignatureHelp {
                    signatures: signatures.unwrap(),
                    active_signature: active_signature.unwrap(),
                    active_parameter: active_parameter.unwrap(),
                },
            )
        }
    }
}

impl SignatureHelp {
    /// Every value comes back unchanged from the document that stands for it.
    pub proof fn lemma_survives(value: SignatureHelpModel)
        ensures
            survives::<SignatureHelp>(value),
    {
        broadcast use group_lookup;

        reveal(required);
        reveal(optional);
        reveal_strlit("signatures");
        reveal_strlit("activeSignature");
        reveal_strlit("activeParameter");
        let list = value.signatures;
        assert forall|i: int| 0 <= i < list.len() implies survives::<SignatureInformation>(
            #[trigger] list[i],
        ) by {
            SignatureInformation::lemma_survives(list[i]);
        }
        lemma_sequence_round_trip::<SignatureInformation>(list);
    }
}

/// Represents the signature of something callable. A signature
/// can have a label, like a function-name, a doc-comment, and
/// a set of parameters.
#[derive(Debug, PartialEq, Eq, Clone)]
pub struct SignatureInformation {
    /// The label of this signature. Will be shown in
    /// the UI.
    pub label: String,
    /// The human-readable doc-comment of this signature. Will be shown
    /// in the UI but can be omitted.
    pub documentation: Option<Documentation>,
    /// The parameters of this signature.
    pub parameters: Option<Vec<ParameterInformation>>,
}

/// What a [`SignatureInformation`] stands for.
pub struct SignatureInformationModel {
    pub label: Seq<char>,
    pub documentation: Option<DocumentationModel>,
    pub parameters: Option<Seq<ParameterInformationModel>>,
}

impl DeepView for SignatureInformation {
    type V = SignatureInformationModel;

    open spec fn deep_view(&self) -> SignatureInformationModel {
        SignatureInformationModel {
            label: self.label.deep_view(),
            documentation: self.documentation.deep_view(),
            parameters: self.parameters.deep_view(),
        }
    }
}

impl Record for SignatureInformation {
    open spec fn members(before: Seq<Member>, value: SignatureInformationModel) -> Seq<Member> {
        before + field::<String>("label"@, value.label)
            + optional_field::<Documentation>("documentation"@, value.documentation)
            + optional_field::<Vec<ParameterInformation>>("parameters"@, value.parameters)
    }

    open spec fn read(members: Seq<Member>) -> Result<SignatureInformationModel, CodecError> {
        let label = required::<String>(members, "label"@);
        let documentation = optional::<Documentation>(members, "documentation"@);
        let parameters = optional::<Vec<ParameterInformation>>(members, "parameters"@);
        if label is Err {
            Err(label->Err_0)
        } else if documentation is Err {
            Err(documentation->Err_0)
        } else if parameters is Err {
            Err(parameters->Err_0)
        } else {
            Ok(
                SignatureInformationModel {
                    label: label->Ok_0,
                    documentation: documentation->Ok_0,
                    parameters: parameters->Ok_0,
                },
            )
        }
    }

    fn write(&self, members: &mut Vec<(String, Json)>) {
        put(members, "label", &self.label);
        put_optional(members, "documentation", &self.documentation);
        put_optional(members, "parameters", &self.parameters);
    }

    fn scan(members: &Vec<(String, Json)>) -> (result: Result<SignatureInformation, CodecError>) {
        let label = get::<String>(members, "label");
        let documentation = get_optional::<Documentation>(members, "documentation");
        let parameters = get_optional::<Vec<ParameterInformation>>(members, "parameters");
        if let Err(error) = label {
            Err(error)
        } else if let Err(error) = documentation {
            Err(error)
        } else if let Err(error) = parameters {
            Err(error)
        } else {
            Ok(
                SignatureInformation {
                    label: label.unwrap(),
                    documentation: documentation.unwrap(),
                    parameters: parameters.unwrap(),
                },
            )
        }
    }
}

impl SignatureInformation {
    /// Every value comes back unchanged from the document that stands for it.
    pub proof fn lemma_survives(value: SignatureInformationModel)
        ensures
            survives::<SignatureInformation>(value),
    {
        broadcast use group_lookup;

        reveal(required);
        reveal(optional);
        reveal_strlit("label");
        reveal_strlit("documentation");
        reveal_strlit("parameters");
        if let Some(inner) = value.documentation {
            Documentation::lemma_survives(inner);
        }
        if let Some(inner) = value.parameters {
            assert forall|i: int| 0 <= i < inner.len() implies survives::<ParameterInformation>(
                #[trigger] inner[i],
            ) by {
                ParameterInformation::lemma_survives(inner[i]);
            }
            lemma_sequence_round_trip::<ParameterInformation>(inner);
        }
    }
}

/// Represents a parameter of a callable-signature. A parameter can
/// have a label and a doc-comment.
#[derive(Debug, PartialEq, Eq, Clone)]
pub struct ParameterInformation {
    /// The label of this parameter information.
    ///
    /// Either a string or an inclusive start and exclusive end offsets within its containing
    /// signature label. (see SignatureInformation.label). *Note*: A label of type string must be
    /// a substring of its containing signature label.
    pub label: ParameterLabel,
    /// The human-readable doc-comment of this parameter. Will be shown
    /// in the UI but can be omitted.
    pub documentation: Option<Documentation>,
}

/// What a [`ParameterInformation`] stands for.
pub struct ParameterInformationModel {
    pub label: ParameterLabelModel,
    pub documentation: Option<DocumentationModel>,
}

impl DeepView for ParameterInformation {
    type V = ParameterInformationModel;

    open spec fn deep_view(&self) -> ParameterInformationModel {
        ParameterInformationModel {
            label: self.label.deep_view(),
            documentation: self.documentation.deep_view(),
        }
    }
}

impl Record for ParameterInformation {
    open spec fn members(before: Seq<Member>, value: ParameterInformationModel) -> Seq<Member> {
        before + field::<ParameterLabel>("label"@, value.label)
            + optional_field::<Documentation>("documentation"@, value.documentation)
    }

    open spec fn read(members: Seq<Member>) -> Result<ParameterInformationModel, CodecError> {
        let label = required::<ParameterLabel>(members, "label"@);
        let documentation = optional::<Documentation>(members, "documentation"@);
        if label is Err {
            Err(label->Err_0)
        } else if documentation is Err {
            Err(documentation->Err_0)
        } else {
            Ok(
                ParameterInformationModel {
                    label: label->Ok_0,
                    documentation: documentation->Ok_0,
                },
            )
        }
    }

    fn write(&self, members: &mut Vec<(String, Json)>) {
        put(members, "label", &self.label);
        put_optional(members, "documentation", &self.documentation);
    }

    fn scan(members: &Vec<(String, Json)>) -> (result: Result<ParameterInformation, CodecError>) {
        let label = get::<ParameterLabel>(members, "label");
        let documentation = get_optional::<Documentation>(members, "documentation");
        if let Err(error) = label {
            Err(error)
        } else if let Err(error) = documentation {
            Err(error)
        } else {
            Ok(
                ParameterInformation {
                    label: label.unwrap(),
                    documentation: documentation.unwrap(),
                },
            )
        }
    }
}

impl ParameterInformation {
    /// Every value comes back unchanged from the document that stands for it.
    pub proof fn lemma_survives(value: ParameterInformationModel)
        ensures
            survives::<ParameterInformation>(value),
    {
        broadcast use group_lookup;

        reveal(required);
        reveal(optional);
        reveal_strlit("label");
        reveal_strlit("documentation");
        ParameterLabel::lemma_survives(value.label);
        if let Some(inner) = value.documentation {
            Documentation::lemma_survives(inner);
        }
    }
}

/// The label of a parameter: the text itself, or where it stands in the label
/// of the signature, as an inclusive start and an exclusive end offset.
#[derive(Debug, PartialEq, Eq, Clone)]
pub enum ParameterLabel {
    Simple(String),
    LabelOffsets([u64; 2]),
}

/// What a [`ParameterLabel`] stands for.
pub enum ParameterLabelModel {
    Simple(Seq<char>),
    LabelOffsets(u64, u64),
}

impl DeepView for ParameterLabel {
    type V = ParameterLabelModel;

    open spec fn deep_view(&self) -> ParameterLabelModel {
        match self {
            ParameterLabel::Simple(value) => ParameterLabelModel::Simple(value.deep_view()),
            ParameterLabel::LabelOffsets(offsets) => ParameterLabelModel::LabelOffsets(
                offsets@[0],
                offsets@[1],
            ),
        }
    }
}

impl Codec for ParameterLabel {
    open spec fn encode(value: ParameterLabelModel) -> JsonValue {
        match value {
            ParameterLabelModel::Simple(value) => String::encode(value),
            ParameterLabelModel::LabelOffsets(start, end) => JsonValue::Array(
                seq![u64::encode(start), u64::encode(end)],
            ),
        }
    }

    open spec fn decode(json: JsonValue) -> Result<ParameterLabelModel, CodecError> {
        if let Ok(value) = String::decode(json) {
            Ok(ParameterLabelModel::Simple(value))
        } else if let Some((start, end)) = Self::offsets(json) {
            Ok(ParameterLabelModel::LabelOffsets(start, end))
        } else {
            Err(CodecError::NoVariantMatched)
        }
    }

    fn serialize(&self) -> (json: Json) {
        match self {
            ParameterLabel::Simple(value) => value.serialize(),
            ParameterLabel::LabelOffsets(offsets) => {
                let mut items: Vec<Json> = Vec::new();
                items.push(offsets[0].serialize());
                items.push(offsets[1].serialize());
                proof {
                    lemma_array_view(items);
                    assert(items.deep_view() =~= seq![
                        u64::encode(offsets@[0]),
                        u64::encode(offsets@[1]),
                    ]);
                }
                Json::Array(items)
            },
        }
    }

    fn deserialize(json: &Json) -> (result: Result<ParameterLabel, CodecError>) {
        if let Ok(value) = String::deserialize(json) {
            Ok(ParameterLabel::Simple(value))
        } else if let Some((start, end)) = Self::read_offsets(json) {
            Ok(ParameterLabel::LabelOffsets([start, end]))
        } else {
            Err(CodecError::NoVariantMatched)
        }
    }
}

impl ParameterLabel {
    /// The two offsets that a document stands for: it must be an array of
    /// exactly two unsigned integers.
    pub open spec fn offsets(json: JsonValue) -> Option<(u64, u64)> {
        match json {
            JsonValue::Array(items) => {
                if items.len() == 2 && u64::decode(items[0]) is Ok && u64::decode(items[1]) is Ok {
                    Some((u64::decode(items[0])->Ok_0, u64::decode(items[1])->Ok_0))
                } else {
                    None
                }
            },
            _ => None,
        }
    }

    /// Reads the two offsets of a label from an array.
    pub fn read_offsets(json: &Json) -> (found: Option<(u64, u64)>)
        ensures
            found == Self::offsets(json.deep_view()),
    {
        match json {
            Json::Array(items) => {
                proof {
                    lemma_array_view(*items);
                }
                if items.len() != 2 {
                    return None;
                }
                match (u64::deserialize(&items[0]), u64::deserialize(&items[1])) {
                    (Ok(start), Ok(end)) => Some((start, end)),
                    _ => None,
                }
            },
            _ => None,
        }
    }

    /// Every label comes back unchanged from the document that stands for it.
    pub proof fn lemma_survives(value: ParameterLabelModel)
        ensures
            survives::<ParameterLabel>(value),
    {
    }
}

} // verus!
