//! Going to definitions, finding references and highlighting occurrences.

use crate::basic::{
    Location, LocationLink, LocationLinkModel, LocationModel, NumberOrString, Position, Range,
    TextDocumentIdentifier, TextDocumentPositionParams, TextDocumentPositionParamsModel,
};
use crate::codec::{
    Codec, CodecError, field, get, get_optional, group_lookup, Member, optional, optional_field,
    put, put_optional, Record, required, survives,
};
use crate::json::{Json, JsonValue, Number};
use crate::progress::{
    PartialResultParams, PartialResultParamsModel, WorkDoneProgressParams,
    WorkDoneProgressParamsModel,
};
use vstd::prelude::*;
use vstd::std_specs::convert::FromSpecImpl;

verus! {

#[derive(Debug, PartialEq, Eq, Clone)]
pub struct GotoDefinitionParams {
    /// Its members are written among those of this value.
    pub text_document_position_params: TextDocumentPositionParams,
    /// Its members are written among those of this value.
    pub work_done_progress_params: WorkDoneProgressParams,
    /// Its members are written among those of this value.
    pub partial_result_params: PartialResultParams,
}

/// What a [`GotoDefinitionParams`] stands for.
pub struct GotoDefinitionParamsModel {
    pub text_document_position_params: TextDocumentPositionParamsModel,
    pub work_done_progress_params: WorkDoneProgressParamsModel,
    pub partial_result_params: PartialResultParamsModel,
}

impl DeepView for GotoDefinitionParams {
    type V = GotoDefinitionParamsModel;

    open spec fn deep_view(&self) -> GotoDefinitionParamsModel {
        GotoDefinitionParamsModel {
            text_document_position_params: self.text_document_position_params.deep_view(),
            work_done_progress_params: self.work_done_progress_params.deep_view(),
            partial_result_params: self.partial_result_params.deep_view(),
        }
    }
}

impl Record for GotoDefinitionParams {
    open spec fn members(before: Seq<Member>, value: GotoDefinitionParamsModel) -> Seq<Member> {
        PartialResultParams::members(
            WorkDoneProgressParams::members(
                TextDocumentPositionParams::members(before, value.text_document_position_params),
                value.work_done_progress_params,
            ),
            value.partial_result_params,
        )
    }

    open spec fn read(members: Seq<Member>) -> Result<GotoDefinitionParamsModel, CodecError> {
        let text_document_position_params = TextDocumentPositionParams::read(members);
        let work_done_progress_params = WorkDoneProgressParams::read(members);
        let partial_result_params = PartialResultParams::read(members);
        if text_document_position_params is Err {
            Err(text_document_position_params->Err_0)
        } else if work_done_progress_params is Err {
            Err(work_done_progress_params->Err_0)
        } else if partial_result_params is Err {
            Err(partial_result_params->Err_0)
        } else {
            Ok(
                GotoDefinitionParamsModel {
                    text_document_position_params: text_document_position_params->Ok_0,
                    work_done_progress_params: work_done_progress_params->Ok_0,
                    partial_result_params: partial_result_params->Ok_0,
                },
            )
        }
    }

    fn write(&self, members: &mut Vec<(String, Json)>) {
        self.text_document_position_params.write(members);
        self.work_done_progress_params.write(members);
        self.partial_result_params.write(members);
    }

    fn scan(members: &Vec<(String, Json)>) -> (result: Result<GotoDefinitionParams, CodecError>) {
        let text_document_position_params = TextDocumentPositionParams::scan(members);
        let work_done_progress_params = WorkDoneProgressParams::scan(members);
        let partial_result_params = PartialResultParams::scan(members);
        if let Err(error) = text_document_position_params {
            Err(error)
        } else if let Err(error) = work_done_progress_params {
            Err(error)
        } else if let Err(error) = partial_result_params {
            Err(error)
        } else {
            Ok(
                GotoDefinitionParams {
                    text_document_position_params: text_document_position_params.unwrap(),
                    work_done_progress_params: work_done_progress_params.unwrap(),
                    partial_result_params: partial_result_params.unwrap(),
                },
            )
        }
    }
}

impl GotoDefinitionParams {
    /// A value comes back unchanged from the document that stands for it
    /// where its fields meet what is asked of them here.
    pub proof fn lemma_round_trip(value: GotoDefinitionParamsModel)
        requires
            survives::<TextDocumentIdentifier>(value.text_document_position_params.text_document),
        ensures
            survives::<GotoDefinitionParams>(value),
    {
        broadcast use group_lookup;

        reveal(required);
        reveal(optional);
        reveal_strlit("textDocument");
        reveal_strlit("position");
        reveal_strlit("workDoneToken");
        reveal_strlit("partialResultToken");
        Position::lemma_survives(value.text_document_position_params.position);
        if let Some(inner) = value.work_done_progress_params.work_done_token {
            NumberOrString::lemma_survives(inner);
        }
        if let Some(inner) = value.partial_result_params.partial_result_token {
            NumberOrString::lemma_survives(inner);
        }
    }
}

/// GotoDefinition response can be single location, or multiple Locations or a link.
#[derive(Debug, PartialEq)]
pub enum GotoDefinitionResponse {
    Scalar(Location),
    Array(Vec<Location>),
    Link(Vec<LocationLink>),
}

/// What a [`GotoDefinitionResponse`] stands for.
pub enum GotoDefinitionResponseModel {
    Scalar(LocationModel),
    Array(Seq<LocationModel>),
    Link(Seq<LocationLinkModel>),
}

impl DeepView for GotoDefinitionResponse {
    type V = GotoDefinitionResponseModel;

    open spec fn deep_view(&self) -> GotoDefinitionResponseModel {
        match self {
            GotoDefinitionResponse::Scalar(value) => GotoDefinitionResponseModel::Scalar(value.deep_view()),
            GotoDefinitionResponse::Array(value) => GotoDefinitionResponseModel::Array(value.deep_view()),
            GotoDefinitionResponse::Link(value) => GotoDefinitionResponseModel::Link(value.deep_view()),
        }
    }
}

impl Codec for GotoDefinitionResponse {
    open spec fn encode(value: GotoDefinitionResponseModel) -> JsonValue {
        match value {
            GotoDefinitionResponseModel::Scalar(value) => Location::encode(value),
            GotoDefinitionResponseModel::Array(value) => Vec::<Location>::encode(value),
            GotoDefinitionResponseModel::Link(value) => Vec::<LocationLink>::encode(value),
        }
    }

    open spec fn decode(json: JsonValue) -> Result<GotoDefinitionResponseModel, CodecError> {
        if let Ok(value) = Location::decode(json) {
            Ok(GotoDefinitionResponseModel::Scalar(value))
        } else if let Ok(value) = Vec::<Location>::decode(json) {
            Ok(GotoDefinitionResponseModel::Array(value))
        } else if let Ok(value) = Vec::<LocationLink>::decode(json) {
            Ok(GotoDefinitionResponseModel::Link(value))
        } else {
            Err(CodecError::NoVariantMatched)
        }
    }

    fn serialize(&self) -> (json: Json) {
        match self {
            GotoDefinitionResponse::Scalar(value) => value.serialize(),
            GotoDefinitionResponse::Array(value) => value.serialize(),
            GotoDefinitionResponse::Link(value) => value.serialize(),
        }
    }

    fn deserialize(json: &Json) -> (result: Result<GotoDefinitionResponse, CodecError>) {
        if let Ok(value) = Location::deserialize(json) {
            Ok(GotoDefinitionResponse::Scalar(value))
        } else if let Ok(value) = Vec::<Location>::deserialize(json) {
            Ok(GotoDefinitionResponse::Array(value))
        } else if let Ok(value) = Vec::<LocationLink>::deserialize(json) {
            Ok(GotoDefinitionResponse::Link(value))
        } else {
            Err(CodecError::NoVariantMatched)
        }
    }
}

impl GotoDefinitionResponse {
    /// A value comes back unchanged from its document exactly when its
    /// payload does and no variant declared before its own reads the
    /// payload's document.
    pub proof fn lemma_round_trip(value: GotoDefinitionResponseModel)
        ensures
            survives::<GotoDefinitionResponse>(value) <==> match value {
                GotoDefinitionResponseModel::Scalar(v) => survives::<Location>(v),
                GotoDefinitionResponseModel::Array(v) => Location::decode(Vec::<Location>::encode(v)) is Err
                    && survives::<Vec<Location>>(v),
                GotoDefinitionResponseModel::Link(v) => Location::decode(Vec::<LocationLink>::encode(v)) is Err
                    && Vec::<Location>::decode(Vec::<LocationLink>::encode(v)) is Err
                    && survives::<Vec<LocationLink>>(v),
            },
    {
    }
}

impl From<Location> for GotoDefinitionResponse {
    fn from(location: Location) -> (result: GotoDefinitionResponse) {
        GotoDefinitionResponse::Scalar(location)
    }
}

impl FromSpecImpl<Location> for GotoDefinitionResponse {
    open spec fn obeys_from_spec() -> bool {
        true
    }

    open spec fn from_spec(location: Location) -> GotoDefinitionResponse {
        GotoDefinitionResponse::Scalar(location)
    }
}

impl From<Vec<Location>> for GotoDefinitionResponse {
    fn from(locations: Vec<Location>) -> (result: GotoDefinitionResponse) {
        GotoDefinitionResponse::Array(locations)
    }
}

impl FromSpecImpl<Vec<Location>> for GotoDefinitionResponse {
    open spec fn obeys_from_spec() -> bool {
        true
    }

    open spec fn from_spec(locations: Vec<Location>) -> GotoDefinitionResponse {
        GotoDefinitionResponse::Array(locations)
    }
}

impl From<Vec<LocationLink>> for GotoDefinitionResponse {
    fn from(locations: Vec<LocationLink>) -> (result: GotoDefinitionResponse) {
        GotoDefinitionResponse::Link(locations)
    }
}

impl FromSpecImpl<Vec<LocationLink>> for GotoDefinitionResponse {
    open spec fn obeys_from_spec() -> bool {
        true
    }

    open spec fn from_spec(locations: Vec<LocationLink>) -> GotoDefinitionResponse {
        GotoDefinitionResponse::Link(locations)
    }
}

#[derive(Debug, PartialEq, Eq, Clone)]
pub struct ReferenceParams {
    /// Its members are written among those of this value.
    pub text_document_position: TextDocumentPositionParams,
    /// Its members are written among those of this value.
    pub work_done_progress_params: WorkDoneProgressParams,
    /// Its members are written among those of this value.
    pub partial_result_params: PartialResultParams,
    pub context: ReferenceContext,
}

/// What a [`ReferenceParams`] stands for.
pub struct ReferenceParamsModel {
    pub text_document_position: TextDocumentPositionParamsModel,
    pub work_done_progress_params: WorkDoneProgressParamsModel,
    pub partial_result_params: PartialResultParamsModel,
    pub context: ReferenceContext,
}

impl DeepView for ReferenceParams {
    type V = ReferenceParamsModel;

    open spec fn deep_view(&self) -> ReferenceParamsModel {
        ReferenceParamsModel {
            text_document_position: self.text_document_position.deep_view(),
            work_done_progress_params: self.work_done_progress_params.deep_view(),
            partial_result_params: self.partial_result_params.deep_view(),
            context: self.context.deep_view(),
        }
    }
}

impl Record for ReferenceParams {
    open spec fn members(before: Seq<Member>, value: ReferenceParamsModel) -> Seq<Member> {
        PartialResultParams::members(
            WorkDoneProgressParams::members(
                TextDocumentPositionParams::members(before, value.text_document_position),
                value.work_done_progress_params,
            ),
            value.partial_result_params,
        ) + field::<ReferenceContext>("context"@, value.context)
    }

    open spec fn read(members: Seq<Member>) -> Result<ReferenceParamsModel, CodecError> {
        let text_document_position = TextDocumentPositionParams::read(members);
        let work_done_progress_params = WorkDoneProgressParams::read(members);
        let partial_result_params = PartialResultParams::read(members);
        let context = required::<ReferenceContext>(members, "context"@);
        if text_document_position is Err {
            Err(text_document_position->Err_0)
        } else if work_done_progress_params is Err {
            Err(work_done_progress_params->Err_0)
        } else if partial_result_params is Err {
            Err(partial_result_params->Err_0)
        } else if context is Err {
            Err(context->Err_0)
        } else {
            Ok(
                ReferenceParamsModel {
                    text_document_position: text_document_position->Ok_0,
                    work_done_progress_params: work_done_progress_params->Ok_0,
                    partial_result_params: partial_result_params->Ok_0,
                    context: context->Ok_0,
                },
            )
        }
    }

    fn write(&self, members: &mut Vec<(String, Json)>) {
        self.text_document_position.write(members);
        self.work_done_progress_params.write(members);
        self.partial_result_params.write(members);
        put(members, "context", &self.context);
    }

    fn scan(members: &Vec<(String, Json)>) -> (result: Result<ReferenceParams, CodecError>) {
        let text_document_position = TextDocumentPositionParams::scan(members);
        let work_done_progress_params = WorkDoneProgressParams::scan(members);
        let partial_result_params = PartialResultParams::scan(members);
        let context = get::<ReferenceContext>(members, "context");
        if let Err(error) = text_document_position {
            Err(error)
        } else if let Err(error) = work_done_progress_params {
            Err(error)
        } else if let Err(error) = partial_result_params {
            Err(error)
        } else if let Err(error) = context {
            Err(error)
        } else {
            Ok(
                ReferenceParams {
                    text_document_position: text_document_position.unwrap(),
                    work_done_progress_params: work_done_progress_params.unwrap(),
                    partial_result_params: partial_result_params.unwrap(),
                    context: context.unwrap(),
                },
            )
        }
    }
}

impl ReferenceParams {
    /// A value comes back unchanged from the document that stands for it
    /// where its fields meet what is asked of them here.
    pub proof fn lemma_round_trip(value: ReferenceParamsModel)
        requires
            survives::<TextDocumentIdentifier>(value.text_document_position.text_document),
        ensures
            survives::<ReferenceParams>(value),
    {
        broadcast use group_lookup;

        reveal(required);
        reveal(optional);
        reveal_strlit("textDocument");
        reveal_strlit("position");
        reveal_strlit("workDoneToken");
        reveal_strlit("partialResultToken");
        reveal_strlit("context");
        Position::lemma_survives(value.text_document_position.position);
        if let Some(inner) = value.work_done_progress_params.work_done_token {
            NumberOrString::lemma_survives(inner);
        }
        if let Some(inner) = value.partial_result_params.partial_result_token {
            NumberOrString::lemma_survives(inner);
        }
        ReferenceContext::lemma_survives(value.context);
    }
}

#[derive(Debug, PartialEq, Eq, Structural, Clone, Copy)]
pub struct ReferenceContext {
    /// Include the declaration of the current symbol.
    pub include_declaration: bool,
}

impl DeepView for ReferenceContext {
    type V = ReferenceContext;

    open spec fn deep_view(&self) -> ReferenceContext {
        ReferenceContext {
            include_declaration: self.include_declaration.deep_view(),
        }
    }
}

impl Record for ReferenceContext {
    open spec fn members(before: Seq<Member>, value: ReferenceContext) -> Seq<Member> {
        before + field::<bool>("includeDeclaration"@, value.include_declaration)
    }

    open spec fn read(members: Seq<Member>) -> Result<ReferenceContext, CodecError> {
        let include_declaration = required::<bool>(members, "includeDeclaration"@);
        if include_declaration is Err {
            Err(include_declaration->Err_0)
        } else {
            Ok(
                ReferenceContext {
                    include_declaration: include_declaration->Ok_0,
                },
            )
        }
    }

    fn write(&self, members: &mut Vec<(String, Json)>) {
        put(members, "includeDeclaration", &self.include_declaration);
    }

    fn scan(members: &Vec<(String, Json)>) -> (result: Result<ReferenceContext, CodecError>) {
        let include_declaration = get::<bool>(members, "includeDeclaration");
        if let Err(error) = include_declaration {
            Err(error)
        } else {
            Ok(
                ReferenceContext {
                    include_declaration: include_declaration.unwrap(),
                },
            )
        }
    }
}

impl ReferenceContext {
    /// Every value comes back unchanged from the document that stands for it.
    pub proof fn lemma_survives(value: ReferenceContext)
        ensures
            survives::<ReferenceContext>(value),
    {
        broadcast use group_lookup;

        reveal(required);
        reveal_strlit("includeDeclaration");
    }
}

#[derive(Debug, PartialEq, Eq, Clone)]
pub struct DocumentHighlightParams {
    /// Its members are written among those of this value.
    pub text_document_position_params: TextDocumentPositionParams,
    /// Its members are written among those of this value.
    pub work_done_progress_params: WorkDoneProgressParams,
    /// Its members are written among those of this value.
    pub partial_result_params: PartialResultParams,
}

/// What a [`DocumentHighlightParams`] stands for.
pub struct DocumentHighlightParamsModel {
    pub text_document_position_params: TextDocumentPositionParamsModel,
    pub work_done_progress_params: WorkDoneProgressParamsModel,
    pub partial_result_params: PartialResultParamsModel,
}

impl DeepView for DocumentHighlightParams {
    type V = DocumentHighlightParamsModel;

    open spec fn deep_view(&self) -> DocumentHighlightParamsModel {
        DocumentHighlightParamsModel {
            text_document_position_params: self.text_document_position_params.deep_view(),
            work_done_progress_params: self.work_done_progress_params.deep_view(),
            partial_result_params: self.partial_result_params.deep_view(),
        }
    }
}

impl Record for DocumentHighlightParams {
    open spec fn members(before: Seq<Member>, value: DocumentHighlightParamsModel) -> Seq<Member> {
        PartialResultParams::members(
            WorkDoneProgressParams::members(
                TextDocumentPositionParams::members(before, value.text_document_position_params),
                value.work_done_progress_params,
            ),
            value.partial_result_params,
        )
    }

    open spec fn read(members: Seq<Member>) -> Result<DocumentHighlightParamsModel, CodecError> {
        let text_document_position_params = TextDocumentPositionParams::read(members);
        let work_done_progress_params = WorkDoneProgressParams::read(members);
        let partial_result_params = PartialResultParams::read(members);
        if text_document_position_params is Err {
            Err(text_document_position_params->Err_0)
        } else if work_done_progress_params is Err {
            Err(work_done_progress_params->Err_0)
        } else if partial_result_params is Err {
            Err(partial_result_params->Err_0)
        } else {
            Ok(
                DocumentHighlightParamsModel {
                    text_document_position_params: text_document_position_params->Ok_0,
                    work_done_progress_params: work_done_progress_params->Ok_0,
                    partial_result_params: partial_result_params->Ok_0,
                },
            )
        }
    }

    fn write(&self, members: &mut Vec<(String, Json)>) {
        self.text_document_position_params.write(members);
        self.work_done_progress_params.write(members);
        self.partial_result_params.write(members);
    }

    fn scan(members: &Vec<(String, Json)>) -> (result: Result<DocumentHighlightParams, CodecError>) {
        let text_document_position_params = TextDocumentPositionParams::scan(members);
        let work_done_progress_params = WorkDoneProgressParams::scan(members);
        let partial_result_params = PartialResultParams::scan(members);
        if let Err(error) = text_document_position_params {
            Err(error)
        } else if let Err(error) = work_done_progress_params {
            Err(error)
        } else if let Err(error) = partial_result_params {
            Err(error)
        } else {
            Ok(
                DocumentHighlightParams {
                    text_document_position_params: text_document_position_params.unwrap(),
                    work_done_progress_params: work_done_progress_params.unwrap(),
                    partial_result_params: partial_result_params.unwrap(),
                },
            )
        }
    }
}

impl DocumentHighlightParams {
    /// A value comes back unchanged from the document that stands for it
    /// where its fields meet what is asked of them here.
    pub proof fn lemma_round_trip(value: DocumentHighlightParamsModel)
        requires
            survives::<TextDocumentIdentifier>(value.text_document_position_params.text_document),
        ensures
            survives::<DocumentHighlightParams>(value),
    {
        broadcast use group_lookup;

        reveal(required);
        reveal(optional);
        reveal_strlit("textDocument");
        reveal_strlit("position");
        reveal_strlit("workDoneToken");
        reveal_strlit("partialResultToken");
        Position::lemma_survives(value.text_document_position_params.position);
        if let Some(inner) = value.work_done_progress_params.work_done_token {
            NumberOrString::lemma_survives(inner);
        }
        if let Some(inner) = value.partial_result_params.partial_result_token {
            NumberOrString::lemma_survives(inner);
        }
    }
}

/// A document highlight is a range inside a text document which deserves
/// special attention. Usually a document highlight is visualized by changing
/// the background color of its range.
#[derive(Debug, PartialEq, Eq, Structural, Clone)]
pub struct DocumentHighlight {
    /// The range this highlight applies to.
    pub range: Range,
    /// The highlight kind, default is DocumentHighlightKind.Text.
    pub kind: Option<DocumentHighlightKind>,
}

impl DeepView for DocumentHighlight {
    type V = DocumentHighlight;

    open spec fn deep_view(&self) -> DocumentHighlight {
        DocumentHighlight {
            range: self.range.deep_view(),
            kind: self.kind.deep_view(),
        }
    }
}

impl Record for DocumentHighlight {
    open spec fn members(before: Seq<Member>, value: DocumentHighlight) -> Seq<Member> {
        before + field::<Range>("range"@, value.range)
            + optional_field::<DocumentHighlightKind>("kind"@, value.kind)
    }

    open spec fn read(members: Seq<Member>) -> Result<DocumentHighlight, CodecError> {
        let range = required::<Range>(members, "range"@);
        let kind = optional::<DocumentHighlightKind>(members, "kind"@);
        if range is Err {
            Err(range->Err_0)
        } else if kind is Err {
            Err(kind->Err_0)
        } else {
            Ok(
                DocumentHighlight {
                    range: range->Ok_0,
                    kind: kind->Ok_0,
                },
            )
        }
    }

    fn write(&self, members: &mut Vec<(String, Json)>) {
        put(members, "range", &self.range);
        put_optional(members, "kind", &self.kind);
    }

    fn scan(members: &Vec<(String, Json)>) -> (result: Result<DocumentHighlight, CodecError>) {
        let range = get::<Range>(members, "range");
        let kind = get_optional::<DocumentHighlightKind>(members, "kind");
        if let Err(error) = range {
            Err(error)
        } else if let Err(error) = kind {
            Err(error)
        } else {
            Ok(
                DocumentHighlight {
                    range: range.unwrap(),
                    kind: kind.unwrap(),
                },
            )
        }
    }
}

impl DocumentHighlight {
    /// Every value comes back unchanged from the document that stands for it.
    pub proof fn lemma_survives(value: DocumentHighlight)
        ensures
            survives::<DocumentHighlight>(value),
    {
        broadcast use group_lookup;

        reveal(required);
        reveal(optional);
        reveal_strlit("range");
        reveal_strlit("kind");
        Range::lemma_survives(value.range);
        if let Some(inner) = value.kind {
            DocumentHighlightKind::lemma_survives(inner);
        }
    }
}

/// A document highlight kind.
#[derive(Debug, PartialEq, Eq, Structural, Clone, Copy)]
pub enum DocumentHighlightKind {
    /// A textual occurrance.
    Text,
    /// Read-access of a symbol, like reading a variable.
    Read,
    /// Write-access of a symbol, like writing to a variable.
    Write,
}

impl DeepView for DocumentHighlightKind {
    type V = DocumentHighlightKind;

    open spec fn deep_view(&self) -> DocumentHighlightKind {
        *self
    }
}

impl DocumentHighlightKind {
    /// The integer that stands for a variant on the wire.
    pub open spec fn number(self) -> u8 {
        match self {
            DocumentHighlightKind::Text => 1,
            DocumentHighlightKind::Read => 2,
            DocumentHighlightKind::Write => 3,
        }
    }

    /// The variant that an integer stands for, if any.
    pub open spec fn variant(number: int) -> Option<DocumentHighlightKind> {
        if number == 1 {
            Some(DocumentHighlightKind::Text)
        } else if number == 2 {
            Some(DocumentHighlightKind::Read)
        } else if number == 3 {
            Some(DocumentHighlightKind::Write)
        } else {
            None
        }
    }

    /// Gives the integer that stands for this variant on the wire.
    pub fn to_number(self) -> (number: u8)
        ensures
            number == self.number(),
    {
        match self {
            DocumentHighlightKind::Text => 1,
            DocumentHighlightKind::Read => 2,
            DocumentHighlightKind::Write => 3,
        }
    }

    /// Gives the variant that an integer stands for, if any.
    pub fn from_number(number: u64) -> (variant: Option<DocumentHighlightKind>)
        ensures
            variant == Self::variant(number as int),
    {
        if number == 1 {
            Some(DocumentHighlightKind::Text)
        } else if number == 2 {
            Some(DocumentHighlightKind::Read)
        } else if number == 3 {
            Some(DocumentHighlightKind::Write)
        } else {
            None
        }
    }

    /// Every variant comes back unchanged from the integer that stands for it.
    pub proof fn lemma_survives(value: DocumentHighlightKind)
        ensures
            survives::<DocumentHighlightKind>(value),
    {
    }

    /// An integer is refused exactly when it names no variant, and the
    /// error then holds it together with the bounds of those that do.
    pub proof fn lemma_refusal(number: Number)
        requires
            !(number is Float),
        ensures
            DocumentHighlightKind::decode(JsonValue::Number(number)) is Err <==> !(number matches Number::PosInt(n)
                && 1 <= n <= 3),
            DocumentHighlightKind::decode(JsonValue::Number(number)) is Err ==> DocumentHighlightKind::decode(
                JsonValue::Number(number),
            ) == Err::<DocumentHighlightKind, CodecError>(
                CodecError::InvalidEnumValue { value: number, lowest: 1, highest: 3 },
            ),
    {
    }
}

impl Codec for DocumentHighlightKind {
    open spec fn encode(value: DocumentHighlightKind) -> JsonValue {
        JsonValue::Number(Number::PosInt(value.number() as u64))
    }

    open spec fn decode(json: JsonValue) -> Result<DocumentHighlightKind, CodecError> {
        match json {
            JsonValue::Number(Number::PosInt(n)) => match Self::variant(n as int) {
                Some(variant) => Ok(variant),
                None => Err(
                    CodecError::InvalidEnumValue { value: Number::PosInt(n), lowest: 1, highest: 3 },
                ),
            },
            JsonValue::Number(Number::NegInt(n)) => Err(
                CodecError::InvalidEnumValue { value: Number::NegInt(n), lowest: 1, highest: 3 },
            ),
            _ => Err(CodecError::UnexpectedType),
        }
    }

    fn serialize(&self) -> (json: Json) {
        Json::Number(Number::PosInt(self.to_number() as u64))
    }

    fn deserialize(json: &Json) -> (result: Result<DocumentHighlightKind, CodecError>) {
        match json {
            Json::Number(Number::PosInt(n)) => match Self::from_number(*n) {
                Some(variant) => Ok(variant),
                None => Err(
                    CodecError::InvalidEnumValue { value: Number::PosInt(*n), lowest: 1, highest: 3 },
                ),
            },
            Json::Number(Number::NegInt(n)) => Err(
                CodecError::InvalidEnumValue { value: Number::NegInt(*n), lowest: 1, highest: 3 },
            ),
            _ => Err(CodecError::UnexpectedType),
        }
    }
}

} // verus!
