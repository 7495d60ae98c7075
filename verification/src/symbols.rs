//! The symbols of a document and of a workspace.

use crate::basic::{
    Location, LocationModel, NumberOrString, Range, TextDocumentIdentifier,
    TextDocumentIdentifierModel,
};
use crate::codec::{
    Codec, CodecError, field, find, get, get_optional, group_lookup, lemma_lookup_member,
    lemma_sequence_round_trip, lookup, Member, optional, optional_field, outcome, put, put_optional,
    Record, required, survives,
};
use crate::json::{Json, JsonValue, lemma_array_view, lemma_object_view, Number};
use crate::progress::{
    PartialResultParams, PartialResultParamsModel, WorkDoneProgressParams,
    WorkDoneProgressParamsModel,
};
use vstd::prelude::*;
use vstd::std_specs::convert::FromSpecImpl;

verus! {

#[derive(Debug, PartialEq, Clone)]
pub enum DocumentSymbolResponse {
    Flat(Vec<SymbolInformation>),
    Nested(Vec<DocumentSymbol>),
}

/// What a [`DocumentSymbolResponse`] stands for.
pub enum DocumentSymbolResponseModel {
    Flat(Seq<SymbolInformationModel>),
    Nested(Seq<DocumentSymbolModel>),
}

impl DeepView for DocumentSymbolResponse {
    type V = DocumentSymbolResponseModel;

    open spec fn deep_view(&self) -> DocumentSymbolResponseModel {
        match self {
            DocumentSymbolResponse::Flat(value) => DocumentSymbolResponseModel::Flat(value.deep_view()),
            DocumentSymbolResponse::Nested(value) => DocumentSymbolResponseModel::Nested(value.deep_view()),
        }
    }
}

impl Codec for DocumentSymbolResponse {
    open spec fn encode(value: DocumentSymbolResponseModel) -> JsonValue {
        match value {
            DocumentSymbolResponseModel::Flat(value) => Vec::<SymbolInformation>::encode(value),
            DocumentSymbolResponseModel::Nested(value) => Vec::<DocumentSymbol>::encode(value),
        }
    }

    open spec fn decode(json: JsonValue) -> Result<DocumentSymbolResponseModel, CodecError> {
        if let Ok(value) = Vec::<SymbolInformation>::decode(json) {
            Ok(DocumentSymbolResponseModel::Flat(value))
        } else if let Ok(value) = Vec::<DocumentSymbol>::decode(json) {
            Ok(DocumentSymbolResponseModel::Nested(value))
        } else {
            Err(CodecError::NoVariantMatched)
        }
    }

    fn serialize(&self) -> (json: Json) {
        match self {
            DocumentSymbolResponse::Flat(value) => value.serialize(),
            DocumentSymbolResponse::Nested(value) => value.serialize(),
        }
    }

    fn deserialize(json: &Json) -> (result: Result<DocumentSymbolResponse, CodecError>) {
        if let Ok(value) = Vec::<SymbolInformation>::deserialize(json) {
            Ok(DocumentSymbolResponse::Flat(value))
        } else if let Ok(value) = Vec::<DocumentSymbol>::deserialize(json) {
            Ok(DocumentSymbolResponse::Nested(value))
        } else {
            Err(CodecError::NoVariantMatched)
        }
    }
}

impl DocumentSymbolResponse {
    /// A value comes back unchanged from its document exactly when its
    /// payload does and no variant declared before its own reads the
    /// payload's document.
    pub proof fn lemma_round_trip(value: DocumentSymbolResponseModel)
        ensures
            survives::<DocumentSymbolResponse>(value) <==> match value {
                DocumentSymbolResponseModel::Flat(v) => survives::<Vec<SymbolInformation>>(v),
                DocumentSymbolResponseModel::Nested(v) => Vec::<SymbolInformation>::decode(Vec::<DocumentSymbol>::encode(v)) is Err
                    && survives::<Vec<DocumentSymbol>>(v),
            },
    {
    }
}

impl From<Vec<SymbolInformation>> for DocumentSymbolResponse {
    fn from(info: Vec<SymbolInformation>) -> (result: DocumentSymbolResponse) {
        DocumentSymbolResponse::Flat(info)
    }
}

impl FromSpecImpl<Vec<SymbolInformation>> for DocumentSymbolResponse {
    open spec fn obeys_from_spec() -> bool {
        true
    }

    open spec fn from_spec(info: Vec<SymbolInformation>) -> DocumentSymbolResponse {
        DocumentSymbolResponse::Flat(info)
    }
}

impl From<Vec<DocumentSymbol>> for DocumentSymbolResponse {
    fn from(symbols: Vec<DocumentSymbol>) -> (result: DocumentSymbolResponse) {
        DocumentSymbolResponse::Nested(symbols)
    }
}

impl FromSpecImpl<Vec<DocumentSymbol>> for DocumentSymbolResponse {
    open spec fn obeys_from_spec() -> bool {
        true
    }

    open spec fn from_spec(symbols: Vec<DocumentSymbol>) -> DocumentSymbolResponse {
        DocumentSymbolResponse::Nested(symbols)
    }
}

#[derive(Debug, PartialEq, Eq, Clone)]
pub struct DocumentSymbolParams {
    /// The text document.
    pub text_document: TextDocumentIdentifier,
    /// Its members are written among those of this value.
    pub work_done_progress_params: WorkDoneProgressParams,
    /// Its members are written among those of this value.
    pub partial_result_params: PartialResultParams,
}

/// What a [`DocumentSymbolParams`] stands for.
pub struct DocumentSymbolParamsModel {
    pub text_document: TextDocumentIdentifierModel,
    pub work_done_progress_params: WorkDoneProgressParamsModel,
    pub partial_result_params: PartialResultParamsModel,
}

impl DeepView for DocumentSymbolParams {
    type V = DocumentSymbolParamsModel;

    open spec fn deep_view(&self) -> DocumentSymbolParamsModel {
        DocumentSymbolParamsModel {
            text_document: self.text_document.deep_view(),
            work_done_progress_params: self.work_done_progress_params.deep_view(),
            partial_result_params: self.partial_result_params.deep_view(),
        }
    }
}

impl Record for DocumentSymbolParams {
    open spec fn members(before: Seq<Member>, value: DocumentSymbolParamsModel) -> Seq<Member> {
        PartialResultParams::members(
            WorkDoneProgressParams::members(
                before + field::<TextDocumentIdentifier>("textDocument"@, value.text_document),
                value.work_done_progress_params,
            ),
            value.partial_result_params,
        )
    }

    open spec fn read(members: Seq<Member>) -> Result<DocumentSymbolParamsModel, CodecError> {
        let text_document = required::<TextDocumentIdentifier>(members, "textDocument"@);
        let work_done_progress_params = WorkDoneProgressParams::read(members);
        let partial_result_params = PartialResultParams::read(members);
        if text_document is Err {
            Err(text_document->Err_0)
        } else if work_done_progress_params is Err {
            Err(work_done_progress_params->Err_0)
        } else if partial_result_params is Err {
            Err(partial_result_params->Err_0)
        } else {
            Ok(
                DocumentSymbolParamsModel {
                    text_document: text_document->Ok_0,
                    work_done_progress_params: work_done_progress_params->Ok_0,
                    partial_result_params: partial_result_params->Ok_0,
                },
            )
        }
    }

    fn write(&self, members: &mut Vec<(String, Json)>) {
        put(members, "textDocument", &self.text_document);
        self.work_done_progress_params.write(members);
        self.partial_result_params.write(members);
    }

    fn scan(members: &Vec<(String, Json)>) -> (result: Result<DocumentSymbolParams, CodecError>) {
        let text_document = get::<TextDocumentIdentifier>(members, "textDocument");
        let work_done_progress_params = WorkDoneProgressParams::scan(members);
        let partial_result_params = PartialResultParams::scan(members);
        if let Err(error) = text_document {
            Err(error)
        } else if let Err(error) = work_done_progress_params {
            Err(error)
        } else if let Err(error) = partial_result_params {
            Err(error)
        } else {
            Ok(
                DocumentSymbolParams {
                    text_document: text_document.unwrap(),
                    work_done_progress_params: work_done_progress_params.unwrap(),
                    partial_result_params: partial_result_params.unwrap(),
                },
            )
        }
    }
}

impl DocumentSymbolParams {
    /// A value comes back unchanged from the document that stands for it
    /// where its fields meet what is asked of them here.
    pub proof fn lemma_round_trip(value: DocumentSymbolParamsModel)
        requires
            survives::<TextDocumentIdentifier>(value.text_document),
        ensures
            survives::<DocumentSymbolParams>(value),
    {
        broadcast use group_lookup;

        reveal(required);
        reveal(optional);
        reveal_strlit("textDocument");
        reveal_strlit("workDoneToken");
        reveal_strlit("partialResultToken");
        if let Some(inner) = value.work_done_progress_params.work_done_token {
            NumberOrString::lemma_survives(inner);
        }
        if let Some(inner) = value.partial_result_params.partial_result_token {
            NumberOrString::lemma_survives(inner);
        }
    }
}

/// Represents information about programming constructs like variables, classes,
/// interfaces etc.
#[derive(Debug, PartialEq, Eq, Clone)]
pub struct SymbolInformation {
    /// The name of this symbol.
    pub name: String,
    /// The kind of this symbol.
    pub kind: SymbolKind,
    /// Tags for this completion item.
    ///  since 3.16.0
    pub tags: Option<Vec<SymbolTag>>,
    /// Indicates if this symbol is deprecated.
    pub deprecated: Option<bool>,
    /// The location of this symbol.
    pub location: Location,
    /// The name of the symbol containing this symbol.
    pub container_name: Option<String>,
}

/// What a [`SymbolInformation`] stands for.
pub struct SymbolInformationModel {
    pub name: Seq<char>,
    pub kind: SymbolKind,
    pub tags: Option<Seq<SymbolTag>>,
    pub deprecated: Option<bool>,
    pub location: LocationModel,
    pub container_name: Option<Seq<char>>,
}

impl DeepView for SymbolInformation {
    type V = SymbolInformationModel;

    open spec fn deep_view(&self) -> SymbolInformationModel {
        SymbolInformationModel {
            name: self.name.deep_view(),
            kind: self.kind.deep_view(),
            tags: self.tags.deep_view(),
            deprecated: self.deprecated.deep_view(),
            location: self.location.deep_view(),
            container_name: self.container_name.deep_view(),
        }
    }
}

impl Record for SymbolInformation {
    open spec fn members(before: Seq<Member>, value: SymbolInformationModel) -> Seq<Member> {
        before + field::<String>("name"@, value.name)
            + field::<SymbolKind>("kind"@, value.kind)
            + optional_field::<Vec<SymbolTag>>("tags"@, value.tags)
            + optional_field::<bool>("deprecated"@, value.deprecated)
            + field::<Location>("location"@, value.location)
            + optional_field::<String>("containerName"@, value.container_name)
    }

    open spec fn read(members: Seq<Member>) -> Result<SymbolInformationModel, CodecError> {
        let name = required::<String>(members, "name"@);
        let kind = required::<SymbolKind>(members, "kind"@);
        let tags = optional::<Vec<SymbolTag>>(members, "tags"@);
        let deprecated = optional::<bool>(members, "deprecated"@);
        let location = required::<Location>(members, "location"@);
        let container_name = optional::<String>(members, "containerName"@);
        if name is Err {
            Err(name->Err_0)
        } else if kind is Err {
            Err(kind->Err_0)
        } else if tags is Err {
            Err(tags->Err_0)
        } else if deprecated is Err {
            Err(deprecated->Err_0)
        } else if location is Err {
            Err(location->Err_0)
        } else if container_name is Err {
            Err(container_name->Err_0)
        } else {
            Ok(
                SymbolInformationModel {
                    name: name->Ok_0,
                    kind: kind->Ok_0,
                    tags: tags->Ok_0,
                    deprecated: deprecated->Ok_0,
                    location: location->Ok_0,
                    container_name: container_name->Ok_0,
                },
            )
        }
    }

    fn write(&self, members: &mut Vec<(String, Json)>) {
        put(members, "name", &self.name);
        put(members, "kind", &self.kind);
        put_optional(members, "tags", &self.tags);
        put_optional(members, "deprecated", &self.deprecated);
        put(members, "location", &self.location);
        put_optional(members, "containerName", &self.container_name);
    }

    fn scan(members: &Vec<(String, Json)>) -> (result: Result<SymbolInformation, CodecError>) {
        let name = get::<String>(members, "name");
        let kind = get::<SymbolKind>(members, "kind");
        let tags = get_optional::<Vec<SymbolTag>>(members, "tags");
        let deprecated = get_optional::<bool>(members, "deprecated");
        let location = get::<Location>(members, "location");
        let container_name = get_optional::<String>(members, "containerName");
        if let Err(error) = name {
            Err(error)
        } else if let Err(error) = kind {
            Err(error)
        } else if let Err(error) = tags {
            Err(error)
        } else if let Err(error) = deprecated {
            Err(error)
        } else if let Err(error) = location {
            Err(error)
        } else if let Err(error) = container_name {
            Err(error)
        } else {
            Ok(
                SymbolInformation {
                    name: name.unwrap(),
                    kind: kind.unwrap(),
                    tags: tags.unwrap(),
                    deprecated: deprecated.unwrap(),
                    location: location.unwrap(),
                    container_name: container_name.unwrap(),
                },
            )
        }
    }
}

impl SymbolInformation {
    /// A value comes back unchanged from the document that stands for it
    /// where its fields meet what is asked of them here.
    pub proof fn lemma_round_trip(value: SymbolInformationModel)
        requires
            survives::<Location>(value.location),
        ensures
            survives::<SymbolInformation>(value),
    {
        broadcast use group_lookup;

        reveal(required);
        reveal(optional);
        reveal_strlit("name");
        reveal_strlit("kind");
        reveal_strlit("tags");
        reveal_strlit("deprecated");
        reveal_strlit("location");
        reveal_strlit("containerName");
        SymbolKind::lemma_survives(value.kind);
        if let Some(inner) = value.tags {
            assert forall|i: int| 0 <= i < inner.len() implies survives::<SymbolTag>(
                #[trigger] inner[i],
            ) by {
                SymbolTag::lemma_survives(inner[i]);
            }
            lemma_sequence_round_trip::<SymbolTag>(inner);
        }
    }
}

/// A symbol kind.
#[derive(Debug, PartialEq, Eq, Structural, Clone, Copy)]
pub enum SymbolKind {
    File,
    Module,
    Namespace,
    Package,
    Class,
    Method,
    Property,
    Field,
    Constructor,
    Enum,
    Interface,
    Function,
    Variable,
    Constant,
    String,
    Number,
    Boolean,
    Array,
    Object,
    Key,
    Null,
    EnumMember,
    Struct,
    Event,
    Operator,
    TypeParameter,
    Unknown,
}

impl DeepView for SymbolKind {
    type V = SymbolKind;

    open spec fn deep_view(&self) -> SymbolKind {
        *self
    }
}

impl SymbolKind {
    /// The integer that stands for a variant on the wire.
    pub open spec fn number(self) -> u8 {
        match self {
            SymbolKind::File => 1,
            SymbolKind::Module => 2,
            SymbolKind::Namespace => 3,
            SymbolKind::Package => 4,
            SymbolKind::Class => 5,
            SymbolKind::Method => 6,
            SymbolKind::Property => 7,
            SymbolKind::Field => 8,
            SymbolKind::Constructor => 9,
            SymbolKind::Enum => 10,
            SymbolKind::Interface => 11,
            SymbolKind::Function => 12,
            SymbolKind::Variable => 13,
            SymbolKind::Constant => 14,
            SymbolKind::String => 15,
            SymbolKind::Number => 16,
            SymbolKind::Boolean => 17,
            SymbolKind::Array => 18,
            SymbolKind::Object => 19,
            SymbolKind::Key => 20,
            SymbolKind::Null => 21,
            SymbolKind::EnumMember => 22,
            SymbolKind::Struct => 23,
            SymbolKind::Event => 24,
            SymbolKind::Operator => 25,
            SymbolKind::TypeParameter => 26,
            SymbolKind::Unknown => 255,
        }
    }

    /// The variant that an integer stands for: `Unknown` for every integer
    /// that names no other variant.
    pub open spec fn variant(number: int) -> SymbolKind {
        if number == 1 {
            SymbolKind::File
        } else if number == 2 {
            SymbolKind::Module
        } else if number == 3 {
            SymbolKind::Namespace
        } else if number == 4 {
            SymbolKind::Package
        } else if number == 5 {
            SymbolKind::Class
        } else if number == 6 {
            SymbolKind::Method
        } else if number == 7 {
            SymbolKind::Property
        } else if number == 8 {
            SymbolKind::Field
        } else if number == 9 {
            SymbolKind::Constructor
        } else if number == 10 {
            SymbolKind::Enum
        } else if number == 11 {
            SymbolKind::Interface
        } else if number == 12 {
            SymbolKind::Function
        } else if number == 13 {
            SymbolKind::Variable
        } else if number == 14 {
            SymbolKind::Constant
        } else if number == 15 {
            SymbolKind::String
        } else if number == 16 {
            SymbolKind::Number
        } else if number == 17 {
            SymbolKind::Boolean
        } else if number == 18 {
            SymbolKind::Array
        } else if number == 19 {
            SymbolKind::Object
        } else if number == 20 {
            SymbolKind::Key
        } else if number == 21 {
            SymbolKind::Null
        } else if number == 22 {
            SymbolKind::EnumMember
        } else if number == 23 {
            SymbolKind::Struct
        } else if number == 24 {
            SymbolKind::Event
        } else if number == 25 {
            SymbolKind::Operator
        } else if number == 26 {
            SymbolKind::TypeParameter
        } else {
            SymbolKind::Unknown
        }
    }

    /// Gives the integer that stands for this variant on the wire.
    pub fn to_number(self) -> (number: u8)
        ensures
            number == self.number(),
    {
        match self {
            SymbolKind::File => 1,
            SymbolKind::Module => 2,
            SymbolKind::Namespace => 3,
            SymbolKind::Package => 4,
            SymbolKind::Class => 5,
            SymbolKind::Method => 6,
            SymbolKind::Property => 7,
            SymbolKind::Field => 8,
            SymbolKind::Constructor => 9,
            SymbolKind::Enum => 10,
            SymbolKind::Interface => 11,
            SymbolKind::Function => 12,
            SymbolKind::Variable => 13,
            SymbolKind::Constant => 14,
            SymbolKind::String => 15,
            SymbolKind::Number => 16,
            SymbolKind::Boolean => 17,
            SymbolKind::Array => 18,
            SymbolKind::Object => 19,
            SymbolKind::Key => 20,
            SymbolKind::Null => 21,
            SymbolKind::EnumMember => 22,
            SymbolKind::Struct => 23,
            SymbolKind::Event => 24,
            SymbolKind::Operator => 25,
            SymbolKind::TypeParameter => 26,
            SymbolKind::Unknown => 255,
        }
    }

    /// Gives the variant that an integer stands for.
    pub fn from_number(number: u64) -> (variant: SymbolKind)
        ensures
            variant == Self::variant(number as int),
    {
        if number == 1 {
            SymbolKind::File
        } else if number == 2 {
            SymbolKind::Module
        } else if number == 3 {
            SymbolKind::Namespace
        } else if number == 4 {
            SymbolKind::Package
        } else if number == 5 {
            SymbolKind::Class
        } else if number == 6 {
            SymbolKind::Method
        } else if number == 7 {
            SymbolKind::Property
        } else if number == 8 {
            SymbolKind::Field
        } else if number == 9 {
            SymbolKind::Constructor
        } else if number == 10 {
            SymbolKind::Enum
        } else if number == 11 {
            SymbolKind::Interface
        } else if number == 12 {
            SymbolKind::Function
        } else if number == 13 {
            SymbolKind::Variable
        } else if number == 14 {
            SymbolKind::Constant
        } else if number == 15 {
            SymbolKind::String
        } else if number == 16 {
            SymbolKind::Number
        } else if number == 17 {
            SymbolKind::Boolean
        } else if number == 18 {
            SymbolKind::Array
        } else if number == 19 {
            SymbolKind::Object
        } else if number == 20 {
            SymbolKind::Key
        } else if number == 21 {
            SymbolKind::Null
        } else if number == 22 {
            SymbolKind::EnumMember
        } else if number == 23 {
            SymbolKind::Struct
        } else if number == 24 {
            SymbolKind::Event
        } else if number == 25 {
            SymbolKind::Operator
        } else if number == 26 {
            SymbolKind::TypeParameter
        } else {
            SymbolKind::Unknown
        }
    }

    /// Every variant comes back unchanged from the integer that stands for it.
    pub proof fn lemma_survives(value: SymbolKind)
        ensures
            survives::<SymbolKind>(value),
    {
    }

    /// No integer is refused, and every integer that names no other variant
    /// is read as `Unknown`.
    pub proof fn lemma_fallback(number: Number)
        requires
            !(number is Float),
        ensures
            SymbolKind::decode(JsonValue::Number(number)) is Ok,
            !(number matches Number::PosInt(n) && 1 <= n <= 26) ==> SymbolKind::decode(
                JsonValue::Number(number),
            ) == Ok::<SymbolKind, CodecError>(SymbolKind::Unknown),
    {
    }
}

impl Codec for SymbolKind {
    open spec fn encode(value: SymbolKind) -> JsonValue {
        JsonValue::Number(Number::PosInt(value.number() as u64))
    }

    open spec fn decode(json: JsonValue) -> Result<SymbolKind, CodecError> {
        match json {
            JsonValue::Number(Number::PosInt(n)) => Ok(Self::variant(n as int)),
            JsonValue::Number(Number::NegInt(n)) => Ok(SymbolKind::Unknown),
            _ => Err(CodecError::UnexpectedType),
        }
    }

    fn serialize(&self) -> (json: Json) {
        Json::Number(Number::PosInt(self.to_number() as u64))
    }

    fn deserialize(json: &Json) -> (result: Result<SymbolKind, CodecError>) {
        match json {
            Json::Number(Number::PosInt(n)) => Ok(Self::from_number(*n)),
            Json::Number(Number::NegInt(_)) => Ok(SymbolKind::Unknown),
            _ => Err(CodecError::UnexpectedType),
        }
    }
}

/// The parameters of a Workspace Symbol Request.
#[derive(Debug, PartialEq, Eq, Clone, Default)]
pub struct WorkspaceSymbolParams {
    /// Its members are written among those of this value.
    pub partial_result_params: PartialResultParams,
    /// Its members are written among those of this value.
    pub work_done_progress_params: WorkDoneProgressParams,
    /// A non-empty query string
    pub query: String,
}

/// What a [`WorkspaceSymbolParams`] stands for.
pub struct WorkspaceSymbolParamsModel {
    pub partial_result_params: PartialResultParamsModel,
    pub work_done_progress_params: WorkDoneProgressParamsModel,
    pub query: Seq<char>,
}

impl DeepView for WorkspaceSymbolParams {
    type V = WorkspaceSymbolParamsModel;

    open spec fn deep_view(&self) -> WorkspaceSymbolParamsModel {
        WorkspaceSymbolParamsModel {
            partial_result_params: self.partial_result_params.deep_view(),
            work_done_progress_params: self.work_done_progress_params.deep_view(),
            query: self.query.deep_view(),
        }
    }
}

impl Record for WorkspaceSymbolParams {
    open spec fn members(before: Seq<Member>, value: WorkspaceSymbolParamsModel) -> Seq<Member> {
        WorkDoneProgressParams::members(
            PartialResultParams::members(before, value.partial_result_params),
            value.work_done_progress_params,
        ) + field::<String>("query"@, value.query)
    }

    open spec fn read(members: Seq<Member>) -> Result<WorkspaceSymbolParamsModel, CodecError> {
        let partial_result_params = PartialResultParams::read(members);
        let work_done_progress_params = WorkDoneProgressParams::read(members);
        let query = required::<String>(members, "query"@);
        if partial_result_params is Err {
            Err(partial_result_params->Err_0)
        } else if work_done_progress_params is Err {
            Err(work_done_progress_params->Err_0)
        } else if query is Err {
            Err(query->Err_0)
        } else {
            Ok(
                WorkspaceSymbolParamsModel {
                    partial_result_params: partial_result_params->Ok_0,
                    work_done_progress_params: work_done_progress_params->Ok_0,
                    query: query->Ok_0,
                },
            )
        }
    }

    fn write(&self, members: &mut Vec<(String, Json)>) {
        self.partial_result_params.write(members);
        self.work_done_progress_params.write(members);
        put(members, "query", &self.query);
    }

    fn scan(members: &Vec<(String, Json)>) -> (result: Result<WorkspaceSymbolParams, CodecError>) {
        let partial_result_params = PartialResultParams::scan(members);
        let work_done_progress_params = WorkDoneProgressParams::scan(members);
        let query = get::<String>(members, "query");
        if let Err(error) = partial_result_params {
            Err(error)
        } else if let Err(error) = work_done_progress_params {
            Err(error)
        } else if let Err(error) = query {
            Err(error)
        } else {
            Ok(
                WorkspaceSymbolParams {
                    partial_result_params: partial_result_params.unwrap(),
                    work_done_progress_params: work_done_progress_params.unwrap(),
                    query: query.unwrap(),
                },
            )
        }
    }
}

impl WorkspaceSymbolParams {
    /// Every value comes back unchanged from the document that stands for it.
    pub proof fn lemma_survives(value: WorkspaceSymbolParamsModel)
        ensures
            survives::<WorkspaceSymbolParams>(value),
    {
        broadcast use group_lookup;

        reveal(required);
        reveal(optional);
        reveal_strlit("partialResultToken");
        reveal_strlit("workDoneToken");
        reveal_strlit("query");
        if let Some(inner) = value.partial_result_params.partial_result_token {
            NumberOrString::lemma_survives(inner);
        }
        if let Some(inner) = value.work_done_progress_params.work_done_token {
            NumberOrString::lemma_survives(inner);
        }
    }
}

/// Symbol tags are extra annotations that tweak the rendering of a symbol.
/// Since 3.15
#[derive(Debug, PartialEq, Eq, Structural, Clone, Copy)]
pub enum SymbolTag {
    /// Render a symbol as obsolete, usually using a strike-out.
    Deprecated,
}

impl DeepView for SymbolTag {
    type V = SymbolTag;

    open spec fn deep_view(&self) -> SymbolTag {
        *self
    }
}

impl SymbolTag {
    /// The integer that stands for a variant on the wire.
    pub open spec fn number(self) -> u8 {
        match self {
            SymbolTag::Deprecated => 1,
        }
    }

    /// The variant that an integer stands for, if any.
    pub open spec fn variant(number: int) -> Option<SymbolTag> {
        if number == 1 {
            Some(SymbolTag::Deprecated)
        } else {
            None
        }
    }

    /// Gives the integer that stands for this variant on the wire.
    pub fn to_number(self) -> (number: u8)
        ensures
            number == self.number(),
    {
        match self {
            SymbolTag::Deprecated => 1,
        }
    }

    /// Gives the variant that an integer stands for, if any.
    pub fn from_number(number: u64) -> (variant: Option<SymbolTag>)
        ensures
            variant == Self::variant(number as int),
    {
        if number == 1 {
            Some(SymbolTag::Deprecated)
        } else {
            None
        }
    }

    /// Every variant comes back unchanged from the integer that stands for it.
    pub proof fn lemma_survives(value: SymbolTag)
        ensures
            survives::<SymbolTag>(value),
    {
    }

    /// An integer is refused exactly when it names no variant, and the
    /// error then holds it together with the bounds of those that do.
    pub proof fn lemma_refusal(number: Number)
        requires
            !(number is Float),
        ensures
            SymbolTag::decode(JsonValue::Number(number)) is Err <==> !(number matches Number::PosInt(n)
                && 1 <= n <= 1),
            SymbolTag::decode(JsonValue::Number(number)) is Err ==> SymbolTag::decode(
                JsonValue::Number(number),
            ) == Err::<SymbolTag, CodecError>(
                CodecError::InvalidEnumValue { value: number, lowest: 1, highest: 1 },
            ),
    {
    }
}

impl Codec for SymbolTag {
    open spec fn encode(value: SymbolTag) -> JsonValue {
        JsonValue::Number(Number::PosInt(value.number() as u64))
    }

    open spec fn decode(json: JsonValue) -> Result<SymbolTag, CodecError> {
        match json {
            JsonValue::Number(Number::PosInt(n)) => match Self::variant(n as int) {
                Some(variant) => Ok(variant),
                None => Err(
                    CodecError::InvalidEnumValue { value: Number::PosInt(n), lowest: 1, highest: 1 },
                ),
            },
            JsonValue::Number(Number::NegInt(n)) => Err(
                CodecError::InvalidEnumValue { value: Number::NegInt(n), lowest: 1, highest: 1 },
            ),
            _ => Err(CodecError::UnexpectedType),
        }
    }

    fn serialize(&self) -> (json: Json) {
        Json::Number(Number::PosInt(self.to_number() as u64))
    }

    fn deserialize(json: &Json) -> (result: Result<SymbolTag, CodecError>) {
        match json {
            Json::Number(Number::PosInt(n)) => match Self::from_number(*n) {
                Some(variant) => Ok(variant),
                None => Err(
                    CodecError::InvalidEnumValue { value: Number::PosInt(*n), lowest: 1, highest: 1 },
                ),
            },
            Json::Number(Number::NegInt(n)) => Err(
                CodecError::InvalidEnumValue { value: Number::NegInt(*n), lowest: 1, highest: 1 },
            ),
            _ => Err(CodecError::UnexpectedType),
        }
    }
}

/// Represents programming constructs like variables, classes, interfaces etc.
/// that appear in a document. Document symbols can be hierarchical and they have two ranges:
/// one that encloses its definition and one that points to its most interesting range,
/// e.g. the range of an identifier.
#[derive(Debug, PartialEq, Eq)]
pub struct DocumentSymbol {
    /// The name of this symbol.
    pub name: String,
    /// More detail for this symbol, e.g the signature of a function. If not provided the
    /// name is used.
    pub detail: Option<String>,
    /// The kind of this symbol.
    pub kind: SymbolKind,
    /// Tags for this completion item.
    pub tags: Option<Vec<SymbolTag>>,
    /// Indicates if this symbol is deprecated.
    pub deprecated: Option<bool>,
    /// The range enclosing this symbol not including leading/trailing whitespace but everything else
    /// like comments. This information is typically used to determine if the the clients cursor is
    /// inside the symbol to reveal in the symbol in the UI.
    pub range: Range,
    /// The range that should be selected and revealed when this symbol is being picked, e.g the name of a function.
    /// Must be contained by the the `range`.
    pub selection_range: Range,
    /// Children of this symbol, e.g. properties of a class.
    pub children: Option<Vec<DocumentSymbol>>,
}

/// What a [`DocumentSymbol`] stands for.
pub struct DocumentSymbolModel {
    pub name: Seq<char>,
    pub detail: Option<Seq<char>>,
    pub kind: SymbolKind,
    pub tags: Option<Seq<SymbolTag>>,
    pub deprecated: Option<bool>,
    pub range: Range,
    pub selection_range: Range,
    pub children: Option<Seq<DocumentSymbolModel>>,
}

/// What a document symbol stands for, with its children.
pub open spec fn symbol_view(symbol: DocumentSymbol) -> DocumentSymbolModel
    decreases symbol,
{
    DocumentSymbolModel {
        name: symbol.name.deep_view(),
        detail: symbol.detail.deep_view(),
        kind: symbol.kind.deep_view(),
        tags: symbol.tags.deep_view(),
        deprecated: symbol.deprecated.deep_view(),
        range: symbol.range.deep_view(),
        selection_range: symbol.selection_range.deep_view(),
        children: match symbol.children {
            Some(children) => Some(symbols_view(children@)),
            None => None,
        },
    }
}

/// What a sequence of document symbols stands for, in order.
pub open spec fn symbols_view(symbols: Seq<DocumentSymbol>) -> Seq<DocumentSymbolModel>
    decreases symbols,
{
    if symbols.len() == 0 {
        Seq::empty()
    } else {
        symbols_view(symbols.drop_last()).push(symbol_view(symbols.last()))
    }
}

/// The view of a sequence of symbols holds the view of each symbol.
pub proof fn lemma_symbols_view(symbols: Seq<DocumentSymbol>)
    ensures
        symbols_view(symbols).len() == symbols.len(),
        forall|i: int|
            0 <= i < symbols.len() ==> #[trigger] symbols_view(symbols)[i] == symbol_view(symbols[i]),
    decreases symbols.len(),
{
    if symbols.len() > 0 {
        lemma_symbols_view(symbols.drop_last());
    }
}

/// The view of a vector of symbols is the view of its sequence of symbols.
pub proof fn lemma_symbol_vec_view(symbols: Vec<DocumentSymbol>)
    ensures
        symbols.deep_view() == symbols_view(symbols@),
{
    lemma_symbols_view(symbols@);
    assert(symbols.deep_view() =~= symbols_view(symbols@));
}

impl DeepView for DocumentSymbol {
    type V = DocumentSymbolModel;

    open spec fn deep_view(&self) -> DocumentSymbolModel {
        symbol_view(*self)
    }
}

/// The members `before`, followed by those that stand for a document symbol.
pub open spec fn symbol_members(before: Seq<Member>, value: DocumentSymbolModel) -> Seq<Member>
    decreases value,
{
    before + field::<String>("name"@, value.name) + optional_field::<String>(
        "detail"@,
        value.detail,
    ) + field::<SymbolKind>("kind"@, value.kind) + optional_field::<Vec<SymbolTag>>(
        "tags"@,
        value.tags,
    ) + optional_field::<bool>("deprecated"@, value.deprecated) + field::<Range>(
        "range"@,
        value.range,
    ) + field::<Range>("selectionRange"@, value.selection_range) + match value.children {
        Some(children) => seq![("children"@, JsonValue::Array(symbols_json(children)))],
        None => Seq::empty(),
    }
}

/// The documents that stand for a sequence of document symbols, in order.
pub open spec fn symbols_json(symbols: Seq<DocumentSymbolModel>) -> Seq<JsonValue>
    decreases symbols,
{
    if symbols.len() == 0 {
        Seq::empty()
    } else {
        symbols_json(symbols.drop_last()).push(
            JsonValue::Object(symbol_members(Seq::empty(), symbols.last())),
        )
    }
}

/// The document symbol that the members of an object stand for.
pub open spec fn read_symbol(members: Seq<Member>) -> Result<DocumentSymbolModel, CodecError>
    decreases members,
{
    let name = required::<String>(members, "name"@);
    let detail = optional::<String>(members, "detail"@);
    let kind = required::<SymbolKind>(members, "kind"@);
    let tags = optional::<Vec<SymbolTag>>(members, "tags"@);
    let deprecated = optional::<bool>(members, "deprecated"@);
    let range = required::<Range>(members, "range"@);
    let selection_range = required::<Range>(members, "selectionRange"@);
    let children = match lookup(members, "children"@) {
        None => Ok(None),
        Some(JsonValue::Null) => Ok(None),
        Some(JsonValue::Array(items)) => {
            proof {
                lemma_lookup_member(members, "children"@);
            }
            match read_symbols(items) {
                Ok(children) => Ok(Some(children)),
                Err(error) => Err(error),
            }
        },
        Some(_) => Err(CodecError::UnexpectedType),
    };
    if name is Err {
        Err(name->Err_0)
    } else if detail is Err {
        Err(detail->Err_0)
    } else if kind is Err {
        Err(kind->Err_0)
    } else if tags is Err {
        Err(tags->Err_0)
    } else if deprecated is Err {
        Err(deprecated->Err_0)
    } else if range is Err {
        Err(range->Err_0)
    } else if selection_range is Err {
        Err(selection_range->Err_0)
    } else if children is Err {
        Err(children->Err_0)
    } else {
        Ok(
            DocumentSymbolModel {
                name: name->Ok_0,
                detail: detail->Ok_0,
                kind: kind->Ok_0,
                tags: tags->Ok_0,
                deprecated: deprecated->Ok_0,
                range: range->Ok_0,
                selection_range: selection_range->Ok_0,
                children: children->Ok_0,
            },
        )
    }
}

/// The document symbols that the documents of a list stand for, in order, or
/// the error of the first document that stands for none.
pub open spec fn read_symbols(items: Seq<JsonValue>) -> Result<Seq<DocumentSymbolModel>, CodecError>
    decreases items,
{
    if items.len() == 0 {
        Ok(Seq::empty())
    } else {
        match read_symbols(items.drop_last()) {
            Err(error) => Err(error),
            Ok(symbols) => match items.last() {
                JsonValue::Object(members) => match read_symbol(members) {
                    Ok(symbol) => Ok(symbols.push(symbol)),
                    Err(error) => Err(error),
                },
                _ => Err(CodecError::UnexpectedType),
            },
        }
    }
}

/// An error among the first `n` documents is the error of the whole list.
pub proof fn lemma_read_symbols_error(items: Seq<JsonValue>, n: int)
    requires
        0 <= n <= items.len(),
        read_symbols(items.take(n)) is Err,
    ensures
        read_symbols(items) == read_symbols(items.take(n)),
    decreases items.len(),
{
    if n < items.len() {
        assert(items.drop_last().take(n) =~= items.take(n));
        lemma_read_symbols_error(items.drop_last(), n);
    } else {
        assert(items.take(n) =~= items);
    }
}

/// Copies a document symbol with its children.
pub fn copy_symbol(symbol: &DocumentSymbol) -> (copy: DocumentSymbol)
    ensures
        copy.deep_view() == symbol.deep_view(),
    decreases *symbol,
{
    let detail = match &symbol.detail {
        Some(detail) => Some(detail.clone()),
        None => None,
    };
    let tags = match &symbol.tags {
        Some(tags) => {
            let mut copies: Vec<SymbolTag> = Vec::new();
            let mut i: usize = 0;
            while i < tags.len()
                invariant
                    i <= tags.len(),
                    copies@ == tags@.take(i as int),
                decreases tags.len() - i,
            {
                copies.push(tags[i]);
                proof {
                    assert(tags@.take(i + 1) =~= tags@.take(i as int).push(tags@[i as int]));
                }
                i += 1;
            }
            proof {
                assert(tags@.take(i as int) =~= tags@);
                assert(copies.deep_view() =~= tags.deep_view());
            }
            Some(copies)
        },
        None => None,
    };
    let children = match &symbol.children {
        Some(children) => {
            let mut copies: Vec<DocumentSymbol> = Vec::new();
            let mut i: usize = 0;
            while i < children.len()
                invariant
                    i <= children.len(),
                    symbol.children == Some(*children),
                    copies.len() == i,
                    forall|k: int|
                        0 <= k < i ==> symbol_view(#[trigger] copies@[k]) == symbol_view(children@[k]),
                decreases children.len() - i,
            {
                proof {
                    assert(decreases_to!(*symbol => symbol.children));
                    assert(decreases_to!(symbol.children => symbol.children->Some_0));
                    assert(decreases_to!(*children => children[i as int]));
                }
                copies.push(copy_symbol(&children[i]));
                i += 1;
            }
            proof {
                lemma_symbols_view(copies@);
                lemma_symbols_view(children@);
                assert(symbols_view(copies@) =~= symbols_view(children@));
            }
            Some(copies)
        },
        None => None,
    };
    DocumentSymbol {
        name: symbol.name.clone(),
        detail,
        kind: symbol.kind,
        tags,
        deprecated: symbol.deprecated,
        range: symbol.range,
        selection_range: symbol.selection_range,
        children,
    }
}

impl Clone for DocumentSymbol {
    fn clone(&self) -> (copy: DocumentSymbol)
        ensures
            copy.deep_view() == self.deep_view(),
    {
        copy_symbol(self)
    }
}

/// Appends the members of a document symbol, with those of its children.
pub fn write_symbol(symbol: &DocumentSymbol, members: &mut Vec<(String, Json)>)
    ensures
        final(members).deep_view() == symbol_members(old(members).deep_view(), symbol.deep_view()),
    decreases *symbol,
{
    put(members, "name", &symbol.name);
    put_optional(members, "detail", &symbol.detail);
    put(members, "kind", &symbol.kind);
    put_optional(members, "tags", &symbol.tags);
    put_optional(members, "deprecated", &symbol.deprecated);
    put(members, "range", &symbol.range);
    put(members, "selectionRange", &symbol.selection_range);
    let ghost before = members.deep_view();
    match &symbol.children {
        Some(children) => {
            let mut items: Vec<Json> = Vec::new();
            let mut i: usize = 0;
            proof {
                assert(children@.take(0) =~= Seq::empty());
                assert(items.deep_view() =~= Seq::empty());
            }
            while i < children.len()
                invariant
                    i <= children.len(),
                    symbol.children == Some(*children),
                    items.deep_view() == symbols_json(symbols_view(children@.take(i as int))),
                decreases children.len() - i,
            {
                proof {
                    assert(decreases_to!(*symbol => symbol.children));
                    assert(decreases_to!(symbol.children => symbol.children->Some_0));
                    assert(decreases_to!(*children => children[i as int]));
                }
                let mut own: Vec<(String, Json)> = Vec::new();
                proof {
                    assert(own.deep_view() =~= Seq::empty());
                }
                write_symbol(&children[i], &mut own);
                proof {
                    lemma_object_view(own);
                }
                let ghost so_far = items.deep_view();
                items.push(Json::Object(own));
                proof {
                    let next = children@.take(i + 1);
                    assert(next.drop_last() =~= children@.take(i as int));
                    assert(next.last() == children@[i as int]);
                    let views = symbols_view(next);
                    assert(views.drop_last() =~= symbols_view(children@.take(i as int)));
                    assert(views.last() == symbol_view(children@[i as int]));
                    assert(items.deep_view() =~= so_far.push(
                        JsonValue::Object(
                            symbol_members(Seq::empty(), symbol_view(children@[i as int])),
                        ),
                    ));
                }
                i += 1;
            }
            proof {
                assert(children@.take(i as int) =~= children@);
                lemma_array_view(items);
            }
            members.push(("children".to_owned(), Json::Array(items)));
            proof {
                assert(members.deep_view() =~= before + seq![
                    ("children"@, JsonValue::Array(symbols_json(symbols_view(children@)))),
                ]);
            }
        },
        None => {
            proof {
                assert(members.deep_view() =~= before + Seq::empty());
            }
        },
    }
}

/// Reads a document symbol, with its children, from the members of an object.
pub fn scan_symbol(members: &Vec<(String, Json)>) -> (result: Result<DocumentSymbol, CodecError>)
    ensures
        outcome(result) == read_symbol(members.deep_view()),
    decreases *members,
{
    let name = get::<String>(members, "name");
    let detail = get_optional::<String>(members, "detail");
    let kind = get::<SymbolKind>(members, "kind");
    let tags = get_optional::<Vec<SymbolTag>>(members, "tags");
    let deprecated = get_optional::<bool>(members, "deprecated");
    let range = get::<Range>(members, "range");
    let selection_range = get::<Range>(members, "selectionRange");
    let children = match find(members, "children") {
        None => Ok(None),
        Some(Json::Null) => Ok(None),
        Some(Json::Array(items)) => {
            proof {
                lemma_array_view(*items);
                let at = choose|i: int|
                    0 <= i < members@.len() && (#[trigger] members@[i]).1 == Json::Array(*items);
                assert(decreases_to!(*members => members@[at]));
                assert(decreases_to!(members@[at] => members@[at].1));
                assert(decreases_to!(members@[at].1 => *items));
            }
            match scan_symbols(items) {
                Ok(children) => Ok(Some(children)),
                Err(error) => Err(error),
            }
        },
        Some(_) => Err(CodecError::UnexpectedType),
    };
    if let Err(error) = name {
        Err(error)
    } else if let Err(error) = detail {
        Err(error)
    } else if let Err(error) = kind {
        Err(error)
    } else if let Err(error) = tags {
        Err(error)
    } else if let Err(error) = deprecated {
        Err(error)
    } else if let Err(error) = range {
        Err(error)
    } else if let Err(error) = selection_range {
        Err(error)
    } else if let Err(error) = children {
        Err(error)
    } else {
        let symbol = DocumentSymbol {
            name: name.unwrap(),
            detail: detail.unwrap(),
            kind: kind.unwrap(),
            tags: tags.unwrap(),
            deprecated: deprecated.unwrap(),
            range: range.unwrap(),
            selection_range: selection_range.unwrap(),
            children: children.unwrap(),
        };
        proof {
            if symbol.children is Some {
                lemma_symbol_vec_view(symbol.children->Some_0);
            }
        }
        Ok(symbol)
    }
}

/// Reads a list of document symbols, with their children.
pub fn scan_symbols(items: &Vec<Json>) -> (result: Result<Vec<DocumentSymbol>, CodecError>)
    ensures
        outcome(result) == read_symbols(items.deep_view()),
    decreases *items,
{
    let mut symbols: Vec<DocumentSymbol> = Vec::new();
    let mut i: usize = 0;
    proof {
        assert(items.deep_view().take(0) =~= Seq::empty());
        assert(symbols.deep_view() =~= Seq::empty());
    }
    while i < items.len()
        invariant
            i <= items.len(),
            read_symbols(items.deep_view().take(i as int)) == Ok::<
                Seq<DocumentSymbolModel>,
                CodecError,
            >(symbols.deep_view()),
        decreases items.len() - i,
    {
        let ghost next = items.deep_view().take(i + 1);
        proof {
            assert(next.drop_last() =~= items.deep_view().take(i as int));
            assert(next.last() == items@[i as int].deep_view());
        }
        let scanned = match &items[i] {
            Json::Object(members) => {
                proof {
                    lemma_object_view(*members);
                    assert(decreases_to!(*items => items@[i as int]));
                    assert(decreases_to!(items@[i as int] => *members));
                }
                scan_symbol(members)
            },
            _ => Err(CodecError::UnexpectedType),
        };
        match scanned {
            Ok(symbol) => {
                let ghost so_far = symbols.deep_view();
                symbols.push(symbol);
                proof {
                    assert(symbols.deep_view() =~= so_far.push(symbol.deep_view()));
                }
            },
            Err(error) => {
                proof {
                    assert(read_symbols(next) == Err::<Seq<DocumentSymbolModel>, CodecError>(error));
                    lemma_read_symbols_error(items.deep_view(), i + 1);
                }
                return Err(error);
            },
        }
        i += 1;
    }
    proof {
        assert(items.deep_view().take(i as int) =~= items.deep_view());
    }
    Ok(symbols)
}

impl Record for DocumentSymbol {
    open spec fn members(before: Seq<Member>, value: DocumentSymbolModel) -> Seq<Member> {
        symbol_members(before, value)
    }

    open spec fn read(members: Seq<Member>) -> Result<DocumentSymbolModel, CodecError> {
        read_symbol(members)
    }

    fn write(&self, members: &mut Vec<(String, Json)>) {
        write_symbol(self, members)
    }

    fn scan(members: &Vec<(String, Json)>) -> (result: Result<DocumentSymbol, CodecError>) {
        scan_symbol(members)
    }
}

} // verus!
