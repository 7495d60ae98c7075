//! Folding ranges of a document.

use crate::basic::{NumberOrString, TextDocumentIdentifier, TextDocumentIdentifierModel};
use crate::codec::{
    Codec, CodecError, field, get, get_optional, group_lookup, Member, optional, optional_field,
    put, put_optional, Record, required, survives, traits_of,
};
use crate::json::{Json, JsonValue};
use crate::progress::{
    PartialResultParams, PartialResultParamsModel, WorkDoneProgressParams,
    WorkDoneProgressParamsModel,
};
use crate::registration::{
    StaticTextDocumentColorProviderOptions, StaticTextDocumentColorProviderOptionsModel,
};
use vstd::prelude::*;
use vstd::std_specs::convert::FromSpecImpl;

verus! {

#[derive(Debug, PartialEq, Eq, Clone)]
pub struct FoldingRangeParams {
    /// The text document.
    pub text_document: TextDocumentIdentifier,
    /// Its members are written among those of this value.
    pub work_done_progress_params: WorkDoneProgressParams,
    /// Its members are written among those of this value.
    pub partial_result_params: PartialResultParams,
}

/// What a [`FoldingRangeParams`] stands for.
pub struct FoldingRangeParamsModel {
    pub text_document: TextDocumentIdentifierModel,
    pub work_done_progress_params: WorkDoneProgressParamsModel,
    pub partial_result_params: PartialResultParamsModel,
}

impl DeepView for FoldingRangeParams {
    type V = FoldingRangeParamsModel;

    open spec fn deep_view(&self) -> FoldingRangeParamsModel {
        FoldingRangeParamsModel {
            text_document: self.text_document.deep_view(),
            work_done_progress_params: self.work_done_progress_params.deep_view(),
            partial_result_params: self.partial_result_params.deep_view(),
        }
    }
}

impl Record for FoldingRangeParams {
    open spec fn members(before: Seq<Member>, value: FoldingRangeParamsModel) -> Seq<Member> {
        PartialResultParams::members(
            WorkDoneProgressParams::members(
                before + field::<TextDocumentIdentifier>("textDocument"@, value.text_document),
                value.work_done_progress_params,
            ),
            value.partial_result_params,
        )
    }

    open spec fn read(members: Seq<Member>) -> Result<FoldingRangeParamsModel, CodecError> {
        let text_document = required::<TextDocumentIdentifier>(members, "textDocument"@);
        let work_done_progress_params = WorkDoneProgressParams::read(members);
        let partial_result_params = PartialResultParams::read(members);
        if text_document is Err {
            Err(text_document->Err_0)
        } else if work_done_progress_params is Err {
            Err(work_done_progress_params->Err_0)
        } else if partial_result_params is Err {
            Err(partial_result_params->Err_0)
        } else {
            Ok(
                FoldingRangeParamsModel {
                    text_document: text_document->Ok_0,
                    work_done_progress_params: work_done_progress_params->Ok_0,
                    partial_result_params: partial_result_params->Ok_0,
                },
            )
        }
    }

    fn write(&self, members: &mut Vec<(String, Json)>) {
        put(members, "textDocument", &self.text_document);
        self.work_done_progress_params.write(members);
        self.partial_result_params.write(members);
    }

    fn scan(members: &Vec<(String, Json)>) -> (result: Result<FoldingRangeParams, CodecError>) {
        let text_document = get::<TextDocumentIdentifier>(members, "textDocument");
        let work_done_progress_params = WorkDoneProgressParams::scan(members);
        let partial_result_params = PartialResultParams::scan(members);
        if let Err(error) = text_document {
            Err(error)
        } else if let Err(error) = work_done_progress_params {
            Err(error)
        } else if let Err(error) = partial_result_params {
            Err(error)
        } else {
            Ok(
                FoldingRangeParams {
                    text_document: text_document.unwrap(),
                    work_done_progress_params: work_done_progress_params.unwrap(),
                    partial_result_params: partial_result_params.unwrap(),
                },
            )
        }
    }
}

impl FoldingRangeParams {
    /// A value comes back unchanged from the document that stands for it
    /// where its fields meet what is asked of them here.
    pub proof fn lemma_round_trip(value: FoldingRangeParamsModel)
        requires
            survives::<TextDocumentIdentifier>(value.text_document),
        ensures
            survives::<FoldingRangeParams>(value),
    {
        broadcast use group_lookup;

        reveal(required);
        reveal(optional);
        reveal_strlit("textDocument");
        reveal_strlit("workDoneToken");
        reveal_strlit("partialResultToken");
        if let Some(inner) = value.work_done_progress_params.work_done_token {
            NumberOrString::lemma_survives(inner);
        }
        if let Some(inner) = value.partial_result_params.partial_result_token {
            NumberOrString::lemma_survives(inner);
        }
    }
}

#[derive(Debug, PartialEq, Eq, Clone)]
pub enum FoldingRangeProviderCapability {
    Simple(bool),
    FoldingProvider(FoldingProviderOptions),
    Options(StaticTextDocumentColorProviderOptions),
}

/// What a [`FoldingRangeProviderCapability`] stands for.
pub enum FoldingRangeProviderCapabilityModel {
    Simple(bool),
    FoldingProvider(FoldingProviderOptions),
    Options(StaticTextDocumentColorProviderOptionsModel),
}

impl DeepView for FoldingRangeProviderCapability {
    type V = FoldingRangeProviderCapabilityModel;

    open spec fn deep_view(&self) -> FoldingRangeProviderCapabilityModel {
        match self {
            FoldingRangeProviderCapability::Simple(value) => FoldingRangeProviderCapabilityModel::Simple(value.deep_view()),
            FoldingRangeProviderCapability::FoldingProvider(value) => FoldingRangeProviderCapabilityModel::FoldingProvider(value.deep_view()),
            FoldingRangeProviderCapability::Options(value) => FoldingRangeProviderCapabilityModel::Options(value.deep_view()),
        }
    }
}

impl Codec for FoldingRangeProviderCapability {
    open spec fn encode(value: FoldingRangeProviderCapabilityModel) -> JsonValue {
        match value {
            FoldingRangeProviderCapabilityModel::Simple(value) => bool::encode(value),
            FoldingRangeProviderCapabilityModel::FoldingProvider(value) => FoldingProviderOptions::encode(value),
            FoldingRangeProviderCapabilityModel::Options(value) => StaticTextDocumentColorProviderOptions::encode(value),
        }
    }

    open spec fn decode(json: JsonValue) -> Result<FoldingRangeProviderCapabilityModel, CodecError> {
        if let Ok(value) = bool::decode(json) {
            Ok(FoldingRangeProviderCapabilityModel::Simple(value))
        } else if let Ok(value) = FoldingProviderOptions::decode(json) {
            Ok(FoldingRangeProviderCapabilityModel::FoldingProvider(value))
        } else if let Ok(value) = StaticTextDocumentColorProviderOptions::decode(json) {
            Ok(FoldingRangeProviderCapabilityModel::Options(value))
        } else {
            Err(CodecError::NoVariantMatched)
        }
    }

    fn serialize(&self) -> (json: Json) {
        match self {
            FoldingRangeProviderCapability::Simple(value) => value.serialize(),
            FoldingRangeProviderCapability::FoldingProvider(value) => value.serialize(),
            FoldingRangeProviderCapability::Options(value) => value.serialize(),
        }
    }

    fn deserialize(json: &Json) -> (result: Result<FoldingRangeProviderCapability, CodecError>) {
        if let Ok(value) = bool::deserialize(json) {
            Ok(FoldingRangeProviderCapability::Simple(value))
        } else if let Ok(value) = FoldingProviderOptions::deserialize(json) {
            Ok(FoldingRangeProviderCapability::FoldingProvider(value))
        } else if let Ok(value) = StaticTextDocumentColorProviderOptions::deserialize(json) {
            Ok(FoldingRangeProviderCapability::Options(value))
        } else {
            Err(CodecError::NoVariantMatched)
        }
    }
}

impl FoldingRangeProviderCapability {
    /// A value comes back unchanged from its document exactly when its
    /// payload does and no variant declared before its own reads the
    /// payload's document.
    pub proof fn lemma_round_trip(value: FoldingRangeProviderCapabilityModel)
        ensures
            survives::<FoldingRangeProviderCapability>(value) <==> match value {
                FoldingRangeProviderCapabilityModel::Simple(v) => survives::<bool>(v),
                FoldingRangeProviderCapabilityModel::FoldingProvider(v) => bool::decode(FoldingProviderOptions::encode(v)) is Err
                    && survives::<FoldingProviderOptions>(v),
                FoldingRangeProviderCapabilityModel::Options(v) => bool::decode(StaticTextDocumentColorProviderOptions::encode(v)) is Err
                    && FoldingProviderOptions::decode(StaticTextDocumentColorProviderOptions::encode(v)) is Err
                    && survives::<StaticTextDocumentColorProviderOptions>(v),
            },
    {
    }
}

impl From<StaticTextDocumentColorProviderOptions> for FoldingRangeProviderCapability {
    fn from(from: StaticTextDocumentColorProviderOptions) -> (result: FoldingRangeProviderCapability) {
        FoldingRangeProviderCapability::Options(from)
    }
}

impl FromSpecImpl<StaticTextDocumentColorProviderOptions> for FoldingRangeProviderCapability {
    open spec fn obeys_from_spec() -> bool {
        true
    }

    open spec fn from_spec(from: StaticTextDocumentColorProviderOptions) -> FoldingRangeProviderCapability {
        FoldingRangeProviderCapability::Options(from)
    }
}

impl From<FoldingProviderOptions> for FoldingRangeProviderCapability {
    fn from(from: FoldingProviderOptions) -> (result: FoldingRangeProviderCapability) {
        FoldingRangeProviderCapability::FoldingProvider(from)
    }
}

impl FromSpecImpl<FoldingProviderOptions> for FoldingRangeProviderCapability {
    open spec fn obeys_from_spec() -> bool {
        true
    }

    open spec fn from_spec(from: FoldingProviderOptions) -> FoldingRangeProviderCapability {
        FoldingRangeProviderCapability::FoldingProvider(from)
    }
}

impl From<bool> for FoldingRangeProviderCapability {
    fn from(from: bool) -> (result: FoldingRangeProviderCapability) {
        FoldingRangeProviderCapability::Simple(from)
    }
}

impl FromSpecImpl<bool> for FoldingRangeProviderCapability {
    open spec fn obeys_from_spec() -> bool {
        true
    }

    open spec fn from_spec(from: bool) -> FoldingRangeProviderCapability {
        FoldingRangeProviderCapability::Simple(from)
    }
}

#[derive(Debug, PartialEq, Eq, Structural, Clone)]
pub struct FoldingProviderOptions {}

impl DeepView for FoldingProviderOptions {
    type V = FoldingProviderOptions;

    open spec fn deep_view(&self) -> FoldingProviderOptions {
        FoldingProviderOptions {  }
    }
}

impl Record for FoldingProviderOptions {
    open spec fn members(before: Seq<Member>, value: FoldingProviderOptions) -> Seq<Member> {
        before
    }

    open spec fn read(members: Seq<Member>) -> Result<FoldingProviderOptions, CodecError> {
        Ok(FoldingProviderOptions {  })
    }

    fn write(&self, members: &mut Vec<(String, Json)>) {
    }

    fn scan(members: &Vec<(String, Json)>) -> (result: Result<FoldingProviderOptions, CodecError>) {
        Ok(FoldingProviderOptions {  })
    }
}

impl FoldingProviderOptions {
    /// Every value comes back unchanged from the document that stands for it.
    pub proof fn lemma_survives(value: FoldingProviderOptions)
        ensures
            survives::<FoldingProviderOptions>(value),
    {
    }
}

/// Represents a folding range.
#[derive(Debug, PartialEq, Eq, Structural, Clone, Default)]
pub struct FoldingRange {
    /// The zero-based line number from where the folded range starts.
    pub start_line: u64,
    /// The zero-based character offset from where the folded range starts. If not defined, defaults to the length of the start line.
    pub start_character: Option<u64>,
    /// The zero-based line number where the folded range ends.
    pub end_line: u64,
    /// The zero-based character offset before the folded range ends. If not defined, defaults to the length of the end line.
    pub end_character: Option<u64>,
    /// Describes the kind of the folding range such as `comment' or 'region'. The kind
    /// is used to categorize folding ranges and used by commands like 'Fold all comments'. See
    /// [FoldingRangeKind](#FoldingRangeKind) for an enumeration of standardized kinds.
    pub kind: Option<FoldingRangeKind>,
}

impl DeepView for FoldingRange {
    type V = FoldingRange;

    open spec fn deep_view(&self) -> FoldingRange {
        FoldingRange {
            start_line: self.start_line.deep_view(),
            start_character: self.start_character.deep_view(),
            end_line: self.end_line.deep_view(),
            end_character: self.end_character.deep_view(),
            kind: self.kind.deep_view(),
        }
    }
}

impl Record for FoldingRange {
    open spec fn members(before: Seq<Member>, value: FoldingRange) -> Seq<Member> {
        before + field::<u64>("startLine"@, value.start_line)
            + optional_field::<u64>("startCharacter"@, value.start_character)
            + field::<u64>("endLine"@, value.end_line)
            + optional_field::<u64>("endCharacter"@, value.end_character)
            + optional_field::<FoldingRangeKind>("kind"@, value.kind)
    }

    open spec fn read(members: Seq<Member>) -> Result<FoldingRange, CodecError> {
        let start_line = required::<u64>(members, "startLine"@);
        let start_character = optional::<u64>(members, "startCharacter"@);
        let end_line = required::<u64>(members, "endLine"@);
        let end_character = optional::<u64>(members, "endCharacter"@);
        let kind = optional::<FoldingRangeKind>(members, "kind"@);
        if start_line is Err {
            Err(start_line->Err_0)
        } else if start_character is Err {
            Err(start_character->Err_0)
        } else if end_line is Err {
            Err(end_line->Err_0)
        } else if end_character is Err {
            Err(end_character->Err_0)
        } else if kind is Err {
            Err(kind->Err_0)
        } else {
            Ok(
                FoldingRange {
                    start_line: start_line->Ok_0,
                    start_character: start_character->Ok_0,
                    end_line: end_line->Ok_0,
                    end_character: end_character->Ok_0,
                    kind: kind->Ok_0,
                },
            )
        }
    }

    fn write(&self, members: &mut Vec<(String, Json)>) {
        put(members, "startLine", &self.start_line);
        put_optional(members, "startCharacter", &self.start_character);
        put(members, "endLine", &self.end_line);
        put_optional(members, "endCharacter", &self.end_character);
        put_optional(members, "kind", &self.kind);
    }

    fn scan(members: &Vec<(String, Json)>) -> (result: Result<FoldingRange, CodecError>) {
        let start_line = get::<u64>(members, "startLine");
        let start_character = get_optional::<u64>(members, "startCharacter");
        let end_line = get::<u64>(members, "endLine");
        let end_character = get_optional::<u64>(members, "endCharacter");
        let kind = get_optional::<FoldingRangeKind>(members, "kind");
        if let Err(error) = start_line {
            Err(error)
        } else if let Err(error) = start_character {
            Err(error)
        } else if let Err(error) = end_line {
            Err(error)
        } else if let Err(error) = end_character {
            Err(error)
        } else if let Err(error) = kind {
            Err(error)
        } else {
            Ok(
                FoldingRange {
                    start_line: start_line.unwrap(),
                    start_character: start_character.unwrap(),
                    end_line: end_line.unwrap(),
                    end_character: end_character.unwrap(),
                    kind: kind.unwrap(),
                },
            )
        }
    }
}

impl FoldingRange {
    /// Every value comes back unchanged from the document that stands for it.
    pub proof fn lemma_survives(value: FoldingRange)
        ensures
            survives::<FoldingRange>(value),
    {
        broadcast use group_lookup;

        reveal(required);
        reveal(optional);
        reveal_strlit("startLine");
        reveal_strlit("startCharacter");
        reveal_strlit("endLine");
        reveal_strlit("endCharacter");
        reveal_strlit("kind");
        if let Some(inner) = value.kind {
            FoldingRangeKind::lemma_survives(inner);
        }
    }
}

/// Enum of known range kinds
#[derive(Debug, PartialEq, Eq, Structural, Clone, Copy)]
pub enum FoldingRangeKind {
    /// Folding range for a comment
    Comment,
    /// Folding range for a imports or includes
    Imports,
    /// Folding range for a region (e.g. `#region`)
    Region,
}

impl DeepView for FoldingRangeKind {
    type V = FoldingRangeKind;

    open spec fn deep_view(&self) -> FoldingRangeKind {
        *self
    }
}

impl FoldingRangeKind {
    /// The string that stands for a variant on the wire.
    pub open spec fn name(self) -> Seq<char> {
        match self {
            FoldingRangeKind::Comment => "comment"@,
            FoldingRangeKind::Imports => "imports"@,
            FoldingRangeKind::Region => "region"@,
        }
    }

    /// The variant that a string stands for, if any.
    pub open spec fn named(name: Seq<char>) -> Option<FoldingRangeKind> {
        if name == "comment"@ {
            Some(FoldingRangeKind::Comment)
        } else if name == "imports"@ {
            Some(FoldingRangeKind::Imports)
        } else if name == "region"@ {
            Some(FoldingRangeKind::Region)
        } else {
            None
        }
    }

    /// Gives the string that stands for this variant on the wire.
    pub fn as_str(&self) -> (name: &'static str)
        ensures
            name@ == self.name(),
    {
        match self {
            FoldingRangeKind::Comment => "comment",
            FoldingRangeKind::Imports => "imports",
            FoldingRangeKind::Region => "region",
        }
    }

    /// Gives the variant that a string stands for, if any.
    pub fn from_name(name: &String) -> (variant: Option<FoldingRangeKind>)
        ensures
            variant == Self::named(name@),
    {
        if *name == "comment".to_owned() {
            Some(FoldingRangeKind::Comment)
        } else if *name == "imports".to_owned() {
            Some(FoldingRangeKind::Imports)
        } else if *name == "region".to_owned() {
            Some(FoldingRangeKind::Region)
        } else {
            None
        }
    }

    /// Every variant comes back unchanged from the string that stands for it.
    pub proof fn lemma_survives(value: FoldingRangeKind)
        ensures
            survives::<FoldingRangeKind>(value),
    {
        reveal_strlit("comment");
        reveal_strlit("imports");
        reveal_strlit("region");
        assert(traits_of("comment"@) == (7nat, 'c', 'e', 'n'));
        assert(traits_of("imports"@) == (7nat, 'i', 'r', 't'));
        assert(traits_of("region"@) == (6nat, 'r', 'o', 'o'));
    }
}

impl Codec for FoldingRangeKind {
    open spec fn encode(value: FoldingRangeKind) -> JsonValue {
        JsonValue::String(value.name())
    }

    open spec fn decode(json: JsonValue) -> Result<FoldingRangeKind, CodecError> {
        match json {
            JsonValue::String(name) => match Self::named(name) {
                Some(variant) => Ok(variant),
                None => Err(CodecError::UnknownVariant),
            },
            _ => Err(CodecError::UnexpectedType),
        }
    }

    fn serialize(&self) -> (json: Json) {
        Json::String(self.as_str().to_owned())
    }

    fn deserialize(json: &Json) -> (result: Result<FoldingRangeKind, CodecError>) {
        match json {
            Json::String(name) => match Self::from_name(name) {
                Some(variant) => Ok(variant),
                None => Err(CodecError::UnknownVariant),
            },
            _ => Err(CodecError::UnexpectedType),
        }
    }
}

} // verus!
