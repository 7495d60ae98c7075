//! Selection ranges: the ranges around a position that a user may want to
//! select, from the innermost outwards.

use crate::basic::{
    DocumentFilter, NumberOrString, Position, Range, TextDocumentIdentifier,
    TextDocumentIdentifierModel,
};
use crate::codec::{
    Codec, CodecError, field, find, get, group_lookup, lemma_lookup_member,
    lemma_sequence_round_trip, lookup, Member, optional, outcome, put, Record, required, survives,
};
use crate::json::{Json, JsonValue, lemma_object_view};
use crate::progress::{
    PartialResultParams, PartialResultParamsModel, WorkDoneProgressOptions, WorkDoneProgressParams,
    WorkDoneProgressParamsModel,
};
use crate::registration::{
    StaticTextDocumentRegistrationOptions, StaticTextDocumentRegistrationOptionsModel,
};
use vstd::prelude::*;
use vstd::std_specs::convert::FromSpecImpl;

verus! {

#[derive(Debug, PartialEq, Eq, Structural, Clone, Default)]
pub struct SelectionRangeOptions {
    /// Its members are written among those of this value.
    pub work_done_progress_options: WorkDoneProgressOptions,
}

impl DeepView for SelectionRangeOptions {
    type V = SelectionRangeOptions;

    open spec fn deep_view(&self) -> SelectionRangeOptions {
        SelectionRangeOptions {
            work_done_progress_options: self.work_done_progress_options.deep_view(),
        }
    }
}

impl Record for SelectionRangeOptions {
    open spec fn members(before: Seq<Member>, value: SelectionRangeOptions) -> Seq<Member> {
        WorkDoneProgressOptions::members(before, value.work_done_progress_options)
    }

    open spec fn read(members: Seq<Member>) -> Result<SelectionRangeOptions, CodecError> {
        let work_done_progress_options = WorkDoneProgressOptions::read(members);
        if work_done_progress_options is Err {
            Err(work_done_progress_options->Err_0)
        } else {
            Ok(
                SelectionRangeOptions {
                    work_done_progress_options: work_done_progress_options->Ok_0,
                },
            )
        }
    }

    fn write(&self, members: &mut Vec<(String, Json)>) {
        self.work_done_progress_options.write(members);
    }

    fn scan(members: &Vec<(String, Json)>) -> (result: Result<SelectionRangeOptions, CodecError>) {
        let work_done_progress_options = WorkDoneProgressOptions::scan(members);
        if let Err(error) = work_done_progress_options {
            Err(error)
        } else {
            Ok(
                SelectionRangeOptions {
                    work_done_progress_options: work_done_progress_options.unwrap(),
                },
            )
        }
    }
}

impl SelectionRangeOptions {
    /// Every value comes back unchanged from the document that stands for it.
    pub proof fn lemma_survives(value: SelectionRangeOptions)
        ensures
            survives::<SelectionRangeOptions>(value),
    {
        broadcast use group_lookup;

        reveal(optional);
        reveal_strlit("workDoneProgress");
    }
}

#[derive(Debug, PartialEq, Eq, Clone)]
pub struct SelectionRangeRegistrationOptions {
    /// Its members are written among those of this value.
    pub selection_range_options: SelectionRangeOptions,
    /// Its members are written among those of this value.
    pub registration_options: StaticTextDocumentRegistrationOptions,
}

/// What a [`SelectionRangeRegistrationOptions`] stands for.
pub struct SelectionRangeRegistrationOptionsModel {
    pub selection_range_options: SelectionRangeOptions,
    pub registration_options: StaticTextDocumentRegistrationOptionsModel,
}

impl DeepView for SelectionRangeRegistrationOptions {
    type V = SelectionRangeRegistrationOptionsModel;

    open spec fn deep_view(&self) -> SelectionRangeRegistrationOptionsModel {
        SelectionRangeRegistrationOptionsModel {
            selection_range_options: self.selection_range_options.deep_view(),
            registration_options: self.registration_options.deep_view(),
        }
    }
}

impl Record for SelectionRangeRegistrationOptions {
    open spec fn members(before: Seq<Member>, value: SelectionRangeRegistrationOptionsModel) -> Seq<Member> {
        StaticTextDocumentRegistrationOptions::members(
            SelectionRangeOptions::members(before, value.selection_range_options),
            value.registration_options,
        )
    }

    open spec fn read(members: Seq<Member>) -> Result<SelectionRangeRegistrationOptionsModel, CodecError> {
        let selection_range_options = SelectionRangeOptions::read(members);
        let registration_options = StaticTextDocumentRegistrationOptions::read(members);
        if selection_range_options is Err {
            Err(selection_range_options->Err_0)
        } else if registration_options is Err {
            Err(registration_options->Err_0)
        } else {
            Ok(
                SelectionRangeRegistrationOptionsModel {
                    selection_range_options: selection_range_options->Ok_0,
                    registration_options: registration_options->Ok_0,
                },
            )
        }
    }

    fn write(&self, members: &mut Vec<(String, Json)>) {
        self.selection_range_options.write(members);
        self.registration_options.write(members);
    }

    fn scan(members: &Vec<(String, Json)>) -> (result: Result<SelectionRangeRegistrationOptions, CodecError>) {
        let selection_range_options = SelectionRangeOptions::scan(members);
        let registration_options = StaticTextDocumentRegistrationOptions::scan(members);
        if let Err(error) = selection_range_options {
            Err(error)
        } else if let Err(error) = registration_options {
            Err(error)
        } else {
            Ok(
                SelectionRangeRegistrationOptions {
                    selection_range_options: selection_range_options.unwrap(),
                    registration_options: registration_options.unwrap(),
                },
            )
        }
    }
}

impl SelectionRangeRegistrationOptions {
    /// Every value comes back unchanged from the document that stands for it.
    pub proof fn lemma_survives(value: SelectionRangeRegistrationOptionsModel)
        ensures
            survives::<SelectionRangeRegistrationOptions>(value),
    {
        broadcast use group_lookup;

        reveal(optional);
        reveal_strlit("workDoneProgress");
        reveal_strlit("documentSelector");
        reveal_strlit("id");
        if let Some(inner) = value.registration_options.document_selector {
            assert forall|i: int| 0 <= i < inner.len() implies survives::<DocumentFilter>(
                #[trigger] inner[i],
            ) by {
                DocumentFilter::lemma_survives(inner[i]);
            }
            lemma_sequence_round_trip::<DocumentFilter>(inner);
        }
    }
}

#[derive(Debug, PartialEq, Eq, Clone)]
pub enum SelectionRangeProviderCapability {
    Simple(bool),
    Options(SelectionRangeOptions),
    RegistrationOptions(SelectionRangeRegistrationOptions),
}

/// What a [`SelectionRangeProviderCapability`] stands for.
pub enum SelectionRangeProviderCapabilityModel {
    Simple(bool),
    Options(SelectionRangeOptions),
    RegistrationOptions(SelectionRangeRegistrationOptionsModel),
}

impl DeepView for SelectionRangeProviderCapability {
    type V = SelectionRangeProviderCapabilityModel;

    open spec fn deep_view(&self) -> SelectionRangeProviderCapabilityModel {
        match self {
            SelectionRangeProviderCapability::Simple(value) => SelectionRangeProviderCapabilityModel::Simple(value.deep_view()),
            SelectionRangeProviderCapability::Options(value) => SelectionRangeProviderCapabilityModel::Options(value.deep_view()),
            SelectionRangeProviderCapability::RegistrationOptions(value) => SelectionRangeProviderCapabilityModel::RegistrationOptions(value.deep_view()),
        }
    }
}

impl Codec for SelectionRangeProviderCapability {
    open spec fn encode(value: SelectionRangeProviderCapabilityModel) -> JsonValue {
        match value {
            SelectionRangeProviderCapabilityModel::Simple(value) => bool::encode(value),
            SelectionRangeProviderCapabilityModel::Options(value) => SelectionRangeOptions::encode(value),
            SelectionRangeProviderCapabilityModel::RegistrationOptions(value) => SelectionRangeRegistrationOptions::encode(value),
        }
    }

    open spec fn decode(json: JsonValue) -> Result<SelectionRangeProviderCapabilityModel, CodecError> {
        if let Ok(value) = bool::decode(json) {
            Ok(SelectionRangeProviderCapabilityModel::Simple(value))
        } else if let Ok(value) = SelectionRangeOptions::decode(json) {
            Ok(SelectionRangeProviderCapabilityModel::Options(value))
        } else if let Ok(value) = SelectionRangeRegistrationOptions::decode(json) {
            Ok(SelectionRangeProviderCapabilityModel::RegistrationOptions(value))
        } else {
            Err(CodecError::NoVariantMatched)
        }
    }

    fn serialize(&self) -> (json: Json) {
        match self {
            SelectionRangeProviderCapability::Simple(value) => value.serialize(),
            SelectionRangeProviderCapability::Options(value) => value.serialize(),
            SelectionRangeProviderCapability::RegistrationOptions(value) => value.serialize(),
        }
    }

    fn deserialize(json: &Json) -> (result: Result<SelectionRangeProviderCapability, CodecError>) {
        if let Ok(value) = bool::deserialize(json) {
            Ok(SelectionRangeProviderCapability::Simple(value))
        } else if let Ok(value) = SelectionRangeOptions::deserialize(json) {
            Ok(SelectionRangeProviderCapability::Options(value))
        } else if let Ok(value) = SelectionRangeRegistrationOptions::deserialize(json) {
            Ok(SelectionRangeProviderCapability::RegistrationOptions(value))
        } else {
            Err(CodecError::NoVariantMatched)
        }
    }
}

impl SelectionRangeProviderCapability {
    /// A value comes back unchanged from its document exactly when its
    /// payload does and no variant declared before its own reads the
    /// payload's document.
    pub proof fn lemma_round_trip(value: SelectionRangeProviderCapabilityModel)
        ensures
            survives::<SelectionRangeProviderCapability>(value) <==> match value {
                SelectionRangeProviderCapabilityModel::Simple(v) => survives::<bool>(v),
                SelectionRangeProviderCapabilityModel::Options(v) => bool::decode(SelectionRangeOptions::encode(v)) is Err
                    && survives::<SelectionRangeOptions>(v),
                SelectionRangeProviderCapabilityModel::RegistrationOptions(v) => bool::decode(SelectionRangeRegistrationOptions::encode(v)) is Err
                    && SelectionRangeOptions::decode(SelectionRangeRegistrationOptions::encode(v)) is Err
                    && survives::<SelectionRangeRegistrationOptions>(v),
            },
    {
    }
}

impl From<SelectionRangeRegistrationOptions> for SelectionRangeProviderCapability {
    fn from(from: SelectionRangeRegistrationOptions) -> (result: SelectionRangeProviderCapability) {
        SelectionRangeProviderCapability::RegistrationOptions(from)
    }
}

impl FromSpecImpl<SelectionRangeRegistrationOptions> for SelectionRangeProviderCapability {
    open spec fn obeys_from_spec() -> bool {
        true
    }

    open spec fn from_spec(from: SelectionRangeRegistrationOptions) -> SelectionRangeProviderCapability {
        SelectionRangeProviderCapability::RegistrationOptions(from)
    }
}

impl From<SelectionRangeOptions> for SelectionRangeProviderCapability {
    fn from(from: SelectionRangeOptions) -> (result: SelectionRangeProviderCapability) {
        SelectionRangeProviderCapability::Options(from)
    }
}

impl FromSpecImpl<SelectionRangeOptions> for SelectionRangeProviderCapability {
    open spec fn obeys_from_spec() -> bool {
        true
    }

    open spec fn from_spec(from: SelectionRangeOptions) -> SelectionRangeProviderCapability {
        SelectionRangeProviderCapability::Options(from)
    }
}

impl From<bool> for SelectionRangeProviderCapability {
    fn from(from: bool) -> (result: SelectionRangeProviderCapability) {
        SelectionRangeProviderCapability::Simple(from)
    }
}

impl FromSpecImpl<bool> for SelectionRangeProviderCapability {
    open spec fn obeys_from_spec() -> bool {
        true
    }

    open spec fn from_spec(from: bool) -> SelectionRangeProviderCapability {
        SelectionRangeProviderCapability::Simple(from)
    }
}

/// A parameter literal used in selection range requests.
#[derive(Debug, PartialEq, Eq, Clone)]
pub struct SelectionRangeParams {
    /// The text document.
    pub text_document: TextDocumentIdentifier,
    /// The positions inside the text document.
    pub positions: Vec<Position>,
    /// Its members are written among those of this value.
    pub work_done_progress_params: WorkDoneProgressParams,
    /// Its members are written among those of this value.
    pub partial_result_params: PartialResultParams,
}

/// What a [`SelectionRangeParams`] stands for.
pub struct SelectionRangeParamsModel {
    pub text_document: TextDocumentIdentifierModel,
    pub positions: Seq<Position>,
    pub work_done_progress_params: WorkDoneProgressParamsModel,
    pub partial_result_params: PartialResultParamsModel,
}

impl DeepView for SelectionRangeParams {
    type V = SelectionRangeParamsModel;

    open spec fn deep_view(&self) -> SelectionRangeParamsModel {
        SelectionRangeParamsModel {
            text_document: self.text_document.deep_view(),
            positions: self.positions.deep_view(),
            work_done_progress_params: self.work_done_progress_params.deep_view(),
            partial_result_params: self.partial_result_params.deep_view(),
        }
    }
}

impl Record for SelectionRangeParams {
    open spec fn members(before: Seq<Member>, value: SelectionRangeParamsModel) -> Seq<Member> {
        PartialResultParams::members(
            WorkDoneProgressParams::members(
                before + field::<TextDocumentIdentifier>("textDocument"@, value.text_document)
                    + field::<Vec<Position>>("positions"@, value.positions),
                value.work_done_progress_params,
            ),
            value.partial_result_params,
        )
    }

    open spec fn read(members: Seq<Member>) -> Result<SelectionRangeParamsModel, CodecError> {
        let text_document = required::<TextDocumentIdentifier>(members, "textDocument"@);
        let positions = required::<Vec<Position>>(members, "positions"@);
        let work_done_progress_params = WorkDoneProgressParams::read(members);
        let partial_result_params = PartialResultParams::read(members);
        if text_document is Err {
            Err(text_document->Err_0)
        } else if positions is Err {
            Err(positions->Err_0)
        } else if work_done_progress_params is Err {
            Err(work_done_progress_params->Err_0)
        } else if partial_result_params is Err {
            Err(partial_result_params->Err_0)
        } else {
            Ok(
                SelectionRangeParamsModel {
                    text_document: text_document->Ok_0,
                    positions: positions->Ok_0,
                    work_done_progress_params: work_done_progress_params->Ok_0,
                    partial_result_params: partial_result_params->Ok_0,
                },
            )
        }
    }

    fn write(&self, members: &mut Vec<(String, Json)>) {
        put(members, "textDocument", &self.text_document);
        put(members, "positions", &self.positions);
        self.work_done_progress_params.write(members);
        self.partial_result_params.write(members);
    }

    fn scan(members: &Vec<(String, Json)>) -> (result: Result<SelectionRangeParams, CodecError>) {
        let text_document = get::<TextDocumentIdentifier>(members, "textDocument");
        let positions = get::<Vec<Position>>(members, "positions");
        let work_done_progress_params = WorkDoneProgressParams::scan(members);
        let partial_result_params = PartialResultParams::scan(members);
        if let Err(error) = text_document {
            Err(error)
        } else if let Err(error) = positions {
            Err(error)
        } else if let Err(error) = work_done_progress_params {
            Err(error)
        } else if let Err(error) = partial_result_params {
            Err(error)
        } else {
            Ok(
                SelectionRangeParams {
                    text_document: text_document.unwrap(),
                    positions: positions.unwrap(),
                    work_done_progress_params: work_done_progress_params.unwrap(),
                    partial_result_params: partial_result_params.unwrap(),
                },
            )
        }
    }
}

impl SelectionRangeParams {
    /// A value comes back unchanged from the document that stands for it
    /// where its fields meet what is asked of them here.
    pub proof fn lemma_round_trip(value: SelectionRangeParamsModel)
        requires
            survives::<TextDocumentIdentifier>(value.text_document),
        ensures
            survives::<SelectionRangeParams>(value),
    {
        broadcast use group_lookup;

        reveal(required);
        reveal(optional);
        reveal_strlit("textDocument");
        reveal_strlit("positions");
        reveal_strlit("workDoneToken");
        reveal_strlit("partialResultToken");
        let list = value.positions;
        assert forall|i: int| 0 <= i < list.len() implies survives::<Position>(
            #[trigger] list[i],
        ) by {
            Position::lemma_survives(list[i]);
        }
        lemma_sequence_round_trip::<Position>(list);
        if let Some(inner) = value.work_done_progress_params.work_done_token {
            NumberOrString::lemma_survives(inner);
        }
        if let Some(inner) = value.partial_result_params.partial_result_token {
            NumberOrString::lemma_survives(inner);
        }
    }
}

/// Represents a selection range.
#[derive(Debug, PartialEq, Eq, Default)]
pub struct SelectionRange {
    /// Range of the selection.
    pub range: Range,
    /// The parent selection range containing this range.
    pub parent: Option<Box<SelectionRange>>,
}

impl DeepView for SelectionRange {
    type V = SelectionRange;

    open spec fn deep_view(&self) -> SelectionRange {
        *self
    }
}

/// Copies a selection range with its parents.
pub fn copy_selection(selection: &SelectionRange) -> (copy: SelectionRange)
    ensures
        copy == *selection,
    decreases *selection,
{
    SelectionRange {
        range: selection.range,
        parent: match &selection.parent {
            Some(parent) => Some(Box::new(copy_selection(parent))),
            None => None,
        },
    }
}

impl Clone for SelectionRange {
    fn clone(&self) -> (copy: SelectionRange)
        ensures
            copy == *self,
    {
        copy_selection(self)
    }
}

/// The members `before`, followed by those that stand for a selection range
/// with its parents.
pub open spec fn selection_members(before: Seq<Member>, value: SelectionRange) -> Seq<Member>
    decreases value,
{
    before + field::<Range>("range"@, value.range) + match value.parent {
        Some(parent) => seq![("parent"@, JsonValue::Object(selection_members(Seq::empty(), *parent)))],
        None => Seq::empty(),
    }
}

/// The selection range that the members of an object stand for.
pub open spec fn read_selection(members: Seq<Member>) -> Result<SelectionRange, CodecError>
    decreases members,
{
    let range = required::<Range>(members, "range"@);
    let parent = match lookup(members, "parent"@) {
        None => Ok(None),
        Some(JsonValue::Null) => Ok(None),
        Some(JsonValue::Object(inner)) => {
            proof {
                lemma_lookup_member(members, "parent"@);
            }
            match read_selection(inner) {
                Ok(parent) => Ok(Some(Box::new(parent))),
                Err(error) => Err(error),
            }
        },
        Some(_) => Err(CodecError::UnexpectedType),
    };
    if range is Err {
        Err(range->Err_0)
    } else if parent is Err {
        Err(parent->Err_0)
    } else {
        Ok(SelectionRange { range: range->Ok_0, parent: parent->Ok_0 })
    }
}

/// Appends the members of a selection range, with those of its parents.
pub fn write_selection(selection: &SelectionRange, members: &mut Vec<(String, Json)>)
    ensures
        final(members).deep_view() == selection_members(old(members).deep_view(), *selection),
    decreases *selection,
{
    put(members, "range", &selection.range);
    let ghost before = members.deep_view();
    match &selection.parent {
        Some(parent) => {
            let mut own: Vec<(String, Json)> = Vec::new();
            proof {
                assert(own.deep_view() =~= Seq::empty());
            }
            write_selection(parent, &mut own);
            proof {
                lemma_object_view(own);
            }
            members.push(("parent".to_owned(), Json::Object(own)));
            proof {
                assert(members.deep_view() =~= before + seq![
                    ("parent"@, JsonValue::Object(selection_members(Seq::empty(), **parent))),
                ]);
            }
        },
        None => {
            proof {
                assert(members.deep_view() =~= before + Seq::empty());
            }
        },
    }
}

/// Reads a selection range, with its parents, from the members of an object.
pub fn scan_selection(members: &Vec<(String, Json)>) -> (result: Result<SelectionRange, CodecError>)
    ensures
        outcome(result) == read_selection(members.deep_view()),
    decreases *members,
{
    let range = get::<Range>(members, "range");
    let parent = match find(members, "parent") {
        None => Ok(None),
        Some(Json::Null) => Ok(None),
        Some(Json::Object(inner)) => {
            proof {
                lemma_object_view(*inner);
                let at = choose|i: int|
                    0 <= i < members@.len() && (#[trigger] members@[i]).1 == Json::Object(*inner);
                assert(decreases_to!(*members => members@[at]));
                assert(decreases_to!(members@[at] => members@[at].1));
                assert(decreases_to!(members@[at].1 => *inner));
            }
            match scan_selection(inner) {
                Ok(parent) => Ok(Some(Box::new(parent))),
                Err(error) => Err(error),
            }
        },
        Some(_) => Err(CodecError::UnexpectedType),
    };
    if let Err(error) = range {
        Err(error)
    } else if let Err(error) = parent {
        Err(error)
    } else {
        Ok(SelectionRange { range: range.unwrap(), parent: parent.unwrap() })
    }
}

impl Record for SelectionRange {
    open spec fn members(before: Seq<Member>, value: SelectionRange) -> Seq<Member> {
        selection_members(before, value)
    }

    open spec fn read(members: Seq<Member>) -> Result<SelectionRange, CodecError> {
        read_selection(members)
    }

    fn write(&self, members: &mut Vec<(String, Json)>) {
        write_selection(self, members)
    }

    fn scan(members: &Vec<(String, Json)>) -> (result: Result<SelectionRange, CodecError>) {
        scan_selection(members)
    }
}

} // verus!
