//! Call hierarchy: the callers and callees of a symbol.

use crate::basic::{
    NumberOrString, Position, Range, TextDocumentIdentifier, TextDocumentPositionParams,
    TextDocumentPositionParamsModel,
};
use crate::codec::{
    Codec, CodecError, field, get, get_optional, group_lookup, lemma_sequence_round_trip, Member,
    optional, optional_field, put, put_optional, Record, required, survives,
};
use crate::json::{Json, JsonValue};
use crate::progress::{
    PartialResultParams, PartialResultParamsModel, WorkDoneProgressOptions, WorkDoneProgressParams,
    WorkDoneProgressParamsModel,
};
use crate::symbols::{SymbolKind, SymbolTag};
use crate::url::{is_url_text, Url};
use vstd::prelude::*;
use vstd::std_specs::convert::FromSpecImpl;

verus! {

#[derive(Debug, PartialEq, Eq, Structural, Clone, Default)]
pub struct CallHierarchyOptions {
    /// Its members are written among those of this value.
    pub work_done_progress_options: WorkDoneProgressOptions,
}

impl DeepView for CallHierarchyOptions {
    type V = CallHierarchyOptions;

    open spec fn deep_view(&self) -> CallHierarchyOptions {
        CallHierarchyOptions {
            work_done_progress_options: self.work_done_progress_options.deep_view(),
        }
    }
}

impl Record for CallHierarchyOptions {
    open spec fn members(before: Seq<Member>, value: CallHierarchyOptions) -> Seq<Member> {
        WorkDoneProgressOptions::members(before, value.work_done_progress_options)
    }

    open spec fn read(members: Seq<Member>) -> Result<CallHierarchyOptions, CodecError> {
        let work_done_progress_options = WorkDoneProgressOptions::read(members);
        if work_done_progress_options is Err {
            Err(work_done_progress_options->Err_0)
        } else {
            Ok(
                CallHierarchyOptions {
                    work_done_progress_options: work_done_progress_options->Ok_0,
                },
            )
        }
    }

    fn write(&self, members: &mut Vec<(String, Json)>) {
        self.work_done_progress_options.write(members);
    }

    fn scan(members: &Vec<(String, Json)>) -> (result: Result<CallHierarchyOptions, CodecError>) {
        let work_done_progress_options = WorkDoneProgressOptions::scan(members);
        if let Err(error) = work_done_progress_options {
            Err(error)
        } else {
            Ok(
                CallHierarchyOptions {
                    work_done_progress_options: work_done_progress_options.unwrap(),
                },
            )
        }
    }
}

impl CallHierarchyOptions {
    /// Every value comes back unchanged from the document that stands for it.
    pub proof fn lemma_survives(value: CallHierarchyOptions)
        ensures
            survives::<CallHierarchyOptions>(value),
    {
        broadcast use group_lookup;

        reveal(optional);
        reveal_strlit("workDoneProgress");
    }
}

#[derive(Debug, PartialEq, Eq, Structural, Clone)]
pub enum CallHierarchyServerCapability {
    Simple(bool),
    Options(CallHierarchyOptions),
}

impl DeepView for CallHierarchyServerCapability {
    type V = CallHierarchyServerCapability;

    open spec fn deep_view(&self) -> CallHierarchyServerCapability {
        match self {
            CallHierarchyServerCapability::Simple(value) => CallHierarchyServerCapability::Simple(value.deep_view()),
            CallHierarchyServerCapability::Options(value) => CallHierarchyServerCapability::Options(value.deep_view()),
        }
    }
}

impl Codec for CallHierarchyServerCapability {
    open spec fn encode(value: CallHierarchyServerCapability) -> JsonValue {
        match value {
            CallHierarchyServerCapability::Simple(value) => bool::encode(value),
            CallHierarchyServerCapability::Options(value) => CallHierarchyOptions::encode(value),
        }
    }

    open spec fn decode(json: JsonValue) -> Result<CallHierarchyServerCapability, CodecError> {
        if let Ok(value) = bool::decode(json) {
            Ok(CallHierarchyServerCapability::Simple(value))
        } else if let Ok(value) = CallHierarchyOptions::decode(json) {
            Ok(CallHierarchyServerCapability::Options(value))
        } else {
            Err(CodecError::NoVariantMatched)
        }
    }

    fn serialize(&self) -> (json: Json) {
        match self {
            CallHierarchyServerCapability::Simple(value) => value.serialize(),
            CallHierarchyServerCapability::Options(value) => value.serialize(),
        }
    }

    fn deserialize(json: &Json) -> (result: Result<CallHierarchyServerCapability, CodecError>) {
        if let Ok(value) = bool::deserialize(json) {
            Ok(CallHierarchyServerCapability::Simple(value))
        } else if let Ok(value) = CallHierarchyOptions::deserialize(json) {
            Ok(CallHierarchyServerCapability::Options(value))
        } else {
            Err(CodecError::NoVariantMatched)
        }
    }
}

impl CallHierarchyServerCapability {
    /// A value comes back unchanged from its document exactly when its
    /// payload does and no variant declared before its own reads the
    /// payload's document.
    pub proof fn lemma_round_trip(value: CallHierarchyServerCapability)
        ensures
            survives::<CallHierarchyServerCapability>(value) <==> match value {
                CallHierarchyServerCapability::Simple(v) => survives::<bool>(v),
                CallHierarchyServerCapability::Options(v) => bool::decode(CallHierarchyOptions::encode(v)) is Err
                    && survives::<CallHierarchyOptions>(v),
            },
    {
    }

    /// Every value comes back unchanged from the document that stands for it.
    pub proof fn lemma_survives(value: CallHierarchyServerCapability)
        ensures
            survives::<CallHierarchyServerCapability>(value),
    {
        broadcast use group_lookup;

        reveal(required);
        reveal(optional);
        reveal_strlit("workDoneProgress");
        match value {
            CallHierarchyServerCapability::Simple(_) => {},
            CallHierarchyServerCapability::Options(v) => {
                CallHierarchyOptions::lemma_survives(v);
            },
        }
    }
}

impl From<CallHierarchyOptions> for CallHierarchyServerCapability {
    fn from(from: CallHierarchyOptions) -> (result: CallHierarchyServerCapability) {
        CallHierarchyServerCapability::Options(from)
    }
}

impl FromSpecImpl<CallHierarchyOptions> for CallHierarchyServerCapability {
    open spec fn obeys_from_spec() -> bool {
        true
    }

    open spec fn from_spec(from: CallHierarchyOptions) -> CallHierarchyServerCapability {
        CallHierarchyServerCapability::Options(from)
    }
}

impl From<bool> for CallHierarchyServerCapability {
    fn from(from: bool) -> (result: CallHierarchyServerCapability) {
        CallHierarchyServerCapability::Simple(from)
    }
}

impl FromSpecImpl<bool> for CallHierarchyServerCapability {
    open spec fn obeys_from_spec() -> bool {
        true
    }

    open spec fn from_spec(from: bool) -> CallHierarchyServerCapability {
        CallHierarchyServerCapability::Simple(from)
    }
}

#[derive(Debug, PartialEq, Eq, Clone)]
pub struct CallHierarchyPrepareParams {
    /// Its members are written among those of this value.
    pub text_document_position_params: TextDocumentPositionParams,
    /// Its members are written among those of this value.
    pub work_done_progress_params: WorkDoneProgressParams,
}

/// What a [`CallHierarchyPrepareParams`] stands for.
pub struct CallHierarchyPrepareParamsModel {
    pub text_document_position_params: TextDocumentPositionParamsModel,
    pub work_done_progress_params: WorkDoneProgressParamsModel,
}

impl DeepView for CallHierarchyPrepareParams {
    type V = CallHierarchyPrepareParamsModel;

    open spec fn deep_view(&self) -> CallHierarchyPrepareParamsModel {
        CallHierarchyPrepareParamsModel {
            text_document_position_params: self.text_document_position_params.deep_view(),
            work_done_progress_params: self.work_done_progress_params.deep_view(),
        }
    }
}

impl Record for CallHierarchyPrepareParams {
    open spec fn members(before: Seq<Member>, value: CallHierarchyPrepareParamsModel) -> Seq<Member> {
        WorkDoneProgressParams::members(
            TextDocumentPositionParams::members(before, value.text_document_position_params),
            value.work_done_progress_params,
        )
    }

    open spec fn read(members: Seq<Member>) -> Result<CallHierarchyPrepareParamsModel, CodecError> {
        let text_document_position_params = TextDocumentPositionParams::read(members);
        let work_done_progress_params = WorkDoneProgressParams::read(members);
        if text_document_position_params is Err {
            Err(text_document_position_params->Err_0)
        } else if work_done_progress_params is Err {
            Err(work_done_progress_params->Err_0)
        } else {
            Ok(
                CallHierarchyPrepareParamsModel {
                    text_document_position_params: text_document_position_params->Ok_0,
                    work_done_progress_params: work_done_progress_params->Ok_0,
                },
            )
        }
    }

    fn write(&self, members: &mut Vec<(String, Json)>) {
        self.text_document_position_params.write(members);
        self.work_done_progress_params.write(members);
    }

    fn scan(members: &Vec<(String, Json)>) -> (result: Result<CallHierarchyPrepareParams, CodecError>) {
        let text_document_position_params = TextDocumentPositionParams::scan(members);
        let work_done_progress_params = WorkDoneProgressParams::scan(members);
        if let Err(error) = text_document_position_params {
            Err(error)
        } else if let Err(error) = work_done_progress_params {
            Err(error)
        } else {
            Ok(
                CallHierarchyPrepareParams {
                    text_document_position_params: text_document_position_params.unwrap(),
                    work_done_progress_params: work_done_progress_params.unwrap(),
                },
            )
        }
    }
}

impl CallHierarchyPrepareParams {
    /// A value comes back unchanged from the document that stands for it
    /// where its fields meet what is asked of them here.
    pub proof fn lemma_round_trip(value: CallHierarchyPrepareParamsModel)
        requires
            survives::<TextDocumentIdentifier>(value.text_document_position_params.text_document),
        ensures
            survives::<CallHierarchyPrepareParams>(value),
    {
        broadcast use group_lookup;

        reveal(required);
        reveal(optional);
        reveal_strlit("textDocument");
        reveal_strlit("position");
        reveal_strlit("workDoneToken");
        Position::lemma_survives(value.text_document_position_params.position);
        if let Some(inner) = value.work_done_progress_params.work_done_token {
            NumberOrString::lemma_survives(inner);
        }
    }
}

#[derive(Debug, PartialEq, Clone)]
pub struct CallHierarchyItem {
    /// The name of this item.
    pub name: String,
    /// The kind of this item.
    pub kind: SymbolKind,
    /// Tags for this item.
    pub tags: Option<Vec<SymbolTag>>,
    /// More detail for this item, e.g. the signature of a function.
    pub detail: Option<String>,
    /// The resource identifier of this item.
    pub uri: Url,
    /// The range enclosing this symbol not including leading/trailing whitespace but everything else, e.g. comments and code.
    pub range: Range,
    /// The range that should be selected and revealed when this symbol is being picked, e.g. the name of a function.
    /// Must be contained by the [`range`](#CallHierarchyItem.range).
    pub selection_range: Range,
}

/// What a [`CallHierarchyItem`] stands for.
pub struct CallHierarchyItemModel {
    pub name: Seq<char>,
    pub kind: SymbolKind,
    pub tags: Option<Seq<SymbolTag>>,
    pub detail: Option<Seq<char>>,
    pub uri: Seq<char>,
    pub range: Range,
    pub selection_range: Range,
}

impl DeepView for CallHierarchyItem {
    type V = CallHierarchyItemModel;

    open spec fn deep_view(&self) -> CallHierarchyItemModel {
        CallHierarchyItemModel {
            name: self.name.deep_view(),
            kind: self.kind.deep_view(),
            tags: self.tags.deep_view(),
            detail: self.detail.deep_view(),
            uri: self.uri.deep_view(),
            range: self.range.deep_view(),
            selection_range: self.selection_range.deep_view(),
        }
    }
}

impl Record for CallHierarchyItem {
    open spec fn members(before: Seq<Member>, value: CallHierarchyItemModel) -> Seq<Member> {
        before + field::<String>("name"@, value.name)
            + field::<SymbolKind>("kind"@, value.kind)
            + optional_field::<Vec<SymbolTag>>("tags"@, value.tags)
            + optional_field::<String>("detail"@, value.detail)
            + field::<Url>("uri"@, value.uri)
            + field::<Range>("range"@, value.range)
            + field::<Range>("selectionRange"@, value.selection_range)
    }

    open spec fn read(members: Seq<Member>) -> Result<CallHierarchyItemModel, CodecError> {
        let name = required::<String>(members, "name"@);
        let kind = required::<SymbolKind>(members, "kind"@);
        let tags = optional::<Vec<SymbolTag>>(members, "tags"@);
        let detail = optional::<String>(members, "detail"@);
        let uri = required::<Url>(members, "uri"@);
        let range = required::<Range>(members, "range"@);
        let selection_range = required::<Range>(members, "selectionRange"@);
        if name is Err {
            Err(name->Err_0)
        } else if kind is Err {
            Err(kind->Err_0)
        } else if tags is Err {
            Err(tags->Err_0)
        } else if detail is Err {
            Err(detail->Err_0)
        } else if uri is Err {
            Err(uri->Err_0)
        } else if range is Err {
            Err(range->Err_0)
        } else if selection_range is Err {
            Err(selection_range->Err_0)
        } else {
            Ok(
                CallHierarchyItemModel {
                    name: name->Ok_0,
                    kind: kind->Ok_0,
                    tags: tags->Ok_0,
                    detail: detail->Ok_0,
                    uri: uri->Ok_0,
                    range: range->Ok_0,
                    selection_range: selection_range->Ok_0,
                },
            )
        }
    }

    fn write(&self, members: &mut Vec<(String, Json)>) {
        put(members, "name", &self.name);
        put(members, "kind", &self.kind);
        put_optional(members, "tags", &self.tags);
        put_optional(members, "detail", &self.detail);
        put(members, "uri", &self.uri);
        put(members, "range", &self.range);
        put(members, "selectionRange", &self.selection_range);
    }

    fn scan(members: &Vec<(String, Json)>) -> (result: Result<CallHierarchyItem, CodecError>) {
        let name = get::<String>(members, "name");
        let kind = get::<SymbolKind>(members, "kind");
        let tags = get_optional::<Vec<SymbolTag>>(members, "tags");
        let detail = get_optional::<String>(members, "detail");
        let uri = get::<Url>(members, "uri");
        let range = get::<Range>(members, "range");
        let selection_range = get::<Range>(members, "selectionRange");
        if let Err(error) = name {
            Err(error)
        } else if let Err(error) = kind {
            Err(error)
        } else if let Err(error) = tags {
            Err(error)
        } else if let Err(error) = detail {
            Err(error)
        } else if let Err(error) = uri {
            Err(error)
        } else if let Err(error) = range {
            Err(error)
        } else if let Err(error) = selection_range {
            Err(error)
        } else {
            Ok(
                CallHierarchyItem {
                    name: name.unwrap(),
                    kind: kind.unwrap(),
                    tags: tags.unwrap(),
                    detail: detail.unwrap(),
                    uri: uri.unwrap(),
                    range: range.unwrap(),
                    selection_range: selection_range.unwrap(),
                },
            )
        }
    }
}

impl CallHierarchyItem {
    /// A value comes back unchanged from the document that stands for it
    /// where its fields meet what is asked of them here.
    pub proof fn lemma_round_trip(value: CallHierarchyItemModel)
        requires
            is_url_text(value.uri),
        ensures
            survives::<CallHierarchyItem>(value),
    {
        broadcast use group_lookup;

        reveal(required);
        reveal(optional);
        reveal_strlit("name");
        reveal_strlit("kind");
        reveal_strlit("tags");
        reveal_strlit("detail");
        reveal_strlit("uri");
        reveal_strlit("range");
        reveal_strlit("selectionRange");
        SymbolKind::lemma_survives(value.kind);
        if let Some(inner) = value.tags {
            assert forall|i: int| 0 <= i < inner.len() implies survives::<SymbolTag>(
                #[trigger] inner[i],
            ) by {
                SymbolTag::lemma_survives(inner[i]);
            }
            lemma_sequence_round_trip::<SymbolTag>(inner);
        }
        Url::lemma_round_trip(value.uri);
        Range::lemma_survives(value.range);
        Range::lemma_survives(value.selection_range);
    }
}

#[derive(Debug, PartialEq, Clone)]
pub struct CallHierarchyIncomingCallsParams {
    pub item: CallHierarchyItem,
    /// Its members are written among those of this value.
    pub work_done_progress_params: WorkDoneProgressParams,
    /// Its members are written among those of this value.
    pub partial_result_params: PartialResultParams,
}

/// What a [`CallHierarchyIncomingCallsParams`] stands for.
pub struct CallHierarchyIncomingCallsParamsModel {
    pub item: CallHierarchyItemModel,
    pub work_done_progress_params: WorkDoneProgressParamsModel,
    pub partial_result_params: PartialResultParamsModel,
}

impl DeepView for CallHierarchyIncomingCallsParams {
    type V = CallHierarchyIncomingCallsParamsModel;

    open spec fn deep_view(&self) -> CallHierarchyIncomingCallsParamsModel {
        CallHierarchyIncomingCallsParamsModel {
            item: self.item.deep_view(),
            work_done_progress_params: self.work_done_progress_params.deep_view(),
            partial_result_params: self.partial_result_params.deep_view(),
        }
    }
}

impl Record for CallHierarchyIncomingCallsParams {
    open spec fn members(before: Seq<Member>, value: CallHierarchyIncomingCallsParamsModel) -> Seq<Member> {
        PartialResultParams::members(
            WorkDoneProgressParams::members(
                before + field::<CallHierarchyItem>("item"@, value.item),
                value.work_done_progress_params,
            ),
            value.partial_result_params,
        )
    }

    open spec fn read(members: Seq<Member>) -> Result<CallHierarchyIncomingCallsParamsModel, CodecError> {
        let item = required::<CallHierarchyItem>(members, "item"@);
        let work_done_progress_params = WorkDoneProgressParams::read(members);
        let partial_result_params = PartialResultParams::read(members);
        if item is Err {
            Err(item->Err_0)
        } else if work_done_progress_params is Err {
            Err(work_done_progress_params->Err_0)
        } else if partial_result_params is Err {
            Err(partial_result_params->Err_0)
        } else {
            Ok(
                CallHierarchyIncomingCallsParamsModel {
                    item: item->Ok_0,
                    work_done_progress_params: work_done_progress_params->Ok_0,
                    partial_result_params: partial_result_params->Ok_0,
                },
            )
        }
    }

    fn write(&self, members: &mut Vec<(String, Json)>) {
        put(members, "item", &self.item);
        self.work_done_progress_params.write(members);
        self.partial_result_params.write(members);
    }

    fn scan(members: &Vec<(String, Json)>) -> (result: Result<CallHierarchyIncomingCallsParams, CodecError>) {
        let item = get::<CallHierarchyItem>(members, "item");
        let work_done_progress_params = WorkDoneProgressParams::scan(members);
        let partial_result_params = PartialResultParams::scan(members);
        if let Err(error) = item {
            Err(error)
        } else if let Err(error) = work_done_progress_params {
            Err(error)
        } else if let Err(error) = partial_result_params {
            Err(error)
        } else {
            Ok(
                CallHierarchyIncomingCallsParams {
                    item: item.unwrap(),
                    work_done_progress_params: work_done_progress_params.unwrap(),
                    partial_result_params: partial_result_params.unwrap(),
                },
            )
        }
    }
}

impl CallHierarchyIncomingCallsParams {
    /// A value comes back unchanged from the document that stands for it
    /// where its fields meet what is asked of them here.
    pub proof fn lemma_round_trip(value: CallHierarchyIncomingCallsParamsModel)
        requires
            survives::<CallHierarchyItem>(value.item),
        ensures
            survives::<CallHierarchyIncomingCallsParams>(value),
    {
        broadcast use group_lookup;

        reveal(required);
        reveal(optional);
        reveal_strlit("item");
        reveal_strlit("workDoneToken");
        reveal_strlit("partialResultToken");
        if let Some(inner) = value.work_done_progress_params.work_done_token {
            NumberOrString::lemma_survives(inner);
        }
        if let Some(inner) = value.partial_result_params.partial_result_token {
            NumberOrString::lemma_survives(inner);
        }
    }
}

/// Represents an incoming call, e.g. a caller of a method or constructor.
#[derive(Debug, PartialEq, Clone)]
pub struct CallHierarchyIncomingCall {
    /// The item that makes the call.
    pub from: CallHierarchyItem,
    /// The range at which at which the calls appears. This is relative to the caller
    /// denoted by [`this.from`](#CallHierarchyIncomingCall.from).
    pub from_ranges: Vec<Range>,
}

/// What a [`CallHierarchyIncomingCall`] stands for.
pub struct CallHierarchyIncomingCallModel {
    pub from: CallHierarchyItemModel,
    pub from_ranges: Seq<Range>,
}

impl DeepView for CallHierarchyIncomingCall {
    type V = CallHierarchyIncomingCallModel;

    open spec fn deep_view(&self) -> CallHierarchyIncomingCallModel {
        CallHierarchyIncomingCallModel {
            from: self.from.deep_view(),
            from_ranges: self.from_ranges.deep_view(),
        }
    }
}

impl Record for CallHierarchyIncomingCall {
    open spec fn members(before: Seq<Member>, value: CallHierarchyIncomingCallModel) -> Seq<Member> {
        before + field::<CallHierarchyItem>("from"@, value.from)
            + field::<Vec<Range>>("fromRanges"@, value.from_ranges)
    }

    open spec fn read(members: Seq<Member>) -> Result<CallHierarchyIncomingCallModel, CodecError> {
        let from = required::<CallHierarchyItem>(members, "from"@);
        let from_ranges = required::<Vec<Range>>(members, "fromRanges"@);
        if from is Err {
            Err(from->Err_0)
        } else if from_ranges is Err {
            Err(from_ranges->Err_0)
        } else {
            Ok(
                CallHierarchyIncomingCallModel {
                    from: from->Ok_0,
                    from_ranges: from_ranges->Ok_0,
                },
            )
        }
    }

    fn write(&self, members: &mut Vec<(String, Json)>) {
        put(members, "from", &self.from);
        put(members, "fromRanges", &self.from_ranges);
    }

    fn scan(members: &Vec<(String, Json)>) -> (result: Result<CallHierarchyIncomingCall, CodecError>) {
        let from = get::<CallHierarchyItem>(members, "from");
        let from_ranges = get::<Vec<Range>>(members, "fromRanges");
        if let Err(error) = from {
            Err(error)
        } else if let Err(error) = from_ranges {
            Err(error)
        } else {
            Ok(
                CallHierarchyIncomingCall {
                    from: from.unwrap(),
                    from_ranges: from_ranges.unwrap(),
                },
            )
        }
    }
}

impl CallHierarchyIncomingCall {
    /// A value comes back unchanged from the document that stands for it
    /// where its fields meet what is asked of them here.
    pub proof fn lemma_round_trip(value: CallHierarchyIncomingCallModel)
        requires
            survives::<CallHierarchyItem>(value.from),
        ensures
            survives::<CallHierarchyIncomingCall>(value),
    {
        broadcast use group_lookup;

        reveal(required);
        reveal_strlit("from");
        reveal_strlit("fromRanges");
        let list = value.from_ranges;
        assert forall|i: int| 0 <= i < list.len() implies survives::<Range>(
            #[trigger] list[i],
        ) by {
            Range::lemma_survives(list[i]);
        }
        lemma_sequence_round_trip::<Range>(list);
    }
}

#[derive(Debug, PartialEq, Clone)]
pub struct CallHierarchyOutgoingCallsParams {
    pub item: CallHierarchyItem,
    /// Its members are written among those of this value.
    pub work_done_progress_params: WorkDoneProgressParams,
    /// Its members are written among those of this value.
    pub partial_result_params: PartialResultParams,
}

/// What a [`CallHierarchyOutgoingCallsParams`] stands for.
pub struct CallHierarchyOutgoingCallsParamsModel {
    pub item: CallHierarchyItemModel,
    pub work_done_progress_params: WorkDoneProgressParamsModel,
    pub partial_result_params: PartialResultParamsModel,
}

impl DeepView for CallHierarchyOutgoingCallsParams {
    type V = CallHierarchyOutgoingCallsParamsModel;

    open spec fn deep_view(&self) -> CallHierarchyOutgoingCallsParamsModel {
        CallHierarchyOutgoingCallsParamsModel {
            item: self.item.deep_view(),
            work_done_progress_params: self.work_done_progress_params.deep_view(),
            partial_result_params: self.partial_result_params.deep_view(),
        }
    }
}

impl Record for CallHierarchyOutgoingCallsParams {
    open spec fn members(before: Seq<Member>, value: CallHierarchyOutgoingCallsParamsModel) -> Seq<Member> {
        PartialResultParams::members(
            WorkDoneProgressParams::members(
                before + field::<CallHierarchyItem>("item"@, value.item),
                value.work_done_progress_params,
            ),
            value.partial_result_params,
        )
    }

    open spec fn read(members: Seq<Member>) -> Result<CallHierarchyOutgoingCallsParamsModel, CodecError> {
        let item = required::<CallHierarchyItem>(members, "item"@);
        let work_done_progress_params = WorkDoneProgressParams::read(members);
        let partial_result_params = PartialResultParams::read(members);
        if item is Err {
            Err(item->Err_0)
        } else if work_done_progress_params is Err {
            Err(work_done_progress_params->Err_0)
        } else if partial_result_params is Err {
            Err(partial_result_params->Err_0)
        } else {
            Ok(
                CallHierarchyOutgoingCallsParamsModel {
                    item: item->Ok_0,
                    work_done_progress_params: work_done_progress_params->Ok_0,
                    partial_result_params: partial_result_params->Ok_0,
                },
            )
        }
    }

    fn write(&self, members: &mut Vec<(String, Json)>) {
        put(members, "item", &self.item);
        self.work_done_progress_params.write(members);
        self.partial_result_params.write(members);
    }

    fn scan(members: &Vec<(String, Json)>) -> (result: Result<CallHierarchyOutgoingCallsParams, CodecError>) {
        let item = get::<CallHierarchyItem>(members, "item");
        let work_done_progress_params = WorkDoneProgressParams::scan(members);
        let partial_result_params = PartialResultParams::scan(members);
        if let Err(error) = item {
            Err(error)
        } else if let Err(error) = work_done_progress_params {
            Err(error)
        } else if let Err(error) = partial_result_params {
            Err(error)
        } else {
            Ok(
                CallHierarchyOutgoingCallsParams {
                    item: item.unwrap(),
                    work_done_progress_params: work_done_progress_params.unwrap(),
                    partial_result_params: partial_result_params.unwrap(),
                },
            )
        }
    }
}

impl CallHierarchyOutgoingCallsParams {
    /// A value comes back unchanged from the document that stands for it
    /// where its fields meet what is asked of them here.
    pub proof fn lemma_round_trip(value: CallHierarchyOutgoingCallsParamsModel)
        requires
            survives::<CallHierarchyItem>(value.item),
        ensures
            survives::<CallHierarchyOutgoingCallsParams>(value),
    {
        broadcast use group_lookup;

        reveal(required);
        reveal(optional);
        reveal_strlit("item");
        reveal_strlit("workDoneToken");
        reveal_strlit("partialResultToken");
        if let Some(inner) = value.work_done_progress_params.work_done_token {
            NumberOrString::lemma_survives(inner);
        }
        if let Some(inner) = value.partial_result_params.partial_result_token {
            NumberOrString::lemma_survives(inner);
        }
    }
}

/// Represents an outgoing call, e.g. calling a getter from a method or a method from a constructor etc.
#[derive(Debug, PartialEq, Clone)]
pub struct CallHierarchyOutgoingCall {
    /// The item that is called.
    pub to: CallHierarchyItem,
    /// The range at which this item is called. This is the range relative to the caller, e.g the item
    /// passed to [`provideCallHierarchyOutgoingCalls`](#CallHierarchyItemProvider.provideCallHierarchyOutgoingCalls)
    /// and not [`this.to`](#CallHierarchyOutgoingCall.to).
    pub from_ranges: Vec<Range>,
}

/// What a [`CallHierarchyOutgoingCall`] stands for.
pub struct CallHierarchyOutgoingCallModel {
    pub to: CallHierarchyItemModel,
    pub from_ranges: Seq<Range>,
}

impl DeepView for CallHierarchyOutgoingCall {
    type V = CallHierarchyOutgoingCallModel;

    open spec fn deep_view(&self) -> CallHierarchyOutgoingCallModel {
        CallHierarchyOutgoingCallModel {
            to: self.to.deep_view(),
            from_ranges: self.from_ranges.deep_view(),
        }
    }
}

impl Record for CallHierarchyOutgoingCall {
    open spec fn members(before: Seq<Member>, value: CallHierarchyOutgoingCallModel) -> Seq<Member> {
        before + field::<CallHierarchyItem>("to"@, value.to)
            + field::<Vec<Range>>("fromRanges"@, value.from_ranges)
    }

    open spec fn read(members: Seq<Member>) -> Result<CallHierarchyOutgoingCallModel, CodecError> {
        let to = required::<CallHierarchyItem>(members, "to"@);
        let from_ranges = required::<Vec<Range>>(members, "fromRanges"@);
        if to is Err {
            Err(to->Err_0)
        } else if from_ranges is Err {
            Err(from_ranges->Err_0)
        } else {
            Ok(
                CallHierarchyOutgoingCallModel {
                    to: to->Ok_0,
                    from_ranges: from_ranges->Ok_0,
                },
            )
        }
    }

    fn write(&self, members: &mut Vec<(String, Json)>) {
        put(members, "to", &self.to);
        put(members, "fromRanges", &self.from_ranges);
    }

    fn scan(members: &Vec<(String, Json)>) -> (result: Result<CallHierarchyOutgoingCall, CodecError>) {
        let to = get::<CallHierarchyItem>(members, "to");
        let from_ranges = get::<Vec<Range>>(members, "fromRanges");
        if let Err(error) = to {
            Err(error)
        } else if let Err(error) = from_ranges {
            Err(error)
        } else {
            Ok(
                CallHierarchyOutgoingCall {
                    to: to.unwrap(),
                    from_ranges: from_ranges.unwrap(),
                },
            )
        }
    }
}

impl CallHierarchyOutgoingCall {
    /// A value comes back unchanged from the document that stands for it
    /// where its fields meet what is asked of them here.
    pub proof fn lemma_round_trip(value: CallHierarchyOutgoingCallModel)
        requires
            survives::<CallHierarchyItem>(value.to),
        ensures
            survives::<CallHierarchyOutgoingCall>(value),
    {
        broadcast use group_lookup;

        reveal(required);
        reveal_strlit("to");
        reveal_strlit("fromRanges");
        let list = value.from_ranges;
        assert forall|i: int| 0 <= i < list.len() implies survives::<Range>(
            #[trigger] list[i],
        ) by {
            Range::lemma_survives(list[i]);
        }
        lemma_sequence_round_trip::<Range>(list);
    }
}

} // verus!
