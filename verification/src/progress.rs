//! Progress of long running work, reported through a token.

use crate::basic::{NumberOrString, NumberOrStringModel};
use crate::codec::{
    Codec, CodecError, field, get, get_optional, group_lookup, Member, optional, optional_field,
    put, put_optional, Record, required, survives,
};
use crate::json::{Json, JsonValue, Number};
use vstd::prelude::*;

verus! {

/// The progress notification is sent from the server to the client to ask
/// the client to indicate progress.
#[derive(Debug, PartialEq, Clone)]
pub struct ProgressParams {
    /// The progress token provided by the client.
    pub token: NumberOrString,
    /// The progress data.
    pub value: ProgressParamsValue,
}

/// What a [`ProgressParams`] stands for.
pub struct ProgressParamsModel {
    pub token: NumberOrStringModel,
    pub value: ProgressParamsValueModel,
}

impl DeepView for ProgressParams {
    type V = ProgressParamsModel;

    open spec fn deep_view(&self) -> ProgressParamsModel {
        ProgressParamsModel {
            token: self.token.deep_view(),
            value: self.value.deep_view(),
        }
    }
}

impl Record for ProgressParams {
    open spec fn members(before: Seq<Member>, value: ProgressParamsModel) -> Seq<Member> {
        before + field::<NumberOrString>("token"@, value.token)
            + field::<ProgressParamsValue>("value"@, value.value)
    }

    open spec fn read(members: Seq<Member>) -> Result<ProgressParamsModel, CodecError> {
        let token = required::<NumberOrString>(members, "token"@);
        let value = required::<ProgressParamsValue>(members, "value"@);
        if token is Err {
            Err(token->Err_0)
        } else if value is Err {
            Err(value->Err_0)
        } else {
            Ok(
                ProgressParamsModel {
                    token: token->Ok_0,
                    value: value->Ok_0,
                },
            )
        }
    }

    fn write(&self, members: &mut Vec<(String, Json)>) {
        put(members, "token", &self.token);
        put(members, "value", &self.value);
    }

    fn scan(members: &Vec<(String, Json)>) -> (result: Result<ProgressParams, CodecError>) {
        let token = get::<NumberOrString>(members, "token");
        let value = get::<ProgressParamsValue>(members, "value");
        if let Err(error) = token {
            Err(error)
        } else if let Err(error) = value {
            Err(error)
        } else {
            Ok(
                ProgressParams {
                    token: token.unwrap(),
                    value: value.unwrap(),
                },
            )
        }
    }
}

impl ProgressParams {
    /// A value comes back unchanged from the document that stands for it
    /// where its fields meet what is asked of them here.
    pub proof fn lemma_round_trip(value: ProgressParamsModel)
        requires
            survives::<ProgressParamsValue>(value.value),
        ensures
            survives::<ProgressParams>(value),
    {
        broadcast use group_lookup;

        reveal(required);
        reveal_strlit("token");
        reveal_strlit("value");
        NumberOrString::lemma_survives(value.token);
    }
}

#[derive(Debug, PartialEq, Clone)]
pub enum ProgressParamsValue {
    WorkDone(WorkDoneProgress),
}

/// What a [`ProgressParamsValue`] stands for.
pub enum ProgressParamsValueModel {
    WorkDone(WorkDoneProgressModel),
}

impl DeepView for ProgressParamsValue {
    type V = ProgressParamsValueModel;

    open spec fn deep_view(&self) -> ProgressParamsValueModel {
        match self {
            ProgressParamsValue::WorkDone(value) => ProgressParamsValueModel::WorkDone(value.deep_view()),
        }
    }
}

impl Codec for ProgressParamsValue {
    open spec fn encode(value: ProgressParamsValueModel) -> JsonValue {
        match value {
            ProgressParamsValueModel::WorkDone(value) => WorkDoneProgress::encode(value),
        }
    }

    open spec fn decode(json: JsonValue) -> Result<ProgressParamsValueModel, CodecError> {
        if let Ok(value) = WorkDoneProgress::decode(json) {
            Ok(ProgressParamsValueModel::WorkDone(value))
        } else {
            Err(CodecError::NoVariantMatched)
        }
    }

    fn serialize(&self) -> (json: Json) {
        match self {
            ProgressParamsValue::WorkDone(value) => value.serialize(),
        }
    }

    fn deserialize(json: &Json) -> (result: Result<ProgressParamsValue, CodecError>) {
        if let Ok(value) = WorkDoneProgress::deserialize(json) {
            Ok(ProgressParamsValue::WorkDone(value))
        } else {
            Err(CodecError::NoVariantMatched)
        }
    }
}

impl ProgressParamsValue {
    /// A value comes back unchanged from its document exactly when its
    /// payload does.
    pub proof fn lemma_round_trip(value: ProgressParamsValueModel)
        ensures
            survives::<ProgressParamsValue>(value) <==> match value {
                ProgressParamsValueModel::WorkDone(v) => survives::<WorkDoneProgress>(v),
            },
    {
    }
}

/// The `window/workDoneProgress/create` request is sent from the server
/// to the clientto ask the client to create a work done progress.
#[derive(Debug, PartialEq, Clone)]
pub struct WorkDoneProgressCreateParams {
    /// The token to be used to report progress.
    pub token: NumberOrString,
}

/// What a [`WorkDoneProgressCreateParams`] stands for.
pub struct WorkDoneProgressCreateParamsModel {
    pub token: NumberOrStringModel,
}

impl DeepView for WorkDoneProgressCreateParams {
    type V = WorkDoneProgressCreateParamsModel;

    open spec fn deep_view(&self) -> WorkDoneProgressCreateParamsModel {
        WorkDoneProgressCreateParamsModel {
            token: self.token.deep_view(),
        }
    }
}

impl Record for WorkDoneProgressCreateParams {
    open spec fn members(before: Seq<Member>, value: WorkDoneProgressCreateParamsModel) -> Seq<Member> {
        before + field::<NumberOrString>("token"@, value.token)
    }

    open spec fn read(members: Seq<Member>) -> Result<WorkDoneProgressCreateParamsModel, CodecError> {
        let token = required::<NumberOrString>(members, "token"@);
        if token is Err {
            Err(token->Err_0)
        } else {
            Ok(
                WorkDoneProgressCreateParamsModel {
                    token: token->Ok_0,
                },
            )
        }
    }

    fn write(&self, members: &mut Vec<(String, Json)>) {
        put(members, "token", &self.token);
    }

    fn scan(members: &Vec<(String, Json)>) -> (result: Result<WorkDoneProgressCreateParams, CodecError>) {
        let token = get::<NumberOrString>(members, "token");
        if let Err(error) = token {
            Err(error)
        } else {
            Ok(
                WorkDoneProgressCreateParams {
                    token: token.unwrap(),
                },
            )
        }
    }
}

impl WorkDoneProgressCreateParams {
    /// Every value comes back unchanged from the document that stands for it.
    pub proof fn lemma_survives(value: WorkDoneProgressCreateParamsModel)
        ensures
            survives::<WorkDoneProgressCreateParams>(value),
    {
        broadcast use group_lookup;

        reveal(required);
        reveal_strlit("token");
        NumberOrString::lemma_survives(value.token);
    }
}

/// The `window/workDoneProgress/cancel` notification is sent from the client
/// to the server to cancel a progress initiated on the server side using the `window/workDoneProgress/create`.
#[derive(Debug, PartialEq, Clone)]
pub struct WorkDoneProgressCancelParams {
    /// The token to be used to report progress.
    pub token: NumberOrString,
}

/// What a [`WorkDoneProgressCancelParams`] stands for.
pub struct WorkDoneProgressCancelParamsModel {
    pub token: NumberOrStringModel,
}

impl DeepView for WorkDoneProgressCancelParams {
    type V = WorkDoneProgressCancelParamsModel;

    open spec fn deep_view(&self) -> WorkDoneProgressCancelParamsModel {
        WorkDoneProgressCancelParamsModel {
            token: self.token.deep_view(),
        }
    }
}

impl Record for WorkDoneProgressCancelParams {
    open spec fn members(before: Seq<Member>, value: WorkDoneProgressCancelParamsModel) -> Seq<Member> {
        before + field::<NumberOrString>("token"@, value.token)
    }

    open spec fn read(members: Seq<Member>) -> Result<WorkDoneProgressCancelParamsModel, CodecError> {
        let token = required::<NumberOrString>(members, "token"@);
        if token is Err {
            Err(token->Err_0)
        } else {
            Ok(
                WorkDoneProgressCancelParamsModel {
                    token: token->Ok_0,
                },
            )
        }
    }

    fn write(&self, members: &mut Vec<(String, Json)>) {
        put(members, "token", &self.token);
    }

    fn scan(members: &Vec<(String, Json)>) -> (result: Result<WorkDoneProgressCancelParams, CodecError>) {
        let token = get::<NumberOrString>(members, "token");
        if let Err(error) = token {
            Err(error)
        } else {
            Ok(
                WorkDoneProgressCancelParams {
                    token: token.unwrap(),
                },
            )
        }
    }
}

impl WorkDoneProgressCancelParams {
    /// Every value comes back unchanged from the document that stands for it.
    pub proof fn lemma_survives(value: WorkDoneProgressCancelParamsModel)
        ensures
            survives::<WorkDoneProgressCancelParams>(value),
    {
        broadcast use group_lookup;

        reveal(required);
        reveal_strlit("token");
        NumberOrString::lemma_survives(value.token);
    }
}

/// Options to signal work done progress support in server capabilities.
#[derive(Debug, PartialEq, Eq, Structural, Clone, Default)]
pub struct WorkDoneProgressOptions {
    pub work_done_progress: Option<bool>,
}

impl DeepView for WorkDoneProgressOptions {
    type V = WorkDoneProgressOptions;

    open spec fn deep_view(&self) -> WorkDoneProgressOptions {
        WorkDoneProgressOptions {
            work_done_progress: self.work_done_progress.deep_view(),
        }
    }
}

impl Record for WorkDoneProgressOptions {
    open spec fn members(before: Seq<Member>, value: WorkDoneProgressOptions) -> Seq<Member> {
        before + optional_field::<bool>("workDoneProgress"@, value.work_done_progress)
    }

    open spec fn read(members: Seq<Member>) -> Result<WorkDoneProgressOptions, CodecError> {
        let work_done_progress = optional::<bool>(members, "workDoneProgress"@);
        if work_done_progress is Err {
            Err(work_done_progress->Err_0)
        } else {
            Ok(
                WorkDoneProgressOptions {
                    work_done_progress: work_done_progress->Ok_0,
                },
            )
        }
    }

    fn write(&self, members: &mut Vec<(String, Json)>) {
        put_optional(members, "workDoneProgress", &self.work_done_progress);
    }

    fn scan(members: &Vec<(String, Json)>) -> (result: Result<WorkDoneProgressOptions, CodecError>) {
        let work_done_progress = get_optional::<bool>(members, "workDoneProgress");
        if let Err(error) = work_done_progress {
            Err(error)
        } else {
            Ok(
                WorkDoneProgressOptions {
                    work_done_progress: work_done_progress.unwrap(),
                },
            )
        }
    }
}

impl WorkDoneProgressOptions {
    /// Every value comes back unchanged from the document that stands for it.
    pub proof fn lemma_survives(value: WorkDoneProgressOptions)
        ensures
            survives::<WorkDoneProgressOptions>(value),
    {
        broadcast use group_lookup;

        reveal(optional);
        reveal_strlit("workDoneProgress");
    }
}

/// An optional token that a server can use to report work done progress
#[derive(Debug, PartialEq, Eq, Clone, Default)]
pub struct WorkDoneProgressParams {
    pub work_done_token: Option<NumberOrString>,
}

/// What a [`WorkDoneProgressParams`] stands for.
pub struct WorkDoneProgressParamsModel {
    pub work_done_token: Option<NumberOrStringModel>,
}

impl DeepView for WorkDoneProgressParams {
    type V = WorkDoneProgressParamsModel;

    open spec fn deep_view(&self) -> WorkDoneProgressParamsModel {
        WorkDoneProgressParamsModel {
            work_done_token: self.work_done_token.deep_view(),
        }
    }
}

impl Record for WorkDoneProgressParams {
    open spec fn members(before: Seq<Member>, value: WorkDoneProgressParamsModel) -> Seq<Member> {
        before + optional_field::<NumberOrString>("workDoneToken"@, value.work_done_token)
    }

    open spec fn read(members: Seq<Member>) -> Result<WorkDoneProgressParamsModel, CodecError> {
        let work_done_token = optional::<NumberOrString>(members, "workDoneToken"@);
        if work_done_token is Err {
            Err(work_done_token->Err_0)
        } else {
            Ok(
                WorkDoneProgressParamsModel {
                    work_done_token: work_done_token->Ok_0,
                },
            )
        }
    }

    fn write(&self, members: &mut Vec<(String, Json)>) {
        put_optional(members, "workDoneToken", &self.work_done_token);
    }

    fn scan(members: &Vec<(String, Json)>) -> (result: Result<WorkDoneProgressParams, CodecError>) {
        let work_done_token = get_optional::<NumberOrString>(members, "workDoneToken");
        if let Err(error) = work_done_token {
            Err(error)
        } else {
            Ok(
                WorkDoneProgressParams {
                    work_done_token: work_done_token.unwrap(),
                },
            )
        }
    }
}

impl WorkDoneProgressParams {
    /// Every value comes back unchanged from the document that stands for it.
    pub proof fn lemma_survives(value: WorkDoneProgressParamsModel)
        ensures
            survives::<WorkDoneProgressParams>(value),
    {
        broadcast use group_lookup;

        reveal(optional);
        reveal_strlit("workDoneToken");
        if let Some(inner) = value.work_done_token {
            NumberOrString::lemma_survives(inner);
        }
    }
}

#[derive(Debug, PartialEq, Clone, Default)]
pub struct WorkDoneProgressBegin {
    /// Mandatory title of the progress operation. Used to briefly inform
    /// about the kind of operation being performed.
    /// Examples: "Indexing" or "Linking dependencies".
    pub title: String,
    /// Controls if a cancel button should show to allow the user to cancel the
    /// long running operation. Clients that don't support cancellation are allowed
    /// to ignore the setting.
    pub cancellable: Option<bool>,
    /// Optional, more detailed associated progress message. Contains
    /// complementary information to the `title`.
    /// Examples: "3/25 files", "project/src/module2", "node_modules/some_dep".
    /// If unset, the previous progress message (if any) is still valid.
    pub message: Option<String>,
    /// Optional progress percentage to display (value 100 is considered 100%).
    /// If unset, the previous progress percentage (if any) is still valid.
    pub percentage: Option<Number>,
}

/// What a [`WorkDoneProgressBegin`] stands for.
pub struct WorkDoneProgressBeginModel {
    pub title: Seq<char>,
    pub cancellable: Option<bool>,
    pub message: Option<Seq<char>>,
    pub percentage: Option<Number>,
}

impl DeepView for WorkDoneProgressBegin {
    type V = WorkDoneProgressBeginModel;

    open spec fn deep_view(&self) -> WorkDoneProgressBeginModel {
        WorkDoneProgressBeginModel {
            title: self.title.deep_view(),
            cancellable: self.cancellable.deep_view(),
            message: self.message.deep_view(),
            percentage: self.percentage.deep_view(),
        }
    }
}

impl Record for WorkDoneProgressBegin {
    open spec fn members(before: Seq<Member>, value: WorkDoneProgressBeginModel) -> Seq<Member> {
        before + field::<String>("title"@, value.title)
            + optional_field::<bool>("cancellable"@, value.cancellable)
            + optional_field::<String>("message"@, value.message)
            + optional_field::<Number>("percentage"@, value.percentage)
    }

    open spec fn read(members: Seq<Member>) -> Result<WorkDoneProgressBeginModel, CodecError> {
        let title = required::<String>(members, "title"@);
        let cancellable = optional::<bool>(members, "cancellable"@);
        let message = optional::<String>(members, "message"@);
        let percentage = optional::<Number>(members, "percentage"@);
        if title is Err {
            Err(title->Err_0)
        } else if cancellable is Err {
            Err(cancellable->Err_0)
        } else if message is Err {
            Err(message->Err_0)
        } else if percentage is Err {
            Err(percentage->Err_0)
        } else {
            Ok(
                WorkDoneProgressBeginModel {
                    title: title->Ok_0,
                    cancellable: cancellable->Ok_0,
                    message: message->Ok_0,
                    percentage: percentage->Ok_0,
                },
            )
        }
    }

    fn write(&self, members: &mut Vec<(String, Json)>) {
        put(members, "title", &self.title);
        put_optional(members, "cancellable", &self.cancellable);
        put_optional(members, "message", &self.message);
        put_optional(members, "percentage", &self.percentage);
    }

    fn scan(members: &Vec<(String, Json)>) -> (result: Result<WorkDoneProgressBegin, CodecError>) {
        let title = get::<String>(members, "title");
        let cancellable = get_optional::<bool>(members, "cancellable");
        let message = get_optional::<String>(members, "message");
        let percentage = get_optional::<Number>(members, "percentage");
        if let Err(error) = title {
            Err(error)
        } else if let Err(error) = cancellable {
            Err(error)
        } else if let Err(error) = message {
            Err(error)
        } else if let Err(error) = percentage {
            Err(error)
        } else {
            Ok(
                WorkDoneProgressBegin {
                    title: title.unwrap(),
                    cancellable: cancellable.unwrap(),
                    message: message.unwrap(),
                    percentage: percentage.unwrap(),
                },
            )
        }
    }
}

impl WorkDoneProgressBegin {
    /// Every value comes back unchanged from the document that stands for it.
    pub proof fn lemma_survives(value: WorkDoneProgressBeginModel)
        ensures
            survives::<WorkDoneProgressBegin>(value),
    {
        broadcast use group_lookup;

        reveal(required);
        reveal(optional);
        reveal_strlit("title");
        reveal_strlit("cancellable");
        reveal_strlit("message");
        reveal_strlit("percentage");
    }
}

#[derive(Debug, PartialEq, Clone, Default)]
pub struct WorkDoneProgressReport {
    /// Controls if a cancel button should show to allow the user to cancel the
    /// long running operation. Clients that don't support cancellation are allowed
    /// to ignore the setting.
    pub cancellable: Option<bool>,
    /// Optional, more detailed associated progress message. Contains
    /// complementary information to the `title`.
    /// Examples: "3/25 files", "project/src/module2", "node_modules/some_dep".
    /// If unset, the previous progress message (if any) is still valid.
    pub message: Option<String>,
    /// Optional progress percentage to display (value 100 is considered 100%).
    /// If unset, the previous progress percentage (if any) is still valid.
    pub percentage: Option<Number>,
}

/// What a [`WorkDoneProgressReport`] stands for.
pub struct WorkDoneProgressReportModel {
    pub cancellable: Option<bool>,
    pub message: Option<Seq<char>>,
    pub percentage: Option<Number>,
}

impl DeepView for WorkDoneProgressReport {
    type V = WorkDoneProgressReportModel;

    open spec fn deep_view(&self) -> WorkDoneProgressReportModel {
        WorkDoneProgressReportModel {
            cancellable: self.cancellable.deep_view(),
            message: self.message.deep_view(),
            percentage: self.percentage.deep_view(),
        }
    }
}

impl Record for WorkDoneProgressReport {
    open spec fn members(before: Seq<Member>, value: WorkDoneProgressReportModel) -> Seq<Member> {
        before + optional_field::<bool>("cancellable"@, value.cancellable)
            + optional_field::<String>("message"@, value.message)
            + optional_field::<Number>("percentage"@, value.percentage)
    }

    open spec fn read(members: Seq<Member>) -> Result<WorkDoneProgressReportModel, CodecError> {
        let cancellable = optional::<bool>(members, "cancellable"@);
        let message = optional::<String>(members, "message"@);
        let percentage = optional::<Number>(members, "percentage"@);
        if cancellable is Err {
            Err(cancellable->Err_0)
        } else if message is Err {
            Err(message->Err_0)
        } else if percentage is Err {
            Err(percentage->Err_0)
        } else {
            Ok(
                WorkDoneProgressReportModel {
                    cancellable: cancellable->Ok_0,
                    message: message->Ok_0,
                    percentage: percentage->Ok_0,
                },
            )
        }
    }

    fn write(&self, members: &mut Vec<(String, Json)>) {
        put_optional(members, "cancellable", &self.cancellable);
        put_optional(members, "message", &self.message);
        put_optional(members, "percentage", &self.percentage);
    }

    fn scan(members: &Vec<(String, Json)>) -> (result: Result<WorkDoneProgressReport, CodecError>) {
        let cancellable = get_optional::<bool>(members, "cancellable");
        let message = get_optional::<String>(members, "message");
        let percentage = get_optional::<Number>(members, "percentage");
        if let Err(error) = cancellable {
            Err(error)
        } else if let Err(error) = message {
            Err(error)
        } else if let Err(error) = percentage {
            Err(error)
        } else {
            Ok(
                WorkDoneProgressReport {
                    cancellable: cancellable.unwrap(),
                    message: message.unwrap(),
                    percentage: percentage.unwrap(),
                },
            )
        }
    }
}

impl WorkDoneProgressReport {
    /// Every value comes back unchanged from the document that stands for it.
    pub proof fn lemma_survives(value: WorkDoneProgressReportModel)
        ensures
            survives::<WorkDoneProgressReport>(value),
    {
        broadcast use group_lookup;

        reveal(optional);
        reveal_strlit("cancellable");
        reveal_strlit("message");
        reveal_strlit("percentage");
    }
}

#[derive(Debug, PartialEq, Clone, Default)]
pub struct WorkDoneProgressEnd {
    /// Optional, more detailed associated progress message. Contains
    /// complementary information to the `title`.
    /// Examples: "3/25 files", "project/src/module2", "node_modules/some_dep".
    /// If unset, the previous progress message (if any) is still valid.
    pub message: Option<String>,
}

/// What a [`WorkDoneProgressEnd`] stands for.
pub struct WorkDoneProgressEndModel {
    pub message: Option<Seq<char>>,
}

impl DeepView for WorkDoneProgressEnd {
    type V = WorkDoneProgressEndModel;

    open spec fn deep_view(&self) -> WorkDoneProgressEndModel {
        WorkDoneProgressEndModel {
            message: self.message.deep_view(),
        }
    }
}

impl Record for WorkDoneProgressEnd {
    open spec fn members(before: Seq<Member>, value: WorkDoneProgressEndModel) -> Seq<Member> {
        before + optional_field::<String>("message"@, value.message)
    }

    open spec fn read(members: Seq<Member>) -> Result<WorkDoneProgressEndModel, CodecError> {
        let message = optional::<String>(members, "message"@);
        if message is Err {
            Err(message->Err_0)
        } else {
            Ok(
                WorkDoneProgressEndModel {
                    message: message->Ok_0,
                },
            )
        }
    }

    fn write(&self, members: &mut Vec<(String, Json)>) {
        put_optional(members, "message", &self.message);
    }

    fn scan(members: &Vec<(String, Json)>) -> (result: Result<WorkDoneProgressEnd, CodecError>) {
        let message = get_optional::<String>(members, "message");
        if let Err(error) = message {
            Err(error)
        } else {
            Ok(
                WorkDoneProgressEnd {
                    message: message.unwrap(),
                },
            )
        }
    }
}

impl WorkDoneProgressEnd {
    /// Every value comes back unchanged from the document that stands for it.
    pub proof fn lemma_survives(value: WorkDoneProgressEndModel)
        ensures
            survives::<WorkDoneProgressEnd>(value),
    {
        broadcast use group_lookup;

        reveal(optional);
        reveal_strlit("message");
    }
}

/// A parameter literal used to pass a partial result token.
#[derive(Debug, PartialEq, Eq, Clone, Default)]
pub struct PartialResultParams {
    pub partial_result_token: Option<NumberOrString>,
}

/// What a [`PartialResultParams`] stands for.
pub struct PartialResultParamsModel {
    pub partial_result_token: Option<NumberOrStringModel>,
}

impl DeepView for PartialResultParams {
    type V = PartialResultParamsModel;

    open spec fn deep_view(&self) -> PartialResultParamsModel {
        PartialResultParamsModel {
            partial_result_token: self.partial_result_token.deep_view(),
        }
    }
}

impl Record for PartialResultParams {
    open spec fn members(before: Seq<Member>, value: PartialResultParamsModel) -> Seq<Member> {
        before + optional_field::<NumberOrString>("partialResultToken"@, value.partial_result_token)
    }

    open spec fn read(members: Seq<Member>) -> Result<PartialResultParamsModel, CodecError> {
        let partial_result_token = optional::<NumberOrString>(members, "partialResultToken"@);
        if partial_result_token is Err {
            Err(partial_result_token->Err_0)
        } else {
            Ok(
                PartialResultParamsModel {
                    partial_result_token: partial_result_token->Ok_0,
                },
            )
        }
    }

    fn write(&self, members: &mut Vec<(String, Json)>) {
        put_optional(members, "partialResultToken", &self.partial_result_token);
    }

    fn scan(members: &Vec<(String, Json)>) -> (result: Result<PartialResultParams, CodecError>) {
        let partial_result_token = get_optional::<NumberOrString>(members, "partialResultToken");
        if let Err(error) = partial_result_token {
            Err(error)
        } else {
            Ok(
                PartialResultParams {
                    partial_result_token: partial_result_token.unwrap(),
                },
            )
        }
    }
}

impl PartialResultParams {
    /// Every value comes back unchanged from the document that stands for it.
    pub proof fn lemma_survives(value: PartialResultParamsModel)
        ensures
            survives::<PartialResultParams>(value),
    {
        broadcast use group_lookup;

        reveal(optional);
        reveal_strlit("partialResultToken");
        if let Some(inner) = value.partial_result_token {
            NumberOrString::lemma_survives(inner);
        }
    }
}

/// A step in the life of a work done progress. The member `kind` of its object
/// says which: `begin`, `report` or `end`.
#[derive(Debug, PartialEq, Clone)]
pub enum WorkDoneProgress {
    Begin(WorkDoneProgressBegin),
    Report(WorkDoneProgressReport),
    End(WorkDoneProgressEnd),
}

/// What a [`WorkDoneProgress`] stands for.
pub enum WorkDoneProgressModel {
    Begin(WorkDoneProgressBeginModel),
    Report(WorkDoneProgressReportModel),
    End(WorkDoneProgressEndModel),
}

impl DeepView for WorkDoneProgress {
    type V = WorkDoneProgressModel;

    open spec fn deep_view(&self) -> WorkDoneProgressModel {
        match self {
            WorkDoneProgress::Begin(value) => WorkDoneProgressModel::Begin(value.deep_view()),
            WorkDoneProgress::Report(value) => WorkDoneProgressModel::Report(value.deep_view()),
            WorkDoneProgress::End(value) => WorkDoneProgressModel::End(value.deep_view()),
        }
    }
}

impl Record for WorkDoneProgress {
    open spec fn members(before: Seq<Member>, value: WorkDoneProgressModel) -> Seq<Member> {
        match value {
            WorkDoneProgressModel::Begin(value) => WorkDoneProgressBegin::members(
                before + field::<String>("kind"@, "begin"@),
                value,
            ),
            WorkDoneProgressModel::Report(value) => WorkDoneProgressReport::members(
                before + field::<String>("kind"@, "report"@),
                value,
            ),
            WorkDoneProgressModel::End(value) => WorkDoneProgressEnd::members(
                before + field::<String>("kind"@, "end"@),
                value,
            ),
        }
    }

    open spec fn read(members: Seq<Member>) -> Result<WorkDoneProgressModel, CodecError> {
        match required::<String>(members, "kind"@) {
            Err(error) => Err(error),
            Ok(kind) => {
                if kind == "begin"@ {
                    match WorkDoneProgressBegin::read(members) {
                        Ok(value) => Ok(WorkDoneProgressModel::Begin(value)),
                        Err(error) => Err(error),
                    }
                } else if kind == "report"@ {
                    match WorkDoneProgressReport::read(members) {
                        Ok(value) => Ok(WorkDoneProgressModel::Report(value)),
                        Err(error) => Err(error),
                    }
                } else if kind == "end"@ {
                    match WorkDoneProgressEnd::read(members) {
                        Ok(value) => Ok(WorkDoneProgressModel::End(value)),
                        Err(error) => Err(error),
                    }
                } else {
                    Err(CodecError::UnknownVariant)
                }
            },
        }
    }

    fn write(&self, members: &mut Vec<(String, Json)>) {
        match self {
            WorkDoneProgress::Begin(value) => {
                put(members, "kind", &"begin".to_owned());
                value.write(members);
            },
            WorkDoneProgress::Report(value) => {
                put(members, "kind", &"report".to_owned());
                value.write(members);
            },
            WorkDoneProgress::End(value) => {
                put(members, "kind", &"end".to_owned());
                value.write(members);
            },
        }
    }

    fn scan(members: &Vec<(String, Json)>) -> (result: Result<WorkDoneProgress, CodecError>) {
        match get::<String>(members, "kind") {
            Err(error) => Err(error),
            Ok(kind) => {
                if kind == "begin".to_owned() {
                    match WorkDoneProgressBegin::scan(members) {
                        Ok(value) => Ok(WorkDoneProgress::Begin(value)),
                        Err(error) => Err(error),
                    }
                } else if kind == "report".to_owned() {
                    match WorkDoneProgressReport::scan(members) {
                        Ok(value) => Ok(WorkDoneProgress::Report(value)),
                        Err(error) => Err(error),
                    }
                } else if kind == "end".to_owned() {
                    match WorkDoneProgressEnd::scan(members) {
                        Ok(value) => Ok(WorkDoneProgress::End(value)),
                        Err(error) => Err(error),
                    }
                } else {
                    Err(CodecError::UnknownVariant)
                }
            },
        }
    }
}

} // verus!
