//! Links from a range of a document to another resource.

use crate::basic::{NumberOrString, Range, TextDocumentIdentifier, TextDocumentIdentifierModel};
use crate::codec::{
    Codec, CodecError, field, get, get_optional, group_lookup, Member, optional, optional_field,
    put, put_optional, Record, required, survives,
};
use crate::json::{Json, JsonValue};
use crate::progress::{
    PartialResultParams, PartialResultParamsModel, WorkDoneProgressOptions, WorkDoneProgressParams,
    WorkDoneProgressParamsModel,
};
use crate::url::{is_url_text, Url};
use vstd::prelude::*;

verus! {

#[derive(Debug, PartialEq, Eq, Clone)]
pub struct DocumentLinkParams {
    /// The document to provide document links for.
    pub text_document: TextDocumentIdentifier,
    /// Its members are written among those of this value.
    pub work_done_progress_params: WorkDoneProgressParams,
    /// Its members are written among those of this value.
    pub partial_result_params: PartialResultParams,
}

/// What a [`DocumentLinkParams`] stands for.
pub struct DocumentLinkParamsModel {
    pub text_document: TextDocumentIdentifierModel,
    pub work_done_progress_params: WorkDoneProgressParamsModel,
    pub partial_result_params: PartialResultParamsModel,
}

impl DeepView for DocumentLinkParams {
    type V = DocumentLinkParamsModel;

    open spec fn deep_view(&self) -> DocumentLinkParamsModel {
        DocumentLinkParamsModel {
            text_document: self.text_document.deep_view(),
            work_done_progress_params: self.work_done_progress_params.deep_view(),
            partial_result_params: self.partial_result_params.deep_view(),
        }
    }
}

impl Record for DocumentLinkParams {
    open spec fn members(before: Seq<Member>, value: DocumentLinkParamsModel) -> Seq<Member> {
        PartialResultParams::members(
            WorkDoneProgressParams::members(
                before + field::<TextDocumentIdentifier>("textDocument"@, value.text_document),
                value.work_done_progress_params,
            ),
            value.partial_result_params,
        )
    }

    open spec fn read(members: Seq<Member>) -> Result<DocumentLinkParamsModel, CodecError> {
        let text_document = required::<TextDocumentIdentifier>(members, "textDocument"@);
        let work_done_progress_params = WorkDoneProgressParams::read(members);
        let partial_result_params = PartialResultParams::read(members);
        if text_document is Err {
            Err(text_document->Err_0)
        } else if work_done_progress_params is Err {
            Err(work_done_progress_params->Err_0)
        } else if partial_result_params is Err {
            Err(partial_result_params->Err_0)
        } else {
            Ok(
                DocumentLinkParamsModel {
                    text_document: text_document->Ok_0,
                    work_done_progress_params: work_done_progress_params->Ok_0,
                    partial_result_params: partial_result_params->Ok_0,
                },
            )
        }
    }

    fn write(&self, members: &mut Vec<(String, Json)>) {
        put(members, "textDocument", &self.text_document);
        self.work_done_progress_params.write(members);
        self.partial_result_params.write(members);
    }

    fn scan(members: &Vec<(String, Json)>) -> (result: Result<DocumentLinkParams, CodecError>) {
        let text_document = get::<TextDocumentIdentifier>(members, "textDocument");
        let work_done_progress_params = WorkDoneProgressParams::scan(members);
        let partial_result_params = PartialResultParams::scan(members);
        if let Err(error) = text_document {
            Err(error)
        } else if let Err(error) = work_done_progress_params {
            Err(error)
        } else if let Err(error) = partial_result_params {
            Err(error)
        } else {
            Ok(
                DocumentLinkParams {
                    text_document: text_document.unwrap(),
                    work_done_progress_params: work_done_progress_params.unwrap(),
                    partial_result_params: partial_result_params.unwrap(),
                },
            )
        }
    }
}

impl DocumentLinkParams {
    /// A value comes back unchanged from the document that stands for it
    /// where its fields meet what is asked of them here.
    pub proof fn lemma_round_trip(value: DocumentLinkParamsModel)
        requires
            survives::<TextDocumentIdentifier>(value.text_document),
        ensures
            survives::<DocumentLinkParams>(value),
    {
        broadcast use group_lookup;

        reveal(required);
        reveal(optional);
        reveal_strlit("textDocument");
        reveal_strlit("workDoneToken");
        reveal_strlit("partialResultToken");
        if let Some(inner) = value.work_done_progress_params.work_done_token {
            NumberOrString::lemma_survives(inner);
        }
        if let Some(inner) = value.partial_result_params.partial_result_token {
            NumberOrString::lemma_survives(inner);
        }
    }
}

/// A document link is a range in a text document that links to an internal or external resource, like another
/// text document or a web site.
#[derive(Debug, PartialEq, Eq, Clone)]
pub struct DocumentLink {
    /// The range this link applies to.
    pub range: Range,
    /// The uri this link points to.
    pub target: Option<Url>,
    /// The tooltip text when you hover over this link.
    ///
    /// If a tooltip is provided, is will be displayed in a string that includes instructions on how to
    /// trigger the link, such as `{0} (ctrl + click)`. The specific instructions vary depending on OS,
    /// user settings, and localization.
    pub tooltip: Option<String>,
    /// A data entry field that is preserved on a document link between a DocumentLinkRequest
    /// and a DocumentLinkResolveRequest.
    pub data: Option<Json>,
}

/// What a [`DocumentLink`] stands for.
pub struct DocumentLinkModel {
    pub range: Range,
    pub target: Option<Seq<char>>,
    pub tooltip: Option<Seq<char>>,
    pub data: Option<JsonValue>,
}

impl DeepView for DocumentLink {
    type V = DocumentLinkModel;

    open spec fn deep_view(&self) -> DocumentLinkModel {
        DocumentLinkModel {
            range: self.range.deep_view(),
            target: self.target.deep_view(),
            tooltip: self.tooltip.deep_view(),
            data: self.data.deep_view(),
        }
    }
}

impl Record for DocumentLink {
    open spec fn members(before: Seq<Member>, value: DocumentLinkModel) -> Seq<Member> {
        before + field::<Range>("range"@, value.range)
            + optional_field::<Url>("target"@, value.target)
            + optional_field::<String>("tooltip"@, value.tooltip)
            + optional_field::<Json>("data"@, value.data)
    }

    open spec fn read(members: Seq<Member>) -> Result<DocumentLinkModel, CodecError> {
        let range = required::<Range>(members, "range"@);
        let target = optional::<Url>(members, "target"@);
        let tooltip = optional::<String>(members, "tooltip"@);
        let data = optional::<Json>(members, "data"@);
        if range is Err {
            Err(range->Err_0)
        } else if target is Err {
            Err(target->Err_0)
        } else if tooltip is Err {
            Err(tooltip->Err_0)
        } else if data is Err {
            Err(data->Err_0)
        } else {
            Ok(
                DocumentLinkModel {
                    range: range->Ok_0,
                    target: target->Ok_0,
                    tooltip: tooltip->Ok_0,
                    data: data->Ok_0,
                },
            )
        }
    }

    fn write(&self, members: &mut Vec<(String, Json)>) {
        put(members, "range", &self.range);
        put_optional(members, "target", &self.target);
        put_optional(members, "tooltip", &self.tooltip);
        put_optional(members, "data", &self.data);
    }

    fn scan(members: &Vec<(String, Json)>) -> (result: Result<DocumentLink, CodecError>) {
        let range = get::<Range>(members, "range");
        let target = get_optional::<Url>(members, "target");
        let tooltip = get_optional::<String>(members, "tooltip");
        let data = get_optional::<Json>(members, "data");
        if let Err(error) = range {
            Err(error)
        } else if let Err(error) = target {
            Err(error)
        } else if let Err(error) = tooltip {
            Err(error)
        } else if let Err(error) = data {
            Err(error)
        } else {
            Ok(
                DocumentLink {
                    range: range.unwrap(),
                    target: target.unwrap(),
                    tooltip: tooltip.unwrap(),
                    data: data.unwrap(),
                },
            )
        }
    }
}

impl DocumentLink {
    /// A value comes back unchanged from the document that stands for it
    /// where its fields meet what is asked of them here.
    pub proof fn lemma_round_trip(value: DocumentLinkModel)
        requires
            value.target matches Some(v) ==> is_url_text(v),
            value.data != Some(JsonValue::Null),
        ensures
            survives::<DocumentLink>(value),
    {
        broadcast use group_lookup;

        reveal(required);
        reveal(optional);
        reveal_strlit("range");
        reveal_strlit("target");
        reveal_strlit("tooltip");
        reveal_strlit("data");
        Range::lemma_survives(value.range);
        if let Some(v) = value.target {
            Url::lemma_round_trip(v);
        }
    }
}

#[derive(Debug, PartialEq, Eq, Structural, Clone)]
pub struct DocumentLinkOptions {
    /// Document links have a resolve provider as well.
    pub resolve_provider: Option<bool>,
    /// Its members are written among those of this value.
    pub work_done_progress_options: WorkDoneProgressOptions,
}

impl DeepView for DocumentLinkOptions {
    type V = DocumentLinkOptions;

    open spec fn deep_view(&self) -> DocumentLinkOptions {
        DocumentLinkOptions {
            resolve_provider: self.resolve_provider.deep_view(),
            work_done_progress_options: self.work_done_progress_options.deep_view(),
        }
    }
}

impl Record for DocumentLinkOptions {
    open spec fn members(before: Seq<Member>, value: DocumentLinkOptions) -> Seq<Member> {
        WorkDoneProgressOptions::members(
            before + optional_field::<bool>("resolveProvider"@, value.resolve_provider),
            value.work_done_progress_options,
        )
    }

    open spec fn read(members: Seq<Member>) -> Result<DocumentLinkOptions, CodecError> {
        let resolve_provider = optional::<bool>(members, "resolveProvider"@);
        let work_done_progress_options = WorkDoneProgressOptions::read(members);
        if resolve_provider is Err {
            Err(resolve_provider->Err_0)
        } else if work_done_progress_options is Err {
            Err(work_done_progress_options->Err_0)
        } else {
            Ok(
                DocumentLinkOptions {
                    resolve_provider: resolve_provider->Ok_0,
                    work_done_progress_options: work_done_progress_options->Ok_0,
                },
            )
        }
    }

    fn write(&self, members: &mut Vec<(String, Json)>) {
        put_optional(members, "resolveProvider", &self.resolve_provider);
        self.work_done_progress_options.write(members);
    }

    fn scan(members: &Vec<(String, Json)>) -> (result: Result<DocumentLinkOptions, CodecError>) {
        let resolve_provider = get_optional::<bool>(members, "resolveProvider");
        let work_done_progress_options = WorkDoneProgressOptions::scan(members);
        if let Err(error) = resolve_provider {
            Err(error)
        } else if let Err(error) = work_done_progress_options {
            Err(error)
        } else {
            Ok(
                DocumentLinkOptions {
                    resolve_provider: resolve_provider.unwrap(),
                    work_done_progress_options: work_done_progress_options.unwrap(),
                },
            )
        }
    }
}

impl DocumentLinkOptions {
    /// Every value comes back unchanged from the document that stands for it.
    pub proof fn lemma_survives(value: DocumentLinkOptions)
        ensures
            survives::<DocumentLinkOptions>(value),
    {
        broadcast use group_lookup;

        reveal(optional);
        reveal_strlit("resolveProvider");
        reveal_strlit("workDoneProgress");
    }
}

} // verus!
