//! Colors found in a document and the ways to present them.

use crate::basic::{
    NumberOrString, Range, TextDocumentIdentifier, TextDocumentIdentifierModel, TextEdit,
    TextEditModel,
};
use crate::codec::{
    Codec, CodecError, field, get, get_optional, group_lookup, lemma_sequence_round_trip, Member,
    optional, optional_field, put, put_optional, Record, required, survives,
};
use crate::json::{Json, Number};
use crate::progress::{
    PartialResultParams, PartialResultParamsModel, WorkDoneProgressParams,
    WorkDoneProgressParamsModel,
};
use vstd::prelude::*;

verus! {

#[derive(Debug, PartialEq, Eq, Clone)]
pub struct DocumentColorParams {
    /// The text document
    pub text_document: TextDocumentIdentifier,
    /// Its members are written among those of this value.
    pub work_done_progress_params: WorkDoneProgressParams,
    /// Its members are written among those of this value.
    pub partial_result_params: PartialResultParams,
}

/// What a [`DocumentColorParams`] stands for.
pub struct DocumentColorParamsModel {
    pub text_document: TextDocumentIdentifierModel,
    pub work_done_progress_params: WorkDoneProgressParamsModel,
    pub partial_result_params: PartialResultParamsModel,
}

impl DeepView for DocumentColorParams {
    type V = DocumentColorParamsModel;

    open spec fn deep_view(&self) -> DocumentColorParamsModel {
        DocumentColorParamsModel {
            text_document: self.text_document.deep_view(),
            work_done_progress_params: self.work_done_progress_params.deep_view(),
            partial_result_params: self.partial_result_params.deep_view(),
        }
    }
}

impl Record for DocumentColorParams {
    open spec fn members(before: Seq<Member>, value: DocumentColorParamsModel) -> Seq<Member> {
        PartialResultParams::members(
            WorkDoneProgressParams::members(
                before + field::<TextDocumentIdentifier>("textDocument"@, value.text_document),
                value.work_done_progress_params,
            ),
            value.partial_result_params,
        )
    }

    open spec fn read(members: Seq<Member>) -> Result<DocumentColorParamsModel, CodecError> {
        let text_document = required::<TextDocumentIdentifier>(members, "textDocument"@);
        let work_done_progress_params = WorkDoneProgressParams::read(members);
        let partial_result_params = PartialResultParams::read(members);
        if text_document is Err {
            Err(text_document->Err_0)
        } else if work_done_progress_params is Err {
            Err(work_done_progress_params->Err_0)
        } else if partial_result_params is Err {
            Err(partial_result_params->Err_0)
        } else {
            Ok(
                DocumentColorParamsModel {
                    text_document: text_document->Ok_0,
                    work_done_progress_params: work_done_progress_params->Ok_0,
                    partial_result_params: partial_result_params->Ok_0,
                },
            )
        }
    }

    fn write(&self, members: &mut Vec<(String, Json)>) {
        put(members, "textDocument", &self.text_document);
        self.work_done_progress_params.write(members);
        self.partial_result_params.write(members);
    }

    fn scan(members: &Vec<(String, Json)>) -> (result: Result<DocumentColorParams, CodecError>) {
        let text_document = get::<TextDocumentIdentifier>(members, "textDocument");
        let work_done_progress_params = WorkDoneProgressParams::scan(members);
        let partial_result_params = PartialResultParams::scan(members);
        if let Err(error) = text_document {
            Err(error)
        } else if let Err(error) = work_done_progress_params {
            Err(error)
        } else if let Err(error) = partial_result_params {
            Err(error)
        } else {
            Ok(
                DocumentColorParams {
                    text_document: text_document.unwrap(),
                    work_done_progress_params: work_done_progress_params.unwrap(),
                    partial_result_params: partial_result_params.unwrap(),
                },
            )
        }
    }
}

impl DocumentColorParams {
    /// A value comes back unchanged from the document that stands for it
    /// where its fields meet what is asked of them here.
    pub proof fn lemma_round_trip(value: DocumentColorParamsModel)
        requires
            survives::<TextDocumentIdentifier>(value.text_document),
        ensures
            survives::<DocumentColorParams>(value),
    {
        broadcast use group_lookup;

        reveal(required);
        reveal(optional);
        reveal_strlit("textDocument");
        reveal_strlit("workDoneToken");
        reveal_strlit("partialResultToken");
        if let Some(inner) = value.work_done_progress_params.work_done_token {
            NumberOrString::lemma_survives(inner);
        }
        if let Some(inner) = value.partial_result_params.partial_result_token {
            NumberOrString::lemma_survives(inner);
        }
    }
}

#[derive(Debug, PartialEq, Clone)]
pub struct ColorInformation {
    /// The range in the document where this color appears.
    pub range: Range,
    /// The actual color value for this color range.
    pub color: Color,
}

impl DeepView for ColorInformation {
    type V = ColorInformation;

    open spec fn deep_view(&self) -> ColorInformation {
        ColorInformation {
            range: self.range.deep_view(),
            color: self.color.deep_view(),
        }
    }
}

impl Record for ColorInformation {
    open spec fn members(before: Seq<Member>, value: ColorInformation) -> Seq<Member> {
        before + field::<Range>("range"@, value.range)
            + field::<Color>("color"@, value.color)
    }

    open spec fn read(members: Seq<Member>) -> Result<ColorInformation, CodecError> {
        let range = required::<Range>(members, "range"@);
        let color = required::<Color>(members, "color"@);
        if range is Err {
            Err(range->Err_0)
        } else if color is Err {
            Err(color->Err_0)
        } else {
            Ok(
                ColorInformation {
                    range: range->Ok_0,
                    color: color->Ok_0,
                },
            )
        }
    }

    fn write(&self, members: &mut Vec<(String, Json)>) {
        put(members, "range", &self.range);
        put(members, "color", &self.color);
    }

    fn scan(members: &Vec<(String, Json)>) -> (result: Result<ColorInformation, CodecError>) {
        let range = get::<Range>(members, "range");
        let color = get::<Color>(members, "color");
        if let Err(error) = range {
            Err(error)
        } else if let Err(error) = color {
            Err(error)
        } else {
            Ok(
                ColorInformation {
                    range: range.unwrap(),
                    color: color.unwrap(),
                },
            )
        }
    }
}

impl ColorInformation {
    /// Every value comes back unchanged from the document that stands for it.
    pub proof fn lemma_survives(value: ColorInformation)
        ensures
            survives::<ColorInformation>(value),
    {
        broadcast use group_lookup;

        reveal(required);
        reveal_strlit("range");
        reveal_strlit("color");
        Range::lemma_survives(value.range);
        Color::lemma_survives(value.color);
    }
}

#[derive(Debug, PartialEq, Clone)]
pub struct Color {
    /// The red component of this color in the range [0-1].
    pub red: Number,
    /// The green component of this color in the range [0-1].
    pub green: Number,
    /// The blue component of this color in the range [0-1].
    pub blue: Number,
    /// The alpha component of this color in the range [0-1].
    pub alpha: Number,
}

impl DeepView for Color {
    type V = Color;

    open spec fn deep_view(&self) -> Color {
        Color {
            red: self.red.deep_view(),
            green: self.green.deep_view(),
            blue: self.blue.deep_view(),
            alpha: self.alpha.deep_view(),
        }
    }
}

impl Record for Color {
    open spec fn members(before: Seq<Member>, value: Color) -> Seq<Member> {
        before + field::<Number>("red"@, value.red)
            + field::<Number>("green"@, value.green)
            + field::<Number>("blue"@, value.blue)
            + field::<Number>("alpha"@, value.alpha)
    }

    open spec fn read(members: Seq<Member>) -> Result<Color, CodecError> {
        let red = required::<Number>(members, "red"@);
        let green = required::<Number>(members, "green"@);
        let blue = required::<Number>(members, "blue"@);
        let alpha = required::<Number>(members, "alpha"@);
        if red is Err {
            Err(red->Err_0)
        } else if green is Err {
            Err(green->Err_0)
        } else if blue is Err {
            Err(blue->Err_0)
        } else if alpha is Err {
            Err(alpha->Err_0)
        } else {
            Ok(
                Color {
                    red: red->Ok_0,
                    green: green->Ok_0,
                    blue: blue->Ok_0,
                    alpha: alpha->Ok_0,
                },
            )
        }
    }

    fn write(&self, members: &mut Vec<(String, Json)>) {
        put(members, "red", &self.red);
        put(members, "green", &self.green);
        put(members, "blue", &self.blue);
        put(members, "alpha", &self.alpha);
    }

    fn scan(members: &Vec<(String, Json)>) -> (result: Result<Color, CodecError>) {
        let red = get::<Number>(members, "red");
        let green = get::<Number>(members, "green");
        let blue = get::<Number>(members, "blue");
        let alpha = get::<Number>(members, "alpha");
        if let Err(error) = red {
            Err(error)
        } else if let Err(error) = green {
            Err(error)
        } else if let Err(error) = blue {
            Err(error)
        } else if let Err(error) = alpha {
            Err(error)
        } else {
            Ok(
                Color {
                    red: red.unwrap(),
                    green: green.unwrap(),
                    blue: blue.unwrap(),
                    alpha: alpha.unwrap(),
                },
            )
        }
    }
}

impl Color {
    /// Every value comes back unchanged from the document that stands for it.
    pub proof fn lemma_survives(value: Color)
        ensures
            survives::<Color>(value),
    {
        broadcast use group_lookup;

        reveal(required);
        reveal_strlit("red");
        reveal_strlit("green");
        reveal_strlit("blue");
        reveal_strlit("alpha");
    }
}

#[derive(Debug, PartialEq, Clone)]
pub struct ColorPresentationParams {
    /// The text document.
    pub text_document: TextDocumentIdentifier,
    /// The color information to request presentations for.
    pub color: Color,
    /// The range where the color would be inserted. Serves as a context.
    pub range: Range,
    /// Its members are written among those of this value.
    pub work_done_progress_params: WorkDoneProgressParams,
    /// Its members are written among those of this value.
    pub partial_result_params: PartialResultParams,
}

/// What a [`ColorPresentationParams`] stands for.
pub struct ColorPresentationParamsModel {
    pub text_document: TextDocumentIdentifierModel,
    pub color: Color,
    pub range: Range,
    pub work_done_progress_params: WorkDoneProgressParamsModel,
    pub partial_result_params: PartialResultParamsModel,
}

impl DeepView for ColorPresentationParams {
    type V = ColorPresentationParamsModel;

    open spec fn deep_view(&self) -> ColorPresentationParamsModel {
        ColorPresentationParamsModel {
            text_document: self.text_document.deep_view(),
            color: self.color.deep_view(),
            range: self.range.deep_view(),
            work_done_progress_params: self.work_done_progress_params.deep_view(),
            partial_result_params: self.partial_result_params.deep_view(),
        }
    }
}

impl Record for ColorPresentationParams {
    open spec fn members(before: Seq<Member>, value: ColorPresentationParamsModel) -> Seq<Member> {
        PartialResultParams::members(
            WorkDoneProgressParams::members(
                before + field::<TextDocumentIdentifier>("textDocument"@, value.text_document)
                    + field::<Color>("color"@, value.color)
                    + field::<Range>("range"@, value.range),
                value.work_done_progress_params,
            ),
            value.partial_result_params,
        )
    }

    open spec fn read(members: Seq<Member>) -> Result<ColorPresentationParamsModel, CodecError> {
        let text_document = required::<TextDocumentIdentifier>(members, "textDocument"@);
        let color = required::<Color>(members, "color"@);
        let range = required::<Range>(members, "range"@);
        let work_done_progress_params = WorkDoneProgressParams::read(members);
        let partial_result_params = PartialResultParams::read(members);
        if text_document is Err {
            Err(text_document->Err_0)
        } else if color is Err {
            Err(color->Err_0)
        } else if range is Err {
            Err(range->Err_0)
        } else if work_done_progress_params is Err {
            Err(work_done_progress_params->Err_0)
        } else if partial_result_params is Err {
            Err(partial_result_params->Err_0)
        } else {
            Ok(
                ColorPresentationParamsModel {
                    text_document: text_document->Ok_0,
                    color: color->Ok_0,
                    range: range->Ok_0,
                    work_done_progress_params: work_done_progress_params->Ok_0,
                    partial_result_params: partial_result_params->Ok_0,
                },
            )
        }
    }

    fn write(&self, members: &mut Vec<(String, Json)>) {
        put(members, "textDocument", &self.text_document);
        put(members, "color", &self.color);
        put(members, "range", &self.range);
        self.work_done_progress_params.write(members);
        self.partial_result_params.write(members);
    }

    fn scan(members: &Vec<(String, Json)>) -> (result: Result<ColorPresentationParams, CodecError>) {
        let text_document = get::<TextDocumentIdentifier>(members, "textDocument");
        let color = get::<Color>(members, "color");
        let range = get::<Range>(members, "range");
        let work_done_progress_params = WorkDoneProgressParams::scan(members);
        let partial_result_params = PartialResultParams::scan(members);
        if let Err(error) = text_document {
            Err(error)
        } else if let Err(error) = color {
            Err(error)
        } else if let Err(error) = range {
            Err(error)
        } else if let Err(error) = work_done_progress_params {
            Err(error)
        } else if let Err(error) = partial_result_params {
            Err(error)
        } else {
            Ok(
                ColorPresentationParams {
                    text_document: text_document.unwrap(),
                    color: color.unwrap(),
                    range: range.unwrap(),
                    work_done_progress_params: work_done_progress_params.unwrap(),
                    partial_result_params: partial_result_params.unwrap(),
                },
            )
        }
    }
}

impl ColorPresentationParams {
    /// A value comes back unchanged from the document that stands for it
    /// where its fields meet what is asked of them here.
    pub proof fn lemma_round_trip(value: ColorPresentationParamsModel)
        requires
            survives::<TextDocumentIdentifier>(value.text_document),
        ensures
            survives::<ColorPresentationParams>(value),
    {
        broadcast use group_lookup;

        reveal(required);
        reveal(optional);
        reveal_strlit("textDocument");
        reveal_strlit("color");
        reveal_strlit("range");
        reveal_strlit("workDoneToken");
        reveal_strlit("partialResultToken");
        Color::lemma_survives(value.color);
        Range::lemma_survives(value.range);
        if let Some(inner) = value.work_done_progress_params.work_done_token {
            NumberOrString::lemma_survives(inner);
        }
        if let Some(inner) = value.partial_result_params.partial_result_token {
            NumberOrString::lemma_survives(inner);
        }
    }
}

#[derive(Debug, PartialEq, Eq, Clone, Default)]
pub struct ColorPresentation {
    /// The label of this color presentation. It will be shown on the color
    /// picker header. By default this is also the text that is inserted when selecting
    /// this color presentation.
    pub label: String,
    /// An [edit](#TextEdit) which is applied to a document when selecting
    /// this presentation for the color.  When `falsy` the [label](#ColorPresentation.label)
    /// is used.
    pub text_edit: Option<TextEdit>,
    /// An optional array of additional [text edits](#TextEdit) that are applied when
    /// selecting this color presentation. Edits must not overlap with the main [edit](#ColorPresentation.textEdit) nor with themselves.
    pub additional_text_edits: Option<Vec<TextEdit>>,
}

/// What a [`ColorPresentation`] stands for.
pub struct ColorPresentationModel {
    pub label: Seq<char>,
    pub text_edit: Option<TextEditModel>,
    pub additional_text_edits: Option<Seq<TextEditModel>>,
}

impl DeepView for ColorPresentation {
    type V = ColorPresentationModel;

    open spec fn deep_view(&self) -> ColorPresentationModel {
        ColorPresentationModel {
            label: self.label.deep_view(),
            text_edit: self.text_edit.deep_view(),
            additional_text_edits: self.additional_text_edits.deep_view(),
        }
    }
}

impl Record for ColorPresentation {
    open spec fn members(before: Seq<Member>, value: ColorPresentationModel) -> Seq<Member> {
        before + field::<String>("label"@, value.label)
            + optional_field::<TextEdit>("textEdit"@, value.text_edit)
            + optional_field::<Vec<TextEdit>>("additionalTextEdits"@, value.additional_text_edits)
    }

    open spec fn read(members: Seq<Member>) -> Result<ColorPresentationModel, CodecError> {
        let label = required::<String>(members, "label"@);
        let text_edit = optional::<TextEdit>(members, "textEdit"@);
        let additional_text_edits = optional::<Vec<TextEdit>>(members, "additionalTextEdits"@);
        if label is Err {
            Err(label->Err_0)
        } else if text_edit is Err {
            Err(text_edit->Err_0)
        } else if additional_text_edits is Err {
            Err(additional_text_edits->Err_0)
        } else {
            Ok(
                ColorPresentationModel {
                    label: label->Ok_0,
                    text_edit: text_edit->Ok_0,
                    additional_text_edits: additional_text_edits->Ok_0,
                },
            )
        }
    }

    fn write(&self, members: &mut Vec<(String, Json)>) {
        put(members, "label", &self.label);
        put_optional(members, "textEdit", &self.text_edit);
        put_optional(members, "additionalTextEdits", &self.additional_text_edits);
    }

    fn scan(members: &Vec<(String, Json)>) -> (result: Result<ColorPresentation, CodecError>) {
        let label = get::<String>(members, "label");
        let text_edit = get_optional::<TextEdit>(members, "textEdit");
        let additional_text_edits = get_optional::<Vec<TextEdit>>(members, "additionalTextEdits");
        if let Err(error) = label {
            Err(error)
        } else if let Err(error) = text_edit {
            Err(error)
        } else if let Err(error) = additional_text_edits {
            Err(error)
        } else {
            Ok(
                ColorPresentation {
                    label: label.unwrap(),
                    text_edit: text_edit.unwrap(),
                    additional_text_edits: additional_text_edits.unwrap(),
                },
            )
        }
    }
}

impl ColorPresentation {
    /// Every value comes back unchanged from the document that stands for it.
    pub proof fn lemma_survives(value: ColorPresentationModel)
        ensures
            survives::<ColorPresentation>(value),
    {
        broadcast use group_lookup;

        reveal(required);
        reveal(optional);
        reveal_strlit("label");
        reveal_strlit("textEdit");
        reveal_strlit("additionalTextEdits");
        if let Some(inner) = value.text_edit {
            TextEdit::lemma_survives(inner);
        }
        if let Some(inner) = value.additional_text_edits {
            assert forall|i: int| 0 <= i < inner.len() implies survives::<TextEdit>(
                #[trigger] inner[i],
            ) by {
                TextEdit::lemma_survives(inner[i]);
            }
            lemma_sequence_round_trip::<TextEdit>(inner);
        }
    }
}

} // verus!
