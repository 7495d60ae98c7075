//! Completion: the items that a server proposes at a position.

use crate::basic::{
    Command, CommandModel, DocumentFilter, MarkupContent, MarkupContentModel, MarkupKind,
    NumberOrString, Position, Range, TextDocumentIdentifier, TextDocumentPositionParams,
    TextDocumentPositionParamsModel, TextEdit, TextEditModel,
};
use crate::codec::{
    Codec, CodecError, field, get, get_optional, group_lookup, lemma_sequence_round_trip, Member,
    optional, optional_field, put, put_optional, Record, required, survives,
};
use crate::json::{Json, JsonValue, Number};
use crate::progress::{
    PartialResultParams, PartialResultParamsModel, WorkDoneProgressOptions, WorkDoneProgressParams,
    WorkDoneProgressParamsModel,
};
use crate::registration::{TextDocumentRegistrationOptions, TextDocumentRegistrationOptionsModel};
use crate::tag_support::{
    compat, get_compat, lemma_tag_support_round_trip, TagSupport, TagSupportModel,
};
use vstd::prelude::*;
use vstd::std_specs::convert::FromSpecImpl;

verus! {

/// A special text edit to provide an insert and a replace operation.
///
/// @since 3.16.0 - Proposed state
#[derive(Debug, PartialEq, Eq, Clone, Default)]
pub struct InsertReplaceEdit {
    /// The string to be inserted.
    pub new_text: String,
    /// The range if the insert is requested
    pub insert: Range,
    /// The range if the replace is requested.
    pub replace: Range,
}

/// What a [`InsertReplaceEdit`] stands for.
pub struct InsertReplaceEditModel {
    pub new_text: Seq<char>,
    pub insert: Range,
    pub replace: Range,
}

impl DeepView for InsertReplaceEdit {
    type V = InsertReplaceEditModel;

    open spec fn deep_view(&self) -> InsertReplaceEditModel {
        InsertReplaceEditModel {
            new_text: self.new_text.deep_view(),
            insert: self.insert.deep_view(),
            replace: self.replace.deep_view(),
        }
    }
}

impl Record for InsertReplaceEdit {
    open spec fn members(before: Seq<Member>, value: InsertReplaceEditModel) -> Seq<Member> {
        before + field::<String>("newText"@, value.new_text)
            + field::<Range>("insert"@, value.insert)
            + field::<Range>("replace"@, value.replace)
    }

    open spec fn read(members: Seq<Member>) -> Result<InsertReplaceEditModel, CodecError> {
        let new_text = required::<String>(members, "newText"@);
        let insert = required::<Range>(members, "insert"@);
        let replace = required::<Range>(members, "replace"@);
        if new_text is Err {
            Err(new_text->Err_0)
        } else if insert is Err {
            Err(insert->Err_0)
        } else if replace is Err {
            Err(replace->Err_0)
        } else {
            Ok(
                InsertReplaceEditModel {
                    new_text: new_text->Ok_0,
                    insert: insert->Ok_0,
                    replace: replace->Ok_0,
                },
            )
        }
    }

    fn write(&self, members: &mut Vec<(String, Json)>) {
        put(members, "newText", &self.new_text);
        put(members, "insert", &self.insert);
        put(members, "replace", &self.replace);
    }

    fn scan(members: &Vec<(String, Json)>) -> (result: Result<InsertReplaceEdit, CodecError>) {
        let new_text = get::<String>(members, "newText");
        let insert = get::<Range>(members, "insert");
        let replace = get::<Range>(members, "replace");
        if let Err(error) = new_text {
            Err(error)
        } else if let Err(error) = insert {
            Err(error)
        } else if let Err(error) = replace {
            Err(error)
        } else {
            Ok(
                InsertReplaceEdit {
                    new_text: new_text.unwrap(),
                    insert: insert.unwrap(),
                    replace: replace.unwrap(),
                },
            )
        }
    }
}

impl InsertReplaceEdit {
    /// Every value comes back unchanged from the document that stands for it.
    pub proof fn lemma_survives(value: InsertReplaceEditModel)
        ensures
            survives::<InsertReplaceEdit>(value),
    {
        broadcast use group_lookup;

        reveal(required);
        reveal_strlit("newText");
        reveal_strlit("insert");
        reveal_strlit("replace");
        Range::lemma_survives(value.insert);
        Range::lemma_survives(value.replace);
    }
}

#[derive(Debug, PartialEq, Eq, Clone)]
pub enum CompletionTextEdit {
    Edit(TextEdit),
    InsertAndReplace(InsertReplaceEdit),
}

/// What a [`CompletionTextEdit`] stands for.
pub enum CompletionTextEditModel {
    Edit(TextEditModel),
    InsertAndReplace(InsertReplaceEditModel),
}

impl DeepView for CompletionTextEdit {
    type V = CompletionTextEditModel;

    open spec fn deep_view(&self) -> CompletionTextEditModel {
        match self {
            CompletionTextEdit::Edit(value) => CompletionTextEditModel::Edit(value.deep_view()),
            CompletionTextEdit::InsertAndReplace(value) => CompletionTextEditModel::InsertAndReplace(value.deep_view()),
        }
    }
}

impl Codec for CompletionTextEdit {
    open spec fn encode(value: CompletionTextEditModel) -> JsonValue {
        match value {
            CompletionTextEditModel::Edit(value) => TextEdit::encode(value),
            CompletionTextEditModel::InsertAndReplace(value) => InsertReplaceEdit::encode(value),
        }
    }

    open spec fn decode(json: JsonValue) -> Result<CompletionTextEditModel, CodecError> {
        if let Ok(value) = TextEdit::decode(json) {
            Ok(CompletionTextEditModel::Edit(value))
        } else if let Ok(value) = InsertReplaceEdit::decode(json) {
            Ok(CompletionTextEditModel::InsertAndReplace(value))
        } else {
            Err(CodecError::NoVariantMatched)
        }
    }

    fn serialize(&self) -> (json: Json) {
        match self {
            CompletionTextEdit::Edit(value) => value.serialize(),
            CompletionTextEdit::InsertAndReplace(value) => value.serialize(),
        }
    }

    fn deserialize(json: &Json) -> (result: Result<CompletionTextEdit, CodecError>) {
        if let Ok(value) = TextEdit::deserialize(json) {
            Ok(CompletionTextEdit::Edit(value))
        } else if let Ok(value) = InsertReplaceEdit::deserialize(json) {
            Ok(CompletionTextEdit::InsertAndReplace(value))
        } else {
            Err(CodecError::NoVariantMatched)
        }
    }
}

impl CompletionTextEdit {
    /// A value comes back unchanged from its document exactly when its
    /// payload does and no variant declared before its own reads the
    /// payload's document.
    pub proof fn lemma_round_trip(value: CompletionTextEditModel)
        ensures
            survives::<CompletionTextEdit>(value) <==> match value {
                CompletionTextEditModel::Edit(v) => survives::<TextEdit>(v),
                CompletionTextEditModel::InsertAndReplace(v) => TextEdit::decode(InsertReplaceEdit::encode(v)) is Err
                    && survives::<InsertReplaceEdit>(v),
            },
    {
    }

    /// Every value comes back unchanged from the document that stands for it.
    pub proof fn lemma_survives(value: CompletionTextEditModel)
        ensures
            survives::<CompletionTextEdit>(value),
    {
        broadcast use group_lookup;

        reveal(required);
        reveal(optional);
        reveal_strlit("range");
        reveal_strlit("newText");
        reveal_strlit("insert");
        reveal_strlit("replace");
        match value {
            CompletionTextEditModel::Edit(v) => {
                TextEdit::lemma_survives(v);
            },
            CompletionTextEditModel::InsertAndReplace(v) => {
                InsertReplaceEdit::lemma_survives(v);
            },
        }
    }
}

impl From<TextEdit> for CompletionTextEdit {
    fn from(edit: TextEdit) -> (result: CompletionTextEdit) {
        CompletionTextEdit::Edit(edit)
    }
}

impl FromSpecImpl<TextEdit> for CompletionTextEdit {
    open spec fn obeys_from_spec() -> bool {
        true
    }

    open spec fn from_spec(edit: TextEdit) -> CompletionTextEdit {
        CompletionTextEdit::Edit(edit)
    }
}

impl From<InsertReplaceEdit> for CompletionTextEdit {
    fn from(edit: InsertReplaceEdit) -> (result: CompletionTextEdit) {
        CompletionTextEdit::InsertAndReplace(edit)
    }
}

impl FromSpecImpl<InsertReplaceEdit> for CompletionTextEdit {
    open spec fn obeys_from_spec() -> bool {
        true
    }

    open spec fn from_spec(edit: InsertReplaceEdit) -> CompletionTextEdit {
        CompletionTextEdit::InsertAndReplace(edit)
    }
}

#[derive(Debug, PartialEq, Eq, Clone, Default)]
pub struct CompletionItemCapability {
    /// Client supports snippets as insert text.
    ///
    /// A snippet can define tab stops and placeholders with `$1`, `$2`
    /// and `${3:foo}`. `$0` defines the final tab stop, it defaults to
    /// the end of the snippet. Placeholders with equal identifiers are linked,
    /// that is typing in one will update others too.
    pub snippet_support: Option<bool>,
    /// Client supports commit characters on a completion item.
    pub commit_characters_support: Option<bool>,
    /// Client supports the follow content formats for the documentation
    /// property. The order describes the preferred format of the client.
    pub documentation_format: Option<Vec<MarkupKind>>,
    /// Client supports the deprecated property on a completion item.
    pub deprecated_support: Option<bool>,
    /// Client supports the preselect property on a completion item.
    pub preselect_support: Option<bool>,
    /// Client supports the tag property on a completion item. Clients supporting
    /// tags have to handle unknown tags gracefully. Clients especially need to
    /// preserve unknown tags when sending a completion item back to the server in
    /// a resolve call.
    pub tag_support: Option<TagSupport<CompletionItemTag>>,
    /// Client support insert replace edit to control different behavior if a
    /// completion item is inserted in the text or should replace text.
    ///
    /// @since 3.16.0 - Proposed state
    pub insert_replace_support: Option<bool>,
}

/// What a [`CompletionItemCapability`] stands for.
pub struct CompletionItemCapabilityModel {
    pub snippet_support: Option<bool>,
    pub commit_characters_support: Option<bool>,
    pub documentation_format: Option<Seq<MarkupKind>>,
    pub deprecated_support: Option<bool>,
    pub preselect_support: Option<bool>,
    pub tag_support: Option<TagSupportModel<CompletionItemTag>>,
    pub insert_replace_support: Option<bool>,
}

impl DeepView for CompletionItemCapability {
    type V = CompletionItemCapabilityModel;

    open spec fn deep_view(&self) -> CompletionItemCapabilityModel {
        CompletionItemCapabilityModel {
            snippet_support: self.snippet_support.deep_view(),
            commit_characters_support: self.commit_characters_support.deep_view(),
            documentation_format: self.documentation_format.deep_view(),
            deprecated_support: self.deprecated_support.deep_view(),
            preselect_support: self.preselect_support.deep_view(),
            tag_support: self.tag_support.deep_view(),
            insert_replace_support: self.insert_replace_support.deep_view(),
        }
    }
}

impl Record for CompletionItemCapability {
    open spec fn members(before: Seq<Member>, value: CompletionItemCapabilityModel) -> Seq<Member> {
        before + optional_field::<bool>("snippetSupport"@, value.snippet_support)
            + optional_field::<bool>("commitCharactersSupport"@, value.commit_characters_support)
            + optional_field::<Vec<MarkupKind>>("documentationFormat"@, value.documentation_format)
            + optional_field::<bool>("deprecatedSupport"@, value.deprecated_support)
            + optional_field::<bool>("preselectSupport"@, value.preselect_support)
            + optional_field::<TagSupport<CompletionItemTag>>("tagSupport"@, value.tag_support)
            + optional_field::<bool>("insertReplaceSupport"@, value.insert_replace_support)
    }

    open spec fn read(members: Seq<Member>) -> Result<CompletionItemCapabilityModel, CodecError> {
        let snippet_support = optional::<bool>(members, "snippetSupport"@);
        let commit_characters_support = optional::<bool>(members, "commitCharactersSupport"@);
        let documentation_format = optional::<Vec<MarkupKind>>(members, "documentationFormat"@);
        let deprecated_support = optional::<bool>(members, "deprecatedSupport"@);
        let preselect_support = optional::<bool>(members, "preselectSupport"@);
        let tag_support = compat::<CompletionItemTag>(members, "tagSupport"@);
        let insert_replace_support = optional::<bool>(members, "insertReplaceSupport"@);
        if snippet_support is Err {
            Err(snippet_support->Err_0)
        } else if commit_characters_support is Err {
            Err(commit_characters_support->Err_0)
        } else if documentation_format is Err {
            Err(documentation_format->Err_0)
        } else if deprecated_support is Err {
            Err(deprecated_support->Err_0)
        } else if preselect_support is Err {
            Err(preselect_support->Err_0)
        } else if tag_support is Err {
            Err(tag_support->Err_0)
        } else if insert_replace_support is Err {
            Err(insert_replace_support->Err_0)
        } else {
            Ok(
                CompletionItemCapabilityModel {
                    snippet_support: snippet_support->Ok_0,
                    commit_characters_support: commit_characters_support->Ok_0,
                    documentation_format: documentation_format->Ok_0,
                    deprecated_support: deprecated_support->Ok_0,
                    preselect_support: preselect_support->Ok_0,
                    tag_support: tag_support->Ok_0,
                    insert_replace_support: insert_replace_support->Ok_0,
                },
            )
        }
    }

    fn write(&self, members: &mut Vec<(String, Json)>) {
        put_optional(members, "snippetSupport", &self.snippet_support);
        put_optional(members, "commitCharactersSupport", &self.commit_characters_support);
        put_optional(members, "documentationFormat", &self.documentation_format);
        put_optional(members, "deprecatedSupport", &self.deprecated_support);
        put_optional(members, "preselectSupport", &self.preselect_support);
        put_optional(members, "tagSupport", &self.tag_support);
        put_optional(members, "insertReplaceSupport", &self.insert_replace_support);
    }

    fn scan(members: &Vec<(String, Json)>) -> (result: Result<CompletionItemCapability, CodecError>) {
        let snippet_support = get_optional::<bool>(members, "snippetSupport");
        let commit_characters_support = get_optional::<bool>(members, "commitCharactersSupport");
        let documentation_format = get_optional::<Vec<MarkupKind>>(members, "documentationFormat");
        let deprecated_support = get_optional::<bool>(members, "deprecatedSupport");
        let preselect_support = get_optional::<bool>(members, "preselectSupport");
        let tag_support = get_compat::<CompletionItemTag>(members, "tagSupport");
        let insert_replace_support = get_optional::<bool>(members, "insertReplaceSupport");
        if let Err(error) = snippet_support {
            Err(error)
        } else if let Err(error) = commit_characters_support {
            Err(error)
        } else if let Err(error) = documentation_format {
            Err(error)
        } else if let Err(error) = deprecated_support {
            Err(error)
        } else if let Err(error) = preselect_support {
            Err(error)
        } else if let Err(error) = tag_support {
            Err(error)
        } else if let Err(error) = insert_replace_support {
            Err(error)
        } else {
            Ok(
                CompletionItemCapability {
                    snippet_support: snippet_support.unwrap(),
                    commit_characters_support: commit_characters_support.unwrap(),
                    documentation_format: documentation_format.unwrap(),
                    deprecated_support: deprecated_support.unwrap(),
                    preselect_support: preselect_support.unwrap(),
                    tag_support: tag_support.unwrap(),
                    insert_replace_support: insert_replace_support.unwrap(),
                },
            )
        }
    }
}

impl CompletionItemCapability {
    /// Every value comes back unchanged from the document that stands for it.
    pub proof fn lemma_survives(value: CompletionItemCapabilityModel)
        ensures
            survives::<CompletionItemCapability>(value),
    {
        broadcast use group_lookup;

        reveal(optional);
        reveal(optional_field);
        reveal_strlit("snippetSupport");
        reveal_strlit("commitCharactersSupport");
        reveal_strlit("documentationFormat");
        reveal_strlit("deprecatedSupport");
        reveal_strlit("preselectSupport");
        reveal_strlit("tagSupport");
        reveal_strlit("insertReplaceSupport");
        if let Some(inner) = value.documentation_format {
            assert forall|i: int| 0 <= i < inner.len() implies survives::<MarkupKind>(
                #[trigger] inner[i],
            ) by {
                MarkupKind::lemma_survives(inner[i]);
            }
            lemma_sequence_round_trip::<MarkupKind>(inner);
        }
        if let Some(support) = value.tag_support {
            let list = support.value_set;
            assert forall|i: int| 0 <= i < list.len() implies survives::<CompletionItemTag>(
                #[trigger] list[i],
            ) by {
                CompletionItemTag::lemma_survives(list[i]);
            }
            lemma_tag_support_round_trip::<CompletionItemTag>(support);
        }
    }
}

#[derive(Debug, PartialEq, Eq, Structural, Clone, Copy)]
pub enum CompletionItemTag {
    Deprecated,
}

impl DeepView for CompletionItemTag {
    type V = CompletionItemTag;

    open spec fn deep_view(&self) -> CompletionItemTag {
        *self
    }
}

impl CompletionItemTag {
    /// The integer that stands for a variant on the wire.
    pub open spec fn number(self) -> u8 {
        match self {
            CompletionItemTag::Deprecated => 1,
        }
    }

    /// The variant that an integer stands for, if any.
    pub open spec fn variant(number: int) -> Option<CompletionItemTag> {
        if number == 1 {
            Some(CompletionItemTag::Deprecated)
        } else {
            None
        }
    }

    /// Gives the integer that stands for this variant on the wire.
    pub fn to_number(self) -> (number: u8)
        ensures
            number == self.number(),
    {
        match self {
            CompletionItemTag::Deprecated => 1,
        }
    }

    /// Gives the variant that an integer stands for, if any.
    pub fn from_number(number: u64) -> (variant: Option<CompletionItemTag>)
        ensures
            variant == Self::variant(number as int),
    {
        if number == 1 {
            Some(CompletionItemTag::Deprecated)
        } else {
            None
        }
    }

    /// Every variant comes back unchanged from the integer that stands for it.
    pub proof fn lemma_survives(value: CompletionItemTag)
        ensures
            survives::<CompletionItemTag>(value),
    {
    }

    /// An integer is refused exactly when it names no variant, and the
    /// error then holds it together with the bounds of those that do.
    pub proof fn lemma_refusal(number: Number)
        requires
            !(number is Float),
        ensures
            CompletionItemTag::decode(JsonValue::Number(number)) is Err <==> !(number matches Number::PosInt(n)
                && 1 <= n <= 1),
            CompletionItemTag::decode(JsonValue::Number(number)) is Err ==> CompletionItemTag::decode(
                JsonValue::Number(number),
            ) == Err::<CompletionItemTag, CodecError>(
                CodecError::InvalidEnumValue { value: number, lowest: 1, highest: 1 },
            ),
    {
    }
}

impl Codec for CompletionItemTag {
    open spec fn encode(value: CompletionItemTag) -> JsonValue {
        JsonValue::Number(Number::PosInt(value.number() as u64))
    }

    open spec fn decode(json: JsonValue) -> Result<CompletionItemTag, CodecError> {
        match json {
            JsonValue::Number(Number::PosInt(n)) => match Self::variant(n as int) {
                Some(variant) => Ok(variant),
                None => Err(
                    CodecError::InvalidEnumValue { value: Number::PosInt(n), lowest: 1, highest: 1 },
                ),
            },
            JsonValue::Number(Number::NegInt(n)) => Err(
                CodecError::InvalidEnumValue { value: Number::NegInt(n), lowest: 1, highest: 1 },
            ),
            _ => Err(CodecError::UnexpectedType),
        }
    }

    fn serialize(&self) -> (json: Json) {
        Json::Number(Number::PosInt(self.to_number() as u64))
    }

    fn deserialize(json: &Json) -> (result: Result<CompletionItemTag, CodecError>) {
        match json {
            Json::Number(Number::PosInt(n)) => match Self::from_number(*n) {
                Some(variant) => Ok(variant),
                None => Err(
                    CodecError::InvalidEnumValue { value: Number::PosInt(*n), lowest: 1, highest: 1 },
                ),
            },
            Json::Number(Number::NegInt(n)) => Err(
                CodecError::InvalidEnumValue { value: Number::NegInt(*n), lowest: 1, highest: 1 },
            ),
            _ => Err(CodecError::UnexpectedType),
        }
    }
}

#[derive(Debug, PartialEq, Eq, Clone, Default)]
pub struct CompletionItemKindCapability {
    /// The completion item kind values the client supports. When this
    /// property exists the client also guarantees that it will
    /// handle values outside its set gracefully and falls back
    /// to a default value when unknown.
    ///
    /// If this property is not present the client only supports
    /// the completion items kinds from `Text` to `Reference` as defined in
    /// the initial version of the protocol.
    pub value_set: Option<Vec<CompletionItemKind>>,
}

/// What a [`CompletionItemKindCapability`] stands for.
pub struct CompletionItemKindCapabilityModel {
    pub value_set: Option<Seq<CompletionItemKind>>,
}

impl DeepView for CompletionItemKindCapability {
    type V = CompletionItemKindCapabilityModel;

    open spec fn deep_view(&self) -> CompletionItemKindCapabilityModel {
        CompletionItemKindCapabilityModel {
            value_set: self.value_set.deep_view(),
        }
    }
}

impl Record for CompletionItemKindCapability {
    open spec fn members(before: Seq<Member>, value: CompletionItemKindCapabilityModel) -> Seq<Member> {
        before + optional_field::<Vec<CompletionItemKind>>("valueSet"@, value.value_set)
    }

    open spec fn read(members: Seq<Member>) -> Result<CompletionItemKindCapabilityModel, CodecError> {
        let value_set = optional::<Vec<CompletionItemKind>>(members, "valueSet"@);
        if value_set is Err {
            Err(value_set->Err_0)
        } else {
            Ok(
                CompletionItemKindCapabilityModel {
                    value_set: value_set->Ok_0,
                },
            )
        }
    }

    fn write(&self, members: &mut Vec<(String, Json)>) {
        put_optional(members, "valueSet", &self.value_set);
    }

    fn scan(members: &Vec<(String, Json)>) -> (result: Result<CompletionItemKindCapability, CodecError>) {
        let value_set = get_optional::<Vec<CompletionItemKind>>(members, "valueSet");
        if let Err(error) = value_set {
            Err(error)
        } else {
            Ok(
                CompletionItemKindCapability {
                    value_set: value_set.unwrap(),
                },
            )
        }
    }
}

impl CompletionItemKindCapability {
    /// Every value comes back unchanged from the document that stands for it.
    pub proof fn lemma_survives(value: CompletionItemKindCapabilityModel)
        ensures
            survives::<CompletionItemKindCapability>(value),
    {
        broadcast use group_lookup;

        reveal(optional);
        reveal_strlit("valueSet");
        if let Some(inner) = value.value_set {
            assert forall|i: int| 0 <= i < inner.len() implies survives::<CompletionItemKind>(
                #[trigger] inner[i],
            ) by {
                CompletionItemKind::lemma_survives(inner[i]);
            }
            lemma_sequence_round_trip::<CompletionItemKind>(inner);
        }
    }
}

#[derive(Debug, PartialEq, Eq, Clone, Default)]
pub struct CompletionCapability {
    /// Whether completion supports dynamic registration.
    pub dynamic_registration: Option<bool>,
    /// The client supports the following `CompletionItem` specific
    /// capabilities.
    pub completion_item: Option<CompletionItemCapability>,
    pub completion_item_kind: Option<CompletionItemKindCapability>,
    /// The client supports to send additional context information for a
    /// `textDocument/completion` requestion.
    pub context_support: Option<bool>,
}

/// What a [`CompletionCapability`] stands for.
pub struct CompletionCapabilityModel {
    pub dynamic_registration: Option<bool>,
    pub completion_item: Option<CompletionItemCapabilityModel>,
    pub completion_item_kind: Option<CompletionItemKindCapabilityModel>,
    pub context_support: Option<bool>,
}

impl DeepView for CompletionCapability {
    type V = CompletionCapabilityModel;

    open spec fn deep_view(&self) -> CompletionCapabilityModel {
        CompletionCapabilityModel {
            dynamic_registration: self.dynamic_registration.deep_view(),
            completion_item: self.completion_item.deep_view(),
            completion_item_kind: self.completion_item_kind.deep_view(),
            context_support: self.context_support.deep_view(),
        }
    }
}

impl Record for CompletionCapability {
    open spec fn members(before: Seq<Member>, value: CompletionCapabilityModel) -> Seq<Member> {
        before + optional_field::<bool>("dynamicRegistration"@, value.dynamic_registration)
            + optional_field::<CompletionItemCapability>("completionItem"@, value.completion_item)
            + optional_field::<CompletionItemKindCapability>(
                "completionItemKind"@,
                value.completion_item_kind,
            )
            + optional_field::<bool>("contextSupport"@, value.context_support)
    }

    open spec fn read(members: Seq<Member>) -> Result<CompletionCapabilityModel, CodecError> {
        let dynamic_registration = optional::<bool>(members, "dynamicRegistration"@);
        let completion_item = optional::<CompletionItemCapability>(members, "completionItem"@);
        let completion_item_kind = optional::<CompletionItemKindCapability>(
            members,
            "completionItemKind"@,
        );
        let context_support = optional::<bool>(members, "contextSupport"@);
        if dynamic_registration is Err {
            Err(dynamic_registration->Err_0)
        } else if completion_item is Err {
            Err(completion_item->Err_0)
        } else if completion_item_kind is Err {
            Err(completion_item_kind->Err_0)
        } else if context_support is Err {
            Err(context_support->Err_0)
        } else {
            Ok(
                CompletionCapabilityModel {
                    dynamic_registration: dynamic_registration->Ok_0,
                    completion_item: completion_item->Ok_0,
                    completion_item_kind: completion_item_kind->Ok_0,
                    context_support: context_support->Ok_0,
                },
            )
        }
    }

    fn write(&self, members: &mut Vec<(String, Json)>) {
        put_optional(members, "dynamicRegistration", &self.dynamic_registration);
        put_optional(members, "completionItem", &self.completion_item);
        put_optional(members, "completionItemKind", &self.completion_item_kind);
        put_optional(members, "contextSupport", &self.context_support);
    }

    fn scan(members: &Vec<(String, Json)>) -> (result: Result<CompletionCapability, CodecError>) {
        let dynamic_registration = get_optional::<bool>(members, "dynamicRegistration");
        let completion_item = get_optional::<CompletionItemCapability>(members, "completionItem");
        let completion_item_kind = get_optional::<CompletionItemKindCapability>(
            members,
            "completionItemKind",
        );
        let context_support = get_optional::<bool>(members, "contextSupport");
        if let Err(error) = dynamic_registration {
            Err(error)
        } else if let Err(error) = completion_item {
            Err(error)
        } else if let Err(error) = completion_item_kind {
            Err(error)
        } else if let Err(error) = context_support {
            Err(error)
        } else {
            Ok(
                CompletionCapability {
                    dynamic_registration: dynamic_registration.unwrap(),
                    completion_item: completion_item.unwrap(),
                    completion_item_kind: completion_item_kind.unwrap(),
                    context_support: context_support.unwrap(),
                },
            )
        }
    }
}

impl CompletionCapability {
    /// Every value comes back unchanged from the document that stands for it.
    pub proof fn lemma_survives(value: CompletionCapabilityModel)
        ensures
            survives::<CompletionCapability>(value),
    {
        broadcast use group_lookup;

        reveal(optional);
        reveal_strlit("dynamicRegistration");
        reveal_strlit("completionItem");
        reveal_strlit("completionItemKind");
        reveal_strlit("contextSupport");
        if let Some(inner) = value.completion_item {
            CompletionItemCapability::lemma_survives(inner);
        }
        if let Some(inner) = value.completion_item_kind {
            CompletionItemKindCapability::lemma_survives(inner);
        }
    }
}

/// Completion options.
#[derive(Debug, PartialEq, Eq, Clone, Default)]
pub struct CompletionOptions {
    /// The server provides support to resolve additional information for a completion item.
    pub resolve_provider: Option<bool>,
    /// The characters that trigger completion automatically.
    pub trigger_characters: Option<Vec<String>>,
    /// Its members are written among those of this value.
    pub work_done_progress_options: WorkDoneProgressOptions,
}

/// What a [`CompletionOptions`] stands for.
pub struct CompletionOptionsModel {
    pub resolve_provider: Option<bool>,
    pub trigger_characters: Option<Seq<Seq<char>>>,
    pub work_done_progress_options: WorkDoneProgressOptions,
}

impl DeepView for CompletionOptions {
    type V = CompletionOptionsModel;

    open spec fn deep_view(&self) -> CompletionOptionsModel {
        CompletionOptionsModel {
            resolve_provider: self.resolve_provider.deep_view(),
            trigger_characters: self.trigger_characters.deep_view(),
            work_done_progress_options: self.work_done_progress_options.deep_view(),
        }
    }
}

impl Record for CompletionOptions {
    open spec fn members(before: Seq<Member>, value: CompletionOptionsModel) -> Seq<Member> {
        WorkDoneProgressOptions::members(
            before + optional_field::<bool>("resolveProvider"@, value.resolve_provider)
                + optional_field::<Vec<String>>("triggerCharacters"@, value.trigger_characters),
            value.work_done_progress_options,
        )
    }

    open spec fn read(members: Seq<Member>) -> Result<CompletionOptionsModel, CodecError> {
        let resolve_provider = optional::<bool>(members, "resolveProvider"@);
        let trigger_characters = optional::<Vec<String>>(members, "triggerCharacters"@);
        let work_done_progress_options = WorkDoneProgressOptions::read(members);
        if resolve_provider is Err {
            Err(resolve_provider->Err_0)
        } else if trigger_characters is Err {
            Err(trigger_characters->Err_0)
        } else if work_done_progress_options is Err {
            Err(work_done_progress_options->Err_0)
        } else {
            Ok(
                CompletionOptionsModel {
                    resolve_provider: resolve_provider->Ok_0,
                    trigger_characters: trigger_characters->Ok_0,
                    work_done_progress_options: work_done_progress_options->Ok_0,
                },
            )
        }
    }

    fn write(&self, members: &mut Vec<(String, Json)>) {
        put_optional(members, "resolveProvider", &self.resolve_provider);
        put_optional(members, "triggerCharacters", &self.trigger_characters);
        self.work_done_progress_options.write(members);
    }

    fn scan(members: &Vec<(String, Json)>) -> (result: Result<CompletionOptions, CodecError>) {
        let resolve_provider = get_optional::<bool>(members, "resolveProvider");
        let trigger_characters = get_optional::<Vec<String>>(members, "triggerCharacters");
        let work_done_progress_options = WorkDoneProgressOptions::scan(members);
        if let Err(error) = resolve_provider {
            Err(error)
        } else if let Err(error) = trigger_characters {
            Err(error)
        } else if let Err(error) = work_done_progress_options {
            Err(error)
        } else {
            Ok(
                CompletionOptions {
                    resolve_provider: resolve_provider.unwrap(),
                    trigger_characters: trigger_characters.unwrap(),
                    work_done_progress_options: work_done_progress_options.unwrap(),
                },
            )
        }
    }
}

impl CompletionOptions {
    /// Every value comes back unchanged from the document that stands for it.
    pub proof fn lemma_survives(value: CompletionOptionsModel)
        ensures
            survives::<CompletionOptions>(value),
    {
        broadcast use group_lookup;

        reveal(optional);
        reveal_strlit("resolveProvider");
        reveal_strlit("triggerCharacters");
        reveal_strlit("workDoneProgress");
        if let Some(inner) = value.trigger_characters {
            lemma_sequence_round_trip::<String>(inner);
        }
    }
}

#[derive(Debug, PartialEq, Clone)]
pub struct CompletionRegistrationOptions {
    /// Its members are written among those of this value.
    pub text_document_registration_options: TextDocumentRegistrationOptions,
    /// Its members are written among those of this value.
    pub completion_options: CompletionOptions,
}

/// What a [`CompletionRegistrationOptions`] stands for.
pub struct CompletionRegistrationOptionsModel {
    pub text_document_registration_options: TextDocumentRegistrationOptionsModel,
    pub completion_options: CompletionOptionsModel,
}

impl DeepView for CompletionRegistrationOptions {
    type V = CompletionRegistrationOptionsModel;

    open spec fn deep_view(&self) -> CompletionRegistrationOptionsModel {
        CompletionRegistrationOptionsModel {
            text_document_registration_options: self.text_document_registration_options.deep_view(),
            completion_options: self.completion_options.deep_view(),
        }
    }
}

impl Record for CompletionRegistrationOptions {
    open spec fn members(before: Seq<Member>, value: CompletionRegistrationOptionsModel) -> Seq<Member> {
        CompletionOptions::members(
            TextDocumentRegistrationOptions::members(
                before,
                value.text_document_registration_options,
            ),
            value.completion_options,
        )
    }

    open spec fn read(members: Seq<Member>) -> Result<CompletionRegistrationOptionsModel, CodecError> {
        let text_document_registration_options = TextDocumentRegistrationOptions::read(members);
        let completion_options = CompletionOptions::read(members);
        if text_document_registration_options is Err {
            Err(text_document_registration_options->Err_0)
        } else if completion_options is Err {
            Err(completion_options->Err_0)
        } else {
            Ok(
                CompletionRegistrationOptionsModel {
                    text_document_registration_options: text_document_registration_options->Ok_0,
                    completion_options: completion_options->Ok_0,
                },
            )
        }
    }

    fn write(&self, members: &mut Vec<(String, Json)>) {
        self.text_document_registration_options.write(members);
        self.completion_options.write(members);
    }

    fn scan(members: &Vec<(String, Json)>) -> (result: Result<CompletionRegistrationOptions, CodecError>) {
        let text_document_registration_options = TextDocumentRegistrationOptions::scan(members);
        let completion_options = CompletionOptions::scan(members);
        if let Err(error) = text_document_registration_options {
            Err(error)
        } else if let Err(error) = completion_options {
            Err(error)
        } else {
            Ok(
                CompletionRegistrationOptions {
                    text_document_registration_options: text_document_registration_options.unwrap(),
                    completion_options: completion_options.unwrap(),
                },
            )
        }
    }
}

impl CompletionRegistrationOptions {
    /// Every value comes back unchanged from the document that stands for it.
    pub proof fn lemma_survives(value: CompletionRegistrationOptionsModel)
        ensures
            survives::<CompletionRegistrationOptions>(value),
    {
        broadcast use group_lookup;

        reveal(optional);
        reveal_strlit("documentSelector");
        reveal_strlit("resolveProvider");
        reveal_strlit("triggerCharacters");
        reveal_strlit("workDoneProgress");
        if let Some(inner) = value.text_document_registration_options.document_selector {
            assert forall|i: int| 0 <= i < inner.len() implies survives::<DocumentFilter>(
                #[trigger] inner[i],
            ) by {
                DocumentFilter::lemma_survives(inner[i]);
            }
            lemma_sequence_round_trip::<DocumentFilter>(inner);
        }
        if let Some(inner) = value.completion_options.trigger_characters {
            lemma_sequence_round_trip::<String>(inner);
        }
    }
}

#[derive(Debug, PartialEq, Clone)]
pub enum CompletionResponse {
    Array(Vec<CompletionItem>),
    List(CompletionList),
}

/// What a [`CompletionResponse`] stands for.
pub enum CompletionResponseModel {
    Array(Seq<CompletionItemModel>),
    List(CompletionListModel),
}

impl DeepView for CompletionResponse {
    type V = CompletionResponseModel;

    open spec fn deep_view(&self) -> CompletionResponseModel {
        match self {
            CompletionResponse::Array(value) => CompletionResponseModel::Array(value.deep_view()),
            CompletionResponse::List(value) => CompletionResponseModel::List(value.deep_view()),
        }
    }
}

impl Codec for CompletionResponse {
    open spec fn encode(value: CompletionResponseModel) -> JsonValue {
        match value {
            CompletionResponseModel::Array(value) => Vec::<CompletionItem>::encode(value),
            CompletionResponseModel::List(value) => CompletionList::encode(value),
        }
    }

    open spec fn decode(json: JsonValue) -> Result<CompletionResponseModel, CodecError> {
        if let Ok(value) = Vec::<CompletionItem>::decode(json) {
            Ok(CompletionResponseModel::Array(value))
        } else if let Ok(value) = CompletionList::decode(json) {
            Ok(CompletionResponseModel::List(value))
        } else {
            Err(CodecError::NoVariantMatched)
        }
    }

    fn serialize(&self) -> (json: Json) {
        match self {
            CompletionResponse::Array(value) => value.serialize(),
            CompletionResponse::List(value) => value.serialize(),
        }
    }

    fn deserialize(json: &Json) -> (result: Result<CompletionResponse, CodecError>) {
        if let Ok(value) = Vec::<CompletionItem>::deserialize(json) {
            Ok(CompletionResponse::Array(value))
        } else if let Ok(value) = CompletionList::deserialize(json) {
            Ok(CompletionResponse::List(value))
        } else {
            Err(CodecError::NoVariantMatched)
        }
    }
}

impl CompletionResponse {
    /// A value comes back unchanged from its document exactly when its
    /// payload does and no variant declared before its own reads the
    /// payload's document.
    pub proof fn lemma_round_trip(value: CompletionResponseModel)
        ensures
            survives::<CompletionResponse>(value) <==> match value {
                CompletionResponseModel::Array(v) => survives::<Vec<CompletionItem>>(v),
                CompletionResponseModel::List(v) => Vec::<CompletionItem>::decode(CompletionList::encode(v)) is Err
                    && survives::<CompletionList>(v),
            },
    {
    }
}

impl From<Vec<CompletionItem>> for CompletionResponse {
    fn from(items: Vec<CompletionItem>) -> (result: CompletionResponse) {
        CompletionResponse::Array(items)
    }
}

impl FromSpecImpl<Vec<CompletionItem>> for CompletionResponse {
    open spec fn obeys_from_spec() -> bool {
        true
    }

    open spec fn from_spec(items: Vec<CompletionItem>) -> CompletionResponse {
        CompletionResponse::Array(items)
    }
}

impl From<CompletionList> for CompletionResponse {
    fn from(list: CompletionList) -> (result: CompletionResponse) {
        CompletionResponse::List(list)
    }
}

impl FromSpecImpl<CompletionList> for CompletionResponse {
    open spec fn obeys_from_spec() -> bool {
        true
    }

    open spec fn from_spec(list: CompletionList) -> CompletionResponse {
        CompletionResponse::List(list)
    }
}

#[derive(Debug, PartialEq, Clone)]
pub struct CompletionParams {
    /// Its members are written among those of this value.
    pub text_document_position: TextDocumentPositionParams,
    /// Its members are written among those of this value.
    pub work_done_progress_params: WorkDoneProgressParams,
    /// Its members are written among those of this value.
    pub partial_result_params: PartialResultParams,
    pub context: Option<CompletionContext>,
}

/// What a [`CompletionParams`] stands for.
pub struct CompletionParamsModel {
    pub text_document_position: TextDocumentPositionParamsModel,
    pub work_done_progress_params: WorkDoneProgressParamsModel,
    pub partial_result_params: PartialResultParamsModel,
    pub context: Option<CompletionContextModel>,
}

impl DeepView for CompletionParams {
    type V = CompletionParamsModel;

    open spec fn deep_view(&self) -> CompletionParamsModel {
        CompletionParamsModel {
            text_document_position: self.text_document_position.deep_view(),
            work_done_progress_params: self.work_done_progress_params.deep_view(),
            partial_result_params: self.partial_result_params.deep_view(),
            context: self.context.deep_view(),
        }
    }
}

impl Record for CompletionParams {
    open spec fn members(before: Seq<Member>, value: CompletionParamsModel) -> Seq<Member> {
        PartialResultParams::members(
            WorkDoneProgressParams::members(
                TextDocumentPositionParams::members(before, value.text_document_position),
                value.work_done_progress_params,
            ),
            value.partial_result_params,
        ) + optional_field::<CompletionContext>("context"@, value.context)
    }

    open spec fn read(members: Seq<Member>) -> Result<CompletionParamsModel, CodecError> {
        let text_document_position = TextDocumentPositionParams::read(members);
        let work_done_progress_params = WorkDoneProgressParams::read(members);
        let partial_result_params = PartialResultParams::read(members);
        let context = optional::<CompletionContext>(members, "context"@);
        if text_document_position is Err {
            Err(text_document_position->Err_0)
        } else if work_done_progress_params is Err {
            Err(work_done_progress_params->Err_0)
        } else if partial_result_params is Err {
            Err(partial_result_params->Err_0)
        } else if context is Err {
            Err(context->Err_0)
        } else {
            Ok(
                CompletionParamsModel {
                    text_document_position: text_document_position->Ok_0,
                    work_done_progress_params: work_done_progress_params->Ok_0,
                    partial_result_params: partial_result_params->Ok_0,
                    context: context->Ok_0,
                },
            )
        }
    }

    fn write(&self, members: &mut Vec<(String, Json)>) {
        self.text_document_position.write(members);
        self.work_done_progress_params.write(members);
        self.partial_result_params.write(members);
        put_optional(members, "context", &self.context);
    }

    fn scan(members: &Vec<(String, Json)>) -> (result: Result<CompletionParams, CodecError>) {
        let text_document_position = TextDocumentPositionParams::scan(members);
        let work_done_progress_params = WorkDoneProgressParams::scan(members);
        let partial_result_params = PartialResultParams::scan(members);
        let context = get_optional::<CompletionContext>(members, "context");
        if let Err(error) = text_document_position {
            Err(error)
        } else if let Err(error) = work_done_progress_params {
            Err(error)
        } else if let Err(error) = partial_result_params {
            Err(error)
        } else if let Err(error) = context {
            Err(error)
        } else {
            Ok(
                CompletionParams {
                    text_document_position: text_document_position.unwrap(),
                    work_done_progress_params: work_done_progress_params.unwrap(),
                    partial_result_params: partial_result_params.unwrap(),
                    context: context.unwrap(),
                },
            )
        }
    }
}

impl CompletionParams {
    /// A value comes back unchanged from the document that stands for it
    /// where its fields meet what is asked of them here.
    pub proof fn lemma_round_trip(value: CompletionParamsModel)
        requires
            survives::<TextDocumentIdentifier>(value.text_document_position.text_document),
        ensures
            survives::<CompletionParams>(value),
    {
        broadcast use group_lookup;

        reveal(required);
        reveal(optional);
        reveal_strlit("textDocument");
        reveal_strlit("position");
        reveal_strlit("workDoneToken");
        reveal_strlit("partialResultToken");
        reveal_strlit("context");
        Position::lemma_survives(value.text_document_position.position);
        if let Some(inner) = value.work_done_progress_params.work_done_token {
            NumberOrString::lemma_survives(inner);
        }
        if let Some(inner) = value.partial_result_params.partial_result_token {
            NumberOrString::lemma_survives(inner);
        }
        if let Some(inner) = value.context {
            CompletionContext::lemma_survives(inner);
        }
    }
}

#[derive(Debug, PartialEq, Clone)]
pub struct CompletionContext {
    /// How the completion was triggered.
    pub trigger_kind: CompletionTriggerKind,
    /// The trigger character (a single character) that has trigger code complete.
    /// Is undefined if `triggerKind !== CompletionTriggerKind.TriggerCharacter`
    pub trigger_character: Option<String>,
}

/// What a [`CompletionContext`] stands for.
pub struct CompletionContextModel {
    pub trigger_kind: CompletionTriggerKind,
    pub trigger_character: Option<Seq<char>>,
}

impl DeepView for CompletionContext {
    type V = CompletionContextModel;

    open spec fn deep_view(&self) -> CompletionContextModel {
        CompletionContextModel {
            trigger_kind: self.trigger_kind.deep_view(),
            trigger_character: self.trigger_character.deep_view(),
        }
    }
}

impl Record for CompletionContext {
    open spec fn members(before: Seq<Member>, value: CompletionContextModel) -> Seq<Member> {
        before + field::<CompletionTriggerKind>("triggerKind"@, value.trigger_kind)
            + optional_field::<String>("triggerCharacter"@, value.trigger_character)
    }

    open spec fn read(members: Seq<Member>) -> Result<CompletionContextModel, CodecError> {
        let trigger_kind = required::<CompletionTriggerKind>(members, "triggerKind"@);
        let trigger_character = optional::<String>(members, "triggerCharacter"@);
        if trigger_kind is Err {
            Err(trigger_kind->Err_0)
        } else if trigger_character is Err {
            Err(trigger_character->Err_0)
        } else {
            Ok(
                CompletionContextModel {
                    trigger_kind: trigger_kind->Ok_0,
                    trigger_character: trigger_character->Ok_0,
                },
            )
        }
    }

    fn write(&self, members: &mut Vec<(String, Json)>) {
        put(members, "triggerKind", &self.trigger_kind);
        put_optional(members, "triggerCharacter", &self.trigger_character);
    }

    fn scan(members: &Vec<(String, Json)>) -> (result: Result<CompletionContext, CodecError>) {
        let trigger_kind = get::<CompletionTriggerKind>(members, "triggerKind");
        let trigger_character = get_optional::<String>(members, "triggerCharacter");
        if let Err(error) = trigger_kind {
            Err(error)
        } else if let Err(error) = trigger_character {
            Err(error)
        } else {
            Ok(
                CompletionContext {
                    trigger_kind: trigger_kind.unwrap(),
                    trigger_character: trigger_character.unwrap(),
                },
            )
        }
    }
}

impl CompletionContext {
    /// Every value comes back unchanged from the document that stands for it.
    pub proof fn lemma_survives(value: CompletionContextModel)
        ensures
            survives::<CompletionContext>(value),
    {
        broadcast use group_lookup;

        reveal(required);
        reveal(optional);
        reveal_strlit("triggerKind");
        reveal_strlit("triggerCharacter");
        CompletionTriggerKind::lemma_survives(value.trigger_kind);
    }
}

/// How a completion was triggered.
#[derive(Debug, PartialEq, Clone, Copy)]
pub enum CompletionTriggerKind {
    Invoked,
    TriggerCharacter,
    TriggerForIncompleteCompletions,
}

impl DeepView for CompletionTriggerKind {
    type V = CompletionTriggerKind;

    open spec fn deep_view(&self) -> CompletionTriggerKind {
        *self
    }
}

impl CompletionTriggerKind {
    /// The integer that stands for a variant on the wire.
    pub open spec fn number(self) -> u8 {
        match self {
            CompletionTriggerKind::Invoked => 1,
            CompletionTriggerKind::TriggerCharacter => 2,
            CompletionTriggerKind::TriggerForIncompleteCompletions => 3,
        }
    }

    /// The variant that an integer stands for, if any.
    pub open spec fn variant(number: int) -> Option<CompletionTriggerKind> {
        if number == 1 {
            Some(CompletionTriggerKind::Invoked)
        } else if number == 2 {
            Some(CompletionTriggerKind::TriggerCharacter)
        } else if number == 3 {
            Some(CompletionTriggerKind::TriggerForIncompleteCompletions)
        } else {
            None
        }
    }

    /// Gives the integer that stands for this variant on the wire.
    pub fn to_number(self) -> (number: u8)
        ensures
            number == self.number(),
    {
        match self {
            CompletionTriggerKind::Invoked => 1,
            CompletionTriggerKind::TriggerCharacter => 2,
            CompletionTriggerKind::TriggerForIncompleteCompletions => 3,
        }
    }

    /// Gives the variant that an integer stands for, if any.
    pub fn from_number(number: u64) -> (variant: Option<CompletionTriggerKind>)
        ensures
            variant == Self::variant(number as int),
    {
        if number == 1 {
            Some(CompletionTriggerKind::Invoked)
        } else if number == 2 {
            Some(CompletionTriggerKind::TriggerCharacter)
        } else if number == 3 {
            Some(CompletionTriggerKind::TriggerForIncompleteCompletions)
        } else {
            None
        }
    }

    /// Every variant comes back unchanged from the integer that stands for it.
    pub proof fn lemma_survives(value: CompletionTriggerKind)
        ensures
            survives::<CompletionTriggerKind>(value),
    {
    }

    /// An integer is refused exactly when it names no variant, and the
    /// error then holds it together with the bounds of those that do.
    pub proof fn lemma_refusal(number: Number)
        requires
            !(number is Float),
        ensures
            CompletionTriggerKind::decode(JsonValue::Number(number)) is Err <==> !(number matches Number::PosInt(n)
                && 1 <= n <= 3),
            CompletionTriggerKind::decode(JsonValue::Number(number)) is Err ==> CompletionTriggerKind::decode(
                JsonValue::Number(number),
            ) == Err::<CompletionTriggerKind, CodecError>(
                CodecError::InvalidEnumValue { value: number, lowest: 1, highest: 3 },
            ),
    {
    }
}

impl Codec for CompletionTriggerKind {
    open spec fn encode(value: CompletionTriggerKind) -> JsonValue {
        JsonValue::Number(Number::PosInt(value.number() as u64))
    }

    open spec fn decode(json: JsonValue) -> Result<CompletionTriggerKind, CodecError> {
        match json {
            JsonValue::Number(Number::PosInt(n)) => match Self::variant(n as int) {
                Some(variant) => Ok(variant),
                None => Err(
                    CodecError::InvalidEnumValue { value: Number::PosInt(n), lowest: 1, highest: 3 },
                ),
            },
            JsonValue::Number(Number::NegInt(n)) => Err(
                CodecError::InvalidEnumValue { value: Number::NegInt(n), lowest: 1, highest: 3 },
            ),
            _ => Err(CodecError::UnexpectedType),
        }
    }

    fn serialize(&self) -> (json: Json) {
        Json::Number(Number::PosInt(self.to_number() as u64))
    }

    fn deserialize(json: &Json) -> (result: Result<CompletionTriggerKind, CodecError>) {
        match json {
            Json::Number(Number::PosInt(n)) => match Self::from_number(*n) {
                Some(variant) => Ok(variant),
                None => Err(
                    CodecError::InvalidEnumValue { value: Number::PosInt(*n), lowest: 1, highest: 3 },
                ),
            },
            Json::Number(Number::NegInt(n)) => Err(
                CodecError::InvalidEnumValue { value: Number::NegInt(*n), lowest: 1, highest: 3 },
            ),
            _ => Err(CodecError::UnexpectedType),
        }
    }
}

/// Represents a collection of [completion items](#CompletionItem) to be presented
/// in the editor.
#[derive(Debug, PartialEq, Clone, Default)]
pub struct CompletionList {
    /// This list it not complete. Further typing should result in recomputing
    /// this list.
    pub is_incomplete: bool,
    /// The completion items.
    pub items: Vec<CompletionItem>,
}

/// What a [`CompletionList`] stands for.
pub struct CompletionListModel {
    pub is_incomplete: bool,
    pub items: Seq<CompletionItemModel>,
}

impl DeepView for CompletionList {
    type V = CompletionListModel;

    open spec fn deep_view(&self) -> CompletionListModel {
        CompletionListModel {
            is_incomplete: self.is_incomplete.deep_view(),
            items: self.items.deep_view(),
        }
    }
}

impl Record for CompletionList {
    open spec fn members(before: Seq<Member>, value: CompletionListModel) -> Seq<Member> {
        before + field::<bool>("isIncomplete"@, value.is_incomplete)
            + field::<Vec<CompletionItem>>("items"@, value.items)
    }

    open spec fn read(members: Seq<Member>) -> Result<CompletionListModel, CodecError> {
        let is_incomplete = required::<bool>(members, "isIncomplete"@);
        let items = required::<Vec<CompletionItem>>(members, "items"@);
        if is_incomplete is Err {
            Err(is_incomplete->Err_0)
        } else if items is Err {
            Err(items->Err_0)
        } else {
            Ok(
                CompletionListModel {
                    is_incomplete: is_incomplete->Ok_0,
                    items: items->Ok_0,
                },
            )
        }
    }

    fn write(&self, members: &mut Vec<(String, Json)>) {
        put(members, "isIncomplete", &self.is_incomplete);
        put(members, "items", &self.items);
    }

    fn scan(members: &Vec<(String, Json)>) -> (result: Result<CompletionList, CodecError>) {
        let is_incomplete = get::<bool>(members, "isIncomplete");
        let items = get::<Vec<CompletionItem>>(members, "items");
        if let Err(error) = is_incomplete {
            Err(error)
        } else if let Err(error) = items {
            Err(error)
        } else {
            Ok(
                CompletionList {
                    is_incomplete: is_incomplete.unwrap(),
                    items: items.unwrap(),
                },
            )
        }
    }
}

impl CompletionList {
    /// A value comes back unchanged from the document that stands for it
    /// where its fields meet what is asked of them here.
    pub proof fn lemma_round_trip(value: CompletionListModel)
        requires
            survives::<Vec<CompletionItem>>(value.items),
        ensures
            survives::<CompletionList>(value),
    {
        broadcast use group_lookup;

        reveal(required);
        reveal_strlit("isIncomplete");
        reveal_strlit("items");
    }
}

#[derive(Debug, PartialEq, Eq, Clone)]
pub enum Documentation {
    String(String),
    MarkupContent(MarkupContent),
}

/// What a [`Documentation`] stands for.
pub enum DocumentationModel {
    String(Seq<char>),
    MarkupContent(MarkupContentModel),
}

impl DeepView for Documentation {
    type V = DocumentationModel;

    open spec fn deep_view(&self) -> DocumentationModel {
        match self {
            Documentation::String(value) => DocumentationModel::String(value.deep_view()),
            Documentation::MarkupContent(value) => DocumentationModel::MarkupContent(value.deep_view()),
        }
    }
}

impl Codec for Documentation {
    open spec fn encode(value: DocumentationModel) -> JsonValue {
        match value {
            DocumentationModel::String(value) => String::encode(value),
            DocumentationModel::MarkupContent(value) => MarkupContent::encode(value),
        }
    }

    open spec fn decode(json: JsonValue) -> Result<DocumentationModel, CodecError> {
        if let Ok(value) = String::decode(json) {
            Ok(DocumentationModel::String(value))
        } else if let Ok(value) = MarkupContent::decode(json) {
            Ok(DocumentationModel::MarkupContent(value))
        } else {
            Err(CodecError::NoVariantMatched)
        }
    }

    fn serialize(&self) -> (json: Json) {
        match self {
            Documentation::String(value) => value.serialize(),
            Documentation::MarkupContent(value) => value.serialize(),
        }
    }

    fn deserialize(json: &Json) -> (result: Result<Documentation, CodecError>) {
        if let Ok(value) = String::deserialize(json) {
            Ok(Documentation::String(value))
        } else if let Ok(value) = MarkupContent::deserialize(json) {
            Ok(Documentation::MarkupContent(value))
        } else {
            Err(CodecError::NoVariantMatched)
        }
    }
}

impl Documentation {
    /// A value comes back unchanged from its document exactly when its
    /// payload does and no variant declared before its own reads the
    /// payload's document.
    pub proof fn lemma_round_trip(value: DocumentationModel)
        ensures
            survives::<Documentation>(value) <==> match value {
                DocumentationModel::String(v) => survives::<String>(v),
                DocumentationModel::MarkupContent(v) => String::decode(MarkupContent::encode(v)) is Err
                    && survives::<MarkupContent>(v),
            },
    {
    }

    /// Every value comes back unchanged from the document that stands for it.
    pub proof fn lemma_survives(value: DocumentationModel)
        ensures
            survives::<Documentation>(value),
    {
        broadcast use group_lookup;

        reveal(required);
        reveal(optional);
        reveal_strlit("kind");
        reveal_strlit("value");
        match value {
            DocumentationModel::String(_) => {},
            DocumentationModel::MarkupContent(v) => {
                MarkupContent::lemma_survives(v);
            },
        }
    }
}

#[derive(Debug, PartialEq, Clone, Default)]
pub struct CompletionItem {
    /// The label of this completion item. By default
    /// also the text that is inserted when selecting
    /// this completion.
    pub label: String,
    /// The kind of this completion item. Based of the kind
    /// an icon is chosen by the editor.
    pub kind: Option<CompletionItemKind>,
    /// A human-readable string with additional information
    /// about this item, like type or symbol information.
    pub detail: Option<String>,
    /// A human-readable string that represents a doc-comment.
    pub documentation: Option<Documentation>,
    /// Indicates if this item is deprecated.
    pub deprecated: Option<bool>,
    /// Select this item when showing.
    pub preselect: Option<bool>,
    /// A string that shoud be used when comparing this item
    /// with other items. When `falsy` the label is used.
    pub sort_text: Option<String>,
    /// A string that should be used when filtering a set of
    /// completion items. When `falsy` the label is used.
    pub filter_text: Option<String>,
    /// A string that should be inserted a document when selecting
    /// this completion. When `falsy` the label is used.
    pub insert_text: Option<String>,
    /// The format of the insert text. The format applies to both the `insertText` property
    /// and the `newText` property of a provided `textEdit`.
    pub insert_text_format: Option<InsertTextFormat>,
    /// An edit which is applied to a document when selecting
    /// this completion. When an edit is provided the value of
    /// insertText is ignored.
    ///
    /// Most editors support two different operation when accepting a completion item. One is to insert a
    /// completion text and the other is to replace an existing text with a competion text. Since this can
    /// usually not predetermend by a server it can report both ranges. Clients need to signal support for
    /// `InsertReplaceEdits` via the `textDocument.completion.insertReplaceSupport` client capability
    /// property.
    ///
    /// *Note 1:* The text edit's range as well as both ranges from a insert replace edit must be a
    /// [single line] and they must contain the position at which completion has been requested.
    /// *Note 2:* If an `InsertReplaceEdit` is returned the edit's insert range must be a prefix of
    /// the edit's replace range, that means it must be contained and starting at the same position.
    ///
    /// @since 3.16.0 additional type `InsertReplaceEdit` - Proposed state
    pub text_edit: Option<CompletionTextEdit>,
    /// An optional array of additional text edits that are applied when
    /// selecting this completion. Edits must not overlap with the main edit
    /// nor with themselves.
    pub additional_text_edits: Option<Vec<TextEdit>>,
    /// An optional command that is executed *after* inserting this completion. *Note* that
    /// additional modifications to the current document should be described with the
    /// additionalTextEdits-property.
    pub command: Option<Command>,
    /// An data entry field that is preserved on a completion item between
    /// a completion and a completion resolve request.
    pub data: Option<Json>,
    /// Tags for this completion item.
    pub tags: Option<Vec<CompletionItemTag>>,
}

/// What a [`CompletionItem`] stands for.
pub struct CompletionItemModel {
    pub label: Seq<char>,
    pub kind: Option<CompletionItemKind>,
    pub detail: Option<Seq<char>>,
    pub documentation: Option<DocumentationModel>,
    pub deprecated: Option<bool>,
    pub preselect: Option<bool>,
    pub sort_text: Option<Seq<char>>,
    pub filter_text: Option<Seq<char>>,
    pub insert_text: Option<Seq<char>>,
    pub insert_text_format: Option<InsertTextFormat>,
    pub text_edit: Option<CompletionTextEditModel>,
    pub additional_text_edits: Option<Seq<TextEditModel>>,
    pub command: Option<CommandModel>,
    pub data: Option<JsonValue>,
    pub tags: Option<Seq<CompletionItemTag>>,
}

impl DeepView for CompletionItem {
    type V = CompletionItemModel;

    open spec fn deep_view(&self) -> CompletionItemModel {
        CompletionItemModel {
            label: self.label.deep_view(),
            kind: self.kind.deep_view(),
            detail: self.detail.deep_view(),
            documentation: self.documentation.deep_view(),
            deprecated: self.deprecated.deep_view(),
            preselect: self.preselect.deep_view(),
            sort_text: self.sort_text.deep_view(),
            filter_text: self.filter_text.deep_view(),
            insert_text: self.insert_text.deep_view(),
            insert_text_format: self.insert_text_format.deep_view(),
            text_edit: self.text_edit.deep_view(),
            additional_text_edits: self.additional_text_edits.deep_view(),
            command: self.command.deep_view(),
            data: self.data.deep_view(),
            tags: self.tags.deep_view(),
        }
    }
}

impl Record for CompletionItem {
    open spec fn members(before: Seq<Member>, value: CompletionItemModel) -> Seq<Member> {
        before + field::<String>("label"@, value.label)
            + optional_field::<CompletionItemKind>("kind"@, value.kind)
            + optional_field::<String>("detail"@, value.detail)
            + optional_field::<Documentation>("documentation"@, value.documentation)
            + optional_field::<bool>("deprecated"@, value.deprecated)
            + optional_field::<bool>("preselect"@, value.preselect)
            + optional_field::<String>("sortText"@, value.sort_text)
            + optional_field::<String>("filterText"@, value.filter_text)
            + optional_field::<String>("insertText"@, value.insert_text)
            + optional_field::<InsertTextFormat>("insertTextFormat"@, value.insert_text_format)
            + optional_field::<CompletionTextEdit>("textEdit"@, value.text_edit)
            + optional_field::<Vec<TextEdit>>("additionalTextEdits"@, value.additional_text_edits)
            + optional_field::<Command>("command"@, value.command)
            + optional_field::<Json>("data"@, value.data)
            + optional_field::<Vec<CompletionItemTag>>("tags"@, value.tags)
    }

    open spec fn read(members: Seq<Member>) -> Result<CompletionItemModel, CodecError> {
        let label = required::<String>(members, "label"@);
        let kind = optional::<CompletionItemKind>(members, "kind"@);
        let detail = optional::<String>(members, "detail"@);
        let documentation = optional::<Documentation>(members, "documentation"@);
        let deprecated = optional::<bool>(members, "deprecated"@);
        let preselect = optional::<bool>(members, "preselect"@);
        let sort_text = optional::<String>(members, "sortText"@);
        let filter_text = optional::<String>(members, "filterText"@);
        let insert_text = optional::<String>(members, "insertText"@);
        let insert_text_format = optional::<InsertTextFormat>(members, "insertTextFormat"@);
        let text_edit = optional::<CompletionTextEdit>(members, "textEdit"@);
        let additional_text_edits = optional::<Vec<TextEdit>>(members, "additionalTextEdits"@);
        let command = optional::<Command>(members, "command"@);
        let data = optional::<Json>(members, "data"@);
        let tags = optional::<Vec<CompletionItemTag>>(members, "tags"@);
        if label is Err {
            Err(label->Err_0)
        } else if kind is Err {
            Err(kind->Err_0)
        } else if detail is Err {
            Err(detail->Err_0)
        } else if documentation is Err {
            Err(documentation->Err_0)
        } else if deprecated is Err {
            Err(deprecated->Err_0)
        } else if preselect is Err {
            Err(preselect->Err_0)
        } else if sort_text is Err {
            Err(sort_text->Err_0)
        } else if filter_text is Err {
            Err(filter_text->Err_0)
        } else if insert_text is Err {
            Err(insert_text->Err_0)
        } else if insert_text_format is Err {
            Err(insert_text_format->Err_0)
        } else if text_edit is Err {
            Err(text_edit->Err_0)
        } else if additional_text_edits is Err {
            Err(additional_text_edits->Err_0)
        } else if command is Err {
            Err(command->Err_0)
        } else if data is Err {
            Err(data->Err_0)
        } else if tags is Err {
            Err(tags->Err_0)
        } else {
            Ok(
                CompletionItemModel {
                    label: label->Ok_0,
                    kind: kind->Ok_0,
                    detail: detail->Ok_0,
                    documentation: documentation->Ok_0,
                    deprecated: deprecated->Ok_0,
                    preselect: preselect->Ok_0,
                    sort_text: sort_text->Ok_0,
                    filter_text: filter_text->Ok_0,
                    insert_text: insert_text->Ok_0,
                    insert_text_format: insert_text_format->Ok_0,
                    text_edit: text_edit->Ok_0,
                    additional_text_edits: additional_text_edits->Ok_0,
                    command: command->Ok_0,
                    data: data->Ok_0,
                    tags: tags->Ok_0,
                },
            )
        }
    }

    fn write(&self, members: &mut Vec<(String, Json)>) {
        put(members, "label", &self.label);
        put_optional(members, "kind", &self.kind);
        put_optional(members, "detail", &self.detail);
        put_optional(members, "documentation", &self.documentation);
        put_optional(members, "deprecated", &self.deprecated);
        put_optional(members, "preselect", &self.preselect);
        put_optional(members, "sortText", &self.sort_text);
        put_optional(members, "filterText", &self.filter_text);
        put_optional(members, "insertText", &self.insert_text);
        put_optional(members, "insertTextFormat", &self.insert_text_format);
        put_optional(members, "textEdit", &self.text_edit);
        put_optional(members, "additionalTextEdits", &self.additional_text_edits);
        put_optional(members, "command", &self.command);
        put_optional(members, "data", &self.data);
        put_optional(members, "tags", &self.tags);
    }

    fn scan(members: &Vec<(String, Json)>) -> (result: Result<CompletionItem, CodecError>) {
        let label = get::<String>(members, "label");
        let kind = get_optional::<CompletionItemKind>(members, "kind");
        let detail = get_optional::<String>(members, "detail");
        let documentation = get_optional::<Documentation>(members, "documentation");
        let deprecated = get_optional::<bool>(members, "deprecated");
        let preselect = get_optional::<bool>(members, "preselect");
        let sort_text = get_optional::<String>(members, "sortText");
        let filter_text = get_optional::<String>(members, "filterText");
        let insert_text = get_optional::<String>(members, "insertText");
        let insert_text_format = get_optional::<InsertTextFormat>(members, "insertTextFormat");
        let text_edit = get_optional::<CompletionTextEdit>(members, "textEdit");
        let additional_text_edits = get_optional::<Vec<TextEdit>>(members, "additionalTextEdits");
        let command = get_optional::<Command>(members, "command");
        let data = get_optional::<Json>(members, "data");
        let tags = get_optional::<Vec<CompletionItemTag>>(members, "tags");
        if let Err(error) = label {
            Err(error)
        } else if let Err(error) = kind {
            Err(error)
        } else if let Err(error) = detail {
            Err(error)
        } else if let Err(error) = documentation {
            Err(error)
        } else if let Err(error) = deprecated {
            Err(error)
        } else if let Err(error) = preselect {
            Err(error)
        } else if let Err(error) = sort_text {
            Err(error)
        } else if let Err(error) = filter_text {
            Err(error)
        } else if let Err(error) = insert_text {
            Err(error)
        } else if let Err(error) = insert_text_format {
            Err(error)
        } else if let Err(error) = text_edit {
            Err(error)
        } else if let Err(error) = additional_text_edits {
            Err(error)
        } else if let Err(error) = command {
            Err(error)
        } else if let Err(error) = data {
            Err(error)
        } else if let Err(error) = tags {
            Err(error)
        } else {
            Ok(
                CompletionItem {
                    label: label.unwrap(),
                    kind: kind.unwrap(),
                    detail: detail.unwrap(),
                    documentation: documentation.unwrap(),
                    deprecated: deprecated.unwrap(),
                    preselect: preselect.unwrap(),
                    sort_text: sort_text.unwrap(),
                    filter_text: filter_text.unwrap(),
                    insert_text: insert_text.unwrap(),
                    insert_text_format: insert_text_format.unwrap(),
                    text_edit: text_edit.unwrap(),
                    additional_text_edits: additional_text_edits.unwrap(),
                    command: command.unwrap(),
                    data: data.unwrap(),
                    tags: tags.unwrap(),
                },
            )
        }
    }
}

impl CompletionItem {
    /// Create a CompletionItem with the minimum possible info (label and detail).
    pub fn new_simple(label: String, detail: String) -> (result: CompletionItem)
        ensures
            result == (CompletionItem {
                label,
                kind: None,
                detail: Some(detail),
                documentation: None,
                deprecated: None,
                preselect: None,
                sort_text: None,
                filter_text: None,
                insert_text: None,
                insert_text_format: None,
                text_edit: None,
                additional_text_edits: None,
                command: None,
                data: None,
                tags: None,
            }),
    {
        CompletionItem {
            label,
            kind: None,
            detail: Some(detail),
            documentation: None,
            deprecated: None,
            preselect: None,
            sort_text: None,
            filter_text: None,
            insert_text: None,
            insert_text_format: None,
            text_edit: None,
            additional_text_edits: None,
            command: None,
            data: None,
            tags: None,
        }
    }
}

/// The kind of a completion entry.
#[derive(Debug, PartialEq, Eq, Structural, Clone, Copy)]
pub enum CompletionItemKind {
    Text,
    Method,
    Function,
    Constructor,
    Field,
    Variable,
    Class,
    Interface,
    Module,
    Property,
    Unit,
    Value,
    Enum,
    Keyword,
    Snippet,
    Color,
    File,
    Reference,
    Folder,
    EnumMember,
    Constant,
    Struct,
    Event,
    Operator,
    TypeParameter,
}

impl DeepView for CompletionItemKind {
    type V = CompletionItemKind;

    open spec fn deep_view(&self) -> CompletionItemKind {
        *self
    }
}

impl CompletionItemKind {
    /// The integer that stands for a variant on the wire.
    pub open spec fn number(self) -> u8 {
        match self {
            CompletionItemKind::Text => 1,
            CompletionItemKind::Method => 2,
            CompletionItemKind::Function => 3,
            CompletionItemKind::Constructor => 4,
            CompletionItemKind::Field => 5,
            CompletionItemKind::Variable => 6,
            CompletionItemKind::Class => 7,
            CompletionItemKind::Interface => 8,
            CompletionItemKind::Module => 9,
            CompletionItemKind::Property => 10,
            CompletionItemKind::Unit => 11,
            CompletionItemKind::Value => 12,
            CompletionItemKind::Enum => 13,
            CompletionItemKind::Keyword => 14,
            CompletionItemKind::Snippet => 15,
            CompletionItemKind::Color => 16,
            CompletionItemKind::File => 17,
            CompletionItemKind::Reference => 18,
            CompletionItemKind::Folder => 19,
            CompletionItemKind::EnumMember => 20,
            CompletionItemKind::Constant => 21,
            CompletionItemKind::Struct => 22,
            CompletionItemKind::Event => 23,
            CompletionItemKind::Operator => 24,
            CompletionItemKind::TypeParameter => 25,
        }
    }

    /// The variant that an integer stands for, if any.
    pub open spec fn variant(number: int) -> Option<CompletionItemKind> {
        if number == 1 {
            Some(CompletionItemKind::Text)
        } else if number == 2 {
            Some(CompletionItemKind::Method)
        } else if number == 3 {
            Some(CompletionItemKind::Function)
        } else if number == 4 {
            Some(CompletionItemKind::Constructor)
        } else if number == 5 {
            Some(CompletionItemKind::Field)
        } else if number == 6 {
            Some(CompletionItemKind::Variable)
        } else if number == 7 {
            Some(CompletionItemKind::Class)
        } else if number == 8 {
            Some(CompletionItemKind::Interface)
        } else if number == 9 {
            Some(CompletionItemKind::Module)
        } else if number == 10 {
            Some(CompletionItemKind::Property)
        } else if number == 11 {
            Some(CompletionItemKind::Unit)
        } else if number == 12 {
            Some(CompletionItemKind::Value)
        } else if number == 13 {
            Some(CompletionItemKind::Enum)
        } else if number == 14 {
            Some(CompletionItemKind::Keyword)
        } else if number == 15 {
            Some(CompletionItemKind::Snippet)
        } else if number == 16 {
            Some(CompletionItemKind::Color)
        } else if number == 17 {
            Some(CompletionItemKind::File)
        } else if number == 18 {
            Some(CompletionItemKind::Reference)
        } else if number == 19 {
            Some(CompletionItemKind::Folder)
        } else if number == 20 {
            Some(CompletionItemKind::EnumMember)
        } else if number == 21 {
            Some(CompletionItemKind::Constant)
        } else if number == 22 {
            Some(CompletionItemKind::Struct)
        } else if number == 23 {
            Some(CompletionItemKind::Event)
        } else if number == 24 {
            Some(CompletionItemKind::Operator)
        } else if number == 25 {
            Some(CompletionItemKind::TypeParameter)
        } else {
            None
        }
    }

    /// Gives the integer that stands for this variant on the wire.
    pub fn to_number(self) -> (number: u8)
        ensures
            number == self.number(),
    {
        match self {
            CompletionItemKind::Text => 1,
            CompletionItemKind::Method => 2,
            CompletionItemKind::Function => 3,
            CompletionItemKind::Constructor => 4,
            CompletionItemKind::Field => 5,
            CompletionItemKind::Variable => 6,
            CompletionItemKind::Class => 7,
            CompletionItemKind::Interface => 8,
            CompletionItemKind::Module => 9,
            CompletionItemKind::Property => 10,
            CompletionItemKind::Unit => 11,
            CompletionItemKind::Value => 12,
            CompletionItemKind::Enum => 13,
            CompletionItemKind::Keyword => 14,
            CompletionItemKind::Snippet => 15,
            CompletionItemKind::Color => 16,
            CompletionItemKind::File => 17,
            CompletionItemKind::Reference => 18,
            CompletionItemKind::Folder => 19,
            CompletionItemKind::EnumMember => 20,
            CompletionItemKind::Constant => 21,
            CompletionItemKind::Struct => 22,
            CompletionItemKind::Event => 23,
            CompletionItemKind::Operator => 24,
            CompletionItemKind::TypeParameter => 25,
        }
    }

    /// Gives the variant that an integer stands for, if any.
    pub fn from_number(number: u64) -> (variant: Option<CompletionItemKind>)
        ensures
            variant == Self::variant(number as int),
    {
        if number == 1 {
            Some(CompletionItemKind::Text)
        } else if number == 2 {
            Some(CompletionItemKind::Method)
        } else if number == 3 {
            Some(CompletionItemKind::Function)
        } else if number == 4 {
            Some(CompletionItemKind::Constructor)
        } else if number == 5 {
            Some(CompletionItemKind::Field)
        } else if number == 6 {
            Some(CompletionItemKind::Variable)
        } else if number == 7 {
            Some(CompletionItemKind::Class)
        } else if number == 8 {
            Some(CompletionItemKind::Interface)
        } else if number == 9 {
            Some(CompletionItemKind::Module)
        } else if number == 10 {
            Some(CompletionItemKind::Property)
        } else if number == 11 {
            Some(CompletionItemKind::Unit)
        } else if number == 12 {
            Some(CompletionItemKind::Value)
        } else if number == 13 {
            Some(CompletionItemKind::Enum)
        } else if number == 14 {
            Some(CompletionItemKind::Keyword)
        } else if number == 15 {
            Some(CompletionItemKind::Snippet)
        } else if number == 16 {
            Some(CompletionItemKind::Color)
        } else if number == 17 {
            Some(CompletionItemKind::File)
        } else if number == 18 {
            Some(CompletionItemKind::Reference)
        } else if number == 19 {
            Some(CompletionItemKind::Folder)
        } else if number == 20 {
            Some(CompletionItemKind::EnumMember)
        } else if number == 21 {
            Some(CompletionItemKind::Constant)
        } else if number == 22 {
            Some(CompletionItemKind::Struct)
        } else if number == 23 {
            Some(CompletionItemKind::Event)
        } else if number == 24 {
            Some(CompletionItemKind::Operator)
        } else if number == 25 {
            Some(CompletionItemKind::TypeParameter)
        } else {
            None
        }
    }

    /// Every variant comes back unchanged from the integer that stands for it.
    pub proof fn lemma_survives(value: CompletionItemKind)
        ensures
            survives::<CompletionItemKind>(value),
    {
    }

    /// An integer is refused exactly when it names no variant, and the
    /// error then holds it together with the bounds of those that do.
    pub proof fn lemma_refusal(number: Number)
        requires
            !(number is Float),
        ensures
            CompletionItemKind::decode(JsonValue::Number(number)) is Err <==> !(number matches Number::PosInt(n)
                && 1 <= n <= 25),
            CompletionItemKind::decode(JsonValue::Number(number)) is Err ==> CompletionItemKind::decode(
                JsonValue::Number(number),
            ) == Err::<CompletionItemKind, CodecError>(
                CodecError::InvalidEnumValue { value: number, lowest: 1, highest: 25 },
            ),
    {
    }
}

impl Codec for CompletionItemKind {
    open spec fn encode(value: CompletionItemKind) -> JsonValue {
        JsonValue::Number(Number::PosInt(value.number() as u64))
    }

    open spec fn decode(json: JsonValue) -> Result<CompletionItemKind, CodecError> {
        match json {
            JsonValue::Number(Number::PosInt(n)) => match Self::variant(n as int) {
                Some(variant) => Ok(variant),
                None => Err(
                    CodecError::InvalidEnumValue { value: Number::PosInt(n), lowest: 1, highest: 25 },
                ),
            },
            JsonValue::Number(Number::NegInt(n)) => Err(
                CodecError::InvalidEnumValue { value: Number::NegInt(n), lowest: 1, highest: 25 },
            ),
            _ => Err(CodecError::UnexpectedType),
        }
    }

    fn serialize(&self) -> (json: Json) {
        Json::Number(Number::PosInt(self.to_number() as u64))
    }

    fn deserialize(json: &Json) -> (result: Result<CompletionItemKind, CodecError>) {
        match json {
            Json::Number(Number::PosInt(n)) => match Self::from_number(*n) {
                Some(variant) => Ok(variant),
                None => Err(
                    CodecError::InvalidEnumValue { value: Number::PosInt(*n), lowest: 1, highest: 25 },
                ),
            },
            Json::Number(Number::NegInt(n)) => Err(
                CodecError::InvalidEnumValue { value: Number::NegInt(*n), lowest: 1, highest: 25 },
            ),
            _ => Err(CodecError::UnexpectedType),
        }
    }
}

/// Defines how to interpret the insert text in a completion item
#[derive(Debug, PartialEq, Eq, Structural, Clone, Copy)]
pub enum InsertTextFormat {
    PlainText,
    Snippet,
}

impl DeepView for InsertTextFormat {
    type V = InsertTextFormat;

    open spec fn deep_view(&self) -> InsertTextFormat {
        *self
    }
}

impl InsertTextFormat {
    /// The integer that stands for a variant on the wire.
    pub open spec fn number(self) -> u8 {
        match self {
            InsertTextFormat::PlainText => 1,
            InsertTextFormat::Snippet => 2,
        }
    }

    /// The variant that an integer stands for, if any.
    pub open spec fn variant(number: int) -> Option<InsertTextFormat> {
        if number == 1 {
            Some(InsertTextFormat::PlainText)
        } else if number == 2 {
            Some(InsertTextFormat::Snippet)
        } else {
            None
        }
    }

    /// Gives the integer that stands for this variant on the wire.
    pub fn to_number(self) -> (number: u8)
        ensures
            number == self.number(),
    {
        match self {
            InsertTextFormat::PlainText => 1,
            InsertTextFormat::Snippet => 2,
        }
    }

    /// Gives the variant that an integer stands for, if any.
    pub fn from_number(number: u64) -> (variant: Option<InsertTextFormat>)
        ensures
            variant == Self::variant(number as int),
    {
        if number == 1 {
            Some(InsertTextFormat::PlainText)
        } else if number == 2 {
            Some(InsertTextFormat::Snippet)
        } else {
            None
        }
    }

    /// Every variant comes back unchanged from the integer that stands for it.
    pub proof fn lemma_survives(value: InsertTextFormat)
        ensures
            survives::<InsertTextFormat>(value),
    {
    }

    /// An integer is refused exactly when it names no variant, and the
    /// error then holds it together with the bounds of those that do.
    pub proof fn lemma_refusal(number: Number)
        requires
            !(number is Float),
        ensures
            InsertTextFormat::decode(JsonValue::Number(number)) is Err <==> !(number matches Number::PosInt(n)
                && 1 <= n <= 2),
            InsertTextFormat::decode(JsonValue::Number(number)) is Err ==> InsertTextFormat::decode(
                JsonValue::Number(number),
            ) == Err::<InsertTextFormat, CodecError>(
                CodecError::InvalidEnumValue { value: number, lowest: 1, highest: 2 },
            ),
    {
    }
}

impl Codec for InsertTextFormat {
    open spec fn encode(value: InsertTextFormat) -> JsonValue {
        JsonValue::Number(Number::PosInt(value.number() as u64))
    }

    open spec fn decode(json: JsonValue) -> Result<InsertTextFormat, CodecError> {
        match json {
            JsonValue::Number(Number::PosInt(n)) => match Self::variant(n as int) {
                Some(variant) => Ok(variant),
                None => Err(
                    CodecError::InvalidEnumValue { value: Number::PosInt(n), lowest: 1, highest: 2 },
                ),
            },
            JsonValue::Number(Number::NegInt(n)) => Err(
                CodecError::InvalidEnumValue { value: Number::NegInt(n), lowest: 1, highest: 2 },
            ),
            _ => Err(CodecError::UnexpectedType),
        }
    }

    fn serialize(&self) -> (json: Json) {
        Json::Number(Number::PosInt(self.to_number() as u64))
    }

    fn deserialize(json: &Json) -> (result: Result<InsertTextFormat, CodecError>) {
        match json {
            Json::Number(Number::PosInt(n)) => match Self::from_number(*n) {
                Some(variant) => Ok(variant),
                None => Err(
                    CodecError::InvalidEnumValue { value: Number::PosInt(*n), lowest: 1, highest: 2 },
                ),
            },
            Json::Number(Number::NegInt(n)) => Err(
                CodecError::InvalidEnumValue { value: Number::NegInt(*n), lowest: 1, highest: 2 },
            ),
            _ => Err(CodecError::UnexpectedType),
        }
    }
}

#[derive(Debug, PartialEq, Eq, Clone, Default)]
pub struct CompletionItemCapabilityResolveSupport {
    /// The properties that a client can resolve lazily.
    pub properties: Vec<String>,
}

/// What a [`CompletionItemCapabilityResolveSupport`] stands for.
pub struct CompletionItemCapabilityResolveSupportModel {
    pub properties: Seq<Seq<char>>,
}

impl DeepView for CompletionItemCapabilityResolveSupport {
    type V = CompletionItemCapabilityResolveSupportModel;

    open spec fn deep_view(&self) -> CompletionItemCapabilityResolveSupportModel {
        CompletionItemCapabilityResolveSupportModel {
            properties: self.properties.deep_view(),
        }
    }
}

impl Record for CompletionItemCapabilityResolveSupport {
    open spec fn members(before: Seq<Member>, value: CompletionItemCapabilityResolveSupportModel) -> Seq<Member> {
        before + field::<Vec<String>>("properties"@, value.properties)
    }

    open spec fn read(members: Seq<Member>) -> Result<CompletionItemCapabilityResolveSupportModel, CodecError> {
        let properties = required::<Vec<String>>(members, "properties"@);
        if properties is Err {
            Err(properties->Err_0)
        } else {
            Ok(
                CompletionItemCapabilityResolveSupportModel {
                    properties: properties->Ok_0,
                },
            )
        }
    }

    fn write(&self, members: &mut Vec<(String, Json)>) {
        put(members, "properties", &self.properties);
    }

    fn scan(members: &Vec<(String, Json)>) -> (result: Result<CompletionItemCapabilityResolveSupport, CodecError>) {
        let properties = get::<Vec<String>>(members, "properties");
        if let Err(error) = properties {
            Err(error)
        } else {
            Ok(
                CompletionItemCapabilityResolveSupport {
                    properties: properties.unwrap(),
                },
            )
        }
    }
}

impl CompletionItemCapabilityResolveSupport {
    /// Every value comes back unchanged from the document that stands for it.
    pub proof fn lemma_survives(value: CompletionItemCapabilityResolveSupportModel)
        ensures
            survives::<CompletionItemCapabilityResolveSupport>(value),
    {
        broadcast use group_lookup;

        reveal(required);
        reveal_strlit("properties");
        let list = value.properties;
        lemma_sequence_round_trip::<String>(list);
    }
}

#[derive(Debug, PartialEq, Eq, Clone, Default)]
pub struct InsertTextModeSupport {
    pub value_set: Vec<InsertTextMode>,
}

/// What a [`InsertTextModeSupport`] stands for.
pub struct InsertTextModeSupportModel {
    pub value_set: Seq<InsertTextMode>,
}

impl DeepView for InsertTextModeSupport {
    type V = InsertTextModeSupportModel;

    open spec fn deep_view(&self) -> InsertTextModeSupportModel {
        InsertTextModeSupportModel {
            value_set: self.value_set.deep_view(),
        }
    }
}

impl Record for InsertTextModeSupport {
    open spec fn members(before: Seq<Member>, value: InsertTextModeSupportModel) -> Seq<Member> {
        before + field::<Vec<InsertTextMode>>("valueSet"@, value.value_set)
    }

    open spec fn read(members: Seq<Member>) -> Result<InsertTextModeSupportModel, CodecError> {
        let value_set = required::<Vec<InsertTextMode>>(members, "valueSet"@);
        if value_set is Err {
            Err(value_set->Err_0)
        } else {
            Ok(
                InsertTextModeSupportModel {
                    value_set: value_set->Ok_0,
                },
            )
        }
    }

    fn write(&self, members: &mut Vec<(String, Json)>) {
        put(members, "valueSet", &self.value_set);
    }

    fn scan(members: &Vec<(String, Json)>) -> (result: Result<InsertTextModeSupport, CodecError>) {
        let value_set = get::<Vec<InsertTextMode>>(members, "valueSet");
        if let Err(error) = value_set {
            Err(error)
        } else {
            Ok(
                InsertTextModeSupport {
                    value_set: value_set.unwrap(),
                },
            )
        }
    }
}

impl InsertTextModeSupport {
    /// Every value comes back unchanged from the document that stands for it.
    pub proof fn lemma_survives(value: InsertTextModeSupportModel)
        ensures
            survives::<InsertTextModeSupport>(value),
    {
        broadcast use group_lookup;

        reveal(required);
        reveal_strlit("valueSet");
        let list = value.value_set;
        assert forall|i: int| 0 <= i < list.len() implies survives::<InsertTextMode>(
            #[trigger] list[i],
        ) by {
            InsertTextMode::lemma_survives(list[i]);
        }
        lemma_sequence_round_trip::<InsertTextMode>(list);
    }
}

/// How whitespace and indentation is handled during completion
/// item insertion.
///
/// @since 3.16.0
#[derive(Debug, PartialEq, Eq, Structural, Clone, Copy)]
pub enum InsertTextMode {
    /// The insertion or replace strings is taken as it is. If the
    /// value is multi line the lines below the cursor will be
    /// inserted using the indentation defined in the string value.
    /// The client will not apply any kind of adjustments to the
    /// string.
    AsIs,
    /// The editor adjusts leading whitespace of new lines so that
    /// they match the indentation up to the cursor of the line for
    /// which the item is accepted.
    ///
    /// Consider a line like this: <2tabs><cursor><3tabs>foo. Accepting a
    /// multi line completion item is indented using 2 tabs all
    /// following lines inserted will be indented using 2 tabs as well.
    AdjustIndentation,
}

impl DeepView for InsertTextMode {
    type V = InsertTextMode;

    open spec fn deep_view(&self) -> InsertTextMode {
        *self
    }
}

impl InsertTextMode {
    /// The integer that stands for a variant on the wire.
    pub open spec fn number(self) -> u8 {
        match self {
            InsertTextMode::AsIs => 1,
            InsertTextMode::AdjustIndentation => 2,
        }
    }

    /// The variant that an integer stands for, if any.
    pub open spec fn variant(number: int) -> Option<InsertTextMode> {
        if number == 1 {
            Some(InsertTextMode::AsIs)
        } else if number == 2 {
            Some(InsertTextMode::AdjustIndentation)
        } else {
            None
        }
    }

    /// Gives the integer that stands for this variant on the wire.
    pub fn to_number(self) -> (number: u8)
        ensures
            number == self.number(),
    {
        match self {
            InsertTextMode::AsIs => 1,
            InsertTextMode::AdjustIndentation => 2,
        }
    }

    /// Gives the variant that an integer stands for, if any.
    pub fn from_number(number: u64) -> (variant: Option<InsertTextMode>)
        ensures
            variant == Self::variant(number as int),
    {
        if number == 1 {
            Some(InsertTextMode::AsIs)
        } else if number == 2 {
            Some(InsertTextMode::AdjustIndentation)
        } else {
            None
        }
    }

    /// Every variant comes back unchanged from the integer that stands for it.
    pub proof fn lemma_survives(value: InsertTextMode)
        ensures
            survives::<InsertTextMode>(value),
    {
    }

    /// An integer is refused exactly when it names no variant, and the
    /// error then holds it together with the bounds of those that do.
    pub proof fn lemma_refusal(number: Number)
        requires
            !(number is Float),
        ensures
            InsertTextMode::decode(JsonValue::Number(number)) is Err <==> !(number matches Number::PosInt(n)
                && 1 <= n <= 2),
            InsertTextMode::decode(JsonValue::Number(number)) is Err ==> InsertTextMode::decode(
                JsonValue::Number(number),
            ) == Err::<InsertTextMode, CodecError>(
                CodecError::InvalidEnumValue { value: number, lowest: 1, highest: 2 },
            ),
    {
    }
}

impl Codec for InsertTextMode {
    open spec fn encode(value: InsertTextMode) -> JsonValue {
        JsonValue::Number(Number::PosInt(value.number() as u64))
    }

    open spec fn decode(json: JsonValue) -> Result<InsertTextMode, CodecError> {
        match json {
            JsonValue::Number(Number::PosInt(n)) => match Self::variant(n as int) {
                Some(variant) => Ok(variant),
                None => Err(
                    CodecError::InvalidEnumValue { value: Number::PosInt(n), lowest: 1, highest: 2 },
                ),
            },
            JsonValue::Number(Number::NegInt(n)) => Err(
                CodecError::InvalidEnumValue { value: Number::NegInt(n), lowest: 1, highest: 2 },
            ),
            _ => Err(CodecError::UnexpectedType),
        }
    }

    fn serialize(&self) -> (json: Json) {
        Json::Number(Number::PosInt(self.to_number() as u64))
    }

    fn deserialize(json: &Json) -> (result: Result<InsertTextMode, CodecError>) {
        match json {
            Json::Number(Number::PosInt(n)) => match Self::from_number(*n) {
                Some(variant) => Ok(variant),
                None => Err(
                    CodecError::InvalidEnumValue { value: Number::PosInt(*n), lowest: 1, highest: 2 },
                ),
            },
            Json::Number(Number::NegInt(n)) => Err(
                CodecError::InvalidEnumValue { value: Number::NegInt(*n), lowest: 1, highest: 2 },
            ),
            _ => Err(CodecError::UnexpectedType),
        }
    }
}

#[derive(Debug, PartialEq, Eq, Clone, Default)]
pub struct CompletionClientCapabilities {
    /// Whether completion supports dynamic registration.
    pub dynamic_registration: Option<bool>,
    /// The client supports the following `CompletionItem` specific
    /// capabilities.
    pub completion_item: Option<CompletionItemCapability>,
    pub completion_item_kind: Option<CompletionItemKindCapability>,
    /// The client supports to send additional context information for a
    /// `textDocument/completion` requestion.
    pub context_support: Option<bool>,
}

/// What a [`CompletionClientCapabilities`] stands for.
pub struct CompletionClientCapabilitiesModel {
    pub dynamic_registration: Option<bool>,
    pub completion_item: Option<CompletionItemCapabilityModel>,
    pub completion_item_kind: Option<CompletionItemKindCapabilityModel>,
    pub context_support: Option<bool>,
}

impl DeepView for CompletionClientCapabilities {
    type V = CompletionClientCapabilitiesModel;

    open spec fn deep_view(&self) -> CompletionClientCapabilitiesModel {
        CompletionClientCapabilitiesModel {
            dynamic_registration: self.dynamic_registration.deep_view(),
            completion_item: self.completion_item.deep_view(),
            completion_item_kind: self.completion_item_kind.deep_view(),
            context_support: self.context_support.deep_view(),
        }
    }
}

impl Record for CompletionClientCapabilities {
    open spec fn members(before: Seq<Member>, value: CompletionClientCapabilitiesModel) -> Seq<Member> {
        before + optional_field::<bool>("dynamicRegistration"@, value.dynamic_registration)
            + optional_field::<CompletionItemCapability>("completionItem"@, value.completion_item)
            + optional_field::<CompletionItemKindCapability>(
                "completionItemKind"@,
                value.completion_item_kind,
            )
            + optional_field::<bool>("contextSupport"@, value.context_support)
    }

    open spec fn read(members: Seq<Member>) -> Result<CompletionClientCapabilitiesModel, CodecError> {
        let dynamic_registration = optional::<bool>(members, "dynamicRegistration"@);
        let completion_item = optional::<CompletionItemCapability>(members, "completionItem"@);
        let completion_item_kind = optional::<CompletionItemKindCapability>(
            members,
            "completionItemKind"@,
        );
        let context_support = optional::<bool>(members, "contextSupport"@);
        if dynamic_registration is Err {
            Err(dynamic_registration->Err_0)
        } else if completion_item is Err {
            Err(completion_item->Err_0)
        } else if completion_item_kind is Err {
            Err(completion_item_kind->Err_0)
        } else if context_support is Err {
            Err(context_support->Err_0)
        } else {
            Ok(
                CompletionClientCapabilitiesModel {
                    dynamic_registration: dynamic_registration->Ok_0,
                    completion_item: completion_item->Ok_0,
                    completion_item_kind: completion_item_kind->Ok_0,
                    context_support: context_support->Ok_0,
                },
            )
        }
    }

    fn write(&self, members: &mut Vec<(String, Json)>) {
        put_optional(members, "dynamicRegistration", &self.dynamic_registration);
        put_optional(members, "completionItem", &self.completion_item);
        put_optional(members, "completionItemKind", &self.completion_item_kind);
        put_optional(members, "contextSupport", &self.context_support);
    }

    fn scan(members: &Vec<(String, Json)>) -> (result: Result<CompletionClientCapabilities, CodecError>) {
        let dynamic_registration = get_optional::<bool>(members, "dynamicRegistration");
        let completion_item = get_optional::<CompletionItemCapability>(members, "completionItem");
        let completion_item_kind = get_optional::<CompletionItemKindCapability>(
            members,
            "completionItemKind",
        );
        let context_support = get_optional::<bool>(members, "contextSupport");
        if let Err(error) = dynamic_registration {
            Err(error)
        } else if let Err(error) = completion_item {
            Err(error)
        } else if let Err(error) = completion_item_kind {
            Err(error)
        } else if let Err(error) = context_support {
            Err(error)
        } else {
            Ok(
                CompletionClientCapabilities {
                    dynamic_registration: dynamic_registration.unwrap(),
                    completion_item: completion_item.unwrap(),
                    completion_item_kind: completion_item_kind.unwrap(),
                    context_support: context_support.unwrap(),
                },
            )
        }
    }
}

impl CompletionClientCapabilities {
    /// Every value comes back unchanged from the document that stands for it.
    pub proof fn lemma_survives(value: CompletionClientCapabilitiesModel)
        ensures
            survives::<CompletionClientCapabilities>(value),
    {
        broadcast use group_lookup;

        reveal(optional);
        reveal_strlit("dynamicRegistration");
        reveal_strlit("completionItem");
        reveal_strlit("completionItemKind");
        reveal_strlit("contextSupport");
        if let Some(inner) = value.completion_item {
            CompletionItemCapability::lemma_survives(inner);
        }
        if let Some(inner) = value.completion_item_kind {
            CompletionItemKindCapability::lemma_survives(inner);
        }
    }
}

} // verus!
