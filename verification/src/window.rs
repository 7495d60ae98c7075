//! Messages that a server shows or logs in the client.

use crate::codec::{
    Codec, CodecError, field, get, get_optional, group_lookup, lemma_sequence_round_trip, Member,
    optional, optional_field, put, put_optional, Record, required, survives,
};
use crate::json::{Json, JsonValue, Number};
use vstd::prelude::*;

verus! {

#[derive(Debug, PartialEq, Eq, Clone)]
pub struct ShowMessageParams {
    /// The message type. See {@link MessageType}.
    pub typ: MessageType,
    /// The actual message.
    pub message: String,
}

/// What a [`ShowMessageParams`] stands for.
pub struct ShowMessageParamsModel {
    pub typ: MessageType,
    pub message: Seq<char>,
}

impl DeepView for ShowMessageParams {
    type V = ShowMessageParamsModel;

    open spec fn deep_view(&self) -> ShowMessageParamsModel {
        ShowMessageParamsModel {
            typ: self.typ.deep_view(),
            message: self.message.deep_view(),
        }
    }
}

impl Record for ShowMessageParams {
    open spec fn members(before: Seq<Member>, value: ShowMessageParamsModel) -> Seq<Member> {
        before + field::<MessageType>("type"@, value.typ)
            + field::<String>("message"@, value.message)
    }

    open spec fn read(members: Seq<Member>) -> Result<ShowMessageParamsModel, CodecError> {
        let typ = required::<MessageType>(members, "type"@);
        let message = required::<String>(members, "message"@);
        if typ is Err {
            Err(typ->Err_0)
        } else if message is Err {
            Err(message->Err_0)
        } else {
            Ok(
                ShowMessageParamsModel {
                    typ: typ->Ok_0,
                    message: message->Ok_0,
                },
            )
        }
    }

    fn write(&self, members: &mut Vec<(String, Json)>) {
        put(members, "type", &self.typ);
        put(members, "message", &self.message);
    }

    fn scan(members: &Vec<(String, Json)>) -> (result: Result<ShowMessageParams, CodecError>) {
        let typ = get::<MessageType>(members, "type");
        let message = get::<String>(members, "message");
        if let Err(error) = typ {
            Err(error)
        } else if let Err(error) = message {
            Err(error)
        } else {
            Ok(
                ShowMessageParams {
                    typ: typ.unwrap(),
                    message: message.unwrap(),
                },
            )
        }
    }
}

impl ShowMessageParams {
    /// Every value comes back unchanged from the document that stands for it.
    pub proof fn lemma_survives(value: ShowMessageParamsModel)
        ensures
            survives::<ShowMessageParams>(value),
    {
        broadcast use group_lookup;

        reveal(required);
        reveal_strlit("type");
        reveal_strlit("message");
        MessageType::lemma_survives(value.typ);
    }
}

#[derive(Debug, PartialEq, Eq, Structural, Clone, Copy)]
pub enum MessageType {
    /// An error message.
    Error,
    /// A warning message.
    Warning,
    /// An information message.
    Info,
    /// A log message.
    Log,
}

impl DeepView for MessageType {
    type V = MessageType;

    open spec fn deep_view(&self) -> MessageType {
        *self
    }
}

impl MessageType {
    /// The integer that stands for a variant on the wire.
    pub open spec fn number(self) -> u8 {
        match self {
            MessageType::Error => 1,
            MessageType::Warning => 2,
            MessageType::Info => 3,
            MessageType::Log => 4,
        }
    }

    /// The variant that an integer stands for, if any.
    pub open spec fn variant(number: int) -> Option<MessageType> {
        if number == 1 {
            Some(MessageType::Error)
        } else if number == 2 {
            Some(MessageType::Warning)
        } else if number == 3 {
            Some(MessageType::Info)
        } else if number == 4 {
            Some(MessageType::Log)
        } else {
            None
        }
    }

    /// Gives the integer that stands for this variant on the wire.
    pub fn to_number(self) -> (number: u8)
        ensures
            number == self.number(),
    {
        match self {
            MessageType::Error => 1,
            MessageType::Warning => 2,
            MessageType::Info => 3,
            MessageType::Log => 4,
        }
    }

    /// Gives the variant that an integer stands for, if any.
    pub fn from_number(number: u64) -> (variant: Option<MessageType>)
        ensures
            variant == Self::variant(number as int),
    {
        if number == 1 {
            Some(MessageType::Error)
        } else if number == 2 {
            Some(MessageType::Warning)
        } else if number == 3 {
            Some(MessageType::Info)
        } else if number == 4 {
            Some(MessageType::Log)
        } else {
            None
        }
    }

    /// Every variant comes back unchanged from the integer that stands for it.
    pub proof fn lemma_survives(value: MessageType)
        ensures
            survives::<MessageType>(value),
    {
    }

    /// An integer is refused exactly when it names no variant, and the
    /// error then holds it together with the bounds of those that do.
    pub proof fn lemma_refusal(number: Number)
        requires
            !(number is Float),
        ensures
            MessageType::decode(JsonValue::Number(number)) is Err <==> !(number matches Number::PosInt(n)
                && 1 <= n <= 4),
            MessageType::decode(JsonValue::Number(number)) is Err ==> MessageType::decode(
                JsonValue::Number(number),
            ) == Err::<MessageType, CodecError>(
                CodecError::InvalidEnumValue { value: number, lowest: 1, highest: 4 },
            ),
    {
    }
}

impl Codec for MessageType {
    open spec fn encode(value: MessageType) -> JsonValue {
        JsonValue::Number(Number::PosInt(value.number() as u64))
    }

    open spec fn decode(json: JsonValue) -> Result<MessageType, CodecError> {
        match json {
            JsonValue::Number(Number::PosInt(n)) => match Self::variant(n as int) {
                Some(variant) => Ok(variant),
                None => Err(
                    CodecError::InvalidEnumValue { value: Number::PosInt(n), lowest: 1, highest: 4 },
                ),
            },
            JsonValue::Number(Number::NegInt(n)) => Err(
                CodecError::InvalidEnumValue { value: Number::NegInt(n), lowest: 1, highest: 4 },
            ),
            _ => Err(CodecError::UnexpectedType),
        }
    }

    fn serialize(&self) -> (json: Json) {
        Json::Number(Number::PosInt(self.to_number() as u64))
    }

    fn deserialize(json: &Json) -> (result: Result<MessageType, CodecError>) {
        match json {
            Json::Number(Number::PosInt(n)) => match Self::from_number(*n) {
                Some(variant) => Ok(variant),
                None => Err(
                    CodecError::InvalidEnumValue { value: Number::PosInt(*n), lowest: 1, highest: 4 },
                ),
            },
            Json::Number(Number::NegInt(n)) => Err(
                CodecError::InvalidEnumValue { value: Number::NegInt(*n), lowest: 1, highest: 4 },
            ),
            _ => Err(CodecError::UnexpectedType),
        }
    }
}

#[derive(Debug, PartialEq, Eq, Clone)]
pub struct ShowMessageRequestParams {
    /// The message type. See {@link MessageType}
    pub typ: MessageType,
    /// The actual message
    pub message: String,
    /// The message action items to present.
    pub actions: Option<Vec<MessageActionItem>>,
}

/// What a [`ShowMessageRequestParams`] stands for.
pub struct ShowMessageRequestParamsModel {
    pub typ: MessageType,
    pub message: Seq<char>,
    pub actions: Option<Seq<MessageActionItemModel>>,
}

impl DeepView for ShowMessageRequestParams {
    type V = ShowMessageRequestParamsModel;

    open spec fn deep_view(&self) -> ShowMessageRequestParamsModel {
        ShowMessageRequestParamsModel {
            typ: self.typ.deep_view(),
            message: self.message.deep_view(),
            actions: self.actions.deep_view(),
        }
    }
}

impl Record for ShowMessageRequestParams {
    open spec fn members(before: Seq<Member>, value: ShowMessageRequestParamsModel) -> Seq<Member> {
        before + field::<MessageType>("type"@, value.typ)
            + field::<String>("message"@, value.message)
            + optional_field::<Vec<MessageActionItem>>("actions"@, value.actions)
    }

    open spec fn read(members: Seq<Member>) -> Result<ShowMessageRequestParamsModel, CodecError> {
        let typ = required::<MessageType>(members, "type"@);
        let message = required::<String>(members, "message"@);
        let actions = optional::<Vec<MessageActionItem>>(members, "actions"@);
        if typ is Err {
            Err(typ->Err_0)
        } else if message is Err {
            Err(message->Err_0)
        } else if actions is Err {
            Err(actions->Err_0)
        } else {
            Ok(
                ShowMessageRequestParamsModel {
                    typ: typ->Ok_0,
                    message: message->Ok_0,
                    actions: actions->Ok_0,
                },
            )
        }
    }

    fn write(&self, members: &mut Vec<(String, Json)>) {
        put(members, "type", &self.typ);
        put(members, "message", &self.message);
        put_optional(members, "actions", &self.actions);
    }

    fn scan(members: &Vec<(String, Json)>) -> (result: Result<ShowMessageRequestParams, CodecError>) {
        let typ = get::<MessageType>(members, "type");
        let message = get::<String>(members, "message");
        let actions = get_optional::<Vec<MessageActionItem>>(members, "actions");
        if let Err(error) = typ {
            Err(error)
        } else if let Err(error) = message {
            Err(error)
        } else if let Err(error) = actions {
            Err(error)
        } else {
            Ok(
                ShowMessageRequestParams {
                    typ: typ.unwrap(),
                    message: message.unwrap(),
                    actions: actions.unwrap(),
                },
            )
        }
    }
}

impl ShowMessageRequestParams {
    /// Every value comes back unchanged from the document that stands for it.
    pub proof fn lemma_survives(value: ShowMessageRequestParamsModel)
        ensures
            survives::<ShowMessageRequestParams>(value),
    {
        broadcast use group_lookup;

        reveal(required);
        reveal(optional);
        reveal_strlit("type");
        reveal_strlit("message");
        reveal_strlit("actions");
        MessageType::lemma_survives(value.typ);
        if let Some(inner) = value.actions {
            assert forall|i: int| 0 <= i < inner.len() implies survives::<MessageActionItem>(
                #[trigger] inner[i],
            ) by {
                MessageActionItem::lemma_survives(inner[i]);
            }
            lemma_sequence_round_trip::<MessageActionItem>(inner);
        }
    }
}

#[derive(Debug, PartialEq, Eq, Clone)]
pub struct MessageActionItem {
    /// A short title like 'Retry', 'Open Log' etc.
    pub title: String,
}

/// What a [`MessageActionItem`] stands for.
pub struct MessageActionItemModel {
    pub title: Seq<char>,
}

impl DeepView for MessageActionItem {
    type V = MessageActionItemModel;

    open spec fn deep_view(&self) -> MessageActionItemModel {
        MessageActionItemModel {
            title: self.title.deep_view(),
        }
    }
}

impl Record for MessageActionItem {
    open spec fn members(before: Seq<Member>, value: MessageActionItemModel) -> Seq<Member> {
        before + field::<String>("title"@, value.title)
    }

    open spec fn read(members: Seq<Member>) -> Result<MessageActionItemModel, CodecError> {
        let title = required::<String>(members, "title"@);
        if title is Err {
            Err(title->Err_0)
        } else {
            Ok(
                MessageActionItemModel {
                    title: title->Ok_0,
                },
            )
        }
    }

    fn write(&self, members: &mut Vec<(String, Json)>) {
        put(members, "title", &self.title);
    }

    fn scan(members: &Vec<(String, Json)>) -> (result: Result<MessageActionItem, CodecError>) {
        let title = get::<String>(members, "title");
        if let Err(error) = title {
            Err(error)
        } else {
            Ok(
                MessageActionItem {
                    title: title.unwrap(),
                },
            )
        }
    }
}

impl MessageActionItem {
    /// Every value comes back unchanged from the document that stands for it.
    pub proof fn lemma_survives(value: MessageActionItemModel)
        ensures
            survives::<MessageActionItem>(value),
    {
        broadcast use group_lookup;

        reveal(required);
        reveal_strlit("title");
    }
}

#[derive(Debug, PartialEq, Eq, Clone)]
pub struct LogMessageParams {
    /// The message type. See {@link MessageType}
    pub typ: MessageType,
    /// The actual message
    pub message: String,
}

/// What a [`LogMessageParams`] stands for.
pub struct LogMessageParamsModel {
    pub typ: MessageType,
    pub message: Seq<char>,
}

impl DeepView for LogMessageParams {
    type V = LogMessageParamsModel;

    open spec fn deep_view(&self) -> LogMessageParamsModel {
        LogMessageParamsModel {
            typ: self.typ.deep_view(),
            message: self.message.deep_view(),
        }
    }
}

impl Record for LogMessageParams {
    open spec fn members(before: Seq<Member>, value: LogMessageParamsModel) -> Seq<Member> {
        before + field::<MessageType>("type"@, value.typ)
            + field::<String>("message"@, value.message)
    }

    open spec fn read(members: Seq<Member>) -> Result<LogMessageParamsModel, CodecError> {
        let typ = required::<MessageType>(members, "type"@);
        let message = required::<String>(members, "message"@);
        if typ is Err {
            Err(typ->Err_0)
        } else if message is Err {
            Err(message->Err_0)
        } else {
            Ok(
                LogMessageParamsModel {
                    typ: typ->Ok_0,
                    message: message->Ok_0,
                },
            )
        }
    }

    fn write(&self, members: &mut Vec<(String, Json)>) {
        put(members, "type", &self.typ);
        put(members, "message", &self.message);
    }

    fn scan(members: &Vec<(String, Json)>) -> (result: Result<LogMessageParams, CodecError>) {
        let typ = get::<MessageType>(members, "type");
        let message = get::<String>(members, "message");
        if let Err(error) = typ {
            Err(error)
        } else if let Err(error) = message {
            Err(error)
        } else {
            Ok(
                LogMessageParams {
                    typ: typ.unwrap(),
                    message: message.unwrap(),
                },
            )
        }
    }
}

impl LogMessageParams {
    /// Every value comes back unchanged from the document that stands for it.
    pub proof fn lemma_survives(value: LogMessageParamsModel)
        ensures
            survives::<LogMessageParams>(value),
    {
        broadcast use group_lookup;

        reveal(required);
        reveal_strlit("type");
        reveal_strlit("message");
        MessageType::lemma_survives(value.typ);
    }
}

/// Show message request client capabilities
#[derive(Debug, PartialEq, Clone, Default)]
pub struct ShowMessageRequestClientCapabilities {
    /// Capabilities specific to the `MessageActionItem` type.
    pub message_action_item: Option<MessageActionItemCapabilities>,
}

impl DeepView for ShowMessageRequestClientCapabilities {
    type V = ShowMessageRequestClientCapabilities;

    open spec fn deep_view(&self) -> ShowMessageRequestClientCapabilities {
        ShowMessageRequestClientCapabilities {
            message_action_item: self.message_action_item.deep_view(),
        }
    }
}

impl Record for ShowMessageRequestClientCapabilities {
    open spec fn members(before: Seq<Member>, value: ShowMessageRequestClientCapabilities) -> Seq<Member> {
        before
            + optional_field::<MessageActionItemCapabilities>(
                "messageActionItem"@,
                value.message_action_item,
            )
    }

    open spec fn read(members: Seq<Member>) -> Result<ShowMessageRequestClientCapabilities, CodecError> {
        let message_action_item = optional::<MessageActionItemCapabilities>(
            members,
            "messageActionItem"@,
        );
        if message_action_item is Err {
            Err(message_action_item->Err_0)
        } else {
            Ok(
                ShowMessageRequestClientCapabilities {
                    message_action_item: message_action_item->Ok_0,
                },
            )
        }
    }

    fn write(&self, members: &mut Vec<(String, Json)>) {
        put_optional(members, "messageActionItem", &self.message_action_item);
    }

    fn scan(members: &Vec<(String, Json)>) -> (result: Result<ShowMessageRequestClientCapabilities, CodecError>) {
        let message_action_item = get_optional::<MessageActionItemCapabilities>(
            members,
            "messageActionItem",
        );
        if let Err(error) = message_action_item {
            Err(error)
        } else {
            Ok(
                ShowMessageRequestClientCapabilities {
                    message_action_item: message_action_item.unwrap(),
                },
            )
        }
    }
}

impl ShowMessageRequestClientCapabilities {
    /// Every value comes back unchanged from the document that stands for it.
    pub proof fn lemma_survives(value: ShowMessageRequestClientCapabilities)
        ensures
            survives::<ShowMessageRequestClientCapabilities>(value),
    {
        broadcast use group_lookup;

        reveal(optional);
        reveal_strlit("messageActionItem");
        if let Some(inner) = value.message_action_item {
            MessageActionItemCapabilities::lemma_survives(inner);
        }
    }
}

#[derive(Debug, PartialEq, Clone, Default)]
pub struct MessageActionItemCapabilities {
    /// Whether the client supports additional attribues which
    /// are preserved and send back to the server in the
    /// request's response.
    pub additional_properties_support: Option<bool>,
}

impl DeepView for MessageActionItemCapabilities {
    type V = MessageActionItemCapabilities;

    open spec fn deep_view(&self) -> MessageActionItemCapabilities {
        MessageActionItemCapabilities {
            additional_properties_support: self.additional_properties_support.deep_view(),
        }
    }
}

impl Record for MessageActionItemCapabilities {
    open spec fn members(before: Seq<Member>, value: MessageActionItemCapabilities) -> Seq<Member> {
        before
            + optional_field::<bool>(
                "additionalPropertiesSupport"@,
                value.additional_properties_support,
            )
    }

    open spec fn read(members: Seq<Member>) -> Result<MessageActionItemCapabilities, CodecError> {
        let additional_properties_support = optional::<bool>(
            members,
            "additionalPropertiesSupport"@,
        );
        if additional_properties_support is Err {
            Err(additional_properties_support->Err_0)
        } else {
            Ok(
                MessageActionItemCapabilities {
                    additional_properties_support: additional_properties_support->Ok_0,
                },
            )
        }
    }

    fn write(&self, members: &mut Vec<(String, Json)>) {
        put_optional(members, "additionalPropertiesSupport", &self.additional_properties_support);
    }

    fn scan(members: &Vec<(String, Json)>) -> (result: Result<MessageActionItemCapabilities, CodecError>) {
        let additional_properties_support = get_optional::<bool>(
            members,
            "additionalPropertiesSupport",
        );
        if let Err(error) = additional_properties_support {
            Err(error)
        } else {
            Ok(
                MessageActionItemCapabilities {
                    additional_properties_support: additional_properties_support.unwrap(),
                },
            )
        }
    }
}

impl MessageActionItemCapabilities {
    /// Every value comes back unchanged from the document that stands for it.
    pub proof fn lemma_survives(value: MessageActionItemCapabilities)
        ensures
            survives::<MessageActionItemCapabilities>(value),
    {
        broadcast use group_lookup;

        reveal(optional);
        reveal_strlit("additionalPropertiesSupport");
    }
}

#[derive(Debug, PartialEq, Eq, Clone)]
pub enum MessageActionItemProperty {
    String(String),
    Boolean(bool),
    Integer(i32),
    Object(Json),
}

/// What a [`MessageActionItemProperty`] stands for.
pub enum MessageActionItemPropertyModel {
    String(Seq<char>),
    Boolean(bool),
    Integer(i32),
    Object(JsonValue),
}

impl DeepView for MessageActionItemProperty {
    type V = MessageActionItemPropertyModel;

    open spec fn deep_view(&self) -> MessageActionItemPropertyModel {
        match self {
            MessageActionItemProperty::String(value) => MessageActionItemPropertyModel::String(value.deep_view()),
            MessageActionItemProperty::Boolean(value) => MessageActionItemPropertyModel::Boolean(value.deep_view()),
            MessageActionItemProperty::Integer(value) => MessageActionItemPropertyModel::Integer(value.deep_view()),
            MessageActionItemProperty::Object(value) => MessageActionItemPropertyModel::Object(value.deep_view()),
        }
    }
}

impl Codec for MessageActionItemProperty {
    open spec fn encode(value: MessageActionItemPropertyModel) -> JsonValue {
        match value {
            MessageActionItemPropertyModel::String(value) => String::encode(value),
            MessageActionItemPropertyModel::Boolean(value) => bool::encode(value),
            MessageActionItemPropertyModel::Integer(value) => i32::encode(value),
            MessageActionItemPropertyModel::Object(value) => Json::encode(value),
        }
    }

    open spec fn decode(json: JsonValue) -> Result<MessageActionItemPropertyModel, CodecError> {
        if let Ok(value) = String::decode(json) {
            Ok(MessageActionItemPropertyModel::String(value))
        } else if let Ok(value) = bool::decode(json) {
            Ok(MessageActionItemPropertyModel::Boolean(value))
        } else if let Ok(value) = i32::decode(json) {
            Ok(MessageActionItemPropertyModel::Integer(value))
        } else if let Ok(value) = Json::decode(json) {
            Ok(MessageActionItemPropertyModel::Object(value))
        } else {
            Err(CodecError::NoVariantMatched)
        }
    }

    fn serialize(&self) -> (json: Json) {
        match self {
            MessageActionItemProperty::String(value) => value.serialize(),
            MessageActionItemProperty::Boolean(value) => value.serialize(),
            MessageActionItemProperty::Integer(value) => value.serialize(),
            MessageActionItemProperty::Object(value) => value.serialize(),
        }
    }

    fn deserialize(json: &Json) -> (result: Result<MessageActionItemProperty, CodecError>) {
        if let Ok(value) = String::deserialize(json) {
            Ok(MessageActionItemProperty::String(value))
        } else if let Ok(value) = bool::deserialize(json) {
            Ok(MessageActionItemProperty::Boolean(value))
        } else if let Ok(value) = i32::deserialize(json) {
            Ok(MessageActionItemProperty::Integer(value))
        } else if let Ok(value) = Json::deserialize(json) {
            Ok(MessageActionItemProperty::Object(value))
        } else {
            Err(CodecError::NoVariantMatched)
        }
    }
}

impl MessageActionItemProperty {
    /// A value comes back unchanged from its document exactly when its
    /// payload does and no variant declared before its own reads the
    /// payload's document.
    pub proof fn lemma_round_trip(value: MessageActionItemPropertyModel)
        ensures
            survives::<MessageActionItemProperty>(value) <==> match value {
                MessageActionItemPropertyModel::String(v) => survives::<String>(v),
                MessageActionItemPropertyModel::Boolean(v) => String::decode(bool::encode(v)) is Err
                    && survives::<bool>(v),
                MessageActionItemPropertyModel::Integer(v) => String::decode(i32::encode(v)) is Err
                    && bool::decode(i32::encode(v)) is Err
                    && survives::<i32>(v),
                MessageActionItemPropertyModel::Object(v) => String::decode(Json::encode(v)) is Err
                    && bool::decode(Json::encode(v)) is Err
                    && i32::decode(Json::encode(v)) is Err
                    && survives::<Json>(v),
            },
    {
    }
}

} // verus!
