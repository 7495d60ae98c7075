//! Diagnostics: the errors, warnings and hints that a server reports.

use crate::basic::{Location, LocationModel, NumberOrString, NumberOrStringModel, Range};
use crate::codec::{
    Codec, CodecError, field, get, get_optional, group_lookup, lemma_sequence_round_trip, Member,
    optional, optional_field, put, put_optional, Record, required, survives,
};
use crate::json::{Json, JsonValue, Number};
use crate::tag_support::{
    compat, get_compat, lemma_tag_support_round_trip, TagSupport, TagSupportModel,
};
use crate::url::{is_url_text, Url};
use vstd::prelude::*;

verus! {

/// Represents a diagnostic, such as a compiler error or warning.
/// Diagnostic objects are only valid in the scope of a resource.
#[derive(Debug, PartialEq, Eq, Clone, Default)]
pub struct Diagnostic {
    /// The range at which the message applies.
    pub range: Range,
    /// The diagnostic's severity. Can be omitted. If omitted it is up to the
    /// client to interpret diagnostics as error, warning, info or hint.
    pub severity: Option<DiagnosticSeverity>,
    /// The diagnostic's code. Can be omitted.
    pub code: Option<NumberOrString>,
    /// A human-readable string describing the source of this
    /// diagnostic, e.g. 'typescript' or 'super lint'.
    pub source: Option<String>,
    /// The diagnostic's message.
    pub message: String,
    /// An array of related diagnostic information, e.g. when symbol-names within
    /// a scope collide all definitions can be marked via this property.
    pub related_information: Option<Vec<DiagnosticRelatedInformation>>,
    /// Additional metadata about the diagnostic.
    pub tags: Option<Vec<DiagnosticTag>>,
}

/// What a [`Diagnostic`] stands for.
pub struct DiagnosticModel {
    pub range: Range,
    pub severity: Option<DiagnosticSeverity>,
    pub code: Option<NumberOrStringModel>,
    pub source: Option<Seq<char>>,
    pub message: Seq<char>,
    pub related_information: Option<Seq<DiagnosticRelatedInformationModel>>,
    pub tags: Option<Seq<DiagnosticTag>>,
}

impl DeepView for Diagnostic {
    type V = DiagnosticModel;

    open spec fn deep_view(&self) -> DiagnosticModel {
        DiagnosticModel {
            range: self.range.deep_view(),
            severity: self.severity.deep_view(),
            code: self.code.deep_view(),
            source: self.source.deep_view(),
            message: self.message.deep_view(),
            related_information: self.related_information.deep_view(),
            tags: self.tags.deep_view(),
        }
    }
}

impl Record for Diagnostic {
    open spec fn members(before: Seq<Member>, value: DiagnosticModel) -> Seq<Member> {
        before + field::<Range>("range"@, value.range)
            + optional_field::<DiagnosticSeverity>("severity"@, value.severity)
            + optional_field::<NumberOrString>("code"@, value.code)
            + optional_field::<String>("source"@, value.source)
            + field::<String>("message"@, value.message)
            + optional_field::<Vec<DiagnosticRelatedInformation>>(
                "relatedInformation"@,
                value.related_information,
            )
            + optional_field::<Vec<DiagnosticTag>>("tags"@, value.tags)
    }

    open spec fn read(members: Seq<Member>) -> Result<DiagnosticModel, CodecError> {
        let range = required::<Range>(members, "range"@);
        let severity = optional::<DiagnosticSeverity>(members, "severity"@);
        let code = optional::<NumberOrString>(members, "code"@);
        let source = optional::<String>(members, "source"@);
        let message = required::<String>(members, "message"@);
        let related_information = optional::<Vec<DiagnosticRelatedInformation>>(
            members,
            "relatedInformation"@,
        );
        let tags = optional::<Vec<DiagnosticTag>>(members, "tags"@);
        if range is Err {
            Err(range->Err_0)
        } else if severity is Err {
            Err(severity->Err_0)
        } else if code is Err {
            Err(code->Err_0)
        } else if source is Err {
            Err(source->Err_0)
        } else if message is Err {
            Err(message->Err_0)
        } else if related_information is Err {
            Err(related_information->Err_0)
        } else if tags is Err {
            Err(tags->Err_0)
        } else {
            Ok(
                DiagnosticModel {
                    range: range->Ok_0,
                    severity: severity->Ok_0,
                    code: code->Ok_0,
                    source: source->Ok_0,
                    message: message->Ok_0,
                    related_information: related_information->Ok_0,
                    tags: tags->Ok_0,
                },
            )
        }
    }

    fn write(&self, members: &mut Vec<(String, Json)>) {
        put(members, "range", &self.range);
        put_optional(members, "severity", &self.severity);
        put_optional(members, "code", &self.code);
        put_optional(members, "source", &self.source);
        put(members, "message", &self.message);
        put_optional(members, "relatedInformation", &self.related_information);
        put_optional(members, "tags", &self.tags);
    }

    fn scan(members: &Vec<(String, Json)>) -> (result: Result<Diagnostic, CodecError>) {
        let range = get::<Range>(members, "range");
        let severity = get_optional::<DiagnosticSeverity>(members, "severity");
        let code = get_optional::<NumberOrString>(members, "code");
        let source = get_optional::<String>(members, "source");
        let message = get::<String>(members, "message");
        let related_information = get_optional::<Vec<DiagnosticRelatedInformation>>(
            members,
            "relatedInformation",
        );
        let tags = get_optional::<Vec<DiagnosticTag>>(members, "tags");
        if let Err(error) = range {
            Err(error)
        } else if let Err(error) = severity {
            Err(error)
        } else if let Err(error) = code {
            Err(error)
        } else if let Err(error) = source {
            Err(error)
        } else if let Err(error) = message {
            Err(error)
        } else if let Err(error) = related_information {
            Err(error)
        } else if let Err(error) = tags {
            Err(error)
        } else {
            Ok(
                Diagnostic {
                    range: range.unwrap(),
                    severity: severity.unwrap(),
                    code: code.unwrap(),
                    source: source.unwrap(),
                    message: message.unwrap(),
                    related_information: related_information.unwrap(),
                    tags: tags.unwrap(),
                },
            )
        }
    }
}

impl Diagnostic {
    /// Builds the value from its fields.
    pub fn new(
        range: Range,
        severity: Option<DiagnosticSeverity>,
        code: Option<NumberOrString>,
        source: Option<String>,
        message: String,
        related_information: Option<Vec<DiagnosticRelatedInformation>>,
        tags: Option<Vec<DiagnosticTag>>,
    ) -> (result: Diagnostic)
        ensures
            result == (Diagnostic {
                range,
                severity,
                code,
                source,
                message,
                related_information,
                tags,
            }),
    {
        Diagnostic { range, severity, code, source, message, related_information, tags }
    }

    /// A diagnostic with a range and a message and nothing else.
    pub fn new_simple(range: Range, message: String) -> (result: Diagnostic)
        ensures
            result == (Diagnostic {
                range,
                severity: None,
                code: None,
                source: None,
                message,
                related_information: None,
                tags: None,
            }),
    {
        Self::new(range, None, None, None, message, None, None)
    }

    /// A diagnostic with a severity and a number for its code.
    pub fn new_with_code_number(
        range: Range,
        severity: DiagnosticSeverity,
        code_number: u64,
        source: Option<String>,
        message: String,
    ) -> (result: Diagnostic)
        ensures
            result == (Diagnostic {
                range,
                severity: Some(severity),
                code: Some(NumberOrString::Number(code_number)),
                source,
                message,
                related_information: None,
                tags: None,
            }),
    {
        let code = Some(NumberOrString::Number(code_number));
        Self::new(range, Some(severity), code, source, message, None, None)
    }

    /// A value comes back unchanged from the document that stands for it
    /// where its fields meet what is asked of them here.
    pub proof fn lemma_round_trip(value: DiagnosticModel)
        requires
            value.related_information matches Some(v) ==> survives::<Vec<DiagnosticRelatedInformation>>(v),
        ensures
            survives::<Diagnostic>(value),
    {
        broadcast use group_lookup;

        reveal(required);
        reveal(optional);
        reveal_strlit("range");
        reveal_strlit("severity");
        reveal_strlit("code");
        reveal_strlit("source");
        reveal_strlit("message");
        reveal_strlit("relatedInformation");
        reveal_strlit("tags");
        Range::lemma_survives(value.range);
        if let Some(inner) = value.severity {
            DiagnosticSeverity::lemma_survives(inner);
        }
        if let Some(inner) = value.code {
            NumberOrString::lemma_survives(inner);
        }
        if let Some(inner) = value.tags {
            assert forall|i: int| 0 <= i < inner.len() implies survives::<DiagnosticTag>(
                #[trigger] inner[i],
            ) by {
                DiagnosticTag::lemma_survives(inner[i]);
            }
            lemma_sequence_round_trip::<DiagnosticTag>(inner);
        }
    }
}

/// The protocol currently supports the following diagnostic severities:
#[derive(Debug, PartialEq, Eq, Structural, PartialOrd, Ord, Clone, Copy)]
pub enum DiagnosticSeverity {
    /// Reports an error.
    Error,
    /// Reports a warning.
    Warning,
    /// Reports an information.
    Information,
    /// Reports a hint.
    Hint,
}

impl DeepView for DiagnosticSeverity {
    type V = DiagnosticSeverity;

    open spec fn deep_view(&self) -> DiagnosticSeverity {
        *self
    }
}

impl DiagnosticSeverity {
    /// The integer that stands for a variant on the wire.
    pub open spec fn number(self) -> u8 {
        match self {
            DiagnosticSeverity::Error => 1,
            DiagnosticSeverity::Warning => 2,
            DiagnosticSeverity::Information => 3,
            DiagnosticSeverity::Hint => 4,
        }
    }

    /// The variant that an integer stands for, if any.
    pub open spec fn variant(number: int) -> Option<DiagnosticSeverity> {
        if number == 1 {
            Some(DiagnosticSeverity::Error)
        } else if number == 2 {
            Some(DiagnosticSeverity::Warning)
        } else if number == 3 {
            Some(DiagnosticSeverity::Information)
        } else if number == 4 {
            Some(DiagnosticSeverity::Hint)
        } else {
            None
        }
    }

    /// Gives the integer that stands for this variant on the wire.
    pub fn to_number(self) -> (number: u8)
        ensures
            number == self.number(),
    {
        match self {
            DiagnosticSeverity::Error => 1,
            DiagnosticSeverity::Warning => 2,
            DiagnosticSeverity::Information => 3,
            DiagnosticSeverity::Hint => 4,
        }
    }

    /// Gives the variant that an integer stands for, if any.
    pub fn from_number(number: u64) -> (variant: Option<DiagnosticSeverity>)
        ensures
            variant == Self::variant(number as int),
    {
        if number == 1 {
            Some(DiagnosticSeverity::Error)
        } else if number == 2 {
            Some(DiagnosticSeverity::Warning)
        } else if number == 3 {
            Some(DiagnosticSeverity::Information)
        } else if number == 4 {
            Some(DiagnosticSeverity::Hint)
        } else {
            None
        }
    }

    /// Every variant comes back unchanged from the integer that stands for it.
    pub proof fn lemma_survives(value: DiagnosticSeverity)
        ensures
            survives::<DiagnosticSeverity>(value),
    {
    }

    /// An integer is refused exactly when it names no variant, and the
    /// error then holds it together with the bounds of those that do.
    pub proof fn lemma_refusal(number: Number)
        requires
            !(number is Float),
        ensures
            DiagnosticSeverity::decode(JsonValue::Number(number)) is Err <==> !(number matches Number::PosInt(n)
                && 1 <= n <= 4),
            DiagnosticSeverity::decode(JsonValue::Number(number)) is Err ==> DiagnosticSeverity::decode(
                JsonValue::Number(number),
            ) == Err::<DiagnosticSeverity, CodecError>(
                CodecError::InvalidEnumValue { value: number, lowest: 1, highest: 4 },
            ),
    {
    }
}

impl Codec for DiagnosticSeverity {
    open spec fn encode(value: DiagnosticSeverity) -> JsonValue {
        JsonValue::Number(Number::PosInt(value.number() as u64))
    }

    open spec fn decode(json: JsonValue) -> Result<DiagnosticSeverity, CodecError> {
        match json {
            JsonValue::Number(Number::PosInt(n)) => match Self::variant(n as int) {
                Some(variant) => Ok(variant),
                None => Err(
                    CodecError::InvalidEnumValue { value: Number::PosInt(n), lowest: 1, highest: 4 },
                ),
            },
            JsonValue::Number(Number::NegInt(n)) => Err(
                CodecError::InvalidEnumValue { value: Number::NegInt(n), lowest: 1, highest: 4 },
            ),
            _ => Err(CodecError::UnexpectedType),
        }
    }

    fn serialize(&self) -> (json: Json) {
        Json::Number(Number::PosInt(self.to_number() as u64))
    }

    fn deserialize(json: &Json) -> (result: Result<DiagnosticSeverity, CodecError>) {
        match json {
            Json::Number(Number::PosInt(n)) => match Self::from_number(*n) {
                Some(variant) => Ok(variant),
                None => Err(
                    CodecError::InvalidEnumValue { value: Number::PosInt(*n), lowest: 1, highest: 4 },
                ),
            },
            Json::Number(Number::NegInt(n)) => Err(
                CodecError::InvalidEnumValue { value: Number::NegInt(*n), lowest: 1, highest: 4 },
            ),
            _ => Err(CodecError::UnexpectedType),
        }
    }
}

/// Represents a related message and source code location for a diagnostic. This
/// should be used to point to code locations that cause or related to a
/// diagnostics, e.g when duplicating a symbol in a scope.
#[derive(Debug, PartialEq, Eq, Clone)]
pub struct DiagnosticRelatedInformation {
    /// The location of this related diagnostic information.
    pub location: Location,
    /// The message of this related diagnostic information.
    pub message: String,
}

/// What a [`DiagnosticRelatedInformation`] stands for.
pub struct DiagnosticRelatedInformationModel {
    pub location: LocationModel,
    pub message: Seq<char>,
}

impl DeepView for DiagnosticRelatedInformation {
    type V = DiagnosticRelatedInformationModel;

    open spec fn deep_view(&self) -> DiagnosticRelatedInformationModel {
        DiagnosticRelatedInformationModel {
            location: self.location.deep_view(),
            message: self.message.deep_view(),
        }
    }
}

impl Record for DiagnosticRelatedInformation {
    open spec fn members(before: Seq<Member>, value: DiagnosticRelatedInformationModel) -> Seq<Member> {
        before + field::<Location>("location"@, value.location)
            + field::<String>("message"@, value.message)
    }

    open spec fn read(members: Seq<Member>) -> Result<DiagnosticRelatedInformationModel, CodecError> {
        let location = required::<Location>(members, "location"@);
        let message = required::<String>(members, "message"@);
        if location is Err {
            Err(location->Err_0)
        } else if message is Err {
            Err(message->Err_0)
        } else {
            Ok(
                DiagnosticRelatedInformationModel {
                    location: location->Ok_0,
                    message: message->Ok_0,
                },
            )
        }
    }

    fn write(&self, members: &mut Vec<(String, Json)>) {
        put(members, "location", &self.location);
        put(members, "message", &self.message);
    }

    fn scan(members: &Vec<(String, Json)>) -> (result: Result<DiagnosticRelatedInformation, CodecError>) {
        let location = get::<Location>(members, "location");
        let message = get::<String>(members, "message");
        if let Err(error) = location {
            Err(error)
        } else if let Err(error) = message {
            Err(error)
        } else {
            Ok(
                DiagnosticRelatedInformation {
                    location: location.unwrap(),
                    message: message.unwrap(),
                },
            )
        }
    }
}

impl DiagnosticRelatedInformation {
    /// A value comes back unchanged from the document that stands for it
    /// where its fields meet what is asked of them here.
    pub proof fn lemma_round_trip(value: DiagnosticRelatedInformationModel)
        requires
            survives::<Location>(value.location),
        ensures
            survives::<DiagnosticRelatedInformation>(value),
    {
        broadcast use group_lookup;

        reveal(required);
        reveal_strlit("location");
        reveal_strlit("message");
    }
}

/// The diagnostic tags.
#[derive(Debug, PartialEq, Eq, Structural, Clone, Copy)]
pub enum DiagnosticTag {
    /// Unused or unnecessary code.
    /// Clients are allowed to render diagnostics with this tag faded out instead of having
    /// an error squiggle.
    Unnecessary,
    /// Deprecated or obsolete code.
    /// Clients are allowed to rendered diagnostics with this tag strike through.
    Deprecated,
}

impl DeepView for DiagnosticTag {
    type V = DiagnosticTag;

    open spec fn deep_view(&self) -> DiagnosticTag {
        *self
    }
}

impl DiagnosticTag {
    /// The integer that stands for a variant on the wire.
    pub open spec fn number(self) -> u8 {
        match self {
            DiagnosticTag::Unnecessary => 1,
            DiagnosticTag::Deprecated => 2,
        }
    }

    /// The variant that an integer stands for, if any.
    pub open spec fn variant(number: int) -> Option<DiagnosticTag> {
        if number == 1 {
            Some(DiagnosticTag::Unnecessary)
        } else if number == 2 {
            Some(DiagnosticTag::Deprecated)
        } else {
            None
        }
    }

    /// Gives the integer that stands for this variant on the wire.
    pub fn to_number(self) -> (number: u8)
        ensures
            number == self.number(),
    {
        match self {
            DiagnosticTag::Unnecessary => 1,
            DiagnosticTag::Deprecated => 2,
        }
    }

    /// Gives the variant that an integer stands for, if any.
    pub fn from_number(number: u64) -> (variant: Option<DiagnosticTag>)
        ensures
            variant == Self::variant(number as int),
    {
        if number == 1 {
            Some(DiagnosticTag::Unnecessary)
        } else if number == 2 {
            Some(DiagnosticTag::Deprecated)
        } else {
            None
        }
    }

    /// Every variant comes back unchanged from the integer that stands for it.
    pub proof fn lemma_survives(value: DiagnosticTag)
        ensures
            survives::<DiagnosticTag>(value),
    {
    }

    /// An integer is refused exactly when it names no variant, and the
    /// error then holds it together with the bounds of those that do.
    pub proof fn lemma_refusal(number: Number)
        requires
            !(number is Float),
        ensures
            DiagnosticTag::decode(JsonValue::Number(number)) is Err <==> !(number matches Number::PosInt(n)
                && 1 <= n <= 2),
            DiagnosticTag::decode(JsonValue::Number(number)) is Err ==> DiagnosticTag::decode(
                JsonValue::Number(number),
            ) == Err::<DiagnosticTag, CodecError>(
                CodecError::InvalidEnumValue { value: number, lowest: 1, highest: 2 },
            ),
    {
    }
}

impl Codec for DiagnosticTag {
    open spec fn encode(value: DiagnosticTag) -> JsonValue {
        JsonValue::Number(Number::PosInt(value.number() as u64))
    }

    open spec fn decode(json: JsonValue) -> Result<DiagnosticTag, CodecError> {
        match json {
            JsonValue::Number(Number::PosInt(n)) => match Self::variant(n as int) {
                Some(variant) => Ok(variant),
                None => Err(
                    CodecError::InvalidEnumValue { value: Number::PosInt(n), lowest: 1, highest: 2 },
                ),
            },
            JsonValue::Number(Number::NegInt(n)) => Err(
                CodecError::InvalidEnumValue { value: Number::NegInt(n), lowest: 1, highest: 2 },
            ),
            _ => Err(CodecError::UnexpectedType),
        }
    }

    fn serialize(&self) -> (json: Json) {
        Json::Number(Number::PosInt(self.to_number() as u64))
    }

    fn deserialize(json: &Json) -> (result: Result<DiagnosticTag, CodecError>) {
        match json {
            Json::Number(Number::PosInt(n)) => match Self::from_number(*n) {
                Some(variant) => Ok(variant),
                None => Err(
                    CodecError::InvalidEnumValue { value: Number::PosInt(*n), lowest: 1, highest: 2 },
                ),
            },
            Json::Number(Number::NegInt(n)) => Err(
                CodecError::InvalidEnumValue { value: Number::NegInt(*n), lowest: 1, highest: 2 },
            ),
            _ => Err(CodecError::UnexpectedType),
        }
    }
}

#[derive(Debug, PartialEq, Eq, Clone, Default)]
pub struct PublishDiagnosticsCapability {
    /// Whether the clients accepts diagnostics with related information.
    pub related_information: Option<bool>,
    /// Client supports the tag property to provide meta data about a diagnostic.
    /// Clients supporting tags have to handle unknown tags gracefully.
    pub tag_support: Option<TagSupport<DiagnosticTag>>,
}

/// What a [`PublishDiagnosticsCapability`] stands for.
pub struct PublishDiagnosticsCapabilityModel {
    pub related_information: Option<bool>,
    pub tag_support: Option<TagSupportModel<DiagnosticTag>>,
}

impl DeepView for PublishDiagnosticsCapability {
    type V = PublishDiagnosticsCapabilityModel;

    open spec fn deep_view(&self) -> PublishDiagnosticsCapabilityModel {
        PublishDiagnosticsCapabilityModel {
            related_information: self.related_information.deep_view(),
            tag_support: self.tag_support.deep_view(),
        }
    }
}

impl Record for PublishDiagnosticsCapability {
    open spec fn members(before: Seq<Member>, value: PublishDiagnosticsCapabilityModel) -> Seq<Member> {
        before + optional_field::<bool>("relatedInformation"@, value.related_information)
            + optional_field::<TagSupport<DiagnosticTag>>("tagSupport"@, value.tag_support)
    }

    open spec fn read(members: Seq<Member>) -> Result<PublishDiagnosticsCapabilityModel, CodecError> {
        let related_information = optional::<bool>(members, "relatedInformation"@);
        let tag_support = compat::<DiagnosticTag>(members, "tagSupport"@);
        if related_information is Err {
            Err(related_information->Err_0)
        } else if tag_support is Err {
            Err(tag_support->Err_0)
        } else {
            Ok(
                PublishDiagnosticsCapabilityModel {
                    related_information: related_information->Ok_0,
                    tag_support: tag_support->Ok_0,
                },
            )
        }
    }

    fn write(&self, members: &mut Vec<(String, Json)>) {
        put_optional(members, "relatedInformation", &self.related_information);
        put_optional(members, "tagSupport", &self.tag_support);
    }

    fn scan(members: &Vec<(String, Json)>) -> (result: Result<PublishDiagnosticsCapability, CodecError>) {
        let related_information = get_optional::<bool>(members, "relatedInformation");
        let tag_support = get_compat::<DiagnosticTag>(members, "tagSupport");
        if let Err(error) = related_information {
            Err(error)
        } else if let Err(error) = tag_support {
            Err(error)
        } else {
            Ok(
                PublishDiagnosticsCapability {
                    related_information: related_information.unwrap(),
                    tag_support: tag_support.unwrap(),
                },
            )
        }
    }
}

impl PublishDiagnosticsCapability {
    /// Every value comes back unchanged from the document that stands for it.
    pub proof fn lemma_survives(value: PublishDiagnosticsCapabilityModel)
        ensures
            survives::<PublishDiagnosticsCapability>(value),
    {
        broadcast use group_lookup;

        reveal(optional);
        reveal(optional_field);
        reveal_strlit("relatedInformation");
        reveal_strlit("tagSupport");
        if let Some(support) = value.tag_support {
            let list = support.value_set;
            assert forall|i: int| 0 <= i < list.len() implies survives::<DiagnosticTag>(
                #[trigger] list[i],
            ) by {
                DiagnosticTag::lemma_survives(list[i]);
            }
            lemma_tag_support_round_trip::<DiagnosticTag>(support);
        }
    }
}

#[derive(Debug, PartialEq, Eq, Clone)]
pub struct PublishDiagnosticsParams {
    /// The URI for which diagnostic information is reported.
    pub uri: Url,
    /// An array of diagnostic information items.
    pub diagnostics: Vec<Diagnostic>,
    /// Optional the version number of the document the diagnostics are published for.
    pub version: Option<i64>,
}

/// What a [`PublishDiagnosticsParams`] stands for.
pub struct PublishDiagnosticsParamsModel {
    pub uri: Seq<char>,
    pub diagnostics: Seq<DiagnosticModel>,
    pub version: Option<i64>,
}

impl DeepView for PublishDiagnosticsParams {
    type V = PublishDiagnosticsParamsModel;

    open spec fn deep_view(&self) -> PublishDiagnosticsParamsModel {
        PublishDiagnosticsParamsModel {
            uri: self.uri.deep_view(),
            diagnostics: self.diagnostics.deep_view(),
            version: self.version.deep_view(),
        }
    }
}

impl Record for PublishDiagnosticsParams {
    open spec fn members(before: Seq<Member>, value: PublishDiagnosticsParamsModel) -> Seq<Member> {
        before + field::<Url>("uri"@, value.uri)
            + field::<Vec<Diagnostic>>("diagnostics"@, value.diagnostics)
            + optional_field::<i64>("version"@, value.version)
    }

    open spec fn read(members: Seq<Member>) -> Result<PublishDiagnosticsParamsModel, CodecError> {
        let uri = required::<Url>(members, "uri"@);
        let diagnostics = required::<Vec<Diagnostic>>(members, "diagnostics"@);
        let version = optional::<i64>(members, "version"@);
        if uri is Err {
            Err(uri->Err_0)
        } else if diagnostics is Err {
            Err(diagnostics->Err_0)
        } else if version is Err {
            Err(version->Err_0)
        } else {
            Ok(
                PublishDiagnosticsParamsModel {
                    uri: uri->Ok_0,
                    diagnostics: diagnostics->Ok_0,
                    version: version->Ok_0,
                },
            )
        }
    }

    fn write(&self, members: &mut Vec<(String, Json)>) {
        put(members, "uri", &self.uri);
        put(members, "diagnostics", &self.diagnostics);
        put_optional(members, "version", &self.version);
    }

    fn scan(members: &Vec<(String, Json)>) -> (result: Result<PublishDiagnosticsParams, CodecError>) {
        let uri = get::<Url>(members, "uri");
        let diagnostics = get::<Vec<Diagnostic>>(members, "diagnostics");
        let version = get_optional::<i64>(members, "version");
        if let Err(error) = uri {
            Err(error)
        } else if let Err(error) = diagnostics {
            Err(error)
        } else if let Err(error) = version {
            Err(error)
        } else {
            Ok(
                PublishDiagnosticsParams {
                    uri: uri.unwrap(),
                    diagnostics: diagnostics.unwrap(),
                    version: version.unwrap(),
                },
            )
        }
    }
}

impl PublishDiagnosticsParams {
    /// Builds the value from its fields.
    pub fn new(
        uri: Url,
        diagnostics: Vec<Diagnostic>,
        version: Option<i64>,
    ) -> (result: PublishDiagnosticsParams)
        ensures
            result == (PublishDiagnosticsParams { uri, diagnostics, version }),
    {
        PublishDiagnosticsParams { uri, diagnostics, version }
    }

    /// A value comes back unchanged from the document that stands for it
    /// where its fields meet what is asked of them here.
    pub proof fn lemma_round_trip(value: PublishDiagnosticsParamsModel)
        requires
            is_url_text(value.uri),
            survives::<Vec<Diagnostic>>(value.diagnostics),
        ensures
            survives::<PublishDiagnosticsParams>(value),
    {
        broadcast use group_lookup;

        reveal(required);
        reveal(optional);
        reveal_strlit("uri");
        reveal_strlit("diagnostics");
        reveal_strlit("version");
        Url::lemma_round_trip(value.uri);
    }
}

} // verus!
