//! Watching files for changes.

use crate::codec::{
    Codec, CodecError, field, get, get_optional, group_lookup, Member, optional, optional_field,
    put, put_optional, Record, required, survives,
};
use crate::json::{Json, JsonValue, Number};
use crate::url::{is_url_text, Url};
use vstd::prelude::*;
use vstd::std_specs::ops::BitOrSpec;

verus! {

#[derive(Debug, PartialEq, Eq, Clone)]
pub struct DidChangeWatchedFilesParams {
    /// The actual file events.
    pub changes: Vec<FileEvent>,
}

/// What a [`DidChangeWatchedFilesParams`] stands for.
pub struct DidChangeWatchedFilesParamsModel {
    pub changes: Seq<FileEventModel>,
}

impl DeepView for DidChangeWatchedFilesParams {
    type V = DidChangeWatchedFilesParamsModel;

    open spec fn deep_view(&self) -> DidChangeWatchedFilesParamsModel {
        DidChangeWatchedFilesParamsModel {
            changes: self.changes.deep_view(),
        }
    }
}

impl Record for DidChangeWatchedFilesParams {
    open spec fn members(before: Seq<Member>, value: DidChangeWatchedFilesParamsModel) -> Seq<Member> {
        before + field::<Vec<FileEvent>>("changes"@, value.changes)
    }

    open spec fn read(members: Seq<Member>) -> Result<DidChangeWatchedFilesParamsModel, CodecError> {
        let changes = required::<Vec<FileEvent>>(members, "changes"@);
        if changes is Err {
            Err(changes->Err_0)
        } else {
            Ok(
                DidChangeWatchedFilesParamsModel {
                    changes: changes->Ok_0,
                },
            )
        }
    }

    fn write(&self, members: &mut Vec<(String, Json)>) {
        put(members, "changes", &self.changes);
    }

    fn scan(members: &Vec<(String, Json)>) -> (result: Result<DidChangeWatchedFilesParams, CodecError>) {
        let changes = get::<Vec<FileEvent>>(members, "changes");
        if let Err(error) = changes {
            Err(error)
        } else {
            Ok(
                DidChangeWatchedFilesParams {
                    changes: changes.unwrap(),
                },
            )
        }
    }
}

impl DidChangeWatchedFilesParams {
    /// A value comes back unchanged from the document that stands for it
    /// where its fields meet what is asked of them here.
    pub proof fn lemma_round_trip(value: DidChangeWatchedFilesParamsModel)
        requires
            survives::<Vec<FileEvent>>(value.changes),
        ensures
            survives::<DidChangeWatchedFilesParams>(value),
    {
        broadcast use group_lookup;

        reveal(required);
        reveal_strlit("changes");
    }
}

/// The file event type.
#[derive(Debug, PartialEq, Eq, Structural, Clone, Copy)]
pub enum FileChangeType {
    /// The file got created.
    Created,
    /// The file got changed.
    Changed,
    /// The file got deleted.
    Deleted,
}

impl DeepView for FileChangeType {
    type V = FileChangeType;

    open spec fn deep_view(&self) -> FileChangeType {
        *self
    }
}

impl FileChangeType {
    /// The integer that stands for a variant on the wire.
    pub open spec fn number(self) -> u8 {
        match self {
            FileChangeType::Created => 1,
            FileChangeType::Changed => 2,
            FileChangeType::Deleted => 3,
        }
    }

    /// The variant that an integer stands for, if any.
    pub open spec fn variant(number: int) -> Option<FileChangeType> {
        if number == 1 {
            Some(FileChangeType::Created)
        } else if number == 2 {
            Some(FileChangeType::Changed)
        } else if number == 3 {
            Some(FileChangeType::Deleted)
        } else {
            None
        }
    }

    /// Gives the integer that stands for this variant on the wire.
    pub fn to_number(self) -> (number: u8)
        ensures
            number == self.number(),
    {
        match self {
            FileChangeType::Created => 1,
            FileChangeType::Changed => 2,
            FileChangeType::Deleted => 3,
        }
    }

    /// Gives the variant that an integer stands for, if any.
    pub fn from_number(number: u64) -> (variant: Option<FileChangeType>)
        ensures
            variant == Self::variant(number as int),
    {
        if number == 1 {
            Some(FileChangeType::Created)
        } else if number == 2 {
            Some(FileChangeType::Changed)
        } else if number == 3 {
            Some(FileChangeType::Deleted)
        } else {
            None
        }
    }

    /// Every variant comes back unchanged from the integer that stands for it.
    pub proof fn lemma_survives(value: FileChangeType)
        ensures
            survives::<FileChangeType>(value),
    {
    }

    /// An integer is refused exactly when it names no variant, and the
    /// error then holds it together with the bounds of those that do.
    pub proof fn lemma_refusal(number: Number)
        requires
            !(number is Float),
        ensures
            FileChangeType::decode(JsonValue::Number(number)) is Err <==> !(number matches Number::PosInt(n)
                && 1 <= n <= 3),
            FileChangeType::decode(JsonValue::Number(number)) is Err ==> FileChangeType::decode(
                JsonValue::Number(number),
            ) == Err::<FileChangeType, CodecError>(
                CodecError::InvalidEnumValue { value: number, lowest: 1, highest: 3 },
            ),
    {
    }
}

impl Codec for FileChangeType {
    open spec fn encode(value: FileChangeType) -> JsonValue {
        JsonValue::Number(Number::PosInt(value.number() as u64))
    }

    open spec fn decode(json: JsonValue) -> Result<FileChangeType, CodecError> {
        match json {
            JsonValue::Number(Number::PosInt(n)) => match Self::variant(n as int) {
                Some(variant) => Ok(variant),
                None => Err(
                    CodecError::InvalidEnumValue { value: Number::PosInt(n), lowest: 1, highest: 3 },
                ),
            },
            JsonValue::Number(Number::NegInt(n)) => Err(
                CodecError::InvalidEnumValue { value: Number::NegInt(n), lowest: 1, highest: 3 },
            ),
            _ => Err(CodecError::UnexpectedType),
        }
    }

    fn serialize(&self) -> (json: Json) {
        Json::Number(Number::PosInt(self.to_number() as u64))
    }

    fn deserialize(json: &Json) -> (result: Result<FileChangeType, CodecError>) {
        match json {
            Json::Number(Number::PosInt(n)) => match Self::from_number(*n) {
                Some(variant) => Ok(variant),
                None => Err(
                    CodecError::InvalidEnumValue { value: Number::PosInt(*n), lowest: 1, highest: 3 },
                ),
            },
            Json::Number(Number::NegInt(n)) => Err(
                CodecError::InvalidEnumValue { value: Number::NegInt(*n), lowest: 1, highest: 3 },
            ),
            _ => Err(CodecError::UnexpectedType),
        }
    }
}

/// An event describing a file change.
#[derive(Debug, PartialEq, Eq, Clone)]
pub struct FileEvent {
    /// The file's URI.
    pub uri: Url,
    /// The change type.
    pub typ: FileChangeType,
}

/// What a [`FileEvent`] stands for.
pub struct FileEventModel {
    pub uri: Seq<char>,
    pub typ: FileChangeType,
}

impl DeepView for FileEvent {
    type V = FileEventModel;

    open spec fn deep_view(&self) -> FileEventModel {
        FileEventModel {
            uri: self.uri.deep_view(),
            typ: self.typ.deep_view(),
        }
    }
}

impl Record for FileEvent {
    open spec fn members(before: Seq<Member>, value: FileEventModel) -> Seq<Member> {
        before + field::<Url>("uri"@, value.uri)
            + field::<FileChangeType>("type"@, value.typ)
    }

    open spec fn read(members: Seq<Member>) -> Result<FileEventModel, CodecError> {
        let uri = required::<Url>(members, "uri"@);
        let typ = required::<FileChangeType>(members, "type"@);
        if uri is Err {
            Err(uri->Err_0)
        } else if typ is Err {
            Err(typ->Err_0)
        } else {
            Ok(
                FileEventModel {
                    uri: uri->Ok_0,
                    typ: typ->Ok_0,
                },
            )
        }
    }

    fn write(&self, members: &mut Vec<(String, Json)>) {
        put(members, "uri", &self.uri);
        put(members, "type", &self.typ);
    }

    fn scan(members: &Vec<(String, Json)>) -> (result: Result<FileEvent, CodecError>) {
        let uri = get::<Url>(members, "uri");
        let typ = get::<FileChangeType>(members, "type");
        if let Err(error) = uri {
            Err(error)
        } else if let Err(error) = typ {
            Err(error)
        } else {
            Ok(
                FileEvent {
                    uri: uri.unwrap(),
                    typ: typ.unwrap(),
                },
            )
        }
    }
}

impl FileEvent {
    /// Builds the value from its fields.
    pub fn new(uri: Url, typ: FileChangeType) -> (result: FileEvent)
        ensures
            result == (FileEvent { uri, typ }),
    {
        FileEvent { uri, typ }
    }

    /// A value comes back unchanged from the document that stands for it
    /// where its fields meet what is asked of them here.
    pub proof fn lemma_round_trip(value: FileEventModel)
        requires
            is_url_text(value.uri),
        ensures
            survives::<FileEvent>(value),
    {
        broadcast use group_lookup;

        reveal(required);
        reveal_strlit("uri");
        reveal_strlit("type");
        Url::lemma_round_trip(value.uri);
        FileChangeType::lemma_survives(value.typ);
    }
}

/// Describe options to be used when registered for text document change events.
#[derive(Debug, PartialEq, Eq, PartialOrd, Ord, Clone)]
pub struct DidChangeWatchedFilesRegistrationOptions {
    /// The watchers to register.
    pub watchers: Vec<FileSystemWatcher>,
}

/// What a [`DidChangeWatchedFilesRegistrationOptions`] stands for.
pub struct DidChangeWatchedFilesRegistrationOptionsModel {
    pub watchers: Seq<FileSystemWatcherModel>,
}

impl DeepView for DidChangeWatchedFilesRegistrationOptions {
    type V = DidChangeWatchedFilesRegistrationOptionsModel;

    open spec fn deep_view(&self) -> DidChangeWatchedFilesRegistrationOptionsModel {
        DidChangeWatchedFilesRegistrationOptionsModel {
            watchers: self.watchers.deep_view(),
        }
    }
}

impl Record for DidChangeWatchedFilesRegistrationOptions {
    open spec fn members(before: Seq<Member>, value: DidChangeWatchedFilesRegistrationOptionsModel) -> Seq<Member> {
        before + field::<Vec<FileSystemWatcher>>("watchers"@, value.watchers)
    }

    open spec fn read(members: Seq<Member>) -> Result<DidChangeWatchedFilesRegistrationOptionsModel, CodecError> {
        let watchers = required::<Vec<FileSystemWatcher>>(members, "watchers"@);
        if watchers is Err {
            Err(watchers->Err_0)
        } else {
            Ok(
                DidChangeWatchedFilesRegistrationOptionsModel {
                    watchers: watchers->Ok_0,
                },
            )
        }
    }

    fn write(&self, members: &mut Vec<(String, Json)>) {
        put(members, "watchers", &self.watchers);
    }

    fn scan(members: &Vec<(String, Json)>) -> (result: Result<DidChangeWatchedFilesRegistrationOptions, CodecError>) {
        let watchers = get::<Vec<FileSystemWatcher>>(members, "watchers");
        if let Err(error) = watchers {
            Err(error)
        } else {
            Ok(
                DidChangeWatchedFilesRegistrationOptions {
                    watchers: watchers.unwrap(),
                },
            )
        }
    }
}

impl DidChangeWatchedFilesRegistrationOptions {
    /// A value comes back unchanged from the document that stands for it
    /// where its fields meet what is asked of them here.
    pub proof fn lemma_round_trip(value: DidChangeWatchedFilesRegistrationOptionsModel)
        requires
            survives::<Vec<FileSystemWatcher>>(value.watchers),
        ensures
            survives::<DidChangeWatchedFilesRegistrationOptions>(value),
    {
        broadcast use group_lookup;

        reveal(required);
        reveal_strlit("watchers");
    }
}

#[derive(Debug, PartialEq, Eq, PartialOrd, Ord, Clone)]
pub struct FileSystemWatcher {
    /// The  glob pattern to watch
    pub glob_pattern: String,
    /// The kind of events of interest. If omitted it defaults to WatchKind.Create |
    /// WatchKind.Change | WatchKind.Delete which is 7.
    pub kind: Option<WatchKind>,
}

/// What a [`FileSystemWatcher`] stands for.
pub struct FileSystemWatcherModel {
    pub glob_pattern: Seq<char>,
    pub kind: Option<u8>,
}

impl DeepView for FileSystemWatcher {
    type V = FileSystemWatcherModel;

    open spec fn deep_view(&self) -> FileSystemWatcherModel {
        FileSystemWatcherModel {
            glob_pattern: self.glob_pattern.deep_view(),
            kind: self.kind.deep_view(),
        }
    }
}

impl Record for FileSystemWatcher {
    open spec fn members(before: Seq<Member>, value: FileSystemWatcherModel) -> Seq<Member> {
        before + field::<String>("globPattern"@, value.glob_pattern)
            + optional_field::<WatchKind>("kind"@, value.kind)
    }

    open spec fn read(members: Seq<Member>) -> Result<FileSystemWatcherModel, CodecError> {
        let glob_pattern = required::<String>(members, "globPattern"@);
        let kind = optional::<WatchKind>(members, "kind"@);
        if glob_pattern is Err {
            Err(glob_pattern->Err_0)
        } else if kind is Err {
            Err(kind->Err_0)
        } else {
            Ok(
                FileSystemWatcherModel {
                    glob_pattern: glob_pattern->Ok_0,
                    kind: kind->Ok_0,
                },
            )
        }
    }

    fn write(&self, members: &mut Vec<(String, Json)>) {
        put(members, "globPattern", &self.glob_pattern);
        put_optional(members, "kind", &self.kind);
    }

    fn scan(members: &Vec<(String, Json)>) -> (result: Result<FileSystemWatcher, CodecError>) {
        let glob_pattern = get::<String>(members, "globPattern");
        let kind = get_optional::<WatchKind>(members, "kind");
        if let Err(error) = glob_pattern {
            Err(error)
        } else if let Err(error) = kind {
            Err(error)
        } else {
            Ok(
                FileSystemWatcher {
                    glob_pattern: glob_pattern.unwrap(),
                    kind: kind.unwrap(),
                },
            )
        }
    }
}

impl FileSystemWatcher {
    /// A value comes back unchanged from the document that stands for it
    /// where its fields meet what is asked of them here.
    pub proof fn lemma_round_trip(value: FileSystemWatcherModel)
        requires
            value.kind matches Some(v) ==> is_watch_kind(v),
        ensures
            survives::<FileSystemWatcher>(value),
    {
        broadcast use group_lookup;

        reveal(required);
        reveal(optional);
        reveal_strlit("globPattern");
        reveal_strlit("kind");
        if let Some(v) = value.kind {
            WatchKind::lemma_round_trip(v);
        }
    }
}

/// The kinds of file events that a watcher is interested in: a set of the
/// flags `Create`, `Change` and `Delete`.
#[derive(Debug, PartialEq, Eq, PartialOrd, Ord, Hash, Clone, Copy)]
pub struct WatchKind {
    bits: u8,
}

/// The bits of the three flags together.
pub const ALL_WATCH_KINDS: u8 = 7;

/// A bit pattern stands for a set of flags where no other bit is set.
pub open spec fn is_watch_kind(bits: u8) -> bool {
    bits & !ALL_WATCH_KINDS == 0
}

/// The patterns that stand for a set of flags are those from 0 to 7.
pub proof fn lemma_watch_kind_range(bits: u8)
    ensures
        is_watch_kind(bits) <==> bits <= 7,
{
    assert(bits & !7u8 == 0 <==> bits <= 7) by (bit_vector);
}

impl DeepView for WatchKind {
    type V = u8;

    closed spec fn deep_view(&self) -> u8 {
        self.bits
    }
}

impl WatchKind {
    #[verifier::type_invariant]
    spec fn well_formed(self) -> bool {
        is_watch_kind(self.bits)
    }

    /// Interested in create events.
    #[allow(non_snake_case)]
    pub fn Create() -> (flags: WatchKind)
        ensures
            flags.deep_view() == 1,
    {
        assert(1u8 & !7u8 == 0) by (bit_vector);
        WatchKind { bits: 1 }
    }

    /// Interested in change events.
    #[allow(non_snake_case)]
    pub fn Change() -> (flags: WatchKind)
        ensures
            flags.deep_view() == 2,
    {
        assert(2u8 & !7u8 == 0) by (bit_vector);
        WatchKind { bits: 2 }
    }

    /// Interested in delete events.
    #[allow(non_snake_case)]
    pub fn Delete() -> (flags: WatchKind)
        ensures
            flags.deep_view() == 4,
    {
        assert(4u8 & !7u8 == 0) by (bit_vector);
        WatchKind { bits: 4 }
    }

    /// The empty set of flags.
    pub fn empty() -> (flags: WatchKind)
        ensures
            flags.deep_view() == 0,
    {
        assert(0u8 & !7u8 == 0) by (bit_vector);
        WatchKind { bits: 0 }
    }

    /// The set of all flags.
    pub fn all() -> (flags: WatchKind)
        ensures
            flags.deep_view() == 7,
    {
        assert(7u8 & !7u8 == 0) by (bit_vector);
        WatchKind { bits: 7 }
    }

    /// The bits of the flags in this set, OR'd together.
    pub fn bits(&self) -> (bits: u8)
        ensures
            bits == self.deep_view(),
            is_watch_kind(bits),
    {
        proof {
            use_type_invariant(self);
        }
        self.bits
    }

    /// The set of flags that a bit pattern stands for, unless a bit is set
    /// that stands for no flag.
    pub fn from_bits(bits: u8) -> (flags: Option<WatchKind>)
        ensures
            flags.deep_view() == if is_watch_kind(bits) {
                Some(bits)
            } else {
                None
            },
    {
        if bits & !ALL_WATCH_KINDS == 0 {
            Some(WatchKind { bits })
        } else {
            None
        }
    }

    /// Whether every flag of `other` is in this set.
    pub fn contains(&self, other: WatchKind) -> (found: bool)
        ensures
            found == (self.deep_view() & other.deep_view() == other.deep_view()),
    {
        self.bits & other.bits == other.bits
    }

    /// The flags that are in this set or in `other`.
    pub fn union(self, other: WatchKind) -> (flags: WatchKind)
        ensures
            flags.deep_view() == self.deep_view() | other.deep_view(),
    {
        proof {
            use_type_invariant(self);
            use_type_invariant(other);
            let a = self.bits;
            let b = other.bits;
            assert(a & !7u8 == 0 && b & !7u8 == 0 ==> (a | b) & !7u8 == 0) by (bit_vector);
        }
        WatchKind { bits: self.bits | other.bits }
    }

    /// Whether no flag is in this set.
    pub fn is_empty(&self) -> (empty: bool)
        ensures
            empty == (self.deep_view() == 0),
    {
        self.bits == 0
    }

    /// Whether every flag is in this set.
    pub fn is_all(&self) -> (all: bool)
        ensures
            all == (self.deep_view() == ALL_WATCH_KINDS),
    {
        self.bits == ALL_WATCH_KINDS
    }

    /// Whether some flag of `other` is in this set.
    pub fn intersects(&self, other: WatchKind) -> (common: bool)
        ensures
            common == (self.deep_view() & other.deep_view() != 0),
    {
        self.bits & other.bits != 0
    }

    /// The flags that are in this set and in `other`.
    pub fn intersection(self, other: WatchKind) -> (flags: WatchKind)
        ensures
            flags.deep_view() == self.deep_view() & other.deep_view(),
    {
        proof {
            use_type_invariant(self);
            let a = self.bits;
            let b = other.bits;
            assert(a & !7u8 == 0 ==> (a & b) & !7u8 == 0) by (bit_vector);
        }
        WatchKind { bits: self.bits & other.bits }
    }

    /// The flags that are in this set and not in `other`.
    pub fn difference(self, other: WatchKind) -> (flags: WatchKind)
        ensures
            flags.deep_view() == self.deep_view() & !other.deep_view(),
    {
        proof {
            use_type_invariant(self);
            let a = self.bits;
            let b = other.bits;
            assert(a & !7u8 == 0 ==> (a & !b) & !7u8 == 0) by (bit_vector);
        }
        WatchKind { bits: self.bits & !other.bits }
    }

    /// `|` on two sets gives the flags that are in either.
    pub proof fn lemma_union(a: WatchKind, b: WatchKind)
        ensures
            BitOrSpec::bitor_spec(a, b).deep_view() == a.deep_view() | b.deep_view(),
    {
    }

    /// A set of flags comes back unchanged from the integer that stands for it.
    pub proof fn lemma_round_trip(bits: u8)
        requires
            is_watch_kind(bits),
        ensures
            survives::<WatchKind>(bits),
    {
        lemma_watch_kind_range(bits);
    }

    /// An integer is refused exactly when it is not a pattern of the three
    /// flags, and the error then holds it.
    pub proof fn lemma_refusal(number: Number)
        requires
            !(number is Float),
        ensures
            WatchKind::decode(JsonValue::Number(number)) is Ok <==> (number matches Number::PosInt(n)
                && n <= 7),
            WatchKind::decode(JsonValue::Number(number)) is Err ==> WatchKind::decode(
                JsonValue::Number(number),
            ) == Err::<u8, CodecError>(CodecError::InvalidFlagBits { value: number }),
    {
        if let Number::PosInt(n) = number {
            if n <= u8::MAX {
                lemma_watch_kind_range(n as u8);
            }
        }
    }
}

impl core::ops::BitOr for WatchKind {
    type Output = WatchKind;

    fn bitor(self, other: WatchKind) -> (flags: WatchKind) {
        self.union(other)
    }
}

impl vstd::std_specs::ops::BitOrSpecImpl for WatchKind {
    open spec fn obeys_bitor_spec() -> bool {
        true
    }

    open spec fn bitor_req(self, other: WatchKind) -> bool {
        true
    }

    closed spec fn bitor_spec(self, other: WatchKind) -> WatchKind {
        WatchKind { bits: self.bits | other.bits }
    }
}

impl Codec for WatchKind {
    open spec fn encode(value: u8) -> JsonValue {
        JsonValue::Number(Number::PosInt(value as u64))
    }

    open spec fn decode(json: JsonValue) -> Result<u8, CodecError> {
        match json {
            JsonValue::Number(Number::PosInt(n)) => {
                if n <= u8::MAX && is_watch_kind(n as u8) {
                    Ok(n as u8)
                } else {
                    Err(CodecError::InvalidFlagBits { value: Number::PosInt(n) })
                }
            },
            JsonValue::Number(Number::NegInt(n)) => Err(
                CodecError::InvalidFlagBits { value: Number::NegInt(n) },
            ),
            _ => Err(CodecError::UnexpectedType),
        }
    }

    fn serialize(&self) -> (json: Json) {
        Json::Number(Number::PosInt(self.bits() as u64))
    }

    fn deserialize(json: &Json) -> (result: Result<WatchKind, CodecError>) {
        match json {
            Json::Number(Number::PosInt(n)) => {
                if *n <= u8::MAX as u64 {
                    match WatchKind::from_bits(*n as u8) {
                        Some(flags) => Ok(flags),
                        None => Err(CodecError::InvalidFlagBits { value: Number::PosInt(*n) }),
                    }
                } else {
                    Err(CodecError::InvalidFlagBits { value: Number::PosInt(*n) })
                }
            },
            Json::Number(Number::NegInt(n)) => Err(
                CodecError::InvalidFlagBits { value: Number::NegInt(*n) },
            ),
            _ => Err(CodecError::UnexpectedType),
        }
    }
}

} // verus!
