//! The wire form of the protocol: what it means for a type to have one, the
//! wire forms of the basic types, and the reading and writing of the members
//! of objects.

use crate::json::{
    copy_members, lemma_array_view, lemma_object_view, Json, JsonValue, LSPObject, Number,
};
use vstd::prelude::*;

verus! {

/// Why a document could not be read as a value of the protocol.
#[derive(Debug, PartialEq, Eq, Structural, Clone, Copy)]
pub enum CodecError {
    /// An integer that names no variant of an enumeration; `lowest` and
    /// `highest` bound the integers that do.
    InvalidEnumValue { value: Number, lowest: u8, highest: u8 },
    /// No variant of a union has the shape of the document.
    NoVariantMatched,
    /// An integer with a bit set that stands for no flag.
    InvalidFlagBits { value: Number },
    /// A token string that is not base64 text, or whose bytes do not fill
    /// whole records.
    MalformedBase64,
    /// A token array whose length is not a multiple of five.
    TokenArrayLengthInvalid,
    /// A tag support field that is neither a boolean nor an object.
    InvalidTagSupportShape,
    /// A document of another JSON type than the value needs.
    UnexpectedType,
    /// An object without a member that the value needs.
    MissingField,
    /// A string that names no variant of an enumeration.
    UnknownVariant,
    /// A string that is not an absolute URL.
    InvalidUrl,
    /// A string that is not a URI reference.
    InvalidUri,
}

/// A member of an object: a key and the document filed under it.
pub type Member = (Seq<char>, JsonValue);

/// A type of the protocol together with its form on the wire.
///
/// `encode` and `decode` say what the wire form is, over the values that the
/// type stands for; `serialize` and `deserialize` compute it.
pub trait Codec: DeepView + Sized {
    /// The document that stands for `value`.
    spec fn encode(value: Self::V) -> JsonValue;

    /// The value that `json` stands for, or the reason why it stands for none.
    spec fn decode(json: JsonValue) -> Result<Self::V, CodecError>;

    /// Writes the value as a document.
    fn serialize(&self) -> (json: Json)
        ensures
            json.deep_view() == Self::encode(self.deep_view()),
    ;

    /// Reads a value from a document.
    fn deserialize(json: &Json) -> (result: Result<Self, CodecError>)
        ensures
            outcome(result) == Self::decode(json.deep_view()),
    ;
}

/// The outcome of a decoding step, with the value taken by its view.
pub open spec fn outcome<T: DeepView>(result: Result<T, CodecError>) -> Result<T::V, CodecError> {
    match result {
        Ok(value) => Ok(value.deep_view()),
        Err(error) => Err(error),
    }
}

impl Codec for bool {
    open spec fn encode(value: bool) -> JsonValue {
        JsonValue::Bool(value)
    }

    open spec fn decode(json: JsonValue) -> Result<bool, CodecError> {
        match json {
            JsonValue::Bool(b) => Ok(b),
            _ => Err(CodecError::UnexpectedType),
        }
    }

    fn serialize(&self) -> (json: Json) {
        Json::Bool(*self)
    }

    fn deserialize(json: &Json) -> (result: Result<bool, CodecError>) {
        match json {
            Json::Bool(b) => Ok(*b),
            _ => Err(CodecError::UnexpectedType),
        }
    }
}

impl Codec for u64 {
    open spec fn encode(value: u64) -> JsonValue {
        JsonValue::Number(Number::PosInt(value))
    }

    open spec fn decode(json: JsonValue) -> Result<u64, CodecError> {
        match json {
            JsonValue::Number(Number::PosInt(n)) => Ok(n),
            _ => Err(CodecError::UnexpectedType),
        }
    }

    fn serialize(&self) -> (json: Json) {
        Json::Number(Number::PosInt(*self))
    }

    fn deserialize(json: &Json) -> (result: Result<u64, CodecError>) {
        match json {
            Json::Number(Number::PosInt(n)) => Ok(*n),
            _ => Err(CodecError::UnexpectedType),
        }
    }
}

impl Codec for u32 {
    open spec fn encode(value: u32) -> JsonValue {
        JsonValue::Number(Number::PosInt(value as u64))
    }

    open spec fn decode(json: JsonValue) -> Result<u32, CodecError> {
        match json {
            JsonValue::Number(Number::PosInt(n)) if n <= u32::MAX => Ok(n as u32),
            _ => Err(CodecError::UnexpectedType),
        }
    }

    fn serialize(&self) -> (json: Json) {
        Json::Number(Number::PosInt(*self as u64))
    }

    fn deserialize(json: &Json) -> (result: Result<u32, CodecError>) {
        match json {
            Json::Number(Number::PosInt(n)) => {
                if *n <= u32::MAX as u64 {
                    Ok(*n as u32)
                } else {
                    Err(CodecError::UnexpectedType)
                }
            },
            _ => Err(CodecError::UnexpectedType),
        }
    }
}

impl Codec for i64 {
    open spec fn encode(value: i64) -> JsonValue {
        if value >= 0 {
            JsonValue::Number(Number::PosInt(value as u64))
        } else {
            JsonValue::Number(Number::NegInt(value))
        }
    }

    open spec fn decode(json: JsonValue) -> Result<i64, CodecError> {
        match json {
            JsonValue::Number(Number::PosInt(n)) if n <= i64::MAX => Ok(n as i64),
            JsonValue::Number(Number::NegInt(n)) => Ok(n),
            _ => Err(CodecError::UnexpectedType),
        }
    }

    fn serialize(&self) -> (json: Json) {
        if *self >= 0 {
            Json::Number(Number::PosInt(*self as u64))
        } else {
            Json::Number(Number::NegInt(*self))
        }
    }

    fn deserialize(json: &Json) -> (result: Result<i64, CodecError>) {
        match json {
            Json::Number(Number::PosInt(n)) => {
                if *n <= i64::MAX as u64 {
                    Ok(*n as i64)
                } else {
                    Err(CodecError::UnexpectedType)
                }
            },
            Json::Number(Number::NegInt(n)) => Ok(*n),
            _ => Err(CodecError::UnexpectedType),
        }
    }
}

impl Codec for i32 {
    open spec fn encode(value: i32) -> JsonValue {
        if value >= 0 {
            JsonValue::Number(Number::PosInt(value as u64))
        } else {
            JsonValue::Number(Number::NegInt(value as i64))
        }
    }

    open spec fn decode(json: JsonValue) -> Result<i32, CodecError> {
        match json {
            JsonValue::Number(Number::PosInt(n)) if n <= i32::MAX => Ok(n as i32),
            JsonValue::Number(Number::NegInt(n)) if i32::MIN <= n <= i32::MAX => Ok(n as i32),
            _ => Err(CodecError::UnexpectedType),
        }
    }

    fn serialize(&self) -> (json: Json) {
        if *self >= 0 {
            Json::Number(Number::PosInt(*self as u64))
        } else {
            Json::Number(Number::NegInt(*self as i64))
        }
    }

    fn deserialize(json: &Json) -> (result: Result<i32, CodecError>) {
        match json {
            Json::Number(Number::PosInt(n)) => {
                if *n <= i32::MAX as u64 {
                    Ok(*n as i32)
                } else {
                    Err(CodecError::UnexpectedType)
                }
            },
            Json::Number(Number::NegInt(n)) => {
                if i32::MIN as i64 <= *n && *n <= i32::MAX as i64 {
                    Ok(*n as i32)
                } else {
                    Err(CodecError::UnexpectedType)
                }
            },
            _ => Err(CodecError::UnexpectedType),
        }
    }
}

impl Codec for String {
    open spec fn encode(value: Seq<char>) -> JsonValue {
        JsonValue::String(value)
    }

    open spec fn decode(json: JsonValue) -> Result<Seq<char>, CodecError> {
        match json {
            JsonValue::String(s) => Ok(s),
            _ => Err(CodecError::UnexpectedType),
        }
    }

    fn serialize(&self) -> (json: Json) {
        Json::String(self.clone())
    }

    fn deserialize(json: &Json) -> (result: Result<String, CodecError>) {
        match json {
            Json::String(s) => Ok(s.clone()),
            _ => Err(CodecError::UnexpectedType),
        }
    }
}

impl Codec for Number {
    open spec fn encode(value: Number) -> JsonValue {
        JsonValue::Number(value)
    }

    open spec fn decode(json: JsonValue) -> Result<Number, CodecError> {
        match json {
            JsonValue::Number(n) => Ok(n),
            _ => Err(CodecError::UnexpectedType),
        }
    }

    fn serialize(&self) -> (json: Json) {
        Json::Number(*self)
    }

    fn deserialize(json: &Json) -> (result: Result<Number, CodecError>) {
        match json {
            Json::Number(n) => Ok(*n),
            _ => Err(CodecError::UnexpectedType),
        }
    }
}

impl Codec for Json {
    open spec fn encode(value: JsonValue) -> JsonValue {
        value
    }

    open spec fn decode(json: JsonValue) -> Result<JsonValue, CodecError> {
        Ok(json)
    }

    fn serialize(&self) -> (json: Json) {
        self.clone()
    }

    fn deserialize(json: &Json) -> (result: Result<Json, CodecError>) {
        Ok(json.clone())
    }
}

impl Codec for LSPObject {
    open spec fn encode(value: Seq<Member>) -> JsonValue {
        JsonValue::Object(value)
    }

    open spec fn decode(json: JsonValue) -> Result<Seq<Member>, CodecError> {
        match json {
            JsonValue::Object(members) => Ok(members),
            _ => Err(CodecError::UnexpectedType),
        }
    }

    fn serialize(&self) -> (json: Json) {
        let members = copy_members(&self.members);
        proof {
            lemma_object_view(members);
        }
        Json::Object(members)
    }

    fn deserialize(json: &Json) -> (result: Result<LSPObject, CodecError>) {
        match json {
            Json::Object(members) => {
                proof {
                    lemma_object_view(*members);
                }
                Ok(LSPObject { members: copy_members(members) })
            },
            _ => Err(CodecError::UnexpectedType),
        }
    }
}

/// The documents that stand for the values of a sequence, in order.
pub open spec fn encode_all<T: Codec>(values: Seq<T::V>) -> Seq<JsonValue> {
    Seq::new(values.len(), |i: int| T::encode(values[i]))
}

/// The values that the documents of a sequence stand for, in order, or the
/// error of the first document that stands for none.
pub open spec fn decode_all<T: Codec>(items: Seq<JsonValue>) -> Result<Seq<T::V>, CodecError>
    decreases items.len(),
{
    if items.len() == 0 {
        Ok(Seq::empty())
    } else {
        match decode_all::<T>(items.drop_last()) {
            Err(error) => Err(error),
            Ok(values) => match T::decode(items.last()) {
                Err(error) => Err(error),
                Ok(value) => Ok(values.push(value)),
            },
        }
    }
}

impl<T: Codec> Codec for Vec<T> {
    open spec fn encode(value: Seq<T::V>) -> JsonValue {
        JsonValue::Array(encode_all::<T>(value))
    }

    open spec fn decode(json: JsonValue) -> Result<Seq<T::V>, CodecError> {
        match json {
            JsonValue::Array(items) => decode_all::<T>(items),
            _ => Err(CodecError::UnexpectedType),
        }
    }

    fn serialize(&self) -> (json: Json) {
        let mut items: Vec<Json> = Vec::new();
        let mut i: usize = 0;
        while i < self.len()
            invariant
                i <= self.len(),
                items.len() == i,
                forall|k: int|
                    0 <= k < i ==> items@[k].deep_view() == T::encode(#[trigger] self@[k].deep_view()),
            decreases self.len() - i,
        {
            items.push(self[i].serialize());
            i += 1;
        }
        proof {
            lemma_array_view(items);
            assert(items.deep_view() =~= encode_all::<T>(self.deep_view()));
        }
        Json::Array(items)
    }

    fn deserialize(json: &Json) -> (result: Result<Vec<T>, CodecError>) {
        match json {
            Json::Array(items) => {
                proof {
                    lemma_array_view(*items);
                }
                let mut values: Vec<T> = Vec::new();
                let mut i: usize = 0;
                proof {
                    assert(items.deep_view().take(0) =~= Seq::empty());
                    assert(values.deep_view() =~= Seq::empty());
                }
                while i < items.len()
                    invariant
                        i <= items.len(),
                        json.deep_view() == JsonValue::Array(items.deep_view()),
                        decode_all::<T>(items.deep_view().take(i as int)) == Ok::<
                            Seq<T::V>,
                            CodecError,
                        >(values.deep_view()),
                    decreases items.len() - i,
                {
                    let ghost prefix = items.deep_view().take(i as int);
                    let ghost next = items.deep_view().take(i + 1);
                    proof {
                        assert(next.drop_last() =~= prefix);
                        assert(next.last() == items@[i as int].deep_view());
                    }
                    match T::deserialize(&items[i]) {
                        Ok(value) => {
                            let ghost before = values.deep_view();
                            values.push(value);
                            proof {
                                assert(values.deep_view() =~= before.push(value.deep_view()));
                            }
                        },
                        Err(error) => {
                            proof {
                                assert(decode_all::<T>(next) == Err::<Seq<T::V>, CodecError>(error));
                                lemma_decode_all_error::<T>(items.deep_view(), i + 1);
                            }
                            return Err(error);
                        },
                    }
                    i += 1;
                }
                proof {
                    assert(items.deep_view().take(i as int) =~= items.deep_view());
                }
                Ok(values)
            },
            _ => Err(CodecError::UnexpectedType),
        }
    }
}

/// An error among the first `n` documents is the error of the whole sequence.
pub proof fn lemma_decode_all_error<T: Codec>(items: Seq<JsonValue>, n: int)
    requires
        0 <= n <= items.len(),
        decode_all::<T>(items.take(n)) is Err,
    ensures
        decode_all::<T>(items) == decode_all::<T>(items.take(n)),
    decreases items.len(),
{
    if n < items.len() {
        assert(items.drop_last().take(n) =~= items.take(n));
        lemma_decode_all_error::<T>(items.drop_last(), n);
    } else {
        assert(items.take(n) =~= items);
    }
}

/// A value comes back unchanged from the document that stands for it.
pub open spec fn survives<T: Codec>(value: T::V) -> bool {
    T::decode(T::encode(value)) == Ok::<T::V, CodecError>(value)
}

/// A sequence whose values all survive the wire survives it too.
pub proof fn lemma_sequence_round_trip<T: Codec>(values: Seq<T::V>)
    requires
        forall|i: int| 0 <= i < values.len() ==> survives::<T>(#[trigger] values[i]),
    ensures
        decode_all::<T>(encode_all::<T>(values)) == Ok::<Seq<T::V>, CodecError>(values),
        survives::<Vec<T>>(values),
    decreases values.len(),
{
    let items = encode_all::<T>(values);
    if values.len() == 0 {
        assert(values =~= Seq::empty());
    } else {
        lemma_sequence_round_trip::<T>(values.drop_last());
        assert(items.drop_last() =~= encode_all::<T>(values.drop_last()));
        assert(items.last() == T::encode(values.last()));
        assert(values.drop_last().push(values.last()) =~= values);
    }
}

/// Booleans, integers and strings survive the wire.
pub proof fn lemma_scalars_round_trip()
    ensures
        forall|value: bool| survives::<bool>(value),
        forall|value: u64| survives::<u64>(value),
        forall|value: u32| survives::<u32>(value),
        forall|value: i64| survives::<i64>(value),
        forall|value: i32| survives::<i32>(value),
        forall|value: Number| survives::<Number>(value),
        forall|value: Seq<char>| survives::<String>(value),
        forall|value: JsonValue| survives::<Json>(value),
{
}

/// The document filed under `key`: that of the first member with this key.
#[verifier::opaque]
pub open spec fn lookup(members: Seq<Member>, key: Seq<char>) -> Option<JsonValue>
    decreases members.len(),
{
    if members.len() == 0 {
        None
    } else if members[0].0 == key {
        Some(members[0].1)
    } else {
        lookup(members.drop_first(), key)
    }
}

/// What tells two keys apart at a glance: the length, the first character,
/// the fifth where there is one, and the last but one.
pub open spec fn traits_of(key: Seq<char>) -> (nat, char, char, char) {
    (
        key.len(),
        key[0],
        if key.len() > 4 {
            key[4]
        } else {
            ' '
        },
        key[key.len() - 2],
    )
}

/// What a lookup finds is the document of one of the members.
pub proof fn lemma_lookup_member(members: Seq<Member>, key: Seq<char>)
    ensures
        lookup(members, key) matches Some(json) ==> exists|i: int|
            0 <= i < members.len() && (#[trigger] members[i]).1 == json,
    decreases members.len(),
{
    reveal(lookup);
    if members.len() > 0 && members[0].0 != key {
        lemma_lookup_member(members.drop_first(), key);
        if let Some(json) = lookup(members, key) {
            let i = choose|i: int|
                0 <= i < members.drop_first().len() && (#[trigger] members.drop_first()[i]).1
                    == json;
            assert(members[i + 1].1 == json);
        }
    }
}

/// Nothing is filed in an empty list.
pub broadcast proof fn lemma_lookup_empty(key: Seq<char>)
    ensures
        #[trigger] lookup(Seq::empty(), key) is None,
{
    reveal(lookup);
}

/// A lookup in a list of one member.
pub broadcast proof fn lemma_lookup_one(member: Member, key: Seq<char>)
    ensures
        #[trigger] lookup(seq![member], key) == if member.0 == key {
            Some(member.1)
        } else {
            None
        },
        member.0 == key ==> traits_of(member.0) == traits_of(key),
{
    reveal_with_fuel(lookup, 2);
}

/// A lookup in two member lists, one after the other, takes the first list's
/// answer where it has one.
pub broadcast proof fn lemma_lookup_concat(a: Seq<Member>, b: Seq<Member>, key: Seq<char>)
    ensures
        #[trigger] lookup(a + b, key) == match lookup(a, key) {
            Some(json) => Some(json),
            None => lookup(b, key),
        },
    decreases a.len(),
{
    reveal(lookup);
    if a.len() == 0 {
        assert(a + b =~= b);
    } else {
        assert((a + b).drop_first() =~= a.drop_first() + b);
        lemma_lookup_concat(a.drop_first(), b, key);
    }
}

/// The member that stands for a field which is always written.
#[verifier::opaque]
pub open spec fn field<T: Codec>(key: Seq<char>, value: T::V) -> Seq<Member> {
    seq![(key, T::encode(value))]
}

/// The member, if any, that stands for a field which is left out when absent.
#[verifier::opaque]
pub open spec fn optional_field<T: Codec>(key: Seq<char>, value: Option<T::V>) -> Seq<Member> {
    match value {
        Some(v) => seq![(key, T::encode(v))],
        None => Seq::empty(),
    }
}

/// The member that stands for a field which is written as `null` when absent.
#[verifier::opaque]
pub open spec fn nullable_field<T: Codec>(key: Seq<char>, value: Option<T::V>) -> Seq<Member> {
    match value {
        Some(v) => seq![(key, T::encode(v))],
        None => seq![(key, JsonValue::Null)],
    }
}

/// The value of a field that an object must have.
#[verifier::opaque]
pub open spec fn required<T: Codec>(members: Seq<Member>, key: Seq<char>) -> Result<
    T::V,
    CodecError,
> {
    match lookup(members, key) {
        Some(json) => T::decode(json),
        None => Err(CodecError::MissingField),
    }
}

/// The value of a field that an object may lack, or hold as `null`.
#[verifier::opaque]
pub open spec fn optional<T: Codec>(members: Seq<Member>, key: Seq<char>) -> Result<
    Option<T::V>,
    CodecError,
> {
    match lookup(members, key) {
        None => Ok(None),
        Some(JsonValue::Null) => Ok(None),
        Some(json) => match T::decode(json) {
            Ok(value) => Ok(Some(value)),
            Err(error) => Err(error),
        },
    }
}

/// A lookup among the members of a field which is always written.
pub broadcast proof fn lemma_lookup_field<T: Codec>(name: Seq<char>, value: T::V, key: Seq<char>)
    ensures
        #[trigger] lookup(field::<T>(name, value), key) == if name == key {
            Some(T::encode(value))
        } else {
            None
        },
        name == key ==> traits_of(name) == traits_of(key),
{
    reveal(field);
    lemma_lookup_one((name, T::encode(value)), key);
}

/// A lookup among the members of a field which is left out when absent.
pub broadcast proof fn lemma_lookup_optional_field<T: Codec>(
    name: Seq<char>,
    value: Option<T::V>,
    key: Seq<char>,
)
    ensures
        #[trigger] lookup(optional_field::<T>(name, value), key) == if name == key && value is Some {
            Some(T::encode(value->Some_0))
        } else {
            None
        },
        name == key ==> traits_of(name) == traits_of(key),
{
    reveal(optional_field);
    lemma_lookup_empty(key);
    if value is Some {
        lemma_lookup_one((name, T::encode(value->Some_0)), key);
    }
}

/// A lookup among the members of a field which is written as `null` when absent.
pub broadcast proof fn lemma_lookup_nullable_field<T: Codec>(
    name: Seq<char>,
    value: Option<T::V>,
    key: Seq<char>,
)
    ensures
        #[trigger] lookup(nullable_field::<T>(name, value), key) == if name == key {
            Some(
                match value {
                    Some(v) => T::encode(v),
                    None => JsonValue::Null,
                },
            )
        } else {
            None
        },
        name == key ==> traits_of(name) == traits_of(key),
{
    reveal(nullable_field);
    match value {
        Some(v) => lemma_lookup_one((name, T::encode(v)), key),
        None => lemma_lookup_one((name, JsonValue::Null), key),
    }
}

pub broadcast group group_lookup {
    lemma_lookup_empty,
    lemma_lookup_concat,
    lemma_lookup_field,
    lemma_lookup_optional_field,
    lemma_lookup_nullable_field,
}

/// The value of a list field that stands for the empty list where an object
/// lacks it.
#[verifier::opaque]
pub open spec fn defaulted<T: Codec>(members: Seq<Member>, key: Seq<char>) -> Result<
    Seq<T::V>,
    CodecError,
> {
    match lookup(members, key) {
        Some(json) => Vec::<T>::decode(json),
        None => Ok(Seq::empty()),
    }
}

/// Finds the document filed under `key`.
pub fn find<'a>(members: &'a Vec<(String, Json)>, key: &str) -> (found: Option<&'a Json>)
    ensures
        found.deep_view() == lookup(members.deep_view(), key@),
        found matches Some(json) ==> exists|i: int|
            0 <= i < members@.len() && (#[trigger] members@[i]).1 == *json,
{
    let wanted = key.to_owned();
    let mut i: usize = 0;
    proof {
        assert(members.deep_view().skip(0) =~= members.deep_view());
    }
    while i < members.len()
        invariant
            i <= members.len(),
            wanted@ == key@,
            lookup(members.deep_view(), key@) == lookup(members.deep_view().skip(i as int), key@),
        decreases members.len() - i,
    {
        let ghost rest = members.deep_view().skip(i as int);
        proof {
            reveal(lookup);
            assert(rest[0] == members@[i as int].deep_view());
            assert(rest.drop_first() =~= members.deep_view().skip(i + 1));
        }
        if members[i].0 == wanted {
            return Some(&members[i].1);
        }
        i += 1;
    }
    proof {
        reveal(lookup);
    }
    None
}

/// Appends the member of a field which is always written.
pub fn put<T: Codec>(members: &mut Vec<(String, Json)>, key: &str, value: &T)
    ensures
        final(members).deep_view() == old(members).deep_view() + field::<T>(key@, value.deep_view()),
{
    let ghost before = members.deep_view();
    members.push((key.to_owned(), value.serialize()));
    proof {
        reveal(field);
        assert(members.deep_view() =~= before + field::<T>(key@, value.deep_view()));
    }
}

/// Appends the member of a field which is left out when absent.
pub fn put_optional<T: Codec>(members: &mut Vec<(String, Json)>, key: &str, value: &Option<T>)
    ensures
        final(members).deep_view() == old(members).deep_view() + optional_field::<T>(
            key@,
            value.deep_view(),
        ),
{
    let ghost before = members.deep_view();
    match value {
        Some(v) => {
            members.push((key.to_owned(), v.serialize()));
        },
        None => {},
    }
    proof {
        reveal(optional_field);
        assert(members.deep_view() =~= before + optional_field::<T>(key@, value.deep_view()));
    }
}

/// Appends the member of a field which is written as `null` when absent.
pub fn put_nullable<T: Codec>(members: &mut Vec<(String, Json)>, key: &str, value: &Option<T>)
    ensures
        final(members).deep_view() == old(members).deep_view() + nullable_field::<T>(
            key@,
            value.deep_view(),
        ),
{
    let ghost before = members.deep_view();
    match value {
        Some(v) => {
            members.push((key.to_owned(), v.serialize()));
        },
        None => {
            members.push((key.to_owned(), Json::Null));
        },
    }
    proof {
        reveal(nullable_field);
        assert(members.deep_view() =~= before + nullable_field::<T>(key@, value.deep_view()));
    }
}

/// Reads a field that an object must have.
pub fn get<T: Codec>(members: &Vec<(String, Json)>, key: &str) -> (result: Result<T, CodecError>)
    ensures
        outcome(result) == required::<T>(members.deep_view(), key@),
{
    proof {
        reveal(required);
    }
    match find(members, key) {
        Some(json) => T::deserialize(json),
        None => Err(CodecError::MissingField),
    }
}

/// Reads a field that an object may lack, or hold as `null`.
pub fn get_optional<T: Codec>(members: &Vec<(String, Json)>, key: &str) -> (result: Result<
    Option<T>,
    CodecError,
>)
    ensures
        outcome(result) == optional::<T>(members.deep_view(), key@),
{
    proof {
        reveal(optional);
    }
    match find(members, key) {
        None => Ok(None),
        Some(Json::Null) => Ok(None),
        Some(json) => match T::deserialize(json) {
            Ok(value) => Ok(Some(value)),
            Err(error) => Err(error),
        },
    }
}

/// Reads a list field that stands for the empty list where an object lacks it.
pub fn get_defaulted<T: Codec>(members: &Vec<(String, Json)>, key: &str) -> (result: Result<
    Vec<T>,
    CodecError,
>)
    ensures
        outcome(result) == defaulted::<T>(members.deep_view(), key@),
{
    proof {
        reveal(defaulted);
    }
    match find(members, key) {
        Some(json) => Vec::<T>::deserialize(json),
        None => {
            let empty: Vec<T> = Vec::new();
            proof {
                assert(empty.deep_view() =~= Seq::empty());
            }
            Ok(empty)
        },
    }
}

/// A type of the protocol that is written as the members of an object.
pub trait Record: DeepView + Sized {
    /// The members `before`, followed by those that stand for `value` in the
    /// order in which they are written.
    spec fn members(before: Seq<Member>, value: Self::V) -> Seq<Member>;

    /// The value that the members of an object stand for.
    spec fn read(members: Seq<Member>) -> Result<Self::V, CodecError>;

    /// Appends the members of the value to those of an object.
    fn write(&self, members: &mut Vec<(String, Json)>)
        ensures
            final(members).deep_view() == Self::members(old(members).deep_view(), self.deep_view()),
    ;

    /// Reads a value from the members of an object. Members that the value
    /// has no use for are passed over.
    fn scan(members: &Vec<(String, Json)>) -> (result: Result<Self, CodecError>)
        ensures
            outcome(result) == Self::read(members.deep_view()),
    ;
}

impl<T: Record> Codec for T {
    open spec fn encode(value: T::V) -> JsonValue {
        JsonValue::Object(T::members(Seq::empty(), value))
    }

    open spec fn decode(json: JsonValue) -> Result<T::V, CodecError> {
        match json {
            JsonValue::Object(members) => T::read(members),
            _ => Err(CodecError::UnexpectedType),
        }
    }

    fn serialize(&self) -> (json: Json) {
        let mut members: Vec<(String, Json)> = Vec::new();
        proof {
            assert(members.deep_view() =~= Seq::empty());
        }
        self.write(&mut members);
        proof {
            lemma_object_view(members);

        }
        Json::Object(members)
    }

    fn deserialize(json: &Json) -> (result: Result<T, CodecError>) {
        match json {
            Json::Object(members) => {
                proof {
                    lemma_object_view(*members);
                }
                T::scan(members)
            },
            _ => Err(CodecError::UnexpectedType),
        }
    }
}

} // verus!
