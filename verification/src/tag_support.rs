//! The tags that a client supports, which may arrive as a boolean.

use crate::codec::{
    field, find, get, group_lookup, lemma_sequence_round_trip, lookup, outcome, put, required,
    survives, Codec, CodecError, Member, Record,
};
use crate::json::{Json, JsonValue};
use vstd::prelude::*;

verus! {

/// The tags that a client supports for some kind of item.
#[derive(Debug, PartialEq, Eq, Clone, Default)]
pub struct TagSupport<T> {
    /// The tags supported by the client.
    pub value_set: Vec<T>,
}

/// What a [`TagSupport`] stands for.
pub struct TagSupportModel<M> {
    pub value_set: Seq<M>,
}

impl<T: DeepView> DeepView for TagSupport<T> {
    type V = TagSupportModel<T::V>;

    open spec fn deep_view(&self) -> TagSupportModel<T::V> {
        TagSupportModel { value_set: self.value_set.deep_view() }
    }
}

impl<T: Codec> Record for TagSupport<T> {
    open spec fn members(before: Seq<Member>, value: TagSupportModel<T::V>) -> Seq<Member> {
        before + field::<Vec<T>>("valueSet"@, value.value_set)
    }

    open spec fn read(members: Seq<Member>) -> Result<TagSupportModel<T::V>, CodecError> {
        let value_set = required::<Vec<T>>(members, "valueSet"@);
        if value_set is Err {
            Err(value_set->Err_0)
        } else {
            Ok(TagSupportModel { value_set: value_set->Ok_0 })
        }
    }

    fn write(&self, members: &mut Vec<(String, Json)>) {
        put(members, "valueSet", &self.value_set);
    }

    fn scan(members: &Vec<(String, Json)>) -> (result: Result<TagSupport<T>, CodecError>) {
        let value_set = get::<Vec<T>>(members, "valueSet");
        if let Err(error) = value_set {
            Err(error)
        } else {
            Ok(TagSupport { value_set: value_set.unwrap() })
        }
    }
}

impl<T: Codec> TagSupport<T> {
    /// The tag support that a field stands for, in either of the two forms
    /// that clients send. The field may be missing or hold `null` or
    /// `false`: no tag support. It may hold `true`: tag support with no tags
    /// named. It may hold an object: the tag support that the object stands
    /// for. Anything else is an error.
    pub open spec fn decode_compat(found: Option<JsonValue>) -> Result<
        Option<TagSupportModel<T::V>>,
        CodecError,
    > {
        match found {
            None => Ok(None),
            Some(JsonValue::Null) => Ok(None),
            Some(JsonValue::Bool(false)) => Ok(None),
            Some(JsonValue::Bool(true)) => Ok(Some(TagSupportModel { value_set: Seq::empty() })),
            Some(JsonValue::Object(members)) => match Self::read(members) {
                Ok(support) => Ok(Some(support)),
                Err(error) => Err(error),
            },
            Some(_) => Err(CodecError::InvalidTagSupportShape),
        }
    }

    /// Reads a tag support field that may hold a boolean in place of an
    /// object, as some clients send it.
    pub fn deserialize_compat(found: Option<&Json>) -> (result: Result<
        Option<TagSupport<T>>,
        CodecError,
    >)
        ensures
            outcome(result) == Self::decode_compat(found.deep_view()),
    {
        match found {
            None => Ok(None),
            Some(Json::Null) => Ok(None),
            Some(Json::Bool(false)) => Ok(None),
            Some(Json::Bool(true)) => {
                let value_set: Vec<T> = Vec::new();
                proof {
                    assert(value_set.deep_view() =~= Seq::empty());
                }
                Ok(Some(TagSupport { value_set }))
            },
            Some(Json::Object(members)) => {
                proof {
                    crate::json::lemma_object_view(*members);
                }
                match Self::scan(members) {
                    Ok(support) => Ok(Some(support)),
                    Err(error) => Err(error),
                }
            },
            Some(_) => Err(CodecError::InvalidTagSupportShape),
        }
    }
}

/// A tag support whose tags all survive the wire survives it too, as a
/// document and as a field that may hold a boolean in place of an object.
pub proof fn lemma_tag_support_round_trip<T: Codec>(value: TagSupportModel<T::V>)
    requires
        forall|i: int| 0 <= i < value.value_set.len() ==> survives::<T>(#[trigger] value.value_set[i]),
    ensures
        survives::<TagSupport<T>>(value),
        TagSupport::<T>::decode_compat(Some(TagSupport::<T>::encode(value))) == Ok::<
            Option<TagSupportModel<T::V>>,
            CodecError,
        >(Some(value)),
{
    broadcast use group_lookup;

    reveal(required);
    reveal_strlit("valueSet");
    lemma_sequence_round_trip::<T>(value.value_set);
}

/// The value of a tag support field, which may hold a boolean in place of an
/// object.
pub open spec fn compat<T: Codec>(members: Seq<Member>, key: Seq<char>) -> Result<
    Option<TagSupportModel<T::V>>,
    CodecError,
> {
    TagSupport::<T>::decode_compat(lookup(members, key))
}

/// Reads a tag support field, which may hold a boolean in place of an object.
pub fn get_compat<T: Codec>(members: &Vec<(String, Json)>, key: &str) -> (result: Result<
    Option<TagSupport<T>>,
    CodecError,
>)
    ensures
        outcome(result) == compat::<T>(members.deep_view(), key@),
{
    TagSupport::<T>::deserialize_compat(find(members, key))
}

} // verus!
