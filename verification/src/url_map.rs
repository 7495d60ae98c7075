//! The `changes` of a workspace edit: a map from the URLs of documents to the
//! edits to make in them, written as an object with the URLs as keys.

use crate::basic::{TextEdit, TextEditModel};
use crate::codec::{lemma_sequence_round_trip, outcome, survives, Codec, CodecError, Member};
use crate::json::{lemma_object_view, Json, JsonValue};
use crate::url::{is_url_text, url_text, Url};
use vstd::prelude::*;

verus! {

/// The edits to make in each of a set of documents: pairs of a document's URL
/// and the edits to it, no URL twice, in the order in which they were added.
pub type Changes = Vec<(Url, Vec<TextEdit>)>;

/// What [`Changes`] stand for.
pub type ChangesModel = Seq<(Seq<char>, Seq<TextEditModel>)>;

/// Whether some pair of the map has the given URL.
pub open spec fn has_key(map: ChangesModel, key: Seq<char>) -> bool {
    exists|i: int| 0 <= i < map.len() && #[trigger] map[i].0 == key
}

/// The place of a pair with the given URL, where the map has one.
pub open spec fn slot(map: ChangesModel, key: Seq<char>) -> int {
    choose|i: int| 0 <= i < map.len() && #[trigger] map[i].0 == key
}

/// No URL occurs twice in the map.
pub open spec fn distinct_keys(map: ChangesModel) -> bool {
    forall|i: int, j: int|
        0 <= i < map.len() && 0 <= j < map.len() && #[trigger] map[i].0 == #[trigger] map[j].0 ==> i
            == j
}

/// The map with `value` filed under `key`: in the place of what was filed
/// there before, or else at the end.
pub open spec fn inserted(map: ChangesModel, key: Seq<char>, value: Seq<TextEditModel>) -> ChangesModel {
    if has_key(map, key) {
        map.update(slot(map, key), (key, value))
    } else {
        map.push((key, value))
    }
}

/// Filing a value under a URL leaves no URL twice in the map.
pub proof fn lemma_inserted_distinct(map: ChangesModel, key: Seq<char>, value: Seq<TextEditModel>)
    requires
        distinct_keys(map),
    ensures
        distinct_keys(inserted(map, key, value)),
{
    let after = inserted(map, key, value);
    if has_key(map, key) {
        let at = slot(map, key);
        assert forall|i: int, j: int|
            0 <= i < after.len() && 0 <= j < after.len() && #[trigger] after[i].0
                == #[trigger] after[j].0 implies i == j by {
            assert(after[i].0 == map[i].0);
            assert(after[j].0 == map[j].0);
        }
    } else {
        assert forall|i: int, j: int|
            0 <= i < after.len() && 0 <= j < after.len() && #[trigger] after[i].0
                == #[trigger] after[j].0 implies i == j by {
            if i < map.len() && j < map.len() {
                assert(after[i].0 == map[i].0);
                assert(after[j].0 == map[j].0);
            } else if i < map.len() {
                assert(map[i].0 == key);
            } else if j < map.len() {
                assert(map[j].0 == key);
            }
        }
    }
}

/// The map that the members of an object stand for. Each key must be the
/// text of a URL and each document a list of edits; the first member that
/// fails decides the error. Where two keys stand for the same URL, the
/// later member's edits take the place of the earlier one's.
pub open spec fn entries_of(members: Seq<Member>) -> Result<ChangesModel, CodecError>
    decreases members.len(),
{
    if members.len() == 0 {
        Ok(Seq::empty())
    } else {
        match entries_of(members.drop_last()) {
            Err(error) => Err(error),
            Ok(map) => match url_text(members.last().0) {
                None => Err(CodecError::InvalidUrl),
                Some(url) => match Vec::<TextEdit>::decode(members.last().1) {
                    Err(error) => Err(error),
                    Ok(edits) => Ok(inserted(map, url, edits)),
                },
            },
        }
    }
}

/// The map that the members of an object stand for holds no URL twice.
pub proof fn lemma_entries_distinct(members: Seq<Member>)
    ensures
        entries_of(members) matches Ok(map) ==> distinct_keys(map),
    decreases members.len(),
{
    if members.len() > 0 {
        lemma_entries_distinct(members.drop_last());
        if let Ok(map) = entries_of(members.drop_last()) {
            if let Some(url) = url_text(members.last().0) {
                if let Ok(edits) = Vec::<TextEdit>::decode(members.last().1) {
                    lemma_inserted_distinct(map, url, edits);
                }
            }
        }
    }
}

/// An error among the first `n` members is the error of all of them.
pub proof fn lemma_entries_error(members: Seq<Member>, n: int)
    requires
        0 <= n <= members.len(),
        entries_of(members.take(n)) is Err,
    ensures
        entries_of(members) == entries_of(members.take(n)),
    decreases members.len(),
{
    if n < members.len() {
        assert(members.drop_last().take(n) =~= members.take(n));
        lemma_entries_error(members.drop_last(), n);
    } else {
        assert(members.take(n) =~= members);
    }
}

/// The members that stand for the pairs of a map, in order.
pub open spec fn entry_members(map: ChangesModel) -> Seq<Member> {
    Seq::new(map.len(), |i: int| (map[i].0, Vec::<TextEdit>::encode(map[i].1)))
}

/// A map that holds no URL twice and only texts of URLs comes back unchanged
/// from the members that stand for it.
pub proof fn lemma_entries_round_trip(map: ChangesModel)
    requires
        distinct_keys(map),
        forall|i: int| 0 <= i < map.len() ==> is_url_text((#[trigger] map[i]).0),
    ensures
        entries_of(entry_members(map)) == Ok::<ChangesModel, CodecError>(map),
        decode(Some(encode(Some(map)))) == Ok::<Option<ChangesModel>, CodecError>(Some(map)),
    decreases map.len(),
{
    let members = entry_members(map);
    if map.len() == 0 {
        assert(map =~= Seq::empty());
    } else {
        let front = map.drop_last();
        let (key, edits) = map.last();
        assert(members.drop_last() =~= entry_members(front));
        assert forall|i: int, j: int|
            0 <= i < front.len() && 0 <= j < front.len() && #[trigger] front[i].0
                == #[trigger] front[j].0 implies i == j by {
            assert(map[i].0 == map[j].0);
        }
        assert forall|i: int| 0 <= i < front.len() implies is_url_text((#[trigger] front[i]).0) by {
            assert(front[i] == map[i]);
        }
        lemma_entries_round_trip(front);
        assert forall|i: int| 0 <= i < edits.len() implies survives::<TextEdit>(
            #[trigger] edits[i],
        ) by {
            TextEdit::lemma_survives(edits[i]);
        }
        lemma_sequence_round_trip::<TextEdit>(edits);
        if has_key(front, key) {
            let at = slot(front, key);
            assert(map[at].0 == map[map.len() - 1].0);
        }
        assert(front.push((key, edits)) =~= map);
    }
}

/// An absent map comes back as an absent map.
pub proof fn lemma_absent_round_trip()
    ensures
        decode(Some(encode(None))) == Ok::<Option<ChangesModel>, CodecError>(None),
        decode(None) == Ok::<Option<ChangesModel>, CodecError>(None),
{
}

/// The document that stands for a map which may be absent: an object with
/// one member for each pair, or `null`.
pub open spec fn encode(changes: Option<ChangesModel>) -> JsonValue {
    match changes {
        Some(map) => JsonValue::Object(entry_members(map)),
        None => JsonValue::Null,
    }
}

/// The map that a field stands for. The field may be missing or hold `null`:
/// no map. Otherwise it must hold an object.
pub open spec fn decode(found: Option<JsonValue>) -> Result<Option<ChangesModel>, CodecError> {
    match found {
        None => Ok(None),
        Some(JsonValue::Null) => Ok(None),
        Some(JsonValue::Object(members)) => match entries_of(members) {
            Ok(map) => Ok(Some(map)),
            Err(error) => Err(error),
        },
        Some(_) => Err(CodecError::UnexpectedType),
    }
}

/// The member, if any, that stands for a map which is left out when absent.
pub open spec fn field(key: Seq<char>, changes: Option<ChangesModel>) -> Seq<Member> {
    match changes {
        Some(map) => seq![(key, JsonValue::Object(entry_members(map)))],
        None => Seq::empty(),
    }
}

/// Files `value` under `key`, in the place of what was filed there before or
/// else at the end.
pub fn insert(map: &mut Changes, key: Url, value: Vec<TextEdit>)
    requires
        distinct_keys(old(map).deep_view()),
    ensures
        final(map).deep_view() == inserted(
            old(map).deep_view(),
            key.deep_view(),
            value.deep_view(),
        ),
        distinct_keys(final(map).deep_view()),
{
    let ghost before = map.deep_view();
    proof {
        lemma_inserted_distinct(before, key.deep_view(), value.deep_view());
    }
    let mut i: usize = 0;
    while i < map.len()
        invariant
            i <= map.len(),
            map.deep_view() == before,
            before == old(map).deep_view(),
            distinct_keys(before),
            forall|k: int| 0 <= k < i ==> (#[trigger] before[k]).0 != key.deep_view(),
        decreases map.len() - i,
    {
        if map[i].0.same(&key) {
            proof {
                assert(before[i as int].0 == key.deep_view());
                assert(has_key(before, key.deep_view()));
                assert(before[slot(before, key.deep_view())].0 == before[i as int].0);
                assert(slot(before, key.deep_view()) == i);
            }
            map.set(i, (key, value));
            proof {
                assert(map.deep_view() =~= before.update(
                    i as int,
                    (key.deep_view(), value.deep_view()),
                ));
            }
            return ;
        }
        i += 1;
    }
    proof {
        assert(!has_key(before, key.deep_view()));
    }
    map.push((key, value));
    proof {
        assert(map.deep_view() =~= before.push((key.deep_view(), value.deep_view())));
    }
}

/// Reads the map of the `changes` field of a workspace edit.
pub fn deserialize(found: Option<&Json>) -> (result: Result<Option<Changes>, CodecError>)
    ensures
        outcome(result) == decode(found.deep_view()),
        result matches Ok(Some(map)) ==> distinct_keys(map.deep_view()),
{
    match found {
        None => Ok(None),
        Some(Json::Null) => Ok(None),
        Some(Json::Object(members)) => {
            proof {
                lemma_object_view(*members);
            }
            match read_entries(members) {
                Ok(map) => Ok(Some(map)),
                Err(error) => Err(error),
            }
        },
        Some(_) => Err(CodecError::UnexpectedType),
    }
}

/// Reads a map from the members of an object.
pub fn read_entries(members: &Vec<(String, Json)>) -> (result: Result<Changes, CodecError>)
    ensures
        outcome(result) == entries_of(members.deep_view()),
        result matches Ok(map) ==> distinct_keys(map.deep_view()),
{
    let mut map: Changes = Vec::new();
    let mut i: usize = 0;
    proof {
        assert(members.deep_view().take(0) =~= Seq::empty());
        assert(map.deep_view() =~= Seq::empty());
    }
    while i < members.len()
        invariant
            i <= members.len(),
            entries_of(members.deep_view().take(i as int)) == Ok::<ChangesModel, CodecError>(
                map.deep_view(),
            ),
            distinct_keys(map.deep_view()),
        decreases members.len() - i,
    {
        let ghost next = members.deep_view().take(i + 1);
        proof {
            assert(next.drop_last() =~= members.deep_view().take(i as int));
            assert(next.last() == members@[i as int].deep_view());
        }
        let url = match Url::parse(members[i].0.as_str()) {
            Ok(url) => url,
            Err(error) => {
                proof {
                    assert(entries_of(next) == Err::<ChangesModel, CodecError>(error));
                    lemma_entries_error(members.deep_view(), i + 1);
                }
                return Err(error);
            },
        };
        let edits = match Vec::<TextEdit>::deserialize(&members[i].1) {
            Ok(edits) => edits,
            Err(error) => {
                proof {
                    assert(entries_of(next) == Err::<ChangesModel, CodecError>(error));
                    lemma_entries_error(members.deep_view(), i + 1);
                }
                return Err(error);
            },
        };
        insert(&mut map, url, edits);
        i += 1;
    }
    proof {
        assert(members.deep_view().take(i as int) =~= members.deep_view());
    }
    Ok(map)
}

/// Writes the map of the `changes` field of a workspace edit.
pub fn serialize(changes: &Option<Changes>) -> (json: Json)
    ensures
        json.deep_view() == encode(changes.deep_view()),
{
    match changes {
        Some(map) => write_entries(map),
        None => Json::Null,
    }
}

/// Writes a map as an object with one member for each pair.
pub fn write_entries(map: &Changes) -> (json: Json)
    ensures
        json.deep_view() == JsonValue::Object(entry_members(map.deep_view())),
{
    let mut members: Vec<(String, Json)> = Vec::new();
    let mut i: usize = 0;
    while i < map.len()
        invariant
            i <= map.len(),
            members.len() == i,
            forall|k: int|
                0 <= k < i ==> (#[trigger] members@[k]).deep_view() == entry_members(
                    map.deep_view(),
                )[k],
        decreases map.len() - i,
    {
        members.push((map[i].0.as_str().to_owned(), map[i].1.serialize()));
        i += 1;
    }
    proof {
        lemma_object_view(members);
        assert(members.deep_view() =~= entry_members(map.deep_view()));
    }
    Json::Object(members)
}

/// Appends the member of a map which is left out when absent.
pub fn put(members: &mut Vec<(String, Json)>, key: &str, changes: &Option<Changes>)
    ensures
        final(members).deep_view() == old(members).deep_view() + field(key@, changes.deep_view()),
{
    let ghost before = members.deep_view();
    match changes {
        Some(map) => {
            members.push((key.to_owned(), write_entries(map)));
        },
        None => {},
    }
    proof {
        assert(members.deep_view() =~= before + field(key@, changes.deep_view()));
    }
}

} // verus!
