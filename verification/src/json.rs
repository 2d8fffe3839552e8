//! JSON text of flat records: objects whose values are all strings, alone or
//! in a list.
//!
//! Reading and writing JSON is `serde_json`'s work. A record travels to and
//! from it as a list of key and value pairs; in contracts it is the map that
//! those pairs make.

use std::collections::BTreeMap;
use vstd::prelude::*;

verus! {

/// The error of `serde_json`.
#[verifier::external_type_specification]
#[verifier::external_body]
pub struct ExJsonError(serde_json::Error);

/// The indented JSON text that `serde_json` writes for an object with these
/// members, all of them strings.
pub uninterp spec fn object_text(object: Map<Seq<char>, Seq<char>>) -> Seq<char>;

/// The members of the JSON object that a text holds, or `None` where the
/// text is not one JSON object with string members only.
pub uninterp spec fn text_object(text: Seq<char>) -> Option<Map<Seq<char>, Seq<char>>>;

/// The compact JSON text that `serde_json` writes for a list of objects
/// with string members.
pub uninterp spec fn list_text(objects: Seq<Map<Seq<char>, Seq<char>>>) -> Seq<char>;

/// The objects of the JSON array that a text holds, or `None` where the
/// text is not one JSON array of objects with string members only.
pub uninterp spec fn text_list(text: Seq<char>) -> Option<Seq<Map<Seq<char>, Seq<char>>>>;

/// The key of the `i`-th pair.
pub open spec fn key_at(fields: Seq<(String, String)>, i: int) -> Seq<char> {
    fields[i].0@
}

/// The value of the `i`-th pair.
pub open spec fn value_at(fields: Seq<(String, String)>, i: int) -> Seq<char> {
    fields[i].1@
}

/// Whether some pair has this key.
pub open spec fn has_key(fields: Seq<(String, String)>, key: Seq<char>) -> bool {
    exists|i: int| 0 <= i < fields.len() && #[trigger] key_at(fields, i) == key
}

/// Whether no two pairs share a key.
pub open spec fn distinct_keys(fields: Seq<(String, String)>) -> bool {
    forall|i: int, j: int|
        0 <= i < j < fields.len() ==> #[trigger] key_at(fields, i) != #[trigger] key_at(fields, j)
}

/// The position of a pair with this key.
pub open spec fn index_of(fields: Seq<(String, String)>, key: Seq<char>) -> int {
    choose|i: int| 0 <= i < fields.len() && #[trigger] key_at(fields, i) == key
}

/// The object that a list of pairs with distinct keys makes.
pub open spec fn fields_object(fields: Seq<(String, String)>) -> Map<Seq<char>, Seq<char>> {
    Map::new(
        |key: Seq<char>| has_key(fields, key),
        |key: Seq<char>| value_at(fields, index_of(fields, key)),
    )
}

/// The objects that a list of records makes, one for one.
pub open spec fn records_objects(records: Seq<Vec<(String, String)>>) -> Seq<
    Map<Seq<char>, Seq<char>>,
> {
    Seq::new(records.len(), |i: int| fields_object(records[i]@))
}

/// Whether every record of the list has distinct keys.
pub open spec fn all_distinct_keys(records: Seq<Vec<(String, String)>>) -> bool {
    forall|i: int| 0 <= i < records.len() ==> distinct_keys(#[trigger] records[i]@)
}

/// Room for the JSON of one member: its quotes, colon and comma, and six
/// bytes, the longest escape, for each character of key and value.
pub open spec fn member_room(key: Seq<char>, value: Seq<char>) -> nat {
    6 + 6 * (key.len() + value.len())
}

/// Room for the JSON of the members of a record.
pub open spec fn fields_room(fields: Seq<(String, String)>) -> nat
    decreases fields.len(),
{
    if fields.len() == 0 {
        0
    } else {
        fields_room(fields.drop_last()) + member_room(fields.last().0@, fields.last().1@)
    }
}

/// Room for the compact JSON of a list of records: two brackets, and for
/// each record its braces, its comma and its members.
pub open spec fn records_room(records: Seq<Vec<(String, String)>>) -> nat
    decreases records.len(),
{
    if records.len() == 0 {
        2
    } else {
        records_room(records.drop_last()) + 3 + fields_room(records.last()@)
    }
}

/// `serde_json::to_string_pretty` on the map that the pairs make.
///
/// Writing a map with string keys and string values does not fail. The text
/// is the indented JSON of the object, and reading it gives the object back.
#[verifier::external_body]
pub(crate) fn write_object(fields: &Vec<(String, String)>) -> (r: Result<
    String,
    serde_json::Error,
>)
    requires
        distinct_keys(fields@),
    ensures
        r is Ok,
        r matches Ok(text) ==> {
            &&& text@ == object_text(fields_object(fields@))
            &&& text_object(text@) == Some(fields_object(fields@))
        },
{
    serde_json::to_string_pretty(
        &fields.iter().map(|f| (f.0.as_str(), f.1.as_str())).collect::<BTreeMap<&str, &str>>(),
    )
}

/// `serde_json::from_str` at the type of a map from strings to strings.
///
/// It returns the members of the object in the text, each key once, and
/// fails where the text is not such an object; which of the two is a
/// function of the text.
#[verifier::external_body]
pub(crate) fn read_object(text: &str) -> (r: Result<Vec<(String, String)>, serde_json::Error>)
    ensures
        r matches Ok(fields) ==> {
            &&& distinct_keys(fields@)
            &&& text_object(text@) == Some(fields_object(fields@))
        },
        r is Err ==> text_object(text@) is None,
{
    serde_json::from_str::<BTreeMap<String, String>>(text).map(|m| m.into_iter().collect())
}

/// `serde_json::to_string` on the list of the maps that the records make.
///
/// Writing maps with string keys and string values does not fail. The text
/// is the compact JSON of the list, and reading it gives the list back. The
/// text is made of brackets, braces, colons, commas and quoted strings, in
/// which a character is written as itself or as an escape of at most six
/// bytes; so it is no longer than the room reckoned for the records.
#[verifier::external_body]
pub(crate) fn write_list(records: &Vec<Vec<(String, String)>>) -> (r: Result<
    String,
    serde_json::Error,
>)
    requires
        all_distinct_keys(records@),
    ensures
        r is Ok,
        r matches Ok(text) ==> {
            &&& text@ == list_text(records_objects(records@))
            &&& text_list(text@) == Some(records_objects(records@))
            &&& vstd::utf8::encode_utf8(text@).len() <= records_room(records@)
        },
{
    serde_json::to_string(
        &records.iter().map(
            |r| r.iter().map(|f| (f.0.as_str(), f.1.as_str())).collect(),
        ).collect::<Vec<BTreeMap<&str, &str>>>(),
    )
}

/// `serde_json::from_str` at the type of a list of maps from strings to
/// strings.
///
/// It returns the objects of the array in the text, in order, each with its
/// keys once, and fails where the text is not such an array; which of the
/// two is a function of the text.
#[verifier::external_body]
pub(crate) fn read_list(text: &str) -> (r: Result<Vec<Vec<(String, String)>>, serde_json::Error>)
    ensures
        r matches Ok(records) ==> {
            &&& all_distinct_keys(records@)
            &&& text_list(text@) == Some(records_objects(records@))
        },
        r is Err ==> text_list(text@) is None,
{
    serde_json::from_str::<Vec<BTreeMap<String, String>>>(text).map(
        |v| v.into_iter().map(|m| m.into_iter().collect()).collect(),
    )
}

/// With distinct keys, the pair at `i` is the one that the object holds for
/// its key.
pub proof fn lemma_object_member(fields: Seq<(String, String)>, i: int)
    requires
        distinct_keys(fields),
        0 <= i < fields.len(),
    ensures
        fields_object(fields).dom().contains(key_at(fields, i)),
        fields_object(fields)[key_at(fields, i)] == value_at(fields, i),
{
    let key = key_at(fields, i);
    assert(has_key(fields, key));
    let j = index_of(fields, key);
    assert(0 <= j < fields.len() && key_at(fields, j) == key);
    if j < i {
        assert(key_at(fields, j) != key_at(fields, i));
    } else if i < j {
        assert(key_at(fields, i) != key_at(fields, j));
    }
}

/// The value that a record holds for a key, if it has the key.
pub(crate) fn member<'a>(fields: &'a Vec<(String, String)>, key: &str) -> (r: Option<&'a String>)
    requires
        distinct_keys(fields@),
    ensures
        r is Some <==> fields_object(fields@).dom().contains(key@),
        r matches Some(value) ==> value@ == fields_object(fields@)[key@],
{
    let wanted: String = key.to_owned();
    let mut i: usize = 0;
    while i < fields.len()
        invariant
            i <= fields.len(),
            wanted@ == key@,
            distinct_keys(fields@),
            forall|j: int| 0 <= j < i ==> #[trigger] key_at(fields@, j) != key@,
        decreases fields.len() - i,
    {
        if fields[i].0 == wanted {
            proof {
                lemma_object_member(fields@, i as int);
            }
            return Some(&fields[i].1);
        }
        i += 1;
    }
    None
}

/// A record of three members.
pub(crate) fn record3(
    key1: &str,
    value1: &String,
    key2: &str,
    value2: &String,
    key3: &str,
    value3: &String,
) -> (r: Vec<(String, String)>)
    requires
        key1@ != key2@,
        key1@ != key3@,
        key2@ != key3@,
    ensures
        distinct_keys(r@),
        fields_object(r@) == object3(key1@, value1@, key2@, value2@, key3@, value3@),
        fields_room(r@) == member_room(key1@, value1@) + member_room(key2@, value2@)
            + member_room(key3@, value3@),
{
    let mut r: Vec<(String, String)> = Vec::new();
    r.push((key1.to_owned(), value1.clone()));
    r.push((key2.to_owned(), value2.clone()));
    r.push((key3.to_owned(), value3.clone()));
    proof {
        assert(key_at(r@, 0) == key1@);
        assert(key_at(r@, 1) == key2@);
        assert(key_at(r@, 2) == key3@);
        assert(distinct_keys(r@));
        lemma_object_member(r@, 0);
        lemma_object_member(r@, 1);
        lemma_object_member(r@, 2);
        let made = fields_object(r@);
        let wanted = object3(key1@, value1@, key2@, value2@, key3@, value3@);
        assert forall|k: Seq<char>| made.dom().contains(k) implies wanted.dom().contains(k) by {
            let i = index_of(r@, k);
            assert(0 <= i < 3 && key_at(r@, i) == k);
        }
        assert(made =~= wanted);
        let two = r@.drop_last();
        let one = two.drop_last();
        assert(one.drop_last() =~= Seq::<(String, String)>::empty());
        assert(fields_room(one.drop_last()) == 0);
        assert(fields_room(one) == member_room(key1@, value1@));
        assert(fields_room(two) == fields_room(one) + member_room(key2@, value2@));
    }
    r
}

/// The object with exactly these three members.
pub open spec fn object3(
    key1: Seq<char>,
    value1: Seq<char>,
    key2: Seq<char>,
    value2: Seq<char>,
    key3: Seq<char>,
    value3: Seq<char>,
) -> Map<Seq<char>, Seq<char>> {
    Map::empty().insert(key1, value1).insert(key2, value2).insert(key3, value3)
}

} // verus!
