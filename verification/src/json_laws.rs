//! What JSON values stand for.

use vstd::prelude::*;

use crate::json::{
    depth_limit, entries_map, integer_in, json_read, json_text, lemma_distinct_entries,
    lemma_entries_map_from, members_view, parse_json, plain,
    value_holds, Json, JsonView,
};

verus! {

/// A value is modelled by what it holds: numbers by the integer, texts by their characters, arrays
/// item by item, objects member by member.
pub proof fn law_json_model(v: Json)
    ensures
        (match v {
            Json::Null => v@ == JsonView::Null,
            Json::Bool(b) => v@ == JsonView::Bool(b),
            Json::Uint(n) => v@ == JsonView::Integer(n as int),
            Json::Int(n) => v@ == JsonView::Integer(n as int),
            Json::Number(n) => match integer_in(n) {
                Some(i) => v@ == JsonView::Integer(i),
                None => v@ == JsonView::Float(n),
            },
            Json::Str(s) => v@ == JsonView::Str(s@),
            Json::Array(items) => v@ matches JsonView::Array(models) && models.len()
                == items@.len() && forall|i: int|
                0 <= i < items@.len() ==> models[i] == (#[trigger] items@[i])@,
            Json::Object(members) => v@ is Object && (forall|i: int|
                0 <= i < members@.len() && (forall|j: int|
                    i < j < members@.len() ==> (#[trigger] members@[j]).0@ != members@[i].0@)
                    ==> v@.get((#[trigger] members@[i]).0@) == Some(members@[i].1@)) && (forall|
                key: Seq<char>,
            |
                (forall|i: int| 0 <= i < members@.len() ==> (#[trigger] members@[i]).0@ != key)
                    ==> (#[trigger] v@.get(key)) is None),
        }),
{
    match v {
        Json::Object(members) => {
            let entries = members_view(members@);
            assert forall|i: int|
                0 <= i < members@.len() && (forall|j: int|
                    i < j < members@.len() ==> (#[trigger] members@[j]).0@
                        != members@[i].0@) implies v@.get((#[trigger] members@[i]).0@) == Some(
                members@[i].1@,
            ) by {
                assert forall|j: int| i < j < entries.len() implies (#[trigger] entries[j]).0
                    != entries[i].0 by {
                    assert(members@[j].0@ != members@[i].0@);
                }
                law_the_last_member_counts(entries, i);
            }
            assert forall|key: Seq<char>|
                (forall|i: int|
                    0 <= i < members@.len() ==> (#[trigger] members@[i]).0@ != key) implies (
            #[trigger] v@.get(key)) is None by {
                if entries_map(entries).contains_key(key) {
                    lemma_entries_map_from(entries, key);
                    let i = choose|i: int|
                        0 <= i < entries.len() && #[trigger] entries[i] == (
                            key,
                            entries_map(entries)[key],
                        );
                    assert(members@[i].0@ == key);
                }
            }
        },
        _ => {},
    }
}

/// Of the members with one key the last counts, and no other key is found.
pub proof fn law_the_last_member_counts<V>(entries: Seq<(Seq<char>, V)>, i: int)
    requires
        0 <= i < entries.len(),
        forall|j: int| i < j < entries.len() ==> (#[trigger] entries[j]).0 != entries[i].0,
    ensures
        entries_map(entries).contains_key(entries[i].0),
        entries_map(entries)[entries[i].0] == entries[i].1,
        forall|key: Seq<char>| #[trigger]
            entries_map(entries).contains_key(key) ==> exists|k: int|
                0 <= k < entries.len() && (#[trigger] entries[k]).0 == key,
    decreases entries.len(),
{
    assert forall|key: Seq<char>| #[trigger] entries_map(entries).contains_key(key) implies exists|
        k: int,
    |
        0 <= k < entries.len() && (#[trigger] entries[k]).0 == key by {
        lemma_entries_map_from(entries, key);
        let k = choose|k: int|
            0 <= k < entries.len() && #[trigger] entries[k] == (key, entries_map(entries)[key]);
        assert(entries[k].0 == key);
    }
    let shorter = entries.drop_last();
    if i < shorter.len() {
        assert forall|j: int| i < j < shorter.len() implies (#[trigger] shorter[j]).0
            != shorter[i].0 by {
            assert(entries[j].0 != entries[i].0);
        }
        law_the_last_member_counts(shorter, i);
        assert(entries[entries.len() - 1].0 != entries[i].0);
    }
}

/// An object whose keys differ holds each member under its key, and nothing else.
pub(crate) proof fn lemma_members(members: Seq<(Seq<char>, JsonView)>)
    requires
        forall|i: int, j: int|
            0 <= i < j < members.len() ==> (#[trigger] members[i]).0 != (#[trigger] members[j]).0,
    ensures
        forall|i: int|
            0 <= i < members.len() ==> JsonView::Object(entries_map(members)).get(
                (#[trigger] members[i]).0,
            ) == Some(members[i].1),
        forall|key: Seq<char>|
            (#[trigger] JsonView::Object(entries_map(members)).get(key)) is Some ==> exists|i: int|
                0 <= i < members.len() && (#[trigger] members[i]).0 == key,
{
    lemma_distinct_entries(members);
    let v = JsonView::Object(entries_map(members));
    assert forall|key: Seq<char>| (#[trigger] v.get(key)) is Some implies exists|i: int|
        0 <= i < members.len() && (#[trigger] members[i]).0 == key by {
        lemma_entries_map_from(members, key);
        let i = choose|i: int|
            0 <= i < members.len() && #[trigger] members[i] == (key, entries_map(members)[key]);
        assert(members[i].0 == key);
    }
}

/// What can be read off a value.
pub proof fn law_json_accessors(v: JsonView, key: Seq<char>)
    ensures
        v.get(key) == (match v {
            JsonView::Object(m) => if m.dom().contains(key) {
                Some(m[key])
            } else {
                None
            },
            _ => None,
        }),
        v.as_str() == (match v {
            JsonView::Str(s) => Some(s),
            _ => None,
        }),
        v.as_bool() == (match v {
            JsonView::Bool(b) => Some(b),
            _ => None,
        }),
        (match v.as_u64() {
            Some(n) => v == JsonView::Integer(n as int),
            None => v matches JsonView::Integer(n) ==> n < 0 || n > u64::MAX,
        }),
        (match v.as_i64() {
            Some(n) => v == JsonView::Integer(n as int),
            None => v matches JsonView::Integer(n) ==> n < i64::MIN || n > i64::MAX,
        }),
{
}

/// Members are found by key, and values are read for what they hold.
pub proof fn law_json_is_read_for_what_it_holds(
    v: &Json,
    key: &str,
    member: Option<&Json>,
    text: Option<&str>,
    truth: Option<bool>,
    unsigned: Option<u64>,
    signed: Option<i64>,
)
    requires
        call_ensures(Json::get, (v, key), member),
        call_ensures(Json::as_str, (v,), text),
        call_ensures(Json::as_bool, (v,), truth),
        call_ensures(Json::as_u64, (v,), unsigned),
        call_ensures(Json::as_i64, (v,), signed),
    ensures
        (match member {
            Some(m) => v@ matches JsonView::Object(map) && map.dom().contains(key@) && map[key@]
                == m@,
            None => v@ matches JsonView::Object(map) ==> !map.dom().contains(key@),
        }),
        (match text {
            Some(s) => v@ == JsonView::Str(s@),
            None => !(v@ is Str),
        }),
        (match truth {
            Some(b) => v@ == JsonView::Bool(b),
            None => !(v@ is Bool),
        }),
        (match unsigned {
            Some(n) => v@ == JsonView::Integer(n as int),
            None => v@ matches JsonView::Integer(n) ==> n < 0 || n > u64::MAX,
        }),
        (match signed {
            Some(n) => v@ == JsonView::Integer(n as int),
            None => v@ matches JsonView::Integer(n) ==> n < i64::MIN || n > i64::MAX,
        }),
{
}

/// A value that is written and read again is the same value, unless it holds a number other than
/// an integer or nests too deep; a copy always is.
pub proof fn law_json_reads_back(
    v: Json,
    text: String,
    pretty: String,
    again: &str,
    r: Result<Json, String>,
    copy: Json,
)
    requires
        call_ensures(Json::to_text, (&v,), text),
        call_ensures(Json::to_text_pretty, (&v,), pretty),
        again@ == text@ || again@ == pretty@,
        call_ensures(parse_json, (again,), r),
        call_ensures(Json::clone, (&v,), copy),
    ensures
        text@ == json_text(v@),
        plain(v@, depth_limit()) ==> (r matches Ok(w) && w@ == v@),
        copy@ == v@,
{
}

/// What a text is read as is what `serde_json` reads in it.
pub proof fn law_json_is_read_by_serde_json(text: &str, r: Result<Json, String>)
    requires
        call_ensures(parse_json, (text,), r),
    ensures
        (match json_read(text@) {
            Ok(v) => r matches Ok(w) && w@ == v,
            Err(e) => r matches Err(f) && f@ == e,
        }),
{
}

/// Which values are plain: those that hold no number but integers and nest no deeper than can be
/// read.
pub proof fn law_plain(v: JsonView, depth: nat)
    ensures
        depth_limit() == 127,
        v is Float ==> !plain(v, depth),
        v is Null || v is Bool || v is Integer || v is Str ==> plain(v, depth),
        v matches JsonView::Array(items) ==> (plain(v, depth + 1) <==> forall|i: int|
            0 <= i < items.len() ==> plain(#[trigger] items[i], depth)),
        v matches JsonView::Object(members) ==> (plain(v, depth + 1) <==> forall|key: Seq<char>|
            members.dom().contains(key) ==> plain(#[trigger] members[key], depth)),
        v is Array || v is Object ==> !plain(v, 0),
{
    match v {
        JsonView::Object(members) => {
            if plain(v, depth + 1) {
                assert forall|key: Seq<char>| members.dom().contains(key) implies plain(
                    #[trigger] members[key],
                    depth,
                ) by {
                    assert(members.contains_key(key));
                }
            }
            if forall|key: Seq<char>|
                members.dom().contains(key) ==> plain(#[trigger] members[key], depth) {
                assert forall|key: Seq<char>| #[trigger] members.contains_key(key) implies plain(
                    members[key],
                    depth,
                ) by {}
            }
        },
        _ => {},
    }
}

/// A value goes to `serde_json` and comes from it as what it holds, and a text as a string.
pub proof fn law_json_and_serde_json(
    theirs: serde_json::Value,
    ours: Json,
    v: Json,
    given: serde_json::Value,
    text: &str,
    s: Json,
)
    requires
        call_ensures(Json::from_value, (theirs,), ours),
        call_ensures(Json::to_value, (&v,), given),
        call_ensures(Json::string, (text,), s),
    ensures
        ours@ == value_holds(theirs),
        value_holds(given) == v@,
        s@ == JsonView::Str(text@),
{
}

} // verus!
