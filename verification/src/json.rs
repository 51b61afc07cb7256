//! JSON values.
//!
//! [`Json`] holds a JSON value as plain data, [`JsonView`] is its mathematical model. The
//! text of a value, and the value of a text, come from `serde_json`.

use vstd::prelude::*;

use crate::text::same_text;

verus! {

/// The model of a JSON value.
#[verifier::ext_equal]
pub enum JsonView {
    Null,
    Bool(bool),
    Integer(int),
    /// A number that is not an integer, as `serde_json` keeps it.
    Float(serde_json::Number),
    Str(Seq<char>),
    Array(Seq<JsonView>),
    Object(Map<Seq<char>, JsonView>),
}

/// A JSON value.
#[derive(Debug, PartialEq)]
pub enum Json {
    Null,
    Bool(bool),
    Uint(u64),
    Int(i64),
    /// A number as `serde_json` keeps it: the form of those that are not integers.
    Number(serde_json::Number),
    Str(String),
    Array(Vec<Json>),
    /// The members of an object. Where a key occurs twice, the later member counts.
    Object(Vec<(String, Json)>),
}

/// The map that a list of members stands for, where a later one replaces an earlier one.
pub open spec fn entries_map<V>(entries: Seq<(Seq<char>, V)>) -> Map<Seq<char>, V>
    decreases entries.len(),
{
    if entries.len() == 0 {
        Map::empty()
    } else {
        entries_map(entries.drop_last()).insert(entries.last().0, entries.last().1)
    }
}

/// The model of a JSON value.
pub open spec fn json_view(value: Json) -> JsonView
    decreases value,
{
    match value {
        Json::Null => JsonView::Null,
        Json::Bool(b) => JsonView::Bool(b),
        Json::Uint(n) => JsonView::Integer(n as int),
        Json::Int(n) => JsonView::Integer(n as int),
        Json::Number(n) => number_view(n),
        Json::Str(s) => JsonView::Str(s@),
        Json::Array(items) => JsonView::Array(items_view(items@)),
        Json::Object(members) => JsonView::Object(entries_map(members_view(members@))),
    }
}

/// The models of a list of values.
pub open spec fn items_view(items: Seq<Json>) -> Seq<JsonView>
    decreases items,
{
    Seq::new(
        items.len(),
        |i: int|
            if 0 <= i < items.len() {
                json_view(items[i])
            } else {
                JsonView::Null
            },
    )
}

/// The models of a list of members.
pub open spec fn members_view(members: Seq<(String, Json)>) -> Seq<(Seq<char>, JsonView)>
    decreases members,
{
    Seq::new(
        members.len(),
        |i: int|
            if 0 <= i < members.len() {
                (members[i].0@, json_view(members[i].1))
            } else {
                (Seq::empty(), JsonView::Null)
            },
    )
}

impl View for Json {
    type V = JsonView;

    open spec fn view(&self) -> JsonView {
        json_view(*self)
    }
}

impl JsonView {
    /// The member of an object under `key`.
    pub open spec fn get(self, key: Seq<char>) -> Option<JsonView> {
        match self {
            JsonView::Object(m) => if m.contains_key(key) {
                Some(m[key])
            } else {
                None
            },
            _ => None,
        }
    }

    /// The text of a string.
    pub open spec fn as_str(self) -> Option<Seq<char>> {
        match self {
            JsonView::Str(s) => Some(s),
            _ => None,
        }
    }

    /// The truth value of a boolean.
    pub open spec fn as_bool(self) -> Option<bool> {
        match self {
            JsonView::Bool(b) => Some(b),
            _ => None,
        }
    }

    /// An integer that fits a `u64`.
    pub open spec fn as_u64(self) -> Option<u64> {
        match self {
            JsonView::Integer(n) => if 0 <= n <= u64::MAX {
                Some(n as u64)
            } else {
                None
            },
            _ => None,
        }
    }

    /// An integer that fits an `i64`.
    pub open spec fn as_i64(self) -> Option<i64> {
        match self {
            JsonView::Integer(n) => if i64::MIN <= n <= i64::MAX {
                Some(n as i64)
            } else {
                None
            },
            _ => None,
        }
    }
}

// ---------------------------------------------------------------------------
// serde_json
//
// What is said of it here holds with its features `preserve_order` and `arbitrary_precision`
// off, as they are by default.
// ---------------------------------------------------------------------------

/// `serde_json`'s own JSON value.
#[verifier::external_type_specification]
#[verifier::external_body]
pub struct ExValue(serde_json::Value);

/// `serde_json`'s number: an integer or a finite floating-point number.
#[verifier::external_type_specification]
#[verifier::external_body]
pub struct ExNumber(serde_json::Number);

/// `serde_json`'s own map, which holds the members of an object.
#[verifier::external_type_specification]
#[verifier::external_body]
#[verifier::reject_recursive_types(K)]
#[verifier::reject_recursive_types(V)]
pub struct ExMap<K, V>(serde_json::Map<K, V>);

/// Why `serde_json` could not read a text.
#[verifier::external_type_specification]
#[verifier::external_body]
pub struct ExJsonError(serde_json::Error);

/// What a `serde_json::Value` holds.
pub uninterp spec fn value_holds(v: serde_json::Value) -> JsonView;

/// What a `serde_json::Map` holds: under each key, what the value there holds.
pub uninterp spec fn map_holds(m: serde_json::Map<String, serde_json::Value>) -> Map<
    Seq<char>,
    JsonView,
>;

/// The integer that a `serde_json::Number` holds, where it holds one.
pub uninterp spec fn integer_in(n: serde_json::Number) -> Option<int>;

/// The compact text of a JSON value, as `serde_json` writes it.
pub uninterp spec fn json_text(v: JsonView) -> Seq<char>;

/// The indented text of a JSON value, as `serde_json` writes it.
pub uninterp spec fn json_text_pretty(v: JsonView) -> Seq<char>;

/// What `serde_json` reads in a text: a value, or the message of its error.
pub uninterp spec fn json_read(s: Seq<char>) -> Result<JsonView, Seq<char>>;

/// The message of a `serde_json::Error`.
pub uninterp spec fn json_error_text(e: serde_json::Error) -> Seq<char>;

/// The model of a number.
pub open spec fn number_view(n: serde_json::Number) -> JsonView {
    match integer_in(n) {
        Some(i) => JsonView::Integer(i),
        None => JsonView::Float(n),
    }
}

/// Whether a value holds no number but integers, and no more than `depth` arrays and objects one
/// inside the other.
pub open spec fn plain(v: JsonView, depth: nat) -> bool
    decreases depth,
{
    match v {
        JsonView::Float(_) => false,
        JsonView::Array(items) => depth > 0 && forall|i: int|
            0 <= i < items.len() ==> plain(#[trigger] items[i], (depth - 1) as nat),
        JsonView::Object(members) => depth > 0 && forall|key: Seq<char>| #[trigger]
            members.contains_key(key) ==> plain(members[key], (depth - 1) as nat),
        _ => true,
    }
}

/// How many arrays and objects `serde_json` reads one inside the other.
pub open spec fn depth_limit() -> nat {
    127
}

/// Whether `text` is the compact text of a value. It then reads back as that value, where the
/// value is plain.
pub open spec fn writes(text: Seq<char>, v: JsonView) -> bool {
    &&& text == json_text(v)
    &&& plain(v, depth_limit()) ==> json_read(text) == Ok::<JsonView, Seq<char>>(v)
}

/// One level of a `serde_json::Value`, taken apart.
pub(crate) enum Level {
    Null,
    Bool(bool),
    Number(serde_json::Number),
    Str(String),
    Array(Vec<serde_json::Value>),
    Object(serde_json::Map<String, serde_json::Value>),
}

/// The models of a list of members whose values are `serde_json`'s.
pub(crate) open spec fn value_members(members: Seq<(String, serde_json::Value)>) -> Seq<
    (Seq<char>, JsonView),
> {
    Seq::new(members.len(), |i: int| (members[i].0@, value_holds(members[i].1)))
}

/// What one level, and the values below it, hold.
pub(crate) open spec fn level_holds(level: Level) -> JsonView {
    match level {
        Level::Null => JsonView::Null,
        Level::Bool(b) => JsonView::Bool(b),
        Level::Number(n) => number_view(n),
        Level::Str(s) => JsonView::Str(s@),
        Level::Array(items) => JsonView::Array(
            Seq::new(items@.len(), |i: int| value_holds(items@[i])),
        ),
        Level::Object(members) => JsonView::Object(map_holds(members)),
    }
}

/// Takes one level of a `serde_json::Value` apart by its variants: the level holds what the
/// value held.
#[verifier::external_body]
pub(crate) fn open_value(v: serde_json::Value) -> (level: Level)
    ensures
        level_holds(level) == value_holds(v),
{
    match v {
        serde_json::Value::Null => Level::Null,
        serde_json::Value::Bool(b) => Level::Bool(b),
        serde_json::Value::Number(n) => Level::Number(n),
        serde_json::Value::String(s) => Level::Str(s),
        serde_json::Value::Array(items) => Level::Array(items),
        serde_json::Value::Object(members) => Level::Object(members),
    }
}

/// Puts a `serde_json::Value` together from one level: the value holds what the level held.
#[verifier::external_body]
pub(crate) fn close_value(level: Level) -> (v: serde_json::Value)
    ensures
        value_holds(v) == level_holds(level),
{
    match level {
        Level::Null => serde_json::Value::Null,
        Level::Bool(b) => serde_json::Value::Bool(b),
        Level::Number(n) => serde_json::Value::Number(n),
        Level::Str(s) => serde_json::Value::String(s),
        Level::Array(items) => serde_json::Value::Array(items),
        Level::Object(members) => serde_json::Value::Object(members),
    }
}

/// `serde_json::Map::new` makes an empty map.
#[verifier::external_body]
fn new_map() -> (m: serde_json::Map<String, serde_json::Value>)
    ensures
        (map_holds(m) == Map::<Seq<char>, JsonView>::empty()),
{
    serde_json::Map::new()
}

/// `serde_json::Map::insert` puts a value under a key, in place of the one that was there, which
/// it gives back.
#[verifier::external_body]
fn insert_member(
    m: &mut serde_json::Map<String, serde_json::Value>,
    key: String,
    value: serde_json::Value,
) -> (r: Option<serde_json::Value>)
    ensures
        map_holds(*final(m)) == map_holds(*old(m)).insert(key@, value_holds(value)),
        (match r {
            Some(was) => map_holds(*old(m)).contains_key(key@) && value_holds(was) == map_holds(
                *old(m),
            )[key@],
            None => !map_holds(*old(m)).contains_key(key@),
        }),
{
    m.insert(key, value)
}

/// `serde_json::Map::into_iter` gives every member of a map, and each key once.
#[verifier::external_body]
fn map_members(m: serde_json::Map<String, serde_json::Value>) -> (r: Vec<
    (String, serde_json::Value),
>)
    ensures
        entries_map(value_members(r@)) == map_holds(m),
        forall|i: int, j: int|
            0 <= i < j < r@.len() ==> #[trigger] r@[i].0@ != #[trigger] r@[j].0@,
{
    m.into_iter().collect()
}

/// `serde_json::Number`'s `clone` gives back an equal number.
pub assume_specification[ <serde_json::Number as Clone>::clone ](n: &serde_json::Number) -> (r:
    serde_json::Number)
    ensures
        r == *n,
;

/// `serde_json::Number::as_u64`: the number's integer, where it is not negative. A number
/// holds no integer above `u64::MAX`.
pub assume_specification[ serde_json::Number::as_u64 ](n: &serde_json::Number) -> (r: Option<u64>)
    ensures
        (match integer_in(*n) {
            Some(i) => if i >= 0 {
                r == Some(i as u64) && i <= u64::MAX
            } else {
                r is None
            },
            None => r is None,
        }),
;

/// `serde_json::Number::as_i64`: the number's integer, where it is at most `i64::MAX`. A
/// number holds no integer below `i64::MIN`.
pub assume_specification[ serde_json::Number::as_i64 ](n: &serde_json::Number) -> (r: Option<i64>)
    ensures
        (match integer_in(*n) {
            Some(i) => if i <= i64::MAX {
                r == Some(i as i64) && i >= i64::MIN
            } else {
                r is None
            },
            None => r is None,
        }),
;

/// `Number::from` of a `u64` holds that integer.
#[verifier::external_body]
fn number_from_u64(n: u64) -> (r: serde_json::Number)
    ensures
        integer_in(r) == Some(n as int),
{
    serde_json::Number::from(n)
}

/// `Number::from` of an `i64` holds that integer.
#[verifier::external_body]
fn number_from_i64(n: i64) -> (r: serde_json::Number)
    ensures
        integer_in(r) == Some(n as int),
{
    serde_json::Number::from(n)
}

/// `serde_json::from_str` into a `Value`: what it reads depends on the text alone.
#[verifier::external_body]
fn read_value(s: &str) -> (r: Result<serde_json::Value, serde_json::Error>)
    ensures
        (match r {
            Ok(v) => json_read(s@) == Ok::<JsonView, Seq<char>>(value_holds(v)),
            Err(e) => json_read(s@) == Err::<JsonView, Seq<char>>(json_error_text(e)),
        }),
{
    serde_json::from_str::<serde_json::Value>(s)
}

/// The message that `serde_json::Error` displays.
#[verifier::external_body]
fn error_message(e: &serde_json::Error) -> (r: String)
    ensures
        r@ == json_error_text(*e),
{
    e.to_string()
}

/// The compact text that a `serde_json::Value` displays. `serde_json::from_str` reads it back as
/// the same value, unless the value holds a floating-point number or nests deeper than it reads;
/// nothing is said of these.
#[verifier::external_body]
fn write_value(v: &serde_json::Value) -> (r: String)
    ensures
        r@ == json_text(value_holds(*v)),
        (plain(value_holds(*v), depth_limit()) ==> json_read(r@) == Ok::<JsonView, Seq<char>>(
            value_holds(*v),
        )),
{
    v.to_string()
}

/// `serde_json::to_string_pretty` of a `Value`. It succeeds, for the keys of a `Value`'s objects
/// are strings. `serde_json::from_str` reads the text back as the same value, unless the value
/// holds a floating-point number or nests deeper than it reads; nothing is said of these.
#[verifier::external_body]
fn write_value_pretty(v: &serde_json::Value) -> (r: Result<String, serde_json::Error>)
    ensures
        (match r {
            Ok(s) => s@ == json_text_pretty(value_holds(*v)) && (plain(
                value_holds(*v),
                depth_limit(),
            ) ==> json_read(s@) == Ok::<JsonView, Seq<char>>(value_holds(*v))),
            Err(_) => false,
        }),
{
    serde_json::to_string_pretty(v)
}

// ---------------------------------------------------------------------------
// Reading and building values
// ---------------------------------------------------------------------------

impl Clone for Json {
    #[verifier::loop_isolation(false)]
    fn clone(&self) -> (r: Json)
        ensures
            r@ == self@,
        decreases self,
    {
        match self {
            Json::Null => Json::Null,
            Json::Bool(b) => Json::Bool(*b),
            Json::Uint(n) => Json::Uint(*n),
            Json::Int(n) => Json::Int(*n),
            Json::Number(n) => Json::Number(n.clone()),
            Json::Str(s) => Json::Str(s.clone()),
            Json::Array(items) => {
                let mut out: Vec<Json> = Vec::new();
                let mut i: usize = 0;
                while i < items.len()
                    invariant
                        i <= items@.len(),
                        *self == Json::Array(*items),
                        items_view(out@) =~= items_view(items@).take(i as int),
                    decreases items@.len() - i,
                {
                    let ghost before = out@;
                    let item: Json = items[i].clone();
                    out.push(item);
                    proof {
                        lemma_items_view_push(before, item);
                    }
                    i += 1;
                }
                assert(items_view(out@) =~= items_view(items@));
                Json::Array(out)
            },
            Json::Object(members) => {
                let mut out: Vec<(String, Json)> = Vec::new();
                let mut i: usize = 0;
                while i < members.len()
                    invariant
                        i <= members@.len(),
                        *self == Json::Object(*members),
                        members_view(out@) =~= members_view(members@).take(i as int),
                    decreases members@.len() - i,
                {
                    let key: String = members[i].0.clone();
                    let value: Json = members[i].1.clone();
                    out.push((key, value));
                    i += 1;
                }
                assert(members_view(out@) =~= members_view(members@));
                Json::Object(out)
            },
        }
    }
}

impl Json {
    /// The member of an object under `key`.
    pub fn get(&self, key: &str) -> (r: Option<&Json>)
        ensures
            (match r {
                Some(v) => self@.get(key@) == Some(v@),
                None => self@.get(key@) is None,
            }),
    {
        match self {
            Json::Object(members) => {
                let ghost entries = members_view(members@);
                let mut i: usize = members.len();
                assert(entries.take(i as int) =~= entries);
                while i > 0
                    invariant
                        i <= members@.len(),
                        entries == members_view(members@),
                        self@ == JsonView::Object(entries_map(entries)),
                        entries_map(entries).contains_key(key@) == entries_map(
                            entries.take(i as int),
                        ).contains_key(key@),
                        entries_map(entries).contains_key(key@) ==> entries_map(entries)[key@]
                            == entries_map(entries.take(i as int))[key@],
                    decreases i,
                {
                    let ghost shorter = entries.take(i as int);
                    assert(shorter.drop_last() =~= entries.take(i - 1));
                    i -= 1;
                    if same_text(&members[i].0, key) {
                        return Some(&members[i].1);
                    }
                }
                None
            },
            _ => None,
        }
    }

    /// The text of a string.
    pub fn as_str(&self) -> (r: Option<&str>)
        ensures
            (match r {
                Some(s) => self@.as_str() == Some(s@),
                None => self@.as_str() is None,
            }),
    {
        match self {
            Json::Str(s) => Some(s.as_str()),
            _ => None,
        }
    }

    /// The truth value of a boolean.
    pub fn as_bool(&self) -> (r: Option<bool>)
        ensures
            r == self@.as_bool(),
    {
        match self {
            Json::Bool(b) => Some(*b),
            _ => None,
        }
    }

    /// An integer that fits a `u64`.
    pub fn as_u64(&self) -> (r: Option<u64>)
        ensures
            r == self@.as_u64(),
    {
        match self {
            Json::Uint(n) => Some(*n),
            Json::Int(n) => if *n >= 0 {
                Some(*n as u64)
            } else {
                None
            },
            Json::Number(n) => n.as_u64(),
            _ => None,
        }
    }

    /// An integer that fits an `i64`.
    pub fn as_i64(&self) -> (r: Option<i64>)
        ensures
            r == self@.as_i64(),
    {
        match self {
            Json::Uint(n) => if *n <= i64::MAX as u64 {
                Some(*n as i64)
            } else {
                None
            },
            Json::Int(n) => Some(*n),
            Json::Number(n) => n.as_i64(),
            _ => None,
        }
    }

    /// A string.
    pub fn string(s: &str) -> (r: Json)
        ensures
            r@ == JsonView::Str(s@),
    {
        Json::Str(s.to_owned())
    }

    /// The value that a `serde_json::Value` holds.
    #[verifier::loop_isolation(false)]
    pub fn from_value(v: serde_json::Value) -> (r: Json)
        ensures
            r@ == value_holds(v),
        decreases value_holds(v),
    {
        let level: Level = open_value(v);
        match level {
            Level::Null => Json::Null,
            Level::Bool(b) => Json::Bool(b),
            Level::Number(n) => match n.as_u64() {
                Some(u) => Json::Uint(u),
                None => match n.as_i64() {
                    Some(i) => Json::Int(i),
                    None => Json::Number(n),
                },
            },
            Level::Str(s) => Json::Str(s),
            Level::Array(items) => {
                let ghost models = value_holds(v)->Array_0;
                let mut out: Vec<Json> = Vec::new();
                for item in it: items
                    invariant
                        it.seq() == items@,
                        items_view(out@) =~= models.take(it.index()),
                {
                    let ghost before = out@;
                    assert(decreases_to!(models => models[it.index()]));
                    let value: Json = Json::from_value(item);
                    out.push(value);
                    proof {
                        lemma_items_view_push(before, value);
                    }
                }
                assert(items_view(out@) =~= models);
                Json::Array(out)
            },
            Level::Object(map) => {
                let members: Vec<(String, serde_json::Value)> = map_members(map);
                let ghost models = value_members(members@);
                proof {
                    lemma_distinct_entries(models);
                }
                let mut out: Vec<(String, Json)> = Vec::new();
                for member in it: members
                    invariant
                        it.seq() == members@,
                        members_view(out@) =~= models.take(it.index()),
                {
                    assert(models[it.index()] == (member.0@, value_holds(member.1)));
                    assert(decreases_to!(value_holds(v) => value_holds(v)->Object_0[member.0@]));
                    let value: Json = Json::from_value(member.1);
                    out.push((member.0, value));
                }
                assert(members_view(out@) =~= models);
                Json::Object(out)
            },
        }
    }

    /// The `serde_json::Value` that holds this value.
    #[verifier::loop_isolation(false)]
    pub fn to_value(&self) -> (r: serde_json::Value)
        ensures
            value_holds(r) == self@,
        decreases self,
    {
        match self {
            Json::Null => close_value(Level::Null),
            Json::Bool(b) => close_value(Level::Bool(*b)),
            Json::Uint(n) => close_value(Level::Number(number_from_u64(*n))),
            Json::Int(n) => close_value(Level::Number(number_from_i64(*n))),
            Json::Number(n) => close_value(Level::Number(n.clone())),
            Json::Str(s) => close_value(Level::Str(s.clone())),
            Json::Array(items) => {
                let mut out: Vec<serde_json::Value> = Vec::new();
                let mut i: usize = 0;
                while i < items.len()
                    invariant
                        *self == Json::Array(*items),
                        i == out@.len(),
                        i <= items@.len(),
                        forall|k: int|
                            0 <= k < i ==> value_holds(#[trigger] out@[k]) == items_view(items@)[k],
                    decreases items@.len() - i,
                {
                    let item: serde_json::Value = items[i].to_value();
                    out.push(item);
                    i += 1;
                }
                let ghost level = Level::Array(out);
                assert(level_holds(level)->Array_0 =~= items_view(items@));
                close_value(Level::Array(out))
            },
            Json::Object(members) => {
                let ghost models = members_view(members@);
                let mut out: serde_json::Map<String, serde_json::Value> = new_map();
                let mut i: usize = 0;
                assert(models.take(0) =~= Seq::empty());
                while i < members.len()
                    invariant
                        *self == Json::Object(*members),
                        i <= members@.len(),
                        map_holds(out) == entries_map(models.take(i as int)),
                    decreases members@.len() - i,
                {
                    let value: serde_json::Value = members[i].1.to_value();
                    assert(models.take(i + 1).drop_last() =~= models.take(i as int));
                    assert(models.take(i + 1).last() == models[i as int]);
                    let _ = insert_member(&mut out, members[i].0.clone(), value);
                    i += 1;
                }
                assert(models.take(members@.len() as int) =~= models);
                close_value(Level::Object(out))
            },
        }
    }

    /// The value's compact text.
    pub fn to_text(&self) -> (r: String)
        ensures
            writes(r@, self@),
    {
        write_value(&self.to_value())
    }

    /// The value's indented text.
    pub fn to_text_pretty(&self) -> (r: String)
        ensures
            r@ == json_text_pretty(self@),
            plain(self@, depth_limit()) ==> json_read(r@) == Ok::<JsonView, Seq<char>>(self@),
    {
        write_value_pretty(&self.to_value()).unwrap()
    }
}

proof fn lemma_items_view_push(items: Seq<Json>, item: Json)
    ensures
        items_view(items.push(item)) == items_view(items).push(item@),
{
    assert(items_view(items.push(item)) =~= items_view(items).push(item@));
}

/// Where no key occurs twice, every member is found under its key.
pub(crate) proof fn lemma_distinct_entries<V>(entries: Seq<(Seq<char>, V)>)
    requires
        forall|i: int, j: int|
            0 <= i < j < entries.len() ==> (#[trigger] entries[i]).0 != (#[trigger] entries[j]).0,
    ensures
        forall|i: int|
            0 <= i < entries.len() ==> entries_map(entries).contains_key((#[trigger] entries[i]).0)
                && entries_map(entries)[entries[i].0] == entries[i].1,
    decreases entries.len(),
{
    if entries.len() > 0 {
        let shorter = entries.drop_last();
        assert forall|i: int, j: int| 0 <= i < j < shorter.len() implies (#[trigger] shorter[i]).0
            != (#[trigger] shorter[j]).0 by {
            assert(entries[i].0 != entries[j].0);
        }
        lemma_distinct_entries(shorter);
        assert forall|i: int| 0 <= i < entries.len() implies entries_map(entries).contains_key(
            (#[trigger] entries[i]).0,
        ) && entries_map(entries)[entries[i].0] == entries[i].1 by {
            if i < shorter.len() {
                assert(shorter[i] == entries[i]);
                assert(entries[i].0 != entries[entries.len() - 1].0);
            }
        }
    }
}

/// What a list of members stands for is in the list.
pub(crate) proof fn lemma_entries_map_from<V>(entries: Seq<(Seq<char>, V)>, key: Seq<char>)
    requires
        entries_map(entries).contains_key(key),
    ensures
        exists|i: int|
            0 <= i < entries.len() && #[trigger] entries[i] == (key, entries_map(entries)[key]),
    decreases entries.len(),
{
    if entries.last().0 == key {
        assert(entries[entries.len() - 1] == (key, entries_map(entries)[key]));
    } else {
        let shorter = entries.drop_last();
        lemma_entries_map_from(shorter, key);
        let i = choose|i: int|
            0 <= i < shorter.len() && #[trigger] shorter[i] == (key, entries_map(shorter)[key]);
        assert(entries[i] == (key, entries_map(entries)[key]));
    }
}

/// An object is plain where its members are.
pub(crate) proof fn lemma_object_plain(entries: Seq<(Seq<char>, JsonView)>, depth: nat)
    requires
        forall|i: int| 0 <= i < entries.len() ==> plain((#[trigger] entries[i]).1, depth),
    ensures
        plain(JsonView::Object(entries_map(entries)), depth + 1),
{
    let members = entries_map(entries);
    assert forall|key: Seq<char>| #[trigger] members.contains_key(key) implies plain(
        members[key],
        depth,
    ) by {
        lemma_entries_map_from(entries, key);
    }
}

/// Adds a value to a list.
pub(crate) fn push_item(items: &mut Vec<Json>, item: Json)
    ensures
        items_view(final(items)@) == items_view(old(items)@).push(item@),
        final(items)@.len() == old(items)@.len() + 1,
{
    let ghost before = items@;
    items.push(item);
    assert(items_view(items@) =~= items_view(before).push(item@));
}

/// Replaces a value of a list.
pub(crate) fn set_item(items: &mut Vec<Json>, at: usize, item: Json)
    requires
        at < old(items)@.len(),
    ensures
        items_view(final(items)@) == items_view(old(items)@).update(at as int, item@),
        final(items)@.len() == old(items)@.len(),
{
    let ghost before = items@;
    items.set(at, item);
    assert(items_view(items@) =~= items_view(before).update(at as int, item@));
}

/// Adds a member to a list.
pub(crate) fn push_member(members: &mut Vec<(String, Json)>, key: &str, value: Json)
    ensures
        members_view(final(members)@) == members_view(old(members)@).push((key@, value@)),
{
    let ghost before = members@;
    members.push((key.to_owned(), value));
    assert(members_view(members@) =~= members_view(before).push((key@, value@)));
}

/// Reads a JSON text.
pub fn parse_json(s: &str) -> (r: Result<Json, String>)
    ensures
        (match r {
            Ok(v) => json_read(s@) == Ok::<JsonView, Seq<char>>(v@),
            Err(e) => json_read(s@) == Err::<JsonView, Seq<char>>(e@),
        }),
{
    match read_value(s) {
        Ok(v) => Ok(Json::from_value(v)),
        Err(e) => Err(error_message(&e)),
    }
}

} // verus!
