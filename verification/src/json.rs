use vstd::prelude::*;

verus! {

/// A JSON number as a backend reported it.
#[derive(Clone, Copy, Debug, PartialEq, Eq, Structural)]
pub enum JsonNumber {
    PosInt(u64),
    NegInt(i64),
    Float(u64),
}

/// A JSON document.
#[derive(Debug)]
pub enum JsonValue {
    Null,
    Bool(bool),
    Number(JsonNumber),
    Str(String),
    Array(Vec<JsonValue>),
    Object(Vec<(String, JsonValue)>),
}

/// The mathematical content of a JSON document.
pub enum Json {
    Null,
    Bool(bool),
    Number(JsonNumber),
    Str(Seq<char>),
    Array(Seq<Json>),
    Object(Seq<(Seq<char>, Json)>),
}

impl JsonValue {
    pub open spec fn json(self) -> Json
        decreases self,
    {
        match self {
            JsonValue::Null => Json::Null,
            JsonValue::Bool(b) => Json::Bool(b),
            JsonValue::Number(n) => Json::Number(n),
            JsonValue::Str(s) => Json::Str(s@),
            JsonValue::Array(items) => Json::Array(
                Seq::new(items@.len(), |i: int| if 0 <= i < items@.len() { items@[i].json() } else { Json::Null }),
            ),
            JsonValue::Object(entries) => Json::Object(
                Seq::new(entries@.len(), |i: int| if 0 <= i < entries@.len() { (entries@[i].0@, entries@[i].1.json()) } else { (Seq::empty(), Json::Null) }),
            ),
        }
    }
}

} // verus!

verus! {

/// The value that `key` maps to in an object's entries: the first entry
/// with that key.
pub open spec fn lookup(entries: Seq<(Seq<char>, Json)>, key: Seq<char>) -> Option<Json>
    decreases entries.len(),
{
    if entries.len() == 0 {
        None
    } else if entries[0].0 == key {
        Some(entries[0].1)
    } else {
        lookup(entries.drop_first(), key)
    }
}

/// `v[key]`: the member `key` of an object, nothing for anything else.
pub open spec fn field(v: Option<Json>, key: Seq<char>) -> Option<Json> {
    match v {
        Some(Json::Object(entries)) => lookup(entries, key),
        _ => None,
    }
}

pub open spec fn as_text(v: Option<Json>) -> Option<Seq<char>> {
    match v {
        Some(Json::Str(s)) => Some(s),
        _ => None,
    }
}

pub open spec fn as_items(v: Option<Json>) -> Option<Seq<Json>> {
    match v {
        Some(Json::Array(items)) => Some(items),
        _ => None,
    }
}

pub open spec fn as_flag(v: Option<Json>) -> Option<bool> {
    match v {
        Some(Json::Bool(b)) => Some(b),
        _ => None,
    }
}

pub open spec fn as_num(v: Option<Json>) -> Option<JsonNumber> {
    match v {
        Some(Json::Number(n)) => Some(n),
        _ => None,
    }
}

/// The first element of an array.
pub open spec fn first_item(v: Option<Json>) -> Option<Json> {
    match as_items(v) {
        Some(items) => if items.len() > 0 { Some(items[0]) } else { None },
        None => None,
    }
}

/// The text of a string, or the empty text for anything else.
pub open spec fn text_or_empty(v: Option<Json>) -> Seq<char> {
    match as_text(v) {
        Some(s) => s,
        None => Seq::empty(),
    }
}

pub open spec fn view_opt(v: Option<&JsonValue>) -> Option<Json> {
    match v {
        Some(x) => Some(x.json()),
        None => None,
    }
}

proof fn lemma_lookup_found(entries: Seq<(Seq<char>, Json)>, key: Seq<char>, i: int)
    requires
        0 <= i < entries.len(),
        entries[i].0 == key,
        forall|j: int| 0 <= j < i ==> entries[j].0 != key,
    ensures
        lookup(entries, key) == Some(entries[i].1),
    decreases i,
{
    if i > 0 {
        lemma_lookup_found(entries.drop_first(), key, i - 1);
    }
}

proof fn lemma_lookup_absent(entries: Seq<(Seq<char>, Json)>, key: Seq<char>)
    requires
        forall|j: int| 0 <= j < entries.len() ==> entries[j].0 != key,
    ensures
        lookup(entries, key) is None,
    decreases entries.len(),
{
    if entries.len() > 0 {
        lemma_lookup_absent(entries.drop_first(), key);
    }
}

/// `v[key]`.
pub fn at<'a>(v: Option<&'a JsonValue>, key: &str) -> (r: Option<&'a JsonValue>)
    ensures
        view_opt(r) == field(view_opt(v), key@),
{
    match v {
        Some(JsonValue::Object(entries)) => {
            let ghost es = v.unwrap().json()->Object_0;
            let wanted = key.to_owned();
            let mut i: usize = 0;
            while i < entries.len()
                invariant
                    0 <= i <= entries@.len(),
                    es.len() == entries@.len(),
                    wanted@ == key@,
                    field(view_opt(v), key@) == lookup(es, key@),
                    forall|j: int| 0 <= j < entries@.len() ==> #[trigger] es[j] == (entries@[j].0@, entries@[j].1.json()),
                    forall|j: int| 0 <= j < i ==> (#[trigger] es[j]).0 != key@,
                decreases entries@.len() - i,
            {
                if entries[i].0 == wanted {
                    proof {
                        lemma_lookup_found(es, key@, i as int);
                        assert(es[i as int] == (entries@[i as int].0@, entries@[i as int].1.json()));
                    }
                    return Some(&entries[i].1);
                }
                i += 1;
            }
            proof {
                lemma_lookup_absent(es, key@);
            }
            None
        },
        _ => None,
    }
}

/// `v.as_str()`.
pub fn text_of<'a>(v: Option<&'a JsonValue>) -> (r: Option<&'a String>)
    ensures
        match r {
            Some(s) => as_text(view_opt(v)) == Some(s@),
            None => as_text(view_opt(v)) is None,
        },
{
    match v {
        Some(JsonValue::Str(s)) => Some(s),
        _ => None,
    }
}

/// `v.as_array()`.
pub fn items_of<'a>(v: Option<&'a JsonValue>) -> (r: Option<&'a Vec<JsonValue>>)
    ensures
        match r {
            Some(items) => as_items(view_opt(v)) == Some(items@.map_values(|x: JsonValue| x.json())),
            None => as_items(view_opt(v)) is None,
        },
{
    match v {
        Some(JsonValue::Array(items)) => {
            assert(items@.map_values(|x: JsonValue| x.json()) =~= v.unwrap().json()->Array_0);
            Some(items)
        },
        _ => None,
    }
}

} // verus!

verus! {

/// The text of an optional owned string.
pub open spec fn text_view(o: Option<String>) -> Option<Seq<char>> {
    match o {
        Some(s) => Some(s@),
        None => None,
    }
}

/// `v.as_array().and_then(|a| a.first())`.
pub fn first_of<'a>(v: Option<&'a JsonValue>) -> (r: Option<&'a JsonValue>)
    ensures
        view_opt(r) == first_item(view_opt(v)),
{
    match items_of(v) {
        Some(items) => {
            if items.len() > 0 {
                Some(&items[0])
            } else {
                None
            }
        },
        None => None,
    }
}

/// `v.as_bool()`.
pub fn flag_of(v: Option<&JsonValue>) -> (r: Option<bool>)
    ensures
        r == as_flag(view_opt(v)),
{
    match v {
        Some(JsonValue::Bool(b)) => Some(*b),
        _ => None,
    }
}

/// `v.as_f64()`, keeping the number as reported.
pub fn number_of(v: Option<&JsonValue>) -> (r: Option<JsonNumber>)
    ensures
        r == as_num(view_opt(v)),
{
    match v {
        Some(JsonValue::Number(n)) => Some(*n),
        _ => None,
    }
}

/// `v.as_str().unwrap_or("")`, owned.
pub fn text_or_default(v: Option<&JsonValue>) -> (r: String)
    ensures
        r@ == text_or_empty(view_opt(v)),
{
    match text_of(v) {
        Some(s) => s.clone(),
        None => String::new(),
    }
}

/// `v.as_str().map(Into::into)`.
pub fn text_opt(v: Option<&JsonValue>) -> (r: Option<String>)
    ensures
        text_view(r) == as_text(view_opt(v)),
{
    match text_of(v) {
        Some(s) => Some(s.clone()),
        None => None,
    }
}

/// `v.as_str() == Some(word)`.
pub fn text_is(v: Option<&JsonValue>, word: &str) -> (r: bool)
    ensures
        r == (as_text(view_opt(v)) == Some(word@)),
{
    match text_of(v) {
        Some(s) => *s == word.to_owned(),
        None => false,
    }
}

/// A JSON string.
pub fn string_value(s: &str) -> (r: JsonValue)
    ensures
        r.json() == Json::Str(s@),
{
    JsonValue::Str(s.to_owned())
}

/// A JSON array.
pub fn array_value(items: Vec<JsonValue>) -> (r: JsonValue)
    ensures
        r.json() == Json::Array(items@.map_values(|x: JsonValue| x.json())),
{
    let r = JsonValue::Array(items);
    assert(r.json()->Array_0 =~= items@.map_values(|x: JsonValue| x.json()));
    r
}

/// A JSON object with the given entries.
pub fn object_value(entries: Vec<(String, JsonValue)>) -> (r: JsonValue)
    ensures
        r.json() == Json::Object(entries@.map_values(|e: (String, JsonValue)| (e.0@, e.1.json()))),
{
    let r = JsonValue::Object(entries);
    assert(r.json()->Object_0 =~= entries@.map_values(|e: (String, JsonValue)| (e.0@, e.1.json())));
    r
}

} // verus!

verus! {

/// The entries of an object, as JSON.
pub open spec fn entries_json(entries: Seq<(String, JsonValue)>) -> Seq<(Seq<char>, Json)> {
    entries.map_values(|e: (String, JsonValue)| (e.0@, e.1.json()))
}

/// `obj[key] = value`: replaces the value of the first entry with that key,
/// or adds the entry at the end.
pub open spec fn set_member(entries: Seq<(Seq<char>, Json)>, key: Seq<char>, value: Json) -> Seq<(Seq<char>, Json)>
    decreases entries.len(),
{
    if entries.len() == 0 {
        seq![(key, value)]
    } else if entries[0].0 == key {
        entries.update(0, (key, value))
    } else {
        seq![entries[0]] + set_member(entries.drop_first(), key, value)
    }
}

/// The entries of `base` after `base[k] = v` for each entry `(k, v)` of
/// `extra`, in order.
pub open spec fn merge_members(base: Seq<(Seq<char>, Json)>, extra: Seq<(Seq<char>, Json)>) -> Seq<(Seq<char>, Json)>
    decreases extra.len(),
{
    if extra.len() == 0 {
        base
    } else {
        merge_members(set_member(base, extra[0].0, extra[0].1), extra.drop_first())
    }
}

/// No two entries share a key, as in every JSON object that a parser gives.
pub open spec fn distinct_keys(entries: Seq<(Seq<char>, Json)>) -> bool {
    forall|i: int, j: int| 0 <= i < j < entries.len() ==> entries[i].0 != entries[j].0
}

proof fn lemma_set_member_at(entries: Seq<(Seq<char>, Json)>, key: Seq<char>, value: Json, i: int)
    requires
        0 <= i < entries.len(),
        entries[i].0 == key,
        forall|j: int| 0 <= j < i ==> entries[j].0 != key,
    ensures
        set_member(entries, key, value) == entries.update(i, (key, value)),
    decreases i,
{
    if i > 0 {
        lemma_set_member_at(entries.drop_first(), key, value, i - 1);
        assert(seq![entries[0]] + entries.drop_first().update(i - 1, (key, value)) =~= entries.update(i, (key, value)));
    }
}

proof fn lemma_set_member_absent(entries: Seq<(Seq<char>, Json)>, key: Seq<char>, value: Json)
    requires
        forall|j: int| 0 <= j < entries.len() ==> entries[j].0 != key,
    ensures
        set_member(entries, key, value) == entries.push((key, value)),
    decreases entries.len(),
{
    if entries.len() > 0 {
        lemma_set_member_absent(entries.drop_first(), key, value);
        assert(seq![entries[0]] + entries.drop_first().push((key, value)) =~= entries.push((key, value)));
    } else {
        assert(seq![(key, value)] =~= entries.push((key, value)));
    }
}

/// After `obj[key] = value`, `obj[key]` is `value` and every other member is
/// as it was.
pub proof fn lemma_set_member_lookup(entries: Seq<(Seq<char>, Json)>, key: Seq<char>, value: Json, other: Seq<char>)
    ensures
        lookup(set_member(entries, key, value), other) == if other == key { Some(value) } else { lookup(entries, other) },
    decreases entries.len(),
{
    let s = set_member(entries, key, value);
    if entries.len() == 0 {
        assert(s == seq![(key, value)]);
        assert(s.drop_first() =~= Seq::<(Seq<char>, Json)>::empty());
        assert(s[0] == (key, value));
        if other != key {
            assert(lookup(s.drop_first(), other) is None);
            assert(lookup(s, other) == lookup(s.drop_first(), other));
        }
    } else if entries[0].0 == key {
        assert(s == entries.update(0, (key, value)));
        assert(s.drop_first() =~= entries.drop_first());
        assert(s[0] == (key, value));
    } else {
        let t = set_member(entries.drop_first(), key, value);
        lemma_set_member_lookup(entries.drop_first(), key, value, other);
        assert(s == seq![entries[0]] + t);
        assert(s.drop_first() =~= t);
        assert(s[0] == entries[0]);
    }
}

/// Merging `extra` into `base` gives each key the value that `extra` has for
/// it, and the value that `base` has for every key that `extra` lacks.
pub proof fn lemma_merge_lookup(base: Seq<(Seq<char>, Json)>, extra: Seq<(Seq<char>, Json)>, key: Seq<char>)
    requires
        distinct_keys(extra),
    ensures
        lookup(merge_members(base, extra), key) == match lookup(extra, key) {
            Some(v) => Some(v),
            None => lookup(base, key),
        },
    decreases extra.len(),
{
    if extra.len() > 0 {
        let rest = extra.drop_first();
        assert(distinct_keys(rest));
        lemma_merge_lookup(set_member(base, extra[0].0, extra[0].1), rest, key);
        lemma_set_member_lookup(base, extra[0].0, extra[0].1, key);
        if key == extra[0].0 {
            lemma_lookup_absent(rest, key);
        }
    }
}

fn set_member_exec(entries: &mut Vec<(String, JsonValue)>, key: String, value: JsonValue)
    ensures
        entries_json(final(entries)@) == set_member(entries_json(old(entries)@), key@, value.json()),
{
    let ghost es = entries_json(entries@);
    let mut i: usize = 0;
    while i < entries.len()
        invariant
            entries@ == old(entries)@,
            es == entries_json(entries@),
            i <= entries@.len(),
            forall|j: int| 0 <= j < i ==> (#[trigger] es[j]).0 != key@,
        decreases entries@.len() - i,
    {
        if entries[i].0 == key {
            proof {
                lemma_set_member_at(es, key@, value.json(), i as int);
            }
            entries.set(i, (key, value));
            assert(entries_json(entries@) =~= es.update(i as int, (key@, value.json())));
            return;
        }
        i += 1;
    }
    proof {
        lemma_set_member_absent(es, key@, value.json());
    }
    entries.push((key, value));
    assert(entries_json(entries@) =~= es.push((key@, value.json())));
}

/// `for (k, v) in extra { obj[k] = v }`.
pub fn merge_members_exec(entries: &mut Vec<(String, JsonValue)>, extra: Vec<(String, JsonValue)>)
    ensures
        entries_json(final(entries)@) == merge_members(entries_json(old(entries)@), entries_json(extra@)),
{
    let mut rest = extra;
    while rest.len() > 0
        invariant
            merge_members(entries_json(entries@), entries_json(rest@)) == merge_members(entries_json(old(entries)@), entries_json(extra@)),
        decreases rest@.len(),
    {
        let ghost before = entries_json(rest@);
        let (k, v) = rest.remove(0);
        assert(entries_json(rest@) =~= before.drop_first());
        set_member_exec(entries, k, v);
    }
    assert(entries_json(rest@) =~= Seq::<(Seq<char>, Json)>::empty());
}

} // verus!

verus! {

/// `v.as_array().map(|a| a.iter().map(f).collect()).unwrap_or_default()`.
pub open spec fn map_items<T>(v: Option<Json>, f: spec_fn(Json) -> T) -> Seq<T> {
    match as_items(v) {
        Some(items) => items.map_values(f),
        None => Seq::empty(),
    }
}

/// Builds one value for each element of an array; nothing when `v` is no
/// array.
pub fn collect_items<T: View, F: Fn(&JsonValue) -> T>(v: Option<&JsonValue>, f: F, Ghost(g): Ghost<spec_fn(Json) -> T::V>) -> (r: Vec<T>)
    requires
        forall|x: &JsonValue| #[trigger] f.requires((x,)),
        forall|x: &JsonValue, y: T| #[trigger] f.ensures((x,), y) ==> y@ == g(x.json()),
    ensures
        r@.map_values(|t: T| t@) == map_items(view_opt(v), g),
{
    let mut out: Vec<T> = Vec::new();
    match items_of(v) {
        Some(items) => {
            let mut i: usize = 0;
            while i < items.len()
                invariant
                    i <= items@.len(),
                    as_items(view_opt(v)) == Some(items@.map_values(|x: JsonValue| x.json())),
                    forall|x: &JsonValue| #[trigger] f.requires((x,)),
                    forall|x: &JsonValue, y: T| #[trigger] f.ensures((x,), y) ==> y@ == g(x.json()),
                    out@.map_values(|t: T| t@) =~= items@.take(i as int).map_values(|x: JsonValue| g(x.json())),
                decreases items@.len() - i,
            {
                let y = f(&items[i]);
                assert(y@ == g(items@[i as int].json()));
                let ghost before = out@;
                out.push(y);
                assert(out@.map_values(|t: T| t@) =~= before.map_values(|t: T| t@).push(y@));
                assert(items@.take(i + 1) =~= items@.take(i as int).push(items@[i as int]));
                i += 1;
                assert(out@.map_values(|t: T| t@) =~= items@.take(i as int).map_values(|x: JsonValue| g(x.json())));
            }
            assert(items@.take(i as int) =~= items@);
            assert(items@.map_values(|x: JsonValue| g(x.json())) =~= items@.map_values(|x: JsonValue| x.json()).map_values(g));
        },
        None => {
            assert(out@.map_values(|t: T| t@) =~= Seq::<T::V>::empty());
        },
    }
    out
}

/// The first element of `s` that satisfies `p`.
pub open spec fn find_first<T>(s: Seq<T>, p: spec_fn(T) -> bool) -> Option<T>
    decreases s.len(),
{
    if s.len() == 0 {
        None
    } else if p(s[0]) {
        Some(s[0])
    } else {
        find_first(s.drop_first(), p)
    }
}

pub proof fn lemma_find_first_at<T>(s: Seq<T>, p: spec_fn(T) -> bool, i: int)
    requires
        0 <= i < s.len(),
        p(s[i]),
        forall|j: int| 0 <= j < i ==> !p(#[trigger] s[j]),
    ensures
        find_first(s, p) == Some(s[i]),
    decreases i,
{
    if i > 0 {
        assert(forall|j: int| 0 <= j < i - 1 ==> #[trigger] s.drop_first()[j] == s[j + 1]);
        lemma_find_first_at(s.drop_first(), p, i - 1);
    }
}

pub proof fn lemma_find_first_none<T>(s: Seq<T>, p: spec_fn(T) -> bool)
    requires
        forall|j: int| 0 <= j < s.len() ==> !p(#[trigger] s[j]),
    ensures
        find_first(s, p) is None,
    decreases s.len(),
{
    if s.len() > 0 {
        assert(forall|j: int| 0 <= j < s.len() - 1 ==> #[trigger] s.drop_first()[j] == s[j + 1]);
        lemma_find_first_none(s.drop_first(), p);
    }
}

} // verus!

verus! {

/// The JSON of an object value is the JSON of its entries.
pub proof fn lemma_object_json(entries: Vec<(String, JsonValue)>)
    ensures
        JsonValue::Object(entries).json() == Json::Object(entries_json(entries@)),
{
    assert(JsonValue::Object(entries).json()->Object_0 =~= entries_json(entries@));
}

/// `{k1: v1}`.
pub fn obj1(k1: &str, v1: JsonValue) -> (r: JsonValue)
    ensures
        r.json() == Json::Object(seq![(k1@, v1.json())]),
{
    let ghost j1 = v1.json();
    let entries = vec![(k1.to_owned(), v1)];
    proof {
        lemma_object_json(entries);
        assert(entries_json(entries@) =~= seq![(k1@, j1)]);
    }
    JsonValue::Object(entries)
}

/// `{k1: v1, k2: v2}`.
pub fn obj2(k1: &str, v1: JsonValue, k2: &str, v2: JsonValue) -> (r: JsonValue)
    ensures
        r.json() == Json::Object(seq![(k1@, v1.json()), (k2@, v2.json())]),
{
    let ghost j1 = v1.json();
    let ghost j2 = v2.json();
    let entries = vec![(k1.to_owned(), v1), (k2.to_owned(), v2)];
    proof {
        lemma_object_json(entries);
        assert(entries_json(entries@) =~= seq![(k1@, j1), (k2@, j2)]);
    }
    JsonValue::Object(entries)
}

/// `{k1: v1, k2: v2, k3: v3}`.
pub fn obj3(k1: &str, v1: JsonValue, k2: &str, v2: JsonValue, k3: &str, v3: JsonValue) -> (r: JsonValue)
    ensures
        r.json() == Json::Object(seq![(k1@, v1.json()), (k2@, v2.json()), (k3@, v3.json())]),
{
    let ghost j1 = v1.json();
    let ghost j2 = v2.json();
    let ghost j3 = v3.json();
    let entries = vec![(k1.to_owned(), v1), (k2.to_owned(), v2), (k3.to_owned(), v3)];
    proof {
        lemma_object_json(entries);
        assert(entries_json(entries@) =~= seq![(k1@, j1), (k2@, j2), (k3@, j3)]);
    }
    JsonValue::Object(entries)
}

/// `{k1: v1, k2: v2, k3: v3, k4: v4}`.
pub fn obj4(k1: &str, v1: JsonValue, k2: &str, v2: JsonValue, k3: &str, v3: JsonValue, k4: &str, v4: JsonValue) -> (r: JsonValue)
    ensures
        r.json() == Json::Object(seq![(k1@, v1.json()), (k2@, v2.json()), (k3@, v3.json()), (k4@, v4.json())]),
{
    let ghost j1 = v1.json();
    let ghost j2 = v2.json();
    let ghost j3 = v3.json();
    let ghost j4 = v4.json();
    let entries = vec![(k1.to_owned(), v1), (k2.to_owned(), v2), (k3.to_owned(), v3), (k4.to_owned(), v4)];
    proof {
        lemma_object_json(entries);
        assert(entries_json(entries@) =~= seq![(k1@, j1), (k2@, j2), (k3@, j3), (k4@, j4)]);
    }
    JsonValue::Object(entries)
}

/// `{k1: v1, k2: v2, k3: v3, k4: v4, k5: v5}`.
pub fn obj5(k1: &str, v1: JsonValue, k2: &str, v2: JsonValue, k3: &str, v3: JsonValue, k4: &str, v4: JsonValue, k5: &str, v5: JsonValue) -> (r: JsonValue)
    ensures
        r.json() == Json::Object(seq![(k1@, v1.json()), (k2@, v2.json()), (k3@, v3.json()), (k4@, v4.json()), (k5@, v5.json())]),
{
    let ghost j1 = v1.json();
    let ghost j2 = v2.json();
    let ghost j3 = v3.json();
    let ghost j4 = v4.json();
    let ghost j5 = v5.json();
    let entries = vec![(k1.to_owned(), v1), (k2.to_owned(), v2), (k3.to_owned(), v3), (k4.to_owned(), v4), (k5.to_owned(), v5)];
    proof {
        lemma_object_json(entries);
        assert(entries_json(entries@) =~= seq![(k1@, j1), (k2@, j2), (k3@, j3), (k4@, j4), (k5@, j5)]);
    }
    JsonValue::Object(entries)
}

/// `[v1]`.
pub fn arr1(v1: JsonValue) -> (r: JsonValue)
    ensures
        r.json() == Json::Array(seq![v1.json()]),
{
    let ghost j1 = v1.json();
    let r = array_value(vec![v1]);
    assert(r.json()->Array_0 =~= seq![j1]);
    r
}

/// `[v1, v2, v3]`.
pub fn arr3(v1: JsonValue, v2: JsonValue, v3: JsonValue) -> (r: JsonValue)
    ensures
        r.json() == Json::Array(seq![v1.json(), v2.json(), v3.json()]),
{
    let ghost j1 = v1.json();
    let ghost j2 = v2.json();
    let ghost j3 = v3.json();
    let r = array_value(vec![v1, v2, v3]);
    assert(r.json()->Array_0 =~= seq![j1, j2, j3]);
    r
}

} // verus!

verus! {

/// At most the first `n` elements of `s`, in order.
pub open spec fn first_n<T>(s: Seq<T>, n: nat) -> Seq<T> {
    if s.len() <= n {
        s
    } else {
        s.take(n as int)
    }
}

/// Taking the first elements and viewing each commute.
pub proof fn lemma_first_n_map<T, U>(s: Seq<T>, f: spec_fn(T) -> U, n: nat)
    ensures
        first_n(s, n).map_values(f) == first_n(s.map_values(f), n),
        first_n(s, n).len() <= n,
{
    if s.len() > n {
        assert(s.take(n as int).map_values(f) =~= s.map_values(f).take(n as int));
    }
}

/// Keeps at most the first `limit` elements, in order.
pub fn keep_first<T: View>(v: Vec<T>, limit: u32) -> (r: Vec<T>)
    ensures
        r@ == first_n(v@, limit as nat),
        r@.map_values(|t: T| t@) == first_n(v@.map_values(|t: T| t@), limit as nat),
        r@.len() <= limit,
{
    let mut r = v;
    let ghost before = r@;
    if (limit as usize) < r.len() {
        r.truncate(limit as usize);
        assert(r@ =~= before.take(limit as int));
    }
    proof {
        lemma_first_n_map(before, |t: T| t@, limit as nat);
    }
    r
}

} // verus!
