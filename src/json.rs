//! A JSON value held as plain data, its mathematical model, and the rule that
//! turns a field that may be absent, a single value or a list into a sequence.

use vstd::prelude::*;
use vstd::string::*;

verus! {

broadcast use vstd::std_specs::vec::group_vec_axioms;

/// A JSON value. Numbers keep their decimal text; an object keeps its entries
/// in order.
pub enum JsonValue {
    Null,
    Bool(bool),
    Number(String),
    Str(String),
    Array(Vec<JsonValue>),
    Object(Vec<(String, JsonValue)>),
}

/// The mathematical model of a JSON value.
pub enum Json {
    Null,
    Bool(bool),
    Number(Seq<char>),
    Str(Seq<char>),
    Array(Seq<Json>),
    Object(Seq<(Seq<char>, Json)>),
}

/// The model of a value, all the way down.
pub open spec fn json_model(v: JsonValue) -> Json
    decreases v,
{
    match v {
        JsonValue::Null => Json::Null,
        JsonValue::Bool(b) => Json::Bool(b),
        JsonValue::Number(n) => Json::Number(n@),
        JsonValue::Str(s) => Json::Str(s@),
        JsonValue::Array(items) => Json::Array(
            Seq::new(
                items@.len(),
                |i: int|
                    if 0 <= i < items@.len() {
                        json_model(items@[i])
                    } else {
                        Json::Null
                    },
            ),
        ),
        JsonValue::Object(entries) => Json::Object(
            Seq::new(
                entries@.len(),
                |i: int|
                    if 0 <= i < entries@.len() {
                        (entries@[i].0@, json_model(entries@[i].1))
                    } else {
                        (Seq::empty(), Json::Null)
                    },
            ),
        ),
    }
}

impl View for JsonValue {
    type V = Json;

    open spec fn view(&self) -> Json {
        json_model(*self)
    }
}

/// The models of a sequence of values.
pub open spec fn json_views(s: Seq<JsonValue>) -> Seq<Json> {
    Seq::new(s.len(), |i: int| s[i]@)
}

/// The sequence that a field of ambiguous cardinality stands for: nothing for
/// null, the items of an array, and the value itself for anything else.
pub open spec fn shape_seq(v: Json) -> Seq<Json> {
    match v {
        Json::Null => Seq::empty(),
        Json::Array(items) => items,
        _ => seq![v],
    }
}

/// The text of a string value.
pub open spec fn text_of(v: Json) -> Option<Seq<char>> {
    match v {
        Json::Str(s) => Some(s),
        _ => None,
    }
}

/// The string elements of `items`, in order, duplicates kept.
pub open spec fn texts_of(items: Seq<Json>) -> Seq<Seq<char>>
    decreases items.len(),
{
    if items.len() == 0 {
        Seq::empty()
    } else {
        let rest = texts_of(items.drop_last());
        match text_of(items.last()) {
            Some(t) => rest.push(t),
            None => rest,
        }
    }
}

/// The value of the first entry under `key`.
pub open spec fn lookup(entries: Seq<(Seq<char>, Json)>, key: Seq<char>) -> Option<Json>
    decreases entries.len(),
{
    if entries.len() == 0 {
        None
    } else if entries[0].0 == key {
        Some(entries[0].1)
    } else {
        lookup(entries.drop_first(), key)
    }
}

/// The value under `key` of an object; nothing for any other value.
pub open spec fn field_of(v: Json, key: Seq<char>) -> Option<Json> {
    match v {
        Json::Object(entries) => lookup(entries, key),
        _ => None,
    }
}

/// The value under `key`, with a missing field read as null.
pub open spec fn field_or_null(v: Json, key: Seq<char>) -> Json {
    match field_of(v, key) {
        Some(f) => f,
        None => Json::Null,
    }
}

/// The text under `key`, when that field is present and is a string.
pub open spec fn text_field(v: Json, key: Seq<char>) -> Option<Seq<char>> {
    text_of(field_or_null(v, key))
}

/// The view of an optional string.
pub open spec fn opt_text(o: Option<String>) -> Option<Seq<char>> {
    match o {
        Some(s) => Some(s@),
        None => None,
    }
}

/// Resolves a field of ambiguous cardinality into the list of its elements.
pub fn resolve_shape(v: JsonValue) -> (r: Vec<JsonValue>)
    ensures
        json_views(r@) == shape_seq(v@),
{
    match v {
        JsonValue::Null => {
            let r: Vec<JsonValue> = Vec::new();
            assert(json_views(r@) =~= Seq::<Json>::empty());
            r
        },
        JsonValue::Array(items) => {
            assert(json_views(items@) =~= shape_seq(JsonValue::Array(items)@));
            items
        },
        other => {
            let ghost m = other@;
            let r = vec![other];
            assert(json_views(r@) =~= seq![m]);
            r
        },
    }
}

impl JsonValue {
    /// The text of a string value, copied.
    pub fn as_text(&self) -> (r: Option<String>)
        ensures
            opt_text(r) == text_of(self@),
    {
        match self {
            JsonValue::Str(s) => Some(s.clone()),
            _ => None,
        }
    }

    /// The value under `key` when this is an object that has it.
    pub fn get<'a>(&'a self, key: &str) -> (r: Option<&'a JsonValue>)
        ensures
            match r {
                Some(f) => field_of(self@, key@) == Some(f@),
                None => field_of(self@, key@) is None,
            },
    {
        match self {
            JsonValue::Object(entries) => {
                let ghost es = self@->Object_0;
                let wanted = String::from_str(key);
                let n = entries.len();
                let mut i: usize = 0;
                assert(es.subrange(0, n as int) =~= es);
                while i < n
                    invariant
                        n == entries@.len(),
                        n == es.len(),
                        wanted@ == key@,
                        i <= n,
                        es == self@->Object_0,
                        *self == JsonValue::Object(*entries),
                        lookup(es, key@) == lookup(es.subrange(i as int, n as int), key@),
                    decreases n - i,
                {
                    let ghost rest = es.subrange(i as int, n as int);
                    assert(rest.drop_first() =~= es.subrange(i + 1, n as int));
                    assert(rest[0] == es[i as int]);
                    assert(es[i as int] == (entries@[i as int].0@, json_model(entries@[i as int].1)));
                    if entries[i].0 == wanted {
                        assert(rest[0].0 == key@);
                        assert(lookup(rest, key@) == Some(rest[0].1));
                        return Some(&entries[i].1);
                    }
                    assert(rest[0].0 != key@);
                    i = i + 1;
                }
                None
            },
            _ => None,
        }
    }

    /// The value under `key`, with a missing field read as null.
    pub fn field<'a>(&'a self, key: &str) -> (r: &'a JsonValue)
        ensures
            r@ == field_or_null(self@, key@),
    {
        match self.get(key) {
            Some(f) => f,
            None => &JsonValue::Null,
        }
    }

    /// A copy of this value, all the way down.
    pub fn deep_copy(&self) -> (r: JsonValue)
        ensures
            r@ == self@,
        decreases self,
    {
        match self {
            JsonValue::Null => JsonValue::Null,
            JsonValue::Bool(b) => JsonValue::Bool(*b),
            JsonValue::Number(n) => JsonValue::Number(n.clone()),
            JsonValue::Str(s) => JsonValue::Str(s.clone()),
            JsonValue::Array(items) => {
                let mut out: Vec<JsonValue> = Vec::new();
                let mut i: usize = 0;
                while i < items.len()
                    invariant
                        i <= items@.len(),
                        *self == JsonValue::Array(*items),
                        out@.len() == i,
                        forall|j: int|
                            0 <= j < i ==> #[trigger] json_model(out@[j]) == json_model(items@[j]),
                    decreases items@.len() - i,
                {
                    proof {
                        assert(decreases_to!(*self => self->Array_0));
                        assert(decreases_to!(self->Array_0 => self->Array_0@));
                        assert(decreases_to!(self->Array_0@ => self->Array_0@[i as int]));
                    }
                    let c = items[i].deep_copy();
                    out.push(c);
                    i = i + 1;
                }
                let ghost outs = out@;
                let r = JsonValue::Array(out);
                proof {
                    let a = r@->Array_0;
                    let b = self@->Array_0;
                    assert forall|j: int| 0 <= j < a.len() implies a[j] == b[j] by {
                        assert(json_model(outs[j]) == json_model(items@[j]));
                    }
                    assert(a =~= b);
                }
                r
            },
            JsonValue::Object(entries) => {
                let mut out: Vec<(String, JsonValue)> = Vec::new();
                let mut i: usize = 0;
                while i < entries.len()
                    invariant
                        i <= entries@.len(),
                        *self == JsonValue::Object(*entries),
                        out@.len() == i,
                        forall|j: int|
                            0 <= j < i ==> out@[j].0@ == entries@[j].0@ && #[trigger] json_model(
                                out@[j].1,
                            ) == json_model(entries@[j].1),
                    decreases entries@.len() - i,
                {
                    proof {
                        let ghost es = self->Object_0;
                        assert(decreases_to!(*self => self->Object_0));
                        assert(decreases_to!(es => es@));
                        assert(decreases_to!(es@ => es@[i as int]));
                        assert(decreases_to!(es@[i as int] => es@[i as int].1));
                    }
                    let key = entries[i].0.clone();
                    let value = entries[i].1.deep_copy();
                    out.push((key, value));
                    i = i + 1;
                }
                let ghost outs = out@;
                let r = JsonValue::Object(out);
                proof {
                    let a = r@->Object_0;
                    let b = self@->Object_0;
                    assert forall|j: int| 0 <= j < a.len() implies a[j] == b[j] by {
                        assert(json_model(outs[j].1) == json_model(entries@[j].1));
                    }
                    assert(a =~= b);
                }
                r
            },
        }
    }
}

/// Resolving a bare value gives the same one-element sequence as resolving a
/// one-element array that holds it.
pub proof fn lemma_shape_rewrap(v: Json)
    requires
        v !is Null,
        v !is Array,
    ensures
        shape_seq(v) == shape_seq(Json::Array(seq![v])),
        shape_seq(v) == seq![v],
{
}

} // verus!
