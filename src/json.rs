use vstd::prelude::*;

use crate::schema::texts;

verus! {

/// A JSON value as the library reads and writes it.
#[derive(Debug, PartialEq, Eq)]
pub enum JsonValue {
    Null,
    Bool(bool),
    Number(u64),
    Str(String),
    Array(Vec<JsonValue>),
    Object(Vec<(String, JsonValue)>),
}

/// What a `JsonValue` holds.
pub enum Json {
    Null,
    Bool(bool),
    Number(u64),
    Str(Seq<char>),
    Array(Seq<Json>),
    Object(Seq<(Seq<char>, Json)>),
}

pub open spec fn json_view(v: JsonValue) -> Json
    decreases v,
{
    match v {
        JsonValue::Null => Json::Null,
        JsonValue::Bool(b) => Json::Bool(b),
        JsonValue::Number(n) => Json::Number(n),
        JsonValue::Str(s) => Json::Str(s@),
        JsonValue::Array(a) => Json::Array(
            Seq::new(
                a@.len(),
                |i: int|
                    if 0 <= i < a@.len() {
                        json_view(a@[i])
                    } else {
                        Json::Null
                    },
            ),
        ),
        JsonValue::Object(o) => Json::Object(
            Seq::new(
                o@.len(),
                |i: int|
                    if 0 <= i < o@.len() {
                        (o@[i].0@, json_view(o@[i].1))
                    } else {
                        (Seq::empty(), Json::Null)
                    },
            ),
        ),
    }
}

impl View for JsonValue {
    type V = Json;

    open spec fn view(&self) -> Json {
        json_view(*self)
    }
}

/// The value of the first entry named `k`.
pub open spec fn obj_get(e: Seq<(Seq<char>, Json)>, k: Seq<char>) -> Option<Json>
    decreases e.len(),
{
    if e.len() == 0 {
        None
    } else if e[0].0 == k {
        Some(e[0].1)
    } else {
        obj_get(e.drop_first(), k)
    }
}

/// The member `k` of an object; `None` for a value that is no object.
pub open spec fn field(j: Json, k: Seq<char>) -> Option<Json> {
    match j {
        Json::Object(e) => obj_get(e, k),
        _ => None,
    }
}

pub proof fn lemma_obj_get_found(e: Seq<(Seq<char>, Json)>, k: Seq<char>, i: int)
    requires
        0 <= i < e.len(),
        e[i].0 == k,
        forall|j: int| 0 <= j < i ==> #[trigger] e[j].0 != k,
    ensures
        obj_get(e, k) == Some(e[i].1),
    decreases i,
{
    if i > 0 {
        assert(e[0].0 != k);
        assert forall|j: int| 0 <= j < i - 1 implies #[trigger] e.drop_first()[j].0 != k by {
            assert(e.drop_first()[j] == e[j + 1]);
        }
        lemma_obj_get_found(e.drop_first(), k, i - 1);
    }
}

pub proof fn lemma_obj_get_absent(e: Seq<(Seq<char>, Json)>, k: Seq<char>)
    requires
        forall|j: int| 0 <= j < e.len() ==> #[trigger] e[j].0 != k,
    ensures
        obj_get(e, k) is None,
    decreases e.len(),
{
    if e.len() > 0 {
        assert(e[0].0 != k);
        assert forall|j: int| 0 <= j < e.len() - 1 implies #[trigger] e.drop_first()[j].0 != k by {
            assert(e.drop_first()[j] == e[j + 1]);
        }
        lemma_obj_get_absent(e.drop_first(), k);
    }
}

/// A list of strings as a JSON array.
pub open spec fn strs_json(v: Seq<Seq<char>>) -> Json {
    Json::Array(v.map_values(|s: Seq<char>| Json::Str(s)))
}

/// The strings of a JSON array of strings.
pub open spec fn strs_of(j: Json) -> Option<Seq<Seq<char>>> {
    match j {
        Json::Array(a) => if forall|i: int| 0 <= i < a.len() ==> #[trigger] a[i] is Str {
            Some(a.map_values(|x: Json| x->Str_0))
        } else {
            None
        },
        _ => None,
    }
}

pub proof fn lemma_strs_round_trip(v: Seq<Seq<char>>)
    ensures
        strs_of(strs_json(v)) == Some(v),
{
    let a = v.map_values(|s: Seq<char>| Json::Str(s));
    assert(forall|i: int| 0 <= i < a.len() ==> #[trigger] a[i] is Str);
    assert(a.map_values(|x: Json| x->Str_0) =~= v);
}

/// A list that may be left out: absent reads as empty.
pub open spec fn optional_strs(j: Option<Json>) -> Option<Seq<Seq<char>>> {
    match j {
        None => Some(Seq::empty()),
        Some(j) => strs_of(j),
    }
}

// Exec helpers.

/// The member `k` of an object value.
pub fn get_field<'a>(j: &'a JsonValue, k: &String) -> (r: Option<&'a JsonValue>)
    ensures
        match r {
            Some(v) => field(j@, k@) == Some(v@),
            None => field(j@, k@) is None,
        },
{
    match j {
        JsonValue::Object(e) => {
            let ghost ev = j@->Object_0;
            assert(ev.len() == e@.len());
            assert(ev.subrange(0, ev.len() as int) =~= ev);
            let mut i: usize = 0;
            while i < e.len()
                invariant
                    i <= e@.len(),
                    ev.len() == e@.len(),
                    ev == j@->Object_0,
                    *j == JsonValue::Object(*e),
                    obj_get(ev, k@) == obj_get(ev.subrange(i as int, ev.len() as int), k@),
                decreases e@.len() - i,
            {
                assert(ev[i as int] == (e@[i as int].0@, e@[i as int].1@));
                let ghost rest = ev.subrange(i as int, ev.len() as int);
                assert(rest[0] == ev[i as int]);
                assert(rest.drop_first() =~= ev.subrange(i + 1, ev.len() as int));
                if e[i].0 == *k {
                    return Some(&e[i].1);
                }
                i = i + 1;
            }
            assert(ev.subrange(i as int, ev.len() as int).len() == 0);
            None
        },
        _ => None,
    }
}

/// Reads a JSON array of strings.
pub fn read_strs(j: &JsonValue) -> (r: Option<Vec<String>>)
    ensures
        match r {
            Some(v) => strs_of(j@) == Some(texts(v@)),
            None => strs_of(j@) is None,
        },
{
    match j {
        JsonValue::Array(a) => {
            let ghost av = j@->Array_0;
            let mut out: Vec<String> = Vec::new();
            let mut i: usize = 0;
            while i < a.len()
                invariant
                    i <= a@.len(),
                    av.len() == a@.len(),
                    av == j@->Array_0,
                    *j == JsonValue::Array(*a),
                    forall|m: int| 0 <= m < i ==> #[trigger] av[m] is Str,
                    texts(out@) =~= av.subrange(0, i as int).map_values(|x: Json| x->Str_0),
                decreases a@.len() - i,
            {
                assert(av[i as int] == a@[i as int]@);
                match &a[i] {
                    JsonValue::Str(s) => {
                        let ghost before = out@;
                        out.push(s.clone());
                        assert(texts(out@) =~= av.subrange(0, i + 1).map_values(|x: Json| x->Str_0)) by {
                            assert(texts(out@) =~= texts(before).push(s@));
                        }
                    },
                    _ => {
                        return None;
                    },
                }
                i = i + 1;
            }
            assert(av.subrange(0, i as int) =~= av);
            Some(out)
        },
        _ => None,
    }
}

/// Writes a list of strings as a JSON array.
pub fn write_strs(v: &Vec<String>) -> (r: JsonValue)
    ensures
        r@ == strs_json(texts(v@)),
{
    let mut out: Vec<JsonValue> = Vec::new();
    let mut i: usize = 0;
    while i < v.len()
        invariant
            i <= v@.len(),
            out@.len() == i,
            forall|m: int| 0 <= m < i ==> (#[trigger] out@[m])@ == Json::Str(v@[m]@),
        decreases v@.len() - i,
    {
        out.push(JsonValue::Str(v[i].clone()));
        i = i + 1;
    }
    let r = JsonValue::Array(out);
    assert(r@->Array_0 =~= strs_json(texts(v@))->Array_0);
    r
}

} // verus!
