//! The library's model of a JSON value.
//!
//! Requests, responses and bound parameter values travel through the core as
//! values of this type; the process edge converts them to and from its JSON
//! library's own representation. Numbers that are not 64-bit integers are
//! carried as their decimal text, so the core never touches floating point.

use crate::strutil::str_eq;
use vstd::prelude::*;

verus! {

/// A JSON value as the core holds it.
pub enum JsonValue {
    Null,
    Bool(bool),
    Int(i64),
    UInt(u64),
    /// A number carried as its decimal text.
    NumText(String),
    Str(String),
    Arr(Vec<JsonValue>),
    Obj(Vec<(String, JsonValue)>),
}

/// The mathematical shape of a JSON value: strings as character sequences.
#[verifier::ext_equal]
pub enum JsonData {
    Null,
    Bool(bool),
    Int(i64),
    UInt(u64),
    NumText(Seq<char>),
    Str(Seq<char>),
    Arr(Seq<JsonData>),
    Obj(Seq<(Seq<char>, JsonData)>),
}

/// The shape of a JSON value.
pub open spec fn jv_view(v: JsonValue) -> JsonData
    decreases v,
{
    match v {
        JsonValue::Null => JsonData::Null,
        JsonValue::Bool(b) => JsonData::Bool(b),
        JsonValue::Int(i) => JsonData::Int(i),
        JsonValue::UInt(u) => JsonData::UInt(u),
        JsonValue::NumText(s) => JsonData::NumText(s@),
        JsonValue::Str(s) => JsonData::Str(s@),
        JsonValue::Arr(items) => {
            proof {
                assert(decreases_to!(v => items));
                assert(decreases_to!(items => items@));
            }
            JsonData::Arr(jv_views(items@))
        },
        JsonValue::Obj(entries) => {
            proof {
                assert(decreases_to!(v => entries));
                assert(decreases_to!(entries => entries@));
            }
            JsonData::Obj(jv_entries(entries@))
        },
    }
}

/// The shapes of a sequence of JSON values.
pub open spec fn jv_views(s: Seq<JsonValue>) -> Seq<JsonData>
    decreases s,
{
    if s.len() == 0 {
        Seq::empty()
    } else {
        proof {
            assert(decreases_to!(s => s[0]));
            assert(decreases_to!(s => s.subrange(1, s.len() as int)));
        }
        seq![jv_view(s[0])] + jv_views(s.subrange(1, s.len() as int))
    }
}

/// The shapes of an object's entries.
pub open spec fn jv_entries(s: Seq<(String, JsonValue)>) -> Seq<(Seq<char>, JsonData)>
    decreases s,
{
    if s.len() == 0 {
        Seq::empty()
    } else {
        proof {
            assert(decreases_to!(s => s[0]));
            assert(decreases_to!(s[0] => s[0].1));
            assert(decreases_to!(s => s.subrange(1, s.len() as int)));
        }
        seq![(s[0].0@, jv_view(s[0].1))] + jv_entries(s.subrange(1, s.len() as int))
    }
}

impl View for JsonValue {
    type V = JsonData;

    open spec fn view(&self) -> JsonData {
        jv_view(*self)
    }
}

pub proof fn lemma_jv_views_index(s: Seq<JsonValue>)
    ensures
        jv_views(s).len() == s.len(),
        forall|i: int| 0 <= i < s.len() ==> jv_views(s)[i] == jv_view(#[trigger] s[i]),
    decreases s.len(),
{
    if s.len() > 0 {
        let tail = s.subrange(1, s.len() as int);
        lemma_jv_views_index(tail);
        assert forall|i: int| 0 <= i < s.len() implies jv_views(s)[i] == jv_view(s[i]) by {
            if i > 0 {
                assert(tail[i - 1] == s[i]);
            }
        }
    }
}

pub proof fn lemma_jv_entries_index(s: Seq<(String, JsonValue)>)
    ensures
        jv_entries(s).len() == s.len(),
        forall|i: int|
            0 <= i < s.len() ==> jv_entries(s)[i] == (#[trigger] s[i].0@, jv_view(s[i].1)),
    decreases s.len(),
{
    if s.len() > 0 {
        let tail = s.subrange(1, s.len() as int);
        lemma_jv_entries_index(tail);
        assert forall|i: int|
            0 <= i < s.len() implies jv_entries(s)[i] == (s[i].0@, jv_view(s[i].1)) by {
            if i > 0 {
                assert(tail[i - 1] == s[i]);
            }
        }
    }
}

impl Clone for JsonValue {
    /// Clones the value; the copy has the same shape.
    #[verifier::loop_isolation(false)]
    fn clone(&self) -> (r: Self)
        ensures
            r@ == self@,
        decreases *self,
    {
        match self {
            JsonValue::Null => JsonValue::Null,
            JsonValue::Bool(b) => JsonValue::Bool(*b),
            JsonValue::Int(i) => JsonValue::Int(*i),
            JsonValue::UInt(u) => JsonValue::UInt(*u),
            JsonValue::NumText(s) => JsonValue::NumText(s.clone()),
            JsonValue::Str(s) => JsonValue::Str(s.clone()),
            JsonValue::Arr(items) => {
                proof {
                    assert(decreases_to!(*self => *items));
                    assert(decreases_to!(*items => items@));
                }
                let mut out: Vec<JsonValue> = Vec::new();
                let mut i: usize = 0;
                while i < items.len()
                    invariant
                        i <= items@.len(),
                        out@.len() == i,
                        forall|j: int| 0 <= j < i ==> jv_view(#[trigger] out@[j]) == jv_view(
                            items@[j],
                        ),
                    decreases items@.len() - i,
                {
                    proof {
                        assert(decreases_to!(items@ => items@[i as int]));
                        assert(decreases_to!(*self => items@[i as int]));
                    }
                    out.push(items[i].clone());
                    i = i + 1;
                }
                proof {
                    lemma_jv_views_index(out@);
                    lemma_jv_views_index(items@);
                    assert forall|j: int| 0 <= j < items@.len() implies jv_views(out@)[j]
                        == jv_views(items@)[j] by {
                        assert(jv_view(out@[j]) == jv_view(items@[j]));
                    }
                    assert(jv_views(out@) =~= jv_views(items@));
                }
                JsonValue::Arr(out)
            },
            JsonValue::Obj(entries) => {
                proof {
                    assert(decreases_to!(*self => *entries));
                    assert(decreases_to!(*entries => entries@));
                }
                let mut out: Vec<(String, JsonValue)> = Vec::new();
                let mut i: usize = 0;
                while i < entries.len()
                    invariant
                        i <= entries@.len(),
                        out@.len() == i,
                        forall|j: int|
                            0 <= j < i ==> (#[trigger] out@[j]).0@ == entries@[j].0@ && jv_view(
                                out@[j].1,
                            ) == jv_view(entries@[j].1),
                    decreases entries@.len() - i,
                {
                    proof {
                        assert(decreases_to!(entries@ => entries@[i as int]));
                        assert(decreases_to!(entries@[i as int] => entries@[i as int].1));
                        assert(decreases_to!(*self => entries@[i as int].1));
                    }
                    let k = entries[i].0.clone();
                    let v = entries[i].1.clone();
                    out.push((k, v));
                    i = i + 1;
                }
                proof {
                    lemma_jv_entries_index(out@);
                    lemma_jv_entries_index(entries@);
                    assert forall|j: int| 0 <= j < entries@.len() implies jv_entries(out@)[j]
                        == jv_entries(entries@)[j] by {
                        assert(out@[j].0@ == entries@[j].0@);
                        assert(jv_view(out@[j].1) == jv_view(entries@[j].1));
                    }
                    assert(jv_entries(out@) =~= jv_entries(entries@));
                }
                JsonValue::Obj(out)
            },
        }
    }
}

pub proof fn lemma_jv_views_push(s: Seq<JsonValue>, x: JsonValue)
    ensures
        jv_views(s.push(x)) =~= jv_views(s).push(jv_view(x)),
{
    lemma_jv_views_index(s.push(x));
    lemma_jv_views_index(s);
    assert forall|i: int| 0 <= i < s.len() + 1 implies jv_views(s.push(x))[i] == jv_views(s).push(
        jv_view(x),
    )[i] by {
        if i < s.len() {
            assert(s.push(x)[i] == s[i]);
        } else {
            assert(s.push(x)[i] == x);
        }
    }
}

pub proof fn lemma_jv_entries_push(s: Seq<(String, JsonValue)>, e: (String, JsonValue))
    ensures
        jv_entries(s.push(e)) =~= jv_entries(s).push((e.0@, jv_view(e.1))),
{
    lemma_jv_entries_index(s.push(e));
    lemma_jv_entries_index(s);
    assert forall|i: int| 0 <= i < s.len() + 1 implies jv_entries(s.push(e))[i] == jv_entries(
        s,
    ).push((e.0@, jv_view(e.1)))[i] by {
        if i < s.len() {
            assert(s.push(e)[i] == s[i]);
            assert(s.push(e)[i].0@ == s[i].0@);
            assert(jv_entries(s.push(e))[i] == (s.push(e)[i].0@, jv_view(s.push(e)[i].1)));
            assert(jv_entries(s)[i] == (s[i].0@, jv_view(s[i].1)));
        } else {
            assert(s.push(e)[i] == e);
            assert(s.push(e)[i].0@ == e.0@);
            assert(jv_entries(s.push(e))[i] == (s.push(e)[i].0@, jv_view(s.push(e)[i].1)));
        }
    }
}

/// First value bound to `key` in an object's entry list, if any.
pub open spec fn spec_lookup(entries: Seq<(Seq<char>, JsonData)>, key: Seq<char>) -> Option<
    JsonData,
>
    decreases entries.len(),
{
    if entries.len() == 0 {
        None
    } else if entries[0].0 == key {
        Some(entries[0].1)
    } else {
        spec_lookup(entries.subrange(1, entries.len() as int), key)
    }
}

/// Looks `key` up among an object's entries, first match.
pub fn obj_get<'a>(entries: &'a Vec<(String, JsonValue)>, key: &str) -> (r: Option<&'a JsonValue>)
    ensures
        match r {
            Some(v) => spec_lookup(jv_entries(entries@), key@) == Some(v@),
            None => spec_lookup(jv_entries(entries@), key@) is None,
        },
{
    let ghost evs = jv_entries(entries@);
    proof {
        lemma_jv_entries_index(entries@);
        assert(evs.subrange(0, evs.len() as int) =~= evs);
    }
    let mut i: usize = 0;
    while i < entries.len()
        invariant
            i <= entries@.len(),
            evs == jv_entries(entries@),
            evs.len() == entries@.len(),
            forall|j: int|
                0 <= j < entries@.len() ==> evs[j] == (
                #[trigger] entries@[j].0@,
                jv_view(entries@[j].1),
                ),
            spec_lookup(evs, key@) == spec_lookup(evs.subrange(i as int, evs.len() as int), key@),
        decreases entries@.len() - i,
    {
        proof {
            lemma_spec_lookup_step(evs, i as int, key@);
        }
        if str_eq(entries[i].0.as_str(), key) {
            return Some(&entries[i].1);
        }
        i = i + 1;
    }
    None
}

/// Unfolds one step of `spec_lookup` on the tail of `entries` that starts at
/// `i`.
proof fn lemma_spec_lookup_step(entries: Seq<(Seq<char>, JsonData)>, i: int, key: Seq<char>)
    requires
        0 <= i < entries.len(),
    ensures
        entries[i].0 == key ==> spec_lookup(entries.subrange(i, entries.len() as int), key)
            == Some(entries[i].1),
        entries[i].0 != key ==> spec_lookup(entries.subrange(i, entries.len() as int), key)
            == spec_lookup(entries.subrange(i + 1, entries.len() as int), key),
{
    let tail = entries.subrange(i, entries.len() as int);
    assert(tail[0] == entries[i]);
    assert(tail.subrange(1, tail.len() as int) =~= entries.subrange(i + 1, entries.len() as int));
}

} // verus!
