//! A JSON document held as plain values, so that response bodies can be
//! inspected by verified code. Every field access is a fallible lookup, and a
//! deep search finds the first string in a tree that holds a given pattern.
use crate::strings::contains_seq;
use crate::strings::str_contains;
use crate::strings::str_eq;
use vstd::prelude::*;

verus! {

/// One node of a parsed JSON document. Numbers outside the unsigned 64-bit
/// range, and anything else the library never inspects, are `Other`.
#[derive(Debug, PartialEq, Eq)]
pub enum JsonValue {
    Null,
    Bool(bool),
    UInt(u64),
    Str(String),
    Arr(Vec<JsonValue>),
    Obj(Vec<(String, JsonValue)>),
    Other,
}

/// The value under the first pair with the given key, if any.
pub open spec fn spec_obj_get(pairs: Seq<(String, JsonValue)>, key: Seq<char>) -> Option<
    JsonValue,
>
    decreases pairs.len(),
{
    if pairs.len() == 0 {
        None
    } else if pairs[0].0@ == key {
        Some(pairs[0].1)
    } else {
        spec_obj_get(pairs.drop_first(), key)
    }
}

impl JsonValue {
    /// The value of the given field, when this node is an object that has it.
    pub open spec fn spec_get(self, key: Seq<char>) -> Option<JsonValue> {
        match self {
            JsonValue::Obj(pairs) => spec_obj_get(pairs@, key),
            _ => None,
        }
    }

    /// The characters of this node, when it is a string.
    pub open spec fn spec_str(self) -> Option<Seq<char>> {
        match self {
            JsonValue::Str(s) => Some(s@),
            _ => None,
        }
    }

    /// The number held by this node, when it is an unsigned integer.
    pub open spec fn spec_u64(self) -> Option<u64> {
        match self {
            JsonValue::UInt(n) => Some(n),
            _ => None,
        }
    }

    /// The elements of this node, when it is an array.
    pub open spec fn spec_arr(self) -> Option<Seq<JsonValue>> {
        match self {
            JsonValue::Arr(items) => Some(items@),
            _ => None,
        }
    }

    /// Fallible lookup of a field of an object node.
    pub fn get<'a>(&'a self, key: &str) -> (r: Option<&'a JsonValue>)
        ensures
            match r {
                Some(v) => self.spec_get(key@) == Some(*v),
                None => self.spec_get(key@) is None,
            },
    {
        match self {
            JsonValue::Obj(pairs) => {
                proof {
                    assert(pairs@.skip(0) =~= pairs@);
                    assert(self.spec_get(key@) == spec_obj_get(pairs@, key@));
                }
                let mut i: usize = 0;
                while i < pairs.len()
                    invariant
                        i <= pairs@.len(),
                        self.spec_get(key@) == spec_obj_get(pairs@, key@),
                        spec_obj_get(pairs@, key@) == spec_obj_get(
                            pairs@.skip(i as int),
                            key@,
                        ),
                    decreases pairs@.len() - i,
                {
                    let pair = &pairs[i];
                    let eq = str_eq(pair.0.as_str(), key);
                    proof {
                        let tail = pairs@.skip(i as int);
                        assert(tail[0] == pairs@[i as int]);
                        assert(tail.drop_first() =~= pairs@.skip(i as int + 1));
                        if tail[0].0@ == key@ {
                            assert(spec_obj_get(tail, key@) == Some(tail[0].1));
                        } else {
                            assert(spec_obj_get(tail, key@) == spec_obj_get(
                                tail.drop_first(),
                                key@,
                            ));
                        }
                    }
                    if eq {
                        return Some(&pair.1);
                    }
                    i = i + 1;
                }
                proof {
                    let tail = pairs@.skip(i as int);
                    assert(tail.len() == 0);
                    assert(spec_obj_get(tail, key@) is None);
                }
                None
            },
            _ => None,
        }
    }

    /// The string content of this node, when it is a string node.
    pub fn as_str(&self) -> (r: Option<&String>)
        ensures
            match r {
                Some(s) => self.spec_str() == Some(s@),
                None => self.spec_str() is None,
            },
    {
        match self {
            JsonValue::Str(s) => Some(s),
            _ => None,
        }
    }

    /// The number held by this node, when it is an unsigned integer node.
    pub fn as_u64(&self) -> (r: Option<u64>)
        ensures
            r == self.spec_u64(),
    {
        match self {
            JsonValue::UInt(n) => Some(*n),
            _ => None,
        }
    }

    /// The elements of this node, when it is an array node.
    pub fn as_array(&self) -> (r: Option<&Vec<JsonValue>>)
        ensures
            match r {
                Some(items) => self.spec_arr() == Some(items@),
                None => self.spec_arr() is None,
            },
    {
        match self {
            JsonValue::Arr(items) => Some(items),
            _ => None,
        }
    }
}

/// The characters of a string-valued field of an object node, if any.
pub open spec fn spec_field_str(v: JsonValue, key: Seq<char>) -> Option<Seq<char>> {
    match v.spec_get(key) {
        Some(x) => x.spec_str(),
        None => None,
    }
}

/// The number held by an unsigned-integer field of an object node, if any.
pub open spec fn spec_field_u64(v: JsonValue, key: Seq<char>) -> Option<u64> {
    match v.spec_get(key) {
        Some(x) => x.spec_u64(),
        None => None,
    }
}

/// Fallible lookup of a string-valued field.
pub fn field_str<'a>(v: &'a JsonValue, key: &str) -> (r: Option<&'a String>)
    ensures
        match r {
            Some(s) => spec_field_str(*v, key@) == Some(s@),
            None => spec_field_str(*v, key@) is None,
        },
{
    match v.get(key) {
        Some(x) => x.as_str(),
        None => None,
    }
}

/// Fallible lookup of an unsigned-integer field.
pub fn field_u64(v: &JsonValue, key: &str) -> (r: Option<u64>)
    ensures
        r == spec_field_u64(*v, key@),
{
    match v.get(key) {
        Some(x) => x.as_u64(),
        None => None,
    }
}

/// The first string in the tree, in depth-first order, that holds the
/// pattern; array elements and object values are searched in order.
pub open spec fn spec_find_str(v: JsonValue, pat: Seq<char>) -> Option<Seq<char>>
    decreases v, 0int,
{
    match v {
        JsonValue::Str(s) => if contains_seq(s@, pat) {
            Some(s@)
        } else {
            None
        },
        JsonValue::Arr(items) => spec_find_str_in_seq(items@, 0, pat),
        JsonValue::Obj(pairs) => spec_find_str_in_pairs(pairs@, 0, pat),
        _ => None,
    }
}

/// The first match in the elements of an array, from position `i` on.
pub open spec fn spec_find_str_in_seq(items: Seq<JsonValue>, i: int, pat: Seq<char>) -> Option<
    Seq<char>,
>
    decreases items, items.len() - i,
{
    if i < 0 || i >= items.len() {
        None
    } else {
        match spec_find_str(items[i], pat) {
            Some(found) => Some(found),
            None => spec_find_str_in_seq(items, i + 1, pat),
        }
    }
}

/// The first match in the values of an object, from position `i` on.
pub open spec fn spec_find_str_in_pairs(
    pairs: Seq<(String, JsonValue)>,
    i: int,
    pat: Seq<char>,
) -> Option<Seq<char>>
    decreases pairs, pairs.len() - i,
{
    if i < 0 || i >= pairs.len() {
        None
    } else {
        match spec_find_str(pairs[i].1, pat) {
            Some(found) => Some(found),
            None => spec_find_str_in_pairs(pairs, i + 1, pat),
        }
    }
}

/// Deep search of a document for the first string that holds the pattern.
pub fn find_string_containing<'a>(v: &'a JsonValue, pat: &str) -> (r: Option<&'a String>)
    ensures
        match r {
            Some(s) => spec_find_str(*v, pat@) == Some(s@),
            None => spec_find_str(*v, pat@) is None,
        },
    decreases *v, 0int,
{
    match v {
        JsonValue::Str(s) => {
            if str_contains(s.as_str(), pat) {
                Some(s)
            } else {
                None
            }
        },
        JsonValue::Arr(items) => {
            let mut i: usize = 0;
            while i < items.len()
                invariant
                    i <= items@.len(),
                    spec_find_str(*v, pat@) == spec_find_str_in_seq(items@, i as int, pat@),
                    v is Arr,
                    v->Arr_0 == items,
                decreases items@.len() - i,
            {
                proof {
                    assert(decreases_to!(*v => items@[i as int]));
                }
                let found = find_string_containing(&items[i], pat);
                proof {
                    match spec_find_str(items@[i as int], pat@) {
                        Some(f) => {
                            assert(spec_find_str_in_seq(items@, i as int, pat@) == Some(f));
                        },
                        None => {
                            assert(spec_find_str_in_seq(items@, i as int, pat@)
                                == spec_find_str_in_seq(items@, i as int + 1, pat@));
                        },
                    }
                }
                if let Some(s) = found {
                    return Some(s);
                }
                i = i + 1;
            }
            proof {
                assert(spec_find_str_in_seq(items@, i as int, pat@) is None);
            }
            None
        },
        JsonValue::Obj(pairs) => {
            let mut i: usize = 0;
            while i < pairs.len()
                invariant
                    i <= pairs@.len(),
                    spec_find_str(*v, pat@) == spec_find_str_in_pairs(
                        pairs@,
                        i as int,
                        pat@,
                    ),
                    v is Obj,
                    v->Obj_0 == pairs,
                decreases pairs@.len() - i,
            {
                proof {
                    assert(decreases_to!(*v => pairs@[i as int].1));
                }
                let found = find_string_containing(&pairs[i].1, pat);
                proof {
                    match spec_find_str(pairs@[i as int].1, pat@) {
                        Some(f) => {
                            assert(spec_find_str_in_pairs(pairs@, i as int, pat@) == Some(
                                f,
                            ));
                        },
                        None => {
                            assert(spec_find_str_in_pairs(pairs@, i as int, pat@)
                                == spec_find_str_in_pairs(pairs@, i as int + 1, pat@));
                        },
                    }
                }
                if let Some(s) = found {
                    return Some(s);
                }
                i = i + 1;
            }
            proof {
                assert(spec_find_str_in_pairs(pairs@, i as int, pat@) is None);
            }
            None
        },
        _ => None,
    }
}

} // verus!
