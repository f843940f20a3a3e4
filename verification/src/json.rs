//! The library's own representation of an already-deserialized JSON document.
//!
//! The loosely-typed model dump is decoded into this type once, at the edge;
//! everything the parser then does is verified logic over plain values.
//! Numbers carry the two readings the parser needs: as a signed integer and
//! as double-precision bits, each absent when the number has no such reading.

use vstd::prelude::*;

verus! {

/// A JSON number, by its two readings.
#[derive(Clone, Debug)]
pub struct JsonNum {
    /// The number read as a signed 64-bit integer, if it has an exact one.
    pub as_int: Option<i64>,
    /// The number read as a double, given as its IEEE-754 bit pattern.
    pub as_float: Option<u64>,
}

/// A JSON value.  Object fields keep their source order; lookup takes the
/// first field with the requested key.
#[derive(Debug)]
pub enum JsonValue {
    Null,
    Bool(bool),
    Num(JsonNum),
    Str(String),
    Array(Vec<JsonValue>),
    Object(Vec<(String, JsonValue)>),
}

/// The first field of `fields` whose key views as `key`, if any.
pub open spec fn spec_obj_get(fields: Seq<(String, JsonValue)>, key: Seq<char>) -> Option<
    JsonValue,
>
    decreases fields.len(),
{
    if fields.len() == 0 {
        None
    } else if fields[0].0@ == key {
        Some(fields[0].1)
    } else {
        spec_obj_get(fields.drop_first(), key)
    }
}

/// Field lookup on a JSON value: defined on objects, `None` elsewhere.
pub open spec fn spec_get(v: JsonValue, key: Seq<char>) -> Option<JsonValue> {
    match v {
        JsonValue::Object(fields) => spec_obj_get(fields@, key),
        _ => None,
    }
}

impl JsonValue {
    /// Looks up the first field named `key` of an object; `None` on any other
    /// JSON shape.
    pub fn get<'a>(&'a self, key: &String) -> (r: Option<&'a JsonValue>)
        ensures
            match r {
                Some(v) => spec_get(*self, key@) == Some(*v),
                None => spec_get(*self, key@) is None,
            },
    {
        match self {
            JsonValue::Object(fields) => {
                let n: usize = fields.len();
                let mut i: usize = 0;
                proof {
                    assert(fields@.skip(0) =~= fields@);
                }
                while i < n
                    invariant
                        n == fields@.len(),
                        i <= n,
                        spec_get(*self, key@) == spec_obj_get(fields@, key@),
                        spec_obj_get(fields@.skip(i as int), key@) == spec_obj_get(fields@, key@),
                    decreases n - i,
                {
                    let pair = &fields[i];
                    proof {
                        assert(fields@.skip(i as int)[0] == fields@[i as int]);
                        assert(fields@.skip(i as int).drop_first() =~= fields@.skip(i as int + 1));
                    }
                    if pair.0 == *key {
                        proof {
                            assert(spec_obj_get(fields@.skip(i as int), key@) == Some(
                                fields@[i as int].1,
                            ));
                        }
                        return Some(&pair.1);
                    }
                    i = i + 1;
                }
                proof {
                    assert(fields@.skip(n as int) =~= Seq::<(String, JsonValue)>::empty());
                }
                None
            },
            _ => None,
        }
    }
}

} // verus!
