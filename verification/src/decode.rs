//! The edge where a serde_json model dump enters the library: each
//! `serde_json::Value` is decoded, once, into the library's own `JsonValue`,
//! and everything after that point is verified logic.

use vstd::prelude::*;

use crate::errors::ModelError;
use crate::json::JsonValue;
use crate::loader::{load_err_matches, spec_load};
use crate::tree::{Tree, TreeEnsemble};

verus! {

#[verifier::external_type_specification]
#[verifier::external_body]
pub struct ExValue(serde_json::Value);

/// What decoding a serde_json value yields: the same document as a
/// `JsonValue`, a function of the value alone — nulls, booleans, numbers
/// (with their integer and double readings), strings, arrays and objects
/// each mapped to the matching variant.
pub uninterp spec fn decoded(v: serde_json::Value) -> JsonValue;

/// Relies on serde_json::Value, serde_json::Number::as_i64 and
/// serde_json::Number::as_f64: each variant is mapped to the matching
/// `JsonValue` variant (object fields in serde_json's iteration order), and
/// each number carries its exact integer reading, if any, and its double
/// reading as bits.
#[verifier::external_body]
fn decode_value(v: &serde_json::Value) -> (r: JsonValue)
    ensures
        r == decoded(*v),
{
    match v {
        serde_json::Value::Null => JsonValue::Null,
        serde_json::Value::Bool(b) => JsonValue::Bool(*b),
        serde_json::Value::Number(n) => JsonValue::Num(
            crate::json::JsonNum { as_int: n.as_i64(), as_float: n.as_f64().map(|x| x.to_bits()) },
        ),
        serde_json::Value::String(s) => JsonValue::Str(s.clone()),
        serde_json::Value::Array(a) => JsonValue::Array(
            a.iter().map(|x| decode_value(x)).collect(),
        ),
        serde_json::Value::Object(m) => JsonValue::Object(
            m.iter().map(|(k, x)| (k.clone(), decode_value(x))).collect(),
        ),
    }
}

impl TreeEnsemble {
    /// Decodes a serde_json model dump and loads it: the result is exactly
    /// `load` applied to the decoded document, and a published ensemble is
    /// always well-formed.
    pub fn load_value(model: &serde_json::Value) -> (r: Result<TreeEnsemble, ModelError>)
        ensures
            (match (r, spec_load(decoded(*model))) {
                (Ok(e), Ok(ev)) => e.wf() && e.features.feature_names@ == ev.feature_names
                    && e.features.feature_types@ == ev.feature_types && e.trees@.map_values(
                    |t: Tree| t.arrays_view(),
                ) == ev.trees && e.base_score == ev.base_score && e.objective == ev.objective
                    && e.num_class as int == ev.num_class,
                (Err(e), Err(se)) => load_err_matches(e, se),
                _ => false,
            }),
    {
        let decoded_model = decode_value(model);
        TreeEnsemble::load(&decoded_model)
    }
}

} // verus!
