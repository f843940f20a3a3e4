//! The vendor adapter for the XGBoost JSON dump: reads feature metadata, the
//! objective name and the five per-tree node arrays, with strict per-field
//! validation.  No cross-array length check happens here — that is deferred
//! to ensemble assembly, so parsing errors are always attributable to a
//! single field.

use vstd::prelude::*;

use crate::errors::ModelError;
use crate::json::{spec_get, JsonValue};
use crate::loader::{load_err_matches, LoadFailure};
use crate::objective::Objective;
use crate::tree::Tree;

verus! {

/// The five parallel node arrays of one tree, as parsed from the model dump.
/// `split_conditions` and `base_weights` hold IEEE-754 double bit patterns.
#[derive(Clone, Debug)]
pub struct TreeArrays {
    pub split_indices: Vec<i32>,
    pub split_conditions: Vec<u64>,
    pub left_children: Vec<u32>,
    pub right_children: Vec<u32>,
    pub base_weights: Vec<u64>,
}

/// The mathematical content of `TreeArrays`.
pub ghost struct TreeArraysV {
    pub split_indices: Seq<i32>,
    pub split_conditions: Seq<u64>,
    pub left_children: Seq<u32>,
    pub right_children: Seq<u32>,
    pub base_weights: Seq<u64>,
}

impl View for TreeArrays {
    type V = TreeArraysV;

    open spec fn view(&self) -> TreeArraysV {
        TreeArraysV {
            split_indices: self.split_indices@,
            split_conditions: self.split_conditions@,
            left_children: self.left_children@,
            right_children: self.right_children@,
            base_weights: self.base_weights@,
        }
    }
}

impl Tree {
    /// The five node arrays of this tree.
    pub open spec fn arrays_view(self) -> TreeArraysV {
        TreeArraysV {
            split_indices: self.split_indices@,
            split_conditions: self.split_conditions@,
            left_children: self.left_children@,
            right_children: self.right_children@,
            base_weights: self.base_weights@,
        }
    }
}

/// The strings of a JSON array, left to right; the first non-string element
/// fails the whole field.
pub open spec fn spec_collect_strings(items: Seq<JsonValue>, field: Seq<char>) -> Result<
    Seq<String>,
    LoadFailure,
>
    decreases items.len(),
{
    if items.len() == 0 {
        Ok(Seq::empty())
    } else {
        match items[0] {
            JsonValue::Str(s) => match spec_collect_strings(items.drop_first(), field) {
                Ok(rest) => Ok(seq![s] + rest),
                Err(e) => Err(e),
            },
            _ => Err(LoadFailure::InvalidFieldType(field)),
        }
    }
}

/// The integers of a JSON array read as `i32`; an element without an integer
/// reading, or outside the `i32` range, fails the whole field.
pub open spec fn spec_collect_ints(items: Seq<JsonValue>, field: Seq<char>) -> Result<
    Seq<i32>,
    LoadFailure,
>
    decreases items.len(),
{
    if items.len() == 0 {
        Ok(Seq::empty())
    } else {
        match items[0] {
            JsonValue::Num(n) => match n.as_int {
                Some(x) => if x < (i32::MIN as i64) || x > (i32::MAX as i64) {
                    Err(LoadFailure::InvalidFieldType(field))
                } else {
                    match spec_collect_ints(items.drop_first(), field) {
                        Ok(rest) => Ok(seq![x as i32] + rest),
                        Err(e) => Err(e),
                    }
                },
                None => Err(LoadFailure::InvalidFieldType(field)),
            },
            _ => Err(LoadFailure::InvalidFieldType(field)),
        }
    }
}

/// The non-negative integers of a JSON array read as `u32`; an element
/// without an integer reading, a negative element, or one above the `u32`
/// range fails the whole field — a child index is never coerced.
pub open spec fn spec_collect_uints(items: Seq<JsonValue>, field: Seq<char>) -> Result<
    Seq<u32>,
    LoadFailure,
>
    decreases items.len(),
{
    if items.len() == 0 {
        Ok(Seq::empty())
    } else {
        match items[0] {
            JsonValue::Num(n) => match n.as_int {
                Some(x) => if x < 0 || x > (u32::MAX as i64) {
                    Err(LoadFailure::InvalidFieldType(field))
                } else {
                    match spec_collect_uints(items.drop_first(), field) {
                        Ok(rest) => Ok(seq![x as u32] + rest),
                        Err(e) => Err(e),
                    }
                },
                None => Err(LoadFailure::InvalidFieldType(field)),
            },
            _ => Err(LoadFailure::InvalidFieldType(field)),
        }
    }
}

/// The doubles of a JSON array, as bit patterns; an element without a double
/// reading fails the whole field.
pub open spec fn spec_collect_floats(items: Seq<JsonValue>, field: Seq<char>) -> Result<
    Seq<u64>,
    LoadFailure,
>
    decreases items.len(),
{
    if items.len() == 0 {
        Ok(Seq::empty())
    } else {
        match items[0] {
            JsonValue::Num(n) => match n.as_float {
                Some(b) => match spec_collect_floats(items.drop_first(), field) {
                    Ok(rest) => Ok(seq![b] + rest),
                    Err(e) => Err(e),
                },
                None => Err(LoadFailure::InvalidFieldType(field)),
            },
            _ => Err(LoadFailure::InvalidFieldType(field)),
        }
    }
}

/// The field `learner.<field>` of a model, which must be an array of
/// strings; an absent or non-array field reads as missing.
pub open spec fn spec_string_field(j: JsonValue, field: Seq<char>) -> Result<
    Seq<String>,
    LoadFailure,
> {
    match spec_get(j, "learner"@) {
        Some(l) => match spec_get(l, field) {
            Some(JsonValue::Array(items)) => spec_collect_strings(items@, field),
            _ => Err(LoadFailure::MissingField(field)),
        },
        None => Err(LoadFailure::MissingField(field)),
    }
}

/// A tree-level array field of `i32` values.
pub open spec fn spec_int_field(t: JsonValue, field: Seq<char>) -> Result<Seq<i32>, LoadFailure> {
    match spec_get(t, field) {
        Some(JsonValue::Array(items)) => spec_collect_ints(items@, field),
        _ => Err(LoadFailure::MissingField(field)),
    }
}

/// A tree-level array field of `u32` values.
pub open spec fn spec_uint_field(t: JsonValue, field: Seq<char>) -> Result<Seq<u32>, LoadFailure> {
    match spec_get(t, field) {
        Some(JsonValue::Array(items)) => spec_collect_uints(items@, field),
        _ => Err(LoadFailure::MissingField(field)),
    }
}

/// A tree-level array field of doubles, as bit patterns.
pub open spec fn spec_float_field(t: JsonValue, field: Seq<char>) -> Result<Seq<u64>, LoadFailure> {
    match spec_get(t, field) {
        Some(JsonValue::Array(items)) => spec_collect_floats(items@, field),
        _ => Err(LoadFailure::MissingField(field)),
    }
}

/// What `parse_feature_metadata` returns: `learner.feature_names` and
/// `learner.feature_types`, in that order of failure.
pub open spec fn spec_parse_feature_metadata(j: JsonValue) -> Result<
    (Seq<String>, Seq<String>),
    LoadFailure,
> {
    match spec_string_field(j, "feature_names"@) {
        Err(e) => Err(e),
        Ok(names) => match spec_string_field(j, "feature_types"@) {
            Err(e) => Err(e),
            Ok(types) => Ok((names, types)),
        },
    }
}

/// What `parse_tree_arrays` returns: the five per-tree arrays, each failing
/// on its own field.
pub open spec fn spec_parse_tree_arrays(t: JsonValue) -> Result<TreeArraysV, LoadFailure> {
    match spec_int_field(t, "split_indices"@) {
        Err(e) => Err(e),
        Ok(si) => match spec_float_field(t, "split_conditions"@) {
            Err(e) => Err(e),
            Ok(sc) => match spec_uint_field(t, "left_children"@) {
                Err(e) => Err(e),
                Ok(lc) => match spec_uint_field(t, "right_children"@) {
                    Err(e) => Err(e),
                    Ok(rc) => match spec_float_field(t, "base_weights"@) {
                        Err(e) => Err(e),
                        Ok(bw) => Ok(
                            TreeArraysV {
                                split_indices: si,
                                split_conditions: sc,
                                left_children: lc,
                                right_children: rc,
                                base_weights: bw,
                            },
                        ),
                    },
                },
            },
        },
    }
}

/// What `parse_objective` returns: `learner.objective.name` must be a
/// string; `"reg:squarederror"` is the one supported objective, any other
/// name is rejected carrying the literal name.
pub open spec fn spec_parse_objective(j: JsonValue) -> Result<Objective, LoadFailure> {
    match spec_get(j, "learner"@) {
        Some(l) => match spec_get(l, "objective"@) {
            Some(o) => match spec_get(o, "name"@) {
                Some(v) => match v {
                    JsonValue::Str(s) => if s@ == "reg:squarederror"@ {
                        Ok(Objective::SquaredError)
                    } else {
                        Err(LoadFailure::UnsupportedObjective(s@))
                    },
                    _ => Err(LoadFailure::MissingField("objective.name"@)),
                },
                None => Err(LoadFailure::MissingField("objective.name"@)),
            },
            None => Err(LoadFailure::MissingField("objective.name"@)),
        },
        None => Err(LoadFailure::MissingField("objective.name"@)),
    }
}

/// The XGBoost JSON dump adapter.
pub struct XGBoostParser;

impl XGBoostParser {
    /// Reads `learner.feature_names` and `learner.feature_types`, each a
    /// JSON array of strings; fails with `MissingField` when a field is
    /// absent or not an array, `InvalidFieldType` when an element is not a
    /// string.
    pub fn parse_feature_metadata(json: &JsonValue) -> (r: Result<
        (Vec<String>, Vec<String>),
        ModelError,
    >)
        ensures
            (match (r, spec_parse_feature_metadata(*json)) {
                (Ok(p), Ok(sp)) => p.0@ == sp.0 && p.1@ == sp.1,
                (Err(e), Err(se)) => load_err_matches(e, se),
                _ => false,
            }),
    {
        let names = match Self::parse_string_field(json, "feature_names") {
            Ok(v) => v,
            Err(e) => {
                return Err(e);
            },
        };
        let types = match Self::parse_string_field(json, "feature_types") {
            Ok(v) => v,
            Err(e) => {
                return Err(e);
            },
        };
        Ok((names, types))
    }

    /// Reads the five per-tree arrays (`split_indices`, `split_conditions`,
    /// `left_children`, `right_children`, `base_weights`), each a JSON array;
    /// fails per field with `MissingField` / `InvalidFieldType`.  Child
    /// indices must be non-negative integers within the `u32` range: a
    /// malformed index is rejected here, never coerced into a
    /// plausible-looking node id.
    pub fn parse_tree_arrays(tree_json: &JsonValue) -> (r: Result<TreeArrays, ModelError>)
        ensures
            (match (r, spec_parse_tree_arrays(*tree_json)) {
                (Ok(a), Ok(sa)) => a@ == sa,
                (Err(e), Err(se)) => load_err_matches(e, se),
                _ => false,
            }),
    {
        let split_indices = match Self::extract_int_array(tree_json, "split_indices") {
            Ok(v) => v,
            Err(e) => {
                return Err(e);
            },
        };
        let split_conditions = match Self::extract_float_array(tree_json, "split_conditions") {
            Ok(v) => v,
            Err(e) => {
                return Err(e);
            },
        };
        let left_children = match Self::extract_uint_array(tree_json, "left_children") {
            Ok(v) => v,
            Err(e) => {
                return Err(e);
            },
        };
        let right_children = match Self::extract_uint_array(tree_json, "right_children") {
            Ok(v) => v,
            Err(e) => {
                return Err(e);
            },
        };
        let base_weights = match Self::extract_float_array(tree_json, "base_weights") {
            Ok(v) => v,
            Err(e) => {
                return Err(e);
            },
        };
        Ok(
            TreeArrays {
                split_indices,
                split_conditions,
                left_children,
                right_children,
                base_weights,
            },
        )
    }

    /// Reads `learner.objective.name` and maps the recognized objective
    /// names; an unrecognized name fails with `UnsupportedObjective` carrying
    /// the literal name.
    pub fn parse_objective(json: &JsonValue) -> (r: Result<Objective, ModelError>)
        ensures
            (match (r, spec_parse_objective(*json)) {
                (Ok(o), Ok(so)) => o == so,
                (Err(e), Err(se)) => load_err_matches(e, se),
                _ => false,
            }),
    {
        let learner_key: String = "learner".to_owned();
        let objective_key: String = "objective".to_owned();
        let name_key: String = "name".to_owned();
        let l = match json.get(&learner_key) {
            Some(l) => l,
            None => {
                return Err(ModelError::MissingField("objective.name".to_owned()));
            },
        };
        let o = match l.get(&objective_key) {
            Some(o) => o,
            None => {
                return Err(ModelError::MissingField("objective.name".to_owned()));
            },
        };
        let v = match o.get(&name_key) {
            Some(v) => v,
            None => {
                return Err(ModelError::MissingField("objective.name".to_owned()));
            },
        };
        match v {
            JsonValue::Str(s) => {
                let squared_error: String = "reg:squarederror".to_owned();
                if *s == squared_error {
                    Ok(Objective::SquaredError)
                } else {
                    Err(ModelError::UnsupportedObjective(s.clone()))
                }
            },
            _ => Err(ModelError::MissingField("objective.name".to_owned())),
        }
    }

    /// Reads `learner.<field>` as an array of strings.
    fn parse_string_field(json: &JsonValue, field: &str) -> (r: Result<Vec<String>, ModelError>)
        ensures
            (match (r, spec_string_field(*json, field@)) {
                (Ok(v), Ok(s)) => v@ == s,
                (Err(e), Err(se)) => load_err_matches(e, se),
                _ => false,
            }),
    {
        let learner_key: String = "learner".to_owned();
        let field_key: String = field.to_owned();
        let l = match json.get(&learner_key) {
            Some(l) => l,
            None => {
                return Err(ModelError::MissingField(field.to_owned()));
            },
        };
        let v = match l.get(&field_key) {
            Some(v) => v,
            None => {
                return Err(ModelError::MissingField(field.to_owned()));
            },
        };
        let items = match v {
            JsonValue::Array(items) => items,
            _ => {
                return Err(ModelError::MissingField(field.to_owned()));
            },
        };
        let n: usize = items.len();
        let mut out: Vec<String> = Vec::new();
        let mut i: usize = 0;
        proof {
            assert(items@.skip(0) =~= items@);
        }
        while i < n
            invariant
                n == items@.len(),
                i <= n,
                spec_string_field(*json, field@) == (match spec_collect_strings(
                    items@.skip(i as int),
                    field@,
                ) {
                    Ok(rest) => Ok(out@ + rest),
                    Err(e) => Err(e),
                }),
            decreases n - i,
        {
            proof {
                assert(items@.skip(i as int)[0] == items@[i as int]);
                assert(items@.skip(i as int).drop_first() =~= items@.skip(i as int + 1));
            }
            match &items[i] {
                JsonValue::Str(s) => {
                    proof {
                        let sv = items@[i as int]->Str_0;
                        match spec_collect_strings(items@.skip(i as int + 1), field@) {
                            Ok(rest) => {
                                assert(out@ + (seq![sv] + rest) =~= out@.push(sv) + rest);
                            },
                            Err(e) => {},
                        }
                    }
                    out.push(s.clone());
                },
                _ => {
                    return Err(ModelError::InvalidFieldType(field.to_owned()));
                },
            }
            i = i + 1;
        }
        proof {
            assert(items@.skip(n as int) =~= Seq::<JsonValue>::empty());
            assert(out@ + Seq::<String>::empty() =~= out@);
        }
        Ok(out)
    }

    /// Reads a tree-level field as an array of `i32`.
    fn extract_int_array(json: &JsonValue, field: &str) -> (r: Result<Vec<i32>, ModelError>)
        ensures
            (match (r, spec_int_field(*json, field@)) {
                (Ok(v), Ok(s)) => v@ == s,
                (Err(e), Err(se)) => load_err_matches(e, se),
                _ => false,
            }),
    {
        let field_key: String = field.to_owned();
        let v = match json.get(&field_key) {
            Some(v) => v,
            None => {
                return Err(ModelError::MissingField(field.to_owned()));
            },
        };
        let items = match v {
            JsonValue::Array(items) => items,
            _ => {
                return Err(ModelError::MissingField(field.to_owned()));
            },
        };
        let n: usize = items.len();
        let mut out: Vec<i32> = Vec::new();
        let mut i: usize = 0;
        proof {
            assert(items@.skip(0) =~= items@);
        }
        while i < n
            invariant
                n == items@.len(),
                i <= n,
                spec_int_field(*json, field@) == (match spec_collect_ints(
                    items@.skip(i as int),
                    field@,
                ) {
                    Ok(rest) => Ok(out@ + rest),
                    Err(e) => Err(e),
                }),
            decreases n - i,
        {
            proof {
                assert(items@.skip(i as int)[0] == items@[i as int]);
                assert(items@.skip(i as int).drop_first() =~= items@.skip(i as int + 1));
            }
            match &items[i] {
                JsonValue::Num(num) => match num.as_int {
                    Some(x) => {
                        if x < (i32::MIN as i64) || x > (i32::MAX as i64) {
                            return Err(ModelError::InvalidFieldType(field.to_owned()));
                        }
                        let y: i32 = x as i32;
                        proof {
                            match spec_collect_ints(items@.skip(i as int + 1), field@) {
                                Ok(rest) => {
                                    assert(out@ + (seq![y] + rest) =~= out@.push(y) + rest);
                                },
                                Err(e) => {},
                            }
                        }
                        out.push(y);
                    },
                    None => {
                        return Err(ModelError::InvalidFieldType(field.to_owned()));
                    },
                },
                _ => {
                    return Err(ModelError::InvalidFieldType(field.to_owned()));
                },
            }
            i = i + 1;
        }
        proof {
            assert(items@.skip(n as int) =~= Seq::<JsonValue>::empty());
            assert(out@ + Seq::<i32>::empty() =~= out@);
        }
        Ok(out)
    }

    /// Reads a tree-level field as an array of non-negative integers within
    /// the `u32` range.
    fn extract_uint_array(json: &JsonValue, field: &str) -> (r: Result<Vec<u32>, ModelError>)
        ensures
            (match (r, spec_uint_field(*json, field@)) {
                (Ok(v), Ok(s)) => v@ == s,
                (Err(e), Err(se)) => load_err_matches(e, se),
                _ => false,
            }),
    {
        let field_key: String = field.to_owned();
        let v = match json.get(&field_key) {
            Some(v) => v,
            None => {
                return Err(ModelError::MissingField(field.to_owned()));
            },
        };
        let items = match v {
            JsonValue::Array(items) => items,
            _ => {
                return Err(ModelError::MissingField(field.to_owned()));
            },
        };
        let n: usize = items.len();
        let mut out: Vec<u32> = Vec::new();
        let mut i: usize = 0;
        proof {
            assert(items@.skip(0) =~= items@);
        }
        while i < n
            invariant
                n == items@.len(),
                i <= n,
                spec_uint_field(*json, field@) == (match spec_collect_uints(
                    items@.skip(i as int),
                    field@,
                ) {
                    Ok(rest) => Ok(out@ + rest),
                    Err(e) => Err(e),
                }),
            decreases n - i,
        {
            proof {
                assert(items@.skip(i as int)[0] == items@[i as int]);
                assert(items@.skip(i as int).drop_first() =~= items@.skip(i as int + 1));
            }
            match &items[i] {
                JsonValue::Num(num) => match num.as_int {
                    Some(x) => {
                        if x < 0 || x > (u32::MAX as i64) {
                            return Err(ModelError::InvalidFieldType(field.to_owned()));
                        }
                        let y: u32 = x as u32;
                        proof {
                            match spec_collect_uints(items@.skip(i as int + 1), field@) {
                                Ok(rest) => {
                                    assert(out@ + (seq![y] + rest) =~= out@.push(y) + rest);
                                },
                                Err(e) => {},
                            }
                        }
                        out.push(y);
                    },
                    None => {
                        return Err(ModelError::InvalidFieldType(field.to_owned()));
                    },
                },
                _ => {
                    return Err(ModelError::InvalidFieldType(field.to_owned()));
                },
            }
            i = i + 1;
        }
        proof {
            assert(items@.skip(n as int) =~= Seq::<JsonValue>::empty());
            assert(out@ + Seq::<u32>::empty() =~= out@);
        }
        Ok(out)
    }

    /// Reads a tree-level field as an array of doubles, as bit patterns.
    fn extract_float_array(json: &JsonValue, field: &str) -> (r: Result<Vec<u64>, ModelError>)
        ensures
            (match (r, spec_float_field(*json, field@)) {
                (Ok(v), Ok(s)) => v@ == s,
                (Err(e), Err(se)) => load_err_matches(e, se),
                _ => false,
            }),
    {
        let field_key: String = field.to_owned();
        let v = match json.get(&field_key) {
            Some(v) => v,
            None => {
                return Err(ModelError::MissingField(field.to_owned()));
            },
        };
        let items = match v {
            JsonValue::Array(items) => items,
            _ => {
                return Err(ModelError::MissingField(field.to_owned()));
            },
        };
        let n: usize = items.len();
        let mut out: Vec<u64> = Vec::new();
        let mut i: usize = 0;
        proof {
            assert(items@.skip(0) =~= items@);
        }
        while i < n
            invariant
                n == items@.len(),
                i <= n,
                spec_float_field(*json, field@) == (match spec_collect_floats(
                    items@.skip(i as int),
                    field@,
                ) {
                    Ok(rest) => Ok(out@ + rest),
                    Err(e) => Err(e),
                }),
            decreases n - i,
        {
            proof {
                assert(items@.skip(i as int)[0] == items@[i as int]);
                assert(items@.skip(i as int).drop_first() =~= items@.skip(i as int + 1));
            }
            match &items[i] {
                JsonValue::Num(num) => match num.as_float {
                    Some(b) => {
                        proof {
                            match spec_collect_floats(items@.skip(i as int + 1), field@) {
                                Ok(rest) => {
                                    assert(out@ + (seq![b] + rest) =~= out@.push(b) + rest);
                                },
                                Err(e) => {},
                            }
                        }
                        out.push(b);
                    },
                    None => {
                        return Err(ModelError::InvalidFieldType(field.to_owned()));
                    },
                },
                _ => {
                    return Err(ModelError::InvalidFieldType(field.to_owned()));
                },
            }
            i = i + 1;
        }
        proof {
            assert(items@.skip(n as int) =~= Seq::<JsonValue>::empty());
            assert(out@ + Seq::<u64>::empty() =~= out@);
        }
        Ok(out)
    }
}

} // verus!
