//! The loader: orchestrates model-format parsing, tree construction and
//! validation, and publishes one immutable `TreeEnsemble`.  A failing step
//! aborts the whole load; no partial ensemble ever escapes.

pub mod xgboost;

use vstd::prelude::*;

use crate::errors::ModelError;
use crate::json::{spec_get, JsonValue};
use crate::objective::Objective;
use crate::tree::{tree_wf, FeatureMetadata, Tree, TreeEnsemble};
use crate::loader::xgboost::{
    spec_parse_feature_metadata, spec_parse_objective, spec_parse_tree_arrays, TreeArraysV,
    XGBoostParser,
};

verus! {

/// The mathematical shape of a load-time error: like `ModelError` but over
/// views, with a `TopologyError`'s human-readable detail left open.
pub enum LoadFailure {
    MissingField(Seq<char>),
    InvalidFieldType(Seq<char>),
    UnsupportedObjective(Seq<char>),
    Topology(int),
}

/// Whether the executable error `e` carries the content of the mathematical
/// error `s`.  A topology error is matched by tree index; its prose detail is
/// not part of the contract.
pub open spec fn load_err_matches(e: ModelError, s: LoadFailure) -> bool {
    match (e, s) {
        (ModelError::MissingField(f), LoadFailure::MissingField(sf)) => f@ == sf,
        (ModelError::InvalidFieldType(f), LoadFailure::InvalidFieldType(sf)) => f@ == sf,
        (ModelError::UnsupportedObjective(n), LoadFailure::UnsupportedObjective(sn)) => n@ == sn,
        (ModelError::TopologyError(ti, _), LoadFailure::Topology(si)) => ti as int == si,
        _ => false,
    }
}

/// The parsed shape of a whole model.
pub ghost struct EnsembleV {
    pub feature_names: Seq<String>,
    pub feature_types: Seq<String>,
    pub trees: Seq<TreeArraysV>,
    pub base_score: u64,
    pub objective: Objective,
    pub num_class: int,
}

/// Well-formedness of parsed tree arrays against a feature count.
pub open spec fn arrays_wf(a: TreeArraysV, num_features: int) -> bool {
    tree_wf(
        a.split_indices,
        a.split_conditions,
        a.left_children,
        a.right_children,
        a.base_weights,
        num_features,
    )
}

/// The model's base score as double bits: `learner.learner_model_param.
/// base_score` when present (0.0 when the path is absent), which must then be
/// a number with a double reading.
pub open spec fn spec_base_score(j: JsonValue) -> Result<u64, LoadFailure> {
    match spec_get(j, "learner"@) {
        None => Ok(0u64),
        Some(l) => match spec_get(l, "learner_model_param"@) {
            None => Ok(0u64),
            Some(p) => match spec_get(p, "base_score"@) {
                None => Ok(0u64),
                Some(v) => match v {
                    JsonValue::Num(n) => match n.as_float {
                        Some(b) => Ok(b),
                        None => Err(LoadFailure::InvalidFieldType("base_score"@)),
                    },
                    _ => Err(LoadFailure::InvalidFieldType("base_score"@)),
                },
            },
        },
    }
}

/// The model's output class count: `learner.learner_model_param.num_class`
/// when present (1 when the path is absent), which must then be a number with
/// an integer reading; 0 means a single output, a negative or overlarge count
/// is rejected.
pub open spec fn spec_num_class(j: JsonValue) -> Result<int, LoadFailure> {
    match spec_get(j, "learner"@) {
        None => Ok(1int),
        Some(l) => match spec_get(l, "learner_model_param"@) {
            None => Ok(1int),
            Some(p) => match spec_get(p, "num_class"@) {
                None => Ok(1int),
                Some(v) => match v {
                    JsonValue::Num(n) => match n.as_int {
                        Some(k) => if k < 0 {
                            Err(LoadFailure::InvalidFieldType("num_class"@))
                        } else if k == 0 {
                            Ok(1int)
                        } else if k as int > usize::MAX as int {
                            Err(LoadFailure::InvalidFieldType("num_class"@))
                        } else {
                            Ok(k as int)
                        },
                        None => Err(LoadFailure::InvalidFieldType("num_class"@)),
                    },
                    _ => Err(LoadFailure::InvalidFieldType("num_class"@)),
                },
            },
        },
    }
}

/// The model's tree list: `learner.gradient_booster.model.trees`, which must
/// be an array.
pub open spec fn spec_trees_list(j: JsonValue) -> Result<Seq<JsonValue>, LoadFailure> {
    match spec_get(j, "learner"@) {
        None => Err(LoadFailure::MissingField("trees"@)),
        Some(l) => match spec_get(l, "gradient_booster"@) {
            None => Err(LoadFailure::MissingField("trees"@)),
            Some(g) => match spec_get(g, "model"@) {
                None => Err(LoadFailure::MissingField("trees"@)),
                Some(m) => match spec_get(m, "trees"@) {
                    Some(JsonValue::Array(items)) => Ok(items@),
                    _ => Err(LoadFailure::MissingField("trees"@)),
                },
            },
        },
    }
}

/// The parsed, validated arrays of the trees from index `i` on: each tree's
/// JSON is parsed and then held to the tree invariant, short-circuiting on
/// the first failure.
pub open spec fn spec_collect_trees(items: Seq<JsonValue>, i: int, num_features: int) -> Result<
    Seq<TreeArraysV>,
    LoadFailure,
>
    decreases items.len() - i
        when 0 <= i <= items.len()
{
    if i >= items.len() {
        Ok(Seq::empty())
    } else {
        match spec_parse_tree_arrays(items[i]) {
            Err(e) => Err(e),
            Ok(a) => if !arrays_wf(a, num_features) {
                Err(LoadFailure::Topology(i))
            } else {
                match spec_collect_trees(items, i + 1, num_features) {
                    Err(e) => Err(e),
                    Ok(rest) => Ok(seq![a] + rest),
                }
            },
        }
    }
}

/// What `TreeEnsemble::load` produces from a model: feature metadata, the
/// objective, base score, class count and the validated per-tree arrays, or
/// the first error in load order.
pub open spec fn spec_load(j: JsonValue) -> Result<EnsembleV, LoadFailure> {
    match spec_parse_feature_metadata(j) {
        Err(e) => Err(e),
        Ok(meta) => match spec_parse_objective(j) {
            Err(e) => Err(e),
            Ok(obj) => match spec_base_score(j) {
                Err(e) => Err(e),
                Ok(bs) => match spec_num_class(j) {
                    Err(e) => Err(e),
                    Ok(nc) => match spec_trees_list(j) {
                        Err(e) => Err(e),
                        Ok(items) => match spec_collect_trees(items, 0, meta.0.len() as int) {
                            Err(e) => Err(e),
                            Ok(tv) => Ok(
                                EnsembleV {
                                    feature_names: meta.0,
                                    feature_types: meta.1,
                                    trees: tv,
                                    base_score: bs,
                                    objective: obj,
                                    num_class: nc,
                                },
                            ),
                        },
                    },
                },
            },
        },
    }
}

/// Reads the base score; mirrors `spec_base_score`.
fn read_base_score(model: &JsonValue) -> (r: Result<u64, ModelError>)
    ensures
        (match (r, spec_base_score(*model)) {
            (Ok(b), Ok(sb)) => b == sb,
            (Err(e), Err(se)) => load_err_matches(e, se),
            _ => false,
        }),
{
    let learner_key: String = "learner".to_owned();
    let param_key: String = "learner_model_param".to_owned();
    let field_key: String = "base_score".to_owned();
    let l = match model.get(&learner_key) {
        Some(l) => l,
        None => {
            return Ok(0);
        },
    };
    let p = match l.get(&param_key) {
        Some(p) => p,
        None => {
            return Ok(0);
        },
    };
    match p.get(&field_key) {
        None => Ok(0),
        Some(v) => match v {
            JsonValue::Num(n) => match n.as_float {
                Some(b) => Ok(b),
                None => Err(ModelError::InvalidFieldType("base_score".to_owned())),
            },
            _ => Err(ModelError::InvalidFieldType("base_score".to_owned())),
        },
    }
}

/// Reads the output class count; mirrors `spec_num_class`.
fn read_num_class(model: &JsonValue) -> (r: Result<usize, ModelError>)
    ensures
        (match (r, spec_num_class(*model)) {
            (Ok(v), Ok(sv)) => v as int == sv,
            (Err(e), Err(se)) => load_err_matches(e, se),
            _ => false,
        }),
        r matches Ok(v) ==> v >= 1,
{
    let learner_key: String = "learner".to_owned();
    let param_key: String = "learner_model_param".to_owned();
    let field_key: String = "num_class".to_owned();
    let l = match model.get(&learner_key) {
        Some(l) => l,
        None => {
            return Ok(1);
        },
    };
    let p = match l.get(&param_key) {
        Some(p) => p,
        None => {
            return Ok(1);
        },
    };
    match p.get(&field_key) {
        None => Ok(1),
        Some(v) => match v {
            JsonValue::Num(n) => match n.as_int {
                Some(k) => {
                    if k < 0 {
                        Err(ModelError::InvalidFieldType("num_class".to_owned()))
                    } else if k == 0 {
                        Ok(1)
                    } else if (k as u64) > (usize::MAX as u64) {
                        Err(ModelError::InvalidFieldType("num_class".to_owned()))
                    } else {
                        Ok(k as usize)
                    }
                },
                None => Err(ModelError::InvalidFieldType("num_class".to_owned())),
            },
            _ => Err(ModelError::InvalidFieldType("num_class".to_owned())),
        },
    }
}

impl TreeEnsemble {
    /// Loads a whole model: feature metadata once, the objective once, then
    /// every tree parsed, built and validated in order, short-circuiting on
    /// the first error.  On success the published ensemble is well-formed and
    /// carries exactly the parsed content.
    pub fn load(model: &JsonValue) -> (r: Result<TreeEnsemble, ModelError>)
        ensures
            (match (r, spec_load(*model)) {
                (Ok(e), Ok(ev)) => e.wf() && e.features.feature_names@ == ev.feature_names
                    && e.features.feature_types@ == ev.feature_types && e.trees@.map_values(
                    |t: Tree| t.arrays_view(),
                ) == ev.trees && e.base_score == ev.base_score && e.objective == ev.objective
                    && e.num_class as int == ev.num_class,
                (Err(e), Err(se)) => load_err_matches(e, se),
                _ => false,
            }),
    {
        let (names, types) = match XGBoostParser::parse_feature_metadata(model) {
            Ok(p) => p,
            Err(e) => {
                return Err(e);
            },
        };
        let objective = match XGBoostParser::parse_objective(model) {
            Ok(o) => o,
            Err(e) => {
                return Err(e);
            },
        };
        let base_score = match read_base_score(model) {
            Ok(b) => b,
            Err(e) => {
                return Err(e);
            },
        };
        let num_class = match read_num_class(model) {
            Ok(v) => v,
            Err(e) => {
                return Err(e);
            },
        };
        let learner_key: String = "learner".to_owned();
        let booster_key: String = "gradient_booster".to_owned();
        let model_key: String = "model".to_owned();
        let trees_key: String = "trees".to_owned();
        let l = match model.get(&learner_key) {
            Some(l) => l,
            None => {
                return Err(ModelError::MissingField("trees".to_owned()));
            },
        };
        let g = match l.get(&booster_key) {
            Some(g) => g,
            None => {
                return Err(ModelError::MissingField("trees".to_owned()));
            },
        };
        let m = match g.get(&model_key) {
            Some(m) => m,
            None => {
                return Err(ModelError::MissingField("trees".to_owned()));
            },
        };
        let items = match m.get(&trees_key) {
            Some(JsonValue::Array(items)) => items,
            _ => {
                return Err(ModelError::MissingField("trees".to_owned()));
            },
        };
        let num_features: usize = names.len();
        let ghost items_v: Seq<JsonValue> = items@;
        let n: usize = items.len();
        let mut trees: Vec<Tree> = Vec::new();
        let mut i: usize = 0;
        proof {
            assert(items_v.skip(0) =~= items_v);
        }
        while i < n
            invariant
                n == items_v.len(),
                items_v == items@,
                i <= n,
                num_features == names@.len(),
                num_class >= 1,
                trees@.len() == i,
                forall|k: int| 0 <= k < i ==> (#[trigger] trees@[k]).wf(num_features as int),
                spec_collect_trees(items_v, 0, num_features as int) == (match spec_collect_trees(
                    items_v,
                    i as int,
                    num_features as int,
                ) {
                    Ok(rest) => Ok(trees@.map_values(|t: Tree| t.arrays_view()) + rest),
                    Err(e) => Err(e),
                }),
                spec_load(*model) == (match spec_collect_trees(
                    items_v,
                    0,
                    num_features as int,
                ) {
                    Ok(tv) => Ok(
                        EnsembleV {
                            feature_names: names@,
                            feature_types: types@,
                            trees: tv,
                            base_score: base_score,
                            objective: objective,
                            num_class: num_class as int,
                        },
                    ),
                    Err(e) => Err(e),
                }),
            decreases n - i,
        {
            let arrays = match XGBoostParser::parse_tree_arrays(&items[i]) {
                Ok(a) => a,
                Err(e) => {
                    return Err(e);
                },
            };
            let tree = Tree {
                split_indices: arrays.split_indices,
                split_conditions: arrays.split_conditions,
                left_children: arrays.left_children,
                right_children: arrays.right_children,
                base_weights: arrays.base_weights,
            };
            match tree.validate(num_features, i) {
                Err(e) => {
                    return Err(e);
                },
                Ok(_) => {},
            }
            proof {
                let f = |t: Tree| t.arrays_view();
                let a_v = spec_parse_tree_arrays(items_v[i as int])->Ok_0;
                assert(tree.arrays_view() == a_v);
                match spec_collect_trees(items_v, i as int + 1, num_features as int) {
                    Ok(rest) => {
                        assert(trees@.push(tree).map_values(f) =~= trees@.map_values(f).push(
                            a_v,
                        ));
                        assert(trees@.map_values(f).push(a_v) + rest =~= trees@.map_values(f) + (
                        seq![a_v] + rest));
                    },
                    Err(e) => {},
                }
            }
            trees.push(tree);
            i = i + 1;
        }
        proof {
            assert(trees@.map_values(|t: Tree| t.arrays_view()) + Seq::<TreeArraysV>::empty()
                =~= trees@.map_values(|t: Tree| t.arrays_view()));
        }
        Ok(
            TreeEnsemble {
                trees,
                base_score,
                objective,
                features: FeatureMetadata { feature_names: names, feature_types: types },
                num_class,
            },
        )
    }
}

} // verus!
