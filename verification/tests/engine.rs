//! End-to-end tests: a serde_json model dump is decoded and loaded, and the
//! engine predicts over columnar batches.

use trusty::errors::{ModelError, PredictionError};
use trusty::predict::Batch;
use trusty::tree::TreeEnsemble;

fn parse(text: &str) -> serde_json::Value {
    serde_json::from_str::<serde_json::Value>(text).unwrap()
}

/// A single tree splitting on `carat < 1.0`: left leaf 0.1, right leaf 0.9.
fn carat_model() -> TreeEnsemble {
    let v = parse(
        r#"{
        "learner": {
            "feature_names": ["carat"],
            "feature_types": ["float"],
            "objective": {"name": "reg:squarederror"},
            "gradient_booster": {"model": {"trees": [{
                "split_indices": [0, 0, 0],
                "split_conditions": [1.0, 0.0, 0.0],
                "left_children": [1, 4294967295, 4294967295],
                "right_children": [2, 4294967295, 4294967295],
                "base_weights": [0.0, 0.1, 0.9]
            }]}}
        }
    }"#,
    );
    TreeEnsemble::load_value(&v).unwrap()
}

fn carat_batch(values: &[f64]) -> Batch {
    let mut batch = Batch::new(values.len());
    batch.add_numeric_column(
        "carat".to_string(),
        values.iter().map(|x| x.to_bits()).collect(),
    );
    batch
}

fn as_floats(bits: &[u64]) -> Vec<f64> {
    bits.iter().map(|b| f64::from_bits(*b)).collect()
}

#[test]
fn single_tree_threshold_routes_rows() {
    let ensemble = carat_model();
    let batch = carat_batch(&[0.5, 2.0]);
    let scores = as_floats(&ensemble.predict_batch(&batch).unwrap());
    assert_eq!(scores, vec![0.1, 0.9]);
}

#[test]
fn value_equal_to_threshold_routes_right() {
    let ensemble = carat_model();
    let batch = carat_batch(&[1.0]);
    let scores = as_floats(&ensemble.predict_batch(&batch).unwrap());
    assert_eq!(scores, vec![0.9]);
}

#[test]
fn missing_value_routes_to_the_default_left() {
    let ensemble = carat_model();
    let batch = carat_batch(&[f64::NAN, f64::INFINITY]);
    let scores = as_floats(&ensemble.predict_batch(&batch).unwrap());
    assert_eq!(scores, vec![0.1, 0.1]);
}

#[test]
fn negative_values_order_correctly() {
    let v = parse(
        r#"{
        "learner": {
            "feature_names": ["x"],
            "feature_types": ["float"],
            "objective": {"name": "reg:squarederror"},
            "gradient_booster": {"model": {"trees": [{
                "split_indices": [0, 0, 0],
                "split_conditions": [-1.0, 0.0, 0.0],
                "left_children": [1, 4294967295, 4294967295],
                "right_children": [2, 4294967295, 4294967295],
                "base_weights": [0.0, 0.1, 0.9]
            }]}}
        }
    }"#,
    );
    let ensemble = TreeEnsemble::load_value(&v).unwrap();
    let mut batch = Batch::new(3);
    batch.add_numeric_column(
        "x".to_string(),
        vec![(-2.0f64).to_bits(), 0.0f64.to_bits(), (-1.0f64).to_bits()],
    );
    let scores = as_floats(&ensemble.predict_batch(&batch).unwrap());
    assert_eq!(scores, vec![0.1, 0.9, 0.9]);
}

#[test]
fn negative_zero_is_not_less_than_zero() {
    let v = parse(
        r#"{
        "learner": {
            "feature_names": ["x"],
            "feature_types": ["float"],
            "objective": {"name": "reg:squarederror"},
            "gradient_booster": {"model": {"trees": [{
                "split_indices": [0, 0, 0],
                "split_conditions": [0.0, 0.0, 0.0],
                "left_children": [1, 4294967295, 4294967295],
                "right_children": [2, 4294967295, 4294967295],
                "base_weights": [0.0, 0.1, 0.9]
            }]}}
        }
    }"#,
    );
    let ensemble = TreeEnsemble::load_value(&v).unwrap();
    let mut batch = Batch::new(2);
    batch.add_numeric_column("x".to_string(), vec![(-0.0f64).to_bits(), (-0.5f64).to_bits()]);
    let scores = as_floats(&ensemble.predict_batch(&batch).unwrap());
    assert_eq!(scores, vec![0.9, 0.1]);
}

#[test]
fn two_trees_sum_on_top_of_base_score() {
    let v = parse(
        r#"{
        "learner": {
            "feature_names": ["carat"],
            "feature_types": ["float"],
            "objective": {"name": "reg:squarederror"},
            "learner_model_param": {"base_score": 0.5},
            "gradient_booster": {"model": {"trees": [
                {
                    "split_indices": [0],
                    "split_conditions": [0.0],
                    "left_children": [4294967295],
                    "right_children": [4294967295],
                    "base_weights": [0.2]
                },
                {
                    "split_indices": [0],
                    "split_conditions": [0.0],
                    "left_children": [4294967295],
                    "right_children": [4294967295],
                    "base_weights": [0.3]
                }
            ]}}
        }
    }"#,
    );
    let ensemble = TreeEnsemble::load_value(&v).unwrap();
    let batch = Batch::new(1);
    let scores = as_floats(&ensemble.predict_batch(&batch).unwrap());
    assert_eq!(scores, vec![1.0]);
}

#[test]
fn result_length_is_rows_times_classes() {
    let v = parse(
        r#"{
        "learner": {
            "feature_names": ["carat"],
            "feature_types": ["float"],
            "objective": {"name": "reg:squarederror"},
            "learner_model_param": {"num_class": 2},
            "gradient_booster": {"model": {"trees": [
                {
                    "split_indices": [0],
                    "split_conditions": [0.0],
                    "left_children": [4294967295],
                    "right_children": [4294967295],
                    "base_weights": [0.25]
                },
                {
                    "split_indices": [0],
                    "split_conditions": [0.0],
                    "left_children": [4294967295],
                    "right_children": [4294967295],
                    "base_weights": [0.5]
                }
            ]}}
        }
    }"#,
    );
    let ensemble = TreeEnsemble::load_value(&v).unwrap();
    assert_eq!(ensemble.num_class, 2);
    let batch = Batch::new(3);
    let scores = as_floats(&ensemble.predict_batch(&batch).unwrap());
    assert_eq!(scores.len(), 3 * 2);
    assert_eq!(scores, vec![0.25, 0.5, 0.25, 0.5, 0.25, 0.5]);
}

#[test]
fn repeated_calls_are_bit_identical() {
    let ensemble = carat_model();
    let batch = carat_batch(&[0.5, 2.0, 1.0, f64::NAN]);
    let first = ensemble.predict_batch(&batch).unwrap();
    let second = ensemble.predict_batch(&batch).unwrap();
    assert_eq!(first, second);
}

#[test]
fn missing_feature_fails_the_whole_batch() {
    let ensemble = carat_model();
    let mut batch = Batch::new(2);
    batch.add_numeric_column("depth".to_string(), vec![0u64, 0u64]);
    let r = ensemble.predict_batch(&batch);
    assert!(matches!(r, Err(PredictionError::FeatureNotFound(n)) if n == "carat"));
}

#[test]
fn non_numeric_column_fails_with_type_mismatch() {
    let ensemble = carat_model();
    let mut batch = Batch::new(1);
    batch.add_unsupported_column("carat".to_string());
    let r = ensemble.predict_batch(&batch);
    assert!(matches!(r, Err(PredictionError::TypeMismatch(n)) if n == "carat"));
}

#[test]
fn out_of_range_child_is_a_topology_error() {
    let v = parse(
        r#"{
        "learner": {
            "feature_names": ["carat"],
            "feature_types": ["float"],
            "objective": {"name": "reg:squarederror"},
            "gradient_booster": {"model": {"trees": [{
                "split_indices": [0, 0, 0],
                "split_conditions": [1.0, 0.0, 0.0],
                "left_children": [5, 4294967295, 4294967295],
                "right_children": [2, 4294967295, 4294967295],
                "base_weights": [0.0, 0.1, 0.9]
            }]}}
        }
    }"#,
    );
    let r = TreeEnsemble::load_value(&v);
    assert!(matches!(r, Err(ModelError::TopologyError(0, _))));
}

#[test]
fn non_descendant_child_is_a_topology_error() {
    let v = parse(
        r#"{
        "learner": {
            "feature_names": ["carat"],
            "feature_types": ["float"],
            "objective": {"name": "reg:squarederror"},
            "gradient_booster": {"model": {"trees": [
                {
                    "split_indices": [0],
                    "split_conditions": [0.0],
                    "left_children": [4294967295],
                    "right_children": [4294967295],
                    "base_weights": [0.1]
                },
                {
                    "split_indices": [0, 0, 0],
                    "split_conditions": [1.0, 0.0, 0.0],
                    "left_children": [0, 4294967295, 4294967295],
                    "right_children": [2, 4294967295, 4294967295],
                    "base_weights": [0.0, 0.1, 0.9]
                }
            ]}}
        }
    }"#,
    );
    let r = TreeEnsemble::load_value(&v);
    assert!(matches!(r, Err(ModelError::TopologyError(1, _))));
}

#[test]
fn unequal_array_lengths_are_a_topology_error() {
    let v = parse(
        r#"{
        "learner": {
            "feature_names": ["carat"],
            "feature_types": ["float"],
            "objective": {"name": "reg:squarederror"},
            "gradient_booster": {"model": {"trees": [{
                "split_indices": [0, 0],
                "split_conditions": [1.0, 0.0, 0.0],
                "left_children": [1, 4294967295, 4294967295],
                "right_children": [2, 4294967295, 4294967295],
                "base_weights": [0.0, 0.1, 0.9]
            }]}}
        }
    }"#,
    );
    let r = TreeEnsemble::load_value(&v);
    assert!(matches!(r, Err(ModelError::TopologyError(0, _))));
}

#[test]
fn empty_tree_is_a_topology_error() {
    let v = parse(
        r#"{
        "learner": {
            "feature_names": ["carat"],
            "feature_types": ["float"],
            "objective": {"name": "reg:squarederror"},
            "gradient_booster": {"model": {"trees": [{
                "split_indices": [],
                "split_conditions": [],
                "left_children": [],
                "right_children": [],
                "base_weights": []
            }]}}
        }
    }"#,
    );
    let r = TreeEnsemble::load_value(&v);
    assert!(matches!(r, Err(ModelError::TopologyError(0, _))));
}

#[test]
fn negative_child_in_model_fails_load() {
    let v = parse(
        r#"{
        "learner": {
            "feature_names": ["carat"],
            "feature_types": ["float"],
            "objective": {"name": "reg:squarederror"},
            "gradient_booster": {"model": {"trees": [{
                "split_indices": [0, 0, 0],
                "split_conditions": [1.0, 0.0, 0.0],
                "left_children": [1, -1, -1],
                "right_children": [2, -1, -1],
                "base_weights": [0.0, 0.1, 0.9]
            }]}}
        }
    }"#,
    );
    let r = TreeEnsemble::load_value(&v);
    assert!(matches!(r, Err(ModelError::InvalidFieldType(f)) if f == "left_children"));
}

#[test]
fn missing_tree_list_is_reported() {
    let v = parse(
        r#"{
        "learner": {
            "feature_names": ["carat"],
            "feature_types": ["float"],
            "objective": {"name": "reg:squarederror"}
        }
    }"#,
    );
    let r = TreeEnsemble::load_value(&v);
    assert!(matches!(r, Err(ModelError::MissingField(f)) if f == "trees"));
}

#[test]
fn load_reports_missing_feature_names_first() {
    let v = parse(r#"{"learner": {}}"#);
    let r = TreeEnsemble::load_value(&v);
    assert!(matches!(r, Err(ModelError::MissingField(f)) if f == "feature_names"));
}

#[test]
fn load_rejects_unsupported_objective() {
    let v = parse(
        r#"{
        "learner": {
            "feature_names": ["carat"],
            "feature_types": ["float"],
            "objective": {"name": "multi:softmax"}
        }
    }"#,
    );
    let r = TreeEnsemble::load_value(&v);
    assert!(matches!(r, Err(ModelError::UnsupportedObjective(n)) if n == "multi:softmax"));
}

#[test]
fn negative_num_class_is_invalid() {
    let v = parse(
        r#"{
        "learner": {
            "feature_names": ["carat"],
            "feature_types": ["float"],
            "objective": {"name": "reg:squarederror"},
            "learner_model_param": {"num_class": -1},
            "gradient_booster": {"model": {"trees": []}}
        }
    }"#,
    );
    let r = TreeEnsemble::load_value(&v);
    assert!(matches!(r, Err(ModelError::InvalidFieldType(f)) if f == "num_class"));
}

#[test]
fn non_numeric_base_score_is_invalid() {
    let v = parse(
        r#"{
        "learner": {
            "feature_names": ["carat"],
            "feature_types": ["float"],
            "objective": {"name": "reg:squarederror"},
            "learner_model_param": {"base_score": "half"},
            "gradient_booster": {"model": {"trees": []}}
        }
    }"#,
    );
    let r = TreeEnsemble::load_value(&v);
    assert!(matches!(r, Err(ModelError::InvalidFieldType(f)) if f == "base_score"));
}

#[test]
fn loaded_ensemble_carries_the_model_content() {
    let ensemble = carat_model();
    assert_eq!(ensemble.trees.len(), 1);
    assert_eq!(ensemble.num_class, 1);
    assert_eq!(ensemble.base_score, 0u64);
    assert_eq!(ensemble.features.feature_names, vec!["carat".to_string()]);
    assert_eq!(ensemble.features.feature_types, vec!["float".to_string()]);
    let tree = &ensemble.trees[0];
    assert_eq!(tree.split_conditions[0], 1.0f64.to_bits());
    assert_eq!(tree.base_weights[1], 0.1f64.to_bits());
    assert_eq!(tree.left_children, vec![1, u32::MAX, u32::MAX]);
}

#[test]
fn an_ensemble_with_no_trees_returns_the_base_score() {
    let v = parse(
        r#"{
        "learner": {
            "feature_names": [],
            "feature_types": [],
            "objective": {"name": "reg:squarederror"},
            "learner_model_param": {"base_score": 0.5},
            "gradient_booster": {"model": {"trees": []}}
        }
    }"#,
    );
    let ensemble = TreeEnsemble::load_value(&v).unwrap();
    let batch = Batch::new(2);
    let scores = as_floats(&ensemble.predict_batch(&batch).unwrap());
    assert_eq!(scores, vec![0.5, 0.5]);
}
