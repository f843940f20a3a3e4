//! Parser-level tests over hand-built JSON values: field presence, element
//! types, objective names, and the per-tree arrays.

use trusty::errors::ModelError;
use trusty::json::{JsonNum, JsonValue};
use trusty::loader::xgboost::XGBoostParser;
use trusty::objective::Objective;

fn s(x: &str) -> JsonValue {
    JsonValue::Str(x.to_string())
}

fn num_f(x: f64) -> JsonValue {
    JsonValue::Num(JsonNum { as_int: None, as_float: Some(x.to_bits()) })
}

fn num_i(x: i64) -> JsonValue {
    JsonValue::Num(JsonNum { as_int: Some(x), as_float: Some((x as f64).to_bits()) })
}

fn obj(fields: Vec<(&str, JsonValue)>) -> JsonValue {
    JsonValue::Object(fields.into_iter().map(|(k, v)| (k.to_string(), v)).collect())
}

fn arr(items: Vec<JsonValue>) -> JsonValue {
    JsonValue::Array(items)
}

#[test]
fn missing_feature_names_is_reported() {
    let model = obj(vec![("learner", obj(vec![]))]);
    let r = XGBoostParser::parse_feature_metadata(&model);
    assert!(matches!(r, Err(ModelError::MissingField(f)) if f == "feature_names"));
}

#[test]
fn missing_learner_reads_as_missing_feature_names() {
    let model = obj(vec![]);
    let r = XGBoostParser::parse_feature_metadata(&model);
    assert!(matches!(r, Err(ModelError::MissingField(f)) if f == "feature_names"));
}

#[test]
fn non_array_feature_names_reads_as_missing() {
    let model = obj(vec![("learner", obj(vec![("feature_names", s("carat"))]))]);
    let r = XGBoostParser::parse_feature_metadata(&model);
    assert!(matches!(r, Err(ModelError::MissingField(f)) if f == "feature_names"));
}

#[test]
fn non_string_feature_name_is_invalid() {
    let model = obj(vec![(
        "learner",
        obj(vec![("feature_names", arr(vec![s("carat"), num_i(3)]))]),
    )]);
    let r = XGBoostParser::parse_feature_metadata(&model);
    assert!(matches!(r, Err(ModelError::InvalidFieldType(f)) if f == "feature_names"));
}

#[test]
fn missing_feature_types_is_reported_after_names() {
    let model = obj(vec![(
        "learner",
        obj(vec![("feature_names", arr(vec![s("carat")]))]),
    )]);
    let r = XGBoostParser::parse_feature_metadata(&model);
    assert!(matches!(r, Err(ModelError::MissingField(f)) if f == "feature_types"));
}

#[test]
fn feature_metadata_round_trips() {
    let model = obj(vec![(
        "learner",
        obj(vec![
            ("feature_names", arr(vec![s("carat"), s("depth")])),
            ("feature_types", arr(vec![s("float"), s("float")])),
        ]),
    )]);
    let (names, types) = XGBoostParser::parse_feature_metadata(&model).unwrap();
    assert_eq!(names, vec!["carat".to_string(), "depth".to_string()]);
    assert_eq!(types, vec!["float".to_string(), "float".to_string()]);
}

#[test]
fn unsupported_objective_carries_the_name() {
    let model = obj(vec![(
        "learner",
        obj(vec![("objective", obj(vec![("name", s("multi:softmax"))]))]),
    )]);
    let r = XGBoostParser::parse_objective(&model);
    assert!(matches!(r, Err(ModelError::UnsupportedObjective(n)) if n == "multi:softmax"));
}

#[test]
fn squared_error_objective_is_recognized() {
    let model = obj(vec![(
        "learner",
        obj(vec![("objective", obj(vec![("name", s("reg:squarederror"))]))]),
    )]);
    let r = XGBoostParser::parse_objective(&model);
    assert!(matches!(r, Ok(Objective::SquaredError)));
}

#[test]
fn missing_objective_name_is_reported() {
    let model = obj(vec![("learner", obj(vec![("objective", obj(vec![]))]))]);
    let r = XGBoostParser::parse_objective(&model);
    assert!(matches!(r, Err(ModelError::MissingField(f)) if f == "objective.name"));
}

#[test]
fn non_string_objective_name_reads_as_missing() {
    let model = obj(vec![(
        "learner",
        obj(vec![("objective", obj(vec![("name", num_i(7))]))]),
    )]);
    let r = XGBoostParser::parse_objective(&model);
    assert!(matches!(r, Err(ModelError::MissingField(f)) if f == "objective.name"));
}

fn full_tree_json() -> JsonValue {
    obj(vec![
        ("split_indices", arr(vec![num_i(0), num_i(0), num_i(0)])),
        ("split_conditions", arr(vec![num_f(1.5), num_f(0.0), num_f(0.0)])),
        ("left_children", arr(vec![num_i(1), num_i(4294967295), num_i(4294967295)])),
        ("right_children", arr(vec![num_i(2), num_i(4294967295), num_i(4294967295)])),
        ("base_weights", arr(vec![num_f(0.0), num_f(0.25), num_f(0.75)])),
    ])
}

#[test]
fn tree_arrays_round_trip() {
    let a = XGBoostParser::parse_tree_arrays(&full_tree_json()).unwrap();
    assert_eq!(a.split_indices, vec![0, 0, 0]);
    assert_eq!(a.split_conditions, vec![1.5f64.to_bits(), 0.0f64.to_bits(), 0.0f64.to_bits()]);
    assert_eq!(a.left_children, vec![1, u32::MAX, u32::MAX]);
    assert_eq!(a.right_children, vec![2, u32::MAX, u32::MAX]);
    assert_eq!(a.base_weights, vec![0.0f64.to_bits(), 0.25f64.to_bits(), 0.75f64.to_bits()]);
}

#[test]
fn missing_split_indices_is_reported() {
    let t = obj(vec![("split_conditions", arr(vec![num_f(1.0)]))]);
    let r = XGBoostParser::parse_tree_arrays(&t);
    assert!(matches!(r, Err(ModelError::MissingField(f)) if f == "split_indices"));
}

#[test]
fn non_number_split_condition_is_invalid() {
    let t = obj(vec![
        ("split_indices", arr(vec![num_i(0)])),
        ("split_conditions", arr(vec![s("wide")])),
    ]);
    let r = XGBoostParser::parse_tree_arrays(&t);
    assert!(matches!(r, Err(ModelError::InvalidFieldType(f)) if f == "split_conditions"));
}

#[test]
fn float_valued_split_index_is_invalid() {
    let t = obj(vec![("split_indices", arr(vec![num_f(0.5)]))]);
    let r = XGBoostParser::parse_tree_arrays(&t);
    assert!(matches!(r, Err(ModelError::InvalidFieldType(f)) if f == "split_indices"));
}

#[test]
fn negative_child_index_is_invalid() {
    let t = obj(vec![
        ("split_indices", arr(vec![num_i(0)])),
        ("split_conditions", arr(vec![num_f(1.0)])),
        ("left_children", arr(vec![num_i(-1)])),
    ]);
    let r = XGBoostParser::parse_tree_arrays(&t);
    assert!(matches!(r, Err(ModelError::InvalidFieldType(f)) if f == "left_children"));
}

#[test]
fn overlarge_child_index_is_invalid() {
    let t = obj(vec![
        ("split_indices", arr(vec![num_i(0)])),
        ("split_conditions", arr(vec![num_f(1.0)])),
        ("left_children", arr(vec![num_i(1)])),
        ("right_children", arr(vec![num_i(4294967296)])),
    ]);
    let r = XGBoostParser::parse_tree_arrays(&t);
    assert!(matches!(r, Err(ModelError::InvalidFieldType(f)) if f == "right_children"));
}

#[test]
fn out_of_range_split_index_is_invalid() {
    let t = obj(vec![("split_indices", arr(vec![num_i(2147483648)]))]);
    let r = XGBoostParser::parse_tree_arrays(&t);
    assert!(matches!(r, Err(ModelError::InvalidFieldType(f)) if f == "split_indices"));
}
