//! Error taxonomy: load-time errors (`ModelError`) and predict-time errors
//! (`PredictionError`).  Both phases fail as a whole: no partial ensemble and
//! no partial result vector ever escapes.

use vstd::prelude::*;

verus! {

/// A load-time failure; fatal to the whole `load` call.
#[derive(Clone, Debug)]
pub enum ModelError {
    /// A required field is absent (or is not the JSON shape the field must
    /// have, so that it cannot be read at all).
    MissingField(String),
    /// A field is present but one of its elements has the wrong JSON type.
    InvalidFieldType(String),
    /// The model names an objective this engine does not implement; carries
    /// the literal name for diagnostics.
    UnsupportedObjective(String),
    /// A tree failed structural validation; carries the index of the tree in
    /// the model's tree list and a human-readable detail.
    TopologyError(usize, String),
}

/// A predict-time failure; fatal to the whole batch call.
#[derive(Clone, Debug)]
pub enum PredictionError {
    /// A split references a feature name the batch does not carry.
    FeatureNotFound(String),
    /// The named column cannot be read as double-precision values.
    TypeMismatch(String),
}

} // verus!
