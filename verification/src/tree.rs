//! The tree data model: a single decision tree as five parallel arrays
//! indexed by node id, and the ensemble of such trees plus global metadata.
//!
//! Invariant: node 0 is the root; a node is a leaf iff both children equal the
//! sentinel; every non-sentinel child index is a valid node id strictly deeper
//! than its parent (node ids are topologically ordered, parents before
//! children); every split feature index of an internal node lies within
//! `[0, num_features)`.

use vstd::prelude::*;

use crate::errors::ModelError;
use crate::objective::Objective;

verus! {

/// The reserved child index meaning "this node has no child".
pub const NO_CHILD: u32 = u32::MAX;

/// A single decision tree, encoded as five parallel arrays indexed by node
/// id.  `split_conditions` and `base_weights` hold IEEE-754 double bit
/// patterns.
#[derive(Clone, Debug)]
pub struct Tree {
    /// Feature index of each node's split; meaningful only for internal nodes.
    pub split_indices: Vec<i32>,
    /// Split threshold of each node, as double bits; meaningful only for
    /// internal nodes.
    pub split_conditions: Vec<u64>,
    /// Left child of each node, or `NO_CHILD`.
    pub left_children: Vec<u32>,
    /// Right child of each node, or `NO_CHILD`.
    pub right_children: Vec<u32>,
    /// Weight of each node, as double bits; meaningful only for leaves.
    pub base_weights: Vec<u64>,
}

/// Well-formedness of one node of a tree given by its five arrays: the node
/// is a leaf (both children are the sentinel), or an internal node whose
/// children are valid, strictly deeper node ids and whose split feature index
/// lies within `[0, num_features)`.
pub open spec fn node_wf(
    split_indices: Seq<i32>,
    left_children: Seq<u32>,
    right_children: Seq<u32>,
    num_features: int,
    i: int,
) -> bool {
    let n = left_children.len() as int;
    let l = left_children[i] as int;
    let r = right_children[i] as int;
    if left_children[i] == NO_CHILD && right_children[i] == NO_CHILD {
        true
    } else {
        left_children[i] != NO_CHILD && right_children[i] != NO_CHILD && i < l && l < n && i < r
            && r < n && 0 <= (split_indices[i] as int) && (split_indices[i] as int) < num_features
    }
}

/// Well-formedness of a tree given by its five arrays: equal lengths, at
/// least the root node, and every node well-formed.
pub open spec fn tree_wf(
    split_indices: Seq<i32>,
    split_conditions: Seq<u64>,
    left_children: Seq<u32>,
    right_children: Seq<u32>,
    base_weights: Seq<u64>,
    num_features: int,
) -> bool {
    let n = left_children.len() as int;
    &&& split_indices.len() as int == n
    &&& split_conditions.len() as int == n
    &&& right_children.len() as int == n
    &&& base_weights.len() as int == n
    &&& n >= 1
    &&& forall|i: int|
        0 <= i < n ==> node_wf(split_indices, left_children, right_children, num_features, i)
}

impl Tree {
    /// The number of nodes.
    pub open spec fn num_nodes(self) -> int {
        self.left_children@.len() as int
    }

    /// True iff node `i` is a leaf: both children equal the sentinel.
    pub open spec fn is_leaf(self, i: int) -> bool {
        self.left_children@[i] == NO_CHILD && self.right_children@[i] == NO_CHILD
    }

    /// Well-formedness of this tree against a feature count.
    pub open spec fn wf(self, num_features: int) -> bool {
        tree_wf(
            self.split_indices@,
            self.split_conditions@,
            self.left_children@,
            self.right_children@,
            self.base_weights@,
            num_features,
        )
    }

    /// Validates this tree against a feature count, as the single forward
    /// pass of ensemble assembly: equal array lengths, a root node, and every
    /// node either a leaf or an internal node with in-range, strictly deeper
    /// children and an in-range split feature index.  Returns `Ok` exactly on
    /// well-formed trees; the error carries `tree_index`.
    pub fn validate(&self, num_features: usize, tree_index: usize) -> (r: Result<(), ModelError>)
        ensures
            r is Ok <==> self.wf(num_features as int),
            r matches Err(e) ==> e matches ModelError::TopologyError(ti, _) && ti == tree_index,
    {
        let n: usize = self.left_children.len();
        if self.split_indices.len() != n || self.split_conditions.len() != n
            || self.right_children.len() != n || self.base_weights.len() != n {
            return Err(
                ModelError::TopologyError(tree_index, "tree arrays differ in length".to_owned()),
            );
        }
        if n == 0 {
            return Err(ModelError::TopologyError(tree_index, "tree has no root node".to_owned()));
        }
        let mut i: usize = 0;
        while i < n
            invariant
                n == self.left_children@.len(),
                n == self.split_indices@.len(),
                n == self.right_children@.len(),
                i <= n,
                forall|j: int|
                    0 <= j < i ==> node_wf(
                        self.split_indices@,
                        self.left_children@,
                        self.right_children@,
                        num_features as int,
                        j,
                    ),
            decreases n - i,
        {
            let l: u32 = self.left_children[i];
            let r: u32 = self.right_children[i];
            if l == NO_CHILD && r == NO_CHILD {
                // a leaf
            } else {
                proof {
                    assert(self.left_children@[i as int] == l);
                    assert(self.right_children@[i as int] == r);
                }
                if l == NO_CHILD || r == NO_CHILD {
                    proof {
                        assert(!node_wf(
                            self.split_indices@,
                            self.left_children@,
                            self.right_children@,
                            num_features as int,
                            i as int,
                        ));
                    }
                    return Err(
                        ModelError::TopologyError(
                            tree_index,
                            "node has exactly one child".to_owned(),
                        ),
                    );
                }
                if !((l as usize) < n && (r as usize) < n && (l as usize) > i && (r as usize)
                    > i) {
                    proof {
                        assert(!node_wf(
                            self.split_indices@,
                            self.left_children@,
                            self.right_children@,
                            num_features as int,
                            i as int,
                        ));
                    }
                    return Err(
                        ModelError::TopologyError(
                            tree_index,
                            "child index out of range or not deeper than its parent".to_owned(),
                        ),
                    );
                }
                let f: i32 = self.split_indices[i];
                if f < 0 || !((f as usize) < num_features) {
                    proof {
                        assert(!node_wf(
                            self.split_indices@,
                            self.left_children@,
                            self.right_children@,
                            num_features as int,
                            i as int,
                        ));
                    }
                    return Err(
                        ModelError::TopologyError(
                            tree_index,
                            "split feature index out of range".to_owned(),
                        ),
                    );
                }
            }
            i = i + 1;
        }
        Ok(())
    }
}

/// Per-feature metadata: the ordered feature names and the parallel, opaque
/// feature type tags.  Created once at load; immutable.
#[derive(Clone, Debug)]
pub struct FeatureMetadata {
    /// The feature names, in model order; split feature indices index into
    /// this sequence.
    pub feature_names: Vec<String>,
    /// The feature type tags, parallel to `feature_names`; carried as opaque
    /// pass-through metadata.
    pub feature_types: Vec<String>,
}

/// An immutable ensemble: the trees in boosting order, the base score (as
/// double bits), the objective, the feature metadata, and the output class
/// count (at least 1; trees are assigned to classes round-robin).
#[derive(Clone, Debug)]
pub struct TreeEnsemble {
    /// The trees, in boosting order.
    pub trees: Vec<Tree>,
    /// The initial accumulator value, as double bits.
    pub base_score: u64,
    /// The post-processing transform for accumulated scores.
    pub objective: Objective,
    /// The feature metadata split feature indices refer to.
    pub features: FeatureMetadata,
    /// The number of output values per row; tree `t` contributes to class
    /// `t % num_class`.
    pub num_class: usize,
}

impl TreeEnsemble {
    /// Well-formedness: at least one output class, and every tree well-formed
    /// against the feature count.
    pub open spec fn wf(self) -> bool {
        &&& self.num_class >= 1
        &&& forall|t: int|
            0 <= t < self.trees@.len() ==> (#[trigger] self.trees@[t]).wf(
                self.features.feature_names@.len() as int,
            )
    }
}

} // verus!
