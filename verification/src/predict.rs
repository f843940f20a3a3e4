//! The prediction engine: per-row multi-tree traversal over a columnar batch,
//! accumulation into one score per output class, and the objective transform.
//!
//! All doubles are carried as IEEE-754 bit patterns.  The whole batch call
//! either produces the full result vector or fails with the first error met
//! in canonical order (rows in batch order, trees in boosting order, nodes
//! along the traversed path); no partial results are ever returned.

use vstd::prelude::*;

use crate::errors::PredictionError;
use crate::fp;
use crate::objective::spec_apply;
use crate::tree::{node_wf, Tree, TreeEnsemble, NO_CHILD};

verus! {

/// One named column of a batch: double values (as bits), or a column whose
/// declared type cannot be read as doubles.
#[derive(Clone, Debug)]
pub enum Column {
    /// Double-precision values, one per row, as IEEE-754 bit patterns.
    /// A non-finite value is treated as missing by the engine.
    Numeric(Vec<u64>),
    /// A column that cannot be coerced to doubles; referencing it in a split
    /// fails the batch call with `TypeMismatch`.
    Unsupported,
}

/// A columnar batch: named columns and a row count.  Column lookup takes the
/// first column with the requested name.
#[derive(Clone, Debug)]
pub struct Batch {
    /// The number of rows; every numeric column has exactly this length.
    pub num_rows: usize,
    /// The column names, parallel to `columns`.
    pub names: Vec<String>,
    /// The column data, parallel to `names`.
    pub columns: Vec<Column>,
}

/// The first index at or after `i` whose name views as `key`, or -1.
pub open spec fn spec_find_col(names: Seq<String>, key: Seq<char>, i: int) -> int
    decreases names.len() - i,
{
    if i < 0 || i >= names.len() {
        -1
    } else if names[i]@ == key {
        i
    } else {
        spec_find_col(names, key, i + 1)
    }
}

impl Batch {
    /// Well-formedness: names and columns are parallel, and every numeric
    /// column has one value per row.
    pub open spec fn wf(self) -> bool {
        &&& self.names@.len() == self.columns@.len()
        &&& forall|i: int|
            0 <= i < self.columns@.len() ==> ((#[trigger] self.columns@[i]) matches Column::Numeric(
                v,
            ) ==> v@.len() == self.num_rows)
    }

    /// An empty batch with a fixed row count.
    pub fn new(num_rows: usize) -> (r: Batch)
        ensures
            r.wf(),
            r.num_rows == num_rows,
            r.names@.len() == 0,
            r.columns@.len() == 0,
    {
        Batch { num_rows, names: Vec::new(), columns: Vec::new() }
    }

    /// Appends a numeric column; `values` holds one double bit pattern per
    /// row.
    pub fn add_numeric_column(&mut self, name: String, values: Vec<u64>)
        requires
            old(self).wf(),
            values@.len() == old(self).num_rows,
        ensures
            final(self).wf(),
            final(self).num_rows == old(self).num_rows,
            final(self).names@ == old(self).names@.push(name),
            final(self).columns@ == old(self).columns@.push(Column::Numeric(values)),
    {
        self.names.push(name);
        self.columns.push(Column::Numeric(values));
    }

    /// Appends a column whose declared type cannot be coerced to doubles.
    pub fn add_unsupported_column(&mut self, name: String)
        requires
            old(self).wf(),
        ensures
            final(self).wf(),
            final(self).num_rows == old(self).num_rows,
            final(self).names@ == old(self).names@.push(name),
            final(self).columns@ == old(self).columns@.push(Column::Unsupported),
    {
        self.names.push(name);
        self.columns.push(Column::Unsupported);
    }

    /// The index of the first column named `name`, if any.
    pub fn find_column(&self, name: &String) -> (r: Option<usize>)
        ensures
            match r {
                Some(ci) => ci < self.names@.len() && spec_find_col(self.names@, name@, 0)
                    == ci as int,
                None => spec_find_col(self.names@, name@, 0) == -1,
            },
    {
        let n: usize = self.names.len();
        let mut i: usize = 0;
        while i < n
            invariant
                n == self.names@.len(),
                i <= n,
                spec_find_col(self.names@, name@, i as int) == spec_find_col(
                    self.names@,
                    name@,
                    0,
                ),
            decreases n - i,
        {
            if self.names[i] == *name {
                return Some(i);
            }
            i = i + 1;
        }
        None
    }
}

/// The row's value for column `name`: the first error in path order if the
/// column is absent or not numeric, else the stored bit pattern.
pub open spec fn spec_col_value(b: Batch, name: String, row: int) -> Result<u64, PredictionError> {
    let ci = spec_find_col(b.names@, name@, 0);
    if ci < 0 {
        Err(PredictionError::FeatureNotFound(name))
    } else {
        match b.columns@[ci] {
            Column::Numeric(v) => Ok(v@[row]),
            Column::Unsupported => Err(PredictionError::TypeMismatch(name)),
        }
    }
}

/// The weight of the leaf reached from `node` for row `row`: at an internal
/// node the row's value of the split's feature routes left iff it is missing
/// (the default direction) or less than the split condition.
pub open spec fn spec_walk(t: Tree, names: Seq<String>, b: Batch, row: int, node: int) -> Result<
    u64,
    PredictionError,
>
    decreases t.num_nodes() - node
        when t.wf(names.len() as int) && 0 <= node < t.num_nodes() via spec_walk_decreases
{
    if t.is_leaf(node) {
        Ok(t.base_weights@[node])
    } else {
        match spec_col_value(b, names[t.split_indices@[node] as int], row) {
            Err(e) => Err(e),
            Ok(v) => {
                if fp::is_missing(v) {
                    spec_walk(t, names, b, row, t.left_children@[node] as int)
                } else if fp::double_lt(v, t.split_conditions@[node]) {
                    spec_walk(t, names, b, row, t.left_children@[node] as int)
                } else {
                    spec_walk(t, names, b, row, t.right_children@[node] as int)
                }
            },
        }
    }
}

#[via_fn]
proof fn spec_walk_decreases(t: Tree, names: Seq<String>, b: Batch, row: int, node: int) {
    assert(node_wf(
        t.split_indices@,
        t.left_children@,
        t.right_children@,
        names.len() as int,
        node,
    ));
}

/// The accumulator after the trees from index `t` on have contributed to a
/// row, starting from `acc`: tree `t` adds its reached leaf's weight to class
/// `t % num_class`.
pub open spec fn spec_row_acc(
    e: TreeEnsemble,
    b: Batch,
    row: int,
    t: int,
    acc: Seq<u64>,
) -> Result<Seq<u64>, PredictionError>
    decreases e.trees@.len() - t
        when 0 <= t <= e.trees@.len()
{
    if t >= e.trees@.len() {
        Ok(acc)
    } else {
        match spec_walk(e.trees@[t], e.features.feature_names@, b, row, 0) {
            Err(x) => Err(x),
            Ok(w) => {
                let c = t % (e.num_class as int);
                spec_row_acc(e, b, row, t + 1, acc.update(c, fp::double_sum(acc[c], w)))
            },
        }
    }
}

/// The initial accumulator of a row: the base score for every output class.
pub open spec fn spec_base_acc(e: TreeEnsemble) -> Seq<u64> {
    Seq::new(e.num_class as nat, |i: int| e.base_score)
}

/// The final scores of one row: all trees' contributions on top of the base
/// score, then the objective applied to each class's accumulated value.
pub open spec fn spec_row_scores(e: TreeEnsemble, b: Batch, row: int) -> Result<
    Seq<u64>,
    PredictionError,
> {
    match spec_row_acc(e, b, row, 0, spec_base_acc(e)) {
        Err(x) => Err(x),
        Ok(acc) => Ok(acc.map_values(|x: u64| spec_apply(e.objective, x))),
    }
}

/// The result of predicting the rows from `row` on, appended to `out`.
pub open spec fn spec_predict_from(e: TreeEnsemble, b: Batch, row: int, out: Seq<u64>) -> Result<
    Seq<u64>,
    PredictionError,
>
    decreases b.num_rows - row
        when 0 <= row <= b.num_rows
{
    if row >= b.num_rows {
        Ok(out)
    } else {
        match spec_row_scores(e, b, row) {
            Err(x) => Err(x),
            Ok(sc) => spec_predict_from(e, b, row + 1, out + sc),
        }
    }
}

/// What `predict_batch` returns: the concatenation, in row order, of every
/// row's scores, or the first error in canonical order.
pub open spec fn spec_predict(e: TreeEnsemble, b: Batch) -> Result<Seq<u64>, PredictionError> {
    spec_predict_from(e, b, 0, Seq::empty())
}

/// Whether the batch carries every one of `names` as a numeric column.
pub open spec fn features_all_numeric(names: Seq<String>, b: Batch) -> bool {
    forall|f: int|
        0 <= f < names.len() ==> {
            let ci = spec_find_col(b.names@, (#[trigger] names[f])@, 0);
            0 <= ci < b.columns@.len() && b.columns@[ci] is Numeric
        }
}

/// Determinism: predicting over a given ensemble and batch has exactly one
/// result; two results of the same inputs are bit-identical, however the
/// calls are scheduled.
pub proof fn lemma_predict_deterministic(
    e: TreeEnsemble,
    b: Batch,
    r1: Result<Seq<u64>, PredictionError>,
    r2: Result<Seq<u64>, PredictionError>,
)
    requires
        r1 == spec_predict(e, b),
        r2 == spec_predict(e, b),
    ensures
        r1 == r2,
{
}

proof fn lemma_walk_ok(t: Tree, names: Seq<String>, b: Batch, row: int, node: int)
    requires
        t.wf(names.len() as int),
        b.wf(),
        0 <= row < b.num_rows,
        0 <= node < t.num_nodes(),
        features_all_numeric(names, b),
    ensures
        spec_walk(t, names, b, row, node) is Ok,
    decreases t.num_nodes() - node,
{
    if !t.is_leaf(node) {
        assert(node_wf(
            t.split_indices@,
            t.left_children@,
            t.right_children@,
            names.len() as int,
            node,
        ));
        let f = t.split_indices@[node] as int;
        assert(0 <= spec_find_col(b.names@, names[f]@, 0) < b.columns@.len());
        let v = spec_col_value(b, names[f], row)->Ok_0;
        if fp::is_missing(v) || fp::double_lt(v, t.split_conditions@[node]) {
            lemma_walk_ok(t, names, b, row, t.left_children@[node] as int);
        } else {
            lemma_walk_ok(t, names, b, row, t.right_children@[node] as int);
        }
    }
}

proof fn lemma_row_acc_ok(e: TreeEnsemble, b: Batch, row: int, t: int, acc: Seq<u64>)
    requires
        e.wf(),
        b.wf(),
        0 <= row < b.num_rows,
        0 <= t <= e.trees@.len(),
        features_all_numeric(e.features.feature_names@, b),
    ensures
        spec_row_acc(e, b, row, t, acc) is Ok,
    decreases e.trees@.len() - t,
{
    if t < e.trees@.len() {
        lemma_walk_ok(e.trees@[t], e.features.feature_names@, b, row, 0);
        let w = spec_walk(e.trees@[t], e.features.feature_names@, b, row, 0)->Ok_0;
        let c = t % (e.num_class as int);
        lemma_row_acc_ok(e, b, row, t + 1, acc.update(c, fp::double_sum(acc[c], w)));
    }
}

proof fn lemma_predict_from_ok(e: TreeEnsemble, b: Batch, row: int, out: Seq<u64>)
    requires
        e.wf(),
        b.wf(),
        0 <= row <= b.num_rows,
        features_all_numeric(e.features.feature_names@, b),
    ensures
        spec_predict_from(e, b, row, out) is Ok,
    decreases b.num_rows - row,
{
    if row < b.num_rows {
        lemma_row_acc_ok(e, b, row, 0, spec_base_acc(e));
        let sc = spec_row_scores(e, b, row)->Ok_0;
        lemma_predict_from_ok(e, b, row + 1, out + sc);
    }
}

/// When success is owed: a batch that carries every feature named by the
/// ensemble's metadata as a numeric column is predicted without error — a
/// `FeatureNotFound` or `TypeMismatch` failure can only come from a feature
/// the batch is actually missing or mistypes.
pub proof fn lemma_all_features_present_implies_ok(e: TreeEnsemble, b: Batch)
    requires
        e.wf(),
        b.wf(),
        features_all_numeric(e.features.feature_names@, b),
    ensures
        spec_predict(e, b) is Ok,
{
    lemma_predict_from_ok(e, b, 0, Seq::empty());
}

/// A feature consulted by a split but absent from the batch fails the whole
/// call and names that feature: whenever the batch has rows and the first
/// tree opens with a split whose feature the batch does not carry, the
/// result is exactly `FeatureNotFound` of that feature's name — the call
/// returns no `Ok` at all, so no partial result vector ever exists.
pub proof fn lemma_missing_root_feature_fails(e: TreeEnsemble, b: Batch)
    requires
        e.wf(),
        b.wf(),
        b.num_rows >= 1,
        e.trees@.len() >= 1,
        !e.trees@[0].is_leaf(0),
        spec_find_col(
            b.names@,
            e.features.feature_names@[e.trees@[0].split_indices@[0] as int]@,
            0,
        ) == -1,
    ensures
        spec_predict(e, b) == Err::<Seq<u64>, PredictionError>(
            PredictionError::FeatureNotFound(
                e.features.feature_names@[e.trees@[0].split_indices@[0] as int],
            ),
        ),
{
    let t = e.trees@[0];
    let names = e.features.feature_names@;
    let f = t.split_indices@[0] as int;
    assert(node_wf(
        t.split_indices@,
        t.left_children@,
        t.right_children@,
        names.len() as int,
        0,
    ));
    assert(spec_col_value(b, names[f], 0) == Err::<u64, PredictionError>(
        PredictionError::FeatureNotFound(names[f]),
    ));
    assert(spec_walk(t, names, b, 0, 0) == Err::<u64, PredictionError>(
        PredictionError::FeatureNotFound(names[f]),
    ));
    assert(spec_row_acc(e, b, 0, 0, spec_base_acc(e)) == Err::<Seq<u64>, PredictionError>(
        PredictionError::FeatureNotFound(names[f]),
    ));
    assert(spec_predict_from(e, b, 0, Seq::empty()) == Err::<Seq<u64>, PredictionError>(
        PredictionError::FeatureNotFound(names[f]),
    ));
}

impl Tree {
    /// Walks this tree from the root for row `row` of `batch` and returns the
    /// reached leaf's weight, fetching the row's value of each visited
    /// split's feature by name.
    pub fn traverse(&self, names: &Vec<String>, batch: &Batch, row: usize) -> (r: Result<
        u64,
        PredictionError,
    >)
        requires
            self.wf(names@.len() as int),
            batch.wf(),
            row < batch.num_rows,
        ensures
            (match (r, spec_walk(*self, names@, *batch, row as int, 0)) {
                (Ok(w), Ok(sw)) => w == sw,
                (Err(e), Err(se)) => e == se,
                _ => false,
            }),
    {
        let mut node: usize = 0;
        loop
            invariant
                self.wf(names@.len() as int),
                batch.wf(),
                row < batch.num_rows,
                node < self.num_nodes(),
                spec_walk(*self, names@, *batch, row as int, node as int) == spec_walk(
                    *self,
                    names@,
                    *batch,
                    row as int,
                    0,
                ),
            decreases self.num_nodes() - node,
        {
            let l: u32 = self.left_children[node];
            let rc: u32 = self.right_children[node];
            if l == NO_CHILD && rc == NO_CHILD {
                return Ok(self.base_weights[node]);
            }
            proof {
                assert(node_wf(
                    self.split_indices@,
                    self.left_children@,
                    self.right_children@,
                    names@.len() as int,
                    node as int,
                ));
            }
            let f: usize = self.split_indices[node] as usize;
            let name: &String = &names[f];
            match batch.find_column(name) {
                None => {
                    return Err(PredictionError::FeatureNotFound(name.clone()));
                },
                Some(ci) => {
                    match &batch.columns[ci] {
                        Column::Unsupported => {
                            return Err(PredictionError::TypeMismatch(name.clone()));
                        },
                        Column::Numeric(vals) => {
                            let v: u64 = vals[row];
                            let go_left: bool = if fp::missing_double(v) {
                                true
                            } else {
                                fp::lt_double(v, self.split_conditions[node])
                            };
                            node = if go_left {
                                l as usize
                            } else {
                                rc as usize
                            };
                        },
                    }
                },
            }
        }
    }
}

impl TreeEnsemble {
    /// The scores of one row: base score per class, every tree's leaf weight
    /// added to its class, the objective applied at the end.
    pub fn predict_row(&self, batch: &Batch, row: usize) -> (r: Result<Vec<u64>, PredictionError>)
        requires
            self.wf(),
            batch.wf(),
            row < batch.num_rows,
        ensures
            (match (r, spec_row_scores(*self, *batch, row as int)) {
                (Ok(v), Ok(s)) => v@ == s,
                (Err(e), Err(se)) => e == se,
                _ => false,
            }),
            r matches Ok(v) ==> v@.len() == self.num_class,
    {
        let nc: usize = self.num_class;
        let mut acc: Vec<u64> = Vec::new();
        let mut c: usize = 0;
        while c < nc
            invariant
                c <= nc,
                acc@.len() == c,
                forall|k: int| 0 <= k < c ==> acc@[k] == self.base_score,
            decreases nc - c,
        {
            acc.push(self.base_score);
            c = c + 1;
        }
        proof {
            assert(acc@ =~= spec_base_acc(*self));
        }
        let mut t: usize = 0;
        while t < self.trees.len()
            invariant
                self.wf(),
                batch.wf(),
                row < batch.num_rows,
                nc == self.num_class,
                t <= self.trees@.len(),
                acc@.len() == nc,
                spec_row_acc(*self, *batch, row as int, t as int, acc@) == spec_row_acc(
                    *self,
                    *batch,
                    row as int,
                    0,
                    spec_base_acc(*self),
                ),
            decreases self.trees@.len() - t,
        {
            let tree = &self.trees[t];
            match tree.traverse(&self.features.feature_names, batch, row) {
                Err(e) => {
                    return Err(e);
                },
                Ok(w) => {
                    let cls: usize = t % nc;
                    let sum: u64 = fp::add_double(acc[cls], w);
                    acc[cls] = sum;
                    t = t + 1;
                },
            }
        }
        let mut res: Vec<u64> = Vec::new();
        let mut k: usize = 0;
        while k < acc.len()
            invariant
                k <= acc@.len(),
                res@.len() == k,
                forall|j: int| 0 <= j < k ==> res@[j] == spec_apply(self.objective, acc@[j]),
            decreases acc@.len() - k,
        {
            let applied: u64 = self.objective.apply(acc[k]);
            res.push(applied);
            k = k + 1;
        }
        proof {
            assert(res@ =~= acc@.map_values(|x: u64| spec_apply(self.objective, x)));
        }
        Ok(res)
    }

    /// Evaluates every tree for every row of `batch` and returns one score
    /// per row and output class, in row-major order; on the first error in
    /// canonical order the whole call fails with it and no partial result is
    /// returned.
    pub fn predict_batch(&self, batch: &Batch) -> (r: Result<Vec<u64>, PredictionError>)
        requires
            self.wf(),
            batch.wf(),
        ensures
            (match (r, spec_predict(*self, *batch)) {
                (Ok(v), Ok(s)) => v@ == s,
                (Err(e), Err(se)) => e == se,
                _ => false,
            }),
            r matches Ok(v) ==> v@.len() == (batch.num_rows as int) * (self.num_class as int),
    {
        let mut out: Vec<u64> = Vec::new();
        let mut row: usize = 0;
        proof {
            assert(out@ =~= Seq::<u64>::empty());
        }
        while row < batch.num_rows
            invariant
                self.wf(),
                batch.wf(),
                row <= batch.num_rows,
                spec_predict_from(*self, *batch, row as int, out@) == spec_predict(
                    *self,
                    *batch,
                ),
                out@.len() == (row as int) * (self.num_class as int),
            decreases batch.num_rows - row,
        {
            match self.predict_row(batch, row) {
                Err(e) => {
                    return Err(e);
                },
                Ok(mut sc) => {
                    proof {
                        assert((row as int + 1) * (self.num_class as int) == (row as int) * (
                        self.num_class as int) + (self.num_class as int)) by (nonlinear_arith);
                    }
                    out.append(&mut sc);
                    row = row + 1;
                },
            }
        }
        Ok(out)
    }
}

} // verus!
