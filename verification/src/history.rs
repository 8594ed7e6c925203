//! A model of serialized execution. The coordinator grants exclusive access,
//! so any concurrent mix of requests is equivalent to some sequence of
//! operations run one after the other; these laws say what every such
//! sequence does to the model version.

use vstd::prelude::*;

verus! {

/// One serialized operation against the shared model.
pub enum Operation {
    Predict,
    Retrain,
}

/// The number of retraining operations in a history.
pub open spec fn retrain_count(ops: Seq<Operation>) -> nat
    decreases ops.len(),
{
    if ops.len() == 0 {
        0
    } else {
        retrain_count(ops.drop_last()) + (if ops.last() is Retrain {
            1nat
        } else {
            0nat
        })
    }
}

/// The model version after a serialized history, starting from `v0`: a
/// prediction leaves the version unchanged, a retraining advances it by one —
/// exactly the contracts of the two model operations.
pub open spec fn version_after(v0: nat, ops: Seq<Operation>) -> nat
    decreases ops.len(),
{
    if ops.len() == 0 {
        v0
    } else if ops.last() is Retrain {
        version_after(v0, ops.drop_last()) + 1
    } else {
        version_after(v0, ops.drop_last())
    }
}

/// Law: no update is lost — after any serialized history the version has
/// advanced by exactly the number of retraining operations in it, however
/// predictions were interleaved with them.
pub proof fn lemma_no_lost_updates(v0: nat, ops: Seq<Operation>)
    ensures
        version_after(v0, ops) == v0 + retrain_count(ops),
    decreases ops.len(),
{
    if ops.len() > 0 {
        lemma_no_lost_updates(v0, ops.drop_last());
    }
}

/// Law: a history of retraining operations alone ends at the initial version
/// plus their number.
pub proof fn lemma_concurrent_retrains(v0: nat, ops: Seq<Operation>)
    requires
        forall|i: int| 0 <= i < ops.len() ==> ops[i] is Retrain,
    ensures
        version_after(v0, ops) == v0 + ops.len(),
    decreases ops.len(),
{
    if ops.len() > 0 {
        assert(forall|i: int|
            0 <= i < ops.drop_last().len() ==> ops.drop_last()[i] == ops[i]);
        lemma_concurrent_retrains(v0, ops.drop_last());
    }
}

/// The version never falls below where it started.
pub proof fn lemma_version_lower_bound(v0: nat, ops: Seq<Operation>)
    ensures
        v0 <= version_after(v0, ops),
    decreases ops.len(),
{
    if ops.len() > 0 {
        lemma_version_lower_bound(v0, ops.drop_last());
    }
}

/// Law: every version observed part-way through a serialized history is one
/// the history really reached — it lies between the initial version and the
/// final one. A prediction serialized after `i` operations reports
/// `version_after(v0, ops.take(i))`, so no request can ever see a version
/// that never existed.
pub proof fn lemma_observed_version_exists(v0: nat, ops: Seq<Operation>, i: int)
    requires
        0 <= i <= ops.len(),
    ensures
        v0 <= version_after(v0, ops.take(i)),
        version_after(v0, ops.take(i)) <= version_after(v0, ops),
    decreases ops.len(),
{
    lemma_version_lower_bound(v0, ops.take(i));
    if i == ops.len() {
        assert(ops.take(i) =~= ops);
    } else {
        assert(ops.drop_last().take(i) =~= ops.take(i));
        lemma_observed_version_exists(v0, ops.drop_last(), i);
    }
}

} // verus!
