//! Batch aggregation: many per-object outcomes, collected after every
//! reconciliation has run to completion, become one result. Failures are
//! local to one object and never abort the others; the aggregate carries
//! every failed object's error, or nothing at all.

use vstd::prelude::*;

use crate::errors::ApplyError;
use crate::errors::ApplyErrors;

verus! {

/// The errors among a sequence of per-object outcomes, in order.
pub open spec fn spec_failures(outcomes: Seq<Result<(), ApplyError>>) -> Seq<ApplyError>
    decreases outcomes.len(),
{
    if outcomes.len() == 0 {
        Seq::empty()
    } else {
        spec_failures(outcomes.drop_last()) + (match outcomes.last() {
            Ok(_) => Seq::<ApplyError>::empty(),
            Err(e) => seq![e],
        })
    }
}

/// How many of the outcomes failed.
pub open spec fn count_failures(outcomes: Seq<Result<(), ApplyError>>) -> nat
    decreases outcomes.len(),
{
    if outcomes.len() == 0 {
        0
    } else {
        count_failures(outcomes.drop_last()) + (if outcomes.last() is Err {
            1nat
        } else {
            0nat
        })
    }
}

/// Out of N outcomes with M failures, the aggregate holds exactly M
/// entries: one per failed object, none for the successes.
pub proof fn lemma_aggregate_size(outcomes: Seq<Result<(), ApplyError>>)
    ensures
        spec_failures(outcomes).len() == count_failures(outcomes),
        count_failures(outcomes) <= outcomes.len(),
    decreases outcomes.len(),
{
    if outcomes.len() != 0 {
        lemma_aggregate_size(outcomes.drop_last());
    }
}

/// There are no failures exactly when every outcome succeeded.
pub proof fn lemma_no_failures_means_all_ok(outcomes: Seq<Result<(), ApplyError>>)
    ensures
        spec_failures(outcomes).len() == 0 <==> (forall|i: int|
            0 <= i < outcomes.len() ==> outcomes[i] is Ok),
    decreases outcomes.len(),
{
    if outcomes.len() != 0 {
        lemma_no_failures_means_all_ok(outcomes.drop_last());
        assert(forall|i: int| 0 <= i < outcomes.len() - 1 ==> outcomes.drop_last()[i]
            == outcomes[i]);
    }
}

/// Consumes every object's outcome into the batch result: success when
/// none failed, otherwise the aggregate of every failure.
pub fn collect_batch(outcomes: Vec<Result<(), ApplyError>>) -> (r: Result<(), ApplyErrors>)
    ensures
        match r {
            Ok(_) => spec_failures(outcomes@).len() == 0,
            Err(errs) => errs.0@ == spec_failures(outcomes@) && errs.0@.len() > 0,
        },
        r is Ok <==> (forall|i: int| 0 <= i < outcomes@.len() ==> outcomes@[i] is Ok),
{
    let n = outcomes.len();
    let mut errs: Vec<ApplyError> = Vec::new();
    let mut i: usize = 0;
    proof {
        assert(outcomes@.take(0) =~= Seq::<Result<(), ApplyError>>::empty());
    }
    while i < n
        invariant
            0 <= i <= n,
            n == outcomes@.len(),
            errs@ == spec_failures(outcomes@.take(i as int)),
        decreases n - i,
    {
        match &outcomes[i] {
            Ok(_) => {},
            Err(e) => {
                errs.push(e.duplicate());
            },
        }
        proof {
            assert(outcomes@.take(i as int + 1).drop_last() =~= outcomes@.take(i as int));
            assert(outcomes@.take(i as int + 1).last() == outcomes@[i as int]);
            if outcomes@[i as int] is Err {
                assert(errs@ =~= spec_failures(outcomes@.take(i as int)) + seq![
                    outcomes@[i as int]->Err_0,
                ]);
            } else {
                assert(errs@ =~= spec_failures(outcomes@.take(i as int))
                    + Seq::<ApplyError>::empty());
            }
        }
        i = i + 1;
    }
    proof {
        assert(outcomes@.take(n as int) =~= outcomes@);
        lemma_no_failures_means_all_ok(outcomes@);
    }
    if errs.len() == 0 {
        Ok(())
    } else {
        Err(ApplyErrors(errs))
    }
}

} // verus!
