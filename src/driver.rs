//! The order of the steps of one import run. Every step writes inside one
//! transaction, which is committed only once all of them have succeeded;
//! a failed step ends the run with the transaction left uncommitted.
use vstd::prelude::*;

verus! {

/// The step a run is at.
#[derive(Debug, Clone, Copy, PartialEq, Eq, Structural)]
pub enum SyncStage {
    /// Record the issue date of the document.
    SaveCalendarDate,
    /// Upsert the reference tables.
    References,
    /// Reconcile every aggregate and its satellites.
    Aggregates,
    /// Deactivate the aggregates absent from the document.
    Deactivation,
    /// Reconcile the identification documents.
    Documents,
    /// Reconcile the relations between parties.
    Relations,
    /// Commit the transaction.
    Commit,
    /// The run is over and committed.
    Done,
    /// A step failed: the transaction is never committed.
    Aborted,
}

/// The position of a step in the run; the two ends come last.
pub open spec fn stage_rank(s: SyncStage) -> nat {
    match s {
        SyncStage::SaveCalendarDate => 0,
        SyncStage::References => 1,
        SyncStage::Aggregates => 2,
        SyncStage::Deactivation => 3,
        SyncStage::Documents => 4,
        SyncStage::Relations => 5,
        SyncStage::Commit => 6,
        SyncStage::Done => 7,
        SyncStage::Aborted => 8,
    }
}

/// Whether the run is over.
pub open spec fn is_final(s: SyncStage) -> bool {
    s == SyncStage::Done || s == SyncStage::Aborted
}

/// The step after `s`, given whether `s` succeeded.
pub open spec fn after(s: SyncStage, succeeded: bool) -> SyncStage {
    if is_final(s) {
        s
    } else if !succeeded {
        SyncStage::Aborted
    } else {
        match s {
            SyncStage::SaveCalendarDate => SyncStage::References,
            SyncStage::References => SyncStage::Aggregates,
            SyncStage::Aggregates => SyncStage::Deactivation,
            SyncStage::Deactivation => SyncStage::Documents,
            SyncStage::Documents => SyncStage::Relations,
            SyncStage::Relations => SyncStage::Commit,
            _ => SyncStage::Done,
        }
    }
}

/// Where a run that starts at `s` stands after the step results `results`.
pub open spec fn run_from(s: SyncStage, results: Seq<bool>) -> SyncStage
    decreases results.len(),
{
    if results.len() == 0 {
        s
    } else {
        run_from(after(s, results[0]), results.drop_first())
    }
}

/// The step that follows `stage` once it has succeeded or failed.
pub fn next_stage(stage: SyncStage, succeeded: bool) -> (r: SyncStage)
    ensures
        r == after(stage, succeeded),
{
    match stage {
        SyncStage::Done | SyncStage::Aborted => stage,
        _ => if !succeeded {
            SyncStage::Aborted
        } else {
            match stage {
                SyncStage::SaveCalendarDate => SyncStage::References,
                SyncStage::References => SyncStage::Aggregates,
                SyncStage::Aggregates => SyncStage::Deactivation,
                SyncStage::Deactivation => SyncStage::Documents,
                SyncStage::Documents => SyncStage::Relations,
                SyncStage::Relations => SyncStage::Commit,
                _ => SyncStage::Done,
            }
        },
    }
}

/// Once aborted, a run stays aborted whatever comes next.
proof fn lemma_aborted_stays(results: Seq<bool>)
    ensures
        run_from(SyncStage::Aborted, results) == SyncStage::Aborted,
    decreases results.len(),
{
    if results.len() > 0 {
        lemma_aborted_stays(results.drop_first());
    }
}

/// A run reaches its commit, or its end, only when every step before it
/// succeeded: one failure anywhere leaves the transaction uncommitted.
pub proof fn lemma_commit_needs_every_step(s: SyncStage, results: Seq<bool>)
    requires
        !is_final(s),
        run_from(s, results) == SyncStage::Commit || run_from(s, results) == SyncStage::Done,
    ensures
        forall|i: int|
            0 <= i < results.len() && i + stage_rank(s) < 7 ==> #[trigger] results[i],
    decreases results.len(),
{
    if results.len() > 0 {
        if !results[0] {
            lemma_aborted_stays(results.drop_first());
        } else {
            let n = after(s, true);
            if n == SyncStage::Done {
                assert(stage_rank(s) == 6);
            } else {
                lemma_commit_needs_every_step(n, results.drop_first());
                assert forall|i: int| 0 <= i < results.len() && i + stage_rank(s) < 7 implies #[trigger] results[i] by {
                    if i > 0 {
                        assert(results[i] == results.drop_first()[i - 1]);
                    }
                }
            }
        }
    }
}

} // verus!
