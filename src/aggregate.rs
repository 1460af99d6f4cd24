//! Reconciliation of one aggregate entry (a party, vessel or aircraft) and
//! the finalisation of a batch of them.
use vstd::prelude::*;
use crate::reconcile::{
    copy_values, same_values, first_op, lemma_reconcile_converges, orphan_keys, reconciled, write_kind, WriteKind, plan_category, unique_keys, views, CategoryPlan, ChangeFlag, ChildRecord,
    ChildView, OfacEntityFinalOp,
};

verus! {

/// Whether an aggregate entry is on the current list.
#[derive(Debug, Clone, Copy, PartialEq, Eq, Structural)]
pub enum ActiveState {
    Active,
    Inactive,
}

/// What a run does with the root row of one aggregate.
#[derive(Debug, Clone, Copy, PartialEq, Eq, Structural)]
pub enum AggregateState {
    /// Not stored yet: inserted.
    New,
    /// Stored alike and already seen: no root write.
    Unchanged,
    /// Stored with other values: overwritten.
    Modified,
    /// Stored alike but still pending: its flag is cleared.
    FlagOnly,
}

/// The root row of an aggregate: its public key, its internal key, its
/// change flag, whether it is active, and its business fields as text.
#[derive(Debug, Clone, PartialEq, Eq)]
pub struct AggregateRow {
    pub external_key: i32,
    pub surrogate_key: i32,
    pub flag: ChangeFlag,
    pub active: ActiveState,
    pub fields: Vec<String>,
}

/// What a root row holds.
pub ghost struct AggregateView {
    pub external_key: i32,
    pub surrogate_key: i32,
    pub flag: ChangeFlag,
    pub active: ActiveState,
    pub fields: Seq<Seq<char>>,
}

impl View for AggregateRow {
    type V = AggregateView;

    open spec fn view(&self) -> AggregateView {
        AggregateView {
            external_key: self.external_key,
            surrogate_key: self.surrogate_key,
            flag: self.flag,
            active: self.active,
            fields: self.fields.deep_view(),
        }
    }
}

/// Which key of its aggregate the link rows of a category hold.
#[derive(Debug, Clone, Copy, PartialEq, Eq, Structural)]
pub enum LinkKind {
    /// The public key (most categories).
    External,
    /// The internal key (addresses, dates and places of birth,
    /// nationalities, web sites).
    Surrogate,
}

/// The current and the stored records of one satellite category of an
/// aggregate, and the key its link rows hold.
#[derive(Debug, Clone, PartialEq, Eq)]
pub struct CategoryRecords {
    pub current: Vec<ChildRecord>,
    pub persisted: Vec<ChildRecord>,
    pub link: LinkKind,
}

/// The key of root row `r` that link rows of kind `k` hold.
pub open spec fn link_key_of(r: AggregateView, k: LinkKind) -> i32 {
    match k {
        LinkKind::External => r.external_key,
        LinkKind::Surrogate => r.surrogate_key,
    }
}

/// What a run decides for the root row of an aggregate.
#[derive(Debug, Clone, PartialEq, Eq)]
pub struct AggregateDecision {
    pub state: AggregateState,
    /// The root row as it is written (or left) by the root decision.
    pub row: AggregateRow,
}

/// All that a run decides for one aggregate.
#[derive(Debug, Clone, PartialEq, Eq)]
pub struct AggregateOutcome {
    pub decision: AggregateDecision,
    /// One plan per category, in the order given.
    pub plans: Vec<CategoryPlan>,
    /// The first category result that is not `Nothing`.
    pub outcome: OfacEntityFinalOp,
    /// Whether the root row needs one more write to set its flag pending,
    /// because a satellite changed under an unchanged root.
    pub force_pending: bool,
}

/// A stored root row, as the batch finalisation sees it.
#[derive(Debug, Clone, Copy, PartialEq, Eq, Structural)]
pub struct AggregateStatus {
    pub external_key: i32,
    pub flag: ChangeFlag,
    pub active: ActiveState,
}

/// The current row and the stored one hold the same values, flags aside.
pub open spec fn same_root(c: AggregateView, p: AggregateView) -> bool {
    c.fields == p.fields && c.active == p.active
}

/// The state of the root row of current row `c` against stored row `p`.
pub open spec fn root_state(c: AggregateView, p: Option<AggregateView>) -> AggregateState {
    match p {
        None => AggregateState::New,
        Some(p) => if !same_root(c, p) {
            AggregateState::Modified
        } else if p.flag == ChangeFlag::Pending {
            AggregateState::FlagOnly
        } else {
            AggregateState::Unchanged
        },
    }
}

/// The root row as the root decision writes it: the current values, under
/// the stored internal key when there is one; pending when inserted or
/// overwritten, seen otherwise.
pub open spec fn root_row(c: AggregateView, p: Option<AggregateView>) -> AggregateView {
    let flag = match root_state(c, p) {
        AggregateState::New | AggregateState::Modified => ChangeFlag::Pending,
        _ => ChangeFlag::Unchanged,
    };
    match p {
        None => AggregateView { flag, active: ActiveState::Active, ..c },
        Some(p) => AggregateView { flag, surrogate_key: p.surrogate_key, ..c },
    }
}

impl AggregateDecision {
    /// The decision is the one that current row `c` calls for against `p`.
    pub open spec fn decides(&self, c: AggregateView, p: Option<AggregateView>) -> bool {
        &&& self.state == root_state(c, p)
        &&& self.row@ == root_row(c, p)
    }
}

/// The view of an optional stored row.
pub open spec fn opt_view(p: Option<&AggregateRow>) -> Option<AggregateView> {
    match p {
        None => None,
        Some(r) => Some(r@),
    }
}

/// The coarse results of a list of plans folded: the first that is not
/// `Nothing`.
pub open spec fn plans_outcome(plans: Seq<CategoryPlan>) -> OfacEntityFinalOp
    decreases plans.len(),
{
    if plans.len() == 0 {
        OfacEntityFinalOp::Nothing
    } else {
        first_op(plans_outcome(plans.drop_last()), plans.last().outcome)
    }
}

/// The views of the current records of each category.
pub open spec fn current_views(cats: Seq<CategoryRecords>, i: int) -> Seq<ChildView> {
    views(cats[i].current@)
}

/// The views of the stored records of each category.
pub open spec fn persisted_views(cats: Seq<CategoryRecords>, i: int) -> Seq<ChildView> {
    views(cats[i].persisted@)
}

/// Every category has distinct keys among its current and its stored records.
pub open spec fn categories_keyed(cats: Seq<CategoryRecords>) -> bool {
    forall|i: int|
        0 <= i < cats.len() ==> unique_keys(#[trigger] current_views(cats, i)) && unique_keys(
            persisted_views(cats, i),
        )
}

/// Decides the root write of an aggregate from its current row and the row
/// stored under the same public key, if any.
pub fn decide_aggregate(current: &AggregateRow, persisted: Option<&AggregateRow>) -> (r:
    AggregateDecision)
    ensures
        r.decides(current@, opt_view(persisted)),
{
    match persisted {
        None => AggregateDecision {
            state: AggregateState::New,
            row: AggregateRow {
                external_key: current.external_key,
                surrogate_key: current.surrogate_key,
                flag: ChangeFlag::Pending,
                active: ActiveState::Active,
                fields: copy_values(&current.fields),
            },
        },
        Some(p) => {
            let same = same_values(&current.fields, &p.fields) && current.active == p.active;
            let state = if !same {
                AggregateState::Modified
            } else if p.flag == ChangeFlag::Pending {
                AggregateState::FlagOnly
            } else {
                AggregateState::Unchanged
            };
            let flag = if !same {
                ChangeFlag::Pending
            } else {
                ChangeFlag::Unchanged
            };
            AggregateDecision {
                state,
                row: AggregateRow {
                    external_key: current.external_key,
                    surrogate_key: p.surrogate_key,
                    flag,
                    active: current.active,
                    fields: copy_values(&current.fields),
                },
            }
        },
    }
}

/// Folds the result of one more category into the results so far: the first
/// that is not `Nothing` stays.
pub fn fold_outcome(acc: OfacEntityFinalOp, next: OfacEntityFinalOp) -> (r: OfacEntityFinalOp)
    ensures
        r == first_op(acc, next),
{
    if acc != OfacEntityFinalOp::Nothing {
        acc
    } else {
        next
    }
}

/// Reconciles one aggregate present in the document: decides its root
/// write, plans every satellite category, and sets the root flag pending
/// when a satellite changed.
pub fn reconcile_aggregate(
    current: &AggregateRow,
    persisted: Option<&AggregateRow>,
    categories: &Vec<CategoryRecords>,
) -> (r: AggregateOutcome)
    requires
        categories_keyed(categories@),
    ensures
        r.decision.state == root_state(current@, opt_view(persisted)),
        r.plans@.len() == categories@.len(),
        forall|i: int|
            0 <= i < r.plans@.len() ==> (#[trigger] r.plans@[i]).plans(
                current_views(categories@, i),
                persisted_views(categories@, i),
            ),
        forall|i: int|
            0 <= i < r.plans@.len() ==> (#[trigger] r.plans@[i]).link_key == link_key_of(
                r.decision.row@,
                categories@[i].link,
            ),
        r.outcome == plans_outcome(r.plans@),
        r.force_pending == (r.outcome != OfacEntityFinalOp::Nothing && (r.decision.state
            == AggregateState::Unchanged || r.decision.state == AggregateState::FlagOnly)),
        r.decision.row@ == (if r.outcome != OfacEntityFinalOp::Nothing {
            AggregateView { flag: ChangeFlag::Pending, ..root_row(current@, opt_view(persisted)) }
        } else {
            root_row(current@, opt_view(persisted))
        }),
{
    let mut decision = decide_aggregate(current, persisted);
    let mut plans: Vec<CategoryPlan> = Vec::new();
    let mut outcome = OfacEntityFinalOp::Nothing;
    let mut i: usize = 0;
    while i < categories.len()
        invariant
            0 <= i <= categories.len(),
            categories_keyed(categories@),
            plans@.len() == i,
            forall|j: int|
                0 <= j < i ==> (#[trigger] plans@[j]).plans(
                    current_views(categories@, j),
                    persisted_views(categories@, j),
                ),
            forall|j: int|
                0 <= j < i ==> (#[trigger] plans@[j]).link_key == link_key_of(
                    decision.row@,
                    categories@[j].link,
                ),
            outcome == plans_outcome(plans@),
        decreases categories.len() - i,
    {
        assert(unique_keys(current_views(categories@, i as int)));
        let link_key = match categories[i].link {
            LinkKind::External => decision.row.external_key,
            LinkKind::Surrogate => decision.row.surrogate_key,
        };
        let plan = plan_category(&categories[i].current, &categories[i].persisted, link_key);
        outcome = fold_outcome(outcome, plan.outcome);
        let ghost before = plans@;
        plans.push(plan);
        assert(plans@.drop_last() =~= before);
        i = i + 1;
    }
    let force_pending = outcome != OfacEntityFinalOp::Nothing && (decision.state
        == AggregateState::Unchanged || decision.state == AggregateState::FlagOnly);
    if outcome != OfacEntityFinalOp::Nothing {
        decision.row.flag = ChangeFlag::Pending;
    }
    AggregateOutcome { decision, plans, outcome, force_pending }
}

/// Reconciling an aggregate a second time, with the same current row and
/// records, against the store as the first run left it (root row `q`,
/// whatever its flag), writes no root value and no satellite value and
/// deletes nothing: the root is unchanged or only has its flag cleared, and
/// each satellite record at most has its flag cleared.
pub proof fn lemma_aggregate_converges(
    c: AggregateView,
    p: Option<AggregateView>,
    q: AggregateView,
    cats: Seq<CategoryRecords>,
)
    requires
        c.active == ActiveState::Active,
        q.fields == root_row(c, p).fields,
        q.active == root_row(c, p).active,
        categories_keyed(cats),
    ensures
        root_state(c, Some(q)) == AggregateState::Unchanged || root_state(c, Some(q))
            == AggregateState::FlagOnly,
        forall|i: int, j: int|
            0 <= i < cats.len() && 0 <= j < current_views(cats, i).len() ==> (#[trigger] write_kind(
                current_views(cats, i)[j],
                reconciled(current_views(cats, i), persisted_views(cats, i)),
            ) == WriteKind::FlagOnly || write_kind(
                current_views(cats, i)[j],
                reconciled(current_views(cats, i), persisted_views(cats, i)),
            ) == WriteKind::NoOp),
        forall|i: int|
            0 <= i < cats.len() ==> (#[trigger] orphan_keys(
                current_views(cats, i),
                reconciled(current_views(cats, i), persisted_views(cats, i)),
            )).len() == 0,
{
    assert forall|i: int, j: int|
        0 <= i < cats.len() && 0 <= j < current_views(cats, i).len() implies (#[trigger] write_kind(
        current_views(cats, i)[j],
        reconciled(current_views(cats, i), persisted_views(cats, i)),
    ) == WriteKind::FlagOnly || write_kind(
        current_views(cats, i)[j],
        reconciled(current_views(cats, i), persisted_views(cats, i)),
    ) == WriteKind::NoOp) by {
        lemma_reconcile_converges(current_views(cats, i), persisted_views(cats, i));
    }
    assert forall|i: int| 0 <= i < cats.len() implies (#[trigger] orphan_keys(
        current_views(cats, i),
        reconciled(current_views(cats, i), persisted_views(cats, i)),
    )).len() == 0 by {
        lemma_reconcile_converges(current_views(cats, i), persisted_views(cats, i));
    }
}

/// Whether `k` is one of `keys`.
pub open spec fn seen_key(keys: Seq<i32>, k: i32) -> bool {
    keys.contains(k)
}

/// A stored row that the batch deactivates: active, and not seen.
pub open spec fn deactivated(s: AggregateStatus, seen: Seq<i32>) -> bool {
    s.active == ActiveState::Active && !seen_key(seen, s.external_key)
}

/// The row after the batch finalisation.
pub open spec fn finalized(s: AggregateStatus, seen: Seq<i32>) -> AggregateStatus {
    if deactivated(s, seen) {
        AggregateStatus {
            external_key: s.external_key,
            flag: ChangeFlag::Unchanged,
            active: ActiveState::Inactive,
        }
    } else {
        s
    }
}

/// The keys of the rows that the batch deactivates, in stored order.
pub open spec fn deactivated_keys(rows: Seq<AggregateStatus>, seen: Seq<i32>) -> Seq<i32>
    decreases rows.len(),
{
    if rows.len() == 0 {
        Seq::empty()
    } else if deactivated(rows.last(), seen) {
        deactivated_keys(rows.drop_last(), seen).push(rows.last().external_key)
    } else {
        deactivated_keys(rows.drop_last(), seen)
    }
}

/// Whether `k` is one of `keys`.
fn contains_key(keys: &Vec<i32>, k: i32) -> (r: bool)
    ensures
        r == seen_key(keys@, k),
{
    let mut i: usize = 0;
    while i < keys.len()
        invariant
            0 <= i <= keys.len(),
            forall|j: int| 0 <= j < i ==> keys@[j] != k,
        decreases keys.len() - i,
    {
        if keys[i] == k {
            assert(keys@[i as int] == k);
            return true;
        }
        i = i + 1;
    }
    false
}

/// Finalises a batch: every stored row that is active and whose public key
/// was not seen in the document becomes inactive with its flag cleared;
/// the other rows, inactive ones included, stay as they are. Gives the keys
/// of the rows so changed.
pub fn deactivate_absent(rows: &mut Vec<AggregateStatus>, seen: &Vec<i32>) -> (r: Vec<i32>)
    ensures
        final(rows)@.len() == old(rows)@.len(),
        forall|i: int|
            0 <= i < old(rows)@.len() ==> #[trigger] final(rows)@[i] == finalized(
                old(rows)@[i],
                seen@,
            ),
        r@ == deactivated_keys(old(rows)@, seen@),
{
    let ghost start = rows@;
    let mut keys: Vec<i32> = Vec::new();
    let mut i: usize = 0;
    while i < rows.len()
        invariant
            0 <= i <= rows.len(),
            rows@.len() == start.len(),
            forall|j: int| 0 <= j < i ==> #[trigger] rows@[j] == finalized(start[j], seen@),
            forall|j: int| i <= j < rows@.len() ==> #[trigger] rows@[j] == start[j],
            keys@ == deactivated_keys(start.subrange(0, i as int), seen@),
        decreases rows.len() - i,
    {
        let row = rows[i];
        assert(start.subrange(0, i + 1).drop_last() =~= start.subrange(0, i as int));
        if row.active == ActiveState::Active && !contains_key(seen, row.external_key) {
            rows.set(
                i,
                AggregateStatus {
                    external_key: row.external_key,
                    flag: ChangeFlag::Unchanged,
                    active: ActiveState::Inactive,
                },
            );
            keys.push(row.external_key);
        }
        i = i + 1;
    }
    assert(start.subrange(0, start.len() as int) =~= start);
    keys
}

} // verus!
