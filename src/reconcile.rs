//! Reconciliation of one category of satellite records.
//!
//! Given the records that the current document holds for one aggregate and
//! those that the store holds for it, the plan says, record by record, which
//! write brings the store in line, and which stored records are orphans whose
//! link and row go away.
use vstd::prelude::*;

verus! {

/// Whether a row has been seen by the downstream consumer.
#[derive(Debug, Clone, Copy, PartialEq, Eq, Structural)]
pub enum ChangeFlag {
    /// Steady state: nothing new for the consumer.
    Unchanged,
    /// Written since the consumer last looked.
    Pending,
}

/// The coarse result of reconciling satellite records: the first record
/// that needed a write decides it.
#[derive(Debug, Clone, Copy, PartialEq, Eq, Structural)]
pub enum OfacEntityFinalOp {
    /// A record was inserted.
    Insert,
    /// A record was overwritten.
    Update,
    /// Only the change flag of a record was cleared.
    UpdateFlagOnly,
    /// No record needed a write.
    Nothing,
}

/// The write that one current record calls for.
#[derive(Debug, Clone, Copy, PartialEq, Eq, Structural)]
pub enum WriteKind {
    /// New record: insert it and its link to the aggregate.
    Insert,
    /// Stored with other values: overwrite every field.
    Update,
    /// Stored alike but still pending: clear the flag.
    FlagOnly,
    /// Stored alike and already seen: nothing to write.
    NoOp,
}

/// One satellite record: its key within the category, its value fields as
/// text, and its change flag.
#[derive(Debug, Clone, PartialEq, Eq)]
pub struct ChildRecord {
    pub key: i32,
    pub values: Vec<String>,
    pub flag: ChangeFlag,
}

/// What a satellite record holds.
pub ghost struct ChildView {
    pub key: i32,
    pub values: Seq<Seq<char>>,
    pub flag: ChangeFlag,
}

impl View for ChildRecord {
    type V = ChildView;

    open spec fn view(&self) -> ChildView {
        ChildView { key: self.key, values: self.values.deep_view(), flag: self.flag }
    }
}

/// The write for one current record, and the record as the store holds it
/// afterwards.
#[derive(Debug, Clone, PartialEq, Eq)]
pub struct RecordAction {
    pub kind: WriteKind,
    pub record: ChildRecord,
}

/// The writes that reconcile one category for one aggregate.
#[derive(Debug, Clone, PartialEq, Eq)]
pub struct CategoryPlan {
    /// One action per current record, in the order of the current records.
    pub actions: Vec<RecordAction>,
    /// The keys of the stored records that the document no longer holds, in
    /// stored order; each loses its link, then its row.
    pub orphans: Vec<i32>,
    /// The first of the actions that writes, folded to a coarse result.
    pub outcome: OfacEntityFinalOp,
    /// The aggregate key that the link rows of this category hold: every
    /// inserted record is linked under it, every orphan unlinked from it.
    pub link_key: i32,
}

/// The views of a sequence of records.
pub open spec fn views(s: Seq<ChildRecord>) -> Seq<ChildView> {
    s.map_values(|r: ChildRecord| r@)
}

/// Whether some record of `s` has key `k`.
pub open spec fn has_key(s: Seq<ChildView>, k: i32) -> bool {
    exists|i: int| 0 <= i < s.len() && s[i].key == k
}

/// No two records of `s` share a key.
pub open spec fn unique_keys(s: Seq<ChildView>) -> bool {
    forall|i: int, j: int| 0 <= i < s.len() && 0 <= j < s.len() && i != j ==> s[i].key != s[j].key
}

/// The index of the record of `s` with key `k`.
pub open spec fn index_of(s: Seq<ChildView>, k: i32) -> int
    recommends
        has_key(s, k),
{
    choose|i: int| 0 <= i < s.len() && s[i].key == k
}

/// `r` with flag `f`.
pub open spec fn flagged(r: ChildView, f: ChangeFlag) -> ChildView {
    ChildView { flag: f, ..r }
}

/// The write that current record `c` calls for against the stored records `p`.
pub open spec fn write_kind(c: ChildView, p: Seq<ChildView>) -> WriteKind {
    if !has_key(p, c.key) {
        WriteKind::Insert
    } else if p[index_of(p, c.key)].values != c.values {
        WriteKind::Update
    } else if p[index_of(p, c.key)].flag == ChangeFlag::Pending {
        WriteKind::FlagOnly
    } else {
        WriteKind::NoOp
    }
}

/// The record `c` as the store holds it after its write: pending when it
/// was inserted or overwritten, seen otherwise.
pub open spec fn written(c: ChildView, p: Seq<ChildView>) -> ChildView {
    match write_kind(c, p) {
        WriteKind::Insert | WriteKind::Update => flagged(c, ChangeFlag::Pending),
        _ => flagged(c, ChangeFlag::Unchanged),
    }
}

/// The coarse result of one write.
pub open spec fn final_op(k: WriteKind) -> OfacEntityFinalOp {
    match k {
        WriteKind::Insert => OfacEntityFinalOp::Insert,
        WriteKind::Update => OfacEntityFinalOp::Update,
        WriteKind::FlagOnly => OfacEntityFinalOp::UpdateFlagOnly,
        WriteKind::NoOp => OfacEntityFinalOp::Nothing,
    }
}

/// The earlier result when it is not `Nothing`, else the later one.
pub open spec fn first_op(acc: OfacEntityFinalOp, next: OfacEntityFinalOp) -> OfacEntityFinalOp {
    if acc != OfacEntityFinalOp::Nothing {
        acc
    } else {
        next
    }
}

/// The coarse result of a sequence of writes: the first that is not a no-op.
pub open spec fn outcome_of(kinds: Seq<WriteKind>) -> OfacEntityFinalOp
    decreases kinds.len(),
{
    if kinds.len() == 0 {
        OfacEntityFinalOp::Nothing
    } else {
        first_op(outcome_of(kinds.drop_last()), final_op(kinds.last()))
    }
}

/// The keys of the stored records `p` that no current record `c` holds, in
/// stored order.
pub open spec fn orphan_keys(c: Seq<ChildView>, p: Seq<ChildView>) -> Seq<i32>
    decreases p.len(),
{
    if p.len() == 0 {
        Seq::empty()
    } else if has_key(c, p.last().key) {
        orphan_keys(c, p.drop_last())
    } else {
        orphan_keys(c, p.drop_last()).push(p.last().key)
    }
}

/// The kinds of write that the current records `c` call for.
pub open spec fn write_kinds(c: Seq<ChildView>, p: Seq<ChildView>) -> Seq<WriteKind> {
    c.map_values(|r: ChildView| write_kind(r, p))
}

/// The records of the category as the store holds them once the plan is
/// carried out: the current records, each with its new flag.
pub open spec fn reconciled(c: Seq<ChildView>, p: Seq<ChildView>) -> Seq<ChildView> {
    c.map_values(|r: ChildView| written(r, p))
}

impl CategoryPlan {
    /// The plan is exactly the one that current records `c` call for against
    /// stored records `p`.
    pub open spec fn plans(&self, c: Seq<ChildView>, p: Seq<ChildView>) -> bool {
        &&& self.actions@.len() == c.len()
        &&& forall|i: int|
            0 <= i < c.len() ==> {
                &&& #[trigger] self.actions@[i].kind == write_kind(c[i], p)
                &&& self.actions@[i].record@ == written(c[i], p)
            }
        &&& self.orphans@ == orphan_keys(c, p)
        &&& self.outcome == outcome_of(write_kinds(c, p))
    }
}

/// A copy of the value fields.
pub(crate) fn copy_values(v: &Vec<String>) -> (r: Vec<String>)
    ensures
        r.deep_view() == v.deep_view(),
{
    let mut r: Vec<String> = Vec::new();
    let mut i: usize = 0;
    while i < v.len()
        invariant
            0 <= i <= v.len(),
            r@.len() == i,
            forall|j: int| 0 <= j < i ==> (#[trigger] r@[j])@ == v@[j]@,
        decreases v.len() - i,
    {
        r.push(v[i].clone());
        i = i + 1;
    }
    assert(r.deep_view() =~= v.deep_view());
    r
}

/// Whether the two records hold the same values, flags aside.
pub(crate) fn same_values(a: &Vec<String>, b: &Vec<String>) -> (r: bool)
    ensures
        r == (a.deep_view() == b.deep_view()),
{
    if a.len() != b.len() {
        assert(a.deep_view().len() != b.deep_view().len());
        return false;
    }
    let mut i: usize = 0;
    while i < a.len()
        invariant
            0 <= i <= a.len(),
            a.len() == b.len(),
            forall|j: int| 0 <= j < i ==> (#[trigger] a@[j])@ == b@[j]@,
        decreases a.len() - i,
    {
        if a[i] != b[i] {
            assert(a.deep_view()[i as int] != b.deep_view()[i as int]);
            return false;
        }
        i = i + 1;
    }
    assert(a.deep_view() =~= b.deep_view());
    true
}

/// The position of the record with key `k`, if any.
fn find_key(s: &Vec<ChildRecord>, k: i32) -> (r: Option<usize>)
    ensures
        r is None ==> !has_key(views(s@), k),
        r matches Some(i) ==> i < s@.len() && s@[i as int].key == k,
{
    let mut i: usize = 0;
    while i < s.len()
        invariant
            0 <= i <= s.len(),
            forall|j: int| 0 <= j < i ==> (#[trigger] s@[j]).key != k,
        decreases s.len() - i,
    {
        if s[i].key == k {
            return Some(i);
        }
        i = i + 1;
    }
    assert(!has_key(views(s@), k)) by {
        assert forall|j: int| 0 <= j < views(s@).len() implies views(s@)[j].key != k by {
            assert(views(s@)[j] == s@[j]@);
        }
    }
    None
}

/// A record's key picks out the one record that has it.
proof fn lemma_index_of(s: Seq<ChildView>, i: int)
    requires
        unique_keys(s),
        0 <= i < s.len(),
    ensures
        has_key(s, s[i].key),
        index_of(s, s[i].key) == i,
{
    assert(has_key(s, s[i].key));
}

/// Works out, record by record, the writes that bring the stored records of
/// one category of the aggregate with key `link_key` in line with the
/// current ones: a record with a new key is
/// inserted and pending; one stored with other values is overwritten and
/// pending; one stored alike and pending has its flag cleared; one stored
/// alike and seen is left. Stored records whose key the current records lack
/// are orphans.
pub fn plan_category(current: &Vec<ChildRecord>, persisted: &Vec<ChildRecord>, link_key: i32) -> (r:
    CategoryPlan)
    requires
        unique_keys(views(current@)),
        unique_keys(views(persisted@)),
    ensures
        r.plans(views(current@), views(persisted@)),
        r.link_key == link_key,
{
    let ghost c = views(current@);
    let ghost p = views(persisted@);
    let mut actions: Vec<RecordAction> = Vec::new();
    let mut outcome = OfacEntityFinalOp::Nothing;
    let mut i: usize = 0;
    while i < current.len()
        invariant
            0 <= i <= current.len(),
            c == views(current@),
            p == views(persisted@),
            unique_keys(p),
            actions@.len() == i,
            forall|j: int|
                0 <= j < i ==> {
                    &&& #[trigger] actions@[j].kind == write_kind(c[j], p)
                    &&& actions@[j].record@ == written(c[j], p)
                },
            outcome == outcome_of(write_kinds(c.subrange(0, i as int), p)),
        decreases current.len() - i,
    {
        let cur = &current[i];
        assert(c[i as int] == cur@);
        let kind = match find_key(persisted, cur.key) {
            None => WriteKind::Insert,
            Some(j) => {
                proof {
                    assert(p[j as int] == persisted@[j as int]@);
                    lemma_index_of(p, j as int);
                }
                if !same_values(&persisted[j].values, &cur.values) {
                    WriteKind::Update
                } else if persisted[j].flag == ChangeFlag::Pending {
                    WriteKind::FlagOnly
                } else {
                    WriteKind::NoOp
                }
            },
        };
        let flag = match kind {
            WriteKind::Insert | WriteKind::Update => ChangeFlag::Pending,
            _ => ChangeFlag::Unchanged,
        };
        let record = ChildRecord { key: cur.key, values: copy_values(&cur.values), flag };
        assert(record@ =~= written(c[i as int], p));
        let op = match kind {
            WriteKind::Insert => OfacEntityFinalOp::Insert,
            WriteKind::Update => OfacEntityFinalOp::Update,
            WriteKind::FlagOnly => OfacEntityFinalOp::UpdateFlagOnly,
            WriteKind::NoOp => OfacEntityFinalOp::Nothing,
        };
        proof {
            let ks = write_kinds(c.subrange(0, i + 1), p);
            assert(ks.drop_last() =~= write_kinds(c.subrange(0, i as int), p));
        }
        if outcome == OfacEntityFinalOp::Nothing {
            outcome = op;
        }
        actions.push(RecordAction { kind, record });
        i = i + 1;
    }
    assert(c.subrange(0, current.len() as int) =~= c);
    let mut orphans: Vec<i32> = Vec::new();
    let mut j: usize = 0;
    while j < persisted.len()
        invariant
            0 <= j <= persisted.len(),
            c == views(current@),
            p == views(persisted@),
            orphans@ == orphan_keys(c, p.subrange(0, j as int)),
        decreases persisted.len() - j,
    {
        let k = persisted[j].key;
        assert(p.subrange(0, j + 1).drop_last() =~= p.subrange(0, j as int));
        assert(p.subrange(0, j + 1).last() == persisted@[j as int]@);
        let found = find_key(current, k);
        proof {
            if let Some(i) = found {
                assert(c[i as int] == current@[i as int]@);
            }
        }
        if found.is_none() {
            orphans.push(k);
        }
        j = j + 1;
    }
    assert(p.subrange(0, persisted.len() as int) =~= p);
    CategoryPlan { actions, orphans, outcome, link_key }
}

/// The write that a standalone record (one not owned by a single aggregate)
/// calls for: insert when new, overwrite when stored with other values,
/// nothing otherwise.
pub open spec fn standalone_kind(c: ChildView, p: Seq<ChildView>) -> WriteKind {
    if !has_key(p, c.key) {
        WriteKind::Insert
    } else if p[index_of(p, c.key)].values != c.values {
        WriteKind::Update
    } else {
        WriteKind::NoOp
    }
}

/// The standalone record as the store holds it afterwards: pending when
/// written, as it was stored otherwise.
pub open spec fn standalone_written(c: ChildView, p: Seq<ChildView>) -> ChildView {
    match standalone_kind(c, p) {
        WriteKind::NoOp => p[index_of(p, c.key)],
        _ => flagged(c, ChangeFlag::Pending),
    }
}

/// Works out the writes for standalone records (identification documents,
/// relations between parties): a record with a new key is inserted and
/// pending, one stored with other values is overwritten and pending, one
/// stored alike is left as it is. Standalone records are never deleted.
pub fn plan_standalone(current: &Vec<ChildRecord>, persisted: &Vec<ChildRecord>) -> (r: Vec<
    RecordAction,
>)
    requires
        unique_keys(views(persisted@)),
    ensures
        r@.len() == current@.len(),
        forall|i: int|
            0 <= i < current@.len() ==> {
                &&& #[trigger] r@[i].kind == standalone_kind(current@[i]@, views(persisted@))
                &&& r@[i].record@ == standalone_written(current@[i]@, views(persisted@))
            },
{
    let ghost p = views(persisted@);
    let mut actions: Vec<RecordAction> = Vec::new();
    let mut i: usize = 0;
    while i < current.len()
        invariant
            0 <= i <= current.len(),
            p == views(persisted@),
            unique_keys(p),
            actions@.len() == i,
            forall|j: int|
                0 <= j < i ==> {
                    &&& #[trigger] actions@[j].kind == standalone_kind(current@[j]@, p)
                    &&& actions@[j].record@ == standalone_written(current@[j]@, p)
                },
        decreases current.len() - i,
    {
        let cur = &current[i];
        let action = match find_key(persisted, cur.key) {
            None => RecordAction {
                kind: WriteKind::Insert,
                record: ChildRecord {
                    key: cur.key,
                    values: copy_values(&cur.values),
                    flag: ChangeFlag::Pending,
                },
            },
            Some(j) => {
                proof {
                    assert(p[j as int] == persisted@[j as int]@);
                    lemma_index_of(p, j as int);
                }
                if !same_values(&persisted[j].values, &cur.values) {
                    RecordAction {
                        kind: WriteKind::Update,
                        record: ChildRecord {
                            key: cur.key,
                            values: copy_values(&cur.values),
                            flag: ChangeFlag::Pending,
                        },
                    }
                } else {
                    RecordAction {
                        kind: WriteKind::NoOp,
                        record: ChildRecord {
                            key: persisted[j].key,
                            values: copy_values(&persisted[j].values),
                            flag: persisted[j].flag,
                        },
                    }
                }
            },
        };
        assert(action.record@ =~= standalone_written(cur@, p));
        actions.push(action);
        i = i + 1;
    }
    actions
}

/// A record that the store did not hold is written pending; one held alike
/// and pending is left seen; one held with other values is written pending.
pub proof fn lemma_flag_transitions(c: ChildView, p: Seq<ChildView>)
    requires
        unique_keys(p),
    ensures
        !has_key(p, c.key) ==> written(c, p).flag == ChangeFlag::Pending,
        forall|i: int|
            0 <= i < p.len() && #[trigger] p[i].key == c.key ==> {
                &&& p[i].values == c.values && p[i].flag == ChangeFlag::Pending
                    ==> written(c, p).flag == ChangeFlag::Unchanged
                &&& p[i].values != c.values ==> written(c, p).flag == ChangeFlag::Pending
            },
{
    assert forall|i: int| 0 <= i < p.len() && #[trigger] p[i].key == c.key implies index_of(p, c.key)
        == i by {
        lemma_index_of(p, i);
    }
}

/// The orphans of a category are exactly the stored keys that the current
/// records lack, each named once: each of them loses its link and its row in
/// one delete.
pub proof fn lemma_orphans_complete(c: Seq<ChildView>, p: Seq<ChildView>)
    requires
        unique_keys(p),
    ensures
        forall|k: i32| #[trigger] orphan_keys(c, p).contains(k) <==> (has_key(p, k) && !has_key(c, k)),
        orphan_keys(c, p).no_duplicates(),
    decreases p.len(),
{
    if p.len() > 0 {
        let q = p.drop_last();
        assert(unique_keys(q));
        lemma_orphans_complete(c, q);
        let oq = orphan_keys(c, q);
        let last = p.last().key;
        assert forall|k: i32| #[trigger] orphan_keys(c, p).contains(k) <==> (has_key(p, k) && !has_key(c, k)) by {
            assert(has_key(p, k) <==> (has_key(q, k) || last == k)) by {
                if has_key(p, k) {
                    let i = choose|i: int| 0 <= i < p.len() && p[i].key == k;
                    if i < q.len() {
                        assert(q[i].key == k);
                    }
                }
                if has_key(q, k) {
                    let i = choose|i: int| 0 <= i < q.len() && q[i].key == k;
                    assert(p[i].key == k);
                }
                if last == k {
                    assert(p[p.len() - 1].key == k);
                }
            }
            if !has_key(c, last) {
                assert(orphan_keys(c, p) == oq.push(last));
                assert(oq.push(last).contains(k) <==> (oq.contains(k) || last == k)) by {
                    if oq.push(last).contains(k) {
                        let i = choose|i: int| 0 <= i < oq.len() + 1 && oq.push(last)[i] == k;
                        if i < oq.len() {
                            assert(oq[i] == k);
                        }
                    }
                    if oq.contains(k) {
                        let i = choose|i: int| 0 <= i < oq.len() && oq[i] == k;
                        assert(oq.push(last)[i] == k);
                    }
                    if last == k {
                        assert(oq.push(last)[oq.len() as int] == k);
                    }
                }
            }
        }
        if !has_key(c, p.last().key) {
            assert(!orphan_keys(c, q).contains(p.last().key)) by {
                if has_key(q, p.last().key) {
                    let i = choose|i: int| 0 <= i < q.len() && q[i].key == p.last().key;
                    assert(p[i].key == p[p.len() - 1].key);
                }
            }
        }
    }
}

/// When every stored key is current, there is no orphan.
proof fn lemma_no_orphans(c: Seq<ChildView>, p: Seq<ChildView>)
    requires
        forall|i: int| 0 <= i < p.len() ==> has_key(c, #[trigger] p[i].key),
    ensures
        orphan_keys(c, p).len() == 0,
    decreases p.len(),
{
    if p.len() > 0 {
        let q = p.drop_last();
        assert forall|i: int| 0 <= i < q.len() implies has_key(c, #[trigger] q[i].key) by {
            assert(q[i] == p[i]);
        }
        lemma_no_orphans(c, q);
        assert(has_key(c, p[p.len() - 1].key));
    }
}

/// Writes that are all no-ops have no coarse result.
proof fn lemma_all_noop(kinds: Seq<WriteKind>)
    requires
        forall|i: int| 0 <= i < kinds.len() ==> #[trigger] kinds[i] == WriteKind::NoOp,
    ensures
        outcome_of(kinds) == OfacEntityFinalOp::Nothing,
    decreases kinds.len(),
{
    if kinds.len() > 0 {
        let q = kinds.drop_last();
        assert forall|i: int| 0 <= i < q.len() implies #[trigger] q[i] == WriteKind::NoOp by {
            assert(q[i] == kinds[i]);
        }
        lemma_all_noop(q);
        assert(kinds[kinds.len() - 1] == WriteKind::NoOp);
    }
}

/// Against the store as a plan left it, each current record is found with
/// its own values, so it calls for no insert and no overwrite.
proof fn lemma_found_alike(c: Seq<ChildView>, q: Seq<ChildView>, i: int)
    requires
        unique_keys(c),
        q.len() == c.len(),
        forall|j: int| 0 <= j < c.len() ==> (#[trigger] q[j]).key == c[j].key && q[j].values == c[j].values,
        0 <= i < c.len(),
    ensures
        has_key(q, c[i].key),
        index_of(q, c[i].key) == i,
        write_kind(c[i], q) == (if q[i].flag == ChangeFlag::Pending {
            WriteKind::FlagOnly
        } else {
            WriteKind::NoOp
        }),
{
    assert(unique_keys(q)) by {
        assert forall|a: int, b: int| 0 <= a < q.len() && 0 <= b < q.len() && a != b implies q[a].key
            != q[b].key by {
            assert(q[a].key == c[a].key && q[b].key == c[b].key);
        }
    }
    lemma_index_of(q, i);
}

/// Reconciling the same current records again, against the store as the
/// first plan left it, writes no value and deletes nothing: it at most clears
/// the flags that the first plan set, and when the first plan inserted and
/// overwrote nothing, it writes nothing at all. Once those flags are cleared,
/// a further run writes nothing either.
pub proof fn lemma_reconcile_converges(c: Seq<ChildView>, p: Seq<ChildView>)
    requires
        unique_keys(c),
        unique_keys(p),
    ensures
        forall|i: int|
            0 <= i < c.len() ==> (#[trigger] write_kind(c[i], reconciled(c, p)) == WriteKind::FlagOnly
                || write_kind(c[i], reconciled(c, p)) == WriteKind::NoOp),
        orphan_keys(c, reconciled(c, p)).len() == 0,
        forall|i: int|
            0 <= i < c.len() ==> #[trigger] write_kind(c[i], reconciled(c, reconciled(c, p)))
                == WriteKind::NoOp,
        orphan_keys(c, reconciled(c, reconciled(c, p))).len() == 0,
        outcome_of(write_kinds(c, reconciled(c, reconciled(c, p)))) == OfacEntityFinalOp::Nothing,
        (forall|i: int|
            0 <= i < c.len() ==> #[trigger] write_kind(c[i], p) != WriteKind::Insert && write_kind(c[i], p)
                != WriteKind::Update) ==> (forall|i: int|
            0 <= i < c.len() ==> #[trigger] write_kind(c[i], reconciled(c, p)) == WriteKind::NoOp),
{
    let q1 = reconciled(c, p);
    let q2 = reconciled(c, q1);
    assert forall|j: int| 0 <= j < c.len() implies (#[trigger] q1[j]).key == c[j].key && q1[j].values
        == c[j].values by {}
    assert forall|i: int| 0 <= i < c.len() implies (#[trigger] write_kind(c[i], q1)
        == WriteKind::FlagOnly || write_kind(c[i], q1) == WriteKind::NoOp) by {
        lemma_found_alike(c, q1, i);
    }
    if forall|i: int|
        0 <= i < c.len() ==> #[trigger] write_kind(c[i], p) != WriteKind::Insert && write_kind(c[i], p)
            != WriteKind::Update {
        assert forall|i: int| 0 <= i < c.len() implies #[trigger] write_kind(c[i], q1)
            == WriteKind::NoOp by {
            assert(write_kind(c[i], p) != WriteKind::Insert);
            lemma_found_alike(c, q1, i);
        }
    }
    assert forall|j: int| 0 <= j < c.len() implies (#[trigger] q2[j]).key == c[j].key && q2[j].values
        == c[j].values && q2[j].flag == ChangeFlag::Unchanged by {
        lemma_found_alike(c, q1, j);
    }
    assert forall|i: int| 0 <= i < c.len() implies #[trigger] write_kind(c[i], q2) == WriteKind::NoOp by {
        lemma_found_alike(c, q2, i);
    }
    assert forall|i: int| 0 <= i < q1.len() implies has_key(c, #[trigger] q1[i].key) by {
        assert(c[i].key == q1[i].key);
    }
    lemma_no_orphans(c, q1);
    assert forall|i: int| 0 <= i < q2.len() implies has_key(c, #[trigger] q2[i].key) by {
        assert(c[i].key == q2[i].key);
    }
    lemma_no_orphans(c, q2);
    let ks = write_kinds(c, q2);
    assert forall|i: int| 0 <= i < ks.len() implies #[trigger] ks[i] == WriteKind::NoOp by {
        assert(ks[i] == write_kind(c[i], q2));
    }
    lemma_all_noop(ks);
}

/// Some record of `q` has the key and the values of `r`.
pub open spec fn holds_alike(q: Seq<ChildView>, r: ChildView) -> bool {
    exists|j: int| 0 <= j < q.len() && #[trigger] q[j].key == r.key && q[j].values == r.values
}

/// Reconciling the current records against a store that holds exactly them
/// (the keys and values a first run wrote, in any order and with any flags)
/// writes no value and deletes nothing: it at most clears flags; and when no
/// stored flag is pending, it writes nothing at all.
pub proof fn lemma_converges_in_any_order(c: Seq<ChildView>, q: Seq<ChildView>)
    requires
        unique_keys(c),
        unique_keys(q),
        forall|i: int| 0 <= i < c.len() ==> holds_alike(q, #[trigger] c[i]),
        forall|j: int| 0 <= j < q.len() ==> has_key(c, #[trigger] q[j].key),
    ensures
        forall|i: int|
            0 <= i < c.len() ==> (#[trigger] write_kind(c[i], q) == WriteKind::FlagOnly
                || write_kind(c[i], q) == WriteKind::NoOp),
        orphan_keys(c, q).len() == 0,
        (forall|j: int| 0 <= j < q.len() ==> (#[trigger] q[j]).flag == ChangeFlag::Unchanged) ==> (
        forall|i: int| 0 <= i < c.len() ==> #[trigger] write_kind(c[i], q) == WriteKind::NoOp),
{
    assert forall|i: int| 0 <= i < c.len() implies (#[trigger] write_kind(c[i], q)
        == WriteKind::FlagOnly || write_kind(c[i], q) == WriteKind::NoOp) && (q[index_of(
        q,
        c[i].key,
    )].flag == ChangeFlag::Unchanged ==> write_kind(c[i], q) == WriteKind::NoOp) && 0 <= index_of(
        q,
        c[i].key,
    ) < q.len() by {
        assert(holds_alike(q, c[i]));
        let j = choose|j: int|
            0 <= j < q.len() && #[trigger] q[j].key == c[i].key && q[j].values == c[i].values;
        lemma_index_of(q, j);
    }
    lemma_no_orphans(c, q);
}

} // verus!
