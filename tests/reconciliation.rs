use ofacxmlparser::aggregate::{
    deactivate_absent, decide_aggregate, LinkKind, fold_outcome, reconcile_aggregate, ActiveState, AggregateRow, AggregateState,
    AggregateStatus, CategoryRecords,
};
use ofacxmlparser::reconcile::{plan_category, plan_standalone, ChangeFlag, ChildRecord, OfacEntityFinalOp, WriteKind};

fn rec(key: i32, values: &[&str], flag: ChangeFlag) -> ChildRecord {
    ChildRecord { key, values: values.iter().map(|v| v.to_string()).collect(), flag }
}

fn root(key: i32, fields: &[&str], flag: ChangeFlag, active: ActiveState) -> AggregateRow {
    AggregateRow {
        external_key: key,
        surrogate_key: 900 + key,
        flag,
        active,
        fields: fields.iter().map(|v| v.to_string()).collect(),
    }
}

fn state_after(current: &[ChildRecord], persisted: &[ChildRecord]) -> Vec<ChildRecord> {
    let plan = plan_category(&current.to_vec(), &persisted.to_vec(), 42);
    plan.actions.into_iter().map(|a| a.record).collect()
}

#[test]
fn new_record_is_inserted_pending() {
    let plan = plan_category(&vec![rec(1, &["A"], ChangeFlag::Unchanged)], &vec![], 42);
    assert_eq!(plan.actions.len(), 1);
    assert_eq!(plan.actions[0].kind, WriteKind::Insert);
    assert_eq!(plan.actions[0].record, rec(1, &["A"], ChangeFlag::Pending));
    assert!(plan.orphans.is_empty());
    assert_eq!(plan.outcome, OfacEntityFinalOp::Insert);
}

#[test]
fn pending_row_seen_alike_is_cleared() {
    let plan = plan_category(&vec![rec(1, &["A"], ChangeFlag::Unchanged)], &vec![rec(1, &["A"], ChangeFlag::Pending)], 42);
    assert_eq!(plan.actions[0].kind, WriteKind::FlagOnly);
    assert_eq!(plan.actions[0].record.flag, ChangeFlag::Unchanged);
    assert_eq!(plan.outcome, OfacEntityFinalOp::UpdateFlagOnly);
}

#[test]
fn unchanged_row_seen_changed_becomes_pending() {
    let plan = plan_category(&vec![rec(1, &["B"], ChangeFlag::Unchanged)], &vec![rec(1, &["A"], ChangeFlag::Unchanged)], 42);
    assert_eq!(plan.actions[0].kind, WriteKind::Update);
    assert_eq!(plan.actions[0].record, rec(1, &["B"], ChangeFlag::Pending));
    assert_eq!(plan.outcome, OfacEntityFinalOp::Update);
}

#[test]
fn unchanged_row_seen_alike_is_left() {
    let plan = plan_category(&vec![rec(1, &["A"], ChangeFlag::Pending)], &vec![rec(1, &["A"], ChangeFlag::Unchanged)], 42);
    assert_eq!(plan.actions[0].kind, WriteKind::NoOp);
    assert_eq!(plan.outcome, OfacEntityFinalOp::Nothing);
}

#[test]
fn orphans_are_listed_once_in_stored_order() {
    let current = vec![rec(2, &["B"], ChangeFlag::Unchanged)];
    let persisted = vec![
        rec(3, &["C"], ChangeFlag::Unchanged),
        rec(2, &["B"], ChangeFlag::Unchanged),
        rec(1, &["A"], ChangeFlag::Pending),
    ];
    let plan = plan_category(&current, &persisted, 42);
    assert_eq!(plan.orphans, vec![3, 1]);
    assert_eq!(plan.actions[0].kind, WriteKind::NoOp);
    assert_eq!(plan.outcome, OfacEntityFinalOp::Nothing);
}

#[test]
fn first_writing_record_decides_outcome() {
    let current = vec![
        rec(1, &["A"], ChangeFlag::Unchanged),
        rec(2, &["B2"], ChangeFlag::Unchanged),
        rec(3, &["C"], ChangeFlag::Unchanged),
    ];
    let persisted = vec![rec(1, &["A"], ChangeFlag::Unchanged), rec(2, &["B"], ChangeFlag::Unchanged)];
    let plan = plan_category(&current, &persisted, 42);
    let kinds: Vec<WriteKind> = plan.actions.iter().map(|a| a.kind).collect();
    assert_eq!(kinds, vec![WriteKind::NoOp, WriteKind::Update, WriteKind::Insert]);
    assert_eq!(plan.outcome, OfacEntityFinalOp::Update);
}

#[test]
fn second_run_writes_no_value_and_third_writes_nothing() {
    let current = vec![rec(1, &["A"], ChangeFlag::Unchanged), rec(2, &["B"], ChangeFlag::Unchanged)];
    let persisted = vec![rec(2, &["old"], ChangeFlag::Unchanged), rec(7, &["gone"], ChangeFlag::Unchanged)];
    let after_first = state_after(&current, &persisted);
    let second = plan_category(&current, &after_first, 42);
    assert!(second.orphans.is_empty());
    assert!(second.actions.iter().all(|a| a.kind == WriteKind::FlagOnly || a.kind == WriteKind::NoOp));
    let after_second: Vec<ChildRecord> = second.actions.into_iter().map(|a| a.record).collect();
    let third = plan_category(&current, &after_second, 42);
    assert!(third.actions.iter().all(|a| a.kind == WriteKind::NoOp));
    assert!(third.orphans.is_empty());
    assert_eq!(third.outcome, OfacEntityFinalOp::Nothing);
}

#[test]
fn changed_address_and_unchanged_phone() {
    let current = root(42, &["ACME", "ENTITY"], ChangeFlag::Unchanged, ActiveState::Active);
    let stored = root(42, &["ACME", "ENTITY"], ChangeFlag::Unchanged, ActiveState::Active);
    let addresses = CategoryRecords {
        current: vec![rec(10, &["1 MAIN ST", "PARIS"], ChangeFlag::Unchanged)],
        persisted: vec![rec(10, &["1 MAIN ST", "LYON"], ChangeFlag::Unchanged)], link: LinkKind::Surrogate };
    let phones = CategoryRecords {
        current: vec![rec(20, &["+33 1 00 00 00 00"], ChangeFlag::Unchanged)],
        persisted: vec![rec(20, &["+33 1 00 00 00 00"], ChangeFlag::Unchanged)], link: LinkKind::External };
    let out = reconcile_aggregate(&current, Some(&stored), &vec![addresses, phones]);
    assert_eq!(out.decision.row.flag, ChangeFlag::Pending);
    assert!(out.force_pending);
    assert_eq!(out.plans[0].actions[0].kind, WriteKind::Update);
    assert_eq!(out.plans[0].actions[0].record, rec(10, &["1 MAIN ST", "PARIS"], ChangeFlag::Pending));
    assert_eq!(out.plans[1].actions[0].kind, WriteKind::NoOp);
    assert_eq!(out.outcome, OfacEntityFinalOp::Update);
    assert_eq!(out.plans[0].link_key, 942);
    assert_eq!(out.plans[1].link_key, 42);
}

#[test]
fn changed_root_and_address_is_modified() {
    let current = root(42, &["ACME LTD", "ENTITY"], ChangeFlag::Unchanged, ActiveState::Active);
    let stored = root(42, &["ACME", "ENTITY"], ChangeFlag::Unchanged, ActiveState::Active);
    let addresses = CategoryRecords {
        current: vec![rec(10, &["1 MAIN ST", "PARIS"], ChangeFlag::Unchanged)],
        persisted: vec![rec(10, &["1 MAIN ST", "LYON"], ChangeFlag::Unchanged)], link: LinkKind::External };
    let phones = CategoryRecords {
        current: vec![rec(20, &["+33"], ChangeFlag::Unchanged)],
        persisted: vec![rec(20, &["+33"], ChangeFlag::Unchanged)], link: LinkKind::External };
    let out = reconcile_aggregate(&current, Some(&stored), &vec![addresses, phones]);
    assert_eq!(out.decision.state, AggregateState::Modified);
    assert_eq!(out.decision.row.flag, ChangeFlag::Pending);
    assert_eq!(out.decision.row.surrogate_key, 942);
    assert!(!out.force_pending);
    assert_eq!(out.plans[0].actions[0].record.flag, ChangeFlag::Pending);
    assert_eq!(out.plans[1].actions[0].kind, WriteKind::NoOp);
}

#[test]
fn new_aggregate_inserts_everything() {
    let current = root(5, &["X"], ChangeFlag::Unchanged, ActiveState::Active);
    let cats = CategoryRecords { current: vec![rec(1, &["A"], ChangeFlag::Unchanged)], persisted: vec![], link: LinkKind::External };
    let out = reconcile_aggregate(&current, None, &vec![cats]);
    assert_eq!(out.decision.state, AggregateState::New);
    assert_eq!(out.decision.row.flag, ChangeFlag::Pending);
    assert_eq!(out.plans[0].actions[0].kind, WriteKind::Insert);
    assert_eq!(out.outcome, OfacEntityFinalOp::Insert);
}

#[test]
fn pending_root_seen_alike_is_cleared() {
    let current = root(5, &["X"], ChangeFlag::Unchanged, ActiveState::Active);
    let stored = root(5, &["X"], ChangeFlag::Pending, ActiveState::Active);
    let d = decide_aggregate(&current, Some(&stored));
    assert_eq!(d.state, AggregateState::FlagOnly);
    assert_eq!(d.row.flag, ChangeFlag::Unchanged);
}

#[test]
fn stored_inactive_entry_present_again_is_reconciled() {
    let current = root(5, &["X"], ChangeFlag::Unchanged, ActiveState::Active);
    let stored = root(5, &["X"], ChangeFlag::Unchanged, ActiveState::Inactive);
    let addresses = CategoryRecords {
        current: vec![rec(10, &["1 MAIN ST", "PARIS"], ChangeFlag::Unchanged)],
        persisted: vec![rec(10, &["1 MAIN ST", "LYON"], ChangeFlag::Unchanged)], link: LinkKind::External };
    let phones = CategoryRecords { current: vec![rec(20, &["+33"], ChangeFlag::Unchanged)], persisted: vec![rec(20, &["+33"], ChangeFlag::Unchanged)], link: LinkKind::External };
    let out = reconcile_aggregate(&current, Some(&stored), &vec![addresses, phones]);
    assert_eq!(out.decision.state, AggregateState::Modified);
    assert_eq!(out.decision.row.active, ActiveState::Active);
    assert_eq!(out.decision.row.flag, ChangeFlag::Pending);
    assert_eq!(out.plans.len(), 2);
    assert_eq!(out.plans[0].actions[0].kind, WriteKind::Update);
    assert_eq!(out.plans[0].actions[0].record, rec(10, &["1 MAIN ST", "PARIS"], ChangeFlag::Pending));
    assert_eq!(out.plans[1].actions[0].kind, WriteKind::NoOp);
    assert_eq!(out.outcome, OfacEntityFinalOp::Update);
}

#[test]
fn standalone_records_are_never_deleted() {
    let current = vec![rec(1, &["A"], ChangeFlag::Unchanged), rec(2, &["B2"], ChangeFlag::Unchanged), rec(3, &["C"], ChangeFlag::Unchanged)];
    let persisted = vec![rec(1, &["A"], ChangeFlag::Pending), rec(2, &["B"], ChangeFlag::Unchanged), rec(9, &["Z"], ChangeFlag::Unchanged)];
    let actions = plan_standalone(&current, &persisted);
    let kinds: Vec<WriteKind> = actions.iter().map(|a| a.kind).collect();
    assert_eq!(kinds, vec![WriteKind::NoOp, WriteKind::Update, WriteKind::Insert]);
    assert_eq!(actions[0].record, rec(1, &["A"], ChangeFlag::Pending));
    assert_eq!(actions[1].record, rec(2, &["B2"], ChangeFlag::Pending));
    assert_eq!(actions[2].record, rec(3, &["C"], ChangeFlag::Pending));
}

#[test]
fn second_aggregate_run_writes_no_value() {
    let current = root(42, &["ACME"], ChangeFlag::Unchanged, ActiveState::Active);
    let stored = root(42, &["OLD"], ChangeFlag::Unchanged, ActiveState::Active);
    let cats = vec![CategoryRecords { current: vec![rec(10, &["A"], ChangeFlag::Unchanged)], persisted: vec![rec(11, &["B"], ChangeFlag::Unchanged)], link: LinkKind::External }];
    let first = reconcile_aggregate(&current, Some(&stored), &cats);
    let after: Vec<ChildRecord> = first.plans[0].actions.iter().map(|a| a.record.clone()).collect();
    let again = vec![CategoryRecords { current: cats[0].current.clone(), persisted: after, link: LinkKind::External }];
    let second = reconcile_aggregate(&current, Some(&first.decision.row), &again);
    assert_eq!(second.decision.state, AggregateState::FlagOnly);
    assert!(second.plans[0].actions.iter().all(|a| a.kind == WriteKind::FlagOnly || a.kind == WriteKind::NoOp));
    assert!(second.plans[0].orphans.is_empty());
}

#[test]
fn absent_active_aggregate_is_deactivated() {
    let mut rows = vec![
        AggregateStatus { external_key: 1, flag: ChangeFlag::Pending, active: ActiveState::Active },
        AggregateStatus { external_key: 2, flag: ChangeFlag::Pending, active: ActiveState::Active },
        AggregateStatus { external_key: 3, flag: ChangeFlag::Pending, active: ActiveState::Inactive },
    ];
    let keys = deactivate_absent(&mut rows, &vec![2]);
    assert_eq!(keys, vec![1]);
    assert_eq!(rows[0], AggregateStatus { external_key: 1, flag: ChangeFlag::Unchanged, active: ActiveState::Inactive });
    assert_eq!(rows[1], AggregateStatus { external_key: 2, flag: ChangeFlag::Pending, active: ActiveState::Active });
    assert_eq!(rows[2], AggregateStatus { external_key: 3, flag: ChangeFlag::Pending, active: ActiveState::Inactive });
}

#[test]
fn outcome_folding_keeps_first() {
    assert_eq!(fold_outcome(OfacEntityFinalOp::Nothing, OfacEntityFinalOp::Update), OfacEntityFinalOp::Update);
    assert_eq!(fold_outcome(OfacEntityFinalOp::Insert, OfacEntityFinalOp::Update), OfacEntityFinalOp::Insert);
    assert_eq!(fold_outcome(OfacEntityFinalOp::Nothing, OfacEntityFinalOp::Nothing), OfacEntityFinalOp::Nothing);
}
