use daft_plan::plan::{LogicalPlan, LogicalPlanBuilder};
use daft_plan::source_info::{
    ClusteringSpec, PhysicalScanInfo, PlaceHolderInfo, PlaceholderIds, RangeScan, ScanOperator,
    Schema, SourceInfo,
};
use daft_plan::relation::{
    ignored_fields, to_logical_plan, ErrorContext, IgnoredField, ErrorKind, Range, RelType, Relation, RelationCommon,
    RelationTag, RequiredField, Tail,
};

fn range_rel(start: Option<i64>, end: i64, step: i64, num_partitions: Option<i32>) -> Relation {
    Relation { common: None, rel_type: Some(RelType::Range(Range { start, end, step, num_partitions })) }
}

fn tail_rel(input: Option<Relation>, limit: i32) -> Relation {
    Relation {
        common: None,
        rel_type: Some(RelType::Tail(Box::new(Tail { input: input.map(Box::new), limit }))),
    }
}

fn scan_of(plan: &LogicalPlan) -> RangeScan {
    match plan {
        LogicalPlan::Source(SourceInfo::Physical(PhysicalScanInfo { scan_op: ScanOperator::Range(r) })) => *r,
        other => panic!("not a range scan: {other:?}"),
    }
}

#[test]
fn range_step_zero_is_invalid() {
    let e = to_logical_plan(range_rel(Some(0), 10, 0, None)).unwrap_err();
    assert_eq!(e.kind, ErrorKind::InvalidStep);
    assert_eq!(e.context, vec![ErrorContext::ApplyRange]);
}

#[test]
fn range_step_negative_is_invalid() {
    let e = to_logical_plan(range_rel(Some(0), 10, -1, None)).unwrap_err();
    assert_eq!(e.kind, ErrorKind::InvalidStep);
    assert_eq!(e.context, vec![ErrorContext::ApplyRange]);
}

#[test]
fn range_zero_to_ten_covers_zero_to_nine() {
    let b = to_logical_plan(range_rel(Some(0), 10, 1, None)).unwrap();
    let scan = scan_of(&b.plan);
    assert_eq!(scan, RangeScan { start: 0, end: 10, step: 1 });
    assert_eq!(scan.values(), vec![0, 1, 2, 3, 4, 5, 6, 7, 8, 9]);
}

#[test]
fn range_without_start_starts_at_zero_and_ignores_partitions() {
    let b = to_logical_plan(range_rel(None, 7, 2, Some(8))).unwrap();
    let scan = scan_of(&b.plan);
    assert_eq!(scan, RangeScan { start: 0, end: 7, step: 2 });
    assert_eq!(scan.values(), vec![0, 2, 4, 6]);
}

#[test]
fn missing_relation_type_is_missing_field() {
    let e = to_logical_plan(Relation { common: None, rel_type: None }).unwrap_err();
    assert_eq!(e.kind, ErrorKind::MissingField(RequiredField::RelationType));
    assert!(e.context.is_empty());
}

#[test]
fn tail_without_input_is_missing_field() {
    let e = to_logical_plan(tail_rel(None, 3)).unwrap_err();
    assert_eq!(e.kind, ErrorKind::MissingField(RequiredField::TailInput));
    assert_eq!(e.context, vec![ErrorContext::ApplyTail]);
    assert_eq!(e.context[0].message(), "Failed to apply tail to logical plan");
}

#[test]
fn tail_with_input_limits_the_planned_input() {
    let b = to_logical_plan(tail_rel(Some(range_rel(Some(1), 4, 1, None)), 2)).unwrap();
    match b.plan {
        LogicalPlan::Limit { input, limit } => {
            assert_eq!(limit, 2);
            assert_eq!(scan_of(&input), RangeScan { start: 1, end: 4, step: 1 });
        }
        other => panic!("not a limit: {other:?}"),
    }
}

#[test]
fn nested_tail_errors_keep_their_context_chain() {
    let inner = tail_rel(Some(range_rel(None, 4, 0, None)), 2);
    let e = to_logical_plan(tail_rel(Some(inner), 1)).unwrap_err();
    assert_eq!(e.kind, ErrorKind::InvalidStep);
    assert_eq!(
        e.context,
        vec![ErrorContext::ApplyRange, ErrorContext::ApplyTail, ErrorContext::ApplyTail]
    );
    assert_eq!(e.context[0].message(), "Failed to apply range to logical plan");
}

#[test]
fn unsupported_relation_names_its_tag() {
    for tag in [RelationTag::Project, RelationTag::Join, RelationTag::Sql, RelationTag::Unknown] {
        let e = to_logical_plan(Relation { common: None, rel_type: Some(RelType::Other(tag)) })
            .unwrap_err();
        assert_eq!(e.kind, ErrorKind::UnsupportedOperation(tag));
        assert!(e.context.is_empty());
    }
    assert_eq!(RelationTag::Project.name(), "Project");
    assert_eq!(RelationTag::CachedLocalRelation.name(), "CachedLocalRelation");
}

#[test]
fn unsupported_relation_under_tail() {
    let inner = Relation { common: None, rel_type: Some(RelType::Other(RelationTag::Filter)) };
    let e = to_logical_plan(tail_rel(Some(inner), 1)).unwrap_err();
    assert_eq!(e.kind, ErrorKind::UnsupportedOperation(RelationTag::Filter));
    assert_eq!(e.context, vec![ErrorContext::ApplyTail]);
}

#[test]
fn metadata_is_accepted_and_ignored() {
    let mut rel = range_rel(Some(0), 3, 1, None);
    rel.common = Some(RelationCommon { source_info: "client".to_string(), plan_id: Some(4) });
    let b = to_logical_plan(rel).unwrap();
    assert_eq!(scan_of(&b.plan).values(), vec![0, 1, 2]);
}

#[test]
fn ignored_fields_are_reported_in_order() {
    let mut inner = range_rel(Some(0), 3, 1, Some(12));
    inner.common = Some(RelationCommon { source_info: "inner".to_string(), plan_id: None });
    let mut outer = tail_rel(Some(inner), 1);
    outer.common = Some(RelationCommon { source_info: "outer".to_string(), plan_id: Some(1) });
    assert_eq!(
        ignored_fields(&outer),
        vec![IgnoredField::Metadata, IgnoredField::Metadata, IgnoredField::RangeNumPartitions(12)]
    );
    assert!(ignored_fields(&range_rel(None, 1, 1, None)).is_empty());
    let b = to_logical_plan(outer).unwrap();
    assert!(matches!(b.plan, LogicalPlan::Limit { limit: 1, .. }));
}

#[test]
fn builder_roots_a_plan_at_any_source() {
    let mut ids = PlaceholderIds::new();
    let p = PlaceHolderInfo::new(
        Schema { fields: vec![] },
        ClusteringSpec::Unknown { num_partitions: 1 },
        &mut ids,
    );
    let b = LogicalPlanBuilder::from_source(SourceInfo::PlaceHolder(p)).limit(5);
    match b.plan {
        LogicalPlan::Limit { input, limit } => {
            assert_eq!(limit, 5);
            assert!(matches!(*input, LogicalPlan::Source(SourceInfo::PlaceHolder(ref q)) if q.source_id == 0));
        }
        other => panic!("not a limit: {other:?}"),
    }
}
