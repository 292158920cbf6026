//! Relation messages, and how one becomes a logical plan: required fields are
//! checked, and the kinds of relation that are not implemented are rejected.
use vstd::prelude::*;

use crate::plan::{LogicalPlan, LogicalPlanBuilder};
use crate::source_info::{PhysicalScanInfo, RangeScan, ScanOperator};

verus! {

/// Metadata that may come with a relation; it is accepted and not acted upon.
#[derive(Clone, Debug)]
pub struct RelationCommon {
    pub source_info: String,
    pub plan_id: Option<i64>,
}

/// A range of integers `[start, end)` stepped by `step`.
#[derive(Clone, Copy, Debug, PartialEq, Eq, Structural)]
pub struct Range {
    pub start: Option<i64>,
    pub end: i64,
    pub step: i64,
    /// A partitioning hint; partitions of a range are always chosen by the engine.
    pub num_partitions: Option<i32>,
}

/// The last `limit` rows of `input`.
#[derive(Debug)]
pub struct Tail {
    pub input: Option<Box<Relation>>,
    pub limit: i32,
}

/// A kind of relation that is not implemented: every kind but range and tail.
#[derive(Clone, Copy, Debug, PartialEq, Eq, Structural)]
pub enum RelationTag {
    Read,
    Project,
    Filter,
    Join,
    SetOp,
    Sort,
    Limit,
    Aggregate,
    Sql,
    LocalRelation,
    Sample,
    Offset,
    Deduplicate,
    SubqueryAlias,
    Repartition,
    ToDf,
    WithColumnsRenamed,
    ShowString,
    Drop,
    WithColumns,
    Hint,
    Unpivot,
    ToSchema,
    RepartitionByExpression,
    MapPartitions,
    CollectMetrics,
    Parse,
    GroupMap,
    CoGroupMap,
    WithWatermark,
    ApplyInPandasWithState,
    HtmlString,
    CachedLocalRelation,
    CachedRemoteRelation,
    CommonInlineUserDefinedTableFunction,
    AsOfJoin,
    FillNa,
    DropNa,
    Replace,
    Summary,
    Crosstab,
    Describe,
    Cov,
    Corr,
    ApproxQuantile,
    FreqItems,
    SampleBy,
    Catalog,
    Extension,
    Unknown,
}

impl RelationTag {
    pub open spec fn spec_name(&self) -> Seq<char> {
        match self {
            RelationTag::Read => "Read"@,
            RelationTag::Project => "Project"@,
            RelationTag::Filter => "Filter"@,
            RelationTag::Join => "Join"@,
            RelationTag::SetOp => "SetOp"@,
            RelationTag::Sort => "Sort"@,
            RelationTag::Limit => "Limit"@,
            RelationTag::Aggregate => "Aggregate"@,
            RelationTag::Sql => "Sql"@,
            RelationTag::LocalRelation => "LocalRelation"@,
            RelationTag::Sample => "Sample"@,
            RelationTag::Offset => "Offset"@,
            RelationTag::Deduplicate => "Deduplicate"@,
            RelationTag::SubqueryAlias => "SubqueryAlias"@,
            RelationTag::Repartition => "Repartition"@,
            RelationTag::ToDf => "ToDf"@,
            RelationTag::WithColumnsRenamed => "WithColumnsRenamed"@,
            RelationTag::ShowString => "ShowString"@,
            RelationTag::Drop => "Drop"@,
            RelationTag::WithColumns => "WithColumns"@,
            RelationTag::Hint => "Hint"@,
            RelationTag::Unpivot => "Unpivot"@,
            RelationTag::ToSchema => "ToSchema"@,
            RelationTag::RepartitionByExpression => "RepartitionByExpression"@,
            RelationTag::MapPartitions => "MapPartitions"@,
            RelationTag::CollectMetrics => "CollectMetrics"@,
            RelationTag::Parse => "Parse"@,
            RelationTag::GroupMap => "GroupMap"@,
            RelationTag::CoGroupMap => "CoGroupMap"@,
            RelationTag::WithWatermark => "WithWatermark"@,
            RelationTag::ApplyInPandasWithState => "ApplyInPandasWithState"@,
            RelationTag::HtmlString => "HtmlString"@,
            RelationTag::CachedLocalRelation => "CachedLocalRelation"@,
            RelationTag::CachedRemoteRelation => "CachedRemoteRelation"@,
            RelationTag::CommonInlineUserDefinedTableFunction => "CommonInlineUserDefinedTableFunction"@,
            RelationTag::AsOfJoin => "AsOfJoin"@,
            RelationTag::FillNa => "FillNa"@,
            RelationTag::DropNa => "DropNa"@,
            RelationTag::Replace => "Replace"@,
            RelationTag::Summary => "Summary"@,
            RelationTag::Crosstab => "Crosstab"@,
            RelationTag::Describe => "Describe"@,
            RelationTag::Cov => "Cov"@,
            RelationTag::Corr => "Corr"@,
            RelationTag::ApproxQuantile => "ApproxQuantile"@,
            RelationTag::FreqItems => "FreqItems"@,
            RelationTag::SampleBy => "SampleBy"@,
            RelationTag::Catalog => "Catalog"@,
            RelationTag::Extension => "Extension"@,
            RelationTag::Unknown => "Unknown"@,
        }
    }

    /// The tag's name, for messages.
    pub fn name(&self) -> (r: &'static str)
        ensures
            r@ == self.spec_name(),
    {
        match self {
            RelationTag::Read => "Read",
            RelationTag::Project => "Project",
            RelationTag::Filter => "Filter",
            RelationTag::Join => "Join",
            RelationTag::SetOp => "SetOp",
            RelationTag::Sort => "Sort",
            RelationTag::Limit => "Limit",
            RelationTag::Aggregate => "Aggregate",
            RelationTag::Sql => "Sql",
            RelationTag::LocalRelation => "LocalRelation",
            RelationTag::Sample => "Sample",
            RelationTag::Offset => "Offset",
            RelationTag::Deduplicate => "Deduplicate",
            RelationTag::SubqueryAlias => "SubqueryAlias",
            RelationTag::Repartition => "Repartition",
            RelationTag::ToDf => "ToDf",
            RelationTag::WithColumnsRenamed => "WithColumnsRenamed",
            RelationTag::ShowString => "ShowString",
            RelationTag::Drop => "Drop",
            RelationTag::WithColumns => "WithColumns",
            RelationTag::Hint => "Hint",
            RelationTag::Unpivot => "Unpivot",
            RelationTag::ToSchema => "ToSchema",
            RelationTag::RepartitionByExpression => "RepartitionByExpression",
            RelationTag::MapPartitions => "MapPartitions",
            RelationTag::CollectMetrics => "CollectMetrics",
            RelationTag::Parse => "Parse",
            RelationTag::GroupMap => "GroupMap",
            RelationTag::CoGroupMap => "CoGroupMap",
            RelationTag::WithWatermark => "WithWatermark",
            RelationTag::ApplyInPandasWithState => "ApplyInPandasWithState",
            RelationTag::HtmlString => "HtmlString",
            RelationTag::CachedLocalRelation => "CachedLocalRelation",
            RelationTag::CachedRemoteRelation => "CachedRemoteRelation",
            RelationTag::CommonInlineUserDefinedTableFunction => "CommonInlineUserDefinedTableFunction",
            RelationTag::AsOfJoin => "AsOfJoin",
            RelationTag::FillNa => "FillNa",
            RelationTag::DropNa => "DropNa",
            RelationTag::Replace => "Replace",
            RelationTag::Summary => "Summary",
            RelationTag::Crosstab => "Crosstab",
            RelationTag::Describe => "Describe",
            RelationTag::Cov => "Cov",
            RelationTag::Corr => "Corr",
            RelationTag::ApproxQuantile => "ApproxQuantile",
            RelationTag::FreqItems => "FreqItems",
            RelationTag::SampleBy => "SampleBy",
            RelationTag::Catalog => "Catalog",
            RelationTag::Extension => "Extension",
            RelationTag::Unknown => "Unknown",
        }
    }
}

/// The payload of a relation. Range and tail carry their fields; of any other
/// kind only the kind is kept, as none of them is implemented.
#[derive(Debug)]
pub enum RelType {
    Range(Range),
    Tail(Box<Tail>),
    Other(RelationTag),
}

/// A relation message: optional metadata and the relation itself.
#[derive(Debug)]
pub struct Relation {
    pub common: Option<RelationCommon>,
    pub rel_type: Option<RelType>,
}

/// A required field of a relation.
#[derive(Clone, Copy, Debug, PartialEq, Eq, Structural)]
pub enum RequiredField {
    RelationType,
    TailInput,
}

/// What went wrong, without the operations it happened in.
#[derive(Clone, Copy, Debug, PartialEq, Eq, Structural)]
pub enum ErrorKind {
    /// A required field is absent.
    MissingField(RequiredField),
    /// The step of a range is zero or negative.
    InvalidStep,
    /// A relation of a kind that is not implemented.
    UnsupportedOperation(RelationTag),
}

/// An operation that an error happened in.
#[derive(Clone, Copy, Debug, PartialEq, Eq, Structural)]
pub enum ErrorContext {
    ApplyRange,
    ApplyTail,
}

impl ErrorContext {
    pub open spec fn spec_message(&self) -> Seq<char> {
        match self {
            ErrorContext::ApplyRange => "Failed to apply range to logical plan"@,
            ErrorContext::ApplyTail => "Failed to apply tail to logical plan"@,
        }
    }

    /// The operation's description, for messages.
    pub fn message(&self) -> (r: &'static str)
        ensures
            r@ == self.spec_message(),
    {
        match self {
            ErrorContext::ApplyRange => "Failed to apply range to logical plan",
            ErrorContext::ApplyTail => "Failed to apply tail to logical plan",
        }
    }
}

/// A relation that gives no plan: what went wrong, and the operations it happened in,
/// innermost first.
#[derive(Clone, Debug, PartialEq)]
pub struct ConnectError {
    pub kind: ErrorKind,
    pub context: Vec<ErrorContext>,
}

/// What a relation gives: a plan, or the kind of error with its context.
pub type PlanResult = Result<LogicalPlan, (ErrorKind, Seq<ErrorContext>)>;

impl ConnectError {
    pub open spec fn view(&self) -> (ErrorKind, Seq<ErrorContext>) {
        (self.kind, self.context@)
    }
}

/// `r`, with `ctx` added to the context of an error.
pub open spec fn with_context(r: PlanResult, ctx: ErrorContext) -> PlanResult {
    match r {
        Ok(p) => Ok(p),
        Err((k, c)) => Err((k, c.push(ctx))),
    }
}

/// The plan of a range: a scan of its values, or an error for a step that is not
/// positive. The partitioning hint plays no part.
pub open spec fn spec_range(range: Range) -> PlanResult {
    if range.step <= 0 {
        Err((ErrorKind::InvalidStep, Seq::empty()))
    } else {
        Ok(
            LogicalPlan::Source(
                crate::source_info::SourceInfo::Physical(
                    PhysicalScanInfo {
                        scan_op: ScanOperator::Range(
                            RangeScan {
                                start: match range.start {
                                    Some(s) => s,
                                    None => 0,
                                },
                                end: range.end,
                                step: range.step,
                            },
                        ),
                    },
                ),
            ),
        )
    }
}

/// The plan that a relation stands for.
pub open spec fn spec_to_plan(relation: Relation) -> PlanResult
    decreases relation,
{
    match relation.rel_type {
        None => Err((ErrorKind::MissingField(RequiredField::RelationType), Seq::empty())),
        Some(RelType::Range(r)) => with_context(spec_range(r), ErrorContext::ApplyRange),
        Some(RelType::Tail(t)) => with_context(
            match t.input {
                None => Err((ErrorKind::MissingField(RequiredField::TailInput), Seq::empty())),
                Some(input) => match spec_to_plan(*input) {
                    Ok(p) => Ok(LogicalPlan::Limit { input: Box::new(p), limit: t.limit as i64 }),
                    Err(e) => Err(e),
                },
            },
            ErrorContext::ApplyTail,
        ),
        Some(RelType::Other(tag)) => Err((ErrorKind::UnsupportedOperation(tag), Seq::empty())),
    }
}

fn add_context(r: Result<LogicalPlanBuilder, ConnectError>, ctx: ErrorContext) -> (out: Result<
    LogicalPlanBuilder,
    ConnectError,
>)
    ensures
        out.is_ok() == r.is_ok(),
        r.is_ok() ==> out.unwrap().plan == r.unwrap().plan,
        r.is_err() ==> out.unwrap_err()@ == (r.unwrap_err().kind, r.unwrap_err().context@.push(ctx)),
{
    match r {
        Ok(p) => Ok(p),
        Err(mut e) => {
            e.context.push(ctx);
            Err(e)
        },
    }
}

/// The logical plan that a relation stands for.
pub fn to_logical_plan(relation: Relation) -> (r: Result<LogicalPlanBuilder, ConnectError>)
    ensures
        match (r, spec_to_plan(relation)) {
            (Ok(b), Ok(p)) => b.plan == p,
            (Err(e), Err(s)) => e@ == s,
            _ => false,
        },
    decreases relation,
{
    let rel_type = match relation.rel_type {
        Some(t) => t,
        None => {
            return Err(
                ConnectError {
                    kind: ErrorKind::MissingField(RequiredField::RelationType),
                    context: Vec::new(),
                },
            );
        },
    };
    match rel_type {
        RelType::Range(x) => add_context(range(x), ErrorContext::ApplyRange),
        RelType::Tail(x) => add_context(tail(*x), ErrorContext::ApplyTail),
        RelType::Other(tag) => Err(
            ConnectError { kind: ErrorKind::UnsupportedOperation(tag), context: Vec::new() },
        ),
    }
}

fn tail(x: Tail) -> (r: Result<LogicalPlanBuilder, ConnectError>)
    ensures
        match (
            r,
            match x.input {
                None => Err((ErrorKind::MissingField(RequiredField::TailInput), Seq::empty())),
                Some(input) => match spec_to_plan(*input) {
                    Ok(p) => Ok(LogicalPlan::Limit { input: Box::new(p), limit: x.limit as i64 }),
                    Err(e) => Err(e),
                },
            },
        ) {
            (Ok(b), Ok(p)) => b.plan == p,
            (Err(e), Err(s)) => e@ == s,
            _ => false,
        },
    decreases x,
{
    let Tail { input, limit } = x;
    let input = match input {
        Some(i) => i,
        None => {
            return Err(
                ConnectError {
                    kind: ErrorKind::MissingField(RequiredField::TailInput),
                    context: Vec::new(),
                },
            );
        },
    };
    let plan = to_logical_plan(*input)?;
    Ok(plan.limit(limit as i64))
}

fn range(x: Range) -> (r: Result<LogicalPlanBuilder, ConnectError>)
    ensures
        match (r, spec_range(x)) {
            (Ok(b), Ok(p)) => b.plan == p,
            (Err(e), Err(s)) => e@ == s,
            _ => false,
        },
{
    let Range { start, end, step, num_partitions: _ } = x;
    let start = match start {
        Some(s) => s,
        None => 0,
    };
    if step <= 0 {
        return Err(ConnectError { kind: ErrorKind::InvalidStep, context: Vec::new() });
    }
    let scan = PhysicalScanInfo::new(ScanOperator::Range(RangeScan { start, end, step }));
    Ok(LogicalPlanBuilder::table_scan(scan))
}


/// A part of a relation that is accepted and not acted upon. Planning leaves
/// these out; a caller logs them as warnings.
#[derive(Clone, Copy, Debug, PartialEq, Eq, Structural)]
pub enum IgnoredField {
    /// The metadata of a relation.
    Metadata,
    /// The partitioning hint of a range, with its value.
    RangeNumPartitions(i32),
}

/// The ignored parts of a relation in the order planning meets them: a
/// relation's metadata, then what its payload ignores.
pub open spec fn spec_ignored(relation: Relation) -> Seq<IgnoredField>
    decreases relation,
{
    let own = if relation.common is Some {
        seq![IgnoredField::Metadata]
    } else {
        Seq::empty()
    };
    own + match relation.rel_type {
        Some(RelType::Range(r)) => match r.num_partitions {
            Some(n) => seq![IgnoredField::RangeNumPartitions(n)],
            None => Seq::empty(),
        },
        Some(RelType::Tail(t)) => match t.input {
            Some(input) => spec_ignored(*input),
            None => Seq::empty(),
        },
        _ => Seq::empty(),
    }
}

/// The ignored parts of a relation, for the caller to log.
pub fn ignored_fields(relation: &Relation) -> (r: Vec<IgnoredField>)
    ensures
        r@ == spec_ignored(*relation),
    decreases relation,
{
    let mut out: Vec<IgnoredField> = Vec::new();
    if relation.common.is_some() {
        out.push(IgnoredField::Metadata);
    }
    let ghost own = out@;
    let mut rest: Vec<IgnoredField> = match &relation.rel_type {
        Some(RelType::Range(r)) => match r.num_partitions {
            Some(n) => {
                let mut v: Vec<IgnoredField> = Vec::new();
                v.push(IgnoredField::RangeNumPartitions(n));
                v
            },
            None => Vec::new(),
        },
        Some(RelType::Tail(t)) => match &t.input {
            Some(input) => ignored_fields(input),
            None => Vec::new(),
        },
        _ => Vec::new(),
    };
    let ghost tail_part = rest@;
    out.append(&mut rest);
    assert(out@ =~= own + tail_part);
    proof {
        if relation.common is Some {
            assert(own =~= seq![IgnoredField::Metadata]);
        } else {
            assert(own =~= Seq::<IgnoredField>::empty());
        }
        match relation.rel_type {
            Some(RelType::Range(r)) => {
                if r.num_partitions is Some {
                    assert(tail_part =~= seq![IgnoredField::RangeNumPartitions(r.num_partitions.unwrap())]);
                }
            },
            _ => {},
        }
    }
    out
}

/// A relation of any kind other than range and tail fails as an unsupported
/// operation that names its kind.
pub proof fn lemma_unsupported_relation(common: Option<RelationCommon>, tag: RelationTag)
    ensures
        spec_to_plan(Relation { common, rel_type: Some(RelType::Other(tag)) }) == Err::<
            LogicalPlan,
            (ErrorKind, Seq<ErrorContext>),
        >((ErrorKind::UnsupportedOperation(tag), Seq::empty())),
{
}

/// A range whose step is not positive fails with the invalid-step error; one whose
/// step is positive becomes a scan of `[start, end)` stepped by `step`, with a
/// missing start read as zero.
pub proof fn lemma_range_validation(range: Range)
    ensures
        range.step <= 0 ==> spec_to_plan(
            Relation { common: None, rel_type: Some(RelType::Range(range)) },
        ) == Err::<LogicalPlan, (ErrorKind, Seq<ErrorContext>)>(
            (ErrorKind::InvalidStep, seq![ErrorContext::ApplyRange]),
        ),
        range.step > 0 ==> spec_to_plan(
            Relation { common: None, rel_type: Some(RelType::Range(range)) },
        ) == Ok::<LogicalPlan, (ErrorKind, Seq<ErrorContext>)>(
            LogicalPlan::Source(
                crate::source_info::SourceInfo::Physical(
                    PhysicalScanInfo {
                        scan_op: ScanOperator::Range(
                            RangeScan {
                                start: if range.start is Some {
                                    range.start.unwrap()
                                } else {
                                    0
                                },
                                end: range.end,
                                step: range.step,
                            },
                        ),
                    },
                ),
            ),
        ),
{
    assert(Seq::<ErrorContext>::empty().push(ErrorContext::ApplyRange) =~= seq![
        ErrorContext::ApplyRange,
    ]);
}

/// Metadata plays no part in the plan of a relation.
pub proof fn lemma_metadata_ignored(relation: Relation, common: Option<RelationCommon>)
    ensures
        spec_to_plan(Relation { common, rel_type: relation.rel_type }) == spec_to_plan(
            relation,
        ),
{
}

/// A tail without input fails with the missing-field error. A tail with input
/// plans the input first: the limit is put over the input's plan, and an
/// error of the input is passed on with the tail added to its context.
pub proof fn lemma_tail(common: Option<RelationCommon>, t: Tail)
    ensures
        t.input is None ==> spec_to_plan(
            Relation { common, rel_type: Some(RelType::Tail(Box::new(t))) },
        ) == Err::<LogicalPlan, (ErrorKind, Seq<ErrorContext>)>(
            (ErrorKind::MissingField(RequiredField::TailInput), seq![ErrorContext::ApplyTail]),
        ),
        t.input is Some ==> spec_to_plan(
            Relation { common, rel_type: Some(RelType::Tail(Box::new(t))) },
        ) == match spec_to_plan(*t.input.unwrap()) {
            Ok(p) => Ok(LogicalPlan::Limit { input: Box::new(p), limit: t.limit as i64 }),
            Err((k, c)) => Err((k, c.push(ErrorContext::ApplyTail))),
        },
{
    assert(Seq::<ErrorContext>::empty().push(ErrorContext::ApplyTail) =~= seq![
        ErrorContext::ApplyTail,
    ]);
}

} // verus!
