//! Logical plans, built up one operation at a time from a source leaf.
use vstd::prelude::*;

use crate::source_info::{PhysicalScanInfo, SourceInfo};

verus! {

/// A tree of relational operations.
#[derive(Debug, PartialEq, Eq)]
pub enum LogicalPlan {
    Source(SourceInfo),
    /// Keeps at most `limit` rows of `input`.
    Limit { input: Box<LogicalPlan>, limit: i64 },
}

/// An immutable handle on a logical plan; each operation returns a new builder.
#[derive(Debug, PartialEq, Eq)]
pub struct LogicalPlanBuilder {
    pub plan: LogicalPlan,
}

impl LogicalPlanBuilder {
    /// A plan that scans physical storage.
    pub fn table_scan(scan: PhysicalScanInfo) -> (r: Self)
        ensures
            r.plan == LogicalPlan::Source(SourceInfo::Physical(scan)),
    {
        LogicalPlanBuilder { plan: LogicalPlan::Source(SourceInfo::Physical(scan)) }
    }

    /// A plan whose leaf is the given source.
    pub fn from_source(source: SourceInfo) -> (r: Self)
        ensures
            r.plan == LogicalPlan::Source(source),
    {
        LogicalPlanBuilder { plan: LogicalPlan::Source(source) }
    }

    /// This plan, keeping at most `limit` rows.
    pub fn limit(self, limit: i64) -> (r: Self)
        ensures
            r.plan == (LogicalPlan::Limit { input: Box::new(self.plan), limit }),
    {
        LogicalPlanBuilder { plan: LogicalPlan::Limit { input: Box::new(self.plan), limit } }
    }
}

} // verus!
