//! Where a logical plan's leaf takes its data from.
use vstd::prelude::*;
use vstd::std_specs::cmp::PartialEqSpec;

use crate::table::DataType;

verus! {

/// A named, typed field of a schema.
#[derive(Clone, Debug)]
pub struct Field {
    pub name: String,
    pub dtype: DataType,
}

/// The ordered fields of a source.
#[derive(Clone, Debug)]
pub struct Schema {
    pub fields: Vec<Field>,
}

/// Whether two fields have the same name and type.
pub open spec fn same_field(a: Field, b: Field) -> bool {
    a.name@ == b.name@ && a.dtype == b.dtype
}

/// Whether two schemas have the same fields in the same order.
pub open spec fn same_schema(a: Schema, b: Schema) -> bool {
    &&& a.fields@.len() == b.fields@.len()
    &&& forall|k: int| 0 <= k < a.fields@.len() ==> same_field(#[trigger] a.fields@[k], b.fields@[k])
}

impl PartialEq for Field {
    fn eq(&self, other: &Field) -> (r: bool) {
        self.name == other.name && self.dtype == other.dtype
    }
}

impl vstd::std_specs::cmp::PartialEqSpecImpl for Field {
    open spec fn obeys_eq_spec() -> bool {
        true
    }

    open spec fn eq_spec(&self, other: &Field) -> bool {
        same_field(*self, *other)
    }
}

impl Eq for Field {}

impl PartialEq for Schema {
    fn eq(&self, other: &Schema) -> (r: bool) {
        if self.fields.len() != other.fields.len() {
            return false;
        }
        let mut i: usize = 0;
        while i < self.fields.len()
            invariant
                self.fields@.len() == other.fields@.len(),
                i <= self.fields@.len(),
                forall|k: int| 0 <= k < i ==> same_field(#[trigger] self.fields@[k], other.fields@[k]),
            decreases self.fields@.len() - i,
        {
            if !(self.fields[i] == other.fields[i]) {
                return false;
            }
            i = i + 1;
        }
        true
    }
}

impl vstd::std_specs::cmp::PartialEqSpecImpl for Schema {
    open spec fn obeys_eq_spec() -> bool {
        true
    }

    open spec fn eq_spec(&self, other: &Schema) -> bool {
        same_schema(*self, *other)
    }
}

impl Eq for Schema {}

/// How the rows of a source are spread over partitions.
#[derive(Clone, Copy, Debug, PartialEq, Eq, Structural)]
pub enum ClusteringSpec {
    Unknown { num_partitions: usize },
    Random { num_partitions: usize },
}

/// A materialized result kept in a cache. Two of them are the same source exactly
/// when their cache keys are equal, whatever their recorded sizes.
#[derive(Clone, Debug)]
pub struct InMemoryInfo {
    pub source_schema: Schema,
    pub cache_key: String,
    pub num_partitions: usize,
    pub size_bytes: usize,
    pub num_rows: usize,
    pub clustering_spec: Option<ClusteringSpec>,
}

impl InMemoryInfo {
    pub fn new(
        source_schema: Schema,
        cache_key: String,
        num_partitions: usize,
        size_bytes: usize,
        num_rows: usize,
        clustering_spec: Option<ClusteringSpec>,
    ) -> (r: Self)
        ensures
            r.cache_key == cache_key,
            r.num_partitions == num_partitions,
            r.size_bytes == size_bytes,
            r.num_rows == num_rows,
            r.clustering_spec == clustering_spec,
            r.source_schema == source_schema,
    {
        InMemoryInfo { source_schema, cache_key, num_partitions, size_bytes, num_rows, clustering_spec }
    }

    /// The key by which the source is hashed: its cache key alone.
    pub fn hash_key(&self) -> (r: &String)
        ensures
            r@ == self.cache_key@,
    {
        &self.cache_key
    }
}

impl PartialEq for InMemoryInfo {
    fn eq(&self, other: &InMemoryInfo) -> (r: bool) {
        self.cache_key == other.cache_key
    }
}

impl vstd::std_specs::cmp::PartialEqSpecImpl for InMemoryInfo {
    open spec fn obeys_eq_spec() -> bool {
        true
    }

    open spec fn eq_spec(&self, other: &InMemoryInfo) -> bool {
        self.cache_key@ == other.cache_key@
    }
}

impl Eq for InMemoryInfo {}

/// Relies on std's `Hash` for `String`: it feeds the string into the hasher and
/// returns nothing; no more is claimed of it.
pub assume_specification<H: core::hash::Hasher>[ <String as core::hash::Hash>::hash ](
    s: &String,
    state: &mut H,
);

impl core::hash::Hash for InMemoryInfo {
    fn hash<H: core::hash::Hasher>(&self, state: &mut H) {
        self.cache_key.hash(state);
    }
}


/// Two in-memory sources are equal exactly when their cache keys are, whatever
/// their schemas, partition counts, sizes and row counts; and they then hash by
/// the same key.
pub proof fn lemma_in_memory_identity(a: InMemoryInfo, b: InMemoryInfo)
    ensures
        a.eq_spec(&b) <==> a.cache_key@ == b.cache_key@,
        a.eq_spec(&b) ==> b.eq_spec(&a),
        a.eq_spec(&a),
{
}

/// Hands out placeholder ids: each id once, in increasing order with no gaps.
pub struct PlaceholderIds {
    next: usize,
    /// The ids handed out so far, in the order they were handed out.
    issued: Ghost<Seq<usize>>,
    /// The first id this allocator hands out.
    first: Ghost<nat>,
}

impl PlaceholderIds {
    /// The ids handed out so far, oldest first.
    pub closed spec fn issued(&self) -> Seq<usize> {
        self.issued@
    }

    pub closed spec fn first(&self) -> nat {
        self.first@
    }

    pub open spec fn next_id(&self) -> nat {
        self.first() + self.issued().len()
    }

    pub closed spec fn wf(&self) -> bool {
        &&& self.next as nat == self.next_id()
        &&& forall|i: int| 0 <= i < self.issued().len() ==> self.issued()[i] == self.first() + i
    }

    /// Whether another id can still be handed out.
    pub open spec fn can_allocate(&self) -> bool {
        self.next_id() < usize::MAX
    }

    pub fn new() -> (r: Self)
        ensures
            r.wf(),
            r.issued() == Seq::<usize>::empty(),
            r.first() == 0,
    {
        PlaceholderIds { next: 0, issued: Ghost(Seq::empty()), first: Ghost(0) }
    }

    /// The id that the next allocation returns.
    pub fn peek(&self) -> (r: usize)
        requires
            self.wf(),
        ensures
            r as nat == self.next_id(),
    {
        self.next
    }

    pub fn allocate(&mut self) -> (r: usize)
        requires
            old(self).wf(),
            old(self).can_allocate(),
        ensures
            final(self).wf(),
            r as nat == old(self).next_id(),
            final(self).first() == old(self).first(),
            final(self).issued() == old(self).issued().push(r),
    {
        let id = self.next;
        self.next = id + 1;
        self.issued = Ghost(self.issued@.push(id));
        id
    }
}

/// The ids an allocator has handed out are strictly increasing and leave no
/// gaps: each is one more than the one before, so no two are equal.
pub proof fn lemma_placeholder_ids_unique(ids: &PlaceholderIds)
    requires
        ids.wf(),
    ensures
        forall|i: int, j: int|
            0 <= i < j < ids.issued().len() ==> ids.issued()[i] < ids.issued()[j],
        forall|i: int| 0 <= i < ids.issued().len() - 1 ==> ids.issued()[i + 1] == #[trigger] ids.issued()[i] + 1,
        forall|i: int| 0 <= i < ids.issued().len() ==> ids.issued()[i] < ids.next_id(),
{
    reveal(PlaceholderIds::wf);
}

/// A leaf that a later planning stage replaces by exactly one subtree; its id
/// tells it apart from every other placeholder.
#[derive(Clone, Debug)]
pub struct PlaceHolderInfo {
    pub source_schema: Schema,
    pub clustering_spec: ClusteringSpec,
    pub source_id: usize,
}

impl PlaceHolderInfo {
    pub fn new(source_schema: Schema, clustering_spec: ClusteringSpec, ids: &mut PlaceholderIds) -> (r: Self)
        requires
            old(ids).wf(),
            old(ids).can_allocate(),
        ensures
            final(ids).wf(),
            r.source_id as nat == old(ids).next_id(),
            final(ids).first() == old(ids).first(),
            final(ids).issued() == old(ids).issued().push(r.source_id),
            r.source_schema == source_schema,
            r.clustering_spec == clustering_spec,
    {
        let source_id = ids.allocate();
        PlaceHolderInfo { source_schema, clustering_spec, source_id }
    }
}

impl PartialEq for PlaceHolderInfo {
    fn eq(&self, other: &PlaceHolderInfo) -> (r: bool) {
        self.source_id == other.source_id && self.clustering_spec == other.clustering_spec
            && self.source_schema == other.source_schema
    }
}

impl vstd::std_specs::cmp::PartialEqSpecImpl for PlaceHolderInfo {
    open spec fn obeys_eq_spec() -> bool {
        true
    }

    open spec fn eq_spec(&self, other: &PlaceHolderInfo) -> bool {
        &&& self.source_id == other.source_id
        &&& self.clustering_spec == other.clustering_spec
        &&& same_schema(self.source_schema, other.source_schema)
    }
}

impl Eq for PlaceHolderInfo {}

/// A scan that yields the integers `start, start + step, ...` below `end`.
#[derive(Clone, Copy, Debug, PartialEq, Eq, Structural)]
pub struct RangeScan {
    pub start: i64,
    pub end: i64,
    pub step: i64,
}

/// Whether `x` is one of the values of the range `[start, end)` stepped by `step`.
pub open spec fn in_range(start: int, end: int, step: int, x: int) -> bool {
    &&& start <= x < end
    &&& (x - start) % step == 0
}

impl RangeScan {
    pub open spec fn wf(&self) -> bool {
        self.step > 0
    }

    /// The values the scan yields, in order.
    pub fn values(&self) -> (r: Vec<i64>)
        requires
            self.wf(),
        ensures
            forall|k: int| 0 <= k < r@.len() ==> r@[k] == self.start + k * self.step,
            forall|k: int| 0 <= k < r@.len() ==> r@[k] < self.end,
            self.start + r@.len() * self.step >= self.end,
    {
        let mut out: Vec<i64> = Vec::new();
        let mut x: i64 = self.start;
        while x < self.end
            invariant
                self.wf(),
                x == self.start + out@.len() * self.step,
                forall|k: int| 0 <= k < out@.len() ==> out@[k] == self.start + k * self.step,
                forall|k: int| 0 <= k < out@.len() ==> out@[k] < self.end,
            decreases self.end as int - x as int,
        {
            out.push(x);
            assert(x + self.step == self.start + out@.len() * self.step) by (nonlinear_arith)
                requires
                    x == self.start + (out@.len() - 1) * self.step,
            ;
            let next: i128 = x as i128 + self.step as i128;
            if next >= self.end as i128 {
                return out;
            }
            x = next as i64;
        }
        out
    }
}

/// The values of a range scan are exactly the members of its range.
pub proof fn lemma_range_values(scan: RangeScan, vals: Seq<i64>, x: int)
    requires
        scan.wf(),
        forall|k: int| 0 <= k < vals.len() ==> vals[k] == scan.start + k * scan.step,
        forall|k: int| 0 <= k < vals.len() ==> vals[k] < scan.end,
        scan.start + vals.len() * scan.step >= scan.end,
    ensures
        (exists|k: int| 0 <= k < vals.len() && vals[k] == x) <==> in_range(
            scan.start as int,
            scan.end as int,
            scan.step as int,
            x,
        ),
{
    let (s, e, d) = (scan.start as int, scan.end as int, scan.step as int);
    if in_range(s, e, d, x) {
        let k = (x - s) / d;
        assert(x - s == k * d) by (nonlinear_arith)
            requires (x - s) % d == 0, d > 0, k == (x - s) / d;
        assert(0 <= k) by (nonlinear_arith)
            requires x - s >= 0, d > 0, k == (x - s) / d;
        if k >= vals.len() {
            assert(k * d >= vals.len() * d) by (nonlinear_arith)
                requires k >= vals.len(), d > 0;
            assert(false);
        }
        assert(vals[k] == x);
    }
    if exists|k: int| 0 <= k < vals.len() && vals[k] == x {
        let k = choose|k: int| 0 <= k < vals.len() && vals[k] == x;
        assert(k * d >= 0) by (nonlinear_arith)
            requires k >= 0, d > 0;
        assert((k * d) % d == 0) by (nonlinear_arith)
            requires d > 0;
        assert(x - s == k * d);
    }
}

/// A scan of physical storage.
#[derive(Clone, Copy, Debug, PartialEq, Eq, Structural)]
pub enum ScanOperator {
    Range(RangeScan),
}

/// A physical scan: two are the same source when they are equal field by field.
#[derive(Clone, Copy, Debug, PartialEq, Eq, Structural)]
pub struct PhysicalScanInfo {
    pub scan_op: ScanOperator,
}

impl PhysicalScanInfo {
    pub fn new(scan_op: ScanOperator) -> (r: Self)
        ensures
            r.scan_op == scan_op,
    {
        PhysicalScanInfo { scan_op }
    }
}

/// Where the data of a plan's leaf comes from.
#[derive(Clone, Debug)]
pub enum SourceInfo {
    InMemory(InMemoryInfo),
    Physical(PhysicalScanInfo),
    PlaceHolder(PlaceHolderInfo),
}

impl PartialEq for SourceInfo {
    fn eq(&self, other: &SourceInfo) -> (r: bool) {
        match (self, other) {
            (SourceInfo::InMemory(a), SourceInfo::InMemory(b)) => a == b,
            (SourceInfo::Physical(a), SourceInfo::Physical(b)) => a == b,
            (SourceInfo::PlaceHolder(a), SourceInfo::PlaceHolder(b)) => a == b,
            _ => false,
        }
    }
}

impl vstd::std_specs::cmp::PartialEqSpecImpl for SourceInfo {
    open spec fn obeys_eq_spec() -> bool {
        true
    }

    /// In-memory sources compare by cache key, physical scans field by field, and
    /// placeholders by id, clustering and schema.
    open spec fn eq_spec(&self, other: &SourceInfo) -> bool {
        match (self, other) {
            (SourceInfo::InMemory(a), SourceInfo::InMemory(b)) => a.cache_key@ == b.cache_key@,
            (SourceInfo::Physical(a), SourceInfo::Physical(b)) => a == b,
            (SourceInfo::PlaceHolder(a), SourceInfo::PlaceHolder(b)) => {
                &&& a.source_id == b.source_id
                &&& a.clustering_spec == b.clustering_spec
                &&& same_schema(a.source_schema, b.source_schema)
            },
            _ => false,
        }
    }
}

impl Eq for SourceInfo {}

/// Two in-memory sources are the same source exactly when their cache keys are
/// equal, whatever else they record; two placeholders are never the same source
/// when their ids differ.
pub proof fn lemma_source_identity(a: SourceInfo, b: SourceInfo)
    ensures
        a is InMemory && b is InMemory ==> (a.eq_spec(&b) <==> a->InMemory_0.cache_key@
            == b->InMemory_0.cache_key@),
        a is PlaceHolder && b is PlaceHolder && a->PlaceHolder_0.source_id
            != b->PlaceHolder_0.source_id ==> !a.eq_spec(&b),
{
}

} // verus!
