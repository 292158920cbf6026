//! Columnar batches: named, typed columns of equal length.
use vstd::prelude::*;

verus! {

/// The type of a column.
#[derive(Clone, Copy, Debug, PartialEq, Eq, Structural)]
pub enum DataType {
    Null,
    Boolean,
    Int64,
    Utf8,
}

/// Errors of the columnar operations.
#[derive(Clone, Debug, PartialEq)]
pub enum DaftError {
    /// An expression names a column that the table does not have.
    ColumnNotFound,
    /// An expression applies an operation to values of the wrong type, or a
    /// column holds a value of another type than its own.
    TypeMismatch,
    /// Two tables, or the columns of one, do not have the same number of rows.
    RowCountMismatch,
    /// A table was asked for with no columns at all.
    EmptyColumns,
    /// An encoder or another collaborator failed, with its message.
    External(String),
}

/// A single cell.
#[derive(Clone, Debug, PartialEq)]
pub enum Value {
    Null,
    Boolean(bool),
    Int64(i64),
    Utf8(String),
}

/// A cell, as a mathematical value.
pub enum ValueView {
    Null,
    Boolean(bool),
    Int64(i64),
    Utf8(Seq<char>),
}

/// Whether a value may stand in a column of type `d`; null may stand in any.
pub open spec fn fits(v: ValueView, d: DataType) -> bool {
    match v {
        ValueView::Null => true,
        ValueView::Boolean(_) => d == DataType::Boolean,
        ValueView::Int64(_) => d == DataType::Int64,
        ValueView::Utf8(_) => d == DataType::Utf8,
    }
}

/// The type of a value taken on its own.
pub open spec fn type_of_value(v: ValueView) -> DataType {
    match v {
        ValueView::Null => DataType::Null,
        ValueView::Boolean(_) => DataType::Boolean,
        ValueView::Int64(_) => DataType::Int64,
        ValueView::Utf8(_) => DataType::Utf8,
    }
}

impl Value {
    pub open spec fn view(&self) -> ValueView {
        match self {
            Value::Null => ValueView::Null,
            Value::Boolean(b) => ValueView::Boolean(*b),
            Value::Int64(i) => ValueView::Int64(*i),
            Value::Utf8(s) => ValueView::Utf8(s@),
        }
    }

    /// A copy of the value.
    pub fn duplicate(&self) -> (r: Value)
        ensures
            r@ == self@,
    {
        match self {
            Value::Null => Value::Null,
            Value::Boolean(b) => Value::Boolean(*b),
            Value::Int64(i) => Value::Int64(*i),
            Value::Utf8(s) => Value::Utf8(s.clone()),
        }
    }

    /// Whether the two values are equal.
    pub fn equals(&self, other: &Value) -> (r: bool)
        ensures
            r == (self@ == other@),
    {
        match (self, other) {
            (Value::Null, Value::Null) => true,
            (Value::Boolean(a), Value::Boolean(b)) => *a == *b,
            (Value::Int64(a), Value::Int64(b)) => *a == *b,
            (Value::Utf8(a), Value::Utf8(b)) => *a == *b,
            _ => false,
        }
    }

    /// The type of the value taken on its own.
    pub fn data_type(&self) -> (r: DataType)
        ensures
            r == type_of_value(self@),
    {
        match self {
            Value::Null => DataType::Null,
            Value::Boolean(_) => DataType::Boolean,
            Value::Int64(_) => DataType::Int64,
            Value::Utf8(_) => DataType::Utf8,
        }
    }
}

/// The values of `s` at the positions where `mask` is true, in order.
pub open spec fn filter_seq<A>(s: Seq<A>, mask: Seq<bool>) -> Seq<A>
    decreases s.len(),
{
    if s.len() == 0 || mask.len() == 0 {
        Seq::empty()
    } else {
        let prev = filter_seq(s.drop_last(), mask.drop_last());
        if mask.last() {
            prev.push(s.last())
        } else {
            prev
        }
    }
}

/// The number of positions where `mask` is true.
pub open spec fn count_true(mask: Seq<bool>) -> nat
    decreases mask.len(),
{
    if mask.len() == 0 {
        0
    } else {
        count_true(mask.drop_last()) + if mask.last() {
            1nat
        } else {
            0nat
        }
    }
}

pub proof fn lemma_filter_seq_len<A>(s: Seq<A>, mask: Seq<bool>)
    requires
        s.len() == mask.len(),
    ensures
        filter_seq(s, mask).len() == count_true(mask),
    decreases s.len(),
{
    if s.len() > 0 {
        lemma_filter_seq_len(s.drop_last(), mask.drop_last());
    }
}

pub proof fn lemma_count_true_le(mask: Seq<bool>)
    ensures
        count_true(mask) <= mask.len(),
    decreases mask.len(),
{
    if mask.len() > 0 {
        lemma_count_true_le(mask.drop_last());
    }
}

/// Every value that filtering keeps comes from the input.
pub proof fn lemma_filter_seq_from<A>(s: Seq<A>, mask: Seq<bool>, p: spec_fn(A) -> bool)
    requires
        forall|i: int| 0 <= i < s.len() ==> p(#[trigger] s[i]),
    ensures
        forall|j: int| 0 <= j < filter_seq(s, mask).len() ==> p(#[trigger] filter_seq(s, mask)[j]),
    decreases s.len(),
{
    if s.len() > 0 && mask.len() > 0 {
        assert forall|i: int| 0 <= i < s.drop_last().len() implies p(#[trigger] s.drop_last()[i]) by {
            assert(s.drop_last()[i] == s[i]);
        }
        lemma_filter_seq_from(s.drop_last(), mask.drop_last(), p);
        let prev = filter_seq(s.drop_last(), mask.drop_last());
        if mask.last() {
            assert forall|j: int| 0 <= j < prev.push(s.last()).len() implies p(
                #[trigger] prev.push(s.last())[j],
            ) by {
                if j < prev.len() {
                    assert(prev.push(s.last())[j] == prev[j]);
                } else {
                    assert(p(s[s.len() - 1]));
                }
            }
        }
    }
}

/// Filtering with a mask that is true everywhere keeps the whole sequence.
pub proof fn lemma_filter_seq_all<A>(s: Seq<A>, mask: Seq<bool>)
    requires
        s.len() == mask.len(),
        forall|i: int| 0 <= i < mask.len() ==> mask[i],
    ensures
        filter_seq(s, mask) == s,
    decreases s.len(),
{
    if s.len() > 0 {
        lemma_filter_seq_all(s.drop_last(), mask.drop_last());
        assert(s.drop_last().push(s.last()) =~= s);
    }
}

/// A column, as a mathematical value.
pub struct ColumnView {
    pub name: Seq<char>,
    pub dtype: DataType,
    pub values: Seq<ValueView>,
}

impl ColumnView {
    /// Whether the column has `n` rows, each of its type.
    pub open spec fn wf(&self, n: nat) -> bool {
        &&& self.values.len() == n
        &&& forall|i: int| 0 <= i < self.values.len() ==> fits(#[trigger] self.values[i], self.dtype)
    }
}

/// A named column of values of one type.
#[derive(Clone, Debug, PartialEq)]
pub struct Column {
    pub name: String,
    pub dtype: DataType,
    pub values: Vec<Value>,
}

pub open spec fn view_values(vs: Seq<Value>) -> Seq<ValueView> {
    vs.map_values(|v: Value| v@)
}

impl Column {
    pub open spec fn view(&self) -> ColumnView {
        ColumnView { name: self.name@, dtype: self.dtype, values: view_values(self.values@) }
    }

    /// Whether every value of the column is of its type.
    pub fn is_valid(&self) -> (r: bool)
        ensures
            r == (forall|i: int|
                0 <= i < self@.values.len() ==> fits(#[trigger] self@.values[i], self.dtype)),
    {
        let mut i: usize = 0;
        while i < self.values.len()
            invariant
                i <= self.values@.len(),
                forall|k: int| 0 <= k < i ==> fits(#[trigger] self@.values[k], self.dtype),
            decreases self.values@.len() - i,
        {
            let t = self.values[i].data_type();
            if t != DataType::Null && t != self.dtype {
                assert(!fits(self@.values[i as int], self.dtype));
                return false;
            }
            i = i + 1;
        }
        true
    }

    /// A copy of the column.
    pub fn duplicate(&self) -> (r: Column)
        ensures
            r@ == self@,
    {
        let mut values: Vec<Value> = Vec::new();
        let mut i: usize = 0;
        while i < self.values.len()
            invariant
                i <= self.values@.len(),
                view_values(values@) == view_values(self.values@.take(i as int)),
            decreases self.values@.len() - i,
        {
            let ghost before = values@;
            let v = self.values[i].duplicate();
            values.push(v);
            assert(self.values@.take(i + 1) =~= self.values@.take(i as int).push(self.values@[i as int]));
            assert(view_values(values@) =~= view_values(before).push(v@));
            assert(view_values(self.values@.take(i + 1)) =~= view_values(self.values@.take(i as int)).push(self.values@[i as int]@));
            i = i + 1;
        }
        assert(self.values@.take(i as int) =~= self.values@);
        Column { name: self.name.clone(), dtype: self.dtype, values }
    }

    /// The column's values at the positions where `mask` is true.
    pub fn filter(&self, mask: &Vec<bool>) -> (r: Column)
        requires
            mask@.len() == self.values@.len(),
        ensures
            r@ == (ColumnView {
                name: self@.name,
                dtype: self.dtype,
                values: filter_seq(self@.values, mask@),
            }),
    {
        let mut values: Vec<Value> = Vec::new();
        let mut i: usize = 0;
        while i < self.values.len()
            invariant
                i <= self.values@.len(),
                mask@.len() == self.values@.len(),
                view_values(values@) == filter_seq(
                    view_values(self.values@).take(i as int),
                    mask@.take(i as int),
                ),
            decreases self.values@.len() - i,
        {
            let ghost vs = view_values(self.values@);
            assert(vs.take(i + 1).drop_last() =~= vs.take(i as int));
            assert(mask@.take(i + 1).drop_last() =~= mask@.take(i as int));
            if mask[i] {
                let ghost before = values@;
                let v = self.values[i].duplicate();
                values.push(v);
                assert(view_values(values@) =~= view_values(before).push(v@));
                assert(vs.take(i + 1).last() == self.values@[i as int]@);
                assert(view_values(values@) =~= filter_seq(vs.take(i + 1), mask@.take(i + 1)));
            } else {
                assert(view_values(values@) =~= filter_seq(vs.take(i + 1), mask@.take(i + 1)));
            }
            i = i + 1;
        }
        assert(view_values(self.values@).take(i as int) =~= view_values(self.values@));
        assert(mask@.take(i as int) =~= mask@);
        Column { name: self.name.clone(), dtype: self.dtype, values }
    }
}


/// A table, as a mathematical value.
pub struct TableView {
    pub columns: Seq<ColumnView>,
    pub num_rows: nat,
}

impl TableView {
    /// Whether every column has the table's number of rows, each of its type.
    pub open spec fn wf(&self) -> bool {
        forall|i: int| 0 <= i < self.columns.len() ==> (#[trigger] self.columns[i]).wf(self.num_rows)
    }
}

/// The position of the first column named `name`, if any.
pub open spec fn find_column(columns: Seq<ColumnView>, name: Seq<char>) -> Option<int>
    decreases columns.len(),
{
    if columns.len() == 0 {
        None
    } else {
        match find_column(columns.drop_last(), name) {
            Some(i) => Some(i),
            None => if columns.last().name == name {
                Some(columns.len() - 1)
            } else {
                None
            },
        }
    }
}

pub proof fn lemma_find_column(columns: Seq<ColumnView>, name: Seq<char>)
    ensures
        match find_column(columns, name) {
            Some(i) => 0 <= i < columns.len() && columns[i].name == name,
            None => forall|i: int| 0 <= i < columns.len() ==> columns[i].name != name,
        },
    decreases columns.len(),
{
    if columns.len() > 0 {
        lemma_find_column(columns.drop_last(), name);
        if find_column(columns.drop_last(), name) is None {
            assert forall|i: int| 0 <= i < columns.len() - 1 implies columns[i].name != name by {
                assert(columns.drop_last()[i] == columns[i]);
            }
        }
    }
}

/// `t` with only the rows where `mask` is true.
pub open spec fn filter_table(t: TableView, mask: Seq<bool>) -> TableView {
    TableView {
        columns: t.columns.map_values(
            |c: ColumnView|
                ColumnView { name: c.name, dtype: c.dtype, values: filter_seq(c.values, mask) },
        ),
        num_rows: count_true(mask),
    }
}

/// Named, typed columns of equal length.
#[derive(Clone, Debug, PartialEq)]
pub struct Table {
    pub columns: Vec<Column>,
    pub num_rows: usize,
}

pub open spec fn view_columns(cs: Seq<Column>) -> Seq<ColumnView> {
    cs.map_values(|c: Column| c@)
}

impl Table {
    pub open spec fn view(&self) -> TableView {
        TableView { columns: view_columns(self.columns@), num_rows: self.num_rows as nat }
    }

    pub open spec fn wf(&self) -> bool {
        self@.wf()
    }

    /// A table with no columns and `num_rows` rows.
    pub fn empty(num_rows: usize) -> (r: Table)
        ensures
            r.wf(),
            r@.columns.len() == 0,
            r@.num_rows == num_rows,
    {
        Table { columns: Vec::new(), num_rows }
    }

    /// A copy of the table.
    pub fn duplicate(&self) -> (r: Table)
        ensures
            r@ == self@,
    {
        let mut columns: Vec<Column> = Vec::new();
        let mut i: usize = 0;
        while i < self.columns.len()
            invariant
                i <= self.columns@.len(),
                view_columns(columns@) == self@.columns.take(i as int),
            decreases self.columns@.len() - i,
        {
            let c = self.columns[i].duplicate();
            let ghost before = columns@;
            columns.push(c);
            assert(view_columns(columns@) =~= view_columns(before).push(c@));
            assert(self@.columns.take(i + 1) =~= self@.columns.take(i as int).push(c@));
            i = i + 1;
        }
        assert(self@.columns.take(i as int) =~= self@.columns);
        Table { columns, num_rows: self.num_rows }
    }

    /// The number of rows.
    pub fn len(&self) -> (r: usize)
        ensures
            r == self@.num_rows,
    {
        self.num_rows
    }

    /// A table of the given columns. It fails on no columns, then on columns of
    /// different lengths, then on a value that is not of its column's type.
    pub fn from_nonempty_columns(columns: Vec<Column>) -> (r: Result<Table, DaftError>)
        ensures
            columns@.len() == 0 <==> r == Err::<Table, DaftError>(DaftError::EmptyColumns),
            columns@.len() > 0 ==> {
                let n = columns@[0]@.values.len();
                &&& (exists|i: int| 0 <= i < columns@.len() && columns@[i]@.values.len() != n)
                    <==> r == Err::<Table, DaftError>(DaftError::RowCountMismatch)
                &&& r is Ok <==> (TableView { columns: view_columns(columns@), num_rows: n }).wf()
                &&& r is Ok ==> r.unwrap()@ == (TableView { columns: view_columns(columns@), num_rows: n })
                &&& r is Err ==> (r == Err::<Table, DaftError>(DaftError::RowCountMismatch) || r == Err::<Table, DaftError>(DaftError::TypeMismatch))
            },
    {
        if columns.len() == 0 {
            return Err(DaftError::EmptyColumns);
        }
        let n = columns[0].values.len();
        let mut i: usize = 0;
        while i < columns.len()
            invariant
                0 < columns@.len(),
                n == columns@[0]@.values.len(),
                i <= columns@.len(),
                forall|k: int| 0 <= k < i ==> (#[trigger] columns@[k])@.values.len() == n,
            decreases columns@.len() - i,
        {
            if columns[i].values.len() != n {
                assert(view_columns(columns@)[i as int] == columns@[i as int]@);
                assert(columns@[i as int]@.values.len() != n);
                assert(!(TableView { columns: view_columns(columns@), num_rows: n as nat }).columns[i as int].wf(n as nat));
                return Err(DaftError::RowCountMismatch);
            }
            i = i + 1;
        }
        let ghost tv = TableView { columns: view_columns(columns@), num_rows: n as nat };
        let mut j: usize = 0;
        while j < columns.len()
            invariant
                j <= columns@.len(),
                forall|k: int| 0 <= k < columns@.len() ==> (#[trigger] columns@[k])@.values.len() == n,
                tv == (TableView { columns: view_columns(columns@), num_rows: n as nat }),
                forall|k: int| 0 <= k < j ==> (#[trigger] tv.columns[k]).wf(tv.num_rows),
            decreases columns@.len() - j,
        {
            if !columns[j].is_valid() {
                assert(!tv.columns[j as int].wf(tv.num_rows));
                return Err(DaftError::TypeMismatch);
            }
            j = j + 1;
        }
        Ok(Table { columns, num_rows: n })
    }

    /// The position of the first column named `name`, if any.
    pub fn column_index(&self, name: &String) -> (r: Option<usize>)
        ensures
            match r {
                Some(i) => find_column(self@.columns, name@) == Some(i as int),
                None => find_column(self@.columns, name@) is None,
            },
    {
        let mut i: usize = 0;
        while i < self.columns.len()
            invariant
                i <= self.columns@.len(),
                find_column(self@.columns.take(i as int), name@) is None,
            decreases self.columns@.len() - i,
        {
            assert(self@.columns.take(i + 1).drop_last() =~= self@.columns.take(i as int));
            if self.columns[i].name == *name {
                assert(find_column(self@.columns.take(i + 1), name@) == Some(i as int));
                proof {
                    lemma_find_prefix(self@.columns, name@, i + 1);
                }
                return Some(i);
            }
            i = i + 1;
        }
        assert(self@.columns.take(i as int) =~= self@.columns);
        None
    }

    /// The rows where `mask` is true, in order.
    pub fn filter_rows(&self, mask: &Vec<bool>) -> (r: Table)
        requires
            self.wf(),
            mask@.len() == self@.num_rows,
        ensures
            r.wf(),
            r@ == filter_table(self@, mask@),
    {
        let mut columns: Vec<Column> = Vec::new();
        let mut i: usize = 0;
        proof {
            lemma_count_true_le(mask@);
        }
        while i < self.columns.len()
            invariant
                self.wf(),
                mask@.len() == self@.num_rows,
                i <= self.columns@.len(),
                view_columns(columns@) == filter_table(self@, mask@).columns.take(i as int),
            decreases self.columns@.len() - i,
        {
            assert(self@.columns[i as int].wf(self@.num_rows));
            let c = self.columns[i].filter(mask);
            let ghost before = columns@;
            columns.push(c);
            assert(view_columns(columns@) =~= view_columns(before).push(c@));
            assert(filter_table(self@, mask@).columns.take(i + 1) =~= filter_table(self@, mask@).columns.take(i as int).push(c@));
            i = i + 1;
        }
        let r = Table { columns, num_rows: count_true_exec(mask) };
        assert(view_columns(r.columns@) =~= filter_table(self@, mask@).columns);
        proof {
            let ft = filter_table(self@, mask@);
            assert forall|k: int| 0 <= k < ft.columns.len() implies (#[trigger] ft.columns[k]).wf(ft.num_rows) by {
                let c = self@.columns[k];
                assert(c.wf(self@.num_rows));
                lemma_filter_seq_len(c.values, mask@);
                lemma_filter_seq_from(c.values, mask@, |v: ValueView| fits(v, c.dtype));
            }
        }
        r
    }

    /// The columns of `self` followed by those of `other`, which must have as
    /// many rows.
    pub fn union(&self, other: &Table) -> (r: Result<Table, DaftError>)
        requires
            self.wf(),
            other.wf(),
        ensures
            self@.num_rows == other@.num_rows <==> r is Ok,
            self@.num_rows != other@.num_rows ==> r == Err::<Table, DaftError>(DaftError::RowCountMismatch),
            r is Ok ==> r.unwrap().wf() && r.unwrap()@ == (TableView {
                columns: self@.columns + other@.columns,
                num_rows: self@.num_rows,
            }),
    {
        if self.num_rows != other.num_rows {
            return Err(DaftError::RowCountMismatch);
        }
        let mut columns: Vec<Column> = Vec::new();
        let mut i: usize = 0;
        while i < self.columns.len()
            invariant
                i <= self.columns@.len(),
                view_columns(columns@) == self@.columns.take(i as int),
            decreases self.columns@.len() - i,
        {
            let c = self.columns[i].duplicate();
            let ghost before = columns@;
            columns.push(c);
            assert(view_columns(columns@) =~= view_columns(before).push(c@));
            assert(self@.columns.take(i + 1) =~= self@.columns.take(i as int).push(c@));
            i = i + 1;
        }
        let mut j: usize = 0;
        while j < other.columns.len()
            invariant
                i == self.columns@.len(),
                j <= other.columns@.len(),
                view_columns(columns@) == self@.columns.take(i as int) + other@.columns.take(j as int),
            decreases other.columns@.len() - j,
        {
            let c = other.columns[j].duplicate();
            let ghost before = columns@;
            columns.push(c);
            assert(view_columns(columns@) =~= view_columns(before).push(c@));
            assert(self@.columns.take(i as int) + other@.columns.take(j + 1) =~= (self@.columns.take(i as int) + other@.columns.take(j as int)).push(c@));
            j = j + 1;
        }
        assert(self@.columns.take(i as int) + other@.columns.take(j as int) =~= self@.columns + other@.columns);
        let r = Table { columns, num_rows: self.num_rows };
        assert forall|k: int| 0 <= k < r@.columns.len() implies (#[trigger] r@.columns[k]).wf(r@.num_rows) by {
            if k < self@.columns.len() {
                assert(self@.columns[k].wf(self@.num_rows));
            } else {
                assert(other@.columns[k - self@.columns.len()].wf(other@.num_rows));
            }
        }
        Ok(r)
    }
}

/// The first match in a prefix is the first match in the whole.
proof fn lemma_find_prefix(columns: Seq<ColumnView>, name: Seq<char>, n: int)
    requires
        0 <= n <= columns.len(),
        find_column(columns.take(n), name) is Some,
    ensures
        find_column(columns, name) == find_column(columns.take(n), name),
    decreases columns.len() - n,
{
    if n < columns.len() {
        assert(columns.take(n + 1).drop_last() =~= columns.take(n));
        lemma_find_prefix(columns, name, n + 1);
    } else {
        assert(columns.take(n) =~= columns);
    }
}

/// The number of positions where `mask` is true.
pub fn count_true_exec(mask: &Vec<bool>) -> (r: usize)
    ensures
        r == count_true(mask@),
{
    let mut n: usize = 0;
    let mut i: usize = 0;
    while i < mask.len()
        invariant
            i <= mask@.len(),
            n == count_true(mask@.take(i as int)),
            n <= i,
        decreases mask@.len() - i,
    {
        assert(mask@.take(i + 1).drop_last() =~= mask@.take(i as int));
        if mask[i] {
            n = n + 1;
        }
        i = i + 1;
    }
    assert(mask@.take(i as int) =~= mask@);
    n
}

/// One batch of rows moving through a pipeline; never changed in place.
#[derive(Clone, Debug, PartialEq)]
pub struct MicroPartition {
    pub table: Table,
}

impl MicroPartition {
    pub open spec fn wf(&self) -> bool {
        self.table.wf()
    }

    pub fn new(table: Table) -> (r: MicroPartition)
        ensures
            r.table == table,
    {
        MicroPartition { table }
    }

    /// The number of rows.
    pub fn len(&self) -> (r: usize)
        ensures
            r == self.table@.num_rows,
    {
        self.table.len()
    }
}

} // verus!
