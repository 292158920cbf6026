//! Streaming operators: each takes one batch and gives one batch, and holds no
//! state between calls. The filter operator keeps the rows where its predicate
//! is true.
use vstd::prelude::*;

use crate::expr::{eval, is_boolish, type_of, Expr};
use crate::table::{
    count_true, filter_table, lemma_filter_seq_all, DaftError, DataType, MicroPartition, TableView,
    Value, ValueView,
};

verus! {

/// A stage of a pipeline: from one batch to one batch.
pub trait IntermediateOperator {
    /// What the stage makes of a batch.
    spec fn spec_execute(&self, input: TableView) -> Result<TableView, DaftError>;

    fn execute(&self, input: &MicroPartition) -> (r: Result<MicroPartition, DaftError>)
        requires
            input.wf(),
        ensures
            match (r, self.spec_execute(input.table@)) {
                (Ok(out), Ok(v)) => out.wf() && out.table@ == v,
                (Err(e), Err(s)) => e == s,
                _ => false,
            },
    ;

    /// The stage's name, for diagnostics; it does not change.
    spec fn spec_name(&self) -> Seq<char>;

    fn name(&self) -> (r: &'static str)
        ensures
            r@ == self.spec_name(),
    ;
}

/// Which rows of `t` the predicate `e` holds on: null counts as not holding.
pub open spec fn predicate_mask(e: Expr, t: TableView) -> Seq<bool> {
    Seq::new(t.num_rows, |i: int| eval(e, t, i) == ValueView::Boolean(true))
}

/// The rows of `t` on which `e` is true, or why `e` cannot be a predicate over `t`.
pub open spec fn spec_filter(t: TableView, e: Expr) -> Result<TableView, DaftError> {
    match type_of(e, t.columns) {
        Err(err) => Err(err),
        Ok(ty) => if is_boolish(ty) {
            Ok(filter_table(t, predicate_mask(e, t)))
        } else {
            Err(DaftError::TypeMismatch)
        },
    }
}

impl MicroPartition {
    /// The rows on which `predicate` is true, in order.
    pub fn filter(&self, predicate: &Expr) -> (r: Result<MicroPartition, DaftError>)
        requires
            self.wf(),
        ensures
            match (r, spec_filter(self.table@, *predicate)) {
                (Ok(out), Ok(v)) => out.wf() && out.table@ == v,
                (Err(e), Err(s)) => e == s,
                _ => false,
            },
    {
        let t = &self.table;
        let ty = match predicate.data_type(t) {
            Ok(ty) => ty,
            Err(err) => return Err(err),
        };
        if ty != DataType::Boolean && ty != DataType::Null {
            return Err(DaftError::TypeMismatch);
        }
        let mut mask: Vec<bool> = Vec::new();
        let mut i: usize = 0;
        while i < t.num_rows
            invariant
                t.wf(),
                type_of(*predicate, t@.columns) is Ok,
                i <= t@.num_rows,
                mask@ == predicate_mask(*predicate, t@).take(i as int),
            decreases t@.num_rows - i,
        {
            let v = predicate.eval_row(t, i);
            let keep = match v {
                Value::Boolean(b) => b,
                _ => false,
            };
            mask.push(keep);
            assert(predicate_mask(*predicate, t@).take(i + 1) =~= predicate_mask(*predicate, t@).take(
                i as int,
            ).push(keep));
            i = i + 1;
        }
        assert(predicate_mask(*predicate, t@).take(i as int) =~= predicate_mask(*predicate, t@));
        Ok(MicroPartition { table: t.filter_rows(&mask) })
    }
}

/// Keeps the rows of each batch on which its predicate is true. The predicate is
/// fixed when the operator is made.
#[derive(Debug)]
pub struct FilterOperator {
    predicate: Expr,
}

impl FilterOperator {
    pub fn new(predicate: Expr) -> (r: Self)
        ensures
            r.predicate() == predicate,
    {
        FilterOperator { predicate }
    }

    pub closed spec fn predicate(&self) -> Expr {
        self.predicate
    }
}

impl IntermediateOperator for FilterOperator {
    open spec fn spec_execute(&self, input: TableView) -> Result<TableView, DaftError> {
        spec_filter(input, self.predicate())
    }

    fn execute(&self, input: &MicroPartition) -> (r: Result<MicroPartition, DaftError>) {
        input.filter(&self.predicate)
    }

    open spec fn spec_name(&self) -> Seq<char> {
        "FilterOperator"@
    }

    fn name(&self) -> (r: &'static str) {
        "FilterOperator"
    }
}

/// Two stages run one after the other: the first's output is the second's input.
#[derive(Debug)]
pub struct Chain<A: IntermediateOperator, B: IntermediateOperator> {
    pub first: A,
    pub second: B,
}

impl<A: IntermediateOperator, B: IntermediateOperator> IntermediateOperator for Chain<A, B> {
    open spec fn spec_execute(&self, input: TableView) -> Result<TableView, DaftError> {
        match self.first.spec_execute(input) {
            Ok(mid) => self.second.spec_execute(mid),
            Err(e) => Err(e),
        }
    }

    fn execute(&self, input: &MicroPartition) -> (r: Result<MicroPartition, DaftError>) {
        let mid = match self.first.execute(input) {
            Ok(m) => m,
            Err(e) => return Err(e),
        };
        self.second.execute(&mid)
    }

    open spec fn spec_name(&self) -> Seq<char> {
        "Chain"@
    }

    fn name(&self) -> (r: &'static str) {
        "Chain"
    }
}

proof fn lemma_count_true_all(mask: Seq<bool>)
    requires
        forall|i: int| 0 <= i < mask.len() ==> mask[i],
    ensures
        count_true(mask) == mask.len(),
    decreases mask.len(),
{
    if mask.len() > 0 {
        lemma_count_true_all(mask.drop_last());
    }
}

/// Filtering a batch with a predicate that is true on every row gives the batch
/// back unchanged: the same rows, in the same order.
pub proof fn lemma_filter_all_true(t: TableView, e: Expr)
    requires
        t.wf(),
        type_of(e, t.columns) is Ok,
        is_boolish(type_of(e, t.columns).unwrap()),
        forall|i: int| 0 <= i < t.num_rows ==> eval(e, t, i) == ValueView::Boolean(true),
    ensures
        spec_filter(t, e) == Ok::<TableView, DaftError>(t),
{
    let mask = predicate_mask(e, t);
    lemma_count_true_all(mask);
    let ft = filter_table(t, mask);
    assert forall|k: int| 0 <= k < t.columns.len() implies ft.columns[k] == t.columns[k] by {
        assert(t.columns[k].wf(t.num_rows));
        lemma_filter_seq_all(t.columns[k].values, mask);
    }
    assert(ft.columns =~= t.columns);
}

} // verus!
