//! Predicate expressions over the columns of a table, with three-valued logic:
//! a null operand makes a comparison null, and `and` / `or` follow Kleene's rules.
use vstd::prelude::*;

use crate::table::{
    find_column, lemma_find_column, type_of_value, ColumnView, DaftError, DataType, Table,
    TableView, Value, ValueView,
};

verus! {

/// An expression evaluated once per row.
#[derive(Debug)]
pub enum Expr {
    Column(String),
    Literal(Value),
    Not(Box<Expr>),
    IsNull(Box<Expr>),
    Eq(Box<Expr>, Box<Expr>),
    And(Box<Expr>, Box<Expr>),
    Or(Box<Expr>, Box<Expr>),
}

/// Whether a value of type `d` may stand where a boolean is wanted.
pub open spec fn is_boolish(d: DataType) -> bool {
    d == DataType::Boolean || d == DataType::Null
}

/// The type of `e` over columns `cols`, or why it has none. Operands are checked
/// left to right, and the first failure is the one reported.
pub open spec fn type_of(e: Expr, cols: Seq<ColumnView>) -> Result<DataType, DaftError>
    decreases e,
{
    match e {
        Expr::Column(name) => match find_column(cols, name@) {
            Some(i) => Ok(cols[i].dtype),
            None => Err(DaftError::ColumnNotFound),
        },
        Expr::Literal(v) => Ok(type_of_value(v@)),
        Expr::Not(a) => match type_of(*a, cols) {
            Ok(t) => if is_boolish(t) {
                Ok(DataType::Boolean)
            } else {
                Err(DaftError::TypeMismatch)
            },
            Err(err) => Err(err),
        },
        Expr::IsNull(a) => match type_of(*a, cols) {
            Ok(_) => Ok(DataType::Boolean),
            Err(err) => Err(err),
        },
        Expr::Eq(a, b) => match (type_of(*a, cols), type_of(*b, cols)) {
            (Err(err), _) => Err(err),
            (Ok(_), Err(err)) => Err(err),
            (Ok(ta), Ok(tb)) => if ta == tb || ta == DataType::Null || tb == DataType::Null {
                Ok(DataType::Boolean)
            } else {
                Err(DaftError::TypeMismatch)
            },
        },
        Expr::And(a, b) => match (type_of(*a, cols), type_of(*b, cols)) {
            (Err(err), _) => Err(err),
            (Ok(_), Err(err)) => Err(err),
            (Ok(ta), Ok(tb)) => if is_boolish(ta) && is_boolish(tb) {
                Ok(DataType::Boolean)
            } else {
                Err(DaftError::TypeMismatch)
            },
        },
        Expr::Or(a, b) => match (type_of(*a, cols), type_of(*b, cols)) {
            (Err(err), _) => Err(err),
            (Ok(_), Err(err)) => Err(err),
            (Ok(ta), Ok(tb)) => if is_boolish(ta) && is_boolish(tb) {
                Ok(DataType::Boolean)
            } else {
                Err(DaftError::TypeMismatch)
            },
        },
    }
}

/// The value of `e` on row `row` of `t`.
pub open spec fn eval(e: Expr, t: TableView, row: int) -> ValueView
    decreases e,
{
    match e {
        Expr::Column(name) => match find_column(t.columns, name@) {
            Some(i) => t.columns[i].values[row],
            None => ValueView::Null,
        },
        Expr::Literal(v) => v@,
        Expr::Not(a) => match eval(*a, t, row) {
            ValueView::Boolean(b) => ValueView::Boolean(!b),
            _ => ValueView::Null,
        },
        Expr::IsNull(a) => ValueView::Boolean(eval(*a, t, row) is Null),
        Expr::Eq(a, b) => {
            let (va, vb) = (eval(*a, t, row), eval(*b, t, row));
            if va is Null || vb is Null {
                ValueView::Null
            } else {
                ValueView::Boolean(va == vb)
            }
        },
        Expr::And(a, b) => {
            let (va, vb) = (eval(*a, t, row), eval(*b, t, row));
            if va == ValueView::Boolean(false) || vb == ValueView::Boolean(false) {
                ValueView::Boolean(false)
            } else if va is Null || vb is Null {
                ValueView::Null
            } else {
                ValueView::Boolean(true)
            }
        },
        Expr::Or(a, b) => {
            let (va, vb) = (eval(*a, t, row), eval(*b, t, row));
            if va == ValueView::Boolean(true) || vb == ValueView::Boolean(true) {
                ValueView::Boolean(true)
            } else if va is Null || vb is Null {
                ValueView::Null
            } else {
                ValueView::Boolean(false)
            }
        },
    }
}

impl Expr {
    /// The type of the expression over the columns of `t`, or why it has none.
    pub fn data_type(&self, t: &Table) -> (r: Result<DataType, DaftError>)
        ensures
            r == type_of(*self, t@.columns),
        decreases self,
    {
        match self {
            Expr::Column(name) => match t.column_index(name) {
                Some(i) => {
                    proof {
                        lemma_find_column(t@.columns, name@);
                    }
                    assert(t@.columns[i as int] == t.columns@[i as int]@);
                    Ok(t.columns[i].dtype)
                },
                None => {
                    Err(DaftError::ColumnNotFound)
                },
            },
            Expr::Literal(v) => {
                Ok(v.data_type())
            },
            Expr::Not(a) => {
                let ta = match a.data_type(t) {
                    Ok(x) => x,
                    Err(err) => return Err(err),
                };
                if ta == DataType::Boolean || ta == DataType::Null {
                    Ok(DataType::Boolean)
                } else {
                    Err(DaftError::TypeMismatch)
                }
            },
            Expr::IsNull(a) => {
                let _ = match a.data_type(t) {
                    Ok(x) => x,
                    Err(err) => return Err(err),
                };
                Ok(DataType::Boolean)
            },
            Expr::Eq(a, b) => {
                let ta = match a.data_type(t) {
                    Ok(x) => x,
                    Err(err) => return Err(err),
                };
                let tb = match b.data_type(t) {
                    Ok(x) => x,
                    Err(err) => return Err(err),
                };
                if ta == tb || ta == DataType::Null || tb == DataType::Null {
                    Ok(DataType::Boolean)
                } else {
                    Err(DaftError::TypeMismatch)
                }
            },
            Expr::And(a, b) => {
                let ta = match a.data_type(t) {
                    Ok(x) => x,
                    Err(err) => return Err(err),
                };
                let tb = match b.data_type(t) {
                    Ok(x) => x,
                    Err(err) => return Err(err),
                };
                if (ta == DataType::Boolean || ta == DataType::Null) && (tb == DataType::Boolean
                    || tb == DataType::Null) {
                    Ok(DataType::Boolean)
                } else {
                    Err(DaftError::TypeMismatch)
                }
            },
            Expr::Or(a, b) => {
                let ta = match a.data_type(t) {
                    Ok(x) => x,
                    Err(err) => return Err(err),
                };
                let tb = match b.data_type(t) {
                    Ok(x) => x,
                    Err(err) => return Err(err),
                };
                if (ta == DataType::Boolean || ta == DataType::Null) && (tb == DataType::Boolean
                    || tb == DataType::Null) {
                    Ok(DataType::Boolean)
                } else {
                    Err(DaftError::TypeMismatch)
                }
            },
        }
    }

    /// The value of the expression on row `row` of `t`.
    pub fn eval_row(&self, t: &Table, row: usize) -> (r: Value)
        requires
            t.wf(),
            row < t@.num_rows,
            type_of(*self, t@.columns) is Ok,
        ensures
            r@ == eval(*self, t@, row as int),
        decreases self,
    {
        match self {
            Expr::Column(name) => match t.column_index(name) {
                Some(i) => {
                    proof {
                        lemma_find_column(t@.columns, name@);
                    }
                    assert(t@.columns[i as int].wf(t@.num_rows));
                    assert(t.columns@[i as int].values@[row as int]@ == t@.columns[i as int].values[row as int]);
                    t.columns[i].values[row].duplicate()
                },
                None => Value::Null,
            },
            Expr::Literal(v) => v.duplicate(),
            Expr::Not(a) => match a.eval_row(t, row) {
                Value::Boolean(b) => Value::Boolean(!b),
                _ => Value::Null,
            },
            Expr::IsNull(a) => {
                let v = a.eval_row(t, row);
                Value::Boolean(matches!(v, Value::Null))
            },
            Expr::Eq(a, b) => {
                let va = a.eval_row(t, row);
                let vb = b.eval_row(t, row);
                if matches!(va, Value::Null) || matches!(vb, Value::Null) {
                    Value::Null
                } else {
                    Value::Boolean(va.equals(&vb))
                }
            },
            Expr::And(a, b) => {
                let va = a.eval_row(t, row);
                let vb = b.eval_row(t, row);
                if matches!(va, Value::Boolean(false)) || matches!(vb, Value::Boolean(false)) {
                    Value::Boolean(false)
                } else if matches!(va, Value::Null) || matches!(vb, Value::Null) {
                    Value::Null
                } else {
                    Value::Boolean(true)
                }
            },
            Expr::Or(a, b) => {
                let va = a.eval_row(t, row);
                let vb = b.eval_row(t, row);
                if matches!(va, Value::Boolean(true)) || matches!(vb, Value::Boolean(true)) {
                    Value::Boolean(true)
                } else if matches!(va, Value::Null) || matches!(vb, Value::Null) {
                    Value::Null
                } else {
                    Value::Boolean(false)
                }
            },
        }
    }
}

} // verus!
