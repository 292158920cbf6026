use daft_plan::expr::Expr;
use daft_plan::filter::{Chain, FilterOperator, IntermediateOperator};
use daft_plan::table::{Column, DaftError, DataType, MicroPartition, Table, Value};

fn col(name: &str) -> Box<Expr> {
    Box::new(Expr::Column(name.to_string()))
}

fn lit(v: Value) -> Box<Expr> {
    Box::new(Expr::Literal(v))
}

fn sample() -> MicroPartition {
    let ids = Column {
        name: "id".to_string(),
        dtype: DataType::Int64,
        values: vec![Value::Int64(1), Value::Int64(2), Value::Int64(3), Value::Null],
    };
    let names = Column {
        name: "name".to_string(),
        dtype: DataType::Utf8,
        values: vec![
            Value::Utf8("a".to_string()),
            Value::Utf8("b".to_string()),
            Value::Null,
            Value::Utf8("a".to_string()),
        ],
    };
    let flags = Column {
        name: "flag".to_string(),
        dtype: DataType::Boolean,
        values: vec![Value::Boolean(true), Value::Null, Value::Boolean(false), Value::Boolean(true)],
    };
    MicroPartition::new(Table::from_nonempty_columns(vec![ids, names, flags]).unwrap())
}

fn ids_of(m: &MicroPartition) -> Vec<Value> {
    m.table.columns[0].values.clone()
}

#[test]
fn always_true_predicate_keeps_everything() {
    let input = sample();
    let op = FilterOperator::new(Expr::Literal(Value::Boolean(true)));
    let out = op.execute(&input).unwrap();
    assert_eq!(out, input);
    assert_eq!(out.len(), 4);
}

#[test]
fn always_true_expression_over_columns_keeps_everything() {
    let input = sample();
    let pred = Expr::Or(Box::new(Expr::IsNull(col("id"))), Box::new(Expr::Not(Box::new(Expr::IsNull(col("id"))))));
    let out = input.filter(&pred).unwrap();
    assert_eq!(out, input);
}

#[test]
fn always_false_and_null_predicates_keep_nothing() {
    let input = sample();
    for pred in [Expr::Literal(Value::Boolean(false)), Expr::Literal(Value::Null)] {
        let out = input.filter(&pred).unwrap();
        assert_eq!(out.len(), 0);
        assert_eq!(out.table.columns.len(), 3);
        assert!(out.table.columns.iter().all(|c| c.values.is_empty()));
    }
}

#[test]
fn boolean_column_keeps_true_rows_only() {
    let out = sample().filter(&Expr::Column("flag".to_string())).unwrap();
    assert_eq!(ids_of(&out), vec![Value::Int64(1), Value::Null]);
    assert_eq!(out.table.columns[1].values, vec![Value::Utf8("a".to_string()), Value::Utf8("a".to_string())]);
}

#[test]
fn equality_on_integers_and_strings() {
    let out = sample().filter(&Expr::Eq(col("id"), lit(Value::Int64(2)))).unwrap();
    assert_eq!(ids_of(&out), vec![Value::Int64(2)]);
    let out = sample().filter(&Expr::Eq(col("name"), lit(Value::Utf8("a".to_string())))).unwrap();
    assert_eq!(ids_of(&out), vec![Value::Int64(1), Value::Null]);
}

#[test]
fn kleene_and_or_not() {
    // flag: true, null, false, true
    let not_flag = sample().filter(&Expr::Not(col("flag"))).unwrap();
    assert_eq!(ids_of(&not_flag), vec![Value::Int64(3)]);
    let and = sample()
        .filter(&Expr::And(col("flag"), Box::new(Expr::Eq(col("name"), lit(Value::Utf8("a".to_string()))))))
        .unwrap();
    assert_eq!(ids_of(&and), vec![Value::Int64(1), Value::Null]);
    let or = sample().filter(&Expr::Or(col("flag"), lit(Value::Boolean(false)))).unwrap();
    assert_eq!(ids_of(&or), vec![Value::Int64(1), Value::Null]);
    let or_true = sample().filter(&Expr::Or(col("flag"), lit(Value::Boolean(true)))).unwrap();
    assert_eq!(or_true.len(), 4);
}

#[test]
fn unknown_column_is_an_error() {
    let err = sample().filter(&Expr::Column("missing".to_string())).unwrap_err();
    assert_eq!(err, DaftError::ColumnNotFound);
}

#[test]
fn non_boolean_predicate_is_a_type_error() {
    let err = sample().filter(&Expr::Column("id".to_string())).unwrap_err();
    assert_eq!(err, DaftError::TypeMismatch);
    let err = sample().filter(&Expr::Eq(col("id"), lit(Value::Utf8("x".to_string())))).unwrap_err();
    assert_eq!(err, DaftError::TypeMismatch);
    let err = sample().filter(&Expr::And(col("flag"), col("name"))).unwrap_err();
    assert_eq!(err, DaftError::TypeMismatch);
}

#[test]
fn errors_are_reported_left_to_right() {
    let err = sample().filter(&Expr::And(col("nope"), col("id"))).unwrap_err();
    assert_eq!(err, DaftError::ColumnNotFound);
    let err = sample().filter(&Expr::Eq(col("id"), col("nope"))).unwrap_err();
    assert_eq!(err, DaftError::ColumnNotFound);
}

#[test]
fn filter_on_empty_batch() {
    let t = Table::from_nonempty_columns(vec![Column { name: "flag".to_string(), dtype: DataType::Boolean, values: vec![] }]).unwrap();
    let out = MicroPartition::new(t).filter(&Expr::Column("flag".to_string())).unwrap();
    assert_eq!(out.len(), 0);
    let err = MicroPartition::new(Table::empty(0)).filter(&Expr::Column("flag".to_string())).unwrap_err();
    assert_eq!(err, DaftError::ColumnNotFound);
}

#[test]
fn filter_operator_has_a_stable_name_and_can_run_repeatedly() {
    let op = FilterOperator::new(Expr::Column("flag".to_string()));
    assert_eq!(op.name(), "FilterOperator");
    let a = op.execute(&sample()).unwrap();
    let b = op.execute(&sample()).unwrap();
    assert_eq!(a, b);
    let c = op.execute(&a).unwrap();
    assert_eq!(c, a);
}

#[test]
fn chained_filters_apply_in_sequence() {
    let chain = Chain {
        first: FilterOperator::new(Expr::Not(Box::new(Expr::IsNull(col("id"))))),
        second: FilterOperator::new(Expr::Eq(col("name"), lit(Value::Utf8("a".to_string())))),
    };
    let out = chain.execute(&sample()).unwrap();
    assert_eq!(ids_of(&out), vec![Value::Int64(1)]);
    assert_eq!(chain.name(), "Chain");
    let failing = Chain {
        first: FilterOperator::new(Expr::Column("missing".to_string())),
        second: FilterOperator::new(Expr::Literal(Value::Boolean(true))),
    };
    assert_eq!(failing.execute(&sample()).unwrap_err(), DaftError::ColumnNotFound);
}

#[test]
fn operator_name_does_not_depend_on_the_predicate() {
    assert_eq!(FilterOperator::new(Expr::Literal(Value::Boolean(true))).name(), "FilterOperator");
    assert_eq!(FilterOperator::new(Expr::Column("x".to_string())).name(), "FilterOperator");
}
