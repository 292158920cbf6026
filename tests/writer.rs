use daft_plan::table::{Column, DaftError, DataType, MicroPartition, Table, Value};
use daft_plan::writer::{
    manifest_for, BufferEncoder, DeltalakeWriter, FileEncoder, FileWriter, IcebergWriter,
    ManifestEncoder, PathManifestEncoder, PyArrowCSVWriter, PyArrowParquetWriter,
};

fn table(vals: &[i64]) -> Table {
    let c = Column { name: "x".to_string(), dtype: DataType::Int64, values: vals.iter().map(|v| Value::Int64(*v)).collect() };
    Table::from_nonempty_columns(vec![c]).unwrap()
}

fn batch(vals: &[i64]) -> MicroPartition {
    MicroPartition::new(table(vals))
}

fn partition_row() -> Table {
    let year = Column { name: "year".to_string(), dtype: DataType::Int64, values: vec![Value::Int64(2024)] };
    let country = Column { name: "country".to_string(), dtype: DataType::Utf8, values: vec![Value::Utf8("NL".to_string())] };
    Table::from_nonempty_columns(vec![year, country]).unwrap()
}

fn encoder(path: &str) -> BufferEncoder {
    BufferEncoder::new(path.to_string())
}

#[test]
fn closing_without_writes_gives_none() {
    let mut w = PyArrowParquetWriter::new(encoder("out/0.parquet"), None);
    assert_eq!(w.close().unwrap(), None);
    let mut w = PyArrowCSVWriter::new(encoder("out/0.csv"), Some(partition_row()));
    assert_eq!(w.close().unwrap(), None);
}

#[test]
fn closing_after_empty_batches_gives_none() {
    let mut w = PyArrowParquetWriter::new(encoder("out/0.parquet"), None);
    w.write(&batch(&[])).unwrap();
    assert_eq!(w.close().unwrap(), None);
}

#[test]
fn one_batch_gives_one_manifest_row_with_partition_values() {
    let mut w = PyArrowParquetWriter::new(encoder("out/3.parquet"), Some(partition_row()));
    w.write(&batch(&[1, 2, 3])).unwrap();
    let m = w.close().unwrap().unwrap();
    assert_eq!(m.len(), 1);
    assert_eq!(m.columns.len(), 3);
    assert_eq!(m.columns[0].name, "path");
    assert_eq!(m.columns[0].dtype, DataType::Utf8);
    assert_eq!(m.columns[0].values, vec![Value::Utf8("out/3.parquet".to_string())]);
    assert_eq!(m.columns[1..].to_vec(), partition_row().columns);
}

#[test]
fn manifest_without_partition_is_the_path_alone() {
    let mut w = PyArrowCSVWriter::new(encoder("out/1.csv"), None);
    w.write(&batch(&[7])).unwrap();
    w.write(&batch(&[8, 9])).unwrap();
    let m = w.close().unwrap().unwrap();
    assert_eq!(m.len(), 1);
    assert_eq!(m.columns.len(), 1);
    assert_eq!(m.columns[0].values, vec![Value::Utf8("out/1.csv".to_string())]);
}

#[test]
fn buffer_encoder_keeps_batches_in_order() {
    let mut e = encoder("f");
    e.write(&table(&[1, 2])).unwrap();
    e.write(&table(&[])).unwrap();
    e.write(&table(&[3])).unwrap();
    assert_eq!(e.batches().clone(), vec![table(&[1, 2]), table(&[]), table(&[3])]);
    assert_eq!(e.close().unwrap(), Some("f".to_string()));
    let mut empty = encoder("g");
    assert_eq!(empty.close().unwrap(), None);
}

#[test]
fn manifest_for_rejects_a_partition_of_several_rows() {
    let c = Column { name: "p".to_string(), dtype: DataType::Int64, values: vec![Value::Int64(1), Value::Int64(2)] };
    let p = Table::from_nonempty_columns(vec![c]).unwrap();
    assert_eq!(manifest_for(Some("f".to_string()), &Some(p.clone())).unwrap_err(), DaftError::RowCountMismatch);
    assert_eq!(manifest_for(None, &Some(partition_row())).unwrap(), None);
    let mut w = PyArrowParquetWriter::new(encoder("f"), Some(p));
    w.write(&batch(&[1])).unwrap();
    assert_eq!(w.close().unwrap_err(), DaftError::RowCountMismatch);
}

#[test]
fn table_format_writers_return_the_encoders_manifest() {
    let mut w = IcebergWriter::new(PathManifestEncoder::new(encoder("ice/0.parquet"), Some(partition_row())));
    assert_eq!(w.close().unwrap(), None);
    let mut w = DeltalakeWriter::new(PathManifestEncoder::new(encoder("delta/0.parquet"), Some(partition_row())));
    w.write(&batch(&[1, 2])).unwrap();
    w.write(&batch(&[3])).unwrap();
    let m = w.close().unwrap().unwrap();
    let mut direct = PathManifestEncoder::new(encoder("delta/0.parquet"), Some(partition_row()));
    direct.write(&table(&[1])).unwrap();
    assert_eq!(m, direct.close().unwrap().unwrap());
    assert_eq!(m.columns[0].values, vec![Value::Utf8("delta/0.parquet".to_string())]);
    assert_eq!(m.columns[1..].to_vec(), partition_row().columns);
}
