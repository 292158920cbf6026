//! Sinks that hand batches to a format encoder and, when closed, report what they
//! wrote as a one-row manifest: the path of the file, with the partition values
//! the writer was bound to.
use vstd::prelude::*;

use crate::table::{
    view_columns, Column, ColumnView, DaftError, DataType, MicroPartition, Table, TableView, Value,
    ValueView,
};

verus! {

/// Whether any of the batches has a row.
pub open spec fn wrote_rows(batches: Seq<TableView>) -> bool {
    exists|i: int| 0 <= i < batches.len() && (#[trigger] batches[i]).num_rows > 0
}

pub open spec fn path_result_view(r: Result<Option<String>, DaftError>) -> Result<
    Option<Seq<char>>,
    DaftError,
> {
    match r {
        Ok(p) => Ok(opt_string_view(p)),
        Err(e) => Err(e),
    }
}

pub open spec fn table_result_view(r: Result<Option<Table>, DaftError>) -> Result<
    Option<TableView>,
    DaftError,
> {
    match r {
        Ok(t) => Ok(opt_table_view(t)),
        Err(e) => Err(e),
    }
}

/// The encoder behind a Parquet or CSV writer. It writes batches into one file,
/// in the order given, and when closed gives the path of that file, or nothing
/// if no batch it received had a row.
pub trait FileEncoder {
    /// The encoder's own well-formedness.
    spec fn inv(&self) -> bool;

    /// The batches written so far, in order; the file holds their concatenation.
    spec fn received(&self) -> Seq<TableView>;

    /// What closing the encoder in its present state gives.
    spec fn close_result(&self) -> Result<Option<Seq<char>>, DaftError>;

    fn write(&mut self, data: &Table) -> (r: Result<(), DaftError>)
        requires
            old(self).inv(),
        ensures
            final(self).inv(),
            r is Ok ==> final(self).received() == old(self).received().push(data@),
    ;

    fn close(&mut self) -> (r: Result<Option<String>, DaftError>)
        requires
            old(self).inv(),
        ensures
            final(self).inv(),
            final(self).received() == old(self).received(),
            path_result_view(r) == old(self).close_result(),
            r is Ok ==> (r.unwrap() is Some <==> wrote_rows(old(self).received())),
    ;
}

/// The encoder behind a table-format writer (Iceberg, Delta Lake). It writes
/// batches in the order given, and when closed gives the complete manifest
/// itself, partition values included, or nothing if no batch it received had a
/// row.
pub trait ManifestEncoder {
    /// The encoder's own well-formedness.
    spec fn inv(&self) -> bool;

    /// The batches written so far, in order.
    spec fn received(&self) -> Seq<TableView>;

    /// What closing the encoder in its present state gives.
    spec fn close_result(&self) -> Result<Option<TableView>, DaftError>;

    fn write(&mut self, data: &Table) -> (r: Result<(), DaftError>)
        requires
            old(self).inv(),
        ensures
            final(self).inv(),
            r is Ok ==> final(self).received() == old(self).received().push(data@),
    ;

    fn close(&mut self) -> (r: Result<Option<Table>, DaftError>)
        requires
            old(self).inv(),
        ensures
            final(self).inv(),
            final(self).received() == old(self).received(),
            table_result_view(r) == old(self).close_result(),
            r is Ok ==> (r.unwrap() is Some <==> wrote_rows(old(self).received())),
            r is Ok && r.unwrap() is Some ==> r.unwrap().unwrap().wf(),
    ;
}

/// A sink for one output file. It takes any number of batches, in order, then
/// exactly one `close`; nothing may be written after `close`.
pub trait FileWriter {
    /// The writer's own well-formedness.
    spec fn inv(&self) -> bool;

    spec fn is_closed(&self) -> bool;

    /// The batches its encoder has written so far, in order.
    spec fn written(&self) -> Seq<TableView>;

    /// What `close` gives from this state, for each answer of the encoder.
    spec fn close_post(&self, r: Result<Option<Table>, DaftError>) -> bool;

    fn write(&mut self, data: &MicroPartition) -> (r: Result<(), DaftError>)
        requires
            old(self).inv(),
            !old(self).is_closed(),
        ensures
            final(self).inv(),
            !final(self).is_closed(),
            r is Ok ==> final(self).written() == old(self).written().push(data.table@),
    ;

    fn close(&mut self) -> (r: Result<Option<Table>, DaftError>)
        requires
            old(self).inv(),
            !old(self).is_closed(),
        ensures
            final(self).inv(),
            final(self).is_closed(),
            final(self).written() == old(self).written(),
            old(self).close_post(r),
            r is Ok ==> (r.unwrap() is None <==> !wrote_rows(old(self).written())),
    ;
}

/// The name of the manifest's path column.
pub open spec fn path_column_name() -> Seq<char> {
    "path"@
}

/// The one-row table holding the path of a written file.
pub open spec fn path_table(path: Seq<char>) -> TableView {
    TableView {
        columns: seq![
            ColumnView {
                name: path_column_name(),
                dtype: DataType::Utf8,
                values: seq![ValueView::Utf8(path)],
            },
        ],
        num_rows: 1,
    }
}

/// The manifest of a file writer: nothing if no file was written, else the path
/// row followed by the bound partition values, which must form one row.
pub open spec fn manifest_view(path: Option<Seq<char>>, partition: Option<TableView>) -> Result<
    Option<TableView>,
    DaftError,
> {
    match path {
        None => Ok(None),
        Some(p) => match partition {
            None => Ok(Some(path_table(p))),
            Some(pt) => if pt.num_rows == 1 {
                Ok(Some(TableView { columns: path_table(p).columns + pt.columns, num_rows: 1 }))
            } else {
                Err(DaftError::RowCountMismatch)
            },
        },
    }
}

pub open spec fn opt_string_view(s: Option<String>) -> Option<Seq<char>> {
    match s {
        Some(x) => Some(x@),
        None => None,
    }
}

pub open spec fn opt_table_view(t: Option<Table>) -> Option<TableView> {
    match t {
        Some(x) => Some(x@),
        None => None,
    }
}

/// Whether `r` is the manifest that `manifest_view` gives, with well-formed tables.
pub open spec fn is_manifest_result(
    r: Result<Option<Table>, DaftError>,
    m: Result<Option<TableView>, DaftError>,
) -> bool {
    match (r, m) {
        (Ok(Some(t)), Ok(Some(v))) => t.wf() && t@ == v,
        (Ok(None), Ok(None)) => true,
        (Err(e), Err(s)) => e == s,
        _ => false,
    }
}

/// The manifest for a written file, from the path the encoder gave and the
/// partition values the writer was bound to.
pub fn manifest_for(written_file: Option<String>, partition: &Option<Table>) -> (r: Result<
    Option<Table>,
    DaftError,
>)
    requires
        partition is Some ==> partition.unwrap().wf(),
    ensures
        is_manifest_result(r, manifest_view(opt_string_view(written_file), opt_table_view(*partition))),
{
    let path = match written_file {
        Some(p) => p,
        None => return Ok(None),
    };
    let ghost p = path@;
    let mut values: Vec<Value> = Vec::new();
    values.push(Value::Utf8(path));
    let column = Column { name: "path".to_owned(), dtype: DataType::Utf8, values };
    assert(column@.values =~= seq![ValueView::Utf8(p)]);
    let mut columns: Vec<Column> = Vec::new();
    columns.push(column);
    let path_tbl = Table { columns, num_rows: 1 };
    assert(view_columns(path_tbl.columns@) =~= path_table(p).columns);
    assert(path_tbl@ == path_table(p));
    match partition {
        None => Ok(Some(path_tbl)),
        Some(pt) => match path_tbl.union(pt) {
            Ok(t) => Ok(Some(t)),
            Err(e) => Err(e),
        },
    }
}

/// The manifest of a file writer. With no file written it is nothing. With a file
/// written and partition values of one row bound (or none), it is one row: the
/// file's path in the `path` column, then the partition columns exactly as bound.
pub proof fn lemma_manifest_shape(path: Option<Seq<char>>, partition: Option<TableView>)
    requires
        partition is Some ==> partition.unwrap().num_rows == 1,
    ensures
        path is None ==> manifest_view(path, partition) == Ok::<Option<TableView>, DaftError>(None),
        path is Some ==> {
            let m = manifest_view(path, partition);
            let pcols = match partition {
                Some(pt) => pt.columns,
                None => Seq::empty(),
            };
            &&& m is Ok && m.unwrap() is Some
            &&& m.unwrap().unwrap().num_rows == 1
            &&& m.unwrap().unwrap().columns.len() == 1 + pcols.len()
            &&& m.unwrap().unwrap().columns[0].name == path_column_name()
            &&& m.unwrap().unwrap().columns[0].values == seq![ValueView::Utf8(path.unwrap())]
            &&& m.unwrap().unwrap().columns.subrange(1, 1 + pcols.len() as int) == pcols
        },
{
    if let Some(p) = path {
        let m = manifest_view(path, partition).unwrap().unwrap();
        match partition {
            Some(pt) => {
                assert(m.columns.subrange(1, 1 + pt.columns.len() as int) =~= pt.columns);
            },
            None => {
                assert(m.columns.subrange(1, 1) =~= Seq::<ColumnView>::empty());
            },
        }
    }
}


/// A Parquet file writer. Its manifest is made here: the path the encoder reports,
/// followed by the partition values it was bound to.
pub struct PyArrowParquetWriter<E: FileEncoder> {
    encoder: E,
    partition: Option<Table>,
    closed: bool,
}

impl<E: FileEncoder> PyArrowParquetWriter<E> {
    pub fn new(encoder: E, partition: Option<Table>) -> (r: Self)
        requires
            encoder.inv(),
            partition is Some ==> partition.unwrap().wf(),
        ensures
            r.inv(),
            !r.is_closed(),
            r.encoder() == encoder,
            r.written() == encoder.received(),
            r.partition() == partition,
    {
        PyArrowParquetWriter { encoder, partition, closed: false }
    }

    /// The encoder that the writer hands its batches to.
    pub closed spec fn encoder(&self) -> E {
        self.encoder
    }

    /// The partition values the writer was bound to.
    pub closed spec fn partition(&self) -> Option<Table> {
        self.partition
    }
}

impl<E: FileEncoder> FileWriter for PyArrowParquetWriter<E> {
    closed spec fn inv(&self) -> bool {
        &&& self.encoder.inv()
        &&& self.partition is Some ==> self.partition.unwrap().wf()
    }

    closed spec fn is_closed(&self) -> bool {
        self.closed
    }

    closed spec fn written(&self) -> Seq<TableView> {
        self.encoder.received()
    }

    /// The encoder's failure is handed on; else the result is the manifest of
    /// the path it reports and the bound partition values.
    open spec fn close_post(&self, r: Result<Option<Table>, DaftError>) -> bool {
        match self.encoder().close_result() {
            Err(e) => r == Err::<Option<Table>, DaftError>(e),
            Ok(p) => is_manifest_result(r, manifest_view(p, opt_table_view(self.partition()))),
        }
    }

    fn write(&mut self, data: &MicroPartition) -> (r: Result<(), DaftError>) {
        self.encoder.write(&data.table)
    }

    fn close(&mut self) -> (r: Result<Option<Table>, DaftError>) {
        self.closed = true;
        let written_file = match self.encoder.close() {
            Ok(f) => f,
            Err(e) => return Err(e),
        };
        manifest_for(written_file, &self.partition)
    }
}

/// A CSV file writer. Its manifest is made here: the path the encoder reports,
/// followed by the partition values it was bound to.
pub struct PyArrowCSVWriter<E: FileEncoder> {
    encoder: E,
    partition: Option<Table>,
    closed: bool,
}

impl<E: FileEncoder> PyArrowCSVWriter<E> {
    pub fn new(encoder: E, partition: Option<Table>) -> (r: Self)
        requires
            encoder.inv(),
            partition is Some ==> partition.unwrap().wf(),
        ensures
            r.inv(),
            !r.is_closed(),
            r.encoder() == encoder,
            r.written() == encoder.received(),
            r.partition() == partition,
    {
        PyArrowCSVWriter { encoder, partition, closed: false }
    }

    /// The encoder that the writer hands its batches to.
    pub closed spec fn encoder(&self) -> E {
        self.encoder
    }

    /// The partition values the writer was bound to.
    pub closed spec fn partition(&self) -> Option<Table> {
        self.partition
    }
}

impl<E: FileEncoder> FileWriter for PyArrowCSVWriter<E> {
    closed spec fn inv(&self) -> bool {
        &&& self.encoder.inv()
        &&& self.partition is Some ==> self.partition.unwrap().wf()
    }

    closed spec fn is_closed(&self) -> bool {
        self.closed
    }

    closed spec fn written(&self) -> Seq<TableView> {
        self.encoder.received()
    }

    /// The encoder's failure is handed on; else the result is the manifest of
    /// the path it reports and the bound partition values.
    open spec fn close_post(&self, r: Result<Option<Table>, DaftError>) -> bool {
        match self.encoder().close_result() {
            Err(e) => r == Err::<Option<Table>, DaftError>(e),
            Ok(p) => is_manifest_result(r, manifest_view(p, opt_table_view(self.partition()))),
        }
    }

    fn write(&mut self, data: &MicroPartition) -> (r: Result<(), DaftError>) {
        self.encoder.write(&data.table)
    }

    fn close(&mut self) -> (r: Result<Option<Table>, DaftError>) {
        self.closed = true;
        let written_file = match self.encoder.close() {
            Ok(f) => f,
            Err(e) => return Err(e),
        };
        manifest_for(written_file, &self.partition)
    }
}

/// A Iceberg table writer. The encoder knows the table's partitioning and gives the
/// complete manifest itself, which is returned as it is.
pub struct IcebergWriter<E: ManifestEncoder> {
    encoder: E,
    closed: bool,
}

impl<E: ManifestEncoder> IcebergWriter<E> {
    pub fn new(encoder: E) -> (r: Self)
        requires
            encoder.inv(),
        ensures
            r.inv(),
            !r.is_closed(),
            r.encoder() == encoder,
            r.written() == encoder.received(),
    {
        IcebergWriter { encoder, closed: false }
    }

    /// The encoder that the writer hands its batches to.
    pub closed spec fn encoder(&self) -> E {
        self.encoder
    }
}

impl<E: ManifestEncoder> FileWriter for IcebergWriter<E> {
    closed spec fn inv(&self) -> bool {
        self.encoder.inv()
    }

    closed spec fn is_closed(&self) -> bool {
        self.closed
    }

    closed spec fn written(&self) -> Seq<TableView> {
        self.encoder.received()
    }

    /// The result is the encoder's own, as it is.
    open spec fn close_post(&self, r: Result<Option<Table>, DaftError>) -> bool {
        &&& table_result_view(r) == self.encoder().close_result()
        &&& r is Ok && r.unwrap() is Some ==> r.unwrap().unwrap().wf()
    }

    fn write(&mut self, data: &MicroPartition) -> (r: Result<(), DaftError>) {
        self.encoder.write(&data.table)
    }

    fn close(&mut self) -> (r: Result<Option<Table>, DaftError>) {
        self.closed = true;
        self.encoder.close()
    }
}

/// A Delta Lake table writer. The encoder knows the table's partitioning and gives the
/// complete manifest itself, which is returned as it is.
pub struct DeltalakeWriter<E: ManifestEncoder> {
    encoder: E,
    closed: bool,
}

impl<E: ManifestEncoder> DeltalakeWriter<E> {
    pub fn new(encoder: E) -> (r: Self)
        requires
            encoder.inv(),
        ensures
            r.inv(),
            !r.is_closed(),
            r.encoder() == encoder,
            r.written() == encoder.received(),
    {
        DeltalakeWriter { encoder, closed: false }
    }

    /// The encoder that the writer hands its batches to.
    pub closed spec fn encoder(&self) -> E {
        self.encoder
    }
}

impl<E: ManifestEncoder> FileWriter for DeltalakeWriter<E> {
    closed spec fn inv(&self) -> bool {
        self.encoder.inv()
    }

    closed spec fn is_closed(&self) -> bool {
        self.closed
    }

    closed spec fn written(&self) -> Seq<TableView> {
        self.encoder.received()
    }

    /// The result is the encoder's own, as it is.
    open spec fn close_post(&self, r: Result<Option<Table>, DaftError>) -> bool {
        &&& table_result_view(r) == self.encoder().close_result()
        &&& r is Ok && r.unwrap() is Some ==> r.unwrap().unwrap().wf()
    }

    fn write(&mut self, data: &MicroPartition) -> (r: Result<(), DaftError>) {
        self.encoder.write(&data.table)
    }

    fn close(&mut self) -> (r: Result<Option<Table>, DaftError>) {
        self.closed = true;
        self.encoder.close()
    }
}

/// A file encoder that keeps its batches in memory under the path it was given.
pub struct BufferEncoder {
    path: String,
    batches: Vec<Table>,
}

impl BufferEncoder {
    pub fn new(path: String) -> (r: Self)
        ensures
            r.inv(),
            r.received() == Seq::<TableView>::empty(),
            r.path() == path@,
    {
        BufferEncoder { path, batches: Vec::new() }
    }

    pub closed spec fn path(&self) -> Seq<char> {
        self.path@
    }

    /// The batches it holds, in order.
    pub fn batches(&self) -> (r: &Vec<Table>)
        ensures
            view_tables(r@) == self.received(),
    {
        &self.batches
    }
}

pub open spec fn view_tables(ts: Seq<Table>) -> Seq<TableView> {
    ts.map_values(|t: Table| t@)
}

impl FileEncoder for BufferEncoder {
    closed spec fn inv(&self) -> bool {
        true
    }

    closed spec fn received(&self) -> Seq<TableView> {
        view_tables(self.batches@)
    }

    closed spec fn close_result(&self) -> Result<Option<Seq<char>>, DaftError> {
        if wrote_rows(self.received()) {
            Ok(Some(self.path@))
        } else {
            Ok(None)
        }
    }

    fn write(&mut self, data: &Table) -> (r: Result<(), DaftError>) {
        let t = data.duplicate();
        let ghost before = self.batches@;
        self.batches.push(t);
        assert(view_tables(self.batches@) =~= view_tables(before).push(data@));
        Ok(())
    }

    fn close(&mut self) -> (r: Result<Option<String>, DaftError>) {
        let mut i: usize = 0;
        while i < self.batches.len()
            invariant
                i <= self.batches@.len(),
                forall|k: int| 0 <= k < i ==> (#[trigger] self.received()[k]).num_rows == 0,
            decreases self.batches@.len() - i,
        {
            if self.batches[i].len() > 0 {
                assert(self.received()[i as int].num_rows > 0);
                return Ok(Some(self.path.clone()));
            }
            i = i + 1;
        }
        Ok(None)
    }
}

/// A table-format encoder made of a file encoder: its manifest is the path the
/// file encoder reports, followed by the partition values it was bound to.
pub struct PathManifestEncoder<E: FileEncoder> {
    inner: E,
    partition: Option<Table>,
}

impl<E: FileEncoder> PathManifestEncoder<E> {
    pub fn new(inner: E, partition: Option<Table>) -> (r: Self)
        requires
            inner.inv(),
            partition is Some ==> partition.unwrap().wf(),
        ensures
            r.inv(),
            r.received() == inner.received(),
            r.close_result() == match inner.close_result() {
                Err(e) => Err(e),
                Ok(p) => manifest_view(p, opt_table_view(partition)),
            },
    {
        PathManifestEncoder { inner, partition }
    }
}

impl<E: FileEncoder> ManifestEncoder for PathManifestEncoder<E> {
    closed spec fn inv(&self) -> bool {
        &&& self.inner.inv()
        &&& self.partition is Some ==> self.partition.unwrap().wf()
    }

    closed spec fn received(&self) -> Seq<TableView> {
        self.inner.received()
    }

    closed spec fn close_result(&self) -> Result<Option<TableView>, DaftError> {
        match self.inner.close_result() {
            Err(e) => Err(e),
            Ok(p) => manifest_view(p, opt_table_view(self.partition)),
        }
    }

    fn write(&mut self, data: &Table) -> (r: Result<(), DaftError>) {
        self.inner.write(data)
    }

    fn close(&mut self) -> (r: Result<Option<Table>, DaftError>) {
        let written_file = match self.inner.close() {
            Ok(f) => f,
            Err(e) => return Err(e),
        };
        manifest_for(written_file, &self.partition)
    }
}

} // verus!
