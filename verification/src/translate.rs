//! From catalog records to the domain model.

use vstd::prelude::*;
use crate::error::{ErrorView, HiveMetastoreError};
use crate::models::{names_distinct, views_of, Column, FieldView, Partition, Table, TableView};
use crate::record::{
    all_complete, fields_view, listed, schema_names_distinct, FieldSchema, FieldSchemaView,
    TableRecord, TableRecordView,
};

verus! {

/// A type of the domain model that a field schema can be turned into.
pub trait FromFieldSchema: Sized + View<V = FieldView> {
    /// Turns a complete field schema into a value that says what the schema
    /// says, with an empty comment where the schema has none.
    fn from_field_schema(f: FieldSchema) -> (r: Self)
        requires
            f@.is_complete(),
        ensures
            r@ == f@.as_field(),
            f@.comment is None ==> r@.comment == Seq::<char>::empty(),
    ;
}

/// The text of an optional comment, empty where there is none.
pub fn comment_or_empty(comment: Option<String>) -> (text: String)
    ensures
        comment matches Some(c) ==> text == c,
        comment is None ==> text@ == Seq::<char>::empty(),
{
    match comment {
        Some(c) => c,
        None => String::new(),
    }
}

impl FromFieldSchema for Column {
    fn from_field_schema(f: FieldSchema) -> (r: Self) {
        Column { name: f.name.unwrap(), ty: f.type_.unwrap(), comment: comment_or_empty(f.comment) }
    }
}

impl FromFieldSchema for Partition {
    fn from_field_schema(f: FieldSchema) -> (r: Self) {
        Partition {
            name: f.name.unwrap(),
            ty: f.type_.unwrap(),
            comment: comment_or_empty(f.comment),
        }
    }
}

/// The fields that a list of complete field schemas describes, one for one
/// and in the same order.
pub open spec fn as_fields(fields: Seq<FieldSchemaView>) -> Seq<FieldView> {
    Seq::new(fields.len(), |i: int| fields[i].as_field())
}

/// Turns an optional list of field schemas into columns or partition keys: one
/// for each schema, in the order of the list, and none where the list is
/// missing.
pub fn trans_field_schemas<T: FromFieldSchema>(fields: Option<Vec<FieldSchema>>) -> (out: Vec<T>)
    requires
        all_complete(fields_view(fields)),
    ensures
        views_of(out@) == as_fields(listed(fields_view(fields))),
        out@.len() == listed(fields_view(fields)).len(),
        forall|i: int|
            0 <= i < out@.len() ==> (#[trigger] out@[i])@ == listed(
                fields_view(fields),
            )[i].as_field(),
        fields is None ==> out@.len() == 0,
{
    let mut out: Vec<T> = Vec::new();
    match fields {
        None => {},
        Some(v) => {
            let ghost schemas = listed(fields_view(fields));
            for f in it: v.into_iter()
                invariant
                    it.seq() == v@,
                    schemas.len() == v@.len(),
                    forall|j: int| 0 <= j < v@.len() ==> #[trigger] schemas[j] == v@[j]@,
                    forall|j: int| 0 <= j < v@.len() ==> (#[trigger] schemas[j]).is_complete(),
                    out@.len() == it.index(),
                    forall|j: int|
                        0 <= j < it.index() ==> (#[trigger] out@[j])@ == schemas[j].as_field(),
            {
                assert(f@ == schemas[it.index()]);
                out.push(T::from_field_schema(f));
            }
        },
    }
    out
}

impl TableRecordView {
    /// The table that a complete record describes: its two names as sent, a
    /// column for each field schema of the storage descriptor and a partition
    /// key for each field schema of the partition keys, each list in the
    /// order of the record.
    pub open spec fn as_table(self) -> TableView
        recommends
            self.is_complete(),
    {
        TableView {
            tbl_name: self.table_name->0,
            db_name: self.db_name->0,
            columns: as_fields(self.column_fields()),
            partitions: as_fields(self.partition_fields()),
        }
    }
}

/// A field says what its schema says: the name and the type are those of the
/// schema, and the comment is the schema's, or empty where the schema has
/// none.
pub proof fn field_keeps_schema(f: FieldSchemaView)
    requires
        f.is_complete(),
    ensures
        f.name == Some(f.as_field().name),
        f.type_ == Some(f.as_field().ty),
        f.comment matches Some(c) ==> f.as_field().comment == c,
        f.comment is None ==> f.as_field().comment == Seq::<char>::empty(),
{
}

/// A table keeps the fields of its record: it has as many columns as the
/// record has column schemas and as many partition keys as the record has
/// partition key schemas, each made from the schema at the same place. Where
/// the record has no list of columns the table has no column, and where it has
/// no list of partition keys the table has no partition key.
pub proof fn table_keeps_fields(record: TableRecordView)
    ensures
        record.as_table().columns.len() == record.column_fields().len(),
        record.as_table().partitions.len() == record.partition_fields().len(),
        forall|i: int|
            0 <= i < record.column_fields().len() ==> #[trigger] record.as_table().columns[i]
                == record.column_fields()[i].as_field(),
        forall|i: int|
            0 <= i < record.partition_fields().len() ==> #[trigger] record.as_table().partitions[i]
                == record.partition_fields()[i].as_field(),
        (record.sd matches Some(sd) ==> sd.cols is None) ==> record.as_table().columns.len() == 0,
        record.partition_keys is None ==> record.as_table().partitions.len() == 0,
{
}

/// Where the names that the record gives its columns are not empty and all
/// different, and likewise those of its partition keys, the table is well
/// formed.
pub proof fn table_keeps_names_distinct(record: TableRecordView)
    requires
        record.is_complete(),
        schema_names_distinct(record.column_fields()),
        schema_names_distinct(record.partition_fields()),
    ensures
        record.as_table().well_formed(),
{
}

impl TableRecord {
    /// Turns the record that the metastore sent for `db`.`tbl` into a table.
    ///
    /// A record that stands for a view is refused before anything else of it
    /// is read, so it need not be complete. Any other record must be.
    pub fn into_table(self, db: &str, tbl: &str) -> (r: Result<Table, HiveMetastoreError>)
        requires
            self@.is_view() || self@.is_complete(),
        ensures
            self@.is_view() ==> (r matches Err(e) && e@ == ErrorView::ViewInsteadOfTable(
                db@,
                tbl@,
            )),
            !self@.is_view() ==> (r matches Ok(t) && t@ == self@.as_table()
                && t.columns@.len() == self@.column_fields().len()
                && t.partitions@.len() == self@.partition_fields().len()),
            r matches Ok(t) ==> forall|i: int|
                0 <= i < t.columns@.len() ==> (#[trigger] t.columns@[i])@
                    == self@.column_fields()[i].as_field(),
            r matches Ok(t) ==> forall|i: int|
                0 <= i < t.partitions@.len() ==> (#[trigger] t.partitions@[i])@
                    == self@.partition_fields()[i].as_field(),
            !self@.is_view() && schema_names_distinct(self@.column_fields())
                && schema_names_distinct(self@.partition_fields()) ==> (r matches Ok(t)
                && t@.well_formed()),
    {
        proof {
            if self@.is_complete() && schema_names_distinct(self@.column_fields())
                && schema_names_distinct(self@.partition_fields()) {
                table_keeps_names_distinct(self@);
            }
        }
        if self.is_view() {
            return Err(HiveMetastoreError::ViewInsteadOfTable(db.to_owned(), tbl.to_owned()));
        }
        let db_name = self.db_name.unwrap();
        let tbl_name = self.table_name.unwrap();
        let columns: Vec<Column> = trans_field_schemas(self.sd.unwrap().cols);
        let partitions: Vec<Partition> = trans_field_schemas(self.partition_keys);
        Ok(Table { tbl_name, db_name, columns, partitions })
    }
}

} // verus!
