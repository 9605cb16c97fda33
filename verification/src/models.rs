//! The domain model handed to callers: tables, columns and partition keys.

use vstd::prelude::*;

verus! {

/// What a column or a partition key says: its name, the catalog's name for its
/// type, and a comment that is empty when the metastore supplied none.
pub struct FieldView {
    pub name: Seq<char>,
    pub ty: Seq<char>,
    pub comment: Seq<char>,
}

/// A data column of a base table.
#[derive(Clone, Debug, PartialEq, Eq)]
pub struct Column {
    pub name: String,
    pub ty: String,
    pub comment: String,
}

/// A partition key column of a base table.
#[derive(Clone, Debug, PartialEq, Eq)]
pub struct Partition {
    pub name: String,
    pub ty: String,
    pub comment: String,
}

/// A base table: its identity, its data columns in storage order and its
/// partition keys in declared order.
#[derive(Clone, Debug, PartialEq, Eq)]
pub struct Table {
    pub tbl_name: String,
    pub db_name: String,
    pub columns: Vec<Column>,
    pub partitions: Vec<Partition>,
}

/// The mathematical content of a [`Table`].
pub struct TableView {
    pub tbl_name: Seq<char>,
    pub db_name: Seq<char>,
    pub columns: Seq<FieldView>,
    pub partitions: Seq<FieldView>,
}

/// The contents of a list of columns or partition keys, one for one and in
/// the same order.
pub open spec fn views_of<T: View>(items: Seq<T>) -> Seq<T::V> {
    Seq::new(items.len(), |i: int| items[i]@)
}

/// No field of the list has an empty name, and no two fields of it have the
/// same name.
pub open spec fn names_distinct(fields: Seq<FieldView>) -> bool {
    &&& forall|i: int| 0 <= i < fields.len() ==> (#[trigger] fields[i]).name.len() > 0
    &&& forall|i: int, j: int|
        0 <= i < j < fields.len() ==> (#[trigger] fields[i]).name != (#[trigger] fields[j]).name
}

impl TableView {
    /// The table is as the catalog promises its tables to be: every column
    /// and every partition key has a name, and within the columns and within
    /// the partition keys no name occurs twice.
    pub open spec fn well_formed(self) -> bool {
        names_distinct(self.columns) && names_distinct(self.partitions)
    }
}

impl View for Column {
    type V = FieldView;

    open spec fn view(&self) -> FieldView {
        FieldView { name: self.name@, ty: self.ty@, comment: self.comment@ }
    }
}

impl View for Partition {
    type V = FieldView;

    open spec fn view(&self) -> FieldView {
        FieldView { name: self.name@, ty: self.ty@, comment: self.comment@ }
    }
}

impl View for Table {
    type V = TableView;

    open spec fn view(&self) -> TableView {
        TableView {
            tbl_name: self.tbl_name@,
            db_name: self.db_name@,
            columns: views_of(self.columns@),
            partitions: views_of(self.partitions@),
        }
    }
}

} // verus!
