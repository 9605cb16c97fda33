//! The catalog records as the metastore sends them. Every field of a record
//! may be missing on the wire, so every field is optional here.

use vstd::prelude::*;
use crate::models::FieldView;
use crate::text::{is_blank, is_blank_text, is_white_space};

verus! {

/// One column or partition key as the metastore describes it.
#[derive(Clone, Debug, PartialEq, Eq)]
pub struct FieldSchema {
    pub name: Option<String>,
    pub type_: Option<String>,
    pub comment: Option<String>,
}

/// The part of a table record that describes how the table is stored. The
/// client reads the column list and nothing else of it.
#[derive(Clone, Debug, PartialEq, Eq)]
pub struct StorageDescriptor {
    pub cols: Option<Vec<FieldSchema>>,
}

/// The record that the metastore keeps for a base table and for a view alike.
#[derive(Clone, Debug, PartialEq, Eq)]
pub struct TableRecord {
    pub table_name: Option<String>,
    pub db_name: Option<String>,
    pub sd: Option<StorageDescriptor>,
    pub partition_keys: Option<Vec<FieldSchema>>,
    pub view_original_text: Option<String>,
}

/// The mathematical content of a [`FieldSchema`].
pub struct FieldSchemaView {
    pub name: Option<Seq<char>>,
    pub type_: Option<Seq<char>>,
    pub comment: Option<Seq<char>>,
}

/// The mathematical content of a [`StorageDescriptor`].
pub struct StorageDescriptorView {
    pub cols: Option<Seq<FieldSchemaView>>,
}

/// The mathematical content of a [`TableRecord`].
pub struct TableRecordView {
    pub table_name: Option<Seq<char>>,
    pub db_name: Option<Seq<char>>,
    pub sd: Option<StorageDescriptorView>,
    pub partition_keys: Option<Seq<FieldSchemaView>>,
    pub view_original_text: Option<Seq<char>>,
}

/// The content of an optional text.
pub open spec fn text_view(t: Option<String>) -> Option<Seq<char>> {
    match t {
        Some(s) => Some(s@),
        None => None,
    }
}

/// The content of an optional list of field schemas.
pub open spec fn fields_view(fields: Option<Vec<FieldSchema>>) -> Option<Seq<FieldSchemaView>> {
    match fields {
        Some(v) => Some(Seq::new(v@.len(), |i: int| v@[i]@)),
        None => None,
    }
}

impl View for FieldSchema {
    type V = FieldSchemaView;

    open spec fn view(&self) -> FieldSchemaView {
        FieldSchemaView {
            name: text_view(self.name),
            type_: text_view(self.type_),
            comment: text_view(self.comment),
        }
    }
}

impl View for StorageDescriptor {
    type V = StorageDescriptorView;

    open spec fn view(&self) -> StorageDescriptorView {
        StorageDescriptorView { cols: fields_view(self.cols) }
    }
}

impl View for TableRecord {
    type V = TableRecordView;

    open spec fn view(&self) -> TableRecordView {
        TableRecordView {
            table_name: text_view(self.table_name),
            db_name: text_view(self.db_name),
            sd: match self.sd {
                Some(sd) => Some(sd@),
                None => None,
            },
            partition_keys: fields_view(self.partition_keys),
            view_original_text: text_view(self.view_original_text),
        }
    }
}

/// The fields of an optional list, none where the list is missing.
pub open spec fn listed(fields: Option<Seq<FieldSchemaView>>) -> Seq<FieldSchemaView> {
    match fields {
        Some(s) => s,
        None => Seq::empty(),
    }
}

/// Every field of an optional list has a name and a type. A missing list has
/// no field that could lack them.
pub open spec fn all_complete(fields: Option<Seq<FieldSchemaView>>) -> bool {
    forall|i: int| 0 <= i < listed(fields).len() ==> (#[trigger] listed(fields)[i]).is_complete()
}

/// Every field schema of the list has a name that is not empty, and no two
/// of them have the same name.
pub open spec fn schema_names_distinct(fields: Seq<FieldSchemaView>) -> bool {
    &&& forall|i: int|
        0 <= i < fields.len() ==> ((#[trigger] fields[i]).name matches Some(n) && n.len() > 0)
    &&& forall|i: int, j: int|
        0 <= i < j < fields.len() ==> (#[trigger] fields[i]).name != (#[trigger] fields[j]).name
}

impl FieldSchemaView {
    /// The metastore sent both the name and the type. A comment may be
    /// missing.
    pub open spec fn is_complete(self) -> bool {
        self.name is Some && self.type_ is Some
    }

    /// The column or partition key that a complete field schema describes: its
    /// name and type as sent, and its comment, empty where none was sent.
    pub open spec fn as_field(self) -> FieldView
        recommends
            self.is_complete(),
    {
        FieldView {
            name: self.name->0,
            ty: self.type_->0,
            comment: match self.comment {
                Some(c) => c,
                None => Seq::empty(),
            },
        }
    }
}

impl TableRecordView {
    /// The record stands for a view: it carries a view definition that is not
    /// blank.
    pub open spec fn is_view(self) -> bool {
        self.view_original_text matches Some(text) && !is_blank(text)
    }

    /// The field schemas of the data columns: those of the storage descriptor,
    /// none where the descriptor or its list is missing.
    pub open spec fn column_fields(self) -> Seq<FieldSchemaView> {
        match self.sd {
            Some(sd) => listed(sd.cols),
            None => Seq::empty(),
        }
    }

    /// The field schemas of the partition keys, none where the list is
    /// missing.
    pub open spec fn partition_fields(self) -> Seq<FieldSchemaView> {
        listed(self.partition_keys)
    }

    /// The record holds all that a table needs: both names, a storage
    /// descriptor, and a name and a type for every column and partition key.
    pub open spec fn is_complete(self) -> bool {
        &&& self.db_name is Some
        &&& self.table_name is Some
        &&& self.sd matches Some(sd) && all_complete(sd.cols)
        &&& all_complete(self.partition_keys)
    }
}

/// A record that carries no view definition, or an empty one, or one that is
/// all white space, stands for no view.
pub proof fn blank_definition_is_no_view(record: TableRecordView)
    ensures
        record.view_original_text is None ==> !record.is_view(),
        record.view_original_text == Some(Seq::<char>::empty()) ==> !record.is_view(),
        record.view_original_text matches Some(text) && is_blank(text) ==> !record.is_view(),
{
}

/// A record whose view definition holds a character that is not white space
/// stands for a view, whatever else the record holds or lacks.
pub proof fn definition_makes_view(record: TableRecordView, i: int)
    requires
        record.view_original_text matches Some(text) && 0 <= i < text.len() && !is_white_space(
            text[i],
        ),
    ensures
        record.is_view(),
{
}

impl FieldSchema {
    /// Tells whether both the name and the type are there.
    pub fn is_complete(&self) -> (r: bool)
        ensures
            r == self@.is_complete(),
    {
        self.name.is_some() && self.type_.is_some()
    }
}

/// Tells whether every field of an optional list has a name and a type.
pub fn fields_complete(fields: &Option<Vec<FieldSchema>>) -> (r: bool)
    ensures
        r == all_complete(fields_view(*fields)),
{
    match fields {
        None => true,
        Some(v) => {
            let ghost listed_fields = listed(fields_view(*fields));
            let mut i: usize = 0;
            while i < v.len()
                invariant
                    i <= v.len(),
                    listed_fields == listed(fields_view(*fields)),
                    listed_fields.len() == v@.len(),
                    forall|j: int| 0 <= j < v@.len() ==> #[trigger] listed_fields[j] == v@[j]@,
                    forall|j: int| 0 <= j < i ==> (#[trigger] listed_fields[j]).is_complete(),
                decreases v.len() - i,
            {
                if !v[i].is_complete() {
                    assert(!listed_fields[i as int].is_complete());
                    return false;
                }
                i += 1;
            }
            true
        },
    }
}

impl TableRecord {
    /// Tells whether the record stands for a view.
    pub fn is_view(&self) -> (r: bool)
        ensures
            r == self@.is_view(),
    {
        match &self.view_original_text {
            Some(text) => !is_blank_text(text.as_str()),
            None => false,
        }
    }

    /// Tells whether the record holds all that a table needs.
    pub fn is_complete(&self) -> (r: bool)
        ensures
            r == self@.is_complete(),
    {
        if self.db_name.is_none() || self.table_name.is_none() {
            return false;
        }
        match &self.sd {
            Some(sd) => fields_complete(&sd.cols) && fields_complete(&self.partition_keys),
            None => false,
        }
    }
}

} // verus!
