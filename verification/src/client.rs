//! What the client makes of the metastore's replies, one function for each
//! kind of request. The caller holds the connection, sends the request and
//! hands the reply over; nothing here touches the network.

use vstd::prelude::*;
use crate::error::{describe, failure_text, ErrorView, HiveMetastoreError};
use crate::models::Table;
use crate::record::TableRecord;
use crate::text::ends_with;

verus! {

/// The text that ends the description of a failure when the metastore knows
/// no object of the name asked for.
pub open spec fn no_such_object_marker() -> Seq<char> {
    "NoSuchObjectException"@
}

/// A failure's description says that the metastore knows no object of the
/// name asked for: it ends with the marker.
pub open spec fn is_no_such_object(description: Seq<char>) -> bool {
    no_such_object_marker().is_suffix_of(description)
}

/// Tells whether a failure's description says that the metastore knows no
/// object of the name asked for. The metastore offers no error code for this,
/// so the description is all there is to go by.
pub fn indicates_no_such_object(description: &str) -> (r: bool)
    ensures
        r == is_no_such_object(description@),
{
    ends_with(description, "NoSuchObjectException")
}

/// The answer to "does this table or view exist?" when the request for it
/// failed with the given description: no, where the description says that
/// there is no such object, and otherwise the failure itself with its
/// description unchanged.
pub fn exists_from_failure(description: String) -> (r: Result<bool, HiveMetastoreError>)
    ensures
        is_no_such_object(description@) ==> r == Ok::<bool, HiveMetastoreError>(false),
        !is_no_such_object(description@) ==> (r matches Err(e) && e@ == ErrorView::ThriftError(
            description@,
        )),
{
    if indicates_no_such_object(description.as_str()) {
        Ok(false)
    } else {
        Err(HiveMetastoreError::ThriftError(description))
    }
}

/// `outcome` is what a caller who asked whether a table or view exists is
/// told on `reply`, the reply to the request for its record. Any record means
/// yes, be it a table's or a view's. A failure means no where its description
/// says that there is no such object; any other failure is handed on with its
/// description.
pub open spec fn is_exists_outcome(
    reply: Result<TableRecord, thrift::Error>,
    outcome: Result<bool, HiveMetastoreError>,
) -> bool {
    match reply {
        Ok(_) => outcome == Ok::<bool, HiveMetastoreError>(true),
        Err(f) => if is_no_such_object(failure_text(f)@) {
            outcome == Ok::<bool, HiveMetastoreError>(false)
        } else {
            outcome matches Err(e) && e@ == ErrorView::ThriftError(failure_text(f)@)
        },
    }
}

/// The answer to "does this table or view exist?", from the reply to the
/// request for its record.
pub fn exists_from_reply(reply: Result<TableRecord, thrift::Error>) -> (r: Result<
    bool,
    HiveMetastoreError,
>)
    ensures
        is_exists_outcome(reply, r),
{
    match reply {
        Ok(_) => Ok(true),
        Err(f) => exists_from_failure(describe(&f)),
    }
}

/// A reply to the request for a table's record can be answered from: it is a
/// failure, or the record of a view, or a record that holds all that a table
/// needs. What is left is a record that breaks the metastore's own promises.
pub open spec fn is_answerable(reply: Result<TableRecord, thrift::Error>) -> bool {
    reply matches Ok(record) ==> record@.is_view() || record@.is_complete()
}

/// `outcome` is what a caller who asked for the table `db`.`tbl` is told on
/// `reply`. A failure is handed on with its description. A record that stands
/// for a view is refused, whatever else it holds, and the error names what was
/// asked for. Any other record becomes the table it describes.
pub open spec fn is_table_outcome(
    db: Seq<char>,
    tbl: Seq<char>,
    reply: Result<TableRecord, thrift::Error>,
    outcome: Result<Table, HiveMetastoreError>,
) -> bool {
    match reply {
        Err(f) => outcome matches Err(e) && e@ == ErrorView::ThriftError(failure_text(f)@),
        Ok(record) => if record@.is_view() {
            outcome matches Err(e) && e@ == ErrorView::ViewInsteadOfTable(db, tbl)
        } else {
            outcome matches Ok(t) && t@ == record@.as_table()
        },
    }
}

/// The table asked for as `db`.`tbl`, from the reply to the request for its
/// record.
pub fn table_from_reply(db: &str, tbl: &str, reply: Result<TableRecord, thrift::Error>) -> (r:
    Result<Table, HiveMetastoreError>)
    requires
        is_answerable(reply),
    ensures
        is_table_outcome(db@, tbl@, reply, r),
        r matches Ok(t) ==> (reply matches Ok(record) && !record@.is_view() && t.columns@.len()
            == record@.column_fields().len() && t.partitions@.len()
            == record@.partition_fields().len()),
{
    match reply {
        Ok(record) => record.into_table(db, tbl),
        Err(f) => Err(HiveMetastoreError::from(f)),
    }
}

/// The table asked for as `db`.`tbl`, from any reply to the request for its
/// record: what [`table_from_reply`] gives where the reply can be answered
/// from, and nothing where it cannot.
pub fn try_table_from_reply(db: &str, tbl: &str, reply: Result<TableRecord, thrift::Error>) -> (r:
    Option<Result<Table, HiveMetastoreError>>)
    ensures
        r is Some <==> is_answerable(reply),
        r matches Some(outcome) ==> is_table_outcome(db@, tbl@, reply, outcome),
{
    let answerable = match &reply {
        Ok(record) => record.is_view() || record.is_complete(),
        Err(_) => true,
    };
    if answerable {
        Some(table_from_reply(db, tbl, reply))
    } else {
        None
    }
}

/// The names of all tables of a database, or of all databases, from the reply
/// to the request for them: the list as the metastore sent it, in its order,
/// empty where there are none. A failure is handed on with its description.
pub fn names_from_reply(reply: Result<Vec<String>, thrift::Error>) -> (r: Result<
    Vec<String>,
    HiveMetastoreError,
>)
    ensures
        reply matches Ok(names) ==> r == Ok::<Vec<String>, HiveMetastoreError>(names),
        reply matches Ok(names) && names@.len() == 0 ==> (r matches Ok(out) && out@.len() == 0),
        reply matches Err(f) ==> (r matches Err(e) && e@ == ErrorView::ThriftError(
            failure_text(f)@,
        )),
{
    match reply {
        Ok(names) => Ok(names),
        Err(f) => Err(HiveMetastoreError::from(f)),
    }
}

/// The two questions that are asked with a request for a record, held side by
/// side on one reply. Whoever is given a table is also told that it exists. A
/// view exists, and is refused as a table. An object that the metastore does
/// not know does not exist, and asking for it as a table is an error that
/// carries the metastore's description.
pub proof fn table_and_existence_agree(
    db: Seq<char>,
    tbl: Seq<char>,
    reply: Result<TableRecord, thrift::Error>,
    table: Result<Table, HiveMetastoreError>,
    exists: Result<bool, HiveMetastoreError>,
)
    requires
        is_table_outcome(db, tbl, reply, table),
        is_exists_outcome(reply, exists),
    ensures
        table is Ok ==> exists == Ok::<bool, HiveMetastoreError>(true),
        reply matches Ok(record) && record@.is_view() ==> exists == Ok::<bool, HiveMetastoreError>(
            true,
        ) && (table matches Err(e) && e@ == ErrorView::ViewInsteadOfTable(db, tbl)),
        exists == Ok::<bool, HiveMetastoreError>(false) ==> (reply matches Err(f) && (
        table matches Err(e) && e@ == ErrorView::ThriftError(failure_text(f)@))),
        exists is Err ==> (table matches Err(e) && exists matches Err(x) && e@ == x@),
{
}

} // verus!
