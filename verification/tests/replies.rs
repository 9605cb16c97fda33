use hive_metastore_cli::client::{
    exists_from_failure, exists_from_reply, indicates_no_such_object, names_from_reply,
    table_from_reply, try_table_from_reply,
};
use hive_metastore_cli::record::{FieldSchema, StorageDescriptor, TableRecord};
use hive_metastore_cli::{HiveMetastoreError, Table};
use thrift::TransportErrorKind;

fn user_error(text: &str) -> thrift::Error {
    thrift::Error::User(text.into())
}

fn bare_record(view_original_text: Option<&str>) -> TableRecord {
    TableRecord {
        table_name: Some("t".to_string()),
        db_name: Some("d".to_string()),
        sd: Some(StorageDescriptor { cols: None }),
        partition_keys: None,
        view_original_text: view_original_text.map(|t| t.to_string()),
    }
}

#[test]
fn any_record_exists() {
    assert_eq!(exists_from_reply(Ok(bare_record(None))), Ok(true));
    assert_eq!(exists_from_reply(Ok(bare_record(Some("select 1")))), Ok(true));
}

#[test]
fn no_such_object_means_not_there() {
    let e = user_error("remote service threw NoSuchObjectException");
    assert_eq!(exists_from_reply(Err(e)), Ok(false));
    let e = user_error("NoSuchObjectException");
    assert_eq!(exists_from_reply(Err(e)), Ok(false));
}

#[test]
fn other_failures_are_handed_on() {
    let e = thrift::new_transport_error(TransportErrorKind::NotOpen, "connection reset by peer");
    assert_eq!(
        exists_from_reply(Err(e)),
        Err(HiveMetastoreError::ThriftError("not open".to_string()))
    );
    let e = user_error("connection reset");
    assert_eq!(
        exists_from_reply(Err(e)),
        Err(HiveMetastoreError::ThriftError("connection reset".to_string()))
    );
    let e = user_error("remote service threw MetaException");
    assert_eq!(
        exists_from_reply(Err(e)),
        Err(HiveMetastoreError::ThriftError("remote service threw MetaException".to_string()))
    );
}

#[test]
fn marker_counts_only_at_the_end() {
    assert_eq!(exists_from_failure("NoSuchObjectException".to_string()), Ok(false));
    assert_eq!(exists_from_failure("x: NoSuchObjectException".to_string()), Ok(false));
    for text in [
        "",
        "Exception",
        "oSuchObjectException",
        "NoSuchObjectException ",
        "NoSuchObjectException: dwd.orders",
        "nosuchobjectexception",
        "NoSuchObjectExceptio",
    ] {
        assert!(!indicates_no_such_object(text));
        assert_eq!(
            exists_from_failure(text.to_string()),
            Err(HiveMetastoreError::ThriftError(text.to_string()))
        );
    }
    assert!(indicates_no_such_object("NoSuchObjectException"));
    assert!(indicates_no_such_object("NoSuchObjectExceptionNoSuchObjectException"));
}

#[test]
fn missing_table_is_an_error_when_the_table_is_asked_for() {
    let e = user_error("remote service threw NoSuchObjectException");
    assert_eq!(
        table_from_reply("d", "t", Err(e)),
        Err(HiveMetastoreError::ThriftError("remote service threw NoSuchObjectException".to_string()))
    );
}

#[test]
fn failed_table_request_is_handed_on() {
    let e = thrift::new_transport_error(TransportErrorKind::TimedOut, "slow");
    assert_eq!(
        table_from_reply("d", "t", Err(e)),
        Err(HiveMetastoreError::ThriftError("timed out".to_string()))
    );
}

#[test]
fn no_names_is_an_empty_list() {
    assert_eq!(names_from_reply(Ok(vec![])), Ok(vec![]));
}

#[test]
fn names_keep_their_order() {
    let names = vec!["b".to_string(), "a".to_string(), "c".to_string(), "a".to_string()];
    assert_eq!(names_from_reply(Ok(names.clone())), Ok(names));
}

#[test]
fn failed_listing_is_handed_on() {
    let e = thrift::new_transport_error(TransportErrorKind::EndOfFile, "gone");
    assert_eq!(
        names_from_reply(Err(e)),
        Err(HiveMetastoreError::ThriftError("end of file".to_string()))
    );
}

#[test]
fn reply_that_can_be_answered_from_is_answered() {
    let table = try_table_from_reply("d", "t", Ok(bare_record(None)));
    assert_eq!(
        table,
        Some(Ok(Table {
            tbl_name: "t".to_string(),
            db_name: "d".to_string(),
            columns: vec![],
            partitions: vec![],
        }))
    );

    let view = try_table_from_reply("d", "v", Ok(bare_record(Some("select 1"))));
    assert_eq!(
        view,
        Some(Err(HiveMetastoreError::ViewInsteadOfTable("d".to_string(), "v".to_string())))
    );

    let e = thrift::new_transport_error(TransportErrorKind::EndOfFile, "gone");
    assert_eq!(
        try_table_from_reply("d", "t", Err(e)),
        Some(Err(HiveMetastoreError::ThriftError("end of file".to_string())))
    );
}

#[test]
fn record_that_lacks_a_required_field_is_not_answered_from() {
    let mut nameless = bare_record(None);
    nameless.table_name = None;
    assert_eq!(try_table_from_reply("d", "t", Ok(nameless)), None);

    let mut homeless = bare_record(Some("  "));
    homeless.db_name = None;
    assert_eq!(try_table_from_reply("d", "t", Ok(homeless)), None);

    let mut bare = bare_record(None);
    bare.sd = None;
    assert_eq!(try_table_from_reply("d", "t", Ok(bare)), None);

    let mut untyped = bare_record(None);
    untyped.partition_keys =
        Some(vec![FieldSchema { name: Some("dt".to_string()), type_: None, comment: None }]);
    assert_eq!(try_table_from_reply("d", "t", Ok(untyped)), None);

    let mut view = bare_record(Some("select 1"));
    view.table_name = None;
    view.sd = None;
    assert_eq!(
        try_table_from_reply("d", "v", Ok(view)),
        Some(Err(HiveMetastoreError::ViewInsteadOfTable("d".to_string(), "v".to_string())))
    );
}
