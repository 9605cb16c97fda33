//! The errors that the client hands to its callers, and how a failure of the
//! Thrift runtime becomes one of them.

use vstd::prelude::*;
use vstd::std_specs::convert::FromSpecImpl;
use vstd::string::*;

verus! {

/// A failure reported by the Thrift runtime. Nothing of its inside is known
/// here; the client only ever asks for its description.
#[verifier::external_type_specification]
#[verifier::external_body]
pub struct ExThriftError(thrift::Error);

/// The description that the Thrift runtime displays for a failure.
pub uninterp spec fn failure_text(e: thrift::Error) -> String;

/// Calls `thrift::Error`'s `Display` through `to_string`. The runtime prints a
/// fixed phrase for each kind of transport, protocol and application error,
/// and for an exception declared by the service whatever that exception
/// displays; the contract claims only that the text is determined by the
/// failure.
#[verifier::external_body]
pub(crate) fn describe(e: &thrift::Error) -> (text: String)
    ensures
        text == failure_text(*e),
{
    e.to_string()
}

/// Why a request to the metastore did not yield what was asked for.
#[derive(Clone, Debug, PartialEq, Eq)]
pub enum HiveMetastoreError {
    /// The connection to the metastore could not be established. Holds the
    /// runtime's description of the failure.
    ConnectionError(String),
    /// A call to the metastore failed. Holds the runtime's description of the
    /// failure, unchanged.
    ThriftError(String),
    /// A table was asked for, but the object of that name is a view. Holds the
    /// database and the name that were asked for.
    ViewInsteadOfTable(String, String),
}

/// The mathematical content of a [`HiveMetastoreError`].
pub enum ErrorView {
    ConnectionError(Seq<char>),
    ThriftError(Seq<char>),
    ViewInsteadOfTable(Seq<char>, Seq<char>),
}

impl ErrorView {
    /// The text shown for an error.
    pub open spec fn message(self) -> Seq<char> {
        match self {
            ErrorView::ConnectionError(text) => "thrift error: "@ + text,
            ErrorView::ThriftError(text) => "thrift error: "@ + text,
            ErrorView::ViewInsteadOfTable(db, tbl) => {
                "request table, bug the target is a view: "@ + db + "."@ + tbl
            },
        }
    }
}

impl View for HiveMetastoreError {
    type V = ErrorView;

    open spec fn view(&self) -> ErrorView {
        match self {
            HiveMetastoreError::ConnectionError(text) => ErrorView::ConnectionError(text@),
            HiveMetastoreError::ThriftError(text) => ErrorView::ThriftError(text@),
            HiveMetastoreError::ViewInsteadOfTable(db, tbl) => {
                ErrorView::ViewInsteadOfTable(db@, tbl@)
            },
        }
    }
}

impl HiveMetastoreError {
    /// The error for a connection that could not be opened.
    pub fn connection(e: thrift::Error) -> (r: Self)
        ensures
            r@ == ErrorView::ConnectionError(failure_text(e)@),
    {
        HiveMetastoreError::ConnectionError(describe(&e))
    }

    /// The text shown for this error.
    pub fn to_string(&self) -> (s: String)
        ensures
            s@ == self@.message(),
    {
        match self {
            HiveMetastoreError::ConnectionError(text) => {
                "thrift error: ".to_owned().concat(text.as_str())
            },
            HiveMetastoreError::ThriftError(text) => {
                "thrift error: ".to_owned().concat(text.as_str())
            },
            HiveMetastoreError::ViewInsteadOfTable(db, tbl) => {
                "request table, bug the target is a view: ".to_owned().concat(db.as_str()).concat(
                    ".",
                ).concat(tbl.as_str())
            },
        }
    }
}

/// An outcome as it is reported to a caller that takes no typed error, such
/// as a gateway that answers in JSON: a success as it is, a failure as the
/// text shown for its error.
pub fn with_error_text<T>(outcome: Result<T, HiveMetastoreError>) -> (r: Result<T, String>)
    ensures
        outcome matches Ok(value) ==> r == Ok::<T, String>(value),
        outcome matches Err(e) ==> (r matches Err(text) && text@ == e@.message()),
{
    match outcome {
        Ok(value) => Ok(value),
        Err(e) => Err(e.to_string()),
    }
}

impl From<thrift::Error> for HiveMetastoreError {
    /// A failed call becomes a [`HiveMetastoreError::ThriftError`] that holds
    /// the runtime's description of the failure.
    fn from(e: thrift::Error) -> (r: Self) {
        HiveMetastoreError::ThriftError(describe(&e))
    }
}

impl FromSpecImpl<thrift::Error> for HiveMetastoreError {
    open spec fn obeys_from_spec() -> bool {
        true
    }

    open spec fn from_spec(e: thrift::Error) -> Self {
        HiveMetastoreError::ThriftError(failure_text(e))
    }
}

} // verus!
