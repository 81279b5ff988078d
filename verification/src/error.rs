//! Error values raised by query construction and rendering.
//!
//! Every failure of the library is one of these values, returned
//! synchronously from the rendering entry points; no partial SQL string is
//! ever produced alongside an error.

use vstd::prelude::*;

verus! {

/// The error type for query building and rendering.
#[derive(Debug, PartialEq)]
pub enum Error {
    /// SQL generation error
    SqlGeneration { message: String },
    /// Invalid query configuration, including rendering an incomplete
    /// builder state and rendering an unknown operator
    InvalidQuery { message: String },
    /// Column not found error
    ColumnNotFound { table: String, column: String },
    /// Table not found error
    TableNotFound { table: String },
}

/// The shape of an [`Error`], with every message a character sequence.
pub enum ErrorV {
    SqlGeneration { message: Seq<char> },
    InvalidQuery { message: Seq<char> },
    ColumnNotFound { table: Seq<char>, column: Seq<char> },
    TableNotFound { table: Seq<char> },
}

impl View for Error {
    type V = ErrorV;

    open spec fn view(&self) -> ErrorV {
        match self {
            Error::SqlGeneration { message } => ErrorV::SqlGeneration { message: message@ },
            Error::InvalidQuery { message } => ErrorV::InvalidQuery { message: message@ },
            Error::ColumnNotFound { table, column } => ErrorV::ColumnNotFound {
                table: table@,
                column: column@,
            },
            Error::TableNotFound { table } => ErrorV::TableNotFound { table: table@ },
        }
    }
}

/// The display text of an error, one line naming the failure and its
/// detail.
pub open spec fn error_text(e: ErrorV) -> Seq<char> {
    match e {
        ErrorV::SqlGeneration { message } => "SQL generation error: "@ + message,
        ErrorV::InvalidQuery { message } => "Invalid query: "@ + message,
        ErrorV::ColumnNotFound { table, column } => "Column '"@ + column
            + "' not found in table '"@ + table + "'"@,
        ErrorV::TableNotFound { table } => "Table '"@ + table + "' not found"@,
    }
}

impl Error {
    /// Create a new SQL generation error.
    pub fn sql_generation(message: &str) -> (r: Self)
        ensures
            r@ == (ErrorV::SqlGeneration { message: message@ }),
    {
        Error::SqlGeneration { message: message.to_owned() }
    }

    /// Create a new invalid query error.
    pub fn invalid_query(message: &str) -> (r: Self)
        ensures
            r@ == (ErrorV::InvalidQuery { message: message@ }),
    {
        Error::InvalidQuery { message: message.to_owned() }
    }

    /// Create a new column not found error.
    pub fn column_not_found(table: &str, column: &str) -> (r: Self)
        ensures
            r@ == (ErrorV::ColumnNotFound { table: table@, column: column@ }),
    {
        Error::ColumnNotFound { table: table.to_owned(), column: column.to_owned() }
    }

    /// Create a new table not found error.
    pub fn table_not_found(table: &str) -> (r: Self)
        ensures
            r@ == (ErrorV::TableNotFound { table: table@ }),
    {
        Error::TableNotFound { table: table.to_owned() }
    }

    /// The display text of this error.
    pub fn to_string(&self) -> (r: String)
        ensures
            r@ == error_text(self@),
    {
        match self {
            Error::SqlGeneration { message } => {
                let mut s = "SQL generation error: ".to_owned();
                s.append(message.as_str());
                s
            },
            Error::InvalidQuery { message } => {
                let mut s = "Invalid query: ".to_owned();
                s.append(message.as_str());
                s
            },
            Error::ColumnNotFound { table, column } => {
                let mut s = "Column '".to_owned();
                s.append(column.as_str());
                s.append("' not found in table '");
                s.append(table.as_str());
                s.append("'");
                s
            },
            Error::TableNotFound { table } => {
                let mut s = "Table '".to_owned();
                s.append(table.as_str());
                s.append("' not found");
                s
            },
        }
    }
}

} // verus!
