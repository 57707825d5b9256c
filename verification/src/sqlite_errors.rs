//! The message a storage failure converts to: a fixed summary and curated
//! reasons per failure, with subtleties where they help.
//!
//! The kind below holds as plain values everything the mapping reads from a
//! storage-library error: which failure happened, and the column, value or
//! name involved.  Whatever reads such an error builds a kind and converts
//! it here.

use vstd::prelude::*;
use vstd::string::StringExecFns;

use crate::helper::decimal_string;
use crate::helper::decimal_string_signed;
use crate::helper::spec_decimal;
use crate::helper::spec_decimal_signed;
use crate::styled::ReportModel;
use crate::styled::UserError;

verus! {

/// What the message reads from a storage-library error.
pub enum SqliteErrorKind {
    /// An underlying library call failed, with an optional detail text.
    SqliteFailure { detail: Option<String> },
    /// A further connection was opened in single-threaded mode.
    SqliteSingleThreadedMode,
    /// A column's value could not be converted to the named Rust type.
    FromSqlConversionFailure { column: usize, rust_type: String },
    /// A column's integral value does not fit the requested type.
    IntegralValueOutOfRange { column: usize, value: i64 },
    /// A string value was not valid UTF-8.
    Utf8Error,
    /// A string held a nul byte, shown when it decodes, at this position.
    NulError { text: Option<String>, position: usize },
    /// A named SQL parameter was not present in the SQL.
    InvalidParameterName { name: String },
    /// A file path could not be converted to a string.
    InvalidPath,
    /// An execute call returned rows.
    ExecuteReturnedResults,
    /// A query expected to return rows returned none.
    QueryReturnedNoRows,
    /// A column index was out of range for a statement.
    InvalidColumnIndex { column: usize },
    /// No column of a statement matches the name.
    InvalidColumnName { name: String },
    /// A column's value could not be converted to the named Rust type.
    InvalidColumnType { column: usize, rust_type: String },
    /// A statement expected to insert rows inserted none or many.
    StatementChangedRows,
    /// The SQL was not a valid query.
    InvalidQuery,
    /// A value could not be converted to SQL.
    ToSqlConversionFailure,
}

/// The string a nul-error names its culprit by: the text in single quotes
/// when it decodes, the word `String` otherwise.
pub open spec fn spec_quoted(text: Option<String>) -> Seq<char> {
    match text {
        Some(s) => "'"@ + s@ + "'"@,
        None => "String"@,
    }
}

/// The curated reasons shown for each storage failure.
pub open spec fn spec_sqlite_reasons(k: SqliteErrorKind) -> Seq<Seq<char>> {
    match k {
        SqliteErrorKind::SqliteFailure { detail } => match detail {
            Some(d) => seq!["Underlying SQLite call failed"@, d@],
            None => seq!["Underlying SQLite call failed"@],
        },
        SqliteErrorKind::SqliteSingleThreadedMode => seq![
            "Attempted to open an additional connection when SQLite was configured to allow single-threaded use only"@,
        ],
        SqliteErrorKind::FromSqlConversionFailure { column, rust_type } => seq![
            "Failed to convert value of column "@ + spec_decimal(column as nat)
                + " to Rust type "@ + rust_type@,
        ],
        SqliteErrorKind::IntegralValueOutOfRange { column, value } => seq![
            "Cannot fit integral value '"@ + spec_decimal_signed(value as int)
                + "' from column "@ + spec_decimal(column as nat)
                + " into requested type without overflow"@,
        ],
        SqliteErrorKind::Utf8Error => seq!["Failed to convert string value to UTF-8"@],
        SqliteErrorKind::NulError { text, position } => seq![
            "Failed to convert "@ + spec_quoted(text) + " to a C-Compatible String"@,
            spec_quoted(text) + " contains a nul byte at position: "@
                + spec_decimal(position as nat),
        ],
        SqliteErrorKind::InvalidParameterName { name } => seq![
            "Invalid parameter name"@,
            "Parameter: "@ + name@ + " not present in the SQL"@,
        ],
        SqliteErrorKind::InvalidPath => seq!["Invalid path"@],
        SqliteErrorKind::ExecuteReturnedResults => seq!["Execute call returned rows"@],
        SqliteErrorKind::QueryReturnedNoRows => seq!["Query returned no rows"@],
        SqliteErrorKind::InvalidColumnIndex { column } => seq![
            "Column index: "@ + spec_decimal(column as nat) + " is out of range for a statement"@,
        ],
        SqliteErrorKind::InvalidColumnName { name } => seq![
            "No column matching '"@ + name@ + "' in statement"@,
        ],
        SqliteErrorKind::InvalidColumnType { column, rust_type } => seq![
            "Failed to convert value of column "@ + spec_decimal(column as nat)
                + " to Rust type "@ + rust_type@,
        ],
        SqliteErrorKind::StatementChangedRows => seq!["Statement failed to insert row(s)"@],
        SqliteErrorKind::InvalidQuery => seq!["Invalid query"@],
        SqliteErrorKind::ToSqlConversionFailure => seq!["Failed to convert to SQL"@],
    }
}

/// The subtleties shown for the storage failures that carry one.
pub open spec fn spec_sqlite_subtleties(k: SqliteErrorKind) -> Option<Seq<Seq<char>>> {
    match k {
        SqliteErrorKind::IntegralValueOutOfRange { .. } => Some(
            seq!["e.g., trying to get the value 1000 into a u8"@],
        ),
        SqliteErrorKind::NulError { .. } => Some(
            seq![
                "While strings may contain nul bytes in the middle, C strings can't, as that byte would effectively truncate the string."@,
            ],
        ),
        SqliteErrorKind::InvalidPath => Some(
            seq!["Could not convert the file path to a string."@],
        ),
        SqliteErrorKind::QueryReturnedNoRows => Some(
            seq![
                "Query was expected to return at least one row (e.g., for query_row) but did not return any."@,
            ],
        ),
        _ => None,
    }
}

/// The whole message for each storage failure.
pub open spec fn spec_sqlite_message(k: SqliteErrorKind) -> ReportModel {
    ReportModel {
        summary: "SQLite has encountered an issue"@,
        reasons: Some(spec_sqlite_reasons(k)),
        subtleties: spec_sqlite_subtleties(k),
    }
}

/// The quoted culprit of a nul error.
fn quoted(text: Option<String>) -> (r: String)
    ensures
        r@ == spec_quoted(text),
{
    match text {
        Some(s) => {
            let mut out = "'".to_owned();
            out.append(s.as_str());
            out.append("'");
            out
        },
        None => "String".to_owned(),
    }
}

impl UserError {
    /// Builds the message for the storage failure of kind `k`: the summary
    /// `SQLite has encountered an issue`, the kind's curated reasons, and
    /// its subtleties if it carries any.
    pub fn from_sqlite_kind(k: SqliteErrorKind) -> (r: UserError)
        ensures
            r@ == spec_sqlite_message(k),
    {
        let summary = "SQLite has encountered an issue".to_owned();
        match k {
            SqliteErrorKind::SqliteFailure { detail } => {
                let mut reasons = vec!["Underlying SQLite call failed".to_owned()];
                match detail {
                    Some(d) => {
                        reasons.push(d);
                        let r = UserError::assemble(summary, Some(reasons), None);
                        proof {
                            assert(r@ =~~= spec_sqlite_message(k));
                        }
                        r
                    },
                    None => {
                        let r = UserError::assemble(summary, Some(reasons), None);
                        proof {
                            assert(r@ =~~= spec_sqlite_message(k));
                        }
                        r
                    },
                }
            },
            SqliteErrorKind::SqliteSingleThreadedMode => {
                let r = UserError::assemble(
                    summary,
                    Some(
                        vec![
                            "Attempted to open an additional connection when SQLite was configured to allow single-threaded use only".to_owned(),
                        ],
                    ),
                    None,
                );
                proof {
                    assert(r@ =~~= spec_sqlite_message(k));
                }
                r
            },
            SqliteErrorKind::FromSqlConversionFailure { column, rust_type } => {
                let mut reason = "Failed to convert value of column ".to_owned();
                let col = decimal_string(column as u64);
                reason.append(col.as_str());
                reason.append(" to Rust type ");
                reason.append(rust_type.as_str());
                let r = UserError::assemble(summary, Some(vec![reason]), None);
                proof {
                    assert(r@ =~~= spec_sqlite_message(k));
                }
                r
            },
            SqliteErrorKind::IntegralValueOutOfRange { column, value } => {
                let mut reason = "Cannot fit integral value '".to_owned();
                let v = decimal_string_signed(value);
                reason.append(v.as_str());
                reason.append("' from column ");
                let col = decimal_string(column as u64);
                reason.append(col.as_str());
                reason.append(" into requested type without overflow");
                let r = UserError::assemble(
                    summary,
                    Some(vec![reason]),
                    Some(vec!["e.g., trying to get the value 1000 into a u8".to_owned()]),
                );
                proof {
                    assert(r@ =~~= spec_sqlite_message(k));
                }
                r
            },
            SqliteErrorKind::Utf8Error => {
                let r = UserError::assemble(
                    summary,
                    Some(vec!["Failed to convert string value to UTF-8".to_owned()]),
                    None,
                );
                proof {
                    assert(r@ =~~= spec_sqlite_message(k));
                }
                r
            },
            SqliteErrorKind::NulError { text, position } => {
                let bad = quoted(text);
                let mut first = "Failed to convert ".to_owned();
                first.append(bad.as_str());
                first.append(" to a C-Compatible String");
                let mut second = bad;
                second.append(" contains a nul byte at position: ");
                let pos = decimal_string(position as u64);
                second.append(pos.as_str());
                let r = UserError::assemble(
                    summary,
                    Some(vec![first, second]),
                    Some(
                        vec![
                            "While strings may contain nul bytes in the middle, C strings can't, as that byte would effectively truncate the string.".to_owned(),
                        ],
                    ),
                );
                proof {
                    assert(r@ =~~= spec_sqlite_message(k));
                }
                r
            },
            SqliteErrorKind::InvalidParameterName { name } => {
                let mut second = "Parameter: ".to_owned();
                second.append(name.as_str());
                second.append(" not present in the SQL");
                let r = UserError::assemble(
                    summary,
                    Some(vec!["Invalid parameter name".to_owned(), second]),
                    None,
                );
                proof {
                    assert(r@ =~~= spec_sqlite_message(k));
                }
                r
            },
            SqliteErrorKind::InvalidPath => {
                let r = UserError::assemble(
                    summary,
                    Some(vec!["Invalid path".to_owned()]),
                    Some(vec!["Could not convert the file path to a string.".to_owned()]),
                );
                proof {
                    assert(r@ =~~= spec_sqlite_message(k));
                }
                r
            },
            SqliteErrorKind::ExecuteReturnedResults => {
                let r = UserError::assemble(
                    summary,
                    Some(vec!["Execute call returned rows".to_owned()]),
                    None,
                );
                proof {
                    assert(r@ =~~= spec_sqlite_message(k));
                }
                r
            },
            SqliteErrorKind::QueryReturnedNoRows => {
                let r = UserError::assemble(
                    summary,
                    Some(vec!["Query returned no rows".to_owned()]),
                    Some(
                        vec![
                            "Query was expected to return at least one row (e.g., for query_row) but did not return any.".to_owned(),
                        ],
                    ),
                );
                proof {
                    assert(r@ =~~= spec_sqlite_message(k));
                }
                r
            },
            SqliteErrorKind::InvalidColumnIndex { column } => {
                let mut reason = "Column index: ".to_owned();
                let col = decimal_string(column as u64);
                reason.append(col.as_str());
                reason.append(" is out of range for a statement");
                let r = UserError::assemble(summary, Some(vec![reason]), None);
                proof {
                    assert(r@ =~~= spec_sqlite_message(k));
                }
                r
            },
            SqliteErrorKind::InvalidColumnName { name } => {
                let mut reason = "No column matching '".to_owned();
                reason.append(name.as_str());
                reason.append("' in statement");
                let r = UserError::assemble(summary, Some(vec![reason]), None);
                proof {
                    assert(r@ =~~= spec_sqlite_message(k));
                }
                r
            },
            SqliteErrorKind::InvalidColumnType { column, rust_type } => {
                let mut reason = "Failed to convert value of column ".to_owned();
                let col = decimal_string(column as u64);
                reason.append(col.as_str());
                reason.append(" to Rust type ");
                reason.append(rust_type.as_str());
                let r = UserError::assemble(summary, Some(vec![reason]), None);
                proof {
                    assert(r@ =~~= spec_sqlite_message(k));
                }
                r
            },
            SqliteErrorKind::StatementChangedRows => {
                let r = UserError::assemble(
                    summary,
                    Some(vec!["Statement failed to insert row(s)".to_owned()]),
                    None,
                );
                proof {
                    assert(r@ =~~= spec_sqlite_message(k));
                }
                r
            },
            SqliteErrorKind::InvalidQuery => {
                let r = UserError::assemble(summary, Some(vec!["Invalid query".to_owned()]), None);
                proof {
                    assert(r@ =~~= spec_sqlite_message(k));
                }
                r
            },
            SqliteErrorKind::ToSqlConversionFailure => {
                let r = UserError::assemble(
                    summary,
                    Some(vec!["Failed to convert to SQL".to_owned()]),
                    None,
                );
                proof {
                    assert(r@ =~~= spec_sqlite_message(k));
                }
                r
            },
        }
    }
}

} // verus!
