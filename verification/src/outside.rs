//! Error types of other libraries that an [`crate::Error`] carries along.
use rusqlite::Error as SqliteError;
use std::io::Error as IoError;
use vstd::prelude::*;

verus! {

/// `rusqlite::Error`, a failure of the database engine. Nothing is claimed of what is inside.
#[verifier::external_type_specification]
#[verifier::external_body]
pub struct ExSqliteError(SqliteError);

/// `std::io::Error`, a failure of an input or output operation. Nothing is claimed of what is
/// inside.
#[verifier::external_type_specification]
#[verifier::external_body]
pub struct ExIoError(IoError);

} // verus!
