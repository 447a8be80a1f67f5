//! The error model: every fallible step reports one error value drawn from
//! a closed set of kinds, and each external error origin is mapped to
//! exactly one kind, keeping the origin's own description as the message.

use vstd::prelude::*;

verus! {

/// Declares `sqlx::Error`, the database driver's error type, so values of
/// it can be held and moved; the library never looks inside one.
#[verifier::external_type_specification]
#[verifier::external_body]
pub struct ExSqlxError(sqlx::Error);

/// Declares `toml::de::Error`, the configuration parser's error type.
#[verifier::external_type_specification]
#[verifier::external_body]
pub struct ExTomlDeError(toml::de::Error);

/// Declares `csv::Error`, the tabular-data reader's error type.
#[verifier::external_type_specification]
#[verifier::external_body]
pub struct ExCsvError(csv::Error);

/// Declares `git2::Error`, the version-control library's error type.
#[verifier::external_type_specification]
#[verifier::external_body]
pub struct ExGitError(git2::Error);

/// Declares `std::io::Error`, which vstd gives no specification.
#[verifier::external_type_specification]
#[verifier::external_body]
pub struct ExIoError(std::io::Error);

/// Declares `std::time::SystemTimeError`, which vstd gives no
/// specification.
#[verifier::external_type_specification]
#[verifier::external_body]
pub struct ExSystemTimeError(std::time::SystemTimeError);

/// Relies on the `Debug` impl of `std::io::Error` to render the error.
#[verifier::external_body]
fn describe_io_error(e: &std::io::Error) -> String {
    format!("{:?}", e)
}

/// Relies on the `Debug` impl of `csv::Error` to render the error.
#[verifier::external_body]
fn describe_csv_error(e: &csv::Error) -> String {
    format!("{:?}", e)
}

/// Relies on the `Debug` impl of `sqlx::Error` to render the error.
#[verifier::external_body]
fn describe_sqlx_error(e: &sqlx::Error) -> String {
    format!("{:?}", e)
}

/// Relies on the `Debug` impl of `git2::Error` to render the error.
#[verifier::external_body]
fn describe_git_error(e: &git2::Error) -> String {
    format!("{:?}", e)
}

/// Relies on the `Debug` impl of `std::time::SystemTimeError` to render the
/// error.
#[verifier::external_body]
fn describe_time_error(e: &std::time::SystemTimeError) -> String {
    format!("{:?}", e)
}

/// An error from the row-fetching side of the system: one human-readable
/// message, whatever the origin.
#[derive(Debug)]
pub struct GetError {
    details: String,
}

impl GetError {
    /// The message carried by this error.
    pub closed spec fn spec_details(&self) -> Seq<char> {
        self.details@
    }

    pub fn new(msg: String) -> (r: GetError)
        ensures
            r.spec_details() == msg@,
    {
        GetError { details: msg }
    }

    /// Read access to the message; stands in for `Display`.
    pub fn details(&self) -> (r: &String)
        ensures
            r@ == self.spec_details(),
    {
        &self.details
    }

    /// Maps a filesystem or I/O failure, keeping its rendered description.
    pub fn from_io_error(e: &std::io::Error) -> GetError {
        GetError { details: describe_io_error(e) }
    }

    /// Maps a tabular-data parsing failure, keeping its rendered description.
    pub fn from_csv_error(e: &csv::Error) -> GetError {
        GetError { details: describe_csv_error(e) }
    }

    /// Maps a database-driver failure, keeping its rendered description.
    pub fn from_sqlx_error(e: &sqlx::Error) -> GetError {
        GetError { details: describe_sqlx_error(e) }
    }

    /// Maps a version-control failure, keeping its rendered description.
    pub fn from_git_error(e: &git2::Error) -> GetError {
        GetError { details: describe_git_error(e) }
    }

    /// Maps a clock failure, keeping its rendered description.
    pub fn from_time_error(e: &std::time::SystemTimeError) -> GetError {
        GetError { details: describe_time_error(e) }
    }
}

impl From<String> for GetError {
    fn from(msg: String) -> (r: GetError)
        ensures
            r.spec_details() == msg@,
    {
        GetError { details: msg }
    }
}

impl vstd::std_specs::convert::FromSpecImpl<String> for GetError {
    open spec fn obeys_from_spec() -> bool {
        true
    }

    closed spec fn from_spec(msg: String) -> GetError {
        GetError { details: msg }
    }
}

/// The top-level error of the tool: one variant per origin, nothing dropped.
#[derive(Debug)]
pub enum NanobotError {
    /// A failure described only by a message.
    GeneralError(String),
    /// A failure reported by the external validation/loading engine, which
    /// surfaces through the database driver's error type.
    ValveError(sqlx::Error),
    /// A failure parsing configuration text.
    TomlError(toml::de::Error),
    /// A failure from the row-fetching side.
    GetError(GetError),
}

impl From<sqlx::Error> for NanobotError {
    fn from(e: sqlx::Error) -> (r: NanobotError) {
        NanobotError::ValveError(e)
    }
}

impl vstd::std_specs::convert::FromSpecImpl<sqlx::Error> for NanobotError {
    open spec fn obeys_from_spec() -> bool {
        true
    }

    open spec fn from_spec(e: sqlx::Error) -> NanobotError {
        NanobotError::ValveError(e)
    }
}

impl From<toml::de::Error> for NanobotError {
    fn from(e: toml::de::Error) -> (r: NanobotError) {
        NanobotError::TomlError(e)
    }
}

impl vstd::std_specs::convert::FromSpecImpl<toml::de::Error> for NanobotError {
    open spec fn obeys_from_spec() -> bool {
        true
    }

    open spec fn from_spec(e: toml::de::Error) -> NanobotError {
        NanobotError::TomlError(e)
    }
}

impl From<GetError> for NanobotError {
    fn from(e: GetError) -> (r: NanobotError) {
        NanobotError::GetError(e)
    }
}

impl vstd::std_specs::convert::FromSpecImpl<GetError> for NanobotError {
    open spec fn obeys_from_spec() -> bool {
        true
    }

    open spec fn from_spec(e: GetError) -> NanobotError {
        NanobotError::GetError(e)
    }
}

} // verus!
