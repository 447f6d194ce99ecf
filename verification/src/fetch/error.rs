//! Errors of the image tool's own rules.
use crate::text::{join_lines, owned, signed_decimal, signed_decimal_string};
use vstd::prelude::*;

verus! {

/// A wiki result could not be turned into a database row.
#[derive(Debug, PartialEq, Eq, Structural, Clone, Copy)]
pub enum DatabaseError {
    IntoRowConvertError,
}

impl DatabaseError {
    /// The message shown for this error.
    pub fn message(&self) -> (r: String)
        ensures
            r@ == "Error converting response::Item type into database::Row type"@,
    {
        owned("Error converting response::Item type into database::Row type")
    }
}

/// Why a run of the image tool stopped.
#[derive(Debug, PartialEq, Eq)]
pub enum DestinyFetchError {
    Quit,
    Unknown,
    NoMatchingImages,
    RequestErr,
    ResponseErr,
    RowError(DatabaseError),
    NegativeArgErr,
    ParseIdErr(String, String),
    WrongQueryMethod,
    InvalidPathErr,
    ExtFromStrErr,
    CachePathErr,
    NotCachedErr,
    InvalidTimestampErr(String),
    MissingArgErr,
}

/// The message shown for an error.
pub open spec fn fetch_error_message(e: DestinyFetchError) -> Seq<char> {
    match e {
        DestinyFetchError::Quit => "User quit program"@,
        DestinyFetchError::Unknown => "ERROR: Unable to run program, unknown error occurred"@,
        DestinyFetchError::NoMatchingImages => "ERROR: No matching images found"@,
        DestinyFetchError::RequestErr => "RequestErr"@,
        DestinyFetchError::ResponseErr => "ResponseErr"@,
        DestinyFetchError::RowError(_) =>
            "Error converting response::Item type into database::Row type"@,
        DestinyFetchError::NegativeArgErr => "no integer argument can be negative"@,
        DestinyFetchError::ParseIdErr(a, b) =>
            "ERROR: While parsing input file "@ + a@ + ", failed to parse "@ + b@ + " as i32."@,
        DestinyFetchError::WrongQueryMethod =>
            "attempted to call categories/images method on incorrect result_type"@,
        DestinyFetchError::InvalidPathErr => "invalid path; path does not exist"@,
        DestinyFetchError::ExtFromStrErr => "Unable to parse Ext from str"@,
        DestinyFetchError::CachePathErr => "ERROR: No cache found"@,
        DestinyFetchError::NotCachedErr => "ERROR: No cached data matching name found"@,
        DestinyFetchError::InvalidTimestampErr(m) => m@,
        DestinyFetchError::MissingArgErr => "missing required argument"@,
    }
}

impl DestinyFetchError {
    /// The message shown for this error.
    pub fn message(&self) -> (r: String)
        ensures
            r@ == fetch_error_message(*self),
    {
        match self {
            DestinyFetchError::Quit => owned("User quit program"),
            DestinyFetchError::Unknown => owned(
                "ERROR: Unable to run program, unknown error occurred",
            ),
            DestinyFetchError::NoMatchingImages => owned("ERROR: No matching images found"),
            DestinyFetchError::RequestErr => owned("RequestErr"),
            DestinyFetchError::ResponseErr => owned("ResponseErr"),
            DestinyFetchError::RowError(e) => e.message(),
            DestinyFetchError::NegativeArgErr => owned("no integer argument can be negative"),
            DestinyFetchError::ParseIdErr(a, b) => {
                let mut s = owned("ERROR: While parsing input file ");
                s.append(a.as_str());
                s.append(", failed to parse ");
                s.append(b.as_str());
                s.append(" as i32.");
                s
            },
            DestinyFetchError::WrongQueryMethod => owned(
                "attempted to call categories/images method on incorrect result_type",
            ),
            DestinyFetchError::InvalidPathErr => owned("invalid path; path does not exist"),
            DestinyFetchError::ExtFromStrErr => owned("Unable to parse Ext from str"),
            DestinyFetchError::CachePathErr => owned("ERROR: No cache found"),
            DestinyFetchError::NotCachedErr => owned("ERROR: No cached data matching name found"),
            DestinyFetchError::InvalidTimestampErr(m) => owned(m.as_str()),
            DestinyFetchError::MissingArgErr => owned("missing required argument"),
        }
    }
}

/// Input that names nothing in the database.
#[derive(Debug, PartialEq, Eq)]
pub enum UserError {
    InvalidTitles(Vec<String>),
    InvalidIds(Vec<i32>),
    InvalidCategory(String),
}

/// The lines of the report of a user error, each ending in a newline.
pub open spec fn user_error_report(e: UserError) -> Seq<char> {
    match e {
        UserError::InvalidTitles(v) =>
            "Invalid titles: \n"@ + join_lines(v@.map_values(|t: String| seq!['\t'] + t@)),
        UserError::InvalidIds(v) =>
            "Invalid ids: \n"@ + join_lines(v@.map_values(|i: i32| seq!['\t'] + signed_decimal(i as int))),
        UserError::InvalidCategory(c) => "Invalid category: "@ + c@ + "\n"@,
    }
}

impl UserError {
    /// The report shown for this error.
    pub fn message(&self) -> (r: String)
        ensures
            r@ == user_error_report(*self),
    {
        match self {
            UserError::InvalidTitles(v) => {
                let mut s = owned("Invalid titles: \n");
                let ghost head = s@;
                let ghost items = v@.map_values(|t: String| seq!['\t'] + t@);
                let mut i: usize = 0;
                while i < v.len()
                    invariant
                        0 <= i <= v.len(),
                        items == v@.map_values(|t: String| seq!['\t'] + t@),
                        head == "Invalid titles: \n"@,
                        s@ == head + join_lines(items.take(i as int)),
                    decreases v.len() - i,
                {
                    s.append("\t");
                    s.append(v[i].as_str());
                    s.append("\n");
                    proof {
                        reveal_strlit("\t");
                        reveal_strlit("\n");
                        assert(items.take(i + 1).drop_last() =~= items.take(i as int));
                        assert(s@ =~= head + join_lines(items.take(i + 1)));
                    }
                    i = i + 1;
                }
                assert(items.take(i as int) =~= items);
                s
            },
            UserError::InvalidIds(v) => {
                let mut s = owned("Invalid ids: \n");
                let ghost head = s@;
                let ghost items = v@.map_values(|n: i32| seq!['\t'] + signed_decimal(n as int));
                let mut i: usize = 0;
                while i < v.len()
                    invariant
                        0 <= i <= v.len(),
                        items == v@.map_values(|n: i32| seq!['\t'] + signed_decimal(n as int)),
                        head == "Invalid ids: \n"@,
                        s@ == head + join_lines(items.take(i as int)),
                    decreases v.len() - i,
                {
                    let digits = signed_decimal_string(v[i] as i64);
                    s.append("\t");
                    s.append(digits.as_str());
                    s.append("\n");
                    proof {
                        reveal_strlit("\t");
                        reveal_strlit("\n");
                        assert(items.take(i + 1).drop_last() =~= items.take(i as int));
                        assert(s@ =~= head + join_lines(items.take(i + 1)));
                    }
                    i = i + 1;
                }
                assert(items.take(i as int) =~= items);
                s
            },
            UserError::InvalidCategory(c) => {
                let mut s = owned("Invalid category: ");
                s.append(c.as_str());
                s.append("\n");
                s
            },
        }
    }
}

} // verus!
