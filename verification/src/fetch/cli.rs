//! The arguments of the image tool's commands and the checks on them.
use crate::fetch::error::DestinyFetchError;
use crate::fetch::rows::Ext;
use vstd::prelude::*;

verus! {

/// The commands of the image tool.
#[derive(Debug, PartialEq, Eq)]
pub enum Command {
    Search(SearchArgs),
    Download(DownloadArgs),
    Sync,
}

/// What to search for and how to show it.
#[derive(Debug, PartialEq, Eq)]
pub struct SearchArgs {
    pub search: String,
    pub result_type: ResultType,
    pub in_category: Option<String>,
    pub output: Option<String>,
    pub limit: Option<i32>,
    pub detail_level: Option<DetailLevel>,
    pub ftype: Option<Vec<Ext>>,
    pub maxsize: Option<i32>,
    pub minsize: Option<i32>,
    /// Seconds since the Unix epoch.
    pub before: Option<i64>,
    /// Seconds since the Unix epoch.
    pub after: Option<i64>,
    pub maxwidth: Option<i32>,
    pub minwidth: Option<i32>,
    pub maxheight: Option<i32>,
    pub minheight: Option<i32>,
    pub maxpixels: Option<i32>,
    pub minpixels: Option<i32>,
}

/// Which images to download and where.
#[derive(Debug, PartialEq, Eq)]
pub struct DownloadArgs {
    pub input: Option<StdinInput>,
    pub input_file: Option<FileInput>,
    pub output_dir: Option<String>,
    pub noconfirm: bool,
}

impl DownloadArgs {
    /// No images were named, neither on the command line nor by file.
    pub fn no_input(&self) -> (r: bool)
        ensures
            r <==> (self.input is None && self.input_file is None),
    {
        match self {
            DownloadArgs { input: None, input_file: None, .. } => true,
            _ => false,
        }
    }
}

impl Default for DownloadArgs {
    fn default() -> (r: DownloadArgs)
        ensures
            r.input is None,
            r.input_file is None,
            r.output_dir is None,
            !r.noconfirm,
    {
        DownloadArgs { input: None, input_file: None, output_dir: None, noconfirm: false }
    }
}

/// Images named by files: of titles, of ids, or a cached search.
#[derive(Debug, Clone, PartialEq, Eq)]
pub struct FileInput {
    pub titles_input: Option<String>,
    pub ids_input: Option<String>,
    pub from_cached: Option<String>,
}

impl Default for FileInput {
    fn default() -> (r: FileInput)
        ensures
            r.titles_input is None,
            r.ids_input is None,
            r.from_cached is None,
    {
        FileInput { titles_input: None, ids_input: None, from_cached: None }
    }
}

/// Images named on the command line: by title, by id, or by category.
#[derive(Debug, Clone, PartialEq, Eq)]
pub struct StdinInput {
    pub titles: Option<Vec<String>>,
    pub ids: Option<Vec<u16>>,
    pub in_category: Option<String>,
}

impl Default for StdinInput {
    fn default() -> (r: StdinInput)
        ensures
            r.titles is None,
            r.ids is None,
            r.in_category is None,
    {
        StdinInput { titles: None, ids: None, in_category: None }
    }
}

/// Which kinds of results a search shows.
#[derive(Debug, Clone, Copy, PartialEq, Eq, Structural)]
pub struct ResultType {
    pub images: bool,
    pub categories: bool,
    pub all: bool,
}

impl ResultType {
    /// The search shows categories.
    pub fn wants_categories(&self) -> (r: bool)
        ensures
            r == (self.categories || self.all),
    {
        self.categories || self.all
    }

    /// The search shows images.
    pub fn wants_images(&self) -> (r: bool)
        ensures
            r == (self.images || self.all),
    {
        self.images || self.all
    }
}

/// How much of each result a search shows.
#[derive(Debug, Clone, Copy, PartialEq, Eq, Structural)]
pub struct DetailLevel {
    pub detailed: bool,
    pub titles: bool,
    pub ids: bool,
    pub default: bool,
}

/// Which images of the named pages to download.
#[derive(Debug, PartialEq, Eq)]
pub struct Pattern {
    pub all: bool,
    pub images: Vec<String>,
    pub images_input: String,
}

/// The pages to work on: named, or listed in a file.
#[derive(Debug, PartialEq, Eq)]
pub struct Pages {
    pub pages: Vec<String>,
    pub page_file: String,
}

/// The commands of the page tool.
#[derive(Debug, PartialEq, Eq)]
pub enum Commands {
    Fetch { output: Option<String> },
    Download { pattern: Pattern, target_dir: Option<String> },
}

/// The answer of a path check: the path where it passed, else `InvalidPathErr`.
pub open spec fn checked_path(p: String, passed: bool) -> Result<String, DestinyFetchError> {
    if passed {
        Ok(p)
    } else {
        Err(DestinyFetchError::InvalidPathErr)
    }
}

/// Turns the outcome of a path check into the argument's value.
pub fn path_check(p: String, passed: bool) -> (r: Result<String, DestinyFetchError>)
    ensures
        r == checked_path(p, passed),
{
    if passed {
        Ok(p)
    } else {
        Err(DestinyFetchError::InvalidPathErr)
    }
}

/// Whether a path names an existing directory.
///
/// Trusted: `Path::is_dir`. The answer depends on the file system at the
/// time of the call, so nothing is claimed of it.
#[verifier::external_body]
fn path_is_dir(p: &str) -> bool {
    std::path::Path::new(p).is_dir()
}

/// Whether a path names an existing file.
///
/// Trusted: `Path::is_file`. The answer depends on the file system at the
/// time of the call, so nothing is claimed of it.
#[verifier::external_body]
fn path_is_file(p: &str) -> bool {
    std::path::Path::new(p).is_file()
}

/// Accepts a path that names an existing directory.
pub fn parse_as_dir(p: String) -> (r: Result<String, DestinyFetchError>)
    ensures
        r == checked_path(p, true) || r == checked_path(p, false),
{
    let passed = path_is_dir(p.as_str());
    path_check(p, passed)
}

/// Accepts a path that names an existing file.
pub fn parse_as_file(p: String) -> (r: Result<String, DestinyFetchError>)
    ensures
        r == checked_path(p, true) || r == checked_path(p, false),
{
    let passed = path_is_file(p.as_str());
    path_check(p, passed)
}

/// What `NaiveDateTime::parse_from_str(s, "%Y-%m-%d %H:%M")` gives, as seconds
/// since the Unix epoch with the time read as UTC.
pub uninterp spec fn minute_datetime_seconds(s: Seq<char>) -> Option<i64>;

/// What `NaiveDate::parse_from_str(s, "%Y-%m-%d")` gives, as the seconds since
/// the Unix epoch of that day's UTC midnight.
pub uninterp spec fn date_midnight_seconds(s: Seq<char>) -> Option<i64>;

/// Reads a date and time of the form `2020-12-25 13:45`.
///
/// Trusted: chrono's `NaiveDateTime::parse_from_str` with the format
/// `%Y-%m-%d %H:%M`, then `and_utc().timestamp()`. Its result is named
/// `minute_datetime_seconds(s@)`; nothing more is claimed of it.
#[verifier::external_body]
fn parse_minute_datetime(s: &str) -> (r: Option<i64>)
    ensures
        r == minute_datetime_seconds(s@),
{
    chrono::NaiveDateTime::parse_from_str(s, "%Y-%m-%d %H:%M").ok().map(|d| d.and_utc().timestamp())
}

/// Reads a date of the form `2020-12-25` as its UTC midnight.
///
/// Trusted: chrono's `NaiveDate::parse_from_str` with the format `%Y-%m-%d`,
/// then midnight of that day as UTC seconds. On success the result is named
/// `date_midnight_seconds(s@)`; on failure it carries chrono's message,
/// of which nothing is claimed.
#[verifier::external_body]
fn parse_date_midnight(s: &str) -> (r: Result<i64, String>)
    ensures
        r is Ok <==> date_midnight_seconds(s@) is Some,
        r matches Ok(t) ==> date_midnight_seconds(s@) == Some(t),
{
    match chrono::NaiveDate::parse_from_str(s, "%Y-%m-%d") {
        Ok(d) => Ok(d.and_time(chrono::NaiveTime::MIN).and_utc().timestamp()),
        Err(e) => Err(e.to_string()),
    }
}

/// The instant a `--before`/`--after` argument names: read first as a date
/// and time to the minute, else as a date at midnight.
pub open spec fn utc_argument_seconds(s: Seq<char>) -> Option<i64> {
    match minute_datetime_seconds(s) {
        Some(t) => Some(t),
        None => date_midnight_seconds(s),
    }
}

/// Picks the instant from the two readings of a `--before`/`--after`
/// argument: the date-and-time reading where there is one, else the date.
pub fn utc_from_readings(minute: Option<i64>, date: Result<i64, String>) -> (r: Result<i64, DestinyFetchError>)
    ensures
        minute matches Some(t) ==> r == Ok::<i64, DestinyFetchError>(t),
        minute is None && date is Ok ==> r == Ok::<i64, DestinyFetchError>(date->Ok_0),
        minute is None && date is Err ==> r == Err::<i64, DestinyFetchError>(
            DestinyFetchError::InvalidTimestampErr(date->Err_0),
        ),
{
    match minute {
        Some(t) => Ok(t),
        None => match date {
            Ok(t) => Ok(t),
            Err(m) => Err(DestinyFetchError::InvalidTimestampErr(m)),
        },
    }
}

/// Reads a `--before`/`--after` argument as seconds since the Unix epoch;
/// fails with `InvalidTimestampErr` where it is neither form.
pub fn parse_as_utc(s: &str) -> (r: Result<i64, DestinyFetchError>)
    ensures
        match utc_argument_seconds(s@) {
            Some(t) => r == Ok::<i64, DestinyFetchError>(t),
            None => r is Err && r->Err_0 is InvalidTimestampErr,
        },
{
    match parse_minute_datetime(s) {
        Some(t) => Ok(t),
        None => utc_from_readings(None, parse_date_midnight(s)),
    }
}

} // verus!
