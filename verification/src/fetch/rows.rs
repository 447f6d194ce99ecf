//! The rows of the local image database and how wiki results become rows.
use crate::response::items::{CategoryInfo, CategoryInfoItem, ImageInfoItem, PropResults};
use crate::response::QueryResult;
use crate::text::{ascii_lowercase, ascii_only, lowercase, owned, rfind_char, str_eq, strip_prefix, to_lowercase, without_prefix, last_index_of};
use crate::fetch::error::DatabaseError;
use vstd::prelude::*;
use vstd::string::*;

verus! {

/// The file type of an image, told by the extension of its name.
#[derive(Debug, Clone, Copy, PartialEq, Eq, Structural)]
pub enum Ext {
    PNG,
    JPG,
    SVG,
    GIF,
    MP4,
    MP3,
    WEBP,
    UNKNOWN,
}

/// The file type named by an already lower-cased extension.
///
/// `gif` is filed under `SVG`, as the database has always done.
pub open spec fn ext_of_lower(t: Seq<char>) -> Ext {
    if t == "png"@ {
        Ext::PNG
    } else if t == "jpg"@ || t == "jpeg"@ {
        Ext::JPG
    } else if t == "svg"@ || t == "gif"@ {
        Ext::SVG
    } else if t == "mp4"@ {
        Ext::MP4
    } else if t == "mp3"@ {
        Ext::MP3
    } else if t == "webp"@ {
        Ext::WEBP
    } else {
        Ext::UNKNOWN
    }
}

/// The file type named by an extension, in any case.
pub open spec fn ext_of_text(s: Seq<char>) -> Ext {
    ext_of_lower(lowercase(s))
}

/// The file type of a file name: that of the text after its last `.`, or
/// `UNKNOWN` where it has none.
pub open spec fn ext_of_name(s: Seq<char>) -> Ext {
    match last_index_of(s, '.') {
        Some(i) => ext_of_text(s.subrange(i as int + 1, s.len() as int)),
        None => Ext::UNKNOWN,
    }
}

/// The extension written for a file type (its lower-case name).
pub open spec fn ext_text(e: Ext) -> Seq<char> {
    match e {
        Ext::PNG => "png"@,
        Ext::JPG => "jpg"@,
        Ext::SVG => "svg"@,
        Ext::GIF => "gif"@,
        Ext::MP4 => "mp4"@,
        Ext::MP3 => "mp3"@,
        Ext::WEBP => "webp"@,
        Ext::UNKNOWN => "unknown"@,
    }
}

/// The text a file type is stored as in the database (its variant name).
pub open spec fn ext_db_text(e: Ext) -> Seq<char> {
    match e {
        Ext::PNG => "PNG"@,
        Ext::JPG => "JPG"@,
        Ext::SVG => "SVG"@,
        Ext::GIF => "GIF"@,
        Ext::MP4 => "MP4"@,
        Ext::MP3 => "MP3"@,
        Ext::WEBP => "WEBP"@,
        Ext::UNKNOWN => "UNKNOWN"@,
    }
}

impl Ext {
    /// The file type named by an extension, in any case (what `from_str` gives).
    pub fn from_text(s: &str) -> (r: Ext)
        ensures
            r == ext_of_text(s@),
            ascii_only(s@) ==> r == ext_of_lower(ascii_lowercase(s@)),
    {
        let lower = to_lowercase(s);
        let t = lower.as_str();
        if str_eq(t, "png") {
            Ext::PNG
        } else if str_eq(t, "jpg") || str_eq(t, "jpeg") {
            Ext::JPG
        } else if str_eq(t, "svg") || str_eq(t, "gif") {
            Ext::SVG
        } else if str_eq(t, "mp4") {
            Ext::MP4
        } else if str_eq(t, "mp3") {
            Ext::MP3
        } else if str_eq(t, "webp") {
            Ext::WEBP
        } else {
            Ext::UNKNOWN
        }
    }

    /// The file type of a file name, told by the text after its last `.`.
    pub fn as_ext(value: &str) -> (r: Ext)
        ensures
            r == ext_of_name(value@),
    {
        match rfind_char(value, '.') {
            Some(i) => {
                let n = value.unicode_len();
                Ext::from_text(value.substring_char(i + 1, n))
            },
            None => Ext::UNKNOWN,
        }
    }

    /// The extension written for this file type.
    pub fn to_text(&self) -> (r: String)
        ensures
            r@ == ext_text(*self),
    {
        match self {
            Ext::PNG => owned("png"),
            Ext::JPG => owned("jpg"),
            Ext::SVG => owned("svg"),
            Ext::GIF => owned("gif"),
            Ext::MP4 => owned("mp4"),
            Ext::MP3 => owned("mp3"),
            Ext::WEBP => owned("webp"),
            Ext::UNKNOWN => owned("unknown"),
        }
    }

    /// The text this file type is stored as in the database.
    pub fn db_text(&self) -> (r: String)
        ensures
            r@ == ext_db_text(*self),
    {
        match self {
            Ext::PNG => owned("PNG"),
            Ext::JPG => owned("JPG"),
            Ext::SVG => owned("SVG"),
            Ext::GIF => owned("GIF"),
            Ext::MP4 => owned("MP4"),
            Ext::MP3 => owned("MP3"),
            Ext::WEBP => owned("WEBP"),
            Ext::UNKNOWN => owned("UNKNOWN"),
        }
    }
}

/// A file type read back from the extension written for it is the same
/// type, except that `gif` reads as `SVG`: the extension is ASCII, so
/// [`Ext::from_text`] and `from_str` give `ext_of_lower(ascii_lowercase(..))`
/// of it.
pub proof fn law_ext_text_reads_back(e: Ext)
    ensures
        ascii_only(ext_text(e)),
        ext_of_lower(ascii_lowercase(ext_text(e))) == (if e == Ext::GIF { Ext::SVG } else { e }),
{
    reveal_strlit("png");
    reveal_strlit("jpg");
    reveal_strlit("jpeg");
    reveal_strlit("svg");
    reveal_strlit("gif");
    reveal_strlit("mp4");
    reveal_strlit("mp3");
    reveal_strlit("webp");
    reveal_strlit("unknown");
    let t = ext_text(e);
    assert(ascii_lowercase(t) =~= t);
    let p = "png"@;
    let j = "jpg"@;
    let v = "svg"@;
    let m4 = "mp4"@;
    match e {
        Ext::PNG => {},
        Ext::JPG => {
            assert(t[0] != p[0]);
        },
        Ext::SVG | Ext::GIF => {
            assert(t[0] != p[0] && t[0] != j[0] && t[0] != "jpeg"@[0]);
        },
        Ext::MP4 => {
            assert(t[0] != p[0] && t[0] != j[0] && t[0] != "jpeg"@[0]);
            assert(t[0] != v[0] && t[0] != "gif"@[0]);
        },
        Ext::MP3 => {
            assert(t[0] != p[0] && t[0] != j[0] && t[0] != "jpeg"@[0]);
            assert(t[0] != v[0] && t[0] != "gif"@[0] && t[2] != m4[2]);
        },
        Ext::WEBP => {
            assert(t.len() != p.len() && t[0] != "jpeg"@[0]);
        },
        Ext::UNKNOWN => {
            assert(t.len() != p.len() && t.len() != "jpeg"@.len() && t.len() != "webp"@.len());
        },
    }
}

impl From<String> for Ext {
    fn from(value: String) -> (r: Ext) {
        Ext::from_text(value.as_str())
    }
}

impl vstd::std_specs::convert::FromSpecImpl<String> for Ext {
    open spec fn obeys_from_spec() -> bool {
        true
    }

    open spec fn from_spec(v: String) -> Ext {
        ext_of_text(v@)
    }
}

impl std::str::FromStr for Ext {
    type Err = crate::fetch::error::DestinyFetchError;

    fn from_str(s: &str) -> (r: Result<Ext, crate::fetch::error::DestinyFetchError>)
        ensures
            r == Ok::<Ext, crate::fetch::error::DestinyFetchError>(ext_of_text(s@)),
            ascii_only(s@) ==> r == Ok::<Ext, crate::fetch::error::DestinyFetchError>(
                ext_of_lower(ascii_lowercase(s@)),
            ),
    {
        Ok(Ext::from_text(s))
    }
}

/// A row of the `images` table.
#[derive(Debug, Clone, PartialEq, Eq)]
pub struct ImagesRow {
    pub id: i64,
    pub title: String,
    pub size: i64,
    pub width: i64,
    pub height: i64,
    pub url: String,
    pub timestamp: i64,
    pub extension: Ext,
}

/// A row of the `categories` table.
#[derive(Debug, Clone, PartialEq, Eq)]
pub struct CategoriesRow {
    pub id: i64,
    pub title: String,
    pub files: i64,
    pub subcats: i64,
}

/// A row of the `image_categories` table: an image belongs to a category.
#[derive(Debug, Clone, Copy, PartialEq, Eq, Structural)]
pub struct ImageCategoryRow {
    pub image_id: i64,
    pub category_id: i64,
}

/// A row of the `subcategories` table: a category belongs to another.
#[derive(Debug, Clone, Copy, PartialEq, Eq, Structural)]
pub struct SubCategoryRow {
    pub category_id: i64,
    pub subcategory_id: i64,
}

/// A row of any table of the database.
#[derive(Debug, Clone, PartialEq, Eq)]
pub enum Row {
    Images(ImagesRow),
    Categories(CategoriesRow),
    ImageCategory(ImageCategoryRow),
    SubCategory(SubCategoryRow),
}

/// `s` without the prefix `p`, or `s` itself where it does not start with `p`.
pub open spec fn strip_or_keep(s: Seq<char>, p: Seq<char>) -> Seq<char> {
    match without_prefix(s, p) {
        Some(t) => t,
        None => s,
    }
}

fn strip_or_keep_exec(s: String, p: &str) -> (r: String)
    ensures
        r@ == strip_or_keep(s@, p@),
{
    match strip_prefix(s.as_str(), p) {
        Some(t) => t,
        None => s,
    }
}

/// What `"<timestamp>".parse::<DateTime<Utc>>()` gives, in seconds since the
/// Unix epoch: the instant of a relaxed RFC 3339 timestamp, if it is one.
pub uninterp spec fn utc_timestamp_of(s: Seq<char>) -> Option<i64>;

/// Reads a wiki timestamp as seconds since the Unix epoch.
///
/// Trusted: chrono's `FromStr for DateTime<Utc>` followed by `timestamp()`.
/// Its result is named `utc_timestamp_of(s@)`; nothing more is claimed of it.
#[verifier::external_body]
fn parse_utc_timestamp(s: &str) -> (r: Option<i64>)
    ensures
        r == utc_timestamp_of(s@),
{
    s.parse::<chrono::DateTime<chrono::Utc>>().ok().map(|d| d.timestamp())
}

/// The row a category result gives, if its category info carries the
/// numbers of files and of subcategories.
pub open spec fn categories_row_fields(q: QueryResult) -> Option<(i64, Seq<char>, i64, i64)> {
    match q.categoryinfo {
        Some(CategoryInfo(CategoryInfoItem { files: Some(f), subcats: Some(s), .. })) => Some(
            (q.pageid as i64, strip_or_keep(q.title@, "Category:"@), f as i64, s as i64),
        ),
        _ => None,
    }
}

/// The fields of the row an image result gives, if its first file revision
/// carries every field and a readable timestamp: id, title, size in KiB,
/// width, height, url, timestamp and file type.
pub open spec fn images_row_fields(q: QueryResult) -> Option<
    (i64, Seq<char>, i64, i64, i64, Seq<char>, i64, Ext),
> {
    match q.imageinfo {
        Some(ii) => if ii.spec_items().len() > 0 {
            let item = ii.spec_items()[0];
            match item {
                ImageInfoItem {
                    canonicaltitle: Some(t),
                    size: Some(sz),
                    width: Some(w),
                    height: Some(h),
                    url: Some(u),
                    timestamp: Some(ts),
                } => match utc_timestamp_of(ts@) {
                    Some(secs) => Some(
                        (
                            q.pageid as i64,
                            strip_or_keep(t@, "File:"@),
                            (sz / 1024) as i64,
                            w as i64,
                            h as i64,
                            u@,
                            secs,
                            ext_of_name(t@),
                        ),
                    ),
                    None => None,
                },
                _ => None,
            }
        } else {
            None
        },
        None => None,
    }
}

/// The row of an image result takes every field from the first revision of
/// its image info: the row's url is that revision's url, its title the
/// revision's canonical title without `File:`, its size the revision's bytes
/// in whole KiB, its width and height the revision's, its time the
/// revision's timestamp read as seconds and its file type that of the
/// canonical title; its id is the page id. A row is given exactly when that
/// revision carries all of them and its timestamp can be read.
pub proof fn law_image_row_from_first_revision(q: QueryResult)
    ensures
        images_row_fields(q) is Some <==> ({
            &&& q.imageinfo is Some
            &&& q.imageinfo->0.spec_items().len() > 0
            &&& q.imageinfo->0.spec_items()[0].canonicaltitle is Some
            &&& q.imageinfo->0.spec_items()[0].size is Some
            &&& q.imageinfo->0.spec_items()[0].width is Some
            &&& q.imageinfo->0.spec_items()[0].height is Some
            &&& q.imageinfo->0.spec_items()[0].url is Some
            &&& q.imageinfo->0.spec_items()[0].timestamp is Some
            &&& utc_timestamp_of(q.imageinfo->0.spec_items()[0].timestamp->0@) is Some
        }),
        images_row_fields(q) is Some ==> ({
            let item = q.imageinfo->0.spec_items()[0];
            let f = images_row_fields(q)->0;
            &&& f.0 == q.pageid as i64
            &&& f.1 == strip_or_keep(item.canonicaltitle->0@, "File:"@)
            &&& f.2 == item.size->0 / 1024
            &&& f.3 == item.width->0
            &&& f.4 == item.height->0
            &&& f.5 == item.url->0@
            &&& Some(f.6) == utc_timestamp_of(item.timestamp->0@)
            &&& f.7 == ext_of_name(item.canonicaltitle->0@)
        }),
{
}

/// The row of a category result takes its file count and subcategory
/// count from the category info, in that order, its id from the page id and
/// its title from the page title without `Category:`; a row is given
/// exactly when both counts are there.
pub proof fn law_category_row_from_info(q: QueryResult)
    ensures
        match q.categoryinfo {
            Some(CategoryInfo(info)) => match (info.files, info.subcats) {
                (Some(files), Some(subcats)) => categories_row_fields(q) == Some(
                    (q.pageid as i64, strip_or_keep(q.title@, "Category:"@), files as i64, subcats as i64),
                ),
                _ => categories_row_fields(q) is None,
            },
            None => categories_row_fields(q) is None,
        },
{
}

/// The fields of an images row.
pub open spec fn images_row_view(r: ImagesRow) -> (i64, Seq<char>, i64, i64, i64, Seq<char>, i64, Ext) {
    (r.id, r.title@, r.size, r.width, r.height, r.url@, r.timestamp, r.extension)
}

/// The fields of a categories row.
pub open spec fn categories_row_view(r: CategoriesRow) -> (i64, Seq<char>, i64, i64) {
    (r.id, r.title@, r.files, r.subcats)
}

impl CategoriesRow {
    /// The row of a category result; fails where its category info lacks the
    /// number of files or of subcategories.
    pub fn try_from(query: QueryResult) -> (r: Result<CategoriesRow, DatabaseError>)
        ensures
            match categories_row_fields(query) {
                Some(f) => r matches Ok(row) && categories_row_view(row) == f,
                None => r == Err::<CategoriesRow, DatabaseError>(DatabaseError::IntoRowConvertError),
            },
    {
        match query.categoryinfo {
            Some(CategoryInfo(CategoryInfoItem { files: Some(files), subcats: Some(subcats), .. })) => {
                let title = strip_or_keep_exec(query.title, "Category:");
                Ok(
                    CategoriesRow {
                        id: query.pageid as i64,
                        title,
                        files: files as i64,
                        subcats: subcats as i64,
                    },
                )
            },
            _ => Err(DatabaseError::IntoRowConvertError),
        }
    }
}

impl ImagesRow {
    /// The row of an image result; fails where the first revision of its
    /// image info lacks a field or its timestamp cannot be read.
    pub fn try_from(query: QueryResult) -> (r: Result<ImagesRow, DatabaseError>)
        ensures
            match images_row_fields(query) {
                Some(f) => r matches Ok(row) && images_row_view(row) == f,
                None => r == Err::<ImagesRow, DatabaseError>(DatabaseError::IntoRowConvertError),
            },
            r is Ok ==> query.imageinfo is Some && query.imageinfo->0.spec_items().len() > 0
                && query.imageinfo->0.spec_items()[0].url is Some && r->Ok_0.url@
                == query.imageinfo->0.spec_items()[0].url->0@,
    {
        let pageid = query.pageid;
        match query.imageinfo {
            Some(ii) => {
                let ghost items = ii.spec_items();
                let mut v = ii.into_items();
                if v.len() == 0 {
                    return Err(DatabaseError::IntoRowConvertError);
                }
                let item = v.remove(0);
                assert(item == items[0]);
                match item {
                    ImageInfoItem {
                        canonicaltitle: Some(title_),
                        size: Some(size_),
                        width: Some(width),
                        height: Some(height),
                        url: Some(url),
                        timestamp: Some(timestamp),
                    } => match parse_utc_timestamp(timestamp.as_str()) {
                        Some(secs) => {
                            let extension = Ext::as_ext(title_.as_str());
                            let title = strip_or_keep_exec(title_, "File:");
                            Ok(
                                ImagesRow {
                                    id: pageid as i64,
                                    extension,
                                    title,
                                    size: (size_ / 1024) as i64,
                                    width: width as i64,
                                    height: height as i64,
                                    url,
                                    timestamp: secs,
                                },
                            )
                        },
                        None => Err(DatabaseError::IntoRowConvertError),
                    },
                    _ => Err(DatabaseError::IntoRowConvertError),
                }
            },
            None => Err(DatabaseError::IntoRowConvertError),
        }
    }
}

} // verus!
