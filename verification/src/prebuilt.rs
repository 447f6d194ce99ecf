//! Ready-made request parameters for the common lookups of pages, files
//! and categories, as JSON objects of text values (keys ascending).
use crate::request::param_map::{insert_all, put, EntryView, ParamMap, ParamValue, ParamView};
use crate::text::{has_prefix, join_pipe, join_with, owned, starts_with};
use vstd::prelude::*;

verus! {

/// A text entry.
pub open spec fn text_pair(k: Seq<char>, v: Seq<char>) -> EntryView {
    (k, ParamView::Text(v))
}

/// A name with the namespace prefix `p`, added where it is missing.
pub open spec fn with_prefix(s: Seq<char>, p: Seq<char>) -> Seq<char> {
    if has_prefix(s, p) {
        s
    } else {
        p + s
    }
}

/// The names joined with `|`.
pub fn join_opts(opts: &Vec<String>) -> (r: String)
    ensures
        r@ == join_with(opts.deep_view(), '|'),
{
    join_pipe(opts)
}

/// Every name given the prefix `p` where it lacks it.
fn prefixed(names: &Vec<String>, p: &str) -> (r: Vec<String>)
    ensures
        r.deep_view() == names.deep_view().map_values(|s: Seq<char>| with_prefix(s, p@)),
{
    let mut r: Vec<String> = Vec::new();
    let mut i: usize = 0;
    while i < names.len()
        invariant
            0 <= i <= names@.len(),
            r.deep_view() == names.deep_view().take(i as int).map_values(|s: Seq<char>| with_prefix(s, p@)),
        decreases names@.len() - i,
    {
        let name = names[i].as_str();
        let t = if starts_with(name, p) {
            owned(name)
        } else {
            let mut t = owned(p);
            t.append(name);
            t
        };
        let ghost r0 = r.deep_view();
        assert(t@ == with_prefix(names@[i as int]@, p@));
        r.push(t);
        proof {
            assert(r.deep_view() =~= r0.push(with_prefix(names@[i as int]@, p@)));
            assert(names.deep_view()[i as int] == names@[i as int]@);
            assert(names.deep_view().take(i + 1) =~= names.deep_view().take(i as int).push(names@[i as int]@));
            assert(r.deep_view() =~= names.deep_view().take(i + 1).map_values(|s: Seq<char>| with_prefix(s, p@)));
        }
        i = i + 1;
    }
    assert(names.deep_view().take(i as int) =~= names.deep_view());
    r
}

fn entries_map(pairs: &Vec<(&str, String)>) -> (m: ParamMap)
    ensures
        m@ == insert_all(Seq::<EntryView>::empty(), pairs@.map_values(|e: (&str, String)| text_pair(e.0@, e.1@))),
{
    let ghost all = pairs@.map_values(|e: (&str, String)| text_pair(e.0@, e.1@));
    let mut m = ParamMap::new();
    let mut i: usize = 0;
    while i < pairs.len()
        invariant
            0 <= i <= pairs@.len(),
            all == pairs@.map_values(|e: (&str, String)| text_pair(e.0@, e.1@)),
            m@ == insert_all(Seq::<EntryView>::empty(), all.take(i as int)),
        decreases pairs@.len() - i,
    {
        let k = owned(pairs[i].0);
        let v = owned(pairs[i].1.as_str());
        put(&mut m, k, ParamValue::Text(v), Ghost(Seq::<EntryView>::empty()), Ghost(all.take(i as int)));
        assert(all.take(i + 1) =~= all.take(i as int).push(all[i as int]));
        i = i + 1;
    }
    assert(all.take(i as int) =~= all);
    m
}

/// The lead images of pages, with their names and originals.
pub fn page_images(titles: &Vec<String>) -> (m: ParamMap)
    ensures
        m@ == insert_all(
            Seq::<EntryView>::empty(),
            seq![
                text_pair("action"@, "query"@),
                text_pair("titles"@, join_with(titles.deep_view(), '|')),
                text_pair("prop"@, "pageimages"@),
                text_pair("piprop"@, "name|original"@),
                text_pair("format"@, "json"@),
            ],
        ),
{
    let mut v: Vec<(&str, String)> = Vec::new();
    v.push(("action", owned("query")));
    v.push(("titles", join_opts(titles)));
    v.push(("prop", owned("pageimages")));
    v.push(("piprop", owned("name|original")));
    v.push(("format", owned("json")));
    let m = entries_map(&v);
    assert(v@.map_values(|e: (&str, String)| text_pair(e.0@, e.1@)) =~= seq![
        text_pair("action"@, "query"@),
        text_pair("titles"@, join_with(titles.deep_view(), '|')),
        text_pair("prop"@, "pageimages"@),
        text_pair("piprop"@, "name|original"@),
        text_pair("format"@, "json"@),
    ]);
    m
}

/// The canonical title, url and size of files, each title given the
/// `File:` prefix where it lacks it.
pub fn image_info(titles: &Vec<String>) -> (m: ParamMap)
    ensures
        m@ == insert_all(
            Seq::<EntryView>::empty(),
            seq![
                text_pair("action"@, "query"@),
                text_pair(
                    "titles"@,
                    join_with(titles.deep_view().map_values(|s: Seq<char>| with_prefix(s, "File:"@)), '|'),
                ),
                text_pair("prop"@, "imageinfo"@),
                text_pair("iiprop"@, "canonicaltitle|url|size"@),
                text_pair("format"@, "json"@),
            ],
        ),
{
    let norm_titles = prefixed(titles, "File:");
    let mut v: Vec<(&str, String)> = Vec::new();
    v.push(("action", owned("query")));
    v.push(("titles", join_opts(&norm_titles)));
    v.push(("prop", owned("imageinfo")));
    v.push(("iiprop", owned("canonicaltitle|url|size")));
    v.push(("format", owned("json")));
    let m = entries_map(&v);
    assert(v@.map_values(|e: (&str, String)| text_pair(e.0@, e.1@)) =~= seq![
        text_pair("action"@, "query"@),
        text_pair(
            "titles"@,
            join_with(titles.deep_view().map_values(|s: Seq<char>| with_prefix(s, "File:"@)), '|'),
        ),
        text_pair("prop"@, "imageinfo"@),
        text_pair("iiprop"@, "canonicaltitle|url|size"@),
        text_pair("format"@, "json"@),
    ]);
    m
}

/// The files used on pages, as many as the wiki allows.
pub fn images(titles: &Vec<String>) -> (m: ParamMap)
    ensures
        m@ == insert_all(
            Seq::<EntryView>::empty(),
            seq![
                text_pair("action"@, "query"@),
                text_pair("titles"@, join_with(titles.deep_view(), '|')),
                text_pair("prop"@, "images"@),
                text_pair("imlimit"@, "max"@),
                text_pair("format"@, "json"@),
            ],
        ),
{
    let mut v: Vec<(&str, String)> = Vec::new();
    v.push(("action", owned("query")));
    v.push(("titles", join_opts(titles)));
    v.push(("prop", owned("images")));
    v.push(("imlimit", owned("max")));
    v.push(("format", owned("json")));
    let m = entries_map(&v);
    assert(v@.map_values(|e: (&str, String)| text_pair(e.0@, e.1@)) =~= seq![
        text_pair("action"@, "query"@),
        text_pair("titles"@, join_with(titles.deep_view(), '|')),
        text_pair("prop"@, "images"@),
        text_pair("imlimit"@, "max"@),
        text_pair("format"@, "json"@),
    ]);
    m
}

/// The files in categories, each category given the `Category:` prefix
/// where it lacks it.
pub fn category_members(categories: &Vec<String>) -> (m: ParamMap)
    ensures
        m@ == insert_all(
            Seq::<EntryView>::empty(),
            seq![
                text_pair("action"@, "query"@),
                text_pair("list"@, "categorymembers"@),
                text_pair(
                    "cmtitle"@,
                    join_with(
                        categories.deep_view().map_values(|s: Seq<char>| with_prefix(s, "Category:"@)),
                        '|',
                    ),
                ),
                text_pair("cmprop"@, "ids|title|type"@),
                text_pair("cmtype"@, "file"@),
                text_pair("cmlimit"@, "max"@),
                text_pair("format"@, "json"@),
            ],
        ),
{
    let ctitles = prefixed(categories, "Category:");
    let mut v: Vec<(&str, String)> = Vec::new();
    v.push(("action", owned("query")));
    v.push(("list", owned("categorymembers")));
    v.push(("cmtitle", join_opts(&ctitles)));
    v.push(("cmprop", owned("ids|title|type")));
    v.push(("cmtype", owned("file")));
    v.push(("cmlimit", owned("max")));
    v.push(("format", owned("json")));
    let m = entries_map(&v);
    assert(v@.map_values(|e: (&str, String)| text_pair(e.0@, e.1@)) =~= seq![
        text_pair("action"@, "query"@),
        text_pair("list"@, "categorymembers"@),
        text_pair(
            "cmtitle"@,
            join_with(
                categories.deep_view().map_values(|s: Seq<char>| with_prefix(s, "Category:"@)),
                '|',
            ),
        ),
        text_pair("cmprop"@, "ids|title|type"@),
        text_pair("cmtype"@, "file"@),
        text_pair("cmlimit"@, "max"@),
        text_pair("format"@, "json"@),
    ]);
    m
}

} // verus!
