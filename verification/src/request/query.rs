//! The `query` action of the MediaWiki API: its parameters and how they are
//! written as request parameters.
use super::param_map::{
    insert_all, lemma_lookup_after_concat, lemma_lookup_after_one, lemma_lookup_insert_all_in_order, lookup,
    lookup_after, put, EntryView, ParamMap, ParamValue, ParamView,
};
use crate::text::{decimal, decimal_string, join_pipe, join_with, owned};
use crate::types::{ns_text, NAMESPACE};
use vstd::prelude::*;

verus! {

/// A MediaWiki API action: the action-specific parameters, written as the
/// entries of the request's parameter object.
pub trait Action: Sized {
    /// The entries this action writes, in order (a later entry with the same
    /// key overrides an earlier one).
    spec fn spec_entries(&self) -> Seq<EntryView>;

    /// The action with no parameter set.
    spec fn spec_default() -> Self;

    /// Writes the entries into `m`.
    fn write_entries(&self, m: &mut ParamMap)
        ensures
            final(m)@ == insert_all(old(m)@, self.spec_entries()),
    ;

    /// The action with no parameter set.
    fn default_action() -> (r: Self)
        ensures
            r == Self::spec_default(),
    ;
}

/// A text entry.
pub open spec fn text_entry(k: Seq<char>, v: Seq<char>) -> EntryView {
    (k, ParamView::Text(v))
}

/// A text entry for an optional string.
pub open spec fn opt_text_entry(k: Seq<char>, o: Option<String>) -> Seq<EntryView> {
    match o {
        Some(s) => seq![text_entry(k, s@)],
        None => Seq::<EntryView>::empty(),
    }
}

/// A number entry for an optional number.
pub open spec fn opt_number_entry(k: Seq<char>, o: Option<u32>) -> Seq<EntryView> {
    match o {
        Some(n) => seq![(k, ParamView::Number(n as u64))],
        None => Seq::<EntryView>::empty(),
    }
}

/// The properties a `query` can ask for.
#[derive(Debug, PartialEq, Eq, Structural, Clone, Copy)]
pub enum Prop {
    Info,
    PageImages,
    Images,
    ImageInfo,
    Categories,
    CategoryInfo,
}

/// The name of a property (its lowercase variant name).
pub open spec fn prop_name(p: Prop) -> Seq<char> {
    match p {
        Prop::Info => "info"@,
        Prop::PageImages => "pageimages"@,
        Prop::Images => "images"@,
        Prop::ImageInfo => "imageinfo"@,
        Prop::Categories => "categories"@,
        Prop::CategoryInfo => "categoryinfo"@,
    }
}

impl Prop {
    /// The name of the property.
    pub fn name(&self) -> (r: String)
        ensures
            r@ == prop_name(*self),
    {
        match self {
            Prop::Info => owned("info"),
            Prop::PageImages => owned("pageimages"),
            Prop::Images => owned("images"),
            Prop::ImageInfo => owned("imageinfo"),
            Prop::Categories => owned("categories"),
            Prop::CategoryInfo => owned("categoryinfo"),
        }
    }
}

/// The value of a limit parameter: a number, written as is up to 500, or
/// `max` (numbers above 500 are written as `max`).
#[derive(Debug, PartialEq, Eq, Structural, Clone, Copy)]
pub enum Limit {
    Num(u16),
    Max,
}

/// The text of a limit.
pub open spec fn limit_text(l: Limit) -> Seq<char> {
    match l {
        Limit::Max => "max"@,
        Limit::Num(n) => if n <= 500 {
            decimal(n as nat)
        } else {
            "max"@
        },
    }
}

/// The limit used when none is given.
pub open spec fn default_limit() -> Limit {
    Limit::Num(20)
}

/// The given limit, or the default one.
pub open spec fn limit_or_default(l: Option<Limit>) -> Limit {
    match l {
        Some(x) => x,
        None => default_limit(),
    }
}

impl Limit {
    /// The text of the limit.
    pub fn text(&self) -> (r: String)
        ensures
            r@ == limit_text(*self),
    {
        match self {
            Limit::Max => owned("max"),
            Limit::Num(n) => if *n <= 500 {
                decimal_string(*n as u64)
            } else {
                owned("max")
            },
        }
    }

    /// The given limit, or the default limit.
    pub fn or_default(l: Option<Limit>) -> (r: Limit)
        ensures
            r == limit_or_default(l),
    {
        match l {
            Some(x) => x,
            None => Limit::Num(20),
        }
    }
}

impl Default for Limit {
    fn default() -> (r: Limit)
        ensures
            r == default_limit(),
    {
        Limit::Num(20)
    }
}

/// How `categorymembers` names its category: by title or by page id.
#[derive(Debug, PartialEq, Eq)]
pub enum GcmIdentifier {
    GcmTitle(String),
    GcmPageid(u32),
}

/// The page generators a `query` can use.
#[derive(Debug)]
pub enum Generator {
    AllImages { gaiprefix: Option<String>, gailimit: Limit },
    AllPages { gapnamespace: Option<Vec<NAMESPACE>>, gaplimit: Limit },
    AllCategories {
        gacprefix: Option<String>,
        gacmin: Option<u32>,
        gacmax: Option<u32>,
        gaclimit: Limit,
    },
    CategoryMembers {
        identifier: GcmIdentifier,
        gcmnamespace: Option<Vec<NAMESPACE>>,
        gcmlimit: Limit,
    },
    Random,
}

/// Namespaces joined with `|`.
pub open spec fn ns_list_text(v: Seq<NAMESPACE>) -> Seq<char> {
    join_with(v.map_values(|ns: NAMESPACE| ns_text(ns)), '|')
}

/// A namespace list entry for an optional list.
pub open spec fn opt_ns_entry(k: Seq<char>, o: Option<Vec<NAMESPACE>>) -> Seq<EntryView> {
    match o {
        Some(v) => seq![text_entry(k, ns_list_text(v@))],
        None => Seq::<EntryView>::empty(),
    }
}

/// The entries a generator writes: its name under `generator`, then its
/// parameters in declaration order, absent optional ones left out.
pub open spec fn generator_entries(g: Generator) -> Seq<EntryView> {
    match g {
        Generator::AllImages { gaiprefix, gailimit } => seq![
            text_entry("generator"@, "allimages"@),
        ] + opt_text_entry("gaiprefix"@, gaiprefix) + seq![
            text_entry("gailimit"@, limit_text(gailimit)),
        ],
        Generator::AllPages { gapnamespace, gaplimit } => seq![
            text_entry("generator"@, "allpages"@),
        ] + opt_ns_entry("gapnamespace"@, gapnamespace) + seq![
            text_entry("gaplimit"@, limit_text(gaplimit)),
        ],
        Generator::AllCategories { gacprefix, gacmin, gacmax, gaclimit } => seq![
            text_entry("generator"@, "allcategories"@),
        ] + opt_text_entry("gacprefix"@, gacprefix) + opt_number_entry("gacmin"@, gacmin)
            + opt_number_entry("gacmax"@, gacmax) + seq![
            text_entry("gaclimit"@, limit_text(gaclimit)),
        ],
        Generator::CategoryMembers { identifier, gcmnamespace, gcmlimit } => seq![
            text_entry("generator"@, "categorymembers"@),
        ] + match identifier {
            GcmIdentifier::GcmTitle(t) => seq![text_entry("gcmtitle"@, t@)],
            GcmIdentifier::GcmPageid(n) => seq![("gcmpageid"@, ParamView::Number(n as u64))],
        } + opt_ns_entry("gcmnamespace"@, gcmnamespace) + seq![
            text_entry("gcmlimit"@, limit_text(gcmlimit)),
        ],
        Generator::Random => seq![text_entry("generator"@, "random"@)],
    }
}

/// Namespaces joined with `|`.
pub fn join_namespaces(v: &Vec<NAMESPACE>) -> (r: String)
    ensures
        r@ == ns_list_text(v@),
{
    let mut parts: Vec<String> = Vec::new();
    let mut i: usize = 0;
    while i < v.len()
        invariant
            0 <= i <= v.len(),
            parts@.len() == i,
            forall|j: int| 0 <= j < i ==> #[trigger] parts@[j]@ == ns_text(v@[j]),
        decreases v.len() - i,
    {
        let t = v[i].to_text();
        parts.push(t);
        i = i + 1;
    }
    let r = join_pipe(&parts);
    assert(parts.deep_view() =~= v@.map_values(|x: NAMESPACE| ns_text(x)));
    r
}

/// Numbers in decimal joined with `|`.
pub open spec fn id_list_text(v: Seq<u32>) -> Seq<char> {
    join_with(v.map_values(|n: u32| decimal(n as nat)), '|')
}

pub fn join_ids(v: &Vec<u32>) -> (r: String)
    ensures
        r@ == id_list_text(v@),
{
    let mut parts: Vec<String> = Vec::new();
    let mut i: usize = 0;
    while i < v.len()
        invariant
            0 <= i <= v.len(),
            parts@.len() == i,
            forall|j: int| 0 <= j < i ==> #[trigger] parts@[j]@ == decimal(v@[j] as nat),
        decreases v.len() - i,
    {
        let t = decimal_string(v[i] as u64);
        parts.push(t);
        i = i + 1;
    }
    let r = join_pipe(&parts);
    assert(parts.deep_view() =~= v@.map_values(|x: u32| decimal(x as nat)));
    r
}

/// Property names joined with `|`.
pub open spec fn prop_list_text(v: Seq<Prop>) -> Seq<char> {
    join_with(v.map_values(|p: Prop| prop_name(p)), '|')
}

pub fn join_props(v: &Vec<Prop>) -> (r: String)
    ensures
        r@ == prop_list_text(v@),
{
    let mut parts: Vec<String> = Vec::new();
    let mut i: usize = 0;
    while i < v.len()
        invariant
            0 <= i <= v.len(),
            parts@.len() == i,
            forall|j: int| 0 <= j < i ==> #[trigger] parts@[j]@ == prop_name(v@[j]),
        decreases v.len() - i,
    {
        let t = v[i].name();
        parts.push(t);
        i = i + 1;
    }
    let r = join_pipe(&parts);
    assert(parts.deep_view() =~= v@.map_values(|x: Prop| prop_name(x)));
    r
}

impl Generator {
    /// The `allimages` generator; the limit defaults to 20.
    pub fn allimages_with(gaiprefix: Option<String>, gailimit: Option<Limit>) -> (g: Generator)
        ensures
            g == (Generator::AllImages { gaiprefix, gailimit: limit_or_default(gailimit) }),
    {
        Generator::AllImages { gaiprefix, gailimit: Limit::or_default(gailimit) }
    }

    /// The `allpages` generator; the limit defaults to 20.
    pub fn allpages_with(gapnamespace: Option<Vec<NAMESPACE>>, gaplimit: Option<Limit>) -> (g:
        Generator)
        ensures
            g == (Generator::AllPages { gapnamespace, gaplimit: limit_or_default(gaplimit) }),
    {
        Generator::AllPages { gapnamespace, gaplimit: Limit::or_default(gaplimit) }
    }

    /// The `allcategories` generator; the limit defaults to 20.
    pub fn allcategories_with(
        gacprefix: Option<String>,
        gacmin: Option<u32>,
        gacmax: Option<u32>,
        gaclimit: Option<Limit>,
    ) -> (g: Generator)
        ensures
            g == (Generator::AllCategories {
                gacprefix,
                gacmin,
                gacmax,
                gaclimit: limit_or_default(gaclimit),
            }),
    {
        Generator::AllCategories { gacprefix, gacmin, gacmax, gaclimit: Limit::or_default(gaclimit) }
    }

    /// The `categorymembers` generator; the limit defaults to 20.
    pub fn categorymembers_with(
        identifier: GcmIdentifier,
        gcmnamespace: Option<Vec<NAMESPACE>>,
        gcmlimit: Option<Limit>,
    ) -> (g: Generator)
        ensures
            g == (Generator::CategoryMembers {
                identifier,
                gcmnamespace,
                gcmlimit: limit_or_default(gcmlimit),
            }),
    {
        Generator::CategoryMembers { identifier, gcmnamespace, gcmlimit: Limit::or_default(gcmlimit) }
    }

    /// Writes the generator's entries into `m`.
    pub fn write_entries(&self, m: &mut ParamMap)
        ensures
            final(m)@ == insert_all(old(m)@, generator_entries(*self)),
    {
        let ghost base = m@;
        let ghost mut done = Seq::<EntryView>::empty();
        assert(m@ == insert_all(base, done));
        match self {
            Generator::AllImages { gaiprefix, gailimit } => {
                put(m, owned("generator"), ParamValue::Text(owned("allimages")), Ghost(base), Ghost(done));
                proof { done = done.push(text_entry("generator"@, "allimages"@)); }
                if let Some(p) = gaiprefix {
                    put(m, owned("gaiprefix"), ParamValue::Text(owned(p.as_str())), Ghost(base), Ghost(done));
                    proof { done = done.push(text_entry("gaiprefix"@, p@)); }
                }
                put(m, owned("gailimit"), ParamValue::Text(gailimit.text()), Ghost(base), Ghost(done));
                proof { done = done.push(text_entry("gailimit"@, limit_text(*gailimit))); }
            },
            Generator::AllPages { gapnamespace, gaplimit } => {
                put(m, owned("generator"), ParamValue::Text(owned("allpages")), Ghost(base), Ghost(done));
                proof { done = done.push(text_entry("generator"@, "allpages"@)); }
                if let Some(v) = gapnamespace {
                    put(m, owned("gapnamespace"), ParamValue::Text(join_namespaces(v)), Ghost(base), Ghost(done));
                    proof { done = done.push(text_entry("gapnamespace"@, ns_list_text(v@))); }
                }
                put(m, owned("gaplimit"), ParamValue::Text(gaplimit.text()), Ghost(base), Ghost(done));
                proof { done = done.push(text_entry("gaplimit"@, limit_text(*gaplimit))); }
            },
            Generator::AllCategories { gacprefix, gacmin, gacmax, gaclimit } => {
                put(m, owned("generator"), ParamValue::Text(owned("allcategories")), Ghost(base), Ghost(done));
                proof { done = done.push(text_entry("generator"@, "allcategories"@)); }
                if let Some(p) = gacprefix {
                    put(m, owned("gacprefix"), ParamValue::Text(owned(p.as_str())), Ghost(base), Ghost(done));
                    proof { done = done.push(text_entry("gacprefix"@, p@)); }
                }
                if let Some(n) = gacmin {
                    put(m, owned("gacmin"), ParamValue::Number(*n as u64), Ghost(base), Ghost(done));
                    proof { done = done.push(("gacmin"@, ParamView::Number(*n as u64))); }
                }
                if let Some(n) = gacmax {
                    put(m, owned("gacmax"), ParamValue::Number(*n as u64), Ghost(base), Ghost(done));
                    proof { done = done.push(("gacmax"@, ParamView::Number(*n as u64))); }
                }
                put(m, owned("gaclimit"), ParamValue::Text(gaclimit.text()), Ghost(base), Ghost(done));
                proof { done = done.push(text_entry("gaclimit"@, limit_text(*gaclimit))); }
            },
            Generator::CategoryMembers { identifier, gcmnamespace, gcmlimit } => {
                put(m, owned("generator"), ParamValue::Text(owned("categorymembers")), Ghost(base), Ghost(done));
                proof { done = done.push(text_entry("generator"@, "categorymembers"@)); }
                match identifier {
                    GcmIdentifier::GcmTitle(t) => {
                        put(m, owned("gcmtitle"), ParamValue::Text(owned(t.as_str())), Ghost(base), Ghost(done));
                        proof { done = done.push(text_entry("gcmtitle"@, t@)); }
                    },
                    GcmIdentifier::GcmPageid(n) => {
                        put(m, owned("gcmpageid"), ParamValue::Number(*n as u64), Ghost(base), Ghost(done));
                        proof { done = done.push(("gcmpageid"@, ParamView::Number(*n as u64))); }
                    },
                }
                if let Some(v) = gcmnamespace {
                    put(m, owned("gcmnamespace"), ParamValue::Text(join_namespaces(v)), Ghost(base), Ghost(done));
                    proof { done = done.push(text_entry("gcmnamespace"@, ns_list_text(v@))); }
                }
                put(m, owned("gcmlimit"), ParamValue::Text(gcmlimit.text()), Ghost(base), Ghost(done));
                proof { done = done.push(text_entry("gcmlimit"@, limit_text(*gcmlimit))); }
            },
            Generator::Random => {
                put(m, owned("generator"), ParamValue::Text(owned("random")), Ghost(base), Ghost(done));
                proof { done = done.push(text_entry("generator"@, "random"@)); }
            },
        }
        assert(done =~= generator_entries(*self));
    }
}

/// The parameters of the `query` action.
#[derive(Debug)]
pub struct Query {
    pub titles: Option<Vec<String>>,
    pub pageids: Option<Vec<u32>>,
    pub prop: Option<Vec<Prop>>,
    pub generator: Option<Generator>,
    pub indexpageids: bool,
    pub cont: Option<(String, String)>,
}

/// A query with no parameter set.
pub open spec fn empty_query() -> Query {
    Query {
        titles: None,
        pageids: None,
        prop: None,
        generator: None,
        indexpageids: false,
        cont: None,
    }
}

/// The entries a query writes: `action=query`, then `titles`, `pageids` and
/// `prop` (lists joined with `|`), the generator's entries, `indexpageids`
/// when set, and the continuation pair; absent parameters are left out.
pub open spec fn query_entries(q: Query) -> Seq<EntryView> {
    seq![text_entry("action"@, "query"@)] + match q.titles {
        Some(t) => seq![text_entry("titles"@, join_with(t.deep_view(), '|'))],
        None => Seq::<EntryView>::empty(),
    } + match q.pageids {
        Some(p) => seq![text_entry("pageids"@, id_list_text(p@))],
        None => Seq::<EntryView>::empty(),
    } + match q.prop {
        Some(p) => seq![text_entry("prop"@, prop_list_text(p@))],
        None => Seq::<EntryView>::empty(),
    } + match q.generator {
        Some(g) => generator_entries(g),
        None => Seq::<EntryView>::empty(),
    } + if q.indexpageids {
        seq![("indexpageids"@, ParamView::Flag(true))]
    } else {
        Seq::<EntryView>::empty()
    } + match q.cont {
        Some(c) => seq![text_entry(c.0@, c.1@)],
        None => Seq::<EntryView>::empty(),
    }
}

impl Default for Query {
    fn default() -> (r: Query)
        ensures
            r == empty_query(),
    {
        Query {
            titles: None,
            pageids: None,
            prop: None,
            generator: None,
            indexpageids: false,
            cont: None,
        }
    }
}

impl Action for Query {
    open spec fn spec_entries(&self) -> Seq<EntryView> {
        query_entries(*self)
    }

    open spec fn spec_default() -> Self {
        empty_query()
    }

    fn write_entries(&self, m: &mut ParamMap) {
        let ghost base = m@;
        let ghost mut done = Seq::<EntryView>::empty();
        assert(m@ == insert_all(base, done));
        put(m, owned("action"), ParamValue::Text(owned("query")), Ghost(base), Ghost(done));
        proof { done = done.push(text_entry("action"@, "query"@)); }
        if let Some(t) = &self.titles {
            put(m, owned("titles"), ParamValue::Text(join_pipe(t)), Ghost(base), Ghost(done));
            proof { done = done.push(text_entry("titles"@, join_with(t.deep_view(), '|'))); }
        }
        if let Some(p) = &self.pageids {
            put(m, owned("pageids"), ParamValue::Text(join_ids(p)), Ghost(base), Ghost(done));
            proof { done = done.push(text_entry("pageids"@, id_list_text(p@))); }
        }
        if let Some(p) = &self.prop {
            put(m, owned("prop"), ParamValue::Text(join_props(p)), Ghost(base), Ghost(done));
            proof { done = done.push(text_entry("prop"@, prop_list_text(p@))); }
        }
        if let Some(g) = &self.generator {
            g.write_entries(m);
            proof {
                super::param_map::lemma_insert_all_concat(base, done, generator_entries(*g));
                done = done + generator_entries(*g);
            }
        }
        if self.indexpageids {
            put(m, owned("indexpageids"), ParamValue::Flag(true), Ghost(base), Ghost(done));
            proof { done = done.push(("indexpageids"@, ParamView::Flag(true))); }
        }
        if let Some(c) = &self.cont {
            put(m, owned(c.0.as_str()), ParamValue::Text(owned(c.1.as_str())), Ghost(base), Ghost(done));
            proof { done = done.push(text_entry(c.0@, c.1@)); }
        }
        assert(done =~= query_entries(*self));
    }

    fn default_action() -> (r: Self) {
        Query::default()
    }
}

/// Image information properties (`iiprop` values).
#[derive(Debug, PartialEq, Eq, Structural, Clone, Copy)]
pub enum ImageInfoProp {
    Timestamp,
    User,
    Userid,
    Comment,
    Parsedcomment,
    Canonicaltitle,
    Url,
    Size,
    Dimensions,
    SHA1,
    Mime,
    Mediatype,
    Metadata,
    Commonmetadata,
    Extmetadata,
}

impl ImageInfoProp {
    /// The name of the property (its lowercase variant name).
    pub fn name(&self) -> (r: String)
        ensures
            r@ == match self {
                ImageInfoProp::Timestamp => "timestamp"@,
                ImageInfoProp::User => "user"@,
                ImageInfoProp::Userid => "userid"@,
                ImageInfoProp::Comment => "comment"@,
                ImageInfoProp::Parsedcomment => "parsedcomment"@,
                ImageInfoProp::Canonicaltitle => "canonicaltitle"@,
                ImageInfoProp::Url => "url"@,
                ImageInfoProp::Size => "size"@,
                ImageInfoProp::Dimensions => "dimensions"@,
                ImageInfoProp::SHA1 => "sha1"@,
                ImageInfoProp::Mime => "mime"@,
                ImageInfoProp::Mediatype => "mediatype"@,
                ImageInfoProp::Metadata => "metadata"@,
                ImageInfoProp::Commonmetadata => "commonmetadata"@,
                ImageInfoProp::Extmetadata => "extmetadata"@,
            },
    {
        match self {
            ImageInfoProp::Timestamp => owned("timestamp"),
            ImageInfoProp::User => owned("user"),
            ImageInfoProp::Userid => owned("userid"),
            ImageInfoProp::Comment => owned("comment"),
            ImageInfoProp::Parsedcomment => owned("parsedcomment"),
            ImageInfoProp::Canonicaltitle => owned("canonicaltitle"),
            ImageInfoProp::Url => owned("url"),
            ImageInfoProp::Size => owned("size"),
            ImageInfoProp::Dimensions => owned("dimensions"),
            ImageInfoProp::SHA1 => owned("sha1"),
            ImageInfoProp::Mime => owned("mime"),
            ImageInfoProp::Mediatype => owned("mediatype"),
            ImageInfoProp::Metadata => owned("metadata"),
            ImageInfoProp::Commonmetadata => owned("commonmetadata"),
            ImageInfoProp::Extmetadata => owned("extmetadata"),
        }
    }
}

/// Category member properties (`cmprop` values).
#[derive(Debug, PartialEq, Eq, Structural, Clone, Copy)]
pub enum CategoryProp {
    Ids,
    Title,
    Sortkey,
    Sortkeyprefix,
    Type,
    Timestamp,
}

impl CategoryProp {
    /// The name of the property (its lowercase variant name).
    pub fn name(&self) -> (r: String)
        ensures
            r@ == match self {
                CategoryProp::Ids => "ids"@,
                CategoryProp::Title => "title"@,
                CategoryProp::Sortkey => "sortkey"@,
                CategoryProp::Sortkeyprefix => "sortkeyprefix"@,
                CategoryProp::Type => "type"@,
                CategoryProp::Timestamp => "timestamp"@,
            },
    {
        match self {
            CategoryProp::Ids => owned("ids"),
            CategoryProp::Title => owned("title"),
            CategoryProp::Sortkey => owned("sortkey"),
            CategoryProp::Sortkeyprefix => owned("sortkeyprefix"),
            CategoryProp::Type => owned("type"),
            CategoryProp::Timestamp => owned("timestamp"),
        }
    }
}

// ---------------------------------------------------------------------------
// what a generator writes, key by key
// ---------------------------------------------------------------------------

/// The value an optional text entry leaves under `k`.
proof fn lemma_after_opt_text(key: Seq<char>, o: Option<String>, k: Seq<char>, d: Option<ParamView>)
    ensures
        lookup_after(opt_text_entry(key, o), k, d) == if key == k && o is Some {
            Some(ParamView::Text(o->0@))
        } else {
            d
        },
{
    if o is Some {
        lemma_lookup_after_one(text_entry(key, o->0@), k, d);
    }
}

/// The value an optional number entry leaves under `k`.
proof fn lemma_after_opt_number(key: Seq<char>, o: Option<u32>, k: Seq<char>, d: Option<ParamView>)
    ensures
        lookup_after(opt_number_entry(key, o), k, d) == if key == k && o is Some {
            Some(ParamView::Number(o->0 as u64))
        } else {
            d
        },
{
    if o is Some {
        lemma_lookup_after_one((key, ParamView::Number(o->0 as u64)), k, d);
    }
}

/// The value an optional namespace list entry leaves under `k`.
proof fn lemma_after_opt_ns(key: Seq<char>, o: Option<Vec<NAMESPACE>>, k: Seq<char>, d: Option<ParamView>)
    ensures
        lookup_after(opt_ns_entry(key, o), k, d) == if key == k && o is Some {
            Some(ParamView::Text(ns_list_text(o->0@)))
        } else {
            d
        },
{
    if o is Some {
        lemma_lookup_after_one(text_entry(key, ns_list_text(o->0@)), k, d);
    }
}

/// What the entries of a generator leave under any key, starting from `d`.
proof fn lemma_generator_after(g: Generator, k: Seq<char>, d: Option<ParamView>)
    ensures
        lookup_after(generator_entries(g), k, d) == match g {
            Generator::AllImages { gaiprefix, gailimit } => if k == "gailimit"@ {
                Some(ParamView::Text(limit_text(gailimit)))
            } else if k == "gaiprefix"@ && gaiprefix is Some {
                Some(ParamView::Text(gaiprefix->0@))
            } else if k == "generator"@ {
                Some(ParamView::Text("allimages"@))
            } else {
                d
            },
            Generator::AllPages { gapnamespace, gaplimit } => if k == "gaplimit"@ {
                Some(ParamView::Text(limit_text(gaplimit)))
            } else if k == "gapnamespace"@ && gapnamespace is Some {
                Some(ParamView::Text(ns_list_text(gapnamespace->0@)))
            } else if k == "generator"@ {
                Some(ParamView::Text("allpages"@))
            } else {
                d
            },
            Generator::AllCategories { gacprefix, gacmin, gacmax, gaclimit } => if k == "gaclimit"@ {
                Some(ParamView::Text(limit_text(gaclimit)))
            } else if k == "gacmax"@ && gacmax is Some {
                Some(ParamView::Number(gacmax->0 as u64))
            } else if k == "gacmin"@ && gacmin is Some {
                Some(ParamView::Number(gacmin->0 as u64))
            } else if k == "gacprefix"@ && gacprefix is Some {
                Some(ParamView::Text(gacprefix->0@))
            } else if k == "generator"@ {
                Some(ParamView::Text("allcategories"@))
            } else {
                d
            },
            Generator::CategoryMembers { identifier, gcmnamespace, gcmlimit } => if k == "gcmlimit"@ {
                Some(ParamView::Text(limit_text(gcmlimit)))
            } else if k == "gcmnamespace"@ && gcmnamespace is Some {
                Some(ParamView::Text(ns_list_text(gcmnamespace->0@)))
            } else if identifier is GcmTitle && k == "gcmtitle"@ {
                Some(ParamView::Text(identifier->GcmTitle_0@))
            } else if identifier is GcmPageid && k == "gcmpageid"@ {
                Some(ParamView::Number(identifier->GcmPageid_0 as u64))
            } else if k == "generator"@ {
                Some(ParamView::Text("categorymembers"@))
            } else {
                d
            },
            Generator::Random => if k == "generator"@ {
                Some(ParamView::Text("random"@))
            } else {
                d
            },
        },
{
    match g {
        Generator::AllImages { gaiprefix, gailimit } => {
            let a = seq![text_entry("generator"@, "allimages"@)];
            let b = opt_text_entry("gaiprefix"@, gaiprefix);
            let f = seq![text_entry("gailimit"@, limit_text(gailimit))];
            lemma_lookup_after_concat(a + b, f, k, d);
            lemma_lookup_after_concat(a, b, k, d);
            lemma_lookup_after_one(a[0], k, d);
            lemma_after_opt_text("gaiprefix"@, gaiprefix, k, lookup_after(a, k, d));
            lemma_lookup_after_one(f[0], k, lookup_after(a + b, k, d));
        },
        Generator::AllPages { gapnamespace, gaplimit } => {
            let a = seq![text_entry("generator"@, "allpages"@)];
            let b = opt_ns_entry("gapnamespace"@, gapnamespace);
            let f = seq![text_entry("gaplimit"@, limit_text(gaplimit))];
            lemma_lookup_after_concat(a + b, f, k, d);
            lemma_lookup_after_concat(a, b, k, d);
            lemma_lookup_after_one(a[0], k, d);
            lemma_after_opt_ns("gapnamespace"@, gapnamespace, k, lookup_after(a, k, d));
            lemma_lookup_after_one(f[0], k, lookup_after(a + b, k, d));
        },
        Generator::AllCategories { gacprefix, gacmin, gacmax, gaclimit } => {
            let a = seq![text_entry("generator"@, "allcategories"@)];
            let b = opt_text_entry("gacprefix"@, gacprefix);
            let c = opt_number_entry("gacmin"@, gacmin);
            let e = opt_number_entry("gacmax"@, gacmax);
            let f = seq![text_entry("gaclimit"@, limit_text(gaclimit))];
            lemma_lookup_after_concat(a + b + c + e, f, k, d);
            lemma_lookup_after_concat(a + b + c, e, k, d);
            lemma_lookup_after_concat(a + b, c, k, d);
            lemma_lookup_after_concat(a, b, k, d);
            lemma_lookup_after_one(a[0], k, d);
            lemma_after_opt_text("gacprefix"@, gacprefix, k, lookup_after(a, k, d));
            lemma_after_opt_number("gacmin"@, gacmin, k, lookup_after(a + b, k, d));
            lemma_after_opt_number("gacmax"@, gacmax, k, lookup_after(a + b + c, k, d));
            lemma_lookup_after_one(f[0], k, lookup_after(a + b + c + e, k, d));
        },
        Generator::CategoryMembers { identifier, gcmnamespace, gcmlimit } => {
            let a = seq![text_entry("generator"@, "categorymembers"@)];
            let b = match identifier {
                GcmIdentifier::GcmTitle(t) => seq![text_entry("gcmtitle"@, t@)],
                GcmIdentifier::GcmPageid(n) => seq![("gcmpageid"@, ParamView::Number(n as u64))],
            };
            let c = opt_ns_entry("gcmnamespace"@, gcmnamespace);
            let f = seq![text_entry("gcmlimit"@, limit_text(gcmlimit))];
            lemma_lookup_after_concat(a + b + c, f, k, d);
            lemma_lookup_after_concat(a + b, c, k, d);
            lemma_lookup_after_concat(a, b, k, d);
            lemma_lookup_after_one(a[0], k, d);
            lemma_lookup_after_one(b[0], k, lookup_after(a, k, d));
            lemma_after_opt_ns("gcmnamespace"@, gcmnamespace, k, lookup_after(a + b, k, d));
            lemma_lookup_after_one(f[0], k, lookup_after(a + b + c, k, d));
        },
        Generator::Random => {
            lemma_lookup_after_one(text_entry("generator"@, "random"@), k, d);
        },
    }
}

/// What a generator writes, key by key, over a map `m`: `generator` holds
/// its name, each of its parameters is under its own key (later keys of the
/// list win, but no two coincide), an absent optional parameter leaves its
/// key as it was in `m`, and every other key is left as it was.
pub proof fn law_generator_key_values(g: Generator, m: Seq<EntryView>, k: Seq<char>)
    ensures
        lookup(insert_all(m, generator_entries(g)), k) == match g {
            Generator::AllImages { gaiprefix, gailimit } => if k == "gailimit"@ {
                Some(ParamView::Text(limit_text(gailimit)))
            } else if k == "gaiprefix"@ && gaiprefix is Some {
                Some(ParamView::Text(gaiprefix->0@))
            } else if k == "generator"@ {
                Some(ParamView::Text("allimages"@))
            } else {
                lookup(m, k)
            },
            Generator::AllPages { gapnamespace, gaplimit } => if k == "gaplimit"@ {
                Some(ParamView::Text(limit_text(gaplimit)))
            } else if k == "gapnamespace"@ && gapnamespace is Some {
                Some(ParamView::Text(ns_list_text(gapnamespace->0@)))
            } else if k == "generator"@ {
                Some(ParamView::Text("allpages"@))
            } else {
                lookup(m, k)
            },
            Generator::AllCategories { gacprefix, gacmin, gacmax, gaclimit } => if k == "gaclimit"@ {
                Some(ParamView::Text(limit_text(gaclimit)))
            } else if k == "gacmax"@ && gacmax is Some {
                Some(ParamView::Number(gacmax->0 as u64))
            } else if k == "gacmin"@ && gacmin is Some {
                Some(ParamView::Number(gacmin->0 as u64))
            } else if k == "gacprefix"@ && gacprefix is Some {
                Some(ParamView::Text(gacprefix->0@))
            } else if k == "generator"@ {
                Some(ParamView::Text("allcategories"@))
            } else {
                lookup(m, k)
            },
            Generator::CategoryMembers { identifier, gcmnamespace, gcmlimit } => if k == "gcmlimit"@ {
                Some(ParamView::Text(limit_text(gcmlimit)))
            } else if k == "gcmnamespace"@ && gcmnamespace is Some {
                Some(ParamView::Text(ns_list_text(gcmnamespace->0@)))
            } else if identifier is GcmTitle && k == "gcmtitle"@ {
                Some(ParamView::Text(identifier->GcmTitle_0@))
            } else if identifier is GcmPageid && k == "gcmpageid"@ {
                Some(ParamView::Number(identifier->GcmPageid_0 as u64))
            } else if k == "generator"@ {
                Some(ParamView::Text("categorymembers"@))
            } else {
                lookup(m, k)
            },
            Generator::Random => if k == "generator"@ {
                Some(ParamView::Text("random"@))
            } else {
                lookup(m, k)
            },
        },
{
    lemma_lookup_insert_all_in_order(m, generator_entries(g), k);
    lemma_generator_after(g, k, lookup(m, k));
}

/// The all-categories generator writes its lower bound under `gacmin` and
/// its upper bound under `gacmax`, its prefix under `gacprefix` and its limit
/// under `gaclimit`; a bound that is not given leaves its key as it was.
pub proof fn law_allcategories_bounds(
    gacprefix: Option<String>,
    gacmin: Option<u32>,
    gacmax: Option<u32>,
    gaclimit: Limit,
    m: Seq<EntryView>,
)
    ensures
        ({
            let r = insert_all(m, generator_entries((Generator::AllCategories { gacprefix, gacmin, gacmax, gaclimit })));
            &&& lookup(r, "generator"@) == Some(ParamView::Text("allcategories"@))
            &&& lookup(r, "gacmin"@) == match gacmin {
                Some(n) => Some(ParamView::Number(n as u64)),
                None => lookup(m, "gacmin"@),
            }
            &&& lookup(r, "gacmax"@) == match gacmax {
                Some(n) => Some(ParamView::Number(n as u64)),
                None => lookup(m, "gacmax"@),
            }
            &&& lookup(r, "gacprefix"@) == match gacprefix {
                Some(p) => Some(ParamView::Text(p@)),
                None => lookup(m, "gacprefix"@),
            }
            &&& lookup(r, "gaclimit"@) == Some(ParamView::Text(limit_text(gaclimit)))
        }),
{
    let g = Generator::AllCategories { gacprefix, gacmin, gacmax, gaclimit };
    reveal_strlit("generator");
    reveal_strlit("gacprefix");
    reveal_strlit("gacmin");
    reveal_strlit("gacmax");
    reveal_strlit("gaclimit");
    assert("generator"@.len() == 9 && "gacprefix"@.len() == 9 && "gacmin"@.len() == 6);
    assert("gacmax"@.len() == 6 && "gaclimit"@.len() == 8);
    assert("gacmin"@[4] != "gacmax"@[4]);
    assert("generator"@[1] != "gacprefix"@[1]);
    law_generator_key_values(g, m, "generator"@);
    law_generator_key_values(g, m, "gacmin"@);
    law_generator_key_values(g, m, "gacmax"@);
    law_generator_key_values(g, m, "gacprefix"@);
    law_generator_key_values(g, m, "gaclimit"@);
}

/// The category-members generator names its category under `gcmtitle`
/// (a title) or `gcmpageid` (a page id), its namespaces under
/// `gcmnamespace` and its limit under `gcmlimit`.
pub proof fn law_categorymembers_keys(
    identifier: GcmIdentifier,
    gcmnamespace: Option<Vec<NAMESPACE>>,
    gcmlimit: Limit,
    m: Seq<EntryView>,
)
    ensures
        ({
            let r = insert_all(m, generator_entries((Generator::CategoryMembers { identifier, gcmnamespace, gcmlimit })));
            &&& lookup(r, "generator"@) == Some(ParamView::Text("categorymembers"@))
            &&& identifier matches GcmIdentifier::GcmTitle(t) ==> lookup(r, "gcmtitle"@) == Some(ParamView::Text(t@))
                && lookup(r, "gcmpageid"@) == lookup(m, "gcmpageid"@)
            &&& identifier matches GcmIdentifier::GcmPageid(n) ==> lookup(r, "gcmpageid"@) == Some(ParamView::Number(n as u64))
                && lookup(r, "gcmtitle"@) == lookup(m, "gcmtitle"@)
            &&& lookup(r, "gcmnamespace"@) == match gcmnamespace {
                Some(v) => Some(ParamView::Text(ns_list_text(v@))),
                None => lookup(m, "gcmnamespace"@),
            }
            &&& lookup(r, "gcmlimit"@) == Some(ParamView::Text(limit_text(gcmlimit)))
        }),
{
    let g = Generator::CategoryMembers { identifier, gcmnamespace, gcmlimit };
    reveal_strlit("generator");
    reveal_strlit("gcmtitle");
    reveal_strlit("gcmpageid");
    reveal_strlit("gcmnamespace");
    reveal_strlit("gcmlimit");
    assert("generator"@.len() == 9 && "gcmpageid"@.len() == 9 && "gcmtitle"@.len() == 8);
    assert("gcmlimit"@.len() == 8 && "gcmnamespace"@.len() == 12);
    assert("gcmtitle"@[3] != "gcmlimit"@[3]);
    assert("generator"@[1] != "gcmpageid"@[1]);
    law_generator_key_values(g, m, "generator"@);
    law_generator_key_values(g, m, "gcmtitle"@);
    law_generator_key_values(g, m, "gcmpageid"@);
    law_generator_key_values(g, m, "gcmnamespace"@);
    law_generator_key_values(g, m, "gcmlimit"@);
}

/// The all-images and all-pages generators write their prefix or
/// namespaces and their limit under their own keys.
pub proof fn law_allimages_allpages_keys(
    gaiprefix: Option<String>,
    gailimit: Limit,
    gapnamespace: Option<Vec<NAMESPACE>>,
    gaplimit: Limit,
    m: Seq<EntryView>,
)
    ensures
        ({
            let r = insert_all(m, generator_entries((Generator::AllImages { gaiprefix, gailimit })));
            &&& lookup(r, "generator"@) == Some(ParamView::Text("allimages"@))
            &&& lookup(r, "gaiprefix"@) == match gaiprefix {
                Some(p) => Some(ParamView::Text(p@)),
                None => lookup(m, "gaiprefix"@),
            }
            &&& lookup(r, "gailimit"@) == Some(ParamView::Text(limit_text(gailimit)))
        }),
        ({
            let r = insert_all(m, generator_entries((Generator::AllPages { gapnamespace, gaplimit })));
            &&& lookup(r, "generator"@) == Some(ParamView::Text("allpages"@))
            &&& lookup(r, "gapnamespace"@) == match gapnamespace {
                Some(v) => Some(ParamView::Text(ns_list_text(v@))),
                None => lookup(m, "gapnamespace"@),
            }
            &&& lookup(r, "gaplimit"@) == Some(ParamView::Text(limit_text(gaplimit)))
        }),
{
    let g1 = Generator::AllImages { gaiprefix, gailimit };
    let g2 = Generator::AllPages { gapnamespace, gaplimit };
    reveal_strlit("generator");
    reveal_strlit("gaiprefix");
    reveal_strlit("gailimit");
    reveal_strlit("gapnamespace");
    reveal_strlit("gaplimit");
    assert("generator"@.len() == 9 && "gaiprefix"@.len() == 9 && "gailimit"@.len() == 8);
    assert("gapnamespace"@.len() == 12 && "gaplimit"@.len() == 8);
    assert("generator"@[1] != "gaiprefix"@[1]);
    law_generator_key_values(g1, m, "generator"@);
    law_generator_key_values(g1, m, "gaiprefix"@);
    law_generator_key_values(g1, m, "gailimit"@);
    law_generator_key_values(g2, m, "generator"@);
    law_generator_key_values(g2, m, "gapnamespace"@);
    law_generator_key_values(g2, m, "gaplimit"@);
}

/// A generator writes only keys that begin with `g`.
proof fn lemma_generator_other_keys(g: Generator, k: Seq<char>, d: Option<ParamView>)
    requires
        k.len() > 0,
        k[0] != 'g',
    ensures
        lookup_after(generator_entries(g), k, d) == d,
{
    lemma_generator_after(g, k, d);
    reveal_strlit("generator");
    reveal_strlit("gaiprefix");
    reveal_strlit("gailimit");
    reveal_strlit("gapnamespace");
    reveal_strlit("gaplimit");
    reveal_strlit("gacprefix");
    reveal_strlit("gacmin");
    reveal_strlit("gacmax");
    reveal_strlit("gaclimit");
    reveal_strlit("gcmtitle");
    reveal_strlit("gcmpageid");
    reveal_strlit("gcmnamespace");
    reveal_strlit("gcmlimit");
    assert("generator"@[0] == 'g' && "gaiprefix"@[0] == 'g' && "gailimit"@[0] == 'g');
    assert("gapnamespace"@[0] == 'g' && "gaplimit"@[0] == 'g' && "gacprefix"@[0] == 'g');
    assert("gacmin"@[0] == 'g' && "gacmax"@[0] == 'g' && "gaclimit"@[0] == 'g');
    assert("gcmtitle"@[0] == 'g' && "gcmpageid"@[0] == 'g' && "gcmnamespace"@[0] == 'g');
    assert("gcmlimit"@[0] == 'g');
}

/// What the entries of a query leave under a key that no generator writes
/// and the continuation pair does not name, starting from `d`.
proof fn lemma_query_after(q: Query, k: Seq<char>, d: Option<ParamView>)
    requires
        k.len() > 0,
        k[0] != 'g',
        !(q.cont matches Some(c) && c.0@ == k),
    ensures
        lookup_after(query_entries(q), k, d) == if k == "indexpageids"@ && q.indexpageids {
            Some(ParamView::Flag(true))
        } else if k == "prop"@ && q.prop is Some {
            Some(ParamView::Text(prop_list_text(q.prop->0@)))
        } else if k == "pageids"@ && q.pageids is Some {
            Some(ParamView::Text(id_list_text(q.pageids->0@)))
        } else if k == "titles"@ && q.titles is Some {
            Some(ParamView::Text(join_with(q.titles->0.deep_view(), '|')))
        } else if k == "action"@ {
            Some(ParamView::Text("query"@))
        } else {
            d
        },
{
    let a = seq![text_entry("action"@, "query"@)];
    let t = match q.titles {
        Some(t) => seq![text_entry("titles"@, join_with(t.deep_view(), '|'))],
        None => Seq::<EntryView>::empty(),
    };
    let p = match q.pageids {
        Some(p) => seq![text_entry("pageids"@, id_list_text(p@))],
        None => Seq::<EntryView>::empty(),
    };
    let r = match q.prop {
        Some(p) => seq![text_entry("prop"@, prop_list_text(p@))],
        None => Seq::<EntryView>::empty(),
    };
    let g = match q.generator {
        Some(g) => generator_entries(g),
        None => Seq::<EntryView>::empty(),
    };
    let i = if q.indexpageids {
        seq![("indexpageids"@, ParamView::Flag(true))]
    } else {
        Seq::<EntryView>::empty()
    };
    let c = match q.cont {
        Some(c) => seq![text_entry(c.0@, c.1@)],
        None => Seq::<EntryView>::empty(),
    };
    assert(query_entries(q) == a + t + p + r + g + i + c);
    lemma_lookup_after_concat(a + t + p + r + g + i, c, k, d);
    lemma_lookup_after_concat(a + t + p + r + g, i, k, d);
    lemma_lookup_after_concat(a + t + p + r, g, k, d);
    lemma_lookup_after_concat(a + t + p, r, k, d);
    lemma_lookup_after_concat(a + t, p, k, d);
    lemma_lookup_after_concat(a, t, k, d);
    lemma_lookup_after_one(a[0], k, d);
    let d1 = lookup_after(a, k, d);
    if t.len() > 0 {
        lemma_lookup_after_one(t[0], k, d1);
    }
    let d2 = lookup_after(a + t, k, d);
    if p.len() > 0 {
        lemma_lookup_after_one(p[0], k, d2);
    }
    let d3 = lookup_after(a + t + p, k, d);
    if r.len() > 0 {
        lemma_lookup_after_one(r[0], k, d3);
    }
    let d4 = lookup_after(a + t + p + r, k, d);
    if q.generator is Some {
        lemma_generator_other_keys(q.generator->0, k, d4);
    }
    let d5 = lookup_after(a + t + p + r + g, k, d);
    if i.len() > 0 {
        lemma_lookup_after_one(i[0], k, d5);
    }
    let d6 = lookup_after(a + t + p + r + g + i, k, d);
    if c.len() > 0 {
        lemma_lookup_after_one(c[0], k, d6);
    }
}

/// What a query writes over a map `m`: `action` is `query`; its titles
/// (joined with `|`) under `titles`, its page ids under `pageids` and its
/// properties under `prop`, each where given; `indexpageids` is set when
/// asked for; an absent parameter leaves its key as it was in `m`. (A
/// continuation pair with one of these keys would override it.)
pub proof fn law_query_key_values(q: Query, m: Seq<EntryView>)
    ensures
        !(q.cont matches Some(c) && c.0@ == "action"@) ==> lookup(insert_all(m, query_entries(q)), "action"@)
            == Some(ParamView::Text("query"@)),
        !(q.cont matches Some(c) && c.0@ == "titles"@) ==> lookup(insert_all(m, query_entries(q)), "titles"@)
            == match q.titles {
            Some(t) => Some(ParamView::Text(join_with(t.deep_view(), '|'))),
            None => lookup(m, "titles"@),
        },
        !(q.cont matches Some(c) && c.0@ == "pageids"@) ==> lookup(insert_all(m, query_entries(q)), "pageids"@)
            == match q.pageids {
            Some(p) => Some(ParamView::Text(id_list_text(p@))),
            None => lookup(m, "pageids"@),
        },
        !(q.cont matches Some(c) && c.0@ == "prop"@) ==> lookup(insert_all(m, query_entries(q)), "prop"@)
            == match q.prop {
            Some(p) => Some(ParamView::Text(prop_list_text(p@))),
            None => lookup(m, "prop"@),
        },
        !(q.cont matches Some(c) && c.0@ == "indexpageids"@) ==> lookup(
            insert_all(m, query_entries(q)),
            "indexpageids"@,
        ) == if q.indexpageids {
            Some(ParamView::Flag(true))
        } else {
            lookup(m, "indexpageids"@)
        },
{
    reveal_strlit("action");
    reveal_strlit("titles");
    reveal_strlit("pageids");
    reveal_strlit("prop");
    reveal_strlit("indexpageids");
    assert("action"@.len() == 6 && "titles"@.len() == 6 && "pageids"@.len() == 7);
    assert("prop"@.len() == 4 && "indexpageids"@.len() == 12);
    assert("action"@[0] != 'g' && "titles"@[0] != 'g' && "pageids"@[0] != 'g');
    assert("prop"@[0] != 'g' && "indexpageids"@[0] != 'g' && "action"@[0] != "titles"@[0]);
    let e = query_entries(q);
    lemma_lookup_insert_all_in_order(m, e, "action"@);
    lemma_lookup_insert_all_in_order(m, e, "titles"@);
    lemma_lookup_insert_all_in_order(m, e, "pageids"@);
    lemma_lookup_insert_all_in_order(m, e, "prop"@);
    lemma_lookup_insert_all_in_order(m, e, "indexpageids"@);
    if !(q.cont matches Some(c) && c.0@ == "action"@) {
        lemma_query_after(q, "action"@, lookup(m, "action"@));
    }
    if !(q.cont matches Some(c) && c.0@ == "titles"@) {
        lemma_query_after(q, "titles"@, lookup(m, "titles"@));
    }
    if !(q.cont matches Some(c) && c.0@ == "pageids"@) {
        lemma_query_after(q, "pageids"@, lookup(m, "pageids"@));
    }
    if !(q.cont matches Some(c) && c.0@ == "prop"@) {
        lemma_query_after(q, "prop"@, lookup(m, "prop"@));
    }
    if !(q.cont matches Some(c) && c.0@ == "indexpageids"@) {
        lemma_query_after(q, "indexpageids"@, lookup(m, "indexpageids"@));
    }
}

} // verus!
