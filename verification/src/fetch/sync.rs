//! The rules of a database sync: the requests it sends, how it reads each
//! response into rows, how it follows continuations and how its writer
//! batches rows into transactions.
use crate::fetch::error::DestinyFetchError;
use crate::fetch::rows::{
    categories_row_fields, categories_row_view, images_row_fields, images_row_view, CategoriesRow,
    ImageCategoryRow, ImagesRow, Row, SubCategoryRow,
};
use crate::request::param_map::{sorted_insert, EntryView, ParamValue, ParamView};
use crate::request::params::{built_entries, Format, ParamsBuilder, PARAMS};
use crate::request::query::{
    query_entries, limit_text, ns_list_text, prop_list_text, text_entry, GcmIdentifier, Generator, Limit, Prop, Query,
};
use crate::request::error::RequestError;
use crate::response::{QueryResponse, QueryResult};
use crate::text::owned;
use crate::types::NAMESPACE;
use vstd::prelude::*;

verus! {

/// The page id of the category every image of the wiki belongs to, where a
/// sync starts unless told otherwise.
pub const CATEGORY_IMAGES_ID: i32 = 364;

/// The number of rows the writer commits in one transaction.
pub const BATCH_SIZE: usize = 300;

/// The number of request workers and of response workers a sync runs.
pub const WORKERS: usize = 5;

/// The page id a sync starts from: the one given, else the category of all images.
pub fn first_pageid(starting_pageid: Option<i32>) -> (r: i32)
    ensures
        r == match starting_pageid {
            Some(p) => p,
            None => CATEGORY_IMAGES_ID,
        },
{
    match starting_pageid {
        Some(p) => p,
        None => CATEGORY_IMAGES_ID,
    }
}

// ---------------------------------------------------------------------------
// the requests of a sync
// ---------------------------------------------------------------------------

/// The parameters of a request for every image of the wiki.
pub open spec fn images_sync_entries() -> Seq<EntryView> {
    built_entries(
        seq![
            text_entry("action"@, "query"@),
            text_entry("prop"@, prop_list_text(seq![Prop::ImageInfo])),
            text_entry("generator"@, "allimages"@),
            text_entry("gailimit"@, limit_text(Limit::Max)),
        ],
        sorted_insert(
            sorted_insert(Seq::<EntryView>::empty(), "gaisort"@, ParamView::Text("name"@)),
            "iiprop"@,
            ParamView::Text("url|size|dimensions|timestamp"@),
        ),
    )
}

/// The parameters of a request for every category of the wiki.
pub open spec fn categories_sync_entries() -> Seq<EntryView> {
    built_entries(
        seq![
            text_entry("action"@, "query"@),
            text_entry("prop"@, prop_list_text(seq![Prop::Categories, Prop::CategoryInfo])),
            text_entry("generator"@, "allcategories"@),
            text_entry("gaclimit"@, limit_text(Limit::Max)),
        ],
        sorted_insert(Seq::<EntryView>::empty(), "cllimit"@, ParamView::Text("max"@)),
    )
}

/// The parameters of a request for the files and subcategories of a category.
pub open spec fn category_members_sync_entries(pageid: u32) -> Seq<EntryView> {
    built_entries(
        seq![
            text_entry("action"@, "query"@),
            text_entry("prop"@, prop_list_text(seq![Prop::ImageInfo, Prop::CategoryInfo])),
            text_entry("generator"@, "categorymembers"@),
            ("gcmpageid"@, ParamView::Number(pageid as u64)),
            text_entry("gcmnamespace"@, ns_list_text(seq![NAMESPACE::CATEGORY, NAMESPACE::FILE])),
            text_entry("gcmlimit"@, limit_text(Limit::Max)),
        ],
        sorted_insert(
            Seq::<EntryView>::empty(),
            "iiprop"@,
            ParamView::Text("url|timestamp|dimensions|size|canonicaltitle"@),
        ),
    )
}

/// The request for every image of the wiki, with its url, size, dimensions
/// and timestamp, sorted by name.
pub fn get_images_sync_params() -> (r: Result<PARAMS<Query>, RequestError>)
    ensures
        r matches Ok(p) && p.entries() == images_sync_entries() && p.spec_format() == Format::Json,
{
    let mut props: Vec<Prop> = Vec::new();
    props.push(Prop::ImageInfo);
    let builder: ParamsBuilder<Query> = ParamsBuilder::new().with_generator(
        Generator::allimages_with(None, Some(Limit::Max)),
    ).with_props(props).with_extra(owned("gaisort"), ParamValue::Text(owned("name"))).with_extra(
        owned("iiprop"),
        ParamValue::Text(owned("url|size|dimensions|timestamp")),
    );
    proof {
        assert(props@ =~= seq![Prop::ImageInfo]);
        assert(query_entries(builder.action()) =~= seq![
            text_entry("action"@, "query"@),
            text_entry("prop"@, prop_list_text(seq![Prop::ImageInfo])),
            text_entry("generator"@, "allimages"@),
            text_entry("gailimit"@, limit_text(Limit::Max)),
        ]);
    }
    builder.build()
}

/// The request for every category of the wiki, with the categories it
/// belongs to and its category info.
pub fn get_categories_sync_params() -> (r: Result<PARAMS<Query>, RequestError>)
    ensures
        r matches Ok(p) && p.entries() == categories_sync_entries() && p.spec_format() == Format::Json,
{
    let mut props: Vec<Prop> = Vec::new();
    props.push(Prop::Categories);
    props.push(Prop::CategoryInfo);
    let builder: ParamsBuilder<Query> = ParamsBuilder::new().with_generator(
        Generator::allcategories_with(None, None, None, Some(Limit::Max)),
    ).with_props(props).with_extra(owned("cllimit"), ParamValue::Text(owned("max")));
    proof {
        assert(props@ =~= seq![Prop::Categories, Prop::CategoryInfo]);
        assert(query_entries(builder.action()) =~= seq![
            text_entry("action"@, "query"@),
            text_entry("prop"@, prop_list_text(seq![Prop::Categories, Prop::CategoryInfo])),
            text_entry("generator"@, "allcategories"@),
            text_entry("gaclimit"@, limit_text(Limit::Max)),
        ]);
    }
    builder.build()
}

/// The parameters of a request for the pages of the main namespace.
pub open spec fn pages_sync_entries() -> Seq<EntryView> {
    built_entries(
        seq![
            text_entry("action"@, "query"@),
            text_entry("prop"@, prop_list_text(seq![Prop::Info, Prop::PageImages])),
            text_entry("generator"@, "allpages"@),
            text_entry("gapnamespace"@, ns_list_text(seq![NAMESPACE::PAGE])),
            text_entry("gaplimit"@, limit_text(Limit::Num(20))),
        ],
        Seq::<EntryView>::empty(),
    )
}

/// The request for the pages of the main namespace, twenty at a time, with
/// their info and lead images.
pub fn get_pages_sync_params() -> (r: Result<PARAMS<Query>, RequestError>)
    ensures
        r matches Ok(p) && p.entries() == pages_sync_entries() && p.spec_format() == Format::Json,
{
    let mut props: Vec<Prop> = Vec::new();
    props.push(Prop::Info);
    props.push(Prop::PageImages);
    let mut namespaces: Vec<NAMESPACE> = Vec::new();
    namespaces.push(NAMESPACE::PAGE);
    let ghost ns_seq = seq![NAMESPACE::PAGE];
    assert(namespaces@ =~= ns_seq);
    let builder: ParamsBuilder<Query> = ParamsBuilder::new().with_generator(
        Generator::allpages_with(Some(namespaces), Some(Limit::Num(20))),
    ).with_props(props);
    proof {
        assert(props@ =~= seq![Prop::Info, Prop::PageImages]);
        assert(query_entries(builder.action()) =~= seq![
            text_entry("action"@, "query"@),
            text_entry("prop"@, prop_list_text(seq![Prop::Info, Prop::PageImages])),
            text_entry("generator"@, "allpages"@),
            text_entry("gapnamespace"@, ns_list_text(seq![NAMESPACE::PAGE])),
            text_entry("gaplimit"@, limit_text(Limit::Num(20))),
        ]);
    }
    builder.build()
}

/// The request for the files and subcategories of the category `pageid`,
/// with their image and category info.
pub fn get_category_members_sync_params(pageid: u32) -> (r: Result<PARAMS<Query>, RequestError>)
    ensures
        r matches Ok(p) && p.entries() == category_members_sync_entries(pageid) && p.spec_format()
            == Format::Json,
{
    let mut props: Vec<Prop> = Vec::new();
    props.push(Prop::ImageInfo);
    props.push(Prop::CategoryInfo);
    let mut namespaces: Vec<NAMESPACE> = Vec::new();
    namespaces.push(NAMESPACE::CATEGORY);
    namespaces.push(NAMESPACE::FILE);
    let ghost ns_seq = seq![NAMESPACE::CATEGORY, NAMESPACE::FILE];
    assert(namespaces@ =~= ns_seq);
    let builder: ParamsBuilder<Query> = ParamsBuilder::new().with_generator(
        Generator::categorymembers_with(
            GcmIdentifier::GcmPageid(pageid),
            Some(namespaces),
            Some(Limit::Max),
        ),
    ).with_props(props).with_extra(
        owned("iiprop"),
        ParamValue::Text(owned("url|timestamp|dimensions|size|canonicaltitle")),
    );
    proof {
        assert(props@ =~= seq![Prop::ImageInfo, Prop::CategoryInfo]);
        assert(query_entries(builder.action()) =~= seq![
            text_entry("action"@, "query"@),
            text_entry("prop"@, prop_list_text(seq![Prop::ImageInfo, Prop::CategoryInfo])),
            text_entry("generator"@, "categorymembers"@),
            ("gcmpageid"@, ParamView::Number(pageid as u64)),
            text_entry("gcmnamespace"@, ns_list_text(seq![NAMESPACE::CATEGORY, NAMESPACE::FILE])),
            text_entry("gcmlimit"@, limit_text(Limit::Max)),
        ]);
    }
    builder.build()
}

// ---------------------------------------------------------------------------
// following continuations
// ---------------------------------------------------------------------------

/// Follows the continuation of a response: where the response carried a
/// continuation pair, sets it on the request and says more results are to
/// come; otherwise leaves the request as it is and says the category is done.
pub fn follow_continue(params: &mut PARAMS<Query>, cont: Option<(String, String)>) -> (more: bool)
    ensures
        more == cont is Some,
        cont matches Some(c) ==> final(params).entries() == sorted_insert(
            old(params).entries(),
            c.0@,
            ParamView::Text(c.1@),
        ),
        cont is None ==> final(params).entries() == old(params).entries(),
        final(params).spec_format() == old(params).spec_format(),
{
    match cont {
        Some((k, v)) => {
            params.update_continue(k, v);
            true
        },
        None => false,
    }
}

/// The request for the members of a category, by the page id a response
/// gave; a negative page id names no page.
pub fn category_members_request(pageid: i32) -> (r: Result<PARAMS<Query>, DestinyFetchError>)
    ensures
        pageid < 0 ==> r == Err::<PARAMS<Query>, DestinyFetchError>(DestinyFetchError::NegativeArgErr),
        pageid >= 0 ==> (r matches Ok(p) && p.entries() == category_members_sync_entries(
            pageid as u32,
        ) && p.spec_format() == Format::Json),
{
    if pageid < 0 {
        return Err(DestinyFetchError::NegativeArgErr);
    }
    match get_category_members_sync_params(pageid as u32) {
        Ok(p) => Ok(p),
        Err(_) => Err(DestinyFetchError::RequestErr),
    }
}

// ---------------------------------------------------------------------------
// the rows of a response
// ---------------------------------------------------------------------------

/// The mathematical value of a row.
pub enum RowView {
    Images((i64, Seq<char>, i64, i64, i64, Seq<char>, i64, crate::fetch::rows::Ext)),
    Categories((i64, Seq<char>, i64, i64)),
    ImageCategory(ImageCategoryRow),
    SubCategory(SubCategoryRow),
}

impl View for Row {
    type V = RowView;

    open spec fn view(&self) -> RowView {
        match self {
            Row::Images(r) => RowView::Images(images_row_view(*r)),
            Row::Categories(r) => RowView::Categories(categories_row_view(*r)),
            Row::ImageCategory(r) => RowView::ImageCategory(*r),
            Row::SubCategory(r) => RowView::SubCategory(*r),
        }
    }
}

/// A result of a response could not be turned into rows.
#[derive(Debug, PartialEq, Eq, Structural, Clone, Copy)]
pub enum RowsError {
    /// A category without the numbers of its files and subcategories.
    CategoryRow,
    /// A file without a complete, readable image info.
    ImageRow,
}

impl RowsError {
    /// The message shown for this error.
    pub fn message(&self) -> (r: String)
        ensures
            r@ == match self {
                RowsError::CategoryRow =>
                    "failed to convert category result into CategoriesRow, missing category info"@,
                RowsError::ImageRow => "failed to convert image result into ImagesRow, missing imageinfo"@,
            },
    {
        match self {
            RowsError::CategoryRow => owned(
                "failed to convert category result into CategoriesRow, missing category info",
            ),
            RowsError::ImageRow => owned("failed to convert image result into ImagesRow, missing imageinfo"),
        }
    }
}

/// What one result of the members of category `resp_id` gives: a category
/// gives its page id to request next, its subcategory row and its category
/// row; a file gives its image-category row and its image row; anything
/// else gives nothing.
pub open spec fn result_rows(q: QueryResult, resp_id: i32) -> Result<(Seq<i32>, Seq<RowView>), RowsError> {
    match q.ns {
        NAMESPACE::CATEGORY => match categories_row_fields(q) {
            Some(f) => Ok(
                (
                    seq![q.pageid],
                    seq![
                        RowView::SubCategory(
                            SubCategoryRow { category_id: resp_id as i64, subcategory_id: q.pageid as i64 },
                        ),
                        RowView::Categories(f),
                    ],
                ),
            ),
            None => Err(RowsError::CategoryRow),
        },
        NAMESPACE::FILE => match images_row_fields(q) {
            Some(f) => Ok(
                (
                    Seq::<i32>::empty(),
                    seq![
                        RowView::ImageCategory(
                            ImageCategoryRow { image_id: q.pageid as i64, category_id: resp_id as i64 },
                        ),
                        RowView::Images(f),
                    ],
                ),
            ),
            None => Err(RowsError::ImageRow),
        },
        _ => Ok((Seq::<i32>::empty(), Seq::<RowView>::empty())),
    }
}

/// What the results of a response give, in order: the page ids of its
/// categories and the rows of all its results; the first result that cannot
/// be turned into rows fails the whole response.
pub open spec fn response_rows(results: Seq<QueryResult>, resp_id: i32) -> Result<
    (Seq<i32>, Seq<RowView>),
    RowsError,
>
    decreases results.len(),
{
    if results.len() == 0 {
        Ok((Seq::<i32>::empty(), Seq::<RowView>::empty()))
    } else {
        match response_rows(results.drop_last(), resp_id) {
            Err(e) => Err(e),
            Ok((ids, rows)) => match result_rows(results.last(), resp_id) {
                Err(e) => Err(e),
                Ok((more_ids, more_rows)) => Ok((ids + more_ids, rows + more_rows)),
            },
        }
    }
}

proof fn lemma_response_rows_failed(s: Seq<QueryResult>, resp_id: i32, k: int, e: RowsError)
    requires
        0 <= k <= s.len(),
        response_rows(s.take(k), resp_id) == Err::<(Seq<i32>, Seq<RowView>), RowsError>(e),
    ensures
        response_rows(s, resp_id) == Err::<(Seq<i32>, Seq<RowView>), RowsError>(e),
    decreases s.len() - k,
{
    if k < s.len() {
        assert(s.take(k + 1).drop_last() =~= s.take(k));
        lemma_response_rows_failed(s, resp_id, k + 1, e);
    } else {
        assert(s.take(k) =~= s);
    }
}

/// The views of a list of rows.
pub open spec fn rows_view(v: Seq<Row>) -> Seq<RowView> {
    v.map_values(|r: Row| r@)
}

fn push_result_rows(q: QueryResult, resp_id: i32, ids: &mut Vec<i32>, rows: &mut Vec<Row>) -> (r: Result<
    (),
    RowsError,
>)
    ensures
        match result_rows(q, resp_id) {
            Ok((more_ids, more_rows)) => r is Ok && final(ids)@ == old(ids)@ + more_ids && rows_view(
                final(rows)@,
            ) == rows_view(old(rows)@) + more_rows,
            Err(e) => r == Err::<(), RowsError>(e),
        },
{
    let pageid = q.pageid;
    match q.ns {
        NAMESPACE::CATEGORY => {
            match CategoriesRow::try_from(q) {
                Ok(row) => {
                    ids.push(pageid);
                    rows.push(
                        Row::SubCategory(
                            SubCategoryRow { category_id: resp_id as i64, subcategory_id: pageid as i64 },
                        ),
                    );
                    rows.push(Row::Categories(row));
                    assert(rows_view(rows@) =~= rows_view(old(rows)@) + rows_view(rows@).subrange(
                        old(rows)@.len() as int,
                        rows@.len() as int,
                    ));
                    Ok(())
                },
                Err(_) => Err(RowsError::CategoryRow),
            }
        },
        NAMESPACE::FILE => {
            match ImagesRow::try_from(q) {
                Ok(row) => {
                    rows.push(
                        Row::ImageCategory(
                            ImageCategoryRow { image_id: pageid as i64, category_id: resp_id as i64 },
                        ),
                    );
                    rows.push(Row::Images(row));
                    assert(ids@ =~= old(ids)@ + Seq::<i32>::empty());
                    assert(rows_view(rows@) =~= rows_view(old(rows)@) + rows_view(rows@).subrange(
                        old(rows)@.len() as int,
                        rows@.len() as int,
                    ));
                    Ok(())
                },
                Err(_) => Err(RowsError::ImageRow),
            }
        },
        _ => {
            assert(ids@ =~= old(ids)@ + Seq::<i32>::empty());
            assert(rows_view(rows@) =~= rows_view(old(rows)@) + Seq::<RowView>::empty());
            Ok(())
        },
    }
}

/// Turns a response to a request for the members of category `resp_id` into
/// the page ids of the categories among them and the rows to write (see
/// [`response_rows`]).
pub fn process_response(resp: QueryResponse, resp_id: i32) -> (r: Result<(Vec<i32>, Vec<Row>), RowsError>)
    ensures
        match response_rows(resp.results@, resp_id) {
            Ok((ids, rows)) => (r matches Ok((i, w)) && i@ == ids && rows_view(w@) == rows),
            Err(e) => r == Err::<(Vec<i32>, Vec<Row>), RowsError>(e),
        },
{
    let ghost all = resp.results@;
    let mut rest = resp.results;
    let n = rest.len();
    let mut rev: Vec<QueryResult> = Vec::new();
    while rest.len() > 0
        invariant
            n == all.len(),
            rest@.len() + rev@.len() == n,
            forall|j: int| 0 <= j < rest@.len() ==> #[trigger] rest@[j] == all[j],
            forall|j: int| 0 <= j < rev@.len() ==> #[trigger] rev@[j] == all[n - 1 - j],
        decreases rest.len(),
    {
        let e = rest.pop().unwrap();
        rev.push(e);
    }
    let mut ids: Vec<i32> = Vec::new();
    let mut rows: Vec<Row> = Vec::new();
    let mut done: usize = 0;
    assert(all.take(0) =~= Seq::<QueryResult>::empty());
    assert(rows_view(rows@) =~= Seq::<RowView>::empty());
    while rev.len() > 0
        invariant
            n == all.len(),
            all == resp.results@,
            rev@.len() + done == n,
            forall|j: int| 0 <= j < rev@.len() ==> #[trigger] rev@[j] == all[n - 1 - j],
            (response_rows(all.take(done as int), resp_id) matches Ok((i, w)) && ids@ == i && rows_view(
                rows@,
            ) == w),
        decreases rev.len(),
    {
        let q = rev.pop().unwrap();
        proof {
            assert(q == all[done as int]);
            assert(all.take(done + 1).drop_last() =~= all.take(done as int));
            assert(all.take(done + 1).last() == all[done as int]);
        }
        match push_result_rows(q, resp_id, &mut ids, &mut rows) {
            Ok(()) => {},
            Err(e) => {
                proof {
                    assert(result_rows(all[done as int], resp_id) == Err::<(Seq<i32>, Seq<RowView>), RowsError>(e));
                    assert(response_rows(all.take(done + 1), resp_id) == Err::<(Seq<i32>, Seq<RowView>), RowsError>(e));
                    lemma_response_rows_failed(all, resp_id, done + 1, e);
                }
                return Err(e);
            },
        }
        done = done + 1;
    }
    assert(all.take(n as int) =~= all);
    Ok((ids, rows))
}

// ---------------------------------------------------------------------------
// the writer's transactions
// ---------------------------------------------------------------------------

/// The counts the writer keeps: rows inserted in the open transaction and
/// rows inserted in committed ones.
#[derive(Debug, Clone, Copy, PartialEq, Eq, Structural)]
pub struct WriteCounter {
    pub insert_count: u64,
    pub total_insert_count: u64,
}

impl WriteCounter {
    /// Every row inserted so far, committed or not.
    pub open spec fn written(self) -> int {
        self.insert_count + self.total_insert_count
    }

    /// Nothing inserted yet.
    pub fn new() -> (c: WriteCounter)
        ensures
            c.insert_count == 0,
            c.total_insert_count == 0,
    {
        WriteCounter { insert_count: 0, total_insert_count: 0 }
    }

    /// Whether [`WriteCounter::record`] can count `affected` more rows
    /// without overflow.
    pub fn can_record(&self, affected: u64) -> (r: bool)
        ensures
            r == (self.written() + affected <= u64::MAX),
    {
        (self.insert_count as u128 + self.total_insert_count as u128 + affected as u128) <= u64::MAX as u128
    }

    /// Counts the rows one insert affected and says whether the open
    /// transaction is to be committed now: once it holds `batch_size` rows or
    /// more, its count moves to the committed total.
    pub fn record(&mut self, affected: u64, batch_size: usize) -> (commit: bool)
        requires
            old(self).written() + affected <= u64::MAX,
        ensures
            commit == (old(self).insert_count + affected >= batch_size),
            commit ==> final(self).insert_count == 0 && final(self).total_insert_count
                == old(self).total_insert_count + old(self).insert_count + affected,
            !commit ==> final(self).insert_count == old(self).insert_count + affected
                && final(self).total_insert_count == old(self).total_insert_count,
            final(self).written() == old(self).written() + affected,
            *final(self) == counter_after(*old(self), seq![affected], batch_size),
    {
        let ghost c0 = *self;
        proof {
            assert(seq![affected].drop_last() =~= Seq::<u64>::empty());
            assert(counter_after(c0, seq![affected].drop_last(), batch_size) == c0);
        }
        self.insert_count = self.insert_count + affected;
        if self.insert_count >= batch_size as u64 {
            self.total_insert_count = self.total_insert_count + self.insert_count;
            self.insert_count = 0;
            true
        } else {
            false
        }
    }

    /// Closes the last transaction and reports every row inserted.
    pub fn finish(self) -> (total: u64)
        requires
            self.written() <= u64::MAX,
        ensures
            total == self.written(),
    {
        self.total_insert_count + self.insert_count
    }
}

/// The total of a run of affected-row counts.
pub open spec fn sum_counts(xs: Seq<u64>) -> int
    decreases xs.len(),
{
    if xs.len() == 0 {
        0
    } else {
        sum_counts(xs.drop_last()) + xs.last()
    }
}

/// The counter after recording each count in turn.
pub open spec fn counter_after(c: WriteCounter, xs: Seq<u64>, batch_size: usize) -> WriteCounter
    decreases xs.len(),
{
    if xs.len() == 0 {
        c
    } else {
        let p = counter_after(c, xs.drop_last(), batch_size);
        let n = p.insert_count + xs.last();
        if n >= batch_size {
            WriteCounter { insert_count: 0, total_insert_count: (p.total_insert_count + n) as u64 }
        } else {
            WriteCounter { insert_count: n as u64, total_insert_count: p.total_insert_count }
        }
    }
}

/// The writer loses no row: after any run of inserts from a fresh counter,
/// the rows it reports are the sum of the rows each insert affected, and
/// (for a positive batch size) the open transaction never holds
/// `batch_size` rows or more.
pub proof fn law_writer_reports_every_row(xs: Seq<u64>, batch_size: usize)
    requires
        sum_counts(xs) <= u64::MAX,
    ensures
        counter_after(WriteCounter { insert_count: 0, total_insert_count: 0 }, xs, batch_size).written()
            == sum_counts(xs),
        batch_size > 0 ==> counter_after(
            WriteCounter { insert_count: 0, total_insert_count: 0 },
            xs,
            batch_size,
        ).insert_count < batch_size,
    decreases xs.len(),
{
    if xs.len() > 0 {
        lemma_sum_counts_prefix(xs);
        law_writer_reports_every_row(xs.drop_last(), batch_size);
    }
}

/// Each insert of the writer affects one row at most (`INSERT OR IGNORE` of
/// a single row).
pub open spec fn single_row_inserts(xs: Seq<u64>) -> bool {
    forall|i: int| 0 <= i < xs.len() ==> #[trigger] xs[i] <= 1
}

/// A commit holds exactly a batch: when the open transaction holds fewer
/// than `batch_size` rows and one more insert affects at most one row, either
/// nothing is committed, or exactly `batch_size` rows are, and the open
/// transaction again holds fewer than `batch_size` rows.
pub proof fn law_commit_holds_batch(c: WriteCounter, affected: u64, batch_size: usize)
    requires
        batch_size >= 1,
        c.insert_count < batch_size,
        affected <= 1,
        c.written() + affected <= u64::MAX,
    ensures
        counter_after(c, seq![affected], batch_size).insert_count < batch_size,
        counter_after(c, seq![affected], batch_size).total_insert_count == c.total_insert_count
            || counter_after(c, seq![affected], batch_size).total_insert_count
            == c.total_insert_count + batch_size,
{
    assert(seq![affected].drop_last() =~= Seq::<u64>::empty());
    assert(counter_after(c, seq![affected].drop_last(), batch_size) == c);
}

/// The writer commits in full batches: from a fresh counter, when every
/// insert affects at most one row, the rows committed while rows still
/// arrive are a whole number of batches, and the last transaction holds the
/// rest, the total modulo the batch size.
pub proof fn law_writer_commits_full_batches(xs: Seq<u64>, batch_size: usize)
    requires
        batch_size >= 1,
        single_row_inserts(xs),
        sum_counts(xs) <= u64::MAX,
    ensures
        (counter_after(WriteCounter { insert_count: 0, total_insert_count: 0 }, xs, batch_size).total_insert_count
            as int) % (batch_size as int) == 0,
        counter_after(WriteCounter { insert_count: 0, total_insert_count: 0 }, xs, batch_size).insert_count
            < batch_size,
        counter_after(WriteCounter { insert_count: 0, total_insert_count: 0 }, xs, batch_size).insert_count
            == sum_counts(xs) % (batch_size as int),
    decreases xs.len(),
{
    let c0 = WriteCounter { insert_count: 0, total_insert_count: 0 };
    if xs.len() > 0 {
        let ys = xs.drop_last();
        let x = xs.last();
        lemma_sum_counts_prefix(xs);
        assert(single_row_inserts(ys));
        law_writer_commits_full_batches(ys, batch_size);
        law_writer_reports_every_row(ys, batch_size);
        let p = counter_after(c0, ys, batch_size);
        assert(x <= 1);
        law_commit_holds_batch(p, x, batch_size);
        assert(seq![x].drop_last() =~= Seq::<u64>::empty());
        assert(counter_after(p, seq![x].drop_last(), batch_size) == p);
        assert(counter_after(c0, xs, batch_size) == counter_after(p, seq![x], batch_size));
        vstd::arithmetic::div_mod::lemma_mod_add_multiples_vanish(
            p.total_insert_count as int,
            batch_size as int,
        );
    } else {
        vstd::arithmetic::div_mod::lemma_small_mod(0, batch_size as nat);
    }
    let n = counter_after(c0, xs, batch_size);
    law_writer_reports_every_row(xs, batch_size);
    let b = batch_size as int;
    vstd::arithmetic::div_mod::lemma_fundamental_div_mod(n.total_insert_count as int, b);
    let q = (n.total_insert_count as int) / b;
    assert(sum_counts(xs) == q * b + n.insert_count) by (nonlinear_arith)
        requires
            sum_counts(xs) == n.total_insert_count + n.insert_count,
            n.total_insert_count as int == b * q + (n.total_insert_count as int) % b,
            (n.total_insert_count as int) % b == 0,
    ;
    vstd::arithmetic::div_mod::lemma_fundamental_div_mod_converse(sum_counts(xs), b, q, n.insert_count as int);
}

proof fn lemma_sum_counts_prefix(xs: Seq<u64>)
    requires
        xs.len() > 0,
    ensures
        sum_counts(xs.drop_last()) <= sum_counts(xs),
{
}

/// The rows of the database's four tables added up, where every count was
/// read; `None` where any could not be.
pub open spec fn rows_total(counts: Seq<Option<i64>>) -> Option<int>
    decreases counts.len(),
{
    if counts.len() == 0 {
        Some(0)
    } else {
        match (rows_total(counts.drop_last()), counts.last()) {
            (Some(t), Some(c)) => Some(t + c),
            _ => None,
        }
    }
}

/// Whether [`database_size_equals`] can add up the counts without overflow:
/// every running total of counts read so far fits an `i64`.
pub fn rows_total_fits(counts: &Vec<Option<i64>>) -> (r: bool)
    ensures
        r == forall|k: int| 0 <= k <= counts@.len() ==> ((#[trigger] rows_total(counts@.take(k))) matches Some(t)
            ==> i64::MIN <= t <= i64::MAX),
{
    let mut acc: Option<i64> = Some(0);
    let mut i: usize = 0;
    assert(counts@.take(0) =~= Seq::<Option<i64>>::empty());
    while i < counts.len()
        invariant
            0 <= i <= counts@.len(),
            forall|k: int| 0 <= k <= i ==> ((#[trigger] rows_total(counts@.take(k))) matches Some(t)
                ==> i64::MIN <= t <= i64::MAX),
            match rows_total(counts@.take(i as int)) {
                Some(t) => acc == Some(t as i64),
                None => acc is None,
            },
        decreases counts@.len() - i,
    {
        assert(counts@.take(i + 1).drop_last() =~= counts@.take(i as int));
        assert(counts@.take(i + 1).last() == counts@[i as int]);
        match (acc, counts[i]) {
            (Some(t), Some(c)) => {
                let n: i128 = t as i128 + c as i128;
                if n < i64::MIN as i128 || n > i64::MAX as i128 {
                    assert(rows_total(counts@.take(i + 1)) == Some(n as int));
                    return false;
                }
                acc = Some(n as i64);
            },
            _ => {
                acc = None;
            },
        }
        i = i + 1;
    }
    true
}

/// The database holds `expected_size` rows: every table could be counted and
/// the counts add up to it.
pub fn database_size_equals(expected_size: i64, counts: &Vec<Option<i64>>) -> (r: bool)
    requires
        forall|k: int| 0 <= k <= counts@.len() ==> ((#[trigger] rows_total(counts@.take(k))) matches Some(t)
            ==> i64::MIN <= t <= i64::MAX),
    ensures
        r == (rows_total(counts@) == Some(expected_size as int)),
{
    let mut db_size: i64 = 0;
    let mut i: usize = 0;
    assert(counts@.take(0) =~= Seq::<Option<i64>>::empty());
    while i < counts.len()
        invariant
            0 <= i <= counts@.len(),
            forall|k: int| 0 <= k <= counts@.len() ==> ((#[trigger] rows_total(counts@.take(k))) matches Some(t)
                ==> i64::MIN <= t <= i64::MAX),
            rows_total(counts@.take(i as int)) == Some(db_size as int),
        decreases counts@.len() - i,
    {
        assert(counts@.take(i + 1).drop_last() =~= counts@.take(i as int));
        match counts[i] {
            Some(c) => {
                assert(rows_total(counts@.take(i + 1)) == Some(db_size + c));
                db_size = db_size + c;
            },
            None => {
                proof {
                    lemma_rows_total_none(counts@, i + 1);
                }
                return false;
            },
        }
        i = i + 1;
    }
    assert(counts@.take(i as int) =~= counts@);
    db_size == expected_size
}

proof fn lemma_rows_total_none(s: Seq<Option<i64>>, k: int)
    requires
        0 <= k <= s.len(),
        rows_total(s.take(k)) is None,
    ensures
        rows_total(s) is None,
    decreases s.len() - k,
{
    if k < s.len() {
        assert(s.take(k + 1).drop_last() =~= s.take(k));
        lemma_rows_total_none(s, k + 1);
    } else {
        assert(s.take(k) =~= s);
    }
}

// ---------------------------------------------------------------------------
// when to sync
// ---------------------------------------------------------------------------

/// Two weeks, in seconds.
pub const SYNC_MAX_AGE: i64 = 1209600;

/// What is known of the cache and the database when the tool starts.
#[derive(Debug, Clone, Copy, PartialEq, Eq, Structural)]
pub struct SyncState {
    pub cache_exists: bool,
    pub database_exists: bool,
    /// Seconds since the Unix epoch.
    pub last_sync_at: Option<i64>,
    pub last_sync_rows_written: Option<u64>,
    /// Seconds since the Unix epoch.
    pub now: i64,
    /// The rows of the four tables together, where they could be counted.
    pub database_rows: Option<i64>,
}

/// The database is to be synced: the cache file or the database is missing,
/// the cache records no last sync or no row count, the last sync is two
/// weeks old or more, or the database does not hold the rows the last sync
/// wrote.
pub open spec fn needs_sync(s: SyncState) -> bool {
    ||| !s.cache_exists
    ||| !s.database_exists
    ||| s.last_sync_at is None
    ||| s.last_sync_rows_written is None
    ||| s.now - s.last_sync_at.unwrap() >= SYNC_MAX_AGE
    ||| s.database_rows is None
    ||| s.database_rows.unwrap() != s.last_sync_rows_written.unwrap()
}

/// Whether the database is to be synced before the command runs.
pub fn database_needs_synced(s: &SyncState) -> (r: bool)
    ensures
        r == needs_sync(*s),
{
    if !s.cache_exists || !s.database_exists {
        return true;
    }
    match (s.last_sync_at, s.last_sync_rows_written, s.database_rows) {
        (Some(at), Some(rows), Some(count)) => {
            let age: i128 = s.now as i128 - at as i128;
            age >= SYNC_MAX_AGE as i128 || count < 0 || count as u64 != rows
        },
        _ => true,
    }
}

} // verus!
