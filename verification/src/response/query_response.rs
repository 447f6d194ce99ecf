//! A `query` response: its continuation and its page results.
use super::error::FromResultHelperError;
use super::items::{
    Categories, CategoryInfo, ImageInfo, Images, Info, PageImages, PropResults,
};
use crate::text::{has_suffix, owned, ends_with};
use crate::types::NAMESPACE;
use vstd::prelude::*;

verus! {

/// One page of a response as decoded, every field optional.
#[derive(Debug)]
pub struct QueryResultHelper {
    pub pageid: Option<i32>,
    pub ns: Option<NAMESPACE>,
    pub title: Option<String>,
    pub categories: Option<Categories>,
    pub categoryinfo: Option<CategoryInfo>,
    pub images: Option<Images>,
    pub imageinfo: Option<ImageInfo>,
    pub pageimages: Option<PageImages>,
    pub info: Option<Info>,
}

/// The `query` object of a response as decoded: the page ids, when asked
/// for, and the pages keyed by page id.
#[derive(Debug)]
pub struct IndiscriminateQueryHelper {
    pub pageids: Option<Vec<i32>>,
    pub pages: Vec<(String, QueryResultHelper)>,
}

/// A response as decoded.
#[derive(Debug)]
pub struct QueryResponseHelper {
    pub continue_: Option<Continue>,
    pub query: IndiscriminateQueryHelper,
}

/// One page of a response.
#[derive(Debug, PartialEq)]
pub struct QueryResult {
    pub pageid: i32,
    pub ns: NAMESPACE,
    pub title: String,
    pub categories: Option<Categories>,
    pub categoryinfo: Option<CategoryInfo>,
    pub images: Option<Images>,
    pub imageinfo: Option<ImageInfo>,
    pub pageimages: Option<PageImages>,
    pub info: Option<Info>,
}

/// Property results that carry something; empty ones count as absent.
pub open spec fn non_empty<P: PropResults>(o: Option<P>) -> Option<P> {
    match o {
        Some(x) => if x.spec_empty() {
            None
        } else {
            Some(x)
        },
        None => None,
    }
}

fn keep_non_empty<P: PropResults>(o: Option<P>) -> (r: Option<P>)
    ensures
        r == non_empty(o),
{
    match o {
        Some(x) => if x.empty() {
            None
        } else {
            Some(x)
        },
        None => None,
    }
}

/// The result a decoded page gives: a page with a page id, a namespace and a
/// title is a result, its empty property results dropped; any other page is
/// missing a field.
pub open spec fn result_of_helper(h: QueryResultHelper) -> Result<QueryResult, FromResultHelperError> {
    match (h.pageid, h.ns, h.title) {
        (Some(pageid), Some(ns), Some(title)) => Ok(
            QueryResult {
                pageid,
                ns,
                title,
                categories: non_empty(h.categories),
                categoryinfo: non_empty(h.categoryinfo),
                images: non_empty(h.images),
                imageinfo: non_empty(h.imageinfo),
                pageimages: non_empty(h.pageimages),
                info: non_empty(h.info),
            },
        ),
        _ => Err(FromResultHelperError::MissingField),
    }
}

impl QueryResult {
    /// The result of a decoded page (see [`result_of_helper`]).
    pub fn try_from_helper(helper: QueryResultHelper) -> (r: Result<QueryResult, FromResultHelperError>)
        ensures
            r == result_of_helper(helper),
            r is Ok <==> (helper.pageid is Some && helper.ns is Some && helper.title is Some),
            r is Ok && helper.categories is Some && !helper.categories->0.spec_empty() ==> r->Ok_0.categories == helper.categories,
            r is Ok && helper.categoryinfo is Some && !helper.categoryinfo->0.spec_empty() ==> r->Ok_0.categoryinfo == helper.categoryinfo,
            r is Ok && helper.images is Some && !helper.images->0.spec_empty() ==> r->Ok_0.images == helper.images,
            r is Ok && helper.imageinfo is Some && !helper.imageinfo->0.spec_empty() ==> r->Ok_0.imageinfo == helper.imageinfo,
            r is Ok && helper.pageimages is Some && !helper.pageimages->0.spec_empty() ==> r->Ok_0.pageimages == helper.pageimages,
            r is Ok && helper.info is Some && !helper.info->0.spec_empty() ==> r->Ok_0.info == helper.info,
    {
        match helper {
            QueryResultHelper {
                pageid: Some(pageid),
                ns: Some(ns),
                title: Some(title),
                categories,
                categoryinfo,
                images,
                imageinfo,
                pageimages,
                info,
            } => Ok(
                QueryResult {
                    pageid,
                    ns,
                    title,
                    categories: keep_non_empty(categories),
                    categoryinfo: keep_non_empty(categoryinfo),
                    images: keep_non_empty(images),
                    imageinfo: keep_non_empty(imageinfo),
                    pageimages: keep_non_empty(pageimages),
                    info: keep_non_empty(info),
                },
            ),
            _ => Err(FromResultHelperError::MissingField),
        }
    }
}

/// A decoded page is a result exactly when it has a page id, a namespace
/// and a title, which the result keeps; every property result it carries
/// that has something in it is kept as it came, and every empty or absent
/// one is absent from the result.
pub proof fn law_helper_keeps_what_it_carries(h: QueryResultHelper)
    ensures
        result_of_helper(h) is Ok <==> (h.pageid is Some && h.ns is Some && h.title is Some),
        result_of_helper(h) is Err ==> result_of_helper(h) == Err::<QueryResult, FromResultHelperError>(
            FromResultHelperError::MissingField,
        ),
        result_of_helper(h) matches Ok(res) ==> ({
            &&& Some(res.pageid) == h.pageid
            &&& Some(res.ns) == h.ns
            &&& Some(res.title) == h.title
            &&& (h.categories is Some && !h.categories->0.spec_empty()) ==> res.categories == h.categories
            &&& !(h.categories is Some && !h.categories->0.spec_empty()) ==> res.categories is None
            &&& (h.categoryinfo is Some && !h.categoryinfo->0.spec_empty()) ==> res.categoryinfo == h.categoryinfo
            &&& !(h.categoryinfo is Some && !h.categoryinfo->0.spec_empty()) ==> res.categoryinfo is None
            &&& (h.images is Some && !h.images->0.spec_empty()) ==> res.images == h.images
            &&& !(h.images is Some && !h.images->0.spec_empty()) ==> res.images is None
            &&& (h.imageinfo is Some && !h.imageinfo->0.spec_empty()) ==> res.imageinfo == h.imageinfo
            &&& !(h.imageinfo is Some && !h.imageinfo->0.spec_empty()) ==> res.imageinfo is None
            &&& (h.pageimages is Some && !h.pageimages->0.spec_empty()) ==> res.pageimages == h.pageimages
            &&& !(h.pageimages is Some && !h.pageimages->0.spec_empty()) ==> res.pageimages is None
            &&& (h.info is Some && !h.info->0.spec_empty()) ==> res.info == h.info
            &&& !(h.info is Some && !h.info->0.spec_empty()) ==> res.info is None
        }),
{
}

/// The results of the pages, in order, the pages that are not results left out.
pub open spec fn results_of_pages(pages: Seq<(String, QueryResultHelper)>) -> Seq<QueryResult>
    decreases pages.len(),
{
    if pages.len() == 0 {
        Seq::<QueryResult>::empty()
    } else {
        let rest = results_of_pages(pages.drop_last());
        match result_of_helper(pages.last().1) {
            Ok(r) => rest.push(r),
            Err(_) => rest,
        }
    }
}

/// Every property result a page carries has something in it.
pub open spec fn no_empty_props(r: QueryResult) -> bool {
    &&& r.categories matches Some(c) ==> !c.spec_empty()
    &&& r.categoryinfo matches Some(c) ==> !c.spec_empty()
    &&& r.images matches Some(c) ==> !c.spec_empty()
    &&& r.imageinfo matches Some(c) ==> !c.spec_empty()
    &&& r.pageimages matches Some(c) ==> !c.spec_empty()
    &&& r.info matches Some(c) ==> !c.spec_empty()
}

/// A response never hands out empty property results: in every result of
/// its pages, each property result present has something in it; and each
/// result comes from a page that had a page id, a namespace and a title.
pub proof fn law_results_carry_no_empty_props(pages: Seq<(String, QueryResultHelper)>)
    ensures
        forall|i: int|
            0 <= i < results_of_pages(pages).len() ==> no_empty_props(
                #[trigger] results_of_pages(pages)[i],
            ),
        results_of_pages(pages).len() <= pages.len(),
    decreases pages.len(),
{
    if pages.len() > 0 {
        law_results_carry_no_empty_props(pages.drop_last());
    }
}

/// No complete page is lost and the order is kept: when every page has a
/// page id, a namespace and a title, there is one result per page, in the
/// pages' order, each with its page's id, namespace and title.
pub proof fn law_complete_pages_all_become_results(pages: Seq<(String, QueryResultHelper)>)
    requires
        forall|i: int| 0 <= i < pages.len() ==> (#[trigger] pages[i]).1.pageid is Some && pages[i].1.ns is Some
            && pages[i].1.title is Some,
    ensures
        results_of_pages(pages).len() == pages.len(),
        forall|i: int| 0 <= i < pages.len() ==> {
            &&& Some((#[trigger] results_of_pages(pages)[i]).pageid) == pages[i].1.pageid
            &&& Some(results_of_pages(pages)[i].ns) == pages[i].1.ns
            &&& Some(results_of_pages(pages)[i].title) == pages[i].1.title
        },
    decreases pages.len(),
{
    if pages.len() > 0 {
        let rest = pages.drop_last();
        assert forall|i: int| 0 <= i < rest.len() implies (#[trigger] rest[i]).1.pageid is Some && rest[i].1.ns
            is Some && rest[i].1.title is Some by {
            assert(rest[i] == pages[i]);
        }
        law_complete_pages_all_become_results(rest);
        assert(pages.last() == pages[pages.len() - 1]);
        assert forall|i: int| 0 <= i < pages.len() implies {
            &&& Some((#[trigger] results_of_pages(pages)[i]).pageid) == pages[i].1.pageid
            &&& Some(results_of_pages(pages)[i].ns) == pages[i].1.ns
            &&& Some(results_of_pages(pages)[i].title) == pages[i].1.title
        } by {
            if i < rest.len() {
                assert(rest[i] == pages[i]);
            }
        }
    }
}

/// The continuation of a response: the generic `continue` value and the
/// module-specific continuation parameters, in the order the response
/// listed them.
#[derive(Debug, PartialEq, Eq)]
pub struct Continue {
    pub contin: String,
    pub sub_cont: Vec<(String, String)>,
}

/// The key ends with `continue`.
pub open spec fn is_continue_key(k: Seq<char>) -> bool {
    has_suffix(k, "continue"@)
}

/// Index of the first pair whose key ends with `continue`.
pub open spec fn first_continue_index(s: Seq<(String, String)>) -> Option<int> {
    if exists|i: int| 0 <= i < s.len() && is_continue_key(s[i].0@) {
        Some(
            choose|i: int|
                0 <= i < s.len() && is_continue_key(s[i].0@) && forall|j: int|
                    0 <= j < i ==> !is_continue_key(#[trigger] s[j].0@),
        )
    } else {
        None
    }
}

impl Continue {
    fn find_pair(&self) -> (r: Option<usize>)
        ensures
            r matches Some(i) ==> i < self.sub_cont@.len() && is_continue_key(self.sub_cont@[i as int].0@)
                && forall|j: int| 0 <= j < i ==> !is_continue_key(#[trigger] self.sub_cont@[j].0@),
            r is None ==> forall|j: int|
                0 <= j < self.sub_cont@.len() ==> !is_continue_key(#[trigger] self.sub_cont@[j].0@),
            r matches Some(i) ==> first_continue_index(self.sub_cont@) == Some(i as int),
            r is None ==> first_continue_index(self.sub_cont@) is None,
    {
        let mut i: usize = 0;
        while i < self.sub_cont.len()
            invariant
                0 <= i <= self.sub_cont@.len(),
                forall|j: int| 0 <= j < i ==> !is_continue_key(#[trigger] self.sub_cont@[j].0@),
            decreases self.sub_cont.len() - i,
        {
            if ends_with(self.sub_cont[i].0.as_str(), "continue") {
                proof {
                    let s = self.sub_cont@;
                    let k = choose|k: int|
                        0 <= k < s.len() && is_continue_key(s[k].0@) && forall|j: int|
                            0 <= j < k ==> !is_continue_key(#[trigger] s[j].0@);
                    if k < i {
                    } else if k > i {
                        assert(is_continue_key(s[i as int].0@));
                    }
                }
                return Some(i);
            }
            i = i + 1;
        }
        None
    }

    /// The first continuation pair whose key ends with `continue`.
    pub fn get_continue_pair(&self) -> (r: Option<(&str, &str)>)
        ensures
            r matches Some(p) ==> first_continue_index(self.sub_cont@) matches Some(i) && p.0@
                == self.sub_cont@[i].0@ && p.1@ == self.sub_cont@[i].1@,
            r is None <==> first_continue_index(self.sub_cont@) is None,
    {
        match self.find_pair() {
            Some(i) => Some((self.sub_cont[i].0.as_str(), self.sub_cont[i].1.as_str())),
            None => None,
        }
    }

    /// The first continuation pair whose key ends with `continue`, owned.
    pub fn into_tuple(self) -> (r: Option<(String, String)>)
        ensures
            r matches Some(p) ==> first_continue_index(self.sub_cont@) matches Some(i) && p.0@
                == self.sub_cont@[i].0@ && p.1@ == self.sub_cont@[i].1@,
            r is None <==> first_continue_index(self.sub_cont@) is None,
    {
        match self.find_pair() {
            Some(i) => Some((owned(self.sub_cont[i].0.as_str()), owned(self.sub_cont[i].1.as_str()))),
            None => None,
        }
    }
}

/// A response: its continuation, the page ids when asked for, and the
/// results of its pages.
#[derive(Debug, PartialEq)]
pub struct QueryResponse {
    pub continue_: Option<Continue>,
    pub pageids: Option<Vec<i32>>,
    pub results: Vec<QueryResult>,
}

impl QueryResponse {
    /// The response of a decoded response: continuation and page ids kept,
    /// only the pages that are results collected.
    pub fn from_helper(helper: QueryResponseHelper) -> (r: QueryResponse)
        ensures
            r.continue_ == helper.continue_,
            r.pageids == helper.query.pageids,
            r.results@ == results_of_pages(helper.query.pages@),
    {
        let QueryResponseHelper { continue_, query } = helper;
        let IndiscriminateQueryHelper { pageids, pages } = query;
        let ghost all = pages@;
        let mut rest = pages;
        let mut rev: Vec<(String, QueryResultHelper)> = Vec::new();
        let n = rest.len();
        while rest.len() > 0
            invariant
                n == all.len(),
                rest@.len() + rev@.len() == n,
                forall|j: int| 0 <= j < rest@.len() ==> #[trigger] rest@[j] == all[j],
                forall|j: int| 0 <= j < rev@.len() ==> #[trigger] rev@[j] == all[n - 1 - j],
            decreases rest.len(),
        {
            let e = rest.pop().unwrap();
            rev.push(e);
        }
        let mut results: Vec<QueryResult> = Vec::new();
        let mut done: usize = 0;
        assert(all.take(0) =~= Seq::<(String, QueryResultHelper)>::empty());
        while rev.len() > 0
            invariant
                n == all.len(),
                rev@.len() + done == n,
                forall|j: int| 0 <= j < rev@.len() ==> #[trigger] rev@[j] == all[n - 1 - j],
                results@ == results_of_pages(all.take(done as int)),
            decreases rev.len(),
        {
            let (_, h) = rev.pop().unwrap();
            assert(all.take(done + 1).drop_last() =~= all.take(done as int));
            assert(all.take(done + 1).last() == all[done as int]);
            match QueryResult::try_from_helper(h) {
                Ok(r) => results.push(r),
                Err(_) => {},
            }
            done = done + 1;
        }
        assert(all.take(n as int) =~= all);
        QueryResponse { continue_, pageids, results }
    }

    /// The first continuation pair of the response, whatever its key.
    pub fn get_continue_tuple(&self) -> (r: Option<(&String, &String)>)
        ensures
            r matches Some(p) ==> self.continue_ matches Some(c) && c.sub_cont@.len() > 0 && *p.0
                == c.sub_cont@[0].0 && *p.1 == c.sub_cont@[0].1,
            r is None <==> (self.continue_ is None || self.continue_.unwrap().sub_cont@.len() == 0),
    {
        match &self.continue_ {
            Some(c) => if c.sub_cont.len() > 0 {
                Some((&c.sub_cont[0].0, &c.sub_cont[0].1))
            } else {
                None
            },
            None => None,
        }
    }
}

} // verus!
