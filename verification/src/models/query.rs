//! A `query` naming pages by titles or page ids and asking for one
//! property or one list.
use vstd::prelude::*;

verus! {

/// A simple query.
#[derive(Debug)]
pub struct Query {
    pub titles: Option<Vec<String>>,
    pub pageids: Option<Vec<u16>>,
    pub prop: Option<Prop>,
    pub list: Option<List>,
}

/// The property a simple query asks for.
#[derive(Debug, PartialEq, Eq, Structural, Clone, Copy)]
pub enum Prop {
    Info,
    PageImages,
    Images,
    ImageInfo,
    Categories,
}

/// The list a simple query asks for.
#[derive(Debug, PartialEq, Eq, Structural, Clone, Copy)]
pub enum List {
    AllImages,
    AllPages,
    AllCategories,
    AllLinks,
}

/// A field a simple query writes, with its value; the field names are
/// `list`, `pageids`, `titles` and `prop`.
#[derive(Debug)]
pub enum QueryField {
    List(List),
    PageIds(Vec<u16>),
    Titles(Vec<String>),
    Prop(Option<Prop>),
}

/// The fields a query writes: only `list` when a list is set; otherwise the
/// page ids when set, else the titles when set, and then `prop`, written
/// even when unset.
pub open spec fn query_fields(q: Query) -> Seq<QueryField> {
    match q.list {
        Some(l) => seq![QueryField::List(l)],
        None => match (q.pageids, q.titles) {
            (Some(ids), _) => seq![QueryField::PageIds(ids), QueryField::Prop(q.prop)],
            (None, Some(ts)) => seq![QueryField::Titles(ts), QueryField::Prop(q.prop)],
            (None, None) => seq![QueryField::Prop(q.prop)],
        },
    }
}

/// A copy of a list of strings.
fn copy_strings(v: &Vec<String>) -> (r: Vec<String>)
    ensures
        r@ == v@,
{
    let mut r: Vec<String> = Vec::new();
    let mut i: usize = 0;
    while i < v.len()
        invariant
            0 <= i <= v.len(),
            r@ == v@.take(i as int),
        decreases v.len() - i,
    {
        r.push(v[i].clone());
        assert(r@ =~= v@.take(i + 1));
        i = i + 1;
    }
    assert(v@.take(i as int) =~= v@);
    r
}

/// A copy of a list of numbers.
fn copy_ids(v: &Vec<u16>) -> (r: Vec<u16>)
    ensures
        r@ == v@,
{
    let mut r: Vec<u16> = Vec::new();
    let mut i: usize = 0;
    while i < v.len()
        invariant
            0 <= i <= v.len(),
            r@ == v@.take(i as int),
        decreases v.len() - i,
    {
        r.push(v[i]);
        assert(r@ =~= v@.take(i + 1));
        i = i + 1;
    }
    assert(v@.take(i as int) =~= v@);
    r
}

impl Query {
    /// Sets the titles.
    pub fn titles(self, titles: Vec<String>) -> (q: Query)
        ensures
            q == (Query { titles: Some(titles), ..self }),
    {
        Query { titles: Some(titles), ..self }
    }

    /// Sets the page ids.
    pub fn pageids(self, pageids: &[u16]) -> (q: Query)
        ensures
            q.pageids matches Some(v) && v@ == pageids@,
            q.titles == self.titles,
            q.prop == self.prop,
            q.list == self.list,
    {
        let mut v: Vec<u16> = Vec::new();
        let mut i: usize = 0;
        while i < pageids.len()
            invariant
                0 <= i <= pageids@.len(),
                v@ == pageids@.take(i as int),
            decreases pageids.len() - i,
        {
            v.push(pageids[i]);
            assert(v@ =~= pageids@.take(i + 1));
            i = i + 1;
        }
        assert(pageids@.take(i as int) =~= pageids@);
        Query { pageids: Some(v), ..self }
    }

    /// Sets the property.
    pub fn prop(self, prop: Prop) -> (q: Query)
        ensures
            q == (Query { prop: Some(prop), ..self }),
    {
        Query { prop: Some(prop), ..self }
    }

    /// Sets the list.
    pub fn list(self, list: List) -> (q: Query)
        ensures
            q == (Query { list: Some(list), ..self }),
    {
        Query { list: Some(list), ..self }
    }

    /// The fields the query writes (see [`query_fields`]).
    pub fn serialized_fields(&self) -> (r: Vec<QueryField>)
        ensures
            r@.len() == query_fields(*self).len(),
            forall|i: int|
                0 <= i < r@.len() ==> match (#[trigger] r@[i], query_fields(*self)[i]) {
                    (QueryField::List(a), QueryField::List(b)) => a == b,
                    (QueryField::PageIds(a), QueryField::PageIds(b)) => a@ == b@,
                    (QueryField::Titles(a), QueryField::Titles(b)) => a@ == b@,
                    (QueryField::Prop(a), QueryField::Prop(b)) => a == b,
                    _ => false,
                },
    {
        let mut r: Vec<QueryField> = Vec::new();
        if let Some(l) = self.list {
            r.push(QueryField::List(l));
            return r;
        }
        if let Some(ids) = &self.pageids {
            r.push(QueryField::PageIds(copy_ids(ids)));
        } else if let Some(ts) = &self.titles {
            r.push(QueryField::Titles(copy_strings(ts)));
        }
        r.push(QueryField::Prop(self.prop));
        r
    }
}

} // verus!
