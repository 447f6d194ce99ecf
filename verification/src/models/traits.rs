//! The behaviour shared by simple API actions.
use super::query::Query;
use crate::error::Error;
use vstd::prelude::*;

verus! {

/// A simple API action: it can be created empty and checked.
pub trait ActionType: Sized {
    /// The action is usable.
    spec fn spec_valid(&self) -> bool;

    /// The action is set to a list.
    spec fn spec_has_list(&self) -> bool;

    /// The action is set to a property.
    spec fn spec_has_prop(&self) -> bool;

    /// The action with nothing set.
    spec fn spec_new() -> Self;

    /// The action with nothing set.
    fn new() -> (r: Self)
        ensures
            r == Self::spec_new(),
    ;

    /// Whether a list is set.
    fn has_list(&self) -> (r: bool)
        ensures
            r == self.spec_has_list(),
    ;

    /// Whether a property is set.
    fn has_prop(&self) -> (r: bool)
        ensures
            r == self.spec_has_prop(),
    ;

    /// The action itself when usable, `Error::Args` otherwise.
    fn validate(self) -> (r: Result<Self, Error>)
        ensures
            r is Ok <==> self.spec_valid(),
            r matches Ok(a) ==> a == self,
            r matches Err(e) ==> e == Error::Args,
    ;

    /// Whether the action is usable.
    fn is_valid(&self) -> (r: bool)
        ensures
            r == self.spec_valid(),
    ;
}

/// Pages are named: non-empty titles or non-empty page ids.
pub open spec fn names_pages(q: Query) -> bool {
    (q.titles matches Some(t) && t@.len() > 0) || (q.pageids matches Some(p) && p@.len() > 0)
}

/// Exactly one of a property and a list is set.
pub open spec fn one_output(q: Query) -> bool {
    q.prop is Some != q.list is Some
}

impl ActionType for Query {
    open spec fn spec_valid(&self) -> bool {
        names_pages(*self) && one_output(*self)
    }

    open spec fn spec_has_list(&self) -> bool {
        self.list is Some
    }

    open spec fn spec_has_prop(&self) -> bool {
        self.prop is Some
    }

    open spec fn spec_new() -> Self {
        Query { titles: None, pageids: None, prop: None, list: None }
    }

    fn new() -> (r: Self) {
        Query { titles: None, pageids: None, prop: None, list: None }
    }

    fn has_list(&self) -> (r: bool) {
        self.list.is_some()
    }

    fn has_prop(&self) -> (r: bool) {
        self.prop.is_some()
    }

    fn validate(self) -> (r: Result<Self, Error>) {
        if self.is_valid() {
            Ok(self)
        } else {
            Err(Error::Args)
        }
    }

    fn is_valid(&self) -> (r: bool) {
        match (&self.titles, &self.pageids) {
            (None, None) => {
                return false;
            },
            (Some(v), None) => {
                if v.len() == 0 {
                    return false;
                }
            },
            (None, Some(v)) => {
                if v.len() == 0 {
                    return false;
                }
            },
            (Some(v1), Some(v2)) => {
                if v1.len() == 0 && v2.len() == 0 {
                    return false;
                }
            },
        }
        match (&self.prop, &self.list) {
            (Some(_), Some(_)) => false,
            (None, None) => false,
            _ => true,
        }
    }
}

/// Page ids alone name the pages: a query with no titles, some page ids and
/// exactly one of a property and a list is usable.
pub proof fn law_page_ids_alone_name_pages(q: Query)
    requires
        q.titles is None,
        q.pageids matches Some(p) && p@.len() > 0,
        q.prop is Some != q.list is Some,
    ensures
        q.spec_valid(),
{
}

/// Titles alone name the pages: a query with no page ids, some titles and
/// exactly one of a property and a list is usable.
pub proof fn law_titles_alone_name_pages(q: Query)
    requires
        q.pageids is None,
        q.titles matches Some(t) && t@.len() > 0,
        q.prop is Some != q.list is Some,
    ensures
        q.spec_valid(),
{
}

/// When is a query usable: some titles or some page ids (either list may be
/// absent or empty as long as the other has one), and exactly one of a
/// property and a list. Without any title or page id, or with both or
/// neither of a property and a list, it is not.
pub proof fn law_query_usable(q: Query)
    ensures
        q.spec_valid() <==> (((q.titles is Some && q.titles->0@.len() > 0) || (q.pageids is Some
            && q.pageids->0@.len() > 0)) && (q.prop is Some != q.list is Some)),
        q.prop is Some && q.list is Some ==> !q.spec_valid(),
        q.prop is None && q.list is None ==> !q.spec_valid(),
        q.titles is None && q.pageids is None ==> !q.spec_valid(),
{
}

} // verus!
