//! Types shared by the request and the response side: wiki namespaces and
//! the library's error type.
use crate::request::error::RequestError;
use crate::response::error::FromResultHelperError;
use crate::text::{decimal, decimal_string};
use vstd::prelude::*;

verus! {

/// The namespaces of destinypedia.com, each identified by its numeric code.
#[derive(Debug, PartialEq, Eq, Structural, PartialOrd, Ord, Clone, Copy, Hash)]
pub enum NAMESPACE {
    PAGE,
    TALK,
    USER,
    USERTALK,
    DESTINYPEDIA,
    DESTINYPEDIATALK,
    FILE,
    FILETALK,
    MEDIAWIKI,
    TEMPLATE,
    TEMPLATETALK,
    HELP,
    HELPTALK,
    CATEGORY,
    GRIMOIRE,
    FORUM,
}

/// The numeric code of a namespace in the MediaWiki API.
pub open spec fn ns_code(ns: NAMESPACE) -> u16 {
    match ns {
        NAMESPACE::PAGE => 0,
        NAMESPACE::TALK => 1,
        NAMESPACE::USER => 2,
        NAMESPACE::USERTALK => 3,
        NAMESPACE::DESTINYPEDIA => 4,
        NAMESPACE::DESTINYPEDIATALK => 5,
        NAMESPACE::FILE => 6,
        NAMESPACE::FILETALK => 7,
        NAMESPACE::MEDIAWIKI => 8,
        NAMESPACE::TEMPLATE => 10,
        NAMESPACE::TEMPLATETALK => 11,
        NAMESPACE::HELP => 12,
        NAMESPACE::HELPTALK => 13,
        NAMESPACE::CATEGORY => 14,
        NAMESPACE::GRIMOIRE => 100,
        NAMESPACE::FORUM => 110,
    }
}

/// The namespace with a numeric code, if there is one.
pub open spec fn ns_of_code(n: u16) -> Option<NAMESPACE> {
    if n == 0 {
        Some(NAMESPACE::PAGE)
    } else if n == 1 {
        Some(NAMESPACE::TALK)
    } else if n == 2 {
        Some(NAMESPACE::USER)
    } else if n == 3 {
        Some(NAMESPACE::USERTALK)
    } else if n == 4 {
        Some(NAMESPACE::DESTINYPEDIA)
    } else if n == 5 {
        Some(NAMESPACE::DESTINYPEDIATALK)
    } else if n == 6 {
        Some(NAMESPACE::FILE)
    } else if n == 7 {
        Some(NAMESPACE::FILETALK)
    } else if n == 8 {
        Some(NAMESPACE::MEDIAWIKI)
    } else if n == 10 {
        Some(NAMESPACE::TEMPLATE)
    } else if n == 11 {
        Some(NAMESPACE::TEMPLATETALK)
    } else if n == 12 {
        Some(NAMESPACE::HELP)
    } else if n == 13 {
        Some(NAMESPACE::HELPTALK)
    } else if n == 14 {
        Some(NAMESPACE::CATEGORY)
    } else if n == 100 {
        Some(NAMESPACE::GRIMOIRE)
    } else if n == 110 {
        Some(NAMESPACE::FORUM)
    } else {
        None
    }
}

/// The text of a namespace in requests: its code in decimal.
pub open spec fn ns_text(ns: NAMESPACE) -> Seq<char> {
    decimal(ns_code(ns) as nat)
}

/// Converting a namespace to its code and back gives the namespace, and a
/// code that names a namespace is that namespace's code.
pub proof fn lemma_ns_code_roundtrip(ns: NAMESPACE, n: u16)
    ensures
        ns_of_code(ns_code(ns)) == Some(ns),
        ns_of_code(n) == Some(ns) ==> ns_code(ns) == n,
{
}

impl NAMESPACE {
    /// The numeric code (what `ns as u16` gives).
    pub fn code(&self) -> (r: u16)
        ensures
            r == ns_code(*self),
    {
        match self {
            NAMESPACE::PAGE => 0,
            NAMESPACE::TALK => 1,
            NAMESPACE::USER => 2,
            NAMESPACE::USERTALK => 3,
            NAMESPACE::DESTINYPEDIA => 4,
            NAMESPACE::DESTINYPEDIATALK => 5,
            NAMESPACE::FILE => 6,
            NAMESPACE::FILETALK => 7,
            NAMESPACE::MEDIAWIKI => 8,
            NAMESPACE::TEMPLATE => 10,
            NAMESPACE::TEMPLATETALK => 11,
            NAMESPACE::HELP => 12,
            NAMESPACE::HELPTALK => 13,
            NAMESPACE::CATEGORY => 14,
            NAMESPACE::GRIMOIRE => 100,
            NAMESPACE::FORUM => 110,
        }
    }

    /// The namespace with code `n`, or `None` when no namespace has it.
    pub fn try_from_code(n: u16) -> (r: Option<NAMESPACE>)
        ensures
            r == ns_of_code(n),
    {
        if n == 0 {
            Some(NAMESPACE::PAGE)
        } else if n == 1 {
            Some(NAMESPACE::TALK)
        } else if n == 2 {
            Some(NAMESPACE::USER)
        } else if n == 3 {
            Some(NAMESPACE::USERTALK)
        } else if n == 4 {
            Some(NAMESPACE::DESTINYPEDIA)
        } else if n == 5 {
            Some(NAMESPACE::DESTINYPEDIATALK)
        } else if n == 6 {
            Some(NAMESPACE::FILE)
        } else if n == 7 {
            Some(NAMESPACE::FILETALK)
        } else if n == 8 {
            Some(NAMESPACE::MEDIAWIKI)
        } else if n == 10 {
            Some(NAMESPACE::TEMPLATE)
        } else if n == 11 {
            Some(NAMESPACE::TEMPLATETALK)
        } else if n == 12 {
            Some(NAMESPACE::HELP)
        } else if n == 13 {
            Some(NAMESPACE::HELPTALK)
        } else if n == 14 {
            Some(NAMESPACE::CATEGORY)
        } else if n == 100 {
            Some(NAMESPACE::GRIMOIRE)
        } else if n == 110 {
            Some(NAMESPACE::FORUM)
        } else {
            None
        }
    }

    /// The code in decimal (what the namespace displays as).
    pub fn to_text(&self) -> (r: String)
        ensures
            r@ == ns_text(*self),
    {
        decimal_string(self.code() as u64)
    }
}

/// The library's error: a request could not be built or sent, or a response
/// could not be interpreted.
#[derive(Debug)]
pub enum DestinypediaError {
    RequestErr(RequestError),
    ResponseErr(FromResultHelperError),
}

impl DestinypediaError {
    /// Wraps a request error.
    pub fn from_request(e: RequestError) -> (r: DestinypediaError)
        ensures
            r == DestinypediaError::RequestErr(e),
    {
        DestinypediaError::RequestErr(e)
    }

    /// Wraps a response error.
    pub fn from_response(e: FromResultHelperError) -> (r: DestinypediaError)
        ensures
            r == DestinypediaError::ResponseErr(e),
    {
        DestinypediaError::ResponseErr(e)
    }
}

} // verus!
