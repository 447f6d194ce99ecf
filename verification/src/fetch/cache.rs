//! The cache of the image tool: when the database was last synced, and the
//! searches saved for a later download.
use crate::fetch::error::DestinyFetchError;
use crate::fetch::rows::ImagesRow;
use crate::text::{decimal, owned, push_decimal, str_eq};
use vstd::prelude::*;

verus! {

/// The name of the cache file.
pub const CACHE_FILE: &'static str = "destiny_fetch_cache.json";

/// The saved search under `k`, if any (the first pair with that key).
pub open spec fn search_of(s: Seq<(Seq<char>, Seq<ImagesRow>)>, k: Seq<char>) -> Option<Seq<ImagesRow>>
    decreases s.len(),
{
    if s.len() == 0 {
        None
    } else if s[0].0 == k {
        Some(s[0].1)
    } else {
        search_of(s.drop_first(), k)
    }
}

/// No two saved searches share a name.
pub open spec fn distinct_names(s: Seq<(Seq<char>, Seq<ImagesRow>)>) -> bool {
    forall|i: int, j: int| 0 <= i < j < s.len() ==> s[i].0 != s[j].0
}

/// The saved searches after saving `v` under `k`: the search of that name
/// replaced in place, or the new one added at the end.
pub open spec fn stored(s: Seq<(Seq<char>, Seq<ImagesRow>)>, k: Seq<char>, v: Seq<ImagesRow>) -> Seq<
    (Seq<char>, Seq<ImagesRow>),
>
    decreases s.len(),
{
    if s.len() == 0 {
        seq![(k, v)]
    } else if s[0].0 == k {
        seq![(k, v)] + s.drop_first()
    } else {
        seq![s[0]] + stored(s.drop_first(), k, v)
    }
}

/// Saving a search and reading it back gives what was saved, leaves every
/// other saved search as it was, and keeps the names distinct.
pub proof fn law_store_then_read(
    s: Seq<(Seq<char>, Seq<ImagesRow>)>,
    k: Seq<char>,
    v: Seq<ImagesRow>,
    other: Seq<char>,
)
    requires
        distinct_names(s),
    ensures
        search_of(stored(s, k, v), k) == Some(v),
        other != k ==> search_of(stored(s, k, v), other) == search_of(s, other),
        distinct_names(stored(s, k, v)),
        stored(s, k, v).len() == if search_of(s, k) is Some {
            s.len()
        } else {
            s.len() + 1
        },
    decreases s.len(),
{
    if s.len() == 0 {
        assert(stored(s, k, v).drop_first() =~= Seq::<(Seq<char>, Seq<ImagesRow>)>::empty());
    } else {
        assert(distinct_names(s.drop_first()));
        law_store_then_read(s.drop_first(), k, v, other);
        let t = stored(s, k, v);
        if s[0].0 == k {
            assert(t.drop_first() =~= s.drop_first());
            assert(t[0] == (k, v));
            if other != k {
                assert(search_of(t, other) == search_of(t.drop_first(), other));
                assert(search_of(s, other) == search_of(s.drop_first(), other));
            }
            assert forall|i: int, j: int| 0 <= i < j < t.len() implies t[i].0 != t[j].0 by {
                if i == 0 {
                    assert(t[j] == s[j]);
                    assert(s[0].0 != s[j].0);
                } else {
                    assert(t[i] == s[i]);
                    assert(t[j] == s[j]);
                }
            }
            lemma_not_found_after_first(s);
        } else {
            assert(t.drop_first() =~= stored(s.drop_first(), k, v));
            assert(t[0] == s[0]);
            assert(search_of(t, k) == search_of(t.drop_first(), k));
            if other != k && s[0].0 != other {
                assert(search_of(t, other) == search_of(t.drop_first(), other));
                assert(search_of(s, other) == search_of(s.drop_first(), other));
            }
            assert forall|i: int, j: int| 0 <= i < j < t.len() implies t[i].0 != t[j].0 by {
                if i == 0 {
                    lemma_stored_names(s.drop_first(), k, v, j - 1);
                    if t[j].0 == s[0].0 {
                        let m = choose|m: int| 0 <= m < s.drop_first().len() && s.drop_first()[m].0 == t[j].0;
                        assert(s[m + 1].0 == s[0].0);
                    }
                } else {
                    assert(t[i] == stored(s.drop_first(), k, v)[i - 1]);
                    assert(t[j] == stored(s.drop_first(), k, v)[j - 1]);
                }
            }
        }
    }
}

proof fn lemma_not_found_after_first(s: Seq<(Seq<char>, Seq<ImagesRow>)>)
    requires
        s.len() > 0,
        distinct_names(s),
    ensures
        search_of(s.drop_first(), s[0].0) is None,
{
    lemma_search_absent(s.drop_first(), s[0].0);
}

proof fn lemma_search_absent(s: Seq<(Seq<char>, Seq<ImagesRow>)>, k: Seq<char>)
    requires
        forall|i: int| 0 <= i < s.len() ==> s[i].0 != k,
    ensures
        search_of(s, k) is None,
    decreases s.len(),
{
    if s.len() > 0 {
        lemma_search_absent(s.drop_first(), k);
    }
}

proof fn lemma_stored_names(s: Seq<(Seq<char>, Seq<ImagesRow>)>, k: Seq<char>, v: Seq<ImagesRow>, j: int)
    requires
        0 <= j < stored(s, k, v).len(),
    ensures
        stored(s, k, v)[j].0 == k || exists|m: int| 0 <= m < s.len() && s[m].0 == stored(s, k, v)[j].0,
    decreases s.len(),
{
    if s.len() > 0 && s[0].0 != k && j > 0 {
        lemma_stored_names(s.drop_first(), k, v, j - 1);
        let t = stored(s.drop_first(), k, v);
        assert(stored(s, k, v)[j] == t[j - 1]);
        if t[j - 1].0 != k {
            let m = choose|m: int| 0 <= m < s.drop_first().len() && s.drop_first()[m].0 == t[j - 1].0;
            assert(s[m + 1].0 == t[j - 1].0);
        }
    } else if s.len() > 0 && s[0].0 == k && j > 0 {
        assert(stored(s, k, v)[j] == s[j]);
    } else if s.len() > 0 && j == 0 && s[0].0 != k {
        assert(stored(s, k, v)[0] == s[0]);
    }
}

/// What the cache file holds.
pub struct Cachedata {
    last_sync_at: Option<i64>,
    last_sync_rows_written: Option<u64>,
    cached_searches: Vec<(String, Vec<ImagesRow>)>,
}

/// The view of one saved search.
pub open spec fn search_view(e: (String, Vec<ImagesRow>)) -> (Seq<char>, Seq<ImagesRow>) {
    (e.0@, e.1@)
}

impl Cachedata {
    /// The saved searches, in the order they were first saved.
    pub closed spec fn searches_view(&self) -> Seq<(Seq<char>, Seq<ImagesRow>)> {
        self.cached_searches@.map_values(|e: (String, Vec<ImagesRow>)| search_view(e))
    }

    /// When the database was last synced (seconds since the Unix epoch).
    pub closed spec fn spec_last_sync_at(&self) -> Option<i64> {
        self.last_sync_at
    }

    /// How many rows the last sync wrote.
    pub closed spec fn spec_last_sync_rows_written(&self) -> Option<u64> {
        self.last_sync_rows_written
    }

    #[verifier::type_invariant]
    spec fn names_distinct(&self) -> bool {
        distinct_names(self.searches_view())
    }

    /// An empty cache: never synced, no saved search.
    pub fn new() -> (c: Cachedata)
        ensures
            c.spec_last_sync_at() is None,
            c.spec_last_sync_rows_written() is None,
            c.searches_view() == Seq::<(Seq<char>, Seq<ImagesRow>)>::empty(),
    {
        let c = Cachedata { last_sync_at: None, last_sync_rows_written: None, cached_searches: Vec::new() };
        assert(c.searches_view() =~= Seq::<(Seq<char>, Seq<ImagesRow>)>::empty());
        c
    }

    /// When the database was last synced.
    pub fn last_sync_at(&self) -> (r: Option<i64>)
        ensures
            r == self.spec_last_sync_at(),
    {
        self.last_sync_at
    }

    /// How many rows the last sync wrote.
    pub fn last_sync_rows_written(&self) -> (r: Option<u64>)
        ensures
            r == self.spec_last_sync_rows_written(),
    {
        self.last_sync_rows_written
    }

    /// Records a finished sync: when it ended and how many rows it wrote.
    pub fn record_sync(&mut self, at: Option<i64>, rows_written: Option<u64>)
        ensures
            final(self).spec_last_sync_at() == at,
            final(self).spec_last_sync_rows_written() == rows_written,
            final(self).searches_view() == old(self).searches_view(),
    {
        proof {
            use_type_invariant(&*self);
        }
        self.last_sync_at = at;
        self.last_sync_rows_written = rows_written;
    }

    /// The number of saved searches.
    pub fn len(&self) -> (n: usize)
        ensures
            n == self.searches_view().len(),
    {
        self.cached_searches.len()
    }

    /// The default name of the next saved search: `stored_query_` and one
    /// more than the number of saved searches.
    pub fn new_save_name(&self) -> (s: String)
        requires
            self.searches_view().len() < u64::MAX,
        ensures
            s@ == "stored_query_"@ + decimal((self.searches_view().len() + 1) as nat),
    {
        let mut s = owned("stored_query_");
        let n = self.cached_searches.len() as u64;
        push_decimal(&mut s, n + 1);
        s
    }

    /// The saved search of that name.
    pub fn read_images(&self, name: &str) -> (r: Option<&Vec<ImagesRow>>)
        ensures
            match search_of(self.searches_view(), name@) {
                Some(v) => r matches Some(w) && w@ == v,
                None => r is None,
            },
    {
        let ghost s = self.searches_view();
        let mut i: usize = 0;
        assert(s.skip(0) =~= s);
        while i < self.cached_searches.len()
            invariant
                0 <= i <= self.cached_searches@.len(),
                s == self.searches_view(),
                s.len() == self.cached_searches@.len(),
                search_of(s, name@) == search_of(s.skip(i as int), name@),
            decreases self.cached_searches@.len() - i,
        {
            assert(s.skip(i as int)[0] == search_view(self.cached_searches@[i as int]));
            assert(s.skip(i as int).drop_first() =~= s.skip(i + 1));
            if str_eq(self.cached_searches[i].0.as_str(), name) {
                return Some(&self.cached_searches[i].1);
            }
            i = i + 1;
        }
        assert(s.skip(i as int) =~= Seq::<(Seq<char>, Seq<ImagesRow>)>::empty());
        None
    }

    /// Saves a search under a name, replacing the search of that name.
    pub fn store_images(&mut self, name: String, images: Vec<ImagesRow>)
        ensures
            final(self).searches_view() == stored(old(self).searches_view(), name@, images@),
            final(self).spec_last_sync_at() == old(self).spec_last_sync_at(),
            final(self).spec_last_sync_rows_written() == old(self).spec_last_sync_rows_written(),
    {
        proof {
            use_type_invariant(&*self);
        }
        let ghost s = self.searches_view();
        let ghost k = name@;
        let ghost w = images@;
        let mut v: Vec<(String, Vec<ImagesRow>)> = Vec::new();
        std::mem::swap(&mut v, &mut self.cached_searches);
        let mut i: usize = 0;
        assert(s.skip(0) =~= s);
        assert(s.take(0) + stored(s, k, w) =~= stored(s, k, w));
        while i < v.len()
            invariant
                0 <= i <= v@.len(),
                distinct_names(s),
                s == old(self).searches_view(),
                k == name@,
                w == images@,
                self.last_sync_at == old(self).last_sync_at,
                self.last_sync_rows_written == old(self).last_sync_rows_written,
                s == v@.map_values(|e: (String, Vec<ImagesRow>)| search_view(e)),
                stored(s, k, w) == s.take(i as int) + stored(s.skip(i as int), k, w),
            decreases v@.len() - i,
        {
            assert(s.skip(i as int)[0] == search_view(v@[i as int]));
            assert(s.skip(i as int).drop_first() =~= s.skip(i + 1));
            if str_eq(v[i].0.as_str(), name.as_str()) {
                v.set(i, (name, images));
                proof {
                    let t = v@.map_values(|e: (String, Vec<ImagesRow>)| search_view(e));
                    assert(stored(s.skip(i as int), k, w) =~= seq![(k, w)] + s.skip(i + 1));
                    assert(t =~= s.take(i as int) + (seq![(k, w)] + s.skip(i + 1)));
                    law_store_then_read(s, k, w, k);
                }
                self.cached_searches = v;
                return;
            }
            assert(s.take(i + 1) =~= s.take(i as int).push(s[i as int]));
            i = i + 1;
        }
        assert(s.skip(i as int) =~= Seq::<(Seq<char>, Seq<ImagesRow>)>::empty());
        assert(stored(s.skip(i as int), k, w) == seq![(k, w)]);
        v.push((name, images));
        proof {
            let t = v@.map_values(|e: (String, Vec<ImagesRow>)| search_view(e));
            assert(s.take(i as int) =~= s);
            assert(t =~= s.push((k, w)));
            assert(t =~= stored(s, k, w));
            law_store_then_read(s, k, w, k);
        }
        self.cached_searches = v;
    }

    /// The saved searches, in the order they were first saved.
    pub fn searches(&self) -> (r: &Vec<(String, Vec<ImagesRow>)>)
        ensures
            r@.map_values(|e: (String, Vec<ImagesRow>)| search_view(e)) == self.searches_view(),
    {
        &self.cached_searches
    }
}

/// The cache and the file it is kept in.
pub struct Cache {
    pub data: Cachedata,
    pub path: String,
}

/// What reading the cache file gave.
pub enum CacheFile {
    /// The file was read and its contents understood.
    Read(Cachedata),
    /// The file was read but its contents are not a cache.
    Unparsable,
    /// The file could not be read.
    Unreadable,
}

impl Cache {
    /// An empty cache kept at `path`.
    pub fn new_with_path(path: String) -> (c: Cache)
        ensures
            c.path == path,
            c.data.spec_last_sync_at() is None,
            c.data.spec_last_sync_rows_written() is None,
            c.data.searches_view() == Seq::<(Seq<char>, Seq<ImagesRow>)>::empty(),
    {
        Cache { data: Cachedata::new(), path }
    }

    /// The cache kept at `path`, from what reading its file gave: its
    /// contents where they were read; an empty cache where the file could
    /// not be read and one may be created; otherwise `CachePathErr`.
    pub fn open_with(path: String, file: CacheFile, create: bool) -> (r: Result<Cache, DestinyFetchError>)
        ensures
            match file {
                CacheFile::Read(d) => r matches Ok(c) && c.path == path && c.data == d,
                CacheFile::Unparsable => r == Err::<Cache, DestinyFetchError>(DestinyFetchError::CachePathErr),
                CacheFile::Unreadable => if create {
                    r matches Ok(c) && c.path == path && c.data.spec_last_sync_at() is None
                        && c.data.spec_last_sync_rows_written() is None && c.data.searches_view()
                        == Seq::<(Seq<char>, Seq<ImagesRow>)>::empty()
                } else {
                    r == Err::<Cache, DestinyFetchError>(DestinyFetchError::CachePathErr)
                },
            },
    {
        match file {
            CacheFile::Read(d) => Ok(Cache { data: d, path }),
            CacheFile::Unparsable => Err(DestinyFetchError::CachePathErr),
            CacheFile::Unreadable => if create {
                Ok(Cache::new_with_path(path))
            } else {
                Err(DestinyFetchError::CachePathErr)
            },
        }
    }
}

} // verus!
