//! The rules of the interactive prompts: how answers are collected,
//! checked and turned into download arguments.
use crate::fetch::cli::{DownloadArgs, StdinInput};
use crate::fetch::error::DestinyFetchError;
use crate::text::{owned, str_eq, trim, trimmed};
use std::collections::HashSet;
use vstd::prelude::*;
use vstd::std_specs::iter::IteratorSpec;

verus! {

/// The answer that ends a list of titles, or declines to name a file or a category.
pub open spec fn stop_answer() -> Seq<char> {
    "-1"@
}

/// What became of one answer to a prompt for a list.
#[derive(Debug, Clone, Copy, PartialEq, Eq, Structural)]
pub enum Collected {
    /// The answer ends the list.
    Finish,
    /// The answer was given before; the list is unchanged.
    Duplicate,
    /// The answer was added to the list.
    Added,
}

fn holds_title(v: &Vec<String>, t: &str) -> (r: bool)
    ensures
        r == v.deep_view().contains(t@),
{
    let mut i: usize = 0;
    while i < v.len()
        invariant
            0 <= i <= v@.len(),
            forall|j: int| 0 <= j < i ==> v@[j]@ != t@,
        decreases v@.len() - i,
    {
        if str_eq(v[i].as_str(), t) {
            assert(v.deep_view()[i as int] == t@);
            return true;
        }
        i = i + 1;
    }
    assert(!v.deep_view().contains(t@)) by {
        if v.deep_view().contains(t@) {
            let k = choose|k: int| 0 <= k < v.deep_view().len() && v.deep_view()[k] == t@;
            assert(v@[k]@ == t@);
        }
    }
    false
}

/// The titles typed at the title prompt, each kept once.
pub struct TitleCollector {
    titles: Vec<String>,
}

impl TitleCollector {
    /// The titles kept so far, in the order they were typed.
    pub closed spec fn titles_view(&self) -> Seq<Seq<char>> {
        self.titles.deep_view()
    }

    #[verifier::type_invariant]
    spec fn distinct(&self) -> bool {
        self.titles@.len() + 1 <= u16::MAX && forall|i: int, j: int|
            0 <= i < j < self.titles@.len() ==> self.titles@[i]@ != self.titles@[j]@
    }

    /// No title yet.
    pub fn new() -> (c: TitleCollector)
        ensures
            c.titles_view() == Seq::<Seq<char>>::empty(),
    {
        TitleCollector { titles: Vec::new() }
    }

    /// The number the prompt shows for the next title (one more than the
    /// titles kept).
    pub fn count(&self) -> (n: u16)
        ensures
            n == self.titles_view().len() + 1,
    {
        proof {
            use_type_invariant(self);
        }
        (self.titles.len() + 1) as u16
    }

    /// Takes one answer: `-1` ends the list; otherwise the answer, trimmed,
    /// is added unless it was typed before. The prompt counts titles in a
    /// `u16`, so a new title cannot be added once 65534 are kept.
    pub fn accept(&mut self, answer: &str) -> (r: Collected)
        requires
            answer@ != stop_answer() && !old(self).titles_view().contains(trimmed(answer@)) ==> old(
                self,
            ).titles_view().len() + 2 <= u16::MAX,
        ensures
            answer@ == stop_answer() ==> r == Collected::Finish && final(self).titles_view() == old(
                self,
            ).titles_view(),
            answer@ != stop_answer() ==> {
                if old(self).titles_view().contains(trimmed(answer@)) {
                    r == Collected::Duplicate && final(self).titles_view() == old(self).titles_view()
                } else {
                    r == Collected::Added && final(self).titles_view() == old(self).titles_view().push(
                        trimmed(answer@),
                    )
                }
            },
    {
        proof {
            use_type_invariant(&*self);
        }
        if str_eq(answer, "-1") {
            return Collected::Finish;
        }
        let t = trim(answer);
        if holds_title(&self.titles, t.as_str()) {
            return Collected::Duplicate;
        }
        let ghost before = self.titles_view();
        let mut v: Vec<String> = Vec::new();
        std::mem::swap(&mut v, &mut self.titles);
        v.push(t);
        assert(v.deep_view() =~= before.push(t@));
        assert forall|i: int, j: int| 0 <= i < j < v@.len() implies v@[i]@ != v@[j]@ by {
            assert(v@[i]@ == v.deep_view()[i]);
            assert(v@[j]@ == v.deep_view()[j]);
            if j == v@.len() - 1 {
                assert(before[i] != t@);
            } else {
                assert(before[i] == old(self).titles@[i]@);
                assert(before[j] == old(self).titles@[j]@);
            }
        }
        self.titles = v;
        Collected::Added
    }

    /// The titles kept, in the order they were typed; each is kept once.
    pub fn into_titles(self) -> (v: Vec<String>)
        ensures
            v.deep_view() == self.titles_view(),
            forall|i: int, j: int| 0 <= i < j < v@.len() ==> v@[i]@ != v@[j]@,
    {
        proof {
            use_type_invariant(&self);
        }
        self.titles
    }
}

/// The ids typed at the id prompt, each kept once, in a hash set.
pub struct IdCollector {
    ids: HashSet<u16>,
}

impl IdCollector {
    /// The ids kept so far.
    pub closed spec fn ids_view(&self) -> Set<u16> {
        self.ids@
    }

    #[verifier::type_invariant]
    spec fn bounded(&self) -> bool {
        self.ids@.finite() && self.ids@.len() + 1 <= u16::MAX
    }

    /// No id yet.
    pub fn new() -> (c: IdCollector)
        ensures
            c.ids_view() == Set::<u16>::empty(),
    {
        IdCollector { ids: HashSet::new() }
    }

    /// The number the prompt shows for the next id.
    pub fn count(&self) -> (n: u16)
        ensures
            n == self.ids_view().len() + 1,
    {
        broadcast use vstd::std_specs::hash::group_hash_axioms;
        proof {
            use_type_invariant(self);
        }
        (self.ids.len() + 1) as u16
    }

    /// Takes one answer: a negative id ends the list; an id above 65535
    /// fails with `NegativeArgErr`; otherwise the id is added unless it was
    /// typed before. The prompt counts ids in a `u16`, so a new id cannot be
    /// added once 65534 are kept.
    pub fn accept(&mut self, answer: i32) -> (r: Result<Collected, DestinyFetchError>)
        requires
            0 <= answer <= u16::MAX && !old(self).ids_view().contains(answer as u16) ==> old(
                self,
            ).ids_view().len() + 2 <= u16::MAX,
        ensures
            answer < 0 ==> r == Ok::<Collected, DestinyFetchError>(Collected::Finish) && final(self).ids_view()
                == old(self).ids_view(),
            answer > u16::MAX ==> r == Err::<Collected, DestinyFetchError>(DestinyFetchError::NegativeArgErr)
                && final(self).ids_view() == old(self).ids_view(),
            0 <= answer <= u16::MAX ==> {
                if old(self).ids_view().contains(answer as u16) {
                    r == Ok::<Collected, DestinyFetchError>(Collected::Duplicate) && final(self).ids_view()
                        == old(self).ids_view()
                } else {
                    r == Ok::<Collected, DestinyFetchError>(Collected::Added) && final(self).ids_view()
                        == old(self).ids_view().insert(answer as u16)
                }
            },
    {
        broadcast use vstd::std_specs::hash::group_hash_axioms;
        proof {
            use_type_invariant(&*self);
        }
        if answer < 0 {
            return Ok(Collected::Finish);
        }
        if answer > 65535 {
            return Err(DestinyFetchError::NegativeArgErr);
        }
        let id = answer as u16;
        let mut set: HashSet<u16> = HashSet::new();
        std::mem::swap(&mut set, &mut self.ids);
        let added = set.insert(id);
        self.ids = set;
        if added {
            Ok(Collected::Added)
        } else {
            Ok(Collected::Duplicate)
        }
    }

    /// The ids kept, each once, in the order the hash set yields them.
    pub fn into_ids(self) -> (v: Vec<u16>)
        ensures
            v@.to_set() == self.ids_view(),
            v@.no_duplicates(),
            v@.len() == self.ids_view().len(),
    {
        broadcast use vstd::std_specs::hash::group_hash_axioms;
        let ghost keys = vstd::std_specs::hash::spec_hash_keys_iter(&self.ids).remaining();
        let mut v: Vec<u16> = Vec::new();
        for x in it: self.ids.iter()
            invariant
                it.seq() == keys,
                v@.len() == it.index(),
                forall|j: int| 0 <= j < it.index() ==> v@[j] == *it.seq()[j],
        {
            v.push(*x);
        }
        assert(v@ =~= keys.unref());
        v
    }
}

/// An answer naming a file or a category: `-1` quits; otherwise the answer
/// as typed.
pub fn named_answer(answer: &str) -> (r: Result<String, DestinyFetchError>)
    ensures
        answer@ == stop_answer() ==> r == Err::<String, DestinyFetchError>(DestinyFetchError::Quit),
        answer@ != stop_answer() ==> (r matches Ok(s) && s@ == answer@),
{
    if str_eq(answer, "-1") {
        Err(DestinyFetchError::Quit)
    } else {
        Ok(owned(answer))
    }
}

/// Where the answer to the output directory prompt points.
#[derive(Debug, PartialEq, Eq)]
pub enum DirAnswer {
    /// `.`: the working directory.
    WorkingDir,
    /// Any other answer, as a path.
    Path(String),
}

/// Reads the answer to the output directory prompt.
pub fn dir_answer(answer: &str) -> (r: DirAnswer)
    ensures
        answer@ == "."@ ==> r == DirAnswer::WorkingDir,
        answer@ != "."@ ==> (r matches DirAnswer::Path(p) && p@ == answer@),
{
    if str_eq(answer, ".") {
        DirAnswer::WorkingDir
    } else {
        DirAnswer::Path(owned(answer))
    }
}

/// The images the interactive download was given.
#[derive(Debug, PartialEq, Eq)]
pub enum Selection {
    Titles(Vec<String>),
    Ids(Vec<u16>),
    Category(String),
}

/// The download arguments for the images chosen at the prompts: exactly
/// one kind of command-line input, the rest left unset.
pub fn download_args_for(sel: Selection) -> (r: DownloadArgs)
    ensures
        r.input_file is None,
        r.output_dir is None,
        !r.noconfirm,
        r.input is Some,
        match sel {
            Selection::Titles(t) => r.input.unwrap().titles == Some(t) && r.input.unwrap().ids is None
                && r.input.unwrap().in_category is None,
            Selection::Ids(v) => r.input.unwrap().ids == Some(v) && r.input.unwrap().titles is None
                && r.input.unwrap().in_category is None,
            Selection::Category(c) => r.input.unwrap().in_category == Some(c)
                && r.input.unwrap().titles is None && r.input.unwrap().ids is None,
        },
{
    let mut args = DownloadArgs::default();
    let input = match sel {
        Selection::Titles(t) => StdinInput { ids: None, titles: Some(t), in_category: None },
        Selection::Ids(v) => StdinInput { ids: Some(v), titles: None, in_category: None },
        Selection::Category(c) => StdinInput { ids: None, titles: None, in_category: Some(c) },
    };
    args.input = Some(input);
    args
}

} // verus!
