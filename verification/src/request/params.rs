//! The full parameter set of a request and its builder.
use super::error::RequestError;
use super::param_map::{
    insert_all, lemma_lookup_insert_all, lemma_lookup_remove, lookup, param_json, param_text,
    remove_key, sorted_insert, sorted_keys, EntryView, ParamMap, ParamValue, ParamView,
};
use super::query::{Action, Generator, Prop, Query};
use crate::text::{join_pipe, join_with, owned};
use core::marker::PhantomData;
use vstd::prelude::*;

verus! {

/// The output format of the API.
#[derive(Debug, PartialEq, Eq, Structural, Clone, Copy)]
pub enum Format {
    Json,
    JsonFm,
    Nothing,
    Php,
    PhpFm,
    RawFm,
    Xml,
    XmlFm,
}

/// The name of a format (its lowercase variant name).
pub open spec fn format_name(f: Format) -> Seq<char> {
    match f {
        Format::Json => "json"@,
        Format::JsonFm => "jsonfm"@,
        Format::Nothing => "none"@,
        Format::Php => "php"@,
        Format::PhpFm => "phpfm"@,
        Format::RawFm => "rawfm"@,
        Format::Xml => "xml"@,
        Format::XmlFm => "xmlfm"@,
    }
}

impl Format {
    /// The name of the format.
    pub fn name(&self) -> (r: String)
        ensures
            r@ == format_name(*self),
    {
        match self {
            Format::Json => owned("json"),
            Format::JsonFm => owned("jsonfm"),
            Format::Nothing => owned("none"),
            Format::Php => owned("php"),
            Format::PhpFm => owned("phpfm"),
            Format::RawFm => owned("rawfm"),
            Format::Xml => owned("xml"),
            Format::XmlFm => owned("xmlfm"),
        }
    }
}

impl Default for Format {
    fn default() -> (r: Format)
        ensures
            r == Format::Json,
    {
        Format::Json
    }
}

/// The format of error messages.
#[derive(Debug, PartialEq, Eq, Structural, Clone, Copy)]
pub enum ErrorFormat {
    PlainText,
    WikiText,
    HTML,
    Raw,
    Nothing,
    BC,
}

impl ErrorFormat {
    /// The name of the error format (its lowercase variant name).
    pub fn name(&self) -> (r: String)
        ensures
            r@ == match self {
                ErrorFormat::PlainText => "plaintext"@,
                ErrorFormat::WikiText => "wikitext"@,
                ErrorFormat::HTML => "html"@,
                ErrorFormat::Raw => "raw"@,
                ErrorFormat::Nothing => "none"@,
                ErrorFormat::BC => "bc"@,
            },
    {
        match self {
            ErrorFormat::PlainText => owned("plaintext"),
            ErrorFormat::WikiText => owned("wikitext"),
            ErrorFormat::HTML => owned("html"),
            ErrorFormat::Raw => owned("raw"),
            ErrorFormat::Nothing => owned("none"),
            ErrorFormat::BC => owned("bc"),
        }
    }
}

impl Default for ErrorFormat {
    fn default() -> (r: ErrorFormat)
        ensures
            r == ErrorFormat::Raw,
    {
        ErrorFormat::Raw
    }
}

/// The parameter object a builder produces from its action and extra
/// entries: the action's entries inserted in order; `titles` dropped when
/// `pageids` is present as well; then the extra entries inserted, so they
/// override entries of the same key.
pub open spec fn built_entries(action: Seq<EntryView>, extra: Seq<EntryView>) -> Seq<EntryView> {
    let m = insert_all(Seq::<EntryView>::empty(), action);
    let m2 = if lookup(m, "pageids"@) is Some && lookup(m, "titles"@) is Some {
        remove_key(m, "titles"@)
    } else {
        m
    };
    insert_all(m2, extra)
}

/// A request never names pages both ways: where the action sets page ids
/// and no extra parameter sets titles, the built parameters carry no titles.
pub proof fn law_pageids_exclude_titles(action: Seq<EntryView>, extra: Seq<EntryView>)
    requires
        sorted_keys(extra),
        lookup(insert_all(Seq::<EntryView>::empty(), action), "pageids"@) is Some,
        lookup(extra, "titles"@) is None,
    ensures
        lookup(built_entries(action, extra), "titles"@) is None,
        lookup(built_entries(action, extra), "pageids"@) is Some,
{
    let m = insert_all(Seq::<EntryView>::empty(), action);
    let m2 = if lookup(m, "pageids"@) is Some && lookup(m, "titles"@) is Some {
        remove_key(m, "titles"@)
    } else {
        m
    };
    lemma_lookup_remove(m, "titles"@, "titles"@);
    assert("titles"@ != "pageids"@) by {
        reveal_strlit("titles");
        reveal_strlit("pageids");
        assert("titles"@[0] != "pageids"@[0]);
    }
    lemma_lookup_remove(m, "titles"@, "pageids"@);
    lemma_lookup_insert_all(m2, extra, "titles"@);
    lemma_lookup_insert_all(m2, extra, "pageids"@);
}

/// Extra parameters win: a key the extra parameters set reads back from the
/// built parameters as the extra value, whatever the action set.
pub proof fn law_extras_override(action: Seq<EntryView>, extra: Seq<EntryView>, k: Seq<char>)
    requires
        sorted_keys(extra),
        lookup(extra, k) is Some,
    ensures
        lookup(built_entries(action, extra), k) == lookup(extra, k),
{
    let m = insert_all(Seq::<EntryView>::empty(), action);
    let m2 = if lookup(m, "pageids"@) is Some && lookup(m, "titles"@) is Some {
        remove_key(m, "titles"@)
    } else {
        m
    };
    lemma_lookup_insert_all(m2, extra, k);
}

/// Removing a continuation undoes setting it: afterwards the key is absent
/// and every other parameter reads as it did before it was set.
pub proof fn law_remove_undoes_update(s: Seq<EntryView>, k: Seq<char>, v: Seq<char>, other: Seq<char>)
    ensures
        lookup(remove_key(sorted_insert(s, k, ParamView::Text(v)), k), k) is None,
        other != k ==> lookup(remove_key(sorted_insert(s, k, ParamView::Text(v)), k), other) == lookup(
            s,
            other,
        ),
{
    super::param_map::lemma_lookup_insert(s, k, ParamView::Text(v), other);
    lemma_lookup_remove(sorted_insert(s, k, ParamView::Text(v)), k, k);
    lemma_lookup_remove(sorted_insert(s, k, ParamView::Text(v)), k, other);
}

/// The complete parameters of a request for action `T`.
#[derive(Debug)]
pub struct PARAMS<T: Action> {
    params: ParamMap,
    format: Format,
    action_marker: PhantomData<T>,
}

impl<T: Action> PARAMS<T> {
    /// The parameter object, keys ascending.
    pub closed spec fn entries(&self) -> Seq<EntryView> {
        self.params@
    }

    /// The output format.
    pub closed spec fn spec_format(&self) -> Format {
        self.format
    }

    /// A builder with no parameter set.
    pub fn build() -> (b: ParamsBuilder<T>)
        ensures
            b.action() == T::spec_default(),
            b.format_choice() is None,
            b.extra_entries() == Seq::<EntryView>::empty(),
    {
        ParamsBuilder::new()
    }

    /// The parameter object.
    pub fn params(&self) -> (r: &ParamMap)
        ensures
            r@ == self.entries(),
    {
        &self.params
    }

    /// The output format.
    pub fn format(&self) -> (r: Format)
        ensures
            r == self.spec_format(),
    {
        self.format
    }

    /// The query-string pairs of the request: each entry of the parameter
    /// object in ascending key order, then `format`.
    pub fn pairs(&self) -> (r: Vec<(String, String)>)
        ensures
            r@.len() == self.entries().len() + 1,
            forall|i: int|
                0 <= i < self.entries().len() ==> (#[trigger] r@[i]).0@ == self.entries()[i].0
                    && r@[i].1@ == param_text(self.entries()[i].1),
            r@[self.entries().len() as int].0@ == "format"@,
            r@[self.entries().len() as int].1@ == super::params::format_name(self.spec_format()),
    {
        let mut r: Vec<(String, String)> = Vec::new();
        let n = self.params.len();
        let mut i: usize = 0;
        while i < n
            invariant
                n == self.entries().len(),
                self.entries() == self.params@,
                0 <= i <= n,
                r@.len() == i,
                forall|j: int|
                    0 <= j < i ==> (#[trigger] r@[j]).0@ == self.entries()[j].0 && r@[j].1@
                        == param_text(self.entries()[j].1),
            decreases n - i,
        {
            let (k, v) = self.params.entry(i);
            r.push((owned(k.as_str()), v.to_text()));
            i = i + 1;
        }
        r.push((owned("format"), self.format.name()));
        r
    }
}

impl PARAMS<Query> {
    /// Sets the continuation parameter `cont_key` to `cont_value`, returning
    /// the JSON text of the value it replaced.
    pub fn update_continue(&mut self, cont_key: String, cont_value: String) -> (prev: Option<
        String,
    >)
        ensures
            final(self).entries() == sorted_insert(
                old(self).entries(),
                cont_key@,
                ParamView::Text(cont_value@),
            ),
            final(self).spec_format() == old(self).spec_format(),
            prev matches Some(t) ==> lookup(old(self).entries(), cont_key@) matches Some(v) && t@
                == param_json(v),
            prev is None ==> lookup(old(self).entries(), cont_key@) is None,
            lookup(final(self).entries(), cont_key@) == Some(ParamView::Text(cont_value@)),
    {
        proof {
            super::param_map::lemma_lookup_insert(
                self.entries(),
                cont_key@,
                ParamView::Text(cont_value@),
                cont_key@,
            );
        }
        match self.params.insert(cont_key, ParamValue::Text(cont_value)) {
            Some(v) => Some(v.to_json_text()),
            None => None,
        }
    }

    /// Removes the parameter `cont_key`, returning the JSON text of its value.
    pub fn remove_continue(&mut self, cont_key: &str) -> (prev: Option<String>)
        ensures
            final(self).entries() == remove_key(old(self).entries(), cont_key@),
            final(self).spec_format() == old(self).spec_format(),
            prev matches Some(t) ==> lookup(old(self).entries(), cont_key@) matches Some(v) && t@
                == param_json(v),
            prev is None ==> lookup(old(self).entries(), cont_key@) is None,
            lookup(final(self).entries(), cont_key@) is None,
    {
        proof {
            lemma_lookup_remove(self.entries(), cont_key@, cont_key@);
        }
        match self.params.remove(cont_key) {
            Some(v) => Some(v.to_json_text()),
            None => None,
        }
    }
}

/// Builds the parameters of a request for action `T`.
pub struct ParamsBuilder<T: Action> {
    params: T,
    format: Option<Format>,
    extra: Option<ParamMap>,
}

impl<T: Action> ParamsBuilder<T> {
    /// The action parameters.
    pub closed spec fn action(&self) -> T {
        self.params
    }

    /// The chosen format, if any.
    pub closed spec fn format_choice(&self) -> Option<Format> {
        self.format
    }

    /// The extra entries, keys ascending.
    pub closed spec fn extra_entries(&self) -> Seq<EntryView> {
        match self.extra {
            Some(m) => m@,
            None => Seq::<EntryView>::empty(),
        }
    }

    /// A builder with no parameter set.
    pub fn new() -> (b: ParamsBuilder<T>)
        ensures
            b.action() == T::spec_default(),
            b.format_choice() is None,
            b.extra_entries() == Seq::<EntryView>::empty(),
    {
        ParamsBuilder { params: T::default_action(), format: None, extra: None }
    }

    /// The parameters: see [`built_entries`]; the format defaults to JSON.
    pub fn build(self) -> (r: Result<PARAMS<T>, RequestError>)
        ensures
            r matches Ok(p) && p.entries() == built_entries(
                self.action().spec_entries(),
                self.extra_entries(),
            ) && p.spec_format() == match self.format_choice() {
                Some(f) => f,
                None => Format::Json,
            },
    {
        let mut m = ParamMap::new();
        self.params.write_entries(&mut m);
        assert(insert_all(Seq::<EntryView>::empty(), self.action().spec_entries()) == m@);
        if m.contains_key("pageids") && m.contains_key("titles") {
            m.remove("titles");
        }
        let ghost e = self.extra_entries();
        match self.extra {
            Some(x) => m.extend(x),
            None => {},
        }
        let format = match self.format {
            Some(f) => f,
            None => Format::Json,
        };
        Ok(PARAMS { params: m, format, action_marker: PhantomData })
    }

    /// Chooses the output format.
    pub fn with_format(self, format_: Format) -> (b: ParamsBuilder<T>)
        ensures
            b.action() == self.action(),
            b.format_choice() == Some(format_),
            b.extra_entries() == self.extra_entries(),
    {
        let mut b = self;
        b.format = Some(format_);
        b
    }

    /// Chooses the output format in place.
    pub fn set_format(&mut self, format_: Format)
        ensures
            final(self).action() == old(self).action(),
            final(self).format_choice() == Some(format_),
            final(self).extra_entries() == old(self).extra_entries(),
    {
        self.format = Some(format_);
    }

    /// Adds an extra parameter.
    pub fn with_extra(self, key: String, val: ParamValue) -> (b: ParamsBuilder<T>)
        ensures
            b.action() == self.action(),
            b.format_choice() == self.format_choice(),
            b.extra_entries() == sorted_insert(self.extra_entries(), key@, val@),
    {
        let mut b = self;
        b.append_entry(key, val);
        b
    }

    fn append_entry(&mut self, key: String, val: ParamValue)
        ensures
            final(self).action() == old(self).action(),
            final(self).format_choice() == old(self).format_choice(),
            final(self).extra_entries() == sorted_insert(old(self).extra_entries(), key@, val@),
    {
        let mut m = match self.extra.take() {
            Some(m) => m,
            None => ParamMap::new(),
        };
        m.insert(key, val);
        self.extra = Some(m);
    }

    /// Adds extra parameters, in order.
    pub fn with_extras(self, extras: Vec<(String, ParamValue)>) -> (b: ParamsBuilder<T>)
        ensures
            b.action() == self.action(),
            b.format_choice() == self.format_choice(),
            b.extra_entries() == insert_all(
                self.extra_entries(),
                extras@.map_values(|e: (String, ParamValue)| (e.0@, e.1@)),
            ),
    {
        let mut b = self;
        b.extend_extras(extras);
        b
    }

    /// Adds extra parameters in place, in order.
    pub fn extend_extras(&mut self, extras: Vec<(String, ParamValue)>)
        ensures
            final(self).action() == old(self).action(),
            final(self).format_choice() == old(self).format_choice(),
            final(self).extra_entries() == insert_all(
                old(self).extra_entries(),
                extras@.map_values(|e: (String, ParamValue)| (e.0@, e.1@)),
            ),
    {
        let ghost all = extras@.map_values(|e: (String, ParamValue)| (e.0@, e.1@));
        let ghost start = self.extra_entries();
        let n = extras.len();
        let mut rest = extras;
        let mut items: Vec<(String, ParamValue)> = Vec::new();
        while rest.len() > 0
            invariant
                n == all.len(),
                rest@.len() + items@.len() == n,
                forall|j: int|
                    0 <= j < rest@.len() ==> ((#[trigger] rest@[j]).0@, rest@[j].1@) == all[j],
                forall|j: int|
                    0 <= j < items@.len() ==> ((#[trigger] items@[j]).0@, items@[j].1@) == all[n - 1
                        - j],
            decreases rest.len(),
        {
            let e = rest.pop().unwrap();
            items.push(e);
        }
        let mut done: usize = 0;
        assert(all.skip(0) =~= all);
        while items.len() > 0
            invariant
                n == all.len(),
                items@.len() + done == n,
                forall|j: int|
                    0 <= j < items@.len() ==> ((#[trigger] items@[j]).0@, items@[j].1@) == all[n - 1
                        - j],
                insert_all(start, all) == insert_all(self.extra_entries(), all.skip(done as int)),
                self.action() == old(self).action(),
                self.format_choice() == old(self).format_choice(),
            decreases items.len(),
        {
            let (k, v) = items.pop().unwrap();
            proof {
                assert(all.skip(done as int)[0] == all[done as int]);
                assert(all.skip(done as int).drop_first() =~= all.skip(done + 1));
            }
            self.append_entry(k, v);
            done = done + 1;
        }
        assert(all.skip(n as int) =~= Seq::<EntryView>::empty());
    }

    /// Adds the extra parameter `key`, its values joined with `|`.
    pub fn append_extra(&mut self, key: String, vals: Vec<String>)
        ensures
            final(self).action() == old(self).action(),
            final(self).format_choice() == old(self).format_choice(),
            final(self).extra_entries() == sorted_insert(
                old(self).extra_entries(),
                key@,
                ParamView::Text(join_with(vals.deep_view(), '|')),
            ),
    {
        let s = join_pipe(&vals);
        self.append_entry(key, ParamValue::Text(s));
    }
}

impl ParamsBuilder<Query> {
    /// Sets the titles, replacing any previous ones.
    pub fn with_titles(self, titles_: Vec<String>) -> (b: ParamsBuilder<Query>)
        ensures
            b.action() == (Query { titles: Some(titles_), ..self.action() }),
            b.format_choice() == self.format_choice(),
            b.extra_entries() == self.extra_entries(),
    {
        let mut b = self;
        b.params.titles = Some(titles_);
        b
    }

    /// Sets the page ids, replacing any previous ones.
    pub fn with_pageids(self, pageids_: Vec<u32>) -> (b: ParamsBuilder<Query>)
        ensures
            b.action() == (Query { pageids: Some(pageids_), ..self.action() }),
            b.format_choice() == self.format_choice(),
            b.extra_entries() == self.extra_entries(),
    {
        let mut b = self;
        b.params.pageids = Some(pageids_);
        b
    }

    /// Sets the continuation pair, replacing any previous one.
    pub fn with_continue(self, ckey: String, cval: String) -> (b: ParamsBuilder<Query>)
        ensures
            b.action() == (Query { cont: Some((ckey, cval)), ..self.action() }),
            b.format_choice() == self.format_choice(),
            b.extra_entries() == self.extra_entries(),
    {
        let mut b = self;
        b.params.cont = Some((ckey, cval));
        b
    }

    /// Sets the properties, replacing any previous ones.
    pub fn with_props(self, props_: Vec<Prop>) -> (b: ParamsBuilder<Query>)
        ensures
            b.action() == (Query { prop: Some(props_), ..self.action() }),
            b.format_choice() == self.format_choice(),
            b.extra_entries() == self.extra_entries(),
    {
        let mut b = self;
        b.params.prop = Some(props_);
        b
    }

    /// Sets the generator, replacing any previous one.
    pub fn with_generator(self, generator_: Generator) -> (b: ParamsBuilder<Query>)
        ensures
            b.action() == (Query { generator: Some(generator_), ..self.action() }),
            b.format_choice() == self.format_choice(),
            b.extra_entries() == self.extra_entries(),
    {
        let mut b = self;
        b.params.generator = Some(generator_);
        b
    }

    /// Sets whether the response lists the page ids.
    pub fn with_indexpageids(self, ind: bool) -> (b: ParamsBuilder<Query>)
        ensures
            b.action() == (Query { indexpageids: ind, ..self.action() }),
            b.format_choice() == self.format_choice(),
            b.extra_entries() == self.extra_entries(),
    {
        let mut b = self;
        b.params.indexpageids = ind;
        b
    }

    /// Appends titles to the present ones (or to none).
    pub fn append_titles(&mut self, titles_: Vec<String>)
        ensures
            final(self).action().titles matches Some(t) && t@ == match old(self).action().titles {
                Some(p) => p@,
                None => Seq::<String>::empty(),
            } + titles_@,
            final(self).action().pageids == old(self).action().pageids,
            final(self).action().prop == old(self).action().prop,
            final(self).action().generator == old(self).action().generator,
            final(self).action().indexpageids == old(self).action().indexpageids,
            final(self).action().cont == old(self).action().cont,
            final(self).format_choice() == old(self).format_choice(),
            final(self).extra_entries() == old(self).extra_entries(),
    {
        let mut t = match self.params.titles.take() {
            Some(p) => p,
            None => Vec::new(),
        };
        let mut more = titles_;
        t.append(&mut more);
        self.params.titles = Some(t);
    }

    /// Appends page ids to the present ones (or to none).
    pub fn append_pageids(&mut self, pageids_: Vec<u32>)
        ensures
            final(self).action().pageids matches Some(t) && t@ == match old(self).action().pageids {
                Some(p) => p@,
                None => Seq::<u32>::empty(),
            } + pageids_@,
            final(self).action().titles == old(self).action().titles,
            final(self).action().prop == old(self).action().prop,
            final(self).action().generator == old(self).action().generator,
            final(self).action().indexpageids == old(self).action().indexpageids,
            final(self).action().cont == old(self).action().cont,
            final(self).format_choice() == old(self).format_choice(),
            final(self).extra_entries() == old(self).extra_entries(),
    {
        let mut t = match self.params.pageids.take() {
            Some(p) => p,
            None => Vec::new(),
        };
        let mut more = pageids_;
        t.append(&mut more);
        self.params.pageids = Some(t);
    }

    /// Appends properties to the present ones (or to none).
    pub fn append_props(&mut self, props_: Vec<Prop>)
        ensures
            final(self).action().prop matches Some(t) && t@ == match old(self).action().prop {
                Some(p) => p@,
                None => Seq::<Prop>::empty(),
            } + props_@,
            final(self).action().titles == old(self).action().titles,
            final(self).action().pageids == old(self).action().pageids,
            final(self).action().generator == old(self).action().generator,
            final(self).action().indexpageids == old(self).action().indexpageids,
            final(self).action().cont == old(self).action().cont,
            final(self).format_choice() == old(self).format_choice(),
            final(self).extra_entries() == old(self).extra_entries(),
    {
        let mut t = match self.params.prop.take() {
            Some(p) => p,
            None => Vec::new(),
        };
        let mut more = props_;
        t.append(&mut more);
        self.params.prop = Some(t);
    }

    /// Sets the generator in place.
    pub fn set_generator(&mut self, generator_: Generator)
        ensures
            final(self).action() == (Query { generator: Some(generator_), ..old(self).action() }),
            final(self).format_choice() == old(self).format_choice(),
            final(self).extra_entries() == old(self).extra_entries(),
    {
        self.params.generator = Some(generator_);
    }

    /// Sets `indexpageids` in place.
    pub fn set_indexpageids(&mut self, ind: bool)
        ensures
            final(self).action() == (Query { indexpageids: ind, ..old(self).action() }),
            final(self).format_choice() == old(self).format_choice(),
            final(self).extra_entries() == old(self).extra_entries(),
    {
        self.params.indexpageids = ind;
    }

    /// Sets the continuation pair in place.
    pub fn set_continue(&mut self, ckey: String, cval: String)
        ensures
            final(self).action() == (Query { cont: Some((ckey, cval)), ..old(self).action() }),
            final(self).format_choice() == old(self).format_choice(),
            final(self).extra_entries() == old(self).extra_entries(),
    {
        self.params.cont = Some((ckey, cval));
    }

    /// Replaces the titles with `titles_`, or removes them when it is `None`;
    /// returns the previous titles.
    pub fn replace_or_remove_titles(&mut self, titles_: Option<Vec<String>>) -> (prev: Option<
        Vec<String>,
    >)
        ensures
            prev == old(self).action().titles,
            final(self).action() == (Query { titles: titles_, ..old(self).action() }),
            final(self).format_choice() == old(self).format_choice(),
            final(self).extra_entries() == old(self).extra_entries(),
    {
        let prev = self.params.titles.take();
        self.params.titles = titles_;
        prev
    }

    /// Replaces the page ids with `pageids_`, or removes them when it is
    /// `None`; returns the previous page ids.
    pub fn replace_or_remove_pageids(&mut self, pageids_: Option<Vec<u32>>) -> (prev: Option<
        Vec<u32>,
    >)
        ensures
            prev == old(self).action().pageids,
            final(self).action() == (Query { pageids: pageids_, ..old(self).action() }),
            final(self).format_choice() == old(self).format_choice(),
            final(self).extra_entries() == old(self).extra_entries(),
    {
        let prev = self.params.pageids.take();
        self.params.pageids = pageids_;
        prev
    }

    /// Replaces the continuation pair with `continue_`, or removes it when
    /// it is `None`; returns the previous pair.
    pub fn replace_or_remove_continue(&mut self, continue_: Option<(String, String)>) -> (prev:
        Option<(String, String)>)
        ensures
            prev == old(self).action().cont,
            final(self).action() == (Query { cont: continue_, ..old(self).action() }),
            final(self).format_choice() == old(self).format_choice(),
            final(self).extra_entries() == old(self).extra_entries(),
    {
        let prev = self.params.cont.take();
        self.params.cont = continue_;
        prev
    }
}

} // verus!
