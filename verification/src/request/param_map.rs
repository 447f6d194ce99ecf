//! The parameter object of a request: string keys kept in ascending order,
//! each mapped to one value, as a JSON object with sorted keys holds them.
use crate::text::{
    decimal, decimal_string, digit_char, lemma_seq_lt_asymmetric, lemma_seq_lt_irreflexive, lemma_seq_lt_total,
    lemma_seq_lt_transitive, owned, push_char, seq_lt, str_eq, str_lt,
};
use vstd::prelude::*;

verus! {

/// One parameter value: text, an unsigned number, or a boolean flag.
#[derive(Debug)]
pub enum ParamValue {
    Text(String),
    Number(u64),
    Flag(bool),
}

/// The mathematical value of a [`ParamValue`].
pub enum ParamView {
    Text(Seq<char>),
    Number(u64),
    Flag(bool),
}

impl View for ParamValue {
    type V = ParamView;

    open spec fn view(&self) -> ParamView {
        match self {
            ParamValue::Text(s) => ParamView::Text(s@),
            ParamValue::Number(n) => ParamView::Number(*n),
            ParamValue::Flag(b) => ParamView::Flag(*b),
        }
    }
}

/// `true` or `false`.
pub open spec fn bool_text(b: bool) -> Seq<char> {
    if b {
        seq!['t', 'r', 'u', 'e']
    } else {
        seq!['f', 'a', 'l', 's', 'e']
    }
}

/// How a value is written in a query string.
pub open spec fn param_text(v: ParamView) -> Seq<char> {
    match v {
        ParamView::Text(s) => s,
        ParamView::Number(n) => decimal(n as nat),
        ParamView::Flag(b) => bool_text(b),
    }
}

/// A hexadecimal digit, lower case.
pub open spec fn hex_digit(n: nat) -> char {
    if n < 10 {
        digit_char(n)
    } else if n == 10 {
        'a'
    } else if n == 11 {
        'b'
    } else if n == 12 {
        'c'
    } else if n == 13 {
        'd'
    } else if n == 14 {
        'e'
    } else {
        'f'
    }
}

/// How a character is written inside a JSON string: `"` and `\` behind a
/// backslash, the short escapes of backspace, tab, line feed, form feed and
/// carriage return, other control characters as `\u00` and two hex digits,
/// anything else as itself.
pub open spec fn json_escape(c: char) -> Seq<char> {
    if c == '"' {
        seq!['\\', '"']
    } else if c == '\\' {
        seq!['\\', '\\']
    } else if c == '\x08' {
        seq!['\\', 'b']
    } else if c == '\t' {
        seq!['\\', 't']
    } else if c == '\n' {
        seq!['\\', 'n']
    } else if c == '\x0C' {
        seq!['\\', 'f']
    } else if c == '\r' {
        seq!['\\', 'r']
    } else if (c as u32) < 0x20 {
        seq!['\\', 'u', '0', '0', hex_digit(((c as u32) / 16) as nat), hex_digit(((c as u32) % 16) as nat)]
    } else {
        seq![c]
    }
}

/// The JSON text of a string: between quotes, each character escaped as
/// [`json_escape`] says.
pub open spec fn json_string_text(s: Seq<char>) -> Seq<char> {
    seq!['"'] + s.map_values(|c: char| json_escape(c)).flatten() + seq!['"']
}

/// How a value is written as JSON text.
pub open spec fn param_json(v: ParamView) -> Seq<char> {
    match v {
        ParamView::Text(s) => json_string_text(s),
        ParamView::Number(n) => decimal(n as nat),
        ParamView::Flag(b) => bool_text(b),
    }
}

/// Writes `s` as a JSON string literal.
///
/// Trusted: `serde_json::Value::to_string` on `Value::String(s)`, which
/// writes compact JSON: the string between quotes with the escapes of
/// serde_json's escape table, as [`json_string_text`] spells out.
#[verifier::external_body]
fn json_text_of_str(s: &str) -> (r: String)
    ensures
        r@ == json_string_text(s@),
{
    serde_json::Value::String(s.to_string()).to_string()
}

fn text_of_bool(b: bool) -> (r: String)
    ensures
        r@ == bool_text(b),
{
    let mut r = String::new();
    if b {
        push_char(&mut r, 't');
        push_char(&mut r, 'r');
        push_char(&mut r, 'u');
        push_char(&mut r, 'e');
    } else {
        push_char(&mut r, 'f');
        push_char(&mut r, 'a');
        push_char(&mut r, 'l');
        push_char(&mut r, 's');
        push_char(&mut r, 'e');
    }
    assert(r@ =~= bool_text(b));
    r
}

impl ParamValue {
    /// The text of this value in a query string.
    pub fn to_text(&self) -> (r: String)
        ensures
            r@ == param_text(self@),
    {
        match self {
            ParamValue::Text(s) => owned(s.as_str()),
            ParamValue::Number(n) => decimal_string(*n),
            ParamValue::Flag(b) => text_of_bool(*b),
        }
    }

    /// The JSON text of this value (what `Value::to_string` gives).
    pub fn to_json_text(&self) -> (r: String)
        ensures
            r@ == param_json(self@),
    {
        match self {
            ParamValue::Text(s) => json_text_of_str(s.as_str()),
            ParamValue::Number(n) => decimal_string(*n),
            ParamValue::Flag(b) => text_of_bool(*b),
        }
    }

    /// A copy of this value.
    pub fn duplicate(&self) -> (r: ParamValue)
        ensures
            r@ == self@,
    {
        match self {
            ParamValue::Text(s) => ParamValue::Text(owned(s.as_str())),
            ParamValue::Number(n) => ParamValue::Number(*n),
            ParamValue::Flag(b) => ParamValue::Flag(*b),
        }
    }
}

/// A key with its value.
pub type EntryView = (Seq<char>, ParamView);

/// Keys strictly ascending (so also pairwise distinct).
pub open spec fn sorted_keys(s: Seq<EntryView>) -> bool {
    forall|i: int, j: int| 0 <= i < j < s.len() ==> seq_lt(#[trigger] s[i].0, #[trigger] s[j].0)
}

/// The value stored under `k`, if any.
pub open spec fn lookup(s: Seq<EntryView>, k: Seq<char>) -> Option<ParamView>
    decreases s.len(),
{
    if s.len() == 0 {
        None
    } else if s[0].0 == k {
        Some(s[0].1)
    } else {
        lookup(s.drop_first(), k)
    }
}

/// `s` with `k` mapped to `v`: the value is replaced if `k` is present,
/// otherwise the entry is placed before the first greater key.
pub open spec fn sorted_insert(s: Seq<EntryView>, k: Seq<char>, v: ParamView) -> Seq<EntryView>
    decreases s.len(),
{
    if s.len() == 0 {
        seq![(k, v)]
    } else if s[0].0 == k {
        seq![(k, v)] + s.drop_first()
    } else if seq_lt(k, s[0].0) {
        seq![(k, v)] + s
    } else {
        seq![s[0]] + sorted_insert(s.drop_first(), k, v)
    }
}

/// `s` without the entries whose key is `k`.
pub open spec fn remove_key(s: Seq<EntryView>, k: Seq<char>) -> Seq<EntryView>
    decreases s.len(),
{
    if s.len() == 0 {
        s
    } else if s[0].0 == k {
        remove_key(s.drop_first(), k)
    } else {
        seq![s[0]] + remove_key(s.drop_first(), k)
    }
}

/// Inserts every entry of `entries`, in order, into `s`.
pub open spec fn insert_all(s: Seq<EntryView>, entries: Seq<EntryView>) -> Seq<EntryView>
    decreases entries.len(),
{
    if entries.len() == 0 {
        s
    } else {
        insert_all(sorted_insert(s, entries[0].0, entries[0].1), entries.drop_first())
    }
}

/// The keys of a list of entries.
pub open spec fn keys_of(s: Seq<EntryView>) -> Seq<Seq<char>> {
    s.map_values(|e: EntryView| e.0)
}

proof fn lemma_sorted_tail(s: Seq<EntryView>)
    requires
        sorted_keys(s),
        s.len() > 0,
    ensures
        sorted_keys(s.drop_first()),
{
    assert forall|i: int, j: int| 0 <= i < j < s.drop_first().len() implies seq_lt(
        #[trigger] s.drop_first()[i].0,
        #[trigger] s.drop_first()[j].0,
    ) by {
        assert(s.drop_first()[i] == s[i + 1]);
        assert(s.drop_first()[j] == s[j + 1]);
    }
}

/// Every key of `sorted_insert(s, k, v)` is `k` or a key of `s`.
proof fn lemma_insert_keys(s: Seq<EntryView>, k: Seq<char>, v: ParamView)
    ensures
        forall|i: int|
            0 <= i < sorted_insert(s, k, v).len() ==> (#[trigger] sorted_insert(s, k, v)[i]).0 == k
                || exists|j: int| 0 <= j < s.len() && s[j].0 == sorted_insert(s, k, v)[i].0,
    decreases s.len(),
{
    let r = sorted_insert(s, k, v);
    if s.len() == 0 {
    } else if s[0].0 == k {
        assert forall|i: int| 0 <= i < r.len() implies (#[trigger] r[i]).0 == k || exists|j: int|
            0 <= j < s.len() && s[j].0 == r[i].0 by {
            if i > 0 {
                assert(s[i].0 == r[i].0);
            }
        }
    } else if seq_lt(k, s[0].0) {
        assert forall|i: int| 0 <= i < r.len() implies (#[trigger] r[i]).0 == k || exists|j: int|
            0 <= j < s.len() && s[j].0 == r[i].0 by {
            if i > 0 {
                assert(s[i - 1].0 == r[i].0);
            }
        }
    } else {
        let t = s.drop_first();
        lemma_insert_keys(t, k, v);
        assert forall|i: int| 0 <= i < r.len() implies (#[trigger] r[i]).0 == k || exists|j: int|
            0 <= j < s.len() && s[j].0 == r[i].0 by {
            if i == 0 {
                assert(s[0].0 == r[0].0);
            } else {
                assert(r[i] == sorted_insert(t, k, v)[i - 1]);
                if sorted_insert(t, k, v)[i - 1].0 != k {
                    let j = choose|j: int| 0 <= j < t.len() && t[j].0 == sorted_insert(t, k, v)[i - 1].0;
                    assert(s[j + 1].0 == r[i].0);
                }
            }
        }
    }
}

/// Inserting keeps the keys ascending.
pub proof fn lemma_sorted_insert_sorted(s: Seq<EntryView>, k: Seq<char>, v: ParamView)
    requires
        sorted_keys(s),
    ensures
        sorted_keys(sorted_insert(s, k, v)),
    decreases s.len(),
{
    let r = sorted_insert(s, k, v);
    if s.len() == 0 {
    } else if s[0].0 == k {
        assert forall|i: int, j: int| 0 <= i < j < r.len() implies seq_lt(
            #[trigger] r[i].0,
            #[trigger] r[j].0,
        ) by {
            assert(r[j] == s[j]);
            if i > 0 {
                assert(r[i] == s[i]);
            }
        }
    } else if seq_lt(k, s[0].0) {
        assert forall|i: int, j: int| 0 <= i < j < r.len() implies seq_lt(
            #[trigger] r[i].0,
            #[trigger] r[j].0,
        ) by {
            assert(r[j] == s[j - 1]);
            if i > 0 {
                assert(r[i] == s[i - 1]);
            } else if j > 1 {
                lemma_seq_lt_transitive(k, s[0].0, s[j - 1].0);
            }
        }
    } else {
        let t = s.drop_first();
        lemma_sorted_tail(s);
        lemma_sorted_insert_sorted(t, k, v);
        lemma_insert_keys(t, k, v);
        lemma_seq_lt_total(s[0].0, k);
        let rt = sorted_insert(t, k, v);
        assert forall|i: int, j: int| 0 <= i < j < r.len() implies seq_lt(
            #[trigger] r[i].0,
            #[trigger] r[j].0,
        ) by {
            assert(r[j] == rt[j - 1]);
            if i > 0 {
                assert(r[i] == rt[i - 1]);
            } else {
                if rt[j - 1].0 != k {
                    let m = choose|m: int| 0 <= m < t.len() && t[m].0 == rt[j - 1].0;
                    assert(s[m + 1] == t[m]);
                }
            }
        }
    }
}

/// Reading back a key just written gives the value written; other keys are unchanged.
pub proof fn lemma_lookup_insert(s: Seq<EntryView>, k: Seq<char>, v: ParamView, k2: Seq<char>)
    ensures
        lookup(sorted_insert(s, k, v), k2) == if k2 == k {
            Some(v)
        } else {
            lookup(s, k2)
        },
    decreases s.len(),
{
    if s.len() == 0 {
        let r = sorted_insert(s, k, v);
        assert(r.drop_first().len() == 0);
    } else if s[0].0 == k {
        let r = sorted_insert(s, k, v);
        assert(r.drop_first() =~= s.drop_first());
    } else if seq_lt(k, s[0].0) {
        let r = sorted_insert(s, k, v);
        assert(r.drop_first() =~= s);
    } else {
        let r = sorted_insert(s, k, v);
        assert(r.drop_first() =~= sorted_insert(s.drop_first(), k, v));
        lemma_lookup_insert(s.drop_first(), k, v, k2);
    }
}

/// After removal the key is absent; other keys are unchanged.
pub proof fn lemma_lookup_remove(s: Seq<EntryView>, k: Seq<char>, k2: Seq<char>)
    ensures
        lookup(remove_key(s, k), k2) == if k2 == k {
            None
        } else {
            lookup(s, k2)
        },
    decreases s.len(),
{
    if s.len() == 0 {
    } else if s[0].0 == k {
        lemma_lookup_remove(s.drop_first(), k, k2);
    } else {
        let r = remove_key(s, k);
        assert(r.drop_first() =~= remove_key(s.drop_first(), k));
        lemma_lookup_remove(s.drop_first(), k, k2);
    }
}

/// Inserting entries with distinct keys: each key inserted reads back as
/// inserted; any other key reads back as before.
pub proof fn lemma_lookup_insert_all(s: Seq<EntryView>, entries: Seq<EntryView>, k: Seq<char>)
    requires
        sorted_keys(entries),
    ensures
        lookup(insert_all(s, entries), k) == match lookup(entries, k) {
            Some(v) => Some(v),
            None => lookup(s, k),
        },
    decreases entries.len(),
{
    if entries.len() > 0 {
        let e = entries[0];
        let rest = entries.drop_first();
        assert(sorted_keys(rest)) by {
            assert forall|i: int, j: int| 0 <= i < j < rest.len() implies seq_lt(
                #[trigger] rest[i].0,
                #[trigger] rest[j].0,
            ) by {
                assert(rest[i] == entries[i + 1]);
                assert(rest[j] == entries[j + 1]);
            }
        }
        lemma_lookup_insert_all(sorted_insert(s, e.0, e.1), rest, k);
        lemma_lookup_insert(s, e.0, e.1, k);
        if e.0 == k {
            assert forall|i: int| 0 <= i < rest.len() implies rest[i].0 != k by {
                assert(rest[i] == entries[i + 1]);
                assert(seq_lt(entries[0].0, entries[i + 1].0));
                lemma_seq_lt_irreflexive(k);
            }
            lemma_absent_lookup(rest, k);
        }
    }
}

/// The value `k` has after the entries are written in order over a map in
/// which it had `d`: that of the last entry with key `k`, or `d` if none.
pub open spec fn lookup_after(entries: Seq<EntryView>, k: Seq<char>, d: Option<ParamView>) -> Option<ParamView>
    decreases entries.len(),
{
    if entries.len() == 0 {
        d
    } else {
        lookup_after(entries.drop_first(), k, if entries[0].0 == k { Some(entries[0].1) } else { d })
    }
}

/// Writing entries in order: a key reads back the value of the last entry
/// written under it, or what it had before where no entry has it.
pub proof fn lemma_lookup_insert_all_in_order(s: Seq<EntryView>, entries: Seq<EntryView>, k: Seq<char>)
    ensures
        lookup(insert_all(s, entries), k) == lookup_after(entries, k, lookup(s, k)),
    decreases entries.len(),
{
    if entries.len() > 0 {
        let e = entries[0];
        lemma_lookup_insert(s, e.0, e.1, k);
        lemma_lookup_insert_all_in_order(sorted_insert(s, e.0, e.1), entries.drop_first(), k);
    }
}

/// Entries written in two runs: the second run starts from what the first
/// left.
pub proof fn lemma_lookup_after_concat(a: Seq<EntryView>, b: Seq<EntryView>, k: Seq<char>, d: Option<ParamView>)
    ensures
        lookup_after(a + b, k, d) == lookup_after(b, k, lookup_after(a, k, d)),
    decreases a.len(),
{
    if a.len() > 0 {
        assert((a + b).drop_first() =~= a.drop_first() + b);
        assert((a + b)[0] == a[0]);
        lemma_lookup_after_concat(
            a.drop_first(),
            b,
            k,
            if a[0].0 == k { Some(a[0].1) } else { d },
        );
    } else {
        assert(a + b =~= b);
    }
}

/// A single entry sets its own key only.
pub proof fn lemma_lookup_after_one(e: EntryView, k: Seq<char>, d: Option<ParamView>)
    ensures
        lookup_after(seq![e], k, d) == if e.0 == k { Some(e.1) } else { d },
{
    let v = if e.0 == k { Some(e.1) } else { d };
    assert(seq![e].drop_first() =~= Seq::<EntryView>::empty());
    assert(lookup_after(Seq::<EntryView>::empty(), k, v) == v);
}

/// Removal keeps only entries of `s`, in their order.
proof fn lemma_remove_subset(s: Seq<EntryView>, k: Seq<char>)
    ensures
        forall|i: int|
            0 <= i < remove_key(s, k).len() ==> exists|j: int|
                0 <= j < s.len() && s[j] == #[trigger] remove_key(s, k)[i],
    decreases s.len(),
{
    if s.len() > 0 {
        let t = s.drop_first();
        lemma_remove_subset(t, k);
        let r = remove_key(s, k);
        assert forall|i: int| 0 <= i < r.len() implies exists|j: int| 0 <= j < s.len() && s[j] == #[trigger] r[i] by {
            if s[0].0 == k {
                let j = choose|j: int| 0 <= j < t.len() && t[j] == remove_key(t, k)[i];
                assert(s[j + 1] == r[i]);
            } else if i == 0 {
                assert(s[0] == r[0]);
            } else {
                assert(r[i] == remove_key(t, k)[i - 1]);
                let j = choose|j: int| 0 <= j < t.len() && t[j] == remove_key(t, k)[i - 1];
                assert(s[j + 1] == r[i]);
            }
        }
    }
}

/// Removing keeps the keys ascending.
pub proof fn lemma_remove_sorted(s: Seq<EntryView>, k: Seq<char>)
    requires
        sorted_keys(s),
    ensures
        sorted_keys(remove_key(s, k)),
    decreases s.len(),
{
    if s.len() > 0 {
        let t = s.drop_first();
        lemma_sorted_tail(s);
        lemma_remove_sorted(t, k);
        lemma_remove_subset(t, k);
        let r = remove_key(s, k);
        if s[0].0 != k {
            assert forall|i: int, j: int| 0 <= i < j < r.len() implies seq_lt(
                #[trigger] r[i].0,
                #[trigger] r[j].0,
            ) by {
                let rt = remove_key(t, k);
                assert(r[j] == rt[j - 1]);
                if i > 0 {
                    assert(r[i] == rt[i - 1]);
                } else {
                    let m = choose|m: int| 0 <= m < t.len() && t[m] == rt[j - 1];
                    assert(s[m + 1] == t[m]);
                }
            }
        }
    }
}

/// Inserting a list of entries keeps the keys ascending.
pub proof fn lemma_insert_all_sorted(s: Seq<EntryView>, entries: Seq<EntryView>)
    requires
        sorted_keys(s),
    ensures
        sorted_keys(insert_all(s, entries)),
    decreases entries.len(),
{
    if entries.len() > 0 {
        lemma_sorted_insert_sorted(s, entries[0].0, entries[0].1);
        lemma_insert_all_sorted(sorted_insert(s, entries[0].0, entries[0].1), entries.drop_first());
    }
}

/// Inserting `a` then `e` is inserting `a.push(e)`.
pub proof fn lemma_insert_all_push(s: Seq<EntryView>, a: Seq<EntryView>, e: EntryView)
    ensures
        insert_all(s, a.push(e)) == sorted_insert(insert_all(s, a), e.0, e.1),
    decreases a.len(),
{
    if a.len() == 0 {
        assert(a.push(e)[0] == e);
        assert(a.push(e).drop_first() =~= Seq::<EntryView>::empty());
        assert(insert_all(s, a) == s);
        assert(insert_all(sorted_insert(s, e.0, e.1), Seq::<EntryView>::empty()) == sorted_insert(s, e.0, e.1));
    } else {
        assert(a.push(e)[0] == a[0]);
        assert(a.push(e).drop_first() =~= a.drop_first().push(e));
        lemma_insert_all_push(sorted_insert(s, a[0].0, a[0].1), a.drop_first(), e);
    }
}

/// Inserting `a + b` is inserting `a`, then `b`.
pub proof fn lemma_insert_all_concat(s: Seq<EntryView>, a: Seq<EntryView>, b: Seq<EntryView>)
    ensures
        insert_all(s, a + b) == insert_all(insert_all(s, a), b),
    decreases a.len(),
{
    if a.len() == 0 {
        assert(a + b =~= b);
    } else {
        assert((a + b)[0] == a[0]);
        assert((a + b).drop_first() =~= a.drop_first() + b);
        lemma_insert_all_concat(sorted_insert(s, a[0].0, a[0].1), a.drop_first(), b);
    }
}

/// Inserts `(k, v)` into `m`, extending the record `done` of what was inserted since `base`.
pub(crate) fn put(
    m: &mut ParamMap,
    k: String,
    v: ParamValue,
    Ghost(base): Ghost<Seq<EntryView>>,
    Ghost(done): Ghost<Seq<EntryView>>,
)
    requires
        old(m)@ == insert_all(base, done),
    ensures
        final(m)@ == insert_all(base, done.push((k@, v@))),
{
    let ghost kv = (k@, v@);
    m.insert(k, v);
    proof {
        lemma_insert_all_push(base, done, kv);
    }
}

/// The search that ended at `i` locates where `k` belongs.
proof fn lemma_insert_at(s: Seq<EntryView>, k: Seq<char>, v: ParamView, i: int)
    requires
        sorted_keys(s),
        0 <= i <= s.len(),
        forall|j: int| 0 <= j < i ==> seq_lt(#[trigger] s[j].0, k),
        i == s.len() || !seq_lt(s[i].0, k),
    ensures
        i < s.len() && s[i].0 == k ==> sorted_insert(s, k, v) == s.update(i, (k, v)),
        !(i < s.len() && s[i].0 == k) ==> sorted_insert(s, k, v) == s.insert(i, (k, v)),
    decreases i,
{
    if i == 0 {
        if s.len() == 0 {
            assert(sorted_insert(s, k, v) =~= s.insert(i, (k, v)));
        } else if s[0].0 == k {
            assert(sorted_insert(s, k, v) =~= s.update(i, (k, v)));
        } else {
            lemma_seq_lt_total(s[0].0, k);
            assert(sorted_insert(s, k, v) =~= s.insert(i, (k, v)));
        }
    } else {
        let t = s.drop_first();
        assert(seq_lt(s[0].0, k));
        lemma_seq_lt_irreflexive(k);
        lemma_seq_lt_asymmetric(s[0].0, k);
        lemma_sorted_tail(s);
        assert forall|j: int| 0 <= j < i - 1 implies seq_lt(#[trigger] t[j].0, k) by {
            assert(t[j] == s[j + 1]);
        }
        lemma_insert_at(t, k, v, i - 1);
        if i < s.len() && s[i].0 == k {
            assert(sorted_insert(s, k, v) =~= s.update(i, (k, v)));
        } else {
            assert(sorted_insert(s, k, v) =~= s.insert(i, (k, v)));
        }
    }
}

/// In ascending keys, the entry at `i` is the only one with its key.
proof fn lemma_remove_at(s: Seq<EntryView>, k: Seq<char>, i: int)
    requires
        sorted_keys(s),
        0 <= i < s.len(),
        s[i].0 == k,
    ensures
        remove_key(s, k) == s.remove(i),
    decreases i,
{
    lemma_seq_lt_irreflexive(k);
    if i == 0 {
        lemma_sorted_tail(s);
        lemma_absent_remove(s.drop_first(), k);
        assert(remove_key(s, k) =~= s.remove(i));
    } else {
        let t = s.drop_first();
        lemma_sorted_tail(s);
        assert(s[0].0 != k);
        lemma_remove_at(t, k, i - 1);
        assert(remove_key(s, k) =~= s.remove(i));
    }
}

/// Removing an absent key changes nothing.
proof fn lemma_absent_remove(s: Seq<EntryView>, k: Seq<char>)
    requires
        sorted_keys(s),
        s.len() > 0 ==> seq_lt(k, s[0].0),
    ensures
        remove_key(s, k) == s,
    decreases s.len(),
{
    if s.len() > 0 {
        lemma_seq_lt_irreflexive(k);
        lemma_sorted_tail(s);
        if s.len() > 1 {
            lemma_seq_lt_transitive(k, s[0].0, s[1].0);
        }
        lemma_absent_remove(s.drop_first(), k);
        assert(remove_key(s, k) =~= s);
    }
}

proof fn lemma_not_found_remove(s: Seq<EntryView>, k: Seq<char>, i: int)
    requires
        sorted_keys(s),
        0 <= i <= s.len(),
        forall|j: int| 0 <= j < i ==> seq_lt(#[trigger] s[j].0, k),
        i == s.len() || (!seq_lt(s[i].0, k) && s[i].0 != k),
    ensures
        remove_key(s, k) == s,
        lookup(s, k) is None,
    decreases i,
{
    lemma_seq_lt_irreflexive(k);
    if i == 0 {
        if s.len() > 0 {
            lemma_seq_lt_total(s[0].0, k);
        }
        lemma_absent_remove(s, k);
        lemma_absent_lookup(s, k);
    } else {
        let t = s.drop_first();
        lemma_sorted_tail(s);
        assert forall|j: int| 0 <= j < i - 1 implies seq_lt(#[trigger] t[j].0, k) by {
            assert(t[j] == s[j + 1]);
        }
        lemma_not_found_remove(t, k, i - 1);
        assert(remove_key(s, k) =~= s);
    }
}

proof fn lemma_absent_lookup(s: Seq<EntryView>, k: Seq<char>)
    requires
        sorted_keys(s),
        s.len() > 0 ==> seq_lt(k, s[0].0),
    ensures
        lookup(s, k) is None,
    decreases s.len(),
{
    if s.len() > 0 {
        lemma_seq_lt_irreflexive(k);
        lemma_sorted_tail(s);
        if s.len() > 1 {
            lemma_seq_lt_transitive(k, s[0].0, s[1].0);
        }
        lemma_absent_lookup(s.drop_first(), k);
    }
}

proof fn lemma_lookup_at(s: Seq<EntryView>, k: Seq<char>, i: int)
    requires
        sorted_keys(s),
        0 <= i < s.len(),
        s[i].0 == k,
    ensures
        lookup(s, k) == Some(s[i].1),
    decreases i,
{
    if i > 0 {
        lemma_seq_lt_irreflexive(k);
        lemma_sorted_tail(s);
        assert(s.drop_first()[i - 1] == s[i]);
        lemma_lookup_at(s.drop_first(), k, i - 1);
    }
}

/// An ordered map from parameter names to values.
#[derive(Debug)]
pub struct ParamMap {
    entries: Vec<(String, ParamValue)>,
}

/// The mathematical entry of an executable entry.
pub open spec fn entry_view(e: (String, ParamValue)) -> EntryView {
    (e.0@, e.1@)
}

impl View for ParamMap {
    type V = Seq<EntryView>;

    closed spec fn view(&self) -> Seq<EntryView> {
        self.entries@.map_values(|e: (String, ParamValue)| entry_view(e))
    }
}

impl ParamMap {
    #[verifier::type_invariant]
    closed spec fn keys_ascending(self) -> bool {
        sorted_keys(self.entries@.map_values(|e: (String, ParamValue)| entry_view(e)))
    }

    /// An empty map.
    pub fn new() -> (m: ParamMap)
        ensures
            m@ == Seq::<EntryView>::empty(),
    {
        let m = ParamMap { entries: Vec::new() };
        assert(m@ =~= Seq::<EntryView>::empty());
        m
    }

    /// Number of entries.
    pub fn len(&self) -> (n: usize)
        ensures
            n == self@.len(),
    {
        self.entries.len()
    }

    /// The entry at position `i` in ascending key order.
    pub fn entry(&self, i: usize) -> (r: (&String, &ParamValue))
        requires
            i < self@.len(),
        ensures
            r.0@ == self@[i as int].0,
            r.1@ == self@[i as int].1,
    {
        let e = &self.entries[i];
        (&e.0, &e.1)
    }

    /// Position where `key` is or belongs.
    fn search(&self, key: &str) -> (i: usize)
        ensures
            i <= self@.len(),
            forall|j: int| 0 <= j < i ==> seq_lt(#[trigger] self@[j].0, key@),
            i == self@.len() || !seq_lt(self@[i as int].0, key@),
    {
        let mut i: usize = 0;
        while i < self.entries.len() && str_lt(self.entries[i].0.as_str(), key)
            invariant
                0 <= i <= self@.len(),
                self@.len() == self.entries@.len(),
                forall|j: int| 0 <= j < i ==> seq_lt(#[trigger] self@[j].0, key@),
            decreases self.entries.len() - i,
        {
            assert(self@[i as int] == entry_view(self.entries@[i as int]));
            i = i + 1;
        }
        proof {
            if i < self@.len() {
                assert(self@[i as int] == entry_view(self.entries@[i as int]));
            }
        }
        i
    }

    /// The value stored under `key`.
    pub fn get(&self, key: &str) -> (r: Option<&ParamValue>)
        ensures
            r matches Some(v) ==> lookup(self@, key@) == Some(v@),
            r is None ==> lookup(self@, key@) is None,
    {
        proof {
            use_type_invariant(self);
        }
        let i = self.search(key);
        if i < self.entries.len() && str_eq(self.entries[i].0.as_str(), key) {
            proof {
                assert(self@[i as int] == entry_view(self.entries@[i as int]));
                lemma_lookup_at(self@, key@, i as int);
            }
            Some(&self.entries[i].1)
        } else {
            proof {
                if i < self@.len() {
                    assert(self@[i as int] == entry_view(self.entries@[i as int]));
                }
                lemma_not_found_remove(self@, key@, i as int);
            }
            None
        }
    }

    /// Whether `key` is present.
    pub fn contains_key(&self, key: &str) -> (r: bool)
        ensures
            r == (lookup(self@, key@) is Some),
    {
        self.get(key).is_some()
    }

    /// Maps `key` to `value`, returning the value it replaced.
    pub fn insert(&mut self, key: String, value: ParamValue) -> (prev: Option<ParamValue>)
        ensures
            final(self)@ == sorted_insert(old(self)@, key@, value@),
            prev matches Some(v) ==> lookup(old(self)@, key@) == Some(v@),
            prev is None ==> lookup(old(self)@, key@) is None,
    {
        proof {
            use_type_invariant(&*self);
        }
        let i = self.search(key.as_str());
        let ghost s = self@;
        let mut entries: Vec<(String, ParamValue)> = Vec::new();
        std::mem::swap(&mut entries, &mut self.entries);
        assert(entries@.map_values(|e: (String, ParamValue)| entry_view(e)) == s);
        proof {
            lemma_insert_at(s, key@, value@, i as int);
            lemma_sorted_insert_sorted(s, key@, value@);
        }
        if i < entries.len() && str_eq(entries[i].0.as_str(), key.as_str()) {
            proof {
                assert(s[i as int] == entry_view(entries@[i as int]));
                lemma_lookup_at(s, key@, i as int);
            }
            let (_, old_value) = entries.remove(i);
            entries.insert(i, (key, value));
            assert(entries@.map_values(|e: (String, ParamValue)| entry_view(e)) =~= s.update(
                i as int,
                (key@, value@),
            ));
            self.entries = entries;
            Some(old_value)
        } else {
            proof {
                if i < s.len() {
                    assert(s[i as int] == entry_view(entries@[i as int]));
                }
                lemma_not_found_remove(s, key@, i as int);
            }
            let ghost kv = key@;
            let ghost vv = value@;
            entries.insert(i, (key, value));
            assert(entries@.map_values(|e: (String, ParamValue)| entry_view(e)) =~= s.insert(
                i as int,
                (kv, vv),
            ));
            self.entries = entries;
            None
        }
    }

    /// Removes `key`, returning its value.
    pub fn remove(&mut self, key: &str) -> (prev: Option<ParamValue>)
        ensures
            final(self)@ == remove_key(old(self)@, key@),
            prev matches Some(v) ==> lookup(old(self)@, key@) == Some(v@),
            prev is None ==> lookup(old(self)@, key@) is None,
    {
        proof {
            use_type_invariant(&*self);
        }
        let i = self.search(key);
        let ghost s = self@;
        if i < self.entries.len() && str_eq(self.entries[i].0.as_str(), key) {
            let mut entries: Vec<(String, ParamValue)> = Vec::new();
            std::mem::swap(&mut entries, &mut self.entries);
            assert(entries@.map_values(|e: (String, ParamValue)| entry_view(e)) == s);
            proof {
                assert(s[i as int] == entry_view(entries@[i as int]));
                lemma_lookup_at(s, key@, i as int);
                lemma_remove_at(s, key@, i as int);
                lemma_remove_sorted(s, key@);
            }
            let (_, old_value) = entries.remove(i);
            assert(entries@.map_values(|e: (String, ParamValue)| entry_view(e)) =~= s.remove(
                i as int,
            ));
            self.entries = entries;
            Some(old_value)
        } else {
            proof {
                if i < s.len() {
                    assert(s[i as int] == entry_view(self.entries@[i as int]));
                }
                lemma_not_found_remove(s, key@, i as int);
            }
            None
        }
    }

    /// Inserts every entry of `other`, in its order.
    pub fn extend(&mut self, other: ParamMap)
        ensures
            final(self)@ == insert_all(old(self)@, other@),
    {
        let ghost o = other@;
        let mut rest = other.entries;
        assert(rest@.map_values(|e: (String, ParamValue)| entry_view(e)) == o);
        let mut done: usize = 0;
        let n = rest.len();
        let mut items: Vec<(String, ParamValue)> = Vec::new();
        // reverse `rest` into `items` so entries can be popped in their original order
        while rest.len() > 0
            invariant
                n == o.len(),
                rest@.len() + items@.len() == n,
                forall|j: int| 0 <= j < rest@.len() ==> entry_view(#[trigger] rest@[j]) == o[j],
                forall|j: int|
                    0 <= j < items@.len() ==> entry_view(#[trigger] items@[j]) == o[n - 1 - j],
            decreases rest.len(),
        {
            let e = rest.pop().unwrap();
            items.push(e);
        }
        let ghost start = self@;
        assert(o.skip(0) =~= o);
        while items.len() > 0
            invariant
                n == o.len(),
                items@.len() + done == n,
                forall|j: int|
                    0 <= j < items@.len() ==> entry_view(#[trigger] items@[j]) == o[n - 1 - j],
                insert_all(start, o) == insert_all(self@, o.skip(done as int)),
            decreases items.len(),
        {
            let (k, v) = items.pop().unwrap();
            proof {
                assert(o.skip(done as int)[0] == o[done as int]);
                assert(o.skip(done as int).drop_first() =~= o.skip(done + 1));
            }
            self.insert(k, v);
            done = done + 1;
        }
        assert(o.skip(n as int) =~= Seq::<EntryView>::empty());
    }
}

} // verus!
