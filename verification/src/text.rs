//! Character-level string utilities with specifications over `Seq<char>`.
use vstd::prelude::*;
use vstd::string::*;

verus! {

/// Appends one character to a string.
///
/// Trusted: `String::push` appends `c` at the end of `s` and changes nothing else.
#[verifier::external_body]
pub(crate) fn push_char(s: &mut String, c: char)
    ensures
        final(s)@ == old(s)@.push(c),
{
    s.push(c);
}

/// Copies a string slice into an owned string.
pub fn owned(s: &str) -> (r: String)
    ensures
        r@ == s@,
{
    String::from_str(s)
}

// ---------------------------------------------------------------------------
// decimal rendering
// ---------------------------------------------------------------------------

/// The character for a decimal digit.
pub open spec fn digit_char(d: nat) -> char {
    if d == 0 {
        '0'
    } else if d == 1 {
        '1'
    } else if d == 2 {
        '2'
    } else if d == 3 {
        '3'
    } else if d == 4 {
        '4'
    } else if d == 5 {
        '5'
    } else if d == 6 {
        '6'
    } else if d == 7 {
        '7'
    } else if d == 8 {
        '8'
    } else {
        '9'
    }
}

/// The decimal representation of a natural number, without leading zeros.
pub open spec fn decimal(n: nat) -> Seq<char>
    decreases n,
{
    if n < 10 {
        seq![digit_char(n)]
    } else {
        decimal(n / 10).push(digit_char(n % 10))
    }
}

/// The decimal representation of an integer, with a leading `-` when negative.
pub open spec fn signed_decimal(n: int) -> Seq<char> {
    if n < 0 {
        seq!['-'] + decimal((-n) as nat)
    } else {
        decimal(n as nat)
    }
}

fn digit(d: u64) -> (c: char)
    requires
        d < 10,
    ensures
        c == digit_char(d as nat),
{
    if d == 0 {
        '0'
    } else if d == 1 {
        '1'
    } else if d == 2 {
        '2'
    } else if d == 3 {
        '3'
    } else if d == 4 {
        '4'
    } else if d == 5 {
        '5'
    } else if d == 6 {
        '6'
    } else if d == 7 {
        '7'
    } else if d == 8 {
        '8'
    } else {
        '9'
    }
}

/// Appends the decimal representation of `n` to `s`.
pub fn push_decimal(s: &mut String, n: u64)
    ensures
        final(s)@ == old(s)@ + decimal(n as nat),
    decreases n,
{
    if n >= 10 {
        push_decimal(s, n / 10);
    }
    push_char(s, digit(n % 10));
    assert(s@ =~= old(s)@ + decimal(n as nat));
}

/// The decimal representation of `n` (what `n.to_string()` gives).
pub fn decimal_string(n: u64) -> (s: String)
    ensures
        s@ == decimal(n as nat),
{
    let mut s = String::new();
    push_decimal(&mut s, n);
    assert(s@ =~= decimal(n as nat));
    s
}

/// The decimal representation of a signed integer (what `n.to_string()` gives).
pub fn signed_decimal_string(n: i64) -> (s: String)
    ensures
        s@ == signed_decimal(n as int),
{
    let mut s = String::new();
    if n < 0 {
        push_char(&mut s, '-');
        let m: u64 = if n == i64::MIN {
            9223372036854775808u64
        } else {
            (-n) as u64
        };
        push_decimal(&mut s, m);
        assert(s@ =~= signed_decimal(n as int));
    } else {
        push_decimal(&mut s, n as u64);
        assert(s@ =~= signed_decimal(n as int));
    }
    s
}

// ---------------------------------------------------------------------------
// joining
// ---------------------------------------------------------------------------

/// Joins the items with `sep` between consecutive items (what `join` does).
pub open spec fn join_with(items: Seq<Seq<char>>, sep: char) -> Seq<char>
    decreases items.len(),
{
    if items.len() == 0 {
        Seq::<char>::empty()
    } else if items.len() == 1 {
        items[0]
    } else {
        join_with(items.drop_last(), sep).push(sep) + items.last()
    }
}

/// Joins the strings with `|`, the separator of multi-valued MediaWiki parameters.
pub fn join_pipe(items: &Vec<String>) -> (s: String)
    ensures
        s@ == join_with(items.deep_view(), '|'),
{
    let mut s = String::new();
    let ghost dv = items.deep_view();
    let mut i: usize = 0;
    while i < items.len()
        invariant
            0 <= i <= items.len(),
            dv == items.deep_view(),
            dv.len() == items.len(),
            s@ == join_with(dv.take(i as int), '|'),
        decreases items.len() - i,
    {
        assert(dv[i as int] == items[i as int]@);
        if i > 0 {
            push_char(&mut s, '|');
        }
        s.append(items[i].as_str());
        assert(dv.take(i + 1).drop_last() =~= dv.take(i as int));
        i = i + 1;
    }
    assert(dv.take(i as int) =~= dv);
    s
}

/// Each item followed by a newline, one after the other.
pub open spec fn join_lines(items: Seq<Seq<char>>) -> Seq<char>
    decreases items.len(),
{
    if items.len() == 0 {
        Seq::<char>::empty()
    } else {
        join_lines(items.drop_last()) + items.last().push('\n')
    }
}

/// `s` followed by spaces up to `w` characters (what `{:<w}` writes).
pub open spec fn pad_right(s: Seq<char>, w: nat) -> Seq<char> {
    if s.len() >= w {
        s
    } else {
        s + Seq::new((w - s.len()) as nat, |i: int| ' ')
    }
}

/// Appends `s` left-aligned in a field of `w` characters.
pub fn push_padded(out: &mut String, s: &str, w: usize)
    ensures
        final(out)@ == old(out)@ + pad_right(s@, w as nat),
{
    out.append(s);
    let n = s.unicode_len();
    let mut k: usize = n;
    while k < w
        invariant
            n == s@.len(),
            n <= k <= w || (k == n && n >= w),
            out@ == old(out)@ + s@ + Seq::new((k - n) as nat, |i: int| ' '),
        decreases w - k,
    {
        push_char(out, ' ');
        assert(Seq::new((k + 1 - n) as nat, |i: int| ' ') =~= Seq::new((k - n) as nat, |i: int| ' ').push(' '));
        k = k + 1;
    }
    assert(out@ =~= old(out)@ + pad_right(s@, w as nat));
}

// ---------------------------------------------------------------------------
// case mapping
// ---------------------------------------------------------------------------

/// What `str::to_lowercase` returns for a string: its lowercase mapping as
/// Unicode defines it, which depends on the string alone.
pub uninterp spec fn lowercase(s: Seq<char>) -> Seq<char>;

/// Every character of `s` is ASCII.
pub open spec fn ascii_only(s: Seq<char>) -> bool {
    forall|i: int| 0 <= i < s.len() ==> (#[trigger] s[i] as u32) < 128
}

/// The ASCII lower-case mapping of a character: `A`-`Z` become `a`-`z`,
/// every other character stays as it is.
pub open spec fn ascii_lower_char(c: char) -> char {
    if 'A' <= c && c <= 'Z' {
        ((c as u32) + 32) as char
    } else {
        c
    }
}

/// The ASCII lower-case mapping of a text, character by character.
pub open spec fn ascii_lowercase(s: Seq<char>) -> Seq<char> {
    s.map_values(|c: char| ascii_lower_char(c))
}

/// Lower-cases a string.
///
/// Trusted: `str::to_lowercase`. Its result is named `lowercase(s@)`. Its
/// documentation defines lower case by Unicode's `Lowercase` property, which
/// on ASCII text maps `A`-`Z` to `a`-`z` and leaves every other character
/// alone; that is claimed for ASCII text. For other text only the name is
/// given.
#[verifier::external_body]
pub(crate) fn to_lowercase(s: &str) -> (r: String)
    ensures
        r@ == lowercase(s@),
        ascii_only(s@) ==> r@ == ascii_lowercase(s@),
{
    s.to_lowercase()
}

// ---------------------------------------------------------------------------
// comparison, prefixes and suffixes
// ---------------------------------------------------------------------------

/// `p` is a prefix of `s`.
pub open spec fn has_prefix(s: Seq<char>, p: Seq<char>) -> bool {
    p.len() <= s.len() && s.subrange(0, p.len() as int) == p
}

/// `p` is a suffix of `s`.
pub open spec fn has_suffix(s: Seq<char>, p: Seq<char>) -> bool {
    p.len() <= s.len() && s.subrange(s.len() - p.len(), s.len() as int) == p
}

/// Equality of two string slices, character by character.
pub fn str_eq(a: &str, b: &str) -> (r: bool)
    ensures
        r == (a@ == b@),
{
    let n = a.unicode_len();
    if n != b.unicode_len() {
        return false;
    }
    let mut i: usize = 0;
    while i < n
        invariant
            n == a@.len(),
            n == b@.len(),
            0 <= i <= n,
            forall|j: int| 0 <= j < i ==> a@[j] == b@[j],
        decreases n - i,
    {
        if a.get_char(i) != b.get_char(i) {
            return false;
        }
        i = i + 1;
    }
    assert(a@ =~= b@);
    true
}

/// Whether `s` begins with `p`.
pub fn starts_with(s: &str, p: &str) -> (r: bool)
    ensures
        r == has_prefix(s@, p@),
{
    let n = s.unicode_len();
    let m = p.unicode_len();
    if m > n {
        return false;
    }
    let mut i: usize = 0;
    while i < m
        invariant
            n == s@.len(),
            m == p@.len(),
            m <= n,
            0 <= i <= m,
            forall|j: int| 0 <= j < i ==> s@[j] == p@[j],
        decreases m - i,
    {
        if s.get_char(i) != p.get_char(i) {
            assert(s@.subrange(0, m as int)[i as int] != p@[i as int]);
            return false;
        }
        i = i + 1;
    }
    assert(s@.subrange(0, m as int) =~= p@);
    true
}

/// Whether `s` ends with `p`.
pub fn ends_with(s: &str, p: &str) -> (r: bool)
    ensures
        r == has_suffix(s@, p@),
{
    let n = s.unicode_len();
    let m = p.unicode_len();
    if m > n {
        return false;
    }
    let off = n - m;
    let mut i: usize = 0;
    while i < m
        invariant
            n == s@.len(),
            m == p@.len(),
            m <= n,
            off == n - m,
            0 <= i <= m,
            forall|j: int| 0 <= j < i ==> s@[off + j] == p@[j],
        decreases m - i,
    {
        if s.get_char(off + i) != p.get_char(i) {
            assert(s@.subrange(off as int, n as int)[i as int] != p@[i as int]);
            return false;
        }
        i = i + 1;
    }
    assert(s@.subrange(off as int, n as int) =~= p@);
    true
}

/// `s` without the prefix `p`, when `s` begins with `p`.
pub open spec fn without_prefix(s: Seq<char>, p: Seq<char>) -> Option<Seq<char>> {
    if has_prefix(s, p) {
        Some(s.subrange(p.len() as int, s.len() as int))
    } else {
        None
    }
}

/// What `str::strip_prefix` gives, as an owned string.
pub fn strip_prefix(s: &str, p: &str) -> (r: Option<String>)
    ensures
        r matches Some(t) ==> without_prefix(s@, p@) == Some(t@),
        r is None <==> without_prefix(s@, p@) is None,
{
    if starts_with(s, p) {
        let n = s.unicode_len();
        let m = p.unicode_len();
        let rest = s.substring_char(m, n);
        Some(owned(rest))
    } else {
        None
    }
}

/// Characters that carry the Unicode `White_Space` property.
pub open spec fn is_white_space(c: char) -> bool {
    let u = c as u32;
    ||| 0x09 <= u <= 0x0D
    ||| u == 0x20
    ||| u == 0x85
    ||| u == 0xA0
    ||| u == 0x1680
    ||| 0x2000 <= u <= 0x200A
    ||| u == 0x2028
    ||| u == 0x2029
    ||| u == 0x202F
    ||| u == 0x205F
    ||| u == 0x3000
}

/// What `char::is_whitespace` computes.
pub fn white_space(c: char) -> (r: bool)
    ensures
        r == is_white_space(c),
{
    let u = c as u32;
    (0x09 <= u && u <= 0x0D) || u == 0x20 || u == 0x85 || u == 0xA0 || u == 0x1680 || (0x2000 <= u
        && u <= 0x200A) || u == 0x2028 || u == 0x2029 || u == 0x202F || u == 0x205F || u == 0x3000
}

/// Number of leading white-space characters.
pub open spec fn leading_ws(s: Seq<char>) -> nat
    decreases s.len(),
{
    if s.len() > 0 && is_white_space(s[0]) {
        1 + leading_ws(s.drop_first())
    } else {
        0
    }
}

/// Number of trailing white-space characters.
pub open spec fn trailing_ws(s: Seq<char>) -> nat
    decreases s.len(),
{
    if s.len() > 0 && is_white_space(s.last()) {
        1 + trailing_ws(s.drop_last())
    } else {
        0
    }
}

/// `s` without leading and trailing white space (what `str::trim` gives).
pub open spec fn trimmed(s: Seq<char>) -> Seq<char> {
    let a = leading_ws(s);
    if a == s.len() {
        Seq::<char>::empty()
    } else {
        s.subrange(a as int, s.len() - trailing_ws(s))
    }
}

proof fn lemma_leading_ws(s: Seq<char>, i: int)
    requires
        0 <= i <= s.len(),
        forall|j: int| 0 <= j < i ==> is_white_space(#[trigger] s[j]),
        i == s.len() || !is_white_space(s[i]),
    ensures
        leading_ws(s) == i,
    decreases i,
{
    if i > 0 {
        assert forall|j: int| 0 <= j < i - 1 implies is_white_space(#[trigger] s.drop_first()[j]) by {
            assert(s.drop_first()[j] == s[j + 1]);
        }
        lemma_leading_ws(s.drop_first(), i - 1);
    }
}

proof fn lemma_trailing_ws(s: Seq<char>, k: int)
    requires
        0 <= k <= s.len(),
        forall|j: int| s.len() - k <= j < s.len() ==> is_white_space(#[trigger] s[j]),
        k == s.len() || !is_white_space(s[s.len() - k - 1]),
    ensures
        trailing_ws(s) == k,
    decreases k,
{
    if k > 0 {
        assert forall|j: int| s.drop_last().len() - (k - 1) <= j < s.drop_last().len() implies is_white_space(
            #[trigger] s.drop_last()[j],
        ) by {
            assert(s.drop_last()[j] == s[j]);
        }
        lemma_trailing_ws(s.drop_last(), k - 1);
    }
}

/// `s` without leading and trailing white space.
pub fn trim(s: &str) -> (r: String)
    ensures
        r@ == trimmed(s@),
{
    let n = s.unicode_len();
    let mut a: usize = 0;
    while a < n && white_space(s.get_char(a))
        invariant
            n == s@.len(),
            0 <= a <= n,
            forall|j: int| 0 <= j < a ==> is_white_space(#[trigger] s@[j]),
        decreases n - a,
    {
        a = a + 1;
    }
    proof {
        lemma_leading_ws(s@, a as int);
    }
    if a == n {
        return String::new();
    }
    let mut b: usize = n;
    while b > a && white_space(s.get_char(b - 1))
        invariant
            n == s@.len(),
            a < n,
            !is_white_space(s@[a as int]),
            a <= b <= n,
            forall|j: int| b <= j < n ==> is_white_space(#[trigger] s@[j]),
        decreases b,
    {
        b = b - 1;
    }
    proof {
        if b == a {
            assert(is_white_space(s@[a as int]) == false);
        }
        lemma_trailing_ws(s@, n - b);
    }
    owned(s.substring_char(a, b))
}

/// `s` with every space replaced by an underscore.
pub open spec fn spaces_to_underscores(s: Seq<char>) -> Seq<char> {
    s.map_values(|c: char| if c == ' ' { '_' } else { c })
}

/// What `s.replace(" ", "_")` gives.
pub fn replace_spaces(s: &str) -> (r: String)
    ensures
        r@ == spaces_to_underscores(s@),
{
    let n = s.unicode_len();
    let mut r = String::new();
    let mut i: usize = 0;
    while i < n
        invariant
            n == s@.len(),
            0 <= i <= n,
            r@ == spaces_to_underscores(s@.take(i as int)),
        decreases n - i,
    {
        let c = s.get_char(i);
        if c == ' ' {
            push_char(&mut r, '_');
        } else {
            push_char(&mut r, c);
        }
        assert(spaces_to_underscores(s@.take(i + 1)) =~= spaces_to_underscores(s@.take(i as int)).push(
            if c == ' ' { '_' } else { c },
        ));
        i = i + 1;
    }
    assert(s@.take(n as int) =~= s@);
    r
}

/// Index of the first occurrence of `c` in `s`.
pub open spec fn first_index_of(s: Seq<char>, c: char) -> Option<nat> {
    if exists|i: int| 0 <= i < s.len() && s[i] == c {
        let i = choose|i: int| 0 <= i < s.len() && s[i] == c && forall|j: int| 0 <= j < i ==> s[j] != c;
        Some(i as nat)
    } else {
        None
    }
}

/// Index of the last occurrence of `c` in `s`.
pub open spec fn last_index_of(s: Seq<char>, c: char) -> Option<nat> {
    if exists|i: int| 0 <= i < s.len() && s[i] == c {
        let i = choose|i: int| 0 <= i < s.len() && s[i] == c && forall|j: int| i < j < s.len() ==> s[j] != c;
        Some(i as nat)
    } else {
        None
    }
}

/// Position of the first `c` in `s` (what `str::find` gives, counted in characters).
pub fn find_char(s: &str, c: char) -> (r: Option<usize>)
    ensures
        r matches Some(i) ==> i < s@.len() && s@[i as int] == c && forall|j: int| 0 <= j < i ==> s@[j] != c,
        r is None ==> forall|j: int| 0 <= j < s@.len() ==> s@[j] != c,
        r matches Some(i) ==> first_index_of(s@, c) == Some(i as nat),
        r is None ==> first_index_of(s@, c) is None,
{
    let n = s.unicode_len();
    let mut i: usize = 0;
    while i < n
        invariant
            n == s@.len(),
            0 <= i <= n,
            forall|j: int| 0 <= j < i ==> s@[j] != c,
        decreases n - i,
    {
        if s.get_char(i) == c {
            proof {
                let k = choose|k: int| 0 <= k < s@.len() && s@[k] == c && forall|j: int| 0 <= j < k ==> s@[j] != c;
                if k < i {
                } else if k > i {
                    assert(s@[i as int] == c);
                }
            }
            return Some(i);
        }
        i = i + 1;
    }
    None
}

/// Position of the last `c` in `s` (what `str::rfind` gives, counted in characters).
pub fn rfind_char(s: &str, c: char) -> (r: Option<usize>)
    ensures
        r matches Some(i) ==> i < s@.len() && s@[i as int] == c && forall|j: int| i < j < s@.len() ==> s@[j] != c,
        r is None ==> forall|j: int| 0 <= j < s@.len() ==> s@[j] != c,
        r matches Some(i) ==> last_index_of(s@, c) == Some(i as nat),
        r is None ==> last_index_of(s@, c) is None,
{
    let n = s.unicode_len();
    let mut i: usize = n;
    while i > 0
        invariant
            n == s@.len(),
            0 <= i <= n,
            forall|j: int| i <= j < n ==> s@[j] != c,
        decreases i,
    {
        if s.get_char(i - 1) == c {
            proof {
                let k = choose|k: int| 0 <= k < s@.len() && s@[k] == c && forall|j: int| k < j < s@.len() ==> s@[j] != c;
                if k > i - 1 {
                } else if k < i - 1 {
                    assert(s@[i - 1] == c);
                }
            }
            return Some(i - 1);
        }
        i = i - 1;
    }
    None
}

// ---------------------------------------------------------------------------
// lexicographic order
// ---------------------------------------------------------------------------

/// Lexicographic order of strings by code point (the order of `str` in std).
pub open spec fn seq_lt(a: Seq<char>, b: Seq<char>) -> bool
    decreases a.len(),
{
    if b.len() == 0 {
        false
    } else if a.len() == 0 {
        true
    } else if a[0] != b[0] {
        (a[0] as int) < (b[0] as int)
    } else {
        seq_lt(a.drop_first(), b.drop_first())
    }
}

/// The order is irreflexive.
pub proof fn lemma_seq_lt_irreflexive(a: Seq<char>)
    ensures
        !seq_lt(a, a),
    decreases a.len(),
{
    if a.len() > 0 {
        lemma_seq_lt_irreflexive(a.drop_first());
    }
}

/// The order is transitive.
pub proof fn lemma_seq_lt_transitive(a: Seq<char>, b: Seq<char>, c: Seq<char>)
    requires
        seq_lt(a, b),
        seq_lt(b, c),
    ensures
        seq_lt(a, c),
    decreases a.len(),
{
    if a.len() > 0 && b.len() > 0 && c.len() > 0 {
        if a[0] == b[0] && b[0] == c[0] {
            lemma_seq_lt_transitive(a.drop_first(), b.drop_first(), c.drop_first());
        }
    }
}

/// Any two distinct strings are ordered one way or the other.
pub proof fn lemma_seq_lt_total(a: Seq<char>, b: Seq<char>)
    requires
        a != b,
    ensures
        seq_lt(a, b) || seq_lt(b, a),
    decreases a.len(),
{
    if a.len() == 0 {
        if b.len() == 0 {
            assert(a =~= b);
        }
    } else if b.len() == 0 {
    } else if a[0] != b[0] {
    } else {
        if a.drop_first() == b.drop_first() {
            assert(a =~= seq![a[0]] + a.drop_first());
            assert(b =~= seq![b[0]] + b.drop_first());
        }
        lemma_seq_lt_total(a.drop_first(), b.drop_first());
    }
}

/// The order is asymmetric.
pub proof fn lemma_seq_lt_asymmetric(a: Seq<char>, b: Seq<char>)
    requires
        seq_lt(a, b),
    ensures
        !seq_lt(b, a),
{
    if seq_lt(b, a) {
        lemma_seq_lt_transitive(a, b, a);
        lemma_seq_lt_irreflexive(a);
    }
}

/// Whether `a` comes strictly before `b` in the order of `str`.
pub fn str_lt(a: &str, b: &str) -> (r: bool)
    ensures
        r == seq_lt(a@, b@),
{
    let n = a.unicode_len();
    let m = b.unicode_len();
    let mut i: usize = 0;
    assert(a@.skip(0) =~= a@);
    assert(b@.skip(0) =~= b@);
    while i < n && i < m
        invariant
            n == a@.len(),
            m == b@.len(),
            0 <= i <= n,
            i <= m,
            seq_lt(a@, b@) == seq_lt(a@.skip(i as int), b@.skip(i as int)),
        decreases n - i,
    {
        let x = a.get_char(i);
        let y = b.get_char(i);
        assert(a@.skip(i as int)[0] == x);
        assert(b@.skip(i as int)[0] == y);
        if x != y {
            return (x as u32) < (y as u32);
        }
        assert(a@.skip(i as int).drop_first() =~= a@.skip(i + 1));
        assert(b@.skip(i as int).drop_first() =~= b@.skip(i + 1));
        i = i + 1;
    }
    i < m
}

} // verus!
