//! Reading lists of titles and ids, one per line.
use crate::fetch::error::DestinyFetchError;
use crate::text::{owned, trim, trimmed};
use vstd::prelude::*;
use vstd::string::*;

verus! {

/// Titles listed one per line, each trimmed.
pub fn titles_from_lines(lines: &Vec<String>) -> (r: Vec<String>)
    ensures
        r@.len() == lines@.len(),
        forall|i: int| 0 <= i < lines@.len() ==> (#[trigger] r@[i])@ == trimmed(lines@[i]@),
{
    let mut r: Vec<String> = Vec::new();
    let mut i: usize = 0;
    while i < lines.len()
        invariant
            0 <= i <= lines@.len(),
            r@.len() == i,
            forall|j: int| 0 <= j < i ==> (#[trigger] r@[j])@ == trimmed(lines@[j]@),
        decreases lines@.len() - i,
    {
        r.push(trim(lines[i].as_str()));
        i = i + 1;
    }
    r
}

/// Every character of `s` is an ASCII decimal digit, and there is at least
/// one.
pub open spec fn all_digits(s: Seq<char>) -> bool {
    s.len() > 0 && forall|i: int| 0 <= i < s.len() ==> '0' <= #[trigger] s[i] && s[i] <= '9'
}

/// The number that a run of ASCII decimal digits writes.
pub open spec fn digits_value(s: Seq<char>) -> nat
    decreases s.len(),
{
    if s.len() == 0 {
        0
    } else {
        digits_value(s.drop_last()) * 10 + ((s.last() as int) - ('0' as int)) as nat
    }
}

/// `s` without its leading `+`, where it has one.
pub open spec fn without_plus(s: Seq<char>) -> Seq<char> {
    if s.len() > 0 && s[0] == '+' {
        s.drop_first()
    } else {
        s
    }
}

/// What `str::parse::<u16>` gives for a text: an optional `+` and then
/// decimal digits read as their value, where it fits; `None` for anything
/// else.
pub open spec fn u16_of_text(s: Seq<char>) -> Option<u16> {
    let d = without_plus(s);
    if all_digits(d) && digits_value(d) <= u16::MAX {
        Some(digits_value(d) as u16)
    } else {
        None
    }
}

/// What `str::parse::<i32>` gives for a text: an optional `+` or `-` and
/// then decimal digits read as their value, negated after a `-`, where it
/// fits; `None` for anything else.
pub open spec fn i32_of_text(s: Seq<char>) -> Option<i32> {
    if s.len() > 0 && s[0] == '-' {
        let d = s.drop_first();
        if all_digits(d) && digits_value(d) <= 0x8000_0000 {
            Some((0 - digits_value(d)) as i32)
        } else {
            None
        }
    } else {
        let d = without_plus(s);
        if all_digits(d) && digits_value(d) <= i32::MAX {
            Some(digits_value(d) as i32)
        } else {
            None
        }
    }
}

/// A run of digits extended by one more digit is worth ten times as much,
/// plus that digit.
proof fn lemma_digits_push(p: Seq<char>, c: char)
    ensures
        digits_value(p.push(c)) == digits_value(p) * 10 + ((c as int) - ('0' as int)) as nat,
{
    assert(p.push(c).drop_last() =~= p);
}

/// A run of digits is worth at least as much as any of its prefixes.
proof fn lemma_digits_prefix(d: Seq<char>, k: int)
    requires
        0 <= k <= d.len(),
        forall|i: int| 0 <= i < d.len() ==> '0' <= #[trigger] d[i] && d[i] <= '9',
    ensures
        digits_value(d.take(k)) <= digits_value(d),
    decreases d.len() - k,
{
    if k < d.len() {
        lemma_digits_prefix(d, k + 1);
        assert(d.take(k + 1) =~= d.take(k).push(d[k]));
        lemma_digits_push(d.take(k), d[k]);
    } else {
        assert(d.take(k) =~= d);
    }
}

/// The value of the digits of `s` from `start` on, where they are all
/// digits, there is one at least, and the value is at most `limit`;
/// `None` otherwise.
fn digits_at_most(s: &str, start: usize, limit: u64) -> (r: Option<u64>)
    requires
        start <= s@.len(),
        limit <= 0xFFFF_FFFF,
    ensures
        ({
            let d = s@.subrange(start as int, s@.len() as int);
            if all_digits(d) && digits_value(d) <= limit {
                r == Some(digits_value(d) as u64)
            } else {
                r is None
            }
        }),
{
    let n = s.unicode_len();
    let ghost d = s@.subrange(start as int, s@.len() as int);
    if start == n {
        return None;
    }
    let mut acc: u64 = 0;
    let mut i: usize = start;
    assert(d.take(0) =~= Seq::<char>::empty());
    while i < n
        invariant
            start <= i <= n,
            n == s@.len(),
            d == s@.subrange(start as int, s@.len() as int),
            limit <= 0xFFFF_FFFF,
            acc <= limit,
            acc == digits_value(d.take(i - start)),
            forall|j: int| 0 <= j < i - start ==> '0' <= #[trigger] d[j] && d[j] <= '9',
        decreases n - i,
    {
        let c = s.get_char(i);
        assert(c == d[i - start]);
        if c < '0' || c > '9' {
            assert(!all_digits(d));
            return None;
        }
        proof {
            assert(d.take(i - start + 1) =~= d.take(i - start).push(c));
            lemma_digits_push(d.take(i - start), c);
        }
        let v: u64 = acc * 10 + ((c as u32) - 48) as u64;
        if v > limit {
            proof {
                if all_digits(d) {
                    lemma_digits_prefix(d, i - start + 1);
                }
            }
            return None;
        }
        acc = v;
        i = i + 1;
    }
    assert(d.take(i - start) =~= d);
    Some(acc)
}

/// Reads a `u16` written in decimal, as `str::parse::<u16>` does: an
/// optional `+`, then digits only, with a value that fits.
fn parse_u16(s: &str) -> (r: Option<u16>)
    ensures
        r == u16_of_text(s@),
{
    let n = s.unicode_len();
    let start: usize = if n > 0 && s.get_char(0) == '+' { 1 } else { 0 };
    assert(without_plus(s@) =~= s@.subrange(start as int, s@.len() as int));
    match digits_at_most(s, start, 65535) {
        Some(v) => Some(v as u16),
        None => None,
    }
}

/// Reads an `i32` written in decimal, as `str::parse::<i32>` does: an
/// optional `+` or `-`, then digits only, with a value that fits.
fn parse_i32(s: &str) -> (r: Option<i32>)
    ensures
        r == i32_of_text(s@),
{
    let n = s.unicode_len();
    if n > 0 && s.get_char(0) == '-' {
        assert(s@.drop_first() =~= s@.subrange(1, s@.len() as int));
        match digits_at_most(s, 1, 0x8000_0000) {
            Some(v) => Some((0 - (v as i64)) as i32),
            None => None,
        }
    } else {
        let start: usize = if n > 0 && s.get_char(0) == '+' { 1 } else { 0 };
        assert(without_plus(s@) =~= s@.subrange(start as int, s@.len() as int));
        match digits_at_most(s, start, 0x7FFF_FFFF) {
            Some(v) => Some(v as i32),
            None => None,
        }
    }
}

/// Ids listed one per line, as read from a file given on the command line:
/// every line must be a `u16`, else the list fails with `NegativeArgErr`.
pub fn ids_from_lines(lines: &Vec<String>) -> (r: Result<Vec<u16>, DestinyFetchError>)
    ensures
        (forall|i: int| 0 <= i < lines@.len() ==> (#[trigger] u16_of_text(lines@[i]@)) is Some) ==> (r matches Ok(
            v,
        ) && v@.len() == lines@.len() && forall|i: int|
            0 <= i < lines@.len() ==> Some(#[trigger] v@[i]) == u16_of_text(lines@[i]@)),
        !(forall|i: int| 0 <= i < lines@.len() ==> (#[trigger] u16_of_text(lines@[i]@)) is Some) ==> r
            == Err::<Vec<u16>, DestinyFetchError>(DestinyFetchError::NegativeArgErr),
{
    let mut v: Vec<u16> = Vec::new();
    let mut i: usize = 0;
    while i < lines.len()
        invariant
            0 <= i <= lines@.len(),
            v@.len() == i,
            forall|j: int| 0 <= j < i ==> Some(#[trigger] v@[j]) == u16_of_text(lines@[j]@),
        decreases lines@.len() - i,
    {
        match parse_u16(lines[i].as_str()) {
            Some(n) => v.push(n),
            None => return Err(DestinyFetchError::NegativeArgErr),
        }
        i = i + 1;
    }
    assert forall|j: int| 0 <= j < lines@.len() implies (#[trigger] u16_of_text(lines@[j]@)) is Some by {
        assert(Some(v@[j]) == u16_of_text(lines@[j]@));
    }
    Ok(v)
}

/// The ids of a file, given how each of its lines reads: the first line
/// that is not an `i32` fails the list with `ParseIdErr` (that line, then
/// the path of the file).
pub fn collect_ids(lines: &Vec<String>, parsed: &Vec<Option<i32>>, path: &str) -> (r: Result<
    Vec<i32>,
    DestinyFetchError,
>)
    requires
        parsed@.len() == lines@.len(),
    ensures
        (forall|i: int| 0 <= i < parsed@.len() ==> (#[trigger] parsed@[i]) is Some) ==> (r matches Ok(v)
            && v@.len() == parsed@.len() && forall|i: int|
            0 <= i < parsed@.len() ==> Some(#[trigger] v@[i]) == parsed@[i]),
        forall|k: int|
            0 <= k < parsed@.len() && (#[trigger] parsed@[k]) is None && (forall|i: int|
                0 <= i < k ==> (#[trigger] parsed@[i]) is Some) ==> (r matches Err(
                DestinyFetchError::ParseIdErr(a, b),
            ) && a@ == lines@[k]@ && b@ == path@),
{
    let mut v: Vec<i32> = Vec::new();
    let mut i: usize = 0;
    while i < parsed.len()
        invariant
            0 <= i <= parsed@.len(),
            parsed@.len() == lines@.len(),
            v@.len() == i,
            forall|j: int| 0 <= j < i ==> (#[trigger] parsed@[j]) is Some,
            forall|j: int| 0 <= j < i ==> Some(#[trigger] v@[j]) == parsed@[j],
        decreases parsed@.len() - i,
    {
        match parsed[i] {
            Some(n) => v.push(n),
            None => {
                return Err(DestinyFetchError::ParseIdErr(owned(lines[i].as_str()), owned(path)));
            },
        }
        i = i + 1;
    }
    Ok(v)
}

/// The ids of a file read with `--ids-input`, one per line (see [`collect_ids`]).
pub fn parse_ids_lines(lines: &Vec<String>, path: &str) -> (r: Result<Vec<i32>, DestinyFetchError>)
    ensures
        (forall|i: int| 0 <= i < lines@.len() ==> (#[trigger] i32_of_text(lines@[i]@)) is Some) ==> (r matches Ok(
            v,
        ) && v@.len() == lines@.len() && forall|i: int|
            0 <= i < lines@.len() ==> Some(#[trigger] v@[i]) == i32_of_text(lines@[i]@)),
        forall|k: int|
            0 <= k < lines@.len() && (#[trigger] i32_of_text(lines@[k]@)) is None && (forall|i: int|
                0 <= i < k ==> (#[trigger] i32_of_text(lines@[i]@)) is Some) ==> (r matches Err(
                DestinyFetchError::ParseIdErr(a, b),
            ) && a@ == lines@[k]@ && b@ == path@),
{
    let mut parsed: Vec<Option<i32>> = Vec::new();
    let mut i: usize = 0;
    while i < lines.len()
        invariant
            0 <= i <= lines@.len(),
            parsed@.len() == i,
            forall|j: int| 0 <= j < i ==> #[trigger] parsed@[j] == i32_of_text(lines@[j]@),
        decreases lines@.len() - i,
    {
        parsed.push(parse_i32(lines[i].as_str()));
        i = i + 1;
    }
    let r = collect_ids(lines, &parsed, path);
    assert forall|k: int|
        0 <= k < lines@.len() && (#[trigger] i32_of_text(lines@[k]@)) is None && (forall|i: int|
            0 <= i < k ==> (#[trigger] i32_of_text(lines@[i]@)) is Some) implies (r matches Err(
        DestinyFetchError::ParseIdErr(a, b),
    ) && a@ == lines@[k]@ && b@ == path@) by {
        assert(parsed@[k] is None);
        assert forall|i: int| 0 <= i < k implies (#[trigger] parsed@[i]) is Some by {
            assert(i32_of_text(lines@[i]@) is Some);
        }
    }
    r
}

} // verus!
