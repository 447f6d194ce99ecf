//! The decisions of a download: what to validate, where to save, how to
//! split the work between workers and what to name each file.
use crate::fetch::cli::{DownloadArgs, FileInput, StdinInput};
use crate::fetch::error::DestinyFetchError;
use crate::fetch::rows::{ext_text, Ext, ImagesRow};
use crate::text::{
    first_index_of, find_char, owned, replace_spaces, signed_decimal, signed_decimal_string,
    spaces_to_underscores, trim, trimmed,
};
use vstd::string::*;
use vstd::prelude::*;

verus! {

// ---------------------------------------------------------------------------
// what to download
// ---------------------------------------------------------------------------

/// How a download gets the images it is to fetch.
#[derive(Debug, Clone, Copy, PartialEq, Eq, Structural)]
pub enum InputStep {
    /// Nothing was named and prompts are allowed: ask the user.
    Prompt,
    /// Images were named: validate them.
    Proceed,
}

/// The first decision of a download: with no images named, a run without
/// confirmations cannot go on, and an interactive run asks the user.
pub fn input_step(args: &DownloadArgs) -> (r: Result<InputStep, DestinyFetchError>)
    ensures
        (args.input is None && args.input_file is None && args.noconfirm) ==> r == Err::<
            InputStep,
            DestinyFetchError,
        >(DestinyFetchError::MissingArgErr),
        (args.input is None && args.input_file is None && !args.noconfirm) ==> r == Ok::<
            InputStep,
            DestinyFetchError,
        >(InputStep::Prompt),
        !(args.input is None && args.input_file is None) ==> r == Ok::<InputStep, DestinyFetchError>(
            InputStep::Proceed,
        ),
{
    if args.no_input() {
        if args.noconfirm {
            Err(DestinyFetchError::MissingArgErr)
        } else {
            Ok(InputStep::Prompt)
        }
    } else {
        Ok(InputStep::Proceed)
    }
}

/// One check of named images against the database.
#[derive(Debug, PartialEq, Eq)]
pub enum Validation {
    /// Images named by title.
    Titles(Vec<String>),
    /// Images named by id.
    Ids(Vec<i32>),
    /// The images of a category.
    Category(String),
    /// Images named by title in a file, one per line.
    TitlesFile(String),
    /// Images named by id in a file, one per line.
    IdsFile(String),
}

/// The mathematical value of a check.
pub enum ValidationView {
    Titles(Seq<Seq<char>>),
    Ids(Seq<i32>),
    Category(Seq<char>),
    TitlesFile(Seq<char>),
    IdsFile(Seq<char>),
}

impl View for Validation {
    type V = ValidationView;

    open spec fn view(&self) -> ValidationView {
        match self {
            Validation::Titles(t) => ValidationView::Titles(t.deep_view()),
            Validation::Ids(v) => ValidationView::Ids(v@),
            Validation::Category(c) => ValidationView::Category(c@),
            Validation::TitlesFile(p) => ValidationView::TitlesFile(p@),
            Validation::IdsFile(p) => ValidationView::IdsFile(p@),
        }
    }
}

/// The views of a list of checks.
pub open spec fn validations_view(v: Seq<Validation>) -> Seq<ValidationView> {
    v.map_values(|x: Validation| x@)
}

/// Ids as the database holds them.
pub open spec fn widen_ids(v: Seq<u16>) -> Seq<i32> {
    v.map_values(|n: u16| n as i32)
}

fn widen(v: &Vec<u16>) -> (r: Vec<i32>)
    ensures
        r@ == widen_ids(v@),
{
    let mut r: Vec<i32> = Vec::new();
    let mut i: usize = 0;
    while i < v.len()
        invariant
            0 <= i <= v.len(),
            r@ == widen_ids(v@.take(i as int)),
        decreases v.len() - i,
    {
        r.push(v[i] as i32);
        assert(widen_ids(v@.take(i + 1)) =~= widen_ids(v@.take(i as int)).push(v@[i as int] as i32));
        i = i + 1;
    }
    assert(v@.take(i as int) =~= v@);
    r
}

/// The checks a download runs: for images named on the command line, one
/// per kind given (titles, ids, category, in that order); else for files,
/// one per file given (titles, then ids). With neither, an argument is missing.
pub fn validations(args: &DownloadArgs) -> (r: Result<Vec<Validation>, DestinyFetchError>)
    ensures
        match args.input {
            Some(i) => r matches Ok(v) && validations_view(v@) == stdin_validations(i),
            None => match args.input_file {
                Some(f) => r matches Ok(v) && validations_view(v@) == file_validations(f),
                None => r == Err::<Vec<Validation>, DestinyFetchError>(DestinyFetchError::MissingArgErr),
            },
        },
{
    match &args.input {
        Some(i) => {
            let mut v: Vec<Validation> = Vec::new();
            if let Some(t) = &i.titles {
                v.push(Validation::Titles(t.clone()));
            }
            if let Some(ids) = &i.ids {
                v.push(Validation::Ids(widen(ids)));
            }
            if let Some(c) = &i.in_category {
                v.push(Validation::Category(c.clone()));
            }
            assert(validations_view(v@) =~= stdin_validations(*i));
            Ok(v)
        },
        None => match &args.input_file {
            Some(f) => {
                let mut v: Vec<Validation> = Vec::new();
                if let Some(t) = &f.titles_input {
                    v.push(Validation::TitlesFile(t.clone()));
                }
                if let Some(ids) = &f.ids_input {
                    v.push(Validation::IdsFile(ids.clone()));
                }
                assert(validations_view(v@) =~= file_validations(*f));
                Ok(v)
            },
            None => Err(DestinyFetchError::MissingArgErr),
        },
    }
}

/// The checks for images named on the command line.
pub open spec fn stdin_validations(i: StdinInput) -> Seq<ValidationView> {
    (match i.titles {
        Some(t) => seq![ValidationView::Titles(t.deep_view())],
        None => Seq::<ValidationView>::empty(),
    }) + (match i.ids {
        Some(ids) => seq![ValidationView::Ids(widen_ids(ids@))],
        None => Seq::<ValidationView>::empty(),
    }) + (match i.in_category {
        Some(c) => seq![ValidationView::Category(c@)],
        None => Seq::<ValidationView>::empty(),
    })
}

/// The checks for images named by files.
pub open spec fn file_validations(f: FileInput) -> Seq<ValidationView> {
    (match f.titles_input {
        Some(t) => seq![ValidationView::TitlesFile(t@)],
        None => Seq::<ValidationView>::empty(),
    }) + (match f.ids_input {
        Some(p) => seq![ValidationView::IdsFile(p@)],
        None => Seq::<ValidationView>::empty(),
    })
}

/// Adds the images one check found; a check that failed ends the download,
/// a quit or an unknown failure as a quit.
pub fn merge_validated(images: &mut Vec<ImagesRow>, found: Result<Vec<ImagesRow>, DestinyFetchError>) -> (r:
    Result<(), DestinyFetchError>)
    ensures
        match found {
            Ok(v) => r is Ok && final(images)@ == old(images)@ + v@,
            Err(e) => final(images)@ == old(images)@ && r == Err::<(), DestinyFetchError>(
                if e is Quit || e is Unknown {
                    DestinyFetchError::Quit
                } else {
                    e
                },
            ),
        },
{
    match found {
        Ok(v) => {
            let mut v = v;
            images.append(&mut v);
            Ok(())
        },
        Err(DestinyFetchError::Quit) => Err(DestinyFetchError::Quit),
        Err(DestinyFetchError::Unknown) => Err(DestinyFetchError::Quit),
        Err(e) => Err(e),
    }
}

// ---------------------------------------------------------------------------
// where to save
// ---------------------------------------------------------------------------

/// Where a download saves its images.
#[derive(Debug, PartialEq, Eq)]
pub enum OutputDir {
    /// The directory given on the command line.
    Given(String),
    /// Ask the user.
    Prompt,
    /// The working directory (a run without prompts that named none).
    WorkingDir,
}

/// The directory given, else a prompt, else (without prompts) the working directory.
pub fn output_dir_choice(args: &DownloadArgs) -> (r: OutputDir)
    ensures
        match args.output_dir {
            Some(p) => r == OutputDir::Given(p),
            None => if args.noconfirm {
                r == OutputDir::WorkingDir
            } else {
                r == OutputDir::Prompt
            },
        },
{
    match &args.output_dir {
        Some(p) => OutputDir::Given(p.clone()),
        None => if args.noconfirm {
            OutputDir::WorkingDir
        } else {
            OutputDir::Prompt
        },
    }
}

// ---------------------------------------------------------------------------
// splitting the work
// ---------------------------------------------------------------------------

/// The number of images each worker takes: `c` doubled until at most ten
/// full shares of it fit in `n` images.
pub open spec fn chunk_size_from(n: nat, c: nat) -> nat
    decreases n - c,
{
    if c > 0 && n >= 11 * c {
        chunk_size_from(n, 2 * c)
    } else {
        c
    }
}

proof fn lemma_chunk_size_from(n: nat, c: nat)
    requires
        c > 0,
    ensures
        chunk_size_from(n, c) >= c,
        n < 11 * chunk_size_from(n, c),
        chunk_size_from(n, c) == c || 2 * chunk_size_from(n, c) <= n,
    decreases n - c,
{
    if n >= 11 * c {
        lemma_chunk_size_from(n, 2 * c);
    }
}

proof fn lemma_div_more_than_ten(n: int, c: int)
    requires
        c > 0,
        n >= 0,
    ensures
        (n / c > 10) == (n >= 11 * c),
{
    assert((n / c > 10) == (n >= 11 * c)) by (nonlinear_arith)
        requires
            c > 0,
            n >= 0,
    {
        let q = n / c;
        let r = n % c;
        assert(n == c * q + r);
        assert(0 <= r < c);
        if q > 10 {
            assert(c * q >= c * 11);
        } else {
            assert(c * q <= c * 10);
        }
    }
}

/// The number of images each download worker takes: 4, doubled while more
/// than ten shares of it fit in the images, so that at most eleven workers run.
pub fn worker_chunk_size(n: usize) -> (c: usize)
    ensures
        c == chunk_size_from(n as nat, 4),
        c >= 4,
        n / c <= 10,
{
    let mut c: usize = 4;
    proof {
        lemma_chunk_size_from(n as nat, 4);
    }
    while n / c > 10
        invariant
            c > 0,
            chunk_size_from(n as nat, c as nat) == chunk_size_from(n as nat, 4),
            c >= 4,
        decreases n - c,
    {
        proof {
            lemma_div_more_than_ten(n as int, c as int);
        }
        c = c * 2;
    }
    proof {
        lemma_div_more_than_ten(n as int, c as int);
    }
    c
}

/// `s` cut into consecutive pieces of `k` items, the last one shorter where
/// `k` does not divide the length.
pub open spec fn chunks_of<A>(s: Seq<A>, k: nat) -> Seq<Seq<A>>
    decreases s.len(),
{
    if s.len() == 0 || k == 0 {
        Seq::<Seq<A>>::empty()
    } else if s.len() <= k {
        seq![s]
    } else {
        seq![s.take(k as int)] + chunks_of(s.skip(k as int), k)
    }
}

/// Chunking keeps every item once, in order; every piece holds between one
/// and `k` items.
pub proof fn law_chunks_partition<A>(s: Seq<A>, k: nat)
    requires
        k > 0,
    ensures
        chunks_of(s, k).flatten() == s,
        forall|i: int| 0 <= i < chunks_of(s, k).len() ==> 0 < (#[trigger] chunks_of(s, k)[i]).len() <= k,
    decreases s.len(),
{
    if s.len() == 0 {
    } else if s.len() <= k {
        seq![s].lemma_flatten_one_element();
    } else {
        law_chunks_partition(s.skip(k as int), k);
        let c = chunks_of(s, k);
        assert(c.first() == s.take(k as int));
        assert(c.drop_first() =~= chunks_of(s.skip(k as int), k));
        assert(s.take(k as int) + s.skip(k as int) =~= s);
        assert forall|i: int| 0 <= i < c.len() implies 0 < (#[trigger] c[i]).len() <= k by {
            if i > 0 {
                assert(c[i] == chunks_of(s.skip(k as int), k)[i - 1]);
            }
        }
    }
}

/// The views of a list of image lists.
pub open spec fn chunk_views(v: Seq<Vec<ImagesRow>>) -> Seq<Seq<ImagesRow>> {
    v.map_values(|c: Vec<ImagesRow>| c@)
}

/// Cuts the images into the shares of the download workers, in order.
pub fn chunk_images(images: Vec<ImagesRow>, size: usize) -> (r: Vec<Vec<ImagesRow>>)
    requires
        size > 0,
    ensures
        chunk_views(r@) == chunks_of(images@, size as nat),
{
    let ghost all = images@;
    let mut rest = images;
    let mut out: Vec<Vec<ImagesRow>> = Vec::new();
    while rest.len() > 0
        invariant
            size > 0,
            chunks_of(all, size as nat) == chunk_views(out@) + chunks_of(rest@, size as nat),
        decreases rest.len(),
    {
        let ghost before = rest@;
        let ghost out0 = chunk_views(out@);
        if rest.len() <= size {
            let last = rest;
            rest = Vec::new();
            out.push(last);
            assert(chunk_views(out@) =~= out0.push(before));
            assert(chunks_of(before, size as nat) == seq![before]);
            assert(chunks_of(rest@, size as nat) =~= Seq::<Seq<ImagesRow>>::empty());
            assert(chunk_views(out@) + chunks_of(rest@, size as nat) =~= out0 + seq![before]);
        } else {
            let tail = rest.split_off(size);
            out.push(rest);
            rest = tail;
            assert(chunk_views(out@) =~= out0.push(before.take(size as int)));
            assert(before.subrange(size as int, before.len() as int) =~= before.skip(size as int));
            assert(chunk_views(out@) + chunks_of(rest@, size as nat) =~= out0 + (seq![
                before.take(size as int),
            ] + chunks_of(before.skip(size as int), size as nat)));
        }
    }
    assert(chunk_views(out@) + chunks_of(rest@, size as nat) =~= chunk_views(out@));
    out
}

// ---------------------------------------------------------------------------
// sizes
// ---------------------------------------------------------------------------

/// The bytes of an image: its size in KiB times 1024.
pub open spec fn image_bytes(r: ImagesRow) -> int {
    r.size * 1024
}

/// The bytes of a list of images.
pub open spec fn bytes_sum(s: Seq<ImagesRow>) -> int
    decreases s.len(),
{
    if s.len() == 0 {
        0
    } else {
        bytes_sum(s.drop_last()) + image_bytes(s.last())
    }
}

/// The bytes of the images whose byte count is not negative.
pub open spec fn nonnegative_bytes_sum(s: Seq<ImagesRow>) -> int
    decreases s.len(),
{
    if s.len() == 0 {
        0
    } else {
        nonnegative_bytes_sum(s.drop_last()) + if image_bytes(s.last()) >= 0 {
            image_bytes(s.last())
        } else {
            0
        }
    }
}

/// Every image's byte count fits an `i64`.
pub open spec fn bytes_fit(s: Seq<ImagesRow>) -> bool {
    forall|i: int| 0 <= i < s.len() ==> i64::MIN <= #[trigger] image_bytes(s[i]) <= i64::MAX
}

/// Whether [`chunk_total_bytes`] can add up a share without overflow: every
/// image's byte count, and every running total, fits an `i64`.
pub fn chunk_bytes_fit(chunk: &[ImagesRow]) -> (r: bool)
    ensures
        r == (bytes_fit(chunk@) && forall|k: int|
            0 <= k <= chunk@.len() ==> i64::MIN <= #[trigger] bytes_sum(chunk@.take(k)) <= i64::MAX),
{
    let mut total: i64 = 0;
    let mut i: usize = 0;
    assert(chunk@.take(0) =~= Seq::<ImagesRow>::empty());
    while i < chunk.len()
        invariant
            0 <= i <= chunk@.len(),
            forall|j: int| 0 <= j < i ==> i64::MIN <= #[trigger] image_bytes(chunk@[j]) <= i64::MAX,
            forall|k: int| 0 <= k <= i ==> i64::MIN <= #[trigger] bytes_sum(chunk@.take(k)) <= i64::MAX,
            total == bytes_sum(chunk@.take(i as int)),
        decreases chunk@.len() - i,
    {
        assert(chunk@.take(i + 1).drop_last() =~= chunk@.take(i as int));
        let b: i128 = chunk[i].size as i128 * 1024;
        if b < i64::MIN as i128 || b > i64::MAX as i128 {
            assert(!(i64::MIN <= image_bytes(chunk@[i as int]) <= i64::MAX));
            return false;
        }
        let t: i128 = total as i128 + b;
        if t < i64::MIN as i128 || t > i64::MAX as i128 {
            assert(!(i64::MIN <= bytes_sum(chunk@.take(i + 1)) <= i64::MAX));
            return false;
        }
        total = t as i64;
        i = i + 1;
    }
    assert(chunk@.take(i as int) =~= chunk@);
    true
}

/// The total bytes of a worker's share, for its progress bar: the sum of the
/// images' bytes, or 0 where that sum is negative.
pub fn chunk_total_bytes(chunk: &[ImagesRow]) -> (r: u64)
    requires
        bytes_fit(chunk@),
        forall|k: int| 0 <= k <= chunk@.len() ==> i64::MIN <= #[trigger] bytes_sum(chunk@.take(k)) <= i64::MAX,
    ensures
        r == if bytes_sum(chunk@) >= 0 {
            bytes_sum(chunk@)
        } else {
            0
        },
{
    let mut total: i64 = 0;
    let mut i: usize = 0;
    assert(chunk@.take(0) =~= Seq::<ImagesRow>::empty());
    while i < chunk.len()
        invariant
            0 <= i <= chunk@.len(),
            bytes_fit(chunk@),
            forall|k: int| 0 <= k <= chunk@.len() ==> i64::MIN <= #[trigger] bytes_sum(chunk@.take(k)) <= i64::MAX,
            total == bytes_sum(chunk@.take(i as int)),
        decreases chunk@.len() - i,
    {
        assert(chunk@.take(i + 1).drop_last() =~= chunk@.take(i as int));
        assert(i64::MIN <= image_bytes(chunk@[i as int]) <= i64::MAX);
        assert(i64::MIN <= bytes_sum(chunk@.take(i + 1)) <= i64::MAX);
        let b = chunk[i].size * 1024;
        total = total + b;
        i = i + 1;
    }
    assert(chunk@.take(i as int) =~= chunk@);
    if total >= 0 {
        total as u64
    } else {
        0
    }
}

/// The bytes a download fetches: the sum of the images' bytes, images with
/// a negative count left out.
pub fn get_download_size(images: &[ImagesRow]) -> (r: u64)
    requires
        bytes_fit(images@),
        nonnegative_bytes_sum(images@) <= u64::MAX,
    ensures
        r == nonnegative_bytes_sum(images@),
{
    let mut total: u64 = 0;
    let mut i: usize = 0;
    assert(images@.take(0) =~= Seq::<ImagesRow>::empty());
    while i < images.len()
        invariant
            0 <= i <= images@.len(),
            bytes_fit(images@),
            nonnegative_bytes_sum(images@) <= u64::MAX,
            total == nonnegative_bytes_sum(images@.take(i as int)),
        decreases images@.len() - i,
    {
        assert(images@.take(i + 1).drop_last() =~= images@.take(i as int));
        proof {
            lemma_nonnegative_bytes_prefix(images@, i + 1);
        }
        assert(i64::MIN <= image_bytes(images@[i as int]) <= i64::MAX);
        let b = images[i].size * 1024;
        if b >= 0 {
            total = total + b as u64;
        }
        i = i + 1;
    }
    assert(images@.take(i as int) =~= images@);
    total
}

proof fn lemma_nonnegative_bytes_prefix(s: Seq<ImagesRow>, k: int)
    requires
        0 <= k <= s.len(),
    ensures
        0 <= nonnegative_bytes_sum(s.take(k)) <= nonnegative_bytes_sum(s),
    decreases s.len() - k,
{
    if k < s.len() {
        lemma_nonnegative_bytes_prefix(s, k + 1);
        lemma_nonnegative_bytes_nonnegative(s.take(k));
        assert(s.take(k + 1).drop_last() =~= s.take(k));
    } else {
        assert(s.take(k) =~= s);
        lemma_nonnegative_bytes_nonnegative(s);
    }
}

proof fn lemma_nonnegative_bytes_nonnegative(s: Seq<ImagesRow>)
    ensures
        nonnegative_bytes_sum(s) >= 0,
    decreases s.len(),
{
    if s.len() > 0 {
        lemma_nonnegative_bytes_nonnegative(s.drop_last());
    }
}

/// The KiB a confirmation reports: the sizes added up, negative sizes as 0.
pub open spec fn confirm_kib_sum(s: Seq<ImagesRow>) -> int
    decreases s.len(),
{
    if s.len() == 0 {
        0
    } else {
        confirm_kib_sum(s.drop_last()) + if s.last().size >= 0 {
            s.last().size as int
        } else {
            0
        }
    }
}

proof fn lemma_confirm_kib_prefix(s: Seq<ImagesRow>, k: int)
    requires
        0 <= k <= s.len(),
    ensures
        0 <= confirm_kib_sum(s.take(k)) <= confirm_kib_sum(s),
    decreases s.len() - k,
{
    if k < s.len() {
        lemma_confirm_kib_prefix(s, k + 1);
        lemma_confirm_kib_nonnegative(s.take(k));
        assert(s.take(k + 1).drop_last() =~= s.take(k));
    } else {
        assert(s.take(k) =~= s);
        lemma_confirm_kib_nonnegative(s);
    }
}

proof fn lemma_confirm_kib_nonnegative(s: Seq<ImagesRow>)
    ensures
        confirm_kib_sum(s) >= 0,
    decreases s.len(),
{
    if s.len() > 0 {
        lemma_confirm_kib_nonnegative(s.drop_last());
    }
}

/// Whether [`confirm_total_kib`] can add up the images' KiB in a `u64`.
pub fn confirm_kib_fits(images: &[ImagesRow]) -> (r: bool)
    ensures
        r == (confirm_kib_sum(images@) <= u64::MAX),
{
    let mut total: u64 = 0;
    let mut i: usize = 0;
    assert(images@.take(0) =~= Seq::<ImagesRow>::empty());
    while i < images.len()
        invariant
            0 <= i <= images@.len(),
            total == confirm_kib_sum(images@.take(i as int)),
        decreases images@.len() - i,
    {
        assert(images@.take(i + 1).drop_last() =~= images@.take(i as int));
        proof {
            lemma_confirm_kib_prefix(images@, i + 1);
        }
        let s = images[i].size;
        if s >= 0 {
            let t: u128 = total as u128 + s as u128;
            if t > u64::MAX as u128 {
                return false;
            }
            total = t as u64;
        }
        i = i + 1;
    }
    assert(images@.take(i as int) =~= images@);
    true
}

/// The KiB the confirmation of a download reports.
pub fn confirm_total_kib(images: &[ImagesRow]) -> (r: u64)
    requires
        confirm_kib_sum(images@) <= u64::MAX,
    ensures
        r == confirm_kib_sum(images@),
{
    let mut total: u64 = 0;
    let mut i: usize = 0;
    assert(images@.take(0) =~= Seq::<ImagesRow>::empty());
    while i < images.len()
        invariant
            0 <= i <= images@.len(),
            confirm_kib_sum(images@) <= u64::MAX,
            total == confirm_kib_sum(images@.take(i as int)),
        decreases images@.len() - i,
    {
        assert(images@.take(i + 1).drop_last() =~= images@.take(i as int));
        proof {
            lemma_confirm_kib_prefix(images@, i + 1);
        }
        let s = images[i].size;
        if s >= 0 {
            total = total + s as u64;
        }
        i = i + 1;
    }
    assert(images@.take(i as int) =~= images@);
    total
}

/// What the confirmation of a download reports: nothing where the images
/// add up to no KiB (the download is called off); else the number of images
/// and their total in MiB (whole KiB divided by 1024).
pub fn confirm_summary(images: &[ImagesRow]) -> (r: Option<(usize, u64)>)
    requires
        confirm_kib_sum(images@) <= u64::MAX,
    ensures
        confirm_kib_sum(images@) == 0 ==> r is None,
        confirm_kib_sum(images@) != 0 ==> r == Some((images@.len() as usize, (confirm_kib_sum(images@) / 1024) as u64)),
{
    let total = confirm_total_kib(images);
    if total == 0 {
        None
    } else {
        Some((images.len(), total / 1024))
    }
}

/// The line the confirmation shows for an image.
pub open spec fn confirm_line(r: ImagesRow) -> Seq<char> {
    "\t("@ + signed_decimal(r.id as int) + "), "@ + r.title@ + ", "@ + signed_decimal(r.width as int) + "x"@
        + signed_decimal(r.height as int) + ", "@ + signed_decimal(r.size as int) + "KiB"@
}

/// The line the confirmation shows for an image: id, title, dimensions and size.
pub fn confirm_text(r: &ImagesRow) -> (s: String)
    ensures
        s@ == confirm_line(*r),
{
    let mut s = owned("\t(");
    s.append(signed_decimal_string(r.id).as_str());
    s.append("), ");
    s.append(r.title.as_str());
    s.append(", ");
    s.append(signed_decimal_string(r.width).as_str());
    s.append("x");
    s.append(signed_decimal_string(r.height).as_str());
    s.append(", ");
    s.append(signed_decimal_string(r.size).as_str());
    s.append("KiB");
    assert(s@ =~= confirm_line(*r));
    s
}

// ---------------------------------------------------------------------------
// file names
// ---------------------------------------------------------------------------

/// A name that is a single plain path component without an extension:
/// not empty, with no `/`, `\` or `.` in it.
pub open spec fn plain_file_name(s: Seq<char>) -> bool {
    &&& s.len() > 0
    &&& forall|i: int| 0 <= i < s.len() ==> #[trigger] s[i] != '/' && s[i] != '\\' && s[i] != '.'
}

/// A name that Windows reads as a drive alone: an ASCII letter and `:`.
pub open spec fn drive_name(s: Seq<char>) -> bool {
    &&& s.len() == 2
    &&& s[1] == ':'
    &&& (('a' <= s[0] && s[0] <= 'z') || ('A' <= s[0] && s[0] <= 'Z'))
}

/// Text with no path separator (`/` or `\`) in it.
pub open spec fn no_separator(s: Seq<char>) -> bool {
    forall|i: int| 0 <= i < s.len() ==> #[trigger] s[i] != '/' && s[i] != '\\'
}

/// Every extension written for a file type is non-empty and has no path
/// separator in it.
proof fn lemma_ext_text_plain(e: Ext)
    ensures
        ext_text(e).len() > 0,
        no_separator(ext_text(e)),
{
    reveal_strlit("png");
    reveal_strlit("jpg");
    reveal_strlit("svg");
    reveal_strlit("gif");
    reveal_strlit("mp4");
    reveal_strlit("mp3");
    reveal_strlit("webp");
    reveal_strlit("unknown");
}

/// Gives a path an extension.
///
/// Trusted: `PathBuf::set_extension`, which panics when the extension holds
/// a path separator; such extensions are left out. Its documentation says
/// that it does nothing where the path has no file name, as an empty path
/// has not, and that a path whose file name has no extension gets `.` and
/// the extension appended. The latter is claimed for plain names (see
/// [`plain_file_name`]) that are not a drive on Windows (see
/// [`drive_name`]: there `C:` has no file name) and a non-empty extension.
/// For other paths the result depends on how the platform splits paths,
/// and nothing is claimed of it.
#[verifier::external_body]
fn set_path_extension(path: String, ext: &str) -> (r: String)
    requires
        no_separator(ext@),
    ensures
        path@.len() == 0 ==> r@ == path@,
        plain_file_name(path@) && !drive_name(path@) && ext@.len() > 0 ==> r@ == path@ + "."@ + ext@,
{
    let mut p = std::path::PathBuf::from(path);
    p.set_extension(ext);
    p.to_string_lossy().into_owned()
}

/// `s` cut at its first `.`.
pub open spec fn before_first_dot(s: Seq<char>) -> Seq<char> {
    match first_index_of(s, '.') {
        Some(i) => s.take(i as int),
        None => s,
    }
}

/// The stem of the file an image is saved as: its title trimmed, spaces
/// made underscores, cut at its first `.`.
pub open spec fn file_stem(title: Seq<char>) -> Seq<char> {
    before_first_dot(spaces_to_underscores(trimmed(title)))
}

/// The name an image is saved under: the stem of its title, with the
/// extension of its file type unless that is unknown. An empty stem stays
/// empty.
pub fn filename_from_title(title_str: &str, ext: Ext) -> (r: String)
    ensures
        ext == Ext::UNKNOWN ==> r@ == file_stem(title_str@),
        file_stem(title_str@).len() == 0 ==> r@ == file_stem(title_str@),
        ext != Ext::UNKNOWN && plain_file_name(file_stem(title_str@)) && !drive_name(
            file_stem(title_str@),
        ) ==> r@ == file_stem(title_str@) + "."@ + ext_text(ext),
{
    let trimmed_title = trim(title_str);
    let mut title: String = replace_spaces(trimmed_title.as_str());
    match find_char(title.as_str(), '.') {
        Some(i) => {
            title = owned(title.as_str().substring_char(0, i));
        },
        None => {},
    }
    assert(title@ == file_stem(title_str@));
    match ext {
        Ext::UNKNOWN => title,
        _ => {
            let e = ext.to_text();
            proof {
                lemma_ext_text_plain(ext);
            }
            set_path_extension(title, e.as_str())
        },
    }
}

} // verus!
