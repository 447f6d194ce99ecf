//! The searches of the local image database: the SQL they run and how
//! their results are shown.
use crate::fetch::cli::{DetailLevel, SearchArgs};
use crate::fetch::rows::{ext_db_text, ext_text, CategoriesRow, Ext, ImagesRow};
use crate::text::{lowercase, owned, pad_right, push_padded, signed_decimal, signed_decimal_string, to_lowercase};
use vstd::prelude::*;

verus! {

/// An SQLite query under construction, together with the values bound to
/// its `?` placeholders, held in an sqlx `QueryBuilder`.
///
/// The field is public because the query is run outside the library, by a
/// caller that takes the builder to sqlx once it is complete.
#[verifier::external_body]
pub struct SqlBuilder {
    pub builder: sqlx::QueryBuilder<'static, sqlx::Sqlite>,
}

/// A value bound to a placeholder of a query.
pub enum Bound {
    Text(Seq<char>),
    Integer(int),
}

/// The SQL text a builder holds.
pub uninterp spec fn builder_sql(q: SqlBuilder) -> Seq<char>;

/// The values a builder binds, in the order of their placeholders.
pub uninterp spec fn builder_binds(q: SqlBuilder) -> Seq<Bound>;

/// The builder still holds its arguments: it has not been built yet, so
/// more SQL and values can be pushed without a panic.
pub uninterp spec fn builder_open(q: SqlBuilder) -> bool;

/// Starts a query with its first fragment.
///
/// Trusted: `QueryBuilder::new` holds `init` as the SQL text, binds nothing
/// and holds fresh arguments.
#[verifier::external_body]
fn sql_new(init: &str) -> (q: SqlBuilder)
    ensures
        builder_open(q),
        builder_sql(q) == init@,
        builder_binds(q) == Seq::<Bound>::empty(),
{
    SqlBuilder { builder: sqlx::QueryBuilder::new(init) }
}

/// Appends a fragment of SQL.
///
/// Trusted: `QueryBuilder::push` appends the text of `s` and binds nothing;
/// it asserts that the builder was not built, which `builder_open` rules out.
#[verifier::external_body]
fn sql_push(q: &mut SqlBuilder, s: &str)
    requires
        builder_open(*old(q)),
    ensures
        builder_open(*final(q)),
        builder_sql(*final(q)) == builder_sql(*old(q)) + s@,
        builder_binds(*final(q)) == builder_binds(*old(q)),
{
    q.builder.push(s);
}

/// Appends a placeholder bound to a text.
///
/// Trusted: `QueryBuilder::push_bind` adds the value to the arguments and
/// appends SQLite's placeholder `?`; encoding a `String` never fails. It asserts
/// that the builder was not built, which `builder_open` rules out.
#[verifier::external_body]
fn sql_bind_text(q: &mut SqlBuilder, v: String)
    requires
        builder_open(*old(q)),
    ensures
        builder_open(*final(q)),
        builder_sql(*final(q)) == builder_sql(*old(q)) + "?"@,
        builder_binds(*final(q)) == builder_binds(*old(q)).push(Bound::Text(v@)),
{
    q.builder.push_bind(v);
}

/// Appends a placeholder bound to a 32-bit integer.
///
/// Trusted: `QueryBuilder::push_bind` adds the value to the arguments and
/// appends SQLite's placeholder `?`; encoding an `i32` never fails. It asserts
/// that the builder was not built, which `builder_open` rules out.
#[verifier::external_body]
fn sql_bind_i32(q: &mut SqlBuilder, v: i32)
    requires
        builder_open(*old(q)),
    ensures
        builder_open(*final(q)),
        builder_sql(*final(q)) == builder_sql(*old(q)) + "?"@,
        builder_binds(*final(q)) == builder_binds(*old(q)).push(Bound::Integer(v as int)),
{
    q.builder.push_bind(v);
}

/// Appends a placeholder bound to a 64-bit integer.
///
/// Trusted: `QueryBuilder::push_bind` adds the value to the arguments and
/// appends SQLite's placeholder `?`; encoding an `i64` never fails. It asserts
/// that the builder was not built, which `builder_open` rules out.
#[verifier::external_body]
fn sql_bind_i64(q: &mut SqlBuilder, v: i64)
    requires
        builder_open(*old(q)),
    ensures
        builder_open(*final(q)),
        builder_sql(*final(q)) == builder_sql(*old(q)) + "?"@,
        builder_binds(*final(q)) == builder_binds(*old(q)).push(Bound::Integer(v as int)),
{
    q.builder.push_bind(v);
}

/// The SQL text of a builder.
///
/// Trusted: `QueryBuilder::sql` returns the text built so far.
#[verifier::external_body]
fn sql_text(q: &SqlBuilder) -> (r: String)
    ensures
        r@ == builder_sql(*q),
{
    q.builder.sql().to_string()
}

impl SqlBuilder {
    /// The SQL text built so far.
    pub fn into_sql(self) -> (r: String)
        ensures
            r@ == builder_sql(self),
    {
        sql_text(&self)
    }
}

// ---------------------------------------------------------------------------
// the text of the searches
// ---------------------------------------------------------------------------

/// An optional 32-bit integer as an optional integer.
pub open spec fn opt_i32(o: Option<i32>) -> Option<int> {
    match o {
        Some(v) => Some(v as int),
        None => None,
    }
}

/// An optional 64-bit integer as an optional integer.
pub open spec fn opt_i64(o: Option<i64>) -> Option<int> {
    match o {
        Some(v) => Some(v as int),
        None => None,
    }
}

/// The filter on a column between optional bounds.
pub open spec fn range_sql(col: Seq<char>, lo: Option<int>, hi: Option<int>) -> Seq<char> {
    match (lo, hi) {
        (Some(_), Some(_)) => "AND "@ + col + " BETWEEN "@ + "?"@ + " AND "@ + "?"@,
        (Some(_), None) => "AND "@ + col + " >= "@ + "?"@,
        (None, Some(_)) => "AND "@ + col + " <= "@ + "?"@,
        (None, None) => Seq::<char>::empty(),
    }
}

/// The values that filter binds: the lower bound, then the upper.
pub open spec fn range_binds(lo: Option<int>, hi: Option<int>) -> Seq<Bound> {
    let l = match lo {
        Some(v) => seq![Bound::Integer(v)],
        None => Seq::<Bound>::empty(),
    };
    let h = match hi {
        Some(v) => seq![Bound::Integer(v)],
        None => Seq::<Bound>::empty(),
    };
    l + h
}

/// The value bound for an optional bound of a range: one integer where it
/// is given, nothing where it is not.
pub open spec fn bound_value(o: Option<int>) -> Seq<Bound> {
    match o {
        Some(v) => seq![Bound::Integer(v)],
        None => Seq::<Bound>::empty(),
    }
}

/// A range filter reads `col BETWEEN lower AND upper` with both bounds,
/// `col >= lower` or `col <= upper` with one, and is absent with none; the
/// lower bound is always bound before the upper one.
pub proof fn law_range_filter_shape(col: Seq<char>, lo: Option<int>, hi: Option<int>)
    ensures
        lo is Some && hi is Some ==> range_sql(col, lo, hi) == "AND "@ + col + " BETWEEN ? AND ?"@
            && range_binds(lo, hi) == seq![Bound::Integer(lo->0), Bound::Integer(hi->0)],
        lo is Some && hi is None ==> range_sql(col, lo, hi) == "AND "@ + col + " >= ?"@
            && range_binds(lo, hi) == seq![Bound::Integer(lo->0)],
        lo is None && hi is Some ==> range_sql(col, lo, hi) == "AND "@ + col + " <= ?"@
            && range_binds(lo, hi) == seq![Bound::Integer(hi->0)],
        lo is None && hi is None ==> range_sql(col, lo, hi).len() == 0 && range_binds(lo, hi).len() == 0,
{
    reveal_strlit(" BETWEEN ? AND ?");
    reveal_strlit(" BETWEEN ");
    reveal_strlit(" AND ");
    reveal_strlit("?");
    reveal_strlit(" >= ?");
    reveal_strlit(" >= ");
    reveal_strlit(" <= ?");
    reveal_strlit(" <= ");
    assert(" BETWEEN "@ + "?"@ + " AND "@ + "?"@ =~= " BETWEEN ? AND ?"@);
    assert(" >= "@ + "?"@ =~= " >= ?"@);
    assert(" <= "@ + "?"@ =~= " <= ?"@);
    match (lo, hi) {
        (Some(l), Some(h)) => {
            assert(range_sql(col, lo, hi) =~= "AND "@ + col + (" BETWEEN "@ + "?"@ + " AND "@ + "?"@));
            assert(range_binds(lo, hi) =~= seq![Bound::Integer(l), Bound::Integer(h)]);
        },
        (Some(l), None) => {
            assert(range_sql(col, lo, hi) =~= "AND "@ + col + (" >= "@ + "?"@));
            assert(range_binds(lo, hi) =~= seq![Bound::Integer(l)]);
        },
        (None, Some(h)) => {
            assert(range_sql(col, lo, hi) =~= "AND "@ + col + (" <= "@ + "?"@));
            assert(range_binds(lo, hi) =~= seq![Bound::Integer(h)]);
        },
        (None, None) => {},
    }
}

/// The image search binds, in this order: the search pattern, the
/// category, the file types, then each range's lower and upper bound where
/// given (size `minsize`, `maxsize`; time `after`, `before`; width, height
/// and pixels their `min*`, `max*`), then the limit.
pub proof fn law_image_search_bind_order(a: SearchArgs)
    ensures
        images_query_binds(a) == seq![Bound::Text(like_pattern(a.search@))] + match a.in_category {
            Some(c) => seq![Bound::Text(c@)],
            None => Seq::<Bound>::empty(),
        } + match a.ftype {
            Some(v) => v@.map_values(|e: Ext| Bound::Text(ext_db_text(e))),
            None => Seq::<Bound>::empty(),
        } + bound_value(opt_i32(a.minsize)) + bound_value(opt_i32(a.maxsize)) + bound_value(opt_i64(a.after))
            + bound_value(opt_i64(a.before)) + bound_value(opt_i32(a.minwidth)) + bound_value(opt_i32(a.maxwidth))
            + bound_value(opt_i32(a.minheight)) + bound_value(opt_i32(a.maxheight)) + bound_value(
            opt_i32(a.minpixels),
        ) + bound_value(opt_i32(a.maxpixels)) + match a.limit {
            Some(l) => if l >= 0 {
                seq![Bound::Integer(l as int)]
            } else {
                Seq::<Bound>::empty()
            },
            None => Seq::<Bound>::empty(),
        },
{
    let p = seq![Bound::Text(like_pattern(a.search@))];
    let c = category_filter_binds(a.in_category);
    let f = ftype_filter_binds(a.ftype);
    let l = limit_binds(a.limit);
    let (x1, x2) = (bound_value(opt_i32(a.minsize)), bound_value(opt_i32(a.maxsize)));
    let (x3, x4) = (bound_value(opt_i64(a.after)), bound_value(opt_i64(a.before)));
    let (x5, x6) = (bound_value(opt_i32(a.minwidth)), bound_value(opt_i32(a.maxwidth)));
    let (x7, x8) = (bound_value(opt_i32(a.minheight)), bound_value(opt_i32(a.maxheight)));
    let (x9, x10) = (bound_value(opt_i32(a.minpixels)), bound_value(opt_i32(a.maxpixels)));
    lemma_range_binds_split(opt_i32(a.minsize), opt_i32(a.maxsize));
    lemma_range_binds_split(opt_i64(a.after), opt_i64(a.before));
    lemma_range_binds_split(opt_i32(a.minwidth), opt_i32(a.maxwidth));
    lemma_range_binds_split(opt_i32(a.minheight), opt_i32(a.maxheight));
    lemma_range_binds_split(opt_i32(a.minpixels), opt_i32(a.maxpixels));
    assert(image_ranges_binds(a) == (x1 + x2) + (x3 + x4) + (x5 + x6) + (x7 + x8) + (x9 + x10));
    assert(images_query_binds(a) == p + c + f + image_ranges_binds(a) + l);
    lemma_bind_order_flat(p, c, f, x1, x2, x3, x4, x5, x6, x7, x8, x9, x10, l);
}

/// Regrouping the binds of the image search.
proof fn lemma_bind_order_flat(
    p: Seq<Bound>,
    c: Seq<Bound>,
    f: Seq<Bound>,
    x1: Seq<Bound>,
    x2: Seq<Bound>,
    x3: Seq<Bound>,
    x4: Seq<Bound>,
    x5: Seq<Bound>,
    x6: Seq<Bound>,
    x7: Seq<Bound>,
    x8: Seq<Bound>,
    x9: Seq<Bound>,
    x10: Seq<Bound>,
    l: Seq<Bound>,
)
    ensures
        p + c + f + ((x1 + x2) + (x3 + x4) + (x5 + x6) + (x7 + x8) + (x9 + x10)) + l == p + c + f + x1 + x2 + x3
            + x4 + x5 + x6 + x7 + x8 + x9 + x10 + l,
{
    assert(p + c + f + ((x1 + x2) + (x3 + x4) + (x5 + x6) + (x7 + x8) + (x9 + x10)) + l =~= p + c + f + x1 + x2
        + x3 + x4 + x5 + x6 + x7 + x8 + x9 + x10 + l);
}

/// The binds of a range are those of its lower bound, then its upper bound.
proof fn lemma_range_binds_split(lo: Option<int>, hi: Option<int>)
    ensures
        range_binds(lo, hi) == bound_value(lo) + bound_value(hi),
{
    assert(range_binds(lo, hi) =~= bound_value(lo) + bound_value(hi));
}

/// With a size range only, the image search reads
/// `... size_ BETWEEN ? AND ? ...` with `minsize` bound before `maxsize`.
pub proof fn law_size_range_bounds(a: SearchArgs, lo: i32, hi: i32)
    requires
        a.minsize == Some(lo),
        a.maxsize == Some(hi),
    ensures
        ({
            let k = (1 + category_filter_binds(a.in_category).len() + ftype_filter_binds(a.ftype).len()) as int;
            &&& images_query_binds(a)[k] == Bound::Integer(lo as int)
            &&& images_query_binds(a)[k + 1] == Bound::Integer(hi as int)
        }),
{
    law_image_search_bind_order(a);
}

/// `n` placeholders separated by `, `.
pub open spec fn placeholder_list(n: nat) -> Seq<char>
    decreases n,
{
    if n == 0 {
        Seq::<char>::empty()
    } else if n == 1 {
        "?"@
    } else {
        placeholder_list((n - 1) as nat) + ", "@ + "?"@
    }
}

/// The fragment that keeps images of a category.
pub open spec fn image_category_sql() -> Seq<char> {
    " AND EXISTS (
            SELECT 1
            FROM image_categories as ic
            JOIN categories ON categories.id  = ic.category_id
            WHERE ic.image_id = images.id AND categories.title = "@
}

/// The fragment that keeps subcategories of a category.
pub open spec fn subcategory_sql() -> Seq<char> {
    "
            AND EXISTS (
                SELECT 1
                FROM subcategories as sc
                JOIN categories AS c ON sc.parent_id = c.id
                WHERE categories.id = sc.child_id AND c.title = ?
        ) "@
}

/// The pattern a search text is matched with: the text in lower case,
/// between `'%` and `%'`.
pub open spec fn like_pattern(search: Seq<char>) -> Seq<char> {
    "'%"@ + lowercase(search) + "%'"@
}

/// The category filter of the image search.
pub open spec fn image_category_filter_sql(c: Option<String>) -> Seq<char> {
    match c {
        Some(_) => image_category_sql() + "?"@ + "\n)"@,
        None => Seq::<char>::empty(),
    }
}

/// The value the category filter binds: the category's title.
pub open spec fn category_filter_binds(c: Option<String>) -> Seq<Bound> {
    match c {
        Some(c) => seq![Bound::Text(c@)],
        None => Seq::<Bound>::empty(),
    }
}

/// The file-type filter of the image search.
pub open spec fn ftype_filter_sql(f: Option<Vec<Ext>>) -> Seq<char> {
    match f {
        Some(v) => "AND extension IN ("@ + placeholder_list(v.len() as nat) + ") "@,
        None => Seq::<char>::empty(),
    }
}

/// The values the file-type filter binds: the stored text of each type.
pub open spec fn ftype_filter_binds(f: Option<Vec<Ext>>) -> Seq<Bound> {
    match f {
        Some(v) => v@.map_values(|e: Ext| Bound::Text(ext_db_text(e))),
        None => Seq::<Bound>::empty(),
    }
}

/// The limit of the image search: present where it is not negative.
pub open spec fn image_limit_sql(l: Option<i32>) -> Seq<char> {
    match l {
        Some(l) => if l >= 0 { " LIMIT "@ + "?"@ } else { Seq::<char>::empty() },
        None => Seq::<char>::empty(),
    }
}

/// The value a limit binds, where it is not negative.
pub open spec fn limit_binds(l: Option<i32>) -> Seq<Bound> {
    match l {
        Some(l) => if l >= 0 { seq![Bound::Integer(l as int)] } else { Seq::<Bound>::empty() },
        None => Seq::<Bound>::empty(),
    }
}

/// The range filters of the image search, in their order.
pub open spec fn image_ranges_sql(a: SearchArgs) -> Seq<char> {
    range_sql("size_"@, opt_i32(a.minsize), opt_i32(a.maxsize))
        + range_sql("timestamp_"@, opt_i64(a.after), opt_i64(a.before))
        + range_sql("width"@, opt_i32(a.minwidth), opt_i32(a.maxwidth))
        + range_sql("height"@, opt_i32(a.minheight), opt_i32(a.maxheight))
        + range_sql("width * height"@, opt_i32(a.minpixels), opt_i32(a.maxpixels))
}

/// The values the range filters bind, in their order.
pub open spec fn image_ranges_binds(a: SearchArgs) -> Seq<Bound> {
    range_binds(opt_i32(a.minsize), opt_i32(a.maxsize))
        + range_binds(opt_i64(a.after), opt_i64(a.before))
        + range_binds(opt_i32(a.minwidth), opt_i32(a.maxwidth))
        + range_binds(opt_i32(a.minheight), opt_i32(a.maxheight))
        + range_binds(opt_i32(a.minpixels), opt_i32(a.maxpixels))
}

/// The SQL of the image search.
pub open spec fn images_query_sql(a: SearchArgs) -> Seq<char> {
    "SELECT * FROM images "@ + "WHERE LOWER(title) LIKE "@ + "?"@
        + image_category_filter_sql(a.in_category)
        + ftype_filter_sql(a.ftype)
        + image_ranges_sql(a)
        + " ORDER BY title"@
        + image_limit_sql(a.limit)
}

/// The values the image search binds, in the order of their placeholders.
pub open spec fn images_query_binds(a: SearchArgs) -> Seq<Bound> {
    seq![Bound::Text(like_pattern(a.search@))]
        + category_filter_binds(a.in_category)
        + ftype_filter_binds(a.ftype)
        + image_ranges_binds(a)
        + limit_binds(a.limit)
}

/// The SQL of the category search.
pub open spec fn categories_query_sql(a: SearchArgs) -> Seq<char> {
    "SELECT * FROM categories "@ + "WHERE LOWER(title) LIKE "@ + "?"@
        + match a.in_category {
            Some(_) => subcategory_sql() + "?"@,
            None => Seq::<char>::empty(),
        }
        + "ORDER BY title"@
        + match a.limit {
            Some(l) => if l >= 0 { " LIMIT ?"@ + "?"@ } else { Seq::<char>::empty() },
            None => Seq::<char>::empty(),
        }
}

/// The values the category search binds, in the order they were pushed.
pub open spec fn categories_query_binds(a: SearchArgs) -> Seq<Bound> {
    seq![Bound::Text(like_pattern(a.search@) + " "@)]
        + category_filter_binds(a.in_category)
        + limit_binds(a.limit)
}

fn push_range_i32(q: &mut SqlBuilder, col: &str, lo: Option<i32>, hi: Option<i32>)
    requires
        builder_open(*old(q)),
    ensures
        builder_open(*final(q)),
        builder_sql(*final(q)) == builder_sql(*old(q)) + range_sql(col@, opt_i32(lo), opt_i32(hi)),
        builder_binds(*final(q)) == builder_binds(*old(q)) + range_binds(opt_i32(lo), opt_i32(hi)),
{
    let ghost s0 = builder_sql(*q);
    let ghost b0 = builder_binds(*q);
    match (lo, hi) {
        (Some(min), Some(max)) => {
            sql_push(q, "AND ");
            sql_push(q, col);
            sql_push(q, " BETWEEN ");
            sql_bind_i32(q, min);
            sql_push(q, " AND ");
            sql_bind_i32(q, max);
        },
        (Some(min), None) => {
            sql_push(q, "AND ");
            sql_push(q, col);
            sql_push(q, " >= ");
            sql_bind_i32(q, min);
        },
        (None, Some(max)) => {
            sql_push(q, "AND ");
            sql_push(q, col);
            sql_push(q, " <= ");
            sql_bind_i32(q, max);
        },
        (None, None) => {},
    }
    assert(builder_sql(*q) =~= s0 + range_sql(col@, opt_i32(lo), opt_i32(hi)));
    assert(builder_binds(*q) =~= b0 + range_binds(opt_i32(lo), opt_i32(hi)));
}

fn push_range_i64(q: &mut SqlBuilder, col: &str, lo: Option<i64>, hi: Option<i64>)
    requires
        builder_open(*old(q)),
    ensures
        builder_open(*final(q)),
        builder_sql(*final(q)) == builder_sql(*old(q)) + range_sql(col@, opt_i64(lo), opt_i64(hi)),
        builder_binds(*final(q)) == builder_binds(*old(q)) + range_binds(opt_i64(lo), opt_i64(hi)),
{
    let ghost s0 = builder_sql(*q);
    let ghost b0 = builder_binds(*q);
    match (lo, hi) {
        (Some(min), Some(max)) => {
            sql_push(q, "AND ");
            sql_push(q, col);
            sql_push(q, " BETWEEN ");
            sql_bind_i64(q, min);
            sql_push(q, " AND ");
            sql_bind_i64(q, max);
        },
        (Some(min), None) => {
            sql_push(q, "AND ");
            sql_push(q, col);
            sql_push(q, " >= ");
            sql_bind_i64(q, min);
        },
        (None, Some(max)) => {
            sql_push(q, "AND ");
            sql_push(q, col);
            sql_push(q, " <= ");
            sql_bind_i64(q, max);
        },
        (None, None) => {},
    }
    assert(builder_sql(*q) =~= s0 + range_sql(col@, opt_i64(lo), opt_i64(hi)));
    assert(builder_binds(*q) =~= b0 + range_binds(opt_i64(lo), opt_i64(hi)));
}

/// Appends the list of file types, one placeholder each, separated by `, `.
fn push_ext_list(q: &mut SqlBuilder, v: &Vec<Ext>)
    requires
        builder_open(*old(q)),
    ensures
        builder_open(*final(q)),
        builder_sql(*final(q)) == builder_sql(*old(q)) + placeholder_list(v.len() as nat),
        builder_binds(*final(q)) == builder_binds(*old(q)) + v@.map_values(
            |e: Ext| Bound::Text(ext_db_text(e)),
        ),
{
    let ghost s0 = builder_sql(*q);
    let ghost b0 = builder_binds(*q);
    let ghost all = v@.map_values(|e: Ext| Bound::Text(ext_db_text(e)));
    let mut i: usize = 0;
    while i < v.len()
        invariant
            0 <= i <= v.len(),
            all == v@.map_values(|e: Ext| Bound::Text(ext_db_text(e))),
            builder_open(*q),
            builder_sql(*q) == s0 + placeholder_list(i as nat),
            builder_binds(*q) == b0 + all.take(i as int),
        decreases v.len() - i,
    {
        if i > 0 {
            sql_push(q, ", ");
        }
        let t = v[i].db_text();
        sql_bind_text(q, t);
        proof {
            if i == 0 {
                assert(builder_sql(*q) =~= s0 + placeholder_list(1));
            } else {
                assert(builder_sql(*q) =~= s0 + placeholder_list((i + 1) as nat));
            }
            assert(all.take(i + 1) =~= all.take(i as int).push(all[i as int]));
            assert(builder_binds(*q) =~= b0 + all.take(i + 1));
        }
        i = i + 1;
    }
    assert(all.take(i as int) =~= all);
}

/// The text matched by `LIKE`: the search in lower case, between `'%` and `%'`.
fn like_text(search: &str) -> (r: String)
    ensures
        r@ == like_pattern(search@),
{
    let mut s = owned("'%");
    let lower = to_lowercase(search);
    s.append(lower.as_str());
    s.append("%'");
    s
}

/// Appends the category filter of the image search.
fn push_image_category(q: &mut SqlBuilder, c: &Option<String>)
    requires
        builder_open(*old(q)),
    ensures
        builder_open(*final(q)),
        builder_sql(*final(q)) == builder_sql(*old(q)) + image_category_filter_sql(*c),
        builder_binds(*final(q)) == builder_binds(*old(q)) + category_filter_binds(*c),
{
    let ghost s0 = builder_sql(*q);
    let ghost b0 = builder_binds(*q);
    match c {
        Some(c) => {
            sql_push(
                q,
                " AND EXISTS (
            SELECT 1
            FROM image_categories as ic
            JOIN categories ON categories.id  = ic.category_id
            WHERE ic.image_id = images.id AND categories.title = ",
            );
            sql_bind_text(q, c.clone());
            sql_push(q, "\n)");
        },
        None => {},
    }
    assert(builder_sql(*q) =~= s0 + image_category_filter_sql(*c));
    assert(builder_binds(*q) =~= b0 + category_filter_binds(*c));
}

/// Appends the file-type filter of the image search.
fn push_ftype_filter(q: &mut SqlBuilder, f: &Option<Vec<Ext>>)
    requires
        builder_open(*old(q)),
    ensures
        builder_open(*final(q)),
        builder_sql(*final(q)) == builder_sql(*old(q)) + ftype_filter_sql(*f),
        builder_binds(*final(q)) == builder_binds(*old(q)) + ftype_filter_binds(*f),
{
    let ghost s0 = builder_sql(*q);
    let ghost b0 = builder_binds(*q);
    match f {
        Some(v) => {
            sql_push(q, "AND extension IN (");
            push_ext_list(q, v);
            sql_push(q, ") ");
        },
        None => {},
    }
    assert(builder_sql(*q) =~= s0 + ftype_filter_sql(*f));
    assert(builder_binds(*q) =~= b0 + ftype_filter_binds(*f));
}

/// Appends the range filters of the image search.
#[verifier::spinoff_prover]
#[verifier::rlimit(40)]
fn push_image_ranges(q: &mut SqlBuilder, args: &SearchArgs)
    requires
        builder_open(*old(q)),
    ensures
        builder_open(*final(q)),
        builder_sql(*final(q)) == builder_sql(*old(q)) + image_ranges_sql(*args),
        builder_binds(*final(q)) == builder_binds(*old(q)) + image_ranges_binds(*args),
{
    let ghost s0 = builder_sql(*q);
    let ghost b0 = builder_binds(*q);
    let ghost a = *args;
    push_range_i32(q, "size_", args.minsize, args.maxsize);
    push_range_i64(q, "timestamp_", args.after, args.before);
    let ghost s2 = builder_sql(*q);
    let ghost b2 = builder_binds(*q);
    push_range_i32(q, "width", args.minwidth, args.maxwidth);
    push_range_i32(q, "height", args.minheight, args.maxheight);
    push_range_i32(q, "width * height", args.minpixels, args.maxpixels);
    proof {
        let r1 = range_sql("size_"@, opt_i32(a.minsize), opt_i32(a.maxsize));
        let r2 = range_sql("timestamp_"@, opt_i64(a.after), opt_i64(a.before));
        let r3 = range_sql("width"@, opt_i32(a.minwidth), opt_i32(a.maxwidth));
        let r4 = range_sql("height"@, opt_i32(a.minheight), opt_i32(a.maxheight));
        let r5 = range_sql("width * height"@, opt_i32(a.minpixels), opt_i32(a.maxpixels));
        assert(s2 =~= s0 + (r1 + r2));
        assert(builder_sql(*q) =~= s0 + (r1 + r2 + r3 + r4 + r5));
        let d1 = range_binds(opt_i32(a.minsize), opt_i32(a.maxsize));
        let d2 = range_binds(opt_i64(a.after), opt_i64(a.before));
        let d3 = range_binds(opt_i32(a.minwidth), opt_i32(a.maxwidth));
        let d4 = range_binds(opt_i32(a.minheight), opt_i32(a.maxheight));
        let d5 = range_binds(opt_i32(a.minpixels), opt_i32(a.maxpixels));
        assert(b2 =~= b0 + (d1 + d2));
        assert(builder_binds(*q) =~= b0 + (d1 + d2 + d3 + d4 + d5));
    }
}

/// Appends the limit of the image search, where it is not negative.
fn push_image_limit(q: &mut SqlBuilder, l: Option<i32>)
    requires
        builder_open(*old(q)),
    ensures
        builder_open(*final(q)),
        builder_sql(*final(q)) == builder_sql(*old(q)) + image_limit_sql(l),
        builder_binds(*final(q)) == builder_binds(*old(q)) + limit_binds(l),
{
    let ghost s0 = builder_sql(*q);
    let ghost b0 = builder_binds(*q);
    match l {
        Some(lim) => {
            if lim >= 0 {
                sql_push(q, " LIMIT ");
                sql_bind_i32(q, lim);
            }
        },
        None => {},
    }
    assert(builder_sql(*q) =~= s0 + image_limit_sql(l));
    assert(builder_binds(*q) =~= b0 + limit_binds(l));
}

/// Builds the image search: images whose lower-cased title is `LIKE` the
/// search, kept by category, file type, size, time, width, height and pixel
/// count where those are given, ordered by title, with the limit where it
/// is not negative.
pub fn construct_images_query(args: &SearchArgs) -> (q: SqlBuilder)
    ensures
        builder_open(q),
        builder_sql(q) == images_query_sql(*args),
        builder_binds(q) == images_query_binds(*args),
{
    let mut q = sql_new("SELECT * FROM images ");
    sql_push(&mut q, "WHERE LOWER(title) LIKE ");
    sql_bind_text(&mut q, like_text(args.search.as_str()));
    push_image_category(&mut q, &args.in_category);
    push_ftype_filter(&mut q, &args.ftype);
    push_image_ranges(&mut q, args);
    sql_push(&mut q, " ORDER BY title");
    push_image_limit(&mut q, args.limit);
    assert(builder_sql(q) =~= images_query_sql(*args));
    assert(builder_binds(q) =~= images_query_binds(*args));
    q
}

/// Builds the category search: categories whose lower-cased title is `LIKE`
/// the search, kept to subcategories of a category where one is given,
/// ordered by title, with the limit where it is not negative.
pub fn construct_categories_query(args: &SearchArgs) -> (q: SqlBuilder)
    ensures
        builder_open(q),
        builder_sql(q) == categories_query_sql(*args),
        builder_binds(q) == categories_query_binds(*args),
{
    let mut q = sql_new("SELECT * FROM categories ");
    sql_push(&mut q, "WHERE LOWER(title) LIKE ");
    let mut pattern = like_text(args.search.as_str());
    pattern.append(" ");
    sql_bind_text(&mut q, pattern);
    match &args.in_category {
        Some(c) => {
            sql_push(
                &mut q,
                "
            AND EXISTS (
                SELECT 1
                FROM subcategories as sc
                JOIN categories AS c ON sc.parent_id = c.id
                WHERE categories.id = sc.child_id AND c.title = ?
        ) ",
            );
            sql_bind_text(&mut q, c.clone());
        },
        None => {},
    }
    sql_push(&mut q, "ORDER BY title");
    match args.limit {
        Some(lim) => {
            if lim >= 0 {
                sql_push(&mut q, " LIMIT ?");
                sql_bind_i32(&mut q, lim);
            }
        },
        None => {},
    }
    assert(builder_sql(q) =~= categories_query_sql(*args));
    assert(builder_binds(q) =~= categories_query_binds(*args));
    q
}

// ---------------------------------------------------------------------------
// the checks of a download
// ---------------------------------------------------------------------------

/// `n` rows of one placeholder each, `(?)`, separated by `, `.
pub open spec fn value_rows(n: nat) -> Seq<char>
    decreases n,
{
    if n == 0 {
        Seq::<char>::empty()
    } else if n == 1 {
        "(?)"@
    } else {
        value_rows((n - 1) as nat) + ", "@ + "(?)"@
    }
}

/// The ids that are not negative, in their order.
pub open spec fn nonnegative_ids(s: Seq<i32>) -> Seq<i32>
    decreases s.len(),
{
    if s.len() == 0 {
        Seq::<i32>::empty()
    } else if s.last() >= 0 {
        nonnegative_ids(s.drop_last()).push(s.last())
    } else {
        nonnegative_ids(s.drop_last())
    }
}

/// The ids kept for checking are exactly the ids that are not negative, in
/// their order: every kept id is not negative, and every id of the input
/// that is not negative is kept.
pub proof fn law_checked_ids_are_the_nonnegative_ones(s: Seq<i32>)
    ensures
        nonnegative_ids(s) == s.filter(|x: i32| x >= 0),
        forall|i: int| 0 <= i < nonnegative_ids(s).len() ==> #[trigger] nonnegative_ids(s)[i] >= 0,
        forall|i: int| 0 <= i < s.len() && s[i] >= 0 ==> nonnegative_ids(s).contains(#[trigger] s[i]),
    decreases s.len(),
{
    broadcast use vstd::seq_lib::group_filter_ensures;
    let f = |x: i32| x >= 0;
    reveal(Seq::filter);
    if s.len() > 0 {
        law_checked_ids_are_the_nonnegative_ones(s.drop_last());
        assert(s.filter(f) == if f(s.last()) {
            s.drop_last().filter(f).push(s.last())
        } else {
            s.drop_last().filter(f)
        });
    } else {
        assert(s.filter(f) == s);
    }
    assert(nonnegative_ids(s) == s.filter(f));
}

/// The category search binds, in this order: the search pattern followed by
/// a space, the category where one is given, the limit where it is not
/// negative; and nothing else.
pub proof fn law_category_search_binds(a: SearchArgs)
    ensures
        categories_query_binds(a)[0] == Bound::Text(like_pattern(a.search@) + " "@),
        a.in_category matches Some(c) ==> categories_query_binds(a)[1] == Bound::Text(c@),
        a.limit is Some && a.limit->0 >= 0 ==> categories_query_binds(a).last() == Bound::Integer(
            a.limit->0 as int,
        ),
        categories_query_binds(a).len() == 1 + (if a.in_category is Some { 1int } else { 0 }) + (if a.limit is Some
            && a.limit->0 >= 0 { 1int } else { 0 }),
{
}

/// The statement that fills the temporary table of titles to check.
pub open spec fn titles_insert_sql(n: nat) -> Seq<char> {
    "INSERT OR IGNORE INTO temp_titles(title) "@ + "VALUES "@ + value_rows(n)
}

/// The statement that fills the temporary table of ids to check.
pub open spec fn ids_insert_sql(n: nat) -> Seq<char> {
    "INSERT OR IGNORE INTO temp_ids(id) "@ + "VALUES "@ + value_rows(n)
}

/// The query for the images of a category.
pub open spec fn category_images_sql() -> Seq<char> {
    "SELECT * FROM images WHERE EXISTS (
        SELECT 1
        FROM image_categories AS ic
        JOIN categories ON categories.id = ic.category_id
        WHERE ic.image_id = images.id AND categories.title = "@ + "?"@ + " )"@
}

/// Appends one row `(?)` binding `v`, after `, ` unless it is the first.
fn push_text_row(q: &mut SqlBuilder, v: String, first: bool)
    requires
        builder_open(*old(q)),
    ensures
        builder_open(*final(q)),
        builder_sql(*final(q)) == builder_sql(*old(q)) + (if first {
            Seq::<char>::empty()
        } else {
            ", "@
        }) + "("@ + "?"@ + ")"@,
        builder_binds(*final(q)) == builder_binds(*old(q)).push(Bound::Text(v@)),
{
    let ghost s0 = builder_sql(*q);
    if !first {
        sql_push(q, ", ");
    }
    sql_push(q, "(");
    sql_bind_text(q, v);
    sql_push(q, ")");
    assert(builder_sql(*q) =~= s0 + (if first {
        Seq::<char>::empty()
    } else {
        ", "@
    }) + "("@ + "?"@ + ")"@);
}

/// Appends one row `(?)` binding `v`, after `, ` unless it is the first.
fn push_integer_row(q: &mut SqlBuilder, v: i32, first: bool)
    requires
        builder_open(*old(q)),
    ensures
        builder_open(*final(q)),
        builder_sql(*final(q)) == builder_sql(*old(q)) + (if first {
            Seq::<char>::empty()
        } else {
            ", "@
        }) + "("@ + "?"@ + ")"@,
        builder_binds(*final(q)) == builder_binds(*old(q)).push(Bound::Integer(v as int)),
{
    let ghost s0 = builder_sql(*q);
    if !first {
        sql_push(q, ", ");
    }
    sql_push(q, "(");
    sql_bind_i32(q, v);
    sql_push(q, ")");
    assert(builder_sql(*q) =~= s0 + (if first {
        Seq::<char>::empty()
    } else {
        ", "@
    }) + "("@ + "?"@ + ")"@);
}

/// One more row extends the rows by `, (?)`, or is `(?)` alone.
proof fn lemma_value_rows_step(n: nat)
    ensures
        value_rows(n + 1) =~= value_rows(n) + (if n == 0 {
            Seq::<char>::empty()
        } else {
            ", "@
        }) + "("@ + "?"@ + ")"@,
{
    reveal_strlit("(?)");
    reveal_strlit("(");
    reveal_strlit("?");
    reveal_strlit(")");
    assert(value_rows(1) == "(?)"@);
}

/// Builds the statement that stores the titles to check in `temp_titles`:
/// one row per title, in order.
pub fn construct_titles_insert(titles: &Vec<String>) -> (q: SqlBuilder)
    ensures
        builder_open(q),
        builder_sql(q) == titles_insert_sql(titles@.len() as nat),
        builder_binds(q) == titles@.map_values(|t: String| Bound::Text(t@)),
{
    let mut q = sql_new("");
    sql_push(&mut q, "INSERT OR IGNORE INTO temp_titles(title) ");
    sql_push(&mut q, "VALUES ");
    let ghost s0 = builder_sql(q);
    let ghost all = titles@.map_values(|t: String| Bound::Text(t@));
    proof {
        reveal_strlit("");
        assert(builder_binds(q) =~= all.take(0));
    }
    let mut i: usize = 0;
    while i < titles.len()
        invariant
            0 <= i <= titles@.len(),
            all == titles@.map_values(|t: String| Bound::Text(t@)),
            builder_open(q),
            builder_sql(q) == s0 + value_rows(i as nat),
            builder_binds(q) == all.take(i as int),
        decreases titles@.len() - i,
    {
        push_text_row(&mut q, titles[i].clone(), i == 0);
        proof {
            lemma_value_rows_step(i as nat);
            assert(all.take(i + 1) =~= all.take(i as int).push(all[i as int]));
        }
        i = i + 1;
    }
    proof {
        assert(all.take(i as int) =~= all);
        assert(builder_sql(q) =~= titles_insert_sql(titles@.len() as nat));
    }
    q
}

/// Builds the statement that stores the ids to check in `temp_ids`: one
/// row per id that is not negative, in order; negative ids are left out.
pub fn construct_ids_insert(ids: &Vec<i32>) -> (q: SqlBuilder)
    ensures
        builder_open(q),
        builder_sql(q) == ids_insert_sql(nonnegative_ids(ids@).len()),
        builder_binds(q) == nonnegative_ids(ids@).map_values(|i: i32| Bound::Integer(i as int)),
{
    let mut q = sql_new("");
    sql_push(&mut q, "INSERT OR IGNORE INTO temp_ids(id) ");
    sql_push(&mut q, "VALUES ");
    let ghost s0 = builder_sql(q);
    proof {
        reveal_strlit("");
        assert(ids@.take(0) =~= Seq::<i32>::empty());
        assert(builder_binds(q) =~= nonnegative_ids(ids@.take(0)).map_values(|i: i32| Bound::Integer(i as int)));
    }
    let mut kept: usize = 0;
    let mut i: usize = 0;
    while i < ids.len()
        invariant
            0 <= i <= ids@.len(),
            kept == nonnegative_ids(ids@.take(i as int)).len(),
            kept <= i,
            builder_open(q),
            builder_sql(q) == s0 + value_rows(kept as nat),
            builder_binds(q) == nonnegative_ids(ids@.take(i as int)).map_values(|i: i32| Bound::Integer(i as int)),
        decreases ids@.len() - i,
    {
        let ghost before = nonnegative_ids(ids@.take(i as int));
        assert(ids@.take(i + 1).drop_last() =~= ids@.take(i as int));
        let id = ids[i];
        if id >= 0 {
            push_integer_row(&mut q, id, kept == 0);
            proof {
                lemma_value_rows_step(kept as nat);
                assert(nonnegative_ids(ids@.take(i + 1)) == before.push(id));
                assert(before.push(id).map_values(|i: i32| Bound::Integer(i as int)) =~= before.map_values(
                    |i: i32| Bound::Integer(i as int),
                ).push(Bound::Integer(id as int)));
            }
            kept = kept + 1;
        }
        i = i + 1;
    }
    assert(ids@.take(i as int) =~= ids@);
    q
}

/// Builds the query for the images of a category: every image filed under
/// the category of that title.
pub fn construct_category_images_query(category: &str) -> (q: SqlBuilder)
    ensures
        builder_open(q),
        builder_sql(q) == category_images_sql(),
        builder_binds(q) == seq![Bound::Text(category@)],
{
    let mut q = sql_new(
        "SELECT * FROM images WHERE EXISTS (
        SELECT 1
        FROM image_categories AS ic
        JOIN categories ON categories.id = ic.category_id
        WHERE ic.image_id = images.id AND categories.title = ",
    );
    sql_bind_text(&mut q, owned(category));
    sql_push(&mut q, " )");
    assert(builder_binds(q) =~= seq![Bound::Text(category@)]);
    q
}

// ---------------------------------------------------------------------------
// how results are shown
// ---------------------------------------------------------------------------

/// A number as written by `{}`.
pub open spec fn num(n: i64) -> Seq<char> {
    signed_decimal(n as int)
}

/// The line shown for a category: its title, its id, all of it, or (by
/// default) its title with its numbers of images and subcategories.
pub open spec fn category_line(r: CategoriesRow, d: Option<DetailLevel>) -> Seq<char> {
    match d {
        Some(dl) => if dl.titles {
            r.title@
        } else if dl.ids {
            num(r.id)
        } else if dl.detailed {
            pad_right(num(r.id), 5) + ", "@ + pad_right(r.title@, 30) + ", "@ + pad_right(num(r.files), 3)
                + ", "@ + pad_right(num(r.subcats), 3)
        } else {
            default_category_line(r)
        },
        None => default_category_line(r),
    }
}

/// The default line shown for a category.
pub open spec fn default_category_line(r: CategoriesRow) -> Seq<char> {
    pad_right(r.title@, 30) + ", images"@ + pad_right(num(r.files), 4) + ", subcategories"@
        + pad_right(num(r.subcats), 4)
}

/// The line shown for an image: its title, its id, all of it, or (by
/// default) its id, title, dimensions, size and file type.
pub open spec fn image_line(r: ImagesRow, d: Option<DetailLevel>) -> Seq<char> {
    match d {
        Some(dl) => if dl.titles {
            r.title@
        } else if dl.ids {
            num(r.id)
        } else if dl.detailed {
            pad_right(num(r.id), 5) + ", "@ + pad_right(r.title@, 30) + ", "@ + pad_right(num(r.width), 5)
                + ", "@ + pad_right(num(r.height), 5) + ", "@ + pad_right(num(r.size), 10) + ", "@
                + pad_right(ext_text(r.extension), 4) + ", "@ + r.url@
        } else {
            default_image_line(r)
        },
        None => default_image_line(r),
    }
}

/// The default line shown for an image.
pub open spec fn default_image_line(r: ImagesRow) -> Seq<char> {
    "("@ + pad_right(num(r.id), 8) + ") "@ + pad_right(r.title@, 30) + ", "@ + pad_right(num(r.width), 4)
        + "x"@ + pad_right(num(r.height), 4) + ", "@ + pad_right(num(r.size), 10) + "KiB, "@
        + pad_right(ext_text(r.extension), 5)
}

fn push_num(out: &mut String, n: i64, w: usize)
    ensures
        final(out)@ == old(out)@ + pad_right(num(n), w as nat),
{
    let t = signed_decimal_string(n);
    push_padded(out, t.as_str(), w);
}

fn default_category_text(r: &CategoriesRow) -> (s: String)
    ensures
        s@ == default_category_line(*r),
{
    let mut s = String::new();
    push_padded(&mut s, r.title.as_str(), 30);
    s.append(", images");
    push_num(&mut s, r.files, 4);
    s.append(", subcategories");
    push_num(&mut s, r.subcats, 4);
    assert(s@ =~= default_category_line(*r));
    s
}

/// The line shown for one category.
pub fn category_text(r: &CategoriesRow, d: &Option<DetailLevel>) -> (s: String)
    ensures
        s@ == category_line(*r, *d),
{
    match d {
        Some(dl) => {
            if dl.titles {
                owned(r.title.as_str())
            } else if dl.ids {
                signed_decimal_string(r.id)
            } else if dl.detailed {
                let mut s = String::new();
                push_num(&mut s, r.id, 5);
                s.append(", ");
                push_padded(&mut s, r.title.as_str(), 30);
                s.append(", ");
                push_num(&mut s, r.files, 3);
                s.append(", ");
                push_num(&mut s, r.subcats, 3);
                assert(s@ =~= category_line(*r, *d));
                s
            } else {
                default_category_text(r)
            }
        },
        None => default_category_text(r),
    }
}

fn default_image_text(r: &ImagesRow) -> (s: String)
    ensures
        s@ == default_image_line(*r),
{
    let mut s = owned("(");
    push_num(&mut s, r.id, 8);
    s.append(") ");
    push_padded(&mut s, r.title.as_str(), 30);
    s.append(", ");
    push_num(&mut s, r.width, 4);
    s.append("x");
    push_num(&mut s, r.height, 4);
    s.append(", ");
    push_num(&mut s, r.size, 10);
    s.append("KiB, ");
    let e = r.extension.to_text();
    push_padded(&mut s, e.as_str(), 5);
    assert(s@ =~= default_image_line(*r));
    s
}

/// The line shown for one image.
pub fn image_text(r: &ImagesRow, d: &Option<DetailLevel>) -> (s: String)
    ensures
        s@ == image_line(*r, *d),
{
    match d {
        Some(dl) => {
            if dl.titles {
                owned(r.title.as_str())
            } else if dl.ids {
                signed_decimal_string(r.id)
            } else if dl.detailed {
                let mut s = String::new();
                push_num(&mut s, r.id, 5);
                s.append(", ");
                push_padded(&mut s, r.title.as_str(), 30);
                s.append(", ");
                push_num(&mut s, r.width, 5);
                s.append(", ");
                push_num(&mut s, r.height, 5);
                s.append(", ");
                push_num(&mut s, r.size, 10);
                s.append(", ");
                let e = r.extension.to_text();
                push_padded(&mut s, e.as_str(), 4);
                s.append(", ");
                s.append(r.url.as_str());
                assert(s@ =~= image_line(*r, *d));
                s
            } else {
                default_image_text(r)
            }
        },
        None => default_image_text(r),
    }
}

/// The lines a search shows for its categories, one per row, in order.
pub fn category_lines(rows: &[CategoriesRow], d: &Option<DetailLevel>) -> (v: Vec<String>)
    ensures
        v@.len() == rows@.len(),
        forall|i: int| 0 <= i < rows@.len() ==> (#[trigger] v@[i])@ == category_line(rows@[i], *d),
{
    let mut v: Vec<String> = Vec::new();
    let mut i: usize = 0;
    while i < rows.len()
        invariant
            0 <= i <= rows@.len(),
            v@.len() == i,
            forall|j: int| 0 <= j < i ==> (#[trigger] v@[j])@ == category_line(rows@[j], *d),
        decreases rows@.len() - i,
    {
        v.push(category_text(&rows[i], d));
        i = i + 1;
    }
    v
}

/// The lines a search shows for its images, one per row, in order.
pub fn image_lines(rows: &[ImagesRow], d: &Option<DetailLevel>) -> (v: Vec<String>)
    ensures
        v@.len() == rows@.len(),
        forall|i: int| 0 <= i < rows@.len() ==> (#[trigger] v@[i])@ == image_line(rows@[i], *d),
{
    let mut v: Vec<String> = Vec::new();
    let mut i: usize = 0;
    while i < rows.len()
        invariant
            0 <= i <= rows@.len(),
            v@.len() == i,
            forall|j: int| 0 <= j < i ==> (#[trigger] v@[j])@ == image_line(rows@[j], *d),
        decreases rows@.len() - i,
    {
        v.push(image_text(&rows[i], d));
        i = i + 1;
    }
    v
}

/// The number of rows a database search returns at most: the limit given,
/// else 500.
pub fn fetch_limit(args: &SearchArgs) -> (r: i32)
    ensures
        r == match args.limit {
            Some(l) => l,
            None => 500i32,
        },
{
    match args.limit {
        Some(l) => l,
        None => 500,
    }
}

/// The pattern the database searches match titles with: the search
/// between `%` signs.
pub fn search_pattern(search: &str) -> (r: String)
    ensures
        r@ == "%"@ + search@ + "%"@,
{
    let mut s = owned("%");
    s.append(search);
    s.append("%");
    s
}

/// The rows a search found, or nothing where it found none.
pub fn found_rows<T>(rows: Vec<T>) -> (r: Option<Vec<T>>)
    ensures
        rows@.len() == 0 ==> r is None,
        rows@.len() > 0 ==> r == Some(rows),
{
    if rows.len() == 0 {
        None
    } else {
        Some(rows)
    }
}

} // verus!
