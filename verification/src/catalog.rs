//! The paginated, filtered product listing.
use vstd::prelude::*;
use crate::pricing::{discounted_price, percent_fits, price_after};
use crate::schema::Product;
use crate::sql::{params, push_bind, text_value, SqlParam, SqlQuery, SqlValue};
use crate::text::{chars_of, push_char};

verus! {

/// The query parameters of a product listing.
#[derive(Clone, Debug, PartialEq, Eq)]
pub struct ListProductsQuery {
    pub limit: i64,
    pub offset: i64,
    pub category_id: Option<String>,
    pub min_price: Option<i64>,
    pub max_price: Option<i64>,
    pub search: Option<String>,
}

/// The page size used when the client names none.
pub fn default_limit() -> (res: i64)
    ensures
        res == 20,
{
    20
}

/// The page size actually served for a requested one: at least 1, at most 100.
pub open spec fn clamp_limit(requested: int) -> int {
    if requested < 1 {
        1
    } else if requested > 100 {
        100
    } else {
        requested
    }
}

/// The page size served for `requested`.
pub fn page_limit(requested: i64) -> (res: i64)
    ensures
        res == clamp_limit(requested as int),
        1 <= res <= 100,
{
    let at_least_one = if requested < 1 { 1 } else { requested };
    if at_least_one > 100 { 100 } else { at_least_one }
}

/// The offset served for `requested`: negative offsets count as 0.
pub fn page_offset(requested: i64) -> (res: i64)
    ensures
        res == (if requested < 0 { 0 } else { requested as int }),
        res >= 0,
{
    if requested < 0 { 0 } else { requested }
}

/// Whether `c` has a meaning of its own in a `LIKE` pattern whose escape
/// character is the backslash.
pub open spec fn is_like_special(c: char) -> bool {
    c == '%' || c == '_' || c == '\\'
}

/// How the character `c` of a search text is written in a pattern.
pub open spec fn escape_char(c: char) -> Seq<char> {
    if is_like_special(c) {
        seq!['\\', c]
    } else {
        seq![c]
    }
}

/// `s` with every `%`, `_` and backslash preceded by a backslash.
pub open spec fn escape_like(s: Seq<char>) -> Seq<char>
    decreases s.len(),
{
    if s.len() == 0 {
        Seq::empty()
    } else {
        escape_char(s[0]) + escape_like(s.drop_first())
    }
}

proof fn lemma_escape_push(s: Seq<char>, c: char)
    ensures
        escape_like(s.push(c)) == escape_like(s) + escape_char(c),
    decreases s.len(),
{
    if s.len() == 0 {
        assert(s.push(c).drop_first() =~= Seq::<char>::empty());
        assert(escape_like(s.push(c).drop_first()) == Seq::<char>::empty());
        assert(s.push(c)[0] == c);
        assert(escape_like(s) == Seq::<char>::empty());
        assert(escape_like(s.push(c)) =~= escape_char(c));
    } else {
        lemma_escape_push(s.drop_first(), c);
        assert(s.push(c).drop_first() =~= s.drop_first().push(c));
        assert(escape_like(s.push(c)) =~= escape_like(s) + escape_char(c));
    }
}

/// The text a `LIKE` pattern (escape character the backslash) matches
/// literally, or `None` where it holds an unescaped wildcard or ends in a
/// lone backslash.
pub open spec fn like_literal(p: Seq<char>) -> Option<Seq<char>>
    decreases p.len(),
{
    if p.len() == 0 {
        Some(Seq::empty())
    } else if p[0] == '\\' {
        if p.len() >= 2 {
            match like_literal(p.skip(2)) {
                Some(rest) => Some(seq![p[1]] + rest),
                None => None,
            }
        } else {
            None
        }
    } else if p[0] == '%' || p[0] == '_' {
        None
    } else {
        match like_literal(p.drop_first()) {
            Some(rest) => Some(seq![p[0]] + rest),
            None => None,
        }
    }
}

/// Law: the escaped search text stands for the search text itself: read as
/// a `LIKE` pattern with the backslash as escape character it holds no
/// wildcard and matches exactly the characters searched for.
pub proof fn law_escaped_search_is_literal(s: Seq<char>)
    ensures
        like_literal(escape_like(s)) == Some(s),
    decreases s.len(),
{
    if s.len() > 0 {
        law_escaped_search_is_literal(s.drop_first());
        let c = s[0];
        let e = escape_like(s);
        let tail = escape_like(s.drop_first());
        assert(e == escape_char(c) + tail);
        if is_like_special(c) {
            assert(e[0] == '\\');
            assert(e[1] == c);
            assert(e.skip(2) =~= tail);
        } else {
            assert(e[0] == c);
            assert(e.drop_first() =~= tail);
        }
        assert(seq![c] + s.drop_first() =~= s);
    }
}

/// The `LIKE` pattern that matches texts containing `search`.
pub open spec fn like_pattern_of(search: Seq<char>) -> Seq<char> {
    seq!['%'] + escape_like(search) + seq!['%']
}

/// The `LIKE` pattern for a search text: the text with its wildcards and
/// backslashes escaped, between two `%`.
pub fn like_pattern(search: &str) -> (res: String)
    ensures
        res@ == like_pattern_of(search@),
{
    let chars = chars_of(search);
    let mut res = String::new();
    push_char(&mut res, '%');
    let mut i: usize = 0;
    while i < chars.len()
        invariant
            i <= chars.len(),
            chars@ == search@,
            res@ == seq!['%'] + escape_like(chars@.take(i as int)),
        decreases chars.len() - i,
    {
        let c = chars[i];
        proof {
            assert(chars@.take(i + 1) == chars@.take(i as int).push(c));
            lemma_escape_push(chars@.take(i as int), c);
        }
        let ghost before = res@;
        if c == '%' || c == '_' || c == '\\' {
            push_char(&mut res, '\\');
        }
        push_char(&mut res, c);
        assert(res@ =~= before + escape_char(c));
        i += 1;
    }
    assert(chars@.take(i as int) == search@);
    push_char(&mut res, '%');
    res
}

/// The filter conditions a listing query adds, in order.
pub open spec fn filter_sql(q: ListProductsQuery) -> Seq<char> {
    (if q.category_id is Some { " AND pc.category_id = ?"@ } else { Seq::empty() }) + (
    if q.min_price is Some { " AND p.price_cents >= ?"@ } else { Seq::empty() }) + (
    if q.max_price is Some { " AND p.price_cents <= ?"@ } else { Seq::empty() }) + (
    if q.search is Some { " AND (p.title LIKE ? ESCAPE '\\' OR p.description LIKE ? ESCAPE '\\')"@ } else { Seq::empty() })
}

/// The values bound to the filter conditions, in order.
pub open spec fn filter_params(q: ListProductsQuery) -> Seq<SqlParam> {
    (if q.category_id is Some { seq![SqlParam::Text(q.category_id->0@)] } else { Seq::empty() })
        + (if q.min_price is Some { seq![SqlParam::Int(q.min_price->0)] } else { Seq::empty() })
        + (if q.max_price is Some { seq![SqlParam::Int(q.max_price->0)] } else { Seq::empty() })
        + (if q.search is Some {
        seq![
            SqlParam::Text(like_pattern_of(q.search->0@)),
            SqlParam::Text(like_pattern_of(q.search->0@)),
        ]
    } else {
        Seq::empty()
    })
}

/// The head of the query for a page of active products.
pub open spec fn items_head() -> Seq<char> {
    "SELECT p.* FROM products p LEFT JOIN product_categories pc ON p.id = pc.product_id WHERE p.active = 1"@
}

/// The head of the query that counts the matching active products.
pub open spec fn count_head() -> Seq<char> {
    "SELECT COUNT(DISTINCT p.id) FROM products p LEFT JOIN product_categories pc ON p.id = pc.product_id WHERE p.active = 1"@
}

/// The tail of the page query: order by title, then the page window.
pub open spec fn items_tail() -> Seq<char> {
    " GROUP BY p.id ORDER BY p.title LIMIT ? OFFSET ?"@
}

/// Appends the filter conditions of `q` to `sql` and their values to `binds`.
fn push_filters(q: &ListProductsQuery, sql: &mut String, binds: &mut Vec<SqlValue>)
    ensures
        final(sql)@ == old(sql)@ + filter_sql(*q),
        params(final(binds)@) == params(old(binds)@) + filter_params(*q),
{
    let ghost sql0 = sql@;
    let ghost binds0 = params(binds@);
    if let Some(category_id) = &q.category_id {
        sql.append(" AND pc.category_id = ?");
        push_bind(binds, text_value(category_id));
    }
    assert(sql@ == sql0 + (if q.category_id is Some { " AND pc.category_id = ?"@ } else { Seq::empty() }));
    let ghost sql1 = sql@;
    let ghost binds1 = params(binds@);
    if let Some(min_price) = q.min_price {
        sql.append(" AND p.price_cents >= ?");
        push_bind(binds, SqlValue::Int(min_price));
    }
    let ghost sql2 = sql@;
    let ghost binds2 = params(binds@);
    if let Some(max_price) = q.max_price {
        sql.append(" AND p.price_cents <= ?");
        push_bind(binds, SqlValue::Int(max_price));
    }
    let ghost sql3 = sql@;
    let ghost binds3 = params(binds@);
    if let Some(search) = &q.search {
        let pattern = like_pattern(search.as_str());
        sql.append(" AND (p.title LIKE ? ESCAPE '\\' OR p.description LIKE ? ESCAPE '\\')");
        push_bind(binds, text_value(&pattern));
        push_bind(binds, text_value(&pattern));
    }
    assert(sql@ =~= sql0 + filter_sql(*q));
    assert(params(binds@) =~= binds0 + filter_params(*q));
}

/// The two statements behind a listing page.
#[derive(Clone, Debug, PartialEq, Eq)]
pub struct ProductQueries {
    /// The page of products.
    pub items: SqlQuery,
    /// The number of all matching products.
    pub count: SqlQuery,
}

/// The page query and the count query for the filters of `q`, the page
/// being `limit` products from `offset` on.
pub fn product_queries(q: &ListProductsQuery, limit: i64, offset: i64) -> (res: ProductQueries)
    ensures
        res.items.sql@ == items_head() + filter_sql(*q) + items_tail(),
        params(res.items.binds@) == filter_params(*q) + seq![
            SqlParam::Int(limit),
            SqlParam::Int(offset),
        ],
        res.count.sql@ == count_head() + filter_sql(*q),
        params(res.count.binds@) == filter_params(*q),
{
    let mut items_sql = String::from_str(
        "SELECT p.* FROM products p LEFT JOIN product_categories pc ON p.id = pc.product_id WHERE p.active = 1",
    );
    let mut items_binds: Vec<SqlValue> = Vec::new();
    let mut count_sql = String::from_str(
        "SELECT COUNT(DISTINCT p.id) FROM products p LEFT JOIN product_categories pc ON p.id = pc.product_id WHERE p.active = 1",
    );
    let mut count_binds: Vec<SqlValue> = Vec::new();
    assert(params(items_binds@) =~= Seq::<SqlParam>::empty());
    push_filters(q, &mut items_sql, &mut items_binds);
    push_filters(q, &mut count_sql, &mut count_binds);
    items_sql.append(" GROUP BY p.id ORDER BY p.title LIMIT ? OFFSET ?");
    push_bind(&mut items_binds, SqlValue::Int(limit));
    push_bind(&mut items_binds, SqlValue::Int(offset));
    assert(params(items_binds@) =~= filter_params(*q) + seq![
        SqlParam::Int(limit),
        SqlParam::Int(offset),
    ]);
    ProductQueries {
        items: SqlQuery { sql: items_sql, binds: items_binds },
        count: SqlQuery { sql: count_sql, binds: count_binds },
    }
}

/// The page window and the statements of a listing request.
#[derive(Clone, Debug, PartialEq, Eq)]
pub struct ProductListing {
    pub limit: i64,
    pub offset: i64,
    pub queries: ProductQueries,
}

/// Plans a listing request: clamps the page window and builds the page
/// query and the count query.
pub fn list_products(q: &ListProductsQuery) -> (res: ProductListing)
    ensures
        res.limit == clamp_limit(q.limit as int),
        res.offset == (if q.offset < 0 { 0 } else { q.offset as int }),
        res.queries.items.sql@ == items_head() + filter_sql(*q) + items_tail(),
        params(res.queries.items.binds@) == filter_params(*q) + seq![
            SqlParam::Int(res.limit),
            SqlParam::Int(res.offset),
        ],
        res.queries.count.sql@ == count_head() + filter_sql(*q),
        params(res.queries.count.binds@) == filter_params(*q),
{
    let limit = page_limit(q.limit);
    let offset = page_offset(q.offset);
    let queries = product_queries(q, limit, offset);
    ProductListing { limit, offset, queries }
}

/// Whether products remain after the page that starts at `offset` and
/// holds `limit` products, out of `total`.
pub fn has_more(offset: i64, limit: i64, total: i64) -> (res: bool)
    requires
        i64::MIN <= offset + limit <= i64::MAX,
    ensures
        res == (offset + limit < total),
{
    offset + limit < total
}

/// `p` with its price set to `price_cents`.
pub open spec fn with_price(p: Product, price_cents: int) -> Product {
    Product { price_cents: price_cents as i64, ..p }
}

/// Whether the best percentages `percents` can be taken off the prices of
/// `items` within `i64`.
pub open spec fn listing_discounts_fit(items: Seq<Product>, percents: Seq<i64>) -> bool {
    forall|k: int|
        0 <= k < items.len() && percents[k] > 0 ==> percent_fits(
            #[trigger] items[k].price_cents as int,
            percents[k] as int,
        )
}

/// Charges every product of a page its best discount: the `k`-th product
/// gets the `k`-th percentage, where it is positive.
pub fn apply_listing_discounts(items: Vec<Product>, percents: &Vec<i64>) -> (res: Vec<Product>)
    requires
        items@.len() == percents@.len(),
        listing_discounts_fit(items@, percents@),
    ensures
        res@.len() == items@.len(),
        forall|k: int|
            0 <= k < res@.len() ==> #[trigger] res@[k] == with_price(
                items@[k],
                price_after(items@[k].price_cents as int, percents@[k] as int),
            ),
{
    let ghost before = items@;
    assert(before.len() == items.len());
    let mut res: Vec<Product> = Vec::new();
    let mut i: usize = 0;
    for p in it: items
        invariant
            it.seq() == before,
            before.len() <= usize::MAX,
            i == it.index(),
            before.len() == percents@.len(),
            listing_discounts_fit(before, percents@),
            res@.len() == i,
            forall|k: int|
                0 <= k < i ==> #[trigger] res@[k] == with_price(
                    before[k],
                    price_after(before[k].price_cents as int, percents@[k] as int),
                ),
    {
        let mut p = p;
        assert(p == before[i as int]);
        let price = discounted_price(p.price_cents, percents[i]);
        p.price_cents = price;
        res.push(p);
        i += 1;
    }
    res
}

/// One page of the catalogue.
#[derive(Clone, Debug, PartialEq, Eq)]
pub struct PaginatedProducts {
    pub items: Vec<Product>,
    pub total: i64,
    pub limit: i64,
    pub offset: i64,
    pub has_more: bool,
}

/// Answers a listing request from the fetched page, the best percentage of
/// each product on it, and the number of all matching products.
pub fn paginate(items: Vec<Product>, percents: &Vec<i64>, total: i64, limit: i64, offset: i64) -> (res:
    PaginatedProducts)
    requires
        items@.len() == percents@.len(),
        listing_discounts_fit(items@, percents@),
        i64::MIN <= offset + limit <= i64::MAX,
    ensures
        res.items@.len() == items@.len(),
        forall|k: int|
            0 <= k < res.items@.len() ==> #[trigger] res.items@[k] == with_price(
                items@[k],
                price_after(items@[k].price_cents as int, percents@[k] as int),
            ),
        res.total == total,
        res.limit == limit,
        res.offset == offset,
        res.has_more == (offset + limit < total),
{
    let items = apply_listing_discounts(items, percents);
    let more = has_more(offset, limit, total);
    PaginatedProducts { items, total, limit, offset, has_more: more }
}

/// Whether `part` occurs in `s` as a contiguous piece.
pub open spec fn occurs_in(part: Seq<char>, s: Seq<char>) -> bool {
    exists|i: int| 0 <= i && i + part.len() <= s.len() && #[trigger] s.subrange(i, i + part.len()) == part
}

proof fn lemma_occurs_in_middle(a: Seq<char>, b: Seq<char>, c: Seq<char>)
    ensures
        occurs_in(b, a + b + c),
{
    let s = a + b + c;
    assert(s.subrange(a.len() as int, (a.len() + b.len()) as int) =~= b);
}

/// Law: each filter of a listing is added exactly where its own parameter
/// is given: its condition occurs in the filter text and its value among the
/// bound values, whatever the other parameters are; and there are exactly as
/// many bound values as the given filters take (the search takes two).
pub proof fn law_each_filter_from_its_parameter(q: ListProductsQuery)
    ensures
        q.category_id is Some ==> occurs_in(" AND pc.category_id = ?"@, filter_sql(q))
            && filter_params(q).contains(SqlParam::Text(q.category_id->0@)),
        q.min_price is Some ==> occurs_in(" AND p.price_cents >= ?"@, filter_sql(q))
            && filter_params(q).contains(SqlParam::Int(q.min_price->0)),
        q.max_price is Some ==> occurs_in(" AND p.price_cents <= ?"@, filter_sql(q))
            && filter_params(q).contains(SqlParam::Int(q.max_price->0)),
        q.search is Some ==> occurs_in(" AND (p.title LIKE ? ESCAPE '\\' OR p.description LIKE ? ESCAPE '\\')"@, filter_sql(q))
            && filter_params(q).contains(SqlParam::Text(like_pattern_of(q.search->0@))),
        filter_params(q).len() == (if q.category_id is Some { 1int } else { 0int }) + (
        if q.min_price is Some { 1int } else { 0int }) + (if q.max_price is Some { 1int } else { 0int }) + (
        if q.search is Some { 2int } else { 0int }),
        q.category_id is None && q.min_price is None && q.max_price is None && q.search is None ==> filter_sql(q).len() == 0,
{
    let a: Seq<char> = if q.category_id is Some { " AND pc.category_id = ?"@ } else { Seq::empty() };
    let b: Seq<char> = if q.min_price is Some { " AND p.price_cents >= ?"@ } else { Seq::empty() };
    let c: Seq<char> = if q.max_price is Some { " AND p.price_cents <= ?"@ } else { Seq::empty() };
    let d: Seq<char> = if q.search is Some { " AND (p.title LIKE ? ESCAPE '\\' OR p.description LIKE ? ESCAPE '\\')"@ } else { Seq::empty() };
    assert(filter_sql(q) == a + b + c + d);
    lemma_occurs_in_middle(Seq::empty(), a, b + c + d);
    assert(Seq::<char>::empty() + a + (b + c + d) =~= filter_sql(q));
    lemma_occurs_in_middle(a, b, c + d);
    assert(a + b + (c + d) =~= filter_sql(q));
    lemma_occurs_in_middle(a + b, c, d);
    lemma_occurs_in_middle(a + b + c, d, Seq::empty());
    assert(a + b + c + d + Seq::<char>::empty() =~= filter_sql(q));
    let pa: Seq<SqlParam> = if q.category_id is Some { seq![SqlParam::Text(q.category_id->0@)] } else { Seq::empty() };
    let pb: Seq<SqlParam> = if q.min_price is Some { seq![SqlParam::Int(q.min_price->0)] } else { Seq::empty() };
    let pc: Seq<SqlParam> = if q.max_price is Some { seq![SqlParam::Int(q.max_price->0)] } else { Seq::empty() };
    let pd: Seq<SqlParam> = if q.search is Some {
        seq![SqlParam::Text(like_pattern_of(q.search->0@)), SqlParam::Text(like_pattern_of(q.search->0@))]
    } else {
        Seq::empty()
    };
    let ps = filter_params(q);
    assert(ps == pa + pb + pc + pd);
    if q.category_id is Some {
        assert(ps[0] == SqlParam::Text(q.category_id->0@));
    }
    if q.min_price is Some {
        assert(ps[pa.len() as int] == SqlParam::Int(q.min_price->0));
    }
    if q.max_price is Some {
        assert(ps[(pa.len() + pb.len()) as int] == SqlParam::Int(q.max_price->0));
    }
    if q.search is Some {
        assert(ps[(pa.len() + pb.len() + pc.len()) as int] == SqlParam::Text(like_pattern_of(q.search->0@)));
    }
}

/// Law: the page served holds between 1 and 100 products, and a requested
/// size in that range is served as asked.
pub proof fn law_page_size_in_range(requested: int)
    ensures
        1 <= clamp_limit(requested) <= 100,
        1 <= requested <= 100 ==> clamp_limit(requested) == requested,
        requested < 1 ==> clamp_limit(requested) == 1,
        requested > 100 ==> clamp_limit(requested) == 100,
{
}

/// Law: charging a discount on a listed product changes its price and
/// nothing else.
pub proof fn law_listing_changes_only_price(p: Product, price_cents: int)
    requires
        i64::MIN <= price_cents <= i64::MAX,
    ensures
        with_price(p, price_cents).price_cents == price_cents,
        with_price(p, price_cents).id == p.id,
        with_price(p, price_cents).sku == p.sku,
        with_price(p, price_cents).title == p.title,
        with_price(p, price_cents).description == p.description,
        with_price(p, price_cents).currency == p.currency,
        with_price(p, price_cents).active == p.active,
        with_price(p, price_cents).images == p.images,
        with_price(p, price_cents).created_at == p.created_at,
        with_price(p, price_cents).updated_at == p.updated_at,
{
}

} // verus!
