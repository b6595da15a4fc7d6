//! The generic table editor: which tables and columns it serves, how a row
//! key is written in a URL, and the statements that read and write rows.
use vstd::prelude::*;
use crate::error::{ApiError, STATUS_BAD_REQUEST, STATUS_NOT_FOUND};
use crate::ids::{new_uuid, uuid_text, hyphenated, UUID_V4_BITS, UUID_V4_MASK};
use crate::sql::{params, push_bind, text_value, SqlParam, SqlQuery, SqlValue};
use crate::text::{join, join_strings, lemma_split_nonempty, split_commas, split_commas_trimmed, text_eq, trim, views};

verus! {

/// Copies string slices into owned strings.
pub fn strings(items: &[&str]) -> (res: Vec<String>)
    ensures
        views(res@) == items@.map_values(|s: &str| s@),
{
    let mut res: Vec<String> = Vec::new();
    let mut i: usize = 0;
    while i < items.len()
        invariant
            i <= items.len(),
            views(res@) == items@.take(i as int).map_values(|s: &str| s@),
        decreases items.len() - i,
    {
        let ghost before = res@;
        let item = String::from_str(items[i]);
        res.push(item);
        assert(views(res@) =~= views(before).push(items@[i as int]@));
        assert(items@.take(i + 1).map_values(|s: &str| s@) =~= items@.take(i as int).map_values(
            |s: &str| s@,
        ).push(items@[i as int]@));
        i += 1;
    }
    assert(items@.take(i as int) == items@);
    res
}

/// A table as the editor sees it: its name, its columns, and the columns
/// of its primary key.
#[verifier::ext_equal]
pub struct TableSpec {
    pub name: Seq<char>,
    pub columns: Seq<Seq<char>>,
    pub pk: Seq<Seq<char>>,
}

/// The metadata of a table the editor serves.
#[derive(Clone, Debug, PartialEq, Eq)]
pub struct TableMeta {
    pub name: String,
    pub columns: Vec<String>,
    pub pk: Vec<String>,
}

impl View for TableMeta {
    type V = TableSpec;

    open spec fn view(&self) -> TableSpec {
        TableSpec { name: self.name@, columns: views(self.columns@), pk: views(self.pk@) }
    }
}

/// The tables the editor serves, in the order it lists them.
pub open spec fn table_catalog() -> Seq<TableSpec> {
    seq![
        TableSpec {
            name: "users"@,
            columns: seq!["id"@, "email"@, "password_hash"@, "full_name"@, "phone"@, "is_active"@, "created_at"@, "updated_at"@],
            pk: seq!["id"@],
        },
        TableSpec {
            name: "addresses"@,
            columns: seq!["id"@, "user_id"@, "label"@, "line1"@, "line2"@, "city"@, "region"@, "postal_code"@, "country"@, "is_default"@, "created_at"@, "updated_at"@],
            pk: seq!["id"@],
        },
        TableSpec {
            name: "categories"@,
            columns: seq!["id"@, "slug"@, "name"@, "description"@, "created_at"@, "updated_at"@],
            pk: seq!["id"@],
        },
        TableSpec {
            name: "products"@,
            columns: seq!["id"@, "sku"@, "title"@, "description"@, "price_cents"@, "currency"@, "active"@, "images"@, "created_at"@, "updated_at"@],
            pk: seq!["id"@],
        },
        TableSpec {
            name: "discounts"@,
            columns: seq!["id"@, "name"@, "percent"@, "category_id"@, "min_price_cents"@, "max_price_cents"@, "active"@, "created_at"@, "updated_at"@],
            pk: seq!["id"@],
        },
        TableSpec {
            name: "product_categories"@,
            columns: seq!["product_id"@, "category_id"@],
            pk: seq!["product_id"@, "category_id"@],
        },
        TableSpec {
            name: "inventory"@,
            columns: seq!["product_id"@, "quantity"@, "reserved"@, "updated_at"@],
            pk: seq!["product_id"@],
        },
        TableSpec {
            name: "carts"@,
            columns: seq!["id"@, "user_id"@, "created_at"@, "updated_at"@],
            pk: seq!["id"@],
        },
        TableSpec {
            name: "cart_items"@,
            columns: seq!["cart_id"@, "product_id"@, "quantity"@, "added_at"@],
            pk: seq!["cart_id"@, "product_id"@],
        },
        TableSpec {
            name: "orders"@,
            columns: seq!["id"@, "user_id"@, "shipping_address_id"@, "billing_address_id"@, "status"@, "total_cents"@, "currency"@, "placed_at"@, "fulfilled_at"@, "canceled_at"@, "created_at"@, "updated_at"@],
            pk: seq!["id"@],
        },
        TableSpec {
            name: "order_items"@,
            columns: seq!["id"@, "order_id"@, "product_id"@, "quantity"@, "unit_price_cents"@, "subtotal_cents"@],
            pk: seq!["id"@],
        },
        TableSpec {
            name: "payments"@,
            columns: seq!["id"@, "order_id"@, "method"@, "provider"@, "provider_transaction_id"@, "amount_cents"@, "status"@, "paid_at"@, "created_at"@, "updated_at"@],
            pk: seq!["id"@],
        },
    ]
}

fn meta(name: &str, columns: &[&str], pk: &[&str]) -> (res: TableMeta)
    ensures
        res@ == (TableSpec {
            name: name@,
            columns: columns@.map_values(|s: &str| s@),
            pk: pk@.map_values(|s: &str| s@),
        }),
{
    TableMeta { name: String::from_str(name), columns: strings(columns), pk: strings(pk) }
}

/// The metadata of every table the editor serves, in order.
pub fn table_metadata() -> (res: Vec<TableMeta>)
    ensures
        res@.map_values(|m: TableMeta| m@) == table_catalog(),
{
    let mut res: Vec<TableMeta> = Vec::new();
    let m0 = meta("users", &["id", "email", "password_hash", "full_name", "phone", "is_active", "created_at", "updated_at"], &["id"]);
    assert(m0@ =~~= table_catalog()[0]);
    res.push(m0);
    let m1 = meta("addresses", &["id", "user_id", "label", "line1", "line2", "city", "region", "postal_code", "country", "is_default", "created_at", "updated_at"], &["id"]);
    assert(m1@ =~~= table_catalog()[1]);
    res.push(m1);
    let m2 = meta("categories", &["id", "slug", "name", "description", "created_at", "updated_at"], &["id"]);
    assert(m2@ =~~= table_catalog()[2]);
    res.push(m2);
    let m3 = meta("products", &["id", "sku", "title", "description", "price_cents", "currency", "active", "images", "created_at", "updated_at"], &["id"]);
    assert(m3@ =~~= table_catalog()[3]);
    res.push(m3);
    let m4 = meta("discounts", &["id", "name", "percent", "category_id", "min_price_cents", "max_price_cents", "active", "created_at", "updated_at"], &["id"]);
    assert(m4@ =~~= table_catalog()[4]);
    res.push(m4);
    let m5 = meta("product_categories", &["product_id", "category_id"], &["product_id", "category_id"]);
    assert(m5@ =~~= table_catalog()[5]);
    res.push(m5);
    let m6 = meta("inventory", &["product_id", "quantity", "reserved", "updated_at"], &["product_id"]);
    assert(m6@ =~~= table_catalog()[6]);
    res.push(m6);
    let m7 = meta("carts", &["id", "user_id", "created_at", "updated_at"], &["id"]);
    assert(m7@ =~~= table_catalog()[7]);
    res.push(m7);
    let m8 = meta("cart_items", &["cart_id", "product_id", "quantity", "added_at"], &["cart_id", "product_id"]);
    assert(m8@ =~~= table_catalog()[8]);
    res.push(m8);
    let m9 = meta("orders", &["id", "user_id", "shipping_address_id", "billing_address_id", "status", "total_cents", "currency", "placed_at", "fulfilled_at", "canceled_at", "created_at", "updated_at"], &["id"]);
    assert(m9@ =~~= table_catalog()[9]);
    res.push(m9);
    let m10 = meta("order_items", &["id", "order_id", "product_id", "quantity", "unit_price_cents", "subtotal_cents"], &["id"]);
    assert(m10@ =~~= table_catalog()[10]);
    res.push(m10);
    let m11 = meta("payments", &["id", "order_id", "method", "provider", "provider_transaction_id", "amount_cents", "status", "paid_at", "created_at", "updated_at"], &["id"]);
    assert(m11@ =~~= table_catalog()[11]);
    res.push(m11);
    assert(res@.map_values(|m: TableMeta| m@) =~= table_catalog());
    res
}


/// The first table of `cat` named `name`.
pub open spec fn first_table(cat: Seq<TableSpec>, name: Seq<char>) -> Option<TableSpec>
    decreases cat.len(),
{
    if cat.len() == 0 {
        None
    } else if cat[0].name == name {
        Some(cat[0])
    } else {
        first_table(cat.drop_first(), name)
    }
}

/// The table the editor serves under `name`, if any.
pub open spec fn table_spec(name: Seq<char>) -> Option<TableSpec> {
    first_table(table_catalog(), name)
}

proof fn lemma_first_table_skip(cat: Seq<TableSpec>, name: Seq<char>, i: int)
    requires
        0 <= i <= cat.len(),
        forall|k: int| 0 <= k < i ==> #[trigger] cat[k].name != name,
    ensures
        first_table(cat, name) == first_table(cat.subrange(i, cat.len() as int), name),
    decreases i,
{
    if i > 0 {
        lemma_first_table_skip(cat.drop_first(), name, i - 1);
        assert(cat.drop_first().subrange(i - 1, cat.drop_first().len() as int) == cat.subrange(
            i,
            cat.len() as int,
        ));
    } else {
        assert(cat.subrange(0, cat.len() as int) == cat);
    }
}

/// Looks up the table the editor serves under `table`.
pub fn get_table_meta(table: &str) -> (res: Option<TableMeta>)
    ensures
        match res {
            Some(m) => table_spec(table@) == Some(m@),
            None => table_spec(table@) is None,
        },
{
    let mut metas = table_metadata();
    let ghost cat = table_catalog();
    let mut i: usize = 0;
    while i < metas.len()
        invariant
            i <= metas.len(),
            metas@.map_values(|m: TableMeta| m@) == cat,
            cat == table_catalog(),
            forall|k: int| 0 <= k < i ==> #[trigger] cat[k].name != table@,
        decreases metas.len() - i,
    {
        assert(cat[i as int] == metas@[i as int]@);
        if text_eq(metas[i].name.as_str(), table) {
            proof {
                lemma_first_table_skip(cat, table@, i as int);
            }
            let found = metas.swap_remove(i);
            return Some(found);
        }
        i += 1;
    }
    proof {
        lemma_first_table_skip(cat, table@, i as int);
    }
    None
}

/// Law: the key columns of every table the editor serves are among its columns.
pub proof fn law_key_columns_are_columns(name: Seq<char>)
    requires
        table_spec(name) is Some,
    ensures
        forall|k: int|
            0 <= k < table_spec(name)->0.pk.len() ==> table_spec(name)->0.columns.contains(
                #[trigger] table_spec(name)->0.pk[k],
            ),
{
    let cat = table_catalog();
    let t = table_spec(name)->0;
    assert(cat.len() == 12);
    reveal_with_fuel(first_table, 13);
    assert(exists|i: int| 0 <= i < 12 && t == cat[i]);
    assert forall|k: int| 0 <= k < t.pk.len() implies t.columns.contains(#[trigger] t.pk[k]) by {
        if t.pk.len() == 2 {
            assert(t.columns[0] == t.pk[0]);
            assert(t.columns[1] == t.pk[1] || t.columns[0] == t.pk[1]);
        } else {
            assert(t.columns[0] == t.pk[0]);
        }
    }
}

/// Refuses a table the editor does not serve.
pub fn require_table(table: &str) -> (res: Result<TableMeta, ApiError>)
    ensures
        match res {
            Ok(m) => table_spec(table@) == Some(m@),
            Err(e) => table_spec(table@) is None && e.status == STATUS_BAD_REQUEST && e.message@
                == "Unknown table"@,
        },
{
    match get_table_meta(table) {
        Some(m) => Ok(m),
        None => Err(ApiError::bad_request(String::from_str("Unknown table"))),
    }
}

/// The key values a URL names: the comma-separated pieces of `id`, each
/// trimmed of white space.
pub open spec fn key_pieces(id: Seq<char>) -> Seq<Seq<char>> {
    split_commas(id).map_values(|p: Seq<char>| trim(p))
}

/// Reads the key values of a row from the `id` of its URL: one value per
/// key column, or `None` where the number of pieces differs.
pub fn parse_pk_values(id: &str, meta: &TableMeta) -> (res: Option<Vec<String>>)
    ensures
        res is Some <==> key_pieces(id@).len() == meta.pk@.len(),
        res matches Some(v) ==> views(v@) == key_pieces(id@),
{
    let values = split_commas_trimmed(id);
    assert(views(values@) =~= key_pieces(id@));
    if values.len() != meta.pk.len() {
        return None;
    }
    Some(values)
}

/// Refuses a malformed row key.
pub fn require_pk_values(id: &str, meta: &TableMeta) -> (res: Result<Vec<String>, ApiError>)
    ensures
        res is Ok <==> key_pieces(id@).len() == meta.pk@.len(),
        res matches Ok(v) ==> views(v@) == key_pieces(id@),
        res matches Err(e) ==> e.status == STATUS_BAD_REQUEST && e.message@
            == "Invalid primary key format"@,
{
    match parse_pk_values(id, meta) {
        Some(v) => Ok(v),
        None => Err(ApiError::bad_request(String::from_str("Invalid primary key format"))),
    }
}

/// The text a key value read from a request body stands for: the value
/// where the body holds a string under the key column, empty otherwise.
pub open spec fn key_text(v: Option<Seq<char>>) -> Seq<char> {
    match v {
        Some(t) => t,
        None => Seq::empty(),
    }
}

/// The views of optional strings.
pub open spec fn option_views(v: Seq<Option<String>>) -> Seq<Option<Seq<char>>> {
    v.map_values(|o: Option<String>| match o {
        Some(s) => Some(s@),
        None => None,
    })
}

/// The key values of a created row, from the string the body holds under
/// each key column (`None` where it holds none): missing values are empty.
pub fn key_values_from_body(values: Vec<Option<String>>) -> (res: Vec<String>)
    ensures
        views(res@) == option_views(values@).map_values(|o: Option<Seq<char>>| key_text(o)),
{
    let ghost before = values@;
    assert(before.len() == values.len());
    let mut res: Vec<String> = Vec::new();
    let mut i: usize = 0;
    for v in it: values
        invariant
            it.seq() == before,
            before.len() <= usize::MAX,
            i == it.index(),
            views(res@) == option_views(before).take(i as int).map_values(
                |o: Option<Seq<char>>| key_text(o),
            ),
    {
        assert(v == before[i as int]);
        let ghost old_res = res@;
        let text = match v {
            Some(t) => t,
            None => String::new(),
        };
        res.push(text);
        assert(views(res@) =~= views(old_res).push(key_text(option_views(before)[i as int])));
        assert(option_views(before).take(i + 1).map_values(|o: Option<Seq<char>>| key_text(o))
            =~= option_views(before).take(i as int).map_values(|o: Option<Seq<char>>| key_text(o)).push(
            key_text(option_views(before)[i as int]),
        ));
        i += 1;
    }
    assert(option_views(before).take(i as int) =~= option_views(before));
    res
}

/// The `id` under which a row with the key values `values` is addressed:
/// the values joined with commas.
pub fn created_row_id(values: &Vec<String>) -> (res: String)
    ensures
        res@ == join(views(values@), seq![',']),
{
    proof {
        reveal_strlit(",");
        assert(","@ =~= seq![',']);
    }
    join_strings(values, ",")
}

proof fn lemma_split_append_plain(s: Seq<char>, t: Seq<char>)
    requires
        !t.contains(','),
    ensures
        split_commas(s + t) == split_commas(s).update(
            split_commas(s).len() - 1,
            split_commas(s).last() + t,
        ),
    decreases t.len(),
{
    lemma_split_nonempty(s);
    if t.len() == 0 {
        assert(s + t == s);
        assert(split_commas(s).last() + t == split_commas(s).last());
        assert(split_commas(s).update(split_commas(s).len() - 1, split_commas(s).last())
            =~= split_commas(s));
    } else {
        let c = t.last();
        assert(t[t.len() - 1] == c);
        assert((s + t).drop_last() == s + t.drop_last());
        assert((s + t).last() == c);
        assert(!t.drop_last().contains(',')) by {
            if t.drop_last().contains(',') {
                let k = choose|k: int| 0 <= k < t.drop_last().len() && t.drop_last()[k] == ',';
                assert(t[k] == ',');
            }
        }
        assert(c != ',');
        lemma_split_append_plain(s, t.drop_last());
        let prev = split_commas(s + t.drop_last());
        assert(prev.len() == split_commas(s).len());
        assert(prev.last() == split_commas(s).last() + t.drop_last());
        assert(split_commas(s + t) == prev.update(prev.len() - 1, prev.last().push(c)));
        assert((split_commas(s).last() + t.drop_last()).push(c) =~= split_commas(s).last() + t);
        assert(split_commas(s + t) =~= split_commas(s).update(
            split_commas(s).len() - 1,
            split_commas(s).last() + t,
        ));
    }
}

proof fn lemma_split_join(values: Seq<Seq<char>>)
    requires
        values.len() >= 1,
        forall|k: int| 0 <= k < values.len() ==> !(#[trigger] values[k]).contains(','),
    ensures
        split_commas(join(values, seq![','])) == values,
    decreases values.len(),
{
    if values.len() == 1 {
        lemma_split_append_plain(Seq::empty(), values[0]);
        assert(Seq::<char>::empty() + values[0] == values[0]);
        assert(split_commas(Seq::<char>::empty()) == seq![Seq::<char>::empty()]);
        assert(split_commas(values[0]) =~= values);
    } else {
        let init = values.drop_last();
        assert forall|k: int| 0 <= k < init.len() implies !(#[trigger] init[k]).contains(',') by {
            assert(init[k] == values[k]);
        }
        lemma_split_join(init);
        let head = join(init, seq![',']);
        let with_comma = head + seq![','];
        assert(with_comma.drop_last() == head);
        assert(split_commas(with_comma) == split_commas(head).push(Seq::empty()));
        lemma_split_append_plain(with_comma, values.last());
        assert(join(values, seq![',']) == with_comma + values.last());
        assert(Seq::<char>::empty() + values.last() == values.last());
        assert(split_commas(join(values, seq![','])) =~= values);
    }
}

/// Law: a row created with key values that hold no comma and no outer
/// white space is read back under the `id` its creation hands on: parsing
/// that `id` gives exactly those key values.
pub proof fn law_created_key_reads_back(values: Seq<Seq<char>>)
    requires
        values.len() >= 1,
        forall|k: int| 0 <= k < values.len() ==> !(#[trigger] values[k]).contains(','),
        forall|k: int| 0 <= k < values.len() ==> trim(#[trigger] values[k]) == values[k],
    ensures
        key_pieces(join(values, seq![','])) == values,
{
    lemma_split_join(values);
    assert(key_pieces(join(values, seq![','])) =~= values);
}

/// Whether `list` holds `s`.
pub fn contains_text(list: &Vec<String>, s: &str) -> (res: bool)
    ensures
        res == views(list@).contains(s@),
{
    let mut i: usize = 0;
    while i < list.len()
        invariant
            i <= list.len(),
            forall|k: int| 0 <= k < i ==> (#[trigger] views(list@)[k]) != s@,
        decreases list.len() - i,
    {
        if text_eq(list[i].as_str(), s) {
            assert(views(list@)[i as int] == s@);
            return true;
        }
        i += 1;
    }
    false
}

/// `" = ?"` after each of `columns`, joined with `sep`.
pub open spec fn assignments(columns: Seq<Seq<char>>, sep: Seq<char>) -> Seq<char> {
    join(columns.map_values(|c: Seq<char>| c + " = ?"@), sep)
}

/// `column = ?` for each of `columns`, joined with `sep`.
pub fn assignment_list(columns: &Vec<String>, sep: &str) -> (res: String)
    ensures
        res@ == assignments(views(columns@), sep@),
{
    let mut parts: Vec<String> = Vec::new();
    let mut i: usize = 0;
    while i < columns.len()
        invariant
            i <= columns.len(),
            views(parts@) == views(columns@).take(i as int).map_values(|c: Seq<char>| c + " = ?"@),
        decreases columns.len() - i,
    {
        let ghost before = parts@;
        let mut part = columns[i].clone();
        part.append(" = ?");
        parts.push(part);
        assert(views(parts@) =~= views(before).push(columns@[i as int]@ + " = ?"@));
        assert(views(columns@).take(i + 1).map_values(|c: Seq<char>| c + " = ?"@) =~= views(
            columns@,
        ).take(i as int).map_values(|c: Seq<char>| c + " = ?"@).push(columns@[i as int]@ + " = ?"@));
        i += 1;
    }
    assert(views(columns@).take(i as int) == views(columns@));
    join_strings(&parts, sep)
}

/// The condition that selects a row by its key columns.
pub open spec fn key_condition(pk: Seq<Seq<char>>) -> Seq<char> {
    assignments(pk, " AND "@)
}

/// The key values as bound values, in order.
pub open spec fn text_params(values: Seq<Seq<char>>) -> Seq<SqlParam> {
    values.map_values(|v: Seq<char>| SqlParam::Text(v))
}

/// Binds each of `values` as text.
fn text_binds(values: &Vec<String>) -> (res: Vec<SqlValue>)
    ensures
        params(res@) == text_params(views(values@)),
{
    let mut res: Vec<SqlValue> = Vec::new();
    let mut i: usize = 0;
    while i < values.len()
        invariant
            i <= values.len(),
            params(res@) == text_params(views(values@).take(i as int)),
        decreases values.len() - i,
    {
        push_bind(&mut res, text_value(&values[i]));
        assert(text_params(views(values@).take(i + 1)) =~= text_params(views(values@).take(i as int)).push(
            SqlParam::Text(values@[i as int]@),
        ));
        i += 1;
    }
    assert(views(values@).take(i as int) == views(values@));
    res
}

/// A statement on one table, with the table's metadata.
#[derive(Clone, Debug, PartialEq, Eq)]
pub struct TableQuery {
    pub meta: TableMeta,
    pub query: SqlQuery,
}

/// Plans listing every row of `table`.
pub fn list_table(table: &str) -> (res: Result<TableQuery, ApiError>)
    ensures
        match res {
            Ok(p) => {
                &&& table_spec(table@) == Some(p.meta@)
                &&& p.query.sql@ == "SELECT * FROM "@ + table@
                &&& p.query.binds@.len() == 0
            },
            Err(e) => table_spec(table@) is None && e.status == STATUS_BAD_REQUEST && e.message@
                == "Unknown table"@,
        },
{
    let meta = require_table(table)?;
    let mut sql = String::from_str("SELECT * FROM ");
    sql.append(table);
    Ok(TableQuery { meta, query: SqlQuery { sql, binds: Vec::new() } })
}

/// Builds `head`, the table name, `" WHERE "` and the key condition, bound
/// to the key values.
fn keyed_statement(head: &str, table: &str, meta: &TableMeta, values: &Vec<String>) -> (res: SqlQuery)
    ensures
        res.sql@ == head@ + table@ + " WHERE "@ + key_condition(meta@.pk),
        params(res.binds@) == text_params(views(values@)),
{
    let mut sql = String::from_str(head);
    sql.append(table);
    sql.append(" WHERE ");
    let condition = assignment_list(&meta.pk, " AND ");
    sql.append(condition.as_str());
    SqlQuery { sql, binds: text_binds(values) }
}

/// Whether `res` plans a statement `head ... WHERE <key condition>` on the
/// row of `table` that `id` names.
pub open spec fn keyed_plan(res: Result<TableQuery, ApiError>, head: Seq<char>, table: Seq<char>, id: Seq<char>) -> bool {
    match res {
        Ok(p) => {
            &&& table_spec(table) == Some(p.meta@)
            &&& key_pieces(id).len() == p.meta@.pk.len()
            &&& p.query.sql@ == head + table + " WHERE "@ + key_condition(p.meta@.pk)
            &&& params(p.query.binds@) == text_params(key_pieces(id))
        },
        Err(e) => {
            &&& e.status == STATUS_BAD_REQUEST
            &&& match table_spec(table) {
                None => e.message@ == "Unknown table"@,
                Some(t) => key_pieces(id).len() != t.pk.len() && e.message@
                    == "Invalid primary key format"@,
            }
        },
    }
}

/// Plans reading the row of `table` that `id` names.
pub fn get_table_row(table: &str, id: &str) -> (res: Result<TableQuery, ApiError>)
    ensures
        keyed_plan(res, "SELECT * FROM "@, table@, id@),
{
    let meta = require_table(table)?;
    let values = require_pk_values(id, &meta)?;
    let query = keyed_statement("SELECT * FROM ", table, &meta, &values);
    Ok(TableQuery { meta, query })
}

/// Plans deleting the row of `table` that `id` names.
pub fn delete_table_row(table: &str, id: &str) -> (res: Result<TableQuery, ApiError>)
    ensures
        keyed_plan(res, "DELETE FROM "@, table@, id@),
{
    let meta = require_table(table)?;
    let values = require_pk_values(id, &meta)?;
    let query = keyed_statement("DELETE FROM ", table, &meta, &values);
    Ok(TableQuery { meta, query })
}

/// The answer to a read that found no row.
pub fn row_not_found() -> (res: ApiError)
    ensures
        res.status == STATUS_NOT_FOUND,
        res.message@ == "Row not found"@,
{
    ApiError::not_found(String::from_str("Row not found"))
}

/// The answer to a delete that removed `rows_affected` rows: none removed
/// means the row was not there.
pub fn delete_outcome(rows_affected: u64) -> (res: Result<(), ApiError>)
    ensures
        res is Ok <==> rows_affected > 0,
        res matches Err(e) ==> e.status == STATUS_NOT_FOUND && e.message@ == "Row not found"@,
{
    if rows_affected == 0 {
        return Err(row_not_found());
    }
    Ok(())
}

/// The answer to a write whose body is not a JSON object.
pub fn body_not_object() -> (res: ApiError)
    ensures
        res.status == STATUS_BAD_REQUEST,
        res.message@ == "Request body must be a JSON object"@,
{
    ApiError::bad_request(String::from_str("Request body must be a JSON object"))
}

/// The keys of `keys` that are columns of `columns`, in order.
pub open spec fn known_columns(keys: Seq<Seq<char>>, columns: Seq<Seq<char>>) -> Seq<Seq<char>>
    decreases keys.len(),
{
    if keys.len() == 0 {
        Seq::empty()
    } else if columns.contains(keys.last()) {
        known_columns(keys.drop_last(), columns).push(keys.last())
    } else {
        known_columns(keys.drop_last(), columns)
    }
}

/// The keys of `keys` that are columns of `columns` and not key columns of
/// `pk`, in order.
pub open spec fn updatable_columns(keys: Seq<Seq<char>>, columns: Seq<Seq<char>>, pk: Seq<Seq<char>>) -> Seq<Seq<char>>
    decreases keys.len(),
{
    if keys.len() == 0 {
        Seq::empty()
    } else if columns.contains(keys.last()) && !pk.contains(keys.last()) {
        updatable_columns(keys.drop_last(), columns, pk).push(keys.last())
    } else {
        updatable_columns(keys.drop_last(), columns, pk)
    }
}

/// Whether a new row of the table keyed by `pk` gets a generated `id`:
/// the key is the single column `id` and the body names no `id`.
pub open spec fn needs_generated_id(pk: Seq<Seq<char>>, keys: Seq<Seq<char>>) -> bool {
    pk == seq!["id"@] && !keys.contains("id"@)
}

/// The `id` a new row gets where its body names none and the table is
/// keyed by `id` alone: the text of `fresh`.
pub fn generated_row_id_with(meta: &TableMeta, keys: &Vec<String>, fresh: u128) -> (res: Option<String>)
    ensures
        res is Some <==> needs_generated_id(meta@.pk, views(keys@)),
        res matches Some(t) ==> t@ == hyphenated(fresh),
{
    let keyed_by_id = meta.pk.len() == 1 && text_eq(meta.pk[0].as_str(), "id");
    proof {
        assert(views(meta.pk@).len() == meta.pk@.len());
        if meta.pk@.len() == 1 {
            assert(views(meta.pk@)[0] == meta.pk@[0]@);
            assert(views(meta.pk@) =~= seq![meta.pk@[0]@]);
        }
        assert(keyed_by_id == (views(meta.pk@) == seq!["id"@]));
    }
    if keyed_by_id && !contains_text(keys, "id") {
        Some(uuid_text(fresh))
    } else {
        None
    }
}

/// The `id` a new row gets where its body names none and the table is
/// keyed by `id` alone: the text of a random UUID.
pub fn generated_row_id(meta: &TableMeta, keys: &Vec<String>) -> (res: Option<String>)
    ensures
        res is Some <==> needs_generated_id(meta@.pk, views(keys@)),
        res matches Some(t) ==> exists|v: u128| v & UUID_V4_MASK == UUID_V4_BITS && t@ == hyphenated(v),
{
    let keyed_by_id = meta.pk.len() == 1 && text_eq(meta.pk[0].as_str(), "id");
    proof {
        assert(views(meta.pk@).len() == meta.pk@.len());
        if meta.pk@.len() == 1 {
            assert(views(meta.pk@)[0] == meta.pk@[0]@);
            assert(views(meta.pk@) =~= seq![meta.pk@[0]@]);
        }
        assert(keyed_by_id == (views(meta.pk@) == seq!["id"@]));
    }
    if keyed_by_id && !contains_text(keys, "id") {
        let v = new_uuid();
        Some(uuid_text(v))
    } else {
        None
    }
}

/// The keys of `keys` that pass `keep` (columns, or updatable columns).
fn select_columns(keys: &Vec<String>, meta: &TableMeta, skip_key_columns: bool) -> (res: Vec<String>)
    ensures
        !skip_key_columns ==> views(res@) == known_columns(views(keys@), meta@.columns),
        skip_key_columns ==> views(res@) == updatable_columns(views(keys@), meta@.columns, meta@.pk),
{
    let mut res: Vec<String> = Vec::new();
    let mut i: usize = 0;
    while i < keys.len()
        invariant
            i <= keys.len(),
            !skip_key_columns ==> views(res@) == known_columns(views(keys@).take(i as int), meta@.columns),
            skip_key_columns ==> views(res@) == updatable_columns(
                views(keys@).take(i as int),
                meta@.columns,
                meta@.pk,
            ),
        decreases keys.len() - i,
    {
        let ghost before = res@;
        assert(views(keys@).take(i + 1).drop_last() == views(keys@).take(i as int));
        assert(views(keys@).take(i + 1).last() == keys@[i as int]@);
        let key = keys[i].as_str();
        let keep = contains_text(&meta.columns, key) && (!skip_key_columns || !contains_text(&meta.pk, key));
        if keep {
            res.push(keys[i].clone());
            assert(views(res@) =~= views(before).push(keys@[i as int]@));
        }
        i += 1;
    }
    assert(views(keys@).take(i as int) == views(keys@));
    res
}

/// `n` placeholders separated by `", "`.
pub open spec fn placeholders(n: nat) -> Seq<char> {
    join(Seq::new(n, |k: int| "?"@), ", "@)
}

/// What a row insert writes: the statement, and the body keys whose values
/// are bound to it, in order.
#[derive(Clone, Debug, PartialEq, Eq)]
pub struct InsertPlan {
    pub sql: String,
    pub columns: Vec<String>,
}

/// Plans inserting a row into `table` (whose metadata is `meta`) from a
/// body with the keys `keys`: only keys that are columns are written.
pub fn create_table_row(table: &str, meta: &TableMeta, keys: &Vec<String>) -> (res: Result<InsertPlan, ApiError>)
    ensures
        known_columns(views(keys@), meta@.columns).len() == 0 <==> res is Err,
        res matches Err(e) ==> e.status == STATUS_BAD_REQUEST && e.message@ == "No valid columns provided"@,
        res matches Ok(p) ==> {
            &&& views(p.columns@) == known_columns(views(keys@), meta@.columns)
            &&& p.sql@ == "INSERT INTO "@ + table@ + " ("@ + join(views(p.columns@), ", "@)
                + ") VALUES ("@ + placeholders(p.columns@.len()) + ")"@
        },
{
    let columns = select_columns(keys, meta, false);
    if columns.len() == 0 {
        return Err(ApiError::bad_request(String::from_str("No valid columns provided")));
    }
    let mut marks: Vec<String> = Vec::new();
    let mut i: usize = 0;
    while i < columns.len()
        invariant
            i <= columns.len(),
            views(marks@) == Seq::new(i as nat, |k: int| "?"@),
        decreases columns.len() - i,
    {
        let ghost before = marks@;
        marks.push(String::from_str("?"));
        assert(views(marks@) =~= views(before).push("?"@));
        assert(views(marks@) =~= Seq::new((i + 1) as nat, |k: int| "?"@));
        i += 1;
    }
    let mut sql = String::from_str("INSERT INTO ");
    sql.append(table);
    sql.append(" (");
    let names = join_strings(&columns, ", ");
    sql.append(names.as_str());
    sql.append(") VALUES (");
    let holes = join_strings(&marks, ", ");
    sql.append(holes.as_str());
    sql.append(")");
    Ok(InsertPlan { sql, columns })
}

/// What a row update writes: the statement, the body keys whose values are
/// bound to its `SET` list, and then the key values of the row.
#[derive(Clone, Debug, PartialEq, Eq)]
pub struct UpdatePlan {
    pub sql: String,
    pub set_columns: Vec<String>,
    pub pk_values: Vec<String>,
}

/// Plans updating the row of `table` (whose metadata is `meta`) that `id`
/// names, from a body with the keys `keys`: only columns outside the key
/// are written.
pub fn update_table_row(table: &str, meta: &TableMeta, keys: &Vec<String>, id: &str) -> (res: Result<UpdatePlan, ApiError>)
    ensures
        match res {
            Ok(p) => {
                &&& views(p.set_columns@) == updatable_columns(views(keys@), meta@.columns, meta@.pk)
                &&& p.set_columns@.len() > 0
                &&& views(p.pk_values@) == key_pieces(id@)
                &&& key_pieces(id@).len() == meta@.pk.len()
                &&& p.sql@ == "UPDATE "@ + table@ + " SET "@ + assignments(views(p.set_columns@), ", "@)
                    + " WHERE "@ + key_condition(meta@.pk)
            },
            Err(e) => {
                &&& e.status == STATUS_BAD_REQUEST
                &&& if updatable_columns(views(keys@), meta@.columns, meta@.pk).len() == 0 {
                    e.message@ == "No updatable columns provided"@
                } else {
                    key_pieces(id@).len() != meta@.pk.len() && e.message@ == "Invalid primary key format"@
                }
            },
        },
{
    let set_columns = select_columns(keys, meta, true);
    if set_columns.len() == 0 {
        return Err(ApiError::bad_request(String::from_str("No updatable columns provided")));
    }
    let mut sql = String::from_str("UPDATE ");
    sql.append(table);
    sql.append(" SET ");
    let sets = assignment_list(&set_columns, ", ");
    sql.append(sets.as_str());
    sql.append(" WHERE ");
    let condition = assignment_list(&meta.pk, " AND ");
    sql.append(condition.as_str());
    let pk_values = require_pk_values(id, meta)?;
    Ok(UpdatePlan { sql, set_columns, pk_values })
}

/// Law: an update writes only columns of the table, and never a key column;
/// an insert writes only columns of the table.
pub proof fn law_written_columns(keys: Seq<Seq<char>>, columns: Seq<Seq<char>>, pk: Seq<Seq<char>>)
    ensures
        forall|k: int|
            0 <= k < updatable_columns(keys, columns, pk).len() ==> columns.contains(
                #[trigger] updatable_columns(keys, columns, pk)[k],
            ) && !pk.contains(updatable_columns(keys, columns, pk)[k]),
        forall|k: int|
            0 <= k < known_columns(keys, columns).len() ==> columns.contains(
                #[trigger] known_columns(keys, columns)[k],
            ),
    decreases keys.len(),
{
    if keys.len() > 0 {
        law_written_columns(keys.drop_last(), columns, pk);
        let u0 = updatable_columns(keys.drop_last(), columns, pk);
        let u = updatable_columns(keys, columns, pk);
        assert forall|k: int| 0 <= k < u.len() implies columns.contains(#[trigger] u[k]) && !pk.contains(u[k]) by {
            if k < u0.len() {
                assert(u[k] == u0[k]);
            }
        }
        let n0 = known_columns(keys.drop_last(), columns);
        let n = known_columns(keys, columns);
        assert forall|k: int| 0 <= k < n.len() implies columns.contains(#[trigger] n[k]) by {
            if k < n0.len() {
                assert(n[k] == n0[k]);
            }
        }
    }
}

/// Law: every table the editor lists is found under its own name, with the
/// metadata it is listed with.
pub proof fn law_listed_tables_found(k: int)
    requires
        0 <= k < table_catalog().len(),
    ensures
        table_spec(table_catalog()[k].name) == Some(table_catalog()[k]),
{
    let cat = table_catalog();
    reveal_strlit("users");
    reveal_strlit("addresses");
    reveal_strlit("categories");
    reveal_strlit("products");
    reveal_strlit("discounts");
    reveal_strlit("product_categories");
    reveal_strlit("inventory");
    reveal_strlit("carts");
    reveal_strlit("cart_items");
    reveal_strlit("orders");
    reveal_strlit("order_items");
    reveal_strlit("payments");
    assert("users"@.len() == 5);
    assert("addresses"@.len() == 9);
    assert("categories"@.len() == 10);
    assert("products"@.len() == 8);
    assert("discounts"@.len() == 9);
    assert("product_categories"@.len() == 18);
    assert("inventory"@.len() == 9);
    assert("carts"@.len() == 5);
    assert("cart_items"@.len() == 10);
    assert("orders"@.len() == 6);
    assert("order_items"@.len() == 11);
    assert("payments"@.len() == 8);
    assert("users"@[0] != "carts"@[0]);
    assert("addresses"@[0] != "discounts"@[0]);
    assert("addresses"@[0] != "inventory"@[0]);
    assert("discounts"@[0] != "inventory"@[0]);
    assert("categories"@[2] != "cart_items"@[2]);
    assert("products"@[1] != "payments"@[1]);
    reveal_with_fuel(first_table, 13);
    if k == 0 {
    } else if k == 1 {
    } else if k == 2 {
    } else if k == 3 {
    } else if k == 4 {
    } else if k == 5 {
    } else if k == 6 {
    } else if k == 7 {
    } else if k == 8 {
    } else if k == 9 {
    } else if k == 10 {
    } else {
    }
}
/// Law: a read after a delete of the same row looks up exactly the row
/// the delete removed: the same table, key condition and key values.
pub proof fn law_delete_then_read_same_row(
    deleted: Result<TableQuery, ApiError>,
    read: Result<TableQuery, ApiError>,
    table: Seq<char>,
    id: Seq<char>,
)
    requires
        keyed_plan(deleted, "DELETE FROM "@, table, id),
        keyed_plan(read, "SELECT * FROM "@, table, id),
    ensures
        deleted is Ok <==> read is Ok,
        deleted matches Ok(d) ==> (read matches Ok(r) && r.meta@ == d.meta@ && params(r.query.binds@)
            == params(d.query.binds@) && d.query.sql@ == "DELETE FROM "@ + table + " WHERE "@
            + key_condition(d.meta@.pk) && r.query.sql@ == "SELECT * FROM "@ + table + " WHERE "@
            + key_condition(d.meta@.pk)),
{
}

/// Law: the read that follows a create looks up the row by exactly the key
/// values the body gave, where they hold no comma and no outer white space:
/// the read binds them, in key-column order.
pub proof fn law_create_then_read_same_row(
    values: Seq<Seq<char>>,
    read: Result<TableQuery, ApiError>,
    table: Seq<char>,
)
    requires
        values.len() >= 1,
        forall|k: int| 0 <= k < values.len() ==> !(#[trigger] values[k]).contains(','),
        forall|k: int| 0 <= k < values.len() ==> trim(#[trigger] values[k]) == values[k],
        table_spec(table) matches Some(t) && t.pk.len() == values.len(),
        keyed_plan(read, "SELECT * FROM "@, table, join(values, seq![','])),
    ensures
        read matches Ok(r) && params(r.query.binds@) == text_params(values),
{
    law_created_key_reads_back(values);
}
/// Law: an update writes every body key that is a column of the table
/// and not a key column, and an insert writes every body key that is a
/// column; neither drops one.
pub proof fn law_written_columns_complete(keys: Seq<Seq<char>>, columns: Seq<Seq<char>>, pk: Seq<Seq<char>>, k: int)
    requires
        0 <= k < keys.len(),
        columns.contains(keys[k]),
    ensures
        !pk.contains(keys[k]) ==> updatable_columns(keys, columns, pk).contains(keys[k]),
        known_columns(keys, columns).contains(keys[k]),
    decreases keys.len(),
{
    let n = keys.len() - 1;
    if k == n {
        if !pk.contains(keys[k]) {
            let u = updatable_columns(keys, columns, pk);
            assert(u[u.len() - 1] == keys[k]);
        }
        let w = known_columns(keys, columns);
        assert(w[w.len() - 1] == keys[k]);
    } else {
        assert(keys.drop_last()[k] == keys[k]);
        law_written_columns_complete(keys.drop_last(), columns, pk, k);
        let u0 = updatable_columns(keys.drop_last(), columns, pk);
        let u = updatable_columns(keys, columns, pk);
        if !pk.contains(keys[k]) {
            let j = choose|j: int| 0 <= j < u0.len() && u0[j] == keys[k];
            assert(u[j] == u0[j]);
        }
        let w0 = known_columns(keys.drop_last(), columns);
        let w = known_columns(keys, columns);
        let j = choose|j: int| 0 <= j < w0.len() && w0[j] == keys[k];
        assert(w[j] == w0[j]);
    }
}

/// Law: a new row gets a generated `id` only where the table is keyed by
/// `id` alone and the body names no `id`: a body that names `id` anywhere
/// among its keys keeps its own.
pub proof fn law_generated_id_only_when_missing(pk: Seq<Seq<char>>, keys: Seq<Seq<char>>)
    ensures
        keys.contains("id"@) ==> !needs_generated_id(pk, keys),
        pk != seq!["id"@] ==> !needs_generated_id(pk, keys),
        pk == seq!["id"@] && !keys.contains("id"@) ==> needs_generated_id(pk, keys),
{
}

/// Law: a row is selected by every key column: a single key column `c`
/// gives the condition `c = ?`, and two key columns `c` and `d` give
/// `c = ? AND d = ?`.
pub proof fn law_key_condition_names_every_key(pk: Seq<Seq<char>>)
    ensures
        pk.len() == 1 ==> key_condition(pk) == pk[0] + " = ?"@,
        pk.len() == 2 ==> key_condition(pk) == pk[0] + " = ?"@ + " AND "@ + pk[1] + " = ?"@,
{
    let m = pk.map_values(|c: Seq<char>| c + " = ?"@);
    if pk.len() == 1 {
        assert(m[0] == pk[0] + " = ?"@);
    }
    if pk.len() == 2 {
        assert(m.drop_last().len() == 1);
        assert(m.drop_last()[0] == pk[0] + " = ?"@);
        assert(m.last() == pk[1] + " = ?"@);
        assert(join(m.drop_last(), " AND "@) == pk[0] + " = ?"@);
        assert(join(m, " AND "@) == (pk[0] + " = ?"@) + " AND "@ + (pk[1] + " = ?"@));
        assert((pk[0] + " = ?"@) + " AND "@ + (pk[1] + " = ?"@) =~= pk[0] + " = ?"@ + " AND "@ + pk[1]
            + " = ?"@);
    }
}

} // verus!
