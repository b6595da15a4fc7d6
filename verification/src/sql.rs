//! SQL statements as text with `?` placeholders plus the values bound to
//! them, in order, as SQLite takes them.
use vstd::prelude::*;

verus! {

/// A value bound to a `?` placeholder.
#[derive(Clone, Debug, PartialEq, Eq)]
pub enum SqlValue {
    Null,
    Int(i64),
    Text(String),
}

/// The mathematical view of a bound value.
pub enum SqlParam {
    Null,
    Int(i64),
    Text(Seq<char>),
}

impl View for SqlValue {
    type V = SqlParam;

    open spec fn view(&self) -> SqlParam {
        match self {
            SqlValue::Null => SqlParam::Null,
            SqlValue::Int(i) => SqlParam::Int(*i),
            SqlValue::Text(s) => SqlParam::Text(s@),
        }
    }
}

/// The views of a sequence of bound values.
pub open spec fn params(binds: Seq<SqlValue>) -> Seq<SqlParam> {
    binds.map_values(|b: SqlValue| b@)
}

/// A statement and the values bound to its placeholders.
#[derive(Clone, Debug, PartialEq, Eq)]
pub struct SqlQuery {
    pub sql: String,
    pub binds: Vec<SqlValue>,
}

/// A text value, copied.
pub fn text_value(s: &String) -> (res: SqlValue)
    ensures
        res@ == SqlParam::Text(s@),
{
    SqlValue::Text(s.clone())
}

/// Appends `v` to `binds`.
pub fn push_bind(binds: &mut Vec<SqlValue>, v: SqlValue)
    ensures
        params(final(binds)@) == params(old(binds)@).push(v@),
{
    let ghost before = binds@;
    binds.push(v);
    assert(params(binds@) =~= params(before).push(v@));
}

} // verus!
