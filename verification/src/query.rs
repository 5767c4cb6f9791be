//! The safe dynamic query layer: declarative query shapes, a whitelist of
//! order fragments, and statement composition with bound parameters.
//!
//! No client-supplied string ever reaches the statement text: the order
//! fragment is looked up in the shape's whitelist, and everything else is
//! either fixed text, the shape's own table name, or a bound parameter.

use vstd::prelude::*;
use vstd::string::StringExecFns;

use crate::errors::FieldError;

verus! {

/// A value bound to a positional `?` placeholder.
#[derive(Debug, Clone, PartialEq, Eq)]
pub enum Param {
    U32(u32),
    U64(u64),
    I64(i64),
    Str(String),
    Bool(bool),
}

/// One whitelist entry: a client-facing sort-key name and the safe SQL
/// fragment it stands for.
#[derive(Debug, Clone)]
pub struct OrderPair {
    pub key: String,
    pub fragment: String,
}

/// The privacy scope of a listing: everything, or only rows owned by one
/// user.
#[derive(Debug, Clone, Copy, PartialEq, Eq, Structural)]
pub enum Scope {
    All,
    OwnedBy(u32),
}

/// The declarative shape of a listing query: table, order whitelist,
/// default order key, and an optional fixed row-kind filter.  One shape is
/// built per resource and reused; the privacy scope varies per request and
/// is passed separately.
#[derive(Debug, Clone)]
pub struct QuerySpec {
    pub table: String,
    pub whitelist: Vec<OrderPair>,
    pub default_order_key: String,
    pub kind_filter: Option<String>,
}

/// A finished statement: its text and the ordered values for its `?`
/// placeholders.
#[derive(Debug, Clone, PartialEq, Eq)]
pub struct BuiltQuery {
    pub sql: String,
    pub params: Vec<Param>,
}

/// The fragment the whitelist maps a key to, if the key is a member.
pub open spec fn wl_lookup(wl: Seq<OrderPair>, key: Seq<char>) -> Option<Seq<char>>
    decreases wl.len(),
{
    if wl.len() == 0 {
        None
    } else if wl[0].key@ == key {
        Some(wl[0].fragment@)
    } else {
        wl_lookup(wl.drop_first(), key)
    }
}

/// The whitelist maps a key to a fragment exactly when some entry carries
/// that key.
pub proof fn lemma_wl_lookup_member(wl: Seq<OrderPair>, key: Seq<char>)
    ensures
        (wl_lookup(wl, key) is Some) <==> exists|i: int| 0 <= i < wl.len() && wl[i].key@ == key,
    decreases wl.len(),
{
    if wl.len() > 0 {
        lemma_wl_lookup_member(wl.drop_first(), key);
        if wl[0].key@ == key {
            assert(wl[0].key@ == key);
        } else if wl_lookup(wl.drop_first(), key) is Some {
            let i = choose|i: int| 0 <= i < wl.drop_first().len() && wl.drop_first()[i].key@ == key;
            assert(wl[i + 1].key@ == key);
        } else if exists|i: int| 0 <= i < wl.len() && wl[i].key@ == key {
            let i = choose|i: int| 0 <= i < wl.len() && wl[i].key@ == key;
            assert(wl.drop_first()[i - 1].key@ == key);
        }
    }
}

/// Whatever fragment the lookup returns was taken from a whitelist entry:
/// the builder can only ever forward whitelisted fragments.
pub proof fn lemma_wl_fragment_whitelisted(wl: Seq<OrderPair>, key: Seq<char>)
    ensures
        match wl_lookup(wl, key) {
            Some(frag) => exists|i: int|
                0 <= i < wl.len() && wl[i].key@ == key && wl[i].fragment@ == frag,
            None => true,
        },
    decreases wl.len(),
{
    if wl.len() > 0 && wl[0].key@ != key {
        lemma_wl_fragment_whitelisted(wl.drop_first(), key);
        match wl_lookup(wl, key) {
            Some(frag) => {
                let i = choose|i: int|
                    0 <= i < wl.drop_first().len() && wl.drop_first()[i].key@ == key
                        && wl.drop_first()[i].fragment@ == frag;
                assert(wl[i + 1].key@ == key && wl[i + 1].fragment@ == frag);
            },
            None => {},
        }
    }
}

/// Looks a sort key up in the whitelist.
pub fn lookup_fragment(wl: &Vec<OrderPair>, key: &String) -> (r: Option<String>)
    ensures
        match r {
            Some(f) => wl_lookup(wl@, key@) == Some(f@),
            None => wl_lookup(wl@, key@) is None,
        },
{
    let mut i: usize = 0;
    proof {
        assert(wl@.skip(0) =~= wl@);
    }
    while i < wl.len()
        invariant
            i <= wl.len(),
            wl_lookup(wl@, key@) == wl_lookup(wl@.skip(i as int), key@),
        decreases wl.len() - i,
    {
        proof {
            assert(wl@.skip(i as int)[0] == wl@[i as int]);
            assert(wl@.skip(i as int).drop_first() =~= wl@.skip(i as int + 1));
        }
        if wl[i].key == *key {
            return Some(wl[i].fragment.clone());
        }
        i += 1;
    }
    proof {
        assert(wl@.skip(i as int).len() == 0);
    }
    None
}

/// The offset a page translates to: `(page - 1) * page_size`.
pub open spec fn spec_offset(page: int, page_size: int) -> int {
    (page - 1) * page_size
}

/// Translates a one-based page to a row offset.
pub fn compute_offset(page: u32, page_size: u32) -> (o: u64)
    requires
        page >= 1,
    ensures
        o as int == spec_offset(page as int, page_size as int),
{
    let p = (page - 1) as u64;
    let s = page_size as u64;
    proof {
        assert(p as int * s as int <= 0xffff_fffe * 0xffff_ffff) by (nonlinear_arith)
            requires
                0 <= p as int <= 0xffff_fffe,
                0 <= s as int <= 0xffff_ffff,
        ;
    }
    p * s
}

/// The WHERE clause a kind filter and scope translate to.
pub open spec fn spec_where_sql(kind_filter: Option<String>, scope: Scope) -> Seq<char> {
    match (kind_filter, scope) {
        (Option::None, Scope::All) => ""@,
        (Option::Some(_), Scope::All) => " WHERE type = ?"@,
        (Option::None, Scope::OwnedBy(_)) => " WHERE authorId = ?"@,
        (Option::Some(_), Scope::OwnedBy(_)) => " WHERE type = ? AND authorId = ?"@,
    }
}

/// The parameters bound by the WHERE clause, in placeholder order.
pub open spec fn spec_where_params(kind_filter: Option<String>, scope: Scope) -> Seq<Param> {
    match (kind_filter, scope) {
        (Option::None, Scope::All) => seq![],
        (Option::Some(k), Scope::All) => seq![Param::Str(k)],
        (Option::None, Scope::OwnedBy(u)) => seq![Param::U32(u)],
        (Option::Some(k), Scope::OwnedBy(u)) => seq![Param::Str(k), Param::U32(u)],
    }
}

/// The text of a listing statement.
pub open spec fn spec_select_sql(table: Seq<char>, where_sql: Seq<char>, frag: Seq<char>) -> Seq<
    char,
> {
    "SELECT * FROM "@ + table + where_sql + " ORDER BY "@ + frag + " LIMIT ? OFFSET ?"@
}

/// The text of the companion count statement: same predicate, no
/// pagination, no joins.
pub open spec fn spec_count_sql(table: Seq<char>, where_sql: Seq<char>) -> Seq<char> {
    "SELECT COUNT(*) FROM "@ + table + where_sql
}

/// The order key a request resolves to: the requested one, or the shape's
/// default when the request carries none.
pub open spec fn spec_order_key(qs: &QuerySpec, requested: Option<String>) -> Seq<char> {
    match requested {
        Some(k) => k@,
        None => qs.default_order_key@,
    }
}

/// Builds the WHERE clause and its bound parameters.
fn where_clause(kind_filter: &Option<String>, scope: Scope) -> (r: (String, Vec<Param>))
    ensures
        r.0@ == spec_where_sql(*kind_filter, scope),
        r.1@ == spec_where_params(*kind_filter, scope),
{
    let mut params: Vec<Param> = Vec::new();
    let sql: String;
    match (kind_filter, scope) {
        (Option::None, Scope::All) => {
            sql = "".to_owned();
        },
        (Option::Some(k), Scope::All) => {
            sql = " WHERE type = ?".to_owned();
            params.push(Param::Str(k.clone()));
        },
        (Option::None, Scope::OwnedBy(u)) => {
            sql = " WHERE authorId = ?".to_owned();
            params.push(Param::U32(u));
        },
        (Option::Some(k), Scope::OwnedBy(u)) => {
            sql = " WHERE type = ? AND authorId = ?".to_owned();
            params.push(Param::Str(k.clone()));
            params.push(Param::U32(u));
        },
    }
    proof {
        assert(params@ =~= spec_where_params(*kind_filter, scope));
    }
    (sql, params)
}

/// Composes the listing statement for a shape: validates the order key
/// against the whitelist, translates the page to an offset, and returns
/// the text with its bound parameters.  A key outside the whitelist is a
/// deterministic rejection carrying that key; nothing is composed for it.
pub fn build(
    qs: &QuerySpec,
    requested_order_key: &Option<String>,
    page: u32,
    page_size: u32,
    scope: Scope,
) -> (r: Result<BuiltQuery, FieldError>)
    requires
        page >= 1,
        page_size >= 1,
    ensures
        match wl_lookup(qs.whitelist@, spec_order_key(qs, *requested_order_key)) {
            Some(frag) => match r {
                Ok(q) => {
                    &&& q.sql@ == spec_select_sql(
                        qs.table@,
                        spec_where_sql(qs.kind_filter, scope),
                        frag,
                    )
                    &&& q.params@ == spec_where_params(qs.kind_filter, scope) + seq![
                        Param::U64(page_size as u64),
                        Param::U64(spec_offset(page as int, page_size as int) as u64),
                    ]
                },
                Err(_) => false,
            },
            None => match r {
                Ok(_) => false,
                Err(e) => e matches FieldError::InvalidParams(f) && f@ == spec_order_key(
                    qs,
                    *requested_order_key,
                ),
            },
        },
{
    let key: &String = match requested_order_key {
        Some(k) => k,
        None => &qs.default_order_key,
    };
    let frag = match lookup_fragment(&qs.whitelist, key) {
        Some(f) => f,
        None => {
            return Err(FieldError::InvalidParams(key.clone()));
        },
    };
    let (where_sql, mut params) = where_clause(&qs.kind_filter, scope);
    let offset = compute_offset(page, page_size);
    params.push(Param::U64(page_size as u64));
    params.push(Param::U64(offset));

    let mut sql = "SELECT * FROM ".to_owned();
    sql.append(qs.table.as_str());
    sql.append(where_sql.as_str());
    sql.append(" ORDER BY ");
    sql.append(frag.as_str());
    sql.append(" LIMIT ? OFFSET ?");
    proof {
        assert(sql@ =~= spec_select_sql(qs.table@, spec_where_sql(qs.kind_filter, scope), frag@));
        assert(params@ =~= spec_where_params(qs.kind_filter, scope) + seq![
            Param::U64(page_size as u64),
            Param::U64(spec_offset(page as int, page_size as int) as u64),
        ]);
    }
    Ok(BuiltQuery { sql, params })
}

/// Everything a listing needs to hit the store: the page statement, the
/// companion count statement, and the resolved page coordinates.
#[derive(Debug, Clone, PartialEq, Eq)]
pub struct ListPlan {
    pub page_query: BuiltQuery,
    pub count_query: BuiltQuery,
    pub page: u32,
    pub page_size: u32,
}

/// Composes the page statement and its companion count statement for one
/// listing request.  Fails exactly when the resolved order key is outside
/// the shape's whitelist, in which case nothing is composed.
pub fn list_plan(
    qs: &QuerySpec,
    requested_order_key: &Option<String>,
    page: u32,
    page_size: u32,
    scope: Scope,
) -> (r: Result<ListPlan, FieldError>)
    requires
        page >= 1,
        page_size >= 1,
    ensures
        match wl_lookup(qs.whitelist@, spec_order_key(qs, *requested_order_key)) {
            Some(frag) => match r {
                Ok(p) => {
                    &&& p.page == page
                    &&& p.page_size == page_size
                    &&& p.page_query.sql@ == spec_select_sql(
                        qs.table@,
                        spec_where_sql(qs.kind_filter, scope),
                        frag,
                    )
                    &&& p.page_query.params@ == spec_where_params(qs.kind_filter, scope) + seq![
                        Param::U64(page_size as u64),
                        Param::U64(spec_offset(page as int, page_size as int) as u64),
                    ]
                    &&& p.count_query.sql@ == spec_count_sql(
                        qs.table@,
                        spec_where_sql(qs.kind_filter, scope),
                    )
                    &&& p.count_query.params@ == spec_where_params(qs.kind_filter, scope)
                },
                Err(_) => false,
            },
            None => match r {
                Ok(_) => false,
                Err(e) => e matches FieldError::InvalidParams(f) && f@ == spec_order_key(
                    qs,
                    *requested_order_key,
                ),
            },
        },
{
    let page_query = match build(qs, requested_order_key, page, page_size, scope) {
        Ok(q) => q,
        Err(e) => {
            return Err(e);
        },
    };
    let count_query = build_count(qs, scope);
    Ok(ListPlan { page_query, count_query, page, page_size })
}

/// Composes the companion count statement: the same privacy and kind
/// predicate, but no pagination and no aggregation joins, so join fan-out
/// can never inflate the total.
pub fn build_count(qs: &QuerySpec, scope: Scope) -> (q: BuiltQuery)
    ensures
        q.sql@ == spec_count_sql(qs.table@, spec_where_sql(qs.kind_filter, scope)),
        q.params@ == spec_where_params(qs.kind_filter, scope),
{
    let (where_sql, params) = where_clause(&qs.kind_filter, scope);
    let mut sql = "SELECT COUNT(*) FROM ".to_owned();
    sql.append(qs.table.as_str());
    sql.append(where_sql.as_str());
    proof {
        assert(sql@ =~= spec_count_sql(qs.table@, spec_where_sql(qs.kind_filter, scope)));
    }
    BuiltQuery { sql, params }
}

} // verus!
