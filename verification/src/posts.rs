//! Post rows and the post operations' decision and statement builders.

use vstd::prelude::*;
use vstd::string::StringExecFns;

use crate::errors::FieldError;
use crate::query::{
    list_plan, spec_count_sql, spec_offset, spec_order_key, spec_select_sql, spec_where_params,
    spec_where_sql, wl_lookup, BuiltQuery, ListPlan, OrderPair, Param, QuerySpec, Scope,
};

verus! {

/// A post row of the content table.
#[derive(Debug)]
pub struct Post {
    pub cid: u32,
    pub title: String,
    pub slug: String,
    pub created: u32,
    pub modified: u32,
    pub text: String,
    pub order: u32,
    pub author_id: u32,
    pub template: Option<String>,
    pub status: String,
    pub password: Option<String>,
    pub comments_num: u32,
    pub allow_comment: String,
    pub allow_ping: String,
    pub allow_feed: String,
    pub parent: u32,
}

/// The payload of a post creation request.
#[derive(Debug, Clone)]
pub struct PostCreate {
    pub title: String,
    pub slug: String,
    pub created: u32,
    pub text: String,
    pub template: String,
    pub status: String,
    pub password: String,
    pub allow_comment: String,
    pub allow_ping: String,
    pub allow_feed: String,
}

/// The query parameters of a post listing request.
#[derive(Debug, Clone)]
pub struct PostsQuery {
    pub page: Option<u32>,
    pub page_size: Option<u32>,
    pub order_by: Option<String>,
    pub with_meta: Option<bool>,
}

/// The query parameters of a single-post request.
#[derive(Debug, Clone)]
pub struct PostQuery {
    pub with_meta: Option<bool>,
}

impl PostsQuery {
    /// Whether the raw parameters are acceptable: pages and page sizes
    /// start at one.
    pub open spec fn spec_valid(&self) -> bool {
        &&& (self.page matches Some(p) ==> p >= 1)
        &&& (self.page_size matches Some(s) ==> s >= 1)
    }

    /// Validates the raw parameters, naming the offending field.
    pub fn validate(&self) -> (r: Result<(), FieldError>)
        ensures
            self.spec_valid() <==> r is Ok,
            r matches Err(e) ==> e matches FieldError::InvalidParams(_),
    {
        match self.page {
            Some(p) if p < 1 => {
                return Err(FieldError::InvalidParams("page".to_owned()));
            },
            _ => {},
        }
        match self.page_size {
            Some(s) if s < 1 => {
                return Err(FieldError::InvalidParams("page_size".to_owned()));
            },
            _ => {},
        }
        Ok(())
    }
}

/// The order whitelist of the post listing: cid and slug, each ascending
/// or descending.
pub open spec fn spec_posts_frag(key: Seq<char>) -> Option<Seq<char>> {
    if key == "cid"@ {
        Some("cid"@)
    } else if key == "-cid"@ {
        Some("cid DESC"@)
    } else if key == "slug"@ {
        Some("slug"@)
    } else if key == "-slug"@ {
        Some("slug DESC"@)
    } else {
        None
    }
}

/// The query shape of the post listing: the content table filtered to
/// post rows, ordered by cid unless asked otherwise.
pub fn posts_query_spec() -> (r: QuerySpec)
    ensures
        r.table@ == "typecho_contents"@,
        r.default_order_key@ == "cid"@,
        r.kind_filter matches Some(k) && k@ == "post"@,
        forall|key: Seq<char>| wl_lookup(r.whitelist@, key) == spec_posts_frag(key),
{
    let mut wl: Vec<OrderPair> = Vec::new();
    wl.push(OrderPair { key: "cid".to_owned(), fragment: "cid".to_owned() });
    wl.push(OrderPair { key: "-cid".to_owned(), fragment: "cid DESC".to_owned() });
    wl.push(OrderPair { key: "slug".to_owned(), fragment: "slug".to_owned() });
    wl.push(OrderPair { key: "-slug".to_owned(), fragment: "slug DESC".to_owned() });
    proof {
        assert forall|key: Seq<char>| wl_lookup(wl@, key) == spec_posts_frag(key) by {
            reveal_with_fuel(wl_lookup, 6);
            assert(wl@.len() == 4);
            assert(wl@.drop_first()[0] == wl@[1]);
            assert(wl@.drop_first().drop_first()[0] == wl@[2]);
            assert(wl@.drop_first().drop_first().drop_first()[0] == wl@[3]);
        }
    }
    QuerySpec {
        table: "typecho_contents".to_owned(),
        whitelist: wl,
        default_order_key: "cid".to_owned(),
        kind_filter: Some("post".to_owned()),
    }
}

/// The text of the relationship-meta join that feeds the aggregation
/// engine: every (content, meta) pair of one channel, in content order and
/// then meta order.
pub open spec fn spec_meta_join_sql() -> Seq<char> {
    "SELECT typecho_relationships.cid, typecho_metas.* FROM typecho_relationships JOIN typecho_metas ON typecho_relationships.mid = typecho_metas.mid WHERE typecho_metas.type = ? ORDER BY typecho_relationships.cid, typecho_metas.mid"@
}

/// Composes the join that fetches one aggregation channel's rows.
pub fn meta_join_statement(channel: &String) -> (q: BuiltQuery)
    ensures
        q.sql@ == spec_meta_join_sql(),
        q.params@ == seq![Param::Str(*channel)],
{
    let sql =
        "SELECT typecho_relationships.cid, typecho_metas.* FROM typecho_relationships JOIN typecho_metas ON typecho_relationships.mid = typecho_metas.mid WHERE typecho_metas.type = ? ORDER BY typecho_relationships.cid, typecho_metas.mid".to_owned();
    let mut params: Vec<Param> = Vec::new();
    params.push(Param::Str(channel.clone()));
    proof {
        assert(params@ =~= seq![Param::Str(*channel)]);
    }
    BuiltQuery { sql, params }
}

/// Everything a post listing needs to hit the store: the page and count
/// statements, and, when aggregation was requested, one join per channel
/// (categories, then tags).
#[derive(Debug, Clone, PartialEq, Eq)]
pub struct PostsPlan {
    pub list: ListPlan,
    pub meta_queries: Option<(BuiltQuery, BuiltQuery)>,
}

/// Plans the post listing: validates the raw parameters, applies the
/// defaults (page 1, page size 10, order by cid), and composes the page
/// and count statements; an aggregation request adds the channel join.
/// An order key outside the whitelist is rejected before anything is
/// composed.
pub fn list_posts_plan(qs: &QuerySpec, q: &PostsQuery) -> (r: Result<PostsPlan, FieldError>)
    ensures
        !q.spec_valid() ==> (r matches Err(e) && e matches FieldError::InvalidParams(_)),
        q.spec_valid() ==> match wl_lookup(qs.whitelist@, spec_order_key(qs, q.order_by)) {
            Some(frag) => r matches Ok(p) && {
                &&& p.list.page == (match q.page {
                    Some(pg) => pg,
                    None => 1u32,
                })
                &&& p.list.page_size == (match q.page_size {
                    Some(sz) => sz,
                    None => 10u32,
                })
                &&& p.list.page_query.sql@ == spec_select_sql(
                    qs.table@,
                    spec_where_sql(qs.kind_filter, Scope::All),
                    frag,
                )
                &&& p.list.page_query.params@ == spec_where_params(qs.kind_filter, Scope::All)
                    + seq![
                    Param::U64(p.list.page_size as u64),
                    Param::U64(
                        spec_offset(p.list.page as int, p.list.page_size as int) as u64,
                    ),
                ]
                &&& p.list.count_query.sql@ == spec_count_sql(
                    qs.table@,
                    spec_where_sql(qs.kind_filter, Scope::All),
                )
                &&& p.list.count_query.params@ == spec_where_params(qs.kind_filter, Scope::All)
                &&& (p.meta_queries is Some <==> q.with_meta == Some(true))
                &&& (p.meta_queries matches Some(mq) ==> {
                    &&& mq.0.sql@ == spec_meta_join_sql()
                    &&& mq.0.params@.len() == 1
                    &&& (mq.0.params@[0] matches Param::Str(c) && c@ == "category"@)
                    &&& mq.1.sql@ == spec_meta_join_sql()
                    &&& mq.1.params@.len() == 1
                    &&& (mq.1.params@[0] matches Param::Str(t) && t@ == "tag"@)
                })
            },
            None => r matches Err(e) && e matches FieldError::InvalidParams(f) && f@
                == spec_order_key(qs, q.order_by),
        },
{
    if let Err(e) = q.validate() {
        return Err(e);
    }
    let page = match q.page {
        Some(p) => p,
        None => 1,
    };
    let page_size = match q.page_size {
        Some(s) => s,
        None => 10,
    };
    let list = match list_plan(qs, &q.order_by, page, page_size, Scope::All) {
        Ok(l) => l,
        Err(e) => {
            return Err(e);
        },
    };
    let with_meta = match q.with_meta {
        Some(b) => b,
        None => false,
    };
    let meta_queries = if with_meta {
        Some((meta_join_statement(&"category".to_owned()), meta_join_statement(&"tag".to_owned())))
    } else {
        None
    };
    Ok(PostsPlan { list, meta_queries })
}

/// The text of the slug existence probe.
pub open spec fn spec_slug_exists_sql() -> Seq<char> {
    "SELECT EXISTS (SELECT 1 FROM typecho_contents WHERE slug = ?)"@
}

/// Composes the slug existence probe that runs before a post is created.
pub fn slug_exists_statement(slug: &String) -> (q: BuiltQuery)
    ensures
        q.sql@ == spec_slug_exists_sql(),
        q.params@ == seq![Param::Str(*slug)],
{
    let sql = "SELECT EXISTS (SELECT 1 FROM typecho_contents WHERE slug = ?)".to_owned();
    let mut params: Vec<Param> = Vec::new();
    params.push(Param::Str(slug.clone()));
    proof {
        assert(params@ =~= seq![Param::Str(*slug)]);
    }
    BuiltQuery { sql, params }
}

/// The text of the post insert statement.
pub open spec fn spec_insert_post_sql() -> Seq<char> {
    "INSERT INTO typecho_contents (type, title, slug, created, modified, text, authorId, template, status, password, allowComment, allowPing, allowFeed) VALUES (?, ?, ?, ?, ?, ?, ?, ?, ?, ?, ?, ?, ?)"@
}

/// Decides a post creation once the slug probe has answered: a taken slug
/// is rejected with nothing composed, so no insert can reach the store;
/// otherwise the insert statement is composed, owned by the author.
pub fn create_post_decision(slug_exists: bool, pc: &PostCreate, author: u32, now: u32) -> (r:
    Result<BuiltQuery, FieldError>)
    ensures
        slug_exists ==> (r matches Err(e) && e matches FieldError::AlreadyExists(f) && f@
            == "slug"@),
        !slug_exists ==> (r matches Ok(q) && {
            &&& q.sql@ == spec_insert_post_sql()
            &&& q.params@.len() == 13
            &&& (q.params@[0] matches Param::Str(k) && k@ == "post"@)
            &&& q.params@[1] == Param::Str(pc.title)
            &&& q.params@[2] == Param::Str(pc.slug)
            &&& q.params@[3] == Param::U32(pc.created)
            &&& q.params@[4] == Param::U32(now)
            &&& q.params@[5] == Param::Str(pc.text)
            &&& q.params@[6] == Param::U32(author)
            &&& q.params@[7] == Param::Str(pc.template)
            &&& q.params@[8] == Param::Str(pc.status)
            &&& q.params@[9] == Param::Str(pc.password)
            &&& q.params@[10] == Param::Str(pc.allow_comment)
            &&& q.params@[11] == Param::Str(pc.allow_ping)
            &&& q.params@[12] == Param::Str(pc.allow_feed)
        }),
{
    if slug_exists {
        return Err(FieldError::AlreadyExists("slug".to_owned()));
    }
    let sql =
        "INSERT INTO typecho_contents (type, title, slug, created, modified, text, authorId, template, status, password, allowComment, allowPing, allowFeed) VALUES (?, ?, ?, ?, ?, ?, ?, ?, ?, ?, ?, ?, ?)".to_owned();
    let mut params: Vec<Param> = Vec::new();
    params.push(Param::Str("post".to_owned()));
    params.push(Param::Str(pc.title.clone()));
    params.push(Param::Str(pc.slug.clone()));
    params.push(Param::U32(pc.created));
    params.push(Param::U32(now));
    params.push(Param::Str(pc.text.clone()));
    params.push(Param::U32(author));
    params.push(Param::Str(pc.template.clone()));
    params.push(Param::Str(pc.status.clone()));
    params.push(Param::Str(pc.password.clone()));
    params.push(Param::Str(pc.allow_comment.clone()));
    params.push(Param::Str(pc.allow_ping.clone()));
    params.push(Param::Str(pc.allow_feed.clone()));
    Ok(BuiltQuery { sql, params })
}

/// The text of the by-slug post fetch.
pub open spec fn spec_post_by_slug_sql() -> Seq<char> {
    "SELECT * FROM typecho_contents WHERE type = ? AND slug = ?"@
}

/// Composes the by-slug post fetch.
pub fn post_by_slug_statement(slug: &String) -> (q: BuiltQuery)
    ensures
        q.sql@ == spec_post_by_slug_sql(),
        q.params@.len() == 2,
        (q.params@[0] matches Param::Str(k) && k@ == "post"@),
        q.params@[1] == Param::Str(*slug),
{
    let sql = "SELECT * FROM typecho_contents WHERE type = ? AND slug = ?".to_owned();
    let mut params: Vec<Param> = Vec::new();
    params.push(Param::Str("post".to_owned()));
    params.push(Param::Str(slug.clone()));
    BuiltQuery { sql, params }
}

/// Plans a single-post read: the by-slug fetch, and, when aggregation was
/// asked for, one join per channel (categories, then tags).
pub fn get_post_plan(slug: &String, q: &PostQuery) -> (r: (
    BuiltQuery,
    Option<(BuiltQuery, BuiltQuery)>,
))
    ensures
        r.0.sql@ == spec_post_by_slug_sql(),
        r.0.params@.len() == 2,
        (r.0.params@[0] matches Param::Str(k) && k@ == "post"@),
        r.0.params@[1] == Param::Str(*slug),
        (r.1 is Some <==> q.with_meta == Some(true)),
        r.1 matches Some(mq) ==> {
            &&& mq.0.sql@ == spec_meta_join_sql()
            &&& mq.0.params@.len() == 1
            &&& (mq.0.params@[0] matches Param::Str(c) && c@ == "category"@)
            &&& mq.1.sql@ == spec_meta_join_sql()
            &&& mq.1.params@.len() == 1
            &&& (mq.1.params@[0] matches Param::Str(t) && t@ == "tag"@)
        },
{
    let fetch = post_by_slug_statement(slug);
    let with_meta = match q.with_meta {
        Some(b) => b,
        None => false,
    };
    let metas = if with_meta {
        Some((meta_join_statement(&"category".to_owned()), meta_join_statement(&"tag".to_owned())))
    } else {
        None
    };
    (fetch, metas)
}

/// The decision on the store's answer to a by-slug fetch: a post that is
/// not there is a missing resource, named by its slug.
pub fn finish_get_post(fetched: Option<Post>) -> (r: Result<Post, FieldError>)
    ensures
        match fetched {
            Some(p) => r matches Ok(v) && v == p,
            None => (r matches Err(e) && e matches FieldError::NotFound(f) && f@ == "slug"@),
        },
{
    match fetched {
        Some(p) => Ok(p),
        None => Err(FieldError::NotFound("slug".to_owned())),
    }
}

} // verus!
