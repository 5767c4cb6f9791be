//! Attachment rows, their stored text, and the attachment operations'
//! decisions and statement builders.

use chrono::Datelike;
use vstd::prelude::*;
use vstd::string::StrSliceExecFns;
use vstd::string::StringExecFns;

use crate::errors::FieldError;
use crate::query::{
    list_plan, spec_count_sql, spec_order_key, spec_select_sql, spec_where_params, spec_where_sql,
    wl_lookup, BuiltQuery, ListPlan, OrderPair, Param, QuerySpec, Scope,
};
use crate::role::Role;
use crate::text::spec_fmt;
use crate::user::{spec_owns, User};

verus! {

/// An attachment row of the content table.
#[derive(Debug)]
pub struct Attachment {
    pub cid: u32,
    pub title: Option<String>,
    pub slug: Option<String>,
    pub created: u32,
    pub modified: u32,
    pub text: String,
    pub order: u32,
    pub author_id: u32,
    pub template: Option<String>,
    pub kind: String,
    pub status: String,
    pub password: Option<String>,
    pub comments_num: u32,
    pub allow_comment: String,
    pub allow_ping: String,
    pub allow_feed: String,
    pub parent: u32,
}

/// The stored description of an uploaded file, kept in the row's text
/// column as a five-field record.
#[derive(Debug, Clone)]
pub struct AttachmentText {
    pub name: String,
    pub path: String,
    pub size: u64,
    pub kind: String,
    pub mime: String,
}

/// The flattened attachment record a response carries.
#[derive(Debug, Clone)]
pub struct AttachmentInfo {
    pub cid: u32,
    pub created: u32,
    pub modified: u32,
    pub name: String,
    pub path: String,
    pub size: u64,
    pub kind: String,
    pub mime: String,
}

/// The query parameters of an attachment listing request.
#[derive(Debug, Clone)]
pub struct AttachmentsQuery {
    pub page: Option<u32>,
    pub page_size: Option<u32>,
    pub order_by: Option<String>,
    pub private: Option<bool>,
}

/// The five fields that decoding an attachment text yields, when the text
/// is a well-formed record: name, path, size, kind, and mime type.  A
/// function of the text alone.
pub uninterp spec fn attachment_fields_of(s: Seq<char>) -> Option<
    (Seq<char>, Seq<char>, u64, Seq<char>, Seq<char>),
>;

/// Relies on serde_json::from_str and serde_json::Value's accessors
/// (`get`, `as_str`, `as_u64`): decoding the stored record is a
/// deterministic function of the text.
#[verifier::external_body]
fn parse_attachment_fields(s: &String) -> (r: Option<(String, String, u64, String, String)>)
    ensures
        r is Some <==> attachment_fields_of(s@) is Some,
        r matches Some(t) ==> Some((t.0@, t.1@, t.2, t.3@, t.4@)) == attachment_fields_of(s@),
{
    let v: serde_json::Value = match serde_json::from_str(s.as_str()) {
        Ok(v) => v,
        Err(_) => return None,
    };
    let name = v.get("name")?.as_str()?.to_owned();
    let path = v.get("path")?.as_str()?.to_owned();
    let size = v.get("size")?.as_u64()?;
    let kind = v.get("type")?.as_str()?.to_owned();
    let mime = v.get("mime")?.as_str()?.to_owned();
    Some((name, path, size, kind, mime))
}

impl AttachmentInfo {
    /// Flattens a decoded text record and the row's own columns into one
    /// response record.
    pub fn from_attachment_text(at: AttachmentText, cid: u32, created: u32, modified: u32) -> (r:
        Self)
        ensures
            r.cid == cid,
            r.created == created,
            r.modified == modified,
            r.name == at.name,
            r.path == at.path,
            r.size == at.size,
            r.kind == at.kind,
            r.mime == at.mime,
    {
        AttachmentInfo {
            cid,
            created,
            modified,
            name: at.name,
            path: at.path,
            size: at.size,
            kind: at.kind,
            mime: at.mime,
        }
    }

    /// Decodes an attachment row's stored text and flattens it.  Fails
    /// exactly when the text is not a well-formed record.
    pub fn from_attachment(attachment: Attachment) -> (r: Result<Self, FieldError>)
        ensures
            match attachment_fields_of(attachment.text@) {
                Some(f) => r matches Ok(info) && {
                    &&& info.cid == attachment.cid
                    &&& info.created == attachment.created
                    &&& info.modified == attachment.modified
                    &&& info.name@ == f.0
                    &&& info.path@ == f.1
                    &&& info.size == f.2
                    &&& info.kind@ == f.3
                    &&& info.mime@ == f.4
                },
                None => r matches Err(e) && e matches FieldError::DatabaseFailed(_),
            },
    {
        match parse_attachment_fields(&attachment.text) {
            Some((name, path, size, kind, mime)) => Ok(
                AttachmentInfo {
                    cid: attachment.cid,
                    created: attachment.created,
                    modified: attachment.modified,
                    name,
                    path,
                    size,
                    kind,
                    mime,
                },
            ),
            None => Err(FieldError::DatabaseFailed("attachment decode error".to_owned())),
        }
    }
}

impl AttachmentsQuery {
    /// Whether the raw parameters are acceptable: pages and page sizes
    /// start at one, and a requested order key is between 1 and 13
    /// characters.
    pub open spec fn spec_valid(&self) -> bool {
        &&& (self.page matches Some(p) ==> p >= 1)
        &&& (self.page_size matches Some(s) ==> s >= 1)
        &&& (self.order_by matches Some(k) ==> 1 <= k@.len() <= 13)
    }

    /// Validates the raw parameters, naming the offending field.
    pub fn validate(&self) -> (r: Result<(), FieldError>)
        ensures
            self.spec_valid() <==> r is Ok,
            r matches Err(e) ==> e matches FieldError::InvalidParams(_),
    {
        match self.page {
            Some(p) if p < 1 => {
                return Err(FieldError::InvalidParams("page".to_owned()));
            },
            _ => {},
        }
        match self.page_size {
            Some(s) if s < 1 => {
                return Err(FieldError::InvalidParams("page_size".to_owned()));
            },
            _ => {},
        }
        match &self.order_by {
            Some(k) => {
                let n = k.as_str().unicode_len();
                if n < 1 || n > 13 {
                    return Err(FieldError::InvalidParams("order_by".to_owned()));
                }
            },
            None => {},
        }
        Ok(())
    }
}

/// The order whitelist of the attachment listing: cid and slug, each
/// ascending or descending.
pub open spec fn spec_attachments_frag(key: Seq<char>) -> Option<Seq<char>> {
    if key == "cid"@ {
        Some("cid"@)
    } else if key == "-cid"@ {
        Some("cid DESC"@)
    } else if key == "slug"@ {
        Some("slug"@)
    } else if key == "-slug"@ {
        Some("slug DESC"@)
    } else {
        None
    }
}

/// The query shape of the attachment listing: the content table filtered
/// to attachment rows, ordered by cid descending unless asked otherwise.
pub fn attachments_query_spec() -> (r: QuerySpec)
    ensures
        r.table@ == "typecho_contents"@,
        r.default_order_key@ == "-cid"@,
        r.kind_filter matches Some(k) && k@ == "attachment"@,
        forall|key: Seq<char>| wl_lookup(r.whitelist@, key) == spec_attachments_frag(key),
{
    let mut wl: Vec<OrderPair> = Vec::new();
    wl.push(OrderPair { key: "cid".to_owned(), fragment: "cid".to_owned() });
    wl.push(OrderPair { key: "-cid".to_owned(), fragment: "cid DESC".to_owned() });
    wl.push(OrderPair { key: "slug".to_owned(), fragment: "slug".to_owned() });
    wl.push(OrderPair { key: "-slug".to_owned(), fragment: "slug DESC".to_owned() });
    proof {
        assert forall|key: Seq<char>| wl_lookup(wl@, key) == spec_attachments_frag(key) by {
            reveal_with_fuel(wl_lookup, 6);
            assert(wl@.len() == 4);
            assert(wl@.drop_first()[0] == wl@[1]);
            assert(wl@.drop_first().drop_first()[0] == wl@[2]);
            assert(wl@.drop_first().drop_first().drop_first()[0] == wl@[3]);
        }
    }
    QuerySpec {
        table: "typecho_contents".to_owned(),
        whitelist: wl,
        default_order_key: "-cid".to_owned(),
        kind_filter: Some("attachment".to_owned()),
    }
}

/// The privacy scope a listing runs under: the whole table only when the
/// actor both asked for private scope and holds Editor tier or above;
/// otherwise the actor's own rows, whatever the flag said.
pub open spec fn spec_scope_for(user: &User, private_flag: Option<bool>) -> Scope {
    if private_flag == Some(true) && crate::role::spec_satisfies(user.role, Role::Editor) {
        Scope::All
    } else {
        Scope::OwnedBy(user.uid)
    }
}

/// Resolves the privacy scope of a listing for an actor.  The `private`
/// flag is honored only at Editor tier or above; below that it is
/// silently ignored and the listing stays scoped to the actor.
pub fn scope_for(user: &User, private_flag: Option<bool>) -> (s: Scope)
    ensures
        s == spec_scope_for(user, private_flag),
{
    let wants_private = match private_flag {
        Some(b) => b,
        None => false,
    };
    if wants_private && user.role.satisfies(Role::Editor) {
        Scope::All
    } else {
        Scope::OwnedBy(user.uid)
    }
}

/// Plans the attachment listing: validates the raw parameters, applies
/// the defaults (page 1, page size 10, order by cid descending), resolves
/// the privacy scope, and composes the page and count statements — both
/// under the same scope, so the total reflects only what the actor may
/// see.
pub fn list_attachments_plan(qs: &QuerySpec, user: &User, q: &AttachmentsQuery) -> (r: Result<
    ListPlan,
    FieldError,
>)
    ensures
        !q.spec_valid() ==> (r matches Err(e) && e matches FieldError::InvalidParams(_)),
        q.spec_valid() ==> match wl_lookup(qs.whitelist@, spec_order_key(qs, q.order_by)) {
            Some(frag) => r matches Ok(p) && {
                let scope = spec_scope_for(user, q.private);
                &&& p.page == (match q.page {
                    Some(pg) => pg,
                    None => 1u32,
                })
                &&& p.page_size == (match q.page_size {
                    Some(sz) => sz,
                    None => 10u32,
                })
                &&& p.page_query.sql@ == spec_select_sql(
                    qs.table@,
                    spec_where_sql(qs.kind_filter, scope),
                    frag,
                )
                &&& p.page_query.params@ == spec_where_params(qs.kind_filter, scope) + seq![
                    Param::U64(p.page_size as u64),
                    Param::U64(
                        crate::query::spec_offset(p.page as int, p.page_size as int) as u64,
                    ),
                ]
                &&& p.count_query.sql@ == spec_count_sql(
                    qs.table@,
                    spec_where_sql(qs.kind_filter, scope),
                )
                &&& p.count_query.params@ == spec_where_params(qs.kind_filter, scope)
            },
            None => r matches Err(e) && e matches FieldError::InvalidParams(f) && f@
                == spec_order_key(qs, q.order_by),
        },
{
    if let Err(e) = q.validate() {
        return Err(e);
    }
    let page = match q.page {
        Some(p) => p,
        None => 1,
    };
    let page_size = match q.page_size {
        Some(s) => s,
        None => 10,
    };
    let scope = scope_for(user, q.private);
    list_plan(qs, &q.order_by, page, page_size, scope)
}

/// Reads one attachment: it must exist and the actor must own it or hold
/// Editor tier; then its stored text is decoded and flattened.
pub fn view_attachment(user: &User, fetched: Option<Attachment>) -> (r: Result<
    AttachmentInfo,
    FieldError,
>)
    ensures
        match fetched {
            None => (r matches Err(e) && e matches FieldError::NotFound(f) && f@ == "cid"@),
            Some(a) => {
                if !spec_owns(user, a.author_id) {
                    r == Err::<AttachmentInfo, FieldError>(FieldError::PermissionDenied)
                } else {
                    match attachment_fields_of(a.text@) {
                        Some(f) => r matches Ok(info) && info.cid == a.cid && info.name@ == f.0
                            && info.path@ == f.1 && info.size == f.2 && info.kind@ == f.3
                            && info.mime@ == f.4,
                        None => (r matches Err(e) && e matches FieldError::DatabaseFailed(_)),
                    }
                }
            },
        },
{
    let a = match fetched {
        Some(a) => a,
        None => {
            return Err(FieldError::NotFound("cid".to_owned()));
        },
    };
    if let Err(e) = crate::user::authorize_on(user, a.author_id) {
        return Err(e);
    }
    AttachmentInfo::from_attachment(a)
}

/// The text of the by-id content fetch.
pub open spec fn spec_content_by_cid_sql() -> Seq<char> {
    "SELECT * FROM typecho_contents WHERE cid = ?"@
}

/// Composes the by-id content fetch that the per-row operations start
/// with.
pub fn content_by_cid_statement(cid: u32) -> (q: BuiltQuery)
    ensures
        q.sql@ == spec_content_by_cid_sql(),
        q.params@ == seq![Param::U32(cid)],
{
    let sql = "SELECT * FROM typecho_contents WHERE cid = ?".to_owned();
    let mut params: Vec<Param> = Vec::new();
    params.push(Param::U32(cid));
    proof {
        assert(params@ =~= seq![Param::U32(cid)]);
    }
    BuiltQuery { sql, params }
}

/// The text of the row delete statement.
pub open spec fn spec_delete_content_sql() -> Seq<char> {
    "DELETE FROM typecho_contents WHERE cid = ?"@
}

/// Composes the row delete statement.
pub fn delete_content_statement(cid: u32) -> (q: BuiltQuery)
    ensures
        q.sql@ == spec_delete_content_sql(),
        q.params@ == seq![Param::U32(cid)],
{
    let sql = "DELETE FROM typecho_contents WHERE cid = ?".to_owned();
    let mut params: Vec<Param> = Vec::new();
    params.push(Param::U32(cid));
    proof {
        assert(params@ =~= seq![Param::U32(cid)]);
    }
    BuiltQuery { sql, params }
}

/// Decides an attachment deletion: the row must exist and the actor must
/// own it or hold Editor tier; the result carries the stored file's path
/// (for the file store) and the delete statement.
pub fn delete_attachment_plan(user: &User, fetched: Option<Attachment>) -> (r: Result<
    (String, BuiltQuery),
    FieldError,
>)
    ensures
        match fetched {
            None => (r matches Err(e) && e matches FieldError::NotFound(f) && f@ == "cid"@),
            Some(a) => {
                if !spec_owns(user, a.author_id) {
                    r == Err::<(String, BuiltQuery), FieldError>(FieldError::PermissionDenied)
                } else {
                    match attachment_fields_of(a.text@) {
                        Some(f) => r matches Ok(p) && p.0@ == f.1 && p.1.sql@
                            == spec_delete_content_sql() && p.1.params@ == seq![Param::U32(a.cid)],
                        None => (r matches Err(e) && e matches FieldError::DatabaseFailed(_)),
                    }
                }
            },
        },
{
    let a = match fetched {
        Some(a) => a,
        None => {
            return Err(FieldError::NotFound("cid".to_owned()));
        },
    };
    if let Err(e) = crate::user::authorize_on(user, a.author_id) {
        return Err(e);
    }
    let cid = a.cid;
    match parse_attachment_fields(&a.text) {
        Some((_, path, _, _, _)) => Ok((path, delete_content_statement(cid))),
        None => Err(FieldError::DatabaseFailed("attachment decode error".to_owned())),
    }
}

/// The text of the parent re-pointing statement.
pub open spec fn spec_set_parent_sql() -> Seq<char> {
    "UPDATE typecho_contents SET parent = ? WHERE cid = ?"@
}

/// Composes the statement that points an attachment at a content row (or
/// at nothing, parent zero).
pub fn set_parent_statement(cid: u32, parent: u32) -> (q: BuiltQuery)
    ensures
        q.sql@ == spec_set_parent_sql(),
        q.params@ == seq![Param::U32(parent), Param::U32(cid)],
{
    let sql = "UPDATE typecho_contents SET parent = ? WHERE cid = ?".to_owned();
    let mut params: Vec<Param> = Vec::new();
    params.push(Param::U32(parent));
    params.push(Param::U32(cid));
    proof {
        assert(params@ =~= seq![Param::U32(parent), Param::U32(cid)]);
    }
    BuiltQuery { sql, params }
}

/// Decides attaching an attachment to a content row: both must exist, and
/// the actor must own the content or hold Editor tier.
pub fn attach_to_content_plan(
    user: &User,
    attachment: Option<Attachment>,
    content: Option<crate::posts::Post>,
) -> (r: Result<BuiltQuery, FieldError>)
    ensures
        match (attachment, content) {
            (None, _) => (r matches Err(e) && e matches FieldError::NotFound(f) && f@ == "cid"@),
            (Some(_), None) => (r matches Err(e) && e matches FieldError::NotFound(f) && f@
                == "slug"@),
            (Some(a), Some(c)) => {
                if !spec_owns(user, c.author_id) {
                    r == Err::<BuiltQuery, FieldError>(FieldError::PermissionDenied)
                } else {
                    r matches Ok(q) && q.sql@ == spec_set_parent_sql() && q.params@ == seq![
                        Param::U32(c.cid),
                        Param::U32(a.cid),
                    ]
                }
            },
        },
{
    let a = match attachment {
        Some(a) => a,
        None => {
            return Err(FieldError::NotFound("cid".to_owned()));
        },
    };
    let c = match content {
        Some(c) => c,
        None => {
            return Err(FieldError::NotFound("slug".to_owned()));
        },
    };
    if let Err(e) = crate::user::authorize_on(user, c.author_id) {
        return Err(e);
    }
    Ok(set_parent_statement(a.cid, c.cid))
}

/// Decides detaching an attachment from a content row: both must exist,
/// and the actor must own both (or hold Editor tier); the attachment's
/// parent is pointed at nothing.
pub fn detach_from_content_plan(
    user: &User,
    attachment: Option<Attachment>,
    content: Option<crate::posts::Post>,
) -> (r: Result<BuiltQuery, FieldError>)
    ensures
        match (attachment, content) {
            (None, _) => (r matches Err(e) && e matches FieldError::NotFound(f) && f@ == "cid"@),
            (Some(a), _) if !spec_owns(user, a.author_id) => r == Err::<BuiltQuery, FieldError>(
                FieldError::PermissionDenied,
            ),
            (Some(_), None) => (r matches Err(e) && e matches FieldError::NotFound(f) && f@
                == "slug"@),
            (Some(a), Some(c)) => {
                if !spec_owns(user, c.author_id) {
                    r == Err::<BuiltQuery, FieldError>(FieldError::PermissionDenied)
                } else {
                    r matches Ok(q) && q.sql@ == spec_set_parent_sql() && q.params@ == seq![
                        Param::U32(0u32),
                        Param::U32(a.cid),
                    ]
                }
            },
        },
{
    let a = match attachment {
        Some(a) => a,
        None => {
            return Err(FieldError::NotFound("cid".to_owned()));
        },
    };
    if let Err(e) = crate::user::authorize_on(user, a.author_id) {
        return Err(e);
    }
    let c = match content {
        Some(c) => c,
        None => {
            return Err(FieldError::NotFound("slug".to_owned()));
        },
    };
    if let Err(e) = crate::user::authorize_on(user, c.author_id) {
        return Err(e);
    }
    Ok(set_parent_statement(a.cid, 0))
}

/// The position of the first dot in a text, if any.
pub open spec fn spec_first_dot(s: Seq<char>) -> Option<int>
    decreases s.len(),
{
    if s.len() == 0 {
        None
    } else if s[0] == '.' {
        Some(0)
    } else {
        match spec_first_dot(s.drop_first()) {
            Some(i) => Some(i + 1),
            None => None,
        }
    }
}

/// A dot at `i` with none before it is the first dot.
proof fn lemma_first_dot_at(s: Seq<char>, i: int)
    requires
        0 <= i < s.len(),
        s[i] == '.',
        forall|k: int| 0 <= k < i ==> s[k] != '.',
    ensures
        spec_first_dot(s) == Some(i),
    decreases i,
{
    if i > 0 {
        lemma_first_dot_at(s.drop_first(), i - 1);
    }
}

/// A text without a dot has no first dot.
proof fn lemma_first_dot_none(s: Seq<char>)
    requires
        forall|k: int| 0 <= k < s.len() ==> s[k] != '.',
    ensures
        spec_first_dot(s) is None,
    decreases s.len(),
{
    if s.len() > 0 {
        lemma_first_dot_none(s.drop_first());
    }
}

/// Splits the extension off an uploaded file's name: everything after the
/// first dot.  A name without a dot has no usable extension.
pub fn split_ext(file_name: &String) -> (r: Option<String>)
    ensures
        match spec_first_dot(file_name@) {
            Some(i) => r matches Some(e) && e@ == file_name@.subrange(
                i + 1,
                file_name@.len() as int,
            ),
            None => r is None,
        },
{
    let s = file_name.as_str();
    let len = s.unicode_len();
    let mut i: usize = 0;
    while i < len
        invariant
            i <= len,
            len == s@.len(),
            s@ == file_name@,
            forall|k: int| 0 <= k < i ==> s@[k] != '.',
        decreases len - i,
    {
        if s.get_char(i) == '.' {
            proof {
                lemma_first_dot_at(s@, i as int);
            }
            let ext = s.substring_char(i + 1, len);
            return Some(ext.to_owned());
        }
        i += 1;
    }
    proof {
        lemma_first_dot_none(s@);
    }
    None
}

/// Where an upload lands: the directory (by year and month), the stored
/// file name, and the public path.
#[derive(Debug, Clone)]
pub struct UploadLocation {
    pub dir: String,
    pub name: String,
    pub path: String,
}

/// The upload directory of a month.
pub open spec fn spec_upload_dir(year: int, month: int) -> Seq<char> {
    "usr/uploads/"@ + spec_fmt(year) + "/"@ + spec_fmt(month)
}

/// The stored name of an upload: a numeric stem and the extension.
pub open spec fn spec_upload_name(stem: int, ext: Seq<char>) -> Seq<char> {
    spec_fmt(stem) + "."@ + ext
}

/// Lays an upload out under a month directory.
pub fn make_upload_location(year: u32, month: u32, stem: u64, ext: &String) -> (r: UploadLocation)
    requires
        1 <= month <= 12,
    ensures
        r.dir@ == spec_upload_dir(year as int, month as int),
        r.name@ == spec_upload_name(stem as int, ext@),
        r.path@ == "/"@ + r.dir@ + "/"@ + r.name@,
{
    let y = crate::text::format_u64(year as u64);
    let m = crate::text::format_u64(month as u64);
    let stem_text = crate::text::format_u64(stem);
    let mut dir = "usr/uploads/".to_owned();
    dir.append(y.as_str());
    dir.append("/");
    dir.append(m.as_str());
    let mut name = stem_text;
    name.append(".");
    name.append(ext.as_str());
    let mut path = "/".to_owned();
    path.append(dir.as_str());
    path.append("/");
    path.append(name.as_str());
    proof {
        assert(dir@ =~= spec_upload_dir(year as int, month as int));
        assert(name@ =~= spec_upload_name(stem as int, ext@));
        assert(path@ =~= "/"@ + dir@ + "/"@ + name@);
    }
    UploadLocation { dir, name, path }
}

/// Relies on chrono's checked `DateTime::from_timestamp` and `Datelike`,
/// fed a Unix timestamp read from the system clock: a returned month is
/// between 1 and 12, and a clock before the epoch or outside chrono's
/// range yields nothing instead of a panic.  The calendar is UTC.
#[verifier::external_body]
fn now_date_parts() -> (r: Option<(i32, u32, i64)>)
    ensures
        r matches Some(p) ==> 1 <= p.1 <= 12,
{
    let elapsed = std::time::SystemTime::now().duration_since(std::time::UNIX_EPOCH).ok()?;
    let secs = i64::try_from(elapsed.as_secs()).ok()?;
    let now = chrono::DateTime::<chrono::Utc>::from_timestamp(secs, 0)?;
    Some((now.year(), now.month(), now.timestamp()))
}

/// Relies on rand's `gen_range` over the thread generator: the draw falls
/// inside the given half-open range, whatever else it is.
#[verifier::external_body]
fn draw_in_range(lo: u64, hi: u64) -> (r: u64)
    requires
        lo < hi,
    ensures
        lo <= r < hi,
{
    rand::Rng::gen_range(&mut rand::thread_rng(), lo..hi)
}

/// Whether an upload location is laid out under some month directory
/// with some ten-digit stem and the given extension.
pub open spec fn spec_upload_placed(loc: UploadLocation, ext: Seq<char>) -> bool {
    exists|y: int, m: int, st: int|
        {
            &&& 0 <= y
            &&& 1 <= m <= 12
            &&& 1_000_000_000 <= st < 9_999_999_999
            &&& loc.dir@ == spec_upload_dir(y, m)
            &&& loc.name@ == spec_upload_name(st, ext)
            &&& loc.path@ == "/"@ + loc.dir@ + "/"@ + loc.name@
        }
}

/// Picks where a new upload lands: a ten-digit random stem under the
/// current month's directory, keeping the uploaded name's extension.
/// Fails only on a name without an extension, or a clock before the epoch.
pub fn plan_upload(file_name: &String) -> (r: Result<(String, UploadLocation, i64), FieldError>)
    ensures
        match spec_first_dot(file_name@) {
            None => (r matches Err(e) && e matches FieldError::InvalidParams(f) && f@ == "file"@),
            Some(i) => match r {
                Ok(p) => {
                    &&& p.0@ == file_name@.subrange(i + 1, file_name@.len() as int)
                    &&& spec_upload_placed(p.1, p.0@)
                },
                Err(e) => e matches FieldError::DatabaseFailed(_),
            },
        },
{
    let ext = match split_ext(file_name) {
        Some(e) => e,
        None => {
            return Err(FieldError::InvalidParams("file".to_owned()));
        },
    };
    let (year, month, timestamp) = match now_date_parts() {
        Some(p) => p,
        None => {
            return Err(FieldError::DatabaseFailed("clock out of range".to_owned()));
        },
    };
    if year < 0 {
        return Err(FieldError::DatabaseFailed("clock out of range".to_owned()));
    }
    let stem = draw_in_range(1_000_000_000, 9_999_999_999);
    let location = make_upload_location(year as u32, month, stem, &ext);
    proof {
        let y = year as int;
        let m = month as int;
        let st = stem as int;
        assert(0 <= y && 1 <= m <= 12 && 1_000_000_000 <= st < 9_999_999_999 && location.dir@
            == spec_upload_dir(y, m) && location.name@ == spec_upload_name(st, ext@)
            && location.path@ == "/"@ + location.dir@ + "/"@ + location.name@);
        assert(spec_upload_placed(location, ext@));
    }
    Ok((ext, location, timestamp))
}

/// The text of the attachment insert statement.
pub open spec fn spec_insert_attachment_sql() -> Seq<char> {
    "INSERT INTO typecho_contents (title, slug, created, modified, text, authorId, type, status) VALUES (?, ?, ?, ?, ?, ?, ?, ?)"@
}

/// Composes the insert for a fresh attachment row: titled and slugged by
/// the uploaded name, carrying the encoded text record, owned by the
/// uploader.
pub fn create_attachment_statement(name: &String, now: u32, text: &String, uid: u32) -> (q:
    BuiltQuery)
    ensures
        q.sql@ == spec_insert_attachment_sql(),
        q.params@.len() == 8,
        q.params@[0] == Param::Str(*name),
        q.params@[1] == Param::Str(*name),
        q.params@[2] == Param::U32(now),
        q.params@[3] == Param::U32(now),
        q.params@[4] == Param::Str(*text),
        q.params@[5] == Param::U32(uid),
        (q.params@[6] matches Param::Str(k) && k@ == "attachment"@),
        (q.params@[7] matches Param::Str(s) && s@ == "publish"@),
{
    let sql =
        "INSERT INTO typecho_contents (title, slug, created, modified, text, authorId, type, status) VALUES (?, ?, ?, ?, ?, ?, ?, ?)".to_owned();
    let mut params: Vec<Param> = Vec::new();
    params.push(Param::Str(name.clone()));
    params.push(Param::Str(name.clone()));
    params.push(Param::U32(now));
    params.push(Param::U32(now));
    params.push(Param::Str(text.clone()));
    params.push(Param::U32(uid));
    params.push(Param::Str("attachment".to_owned()));
    params.push(Param::Str("publish".to_owned()));
    BuiltQuery { sql, params }
}

/// The text of the attachment replacement update.
pub open spec fn spec_update_attachment_sql() -> Seq<char> {
    "UPDATE typecho_contents SET title = ?, slug = ?, modified = ?, text = ? WHERE cid = ?"@
}

/// Composes the update that replaces an attachment's file record.
pub fn modify_attachment_statement(cid: u32, name: &String, now: u32, text: &String) -> (q:
    BuiltQuery)
    ensures
        q.sql@ == spec_update_attachment_sql(),
        q.params@.len() == 5,
        q.params@[0] == Param::Str(*name),
        q.params@[1] == Param::Str(*name),
        q.params@[2] == Param::U32(now),
        q.params@[3] == Param::Str(*text),
        q.params@[4] == Param::U32(cid),
{
    let sql =
        "UPDATE typecho_contents SET title = ?, slug = ?, modified = ?, text = ? WHERE cid = ?".to_owned();
    let mut params: Vec<Param> = Vec::new();
    params.push(Param::Str(name.clone()));
    params.push(Param::Str(name.clone()));
    params.push(Param::U32(now));
    params.push(Param::Str(text.clone()));
    params.push(Param::U32(cid));
    BuiltQuery { sql, params }
}

/// Checks a replacement upload's target: the row must exist and the actor
/// must own it or hold Editor tier.  The result names the row and the old
/// file's path, which the file store is told to drop.
pub fn modify_attachment_check(user: &User, fetched: Option<Attachment>) -> (r: Result<
    (u32, String),
    FieldError,
>)
    ensures
        match fetched {
            None => (r matches Err(e) && e matches FieldError::NotFound(f) && f@ == "cid"@),
            Some(a) => {
                if !spec_owns(user, a.author_id) {
                    r == Err::<(u32, String), FieldError>(FieldError::PermissionDenied)
                } else {
                    match attachment_fields_of(a.text@) {
                        Some(f) => r matches Ok(p) && p.0 == a.cid && p.1@ == f.1,
                        None => (r matches Err(e) && e matches FieldError::DatabaseFailed(_)),
                    }
                }
            },
        },
{
    let a = match fetched {
        Some(a) => a,
        None => {
            return Err(FieldError::NotFound("cid".to_owned()));
        },
    };
    if let Err(e) = crate::user::authorize_on(user, a.author_id) {
        return Err(e);
    }
    let cid = a.cid;
    match parse_attachment_fields(&a.text) {
        Some((_, path, _, _, _)) => Ok((cid, path)),
        None => Err(FieldError::DatabaseFailed("attachment decode error".to_owned())),
    }
}

/// The text of the by-parent attachment listing.
pub open spec fn spec_attachments_by_parent_sql() -> Seq<char> {
    "SELECT * FROM typecho_contents WHERE type = ? AND parent = ? ORDER BY cid"@
}

/// Composes the listing of a content row's attachments, oldest first.
pub fn attachments_by_parent_statement(cid: u32) -> (q: BuiltQuery)
    ensures
        q.sql@ == spec_attachments_by_parent_sql(),
        q.params@.len() == 2,
        (q.params@[0] matches Param::Str(k) && k@ == "attachment"@),
        q.params@[1] == Param::U32(cid),
{
    let sql = "SELECT * FROM typecho_contents WHERE type = ? AND parent = ? ORDER BY cid".to_owned();
    let mut params: Vec<Param> = Vec::new();
    params.push(Param::Str("attachment".to_owned()));
    params.push(Param::U32(cid));
    BuiltQuery { sql, params }
}

/// Whether a flattened record is the faithful decoding of an attachment
/// row: same cid, and the five fields the row's stored text decodes to.
pub open spec fn spec_info_matches(a: Attachment, info: AttachmentInfo) -> bool {
    match attachment_fields_of(a.text@) {
        Some(f) => {
            &&& info.cid == a.cid
            &&& info.name@ == f.0
            &&& info.path@ == f.1
            &&& info.size == f.2
            &&& info.kind@ == f.3
            &&& info.mime@ == f.4
        },
        None => false,
    }
}

/// Shapes a content row's attachment list: every row decoded and
/// flattened, in one page that holds them all.  Fails when the content
/// row is missing, or a stored record does not decode.
#[verifier::loop_isolation(false)]
pub fn content_attachments_page(
    content: Option<crate::posts::Post>,
    attachments: Vec<Attachment>,
) -> (r: Result<crate::pagination::PagedResult<AttachmentInfo>, FieldError>)
    requires
        attachments@.len() <= u32::MAX,
    ensures
        content is None ==> (r matches Err(e) && e matches FieldError::NotFound(f) && f@
            == "slug"@),
        content is Some ==> match r {
            Ok(p) => {
                &&& p.page == 1
                &&& p.page_size as int == attachments@.len()
                &&& p.all_count as int == attachments@.len()
                &&& p.count == attachments@.len()
                &&& p.results@.len() == attachments@.len()
                &&& forall|i: int|
                    0 <= i < attachments@.len() ==> spec_info_matches(
                        attachments@[i],
                        #[trigger] p.results@[i],
                    )
            },
            Err(e) => e matches FieldError::DatabaseFailed(_) && exists|i: int|
                0 <= i < attachments@.len() && attachment_fields_of(
                    (#[trigger] attachments@[i]).text@,
                ) is None,
        },
{
    match &content {
        None => {
            return Err(FieldError::NotFound("slug".to_owned()));
        },
        Some(_) => {},
    }
    let ghost orig = attachments@;
    let mut rows = attachments;
    let mut results: Vec<AttachmentInfo> = Vec::new();
    proof {
        assert(rows@ =~= orig.skip(0));
    }
    while rows.len() > 0
        invariant
            results@.len() + rows@.len() == orig.len(),
            rows@ =~= orig.skip(results@.len() as int),
            forall|i: int|
                0 <= i < results@.len() ==> spec_info_matches(orig[i], #[trigger] results@[i]),
        decreases rows@.len(),
    {
        let ghost k = results@.len() as int;
        proof {
            assert(rows@[0] == orig[k]);
            assert(orig.skip(k).remove(0) =~= orig.skip(k + 1));
        }
        let a = rows.remove(0);
        proof {
            assert(a == orig[k]);
        }
        match AttachmentInfo::from_attachment(a) {
            Ok(info) => {
                results.push(info);
                proof {
                    assert(results@[k] == info);
                    assert(spec_info_matches(orig[k], info));
                }
            },
            Err(_) => {
                proof {
                    assert(attachment_fields_of(orig[k].text@) is None);
                }
                return Err(FieldError::DatabaseFailed("attachment decode error".to_owned()));
            },
        }
    }
    let n = results.len() as u32;
    Ok(crate::pagination::PagedResult::assemble(1, n, n, results))
}

} // verus!
