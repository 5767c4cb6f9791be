//! User operations: listing, reading, modifying, registration, and login.

use vstd::prelude::*;
use vstd::string::StringExecFns;

use crate::errors::FieldError;
use crate::query::{
    list_plan, spec_count_sql, spec_offset, spec_order_key, spec_select_sql, wl_lookup, BuiltQuery,
    ListPlan, OrderPair, Param, QuerySpec, Scope,
};
use crate::role::{spec_role_of, Role};
use crate::token::spec_hash_str;
use crate::user::User;

verus! {

/// The query parameters of a user listing request.
#[derive(Debug, Clone)]
pub struct UsersQuery {
    pub page: Option<u32>,
    pub page_size: Option<u32>,
    pub order_by: Option<String>,
}

/// The payload of a registration request.
#[derive(Debug, Clone)]
pub struct UserRegister {
    pub name: String,
    pub mail: String,
    pub url: String,
    pub password: String,
}

/// The payload of a login request.
#[derive(Debug, Clone)]
pub struct UserLogin {
    pub name: String,
    pub password: String,
}

/// The payload of a user modification request.
#[derive(Debug, Clone)]
pub struct UserModify {
    pub name: String,
    pub mail: String,
    pub url: String,
    pub screen_name: String,
    pub group: String,
    pub password: Option<String>,
}

impl UsersQuery {
    /// Whether the raw parameters are acceptable: pages and page sizes
    /// start at one.
    pub open spec fn spec_valid(&self) -> bool {
        &&& (self.page matches Some(p) ==> p >= 1)
        &&& (self.page_size matches Some(s) ==> s >= 1)
    }

    /// Validates the raw parameters, naming the offending field.
    pub fn validate(&self) -> (r: Result<(), FieldError>)
        ensures
            self.spec_valid() <==> r is Ok,
            r matches Err(e) ==> e matches FieldError::InvalidParams(_),
    {
        match self.page {
            Some(p) if p < 1 => {
                return Err(FieldError::InvalidParams("page".to_owned()));
            },
            _ => {},
        }
        match self.page_size {
            Some(s) if s < 1 => {
                return Err(FieldError::InvalidParams("page_size".to_owned()));
            },
            _ => {},
        }
        Ok(())
    }
}

/// The order whitelist of the user listing: uid, name, and mail, each
/// ascending or descending.
pub open spec fn spec_users_frag(key: Seq<char>) -> Option<Seq<char>> {
    if key == "uid"@ {
        Some("uid"@)
    } else if key == "-uid"@ {
        Some("uid DESC"@)
    } else if key == "name"@ {
        Some("name"@)
    } else if key == "-name"@ {
        Some("name DESC"@)
    } else if key == "mail"@ {
        Some("mail"@)
    } else if key == "-mail"@ {
        Some("mail DESC"@)
    } else {
        None
    }
}

/// The query shape of the user listing: the configured users table, no
/// kind filter, ordered by uid descending unless asked otherwise.
pub fn users_query_spec(users_table: &String) -> (r: QuerySpec)
    ensures
        r.table@ == users_table@,
        r.default_order_key@ == "-uid"@,
        r.kind_filter is None,
        forall|key: Seq<char>| wl_lookup(r.whitelist@, key) == spec_users_frag(key),
{
    let mut wl: Vec<OrderPair> = Vec::new();
    wl.push(OrderPair { key: "uid".to_owned(), fragment: "uid".to_owned() });
    wl.push(OrderPair { key: "-uid".to_owned(), fragment: "uid DESC".to_owned() });
    wl.push(OrderPair { key: "name".to_owned(), fragment: "name".to_owned() });
    wl.push(OrderPair { key: "-name".to_owned(), fragment: "name DESC".to_owned() });
    wl.push(OrderPair { key: "mail".to_owned(), fragment: "mail".to_owned() });
    wl.push(OrderPair { key: "-mail".to_owned(), fragment: "mail DESC".to_owned() });
    proof {
        assert forall|key: Seq<char>| wl_lookup(wl@, key) == spec_users_frag(key) by {
            reveal_with_fuel(wl_lookup, 8);
            assert(wl@.len() == 6);
            assert(wl@.drop_first()[0] == wl@[1]);
            assert(wl@.drop_first().drop_first()[0] == wl@[2]);
            assert(wl@.drop_first().drop_first().drop_first()[0] == wl@[3]);
            assert(wl@.drop_first().drop_first().drop_first().drop_first()[0] == wl@[4]);
            assert(wl@.drop_first().drop_first().drop_first().drop_first().drop_first()[0]
                == wl@[5]);
        }
    }
    QuerySpec {
        table: users_table.clone(),
        whitelist: wl,
        default_order_key: "-uid".to_owned(),
        kind_filter: None,
    }
}

/// Plans the user listing: validates the raw parameters, applies the
/// defaults (page 1, page size 10, order by uid descending), and composes
/// the page and count statements over the whole table.
pub fn list_users_plan(qs: &QuerySpec, q: &UsersQuery) -> (r: Result<ListPlan, FieldError>)
    ensures
        !q.spec_valid() ==> (r matches Err(e) && e matches FieldError::InvalidParams(_)),
        q.spec_valid() ==> match wl_lookup(qs.whitelist@, spec_order_key(qs, q.order_by)) {
            Some(frag) => r matches Ok(p) && {
                &&& p.page == (match q.page {
                    Some(pg) => pg,
                    None => 1u32,
                })
                &&& p.page_size == (match q.page_size {
                    Some(sz) => sz,
                    None => 10u32,
                })
                &&& p.page_query.sql@ == spec_select_sql(
                    qs.table@,
                    crate::query::spec_where_sql(qs.kind_filter, Scope::All),
                    frag,
                )
                &&& p.page_query.params@ == crate::query::spec_where_params(
                    qs.kind_filter,
                    Scope::All,
                ) + seq![
                    Param::U64(p.page_size as u64),
                    Param::U64(spec_offset(p.page as int, p.page_size as int) as u64),
                ]
                &&& p.count_query.sql@ == spec_count_sql(
                    qs.table@,
                    crate::query::spec_where_sql(qs.kind_filter, Scope::All),
                )
                &&& p.count_query.params@ == crate::query::spec_where_params(
                    qs.kind_filter,
                    Scope::All,
                )
            },
            None => r matches Err(e) && e matches FieldError::InvalidParams(f) && f@
                == spec_order_key(qs, q.order_by),
        },
{
    if let Err(e) = q.validate() {
        return Err(e);
    }
    let page = match q.page {
        Some(p) => p,
        None => 1,
    };
    let page_size = match q.page_size {
        Some(s) => s,
        None => 10,
    };
    list_plan(qs, &q.order_by, page, page_size, Scope::All)
}

/// How a user read request proceeds once authorized.
#[derive(Debug, Clone, Copy, PartialEq, Eq, Structural)]
pub enum UserFetchPlan {
    /// The actor asked for themselves: answer with the actor's own record.
    UseSelf,
    /// An administrator asked for someone else: fetch that record.
    FetchOther,
}

/// Decides a user read: anyone may read themselves; only an administrator
/// may read someone else, and everyone else is denied uniformly.
pub fn plan_view_user(actor: &User, uid: u32) -> (r: Result<UserFetchPlan, FieldError>)
    ensures
        actor.uid == uid ==> r == Ok::<UserFetchPlan, FieldError>(UserFetchPlan::UseSelf),
        actor.uid != uid && actor.role == Role::Administrator ==> r == Ok::<
            UserFetchPlan,
            FieldError,
        >(UserFetchPlan::FetchOther),
        actor.uid != uid && actor.role != Role::Administrator ==> r == Err::<
            UserFetchPlan,
            FieldError,
        >(FieldError::PermissionDenied),
{
    if actor.uid == uid {
        Ok(UserFetchPlan::UseSelf)
    } else if matches!(actor.role, Role::Administrator) {
        Ok(UserFetchPlan::FetchOther)
    } else {
        Err(FieldError::PermissionDenied)
    }
}

/// Shapes the record an administrator fetched for someone else: the
/// stored digest never leaves the store layer, and a uid nobody holds is
/// a missing resource.
pub fn finish_view_user(fetched: Option<User>) -> (r: Result<User, FieldError>)
    ensures
        match fetched {
            Some(u) => r matches Ok(v) && v == User { password: None, ..u },
            None => r matches Err(e) && e matches FieldError::NotFound(f) && f@ == "uid"@,
        },
{
    match fetched {
        Some(mut u) => {
            u.password = None;
            Ok(u)
        },
        None => Err(FieldError::NotFound("uid".to_owned())),
    }
}

/// Decides a user modification: an administrator may set any valid role
/// on anyone; anyone else may modify only themselves and only without
/// changing their role.  Returns the role the record will carry.
pub fn plan_modify_user(actor: &User, uid: u32, m: &UserModify) -> (r: Result<Role, FieldError>)
    ensures
        ({
            let requested = spec_role_of(m.group@);
            if actor.role == Role::Administrator {
                match requested {
                    Some(role) => r == Ok::<Role, FieldError>(role),
                    None => r matches Err(e) && e matches FieldError::InvalidParams(f) && f@
                        == "group"@,
                }
            } else if actor.uid == uid && requested == Some(actor.role) {
                r == Ok::<Role, FieldError>(actor.role)
            } else {
                r == Err::<Role, FieldError>(FieldError::PermissionDenied)
            }
        }),
{
    let requested = Role::from_group(&m.group);
    if matches!(actor.role, Role::Administrator) {
        match requested {
            Some(role) => Ok(role),
            None => Err(FieldError::InvalidParams("group".to_owned())),
        }
    } else {
        match requested {
            Some(role) if actor.uid == uid && role == actor.role => Ok(role),
            _ => Err(FieldError::PermissionDenied),
        }
    }
}

/// The text of the by-id user fetch.
pub open spec fn spec_user_by_id_sql(t: Seq<char>) -> Seq<char> {
    "SELECT * FROM "@ + t + " WHERE uid = ?"@
}

/// Composes the by-id user fetch that re-reads an identity.
pub fn user_by_id_statement(users_table: &String, uid: u32) -> (q: BuiltQuery)
    ensures
        q.sql@ == spec_user_by_id_sql(users_table@),
        q.params@ == seq![Param::U32(uid)],
{
    let mut sql = "SELECT * FROM ".to_owned();
    sql.append(users_table.as_str());
    sql.append(" WHERE uid = ?");
    let mut params: Vec<Param> = Vec::new();
    params.push(Param::U32(uid));
    proof {
        assert(sql@ =~= spec_user_by_id_sql(users_table@));
        assert(params@ =~= seq![Param::U32(uid)]);
    }
    BuiltQuery { sql, params }
}

/// The text of the by-name user fetch.
pub open spec fn spec_user_by_name_sql(t: Seq<char>) -> Seq<char> {
    "SELECT * FROM "@ + t + " WHERE name = ?"@
}

/// Composes the by-name user fetch that a login starts with.
pub fn user_by_name_statement(users_table: &String, name: &String) -> (q: BuiltQuery)
    ensures
        q.sql@ == spec_user_by_name_sql(users_table@),
        q.params@ == seq![Param::Str(*name)],
{
    let mut sql = "SELECT * FROM ".to_owned();
    sql.append(users_table.as_str());
    sql.append(" WHERE name = ?");
    let mut params: Vec<Param> = Vec::new();
    params.push(Param::Str(name.clone()));
    proof {
        assert(sql@ =~= spec_user_by_name_sql(users_table@));
        assert(params@ =~= seq![Param::Str(*name)]);
    }
    BuiltQuery { sql, params }
}

/// The text of the existence probe for a user id.
pub open spec fn spec_exists_user_sql(t: Seq<char>) -> Seq<char> {
    "SELECT EXISTS (SELECT 1 FROM "@ + t + " WHERE uid = ?)"@
}

/// Composes the existence probe for a user id.
pub fn exists_user_statement(users_table: &String, uid: u32) -> (q: BuiltQuery)
    ensures
        q.sql@ == spec_exists_user_sql(users_table@),
        q.params@ == seq![Param::U32(uid)],
{
    let mut sql = "SELECT EXISTS (SELECT 1 FROM ".to_owned();
    sql.append(users_table.as_str());
    sql.append(" WHERE uid = ?)");
    let mut params: Vec<Param> = Vec::new();
    params.push(Param::U32(uid));
    proof {
        assert(sql@ =~= spec_exists_user_sql(users_table@));
        assert(params@ =~= seq![Param::U32(uid)]);
    }
    BuiltQuery { sql, params }
}

/// The text of the profile update statement.
pub open spec fn spec_update_profile_sql(t: Seq<char>) -> Seq<char> {
    "UPDATE "@ + t + " SET name = ?, mail = ?, url = ?, screenName = ?, group = ? WHERE uid = ?"@
}

/// The text of the password update statement.
pub open spec fn spec_update_password_sql(t: Seq<char>) -> Seq<char> {
    "UPDATE "@ + t + " SET password = ? WHERE uid = ?"@
}

/// Composes the update statement an authorized modification runs: a
/// password change updates only the stored digest; anything else updates
/// the profile columns, with the role bound as its group name.
pub fn modify_user_statement(users_table: &String, uid: u32, m: &UserModify, role: Role) -> (q:
    BuiltQuery)
    ensures
        match m.password {
            Some(p) => {
                &&& q.sql@ == spec_update_password_sql(users_table@)
                &&& q.params@.len() == 2
                &&& (q.params@[0] matches Param::Str(h) && h@ == spec_hash_str(p@))
                &&& q.params@[1] == Param::U32(uid)
            },
            None => {
                &&& q.sql@ == spec_update_profile_sql(users_table@)
                &&& q.params@.len() == 6
                &&& q.params@[0] == Param::Str(m.name)
                &&& q.params@[1] == Param::Str(m.mail)
                &&& q.params@[2] == Param::Str(m.url)
                &&& q.params@[3] == Param::Str(m.screen_name)
                &&& (q.params@[4] matches Param::Str(g) && g@ == crate::role::spec_group_name(
                    role,
                ))
                &&& q.params@[5] == Param::U32(uid)
            },
        },
{
    match &m.password {
        Some(p) => {
            let hp = crate::token::hash(p.as_str());
            let mut sql = "UPDATE ".to_owned();
            sql.append(users_table.as_str());
            sql.append(" SET password = ? WHERE uid = ?");
            let mut params: Vec<Param> = Vec::new();
            params.push(Param::Str(hp));
            params.push(Param::U32(uid));
            proof {
                assert(sql@ =~= spec_update_password_sql(users_table@));
            }
            BuiltQuery { sql, params }
        },
        None => {
            let mut sql = "UPDATE ".to_owned();
            sql.append(users_table.as_str());
            sql.append(" SET name = ?, mail = ?, url = ?, screenName = ?, group = ? WHERE uid = ?");
            let mut params: Vec<Param> = Vec::new();
            params.push(Param::Str(m.name.clone()));
            params.push(Param::Str(m.mail.clone()));
            params.push(Param::Str(m.url.clone()));
            params.push(Param::Str(m.screen_name.clone()));
            params.push(Param::Str(role.group_name()));
            params.push(Param::U32(uid));
            proof {
                assert(sql@ =~= spec_update_profile_sql(users_table@));
            }
            BuiltQuery { sql, params }
        },
    }
}

/// The decision on the store's answer to the existence probe: updating a
/// user that is not there is a missing resource, named by its uid, and no
/// update statement leaves this function for it.
pub fn finish_modify_user(user_exists: bool, statement: BuiltQuery) -> (r: Result<
    BuiltQuery,
    FieldError,
>)
    ensures
        user_exists ==> (r matches Ok(q) && q == statement),
        !user_exists ==> (r matches Err(e) && e matches FieldError::NotFound(f) && f@ == "uid"@),
{
    if user_exists {
        Ok(statement)
    } else {
        Err(FieldError::NotFound("uid".to_owned()))
    }
}

/// The text of the registration insert.  New accounts always start as
/// subscribers; the screen name starts out equal to the login name.
pub open spec fn spec_insert_user_sql(t: Seq<char>) -> Seq<char> {
    "INSERT INTO "@ + t
        + " (name, mail, url, screenName, password, created, group) VALUES (?, ?, ?, ?, ?, ?, ?)"@
}

/// Composes the registration insert: the password is stored as its
/// digest, and the account starts at Subscriber tier.
pub fn register_statement(users_table: &String, reg: &UserRegister, now: u32) -> (q: BuiltQuery)
    ensures
        q.sql@ == spec_insert_user_sql(users_table@),
        q.params@.len() == 7,
        q.params@[0] == Param::Str(reg.name),
        q.params@[1] == Param::Str(reg.mail),
        q.params@[2] == Param::Str(reg.url),
        q.params@[3] == Param::Str(reg.name),
        (q.params@[4] matches Param::Str(h) && h@ == spec_hash_str(reg.password@)),
        q.params@[5] == Param::U32(now),
        (q.params@[6] matches Param::Str(g) && g@ == crate::role::spec_group_name(
            Role::Subscriber,
        )),
{
    let hp = crate::token::hash(reg.password.as_str());
    let mut sql = "INSERT INTO ".to_owned();
    sql.append(users_table.as_str());
    sql.append(" (name, mail, url, screenName, password, created, group) VALUES (?, ?, ?, ?, ?, ?, ?)");
    let mut params: Vec<Param> = Vec::new();
    params.push(Param::Str(reg.name.clone()));
    params.push(Param::Str(reg.mail.clone()));
    params.push(Param::Str(reg.url.clone()));
    params.push(Param::Str(reg.name.clone()));
    params.push(Param::Str(hp));
    params.push(Param::U32(now));
    params.push(Param::Str(Role::Subscriber.group_name()));
    proof {
        assert(sql@ =~= spec_insert_user_sql(users_table@));
    }
    BuiltQuery { sql, params }
}

/// The decision on the store's answer to the insert: the only expected
/// failure is the uniqueness constraint over names and mails.
pub fn register_outcome(insert_ok: bool, new_id: u32) -> (r: Result<u32, FieldError>)
    ensures
        insert_ok ==> r == Ok::<u32, FieldError>(new_id),
        !insert_ok ==> (r matches Err(e) && e matches FieldError::AlreadyExists(f) && f@
            == "name or mail"@),
{
    if insert_ok {
        Ok(new_id)
    } else {
        Err(FieldError::AlreadyExists("name or mail".to_owned()))
    }
}

/// Checks a login against the fetched record: succeeds exactly when the
/// record exists and carries the digest of the presented password; any
/// other outcome is the same bad-credentials failure.
pub fn authenticate(fetched: Option<User>, password: &String) -> (r: Result<User, FieldError>)
    ensures
        match fetched {
            Some(u) => {
                if u.password matches Some(d) && d@ == spec_hash_str(password@) {
                    r matches Ok(v) && v == u
                } else {
                    r == Err::<User, FieldError>(FieldError::Unauthenticated)
                }
            },
            None => r == Err::<User, FieldError>(FieldError::Unauthenticated),
        },
{
    let presented = crate::token::hash(password.as_str());
    match fetched {
        Some(u) => {
            let ok = match &u.password {
                Some(d) => *d == presented,
                None => false,
            };
            if ok {
                Ok(u)
            } else {
                Err(FieldError::Unauthenticated)
            }
        },
        None => Err(FieldError::Unauthenticated),
    }
}

/// The text of the post-login bookkeeping update.
pub open spec fn spec_login_update_sql(t: Seq<char>) -> Seq<char> {
    "UPDATE "@ + t + " SET activated = ?, logged = ? WHERE uid = ?"@
}

/// Composes the post-login bookkeeping update: stamps the activation and
/// login times of the account that just signed in.
pub fn login_update_statement(users_table: &String, now: u32, uid: u32) -> (q: BuiltQuery)
    ensures
        q.sql@ == spec_login_update_sql(users_table@),
        q.params@ == seq![Param::U32(now), Param::U32(now), Param::U32(uid)],
{
    let mut sql = "UPDATE ".to_owned();
    sql.append(users_table.as_str());
    sql.append(" SET activated = ?, logged = ? WHERE uid = ?");
    let mut params: Vec<Param> = Vec::new();
    params.push(Param::U32(now));
    params.push(Param::U32(now));
    params.push(Param::U32(uid));
    proof {
        assert(sql@ =~= spec_login_update_sql(users_table@));
        assert(params@ =~= seq![Param::U32(now), Param::U32(now), Param::U32(uid)]);
    }
    BuiltQuery { sql, params }
}

} // verus!
