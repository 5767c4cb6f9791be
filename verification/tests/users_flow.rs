use cms_core::errors::FieldError;
use cms_core::posts::{
    create_post_decision, finish_get_post, get_post_plan, post_by_slug_statement,
    slug_exists_statement, PostCreate, PostQuery,
};
use cms_core::query::Param;
use cms_core::role::Role;
use cms_core::token::hash;
use cms_core::user::User;
use cms_core::users::{
    exists_user_statement, finish_modify_user, login_update_statement, modify_user_statement,
    plan_modify_user, register_outcome, register_statement, UserModify, UserRegister,
};

fn user(uid: u32, role: Role) -> User {
    User {
        uid,
        name: String::new(),
        mail: String::new(),
        url: String::new(),
        screen_name: String::new(),
        password: None,
        created: 0,
        role,
    }
}

fn modify(group: &str, password: Option<&str>) -> UserModify {
    UserModify {
        name: "bob".to_string(),
        mail: "bob@example.com".to_string(),
        url: "https://example.com".to_string(),
        screen_name: "Bob".to_string(),
        group: group.to_string(),
        password: password.map(str::to_string),
    }
}

#[test]
fn subscriber_cannot_promote_themselves() {
    let actor = user(5, Role::Subscriber);
    let r = plan_modify_user(&actor, 5, &modify("administrator", None));
    assert_eq!(r.unwrap_err(), FieldError::PermissionDenied);
}

#[test]
fn subscriber_may_modify_themselves_keeping_their_role() {
    let actor = user(5, Role::Subscriber);
    let r = plan_modify_user(&actor, 5, &modify("subscriber", None));
    assert_eq!(r.unwrap(), Role::Subscriber);
}

#[test]
fn non_admin_cannot_modify_someone_else() {
    let actor = user(5, Role::Editor);
    let r = plan_modify_user(&actor, 6, &modify("editor", None));
    assert_eq!(r.unwrap_err(), FieldError::PermissionDenied);
}

#[test]
fn administrator_sets_any_valid_role_and_rejects_unknown_groups() {
    let actor = user(1, Role::Administrator);
    assert_eq!(plan_modify_user(&actor, 6, &modify("editor", None)).unwrap(), Role::Editor);
    assert_eq!(
        plan_modify_user(&actor, 6, &modify("superuser", None)).unwrap_err(),
        FieldError::InvalidParams("group".to_string())
    );
}

#[test]
fn profile_update_binds_every_column_and_the_uid() {
    let q = modify_user_statement(&"typecho_users".to_string(), 6, &modify("editor", None), Role::Editor);
    assert_eq!(
        q.sql,
        "UPDATE typecho_users SET name = ?, mail = ?, url = ?, screenName = ?, group = ? WHERE uid = ?"
    );
    assert_eq!(
        q.params,
        vec![
            Param::Str("bob".to_string()),
            Param::Str("bob@example.com".to_string()),
            Param::Str("https://example.com".to_string()),
            Param::Str("Bob".to_string()),
            Param::Str("editor".to_string()),
            Param::U32(6)
        ]
    );
}

#[test]
fn password_update_binds_only_the_digest_and_the_uid() {
    let q = modify_user_statement(
        &"typecho_users".to_string(),
        6,
        &modify("editor", Some("hunter2")),
        Role::Editor,
    );
    assert_eq!(q.sql, "UPDATE typecho_users SET password = ? WHERE uid = ?");
    assert_eq!(q.params, vec![Param::Str(hash("hunter2")), Param::U32(6)]);
}

#[test]
fn modifying_a_missing_user_names_the_uid_field() {
    let q = exists_user_statement(&"typecho_users".to_string(), 6);
    assert_eq!(q.sql, "SELECT EXISTS (SELECT 1 FROM typecho_users WHERE uid = ?)");
    assert_eq!(q.params, vec![Param::U32(6)]);
    let stmt = modify_user_statement(&"typecho_users".to_string(), 6, &modify("editor", None), Role::Editor);
    assert_eq!(
        finish_modify_user(false, stmt.clone()).unwrap_err(),
        FieldError::NotFound("uid".to_string())
    );
    assert_eq!(finish_modify_user(true, stmt.clone()).unwrap(), stmt);
}

#[test]
fn registration_inserts_a_subscriber_with_a_digest() {
    let reg = UserRegister {
        name: "carol".to_string(),
        mail: "carol@example.com".to_string(),
        url: "https://carol.example".to_string(),
        password: "pw".to_string(),
    };
    let q = register_statement(&"typecho_users".to_string(), &reg, 1234);
    assert_eq!(
        q.sql,
        "INSERT INTO typecho_users (name, mail, url, screenName, password, created, group) VALUES (?, ?, ?, ?, ?, ?, ?)"
    );
    assert_eq!(
        q.params,
        vec![
            Param::Str("carol".to_string()),
            Param::Str("carol@example.com".to_string()),
            Param::Str("https://carol.example".to_string()),
            Param::Str("carol".to_string()),
            Param::Str(hash("pw")),
            Param::U32(1234),
            Param::Str("subscriber".to_string())
        ]
    );
}

#[test]
fn duplicate_registration_is_already_exists() {
    assert_eq!(register_outcome(true, 11).unwrap(), 11);
    assert_eq!(
        register_outcome(false, 0).unwrap_err(),
        FieldError::AlreadyExists("name or mail".to_string())
    );
}

#[test]
fn fetch_statements_bind_their_lookup_key() {
    let q = cms_core::users::user_by_id_statement(&"typecho_users".to_string(), 8);
    assert_eq!(q.sql, "SELECT * FROM typecho_users WHERE uid = ?");
    assert_eq!(q.params, vec![Param::U32(8)]);
    let q = cms_core::users::user_by_name_statement(&"typecho_users".to_string(), &"alice".to_string());
    assert_eq!(q.sql, "SELECT * FROM typecho_users WHERE name = ?");
    assert_eq!(q.params, vec![Param::Str("alice".to_string())]);
    let q = cms_core::attachments::content_by_cid_statement(4);
    assert_eq!(q.sql, "SELECT * FROM typecho_contents WHERE cid = ?");
    assert_eq!(q.params, vec![Param::U32(4)]);
}

#[test]
fn login_bookkeeping_stamps_both_times() {
    let q = login_update_statement(&"typecho_users".to_string(), 999, 42);
    assert_eq!(q.sql, "UPDATE typecho_users SET activated = ?, logged = ? WHERE uid = ?");
    assert_eq!(q.params, vec![Param::U32(999), Param::U32(999), Param::U32(42)]);
}

#[test]
fn taken_slug_fails_with_already_exists_and_no_insert() {
    let pc = PostCreate {
        title: "t".to_string(),
        slug: "hello".to_string(),
        created: 1,
        text: "body".to_string(),
        template: String::new(),
        status: "publish".to_string(),
        password: String::new(),
        allow_comment: "1".to_string(),
        allow_ping: "1".to_string(),
        allow_feed: "1".to_string(),
    };
    let r = create_post_decision(true, &pc, 7, 99);
    assert_eq!(r.unwrap_err(), FieldError::AlreadyExists("slug".to_string()));

    let probe = slug_exists_statement(&"hello".to_string());
    assert_eq!(probe.sql, "SELECT EXISTS (SELECT 1 FROM typecho_contents WHERE slug = ?)");
    assert_eq!(probe.params, vec![Param::Str("hello".to_string())]);

    let q = create_post_decision(false, &pc, 7, 99).unwrap();
    assert_eq!(q.params.len(), 13);
    assert_eq!(q.params[0], Param::Str("post".to_string()));
    assert_eq!(q.params[2], Param::Str("hello".to_string()));
    assert_eq!(q.params[4], Param::U32(99));
    assert_eq!(q.params[6], Param::U32(7));
}

#[test]
fn missing_post_is_not_found_by_slug() {
    let q = post_by_slug_statement(&"hello".to_string());
    assert_eq!(q.sql, "SELECT * FROM typecho_contents WHERE type = ? AND slug = ?");
    assert_eq!(
        finish_get_post(None).unwrap_err(),
        FieldError::NotFound("slug".to_string())
    );
}

#[test]
fn single_post_read_adds_joins_only_when_asked() {
    let (fetch, metas) = get_post_plan(&"hello".to_string(), &PostQuery { with_meta: None });
    assert_eq!(fetch.params[1], Param::Str("hello".to_string()));
    assert!(metas.is_none());
    let (_, metas) = get_post_plan(&"hello".to_string(), &PostQuery { with_meta: Some(true) });
    let (cats, tags) = metas.unwrap();
    assert_eq!(cats.params, vec![Param::Str("category".to_string())]);
    assert_eq!(tags.params, vec![Param::Str("tag".to_string())]);
}
