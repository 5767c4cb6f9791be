use cms_core::errors::FieldError;
use cms_core::query::{build, build_count, compute_offset, Param, Scope};
use cms_core::users::{list_users_plan, users_query_spec, UsersQuery};
use cms_core::posts::{list_posts_plan, posts_query_spec, PostsQuery};

#[test]
fn build_rejects_key_outside_whitelist_and_names_it() {
    let qs = users_query_spec(&"typecho_users".to_string());
    let bad = "malicious; DROP TABLE".to_string();
    let r = build(&qs, &Some(bad.clone()), 1, 10, Scope::All);
    assert_eq!(r.unwrap_err(), FieldError::InvalidParams(bad));
}

#[test]
fn build_never_forwards_unwhitelisted_text() {
    let qs = users_query_spec(&"typecho_users".to_string());
    let q = build(&qs, &Some("-name".to_string()), 2, 5, Scope::All).unwrap();
    assert!(!q.sql.contains("malicious"));
    assert!(!q.sql.contains("DROP"));
    assert_eq!(
        q.sql,
        "SELECT * FROM typecho_users ORDER BY name DESC LIMIT ? OFFSET ?"
    );
    assert_eq!(q.params, vec![Param::U64(5), Param::U64(5)]);
}

#[test]
fn build_uses_default_key_when_none_requested() {
    let qs = users_query_spec(&"typecho_users".to_string());
    let q = build(&qs, &None, 1, 10, Scope::All).unwrap();
    assert_eq!(q.sql, "SELECT * FROM typecho_users ORDER BY uid DESC LIMIT ? OFFSET ?");
    assert_eq!(q.params, vec![Param::U64(10), Param::U64(0)]);
}

#[test]
fn build_binds_kind_and_scope_as_parameters() {
    let qs = posts_query_spec();
    let q = build(&qs, &None, 1, 10, Scope::OwnedBy(3)).unwrap();
    assert_eq!(
        q.sql,
        "SELECT * FROM typecho_contents WHERE type = ? AND authorId = ? ORDER BY cid LIMIT ? OFFSET ?"
    );
    assert_eq!(
        q.params,
        vec![
            Param::Str("post".to_string()),
            Param::U32(3),
            Param::U64(10),
            Param::U64(0)
        ]
    );
}

#[test]
fn count_statement_shares_predicate_without_pagination() {
    let qs = posts_query_spec();
    let q = build_count(&qs, Scope::All);
    assert_eq!(q.sql, "SELECT COUNT(*) FROM typecho_contents WHERE type = ?");
    assert_eq!(q.params, vec![Param::Str("post".to_string())]);
}

#[test]
fn offset_is_page_minus_one_times_page_size() {
    assert_eq!(compute_offset(1, 10), 0);
    assert_eq!(compute_offset(3, 10), 20);
    assert_eq!(compute_offset(7, 13), 78);
    assert_eq!(compute_offset(u32::MAX, u32::MAX), (u32::MAX as u64 - 1) * u32::MAX as u64);
}

#[test]
fn listing_posts_with_malicious_order_key_is_rejected_before_any_statement() {
    let qs = posts_query_spec();
    let q = PostsQuery {
        page: Some(1),
        page_size: Some(10),
        order_by: Some("malicious; DROP TABLE".to_string()),
        with_meta: None,
    };
    let r = list_posts_plan(&qs, &q);
    assert_eq!(
        r.unwrap_err(),
        FieldError::InvalidParams("malicious; DROP TABLE".to_string())
    );
}

#[test]
fn listing_posts_with_meta_adds_both_channel_joins() {
    let qs = posts_query_spec();
    let q = PostsQuery {
        page: None,
        page_size: None,
        order_by: Some("-cid".to_string()),
        with_meta: Some(true),
    };
    let p = list_posts_plan(&qs, &q).unwrap();
    assert_eq!(p.list.page, 1);
    assert_eq!(p.list.page_size, 10);
    let (cats, tags) = p.meta_queries.unwrap();
    assert!(cats.sql.contains("typecho_relationships"));
    assert_eq!(cats.params, vec![Param::Str("category".to_string())]);
    assert_eq!(tags.params, vec![Param::Str("tag".to_string())]);
}

#[test]
fn listing_users_rejects_zero_page() {
    let qs = users_query_spec(&"typecho_users".to_string());
    let q = UsersQuery { page: Some(0), page_size: Some(10), order_by: None };
    assert_eq!(
        list_users_plan(&qs, &q).unwrap_err(),
        FieldError::InvalidParams("page".to_string())
    );
}

#[test]
fn listing_users_composes_page_and_count() {
    let qs = users_query_spec(&"typecho_users".to_string());
    let q = UsersQuery { page: Some(2), page_size: Some(25), order_by: Some("mail".to_string()) };
    let p = list_users_plan(&qs, &q).unwrap();
    assert_eq!(p.page, 2);
    assert_eq!(p.page_size, 25);
    assert_eq!(p.page_query.sql, "SELECT * FROM typecho_users ORDER BY mail LIMIT ? OFFSET ?");
    assert_eq!(p.page_query.params, vec![Param::U64(25), Param::U64(25)]);
    assert_eq!(p.count_query.sql, "SELECT COUNT(*) FROM typecho_users");
    assert_eq!(p.count_query.params, Vec::<Param>::new());
}
