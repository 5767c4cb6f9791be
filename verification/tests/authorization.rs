use cms_core::errors::FieldError;
use cms_core::role::Role;
use cms_core::user::{authorize_on, require, PMAdministrator, PMContributor, PMEditor, PMSubscriber, User};
use cms_core::users::{finish_view_user, plan_view_user, UserFetchPlan};

fn user(uid: u32, role: Role) -> User {
    User {
        uid,
        name: format!("user{uid}"),
        mail: format!("user{uid}@example.com"),
        url: String::new(),
        screen_name: format!("User {uid}"),
        password: None,
        created: 0,
        role,
    }
}

const ROLES: [Role; 4] = [Role::Subscriber, Role::Contributor, Role::Editor, Role::Administrator];

#[test]
fn require_matches_tier_order_exhaustively() {
    for &actor_role in &ROLES {
        for &minimum in &ROLES {
            let r = require(user(1, actor_role), minimum);
            if actor_role.tier() >= minimum.tier() {
                assert_eq!(r.unwrap().role, actor_role);
            } else {
                assert_eq!(r.unwrap_err(), FieldError::PermissionDenied);
            }
        }
    }
}

#[test]
fn tier_order_is_subscriber_contributor_editor_administrator() {
    assert_eq!(Role::Subscriber.tier(), 0);
    assert_eq!(Role::Contributor.tier(), 1);
    assert_eq!(Role::Editor.tier(), 2);
    assert_eq!(Role::Administrator.tier(), 3);
}

#[test]
fn gates_accept_exactly_at_or_above_their_tier() {
    for &role in &ROLES {
        assert_eq!(PMSubscriber::accept(user(1, role)).is_ok(), role.tier() >= 0);
        assert_eq!(PMContributor::accept(user(1, role)).is_ok(), role.tier() >= 1);
        assert_eq!(PMEditor::accept(user(1, role)).is_ok(), role.tier() >= 2);
        assert_eq!(PMAdministrator::accept(user(1, role)).is_ok(), role.tier() >= 3);
    }
}

#[test]
fn ownership_holds_iff_owner_or_editor_tier() {
    let ids: [u32; 5] = [0, 1, 7, 42, u32::MAX];
    for &actor_id in &ids {
        for &owner_id in &ids {
            for &role in &ROLES {
                let r = authorize_on(&user(actor_id, role), owner_id);
                let expected = actor_id == owner_id || role.tier() >= Role::Editor.tier();
                assert_eq!(r.is_ok(), expected, "actor {actor_id} owner {owner_id} {role:?}");
                if r.is_err() {
                    assert_eq!(r.unwrap_err(), FieldError::PermissionDenied);
                }
            }
        }
    }
}

#[test]
fn identity_is_built_from_the_stored_group() {
    let u = cms_core::user::user_from_row(
        3,
        "carol".to_string(),
        "carol@example.com".to_string(),
        String::new(),
        "Carol".to_string(),
        None,
        0,
        &"editor".to_string(),
    )
    .unwrap();
    assert_eq!(u.uid, 3);
    assert_eq!(u.role, Role::Editor);
    let r = cms_core::user::user_from_row(
        3,
        String::new(),
        String::new(),
        String::new(),
        String::new(),
        None,
        0,
        &"bogus".to_string(),
    );
    assert_eq!(r.unwrap_err(), FieldError::PermissionDenied);
}

#[test]
fn role_group_names_round_trip() {
    for &role in &ROLES {
        assert_eq!(Role::from_group(&role.group_name()), Some(role));
    }
    assert_eq!(Role::from_group(&"root".to_string()), None);
    assert_eq!(Role::from_group(&"".to_string()), None);
}

#[test]
fn subscriber_reading_other_user_is_denied() {
    let actor = user(5, Role::Subscriber);
    let r = plan_view_user(&actor, 7);
    assert_eq!(r.unwrap_err(), FieldError::PermissionDenied);
}

#[test]
fn subscriber_reading_self_gets_own_record() {
    let actor = user(5, Role::Subscriber);
    let r = plan_view_user(&actor, 5);
    assert_eq!(r.unwrap(), UserFetchPlan::UseSelf);
}

#[test]
fn administrator_reading_other_user_fetches_without_password() {
    let actor = user(1, Role::Administrator);
    assert_eq!(plan_view_user(&actor, 9).unwrap(), UserFetchPlan::FetchOther);
    let mut target = user(9, Role::Subscriber);
    target.password = Some("digest".to_string());
    let shaped = finish_view_user(Some(target)).unwrap();
    assert_eq!(shaped.uid, 9);
    assert_eq!(shaped.password, None);
}

#[test]
fn fetching_missing_user_names_the_uid_field() {
    assert_eq!(finish_view_user(None).unwrap_err(), FieldError::NotFound("uid".to_string()));
}
