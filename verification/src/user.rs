//! Identities, the role hierarchy gate, and the ownership policy.

use vstd::prelude::*;

use crate::errors::FieldError;
use crate::role::{spec_role_of, spec_satisfies, Role};

verus! {

/// A resolved identity: the user record as read back from the store for
/// the current request, with the group already parsed into a [`Role`].
#[derive(Debug, Clone)]
pub struct User {
    pub uid: u32,
    pub name: String,
    pub mail: String,
    pub url: String,
    pub screen_name: String,
    pub password: Option<String>,
    pub created: u32,
    pub role: Role,
}

/// A payload that has already passed its validation checks.
pub struct ValidatedJson<T>(pub T);

/// Builds the request identity from the columns the store returned,
/// parsing the stored group into its role.  The role comes from the store,
/// never from the token body, so role changes take effect on the next
/// request; a row whose group is no known role is denied, as the gates
/// treat it.
pub fn user_from_row(
    uid: u32,
    name: String,
    mail: String,
    url: String,
    screen_name: String,
    password: Option<String>,
    created: u32,
    group: &String,
) -> (r: Result<User, FieldError>)
    ensures
        match spec_role_of(group@) {
            Some(role) => r matches Ok(u) && u == (User {
                uid,
                name,
                mail,
                url,
                screen_name,
                password,
                created,
                role,
            }),
            None => r == Err::<User, FieldError>(FieldError::PermissionDenied),
        },
{
    match Role::from_group(group) {
        Some(role) => Ok(User { uid, name, mail, url, screen_name, password, created, role }),
        None => Err(FieldError::PermissionDenied),
    }
}

/// Role hierarchy gate: succeeds exactly when the identity's tier meets
/// the required minimum, and hands the identity back unchanged.
pub fn require(user: User, minimum: Role) -> (r: Result<User, FieldError>)
    ensures
        spec_satisfies(user.role, minimum) <==> r is Ok,
        r matches Ok(u) ==> u == user,
        r matches Err(e) ==> e == FieldError::PermissionDenied,
{
    if user.role.satisfies(minimum) {
        Ok(user)
    } else {
        Err(FieldError::PermissionDenied)
    }
}

/// Whether an actor may act on a resource owned by `owner_id`: the owner
/// themselves, or anyone at Editor tier or above.
pub open spec fn spec_owns(user: &User, owner_id: u32) -> bool {
    user.uid == owner_id || spec_satisfies(user.role, Role::Editor)
}

/// Ownership policy: succeeds exactly when the actor is the owner or
/// holds Editor tier or above.  The failure is a uniform denial so a
/// non-owner below Editor cannot probe whether a resource exists.
pub fn authorize_on(user: &User, owner_id: u32) -> (r: Result<(), FieldError>)
    ensures
        spec_owns(user, owner_id) <==> r is Ok,
        r matches Err(e) ==> e == FieldError::PermissionDenied,
{
    if user.uid == owner_id || user.role.satisfies(Role::Editor) {
        Ok(())
    } else {
        Err(FieldError::PermissionDenied)
    }
}

/// An identity accepted at Subscriber tier or above.
pub struct PMSubscriber(pub User);

/// An identity accepted at Contributor tier or above.
pub struct PMContributor(pub User);

/// An identity accepted at Editor tier or above.
pub struct PMEditor(pub User);

/// An identity accepted at Administrator tier.
pub struct PMAdministrator(pub User);

impl PMSubscriber {
    /// Accepts any identity whose tier is at least Subscriber.
    pub fn accept(user: User) -> (r: Result<PMSubscriber, FieldError>)
        ensures
            spec_satisfies(user.role, Role::Subscriber) <==> r is Ok,
            r matches Ok(g) ==> g.0 == user,
            r matches Err(e) ==> e == FieldError::PermissionDenied,
    {
        match require(user, Role::Subscriber) {
            Ok(u) => Ok(PMSubscriber(u)),
            Err(e) => Err(e),
        }
    }
}

impl PMContributor {
    /// Accepts any identity whose tier is at least Contributor.
    pub fn accept(user: User) -> (r: Result<PMContributor, FieldError>)
        ensures
            spec_satisfies(user.role, Role::Contributor) <==> r is Ok,
            r matches Ok(g) ==> g.0 == user,
            r matches Err(e) ==> e == FieldError::PermissionDenied,
    {
        match require(user, Role::Contributor) {
            Ok(u) => Ok(PMContributor(u)),
            Err(e) => Err(e),
        }
    }
}

impl PMEditor {
    /// Accepts any identity whose tier is at least Editor.
    pub fn accept(user: User) -> (r: Result<PMEditor, FieldError>)
        ensures
            spec_satisfies(user.role, Role::Editor) <==> r is Ok,
            r matches Ok(g) ==> g.0 == user,
            r matches Err(e) ==> e == FieldError::PermissionDenied,
    {
        match require(user, Role::Editor) {
            Ok(u) => Ok(PMEditor(u)),
            Err(e) => Err(e),
        }
    }
}

impl PMAdministrator {
    /// Accepts only an Administrator identity.
    pub fn accept(user: User) -> (r: Result<PMAdministrator, FieldError>)
        ensures
            spec_satisfies(user.role, Role::Administrator) <==> r is Ok,
            r matches Ok(g) ==> g.0 == user,
            r matches Err(e) ==> e == FieldError::PermissionDenied,
    {
        match require(user, Role::Administrator) {
            Ok(u) => Ok(PMAdministrator(u)),
            Err(e) => Err(e),
        }
    }
}

} // verus!
