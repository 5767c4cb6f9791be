//! Role-tiered authorization and safe dynamic query building for a
//! content-management backend.
//!
//! The crate covers the decision core of the service: resolving a bearer
//! credential to an identity, enforcing the role hierarchy and ownership
//! rules, composing parameterized SQL statements whose sort orders come
//! only from a whitelist, and shaping paginated / aggregated results.
//! Route dispatch, the relational store, and file storage are outside
//! collaborators; the functions here hand them finished statements and
//! receive plain rows back.

pub mod errors;
pub mod role;
pub mod aggregate;
pub mod attachments;
pub mod pagination;
pub mod posts;
pub mod query;
pub mod text;
pub mod token;
pub mod user;
pub mod users;
