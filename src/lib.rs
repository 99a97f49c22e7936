//! Entitlement resolution for community roles: classification of sponsorship
//! records into tiers, a time-bounded snapshot cache, an ordered license
//! check chain and the table that maps entitlements to roles.

pub mod cache;
pub mod github;
pub mod license;
pub mod roles;
