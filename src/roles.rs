//! The role table: which community role each resolved entitlement earns.

use vstd::prelude::*;

use crate::github::SponsorLevel;
use crate::license::LicenseStatus;

verus! {

pub const GITHUB_SPONSORS_TIER_S_ROLE_ID: &'static str = "1355695106195460397";

pub const GITHUB_SPONSORS_TIER_1_ROLE_ID: &'static str = "1355669933446664284";

pub const GITHUB_SPONSORS_TIER_2_ROLE_ID: &'static str = "1355670153722855474";

pub const GITHUB_SPONSORS_TIER_3_ROLE_ID: &'static str = "1355670200154067125";

pub const GITHUB_SPONSORS_ALUMNI_ROLE_ID: &'static str = "1355669718983250103";

pub const LICENSE_HOLDER_ROLE_ID: &'static str = "1327709840914780172";

pub const AUDIT_LOG_CHANNEL_ID: &'static str = "1355672655042183198";

/// A role to assign: its identifier and its display name.
pub struct RoleAssignment {
    pub role_id: String,
    pub role_name: String,
}

/// A role identifier that the table does not name.
#[derive(PartialEq, Eq, Structural, Clone, Copy, Debug)]
pub struct UnmappedRole;

/// The role identifier that a sponsor level earns; none for an unrecognized user.
pub open spec fn sponsor_role_id_of(level: SponsorLevel) -> Option<Seq<char>> {
    match level {
        SponsorLevel::OneDollar | SponsorLevel::OneTime => Some(GITHUB_SPONSORS_TIER_3_ROLE_ID@),
        SponsorLevel::FiveDollar => Some(GITHUB_SPONSORS_TIER_2_ROLE_ID@),
        SponsorLevel::TenDollar => Some(GITHUB_SPONSORS_TIER_1_ROLE_ID@),
        SponsorLevel::TwentyDollar => Some(GITHUB_SPONSORS_TIER_S_ROLE_ID@),
        SponsorLevel::Alumni => Some(GITHUB_SPONSORS_ALUMNI_ROLE_ID@),
        SponsorLevel::Unrecognized => None,
    }
}

/// The display name of a sponsor role identifier.
pub open spec fn sponsor_role_name_of(id: Seq<char>) -> Option<Seq<char>> {
    if id == GITHUB_SPONSORS_TIER_S_ROLE_ID@ {
        Some("GitHub Sponsors: Tier S"@)
    } else if id == GITHUB_SPONSORS_TIER_1_ROLE_ID@ {
        Some("GitHub Sponsors: Tier 1"@)
    } else if id == GITHUB_SPONSORS_TIER_2_ROLE_ID@ {
        Some("GitHub Sponsors: Tier 2"@)
    } else if id == GITHUB_SPONSORS_TIER_3_ROLE_ID@ {
        Some("GitHub Sponsors: Tier 3"@)
    } else if id == GITHUB_SPONSORS_ALUMNI_ROLE_ID@ {
        Some("GitHub Sponsors: Alumni"@)
    } else {
        None
    }
}

/// The role identifier that `level` earns.
pub fn sponsor_role_id(level: SponsorLevel) -> (r: Option<String>)
    ensures
        r is Some <==> sponsor_role_id_of(level) is Some,
        r is Some ==> Some(r->0@) == sponsor_role_id_of(level),
{
    match level {
        SponsorLevel::OneDollar | SponsorLevel::OneTime => Some(
            GITHUB_SPONSORS_TIER_3_ROLE_ID.to_owned(),
        ),
        SponsorLevel::FiveDollar => Some(GITHUB_SPONSORS_TIER_2_ROLE_ID.to_owned()),
        SponsorLevel::TenDollar => Some(GITHUB_SPONSORS_TIER_1_ROLE_ID.to_owned()),
        SponsorLevel::TwentyDollar => Some(GITHUB_SPONSORS_TIER_S_ROLE_ID.to_owned()),
        SponsorLevel::Alumni => Some(GITHUB_SPONSORS_ALUMNI_ROLE_ID.to_owned()),
        SponsorLevel::Unrecognized => None,
    }
}

/// The display name of a sponsor role identifier, or `UnmappedRole`.
pub fn sponsor_role_name(role_id: &str) -> (r: Result<String, UnmappedRole>)
    ensures
        r is Ok <==> sponsor_role_name_of(role_id@) is Some,
        r is Ok ==> Some(r->Ok_0@) == sponsor_role_name_of(role_id@),
{
    let id = role_id.to_owned();
    if id == GITHUB_SPONSORS_TIER_S_ROLE_ID.to_owned() {
        Ok("GitHub Sponsors: Tier S".to_owned())
    } else if id == GITHUB_SPONSORS_TIER_1_ROLE_ID.to_owned() {
        Ok("GitHub Sponsors: Tier 1".to_owned())
    } else if id == GITHUB_SPONSORS_TIER_2_ROLE_ID.to_owned() {
        Ok("GitHub Sponsors: Tier 2".to_owned())
    } else if id == GITHUB_SPONSORS_TIER_3_ROLE_ID.to_owned() {
        Ok("GitHub Sponsors: Tier 3".to_owned())
    } else if id == GITHUB_SPONSORS_ALUMNI_ROLE_ID.to_owned() {
        Ok("GitHub Sponsors: Alumni".to_owned())
    } else {
        Err(UnmappedRole)
    }
}

/// The role that `level` earns: none for an unrecognized user; every other
/// level earns a named role.
pub fn sponsor_role(level: SponsorLevel) -> (r: Result<Option<RoleAssignment>, UnmappedRole>)
    ensures
        r is Ok,
        level == SponsorLevel::Unrecognized <==> r->Ok_0 is None,
        r->Ok_0 is Some ==> Some(r->Ok_0->0.role_id@) == sponsor_role_id_of(level)
            && Some(r->Ok_0->0.role_name@) == sponsor_role_name_of(r->Ok_0->0.role_id@),
{
    proof {
        reveal_strlit("1355695106195460397");
        reveal_strlit("1355669933446664284");
        reveal_strlit("1355670153722855474");
        reveal_strlit("1355670200154067125");
        reveal_strlit("1355669718983250103");
    }
    match sponsor_role_id(level) {
        None => Ok(None),
        Some(role_id) => match sponsor_role_name(role_id.as_str()) {
            Ok(role_name) => Ok(Some(RoleAssignment { role_id, role_name })),
            Err(e) => Err(e),
        },
    }
}

/// The role that a license status earns: the license-holder role for a
/// commercial license, none otherwise.
pub fn license_role(status: &LicenseStatus) -> (r: Option<RoleAssignment>)
    ensures
        r is Some <==> status is ValidCommercial,
        r is Some ==> r->0.role_id@ == LICENSE_HOLDER_ROLE_ID@ && r->0.role_name@
            == "License Holder"@,
{
    match status {
        LicenseStatus::ValidCommercial { .. } => Some(
            RoleAssignment {
                role_id: LICENSE_HOLDER_ROLE_ID.to_owned(),
                role_name: "License Holder".to_owned(),
            },
        ),
        _ => None,
    }
}

} // verus!
