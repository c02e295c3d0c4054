//! Endpoints of the remote API: which resource lives at which address.

use vstd::prelude::*;
use crate::text::{int_text, push_decimal};

verus! {

/// The resources the remote API serves.
#[derive(PartialEq, Eq, Structural, Clone, Copy, Debug)]
pub enum Resource {
    UserDetails,
    UserBalance,
    UserProgress,
    FeaturedCampaigns,
    FeaturedPathways,
    FeaturedHackathons,
}

/// Whether a resource belongs to one user, whose id ends its path.
pub open spec fn is_user_scoped(r: Resource) -> bool {
    r is UserDetails || r is UserBalance || r is UserProgress
}

/// The path of a resource below the base address, before any user id.
pub open spec fn path_text(r: Resource) -> Seq<char> {
    match r {
        Resource::UserDetails => "/get-user/"@,
        Resource::UserBalance => "/get-user-balance/"@,
        Resource::UserProgress => "/get-user-progress/"@,
        Resource::FeaturedCampaigns => "/stack-featured-campaigns"@,
        Resource::FeaturedPathways => "/stack-featured-pathways"@,
        Resource::FeaturedHackathons => "/stack-featured-hackathons"@,
    }
}

/// The full address of a resource: base, path, and for a user's resource
/// the user id in decimal.
pub open spec fn url_text(base: Seq<char>, r: Resource, user_id: int) -> Seq<char> {
    if is_user_scoped(r) {
        base + path_text(r) + int_text(user_id)
    } else {
        base + path_text(r)
    }
}

impl Resource {
    /// Whether this resource belongs to one user.
    pub fn is_user_scoped(&self) -> (r: bool)
        ensures
            r == is_user_scoped(*self),
    {
        match self {
            Resource::UserDetails | Resource::UserBalance | Resource::UserProgress => true,
            _ => false,
        }
    }

    /// The path of this resource below the base address.
    pub fn path(&self) -> (r: &'static str)
        ensures
            r@ == path_text(*self),
    {
        match self {
            Resource::UserDetails => "/get-user/",
            Resource::UserBalance => "/get-user-balance/",
            Resource::UserProgress => "/get-user-progress/",
            Resource::FeaturedCampaigns => "/stack-featured-campaigns",
            Resource::FeaturedPathways => "/stack-featured-pathways",
            Resource::FeaturedHackathons => "/stack-featured-hackathons",
        }
    }
}

/// The address to request `resource` at; `user_id` is used only by a user's
/// resources.
pub fn endpoint_url(base_url: &str, resource: Resource, user_id: i32) -> (r: String)
    ensures
        r@ == url_text(base_url@, resource, user_id as int),
{
    let mut out = String::from_str(base_url);
    out.append(resource.path());
    if resource.is_user_scoped() {
        push_decimal(&mut out, user_id);
    }
    out
}

} // verus!
