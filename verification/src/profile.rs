use vstd::prelude::*;

use crate::errors::AppError;
use crate::update_request::UpdateProfileRequest;

verus! {

/// A stored profile record, as this subsystem reads and writes it: the
/// surrogate key as a 128-bit value, timestamps as epoch seconds, and every
/// other column as the plain value it holds.
#[derive(Clone, Debug)]
pub struct Profile {
    pub id: u128,
    pub auth_id: String,
    pub display_name: Option<String>,
    pub email: String,
    pub avatar_url: Option<String>,
    pub bio: Option<String>,
    pub created_at: i64,
    pub updated_at: i64,
}

/// Shared response shape for profile data returned to clients.
#[derive(Clone, Debug)]
pub struct ProfileResponse {
    pub id: u128,
    pub auth_id: String,
    pub display_name: Option<String>,
    pub email: String,
    pub avatar_url: Option<String>,
    pub bio: Option<String>,
}

impl From<Profile> for ProfileResponse {
    fn from(m: Profile) -> (r: ProfileResponse) {
        ProfileResponse {
            id: m.id,
            auth_id: m.auth_id,
            display_name: m.display_name,
            email: m.email,
            avatar_url: m.avatar_url,
            bio: m.bio,
        }
    }
}

impl vstd::std_specs::convert::FromSpecImpl<Profile> for ProfileResponse {
    open spec fn obeys_from_spec() -> bool {
        true
    }

    open spec fn from_spec(m: Profile) -> Self {
        ProfileResponse {
            id: m.id,
            auth_id: m.auth_id,
            display_name: m.display_name,
            email: m.email,
            avatar_url: m.avatar_url,
            bio: m.bio,
        }
    }
}

/// Builds the record a first login creates: no display name, avatar or
/// bio yet, and both timestamps set to the moment of creation.
pub fn new_profile(id: u128, auth_id: String, email: String, now: i64) -> (p: Profile)
    ensures
        p.id == id,
        p.auth_id == auth_id,
        p.email == email,
        p.display_name is None,
        p.avatar_url is None,
        p.bio is None,
        p.created_at == now,
        p.updated_at == now,
{
    Profile {
        id,
        auth_id,
        display_name: None,
        email,
        avatar_url: None,
        bio: None,
        created_at: now,
        updated_at: now,
    }
}

/// The upsert a login callback performs: an existing record is kept as it
/// stands, and a caller seen for the first time gets a fresh record.
pub fn callback_profile(
    existing: Option<Profile>,
    fresh_id: u128,
    auth_id: String,
    email: String,
    now: i64,
) -> (p: Profile)
    ensures
        existing matches Some(e) ==> p == e,
        existing is None ==> (p.id == fresh_id && p.auth_id == auth_id && p.email == email
            && p.display_name is None && p.avatar_url is None && p.bio is None && p.created_at
            == now && p.updated_at == now),
{
    match existing {
        Some(e) => e,
        None => new_profile(fresh_id, auth_id, email, now),
    }
}

/// A lookup's outcome as a handler reports it: the record, or NotFound
/// with the fixed detail when there is none.
pub fn profile_or_not_found(found: Option<Profile>) -> (r: Result<Profile, AppError>)
    ensures
        found matches Some(p) ==> r == Ok::<Profile, AppError>(p),
        found is None ==> (r matches Err(e) && e matches AppError::NotFound(m) && m@
            == "profile not found"@),
{
    match found {
        Some(p) => Ok(p),
        None => Err(AppError::NotFound(String::from_str("profile not found"))),
    }
}

/// Applies a validated update to a record: each field the request carries
/// replaces the stored one, each absent field keeps it; identity, email and
/// creation time never change, and the update time is set to `now`.
pub fn apply_update(p: Profile, body: &UpdateProfileRequest, now: i64) -> (q: Profile)
    ensures
        q.id == p.id,
        q.auth_id == p.auth_id,
        q.email == p.email,
        q.created_at == p.created_at,
        q.updated_at == now,
        q.display_name == (if body.display_name is Some {
            body.display_name
        } else {
            p.display_name
        }),
        q.bio == (if body.bio is Some {
            body.bio
        } else {
            p.bio
        }),
        q.avatar_url == (if body.avatar_url is Some {
            body.avatar_url
        } else {
            p.avatar_url
        }),
{
    let display_name = match &body.display_name {
        Some(s) => Some(s.clone()),
        None => p.display_name,
    };
    let bio = match &body.bio {
        Some(s) => Some(s.clone()),
        None => p.bio,
    };
    let avatar_url = match &body.avatar_url {
        Some(s) => Some(s.clone()),
        None => p.avatar_url,
    };
    Profile {
        id: p.id,
        auth_id: p.auth_id,
        display_name,
        email: p.email,
        avatar_url,
        bio,
        created_at: p.created_at,
        updated_at: now,
    }
}

} // verus!
