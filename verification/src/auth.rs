use vstd::prelude::*;

use crate::errors::{spec_status, AppError};
use crate::jwt::{decode_claims, token_claims, JsonField, RawClaims};

verus! {

/// The trusted identity a handler sees. A value of this type is only ever
/// produced by `authenticate`, after the token's signature, expiry and
/// audience have been checked and a subject claim was found.
#[derive(Clone, Debug)]
pub struct AuthUser {
    pub id: String,
    pub email: String,
    pub role: String,
}

/// Claims a verified token must carry to yield an identity: a string
/// subject; email and role may be absent or null but must be strings when
/// present.
pub open spec fn claims_ok(c: RawClaims) -> bool {
    &&& c.sub is Str
    &&& !(c.email is Other)
    &&& !(c.role is Other)
}

/// The identifier an identity takes from the claims.
pub open spec fn spec_id(c: RawClaims) -> Seq<char> {
    match c.sub {
        JsonField::Str(s) => s@,
        _ => Seq::empty(),
    }
}

/// The email an identity takes from the claims: the claim's string, or
/// empty when the claim is absent or null.
pub open spec fn spec_email(c: RawClaims) -> Seq<char> {
    match c.email {
        JsonField::Str(s) => s@,
        _ => Seq::empty(),
    }
}

/// The role an identity takes from the claims: the claim's string, or the
/// default role when the claim is absent or null.
pub open spec fn spec_role(c: RawClaims) -> Seq<char> {
    match c.role {
        JsonField::Str(s) => s@,
        _ => "authenticated"@,
    }
}

/// Whether `e` is an Unauthorized failure carrying exactly `msg`.
pub open spec fn is_unauthorized(e: AppError, msg: Seq<char>) -> bool {
    e matches AppError::Unauthorized(m) && m@ == msg
}

/// Projects verified claims into an identity, or rejects them when the
/// subject is missing or a claim has the wrong type. The rejection detail
/// is the same generic text as for any other verification failure.
pub fn identity_from_claims(c: RawClaims) -> (r: Result<AuthUser, AppError>)
    ensures
        claims_ok(c) ==> (r matches Ok(u) && u.id@ == spec_id(c) && u.email@ == spec_email(c)
            && u.role@ == spec_role(c)),
        !claims_ok(c) ==> (r matches Err(e) && is_unauthorized(e, "invalid token"@)),
{
    let RawClaims { sub, email, role } = c;
    let id = match sub {
        JsonField::Str(s) => s,
        _ => {
            return Err(AppError::Unauthorized(String::from_str("invalid token")));
        },
    };
    let email = match email {
        JsonField::Str(s) => s,
        JsonField::Other => {
            return Err(AppError::Unauthorized(String::from_str("invalid token")));
        },
        _ => String::new(),
    };
    let role = match role {
        JsonField::Str(s) => s,
        JsonField::Other => {
            return Err(AppError::Unauthorized(String::from_str("invalid token")));
        },
        _ => String::from_str("authenticated"),
    };
    Ok(AuthUser { id, email, role })
}

/// Whether a header value carries a bearer token: it must start with the
/// literal prefix `Bearer `.
pub open spec fn spec_bearer(h: Seq<char>) -> bool {
    h.len() >= 7 && h.subrange(0, 7) == "Bearer "@
}

/// The token carried after the `Bearer ` prefix.
pub open spec fn spec_token(h: Seq<char>) -> Seq<char> {
    h.skip(7)
}

/// Splits the token off a header value, or reports that the prefix is not
/// there.
fn bearer_token<'a>(h: &'a str) -> (r: Option<&'a str>)
    ensures
        spec_bearer(h@) ==> (r matches Some(t) && t@ == spec_token(h@)),
        !spec_bearer(h@) ==> r is None,
{
    proof {
        reveal_strlit("Bearer ");
    }
    let n = h.unicode_len();
    if n < 7 {
        return None;
    }
    let prefix = "Bearer ";
    let mut i: usize = 0;
    while i < 7
        invariant
            n == h@.len(),
            n >= 7,
            i <= 7,
            prefix@ == "Bearer "@,
            prefix@.len() == 7,
            forall|j: int| 0 <= j < i ==> h@[j] == prefix@[j],
        decreases 7 - i,
    {
        if h.get_char(i) != prefix.get_char(i) {
            assert(h@.subrange(0, 7)[i as int] != "Bearer "@[i as int]);
            return None;
        }
        i = i + 1;
    }
    assert(h@.subrange(0, 7) =~= "Bearer "@);
    let token = h.substring_char(7, n);
    assert(token@ =~= spec_token(h@));
    Some(token)
}

/// What `authenticate` promises for a given authorization header. A missing
/// header and a malformed prefix each carry their own fixed detail; past
/// the prefix, success means the token passed verification and the identity
/// is exactly the projection of the token's claims, and every verification
/// failure carries the same generic detail.
pub open spec fn spec_authenticated(header: Option<Seq<char>>, r: Result<AuthUser, AppError>) -> bool {
    match header {
        None => r matches Err(e) && is_unauthorized(e, "missing authorization header"@),
        Some(h) => {
            if !spec_bearer(h) {
                r matches Err(e) && is_unauthorized(e, "invalid authorization format"@)
            } else {
                match r {
                    Ok(u) => {
                        let c = token_claims(spec_token(h));
                        claims_ok(c) && u.id@ == spec_id(c) && u.email@ == spec_email(c)
                            && u.role@ == spec_role(c)
                    },
                    Err(e) => is_unauthorized(e, "invalid token"@),
                }
            }
        },
    }
}

/// The view of an optional header value.
pub open spec fn spec_header(header: Option<&str>) -> Option<Seq<char>> {
    match header {
        None => None,
        Some(h) => Some(h@),
    }
}

/// Turns a raw authorization header into a trusted identity, or fails
/// before any handler logic runs. This is the only constructor of
/// `AuthUser` values.
pub fn authenticate(header: Option<&str>, secret: &[u8], audience: &str) -> (r: Result<
    AuthUser,
    AppError,
>)
    ensures
        spec_authenticated(spec_header(header), r),
{
    let h = match header {
        Some(h) => h,
        None => {
            return Err(AppError::Unauthorized(String::from_str("missing authorization header")));
        },
    };
    let token = match bearer_token(h) {
        Some(t) => t,
        None => {
            return Err(AppError::Unauthorized(String::from_str("invalid authorization format")));
        },
    };
    let claims = match decode_claims(token, secret, audience) {
        Some(c) => c,
        None => {
            return Err(AppError::Unauthorized(String::from_str("invalid token")));
        },
    };
    identity_from_claims(claims)
}

/// Law: authentication failures are always Unauthorized, mapped to status
/// 401, and carry one of exactly three fixed details; a verifier-level
/// failure — bad signature, expiry, wrong audience, missing subject — is
/// always reported with the same generic text, so callers cannot tell the
/// causes apart.
pub proof fn lemma_auth_failure_is_401(header: Option<Seq<char>>, r: Result<AuthUser, AppError>)
    requires
        spec_authenticated(header, r),
        r is Err,
    ensures
        r matches Err(e) && spec_status(e) == 401,
        r matches Err(e) && (is_unauthorized(e, "missing authorization header"@) || is_unauthorized(
            e,
            "invalid authorization format"@,
        ) || is_unauthorized(e, "invalid token"@)),
{
}

/// Law: any two verification failures carry the same caller-visible detail,
/// whatever their causes were — an expired token, a foreign audience and a
/// forged signature are indistinguishable in the response.
pub proof fn lemma_verifier_failures_indistinguishable(
    h1: Seq<char>,
    h2: Seq<char>,
    r1: Result<AuthUser, AppError>,
    r2: Result<AuthUser, AppError>,
)
    requires
        spec_authenticated(Some(h1), r1),
        spec_authenticated(Some(h2), r2),
        spec_bearer(h1),
        spec_bearer(h2),
        r1 is Err,
        r2 is Err,
    ensures
        r1 matches Err(e1) && r2 matches Err(e2) && is_unauthorized(e1, "invalid token"@)
            && is_unauthorized(e2, "invalid token"@),
{
}

/// Law: a token whose payload has no string subject claim never yields an
/// identity, however the rest of the verification went.
pub proof fn lemma_missing_subject_never_authenticates(h: Seq<char>, r: Result<AuthUser, AppError>)
    requires
        spec_authenticated(Some(h), r),
        spec_bearer(h),
        !(token_claims(spec_token(h)).sub is Str),
    ensures
        r matches Err(e) && is_unauthorized(e, "invalid token"@),
{
}

/// Law: a produced identity is exactly the projection of the token's
/// claims: its identifier is the subject claim, a missing or null email
/// becomes the empty string, and a missing or null role becomes the default
/// role.
pub proof fn lemma_identity_is_claim_projection(h: Seq<char>, u: AuthUser)
    requires
        spec_authenticated(Some(h), Ok(u)),
        spec_bearer(h),
    ensures
        u.id@ == spec_id(token_claims(spec_token(h))),
        !(token_claims(spec_token(h)).email is Str) ==> u.email@ == Seq::<char>::empty(),
        !(token_claims(spec_token(h)).role is Str) ==> u.role@ == "authenticated"@,
        token_claims(spec_token(h)).email matches JsonField::Str(e) ==> u.email@ == e@,
        token_claims(spec_token(h)).role matches JsonField::Str(ro) ==> u.role@ == ro@,
{
}

} // verus!
