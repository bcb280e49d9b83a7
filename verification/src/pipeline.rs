use vstd::prelude::*;

use crate::auth::{
    authenticate, is_unauthorized, spec_authenticated, spec_bearer, spec_header, AuthUser,
};
use crate::errors::{spec_message, spec_status, AppError};
use crate::validated_json::{spec_extracted, validated_json, JsonBody, ValidatedJson};

verus! {

/// What the composed request pipeline promises. Success means both
/// extractors succeeded, in order; a failure is either the identity
/// extractor's own failure — in which case the body was never looked at —
/// or, only after some identity was produced, the body extractor's.
pub open spec fn spec_pipeline<T: JsonBody>(
    header: Option<Seq<char>>,
    body: Seq<char>,
    r: Result<(AuthUser, ValidatedJson<T>), AppError>,
) -> bool {
    match r {
        Ok((u, vj)) => spec_authenticated(header, Ok(u)) && spec_extracted::<T>(body, Ok(vj)),
        Err(e) => spec_authenticated(header, Err(e)) || ((exists|u: AuthUser|
            spec_authenticated(header, Ok(u))) && spec_extracted::<T>(body, Err(e))),
    }
}

/// Runs the extractors a guarded route declares, in declaration order:
/// identity first, then the validated body. The first failure
/// short-circuits; handler logic receives only a verified identity and a
/// validated payload.
pub fn authenticated_json<T: JsonBody>(
    header: Option<&str>,
    body: &str,
    secret: &[u8],
    audience: &str,
) -> (r: Result<(AuthUser, ValidatedJson<T>), AppError>)
    ensures
        spec_pipeline::<T>(spec_header(header), body@, r),
{
    let u = match authenticate(header, secret, audience) {
        Ok(u) => u,
        Err(e) => {
            return Err(e);
        },
    };
    let vj = match validated_json::<T>(body) {
        Ok(v) => v,
        Err(e) => {
            proof {
                assert(spec_authenticated(spec_header(header), Ok(u)));
            }
            return Err(e);
        },
    };
    Ok((u, vj))
}

/// Law: a request without an authorization header is rejected as
/// Unauthorized with the fixed detail and status 401, whatever its body
/// holds — the outcome is the same for any two bodies, so no body parsing
/// is observable before the rejection.
pub proof fn lemma_missing_header_ignores_body<T: JsonBody>(
    b1: Seq<char>,
    b2: Seq<char>,
    r1: Result<(AuthUser, ValidatedJson<T>), AppError>,
    r2: Result<(AuthUser, ValidatedJson<T>), AppError>,
)
    requires
        spec_pipeline::<T>(None, b1, r1),
        spec_pipeline::<T>(None, b2, r2),
    ensures
        r1 matches Err(e) && spec_status(e) == 401 && is_unauthorized(
            e,
            "missing authorization header"@,
        ),
        r1 matches Err(e1) && r2 matches Err(e2) && spec_status(e1) == spec_status(e2)
            && spec_message(e1) == spec_message(e2),
{
}

/// Law: a header without the bearer prefix is rejected the same way, with
/// its own fixed detail, again independently of the body.
pub proof fn lemma_malformed_header_ignores_body<T: JsonBody>(
    h: Seq<char>,
    b1: Seq<char>,
    b2: Seq<char>,
    r1: Result<(AuthUser, ValidatedJson<T>), AppError>,
    r2: Result<(AuthUser, ValidatedJson<T>), AppError>,
)
    requires
        !spec_bearer(h),
        spec_pipeline::<T>(Some(h), b1, r1),
        spec_pipeline::<T>(Some(h), b2, r2),
    ensures
        r1 matches Err(e) && spec_status(e) == 401 && is_unauthorized(
            e,
            "invalid authorization format"@,
        ),
        r1 matches Err(e1) && r2 matches Err(e2) && spec_status(e1) == spec_status(e2)
            && spec_message(e1) == spec_message(e2),
{
}

/// Law: business logic behind the pipeline never sees a partial result: an
/// accepted request carries an identity the identity extractor's contract
/// allows and a payload the body extractor's contract allows, both in full.
pub proof fn lemma_accepted_request_fully_verified<T: JsonBody>(
    header: Option<Seq<char>>,
    body: Seq<char>,
    u: AuthUser,
    vj: ValidatedJson<T>,
)
    requires
        spec_pipeline::<T>(header, body, Ok((u, vj))),
    ensures
        spec_authenticated(header, Ok(u)),
        spec_extracted::<T>(body, Ok(vj)),
        T::spec_parse(body) == Some(vj.0),
        vj.0.spec_violations().len() == 0,
{
}

} // verus!
