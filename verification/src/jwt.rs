use vstd::prelude::*;

use jsonwebtoken::{decode, Algorithm, DecodingKey, Validation};
use serde_json::Value;

verus! {

/// What a token's payload holds under one claim name: the claim is absent,
/// explicitly null, a string, or something of another JSON type.
#[derive(Clone, Debug)]
pub enum JsonField {
    Absent,
    Null,
    Str(String),
    Other,
}

/// The three claims this service reads out of a verified token's payload.
pub struct RawClaims {
    pub sub: JsonField,
    pub email: JsonField,
    pub role: JsonField,
}

/// The claims carried by a token's payload. The payload is part of the
/// token text itself, so this is a function of the token alone; whether the
/// token is *accepted* also depends on the secret, the audience and the
/// clock, and is therefore not named here.
pub uninterp spec fn token_claims(token: Seq<char>) -> RawClaims;

/// Relies on `jsonwebtoken::decode` with algorithm HS256: it returns `Ok`
/// only when the token's signature verifies against `secret`, the required
/// `exp` claim is not in the past, an `nbf` claim (if present) is not in the
/// future, and the required `aud` claim contains `audience`; the claims it
/// returns are deserialized from the token's own payload, so they depend on
/// the token text alone. Also relies on `serde_json::Value::get` to read
/// single claims out of that payload.
#[verifier::external_body]
pub(crate) fn decode_claims(token: &str, secret: &[u8], audience: &str) -> (r: Option<RawClaims>)
    ensures
        r matches Some(c) ==> c == token_claims(token@),
{
    let mut validation = Validation::new(Algorithm::HS256);
    validation.set_audience(&[audience]);
    validation.set_required_spec_claims(&["exp", "aud"]);
    let data = match decode::<Value>(token, &DecodingKey::from_secret(secret), &validation) {
        Ok(d) => d,
        Err(_) => return None,
    };
    let field = |k: &str| match data.claims.get(k) {
        None => JsonField::Absent,
        Some(Value::Null) => JsonField::Null,
        Some(Value::String(s)) => JsonField::Str(s.clone()),
        Some(_) => JsonField::Other,
    };
    Some(RawClaims { sub: field("sub"), email: field("email"), role: field("role") })
}

} // verus!
