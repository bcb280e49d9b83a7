use vstd::prelude::*;

use crate::errors::Violation;
use crate::jwt::JsonField;
use crate::validated_json::{view_violations, JsonBody};
use serde_json::Value;

verus! {

/// What a request body holds under the fields a profile update reads.
pub struct RawBody {
    pub object: bool,
    pub display_name: JsonField,
    pub bio: JsonField,
    pub avatar_url: JsonField,
}

/// What a body text parses to: `None` when the text is not a JSON
/// document, otherwise whether it is an object and what it holds under the
/// three update fields. Parsing depends on the text alone.
pub uninterp spec fn parsed_body(s: Seq<char>) -> Option<RawBody>;

/// Relies on `serde_json::from_str::<serde_json::Value>` to parse the body
/// text — whether it parses and what it holds depend on the text alone —
/// and on `serde_json::Value::is_object` and `serde_json::Value::get` to
/// read the three update fields out of the parsed document.
#[verifier::external_body]
fn parse_body_fields(body: &str) -> (r: Option<RawBody>)
    ensures
        r == parsed_body(body@),
{
    let v: Value = match serde_json::from_str(body) {
        Ok(v) => v,
        Err(_) => return None,
    };
    let field = |k: &str| match v.get(k) {
        None => JsonField::Absent,
        Some(Value::Null) => JsonField::Null,
        Some(Value::String(s)) => JsonField::Str(s.clone()),
        Some(_) => JsonField::Other,
    };
    let (display_name, bio, avatar_url) = (field("display_name"), field("bio"), field("avatar_url"));
    Some(RawBody { object: v.is_object(), display_name, bio, avatar_url })
}

/// A field is structurally acceptable when it is absent, null, or a string.
pub open spec fn field_ok(f: JsonField) -> bool {
    !(f is Other)
}

/// A body is structurally acceptable when it is a JSON object and each of
/// the three update fields is absent, null, or a string.
pub open spec fn raw_body_ok(rb: RawBody) -> bool {
    rb.object && field_ok(rb.display_name) && field_ok(rb.bio) && field_ok(rb.avatar_url)
}

/// The optional string a structurally acceptable field carries.
pub open spec fn spec_opt(f: JsonField) -> Option<String> {
    match f {
        JsonField::Str(s) => Some(s),
        _ => None,
    }
}

/// A profile update request: each field is optional, and a present field
/// must satisfy its declared length constraint before the value reaches a
/// handler.
#[derive(Debug)]
pub struct UpdateProfileRequest {
    pub display_name: Option<String>,
    pub bio: Option<String>,
    pub avatar_url: Option<String>,
}

impl JsonBody for UpdateProfileRequest {
    open spec fn spec_parse(s: Seq<char>) -> Option<Self> {
        match parsed_body(s) {
            None => None,
            Some(rb) => if raw_body_ok(rb) {
                Some(
                    UpdateProfileRequest {
                        display_name: spec_opt(rb.display_name),
                        bio: spec_opt(rb.bio),
                        avatar_url: spec_opt(rb.avatar_url),
                    },
                )
            } else {
                None
            },
        }
    }

    /// Declared constraints: `display_name` between 2 and 100 characters,
    /// `bio` at most 500, `avatar_url` at most 2048 — each checked only
    /// when the field is present, and every violation is reported.
    open spec fn spec_violations(&self) -> Seq<(Seq<char>, Seq<char>)> {
        (if self.display_name matches Some(s) && !(2 <= s@.len() && s@.len() <= 100) {
            seq![("display_name"@, "length"@)]
        } else {
            Seq::empty()
        }) + (if self.bio matches Some(s) && s@.len() > 500 {
            seq![("bio"@, "length"@)]
        } else {
            Seq::empty()
        }) + (if self.avatar_url matches Some(s) && s@.len() > 2048 {
            seq![("avatar_url"@, "length"@)]
        } else {
            Seq::empty()
        })
    }

    fn parse(body: &str) -> (r: Result<Self, String>) {
        let rb = match parse_body_fields(body) {
            Some(rb) => rb,
            None => {
                return Err(String::from_str("invalid JSON in request body"));
            },
        };
        if !rb.object {
            return Err(String::from_str("expected a JSON object"));
        }
        let display_name = match rb.display_name {
            JsonField::Str(s) => Some(s),
            JsonField::Other => {
                return Err(String::from_str("invalid type for field display_name"));
            },
            _ => None,
        };
        let bio = match rb.bio {
            JsonField::Str(s) => Some(s),
            JsonField::Other => {
                return Err(String::from_str("invalid type for field bio"));
            },
            _ => None,
        };
        let avatar_url = match rb.avatar_url {
            JsonField::Str(s) => Some(s),
            JsonField::Other => {
                return Err(String::from_str("invalid type for field avatar_url"));
            },
            _ => None,
        };
        Ok(UpdateProfileRequest { display_name, bio, avatar_url })
    }

    fn violations(&self) -> (r: Vec<Violation>) {
        let mut r: Vec<Violation> = Vec::new();
        if let Some(s) = &self.display_name {
            let n = s.as_str().unicode_len();
            if !(2 <= n && n <= 100) {
                r.push(
                    Violation {
                        field: String::from_str("display_name"),
                        rule: String::from_str("length"),
                    },
                );
            }
        }
        if let Some(s) = &self.bio {
            let n = s.as_str().unicode_len();
            if n > 500 {
                r.push(
                    Violation { field: String::from_str("bio"), rule: String::from_str("length") },
                );
            }
        }
        if let Some(s) = &self.avatar_url {
            let n = s.as_str().unicode_len();
            if n > 2048 {
                r.push(
                    Violation {
                        field: String::from_str("avatar_url"),
                        rule: String::from_str("length"),
                    },
                );
            }
        }
        assert(view_violations(r@) =~= self.spec_violations());
        r
    }
}

} // verus!
