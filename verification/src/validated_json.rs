use vstd::prelude::*;

use crate::errors::{spec_status, AppError, Violation};

verus! {

/// The field/rule pairs a list of violations shows to a caller.
pub open spec fn view_violations(vs: Seq<Violation>) -> Seq<(Seq<char>, Seq<char>)> {
    vs.map_values(|v: Violation| (v.field@, v.rule@))
}

/// A request-body type the extractor can produce: it can be parsed out of a
/// body text, and it declares field constraints that can be checked on the
/// parsed value.
pub trait JsonBody: Sized {
    /// What the body text parses to, if anything.
    spec fn spec_parse(s: Seq<char>) -> Option<Self>;

    /// Every declared constraint this value violates, as field/rule pairs.
    spec fn spec_violations(&self) -> Seq<(Seq<char>, Seq<char>)>;

    /// Parses a body text; the error detail may be echoed to the caller.
    fn parse(body: &str) -> (r: Result<Self, String>)
        ensures
            r matches Ok(v) ==> Self::spec_parse(body@) == Some(v),
            r is Err ==> Self::spec_parse(body@) is None,
    ;

    /// Checks every declared constraint and reports all violations.
    fn violations(&self) -> (r: Vec<Violation>)
        ensures
            view_violations(r@) == self.spec_violations(),
    ;
}

/// A typed request body that passed structural parsing and every declared
/// field constraint. Produced only by `validated_json`; downstream code
/// need not re-validate.
#[derive(Debug)]
pub struct ValidatedJson<T>(pub T);

/// What `validated_json` promises: success carries exactly the parsed value
/// and means no constraint was violated; a body that does not parse is a
/// BadRequest; a body that parses but violates constraints is a Validation
/// failure listing every violated field/rule pair; no other failure kind
/// can come out of the extractor.
pub open spec fn spec_extracted<T: JsonBody>(
    body: Seq<char>,
    r: Result<ValidatedJson<T>, AppError>,
) -> bool {
    match r {
        Ok(vj) => T::spec_parse(body) == Some(vj.0) && vj.0.spec_violations().len() == 0,
        Err(e) => match e {
            AppError::BadRequest(_) => T::spec_parse(body) is None,
            AppError::Validation(vs) => T::spec_parse(body) matches Some(v)
                && v.spec_violations().len() > 0 && view_violations(vs@) == v.spec_violations(),
            _ => false,
        },
    }
}

/// Deserializes a request body into `T` and enforces its declared
/// constraints: the validated value, or the first failure.
pub fn validated_json<T: JsonBody>(body: &str) -> (r: Result<ValidatedJson<T>, AppError>)
    ensures
        spec_extracted::<T>(body@, r),
{
    let v = match T::parse(body) {
        Ok(v) => v,
        Err(detail) => {
            return Err(AppError::BadRequest(detail));
        },
    };
    let viol = v.violations();
    if viol.len() > 0 {
        return Err(AppError::Validation(viol));
    }
    assert(v.spec_violations().len() == 0) by {
        assert(view_violations(viol@).len() == 0);
    }
    Ok(ValidatedJson(v))
}

/// Law: extraction is deterministic. For one body text the extractor's
/// contract admits only one outcome class — the same body can never be both
/// accepted and rejected — and any two accepted outcomes carry the same
/// typed value.
pub proof fn lemma_extraction_deterministic<T: JsonBody>(
    body: Seq<char>,
    r1: Result<ValidatedJson<T>, AppError>,
    r2: Result<ValidatedJson<T>, AppError>,
)
    requires
        spec_extracted::<T>(body, r1),
        spec_extracted::<T>(body, r2),
    ensures
        r1 is Ok <==> r2 is Ok,
        r1 matches Ok(a) ==> (r2 matches Ok(b) && a.0 == b.0),
{
}

/// Law: a body that parses and satisfies every declared constraint is
/// always accepted, and the value handed on is exactly the parsed one.
pub proof fn lemma_valid_body_always_accepted<T: JsonBody>(
    body: Seq<char>,
    v: T,
    r: Result<ValidatedJson<T>, AppError>,
)
    requires
        T::spec_parse(body) == Some(v),
        v.spec_violations().len() == 0,
        spec_extracted::<T>(body, r),
    ensures
        r matches Ok(vj) && vj.0 == v,
{
}

/// Law: a body that fails structural parsing is rejected with status 400,
/// never 422.
pub proof fn lemma_parse_failure_is_400<T: JsonBody>(
    body: Seq<char>,
    r: Result<ValidatedJson<T>, AppError>,
)
    requires
        spec_extracted::<T>(body, r),
        T::spec_parse(body) is None,
    ensures
        r matches Err(e) && spec_status(e) == 400,
{
}

/// Law: a body that parses but violates a constraint is rejected with
/// status 422, and the failure lists every violated field/rule pair, not
/// only the first.
pub proof fn lemma_constraint_failure_is_422<T: JsonBody>(
    body: Seq<char>,
    v: T,
    r: Result<ValidatedJson<T>, AppError>,
)
    requires
        spec_extracted::<T>(body, r),
        T::spec_parse(body) == Some(v),
        v.spec_violations().len() > 0,
    ensures
        r matches Err(e) && spec_status(e) == 422,
        r matches Err(e) && (e matches AppError::Validation(vs) && view_violations(vs@)
            == v.spec_violations()),
{
}

} // verus!
