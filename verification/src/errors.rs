use vstd::prelude::*;

use crate::strutil::push_char;

verus! {

/// One violated declarative constraint: the field it names and the rule that
/// failed on it.
#[derive(Clone, Debug)]
pub struct Violation {
    pub field: String,
    pub rule: String,
}

/// The closed set of failure kinds this service can report to a caller.
/// Every kind carries a detail; whether that detail may reach the caller is
/// decided by `to_response` alone, never by the site that raised the error.
#[derive(Clone, Debug)]
pub enum AppError {
    NotFound(String),
    BadRequest(String),
    Unauthorized(String),
    Validation(Vec<Violation>),
    Internal(String),
    Database(String),
}

/// HTTP status code each failure kind maps to.
pub open spec fn spec_status(e: AppError) -> u16 {
    match e {
        AppError::NotFound(_) => 404,
        AppError::BadRequest(_) => 400,
        AppError::Unauthorized(_) => 401,
        AppError::Validation(_) => 422,
        AppError::Internal(_) => 500,
        AppError::Database(_) => 500,
    }
}

/// Decimal text of the status code of each failure kind.
pub open spec fn spec_status_text(e: AppError) -> Seq<char> {
    match e {
        AppError::NotFound(_) => "404"@,
        AppError::BadRequest(_) => "400"@,
        AppError::Unauthorized(_) => "401"@,
        AppError::Validation(_) => "422"@,
        AppError::Internal(_) => "500"@,
        AppError::Database(_) => "500"@,
    }
}

/// Caller-visible text of one violated constraint: `field: rule`.
pub open spec fn spec_violation_text(v: Violation) -> Seq<char> {
    v.field@ + ": "@ + v.rule@
}

/// Caller-visible text of every violated constraint after the first,
/// each preceded by a separator.
pub open spec fn spec_violations_tail(vs: Seq<Violation>) -> Seq<char>
    decreases vs.len(),
{
    if vs.len() == 0 {
        Seq::empty()
    } else {
        "; "@ + spec_violation_text(vs[0]) + spec_violations_tail(vs.drop_first())
    }
}

/// Caller-visible text listing every violated constraint, separated by `; `.
pub open spec fn spec_violations_text(vs: Seq<Violation>) -> Seq<char> {
    if vs.len() == 0 {
        Seq::empty()
    } else {
        spec_violation_text(vs[0]) + spec_violations_tail(vs.drop_first())
    }
}

/// The message a caller is allowed to see for each failure kind. Internal
/// and persistence failures never echo their detail: the message is the
/// fixed text `internal server error`, whatever the underlying cause said.
pub open spec fn spec_message(e: AppError) -> Seq<char> {
    match e {
        AppError::NotFound(m) => m@,
        AppError::BadRequest(m) => m@,
        AppError::Unauthorized(m) => m@,
        AppError::Validation(vs) => spec_violations_text(vs@),
        AppError::Internal(_) => "internal server error"@,
        AppError::Database(_) => "internal server error"@,
    }
}

/// Lower-case hexadecimal digits, indexed by value.
pub const HEX_DIGITS: [char; 16] = [
    '0',
    '1',
    '2',
    '3',
    '4',
    '5',
    '6',
    '7',
    '8',
    '9',
    'a',
    'b',
    'c',
    'd',
    'e',
    'f',
];

/// How one character is written inside a JSON string: quotes and
/// backslashes are escaped, control characters take an escape sequence,
/// every other character stands as itself.
pub open spec fn spec_escape_char(c: char) -> Seq<char> {
    if c == '"' {
        seq!['\\', '"']
    } else if c == '\\' {
        seq!['\\', '\\']
    } else if c == '\n' {
        seq!['\\', 'n']
    } else if c == '\r' {
        seq!['\\', 'r']
    } else if c == '\t' {
        seq!['\\', 't']
    } else if (c as u32) < 0x20 {
        seq!['\\', 'u', '0', '0', HEX_DIGITS@[(c as u32 >> 4) as int], HEX_DIGITS@[(c as u32 & 15) as int]]
    } else {
        seq![c]
    }
}

/// A whole string written inside a JSON string.
pub open spec fn spec_escape(s: Seq<char>) -> Seq<char>
    decreases s.len(),
{
    if s.len() == 0 {
        Seq::empty()
    } else {
        spec_escape_char(s[0]) + spec_escape(s.drop_first())
    }
}

proof fn lemma_escape_snoc(t: Seq<char>, c: char)
    ensures
        spec_escape(t.push(c)) == spec_escape(t) + spec_escape_char(c),
    decreases t.len(),
{
    if t.len() == 0 {
        assert(t.push(c)[0] == c);
        assert(t.push(c).drop_first() =~= Seq::<char>::empty());
        assert(spec_escape(t.push(c).drop_first()) == Seq::<char>::empty());
        assert(spec_escape(t.push(c)) == spec_escape_char(c) + Seq::<char>::empty());
        assert(spec_escape(t.push(c)) =~= spec_escape(t) + spec_escape_char(c));
    } else {
        assert(t.push(c)[0] == t[0]);
        assert(t.push(c).drop_first() =~= t.drop_first().push(c));
        lemma_escape_snoc(t.drop_first(), c);
        assert(spec_escape(t.push(c).drop_first()) == spec_escape(t.drop_first())
            + spec_escape_char(c));
        assert(spec_escape(t.push(c)) == spec_escape_char(t[0]) + (spec_escape(t.drop_first())
            + spec_escape_char(c)));
        assert(spec_escape(t.push(c)) =~= spec_escape(t) + spec_escape_char(c));
    }
}

/// Appends the JSON-string form of one character.
fn push_escaped(r: &mut String, c: char)
    ensures
        final(r)@ == old(r)@ + spec_escape_char(c),
{
    if c == '"' {
        push_char(r, '\\');
        push_char(r, '"');
    } else if c == '\\' {
        push_char(r, '\\');
        push_char(r, '\\');
    } else if c == '\n' {
        push_char(r, '\\');
        push_char(r, 'n');
    } else if c == '\r' {
        push_char(r, '\\');
        push_char(r, 'r');
    } else if c == '\t' {
        push_char(r, '\\');
        push_char(r, 't');
    } else if (c as u32) < 0x20 {
        let x = c as u32;
        assert((x >> 4) < 16 && (x & 15) < 16) by (bit_vector)
            requires
                x < 0x20,
        ;
        push_char(r, '\\');
        push_char(r, 'u');
        push_char(r, '0');
        push_char(r, '0');
        push_char(r, HEX_DIGITS[(x >> 4) as usize]);
        push_char(r, HEX_DIGITS[(x & 15) as usize]);
    } else {
        push_char(r, c);
    }
    assert(final(r)@ =~= old(r)@ + spec_escape_char(c));
}

/// Writes a string as it stands inside a JSON string literal.
pub fn json_escape(s: &str) -> (r: String)
    ensures
        r@ == spec_escape(s@),
{
    let n = s.unicode_len();
    let mut r = String::new();
    let mut i: usize = 0;
    while i < n
        invariant
            n == s@.len(),
            i <= n,
            r@ == spec_escape(s@.take(i as int)),
        decreases n - i,
    {
        let c = s.get_char(i);
        push_escaped(&mut r, c);
        proof {
            lemma_escape_snoc(s@.take(i as int), s@[i as int]);
            assert(s@.take(i as int).push(s@[i as int]) =~= s@.take(i as int + 1));
        }
        i = i + 1;
    }
    proof {
        assert(s@.take(n as int) =~= s@);
    }
    r
}

/// The JSON document every failure is reported as:
/// `{"error":{"status":<status>,"message":"<message>"}}`.
pub open spec fn spec_body(e: AppError) -> Seq<char> {
    "{\"error\":{\"status\":"@ + spec_status_text(e) + ",\"message\":\""@ + spec_escape(
        spec_message(e),
    ) + "\"}}"@
}

proof fn lemma_violations_tail_snoc(t: Seq<Violation>, v: Violation)
    ensures
        spec_violations_tail(t.push(v)) == spec_violations_tail(t) + "; "@ + spec_violation_text(v),
    decreases t.len(),
{
    if t.len() == 0 {
        assert(t.push(v).drop_first() =~= Seq::<Violation>::empty());
        assert(t.push(v)[0] == v);
        assert(spec_violations_tail(t.push(v).drop_first()) == Seq::<char>::empty());
        assert(spec_violations_tail(t.push(v)) == "; "@ + spec_violation_text(v) + Seq::<
            char,
        >::empty());
        assert(spec_violations_tail(t.push(v)) =~= spec_violations_tail(t) + "; "@
            + spec_violation_text(v));
    } else {
        assert(t.push(v)[0] == t[0]);
        assert(t.push(v).drop_first() =~= t.drop_first().push(v));
        lemma_violations_tail_snoc(t.drop_first(), v);
        assert(spec_violations_tail(t.push(v).drop_first()) == spec_violations_tail(t.drop_first())
            + "; "@ + spec_violation_text(v));
        assert(spec_violations_tail(t.push(v)) == "; "@ + spec_violation_text(t[0]) + (
        spec_violations_tail(t.drop_first()) + "; "@ + spec_violation_text(v)));
        assert(spec_violations_tail(t.push(v)) =~= spec_violations_tail(t) + "; "@
            + spec_violation_text(v));
    }
}

/// Builds the caller-visible text for a list of violated constraints.
pub fn violations_text(vs: &Vec<Violation>) -> (r: String)
    ensures
        r@ == spec_violations_text(vs@),
{
    if vs.len() == 0 {
        return String::new();
    }
    let mut r = String::new();
    r.append(vs[0].field.as_str());
    r.append(": ");
    r.append(vs[0].rule.as_str());
    assert(r@ =~= spec_violation_text(vs@[0]));
    let n = vs.len();
    let mut i: usize = 1;
    while i < n
        invariant
            n == vs@.len(),
            1 <= i <= n,
            r@ == spec_violation_text(vs@[0]) + spec_violations_tail(
                vs@.subrange(1, i as int),
            ),
        decreases n - i,
    {
        r.append("; ");
        r.append(vs[i].field.as_str());
        r.append(": ");
        r.append(vs[i].rule.as_str());
        proof {
            lemma_violations_tail_snoc(vs@.subrange(1, i as int), vs@[i as int]);
            assert(vs@.subrange(1, i as int).push(vs@[i as int]) =~= vs@.subrange(
                1,
                i as int + 1,
            ));
            assert(r@ =~= spec_violation_text(vs@[0]) + spec_violations_tail(
                vs@.subrange(1, i as int + 1),
            ));
        }
        i = i + 1;
    }
    proof {
        assert(vs@.subrange(1, n as int) =~= vs@.drop_first());
    }
    r
}

impl AppError {
    /// Status code of this failure kind.
    pub fn status(&self) -> (r: u16)
        ensures
            r == spec_status(*self),
    {
        match self {
            AppError::NotFound(_) => 404,
            AppError::BadRequest(_) => 400,
            AppError::Unauthorized(_) => 401,
            AppError::Validation(_) => 422,
            AppError::Internal(_) => 500,
            AppError::Database(_) => 500,
        }
    }

    /// The message a caller may see for this failure.
    pub fn message(&self) -> (r: String)
        ensures
            r@ == spec_message(*self),
    {
        match self {
            AppError::NotFound(m) => m.clone(),
            AppError::BadRequest(m) => m.clone(),
            AppError::Unauthorized(m) => m.clone(),
            AppError::Validation(vs) => violations_text(vs),
            AppError::Internal(_) => String::from_str("internal server error"),
            AppError::Database(_) => String::from_str("internal server error"),
        }
    }

    /// Converts a failure into everything a response needs: the status
    /// code, the caller-safe message, and the JSON body
    /// `{"error":{"status":<status>,"message":"<message>"}}`.
    pub fn to_response(&self) -> (r: (u16, String, String))
        ensures
            r.0 == spec_status(*self),
            r.1@ == spec_message(*self),
            r.2@ == spec_body(*self),
    {
        let message = self.message();
        let status_text: &str = match self {
            AppError::NotFound(_) => "404",
            AppError::BadRequest(_) => "400",
            AppError::Unauthorized(_) => "401",
            AppError::Validation(_) => "422",
            AppError::Internal(_) => "500",
            AppError::Database(_) => "500",
        };
        let escaped = json_escape(message.as_str());
        let mut body = String::from_str("{\"error\":{\"status\":");
        body.append(status_text);
        body.append(",\"message\":\"");
        body.append(escaped.as_str());
        body.append("\"}}");
        assert(body@ =~= spec_body(*self));
        (self.status(), message, body)
    }
}

/// Law: a persistence failure never leaks its cause. Whatever detail the
/// persistence layer reported, the caller-visible message is the fixed text
/// `internal server error`, and two such failures are indistinguishable to
/// the caller.
pub proof fn lemma_database_detail_never_leaks(d1: String, d2: String)
    ensures
        spec_message(AppError::Database(d1)) == "internal server error"@,
        spec_message(AppError::Database(d1)) == spec_message(AppError::Database(d2)),
        spec_body(AppError::Database(d1)) == spec_body(AppError::Database(d2)),
        spec_status(AppError::Database(d1)) == 500,
{
}

} // verus!
