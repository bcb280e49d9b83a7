use vstd::prelude::*;

use crate::strutil::{
    all_digits, parse_decimal, push_char, spec_decimal_digits, spec_decimal_value, u32_to_decimal,
};

verus! {

/// The lower-case form of a text. Case folding is table-driven; the result
/// depends on the characters alone.
pub uninterp spec fn lower_of(s: Seq<char>) -> Seq<char>;

/// Relies on `str::to_lowercase`: the result depends on the characters
/// alone.
#[verifier::external_body]
fn lowercase(s: &str) -> (r: String)
    ensures
        r@ == lower_of(s@),
{
    s.to_lowercase()
}

/// The upper-case form of one character (it may take several characters).
/// Case mapping is table-driven; the result depends on the character alone.
pub uninterp spec fn upper_char_of(c: char) -> Seq<char>;

/// Relies on `char::to_uppercase`: the result depends on the character
/// alone.
#[verifier::external_body]
fn char_upper(c: char) -> (r: String)
    ensures
        r@ == upper_char_of(c),
{
    c.to_uppercase().collect()
}

/// Spaces replaced by underscores.
pub open spec fn spec_underscored(s: Seq<char>) -> Seq<char> {
    s.map_values(|c: char| if c == ' ' { '_' } else { c })
}

/// Replaces every space with an underscore.
fn underscored(s: &str) -> (r: String)
    ensures
        r@ == spec_underscored(s@),
{
    let n = s.unicode_len();
    let mut r = String::new();
    let mut i: usize = 0;
    while i < n
        invariant
            n == s@.len(),
            i <= n,
            r@ =~= spec_underscored(s@.take(i as int)),
        decreases n - i,
    {
        let c = s.get_char(i);
        if c == ' ' {
            push_char(&mut r, '_');
        } else {
            push_char(&mut r, c);
        }
        assert(r@ =~= spec_underscored(s@.take(i as int + 1)));
        i = i + 1;
    }
    proof {
        assert(s@.take(n as int) =~= s@);
    }
    r
}

/// The serial as at least six digits, left-padded with zeros.
pub open spec fn spec_pad6(n: nat) -> Seq<char> {
    let d = spec_decimal_digits(n);
    if d.len() >= 6 {
        d
    } else {
        Seq::new((6 - d.len()) as nat, |i: int| '0') + d
    }
}

/// Writes the serial as at least six digits.
fn pad6(n: u32) -> (r: String)
    ensures
        r@ == spec_pad6(n as nat),
{
    let d = u32_to_decimal(n);
    let dl = d.as_str().unicode_len();
    let mut r = String::new();
    let mut i: usize = dl;
    while i < 6
        invariant
            dl == d@.len(),
            dl <= i <= 6 || (i == dl && dl >= 6),
            r@ =~= Seq::new((i - dl) as nat, |j: int| '0'),
        decreases 6 - i,
    {
        push_char(&mut r, '0');
        assert(r@ =~= Seq::new((i + 1 - dl) as nat, |j: int| '0'));
        i = i + 1;
    }
    r.append(d.as_str());
    assert(r@ =~= spec_pad6(n as nat));
    r
}

/// The file stem a new migration gets: `m`, the date, an underscore, the
/// zero-padded serial, an underscore, and the name in lower case with
/// spaces turned into underscores.
pub open spec fn spec_file_stem(date: Seq<char>, serial: nat, name: Seq<char>) -> Seq<char> {
    "m"@ + date + "_"@ + spec_pad6(serial) + "_"@ + spec_underscored(lower_of(name))
}

/// Builds the file stem for a new migration of the given date, serial and
/// user-supplied name.
pub fn migration_file_stem(date: &str, serial: u32, name: &str) -> (r: String)
    ensures
        r@ == spec_file_stem(date@, serial as nat, name@),
{
    let lowered = lowercase(name);
    let sanitized = underscored(lowered.as_str());
    let padded = pad6(serial);
    let mut r = String::from_str("m");
    r.append(date);
    r.append("_");
    r.append(padded.as_str());
    r.append("_");
    r.append(sanitized.as_str());
    assert(r@ =~= spec_file_stem(date@, serial as nat, name@));
    r
}

/// The characters of a file stem, title-cased part by part: underscores
/// separate parts and are dropped, the first character of each part is
/// upper-cased, the rest stand as they are.
pub open spec fn spec_camel(s: Seq<char>, at_start: bool) -> Seq<char>
    decreases s.len(),
{
    if s.len() == 0 {
        Seq::empty()
    } else if s[0] == '_' {
        spec_camel(s.drop_first(), true)
    } else if at_start {
        upper_char_of(s[0]) + spec_camel(s.drop_first(), false)
    } else {
        seq![s[0]] + spec_camel(s.drop_first(), false)
    }
}

/// Derives the struct name for a migration file stem: `M` followed by the
/// title-cased, underscore-free stem.
pub fn struct_name_of(file_stem: &str) -> (r: String)
    ensures
        r@ == seq!['M'] + spec_camel(file_stem@, true),
{
    let mut r = String::new();
    push_char(&mut r, 'M');
    let n = file_stem.unicode_len();
    let mut i: usize = 0;
    let mut at_start = true;
    proof {
        assert(r@ =~= seq!['M']);
        assert(file_stem@.skip(0) =~= file_stem@);
        assert(r@ + spec_camel(file_stem@, true) =~= seq!['M'] + spec_camel(file_stem@, true));
    }
    while i < n
        invariant
            n == file_stem@.len(),
            i <= n,
            r@ + spec_camel(file_stem@.skip(i as int), at_start) == seq!['M'] + spec_camel(
                file_stem@,
                true,
            ),
        decreases n - i,
    {
        proof {
            assert(file_stem@.skip(i as int)[0] == file_stem@[i as int]);
            assert(file_stem@.skip(i as int).drop_first() =~= file_stem@.skip(i as int + 1));
        }
        let ghost prev = r@;
        let c = file_stem.get_char(i);
        if c == '_' {
            at_start = true;
            assert(r@ + spec_camel(file_stem@.skip(i as int + 1), true) =~= prev + spec_camel(
                file_stem@.skip(i as int),
                at_start,
            )) by {
                assert(spec_camel(file_stem@.skip(i as int), true) == spec_camel(
                    file_stem@.skip(i as int + 1),
                    true,
                ));
            }
        } else if at_start {
            let u = char_upper(c);
            r.append(u.as_str());
            at_start = false;
            assert(r@ + spec_camel(file_stem@.skip(i as int + 1), false) =~= prev + spec_camel(
                file_stem@.skip(i as int),
                true,
            ));
        } else {
            push_char(&mut r, c);
            assert(r@ + spec_camel(file_stem@.skip(i as int + 1), false) =~= prev + spec_camel(
                file_stem@.skip(i as int),
                false,
            ));
        }
        i = i + 1;
    }
    proof {
        assert(file_stem@.skip(n as int) =~= Seq::<char>::empty());
        assert(r@ + Seq::<char>::empty() =~= r@);
    }
    r
}

/// Whether a text starts with a given prefix.
pub open spec fn spec_starts_with(s: Seq<char>, p: Seq<char>) -> bool {
    s.len() >= p.len() && s.take(p.len() as int) == p
}

/// Tests whether a text starts with a given prefix.
fn starts_with(s: &str, p: &str) -> (b: bool)
    ensures
        b == spec_starts_with(s@, p@),
{
    let sn = s.unicode_len();
    let pn = p.unicode_len();
    if sn < pn {
        return false;
    }
    let mut i: usize = 0;
    while i < pn
        invariant
            sn == s@.len(),
            pn == p@.len(),
            sn >= pn,
            i <= pn,
            forall|j: int| 0 <= j < i ==> s@[j] == p@[j],
        decreases pn - i,
    {
        if s.get_char(i) != p.get_char(i) {
            assert(s@.take(pn as int)[i as int] != p@[i as int]);
            return false;
        }
        i = i + 1;
    }
    assert(s@.take(pn as int) =~= p@);
    true
}

/// The leading characters of a text up to (not including) its first
/// underscore; the whole text when it has none.
pub open spec fn spec_segment(s: Seq<char>) -> Seq<char>
    decreases s.len(),
{
    if s.len() == 0 {
        Seq::empty()
    } else if s[0] == '_' {
        Seq::empty()
    } else {
        seq![s[0]] + spec_segment(s.drop_first())
    }
}

/// Copies a text up to its first underscore.
fn segment_before_underscore(s: &str) -> (r: String)
    ensures
        r@ == spec_segment(s@),
{
    let n = s.unicode_len();
    let mut r = String::new();
    let mut i: usize = 0;
    proof {
        assert(s@.skip(0) =~= s@);
        assert(r@ + spec_segment(s@) =~= spec_segment(s@));
    }
    while i < n
        invariant
            n == s@.len(),
            i <= n,
            r@ + spec_segment(s@.skip(i as int)) == spec_segment(s@),
        decreases n - i,
    {
        proof {
            assert(s@.skip(i as int)[0] == s@[i as int]);
            assert(s@.skip(i as int).drop_first() =~= s@.skip(i as int + 1));
        }
        let ghost prev = r@;
        let c = s.get_char(i);
        if c == '_' {
            assert(spec_segment(s@.skip(i as int)) =~= Seq::<char>::empty());
            assert(r@ =~= spec_segment(s@));
            return r;
        }
        push_char(&mut r, c);
        assert(r@ + spec_segment(s@.skip(i as int + 1)) =~= prev + spec_segment(
            s@.skip(i as int),
        ));
        i = i + 1;
    }
    proof {
        assert(s@.skip(n as int) =~= Seq::<char>::empty());
        assert(r@ =~= spec_segment(s@));
    }
    r
}

/// The serial a file name carries for a given date prefix: the digits
/// between the prefix and the next underscore, when they name a number
/// that fits; otherwise zero, so the file cannot raise the maximum.
pub open spec fn spec_serial_of(name: Seq<char>, prefix: Seq<char>) -> nat {
    if spec_starts_with(name, prefix) {
        let seg = spec_segment(name.skip(prefix.len() as int));
        if seg.len() > 0 && all_digits(seg) && spec_decimal_value(seg) <= 0xffff_ffff {
            spec_decimal_value(seg)
        } else {
            0
        }
    } else {
        0
    }
}

/// Reads the serial a file name carries for a given date prefix.
fn serial_of_name(name: &str, prefix: &str) -> (v: u32)
    ensures
        v as nat == spec_serial_of(name@, prefix@),
{
    if !starts_with(name, prefix) {
        return 0;
    }
    let n = name.unicode_len();
    let pn = prefix.unicode_len();
    let rest = name.substring_char(pn, n);
    assert(rest@ =~= name@.skip(pn as int));
    let seg = segment_before_underscore(rest);
    match parse_decimal(seg.as_str()) {
        Some(v) => {
            if v <= 0xffff_ffffu64 {
                v as u32
            } else {
                0
            }
        },
        None => 0,
    }
}

/// The prefix the files of one date share: `m`, the date, an underscore.
pub open spec fn spec_migration_prefix(date: Seq<char>) -> Seq<char> {
    "m"@ + date + "_"@
}

/// The largest serial any of the file names carries for the prefix.
pub open spec fn spec_max_serial(names: Seq<String>, prefix: Seq<char>) -> nat
    decreases names.len(),
{
    if names.len() == 0 {
        0
    } else {
        let rest = spec_max_serial(names.drop_first(), prefix);
        let h = spec_serial_of(names[0]@, prefix);
        if h > rest {
            h
        } else {
            rest
        }
    }
}

/// The serial the next migration file gets for one date: one more than the
/// largest serial among the given file names that carry that date's
/// prefix; `None` only when that largest serial cannot be raised.
pub fn next_serial_from(names: &Vec<String>, date: &str) -> (r: Option<u32>)
    ensures
        r matches Some(v) ==> v as nat == spec_max_serial(names@, spec_migration_prefix(date@))
            + 1,
        r is None <==> spec_max_serial(names@, spec_migration_prefix(date@)) == 0xffff_ffff,
{
    let mut prefix = String::from_str("m");
    prefix.append(date);
    prefix.append("_");
    assert(prefix@ =~= spec_migration_prefix(date@));
    let n = names.len();
    let mut acc: u32 = 0;
    let mut i: usize = 0;
    proof {
        assert(names@.skip(0) =~= names@);
    }
    while i < n
        invariant
            n == names@.len(),
            i <= n,
            prefix@ == spec_migration_prefix(date@),
            spec_max_serial(names@, prefix@) == (if acc as nat > spec_max_serial(
                names@.skip(i as int),
                prefix@,
            ) {
                acc as nat
            } else {
                spec_max_serial(names@.skip(i as int), prefix@)
            }),
        decreases n - i,
    {
        proof {
            assert(names@.skip(i as int)[0] == names@[i as int]);
            assert(names@.skip(i as int).drop_first() =~= names@.skip(i as int + 1));
        }
        let v = serial_of_name(names[i].as_str(), prefix.as_str());
        if v > acc {
            acc = v;
        }
        i = i + 1;
    }
    proof {
        assert(names@.skip(n as int) =~= Seq::<String>::empty());
    }
    if acc == 0xffff_ffffu32 {
        None
    } else {
        Some(acc + 1)
    }
}

} // verus!
