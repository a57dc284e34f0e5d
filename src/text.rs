//! Text building blocks: characters of strings, decimal numbers, keyword
//! matching, and CSS escaping of names.
use vstd::prelude::*;

verus! {

/// What `cssparser::serialize_identifier` writes for a name.
pub uninterp spec fn ident_text(s: Seq<char>) -> Seq<char>;

/// What `cssparser::serialize_string` writes for a string.
pub uninterp spec fn quoted_text(s: Seq<char>) -> Seq<char>;

/// Relies on `cssparser::serialize_identifier`: the escaped form of `s` as a
/// CSS identifier, which is empty for an empty name.
#[verifier::external_body]
pub(crate) fn serialize_ident(s: &str) -> (r: Vec<char>)
    ensures
        r@ == ident_text(s@),
        s@.len() == 0 ==> r@.len() == 0,
{
    let mut out = String::new();
    let _ = cssparser::serialize_identifier(s, &mut out);
    out.chars().collect()
}

/// Relies on `cssparser::serialize_string`: `s` escaped between two double
/// quotes.
#[verifier::external_body]
pub(crate) fn serialize_quoted(s: &str) -> (r: Vec<char>)
    ensures
        r@ == quoted_text(s@),
        r@.len() >= 2,
        r@[0] == '"',
        r@.last() == '"',
{
    let mut out = String::new();
    let _ = cssparser::serialize_string(s, &mut out);
    out.chars().collect()
}

/// Relies on `str::chars`: the characters of `s`, in order.
#[verifier::external_body]
pub(crate) fn chars_of(s: &str) -> (r: Vec<char>)
    ensures
        r@ == s@,
{
    s.chars().collect()
}

/// Relies on `FromIterator<char>` for `String`: the string of the characters
/// of `v`, in order.
#[verifier::external_body]
pub(crate) fn string_of(v: &Vec<char>) -> (r: String)
    ensures
        r@ == v@,
{
    v.iter().collect()
}

/// `c` is an ASCII upper-case letter.
pub open spec fn is_ascii_upper(c: char) -> bool {
    'A' <= c && c <= 'Z'
}

/// `a` and `b` agree up to the case of ASCII letters; `b` is written in lower case.
pub open spec fn eq_ignore_case(a: Seq<char>, b: Seq<char>) -> bool {
    a.len() == b.len() && forall|i: int|
        0 <= i < a.len() ==> (#[trigger] a[i] == b[i] || (is_ascii_upper(a[i]) && a[i] as u32 + 32
            == b[i] as u32))
}

/// Whether `a` equals the lower-case keyword `b` up to the case of ASCII letters.
pub fn matches_ignore_case(a: &Vec<char>, b: &str) -> (r: bool)
    ensures
        r == eq_ignore_case(a@, b@),
{
    let bv = chars_of(b);
    if a.len() != bv.len() {
        return false;
    }
    let mut i: usize = 0;
    while i < a.len()
        invariant
            a@.len() == bv@.len(),
            bv@ == b@,
            0 <= i <= a@.len(),
            forall|j: int|
                0 <= j < i ==> (#[trigger] a@[j] == bv@[j] || (is_ascii_upper(a@[j]) && a@[j] as u32
                    + 32 == bv@[j] as u32)),
        decreases a@.len() - i,
    {
        let x = a[i];
        let y = bv[i];
        if !(x == y || ('A' <= x && x <= 'Z' && (x as u32) + 32 == y as u32)) {
            return false;
        }
        i = i + 1;
    }
    true
}

/// The decimal digit for `d < 10`.
pub open spec fn digit(d: nat) -> char {
    if d == 0 { '0' }
    else if d == 1 { '1' }
    else if d == 2 { '2' }
    else if d == 3 { '3' }
    else if d == 4 { '4' }
    else if d == 5 { '5' }
    else if d == 6 { '6' }
    else if d == 7 { '7' }
    else if d == 8 { '8' }
    else { '9' }
}

/// The decimal digits of `n`, without leading zeros.
pub open spec fn decimal(n: nat) -> Seq<char>
    decreases n,
{
    if n < 10 {
        seq![digit(n)]
    } else {
        decimal(n / 10).push(digit(n % 10))
    }
}

/// The decimal form of `n`, with a leading `-` when it is negative.
pub open spec fn signed_decimal(n: int) -> Seq<char> {
    if n < 0 {
        seq!['-'] + decimal((-n) as nat)
    } else {
        decimal(n as nat)
    }
}

fn digit_char(d: u32) -> (r: char)
    requires
        d < 10,
    ensures
        r == digit(d as nat),
{
    if d == 0 { '0' }
    else if d == 1 { '1' }
    else if d == 2 { '2' }
    else if d == 3 { '3' }
    else if d == 4 { '4' }
    else if d == 5 { '5' }
    else if d == 6 { '6' }
    else if d == 7 { '7' }
    else if d == 8 { '8' }
    else { '9' }
}

/// Appends the decimal digits of `n`.
pub fn push_decimal(out: &mut Vec<char>, n: u32)
    ensures
        final(out)@ == old(out)@ + decimal(n as nat),
    decreases n,
{
    if n < 10 {
        out.push(digit_char(n));
    } else {
        push_decimal(out, n / 10);
        out.push(digit_char(n % 10));
        assert(final(out)@ =~= old(out)@ + decimal(n as nat));
    }
}

/// Appends `n` in decimal, with a leading `-` when it is negative.
pub fn push_signed_decimal(out: &mut Vec<char>, n: i32)
    ensures
        final(out)@ == old(out)@ + signed_decimal(n as int),
{
    if n < 0 {
        out.push('-');
        let m: u32 = if n == i32::MIN { 2147483648u32 } else { (-n) as u32 };
        push_decimal(out, m);
        assert(final(out)@ =~= old(out)@ + signed_decimal(n as int));
    } else {
        push_decimal(out, n as u32);
    }
}

/// Appends the characters of `s`.
pub fn push_all(out: &mut Vec<char>, s: &Vec<char>)
    ensures
        final(out)@ == old(out)@ + s@,
{
    let mut i: usize = 0;
    while i < s.len()
        invariant
            0 <= i <= s@.len(),
            out@ == old(out)@ + s@.subrange(0, i as int),
        decreases s@.len() - i,
    {
        out.push(s[i]);
        i = i + 1;
        assert(out@ =~= old(out)@ + s@.subrange(0, i as int));
    }
    assert(s@.subrange(0, s@.len() as int) =~= s@);
}

/// Appends the characters of `s`.
pub fn push_str(out: &mut Vec<char>, s: &str)
    ensures
        final(out)@ == old(out)@ + s@,
{
    let cs = chars_of(s);
    push_all(out, &cs);
}

} // verus!
