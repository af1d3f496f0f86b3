//! Character-level helpers shared by the parsers and renderers.

use vstd::prelude::*;

verus! {

/// ASCII letters and digits.
pub open spec fn is_ascii_alnum(c: char) -> bool {
    ('0' <= c && c <= '9') || ('a' <= c && c <= 'z') || ('A' <= c && c <= 'Z')
}

pub fn ascii_alnum(c: char) -> (r: bool)
    ensures r == is_ascii_alnum(c),
{
    ('0' <= c && c <= '9') || ('a' <= c && c <= 'z') || ('A' <= c && c <= 'Z')
}

/// The ASCII lower-case form of a character; other characters are unchanged.
pub open spec fn ascii_lower(c: char) -> char {
    if 'A' <= c && c <= 'Z' { ((c as u32) + 32) as char } else { c }
}

pub fn to_ascii_lower(c: char) -> (r: char)
    ensures r == ascii_lower(c),
{
    if 'A' <= c && c <= 'Z' {
        let code: u8 = (c as u8) + 32;
        code as char
    } else {
        c
    }
}

/// Characters with the Unicode `White_Space` property.
pub open spec fn is_white_space(c: char) -> bool {
    let u = c as u32;
    (0x09 <= u && u <= 0x0D) || u == 0x20 || u == 0x85 || u == 0xA0 || u == 0x1680
        || (0x2000 <= u && u <= 0x200A) || u == 0x2028 || u == 0x2029 || u == 0x202F
        || u == 0x205F || u == 0x3000
}

pub fn white_space(c: char) -> (r: bool)
    ensures r == is_white_space(c),
{
    let u: u32 = c as u32;
    (0x09 <= u && u <= 0x0D) || u == 0x20 || u == 0x85 || u == 0xA0 || u == 0x1680
        || (0x2000 <= u && u <= 0x200A) || u == 0x2028 || u == 0x2029 || u == 0x202F
        || u == 0x205F || u == 0x3000
}

} // verus!

verus! {

/// The characters of a string slice, in order.
pub fn chars_of(s: &str) -> (r: Vec<char>)
    ensures r@ == s@,
{
    let mut out: Vec<char> = Vec::new();
    for c in it: s.chars()
        invariant
            out@ == it.seq().take(it.index() as int),
            it.seq() == s@,
    {
        out.push(c);
    }
    out
}

/// Appends one character to a string (`String::push`).
#[verifier::external_body]
pub(crate) fn push_char(s: &mut String, c: char)
    ensures final(s)@ == old(s)@.push(c),
{
    s.push(c);
}

/// Builds a string from a sequence of characters.
pub fn string_of(v: &Vec<char>) -> (r: String)
    ensures r@ == v@,
{
    let mut out = String::new();
    let mut i: usize = 0;
    while i < v.len()
        invariant
            i <= v.len(),
            out@ == v@.take(i as int),
        decreases v.len() - i,
    {
        push_char(&mut out, v[i]);
        assert(v@.take(i + 1) == v@.take(i as int).push(v@[i as int]));
        i += 1;
    }
    assert(v@.take(v.len() as int) == v@);
    out
}

} // verus!

verus! {

/// The decimal digit character for `d < 10`.
pub open spec fn digit_char(d: nat) -> char {
    ((d + 48) as u32) as char
}

/// The decimal representation of a natural number, without sign or leading zeros.
pub open spec fn decimal(n: nat) -> Seq<char>
    decreases n,
{
    if n < 10 {
        seq![digit_char(n)]
    } else {
        decimal(n / 10).push(digit_char(n % 10))
    }
}

/// The decimal representation of a signed integer, with a leading `-` when negative.
pub open spec fn signed_decimal(n: int) -> Seq<char> {
    if n < 0 { seq!['-'] + decimal((-n) as nat) } else { decimal(n as nat) }
}

fn digit(d: u128) -> (c: char)
    requires d < 10,
    ensures c == digit_char(d as nat),
{
    let b: u8 = (d as u8) + 48;
    b as char
}

/// Writes `n` in decimal (`u128::to_string`).
pub fn decimal_u128(n: u128) -> (r: String)
    ensures r@ == decimal(n as nat),
    decreases n,
{
    if n < 10 {
        let mut s = String::new();
        push_char(&mut s, digit(n));
        proof { assert(s@ =~= decimal(n as nat)); }
        s
    } else {
        let mut s = decimal_u128(n / 10);
        push_char(&mut s, digit(n % 10));
        s
    }
}

/// Writes `n` in decimal (`u64::to_string`).
pub fn decimal_u64(n: u64) -> (r: String)
    ensures r@ == decimal(n as nat),
{
    decimal_u128(n as u128)
}

/// Writes `n` in decimal with its sign (`i64::to_string`).
pub fn decimal_i64(n: i64) -> (r: String)
    ensures r@ == signed_decimal(n as int),
{
    if n < 0 {
        let magnitude: u128 = (0i128 - (n as i128)) as u128;
        let digits = decimal_u128(magnitude);
        let mut s = String::new();
        push_char(&mut s, '-');
        let s = s.concat(digits.as_str());
        proof { assert(s@ =~= signed_decimal(n as int)); }
        s
    } else {
        decimal_u128(n as u128)
    }
}

/// `true` when the character is an ASCII digit.
pub open spec fn is_digit(c: char) -> bool {
    '0' <= c && c <= '9'
}

/// The value of a run of ASCII digits.
pub open spec fn digits_value(s: Seq<char>) -> nat
    decreases s.len(),
{
    if s.len() == 0 {
        0
    } else {
        digits_value(s.drop_last()) * 10 + ((s.last() as u32) - 48) as nat
    }
}

/// A literal without its leading `+`, if it has one.
pub open spec fn literal_body(s: Seq<char>) -> Seq<char> {
    if s.len() > 0 && s[0] == '+' { s.drop_first() } else { s }
}

/// The digits that an unsigned decimal literal holds: an optional `+`, then at least one digit.
pub open spec fn unsigned_literal_digits(s: Seq<char>) -> Option<Seq<char>> {
    let body = literal_body(s);
    if body.len() > 0 && (forall|i: int| 0 <= i < body.len() ==> is_digit(#[trigger] body[i])) {
        Some(body)
    } else {
        None
    }
}

/// What `u128::from_str` accepts: an optional `+`, at least one digit, and a value that fits.
pub open spec fn parse_u128_spec(s: Seq<char>) -> Option<u128> {
    match unsigned_literal_digits(s) {
        Some(body) => if digits_value(body) <= u128::MAX { Some(digits_value(body) as u128) } else { None },
        None => None,
    }
}

proof fn lemma_digits_value_push(s: Seq<char>, c: char)
    ensures digits_value(s.push(c)) == digits_value(s) * 10 + ((c as u32) - 48) as nat,
{
    assert(s.push(c).drop_last() =~= s);
}

/// Parses an unsigned decimal number (`u128::from_str`).
pub fn parse_u128(s: &Vec<char>) -> (r: Option<u128>)
    ensures r == parse_u128_spec(s@),
{
    let start: usize = if s.len() > 0 && s[0] == '+' { 1 } else { 0 };
    let ghost body = literal_body(s@);
    assert(body =~= s@.subrange(start as int, s@.len() as int));
    if start >= s.len() {
        return None;
    }
    let mut value: u128 = 0;
    let mut overflow = false;
    let mut i = start;
    while i < s.len()
        invariant
            start <= i <= s.len(),
            body =~= s@.subrange(start as int, s@.len() as int),
            body == literal_body(s@),
            forall|k: int| start <= k < i ==> is_digit(#[trigger] s@[k]),
            !overflow ==> value as nat == digits_value(s@.subrange(start as int, i as int)),
            overflow ==> digits_value(s@.subrange(start as int, i as int)) > u128::MAX,
        decreases s.len() - i,
    {
        let c = s[i];
        if !('0' <= c && c <= '9') {
            proof {
                let k: int = i - start;
                assert(body[k] == c);
                assert(!is_digit(body[k]));
                assert(unsigned_literal_digits(s@) is None);
            }
            return None;
        }
        proof {
            assert(s@.subrange(start as int, i + 1) =~= s@.subrange(start as int, i as int).push(c));
            lemma_digits_value_push(s@.subrange(start as int, i as int), c);
        }
        let d: u128 = ((c as u32) - 48) as u128;
        if !overflow {
            if value > (u128::MAX - d) / 10 {
                overflow = true;
                assert(value * 10 + d > u128::MAX) by (nonlinear_arith)
                    requires value > (u128::MAX - d) / 10, d < 10;
            } else {
                assert(value * 10 + d <= u128::MAX) by (nonlinear_arith)
                    requires value <= (u128::MAX - d) / 10, d < 10;
                value = value * 10 + d;
            }
        } else {
            assert(digits_value(s@.subrange(start as int, i + 1)) >= digits_value(s@.subrange(start as int, i as int))) by (nonlinear_arith)
                requires digits_value(s@.subrange(start as int, i + 1)) == digits_value(s@.subrange(start as int, i as int)) * 10 + d;
        }
        i += 1;
    }
    assert(s@.subrange(start as int, s@.len() as int) =~= body);
    if overflow { None } else { Some(value) }
}

} // verus!

verus! {

/// `s` without its leading white space.
pub open spec fn trim_start(s: Seq<char>) -> Seq<char>
    decreases s.len(),
{
    if s.len() > 0 && is_white_space(s[0]) { trim_start(s.drop_first()) } else { s }
}

/// `s` without its trailing white space.
pub open spec fn trim_end(s: Seq<char>) -> Seq<char>
    decreases s.len(),
{
    if s.len() > 0 && is_white_space(s.last()) { trim_end(s.drop_last()) } else { s }
}

/// `s` without leading and trailing white space (`str::trim`).
pub open spec fn trim(s: Seq<char>) -> Seq<char> {
    trim_end(trim_start(s))
}

proof fn lemma_trim_start_skip(s: Seq<char>, i: int)
    requires
        0 <= i <= s.len(),
        forall|k: int| 0 <= k < i ==> is_white_space(#[trigger] s[k]),
    ensures trim_start(s) == trim_start(s.subrange(i, s.len() as int)),
    decreases i,
{
    if i > 0 {
        lemma_trim_start_skip(s.drop_first(), i - 1);
        assert(s.drop_first().subrange(i - 1, s.drop_first().len() as int) =~= s.subrange(i, s.len() as int));
    } else {
        assert(s.subrange(0, s.len() as int) =~= s);
    }
}

proof fn lemma_trim_end_skip(s: Seq<char>, j: int)
    requires
        0 <= j <= s.len(),
        forall|k: int| j <= k < s.len() ==> is_white_space(#[trigger] s[k]),
    ensures trim_end(s) == trim_end(s.subrange(0, j)),
    decreases s.len() - j,
{
    if j < s.len() {
        lemma_trim_end_skip(s.drop_last(), j);
        assert(s.drop_last().subrange(0, j) =~= s.subrange(0, j));
    } else {
        assert(s.subrange(0, j) =~= s);
    }
}

/// The characters of `v` without leading and trailing white space.
pub fn trim_chars(v: &Vec<char>) -> (r: Vec<char>)
    ensures r@ == trim(v@),
{
    let mut i: usize = 0;
    while i < v.len() && white_space(v[i])
        invariant
            i <= v.len(),
            forall|k: int| 0 <= k < i ==> is_white_space(#[trigger] v@[k]),
        decreases v.len() - i,
    {
        i += 1;
    }
    proof { lemma_trim_start_skip(v@, i as int); }
    let ghost rest = v@.subrange(i as int, v@.len() as int);
    let mut j: usize = v.len();
    while j > i && white_space(v[j - 1])
        invariant
            i <= j <= v.len(),
            forall|k: int| j <= k < v.len() ==> is_white_space(#[trigger] v@[k]),
        decreases j,
    {
        j -= 1;
    }
    proof {
        assert forall|k: int| j - i <= k < rest.len() implies is_white_space(#[trigger] rest[k]) by {
            assert(rest[k] == v@[k + i]);
        }
        lemma_trim_end_skip(rest, j - i);
        assert(rest.subrange(0, j - i) =~= v@.subrange(i as int, j as int));
        if i < j {
            assert(!is_white_space(rest[0]));
            assert(trim_start(rest) == rest);
        } else {
            assert(rest.len() == 0 || !is_white_space(rest[0]) || i == v.len());
        }
    }
    let mut out: Vec<char> = Vec::new();
    let mut k = i;
    while k < j
        invariant
            i <= k <= j <= v.len(),
            out@ =~= v@.subrange(i as int, k as int),
        decreases j - k,
    {
        out.push(v[k]);
        k += 1;
    }
    out
}

/// Equality that ignores ASCII case (`str::eq_ignore_ascii_case`).
pub open spec fn eq_ignore_ascii_case(a: Seq<char>, b: Seq<char>) -> bool {
    a.len() == b.len() && forall|i: int| 0 <= i < a.len() ==> ascii_lower(#[trigger] a[i]) == ascii_lower(b[i])
}

pub fn chars_eq_ignore_ascii_case(a: &Vec<char>, b: &Vec<char>) -> (r: bool)
    ensures r == eq_ignore_ascii_case(a@, b@),
{
    if a.len() != b.len() {
        return false;
    }
    let mut i: usize = 0;
    while i < a.len()
        invariant
            a.len() == b.len(),
            i <= a.len(),
            forall|k: int| 0 <= k < i ==> ascii_lower(#[trigger] a@[k]) == ascii_lower(b@[k]),
        decreases a.len() - i,
    {
        if to_ascii_lower(a[i]) != to_ascii_lower(b[i]) {
            return false;
        }
        i += 1;
    }
    true
}

/// Exact equality of two character sequences.
pub fn chars_eq(a: &Vec<char>, b: &Vec<char>) -> (r: bool)
    ensures r == (a@ == b@),
{
    if a.len() != b.len() {
        return false;
    }
    let mut i: usize = 0;
    while i < a.len()
        invariant
            a.len() == b.len(),
            i <= a.len(),
            forall|k: int| 0 <= k < i ==> #[trigger] a@[k] == b@[k],
        decreases a.len() - i,
    {
        if a[i] != b[i] {
            return false;
        }
        i += 1;
    }
    assert(a@ =~= b@);
    true
}

/// Exact equality of two string slices.
pub fn str_eq(a: &str, b: &str) -> (r: bool)
    ensures r == (a@ == b@),
{
    let x = chars_of(a);
    let y = chars_of(b);
    chars_eq(&x, &y)
}

} // verus!
