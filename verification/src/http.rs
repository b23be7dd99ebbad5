//! Shared HTTP vocabulary: status-code validity, header-field validity,
//! ASCII case folding, and the exec string helpers the router and the
//! executor build on.
use vstd::prelude::*;

verus! {

/// A response struct assembled by the core: status, header pairs, body text.
#[derive(Debug)]
pub struct HttpResponse {
    pub status: u16,
    pub headers: Vec<(String, String)>,
    pub body: String,
}

/// Whether `s` is a status code that can be put on the wire as given.
pub open spec fn valid_status(s: u16) -> bool {
    100 <= s <= 599
}

/// The status actually served for a declared status: codes outside the valid
/// range fall back to 200.
pub open spec fn spec_effective_status(s: u16) -> u16 {
    if valid_status(s) {
        s
    } else {
        200u16
    }
}

pub fn effective_status(s: u16) -> (r: u16)
    ensures
        r == spec_effective_status(s),
{
    if 100 <= s && s <= 599 {
        s
    } else {
        200
    }
}

/// ASCII lower-casing of one character; anything outside 'A'..'Z' is kept.
pub open spec fn lower_char(c: char) -> char {
    if 65 <= c as u32 <= 90 {
        ((c as u32 + 32) as u8) as char
    } else {
        c
    }
}

/// ASCII lower-casing of a character sequence.
pub open spec fn lower_seq(s: Seq<char>) -> Seq<char> {
    s.map_values(|c: char| lower_char(c))
}

/// ASCII upper-casing of one character; anything outside 'a'..'z' is kept.
pub open spec fn upper_char(c: char) -> char {
    if 97 <= c as u32 <= 122 {
        ((c as u32 - 32) as u8) as char
    } else {
        c
    }
}

/// ASCII upper-casing of a character sequence.
pub open spec fn upper_seq(s: Seq<char>) -> Seq<char> {
    s.map_values(|c: char| upper_char(c))
}

/// Case-insensitive equality of two character sequences.
pub open spec fn eq_ci(a: Seq<char>, b: Seq<char>) -> bool {
    lower_seq(a) == lower_seq(b)
}

fn lower_char_exec(c: char) -> (r: char)
    ensures
        r == lower_char(c),
{
    let u = c as u32;
    if 65 <= u && u <= 90 {
        ((u + 32) as u8) as char
    } else {
        c
    }
}

fn upper_char_exec(c: char) -> (r: char)
    ensures
        r == upper_char(c),
{
    let u = c as u32;
    if 97 <= u && u <= 122 {
        ((u - 32) as u8) as char
    } else {
        c
    }
}

/// Relies on std's String::push: appends the given character to the end of
/// the string, and does nothing else to it.
#[verifier::external_body]
fn push_char(s: &mut String, c: char)
    ensures
        final(s)@ == old(s)@.push(c),
{
    s.push(c)
}

/// Case-insensitive string comparison, ASCII folding only.
pub fn str_eq_ci(a: &str, b: &str) -> (r: bool)
    ensures
        r == eq_ci(a@, b@),
{
    let na = a.unicode_len();
    let nb = b.unicode_len();
    if na != nb {
        proof {
            assert(lower_seq(a@).len() != lower_seq(b@).len());
        }
        return false;
    }
    let mut i: usize = 0;
    while i < na
        invariant
            na == a@.len(),
            na == b@.len(),
            i <= na,
            forall|j: int| 0 <= j < i ==> lower_char(a@[j]) == lower_char(b@[j]),
        decreases na - i,
    {
        let ca = a.get_char(i);
        let cb = b.get_char(i);
        if lower_char_exec(ca) != lower_char_exec(cb) {
            proof {
                assert(lower_seq(a@)[i as int] != lower_seq(b@)[i as int]);
            }
            return false;
        }
        i = i + 1;
    }
    proof {
        assert(lower_seq(a@) =~= lower_seq(b@));
    }
    true
}

/// Exact string equality at the character level.
pub fn str_eq(a: &str, b: &str) -> (r: bool)
    ensures
        r == (a@ == b@),
{
    let sa = a.to_owned();
    let sb = b.to_owned();
    sa == sb
}

/// ASCII upper-casing of a string, as the executor applies to method tokens.
pub fn to_upper(s: &str) -> (r: String)
    ensures
        r@ == upper_seq(s@),
{
    let n = s.unicode_len();
    let mut r = String::new();
    let mut i: usize = 0;
    while i < n
        invariant
            n == s@.len(),
            i <= n,
            r@ == upper_seq(s@).take(i as int),
        decreases n - i,
    {
        let c = upper_char_exec(s.get_char(i));
        push_char(&mut r, c);
        proof {
            assert(upper_seq(s@).take(i + 1) =~= upper_seq(s@).take(i as int).push(
                upper_char(s@[i as int]),
            ));
        }
        i = i + 1;
    }
    proof {
        assert(upper_seq(s@).take(n as int) =~= upper_seq(s@));
    }
    r
}

/// Whether `c` may stand in an HTTP header field name (an RFC token character:
/// a letter, a digit, or one of ``!#$%&'*+-.^_`|~``).
pub open spec fn is_tchar(c: char) -> bool {
    let u = c as u32;
    (48 <= u <= 57) || (65 <= u <= 90) || (97 <= u <= 122) || u == 33 || u == 35 || u == 36 || u
        == 37 || u == 38 || u == 39 || u == 42 || u == 43 || u == 45 || u == 46 || u == 94 || u
        == 95 || u == 96 || u == 124 || u == 126
}

pub fn check_tchar(c: char) -> (r: bool)
    ensures
        r == is_tchar(c),
{
    let u = c as u32;
    (48 <= u && u <= 57) || (65 <= u && u <= 90) || (97 <= u && u <= 122) || u == 33 || u == 35
        || u == 36 || u == 37 || u == 38 || u == 39 || u == 42 || u == 43 || u == 45 || u == 46
        || u == 94 || u == 95 || u == 96 || u == 124 || u == 126
}

/// Whether `c` may stand in an HTTP header field value: horizontal tab,
/// space, or a visible ASCII character.
pub open spec fn is_field_vchar(c: char) -> bool {
    let u = c as u32;
    u == 9 || (32 <= u <= 126)
}

fn is_field_vchar_exec(c: char) -> (r: bool)
    ensures
        r == is_field_vchar(c),
{
    let u = c as u32;
    u == 9 || (32 <= u && u <= 126)
}

/// A header field name that can be encoded: nonempty, token characters only.
pub open spec fn valid_header_name(s: Seq<char>) -> bool {
    s.len() > 0 && forall|i: int| 0 <= i < s.len() ==> is_tchar(s[i])
}

/// A header field value that can be encoded: field characters only.
pub open spec fn valid_header_value(s: Seq<char>) -> bool {
    forall|i: int| 0 <= i < s.len() ==> is_field_vchar(s[i])
}

pub fn check_header_name(s: &str) -> (r: bool)
    ensures
        r == valid_header_name(s@),
{
    let n = s.unicode_len();
    if n == 0 {
        return false;
    }
    let mut i: usize = 0;
    while i < n
        invariant
            n == s@.len(),
            i <= n,
            forall|j: int| 0 <= j < i ==> is_tchar(s@[j]),
        decreases n - i,
    {
        if !check_tchar(s.get_char(i)) {
            return false;
        }
        i = i + 1;
    }
    true
}

pub fn check_header_value(s: &str) -> (r: bool)
    ensures
        r == valid_header_value(s@),
{
    let n = s.unicode_len();
    let mut i: usize = 0;
    while i < n
        invariant
            n == s@.len(),
            i <= n,
            forall|j: int| 0 <= j < i ==> is_field_vchar(s@[j]),
        decreases n - i,
    {
        if !is_field_vchar_exec(s.get_char(i)) {
            return false;
        }
        i = i + 1;
    }
    true
}

} // verus!
