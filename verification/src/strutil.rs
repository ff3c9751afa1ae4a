//! Small executable helpers for moving between `&str`, `String` and
//! `Vec<char>`, plus the one place the crate relies on `char::from_u32`.

use vstd::prelude::*;
use vstd::string::StrSliceExecFns;

verus! {

/// Collects the characters of a string slice into a vector.
pub fn str_to_chars(s: &str) -> (r: Vec<char>)
    ensures
        r@ == s@,
{
    let n: usize = s.unicode_len();
    let mut r: Vec<char> = Vec::new();
    let mut i: usize = 0;
    while i < n
        invariant
            i <= n,
            n == s@.len(),
            r@ == s@.subrange(0, i as int),
        decreases n - i,
    {
        let c = s.get_char(i);
        r.push(c);
        i = i + 1;
        proof {
            assert(r@ =~= s@.subrange(0, i as int));
        }
    }
    proof {
        assert(s@.subrange(0, n as int) =~= s@);
    }
    r
}

/// Relies on `String::push`: appends exactly the one character.
#[verifier::external_body]
pub fn push_char(s: &mut String, c: char)
    ensures
        final(s)@ == old(s)@.push(c),
{
    s.push(c);
}

/// Builds a string out of the characters `v[from..to]`.
pub fn chars_to_string(v: &Vec<char>, from: usize, to: usize) -> (r: String)
    requires
        from <= to <= v@.len(),
    ensures
        r@ == v@.subrange(from as int, to as int),
{
    let mut r = String::new();
    let mut i: usize = from;
    while i < to
        invariant
            from <= i <= to <= v@.len(),
            r@ == v@.subrange(from as int, i as int),
        decreases to - i,
    {
        push_char(&mut r, v[i]);
        i = i + 1;
        proof {
            assert(r@ =~= v@.subrange(from as int, i as int));
        }
    }
    r
}

/// Relies on `String::pop`: removes and returns the last character.
#[verifier::external_body]
pub fn pop_char(s: &mut String) -> (r: Option<char>)
    ensures
        old(s)@.len() == 0 ==> r is None && final(s)@ == old(s)@,
        old(s)@.len() > 0 ==> r == Some(old(s)@.last()) && final(s)@ == old(s)@.drop_last(),
{
    s.pop()
}

/// The text `String::from_utf8_lossy` decodes from a byte sequence: a
/// function of the bytes alone.
pub uninterp spec fn lossy_utf8_of(b: Seq<u8>) -> Seq<char>;

/// Relies on `String::from_utf8_lossy`: the result depends on the bytes
/// alone, and on well-formed UTF-8 it is exactly the decoded text.
#[verifier::external_body]
pub fn utf8_lossy(b: &Vec<u8>) -> (r: String)
    ensures
        r@ == lossy_utf8_of(b@),
        vstd::utf8::valid_utf8(b@) ==> r@ == vstd::utf8::decode_utf8(b@),
{
    String::from_utf8_lossy(b).into_owned()
}

/// The decimal digits of a number, most significant first.
pub open spec fn spec_decimal_digits(n: nat) -> Seq<char>
    decreases n,
{
    if n < 10 {
        seq![((48 + n) as u8) as char]
    } else {
        spec_decimal_digits(n / 10).push(((48 + n % 10) as u8) as char)
    }
}

/// The decimal rendering of a signed number.
pub open spec fn spec_i32_digits(n: int) -> Seq<char> {
    if n < 0 {
        seq!['-'] + spec_decimal_digits((-n) as nat)
    } else {
        spec_decimal_digits(n as nat)
    }
}

/// Appends the decimal digits of `n`.
pub fn push_decimal(s: &mut String, n: u64)
    ensures
        final(s)@ == old(s)@ + spec_decimal_digits(n as nat),
    decreases n,
{
    if n < 10 {
        let c = (48 + n as u8) as char;
        push_char(s, c);
        proof {
            assert(old(s)@ + seq![c] =~= old(s)@.push(c));
        }
    } else {
        push_decimal(s, n / 10);
        let c = (48 + (n % 10) as u8) as char;
        push_char(s, c);
        proof {
            assert(old(s)@ + spec_decimal_digits((n / 10) as nat).push(c) =~= (old(s)@
                + spec_decimal_digits((n / 10) as nat)).push(c));
        }
    }
}

/// Renders a signed number in decimal.
pub fn i32_to_string(n: i32) -> (r: String)
    ensures
        r@ == spec_i32_digits(n as int),
{
    let mut s = String::new();
    if n < 0 {
        push_char(&mut s, '-');
        let mag = (-(n as i64)) as u64;
        push_decimal(&mut s, mag);
        proof {
            assert(Seq::<char>::empty().push('-') + spec_decimal_digits(mag as nat) =~= seq!['-']
                + spec_decimal_digits(mag as nat));
        }
    } else {
        push_decimal(&mut s, n as u64);
        proof {
            assert(Seq::<char>::empty() + spec_decimal_digits(n as nat) =~= spec_decimal_digits(
                n as nat,
            ));
        }
    }
    s
}

/// A Unicode scalar value: any code point except the surrogate range,
/// up to the largest code point.
pub open spec fn is_unicode_scalar(u: u32) -> bool {
    u < 0xD800 || (0xE000 <= u && u <= 0x10FFFF)
}

/// Relies on `char::from_u32`: returns `Some` exactly on Unicode scalar
/// values (everything up to 0x10FFFF except the surrogate range), and the
/// character returned has exactly the given code.
#[verifier::external_body]
pub fn char_from_u32(u: u32) -> (r: Option<char>)
    ensures
        match r {
            Some(c) => c as u32 == u,
            None => !is_unicode_scalar(u),
        },
        is_unicode_scalar(u) ==> r is Some,
{
    char::from_u32(u)
}

} // verus!
