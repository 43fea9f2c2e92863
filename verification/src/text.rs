//! Text building blocks for the extraction layer: appending characters,
//! normalizing tag keys to upper case, and rendering numbers as decimal
//! strings.
use vstd::prelude::*;

verus! {

/// Relies on `String::push`: appends exactly the given character to the end
/// of the string.
#[verifier::external_body]
pub fn push_char(s: &mut String, c: char)
    ensures
        final(s)@ == old(s)@.push(c),
{
    s.push(c);
}

/// The upper-case form of one character: ASCII letters `a`..`z` are mapped to
/// `A`..`Z`, every other character is left as it is.
pub open spec fn upper_char(c: char) -> char {
    if 97 <= c as u32 && c as u32 <= 122 {
        (((c as u32) - 32) as u8) as char
    } else {
        c
    }
}

/// A character sequence with every ASCII letter upper-cased.
pub open spec fn upper_seq(s: Seq<char>) -> Seq<char> {
    s.map(|i: int, c: char| upper_char(c))
}

/// Upper-cases the ASCII letters of a key, as the extraction layer does for
/// field-map keys before handing them to a sink.
pub fn to_uppercase(s: &str) -> (r: String)
    ensures
        r@ == upper_seq(s@),
{
    let n: usize = s.unicode_len();
    let mut r = String::new();
    let mut i: usize = 0;
    while i < n
        invariant
            n == s@.len(),
            i <= n,
            r@ == upper_seq(s@.subrange(0, i as int)),
        decreases n - i,
    {
        let c = s.get_char(i);
        let u: u32 = c as u32;
        let uc: char = if 97 <= u && u <= 122 {
            ((u - 32) as u8) as char
        } else {
            c
        };
        assert(uc == upper_char(s@[i as int]));
        push_char(&mut r, uc);
        i = i + 1;
        assert(r@ =~= upper_seq(s@.subrange(0, i as int)));
    }
    assert(s@.subrange(0, n as int) =~= s@);
    r
}

/// A copy of a list of strings, element for element.
pub fn clone_strings(v: &Vec<String>) -> (r: Vec<String>)
    ensures
        r@ =~= v@,
        r.deep_view() =~= v.deep_view(),
{
    let mut r: Vec<String> = Vec::new();
    let n: usize = v.len();
    let mut i: usize = 0;
    while i < n
        invariant
            n == v@.len(),
            i <= n,
            r@.len() == i,
            forall|j: int| 0 <= j < i ==> r@[j] == v@[j],
        decreases n - i,
    {
        r.push(v[i].clone());
        i = i + 1;
    }
    assert(r@ =~= v@);
    r
}

/// A copy of a byte buffer.
pub fn clone_bytes(v: &Vec<u8>) -> (r: Vec<u8>)
    ensures
        r@ =~= v@,
{
    let mut r: Vec<u8> = Vec::new();
    let n: usize = v.len();
    let mut i: usize = 0;
    while i < n
        invariant
            n == v@.len(),
            i <= n,
            r@.len() == i,
            forall|j: int| 0 <= j < i ==> r@[j] == v@[j],
        decreases n - i,
    {
        r.push(v[i]);
        i = i + 1;
    }
    assert(r@ =~= v@);
    r
}

/// The decimal digit character for one value below ten.
pub open spec fn dec_digit(d: nat) -> char {
    ((48 + d) as u8) as char
}

/// The decimal rendering of a natural number, most significant digit first,
/// with no leading zeros (zero itself is rendered as one digit).
pub open spec fn dec_of(n: nat) -> Seq<char>
    decreases n,
{
    if n < 10 {
        seq![dec_digit(n)]
    } else {
        dec_of(n / 10).push(dec_digit(n % 10))
    }
}

/// The decimal rendering of an integer: a minus sign before the digits when
/// it is negative.
pub open spec fn int_dec_of(i: int) -> Seq<char> {
    if i >= 0 {
        dec_of(i as nat)
    } else {
        seq!['-'] + dec_of((-i) as nat)
    }
}

/// Appends the decimal digits of `n` to `out`.
fn push_dec(out: &mut String, n: u64)
    ensures
        final(out)@ == old(out)@ + dec_of(n as nat),
    decreases n,
{
    if n >= 10 {
        push_dec(out, n / 10);
    }
    push_char(out, (48 + (n % 10) as u8) as char);
    proof {
        if n >= 10 {
            assert(final(out)@ =~= old(out)@ + dec_of(n as nat));
        } else {
            assert(final(out)@ =~= old(out)@ + dec_of(n as nat));
        }
    }
}

/// The decimal string of an unsigned 64-bit value.
pub fn u64_to_string(n: u64) -> (r: String)
    ensures
        r@ == dec_of(n as nat),
{
    let mut r = String::new();
    push_dec(&mut r, n);
    proof {
        assert(r@ =~= dec_of(n as nat));
    }
    r
}

/// The decimal string of an unsigned 32-bit value.
pub fn u32_to_string(n: u32) -> (r: String)
    ensures
        r@ == dec_of(n as nat),
{
    u64_to_string(n as u64)
}

/// The decimal string of a signed 64-bit value.
pub fn i64_to_string(n: i64) -> (r: String)
    ensures
        r@ == int_dec_of(n as int),
{
    let mut r = String::new();
    if n >= 0 {
        push_dec(&mut r, n as u64);
        proof {
            assert(r@ =~= int_dec_of(n as int));
        }
    } else {
        push_char(&mut r, '-');
        let m: u64 = ((-(n + 1)) as u64) + 1;
        assert(m as nat == (-(n as int)) as nat);
        push_dec(&mut r, m);
        proof {
            assert(seq!['-'] =~= Seq::<char>::empty().push('-'));
            assert(r@ =~= int_dec_of(n as int));
        }
    }
    r
}

/// The decimal string of a signed 32-bit value.
pub fn i32_to_string(n: i32) -> (r: String)
    ensures
        r@ == int_dec_of(n as int),
{
    i64_to_string(n as i64)
}

/// The rendering of an integer pair, first and second value separated by a
/// slash.
pub open spec fn pair_dec_of(first: int, second: int) -> Seq<char> {
    int_dec_of(first) + seq!['/'] + int_dec_of(second)
}

/// Renders an integer pair as `first/second`.
pub fn pair_to_string(first: i32, second: i32) -> (r: String)
    ensures
        r@ == pair_dec_of(first as int, second as int),
{
    let mut r = i64_to_string(first as i64);
    push_char(&mut r, '/');
    let s = i64_to_string(second as i64);
    let r2 = r.concat(s.as_str());
    proof {
        assert(r2@ =~= pair_dec_of(first as int, second as int));
    }
    r2
}

} // verus!

