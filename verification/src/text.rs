//! Small executable helpers over `String` and `&str`: appending single
//! characters, decimal and hexadecimal rendering, decimal parsing, and
//! placeholder replacement. Everything downstream that builds URLs, query
//! strings, or the persisted credential text rests on these.

use vstd::prelude::*;
use vstd::string::StrSliceExecFns;
use vstd::string::StringExecFns;

verus! {

/// Relies on `String::push`: appends the given `char` to the end of the string.
#[verifier::external_body]
pub fn push_char(s: &mut String, c: char)
    ensures
        final(s)@ == old(s)@.push(c),
{
    s.push(c);
}

/// The decimal digit characters, indexed by value.
pub open spec fn dec_char(d: nat) -> char
    recommends
        d < 10,
{
    seq!['0', '1', '2', '3', '4', '5', '6', '7', '8', '9'][d as int]
}

/// The usual base-ten rendering of `n`, without leading zeros
/// (a single `'0'` for zero).
pub open spec fn dec_digits(n: nat) -> Seq<char>
    decreases n,
{
    if n < 10 {
        seq![dec_char(n)]
    } else {
        dec_digits(n / 10).push(dec_char(n % 10))
    }
}

fn dec_char_exec(d: u64) -> (c: char)
    requires
        d < 10,
    ensures
        c == dec_char(d as nat),
{
    let table: [char; 10] = ['0', '1', '2', '3', '4', '5', '6', '7', '8', '9'];
    table[d as usize]
}

/// Renders `n` in decimal.
pub fn u64_to_string(n: u64) -> (r: String)
    ensures
        r@ == dec_digits(n as nat),
    decreases n,
{
    if n < 10 {
        let mut r = String::new();
        push_char(&mut r, dec_char_exec(n));
        assert(r@ =~= dec_digits(n as nat));
        r
    } else {
        let mut r = u64_to_string(n / 10);
        push_char(&mut r, dec_char_exec(n % 10));
        r
    }
}

/// The base-ten rendering of a signed value: a minus sign before the
/// digits of its magnitude.
pub open spec fn dec_int(n: int) -> Seq<char> {
    if n < 0 {
        seq!['-'] + dec_digits((-n) as nat)
    } else {
        dec_digits(n as nat)
    }
}

/// Renders `n` in decimal, with a leading `'-'` when negative.
pub fn i64_to_string(n: i64) -> (r: String)
    ensures
        r@ == dec_int(n as int),
{
    if n >= 0 {
        u64_to_string(n as u64)
    } else {
        let mut r = String::new();
        push_char(&mut r, '-');
        let magnitude: u64 = if n == i64::MIN {
            9223372036854775808u64
        } else {
            (-n) as u64
        };
        let digits = u64_to_string(magnitude);
        let r2 = r.concat(digits.as_str());
        assert(r2@ =~= dec_int(n as int));
        r2
    }
}

/// The lower-case hexadecimal digit characters, indexed by value.
pub open spec fn hex_char(d: nat) -> char
    recommends
        d < 16,
{
    seq!['0', '1', '2', '3', '4', '5', '6', '7', '8', '9', 'a', 'b', 'c', 'd', 'e', 'f'][d as int]
}

fn hex_char_exec(d: u8) -> (c: char)
    requires
        d < 16,
    ensures
        c == hex_char(d as nat),
{
    let table: [char; 16] = [
        '0', '1', '2', '3', '4', '5', '6', '7', '8', '9', 'a', 'b', 'c', 'd', 'e', 'f',
    ];
    table[d as usize]
}

/// Two lower-case hex digits per byte, in order.
pub open spec fn hex_of_bytes(bytes: Seq<u8>) -> Seq<char>
    decreases bytes.len(),
{
    if bytes.len() == 0 {
        Seq::empty()
    } else {
        seq![hex_char((bytes[0] >> 4) as nat), hex_char((bytes[0] & 0xf) as nat)]
            + hex_of_bytes(bytes.drop_first())
    }
}

/// Renders a byte string as lower-case hex, two digits per byte.
pub fn bytes_to_hex(bytes: &Vec<u8>) -> (r: String)
    ensures
        r@ == hex_of_bytes(bytes@),
        r@.len() == 2 * bytes@.len(),
{
    let mut r = String::new();
    let mut i: usize = 0;
    proof {
        lemma_hex_of_bytes_len(bytes@);
        assert(bytes@.skip(0) == bytes@);
    }
    while i < bytes.len()
        invariant
            i <= bytes@.len(),
            hex_of_bytes(bytes@) =~= r@ + hex_of_bytes(bytes@.skip(i as int)),
            r@.len() == 2 * i,
        decreases bytes@.len() - i,
    {
        let b = bytes[i];
        assert((b >> 4) < 16 && (b & 0xf) < 16) by (bit_vector);
        push_char(&mut r, hex_char_exec(b >> 4));
        push_char(&mut r, hex_char_exec(b & 0xf));
        proof {
            assert(bytes@.skip(i as int).drop_first() =~= bytes@.skip(i + 1));
        }
        i = i + 1;
    }
    proof {
        lemma_hex_of_bytes_len(bytes@);
    }
    r
}

proof fn lemma_hex_of_bytes_len(bytes: Seq<u8>)
    ensures
        hex_of_bytes(bytes).len() == 2 * bytes.len(),
    decreases bytes.len(),
{
    if bytes.len() > 0 {
        lemma_hex_of_bytes_len(bytes.drop_first());
    }
}

/// A digit string renders back to the value it was made from: the
/// decimal rendering loses nothing, so distinct values render to
/// distinct strings.
pub proof fn lemma_dec_digits_value(n: nat)
    ensures
        dec_value(dec_digits(n)) == n,
        is_dec_seq(dec_digits(n)),
    decreases n,
{
    if n < 10 {
        assert(dec_digits(n) =~= seq![dec_char(n)]);
        assert(dec_value(dec_digits(n)) == dec_value(seq![dec_char(n)].drop_last()) * 10
            + dec_char_value(dec_char(n)));
        assert(seq![dec_char(n)].drop_last() =~= Seq::<char>::empty());
        assert(dec_char_value(dec_char(n)) == n);
    } else {
        lemma_dec_digits_value(n / 10);
        let s = dec_digits(n / 10).push(dec_char(n % 10));
        assert(s.drop_last() =~= dec_digits(n / 10));
        assert(dec_char_value(dec_char(n % 10)) == n % 10);
        vstd::arithmetic::div_mod::lemma_fundamental_div_mod(n as int, 10);
        assert(forall|i: int|
            0 <= i < s.len() ==> is_dec_char(#[trigger] s[i])) by {
            assert(forall|i: int|
                0 <= i < dec_digits(n / 10).len() ==> is_dec_char(
                    #[trigger] dec_digits(n / 10)[i],
                ));
        }
    }
}

/// Distinct values never share a decimal rendering.
pub proof fn lemma_dec_digits_injective(a: nat, b: nat)
    requires
        dec_digits(a) == dec_digits(b),
    ensures
        a == b,
{
    lemma_dec_digits_value(a);
    lemma_dec_digits_value(b);
}

/// `parts` joined by `sep` before every part after the first.
pub open spec fn spec_join(parts: Seq<Seq<char>>, sep: Seq<char>) -> Seq<char>
    decreases parts.len(),
{
    if parts.len() == 0 {
        Seq::empty()
    } else {
        parts[0] + spec_join_tail(parts.drop_first(), sep)
    }
}

/// The joined tail: `sep` before each remaining part.
pub open spec fn spec_join_tail(parts: Seq<Seq<char>>, sep: Seq<char>) -> Seq<char>
    decreases parts.len(),
{
    if parts.len() == 0 {
        Seq::empty()
    } else {
        sep + parts[0] + spec_join_tail(parts.drop_first(), sep)
    }
}

/// Joins the parts with the separator between neighbours.
pub fn join_with(parts: &Vec<String>, sep: &str) -> (r: String)
    ensures
        r@ == spec_join(parts.deep_view(), sep@),
{
    if parts.len() == 0 {
        let r = String::new();
        assert(r@ =~= spec_join(parts.deep_view(), sep@));
        return r;
    }
    let mut r = parts[0].clone();
    let mut i: usize = 1;
    proof {
        assert(parts.deep_view().drop_first() =~= parts.deep_view().skip(1));
    }
    while i < parts.len()
        invariant
            1 <= i <= parts@.len(),
            parts.deep_view().len() == parts@.len(),
            spec_join(parts.deep_view(), sep@) == r@ + spec_join_tail(
                parts.deep_view().skip(i as int),
                sep@,
            ),
        decreases parts@.len() - i,
    {
        r.append(sep);
        r.append(parts[i].as_str());
        proof {
            assert(parts.deep_view().skip(i as int).drop_first() =~= parts.deep_view().skip(
                i + 1,
            ));
            assert(parts.deep_view().skip(i as int)[0] == parts@[i as int]@);
        }
        i = i + 1;
    }
    proof {
        assert(spec_join_tail(parts.deep_view().skip(i as int), sep@) =~= Seq::<char>::empty());
    }
    r
}

/// Whether `pat` occurs in `s` at position `i`.
pub fn matches_at(s: &str, i: usize, pat: &str) -> (r: bool)
    requires
        i <= s@.len(),
    ensures
        r == (i + pat@.len() <= s@.len() && s@.subrange(i as int, i + pat@.len()) == pat@),
{
    let n = s.unicode_len();
    let m = pat.unicode_len();
    if m > n - i {
        return false;
    }
    let mut j: usize = 0;
    while j < m
        invariant
            i + m <= n,
            n == s@.len(),
            m == pat@.len(),
            j <= m,
            forall|k: int| 0 <= k < j ==> s@[i + k] == pat@[k],
        decreases m - j,
    {
        if s.get_char(i + j) != pat.get_char(j) {
            proof {
                assert(s@.subrange(i as int, i + m)[j as int] == s@[i + j]);
            }
            return false;
        }
        j = j + 1;
    }
    proof {
        assert(s@.subrange(i as int, i + m) =~= pat@);
    }
    true
}

/// Decides character-for-character equality of two strings.
pub fn str_eq(a: &str, b: &str) -> (r: bool)
    ensures
        r == (a@ == b@),
{
    if a.unicode_len() != b.unicode_len() {
        return false;
    }
    proof {
        assert(a@.subrange(0, 0 + b@.len() as int) =~= a@);
    }
    matches_at(a, 0, b)
}

/// Whether `needle` occurs anywhere in `s`.
pub open spec fn spec_contains_sub(s: Seq<char>, needle: Seq<char>) -> bool {
    exists|i: int|
        0 <= i <= s.len() - needle.len() && #[trigger] s.subrange(i, i + needle.len()) == needle
}

/// Decides whether `needle` occurs anywhere in `s`.
pub fn contains_sub(s: &str, needle: &str) -> (r: bool)
    ensures
        r == spec_contains_sub(s@, needle@),
{
    let n = s.unicode_len();
    let m = needle.unicode_len();
    if m > n {
        return false;
    }
    if m == 0 {
        proof {
            assert(s@.subrange(0, 0 + needle@.len() as int) =~= needle@);
        }
        return true;
    }
    let mut i: usize = 0;
    while i <= n - m
        invariant
            0 < m <= n,
            n == s@.len(),
            m == needle@.len(),
            i <= n - m + 1,
            forall|j: int| 0 <= j < i ==> #[trigger] s@.subrange(j, j + needle@.len()) != needle@,
        decreases n + 1 - m - i,
    {
        if matches_at(s, i, needle) {
            return true;
        }
        i = i + 1;
    }
    false
}

/// Whether `c` is a decimal digit character.
pub open spec fn is_dec_char(c: char) -> bool {
    '0' <= c && c <= '9'
}

/// The value of a digit character.
pub open spec fn dec_char_value(c: char) -> nat {
    (c as nat - '0' as nat) as nat
}

/// Whether every character of `s` is a decimal digit, and there is at
/// least one.
pub open spec fn is_dec_seq(s: Seq<char>) -> bool {
    s.len() > 0 && forall|i: int| 0 <= i < s.len() ==> is_dec_char(#[trigger] s[i])
}

/// The numeric value of a digit string.
pub open spec fn dec_value(s: Seq<char>) -> nat
    decreases s.len(),
{
    if s.len() == 0 {
        0
    } else {
        dec_value(s.drop_last()) * 10 + dec_char_value(s.last())
    }
}

/// What parsing a decimal string yields: its value when `s` is all
/// digits and fits in a `u64`, nothing otherwise.
pub open spec fn spec_parse_u64(s: Seq<char>) -> Option<u64> {
    if is_dec_seq(s) && dec_value(s) <= u64::MAX {
        Some(dec_value(s) as u64)
    } else {
        None
    }
}

proof fn lemma_dec_value_monotone(s: Seq<char>, i: int)
    requires
        0 <= i <= s.len(),
    ensures
        dec_value(s.take(i)) <= dec_value(s),
    decreases s.len() - i,
{
    if i < s.len() {
        lemma_dec_value_monotone(s, i + 1);
        assert(s.take(i + 1).drop_last() =~= s.take(i));
        assert(dec_value(s.take(i + 1)) == dec_value(s.take(i)) * 10 + dec_char_value(
            s.take(i + 1).last(),
        ));
    } else {
        assert(s.take(i) =~= s);
    }
}

/// Parsing undoes rendering: a `u64`'s decimal digits parse back to it.
pub proof fn lemma_parse_u64_digits(n: u64)
    ensures
        spec_parse_u64(dec_digits(n as nat)) == Some(n),
{
    lemma_dec_digits_value(n as nat);
}

/// Parses a decimal digit string into a `u64`; `None` on a character
/// that is no digit, on an empty string, and on overflow.
pub fn parse_u64(s: &str) -> (r: Option<u64>)
    ensures
        r == spec_parse_u64(s@),
{
    let n = s.unicode_len();
    if n == 0 {
        return None;
    }
    let mut value: u64 = 0;
    let mut i: usize = 0;
    while i < n
        invariant
            0 < n == s@.len(),
            i <= n,
            is_dec_seq(s@.take(i as int)) || i == 0,
            forall|j: int| 0 <= j < i ==> is_dec_char(#[trigger] s@[j]),
            value == dec_value(s@.take(i as int)),
        decreases n - i,
    {
        let c = s.get_char(i);
        if c < '0' || c > '9' {
            proof {
                assert(!is_dec_seq(s@));
            }
            return None;
        }
        let d: u32 = c as u32 - 48;
        assert(d < 10 && d == dec_char_value(s@[i as int]));
        if value > (u64::MAX - d as u64) / 10 {
            proof {
                assert(s@.take(i + 1).drop_last() =~= s@.take(i as int));
                assert(dec_value(s@.take(i + 1)) > u64::MAX) by (nonlinear_arith)
                    requires
                        dec_value(s@.take(i + 1)) == dec_value(s@.take(i as int)) * 10
                            + dec_char_value(s@[i as int]),
                        dec_value(s@.take(i as int)) > (u64::MAX - dec_char_value(
                            s@[i as int],
                        )) / 10,
                        dec_char_value(s@[i as int]) < 10,
                ;
                lemma_dec_value_monotone(s@, i + 1);
            }
            return None;
        }
        proof {
            assert(value * 10 + d <= u64::MAX) by (nonlinear_arith)
                requires
                    value <= (u64::MAX - d as u64) / 10,
                    d < 10,
            ;
            assert(s@.take(i + 1).drop_last() =~= s@.take(i as int));
        }
        value = value * 10 + d as u64;
        i = i + 1;
    }
    proof {
        assert(s@.take(n as int) =~= s@);
    }
    Some(value)
}

} // verus!
