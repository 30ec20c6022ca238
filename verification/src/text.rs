//! Text building blocks: decimal rendering of integers and string assembly.

use vstd::prelude::*;
use vstd::string::*;

verus! {

/// The ASCII decimal digit for `d`, which must lie in `0..10`.
pub open spec fn digit_char(d: nat) -> char
    recommends
        d < 10,
{
    (('0' as nat) + d) as char
}

/// The decimal rendering of `n`, most significant digit first, without
/// leading zeros (zero itself is rendered as `"0"`).
pub open spec fn decimal(n: nat) -> Seq<char>
    decreases n,
{
    if n < 10 {
        seq![digit_char(n)]
    } else {
        decimal(n / 10).push(digit_char(n % 10))
    }
}

/// The decimal rendering of a signed integer: a minus sign before the
/// digits of its magnitude when it is negative.
pub open spec fn signed_decimal(n: int) -> Seq<char> {
    if n < 0 {
        seq!['-'] + decimal((-n) as nat)
    } else {
        decimal(n as nat)
    }
}

/// Appends `c` to `s` (std's `String::push`).
#[verifier::external_body]
pub(crate) fn push_char(s: &mut String, c: char)
    ensures
        final(s)@ == old(s)@.push(c),
{
    s.push(c);
}

/// Appends the decimal digits of `n` to `s`.
fn push_decimal(s: &mut String, n: u128)
    ensures
        final(s)@ == old(s)@ + decimal(n as nat),
    decreases n,
{
    if n < 10 {
        let c = (48u8 + (n as u8)) as char;
        assert(c == digit_char(n as nat));
        push_char(s, c);
        assert(decimal(n as nat) == seq![digit_char(n as nat)]);
    } else {
        push_decimal(s, n / 10);
        let c = (48u8 + ((n % 10) as u8)) as char;
        push_char(s, c);
        assert(decimal(n as nat) == decimal((n / 10) as nat).push(digit_char((n % 10) as nat)));
    }
}

/// Renders `n` in decimal, as `n.to_string()` does.
pub fn decimal_string(n: u128) -> (s: String)
    ensures
        s@ == decimal(n as nat),
{
    let mut s = String::new();
    push_decimal(&mut s, n);
    s
}

/// Renders a signed 16-bit number in decimal, as its `Display` does.
pub fn signed_decimal_string(n: i16) -> (s: String)
    ensures
        s@ == signed_decimal(n as int),
{
    let mut s = String::new();
    if n < 0 {
        push_char(&mut s, '-');
        let magnitude: u128 = (0i32 - (n as i32)) as u128;
        push_decimal(&mut s, magnitude);
    } else {
        push_decimal(&mut s, n as u128);
    }
    s
}

/// Whether `s` spells exactly `lit`.
pub fn text_is(s: &String, lit: &str) -> (b: bool)
    ensures
        b == (s@ == lit@),
{
    let l = String::from_str(lit);
    *s == l
}

/// The number that a string of decimal digits spells.
pub open spec fn digits_value(s: Seq<char>) -> int
    decreases s.len(),
{
    if s.len() == 0 {
        0
    } else {
        digits_value(s.drop_last()) * 10 + ((s.last() as int) - ('0' as int))
    }
}

/// The decimal rendering of `n` is a non-empty string of digits, without
/// a leading zero unless it is `"0"`, that spells `n` back.
pub proof fn law_decimal_spells_the_number(n: nat)
    ensures
        decimal(n).len() >= 1,
        forall|i: int| 0 <= i < decimal(n).len() ==> '0' <= #[trigger] decimal(n)[i] <= '9',
        decimal(n)[0] == '0' ==> n == 0,
        digits_value(decimal(n)) == n,
    decreases n,
{
    if n < 10 {
        assert(decimal(n) =~= seq![digit_char(n)]);
        assert(decimal(n).drop_last() =~= Seq::<char>::empty());
        assert((digit_char(n) as int) == 48 + n);
        assert(('0' as int) == 48);
        assert(decimal(n).last() == digit_char(n));
        assert(digits_value(decimal(n).drop_last()) == 0);
    } else {
        let q = n / 10;
        let r = n % 10;
        law_decimal_spells_the_number(q);
        let d = decimal(n);
        assert(d == decimal(q).push(digit_char(r)));
        assert(d.drop_last() =~= decimal(q));
        assert(d[0] == decimal(q)[0]);
        assert(q * 10 + r == n);
        assert((digit_char(r) as int) == 48 + r);
        assert(('0' as int) == 48);
        assert(d.last() == digit_char(r));
        assert(digits_value(d) == digits_value(decimal(q)) * 10 + r);
        assert forall|i: int| 0 <= i < d.len() implies '0' <= #[trigger] d[i] <= '9' by {
            if i < decimal(q).len() {
                assert(d[i] == decimal(q)[i]);
            }
        }
    }
}

/// The signed rendering of `n`: a minus sign exactly when `n` is negative,
/// followed by the decimal rendering of its magnitude.
pub proof fn law_signed_decimal_spells_the_number(n: int)
    ensures
        n < 0 ==> signed_decimal(n)[0] == '-' && signed_decimal(n).drop_first() == decimal(
            (-n) as nat,
        ),
        n >= 0 ==> signed_decimal(n) == decimal(n as nat),
        digits_value(decimal(if n < 0 { (-n) as nat } else { n as nat })) == (if n < 0 {
            -n
        } else {
            n
        }),
{
    if n < 0 {
        law_decimal_spells_the_number((-n) as nat);
        assert(signed_decimal(n).drop_first() =~= decimal((-n) as nat));
    } else {
        law_decimal_spells_the_number(n as nat);
    }
}

} // verus!
