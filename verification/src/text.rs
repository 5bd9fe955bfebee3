//! Decimal rendering of integers and the human-readable byte sizes shown in
//! the model panel.
use vstd::prelude::*;

verus! {

/// The character of a decimal digit.
pub open spec fn digit_char(d: nat) -> char {
    if d == 0 {
        '0'
    } else if d == 1 {
        '1'
    } else if d == 2 {
        '2'
    } else if d == 3 {
        '3'
    } else if d == 4 {
        '4'
    } else if d == 5 {
        '5'
    } else if d == 6 {
        '6'
    } else if d == 7 {
        '7'
    } else if d == 8 {
        '8'
    } else {
        '9'
    }
}

/// The decimal notation of a natural number, without sign or leading zeros.
pub open spec fn decimal(n: nat) -> Seq<char>
    decreases n,
{
    if n < 10 {
        seq![digit_char(n)]
    } else {
        decimal(n / 10).push(digit_char(n % 10))
    }
}

/// The digit a decimal character stands for.
pub open spec fn digit_value(c: char) -> int {
    (c as int) - ('0' as int)
}

/// The number a string of decimal digits stands for.
pub open spec fn digits_value(s: Seq<char>) -> int
    decreases s.len(),
{
    if s.len() == 0 {
        0
    } else {
        digits_value(s.drop_last()) * 10 + digit_value(s.last())
    }
}

proof fn lemma_digit_value(d: nat)
    requires
        d < 10,
    ensures
        digit_value(digit_char(d)) == d,
        '0' <= digit_char(d) <= '9',
{
}

/// The decimal notation of `n` is a non-empty string of the digits `0`-`9`
/// without a leading zero (unless it is `0`) and reads back as `n`.
pub proof fn law_decimal_reads_back(n: nat)
    ensures
        decimal(n).len() >= 1,
        forall|i: int| 0 <= i < decimal(n).len() ==> '0' <= #[trigger] decimal(n)[i] <= '9',
        n >= 10 ==> decimal(n)[0] != '0',
        digits_value(decimal(n)) == n,
    decreases n,
{
    lemma_digit_value(n % 10);
    if n >= 10 {
        law_decimal_reads_back(n / 10);
        let d = decimal(n);
        assert(d.drop_last() =~= decimal(n / 10));
        assert(d[0] == decimal(n / 10)[0]);
        assert(d.last() == digit_char(n % 10));
        assert(n == (n / 10) * 10 + n % 10);
        assert(digits_value(d) == digits_value(d.drop_last()) * 10 + digit_value(d.last()));
    } else {
        lemma_digit_value(n);
        assert(decimal(n).drop_last() =~= Seq::<char>::empty());
        assert(digits_value(decimal(n)) == digits_value(decimal(n).drop_last()) * 10 + digit_value(
            decimal(n).last(),
        ));
    }
}

/// Different numbers have different decimal notations.
pub proof fn law_decimal_distinct(a: nat, b: nat)
    requires
        a != b,
    ensures
        decimal(a) != decimal(b),
{
    law_decimal_reads_back(a);
    law_decimal_reads_back(b);
}

/// Calls `String::push`: the contract claims that the string ends with `c`
/// after what it held, as the documentation of `String::push` says.
#[verifier::external_body]
pub(crate) fn push_char(s: &mut String, c: char)
    ensures
        final(s)@ == old(s)@.push(c),
{
    s.push(c);
}

fn digit(d: u128) -> (c: char)
    requires
        d < 10,
    ensures
        c == digit_char(d as nat),
{
    if d == 0 {
        '0'
    } else if d == 1 {
        '1'
    } else if d == 2 {
        '2'
    } else if d == 3 {
        '3'
    } else if d == 4 {
        '4'
    } else if d == 5 {
        '5'
    } else if d == 6 {
        '6'
    } else if d == 7 {
        '7'
    } else if d == 8 {
        '8'
    } else {
        '9'
    }
}

/// Appends the decimal notation of `n` to `s`.
pub fn push_decimal(s: &mut String, n: u128)
    ensures
        final(s)@ == old(s)@ + decimal(n as nat),
    decreases n,
{
    if n >= 10 {
        push_decimal(s, n / 10);
    }
    push_char(s, digit(n % 10));
    proof {
        if n < 10 {
            assert(old(s)@ + decimal(n as nat) =~= old(s)@.push(digit_char(n as nat)));
        } else {
            assert(old(s)@ + decimal(n as nat) =~= (old(s)@ + decimal((n / 10) as nat)).push(
                digit_char((n % 10) as nat),
            ));
        }
    }
}

/// The decimal notation of `n` as a new string.
pub fn decimal_string(n: u128) -> (s: String)
    ensures
        s@ == decimal(n as nat),
{
    let mut s = String::new();
    push_decimal(&mut s, n);
    assert(s@ =~= decimal(n as nat));
    s
}

/// 2^53: below it every integer is exactly an `f64`.
pub open spec fn exact_float_limit() -> nat {
    0x20_0000_0000_0000
}

/// The spacing of the `f64` values around `n`: the power of two by which the
/// 53-bit significand of an `f64` near `n` is scaled.
pub open spec fn float_grain(n: nat) -> nat
    decreases n,
{
    if n < exact_float_limit() {
        1
    } else {
        2 * float_grain(n / 2)
    }
}

/// `num / den` rounded to the nearest integer, ties to the even one.
pub open spec fn round_half_even(num: nat, den: nat) -> nat {
    let q = num / den;
    let r = num % den;
    if 2 * r > den || (2 * r == den && q % 2 == 1) {
        q + 1
    } else {
        q
    }
}

/// The value of the `f64` nearest to `n` (ties to even): what `n as f64` holds.
pub open spec fn nearest_float(n: nat) -> nat {
    let g = float_grain(n);
    round_half_even(n, g) * g
}

/// The index of the unit a byte count is shown in: B, KiB, MiB or GiB.
pub open spec fn size_unit(bytes: nat) -> nat {
    if bytes >= 0x4000_0000 {
        3
    } else if bytes >= 0x10_0000 {
        2
    } else if bytes >= 0x400 {
        1
    } else {
        0
    }
}

/// The number of bytes in a unit.
pub open spec fn unit_scale(unit: nat) -> nat {
    if unit == 0 {
        1
    } else if unit == 1 {
        0x400
    } else if unit == 2 {
        0x10_0000
    } else {
        0x4000_0000
    }
}

/// The name of a unit.
pub open spec fn unit_name(unit: nat) -> Seq<char> {
    if unit == 0 {
        "B"@
    } else if unit == 1 {
        "KiB"@
    } else if unit == 2 {
        "MiB"@
    } else {
        "GiB"@
    }
}

/// The shown size in tenths of its unit: the `f64` value of `bytes` divided by
/// the unit, rounded to one decimal, ties to even.
pub open spec fn size_tenths(bytes: nat) -> nat {
    round_half_even(10 * nearest_float(bytes), unit_scale(size_unit(bytes)))
}

/// The text of a byte count: the exact count followed by `B` below one KiB,
/// else the size in the largest unit up to GiB that it reaches, with one
/// decimal.
pub open spec fn byte_size_text(bytes: nat) -> Seq<char> {
    let unit = size_unit(bytes);
    if unit == 0 {
        decimal(bytes) + " "@ + unit_name(0)
    } else {
        let t = size_tenths(bytes);
        decimal(t / 10) + seq!['.', digit_char(t % 10)] + " "@ + unit_name(unit)
    }
}

proof fn lemma_grain_step(n: nat, g: nat, m: nat)
    requires
        g >= 1,
        m == n / g,
        m >= exact_float_limit(),
        float_grain(n) == g * float_grain(m),
    ensures
        m / 2 == n / (g * 2),
        float_grain(n) == (g * 2) * float_grain(m / 2),
        g * 2 <= n,
{
    vstd::arithmetic::div_mod::lemma_div_denominator(n as int, g as int, 2);
    vstd::arithmetic::div_mod::lemma_fundamental_div_mod(n as int, g as int);
    assert(float_grain(m) == 2 * float_grain(m / 2));
    assert(g * float_grain(m) == (g * 2) * float_grain(m / 2)) by (nonlinear_arith)
        requires
            float_grain(m) == 2 * float_grain(m / 2),
    ;
    assert(g * 2 <= n) by (nonlinear_arith)
        requires
            n == g * m + n % g,
            n % g >= 0,
            m >= 2,
            g >= 1,
    ;
}

/// The `f64` value nearest to `n`, computed exactly on integers.
fn nearest_float_exec(n: u64) -> (r: u128)
    ensures
        r == nearest_float(n as nat),
        r <= 2 * (n as nat),
{
    let n128: u128 = n as u128;
    let mut g: u128 = 1;
    let mut m: u128 = n128;
    while m >= 0x20_0000_0000_0000
        invariant
            g >= 1,
            g == 1 || g <= n128,
            m == n128 / g,
            float_grain(n as nat) == g * float_grain(m as nat),
            n128 == n as u128,
        decreases m,
    {
        proof {
            lemma_grain_step(n as nat, g as nat, m as nat);
        }
        g = g * 2;
        m = m / 2;
    }
    assert(float_grain(m as nat) == 1);
    assert(g == float_grain(n as nat)) by (nonlinear_arith)
        requires
            float_grain(m as nat) == 1,
            float_grain(n as nat) == g * float_grain(m as nat),
    ;
    let q: u128 = n128 / g;
    let rem: u128 = n128 % g;
    proof {
        vstd::arithmetic::div_mod::lemma_fundamental_div_mod(n128 as int, g as int);
        assert(q * g + rem == n128) by (nonlinear_arith)
            requires
                n128 == g * q + rem,
        ;
    }
    let rounded: u128 = if 2 * rem > g || (2 * rem == g && q % 2 == 1) {
        q + 1
    } else {
        q
    };
    assert(rounded == round_half_even(n as nat, g as nat));
    proof {
        if rounded == q + 1 {
            assert(rem >= 1);
            assert(g <= n128);
            assert(rounded * g == q * g + g) by (nonlinear_arith)
                requires
                    rounded == q + 1,
            ;
        }
    }
    rounded * g
}

/// The unit index and its scale for a byte count.
fn unit_of(bytes: u64) -> (r: (u128, u128))
    ensures
        r.0 == size_unit(bytes as nat),
        r.1 == unit_scale(r.0 as nat),
{
    if bytes >= 0x4000_0000 {
        (3, 0x4000_0000)
    } else if bytes >= 0x10_0000 {
        (2, 0x10_0000)
    } else if bytes >= 0x400 {
        (1, 0x400)
    } else {
        (0, 1)
    }
}

fn append_unit_name(s: &mut String, unit: u128)
    ensures
        final(s)@ == old(s)@ + unit_name(unit as nat),
{
    if unit == 0 {
        s.append("B");
    } else if unit == 1 {
        s.append("KiB");
    } else if unit == 2 {
        s.append("MiB");
    } else {
        s.append("GiB");
    }
}

/// Renders a byte count the way the model panel shows estimated VRAM:
/// `0 B`, `1.0 KiB`, `1.5 MiB`.
pub fn format_bytes(bytes: usize) -> (text: String)
    ensures
        text@ == byte_size_text(bytes as nat),
{
    let b: u64 = bytes as u64;
    let (unit, scale) = unit_of(b);
    let mut s = String::new();
    if unit == 0 {
        push_decimal(&mut s, b as u128);
        s.append(" ");
        append_unit_name(&mut s, unit);
        assert(s@ =~= byte_size_text(bytes as nat));
        return s;
    }
    let value: u128 = nearest_float_exec(b);
    let num: u128 = 10 * value;
    let q: u128 = num / scale;
    let rem: u128 = num % scale;
    let t: u128 = if 2 * rem > scale || (2 * rem == scale && q % 2 == 1) {
        q + 1
    } else {
        q
    };
    assert(t == size_tenths(bytes as nat));
    push_decimal(&mut s, t / 10);
    push_char(&mut s, '.');
    push_char(&mut s, digit(t % 10));
    s.append(" ");
    append_unit_name(&mut s, unit);
    assert(s@ =~= byte_size_text(bytes as nat));
    s
}

/// The distance between two numbers.
pub open spec fn distance(a: int, b: int) -> int {
    if a >= b {
        a - b
    } else {
        b - a
    }
}

/// Rounding to the nearest multiple, ties to even: the rounded quotient is
/// within half a step of the exact one, and an exact half goes to the even
/// neighbour.
proof fn lemma_round_half_even(num: nat, den: nat)
    requires
        den >= 1,
    ensures
        2 * distance(num as int, (round_half_even(num, den) * den) as int) <= den,
        2 * distance(num as int, (round_half_even(num, den) * den) as int) == den ==> round_half_even(num, den)
            % 2 == 0,
{
    let q = num / den;
    let r = num % den;
    vstd::arithmetic::div_mod::lemma_fundamental_div_mod(num as int, den as int);
    assert(num == q * den + r) by (nonlinear_arith)
        requires
            num == den * q + r,
    ;
    assert((q + 1) * den == q * den + den) by (nonlinear_arith);
}

proof fn lemma_grain(n: nat)
    ensures
        float_grain(n) >= 1,
        exists|k: nat| float_grain(n) == vstd::arithmetic::power::pow(2, k),
        n >= exact_float_limit() ==> 0x10_0000_0000_0000 * float_grain(n) <= n,
        n < 0x20_0000_0000_0000 * float_grain(n),
    decreases n,
{
    if n < exact_float_limit() {
        assert(vstd::arithmetic::power::pow(2, 0) == 1) by {
            reveal_with_fuel(vstd::arithmetic::power::pow, 1);
        }
    } else {
        lemma_grain(n / 2);
        let g = float_grain(n / 2);
        let k = choose|k: nat| g == vstd::arithmetic::power::pow(2, k);
        assert(vstd::arithmetic::power::pow(2, k + 1) == 2 * g) by {
            reveal_with_fuel(vstd::arithmetic::power::pow, 2);
        }
        assert(float_grain(n) == vstd::arithmetic::power::pow(2, k + 1));
        if n / 2 >= exact_float_limit() {
            assert(0x10_0000_0000_0000 * float_grain(n) <= n) by (nonlinear_arith)
                requires
                    0x10_0000_0000_0000 * g <= n / 2,
                    float_grain(n) == 2 * g,
            ;
        } else {
            assert(g == 1);
        }
        assert(n < 0x20_0000_0000_0000 * float_grain(n)) by (nonlinear_arith)
            requires
                n / 2 < 0x20_0000_0000_0000 * g,
                float_grain(n) == 2 * g,
        ;
    }
}

/// The `f64` value of a count: the count itself below 2^53; above, the
/// nearest multiple of the spacing of `f64` values there (a power of two
/// that leaves 53 significant bits), ties to an even multiple.
pub proof fn law_nearest_float(n: nat)
    ensures
        n < exact_float_limit() ==> nearest_float(n) == n,
        exists|k: nat| float_grain(n) == vstd::arithmetic::power::pow(2, k),
        n >= exact_float_limit() ==> 0x10_0000_0000_0000 * float_grain(n) <= n < 0x20_0000_0000_0000
            * float_grain(n),
        nearest_float(n) % float_grain(n) == 0,
        2 * distance(n as int, nearest_float(n) as int) <= float_grain(n),
        2 * distance(n as int, nearest_float(n) as int) == float_grain(n) ==> (nearest_float(n)
            / float_grain(n)) % 2 == 0,
{
    lemma_grain(n);
    let g = float_grain(n);
    lemma_round_half_even(n, g);
    let q = round_half_even(n, g);
    vstd::arithmetic::div_mod::lemma_mod_multiples_basic(q as int, g as int);
    vstd::arithmetic::div_mod::lemma_div_multiples_vanish(q as int, g as int);
    assert(q * g == g * q) by (nonlinear_arith);
}

/// The unit a byte count is shown in is the largest of B, KiB, MiB, GiB
/// (powers of 1024) that does not exceed it.
pub proof fn law_size_unit(bytes: nat)
    ensures
        unit_scale(size_unit(bytes)) == vstd::arithmetic::power::pow(1024, size_unit(bytes)),
        size_unit(bytes) <= 3,
        bytes >= 1 ==> unit_scale(size_unit(bytes)) <= bytes,
        size_unit(bytes) < 3 ==> bytes < 1024 * unit_scale(size_unit(bytes)),
{
    reveal_with_fuel(vstd::arithmetic::power::pow, 4);
}

/// A count below 1 KiB is written in full, then ` B`.
pub proof fn law_small_sizes_in_bytes(bytes: nat)
    requires
        bytes < 1024,
    ensures
        ({
            let text = byte_size_text(bytes);
            &&& text.len() >= 3
            &&& text.subrange(text.len() - 2, text.len() as int) == " B"@
            &&& digits_value(text.subrange(0, text.len() - 2)) == bytes
            &&& forall|i: int| 0 <= i < text.len() - 2 ==> '0' <= #[trigger] text[i] <= '9'
        }),
{
    reveal_strlit(" ");
    reveal_strlit("B");
    reveal_strlit(" B");
    law_decimal_reads_back(bytes);
    let text = byte_size_text(bytes);
    let d = decimal(bytes);
    assert(text =~= d + " B"@);
    assert(text.subrange(text.len() - 2, text.len() as int) =~= " B"@);
    assert(text.subrange(0, text.len() - 2) =~= d);
}

/// A count of 1 KiB or more is written as its `f64` value in its unit with
/// one decimal, `.` before it, then a space and the unit's name: the digits
/// read back as the nearest tenth of the value, ties to an even tenth.
pub proof fn law_large_sizes_in_tenths(bytes: nat)
    requires
        bytes >= 1024,
    ensures
        ({
            let text = byte_size_text(bytes);
            let unit = size_unit(bytes);
            let name = if unit == 1 {
                " KiB"@
            } else if unit == 2 {
                " MiB"@
            } else {
                " GiB"@
            };
            let scale = unit_scale(unit);
            let tenths = digits_value(text.subrange(0, text.len() - 6)) * 10 + digit_value(
                text[text.len() - 5],
            );
            &&& text.len() >= 7
            &&& text.subrange(text.len() - 4, text.len() as int) == name
            &&& text[text.len() - 6] == '.'
            &&& '0' <= text[text.len() - 5] <= '9'
            &&& forall|i: int| 0 <= i < text.len() - 6 ==> '0' <= #[trigger] text[i] <= '9'
            &&& tenths >= 0
            &&& 2 * distance((10 * nearest_float(bytes)) as int, tenths * scale) <= scale
            &&& 2 * distance((10 * nearest_float(bytes)) as int, tenths * scale) == scale ==> tenths % 2 == 0
        }),
{
    reveal_strlit(" ");
    reveal_strlit("KiB");
    reveal_strlit("MiB");
    reveal_strlit("GiB");
    reveal_strlit(" KiB");
    reveal_strlit(" MiB");
    reveal_strlit(" GiB");
    let unit = size_unit(bytes);
    let scale = unit_scale(unit);
    let t = size_tenths(bytes);
    lemma_round_half_even(10 * nearest_float(bytes), scale);
    law_decimal_reads_back(t / 10);
    lemma_digit_value(t % 10);
    let d = decimal(t / 10);
    let text = byte_size_text(bytes);
    assert(text == d + seq!['.', digit_char(t % 10)] + " "@ + unit_name(unit));
    let n = text.len();
    assert(n == d.len() + 6);
    assert(text.subrange(0, n - 6) =~= d);
    assert(text[n - 6] == '.');
    assert(text[n - 5] == digit_char(t % 10));
    assert(forall|i: int| 0 <= i < n - 6 ==> text[i] == d[i]);
    if unit == 1 {
        assert(text.subrange(n - 4, n as int) =~= " KiB"@);
    } else if unit == 2 {
        assert(text.subrange(n - 4, n as int) =~= " MiB"@);
    } else {
        assert(text.subrange(n - 4, n as int) =~= " GiB"@);
    }
    assert(t == (t / 10) * 10 + t % 10);
}

} // verus!
