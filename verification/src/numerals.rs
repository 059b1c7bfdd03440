//! Facts about numbers written in a radix: how many digits a number takes,
//! and that the value of a digit string, written back, gives the digits again.
use vstd::prelude::*;
use vstd::arithmetic::power::{lemma_pow0, lemma_pow1, lemma_pow_adds, lemma_pow_positive, pow};
use crate::text::{parse_uint, unsigned_body, all_digits, digit_char, digit_val, is_digit, lemma_div_smaller, padded, radix_digits, radix_value};

verus! {

pub(crate) proof fn lemma_digits_bound(n: nat, radix: nat, k: nat)
    requires
        radix >= 2,
        k >= 1,
        n < pow(radix as int, k),
    ensures
        radix_digits(n, radix).len() <= k,
    decreases k,
{
    lemma_pow_positive(radix as int, (k - 1) as nat);
    if n >= radix {
        lemma_div_smaller(n, radix);
        let p = pow(radix as int, (k - 1) as nat);
        assert(pow(radix as int, k) == radix * p) by {
            lemma_pow_adds(radix as int, 1, (k - 1) as nat);
            lemma_pow1(radix as int);
        }
        if k == 1 {
            lemma_pow1(radix as int);
            assert(false);
        }
        assert(n / radix < p) by (nonlinear_arith)
            requires
                n < radix * p,
                radix >= 2,
        ;
        lemma_digits_bound(n / radix, radix, (k - 1) as nat);
    }
}

pub(crate) proof fn lemma_value_bound(d: Seq<char>, radix: nat)
    requires
        all_digits(d, radix),
        radix >= 2,
    ensures
        radix_value(d, radix) < pow(radix as int, d.len()),
    decreases d.len(),
{
    lemma_pow0(radix as int);
    if d.len() > 0 {
        let e = d.drop_last();
        assert(is_digit(d[d.len() - 1], radix));
        lemma_value_bound(e, radix);
        let p = pow(radix as int, e.len());
        let v = radix_value(e, radix);
        let c = digit_val(d.last());
        assert(pow(radix as int, d.len()) == p * radix) by {
            lemma_pow_adds(radix as int, e.len(), 1);
            lemma_pow1(radix as int);
        }
        assert(v * radix + c < p * radix) by (nonlinear_arith)
            requires
                v < p,
                c < radix,
        ;
    }
}

/// A digit of `radix` as [`digit_char`] writes it: `0-9` or an upper-case letter.
pub open spec fn canonical_digit(c: char, radix: nat) -> bool {
    is_digit(c, radix) && !('a' <= c && c <= 'z')
}

/// Every character of `s` is a digit of `radix` as [`digit_char`] writes it.
pub open spec fn canonical_digits(s: Seq<char>, radix: nat) -> bool {
    forall|i: int| 0 <= i < s.len() ==> #[trigger] canonical_digit(s[i], radix)
}

proof fn lemma_digit_char_of_val(c: char, radix: nat)
    requires
        canonical_digit(c, radix),
        radix <= 36,
    ensures
        digit_char(digit_val(c)) == c,
{
}

/// Digits whose value is zero are all zero digits.
proof fn lemma_value_zero(e: Seq<char>, radix: nat)
    requires
        radix >= 1,
        radix_value(e, radix) == 0,
    ensures
        forall|i: int| 0 <= i < e.len() ==> digit_val(#[trigger] e[i]) == 0,
    decreases e.len(),
{
    if e.len() > 0 {
        let f = e.drop_last();
        let vf = radix_value(f, radix);
        assert(vf == 0) by (nonlinear_arith)
            requires
                vf * radix + digit_val(e.last()) == 0,
                radix >= 1,
        ;
        lemma_value_zero(f, radix);
        assert forall|i: int| 0 <= i < e.len() implies digit_val(#[trigger] e[i]) == 0 by {
            if i < e.len() - 1 {
                assert(e[i] == f[i]);
            }
        }
    }
}

/// Writing the value of canonical digits back, padded with `0` to as many
/// characters as there are digits, gives the digits again.
pub proof fn lemma_padded_value(d: Seq<char>, radix: nat)
    requires
        2 <= radix <= 36,
        d.len() >= 1,
        canonical_digits(d, radix),
    ensures
        padded(radix_value(d, radix), radix, d.len()) == d,
    decreases d.len(),
{
    let v = radix_value(d, radix);
    let c = d.last();
    let e = d.drop_last();
    let ve = radix_value(e, radix);
    assert(canonical_digit(d[d.len() - 1], radix));
    lemma_digit_char_of_val(c, radix);
    assert(v == ve * radix + digit_val(c));
    assert forall|i: int| 0 <= i < e.len() implies #[trigger] canonical_digit(e[i], radix) by {
        assert(canonical_digit(d[i], radix));
    }
    if ve == 0 {
        lemma_value_zero(e, radix);
        assert forall|i: int| 0 <= i < e.len() implies #[trigger] e[i] == '0' by {
            assert(canonical_digit(e[i], radix));
            lemma_digit_char_of_val(e[i], radix);
        }
        assert(ve * radix == 0) by (nonlinear_arith)
            requires
                ve == 0,
        ;
        assert(v == digit_val(c) && v < radix);
        assert(radix_digits(v, radix) == seq![c]);
        assert(d =~= e.push(c));
        if d.len() > 1 {
            assert(e =~= Seq::new((d.len() - 1) as nat, |i: int| '0'));
        }
        assert(padded(v, radix, d.len()) =~= d);
    } else {
        lemma_padded_value(e, radix);
        assert(all_digits(e, radix)) by {
            assert forall|i: int| 0 <= i < e.len() implies #[trigger] is_digit(e[i], radix) by {
                assert(canonical_digit(e[i], radix));
            }
        }
        lemma_value_bound(e, radix);
        lemma_digits_bound(ve, radix, e.len());
        vstd::arithmetic::div_mod::lemma_fundamental_div_mod_converse(
            v as int,
            radix as int,
            ve as int,
            digit_val(c) as int,
        );
        assert(v >= radix) by (nonlinear_arith)
            requires
                v == ve * radix + digit_val(c),
                ve >= 1,
        ;
        assert(radix_digits(v, radix) == radix_digits(ve, radix).push(c));
        let rd = radix_digits(ve, radix);
        assert(d =~= e.push(c));
        if rd.len() < e.len() {
            let z = Seq::new((e.len() - rd.len()) as nat, |i: int| '0');
            assert(e =~= z + rd);
            assert(padded(v, radix, d.len()) == z + rd.push(c));
            assert(z + rd.push(c) =~= (z + rd).push(c));
        } else {
            assert(e =~= rd);
        }
        assert(padded(v, radix, d.len()) =~= d);
    }
}

/// The value of a digit string whose first digit is `c`: that digit's place
/// value plus the value of the rest.
pub(crate) proof fn lemma_value_prepend(c: char, r: Seq<char>, radix: nat)
    ensures
        radix_value(seq![c] + r, radix) == digit_val(c) * pow(radix as int, r.len())
            + radix_value(r, radix),
    decreases r.len(),
{
    lemma_pow0(radix as int);
    if r.len() == 0 {
        assert(seq![c] + r =~= seq![c]);
        assert(seq![c].drop_last() =~= Seq::<char>::empty());
        let dc = digit_val(c);
        assert(radix_value(Seq::<char>::empty(), radix) == 0);
        assert(seq![c].last() == c);
        assert(radix_value(seq![c], radix) == 0 * radix + dc);
        assert(0 * radix + dc == dc * 1 + 0) by (nonlinear_arith);
    } else {
        let f = r.drop_last();
        lemma_value_prepend(c, f, radix);
        assert((seq![c] + r).drop_last() =~= seq![c] + f);
        let p = pow(radix as int, f.len());
        assert(pow(radix as int, r.len()) == p * radix) by {
            lemma_pow_adds(radix as int, f.len(), 1);
            lemma_pow1(radix as int);
        }
        let vf = radix_value(f, radix);
        let dc = digit_val(c);
        let dl = digit_val(r.last());
        assert((dc * p + vf) * radix + dl == dc * (p * radix) + (vf * radix + dl)) by (nonlinear_arith);
        assert((seq![c] + r).last() == r.last());
        assert(radix_value(seq![c] + r, radix) == radix_value(seq![c] + f, radix) * radix + dl);
    }
}

/// The value of the digits of `n` is `n`.
pub(crate) proof fn lemma_value_of_digits(n: nat, radix: nat)
    requires
        2 <= radix <= 36,
    ensures
        radix_value(radix_digits(n, radix), radix) == n,
        all_digits(radix_digits(n, radix), radix),
    decreases n,
{
    let rd = radix_digits(n, radix);
    if n < radix {
        assert(rd == seq![digit_char(n)]);
        assert(rd.drop_last() =~= Seq::<char>::empty());
        assert(digit_val(digit_char(n)) == n);
        assert(radix_value(Seq::<char>::empty(), radix) == 0);
        assert(rd.last() == digit_char(n));
        assert(radix_value(rd, radix) == 0 * radix + n);
        assert(0 * radix + n == n) by (nonlinear_arith);
    } else {
        lemma_div_smaller(n, radix);
        lemma_value_of_digits(n / radix, radix);
        let q = n / radix;
        let m = n % radix;
        assert(rd == radix_digits(q, radix).push(digit_char(m)));
        assert(rd.drop_last() =~= radix_digits(q, radix));
        assert(radix_value(rd, radix) == q * radix + digit_val(digit_char(m)));
        assert(digit_val(digit_char(m)) == m);
        assert(q * radix + m == n) by (nonlinear_arith)
            requires
                q == n / radix,
                m == n % radix,
                radix > 0,
        ;
        assert forall|i: int| 0 <= i < rd.len() implies #[trigger] is_digit(rd[i], radix) by {
            if i < rd.len() - 1 {
                assert(rd[i] == radix_digits(q, radix)[i]);
            }
        }
    }
}

/// Zeros in front of digits change neither their value nor that they are digits.
proof fn lemma_value_zeros(k: nat, s: Seq<char>, radix: nat)
    requires
        radix >= 1,
    ensures
        radix_value(Seq::new(k, |i: int| '0') + s, radix) == radix_value(s, radix),
    decreases k,
{
    if k > 0 {
        let z = Seq::new((k - 1) as nat, |i: int| '0');
        lemma_value_zeros((k - 1) as nat, s, radix);
        assert(Seq::new(k, |i: int| '0') + s =~= seq!['0'] + (z + s));
        lemma_value_prepend('0', z + s, radix);
        let p = pow(radix as int, (z + s).len());
        assert(digit_val('0') == 0);
        assert(0 * p == 0) by (nonlinear_arith);
    } else {
        assert(Seq::new(k, |i: int| '0') + s =~= s);
    }
}

/// The value of `n` written in `radix` and padded with zeros is `n`.
pub(crate) proof fn lemma_value_of_padded(n: nat, radix: nat, width: nat)
    requires
        2 <= radix <= 36,
    ensures
        radix_value(padded(n, radix, width), radix) == n,
{
    lemma_value_of_digits(n, radix);
    let rd = radix_digits(n, radix);
    if rd.len() < width {
        lemma_value_zeros((width - rd.len()) as nat, rd, radix);
    }
}

/// `n` written in `radix` and padded to `width` digits, where it fits, takes
/// exactly `width` digits and reads back as `n`.
pub proof fn lemma_parse_padded(n: nat, radix: nat, width: nat)
    requires
        2 <= radix <= 36,
        width >= 1,
        n < pow(radix as int, width),
        n <= usize::MAX,
    ensures
        padded(n, radix, width).len() == width,
        all_digits(padded(n, radix, width), radix),
        parse_uint(padded(n, radix, width), radix) == Some(n as usize),
{
    let rd = radix_digits(n, radix);
    let p = padded(n, radix, width);
    lemma_digits_bound(n, radix, width);
    lemma_value_of_digits(n, radix);
    lemma_value_of_padded(n, radix, width);
    if rd.len() < width {
        let z = Seq::new((width - rd.len()) as nat, |i: int| '0');
        assert(p == z + rd);
        assert forall|i: int| 0 <= i < p.len() implies #[trigger] is_digit(p[i], radix) by {
            if i >= z.len() {
                assert(p[i] == rd[i - z.len()]);
            }
        }
    }
    assert(is_digit(p[0], radix));
    assert(unsigned_body(p) == p);
}

} // verus!
