//! Character-level building blocks shared by the identifier parsers and
//! printers: positional numbers in a radix, zero padding, substring search and
//! conversions between `str`, `String` and `Vec<char>`.
use vstd::prelude::*;
use vstd::string::*;

verus! {

/// Whether `c` is a digit of the given radix (`0-9`, then `a-z` / `A-Z`).
pub open spec fn is_digit(c: char, radix: nat) -> bool {
    digit_val(c) < radix
}

/// Value of a digit character; 36 (never a digit) for anything else.
pub open spec fn digit_val(c: char) -> nat {
    if '0' <= c && c <= '9' {
        (c as nat - '0' as nat) as nat
    } else if 'a' <= c && c <= 'z' {
        (c as nat - 'a' as nat + 10) as nat
    } else if 'A' <= c && c <= 'Z' {
        (c as nat - 'A' as nat + 10) as nat
    } else {
        36
    }
}

pub open spec fn all_digits(s: Seq<char>, radix: nat) -> bool {
    forall|i: int| 0 <= i < s.len() ==> #[trigger] is_digit(s[i], radix)
}

/// The number written by the digits `s` in the given radix, most significant first.
pub open spec fn radix_value(s: Seq<char>, radix: nat) -> nat
    decreases s.len(),
{
    if s.len() == 0 {
        0
    } else {
        radix_value(s.drop_last(), radix) * radix + digit_val(s.last())
    }
}

/// The digits that follow an optional leading `+`.
pub open spec fn unsigned_body(s: Seq<char>) -> Seq<char> {
    if s.len() > 0 && s[0] == '+' {
        s.drop_first()
    } else {
        s
    }
}

/// What parsing `s` as a `usize` in the given radix yields: an optional `+`
/// followed by at least one digit, with a value that fits in a `usize`.
pub open spec fn parse_uint(s: Seq<char>, radix: nat) -> Option<usize> {
    let d = unsigned_body(s);
    if d.len() > 0 && all_digits(d, radix) && radix_value(d, radix) <= usize::MAX {
        Some(radix_value(d, radix) as usize)
    } else {
        None
    }
}

/// The character of a digit value: `0-9`, then upper-case `A-Z`.
pub open spec fn digit_char(d: nat) -> char {
    if d < 10 {
        (('0' as nat) + d) as char
    } else {
        (('A' as nat) + d - 10) as char
    }
}

/// The digits of `n` in the given radix, without leading zeros (`0` is written `"0"`).
pub open spec fn radix_digits(n: nat, radix: nat) -> Seq<char>
    decreases n,
{
    if radix < 2 || n < radix {
        seq![digit_char(n)]
    } else {
        proof {
            lemma_div_smaller(n, radix);
        }
        radix_digits(n / radix, radix).push(digit_char(n % radix))
    }
}

/// `s` preceded by as many `0` as it takes to reach `width` characters.
pub open spec fn zero_pad(s: Seq<char>, width: nat) -> Seq<char> {
    if s.len() >= width {
        s
    } else {
        Seq::new((width - s.len()) as nat, |i: int| '0') + s
    }
}

/// `n` written in the given radix and left-padded with `0` to `width` characters.
pub open spec fn padded(n: nat, radix: nat, width: nat) -> Seq<char> {
    zero_pad(radix_digits(n, radix), width)
}

/// Whether `p` occurs in `s` as a contiguous substring.
pub open spec fn contains(s: Seq<char>, p: Seq<char>) -> bool {
    exists|i: int| 0 <= i && i + p.len() <= s.len() && #[trigger] s.subrange(i, i + p.len()) == p
}

/// Bytes read one by one as characters (`U+0000..=U+00FF`).
pub open spec fn bytes_as_chars(b: Seq<u8>) -> Seq<char> {
    b.map_values(|x: u8| x as char)
}

pub proof fn lemma_div_smaller(n: nat, radix: nat)
    requires
        radix >= 2,
        n >= radix,
    ensures
        n / radix < n,
{
    assert(n / radix < n) by (nonlinear_arith)
        requires
            radix >= 2,
            n >= radix,
    ;
}

proof fn lemma_value_prefix(d: Seq<char>, k: int, radix: nat)
    requires
        0 <= k <= d.len(),
        radix >= 1,
    ensures
        radix_value(d.take(k), radix) <= radix_value(d, radix),
    decreases d.len(),
{
    if k < d.len() {
        lemma_value_prefix(d.drop_last(), k, radix);
        assert(d.drop_last().take(k) =~= d.take(k));
        assert(radix_value(d.drop_last(), radix) <= radix_value(d.drop_last(), radix) * radix)
            by (nonlinear_arith)
            requires
                radix >= 1,
        ;
    } else {
        assert(d.take(k) =~= d);
    }
}

proof fn lemma_value_step(d: Seq<char>, k: int, radix: nat)
    requires
        0 <= k < d.len(),
    ensures
        radix_value(d.take(k + 1), radix) == radix_value(d.take(k), radix) * radix + digit_val(
            d[k],
        ),
{
    assert(d.take(k + 1).drop_last() =~= d.take(k));
}

/// Value of one digit character, when it is a digit of `radix`.
pub fn digit_of(c: char, radix: usize) -> (r: Option<usize>)
    requires
        2 <= radix <= 36,
    ensures
        r == (if is_digit(c, radix as nat) {
            Some(digit_val(c) as usize)
        } else {
            None::<usize>
        }),
{
    let v: u32 = if '0' <= c && c <= '9' {
        (c as u32) - ('0' as u32)
    } else if 'a' <= c && c <= 'z' {
        (c as u32) - ('a' as u32) + 10
    } else if 'A' <= c && c <= 'Z' {
        (c as u32) - ('A' as u32) + 10
    } else {
        36
    };
    if (v as usize) < radix {
        Some(v as usize)
    } else {
        None
    }
}

/// Parses `s[lo..hi]` as an unsigned number in `radix`, as `usize::from_str_radix` does.
pub fn parse_uint_at(s: &Vec<char>, lo: usize, hi: usize, radix: usize) -> (r: Option<usize>)
    requires
        lo <= hi <= s@.len(),
        2 <= radix <= 36,
    ensures
        r == parse_uint(s@.subrange(lo as int, hi as int), radix as nat),
{
    let ghost whole = s@.subrange(lo as int, hi as int);
    let mut i: usize = lo;
    if i < hi && s[i] == '+' {
        i = i + 1;
    }
    let start: usize = i;
    let ghost d = s@.subrange(start as int, hi as int);
    assert(unsigned_body(whole) =~= d);
    if start == hi {
        return None;
    }
    let mut acc: usize = 0;
    assert(d.take(0) =~= Seq::<char>::empty());
    while i < hi
        invariant
            lo <= start <= i <= hi <= s@.len(),
            2 <= radix <= 36,
            d == s@.subrange(start as int, hi as int),
            whole == s@.subrange(lo as int, hi as int),
            unsigned_body(whole) == d,
            d.len() > 0,
            all_digits(d.take(i - start), radix as nat),
            acc as nat == radix_value(d.take(i - start), radix as nat),
        decreases hi - i,
    {
        let c = s[i];
        let k: Ghost<int> = Ghost(i - start);
        assert(d[k@] == c);
        match digit_of(c, radix) {
            None => {
                assert(!is_digit(d[k@], radix as nat));
                assert(!all_digits(d, radix as nat));
                assert(parse_uint(whole, radix as nat) is None);
                return None;
            },
            Some(dv) => {
                proof {
                    lemma_value_step(d, k@, radix as nat);
                    assert(d.take(k@ + 1) =~= d.take(k@).push(c));
                }
                let next = match acc.checked_mul(radix) {
                    None => None,
                    Some(m) => m.checked_add(dv),
                };
                match next {
                    None => {
                        proof {
                            if all_digits(d, radix as nat) {
                                lemma_value_prefix(d, k@ + 1, radix as nat);
                                assert(radix_value(d.take(k@ + 1), radix as nat) > usize::MAX);
                            }
                            assert(parse_uint(whole, radix as nat) is None);
                        }
                        return None;
                    },
                    Some(v) => {
                        acc = v;
                        i = i + 1;
                    },
                }
            },
        }
    }
    assert(d.take(i - start) =~= d);
    Some(acc)
}

/// Appends the digits of `n` in `radix` to `out`.
fn push_digits(out: &mut Vec<char>, n: usize, radix: usize)
    requires
        2 <= radix <= 36,
    ensures
        final(out)@ == old(out)@ + radix_digits(n as nat, radix as nat),
    decreases n,
{
    if n < radix {
        out.push(digit_char_of(n));
    } else {
        proof {
            lemma_div_smaller(n as nat, radix as nat);
        }
        push_digits(out, n / radix, radix);
        out.push(digit_char_of(n % radix));
    }
}

fn digit_char_of(d: usize) -> (c: char)
    requires
        d < 36,
    ensures
        c == digit_char(d as nat),
{
    if d < 10 {
        ((48 + d) as u8) as char
    } else {
        ((55 + d) as u8) as char
    }
}

pub proof fn lemma_digits_len(n: nat, radix: nat)
    ensures
        radix_digits(n, radix).len() >= 1,
    decreases n,
{
    if radix >= 2 && n >= radix {
        lemma_div_smaller(n, radix);
        lemma_digits_len(n / radix, radix);
    }
}

/// Appends `n` in `radix`, left-padded with `0` to `width` characters.
pub fn push_padded(out: &mut Vec<char>, n: usize, radix: usize, width: usize)
    requires
        2 <= radix <= 36,
    ensures
        final(out)@ == old(out)@ + padded(n as nat, radix as nat, width as nat),
{
    let mut digits: Vec<char> = Vec::new();
    push_digits(&mut digits, n, radix);
    assert(digits@ =~= radix_digits(n as nat, radix as nat));
    let len: usize = digits.len();
    if len < width {
        let mut z: usize = len;
        let ghost base = out@;
        while z < width
            invariant
                len <= z <= width,
                out@ =~= base + Seq::new((z - len) as nat, |i: int| '0'),
            decreases width - z,
        {
            out.push('0');
            z = z + 1;
        }
    }
    let ghost mid = out@;
    let mut j: usize = 0;
    while j < len
        invariant
            0 <= j <= len,
            len == digits@.len(),
            out@ =~= mid + digits@.take(j as int),
        decreases len - j,
    {
        out.push(digits[j]);
        j = j + 1;
        assert(digits@.take(j as int) =~= digits@.take(j - 1).push(digits@[j - 1]));
    }
    assert(digits@.take(len as int) =~= digits@);
}

/// Appends the characters of `s` to `out`.
pub fn push_str(out: &mut Vec<char>, s: &str)
    ensures
        final(out)@ == old(out)@ + s@,
{
    let n: usize = s.unicode_len();
    let ghost base = out@;
    let mut i: usize = 0;
    while i < n
        invariant
            0 <= i <= n,
            n == s@.len(),
            out@ =~= base + s@.take(i as int),
        decreases n - i,
    {
        out.push(s.get_char(i));
        i = i + 1;
        assert(s@.take(i as int) =~= s@.take(i - 1).push(s@[i - 1]));
    }
    assert(s@.take(n as int) =~= s@);
}

/// The characters of `s`.
pub fn chars_of(s: &str) -> (v: Vec<char>)
    ensures
        v@ == s@,
{
    let mut v: Vec<char> = Vec::new();
    push_str(&mut v, s);
    assert(v@ =~= s@);
    v
}

/// The UTF-8 bytes of `s`, each read as a character.
pub fn byte_chars_of(s: &str) -> (v: Vec<char>)
    ensures
        v@ == bytes_as_chars(s.spec_bytes()),
        v@.len() == s.spec_bytes().len(),
{
    let b = s.as_bytes();
    let n: usize = b.len();
    let mut v: Vec<char> = Vec::new();
    let mut i: usize = 0;
    while i < n
        invariant
            0 <= i <= n,
            n == b@.len(),
            b@ == s.spec_bytes(),
            v@ =~= bytes_as_chars(b@.take(i as int)),
        decreases n - i,
    {
        v.push(b[i] as char);
        i = i + 1;
        assert(bytes_as_chars(b@.take(i as int)) =~= bytes_as_chars(b@.take(i - 1)).push(
            b@[i - 1] as char,
        ));
    }
    assert(b@.take(n as int) =~= b@);
    v
}

/// Whether the characters `v[lo..lo + lit.len()]` spell `lit`.
pub fn matches_at(v: &Vec<char>, lo: usize, lit: &str) -> (r: bool)
    requires
        lo <= v@.len(),
    ensures
        r == (lo + lit@.len() <= v@.len() && v@.subrange(lo as int, lo + lit@.len()) == lit@),
{
    let n: usize = lit.unicode_len();
    if n > v.len() - lo {
        return false;
    }
    let mut i: usize = 0;
    while i < n
        invariant
            0 <= i <= n,
            n == lit@.len(),
            lo + n <= v.len(),
            forall|j: int| 0 <= j < i ==> v@[lo + j] == lit@[j],
        decreases n - i,
    {
        if v[lo + i] != lit.get_char(i) {
            assert(v@.subrange(lo as int, lo + n)[i as int] != lit@[i as int]);
            return false;
        }
        i = i + 1;
    }
    assert(v@.subrange(lo as int, lo + n) =~= lit@);
    true
}

/// Whether `v` holds exactly the characters of `lit`.
pub fn chars_eq(v: &Vec<char>, lit: &str) -> (r: bool)
    ensures
        r == (v@ == lit@),
{
    let same = v.len() == lit.unicode_len() && matches_at(v, 0, lit);
    proof {
        if v@.len() == lit@.len() {
            assert(v@.subrange(0, lit@.len() as int) =~= v@);
        }
    }
    same
}

/// The characters `v[lo..hi]`.
pub fn sub_chars(v: &Vec<char>, lo: usize, hi: usize) -> (r: Vec<char>)
    requires
        lo <= hi <= v@.len(),
    ensures
        r@ == v@.subrange(lo as int, hi as int),
{
    let mut r: Vec<char> = Vec::new();
    let mut i: usize = lo;
    while i < hi
        invariant
            lo <= i <= hi <= v@.len(),
            r@ =~= v@.subrange(lo as int, i as int),
        decreases hi - i,
    {
        r.push(v[i]);
        i = i + 1;
    }
    r
}

/// Whether the two strings hold the same characters.
pub fn str_eq(a: &str, b: &str) -> (r: bool)
    ensures
        r == (a@ == b@),
{
    let va = chars_of(a);
    let same = va.len() == b.unicode_len() && matches_at(&va, 0, b);
    proof {
        if va@.len() == b@.len() {
            assert(va@.subrange(0, b@.len() as int) =~= va@);
        }
    }
    same
}

/// Whether `lit` occurs anywhere in `v`.
pub fn contains_str(v: &Vec<char>, lit: &str) -> (r: bool)
    ensures
        r == contains(v@, lit@),
{
    let len: usize = v.len();
    let n: usize = lit.unicode_len();
    if n > len {
        return false;
    }
    let last: usize = len - n;
    let mut i: usize = 0;
    loop
        invariant
            0 <= i <= last,
            last + n == len,
            len == v@.len(),
            n == lit@.len(),
            forall|j: int| 0 <= j < i ==> #[trigger] v@.subrange(j, j + n) != lit@,
        decreases last - i,
    {
        if matches_at(v, i, lit) {
            return true;
        }
        if i == last {
            assert forall|j: int|
                0 <= j && j + lit@.len() <= v@.len() implies #[trigger] v@.subrange(
                j,
                j + lit@.len(),
            ) != lit@ by {
                if j == i {
                } else {
                    assert(j < i);
                }
            }
            return false;
        }
        i = i + 1;
    }
}

/// A `String` holding the characters of `v`.
///
/// Trusted: std's `String::from_iter` over `&char` items, which vstd does not
/// specify; the contract claims, as its documentation says, that the string
/// holds exactly the characters of `v`, in order.
#[verifier::external_body]
pub(crate) fn string_from_chars(v: &Vec<char>) -> (s: String)
    ensures
        s@ == v@,
{
    String::from_iter(v.iter())
}

} // verus!
