//! What the ministries (府・省) of every period have in common: a flag number
//! in the identifier's bit field, the period's first and last day, and the
//! names that identify them in an ordinance's title.
use vstd::prelude::*;
use crate::era::{Date, Wareki};
use crate::numerals::{canonical_digit, lemma_padded_value, lemma_value_bound, lemma_value_prepend};
use crate::text::{all_digits, digit_val, is_digit, radix_value, 
    chars_of, contains, contains_str, padded, push_padded, push_str,
    radix_digits, string_from_chars, lemma_digits_len,
};

verus! {

/// 府・省に共通化させる
pub trait MinistryContents: Sized + Copy {
    /// The ministry's flag number: bit `flag - 1` of the identifier's bit field.
    spec fn flag(self) -> int;

    /// The ministry with flag number `n`.
    spec fn of_flag(n: int) -> Option<Self>;

    /// First day of the period.
    spec fn first_day() -> Date;

    /// Last day of the period.
    spec fn last_day() -> Date;

    /// How many name rules the period has.
    spec fn rule_count() -> nat;

    /// Name rule `k`: a title that contains both texts names the ministry.
    spec fn rule(k: int) -> (Seq<char>, Seq<char>, Self);

    /// Flag numbers are between 1 and 26, and reading a flag number gives the
    /// ministry back: the two are inverse to each other.
    proof fn lemma_flag(self, n: int)
        ensures
            1 <= self.flag() <= 26,
            Self::of_flag(self.flag()) == Some(self),
            Self::of_flag(n) matches Some(x) ==> x.flag() == n,
    ;

    /// 事前に用意されている府・省令のビットに変換する．
    fn to_int(&self) -> (r: usize)
        ensures
            r == self.flag(),
    ;

    /// 事前に用意されている府・省令のビットから戻す
    fn from_int(n: usize) -> (r: Option<Self>)
        ensures
            r == Self::of_flag(n as int),
    ;

    /// 区分の開始年月日
    fn start() -> (r: Date)
        ensures
            r == Self::first_day(),
    ;

    /// 区分の終了年月日
    fn end() -> (r: Date)
        ensures
            r == Self::last_day(),
    ;

    /// The number of name rules.
    fn rules() -> (r: usize)
        ensures
            r == Self::rule_count(),
    ;

    /// Name rule `k`.
    fn name_rule(k: usize) -> (r: (&'static str, &'static str, Self))
        requires
            k < Self::rule_count(),
        ensures
            (r.0@, r.1@, r.2) == Self::rule(k as int),
    ;

    /// 該当する年代かどうかの判定
    fn applicable(date: Date) -> (r: bool)
        ensures
            r == (Self::first_day().key() <= date.key() && date.key() <= Self::last_day().key()),
    {
        Self::start() <= date && date <= Self::end()
    }

    /// 和暦から該当する年代かどうかの判定
    fn applicable_wareki(wareki: Wareki) -> (r: bool)
        requires
            wareki.ad_year() <= usize::MAX,
        ensures
            r == (Self::first_day().year <= wareki.ad_year() && wareki.ad_year()
                <= Self::last_day().year),
    {
        Self::start().year <= wareki.to_ad() && wareki.to_ad() <= Self::end().year
    }

    /// 複数省庁管轄の法令の法令IDを計算する
    fn to_id_str(l: &[Self]) -> (r: String)
        ensures
            r@ == padded(flag_mask(l@, |x: Self| x.flag()) as nat, 16, 7),
    {
        proof {
            assert forall|x: Self| 1 <= #[trigger] x.flag() <= 26 by {
                x.lemma_flag(0);
            }
        }
        encode_flags(l, Self::to_int, Ghost(|x: Self| x.flag()))
    }

    /// 複数省庁管轄の法令の法令ID文字列のうち，省庁を表す箇所から担当省庁を計算する
    fn from_id_str(byte_s: &str) -> (r: Result<Vec<Self>, String>)
        requires
            !flags_overflow(byte_s@, 0, |n: int| Self::of_flag(n)),
        ensures
            match r {
                Ok(v) => decode_flags(byte_s@, 0, |n: int| Self::of_flag(n)) == Ok::<
                    Seq<Self>,
                    Seq<char>,
                >(v@),
                Err(e) => decode_flags(byte_s@, 0, |n: int| Self::of_flag(n)) == Err::<
                    Seq<Self>,
                    Seq<char>,
                >(e@),
            },
    {
        decode_flag_text(byte_s, Self::from_int, Ghost(|n: int| Self::of_flag(n)))
    }

    /// 「厚生労働省令」や「厚生労働省・農林水産省令」などから導き出す
    fn from_name(name: &str) -> (r: Vec<Self>)
        ensures
            r@ == named_in(name@, |k: int| Self::rule(k), Self::rule_count() as int),
    {
        let text = chars_of(name);
        let count = Self::rules();
        let mut v: Vec<Self> = Vec::new();
        let mut k: usize = 0;
        while k < count
            invariant
                0 <= k <= count,
                count == Self::rule_count(),
                text@ == name@,
                v@ == named_in(name@, |k: int| Self::rule(k), k as int),
            decreases count - k,
        {
            let (key, extra, value) = Self::name_rule(k);
            if contains_str(&text, key) && contains_str(&text, extra) {
                v.push(value);
            }
            k = k + 1;
        }
        v
    }
}

/// The identifier's bit field of `l`: seven upper-case hexadecimal digits.
fn encode_flags<A, F: Fn(&A) -> usize>(l: &[A], to_int: F, Ghost(flag): Ghost<spec_fn(A) -> int>) -> (r: String)
    requires
        forall|x: A| 1 <= #[trigger] flag(x) <= 26,
        forall|x: &A| call_requires(to_int, (x,)),
        forall|x: &A, n: usize| call_ensures(to_int, (x,), n) ==> n == flag(*x),
    ensures
        r@ == padded(flag_mask(l@, flag) as nat, 16, 7),
{
    let mut n: u32 = 0;
    let len = l.len();
    let mut i: usize = 0;
    while i < len
        invariant
            0 <= i <= len,
            len == l@.len(),
            forall|x: A| 1 <= #[trigger] flag(x) <= 26,
            forall|x: &A| call_requires(to_int, (x,)),
            forall|x: &A, n: usize| call_ensures(to_int, (x,), n) ==> n == flag(*x),
            n == flag_mask(l@.take(i as int), flag),
        decreases len - i,
    {
        proof {
            assert(l@.take(i + 1).drop_last() =~= l@.take(i as int));
        }
        let u = to_int(&l[i]) as u32;
        assert(1 <= flag(l@[i as int]) <= 26);
        n = n | (1u32 << (u - 1));
        i = i + 1;
    }
    assert(l@.take(len as int) =~= l@);
    let mut out: Vec<char> = Vec::new();
    push_padded(&mut out, n as usize, 16, 7);
    assert(out@ =~= padded(n as nat, 16, 7));
    string_from_chars(&out)
}

/// Reads the bit field text `byte_s`; see [`decode_flags`].
fn decode_flag_text<A, F: Fn(usize) -> Option<A>>(
    byte_s: &str,
    from_int: F,
    Ghost(of_flag): Ghost<spec_fn(int) -> Option<A>>,
) -> (r: Result<Vec<A>, String>)
    requires
        forall|n: usize| call_requires(from_int, (n,)),
        forall|n: usize, r: Option<A>| call_ensures(from_int, (n,), r) ==> r == of_flag(n as int),
        !flags_overflow(byte_s@, 0, of_flag),
    ensures
        match r {
            Ok(v) => decode_flags(byte_s@, 0, of_flag) == Ok::<Seq<A>, Seq<char>>(v@),
            Err(e) => decode_flags(byte_s@, 0, of_flag) == Err::<Seq<A>, Seq<char>>(e@),
        },
{
    let chars = chars_of(byte_s);
    let len = chars.len();
    let mut v: Vec<A> = Vec::new();
    let mut i: usize = 0;
    while i < len
        invariant
            0 <= i <= len,
            len == byte_s@.len(),
            chars@ == byte_s@,
            forall|n: usize| call_requires(from_int, (n,)),
            forall|n: usize, r: Option<A>|
                call_ensures(from_int, (n,), r) ==> r == of_flag(n as int),
            !flags_overflow(byte_s@, i as int, of_flag),
            decode_flags(byte_s@, 0, of_flag) == prepend_ok(
                v@,
                decode_flags(byte_s@, i as int, of_flag),
            ),
        decreases len - i,
    {
        let c = chars[i];
        if c == '1' {
            let n = 28 - i;
            match from_int(n) {
                Some(t) => {
                    proof {
                        lemma_prepend_ok_push(v@, t, decode_flags(byte_s@, i + 1, of_flag));
                    }
                    v.push(t);
                },
                None => {
                    let mut msg: Vec<char> = Vec::new();
                    push_str(&mut msg, "unexpected flag: ");
                    push_padded(&mut msg, n, 10, 1);
                    proof {
                        lemma_digits_len(n as nat, 10);
                        assert(msg@ =~= flag_error(n as int));
                    }
                    return Err(string_from_chars(&msg));
                },
            }
        } else if c == '0' {
        } else {
            let mut msg: Vec<char> = Vec::new();
            push_str(&mut msg, "unexpected char: ");
            msg.push(c);
            assert(msg@ =~= char_error(c));
            return Err(string_from_chars(&msg));
        }
        i = i + 1;
    }
    assert(decode_flags(byte_s@, len as int, of_flag) == Ok::<Seq<A>, Seq<char>>(seq![]));
    assert(v@ + Seq::<A>::empty() =~= v@);
    Ok(v)
}

/// The bit field of a list of ministries: bit `flag - 1` is set for each.
pub open spec fn flag_mask<A>(l: Seq<A>, flag: spec_fn(A) -> int) -> u32
    decreases l.len(),
{
    if l.len() == 0 {
        0
    } else {
        flag_mask(l.drop_last(), flag) | (1u32 << ((flag(l.last()) - 1) as u32))
    }
}

/// The error for a flag number that names no ministry.
pub open spec fn flag_error(n: int) -> Seq<char> {
    "unexpected flag: "@ + radix_digits(n as nat, 10)
}

/// The error for a character that is neither `0` nor `1`.
pub open spec fn char_error(c: char) -> Seq<char> {
    "unexpected char: "@ + seq![c]
}

/// Reading the bit field text `s` from position `i` on: character `i` stands
/// for flag number `28 - i`; a `1` adds the ministry with that number, a `0`
/// nothing, and the first flag number that names no ministry, or the first
/// other character, is an error.
pub open spec fn decode_flags<A>(s: Seq<char>, i: int, of_flag: spec_fn(int) -> Option<A>) -> Result<
    Seq<A>,
    Seq<char>,
>
    decreases s.len() - i,
{
    if i < 0 || i >= s.len() {
        Ok(seq![])
    } else if s[i] == '1' {
        match of_flag(28 - i) {
            Some(t) => match decode_flags(s, i + 1, of_flag) {
                Ok(rest) => Ok(seq![t] + rest),
                Err(e) => Err(e),
            },
            None => Err(flag_error(28 - i)),
        }
    } else if s[i] == '0' {
        decode_flags(s, i + 1, of_flag)
    } else {
        Err(char_error(s[i]))
    }
}

/// Reading `s` from `i` on meets a `1` past position 28 before any error,
/// where the flag number `28 - i` would be negative.
pub open spec fn flags_overflow<A>(s: Seq<char>, i: int, of_flag: spec_fn(int) -> Option<A>) -> bool
    decreases s.len() - i,
{
    if i < 0 || i >= s.len() {
        false
    } else if s[i] == '1' {
        i > 28 || (of_flag(28 - i) is Some && flags_overflow(s, i + 1, of_flag))
    } else if s[i] == '0' {
        flags_overflow(s, i + 1, of_flag)
    } else {
        false
    }
}

/// `done` followed by the outcome `rest`.
pub open spec fn prepend_ok<A>(done: Seq<A>, rest: Result<Seq<A>, Seq<char>>) -> Result<
    Seq<A>,
    Seq<char>,
> {
    match rest {
        Ok(r) => Ok(done + r),
        Err(e) => Err(e),
    }
}

proof fn lemma_prepend_ok_push<A>(done: Seq<A>, t: A, rest: Result<Seq<A>, Seq<char>>)
    ensures
        prepend_ok(done, match rest {
            Ok(r) => Ok(seq![t] + r),
            Err(e) => Err(e),
        }) == prepend_ok(done.push(t), rest),
{
    if let Ok(r) = rest {
        assert(done + (seq![t] + r) =~= done.push(t) + r);
    }
}

/// The ministries named in `name` by the first `k` name rules, in rule order:
/// rule `j` names its ministry when `name` contains both of its texts.
pub open spec fn named_in<A>(name: Seq<char>, rule: spec_fn(int) -> (Seq<char>, Seq<char>, A), k: int) -> Seq<A>
    decreases k,
{
    if k <= 0 {
        seq![]
    } else {
        let before = named_in(name, rule, k - 1);
        if contains(name, rule(k - 1).0) && contains(name, rule(k - 1).1) {
            before.push(rule(k - 1).2)
        } else {
            before
        }
    }
}

/// The bit field of a list that starts with `t`: the bit of `t` and the bit
/// field of the rest.
proof fn lemma_mask_prepend<A>(t: A, r: Seq<A>, flag: spec_fn(A) -> int)
    ensures
        flag_mask(seq![t] + r, flag) == (1u32 << ((flag(t) - 1) as u32)) | flag_mask(r, flag),
    decreases r.len(),
{
    let b = 1u32 << ((flag(t) - 1) as u32);
    if r.len() == 0 {
        assert(seq![t] + r =~= seq![t]);
        assert(seq![t].drop_last() =~= Seq::<A>::empty());
        assert(0u32 | b == b | 0u32) by (bit_vector);
        assert(flag_mask(seq![t], flag) == flag_mask(Seq::<A>::empty(), flag) | b);
    } else {
        let f = r.drop_last();
        lemma_mask_prepend(t, f, flag);
        assert((seq![t] + r).drop_last() =~= seq![t] + f);
        let m = flag_mask(f, flag);
        let c = 1u32 << ((flag(r.last()) - 1) as u32);
        assert((b | m) | c == b | (m | c)) by (bit_vector);
        assert((seq![t] + r).last() == r.last());
        assert(flag_mask(seq![t] + r, flag) == flag_mask(seq![t] + f, flag) | c);
        assert(flag_mask(r, flag) == m | c);
    }
}

/// A bit field text that reads without error from position `i` holds only
/// binary digits from there on, and the bit field of what it reads is the
/// binary value of those digits.
pub proof fn lemma_decoded_mask<A>(
    s: Seq<char>,
    i: int,
    of_flag: spec_fn(int) -> Option<A>,
    flag: spec_fn(A) -> int,
)
    requires
        s.len() == 28,
        0 <= i <= 28,
        decode_flags(s, i, of_flag) is Ok,
        forall|n: int| #[trigger] of_flag(n) is Some ==> flag(of_flag(n)->0) == n,
    ensures
        all_digits(s.subrange(i, 28), 2),
        flag_mask(decode_flags(s, i, of_flag)->Ok_0, flag) as int == radix_value(
            s.subrange(i, 28),
            2,
        ),
    decreases 28 - i,
{
    if i == 28 {
        assert(s.subrange(28, 28) =~= Seq::<char>::empty());
    } else {
        lemma_decoded_mask(s, i + 1, of_flag, flag);
        let r = s.subrange(i + 1, 28);
        assert(s.subrange(i, 28) =~= seq![s[i]] + r);
        lemma_value_prepend(s[i], r, 2);
        lemma_value_bound(r, 2);
        let rest = decode_flags(s, i + 1, of_flag)->Ok_0;
        let x = flag_mask(rest, flag);
        let k = (27 - i) as u32;
        vstd::arithmetic::power2::lemma_pow2(k as nat);
        vstd::bits::lemma_u32_pow2_no_overflow(k as nat);
        vstd::bits::lemma_u32_shl_is_mul(1u32, k);
        if s[i] == '1' {
            let t = of_flag(28 - i)->0;
            lemma_mask_prepend(t, rest, flag);
            assert(x < (1u32 << k));
            assert((1u32 << k) | x == (1u32 << k) + x) by (bit_vector)
                requires
                    x < (1u32 << k),
                    k < 28,
            ;
            assert(decode_flags(s, i, of_flag) == Ok::<Seq<A>, Seq<char>>(seq![t] + rest));
            assert(flag(t) == 28 - i);
            assert(flag_mask(seq![t] + rest, flag) == (1u32 << k) | x);
            assert(digit_val(s[i]) == 1);
        } else {
            assert(decode_flags(s, i, of_flag) == decode_flags(s, i + 1, of_flag));
            assert(digit_val(s[i]) == 0);
        }
        assert(radix_value(s.subrange(i, 28), 2) == digit_val(s[i]) * vstd::arithmetic::power::pow(2, (27 - i) as nat) + radix_value(r, 2));
        assert forall|j: int| 0 <= j < 28 - i implies #[trigger] is_digit(
            s.subrange(i, 28)[j],
            2,
        ) by {
            if j > 0 {
                assert(s.subrange(i, 28)[j] == r[j - 1]);
            }
        }
    }
}

/// The flags of `l` come in descending order, each once.
pub open spec fn flags_descending<A>(l: Seq<A>, flag: spec_fn(A) -> int) -> bool {
    forall|i: int, j: int| 0 <= i < j < l.len() ==> #[trigger] flag(l[i]) > #[trigger] flag(l[j])
}

/// The bit field text of `l`: character `i` is `1` when some ministry of
/// `l` has flag number `28 - i`, else `0`.
pub open spec fn flag_text<A>(l: Seq<A>, flag: spec_fn(A) -> int) -> Seq<char> {
    Seq::new(
        28,
        |i: int|
            if (exists|j: int| 0 <= j < l.len() && #[trigger] flag(l[j]) == 28 - i) {
                '1'
            } else {
                '0'
            },
    )
}

/// Reading the bit field text of a list in descending flag order, from the
/// position of the flag numbers up to `28 - i`, gives the list from the first
/// ministry whose flag number is at most `28 - i`.
proof fn lemma_decode_flag_text<A>(
    l: Seq<A>,
    i: int,
    p: int,
    of_flag: spec_fn(int) -> Option<A>,
    flag: spec_fn(A) -> int,
)
    requires
        0 <= i <= 28,
        0 <= p <= l.len(),
        flags_descending(l, flag),
        forall|x: A| 1 <= #[trigger] flag(x) <= 26,
        forall|x: A| #[trigger] of_flag(flag(x)) == Some(x),
        forall|j: int| 0 <= j < p ==> #[trigger] flag(l[j]) > 28 - i,
        forall|j: int| p <= j < l.len() ==> #[trigger] flag(l[j]) <= 28 - i,
    ensures
        decode_flags(flag_text(l, flag), i, of_flag) == Ok::<Seq<A>, Seq<char>>(
            l.subrange(p, l.len() as int),
        ),
    decreases 28 - i,
{
    let s = flag_text(l, flag);
    if i == 28 {
        if p < l.len() {
            assert(flag(l[p]) <= 0);
        }
        assert(l.subrange(p, l.len() as int) =~= Seq::<A>::empty());
    } else if p < l.len() && flag(l[p]) == 28 - i {
        assert(s[i] == '1');
        assert forall|j: int| p + 1 <= j < l.len() implies #[trigger] flag(l[j]) <= 28 - (i + 1) by {
            assert(flag(l[p]) > flag(l[j]));
        }
        lemma_decode_flag_text(l, i + 1, p + 1, of_flag, flag);
        assert(of_flag(28 - i) == Some(l[p]));
        assert(seq![l[p]] + l.subrange(p + 1, l.len() as int) =~= l.subrange(p, l.len() as int));
    } else {
        assert forall|j: int| 0 <= j < l.len() implies #[trigger] flag(l[j]) != 28 - i by {
            if j > p {
                assert(flag(l[p]) > flag(l[j]));
            }
        }
        assert(s[i] == '0');
        lemma_decode_flag_text(l, i + 1, p, of_flag, flag);
    }
}

/// The bit field of a list in descending flag order, written in twenty-eight
/// binary digits, is its bit field text, which reads back as the list; the
/// bit field is below `2^28`.
pub proof fn lemma_encoded_flags<A>(
    l: Seq<A>,
    of_flag: spec_fn(int) -> Option<A>,
    flag: spec_fn(A) -> int,
)
    requires
        flags_descending(l, flag),
        forall|x: A| 1 <= #[trigger] flag(x) <= 26,
        forall|x: A| #[trigger] of_flag(flag(x)) == Some(x),
        forall|n: int| #[trigger] of_flag(n) is Some ==> flag(of_flag(n)->0) == n,
    ensures
        padded(flag_mask(l, flag) as nat, 2, 28) == flag_text(l, flag),
        decode_flags(flag_text(l, flag), 0, of_flag) == Ok::<Seq<A>, Seq<char>>(l),
        flag_mask(l, flag) < vstd::arithmetic::power::pow(2, 28),
{
    let text = flag_text(l, flag);
    lemma_decode_flag_text(l, 0, 0, of_flag, flag);
    assert(l.subrange(0, l.len() as int) =~= l);
    lemma_decoded_mask(text, 0, of_flag, flag);
    assert(text.subrange(0, 28) =~= text);
    assert forall|i: int| 0 <= i < text.len() implies #[trigger] canonical_digit(text[i], 2) by {
        assert(text[i] == '0' || text[i] == '1');
    }
    lemma_padded_value(text, 2);
    lemma_value_bound(text, 2);
}

/// Some ministry of `l` has flag number `f`.
pub open spec fn has_flag<A>(l: Seq<A>, flag: spec_fn(A) -> int, f: int) -> bool {
    exists|j: int| 0 <= j < l.len() && #[trigger] flag(l[j]) == f
}

/// `l1` and `l2` hold the same ministries, whatever their order and repeats.
pub open spec fn same_elements<A>(l1: Seq<A>, l2: Seq<A>) -> bool {
    forall|x: A| l1.contains(x) <==> l2.contains(x)
}

/// Bit `k` of the bit field of `l` is set exactly when some ministry of `l`
/// has flag number `k + 1`; the bit field is below `2^26`.
proof fn lemma_mask_bits<A>(l: Seq<A>, flag: spec_fn(A) -> int, k: u32)
    requires
        forall|x: A| 1 <= #[trigger] flag(x) <= 26,
        k < 32,
    ensures
        ((flag_mask(l, flag) >> k) & 1u32 == 1u32) == has_flag(l, flag, k + 1),
        flag_mask(l, flag) < 0x4000000u32,
    decreases l.len(),
{
    if l.len() == 0 {
        assert((0u32 >> k) & 1u32 == 0u32) by (bit_vector);
    } else {
        let f = l.drop_last();
        lemma_mask_bits(f, flag, k);
        let a = flag_mask(f, flag);
        let j = (flag(l.last()) - 1) as u32;
        assert(j < 26);
        assert((((a | (1u32 << j)) >> k) & 1u32 == 1u32) == (((a >> k) & 1u32 == 1u32) || j == k))
            by (bit_vector)
            requires
                j < 32,
                k < 32,
        ;
        assert((a | (1u32 << j)) < 0x4000000u32) by (bit_vector)
            requires
                a < 0x4000000u32,
                j < 26,
        ;
        if has_flag(l, flag, k + 1) {
            let w = choose|w: int| 0 <= w < l.len() && #[trigger] flag(l[w]) == k + 1;
            if w < f.len() {
                assert(f[w] == l[w]);
            }
        }
        if has_flag(f, flag, k + 1) {
            let w = choose|w: int| 0 <= w < f.len() && #[trigger] flag(f[w]) == k + 1;
            assert(f[w] == l[w]);
        }
        if j == k {
            assert(flag(l[l.len() - 1]) == k + 1);
        }
    }
}

/// Lists whose ministries cover the same flag numbers have the same bit field.
proof fn lemma_mask_eq<A>(l1: Seq<A>, l2: Seq<A>, flag: spec_fn(A) -> int)
    requires
        forall|x: A| 1 <= #[trigger] flag(x) <= 26,
        forall|f: int| 1 <= f <= 26 ==> has_flag(l1, flag, f) == has_flag(l2, flag, f),
    ensures
        flag_mask(l1, flag) == flag_mask(l2, flag),
{
    let a = flag_mask(l1, flag);
    let b = flag_mask(l2, flag);
    lemma_mask_bits(l1, flag, 0);
    lemma_mask_bits(l2, flag, 0);
    assert forall|k: u32| k < 26 implies #[trigger] ((a >> k) & 1u32) == ((b >> k) & 1u32) by {
        lemma_mask_bits(l1, flag, k);
        lemma_mask_bits(l2, flag, k);
        assert(has_flag(l1, flag, k + 1) == has_flag(l2, flag, k + 1));
        assert(((a >> k) & 1u32 == 0u32) || ((a >> k) & 1u32 == 1u32)) by (bit_vector);
        assert(((b >> k) & 1u32 == 0u32) || ((b >> k) & 1u32 == 1u32)) by (bit_vector);
    }
    assert(a == b) by (bit_vector)
        requires
            a < 0x4000000u32,
            b < 0x4000000u32,
                (a >> 0u32) & 1u32 == (b >> 0u32) & 1u32,
                (a >> 1u32) & 1u32 == (b >> 1u32) & 1u32,
                (a >> 2u32) & 1u32 == (b >> 2u32) & 1u32,
                (a >> 3u32) & 1u32 == (b >> 3u32) & 1u32,
                (a >> 4u32) & 1u32 == (b >> 4u32) & 1u32,
                (a >> 5u32) & 1u32 == (b >> 5u32) & 1u32,
                (a >> 6u32) & 1u32 == (b >> 6u32) & 1u32,
                (a >> 7u32) & 1u32 == (b >> 7u32) & 1u32,
                (a >> 8u32) & 1u32 == (b >> 8u32) & 1u32,
                (a >> 9u32) & 1u32 == (b >> 9u32) & 1u32,
                (a >> 10u32) & 1u32 == (b >> 10u32) & 1u32,
                (a >> 11u32) & 1u32 == (b >> 11u32) & 1u32,
                (a >> 12u32) & 1u32 == (b >> 12u32) & 1u32,
                (a >> 13u32) & 1u32 == (b >> 13u32) & 1u32,
                (a >> 14u32) & 1u32 == (b >> 14u32) & 1u32,
                (a >> 15u32) & 1u32 == (b >> 15u32) & 1u32,
                (a >> 16u32) & 1u32 == (b >> 16u32) & 1u32,
                (a >> 17u32) & 1u32 == (b >> 17u32) & 1u32,
                (a >> 18u32) & 1u32 == (b >> 18u32) & 1u32,
                (a >> 19u32) & 1u32 == (b >> 19u32) & 1u32,
                (a >> 20u32) & 1u32 == (b >> 20u32) & 1u32,
                (a >> 21u32) & 1u32 == (b >> 21u32) & 1u32,
                (a >> 22u32) & 1u32 == (b >> 22u32) & 1u32,
                (a >> 23u32) & 1u32 == (b >> 23u32) & 1u32,
                (a >> 24u32) & 1u32 == (b >> 24u32) & 1u32,
                (a >> 25u32) & 1u32 == (b >> 25u32) & 1u32,
    ;
}

/// Reading the bit field text of any list from position `i` gives, in
/// descending flag order and once each, the ministries of `l` whose flag
/// numbers are at most `28 - i`.
proof fn lemma_decode_any<A>(
    l: Seq<A>,
    i: int,
    of_flag: spec_fn(int) -> Option<A>,
    flag: spec_fn(A) -> int,
)
    requires
        0 <= i <= 28,
        forall|x: A| 1 <= #[trigger] flag(x) <= 26,
        forall|x: A| #[trigger] of_flag(flag(x)) == Some(x),
    ensures
        decode_flags(flag_text(l, flag), i, of_flag) is Ok,
        flags_descending(decode_flags(flag_text(l, flag), i, of_flag)->Ok_0, flag),
        forall|j: int|
            0 <= j < decode_flags(flag_text(l, flag), i, of_flag)->Ok_0.len() ==> #[trigger] flag(
                decode_flags(flag_text(l, flag), i, of_flag)->Ok_0[j],
            ) <= 28 - i,
        forall|x: A|
            decode_flags(flag_text(l, flag), i, of_flag)->Ok_0.contains(x) <==> (l.contains(x)
                && flag(x) <= 28 - i),
    decreases 28 - i,
{
    let s = flag_text(l, flag);
    if i == 28 {
        assert forall|x: A| !(l.contains(x) && flag(x) <= 0) by {}
    } else {
        lemma_decode_any(l, i + 1, of_flag, flag);
        let r1 = decode_flags(s, i + 1, of_flag)->Ok_0;
        if exists|j: int| 0 <= j < l.len() && #[trigger] flag(l[j]) == 28 - i {
            let w = choose|j: int| 0 <= j < l.len() && #[trigger] flag(l[j]) == 28 - i;
            let x0 = l[w];
            assert(s[i] == '1');
            assert(of_flag(28 - i) == Some(x0));
            let r = seq![x0] + r1;
            assert(decode_flags(s, i, of_flag) == Ok::<Seq<A>, Seq<char>>(r));
            assert forall|p: int, q: int| 0 <= p < q < r.len() implies #[trigger] flag(r[p]) > #[trigger] flag(r[q]) by {
                assert(r[q] == r1[q - 1]);
                if p > 0 {
                    assert(r[p] == r1[p - 1]);
                }
            }
            assert forall|j: int| 0 <= j < r.len() implies #[trigger] flag(r[j]) <= 28 - i by {
                if j > 0 {
                    assert(r[j] == r1[j - 1]);
                }
            }
            assert forall|x: A| r.contains(x) <==> (l.contains(x) && flag(x) <= 28 - i) by {
                if r.contains(x) {
                    let v = choose|v: int| 0 <= v < r.len() && r[v] == x;
                    if v > 0 {
                        assert(r1[v - 1] == x);
                        assert(r1.contains(x));
                    } else {
                        assert(l[w] == x);
                    }
                }
                if l.contains(x) && flag(x) <= 28 - i {
                    if flag(x) == 28 - i {
                        assert(of_flag(flag(x)) == Some(x));
                        assert(r[0] == x);
                    } else {
                        assert(r1.contains(x));
                        let v = choose|v: int| 0 <= v < r1.len() && r1[v] == x;
                        assert(r[v + 1] == x);
                    }
                }
            }
        } else {
            assert(s[i] == '0');
            assert forall|x: A| l.contains(x) && flag(x) <= 28 - i implies flag(x) <= 28 - (i + 1) by {
                let v = choose|v: int| 0 <= v < l.len() && l[v] == x;
                assert(flag(l[v]) != 28 - i);
            }
        }
    }
}

/// Reading the printed bit field of any list gives its ministries once each,
/// in descending flag order, and that list has the same bit field.
pub proof fn lemma_normalised_flags<A>(
    l: Seq<A>,
    of_flag: spec_fn(int) -> Option<A>,
    flag: spec_fn(A) -> int,
)
    requires
        forall|x: A| 1 <= #[trigger] flag(x) <= 26,
        forall|x: A| #[trigger] of_flag(flag(x)) == Some(x),
        forall|n: int| #[trigger] of_flag(n) is Some ==> flag(of_flag(n)->0) == n,
    ensures
        decode_flags(padded(flag_mask(l, flag) as nat, 2, 28), 0, of_flag) is Ok,
        flags_descending(decode_flags(padded(flag_mask(l, flag) as nat, 2, 28), 0, of_flag)->Ok_0, flag),
        same_elements(decode_flags(padded(flag_mask(l, flag) as nat, 2, 28), 0, of_flag)->Ok_0, l),
        flag_mask(decode_flags(padded(flag_mask(l, flag) as nat, 2, 28), 0, of_flag)->Ok_0, flag)
            == flag_mask(l, flag),
{
    lemma_decode_any(l, 0, of_flag, flag);
    let d = decode_flags(flag_text(l, flag), 0, of_flag)->Ok_0;
    assert(same_elements(d, l));
    lemma_same_flags(d, l, flag);
    lemma_mask_eq(d, l, flag);
    lemma_encoded_flags(d, of_flag, flag);
}

/// Lists with the same ministries cover the same flag numbers.
proof fn lemma_same_flags<A>(l1: Seq<A>, l2: Seq<A>, flag: spec_fn(A) -> int)
    requires
        same_elements(l1, l2),
    ensures
        forall|f: int| has_flag(l1, flag, f) == has_flag(l2, flag, f),
{
    assert forall|f: int| has_flag(l1, flag, f) implies has_flag(l2, flag, f) by {
        let w = choose|w: int| 0 <= w < l1.len() && #[trigger] flag(l1[w]) == f;
        assert(l1.contains(l1[w]));
        let v = choose|v: int| 0 <= v < l2.len() && l2[v] == l1[w];
        assert(flag(l2[v]) == f);
    }
    assert forall|f: int| has_flag(l2, flag, f) implies has_flag(l1, flag, f) by {
        let w = choose|w: int| 0 <= w < l2.len() && #[trigger] flag(l2[w]) == f;
        assert(l2.contains(l2[w]));
        let v = choose|v: int| 0 <= v < l1.len() && l1[v] == l2[w];
        assert(flag(l1[v]) == f);
    }
}

/// Two lists have the same bit field exactly when they hold the same ministries.
pub proof fn lemma_mask_eq_iff<A>(
    l1: Seq<A>,
    l2: Seq<A>,
    of_flag: spec_fn(int) -> Option<A>,
    flag: spec_fn(A) -> int,
)
    requires
        forall|x: A| 1 <= #[trigger] flag(x) <= 26,
        forall|x: A| #[trigger] of_flag(flag(x)) == Some(x),
    ensures
        (flag_mask(l1, flag) == flag_mask(l2, flag)) == same_elements(l1, l2),
        flag_mask(l1, flag) < 0x4000000u32,
{
    lemma_mask_bits(l1, flag, 0);
    if same_elements(l1, l2) {
        lemma_same_flags(l1, l2, flag);
        lemma_mask_eq(l1, l2, flag);
    }
    if flag_mask(l1, flag) == flag_mask(l2, flag) {
        assert forall|x: A| l1.contains(x) implies l2.contains(x) by {
            let w = choose|w: int| 0 <= w < l1.len() && l1[w] == x;
            lemma_mask_bits(l1, flag, (flag(x) - 1) as u32);
            lemma_mask_bits(l2, flag, (flag(x) - 1) as u32);
            assert(has_flag(l1, flag, flag(x)));
            let v = choose|v: int| 0 <= v < l2.len() && #[trigger] flag(l2[v]) == flag(x);
            assert(of_flag(flag(l2[v])) == Some(l2[v]));
            assert(l2[v] == x);
        }
        assert forall|x: A| l2.contains(x) implies l1.contains(x) by {
            let w = choose|w: int| 0 <= w < l2.len() && l2[w] == x;
            lemma_mask_bits(l1, flag, (flag(x) - 1) as u32);
            lemma_mask_bits(l2, flag, (flag(x) - 1) as u32);
            assert(has_flag(l2, flag, flag(x)));
            let v = choose|v: int| 0 <= v < l1.len() && #[trigger] flag(l1[v]) == flag(x);
            assert(of_flag(flag(l1[v])) == Some(l1[v]));
            assert(l1[v] == x);
        }
    }
}

/// A ministry is among those that the first `k` name rules read from `name`
/// exactly when one of those rules is for it and `name` holds both its texts.
pub proof fn lemma_named_in_contains<A>(
    name: Seq<char>,
    rule: spec_fn(int) -> (Seq<char>, Seq<char>, A),
    k: int,
    x: A,
)
    ensures
        named_in(name, rule, k).contains(x) <==> exists|j: int|
            0 <= j < k && #[trigger] rule(j).2 == x && contains(name, rule(j).0) && contains(
                name,
                rule(j).1,
            ),
    decreases k,
{
    if k > 0 {
        lemma_named_in_contains(name, rule, k - 1, x);
        let before = named_in(name, rule, k - 1);
        if contains(name, rule(k - 1).0) && contains(name, rule(k - 1).1) {
            let after = before.push(rule(k - 1).2);
            if after.contains(x) && !before.contains(x) {
                let v = choose|v: int| 0 <= v < after.len() && after[v] == x;
                assert(v == before.len());
            }
            if before.contains(x) {
                let v = choose|v: int| 0 <= v < before.len() && before[v] == x;
                assert(after[v] == x);
            }
            if rule(k - 1).2 == x {
                assert(after[before.len() as int] == x);
            }
        }
    }
}

} // verus!
