//! Law identifiers (法令ID): the kind of a law, the ministries behind an
//! ordinance, and how each is written in the fifteen-character identifier.
use vstd::prelude::*;
use vstd::string::*;
use vstd::utf8::{
    encode_utf8, encode_utf8_valid_utf8, is_ascii_chars, is_ascii_chars_encode_utf8,
    is_char_boundary, is_char_boundary_iff_not_is_continuation_byte,
    is_char_boundary_start_end_of_seq,
};
use crate::era::{Era, Wareki};
use crate::institution::Institution;
use crate::ministries::{M1Ministry, M2Ministry, M3Ministry, M4Ministry, M5Ministry, M6Ministry};
use crate::ministry::{decode_flags, flag_mask, MinistryContents};
use crate::text::{
    byte_chars_of, bytes_as_chars, chars_eq, matches_at, sub_chars, padded, parse_uint, parse_uint_at, push_padded,
    push_str, radix_digits, string_from_chars,
};

verus! {

/// `s[lo..hi]` is a slice that `str` indexing accepts: it ends within the
/// bytes `b` and both ends fall on character boundaries.
pub open spec fn cut(b: Seq<u8>, lo: int, hi: int) -> bool {
    &&& 0 <= lo <= hi <= b.len()
    &&& is_char_boundary(b, lo)
    &&& is_char_boundary(b, hi)
}

/// The text `lit` stands in `t` at position `lo`.
pub open spec fn lit_at(t: Seq<char>, lo: int, lit: Seq<char>) -> bool {
    lo + lit.len() <= t.len() && t.subrange(lo, lo + lit.len()) == lit
}

/// The decimal number written in `t[lo..hi]`.
pub open spec fn dec_field(t: Seq<char>, lo: int, hi: int) -> Option<usize> {
    parse_uint(t.subrange(lo, hi), 10)
}

/// The error of a text that is not a ministry field.
pub open spec fn unexpected_string() -> Seq<char> {
    "unexpected string"@
}

/// 府・省
#[derive(Debug, Clone, Hash, PartialEq, Eq)]
pub enum Ministry {
    /// 1869年7月8日〜1943年10月31日
    M1(Vec<M1Ministry>),
    /// 1943年11月1日〜1945年11月31日
    M2(Vec<M2Ministry>),
    /// 1945年12月1日〜1947年5月2日
    M3(Vec<M3Ministry>),
    /// 1947年5月3日〜1949年5月31日
    M4(Vec<M4Ministry>),
    /// 1949年6月1日〜2001年1月15日
    M5(Vec<M5Ministry>),
    /// 2001年1月16日〜
    M6(Vec<M6Ministry>),
}

/// A [`Ministry`] with its lists as sequences.
pub enum MinistryView {
    M1(Seq<M1Ministry>),
    M2(Seq<M2Ministry>),
    M3(Seq<M3Ministry>),
    M4(Seq<M4Ministry>),
    M5(Seq<M5Ministry>),
    M6(Seq<M6Ministry>),
}

impl View for Ministry {
    type V = MinistryView;

    open spec fn view(&self) -> MinistryView {
        match self {
            Ministry::M1(l) => MinistryView::M1(l@),
            Ministry::M2(l) => MinistryView::M2(l@),
            Ministry::M3(l) => MinistryView::M3(l@),
            Ministry::M4(l) => MinistryView::M4(l@),
            Ministry::M5(l) => MinistryView::M5(l@),
            Ministry::M6(l) => MinistryView::M6(l@),
        }
    }
}

/// How a ministry field is written: `M`, the period's digit, and the bit
/// field of the ministries in seven upper-case hexadecimal digits.
pub open spec fn ministry_text(m: MinistryView) -> Seq<char> {
    match m {
        MinistryView::M1(l) => "M1"@ + padded(flag_mask(l, |x: M1Ministry| x.flag()) as nat, 16, 7),
        MinistryView::M2(l) => "M2"@ + padded(flag_mask(l, |x: M2Ministry| x.flag()) as nat, 16, 7),
        MinistryView::M3(l) => "M3"@ + padded(flag_mask(l, |x: M3Ministry| x.flag()) as nat, 16, 7),
        MinistryView::M4(l) => "M4"@ + padded(flag_mask(l, |x: M4Ministry| x.flag()) as nat, 16, 7),
        MinistryView::M5(l) => "M5"@ + padded(flag_mask(l, |x: M5Ministry| x.flag()) as nat, 16, 7),
        MinistryView::M6(l) => "M6"@ + padded(flag_mask(l, |x: M6Ministry| x.flag()) as nat, 16, 7),
    }
}

/// The bit field text of the hexadecimal field `t[2..9]`: its value in
/// twenty-eight binary digits.
pub open spec fn flag_bits_of(t: Seq<char>) -> Option<Seq<char>> {
    match parse_uint(t.subrange(2, 9), 16) {
        Some(n) => Some(padded(n as nat, 2, 28)),
        None => None,
    }
}

/// Reading a ministry field from the start of `t`; see [`Ministry::from_id_str`].
pub open spec fn ministry_of(t: Seq<char>) -> Result<MinistryView, Seq<char>> {
    if !lit_at(t, 0, "M"@) {
        Err(unexpected_string())
    } else if lit_at(t, 1, "1"@) {
        match flag_bits_of(t) {
            None => Err(unexpected_string()),
            Some(bits) => match decode_flags(bits, 0, |n: int| M1Ministry::of_flag(n)) {
                Ok(l) => Ok(MinistryView::M1(l)),
                Err(e) => Err(e),
            },
        }
    } else if lit_at(t, 1, "2"@) {
        match flag_bits_of(t) {
            None => Err(unexpected_string()),
            Some(bits) => match decode_flags(bits, 0, |n: int| M2Ministry::of_flag(n)) {
                Ok(l) => Ok(MinistryView::M2(l)),
                Err(e) => Err(e),
            },
        }
    } else if lit_at(t, 1, "3"@) {
        match flag_bits_of(t) {
            None => Err(unexpected_string()),
            Some(bits) => match decode_flags(bits, 0, |n: int| M3Ministry::of_flag(n)) {
                Ok(l) => Ok(MinistryView::M3(l)),
                Err(e) => Err(e),
            },
        }
    } else if lit_at(t, 1, "4"@) {
        match flag_bits_of(t) {
            None => Err(unexpected_string()),
            Some(bits) => match decode_flags(bits, 0, |n: int| M4Ministry::of_flag(n)) {
                Ok(l) => Ok(MinistryView::M4(l)),
                Err(e) => Err(e),
            },
        }
    } else if lit_at(t, 1, "5"@) {
        match flag_bits_of(t) {
            None => Err(unexpected_string()),
            Some(bits) => match decode_flags(bits, 0, |n: int| M5Ministry::of_flag(n)) {
                Ok(l) => Ok(MinistryView::M5(l)),
                Err(e) => Err(e),
            },
        }
    } else if lit_at(t, 1, "6"@) {
        match flag_bits_of(t) {
            None => Err(unexpected_string()),
            Some(bits) => match decode_flags(bits, 0, |n: int| M6Ministry::of_flag(n)) {
                Ok(l) => Ok(MinistryView::M6(l)),
                Err(e) => Err(e),
            },
        }
    } else {
        Err(unexpected_string())
    }
}

/// Reading a ministry field from the bytes `b` slices `s[0..=0]`, then
/// `s[1..=1]` after an `M`, then `s[2..=8]` after a period digit; each slice
/// must be one that `str` indexing accepts.
pub open spec fn ministry_slices_ok(b: Seq<u8>) -> bool {
    let t = bytes_as_chars(b);
    &&& cut(b, 0, 1)
    &&& lit_at(t, 0, "M"@) ==> {
        &&& cut(b, 1, 2)
        &&& (lit_at(t, 1, "1"@) || lit_at(t, 1, "2"@) || lit_at(t, 1, "3"@) || lit_at(t, 1, "4"@)
            || lit_at(t, 1, "5"@) || lit_at(t, 1, "6"@)) ==> cut(b, 2, 9)
    }
}

/// A hexadecimal field of seven bytes holds a number below `2^28`, whose
/// twenty-eight binary digits read as a bit field without passing position 28.
pub(crate) proof fn lemma_bits_in_range(t: Seq<char>)
    requires
        t.len() >= 9,
        flag_bits_of(t) is Some,
    ensures
        flag_bits_of(t)->0.len() == 28,
{
    let f = t.subrange(2, 9);
    let d = crate::text::unsigned_body(f);
    crate::numerals::lemma_value_bound(d, 16);
    let n = crate::text::radix_value(d, 16);
    assert(vstd::arithmetic::power::pow(16, d.len()) <= vstd::arithmetic::power::pow(16, 7)) by {
        vstd::arithmetic::power::lemma_pow_increases(16, d.len(), 7);
    }
    assert(vstd::arithmetic::power::pow(16, 7) == vstd::arithmetic::power::pow(2, 28)) by {
        vstd::arithmetic::power::lemma_pow_multiplies(2, 4, 7);
        reveal_with_fuel(vstd::arithmetic::power::pow, 5);
    }
    crate::numerals::lemma_digits_bound(n, 2, 28);
}

/// Reading a bit field of twenty-eight characters never passes position 28.
proof fn lemma_no_overflow<A>(s: Seq<char>, i: int, of_flag: spec_fn(int) -> Option<A>)
    requires
        s.len() <= 28,
        0 <= i,
    ensures
        !crate::ministry::flags_overflow(s, i, of_flag),
    decreases s.len() - i,
{
    if i < s.len() {
        lemma_no_overflow(s, i + 1, of_flag);
    }
}

/// The encoding of ASCII characters has one byte per character, which read
/// as a character gives the character back, and every position of it is a
/// character boundary.
pub proof fn lemma_ascii_bytes(cs: Seq<char>)
    requires
        is_ascii_chars(cs),
    ensures
        encode_utf8(cs).len() == cs.len(),
        bytes_as_chars(encode_utf8(cs)) == cs,
        forall|i: int| 0 <= i <= cs.len() ==> #[trigger] is_char_boundary(encode_utf8(cs), i),
{
    let b = encode_utf8(cs);
    is_ascii_chars_encode_utf8(cs);
    encode_utf8_valid_utf8(cs);
    assert forall|i: int| 0 <= i < cs.len() implies #[trigger] bytes_as_chars(b)[i] == cs[i] by {
        assert('\0' <= cs[i] <= '\u{7f}');
        assert(b[i] == cs[i] as u8);
    }
    assert(bytes_as_chars(b) =~= cs);
    assert forall|i: int| 0 <= i <= cs.len() implies #[trigger] is_char_boundary(b, i) by {
        if i == cs.len() {
            is_char_boundary_start_end_of_seq(b);
        } else {
            assert('\0' <= cs[i] <= '\u{7f}');
            is_char_boundary_iff_not_is_continuation_byte(b, i);
        }
    }
}

/// Reading an identifier from an ASCII text of at least fifteen characters
/// takes only slices that `str` indexing accepts.
pub proof fn lemma_ascii_law_id_slices(s: &str)
    requires
        is_ascii_chars(s@),
        s@.len() >= 15,
    ensures
        law_id_slices_ok(s.spec_bytes()),
        bytes_as_chars(s.spec_bytes()) == s@,
{
    let b = s.spec_bytes();
    lemma_ascii_bytes(s@);
    let k = s@.subrange(3, 15);
    assert(is_ascii_chars(k)) by {
        assert forall|i: int| 0 <= i < k.len() implies '\0' <= #[trigger] k[i] <= '\u{7f}' by {
            assert(k[i] == s@[3 + i]);
        }
    }
    lemma_ascii_bytes(k);
    is_ascii_chars_encode_utf8(k);
    assert(encode_utf8(k) =~= b.subrange(3, 15));
}

/// Reading a kind field from an ASCII text of at least twelve characters
/// takes only slices that `str` indexing accepts.
pub proof fn lemma_ascii_law_type_slices(s: &str)
    requires
        is_ascii_chars(s@),
        s@.len() >= 12,
    ensures
        law_type_slices_ok(s.spec_bytes()),
        bytes_as_chars(s.spec_bytes()) == s@,
{
    lemma_ascii_bytes(s@);
}

/// Reading a ministry field from an ASCII text of at least nine characters
/// takes only slices that `str` indexing accepts.
pub proof fn lemma_ascii_ministry_slices(s: &str)
    requires
        is_ascii_chars(s@),
        s@.len() >= 9,
    ensures
        ministry_slices_ok(s.spec_bytes()),
        bytes_as_chars(s.spec_bytes()) == s@,
{
    lemma_ascii_bytes(s@);
}

impl Ministry {
    pub fn to_id_str(&self) -> (r: String)
        ensures
            r@ == ministry_text(self@),
    {
        let mut out: Vec<char> = Vec::new();
        match self {
            Ministry::M1(l) => {
                push_str(&mut out, "M1");
                push_str(&mut out, M1Ministry::to_id_str(l.as_slice()).as_str());
            },
            Ministry::M2(l) => {
                push_str(&mut out, "M2");
                push_str(&mut out, M2Ministry::to_id_str(l.as_slice()).as_str());
            },
            Ministry::M3(l) => {
                push_str(&mut out, "M3");
                push_str(&mut out, M3Ministry::to_id_str(l.as_slice()).as_str());
            },
            Ministry::M4(l) => {
                push_str(&mut out, "M4");
                push_str(&mut out, M4Ministry::to_id_str(l.as_slice()).as_str());
            },
            Ministry::M5(l) => {
                push_str(&mut out, "M5");
                push_str(&mut out, M5Ministry::to_id_str(l.as_slice()).as_str());
            },
            Ministry::M6(l) => {
                push_str(&mut out, "M6");
                push_str(&mut out, M6Ministry::to_id_str(l.as_slice()).as_str());
            },
        }
        string_from_chars(&out)
    }

    pub fn from_id_str(s: &str) -> (r: Result<Self, String>)
        requires
            ministry_slices_ok(s.spec_bytes()),
        ensures
            match r {
                Ok(m) => ministry_of(bytes_as_chars(s.spec_bytes())) == Ok::<
                    MinistryView,
                    Seq<char>,
                >(m@),
                Err(e) => ministry_of(bytes_as_chars(s.spec_bytes())) == Err::<
                    MinistryView,
                    Seq<char>,
                >(e@),
            },
    {
        let t = byte_chars_of(s);
        ministry_from_chars(&t, Ghost(s.spec_bytes()))
    }
}

/// The bit field text of the hexadecimal field `t[2..9]`.
fn flag_bits_text(t: &Vec<char>) -> (r: Option<String>)
    requires
        t@.len() >= 9,
    ensures
        match r {
            Some(bits) => flag_bits_of(t@) == Some(bits@),
            None => flag_bits_of(t@) is None,
        },
{
    match parse_uint_at(t, 2, 9, 16) {
        None => None,
        Some(n) => {
            let mut out: Vec<char> = Vec::new();
            push_padded(&mut out, n, 2, 28);
            assert(out@ =~= padded(n as nat, 2, 28));
            Some(string_from_chars(&out))
        },
    }
}

/// Reads a ministry field from the start of `t`, the bytes `b` read as characters.
fn ministry_from_chars(t: &Vec<char>, Ghost(b): Ghost<Seq<u8>>) -> (r: Result<Ministry, String>)
    requires
        t@ == bytes_as_chars(b),
        ministry_slices_ok(b),
    ensures
        match r {
            Ok(m) => ministry_of(t@) == Ok::<MinistryView, Seq<char>>(m@),
            Err(e) => ministry_of(t@) == Err::<MinistryView, Seq<char>>(e@),
        },
{
    let unexpected = "unexpected string";
    if !matches_at(t, 0, "M") {
        return Err(String::from_str(unexpected));
    }
    let d1 = matches_at(t, 1, "1");
    let d2 = matches_at(t, 1, "2");
    let d3 = matches_at(t, 1, "3");
    let d4 = matches_at(t, 1, "4");
    let d5 = matches_at(t, 1, "5");
    let d6 = matches_at(t, 1, "6");
    if !(d1 || d2 || d3 || d4 || d5 || d6) {
        return Err(String::from_str(unexpected));
    }
    let bits = match flag_bits_text(t) {
        None => {
            return Err(String::from_str(unexpected));
        },
        Some(bits) => bits,
    };
    proof {
        lemma_bits_in_range(t@);
    }
    if d1 {
        proof {
            lemma_no_overflow(bits@, 0, |n: int| M1Ministry::of_flag(n));
        }
        match M1Ministry::from_id_str(bits.as_str()) {
            Ok(l) => Ok(Ministry::M1(l)),
            Err(e) => Err(e),
        }
    } else if d2 {
        proof {
            lemma_no_overflow(bits@, 0, |n: int| M2Ministry::of_flag(n));
        }
        match M2Ministry::from_id_str(bits.as_str()) {
            Ok(l) => Ok(Ministry::M2(l)),
            Err(e) => Err(e),
        }
    } else if d3 {
        proof {
            lemma_no_overflow(bits@, 0, |n: int| M3Ministry::of_flag(n));
        }
        match M3Ministry::from_id_str(bits.as_str()) {
            Ok(l) => Ok(Ministry::M3(l)),
            Err(e) => Err(e),
        }
    } else if d4 {
        proof {
            lemma_no_overflow(bits@, 0, |n: int| M4Ministry::of_flag(n));
        }
        match M4Ministry::from_id_str(bits.as_str()) {
            Ok(l) => Ok(Ministry::M4(l)),
            Err(e) => Err(e),
        }
    } else if d5 {
        proof {
            lemma_no_overflow(bits@, 0, |n: int| M5Ministry::of_flag(n));
        }
        match M5Ministry::from_id_str(bits.as_str()) {
            Ok(l) => Ok(Ministry::M5(l)),
            Err(e) => Err(e),
        }
    } else {
        proof {
            lemma_no_overflow(bits@, 0, |n: int| M6Ministry::of_flag(n));
        }
        match M6Ministry::from_id_str(bits.as_str()) {
            Ok(l) => Ok(Ministry::M6(l)),
            Err(e) => Err(e),
        }
    }
}

/// 法律の立法の種類
#[derive(Debug, Clone, Copy, Hash, PartialEq, Eq, Structural)]
pub enum RippouType {
    /// 閣法
    Kakuhou,
    /// 衆議院議員立法
    Syuin,
    /// 参議院議員立法
    Sanin,
}

/// 法律の効力の種類
#[derive(Debug, Clone, Copy, Hash, PartialEq, Eq, Structural)]
pub enum LawEfficacy {
    /// 政令
    CabinetOrder,
    /// 法律
    Law,
}

/// 法令IDの詳細 <https://elaws.e-gov.go.jp/file/LawIdNamingConvention.pdf> を参照
#[derive(Debug, Clone, Hash, PartialEq, Eq)]
pub enum LawType {
    /// 憲法
    Constitution,
    /// 法律
    Act { rippou_type: RippouType, num: usize },
    /// 政令
    CabinetOrder { efficacy: LawEfficacy, num: usize },
    /// 勅令
    ImperialOrder { efficacy: LawEfficacy, num: usize },
    /// 太政官布告
    DajokanFukoku { efficacy: LawEfficacy, num: usize },
    /// 太政官達
    DajokanTasshi { efficacy: LawEfficacy, num: usize },
    /// 太政官布達
    DajokanHutatsu { efficacy: LawEfficacy, num: usize },
    /// 府省令
    MinistryOrder { ministry: Ministry, num: usize },
    /// 人事院規則
    Jinjin {
        /// 規則の分類
        kind: usize,
        /// 規則の分類中の連番
        kind_serial_number: usize,
        /// 改正規則の連番
        amendment_serial_number: usize,
    },
    /// 機関の規則
    Regulation { institution: Institution, num: usize },
    /// 内閣総理大臣決定の行政機関の規則
    PrimeMinisterDecision {
        /// 決定月
        month: usize,
        /// 決定日
        day: usize,
        /// 同一決定日内の連番
        num: usize,
    },
}

/// A [`LawType`] with its ministry lists as sequences.
pub enum LawTypeView {
    Constitution,
    Act { rippou_type: RippouType, num: usize },
    CabinetOrder { efficacy: LawEfficacy, num: usize },
    ImperialOrder { efficacy: LawEfficacy, num: usize },
    DajokanFukoku { efficacy: LawEfficacy, num: usize },
    DajokanTasshi { efficacy: LawEfficacy, num: usize },
    DajokanHutatsu { efficacy: LawEfficacy, num: usize },
    MinistryOrder { ministry: MinistryView, num: usize },
    Jinjin { kind: usize, kind_serial_number: usize, amendment_serial_number: usize },
    Regulation { institution: Institution, num: usize },
    PrimeMinisterDecision { month: usize, day: usize, num: usize },
}

impl View for LawType {
    type V = LawTypeView;

    open spec fn view(&self) -> LawTypeView {
        match self {
            LawType::Constitution => LawTypeView::Constitution,
            LawType::Act { rippou_type, num } => LawTypeView::Act {
                rippou_type: *rippou_type,
                num: *num,
            },
            LawType::CabinetOrder { efficacy, num } => LawTypeView::CabinetOrder {
                efficacy: *efficacy,
                num: *num,
            },
            LawType::ImperialOrder { efficacy, num } => LawTypeView::ImperialOrder {
                efficacy: *efficacy,
                num: *num,
            },
            LawType::DajokanFukoku { efficacy, num } => LawTypeView::DajokanFukoku {
                efficacy: *efficacy,
                num: *num,
            },
            LawType::DajokanTasshi { efficacy, num } => LawTypeView::DajokanTasshi {
                efficacy: *efficacy,
                num: *num,
            },
            LawType::DajokanHutatsu { efficacy, num } => LawTypeView::DajokanHutatsu {
                efficacy: *efficacy,
                num: *num,
            },
            LawType::MinistryOrder { ministry, num } => LawTypeView::MinistryOrder {
                ministry: ministry@,
                num: *num,
            },
            LawType::Jinjin { kind, kind_serial_number, amendment_serial_number } =>
                LawTypeView::Jinjin {
                kind: *kind,
                kind_serial_number: *kind_serial_number,
                amendment_serial_number: *amendment_serial_number,
            },
            LawType::Regulation { institution, num } => LawTypeView::Regulation {
                institution: *institution,
                num: *num,
            },
            LawType::PrimeMinisterDecision { month, day, num } =>
                LawTypeView::PrimeMinisterDecision { month: *month, day: *day, num: *num },
        }
    }
}

/// The 立法 kind written as the seven digits after `AC`.
pub open spec fn rippou_of_code(c: usize) -> Option<RippouType> {
    if c == 0 {
        Some(RippouType::Kakuhou)
    } else if c == 1000000 {
        Some(RippouType::Syuin)
    } else if c == 100000 {
        Some(RippouType::Sanin)
    } else {
        None
    }
}

/// The 効力 written as the seven digits after a two-letter order prefix.
pub open spec fn efficacy_of_code(c: usize) -> Option<LawEfficacy> {
    if c == 0 {
        Some(LawEfficacy::CabinetOrder)
    } else if c == 1000000 {
        Some(LawEfficacy::Law)
    } else {
        None
    }
}

/// One of the two-letter prefixes of orders with an 効力 field.
pub open spec fn order_prefix(t: Seq<char>) -> bool {
    lit_at(t, 0, "CO"@) || lit_at(t, 0, "IO"@) || lit_at(t, 0, "DF"@) || lit_at(t, 0, "DT"@)
        || lit_at(t, 0, "DH"@)
}

/// The 効力 and number of an order: the code in `t[2..9]` and the number in `t[9..12]`.
pub open spec fn order_fields(t: Seq<char>) -> Option<(LawEfficacy, usize)> {
    match dec_field(t, 2, 9) {
        Some(c) => match efficacy_of_code(c) {
            Some(e) => match dec_field(t, 9, 12) {
                Some(num) => Some((e, num)),
                None => None,
            },
            None => None,
        },
        None => None,
    }
}

/// The order kind of a two-letter prefix, with its fields.
pub open spec fn order_of(t: Seq<char>, e: LawEfficacy, num: usize) -> LawTypeView {
    if lit_at(t, 0, "CO"@) {
        LawTypeView::CabinetOrder { efficacy: e, num }
    } else if lit_at(t, 0, "IO"@) {
        LawTypeView::ImperialOrder { efficacy: e, num }
    } else if lit_at(t, 0, "DF"@) {
        LawTypeView::DajokanFukoku { efficacy: e, num }
    } else if lit_at(t, 0, "DT"@) {
        LawTypeView::DajokanTasshi { efficacy: e, num }
    } else {
        LawTypeView::DajokanHutatsu { efficacy: e, num }
    }
}

/// Reading the kind field `t` (the last twelve characters of an identifier).
pub open spec fn law_type_of(t: Seq<char>) -> Option<LawTypeView> {
    if t == "CONSTITUTION"@ {
        Some(LawTypeView::Constitution)
    } else if lit_at(t, 0, "AC"@) {
        match dec_field(t, 2, 9) {
            Some(c) => match rippou_of_code(c) {
                Some(r) => match dec_field(t, 9, 12) {
                    Some(num) => Some(LawTypeView::Act { rippou_type: r, num }),
                    None => None,
                },
                None => None,
            },
            None => None,
        }
    } else if order_prefix(t) {
        match order_fields(t) {
            Some((e, num)) => Some(order_of(t, e, num)),
            None => None,
        }
    } else if lit_at(t, 0, "M"@) {
        match ministry_of(t) {
            Ok(m) => match dec_field(t, 9, 12) {
                Some(num) => Some(LawTypeView::MinistryOrder { ministry: m, num }),
                None => None,
            },
            Err(_) => None,
        }
    } else if lit_at(t, 0, "RJNJ"@) {
        match (dec_field(t, 4, 6), dec_field(t, 6, 9), dec_field(t, 9, 12)) {
            (Some(k), Some(ks), Some(a)) => Some(
                LawTypeView::Jinjin { kind: k, kind_serial_number: ks, amendment_serial_number: a },
            ),
            _ => None,
        }
    } else if lit_at(t, 0, "RPMD"@) {
        match (dec_field(t, 4, 6), dec_field(t, 6, 8), dec_field(t, 8, 12)) {
            (Some(m), Some(d), Some(n)) => Some(
                LawTypeView::PrimeMinisterDecision { month: m, day: d, num: n },
            ),
            _ => None,
        }
    } else if lit_at(t, 0, "R"@) {
        match dec_field(t, 1, 9) {
            Some(n) => match Institution::of_number(n as int) {
                Some(i) => match dec_field(t, 9, 12) {
                    Some(num) => Some(LawTypeView::Regulation { institution: i, num }),
                    None => None,
                },
                None => None,
            },
            None => None,
        }
    } else {
        None
    }
}

/// Reading the kind field from the bytes `b` takes only slices that `str`
/// indexing accepts: `s[0..=1]`, then the fields of the kind that the prefix
/// names, each only as long as the fields before it were read.
pub open spec fn law_type_slices_ok(b: Seq<u8>) -> bool {
    let t = bytes_as_chars(b);
    t == "CONSTITUTION"@ || {
        &&& cut(b, 0, 2)
        &&& if lit_at(t, 0, "AC"@) {
            &&& cut(b, 2, 9)
            &&& (dec_field(t, 2, 9) matches Some(c) && rippou_of_code(c) is Some) ==> cut(b, 9, 12)
        } else if order_prefix(t) {
            &&& cut(b, 2, 9)
            &&& (dec_field(t, 2, 9) matches Some(c) && efficacy_of_code(c) is Some) ==> cut(
                b,
                9,
                12,
            )
        } else {
            &&& cut(b, 0, 1)
            &&& if lit_at(t, 0, "M"@) {
                &&& ministry_slices_ok(b)
                &&& ministry_of(t) is Ok ==> cut(b, 9, 12)
            } else {
                &&& cut(b, 0, 4)
                &&& if lit_at(t, 0, "RJNJ"@) {
                    &&& cut(b, 4, 6)
                    &&& dec_field(t, 4, 6) is Some ==> {
                        &&& cut(b, 6, 9)
                        &&& dec_field(t, 6, 9) is Some ==> cut(b, 9, 12)
                    }
                } else if lit_at(t, 0, "RPMD"@) {
                    &&& cut(b, 4, 6)
                    &&& dec_field(t, 4, 6) is Some ==> {
                        &&& cut(b, 6, 8)
                        &&& dec_field(t, 6, 8) is Some ==> cut(b, 8, 12)
                    }
                } else if lit_at(t, 0, "R"@) {
                    &&& cut(b, 1, 9)
                    &&& (dec_field(t, 1, 9) matches Some(n) && Institution::of_number(n as int)
                        is Some) ==> cut(b, 9, 12)
                } else {
                    true
                }
            }
        }
    }
}

/// The seven-digit field of an order's 効力.
pub open spec fn efficacy_code_text(e: LawEfficacy) -> Seq<char> {
    match e {
        LawEfficacy::Law => "1000000"@,
        LawEfficacy::CabinetOrder => "0000000"@,
    }
}

/// The prefix of an act: `AC` and the seven-digit field of its 立法 kind.
pub open spec fn rippou_prefix(r: RippouType) -> Seq<char> {
    match r {
        RippouType::Kakuhou => "AC0000000"@,
        RippouType::Syuin => "AC1000000"@,
        RippouType::Sanin => "AC0100000"@,
    }
}

/// How a kind field is written.
pub open spec fn law_type_text(x: LawTypeView) -> Seq<char> {
    match x {
        LawTypeView::Constitution => "CONSTITUTION"@,
        LawTypeView::Act { rippou_type, num } => rippou_prefix(rippou_type) + padded(
            num as nat,
            10,
            3,
        ),
        LawTypeView::CabinetOrder { efficacy, num } => "CO"@ + efficacy_code_text(efficacy)
            + padded(num as nat, 10, 3),
        LawTypeView::ImperialOrder { efficacy, num } => "IO"@ + efficacy_code_text(efficacy)
            + padded(num as nat, 10, 3),
        LawTypeView::DajokanFukoku { efficacy, num } => "DF"@ + efficacy_code_text(efficacy)
            + padded(num as nat, 10, 3),
        LawTypeView::DajokanTasshi { efficacy, num } => "DT"@ + efficacy_code_text(efficacy)
            + padded(num as nat, 10, 3),
        LawTypeView::DajokanHutatsu { efficacy, num } => "DH"@ + efficacy_code_text(efficacy)
            + padded(num as nat, 10, 3),
        LawTypeView::MinistryOrder { ministry, num } => ministry_text(ministry) + padded(
            num as nat,
            10,
            3,
        ),
        LawTypeView::Jinjin { kind, kind_serial_number, amendment_serial_number } => "RJNJ"@
            + padded(kind as nat, 10, 2) + padded(kind_serial_number as nat, 10, 3) + padded(
            amendment_serial_number as nat,
            10,
            3,
        ),
        LawTypeView::Regulation { institution, num } => "R"@ + padded(
            institution.number() as nat,
            10,
            8,
        ) + padded(num as nat, 10, 3),
        LawTypeView::PrimeMinisterDecision { month, day, num } => "RPMD"@ + padded(
            month as nat,
            10,
            2,
        ) + padded(day as nat, 10, 2) + padded(num as nat, 10, 4),
    }
}

fn push_efficacy(out: &mut Vec<char>, prefix: &str, efficacy: &LawEfficacy, num: usize)
    ensures
        final(out)@ == old(out)@ + prefix@ + efficacy_code_text(*efficacy) + padded(
            num as nat,
            10,
            3,
        ),
{
    push_str(out, prefix);
    match efficacy {
        LawEfficacy::Law => push_str(out, "1000000"),
        LawEfficacy::CabinetOrder => push_str(out, "0000000"),
    }
    push_padded(out, num, 10, 3);
}

impl LawType {
    pub fn to_id_str(&self) -> (r: String)
        ensures
            r@ == law_type_text(self@),
    {
        let mut out: Vec<char> = Vec::new();
        match self {
            LawType::Constitution => push_str(&mut out, "CONSTITUTION"),
            LawType::Act { rippou_type, num } => {
                match rippou_type {
                    RippouType::Kakuhou => push_str(&mut out, "AC0000000"),
                    RippouType::Syuin => push_str(&mut out, "AC1000000"),
                    RippouType::Sanin => push_str(&mut out, "AC0100000"),
                }
                push_padded(&mut out, *num, 10, 3);
            },
            LawType::CabinetOrder { efficacy, num } => push_efficacy(&mut out, "CO", efficacy, *num),
            LawType::ImperialOrder { efficacy, num } => push_efficacy(&mut out, "IO", efficacy, *num),
            LawType::DajokanFukoku { efficacy, num } => push_efficacy(&mut out, "DF", efficacy, *num),
            LawType::DajokanTasshi { efficacy, num } => push_efficacy(&mut out, "DT", efficacy, *num),
            LawType::DajokanHutatsu { efficacy, num } => push_efficacy(
                &mut out,
                "DH",
                efficacy,
                *num,
            ),
            LawType::MinistryOrder { ministry, num } => {
                push_str(&mut out, ministry.to_id_str().as_str());
                push_padded(&mut out, *num, 10, 3);
            },
            LawType::Jinjin { kind, kind_serial_number, amendment_serial_number } => {
                push_str(&mut out, "RJNJ");
                push_padded(&mut out, *kind, 10, 2);
                push_padded(&mut out, *kind_serial_number, 10, 3);
                push_padded(&mut out, *amendment_serial_number, 10, 3);
            },
            LawType::Regulation { institution, num } => {
                push_str(&mut out, "R");
                push_padded(&mut out, institution.to_int(), 10, 8);
                push_padded(&mut out, *num, 10, 3);
            },
            LawType::PrimeMinisterDecision { month, day, num } => {
                push_str(&mut out, "RPMD");
                push_padded(&mut out, *month, 10, 2);
                push_padded(&mut out, *day, 10, 2);
                push_padded(&mut out, *num, 10, 4);
            },
        }
        assert(out@ =~= law_type_text(self@));
        string_from_chars(&out)
    }

    pub fn from_id_str(s: &str) -> (r: Option<Self>)
        requires
            law_type_slices_ok(s.spec_bytes()),
        ensures
            match r {
                Some(x) => law_type_of(bytes_as_chars(s.spec_bytes())) == Some(x@),
                None => law_type_of(bytes_as_chars(s.spec_bytes())) is None,
            },
    {
        let t = byte_chars_of(s);
        law_type_from_chars(&t, Ghost(s.spec_bytes()))
    }
}

/// Reads the 効力 and number of an order.
fn order_fields_at(t: &Vec<char>, Ghost(b): Ghost<Seq<u8>>) -> (r: Option<(LawEfficacy, usize)>)
    requires
        t@ == bytes_as_chars(b),
        cut(b, 2, 9),
        (dec_field(t@, 2, 9) matches Some(c) && efficacy_of_code(c) is Some) ==> cut(b, 9, 12),
    ensures
        r == order_fields(t@),
{
    let code = match parse_uint_at(t, 2, 9, 10) {
        None => return None,
        Some(c) => c,
    };
    let efficacy = if code == 0 {
        LawEfficacy::CabinetOrder
    } else if code == 1000000 {
        LawEfficacy::Law
    } else {
        return None;
    };
    match parse_uint_at(t, 9, 12, 10) {
        None => None,
        Some(num) => Some((efficacy, num)),
    }
}

/// Reads the kind field `t`, the bytes `b` read as characters.
fn law_type_from_chars(t: &Vec<char>, Ghost(b): Ghost<Seq<u8>>) -> (r: Option<LawType>)
    requires
        t@ == bytes_as_chars(b),
        law_type_slices_ok(b),
    ensures
        match r {
            Some(x) => law_type_of(t@) == Some(x@),
            None => law_type_of(t@) is None,
        },
{
    if chars_eq(t, "CONSTITUTION") {
        Some(LawType::Constitution)
    } else if matches_at(t, 0, "AC") {
        let code = match parse_uint_at(t, 2, 9, 10) {
            None => return None,
            Some(c) => c,
        };
        let rippou_type = if code == 0 {
            RippouType::Kakuhou
        } else if code == 1000000 {
            RippouType::Syuin
        } else if code == 100000 {
            RippouType::Sanin
        } else {
            return None;
        };
        let num = match parse_uint_at(t, 9, 12, 10) {
            None => return None,
            Some(n) => n,
        };
        Some(LawType::Act { rippou_type, num })
    } else if matches_at(t, 0, "CO") {
        match order_fields_at(t, Ghost(b)) {
            Some((efficacy, num)) => Some(LawType::CabinetOrder { efficacy, num }),
            None => None,
        }
    } else if matches_at(t, 0, "IO") {
        match order_fields_at(t, Ghost(b)) {
            Some((efficacy, num)) => Some(LawType::ImperialOrder { efficacy, num }),
            None => None,
        }
    } else if matches_at(t, 0, "DF") {
        match order_fields_at(t, Ghost(b)) {
            Some((efficacy, num)) => Some(LawType::DajokanFukoku { efficacy, num }),
            None => None,
        }
    } else if matches_at(t, 0, "DT") {
        match order_fields_at(t, Ghost(b)) {
            Some((efficacy, num)) => Some(LawType::DajokanTasshi { efficacy, num }),
            None => None,
        }
    } else if matches_at(t, 0, "DH") {
        match order_fields_at(t, Ghost(b)) {
            Some((efficacy, num)) => Some(LawType::DajokanHutatsu { efficacy, num }),
            None => None,
        }
    } else if matches_at(t, 0, "M") {
        let ministry = match ministry_from_chars(t, Ghost(b)) {
            Ok(m) => m,
            Err(_) => return None,
        };
        let num = match parse_uint_at(t, 9, 12, 10) {
            None => return None,
            Some(n) => n,
        };
        Some(LawType::MinistryOrder { ministry, num })
    } else if matches_at(t, 0, "RJNJ") {
        let kind = match parse_uint_at(t, 4, 6, 10) {
            None => return None,
            Some(n) => n,
        };
        let kind_serial_number = match parse_uint_at(t, 6, 9, 10) {
            None => return None,
            Some(n) => n,
        };
        let amendment_serial_number = match parse_uint_at(t, 9, 12, 10) {
            None => return None,
            Some(n) => n,
        };
        Some(LawType::Jinjin { kind, kind_serial_number, amendment_serial_number })
    } else if matches_at(t, 0, "RPMD") {
        let month = match parse_uint_at(t, 4, 6, 10) {
            None => return None,
            Some(n) => n,
        };
        let day = match parse_uint_at(t, 6, 8, 10) {
            None => return None,
            Some(n) => n,
        };
        let num = match parse_uint_at(t, 8, 12, 10) {
            None => return None,
            Some(n) => n,
        };
        Some(LawType::PrimeMinisterDecision { month, day, num })
    } else if matches_at(t, 0, "R") {
        let n = match parse_uint_at(t, 1, 9, 10) {
            None => return None,
            Some(n) => n,
        };
        let institution = match Institution::from_int(n) {
            None => return None,
            Some(i) => i,
        };
        let num = match parse_uint_at(t, 9, 12, 10) {
            None => return None,
            Some(n) => n,
        };
        Some(LawType::Regulation { institution, num })
    } else {
        None
    }
}

/// 法令ID： <https://elaws.e-gov.go.jp/file/LawIdNamingConvention.pdf>を参照
#[derive(Debug, Clone, Hash, PartialEq, Eq)]
pub struct LawId {
    pub wareki: Wareki,
    pub law_type: LawType,
}

/// A [`LawId`] with its ministry lists as sequences.
pub struct LawIdView {
    pub wareki: Wareki,
    pub law_type: LawTypeView,
}

impl View for LawId {
    type V = LawIdView;

    open spec fn view(&self) -> LawIdView {
        LawIdView { wareki: self.wareki, law_type: self.law_type@ }
    }
}

/// How an identifier is written: the era's number, the year in two digits,
/// then the kind field.
pub open spec fn law_id_text(x: LawIdView) -> Seq<char> {
    radix_digits(x.wareki.era.number() as nat, 10) + padded(x.wareki.year as nat, 10, 2)
        + law_type_text(x.law_type)
}

/// Reading an identifier `t`: the era's number in `t[0..1]`, the year in
/// `t[1..3]` and the kind field in `t[3..15]`.
pub open spec fn law_id_of(t: Seq<char>) -> Option<LawIdView> {
    match dec_field(t, 0, 1) {
        Some(n) => match Era::of_number(n as int) {
            Some(era) => match dec_field(t, 1, 3) {
                Some(year) => match law_type_of(t.subrange(3, 15)) {
                    Some(law_type) => Some(
                        LawIdView { wareki: Wareki { era, year }, law_type },
                    ),
                    None => None,
                },
                None => None,
            },
            None => None,
        },
        None => None,
    }
}

/// Reading an identifier from the bytes `b` takes only slices that `str`
/// indexing accepts: `s[0..=0]`, then `s[1..=2]` after an era number, then
/// `s[3..=14]` after a year, whose reading is that of a kind field.
pub open spec fn law_id_slices_ok(b: Seq<u8>) -> bool {
    let t = bytes_as_chars(b);
    &&& cut(b, 0, 1)
    &&& (dec_field(t, 0, 1) matches Some(n) && Era::of_number(n as int) is Some) ==> {
        &&& cut(b, 1, 3)
        &&& dec_field(t, 1, 3) is Some ==> {
            &&& cut(b, 3, 15)
            &&& law_type_slices_ok(b.subrange(3, 15))
        }
    }
}

impl LawId {
    pub fn to_id_str(&self) -> (r: String)
        ensures
            r@ == law_id_text(self@),
    {
        let mut out: Vec<char> = Vec::new();
        push_padded(&mut out, self.wareki.era.to_number(), 10, 1);
        push_padded(&mut out, self.wareki.year, 10, 2);
        push_str(&mut out, self.law_type.to_id_str().as_str());
        proof {
            crate::text::lemma_digits_len(self.wareki.era.number() as nat, 10);
        }
        assert(out@ =~= law_id_text(self@));
        string_from_chars(&out)
    }

    pub fn from_id_str(s: &str) -> (r: Option<Self>)
        requires
            law_id_slices_ok(s.spec_bytes()),
        ensures
            match r {
                Some(x) => law_id_of(bytes_as_chars(s.spec_bytes())) == Some(x@),
                None => law_id_of(bytes_as_chars(s.spec_bytes())) is None,
            },
    {
        let t = byte_chars_of(s);
        let ghost b = s.spec_bytes();
        let era_n = match parse_uint_at(&t, 0, 1, 10) {
            None => return None,
            Some(n) => n,
        };
        let era = match Era::from_number(era_n) {
            None => return None,
            Some(e) => e,
        };
        let year = match parse_uint_at(&t, 1, 3, 10) {
            None => return None,
            Some(y) => y,
        };
        let type_chars = sub_chars(&t, 3, 15);
        assert(type_chars@ =~= bytes_as_chars(b.subrange(3, 15)));
        let law_type = match law_type_from_chars(&type_chars, Ghost(b.subrange(3, 15))) {
            None => return None,
            Some(x) => x,
        };
        Some(LawId { wareki: Wareki::new(era, year), law_type })
    }
}

} // verus!
