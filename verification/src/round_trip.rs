//! How reading and printing identifiers undo each other: printing what was
//! read from a well-formed identifier gives the identifier back.
use vstd::prelude::*;
use vstd::string::*;
use vstd::arithmetic::power::pow;
use crate::era::{lemma_era_number_roundtrip, Era};
use crate::institution::{lemma_institution_number, Institution};
use crate::law_id::{
    dec_field, efficacy_code_text, flag_bits_of, law_id_of, law_id_slices_ok, law_id_text,
    law_type_of, law_type_slices_ok, law_type_text, lemma_ascii_law_id_slices,
    lemma_ascii_law_type_slices, lemma_ascii_ministry_slices, lemma_bits_in_range, lit_at,
    ministry_of, ministry_slices_ok, ministry_text, order_prefix, rippou_prefix, LawEfficacy,
    LawIdView, LawTypeView, MinistryView,
};
use crate::ministries::{M1Ministry, M2Ministry, M3Ministry, M4Ministry, M5Ministry, M6Ministry};
use crate::ministry::{
    decode_flags, flag_mask, flags_descending, lemma_decoded_mask, lemma_encoded_flags,
    lemma_mask_eq_iff, lemma_normalised_flags, same_elements, MinistryContents,
};
use crate::numerals::{canonical_digit, lemma_padded_value, lemma_parse_padded, lemma_value_of_padded};
use crate::numerals::lemma_value_of_digits;
use crate::text::{bytes_as_chars, is_digit, padded, parse_uint, radix_digits, unsigned_body};
use vstd::utf8::is_ascii_chars;

verus! {

/// A character of a well-formed identifier: an ASCII digit or an upper-case letter.
pub open spec fn id_char(c: char) -> bool {
    ('0' <= c && c <= '9') || ('A' <= c && c <= 'Z')
}

/// Every character of `t` is a digit or an upper-case letter.
pub open spec fn id_chars(t: Seq<char>) -> bool {
    forall|i: int| 0 <= i < t.len() ==> #[trigger] id_char(t[i])
}

/// A number field `t[lo..hi]` that reads in `radix` is written again as it stands.
proof fn lemma_field(t: Seq<char>, lo: int, hi: int, radix: nat)
    requires
        0 <= lo < hi <= t.len(),
        2 <= radix <= 36,
        id_chars(t),
        parse_uint(t.subrange(lo, hi), radix) is Some,
    ensures
        padded(parse_uint(t.subrange(lo, hi), radix)->0 as nat, radix, (hi - lo) as nat)
            == t.subrange(lo, hi),
{
    let d = t.subrange(lo, hi);
    assert(id_char(t[lo]));
    assert(d[0] == t[lo]);
    assert(unsigned_body(d) == d);
    assert forall|i: int| 0 <= i < d.len() implies #[trigger] canonical_digit(d[i], radix) by {
        assert(is_digit(d[i], radix));
        assert(id_char(t[lo + i]));
        assert(d[i] == t[lo + i]);
    }
    lemma_padded_value(d, radix);
}

/// The seven-digit codes of the kinds of acts and orders, as they are written.
proof fn lemma_code_texts()
    ensures
        padded(0, 10, 7) == "0000000"@,
        padded(1000000, 10, 7) == "1000000"@,
        padded(100000, 10, 7) == "0100000"@,
{
    reveal_strlit("0000000");
    reveal_strlit("1000000");
    reveal_strlit("0100000");
    reveal_with_fuel(radix_digits, 8);
    assert(radix_digits(0, 10) =~= seq!['0']);
    assert(radix_digits(1000000, 10) =~= seq!['1', '0', '0', '0', '0', '0', '0']);
    assert(radix_digits(100000, 10) =~= seq!['1', '0', '0', '0', '0', '0']);
    assert(padded(0, 10, 7) =~= "0000000"@);
    assert(padded(1000000, 10, 7) =~= "1000000"@);
    assert(padded(100000, 10, 7) =~= "0100000"@);
}

/// The bit field of the ministries read from the hexadecimal field
/// `t[2..9]`, written again, is that field.
proof fn lemma_flags_text<A: MinistryContents>(t: Seq<char>)
    requires
        t.len() >= 9,
        id_chars(t),
        flag_bits_of(t) is Some,
        decode_flags(flag_bits_of(t)->0, 0, |n: int| A::of_flag(n)) is Ok,
    ensures
        padded(
            flag_mask(
                decode_flags(flag_bits_of(t)->0, 0, |n: int| A::of_flag(n))->Ok_0,
                |x: A| x.flag(),
            ) as nat,
            16,
            7,
        ) == t.subrange(2, 9),
{
    let h = t.subrange(2, 9);
    let n = parse_uint(h, 16)->0;
    let bits = flag_bits_of(t)->0;
    let of_flag = |n: int| A::of_flag(n);
    let flag = |x: A| x.flag();
    lemma_bits_in_range(t);
    assert forall|k: int| #[trigger] of_flag(k) is Some implies flag(of_flag(k)->0) == k by {
        let x = A::of_flag(k)->0;
        x.lemma_flag(k);
    }
    lemma_decoded_mask(bits, 0, of_flag, flag);
    assert(bits.subrange(0, 28) =~= bits);
    lemma_value_of_padded(n as nat, 2, 28);
    lemma_field(t, 2, 9, 16);
}

/// A ministry field read from well-formed text is written again as it stands.
pub proof fn lemma_ministry_reprint(t: Seq<char>)
    requires
        t.len() >= 9,
        id_chars(t),
        ministry_of(t) is Ok,
    ensures
        ministry_text(ministry_of(t)->Ok_0) == t.subrange(0, 9),
{
    reveal_strlit("M");
    reveal_strlit("1");
    reveal_strlit("M1");
    reveal_strlit("2");
    reveal_strlit("M2");
    reveal_strlit("3");
    reveal_strlit("M3");
    reveal_strlit("4");
    reveal_strlit("M4");
    reveal_strlit("5");
    reveal_strlit("M5");
    reveal_strlit("6");
    reveal_strlit("M6");
    assert(t.subrange(0, 9) =~= t.subrange(0, 1) + t.subrange(1, 2) + t.subrange(2, 9));
    if lit_at(t, 1, "1"@) {
        lemma_flags_text::<M1Ministry>(t);
        assert("M1"@ =~= "M"@ + "1"@);
    } else if lit_at(t, 1, "2"@) {
        lemma_flags_text::<M2Ministry>(t);
        assert("M2"@ =~= "M"@ + "2"@);
    } else if lit_at(t, 1, "3"@) {
        lemma_flags_text::<M3Ministry>(t);
        assert("M3"@ =~= "M"@ + "3"@);
    } else if lit_at(t, 1, "4"@) {
        lemma_flags_text::<M4Ministry>(t);
        assert("M4"@ =~= "M"@ + "4"@);
    } else if lit_at(t, 1, "5"@) {
        lemma_flags_text::<M5Ministry>(t);
        assert("M5"@ =~= "M"@ + "5"@);
    } else if lit_at(t, 1, "6"@) {
        lemma_flags_text::<M6Ministry>(t);
        assert("M6"@ =~= "M"@ + "6"@);
    }
}

/// An act's kind field read from well-formed text is written again as it stands.
proof fn lemma_act_reprint(t: Seq<char>)
    requires
        t.len() == 12,
        id_chars(t),
        t != "CONSTITUTION"@,
        lit_at(t, 0, "AC"@),
        law_type_of(t) is Some,
    ensures
        law_type_text(law_type_of(t)->0) == t,
{
    reveal_strlit("AC");
    reveal_strlit("AC0000000");
    reveal_strlit("AC1000000");
    reveal_strlit("AC0100000");
    reveal_strlit("0000000");
    reveal_strlit("1000000");
    reveal_strlit("0100000");
    lemma_field(t, 2, 9, 10);
    lemma_field(t, 9, 12, 10);
    lemma_code_texts();
    assert("AC0000000"@ =~= "AC"@ + "0000000"@);
    assert("AC1000000"@ =~= "AC"@ + "1000000"@);
    assert("AC0100000"@ =~= "AC"@ + "0100000"@);
    assert(t =~= t.subrange(0, 2) + t.subrange(2, 9) + t.subrange(9, 12));
}

/// An order's kind field read from well-formed text is written again as it stands.
proof fn lemma_order_reprint(t: Seq<char>)
    requires
        t.len() == 12,
        id_chars(t),
        t != "CONSTITUTION"@,
        !lit_at(t, 0, "AC"@),
        order_prefix(t),
        law_type_of(t) is Some,
    ensures
        law_type_text(law_type_of(t)->0) == t,
{
    reveal_strlit("0000000");
    reveal_strlit("1000000");
    reveal_strlit("CO");
    reveal_strlit("IO");
    reveal_strlit("DF");
    reveal_strlit("DT");
    reveal_strlit("DH");
    lemma_field(t, 2, 9, 10);
    lemma_field(t, 9, 12, 10);
    lemma_code_texts();
    assert(t =~= t.subrange(0, 2) + t.subrange(2, 9) + t.subrange(9, 12));
}

/// A 人事院規則's kind field read from well-formed text is written again as it stands.
proof fn lemma_jinjin_reprint(t: Seq<char>)
    requires
        t.len() == 12,
        id_chars(t),
        lit_at(t, 0, "RJNJ"@),
        dec_field(t, 4, 6) is Some,
        dec_field(t, 6, 9) is Some,
        dec_field(t, 9, 12) is Some,
    ensures
        "RJNJ"@ + padded(dec_field(t, 4, 6)->0 as nat, 10, 2) + padded(
            dec_field(t, 6, 9)->0 as nat,
            10,
            3,
        ) + padded(dec_field(t, 9, 12)->0 as nat, 10, 3) == t,
{
    reveal_strlit("RJNJ");
    lemma_field(t, 4, 6, 10);
    lemma_field(t, 6, 9, 10);
    lemma_field(t, 9, 12, 10);
    assert(t =~= t.subrange(0, 4) + t.subrange(4, 6) + t.subrange(6, 9) + t.subrange(9, 12));
}

/// A decision's kind field read from well-formed text is written again as it stands.
proof fn lemma_decision_reprint(t: Seq<char>)
    requires
        t.len() == 12,
        id_chars(t),
        lit_at(t, 0, "RPMD"@),
        dec_field(t, 4, 6) is Some,
        dec_field(t, 6, 8) is Some,
        dec_field(t, 8, 12) is Some,
    ensures
        "RPMD"@ + padded(dec_field(t, 4, 6)->0 as nat, 10, 2) + padded(
            dec_field(t, 6, 8)->0 as nat,
            10,
            2,
        ) + padded(dec_field(t, 8, 12)->0 as nat, 10, 4) == t,
{
    reveal_strlit("RPMD");
    lemma_field(t, 4, 6, 10);
    lemma_field(t, 6, 8, 10);
    lemma_field(t, 8, 12, 10);
    assert(t =~= t.subrange(0, 4) + t.subrange(4, 6) + t.subrange(6, 8) + t.subrange(8, 12));
}

/// Printing a kind field that was read from a well-formed text of twelve
/// digits and upper-case letters gives the text back. The one exception is the
/// institution number 17 of a regulation, which is read as 司法試験管理委員会
/// and printed as its number 8.
pub proof fn lemma_law_type_reprint(t: Seq<char>)
    requires
        t.len() == 12,
        id_chars(t),
        law_type_of(t) is Some,
        !(law_type_of(t)->0 is Regulation && dec_field(t, 1, 9) == Some(17usize)),
    ensures
        law_type_text(law_type_of(t)->0) == t,
{
    reveal_strlit("M");
    reveal_strlit("R");
    if t == "CONSTITUTION"@ {
    } else if lit_at(t, 0, "AC"@) {
        lemma_act_reprint(t);
    } else if order_prefix(t) {
        lemma_order_reprint(t);
    } else if lit_at(t, 0, "M"@) {
        lemma_ministry_reprint(t);
        lemma_field(t, 9, 12, 10);
        assert(t =~= t.subrange(0, 9) + t.subrange(9, 12));
    } else if lit_at(t, 0, "RJNJ"@) {
        lemma_jinjin_reprint(t);
    } else if lit_at(t, 0, "RPMD"@) {
        lemma_decision_reprint(t);
    } else {
        let n = dec_field(t, 1, 9)->0;
        let i = Institution::of_number(n as int)->0;
        lemma_institution_number(i, n as int);
        lemma_field(t, 1, 9, 10);
        lemma_field(t, 9, 12, 10);
        assert(t =~= t.subrange(0, 1) + t.subrange(1, 9) + t.subrange(9, 12));
    }
}

/// Printing the identifier read from a well-formed text of fifteen digits and
/// upper-case letters gives the text back. The one exception is a regulation
/// whose institution number is 17, which is read as 司法試験管理委員会 and printed
/// as its number 8.
pub proof fn lemma_law_id_reprint(t: Seq<char>)
    requires
        t.len() == 15,
        id_chars(t),
        law_id_of(t) is Some,
        !(law_id_of(t)->0.law_type is Regulation && dec_field(t, 4, 12) == Some(17usize)),
    ensures
        law_id_text(law_id_of(t)->0) == t,
{
    let k = t.subrange(3, 15);
    assert forall|i: int| 0 <= i < k.len() implies #[trigger] id_char(k[i]) by {
        assert(k[i] == t[3 + i]);
    }
    assert(k.subrange(1, 9) =~= t.subrange(4, 12));
    lemma_law_type_reprint(k);
    lemma_field(t, 0, 1, 10);
    lemma_field(t, 1, 3, 10);
    let n = dec_field(t, 0, 1)->0;
    let era = Era::of_number(n as int)->0;
    lemma_era_number_roundtrip(era, n as int);
    crate::text::lemma_digits_len(n as nat, 10);
    assert(t =~= t.subrange(0, 1) + t.subrange(1, 3) + k);
}

/// Powers that bound the fields of an identifier.
proof fn lemma_field_powers()
    ensures
        pow(10, 1) == 10,
        pow(10, 2) == 100,
        pow(10, 3) == 1000,
        pow(10, 4) == 10000,
        pow(10, 7) == 10000000,
        pow(10, 8) == 100000000,
        pow(16, 7) == pow(2, 28),
        pow(16, 7) == 268435456,
{
    vstd::arithmetic::power::lemma_pow_multiplies(2, 4, 7);
    assert(pow(2, 4) == 16) by {
        reveal_with_fuel(pow, 5);
    }
    reveal_with_fuel(pow, 9);
}

/// The ministry lists of `m` are in the order that reading gives: flag
/// numbers descending, each once.
pub open spec fn ministry_fits(m: MinistryView) -> bool {
    match m {
        MinistryView::M1(l) => flags_descending(l, |x: M1Ministry| x.flag()),
        MinistryView::M2(l) => flags_descending(l, |x: M2Ministry| x.flag()),
        MinistryView::M3(l) => flags_descending(l, |x: M3Ministry| x.flag()),
        MinistryView::M4(l) => flags_descending(l, |x: M4Ministry| x.flag()),
        MinistryView::M5(l) => flags_descending(l, |x: M5Ministry| x.flag()),
        MinistryView::M6(l) => flags_descending(l, |x: M6Ministry| x.flag()),
    }
}

/// The bit field of a list in descending flag order, written in seven
/// hexadecimal digits, reads back as its value, whose twenty-eight binary
/// digits read back as the list.
proof fn lemma_flags_reread<A: MinistryContents>(l: Seq<A>)
    requires
        flags_descending(l, |x: A| x.flag()),
    ensures
        padded(flag_mask(l, |x: A| x.flag()) as nat, 16, 7).len() == 7,
        parse_uint(padded(flag_mask(l, |x: A| x.flag()) as nat, 16, 7), 16) == Some(
            flag_mask(l, |x: A| x.flag()) as usize,
        ),
        decode_flags(
            padded(flag_mask(l, |x: A| x.flag()) as nat, 2, 28),
            0,
            |n: int| A::of_flag(n),
        ) == Ok::<Seq<A>, Seq<char>>(l),
{
    let of_flag = |n: int| A::of_flag(n);
    let flag = |x: A| x.flag();
    assert forall|x: A| 1 <= #[trigger] flag(x) <= 26 && of_flag(flag(x)) == Some(x) by {
        x.lemma_flag(0);
    }
    assert forall|k: int| #[trigger] of_flag(k) is Some implies flag(of_flag(k)->0) == k by {
        let x = A::of_flag(k)->0;
        x.lemma_flag(k);
    }
    lemma_encoded_flags(l, of_flag, flag);
    lemma_field_powers();
    lemma_parse_padded(flag_mask(l, flag) as nat, 16, 7);
}

/// The first, the second and the last seven characters of a nine-character
/// field written as two characters and seven.
proof fn lemma_split_field(t: Seq<char>, pre: Seq<char>, f: Seq<char>)
    requires
        t.len() >= 9,
        pre.len() == 2,
        f.len() == 7,
        t.subrange(0, 9) == pre + f,
    ensures
        t.subrange(0, 1) == pre.subrange(0, 1),
        t.subrange(1, 2) == pre.subrange(1, 2),
        t.subrange(2, 9) == f,
{
    assert(t.subrange(0, 1) =~= (pre + f).subrange(0, 1));
    assert(t.subrange(1, 2) =~= (pre + f).subrange(1, 2));
    assert(t.subrange(2, 9) =~= (pre + f).subrange(2, 9));
    assert((pre + f).subrange(0, 1) =~= pre.subrange(0, 1));
    assert((pre + f).subrange(1, 2) =~= pre.subrange(1, 2));
    assert((pre + f).subrange(2, 9) =~= f);
}

/// A ministry field whose lists are in reading order is printed as nine
/// characters that start with `M`.
proof fn lemma_ministry_text_shape(m: MinistryView)
    requires
        ministry_fits(m),
    ensures
        ministry_text(m).len() == 9,
        ministry_text(m)[0] == 'M',
{
    match m {
        MinistryView::M1(l) => {
            lemma_flags_reread::<M1Ministry>(l);
            reveal_strlit("M1");
        },
        MinistryView::M2(l) => {
            lemma_flags_reread::<M2Ministry>(l);
            reveal_strlit("M2");
        },
        MinistryView::M3(l) => {
            lemma_flags_reread::<M3Ministry>(l);
            reveal_strlit("M3");
        },
        MinistryView::M4(l) => {
            lemma_flags_reread::<M4Ministry>(l);
            reveal_strlit("M4");
        },
        MinistryView::M5(l) => {
            lemma_flags_reread::<M5Ministry>(l);
            reveal_strlit("M5");
        },
        MinistryView::M6(l) => {
            lemma_flags_reread::<M6Ministry>(l);
            reveal_strlit("M6");
        },
    }
}

/// A ministry field whose lists are in reading order, written at the start of
/// `t`, reads back as itself.
pub proof fn lemma_ministry_reread(m: MinistryView, t: Seq<char>)
    requires
        ministry_fits(m),
        t.len() >= 9,
        t.subrange(0, 9) == ministry_text(m),
    ensures
        ministry_text(m).len() == 9,
        ministry_of(t) == Ok::<MinistryView, Seq<char>>(m),
{
    reveal_strlit("M");
    reveal_strlit("1");
    reveal_strlit("2");
    reveal_strlit("3");
    reveal_strlit("4");
    reveal_strlit("5");
    reveal_strlit("6");
    match m {
        MinistryView::M1(l) => {
            let mask = flag_mask(l, |x: M1Ministry| x.flag());
            lemma_flags_reread::<M1Ministry>(l);
            reveal_strlit("M1");
            lemma_split_field(t, "M1"@, padded(mask as nat, 16, 7));
            assert(t.subrange(0, 1) =~= "M"@);
            assert(t.subrange(1, 2) =~= "1"@);
        },
        MinistryView::M2(l) => {
            let mask = flag_mask(l, |x: M2Ministry| x.flag());
            lemma_flags_reread::<M2Ministry>(l);
            reveal_strlit("M2");
            lemma_split_field(t, "M2"@, padded(mask as nat, 16, 7));
            assert(t.subrange(0, 1) =~= "M"@);
            assert(t.subrange(1, 2) =~= "2"@);
            assert(t.subrange(1, 2)[0] != "1"@[0]);
        },
        MinistryView::M3(l) => {
            let mask = flag_mask(l, |x: M3Ministry| x.flag());
            lemma_flags_reread::<M3Ministry>(l);
            reveal_strlit("M3");
            lemma_split_field(t, "M3"@, padded(mask as nat, 16, 7));
            assert(t.subrange(0, 1) =~= "M"@);
            assert(t.subrange(1, 2) =~= "3"@);
            assert(t.subrange(1, 2)[0] != "1"@[0]);
            assert(t.subrange(1, 2)[0] != "2"@[0]);
        },
        MinistryView::M4(l) => {
            let mask = flag_mask(l, |x: M4Ministry| x.flag());
            lemma_flags_reread::<M4Ministry>(l);
            reveal_strlit("M4");
            lemma_split_field(t, "M4"@, padded(mask as nat, 16, 7));
            assert(t.subrange(0, 1) =~= "M"@);
            assert(t.subrange(1, 2) =~= "4"@);
            assert(t.subrange(1, 2)[0] != "1"@[0]);
            assert(t.subrange(1, 2)[0] != "2"@[0]);
            assert(t.subrange(1, 2)[0] != "3"@[0]);
        },
        MinistryView::M5(l) => {
            let mask = flag_mask(l, |x: M5Ministry| x.flag());
            lemma_flags_reread::<M5Ministry>(l);
            reveal_strlit("M5");
            lemma_split_field(t, "M5"@, padded(mask as nat, 16, 7));
            assert(t.subrange(0, 1) =~= "M"@);
            assert(t.subrange(1, 2) =~= "5"@);
            assert(t.subrange(1, 2)[0] != "1"@[0]);
            assert(t.subrange(1, 2)[0] != "2"@[0]);
            assert(t.subrange(1, 2)[0] != "3"@[0]);
            assert(t.subrange(1, 2)[0] != "4"@[0]);
        },
        MinistryView::M6(l) => {
            let mask = flag_mask(l, |x: M6Ministry| x.flag());
            lemma_flags_reread::<M6Ministry>(l);
            reveal_strlit("M6");
            lemma_split_field(t, "M6"@, padded(mask as nat, 16, 7));
            assert(t.subrange(0, 1) =~= "M"@);
            assert(t.subrange(1, 2) =~= "6"@);
            assert(t.subrange(1, 2)[0] != "1"@[0]);
            assert(t.subrange(1, 2)[0] != "2"@[0]);
            assert(t.subrange(1, 2)[0] != "3"@[0]);
            assert(t.subrange(1, 2)[0] != "4"@[0]);
            assert(t.subrange(1, 2)[0] != "5"@[0]);
        },
    }
}

/// Every number of `x` fits its field of the identifier, and its ministry
/// lists are in the order that reading gives.
pub open spec fn law_type_fits(x: LawTypeView) -> bool {
    match x {
        LawTypeView::Constitution => true,
        LawTypeView::Act { num, .. } => num < 1000,
        LawTypeView::CabinetOrder { num, .. } => num < 1000,
        LawTypeView::ImperialOrder { num, .. } => num < 1000,
        LawTypeView::DajokanFukoku { num, .. } => num < 1000,
        LawTypeView::DajokanTasshi { num, .. } => num < 1000,
        LawTypeView::DajokanHutatsu { num, .. } => num < 1000,
        LawTypeView::MinistryOrder { ministry, num } => num < 1000 && ministry_fits(ministry),
        LawTypeView::Jinjin { kind, kind_serial_number, amendment_serial_number } => kind < 100
            && kind_serial_number < 1000 && amendment_serial_number < 1000,
        LawTypeView::Regulation { num, .. } => num < 1000,
        LawTypeView::PrimeMinisterDecision { month, day, num } => month < 100 && day < 100 && num
            < 10000,
    }
}

/// An act's kind field, printed, reads back as the act.
proof fn lemma_act_reread(x: LawTypeView)
    requires
        x is Act,
        law_type_fits(x),
    ensures
        law_type_text(x).len() == 12,
        law_type_of(law_type_text(x)) == Some(x),
{
    let t = law_type_text(x);
    let num = x->Act_num;
    let pre = rippou_prefix(x->rippou_type);
    reveal_strlit("AC");
    reveal_strlit("AC0000000");
    reveal_strlit("AC1000000");
    reveal_strlit("AC0100000");
    reveal_strlit("CONSTITUTION");
    reveal_strlit("0000000");
    reveal_strlit("1000000");
    reveal_strlit("0100000");
    lemma_code_texts();
    lemma_field_powers();
    lemma_parse_padded(num as nat, 10, 3);
    lemma_parse_padded(0, 10, 7);
    lemma_parse_padded(1000000, 10, 7);
    lemma_parse_padded(100000, 10, 7);
    assert(t.subrange(0, 2) =~= pre.subrange(0, 2));
    assert(t.subrange(2, 9) =~= pre.subrange(2, 9));
    assert(t.subrange(9, 12) =~= padded(num as nat, 10, 3));
    assert("AC0000000"@.subrange(2, 9) =~= "0000000"@);
    assert("AC1000000"@.subrange(2, 9) =~= "1000000"@);
    assert("AC0100000"@.subrange(2, 9) =~= "0100000"@);
    assert(pre.subrange(0, 2) =~= "AC"@);
    assert(t[0] != "CONSTITUTION"@[0]);
}

/// An order's kind field, printed, reads back as the order.
proof fn lemma_order_reread(x: LawTypeView, pre: Seq<char>, e: LawEfficacy, num: usize)
    requires
        law_type_fits(x),
        pre == "CO"@ && x == (LawTypeView::CabinetOrder { efficacy: e, num }) || pre == "IO"@ && x
            == (LawTypeView::ImperialOrder { efficacy: e, num }) || pre == "DF"@ && x == (
        LawTypeView::DajokanFukoku { efficacy: e, num }) || pre == "DT"@ && x == (
        LawTypeView::DajokanTasshi { efficacy: e, num }) || pre == "DH"@ && x == (
        LawTypeView::DajokanHutatsu { efficacy: e, num }),
    ensures
        law_type_text(x).len() == 12,
        law_type_of(law_type_text(x)) == Some(x),
{
    let t = law_type_text(x);
    reveal_strlit("AC");
    reveal_strlit("CO");
    reveal_strlit("IO");
    reveal_strlit("DF");
    reveal_strlit("DT");
    reveal_strlit("DH");
    reveal_strlit("CONSTITUTION");
    reveal_strlit("0000000");
    reveal_strlit("1000000");
    lemma_code_texts();
    lemma_field_powers();
    lemma_parse_padded(num as nat, 10, 3);
    lemma_parse_padded(0, 10, 7);
    lemma_parse_padded(1000000, 10, 7);
    assert(t == pre + efficacy_code_text(e) + padded(num as nat, 10, 3));
    assert(t.subrange(0, 2) =~= pre);
    assert(t.subrange(2, 9) =~= efficacy_code_text(e));
    assert(t.subrange(9, 12) =~= padded(num as nat, 10, 3));
    assert(t[2] != "CONSTITUTION"@[2]);
    assert(t[0] != "AC"@[0]);
}

/// An ordinance's kind field, printed, reads back as the ordinance.
proof fn lemma_ministry_order_reread(x: LawTypeView)
    requires
        x is MinistryOrder,
        law_type_fits(x),
    ensures
        law_type_text(x).len() == 12,
        law_type_of(law_type_text(x)) == Some(x),
{
    let t = law_type_text(x);
    let m = x->ministry;
    let num = x->MinistryOrder_num;
    reveal_strlit("AC");
    reveal_strlit("CO");
    reveal_strlit("IO");
    reveal_strlit("DF");
    reveal_strlit("DT");
    reveal_strlit("DH");
    reveal_strlit("M");
    reveal_strlit("CONSTITUTION");
    lemma_field_powers();
    lemma_parse_padded(num as nat, 10, 3);
    let mt = ministry_text(m);
    lemma_ministry_text_shape(m);
    assert(t.subrange(0, 9) =~= mt);
    lemma_ministry_reread(m, t);
    assert(t.subrange(9, 12) =~= padded(num as nat, 10, 3));
    assert(t[0] == 'M');
    assert(t.subrange(0, 1) =~= "M"@);
    assert(t[0] != "CONSTITUTION"@[0]);
    assert(t[0] != "AC"@[0]);
    assert(!order_prefix(t)) by {
        assert(t.subrange(0, 2)[0] == 'M');
    }
}

/// A 人事院規則's kind field, printed, reads back as the 規則.
proof fn lemma_jinjin_reread(x: LawTypeView)
    requires
        x is Jinjin,
        law_type_fits(x),
    ensures
        law_type_text(x).len() == 12,
        law_type_of(law_type_text(x)) == Some(x),
{
    let t = law_type_text(x);
    let k = x->kind;
    let ks = x->kind_serial_number;
    let a = x->amendment_serial_number;
    reveal_strlit("AC");
    reveal_strlit("CO");
    reveal_strlit("IO");
    reveal_strlit("DF");
    reveal_strlit("DT");
    reveal_strlit("DH");
    reveal_strlit("M");
    reveal_strlit("RJNJ");
    reveal_strlit("CONSTITUTION");
    lemma_field_powers();
    lemma_parse_padded(k as nat, 10, 2);
    lemma_parse_padded(ks as nat, 10, 3);
    lemma_parse_padded(a as nat, 10, 3);
    assert(t.subrange(0, 4) =~= "RJNJ"@);
    assert(t.subrange(4, 6) =~= padded(k as nat, 10, 2));
    assert(t.subrange(6, 9) =~= padded(ks as nat, 10, 3));
    assert(t.subrange(9, 12) =~= padded(a as nat, 10, 3));
    assert(t[0] == 'R');
    assert(t.subrange(0, 2)[0] == 'R' && t.subrange(0, 1)[0] == 'R');
    assert(t[0] != "CONSTITUTION"@[0]);
}

/// A decision's kind field, printed, reads back as the decision.
proof fn lemma_decision_reread(x: LawTypeView)
    requires
        x is PrimeMinisterDecision,
        law_type_fits(x),
    ensures
        law_type_text(x).len() == 12,
        law_type_of(law_type_text(x)) == Some(x),
{
    let t = law_type_text(x);
    let mo = x->month;
    let d = x->day;
    let n = x->PrimeMinisterDecision_num;
    reveal_strlit("AC");
    reveal_strlit("CO");
    reveal_strlit("IO");
    reveal_strlit("DF");
    reveal_strlit("DT");
    reveal_strlit("DH");
    reveal_strlit("M");
    reveal_strlit("RJNJ");
    reveal_strlit("RPMD");
    reveal_strlit("CONSTITUTION");
    lemma_field_powers();
    lemma_parse_padded(mo as nat, 10, 2);
    lemma_parse_padded(d as nat, 10, 2);
    lemma_parse_padded(n as nat, 10, 4);
    assert(t.subrange(0, 4) =~= "RPMD"@);
    assert(t.subrange(4, 6) =~= padded(mo as nat, 10, 2));
    assert(t.subrange(6, 8) =~= padded(d as nat, 10, 2));
    assert(t.subrange(8, 12) =~= padded(n as nat, 10, 4));
    assert(t[0] == 'R' && t[1] == 'P');
    assert(t.subrange(0, 2)[0] == 'R' && t.subrange(0, 1)[0] == 'R');
    assert(t.subrange(0, 4)[1] != "RJNJ"@[1]);
    assert(t[0] != "CONSTITUTION"@[0]);
}

/// A regulation's kind field, printed, reads back as the regulation.
proof fn lemma_regulation_reread(x: LawTypeView)
    requires
        x is Regulation,
        law_type_fits(x),
    ensures
        law_type_text(x).len() == 12,
        law_type_of(law_type_text(x)) == Some(x),
{
    let t = law_type_text(x);
    let i = x->institution;
    let num = x->Regulation_num;
    reveal_strlit("AC");
    reveal_strlit("CO");
    reveal_strlit("IO");
    reveal_strlit("DF");
    reveal_strlit("DT");
    reveal_strlit("DH");
    reveal_strlit("M");
    reveal_strlit("R");
    reveal_strlit("RJNJ");
    reveal_strlit("RPMD");
    reveal_strlit("CONSTITUTION");
    lemma_field_powers();
    lemma_institution_number(i, 0);
    lemma_parse_padded(i.number() as nat, 10, 8);
    lemma_parse_padded(num as nat, 10, 3);
    let digits = padded(i.number() as nat, 10, 8);
    assert(t.subrange(0, 1) =~= "R"@);
    assert(t.subrange(1, 9) =~= digits);
    assert(t.subrange(9, 12) =~= padded(num as nat, 10, 3));
    assert(t[0] == 'R');
    assert(t[1] == digits[0]);
    assert(is_digit(digits[0], 10));
    assert(t.subrange(0, 2)[0] == 'R');
    assert(t.subrange(0, 4)[1] != "RJNJ"@[1]);
    assert(t.subrange(0, 4)[1] != "RPMD"@[1]);
    assert(t[0] != "CONSTITUTION"@[0]);
}

/// A kind field whose numbers fit their fields and whose ministry lists are
/// in reading order, printed, takes twelve characters and reads back as itself.
pub proof fn lemma_law_type_reread(x: LawTypeView)
    requires
        law_type_fits(x),
    ensures
        law_type_text(x).len() == 12,
        law_type_of(law_type_text(x)) == Some(x),
{
    match x {
        LawTypeView::Constitution => {
            reveal_strlit("CONSTITUTION");
        },
        LawTypeView::Act { .. } => lemma_act_reread(x),
        LawTypeView::CabinetOrder { efficacy, num } => lemma_order_reread(x, "CO"@, efficacy, num),
        LawTypeView::ImperialOrder { efficacy, num } => lemma_order_reread(x, "IO"@, efficacy, num),
        LawTypeView::DajokanFukoku { efficacy, num } => lemma_order_reread(x, "DF"@, efficacy, num),
        LawTypeView::DajokanTasshi { efficacy, num } => lemma_order_reread(x, "DT"@, efficacy, num),
        LawTypeView::DajokanHutatsu { efficacy, num } => lemma_order_reread(
            x,
            "DH"@,
            efficacy,
            num,
        ),
        LawTypeView::MinistryOrder { .. } => lemma_ministry_order_reread(x),
        LawTypeView::Jinjin { .. } => lemma_jinjin_reread(x),
        LawTypeView::Regulation { .. } => lemma_regulation_reread(x),
        LawTypeView::PrimeMinisterDecision { .. } => lemma_decision_reread(x),
    }
}

/// The year of `x` fits its two digits, the numbers of its kind fit their
/// fields, and its ministry lists are in the order that reading gives.
pub open spec fn law_id_fits(x: LawIdView) -> bool {
    x.wareki.year < 100 && law_type_fits(x.law_type)
}

/// Reading a printed identifier whose numbers fit their fields and whose
/// ministry lists are in reading order gives the identifier back; the printed
/// text has fifteen characters.
pub proof fn lemma_law_id_reread(x: LawIdView)
    requires
        law_id_fits(x),
    ensures
        law_id_text(x).len() == 15,
        law_id_of(law_id_text(x)) == Some(x),
{
    let t = law_id_text(x);
    let n = x.wareki.era.number();
    let year = x.wareki.year;
    lemma_era_number_roundtrip(x.wareki.era, n);
    lemma_field_powers();
    crate::text::lemma_digits_len(n as nat, 10);
    lemma_parse_padded(n as nat, 10, 1);
    lemma_parse_padded(year as nat, 10, 2);
    lemma_law_type_reread(x.law_type);
    let era_text = radix_digits(n as nat, 10);
    assert(era_text == padded(n as nat, 10, 1));
    assert(t.subrange(0, 1) =~= era_text);
    assert(t.subrange(1, 3) =~= padded(year as nat, 10, 2));
    assert(t.subrange(3, 15) =~= law_type_text(x.law_type));
}

/// `m1` and `m2` are of the same period and hold the same ministries,
/// whatever their order and repeats.
pub open spec fn same_ministries(m1: MinistryView, m2: MinistryView) -> bool {
    match (m1, m2) {
        (MinistryView::M1(a), MinistryView::M1(b)) => same_elements(a, b),
        (MinistryView::M2(a), MinistryView::M2(b)) => same_elements(a, b),
        (MinistryView::M3(a), MinistryView::M3(b)) => same_elements(a, b),
        (MinistryView::M4(a), MinistryView::M4(b)) => same_elements(a, b),
        (MinistryView::M5(a), MinistryView::M5(b)) => same_elements(a, b),
        (MinistryView::M6(a), MinistryView::M6(b)) => same_elements(a, b),
        _ => false,
    }
}

/// The digit of the period of `m`.
pub open spec fn period_digit(m: MinistryView) -> char {
    match m {
        MinistryView::M1(_) => '1',
        MinistryView::M2(_) => '2',
        MinistryView::M3(_) => '3',
        MinistryView::M4(_) => '4',
        MinistryView::M5(_) => '5',
        MinistryView::M6(_) => '6',
    }
}

/// The facts on flag numbers that the bit field laws rest on.
proof fn lemma_flag_facts<A: MinistryContents>()
    ensures
        forall|x: A| 1 <= #[trigger] x.flag() <= 26,
        forall|x: A| #[trigger] A::of_flag(x.flag()) == Some(x),
        forall|n: int| #[trigger] A::of_flag(n) is Some ==> A::of_flag(n)->0.flag() == n,
{
    assert forall|x: A| 1 <= #[trigger] x.flag() <= 26 && A::of_flag(x.flag()) == Some(x) by {
        x.lemma_flag(0);
    }
    assert forall|n: int| #[trigger] A::of_flag(n) is Some implies A::of_flag(n)->0.flag() == n by {
        let x = A::of_flag(n)->0;
        x.lemma_flag(n);
    }
}

/// Reading a printed ministry field gives, of the same period, the ministries
/// of the field once each, in descending flag order, whatever order and
/// repeats the printed lists had; the printed field has nine characters.
pub proof fn lemma_ministry_normalise(m: MinistryView)
    ensures
        ministry_text(m).len() == 9,
        ministry_of(ministry_text(m)) is Ok,
        ministry_fits(ministry_of(ministry_text(m))->Ok_0),
        same_ministries(m, ministry_of(ministry_text(m))->Ok_0),
{
    match m {
        MinistryView::M1(l) => {
            let of_flag = |n: int| M1Ministry::of_flag(n);
            let flag = |x: M1Ministry| x.flag();
            lemma_flag_facts::<M1Ministry>();
            lemma_normalised_flags(l, of_flag, flag);
            let d = decode_flags(padded(flag_mask(l, flag) as nat, 2, 28), 0, of_flag)->Ok_0;
            let m2 = MinistryView::M1(d);
            lemma_ministry_text_shape(m2);
            assert(ministry_text(m2) == ministry_text(m));
            assert(ministry_text(m).subrange(0, 9) =~= ministry_text(m));
            lemma_ministry_reread(m2, ministry_text(m));
            assert(same_ministries(m, m2));
        },
        MinistryView::M2(l) => {
            let of_flag = |n: int| M2Ministry::of_flag(n);
            let flag = |x: M2Ministry| x.flag();
            lemma_flag_facts::<M2Ministry>();
            lemma_normalised_flags(l, of_flag, flag);
            let d = decode_flags(padded(flag_mask(l, flag) as nat, 2, 28), 0, of_flag)->Ok_0;
            let m2 = MinistryView::M2(d);
            lemma_ministry_text_shape(m2);
            assert(ministry_text(m2) == ministry_text(m));
            assert(ministry_text(m).subrange(0, 9) =~= ministry_text(m));
            lemma_ministry_reread(m2, ministry_text(m));
            assert(same_ministries(m, m2));
        },
        MinistryView::M3(l) => {
            let of_flag = |n: int| M3Ministry::of_flag(n);
            let flag = |x: M3Ministry| x.flag();
            lemma_flag_facts::<M3Ministry>();
            lemma_normalised_flags(l, of_flag, flag);
            let d = decode_flags(padded(flag_mask(l, flag) as nat, 2, 28), 0, of_flag)->Ok_0;
            let m2 = MinistryView::M3(d);
            lemma_ministry_text_shape(m2);
            assert(ministry_text(m2) == ministry_text(m));
            assert(ministry_text(m).subrange(0, 9) =~= ministry_text(m));
            lemma_ministry_reread(m2, ministry_text(m));
            assert(same_ministries(m, m2));
        },
        MinistryView::M4(l) => {
            let of_flag = |n: int| M4Ministry::of_flag(n);
            let flag = |x: M4Ministry| x.flag();
            lemma_flag_facts::<M4Ministry>();
            lemma_normalised_flags(l, of_flag, flag);
            let d = decode_flags(padded(flag_mask(l, flag) as nat, 2, 28), 0, of_flag)->Ok_0;
            let m2 = MinistryView::M4(d);
            lemma_ministry_text_shape(m2);
            assert(ministry_text(m2) == ministry_text(m));
            assert(ministry_text(m).subrange(0, 9) =~= ministry_text(m));
            lemma_ministry_reread(m2, ministry_text(m));
            assert(same_ministries(m, m2));
        },
        MinistryView::M5(l) => {
            let of_flag = |n: int| M5Ministry::of_flag(n);
            let flag = |x: M5Ministry| x.flag();
            lemma_flag_facts::<M5Ministry>();
            lemma_normalised_flags(l, of_flag, flag);
            let d = decode_flags(padded(flag_mask(l, flag) as nat, 2, 28), 0, of_flag)->Ok_0;
            let m2 = MinistryView::M5(d);
            lemma_ministry_text_shape(m2);
            assert(ministry_text(m2) == ministry_text(m));
            assert(ministry_text(m).subrange(0, 9) =~= ministry_text(m));
            lemma_ministry_reread(m2, ministry_text(m));
            assert(same_ministries(m, m2));
        },
        MinistryView::M6(l) => {
            let of_flag = |n: int| M6Ministry::of_flag(n);
            let flag = |x: M6Ministry| x.flag();
            lemma_flag_facts::<M6Ministry>();
            lemma_normalised_flags(l, of_flag, flag);
            let d = decode_flags(padded(flag_mask(l, flag) as nat, 2, 28), 0, of_flag)->Ok_0;
            let m2 = MinistryView::M6(d);
            lemma_ministry_text_shape(m2);
            assert(ministry_text(m2) == ministry_text(m));
            assert(ministry_text(m).subrange(0, 9) =~= ministry_text(m));
            lemma_ministry_reread(m2, ministry_text(m));
            assert(same_ministries(m, m2));
        },
    }
}

/// The second character of a printed ministry field is its period's digit.
proof fn lemma_ministry_text_digit(m: MinistryView)
    ensures
        ministry_text(m).len() >= 2,
        ministry_text(m)[1] == period_digit(m),
{
    reveal_strlit("M1");
    reveal_strlit("M2");
    reveal_strlit("M3");
    reveal_strlit("M4");
    reveal_strlit("M5");
    reveal_strlit("M6");
}

/// Two ministry fields print alike exactly when they are of the same period
/// and hold the same ministries, whatever their order and repeats.
pub proof fn lemma_ministry_text_eq(m1: MinistryView, m2: MinistryView)
    ensures
        (ministry_text(m1) == ministry_text(m2)) == same_ministries(m1, m2),
{
    lemma_ministry_text_digit(m1);
    lemma_ministry_text_digit(m2);
    match (m1, m2) {
        (MinistryView::M1(a), MinistryView::M1(b)) => {
            let of_flag = |n: int| M1Ministry::of_flag(n);
            let flag = |x: M1Ministry| x.flag();
            lemma_flag_facts::<M1Ministry>();
            lemma_mask_eq_iff(a, b, of_flag, flag);
            lemma_mask_eq_iff(b, a, of_flag, flag);
            reveal_strlit("M1");
            let pa = padded(flag_mask(a, flag) as nat, 16, 7);
            let pb = padded(flag_mask(b, flag) as nat, 16, 7);
            lemma_field_powers();
            lemma_parse_padded(flag_mask(a, flag) as nat, 16, 7);
            lemma_parse_padded(flag_mask(b, flag) as nat, 16, 7);
            lemma_field_powers();
            lemma_parse_padded(flag_mask(a, flag) as nat, 16, 7);
            lemma_parse_padded(flag_mask(b, flag) as nat, 16, 7);
            lemma_field_powers();
            lemma_parse_padded(flag_mask(a, flag) as nat, 16, 7);
            lemma_parse_padded(flag_mask(b, flag) as nat, 16, 7);
            lemma_field_powers();
            lemma_parse_padded(flag_mask(a, flag) as nat, 16, 7);
            lemma_parse_padded(flag_mask(b, flag) as nat, 16, 7);
            lemma_field_powers();
            lemma_parse_padded(flag_mask(a, flag) as nat, 16, 7);
            lemma_parse_padded(flag_mask(b, flag) as nat, 16, 7);
            lemma_field_powers();
            lemma_parse_padded(flag_mask(a, flag) as nat, 16, 7);
            lemma_parse_padded(flag_mask(b, flag) as nat, 16, 7);
            if ministry_text(m1) == ministry_text(m2) {
                assert(ministry_text(m1).subrange(2, 9) =~= pa);
                assert(ministry_text(m2).subrange(2, 9) =~= pb);
                lemma_value_of_padded(flag_mask(a, flag) as nat, 16, 7);
                lemma_value_of_padded(flag_mask(b, flag) as nat, 16, 7);
            }
        },
        (MinistryView::M2(a), MinistryView::M2(b)) => {
            let of_flag = |n: int| M2Ministry::of_flag(n);
            let flag = |x: M2Ministry| x.flag();
            lemma_flag_facts::<M2Ministry>();
            lemma_mask_eq_iff(a, b, of_flag, flag);
            lemma_mask_eq_iff(b, a, of_flag, flag);
            reveal_strlit("M2");
            let pa = padded(flag_mask(a, flag) as nat, 16, 7);
            let pb = padded(flag_mask(b, flag) as nat, 16, 7);
            lemma_field_powers();
            lemma_parse_padded(flag_mask(a, flag) as nat, 16, 7);
            lemma_parse_padded(flag_mask(b, flag) as nat, 16, 7);
            lemma_field_powers();
            lemma_parse_padded(flag_mask(a, flag) as nat, 16, 7);
            lemma_parse_padded(flag_mask(b, flag) as nat, 16, 7);
            lemma_field_powers();
            lemma_parse_padded(flag_mask(a, flag) as nat, 16, 7);
            lemma_parse_padded(flag_mask(b, flag) as nat, 16, 7);
            lemma_field_powers();
            lemma_parse_padded(flag_mask(a, flag) as nat, 16, 7);
            lemma_parse_padded(flag_mask(b, flag) as nat, 16, 7);
            lemma_field_powers();
            lemma_parse_padded(flag_mask(a, flag) as nat, 16, 7);
            lemma_parse_padded(flag_mask(b, flag) as nat, 16, 7);
            lemma_field_powers();
            lemma_parse_padded(flag_mask(a, flag) as nat, 16, 7);
            lemma_parse_padded(flag_mask(b, flag) as nat, 16, 7);
            if ministry_text(m1) == ministry_text(m2) {
                assert(ministry_text(m1).subrange(2, 9) =~= pa);
                assert(ministry_text(m2).subrange(2, 9) =~= pb);
                lemma_value_of_padded(flag_mask(a, flag) as nat, 16, 7);
                lemma_value_of_padded(flag_mask(b, flag) as nat, 16, 7);
            }
        },
        (MinistryView::M3(a), MinistryView::M3(b)) => {
            let of_flag = |n: int| M3Ministry::of_flag(n);
            let flag = |x: M3Ministry| x.flag();
            lemma_flag_facts::<M3Ministry>();
            lemma_mask_eq_iff(a, b, of_flag, flag);
            lemma_mask_eq_iff(b, a, of_flag, flag);
            reveal_strlit("M3");
            let pa = padded(flag_mask(a, flag) as nat, 16, 7);
            let pb = padded(flag_mask(b, flag) as nat, 16, 7);
            lemma_field_powers();
            lemma_parse_padded(flag_mask(a, flag) as nat, 16, 7);
            lemma_parse_padded(flag_mask(b, flag) as nat, 16, 7);
            lemma_field_powers();
            lemma_parse_padded(flag_mask(a, flag) as nat, 16, 7);
            lemma_parse_padded(flag_mask(b, flag) as nat, 16, 7);
            lemma_field_powers();
            lemma_parse_padded(flag_mask(a, flag) as nat, 16, 7);
            lemma_parse_padded(flag_mask(b, flag) as nat, 16, 7);
            lemma_field_powers();
            lemma_parse_padded(flag_mask(a, flag) as nat, 16, 7);
            lemma_parse_padded(flag_mask(b, flag) as nat, 16, 7);
            lemma_field_powers();
            lemma_parse_padded(flag_mask(a, flag) as nat, 16, 7);
            lemma_parse_padded(flag_mask(b, flag) as nat, 16, 7);
            lemma_field_powers();
            lemma_parse_padded(flag_mask(a, flag) as nat, 16, 7);
            lemma_parse_padded(flag_mask(b, flag) as nat, 16, 7);
            if ministry_text(m1) == ministry_text(m2) {
                assert(ministry_text(m1).subrange(2, 9) =~= pa);
                assert(ministry_text(m2).subrange(2, 9) =~= pb);
                lemma_value_of_padded(flag_mask(a, flag) as nat, 16, 7);
                lemma_value_of_padded(flag_mask(b, flag) as nat, 16, 7);
            }
        },
        (MinistryView::M4(a), MinistryView::M4(b)) => {
            let of_flag = |n: int| M4Ministry::of_flag(n);
            let flag = |x: M4Ministry| x.flag();
            lemma_flag_facts::<M4Ministry>();
            lemma_mask_eq_iff(a, b, of_flag, flag);
            lemma_mask_eq_iff(b, a, of_flag, flag);
            reveal_strlit("M4");
            let pa = padded(flag_mask(a, flag) as nat, 16, 7);
            let pb = padded(flag_mask(b, flag) as nat, 16, 7);
            lemma_field_powers();
            lemma_parse_padded(flag_mask(a, flag) as nat, 16, 7);
            lemma_parse_padded(flag_mask(b, flag) as nat, 16, 7);
            lemma_field_powers();
            lemma_parse_padded(flag_mask(a, flag) as nat, 16, 7);
            lemma_parse_padded(flag_mask(b, flag) as nat, 16, 7);
            lemma_field_powers();
            lemma_parse_padded(flag_mask(a, flag) as nat, 16, 7);
            lemma_parse_padded(flag_mask(b, flag) as nat, 16, 7);
            lemma_field_powers();
            lemma_parse_padded(flag_mask(a, flag) as nat, 16, 7);
            lemma_parse_padded(flag_mask(b, flag) as nat, 16, 7);
            lemma_field_powers();
            lemma_parse_padded(flag_mask(a, flag) as nat, 16, 7);
            lemma_parse_padded(flag_mask(b, flag) as nat, 16, 7);
            lemma_field_powers();
            lemma_parse_padded(flag_mask(a, flag) as nat, 16, 7);
            lemma_parse_padded(flag_mask(b, flag) as nat, 16, 7);
            if ministry_text(m1) == ministry_text(m2) {
                assert(ministry_text(m1).subrange(2, 9) =~= pa);
                assert(ministry_text(m2).subrange(2, 9) =~= pb);
                lemma_value_of_padded(flag_mask(a, flag) as nat, 16, 7);
                lemma_value_of_padded(flag_mask(b, flag) as nat, 16, 7);
            }
        },
        (MinistryView::M5(a), MinistryView::M5(b)) => {
            let of_flag = |n: int| M5Ministry::of_flag(n);
            let flag = |x: M5Ministry| x.flag();
            lemma_flag_facts::<M5Ministry>();
            lemma_mask_eq_iff(a, b, of_flag, flag);
            lemma_mask_eq_iff(b, a, of_flag, flag);
            reveal_strlit("M5");
            let pa = padded(flag_mask(a, flag) as nat, 16, 7);
            let pb = padded(flag_mask(b, flag) as nat, 16, 7);
            lemma_field_powers();
            lemma_parse_padded(flag_mask(a, flag) as nat, 16, 7);
            lemma_parse_padded(flag_mask(b, flag) as nat, 16, 7);
            lemma_field_powers();
            lemma_parse_padded(flag_mask(a, flag) as nat, 16, 7);
            lemma_parse_padded(flag_mask(b, flag) as nat, 16, 7);
            lemma_field_powers();
            lemma_parse_padded(flag_mask(a, flag) as nat, 16, 7);
            lemma_parse_padded(flag_mask(b, flag) as nat, 16, 7);
            lemma_field_powers();
            lemma_parse_padded(flag_mask(a, flag) as nat, 16, 7);
            lemma_parse_padded(flag_mask(b, flag) as nat, 16, 7);
            lemma_field_powers();
            lemma_parse_padded(flag_mask(a, flag) as nat, 16, 7);
            lemma_parse_padded(flag_mask(b, flag) as nat, 16, 7);
            lemma_field_powers();
            lemma_parse_padded(flag_mask(a, flag) as nat, 16, 7);
            lemma_parse_padded(flag_mask(b, flag) as nat, 16, 7);
            if ministry_text(m1) == ministry_text(m2) {
                assert(ministry_text(m1).subrange(2, 9) =~= pa);
                assert(ministry_text(m2).subrange(2, 9) =~= pb);
                lemma_value_of_padded(flag_mask(a, flag) as nat, 16, 7);
                lemma_value_of_padded(flag_mask(b, flag) as nat, 16, 7);
            }
        },
        (MinistryView::M6(a), MinistryView::M6(b)) => {
            let of_flag = |n: int| M6Ministry::of_flag(n);
            let flag = |x: M6Ministry| x.flag();
            lemma_flag_facts::<M6Ministry>();
            lemma_mask_eq_iff(a, b, of_flag, flag);
            lemma_mask_eq_iff(b, a, of_flag, flag);
            reveal_strlit("M6");
            let pa = padded(flag_mask(a, flag) as nat, 16, 7);
            let pb = padded(flag_mask(b, flag) as nat, 16, 7);
            lemma_field_powers();
            lemma_parse_padded(flag_mask(a, flag) as nat, 16, 7);
            lemma_parse_padded(flag_mask(b, flag) as nat, 16, 7);
            lemma_field_powers();
            lemma_parse_padded(flag_mask(a, flag) as nat, 16, 7);
            lemma_parse_padded(flag_mask(b, flag) as nat, 16, 7);
            lemma_field_powers();
            lemma_parse_padded(flag_mask(a, flag) as nat, 16, 7);
            lemma_parse_padded(flag_mask(b, flag) as nat, 16, 7);
            lemma_field_powers();
            lemma_parse_padded(flag_mask(a, flag) as nat, 16, 7);
            lemma_parse_padded(flag_mask(b, flag) as nat, 16, 7);
            lemma_field_powers();
            lemma_parse_padded(flag_mask(a, flag) as nat, 16, 7);
            lemma_parse_padded(flag_mask(b, flag) as nat, 16, 7);
            lemma_field_powers();
            lemma_parse_padded(flag_mask(a, flag) as nat, 16, 7);
            lemma_parse_padded(flag_mask(b, flag) as nat, 16, 7);
            if ministry_text(m1) == ministry_text(m2) {
                assert(ministry_text(m1).subrange(2, 9) =~= pa);
                assert(ministry_text(m2).subrange(2, 9) =~= pb);
                lemma_value_of_padded(flag_mask(a, flag) as nat, 16, 7);
                lemma_value_of_padded(flag_mask(b, flag) as nat, 16, 7);
            }
        },
        _ => {
            assert(period_digit(m1) != period_digit(m2));
            assert(ministry_text(m1)[1] != ministry_text(m2)[1]);
        },
    }
}

/// A text of at most twelve characters, each of them ASCII.
proof fn lemma_short_ascii(s: Seq<char>)
    requires
        s.len() <= 12,
        s.len() > 0 ==> '\0' <= s[0] <= '\u{7f}',
        s.len() > 1 ==> '\0' <= s[1] <= '\u{7f}',
        s.len() > 2 ==> '\0' <= s[2] <= '\u{7f}',
        s.len() > 3 ==> '\0' <= s[3] <= '\u{7f}',
        s.len() > 4 ==> '\0' <= s[4] <= '\u{7f}',
        s.len() > 5 ==> '\0' <= s[5] <= '\u{7f}',
        s.len() > 6 ==> '\0' <= s[6] <= '\u{7f}',
        s.len() > 7 ==> '\0' <= s[7] <= '\u{7f}',
        s.len() > 8 ==> '\0' <= s[8] <= '\u{7f}',
        s.len() > 9 ==> '\0' <= s[9] <= '\u{7f}',
        s.len() > 10 ==> '\0' <= s[10] <= '\u{7f}',
        s.len() > 11 ==> '\0' <= s[11] <= '\u{7f}',
    ensures
        is_ascii_chars(s),
{
    assert forall|i: int| 0 <= i < s.len() implies '\0' <= #[trigger] s[i] <= '\u{7f}' by {
        if i == 0 {
        } else if i == 1 {
        } else if i == 2 {
        } else if i == 3 {
        } else if i == 4 {
        } else if i == 5 {
        } else if i == 6 {
        } else if i == 7 {
        } else if i == 8 {
        } else if i == 9 {
        } else if i == 10 {
        } else if i == 11 {
        }
    }
}

/// Two ASCII texts written one after the other make an ASCII text.
proof fn lemma_ascii_concat(a: Seq<char>, b: Seq<char>)
    requires
        is_ascii_chars(a),
        is_ascii_chars(b),
    ensures
        is_ascii_chars(a + b),
{
    assert forall|i: int| 0 <= i < (a + b).len() implies '\0' <= #[trigger] (a + b)[i] <= '\u{7f}' by {
        if i < a.len() {
            assert((a + b)[i] == a[i]);
        } else {
            assert((a + b)[i] == b[i - a.len()]);
        }
    }
}

/// A number written in a radix and padded is ASCII text of at least `width`
/// characters, and so are its digits alone, of at least one character.
proof fn lemma_padded_ascii(n: nat, radix: nat, width: nat)
    requires
        2 <= radix <= 36,
    ensures
        is_ascii_chars(radix_digits(n, radix)),
        radix_digits(n, radix).len() >= 1,
        is_ascii_chars(padded(n, radix, width)),
        padded(n, radix, width).len() >= width,
{
    let rd = radix_digits(n, radix);
    lemma_value_of_digits(n, radix);
    crate::text::lemma_digits_len(n, radix);
    assert forall|i: int| 0 <= i < rd.len() implies '\0' <= #[trigger] rd[i] <= '\u{7f}' by {
        assert(is_digit(rd[i], radix));
    }
    if rd.len() < width {
        let z = Seq::new((width - rd.len()) as nat, |i: int| '0');
        assert(is_ascii_chars(z));
        lemma_ascii_concat(z, rd);
    }
}

/// The texts that printed identifiers are made of are ASCII.
proof fn lemma_literals_ascii()
    ensures

        is_ascii_chars("CONSTITUTION"@),
        is_ascii_chars("AC0000000"@),
        is_ascii_chars("AC1000000"@),
        is_ascii_chars("AC0100000"@),
        is_ascii_chars("CO"@),
        is_ascii_chars("IO"@),
        is_ascii_chars("DF"@),
        is_ascii_chars("DT"@),
        is_ascii_chars("DH"@),
        is_ascii_chars("0000000"@),
        is_ascii_chars("1000000"@),
        is_ascii_chars("RJNJ"@),
        is_ascii_chars("RPMD"@),
        is_ascii_chars("R"@),
        is_ascii_chars("M1"@),
        is_ascii_chars("M2"@),
        is_ascii_chars("M3"@),
        is_ascii_chars("M4"@),
        is_ascii_chars("M5"@),
        is_ascii_chars("M6"@),
{
    reveal_strlit("CONSTITUTION");
    lemma_short_ascii("CONSTITUTION"@);
    reveal_strlit("AC0000000");
    lemma_short_ascii("AC0000000"@);
    reveal_strlit("AC1000000");
    lemma_short_ascii("AC1000000"@);
    reveal_strlit("AC0100000");
    lemma_short_ascii("AC0100000"@);
    reveal_strlit("CO");
    lemma_short_ascii("CO"@);
    reveal_strlit("IO");
    lemma_short_ascii("IO"@);
    reveal_strlit("DF");
    lemma_short_ascii("DF"@);
    reveal_strlit("DT");
    lemma_short_ascii("DT"@);
    reveal_strlit("DH");
    lemma_short_ascii("DH"@);
    reveal_strlit("0000000");
    lemma_short_ascii("0000000"@);
    reveal_strlit("1000000");
    lemma_short_ascii("1000000"@);
    reveal_strlit("RJNJ");
    lemma_short_ascii("RJNJ"@);
    reveal_strlit("RPMD");
    lemma_short_ascii("RPMD"@);
    reveal_strlit("R");
    lemma_short_ascii("R"@);
    reveal_strlit("M1");
    lemma_short_ascii("M1"@);
    reveal_strlit("M2");
    lemma_short_ascii("M2"@);
    reveal_strlit("M3");
    lemma_short_ascii("M3"@);
    reveal_strlit("M4");
    lemma_short_ascii("M4"@);
    reveal_strlit("M5");
    lemma_short_ascii("M5"@);
    reveal_strlit("M6");
    lemma_short_ascii("M6"@);
}

/// A printed ministry field is ASCII text of at least nine characters.
pub proof fn lemma_ministry_text_ascii(m: MinistryView)
    ensures
        is_ascii_chars(ministry_text(m)),
        ministry_text(m).len() >= 9,
{
    lemma_literals_ascii();
    reveal_strlit("M1");
    reveal_strlit("M2");
    reveal_strlit("M3");
    reveal_strlit("M4");
    reveal_strlit("M5");
    reveal_strlit("M6");
    match m {
        MinistryView::M1(l) => {
            let n = flag_mask(l, |x: M1Ministry| x.flag()) as nat;
            lemma_padded_ascii(n, 16, 7);
            lemma_ascii_concat("M1"@, padded(n, 16, 7));
        },
        MinistryView::M2(l) => {
            let n = flag_mask(l, |x: M2Ministry| x.flag()) as nat;
            lemma_padded_ascii(n, 16, 7);
            lemma_ascii_concat("M2"@, padded(n, 16, 7));
        },
        MinistryView::M3(l) => {
            let n = flag_mask(l, |x: M3Ministry| x.flag()) as nat;
            lemma_padded_ascii(n, 16, 7);
            lemma_ascii_concat("M3"@, padded(n, 16, 7));
        },
        MinistryView::M4(l) => {
            let n = flag_mask(l, |x: M4Ministry| x.flag()) as nat;
            lemma_padded_ascii(n, 16, 7);
            lemma_ascii_concat("M4"@, padded(n, 16, 7));
        },
        MinistryView::M5(l) => {
            let n = flag_mask(l, |x: M5Ministry| x.flag()) as nat;
            lemma_padded_ascii(n, 16, 7);
            lemma_ascii_concat("M5"@, padded(n, 16, 7));
        },
        MinistryView::M6(l) => {
            let n = flag_mask(l, |x: M6Ministry| x.flag()) as nat;
            lemma_padded_ascii(n, 16, 7);
            lemma_ascii_concat("M6"@, padded(n, 16, 7));
        },
    }
}

/// A printed kind field is ASCII text of at least twelve characters.
pub proof fn lemma_law_type_text_ascii(x: LawTypeView)
    ensures
        is_ascii_chars(law_type_text(x)),
        law_type_text(x).len() >= 12,
{
    reveal_strlit("CONSTITUTION");
    reveal_strlit("AC0000000");
    reveal_strlit("AC1000000");
    reveal_strlit("AC0100000");
    reveal_strlit("CO");
    reveal_strlit("IO");
    reveal_strlit("DF");
    reveal_strlit("DT");
    reveal_strlit("DH");
    reveal_strlit("0000000");
    reveal_strlit("1000000");
    reveal_strlit("RJNJ");
    reveal_strlit("RPMD");
    reveal_strlit("R");
    reveal_strlit("M1");
    reveal_strlit("M2");
    reveal_strlit("M3");
    reveal_strlit("M4");
    reveal_strlit("M5");
    reveal_strlit("M6");
    lemma_literals_ascii();
    match x {
        LawTypeView::Constitution => {},
        LawTypeView::Act { rippou_type, num } => {
            lemma_padded_ascii(num as nat, 10, 3);
            lemma_ascii_concat(rippou_prefix(rippou_type), padded(num as nat, 10, 3));
        },
        LawTypeView::CabinetOrder { efficacy, num } => {
            lemma_order_text_ascii("CO"@, efficacy, num);
        },
        LawTypeView::ImperialOrder { efficacy, num } => {
            lemma_order_text_ascii("IO"@, efficacy, num);
        },
        LawTypeView::DajokanFukoku { efficacy, num } => {
            lemma_order_text_ascii("DF"@, efficacy, num);
        },
        LawTypeView::DajokanTasshi { efficacy, num } => {
            lemma_order_text_ascii("DT"@, efficacy, num);
        },
        LawTypeView::DajokanHutatsu { efficacy, num } => {
            lemma_order_text_ascii("DH"@, efficacy, num);
        },
        LawTypeView::MinistryOrder { ministry, num } => {
            lemma_ministry_text_ascii(ministry);
            lemma_padded_ascii(num as nat, 10, 3);
            lemma_ascii_concat(ministry_text(ministry), padded(num as nat, 10, 3));
        },
        LawTypeView::Jinjin { kind, kind_serial_number, amendment_serial_number } => {
            let a = padded(kind as nat, 10, 2);
            let b = padded(kind_serial_number as nat, 10, 3);
            let c = padded(amendment_serial_number as nat, 10, 3);
            lemma_padded_ascii(kind as nat, 10, 2);
            lemma_padded_ascii(kind_serial_number as nat, 10, 3);
            lemma_padded_ascii(amendment_serial_number as nat, 10, 3);
            lemma_ascii_concat("RJNJ"@, a);
            lemma_ascii_concat("RJNJ"@ + a, b);
            lemma_ascii_concat("RJNJ"@ + a + b, c);
        },
        LawTypeView::Regulation { institution, num } => {
            let a = padded(institution.number() as nat, 10, 8);
            let b = padded(num as nat, 10, 3);
            lemma_institution_number(institution, 0);
            lemma_padded_ascii(institution.number() as nat, 10, 8);
            lemma_padded_ascii(num as nat, 10, 3);
            lemma_ascii_concat("R"@, a);
            lemma_ascii_concat("R"@ + a, b);
        },
        LawTypeView::PrimeMinisterDecision { month, day, num } => {
            let a = padded(month as nat, 10, 2);
            let b = padded(day as nat, 10, 2);
            let c = padded(num as nat, 10, 4);
            lemma_padded_ascii(month as nat, 10, 2);
            lemma_padded_ascii(day as nat, 10, 2);
            lemma_padded_ascii(num as nat, 10, 4);
            lemma_ascii_concat("RPMD"@, a);
            lemma_ascii_concat("RPMD"@ + a, b);
            lemma_ascii_concat("RPMD"@ + a + b, c);
        },
    }
}

/// A printed order's kind field is ASCII text of at least twelve characters.
proof fn lemma_order_text_ascii(pre: Seq<char>, e: LawEfficacy, num: usize)
    requires
        pre == "CO"@ || pre == "IO"@ || pre == "DF"@ || pre == "DT"@ || pre == "DH"@,
    ensures
        is_ascii_chars(pre + efficacy_code_text(e) + padded(num as nat, 10, 3)),
        (pre + efficacy_code_text(e) + padded(num as nat, 10, 3)).len() >= 12,
{
    reveal_strlit("CONSTITUTION");
    reveal_strlit("AC0000000");
    reveal_strlit("AC1000000");
    reveal_strlit("AC0100000");
    reveal_strlit("CO");
    reveal_strlit("IO");
    reveal_strlit("DF");
    reveal_strlit("DT");
    reveal_strlit("DH");
    reveal_strlit("0000000");
    reveal_strlit("1000000");
    reveal_strlit("RJNJ");
    reveal_strlit("RPMD");
    reveal_strlit("R");
    reveal_strlit("M1");
    reveal_strlit("M2");
    reveal_strlit("M3");
    reveal_strlit("M4");
    reveal_strlit("M5");
    reveal_strlit("M6");
    lemma_literals_ascii();
    lemma_padded_ascii(num as nat, 10, 3);
    lemma_ascii_concat(pre, efficacy_code_text(e));
    lemma_ascii_concat(pre + efficacy_code_text(e), padded(num as nat, 10, 3));
}

/// A printed identifier is ASCII text of at least fifteen characters.
pub proof fn lemma_law_id_text_ascii(x: LawIdView)
    ensures
        is_ascii_chars(law_id_text(x)),
        law_id_text(x).len() >= 15,
{
    let e = radix_digits(x.wareki.era.number() as nat, 10);
    let y = padded(x.wareki.year as nat, 10, 2);
    lemma_era_number_roundtrip(x.wareki.era, 0);
    lemma_padded_ascii(x.wareki.era.number() as nat, 10, 1);
    lemma_padded_ascii(x.wareki.year as nat, 10, 2);
    lemma_law_type_text_ascii(x.law_type);
    lemma_ascii_concat(e, y);
    lemma_ascii_concat(e + y, law_type_text(x.law_type));
}

/// Reading back a printed identifier, as `LawId::from_id_str` does, takes only
/// slices that `str` indexing accepts, and reads the printed characters.
pub proof fn lemma_printed_law_id_readable(x: LawIdView, s: &str)
    requires
        s@ == law_id_text(x),
    ensures
        law_id_slices_ok(s.spec_bytes()),
        bytes_as_chars(s.spec_bytes()) == s@,
{
    lemma_law_id_text_ascii(x);
    lemma_ascii_law_id_slices(s);
}

/// Reading back a printed kind field, as `LawType::from_id_str` does, takes
/// only slices that `str` indexing accepts, and reads the printed characters.
pub proof fn lemma_printed_law_type_readable(x: LawTypeView, s: &str)
    requires
        s@ == law_type_text(x),
    ensures
        law_type_slices_ok(s.spec_bytes()),
        bytes_as_chars(s.spec_bytes()) == s@,
{
    lemma_law_type_text_ascii(x);
    lemma_ascii_law_type_slices(s);
}

/// Reading back a printed ministry field, as `Ministry::from_id_str` does,
/// takes only slices that `str` indexing accepts, and reads the printed
/// characters.
pub proof fn lemma_printed_ministry_readable(m: MinistryView, s: &str)
    requires
        s@ == ministry_text(m),
    ensures
        ministry_slices_ok(s.spec_bytes()),
        bytes_as_chars(s.spec_bytes()) == s@,
{
    lemma_ministry_text_ascii(m);
    lemma_ascii_ministry_slices(s);
}

} // verus!
