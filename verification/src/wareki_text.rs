//! Reading an era year such as 「大正元年」, 「平成五年」, 「平成5年」 or
//! 「平成５年」 out of a text.
//!
//! The text is searched from the left for the first place where an era name
//! is followed by a year and 年. The year is 元, or a run of kanji numerals,
//! of ASCII digits or of full-width digits; each of the three runs may also
//! hold `|`. The alternatives are tried in that order.
use vstd::prelude::*;
use vstd::string::*;
use crate::era::{Era, Wareki};
use crate::text::{chars_of, matches_at, parse_uint, parse_uint_at};

verus! {

/// The number that the `kansuji` crate reads from the kanji numeral `s`
/// (`Kansuji::try_from`, then conversion to `u128`), when it reads one.
pub uninterp spec fn kansuji_number(s: Seq<char>) -> Option<u128>;

/// Reads the kanji numeral `s` with the `kansuji` crate.
///
/// Trusted: `Kansuji::try_from(&str)` followed by `u128::from`. The contract
/// only names the result; kansuji's own grammar (digits, 十, 百, 千 and the
/// larger units) is not restated.
#[verifier::external_body]
fn kansuji_to_u128(s: &str) -> (r: Option<u128>)
    ensures
        r == kansuji_number(s@),
{
    match kansuji::Kansuji::try_from(s) {
        Ok(k) => Some(u128::from(k)),
        Err(_) => None,
    }
}

/// How the year of an era year is written.
#[derive(Debug, Clone, Copy, PartialEq, Eq, Hash, Structural)]
pub enum YearForm {
    /// 元 (the first year)
    Gan,
    /// Kanji numerals such as 十五
    Kansuji,
    /// ASCII digits such as 15
    Arabic,
    /// Full-width digits such as １５
    FullWidth,
}

/// Where an era year stands in a text: the era, and the characters
/// `start..end` that write the year, in the form `form`.
#[derive(Debug, Clone, Copy, PartialEq, Eq, Hash, Structural)]
pub struct WarekiMatch {
    pub era: Era,
    pub form: YearForm,
    pub start: usize,
    pub end: usize,
}

/// The characters that a year written in `form` may consist of.
pub open spec fn in_year_class(c: char, form: YearForm) -> bool {
    match form {
        YearForm::Gan => false,
        YearForm::Kansuji => c == '一' || c == '二' || c == '三' || c == '四' || c == '五' || c
            == '六' || c == '七' || c == '八' || c == '九' || c == '十' || c == '百' || c == '|',
        YearForm::Arabic => ('0' <= c && c <= '9') || c == '|',
        YearForm::FullWidth => ('０' <= c && c <= '９') || c == '|',
    }
}

/// The length of the longest run of characters of `form` that starts at `j`.
pub open spec fn run_len(t: Seq<char>, j: int, form: YearForm) -> nat
    decreases t.len() - j,
{
    if 0 <= j < t.len() && in_year_class(t[j], form) {
        1 + run_len(t, j + 1, form)
    } else {
        0
    }
}

/// The era whose name stands at position `i`.
pub open spec fn era_at(t: Seq<char>, i: int) -> Option<Era> {
    if 0 <= i && i + 2 <= t.len() {
        Era::of_name(t.subrange(i, i + 2))
    } else {
        None
    }
}

/// The year that starts at `j` and is followed by 年: its form and length.
pub open spec fn year_at(t: Seq<char>, j: int) -> Option<(YearForm, int)> {
    let k = run_len(t, j, YearForm::Kansuji) as int;
    let a = run_len(t, j, YearForm::Arabic) as int;
    let f = run_len(t, j, YearForm::FullWidth) as int;
    if 0 <= j && j + 2 <= t.len() && t[j] == '元' && t[j + 1] == '年' {
        Some((YearForm::Gan, 1))
    } else if k > 0 && j + k < t.len() && t[j + k] == '年' {
        Some((YearForm::Kansuji, k))
    } else if a > 0 && j + a < t.len() && t[j + a] == '年' {
        Some((YearForm::Arabic, a))
    } else if f > 0 && j + f < t.len() && t[j + f] == '年' {
        Some((YearForm::FullWidth, f))
    } else {
        None
    }
}

/// The era year that starts at position `i`.
pub open spec fn match_at(t: Seq<char>, i: int) -> Option<WarekiMatch> {
    match era_at(t, i) {
        Some(era) => match year_at(t, i + 2) {
            Some((form, len)) => Some(
                WarekiMatch { era, form, start: (i + 2) as usize, end: (i + 2 + len) as usize },
            ),
            None => None,
        },
        None => None,
    }
}

/// The leftmost era year at or after position `i`.
pub open spec fn first_match(t: Seq<char>, i: int) -> Option<WarekiMatch>
    decreases t.len() - i,
{
    if i < 0 || i >= t.len() {
        None
    } else if match_at(t, i) is Some {
        match_at(t, i)
    } else {
        first_match(t, i + 1)
    }
}

/// A full-width digit as an ASCII digit; other characters stay.
pub open spec fn ascii_digit(c: char) -> char {
    if '０' <= c && c <= '９' {
        ((c as int) - ('０' as int) + ('0' as int)) as char
    } else {
        c
    }
}

/// The era year that the match `m` in `t` writes; a year in kanji numerals
/// is `kansuji_year`, taken to a `usize` by truncation.
pub open spec fn year_of_match(t: Seq<char>, m: WarekiMatch, kansuji_year: Option<u128>) -> Option<
    Wareki,
> {
    let digits = t.subrange(m.start as int, m.end as int);
    match m.form {
        YearForm::Gan => Some(Wareki { era: m.era, year: 1 }),
        YearForm::Kansuji => match kansuji_year {
            Some(v) => Some(Wareki { era: m.era, year: v as usize }),
            None => None,
        },
        YearForm::Arabic => match parse_uint(digits, 10) {
            Some(y) => Some(Wareki { era: m.era, year: y }),
            None => None,
        },
        YearForm::FullWidth => match parse_uint(digits.map_values(|c: char| ascii_digit(c)), 10) {
            Some(y) => Some(Wareki { era: m.era, year: y }),
            None => None,
        },
    }
}

/// The era year that `t` writes first.
pub open spec fn wareki_of_text(t: Seq<char>) -> Option<Wareki> {
    match first_match(t, 0) {
        Some(m) => year_of_match(
            t,
            m,
            kansuji_number(t.subrange(m.start as int, m.end as int)),
        ),
        None => None,
    }
}

/// A text without 年 writes no era year.
pub proof fn lemma_no_year_without_nen(t: Seq<char>, i: int)
    requires
        forall|k: int| 0 <= k < t.len() ==> t[k] != '年',
    ensures
        first_match(t, i) is None,
    decreases t.len() - i,
{
    if 0 <= i < t.len() {
        lemma_no_year_without_nen(t, i + 1);
    }
}

fn run_len_at(t: &Vec<char>, j: usize, form: YearForm) -> (r: usize)
    requires
        j <= t@.len(),
    ensures
        r == run_len(t@, j as int, form),
        j + r <= t@.len(),
{
    let n = t.len();
    let mut k: usize = 0;
    while j + k < n && class_holds(t[j + k], form)
        invariant
            j + k <= n,
            n == t@.len(),
            run_len(t@, j as int, form) == k + run_len(t@, j + k, form),
        decreases n - j - k,
    {
        k = k + 1;
    }
    k
}

fn class_holds(c: char, form: YearForm) -> (r: bool)
    ensures
        r == in_year_class(c, form),
{
    match form {
        YearForm::Gan => false,
        YearForm::Kansuji => c == '一' || c == '二' || c == '三' || c == '四' || c == '五' || c
            == '六' || c == '七' || c == '八' || c == '九' || c == '十' || c == '百' || c == '|',
        YearForm::Arabic => ('0' <= c && c <= '9') || c == '|',
        YearForm::FullWidth => ('０' <= c && c <= '９') || c == '|',
    }
}

/// A run of `form` that starts at `j` and is followed by 年.
fn run_then_nen(t: &Vec<char>, j: usize, form: YearForm) -> (r: Option<usize>)
    requires
        j <= t@.len(),
    ensures
        ({
            let k = run_len(t@, j as int, form) as int;
            r == (if k > 0 && j + k < t@.len() && t@[j + k] == '年' {
                Some(k as usize)
            } else {
                None::<usize>
            })
        }),
{
    let k = run_len_at(t, j, form);
    let n = t.len();
    if k > 0 && k < n - j && t[j + k] == '年' {
        Some(k)
    } else {
        None
    }
}

pub(crate) fn era_name_at(t: &Vec<char>, i: usize) -> (r: Option<Era>)
    requires
        i <= t@.len(),
    ensures
        r == era_at(t@, i as int),
{
    proof {
        reveal_strlit("明治");
        reveal_strlit("大正");
        reveal_strlit("昭和");
        reveal_strlit("平成");
        reveal_strlit("令和");
    }
    if t.len() - i < 2 {
        return None;
    }
    let r = if matches_at(t, i, "明治") {
        Some(Era::Meiji)
    } else if matches_at(t, i, "大正") {
        Some(Era::Taisho)
    } else if matches_at(t, i, "昭和") {
        Some(Era::Showa)
    } else if matches_at(t, i, "平成") {
        Some(Era::Heisei)
    } else if matches_at(t, i, "令和") {
        Some(Era::Reiwa)
    } else {
        None
    };
    r
}

fn match_at_pos(t: &Vec<char>, i: usize) -> (r: Option<WarekiMatch>)
    requires
        i < t@.len(),
    ensures
        r == match_at(t@, i as int),
{
    let n = t.len();
    let era = match era_name_at(t, i) {
        None => return None,
        Some(e) => e,
    };
    let j = i + 2;
    let (form, len) = if n - j >= 2 && t[j] == '元' && t[j + 1] == '年' {
        (YearForm::Gan, 1)
    } else if let Some(k) = run_then_nen(t, j, YearForm::Kansuji) {
        (YearForm::Kansuji, k)
    } else if let Some(k) = run_then_nen(t, j, YearForm::Arabic) {
        (YearForm::Arabic, k)
    } else if let Some(k) = run_then_nen(t, j, YearForm::FullWidth) {
        (YearForm::FullWidth, k)
    } else {
        return None;
    };
    Some(WarekiMatch { era, form, start: j, end: j + len })
}

/// Parses the digits `v[lo..hi]`, full-width digits read as ASCII ones.
fn parse_year_digits(v: &Vec<char>, lo: usize, hi: usize, full_width: bool) -> (r: Option<usize>)
    requires
        lo <= hi <= v@.len(),
    ensures
        r == (if full_width {
            parse_uint(v@.subrange(lo as int, hi as int).map_values(|c: char| ascii_digit(c)), 10)
        } else {
            parse_uint(v@.subrange(lo as int, hi as int), 10)
        }),
{
    if !full_width {
        return parse_uint_at(v, lo, hi, 10);
    }
    let mut ascii: Vec<char> = Vec::new();
    let mut i: usize = lo;
    while i < hi
        invariant
            lo <= i <= hi <= v@.len(),
            ascii@ =~= v@.subrange(lo as int, i as int).map_values(|c: char| ascii_digit(c)),
        decreases hi - i,
    {
        let c = v[i];
        let d = if '０' <= c && c <= '９' {
            let code = (c as u32) - ('０' as u32) + ('0' as u32);
            char_of_ascii(code)
        } else {
            c
        };
        assert(d == ascii_digit(c));
        ascii.push(d);
        i = i + 1;
    }
    assert(ascii@.subrange(0, ascii@.len() as int) =~= ascii@);
    parse_uint_at(&ascii, 0, ascii.len(), 10)
}

fn char_of_ascii(code: u32) -> (c: char)
    requires
        code < 128,
    ensures
        c == code as char,
{
    (code as u8) as char
}

impl Wareki {
    /// The leftmost era year in `text`.
    pub fn find_in_text(text: &str) -> (r: Option<WarekiMatch>)
        ensures
            r == first_match(text@, 0),
            r matches Some(m) ==> m.start <= m.end <= text@.len(),
    {
        let t = chars_of(text);
        let n = t.len();
        proof {
            lemma_match_in_bounds(text@, 0);
        }
        let mut i: usize = 0;
        while i < n
            invariant
                0 <= i <= n,
                n == t@.len(),
                t@ == text@,
                first_match(text@, 0) == first_match(text@, i as int),
            decreases n - i,
        {
            let m = match_at_pos(&t, i);
            if m.is_some() {
                return m;
            }
            i = i + 1;
        }
        None
    }

    /// The era year that the match `m` in `text` writes, given what the
    /// kanji numeral of a year in kanji reads as.
    pub fn from_match(text: &str, m: WarekiMatch, kansuji_year: Option<u128>) -> (r: Option<Self>)
        requires
            m.start <= m.end <= text@.len(),
        ensures
            r == year_of_match(text@, m, kansuji_year),
    {
        match m.form {
            YearForm::Gan => Some(Wareki { era: m.era, year: 1 }),
            YearForm::Kansuji => match kansuji_year {
                Some(v) => Some(Wareki { era: m.era, year: v as usize }),
                None => None,
            },
            YearForm::Arabic => {
                let t = chars_of(text);
                match parse_year_digits(&t, m.start, m.end, false) {
                    Some(y) => Some(Wareki { era: m.era, year: y }),
                    None => None,
                }
            },
            YearForm::FullWidth => {
                let t = chars_of(text);
                match parse_year_digits(&t, m.start, m.end, true) {
                    Some(y) => Some(Wareki { era: m.era, year: y }),
                    None => None,
                }
            },
        }
    }

    /// 「大正元年」，「平成五年」，「平成5年」，「平成５年」などのテキストから生成
    pub fn from_text(text: &str) -> (r: Option<Self>)
        ensures
            r == wareki_of_text(text@),
    {
        let m = match Wareki::find_in_text(text) {
            None => return None,
            Some(m) => m,
        };
        let kansuji_year = match m.form {
            YearForm::Kansuji => kansuji_to_u128(text.substring_char(m.start, m.end)),
            _ => None,
        };
        assert(year_of_match(text@, m, kansuji_year) == year_of_match(
            text@,
            m,
            kansuji_number(text@.subrange(m.start as int, m.end as int)),
        ));
        Wareki::from_match(text, m, kansuji_year)
    }
}

proof fn lemma_match_in_bounds(t: Seq<char>, i: int)
    requires
        t.len() <= usize::MAX,
    ensures
        first_match(t, i) matches Some(m) ==> m.start <= m.end <= t.len(),
    decreases t.len() - i,
{
    if 0 <= i < t.len() {
        lemma_match_in_bounds(t, i + 1);
        if let Some(m) = match_at(t, i) {
            let j = i + 2;
            if let Some((form, len)) = year_at(t, j) {
                assert(j + len <= t.len());
            }
        }
    }
}

} // verus!
