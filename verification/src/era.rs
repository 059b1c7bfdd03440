//! The Japanese era calendar (和暦): eras since 明治, years counted within an
//! era, and calendar dates.
use vstd::prelude::*;
use vstd::string::*;
use crate::text::str_eq;
use std::cmp::Ordering;

verus! {

/// 元号: the eras of the present legal system, from 明治 on.
#[derive(Debug, Clone, Copy, PartialEq, Eq, Hash, Structural)]
pub enum Era {
    /// 明治
    Meiji,
    /// 大正
    Taisho,
    /// 昭和
    Showa,
    /// 平成
    Heisei,
    /// 令和
    Reiwa,
}

/// A date written as one number `yyyymmdd`: `year * 10000 + month * 100 + day`.
pub open spec fn date_key(year: int, month: int, day: int) -> int {
    year * 10000 + month * 100 + day
}

impl Era {
    /// First day of the era as `yyyymmdd`.
    pub open spec fn first_key(self) -> int {
        match self {
            Era::Meiji => 18681023,
            Era::Taisho => 19120729,
            Era::Showa => 19261225,
            Era::Heisei => 19890108,
            Era::Reiwa => 20190501,
        }
    }

    /// Last day of the era as `yyyymmdd`; 令和 has not ended.
    pub open spec fn last_key(self) -> int {
        match self {
            Era::Meiji => 19120728,
            Era::Taisho => 19261224,
            Era::Showa => 19890107,
            Era::Heisei => 20190431,
            Era::Reiwa => usize::MAX as int,
        }
    }

    /// The Gregorian year before the era's first year (era years start at 1).
    pub open spec fn base_year(self) -> int {
        match self {
            Era::Meiji => 1867,
            Era::Taisho => 1911,
            Era::Showa => 1925,
            Era::Heisei => 1988,
            Era::Reiwa => 2018,
        }
    }

    /// The era's name.
    pub open spec fn name(self) -> Seq<char> {
        match self {
            Era::Meiji => "明治"@,
            Era::Taisho => "大正"@,
            Era::Showa => "昭和"@,
            Era::Heisei => "平成"@,
            Era::Reiwa => "令和"@,
        }
    }

    /// The era whose name is `s`.
    pub open spec fn of_name(s: Seq<char>) -> Option<Era> {
        if s == "明治"@ {
            Some(Era::Meiji)
        } else if s == "大正"@ {
            Some(Era::Taisho)
        } else if s == "昭和"@ {
            Some(Era::Showa)
        } else if s == "平成"@ {
            Some(Era::Heisei)
        } else if s == "令和"@ {
            Some(Era::Reiwa)
        } else {
            None
        }
    }

    /// The era's number: 明治 is 1, 大正 2, and so on.
    pub open spec fn number(self) -> int {
        match self {
            Era::Meiji => 1,
            Era::Taisho => 2,
            Era::Showa => 3,
            Era::Heisei => 4,
            Era::Reiwa => 5,
        }
    }

    /// The era with number `n`.
    pub open spec fn of_number(n: int) -> Option<Era> {
        if n == 1 {
            Some(Era::Meiji)
        } else if n == 2 {
            Some(Era::Taisho)
        } else if n == 3 {
            Some(Era::Showa)
        } else if n == 4 {
            Some(Era::Heisei)
        } else if n == 5 {
            Some(Era::Reiwa)
        } else {
            None
        }
    }

    /// 開始した年月日を整数で出す
    fn start(self) -> (r: usize)
        ensures
            r == self.first_key(),
    {
        match self {
            Era::Meiji => 18681023,
            Era::Taisho => 19120729,
            Era::Showa => 19261225,
            Era::Heisei => 19890108,
            Era::Reiwa => 20190501,
        }
    }

    /// 計算の基点となる開始年 - 1
    fn start_year(self) -> (r: usize)
        ensures
            r == self.base_year(),
    {
        match self {
            Era::Meiji => 1867,
            Era::Taisho => 1911,
            Era::Showa => 1925,
            Era::Heisei => 1988,
            Era::Reiwa => 2018,
        }
    }

    /// 終了した年月日を整数で出す（令和は終了していないため `usize::MAX`）
    fn end(self) -> (r: usize)
        ensures
            r == self.last_key(),
    {
        match self {
            Era::Meiji => 19120728,
            Era::Taisho => 19261224,
            Era::Showa => 19890107,
            Era::Heisei => 20190431,
            Era::Reiwa => usize::MAX,
        }
    }

    /// 文字列から生成
    pub fn from_text(text: &str) -> (r: Option<Self>)
        ensures
            r == Era::of_name(text@),
    {
        if str_eq(text, "明治") {
            Some(Era::Meiji)
        } else if str_eq(text, "大正") {
            Some(Era::Taisho)
        } else if str_eq(text, "昭和") {
            Some(Era::Showa)
        } else if str_eq(text, "平成") {
            Some(Era::Heisei)
        } else if str_eq(text, "令和") {
            Some(Era::Reiwa)
        } else {
            None
        }
    }

    /// 文字列を生成
    pub fn to_text(self) -> (r: String)
        ensures
            r@ == self.name(),
    {
        match self {
            Era::Meiji => String::from_str("明治"),
            Era::Taisho => String::from_str("大正"),
            Era::Showa => String::from_str("昭和"),
            Era::Heisei => String::from_str("平成"),
            Era::Reiwa => String::from_str("令和"),
        }
    }

    /// 明治を1，大正を2としていくナンバリングから生成
    pub fn from_number(n: usize) -> (r: Option<Self>)
        ensures
            r == Era::of_number(n as int),
    {
        match n {
            1 => Some(Era::Meiji),
            2 => Some(Era::Taisho),
            3 => Some(Era::Showa),
            4 => Some(Era::Heisei),
            5 => Some(Era::Reiwa),
            _ => None,
        }
    }

    /// 明治を1，大正を2としていくナンバリングを生成
    pub fn to_number(self) -> (r: usize)
        ensures
            r == self.number(),
    {
        match self {
            Era::Meiji => 1,
            Era::Taisho => 2,
            Era::Showa => 3,
            Era::Heisei => 4,
            Era::Reiwa => 5,
        }
    }
}

/// Numbering eras and reading the number back are inverse to each other.
pub proof fn lemma_era_number_roundtrip(e: Era, n: int)
    ensures
        Era::of_number(e.number()) == Some(e),
        Era::of_number(n) matches Some(f) ==> f.number() == n,
        Era::of_number(n) is Some <==> 1 <= n <= 5,
{
}

/// Reading an era's name gives back the era.
pub proof fn lemma_era_name_roundtrip(e: Era)
    ensures
        Era::of_name(e.name()) == Some(e),
{
    reveal_strlit("明治");
    reveal_strlit("大正");
    reveal_strlit("昭和");
    reveal_strlit("平成");
    reveal_strlit("令和");
    assert("明治"@[0] == '明');
    assert("大正"@[0] == '大');
    assert("昭和"@[0] == '昭');
    assert("平成"@[0] == '平');
    assert("令和"@[0] == '令');
}

/// The era that contains the day `t` (as `yyyymmdd`), tried in order from 明治.
pub open spec fn era_of_key(t: int) -> Option<Era> {
    if Era::Meiji.first_key() <= t <= Era::Meiji.last_key() {
        Some(Era::Meiji)
    } else if Era::Taisho.first_key() <= t <= Era::Taisho.last_key() {
        Some(Era::Taisho)
    } else if Era::Showa.first_key() <= t <= Era::Showa.last_key() {
        Some(Era::Showa)
    } else if Era::Heisei.first_key() <= t <= Era::Heisei.last_key() {
        Some(Era::Heisei)
    } else if Era::Reiwa.first_key() <= t {
        Some(Era::Reiwa)
    } else {
        None
    }
}

/// The Gregorian date can be converted: its `yyyymmdd` number fits in a
/// `usize`, falls in an era, and its year is not before that era's base year.
pub open spec fn convertible_ad(year: int, month: int, day: int) -> bool {
    let t = date_key(year, month, day);
    &&& t <= usize::MAX
    &&& era_of_key(t) is Some
    &&& year >= era_of_key(t)->0.base_year()
}

/// The era year of a convertible Gregorian date.
pub open spec fn wareki_of_ad(year: int, month: int, day: int) -> Wareki {
    let e = era_of_key(date_key(year, month, day))->0;
    Wareki { era: e, year: (year - e.base_year()) as usize }
}

/// The era year of a convertible Gregorian date falls in that year: turning it
/// back into a Gregorian year gives the date's year.
pub proof fn lemma_wareki_ad_year(year: usize, month: usize, day: usize)
    requires
        convertible_ad(year as int, month as int, day as int),
    ensures
        wareki_of_ad(year as int, month as int, day as int).ad_year() == year,
{
}

/// 和暦（平成5年，令和元年など）
#[derive(Debug, Clone, Copy, PartialEq, Eq, Hash, Structural)]
pub struct Wareki {
    pub era: Era,
    pub year: usize,
}

impl Wareki {
    /// The Gregorian year of this era year.
    pub open spec fn ad_year(self) -> int {
        self.era.base_year() + self.year
    }

    pub fn new(era: Era, year: usize) -> (r: Self)
        ensures
            r == (Wareki { era, year }),
    {
        Wareki { era, year }
    }

    /// 西暦からの作成
    pub fn from_ad(year: usize, month: usize, day: usize) -> (r: Self)
        requires
            convertible_ad(year as int, month as int, day as int),
        ensures
            r == wareki_of_ad(year as int, month as int, day as int),
    {
        let t = year * 10000 + month * 100 + day;
        let era = if Era::Meiji.start() <= t && t <= Era::Meiji.end() {
            Era::Meiji
        } else if Era::Taisho.start() <= t && t <= Era::Taisho.end() {
            Era::Taisho
        } else if Era::Showa.start() <= t && t <= Era::Showa.end() {
            Era::Showa
        } else if Era::Heisei.start() <= t && t <= Era::Heisei.end() {
            Era::Heisei
        } else {
            Era::Reiwa
        };
        Wareki { era, year: year - era.start_year() }
    }

    /// 西暦での年を生成
    pub fn to_ad(self) -> (r: usize)
        requires
            self.ad_year() <= usize::MAX,
        ensures
            r == self.ad_year(),
    {
        self.era.start_year() + self.year
    }
}

/// 日付（内部は西暦で管理）
#[derive(Debug, Clone, Copy, Hash)]
pub struct Date {
    pub year: usize,
    pub month: usize,
    pub day: usize,
}

impl Date {
    /// The date as one number `yyyymmdd`.
    pub open spec fn key(self) -> int {
        date_key(self.year as int, self.month as int, self.day as int)
    }

    /// 和暦からの作成
    pub fn new_wareki(era: Era, year: usize, month: usize, day: usize) -> (r: Self)
        requires
            era.base_year() + year <= usize::MAX,
        ensures
            r == (Date { year: (era.base_year() + year) as usize, month, day }),
    {
        Date { year: Wareki::new(era, year).to_ad(), month, day }
    }

    /// The date as the number `yyyymmdd`, computed without overflow.
    pub(crate) fn sort_key(&self) -> (r: u128)
        ensures
            r == self.key(),
    {
        (self.year as u128) * 10000 + (self.month as u128) * 100 + (self.day as u128)
    }

    /// 西暦からの作成
    pub fn new_ad(year: usize, month: usize, day: usize) -> (r: Self)
        ensures
            r == (Date { year, month, day }),
    {
        Date { year, month, day }
    }

    /// 西暦年の取得
    pub fn get_ad_year(self) -> (r: usize)
        ensures
            r == self.year,
    {
        self.year
    }

    /// 和暦年の取得
    pub fn gen_wareki_year(self) -> (r: Wareki)
        requires
            convertible_ad(self.year as int, self.month as int, self.day as int),
        ensures
            r == wareki_of_ad(self.year as int, self.month as int, self.day as int),
    {
        Wareki::from_ad(self.year, self.month, self.day)
    }
}

impl vstd::std_specs::cmp::PartialEqSpecImpl for Date {
    open spec fn obeys_eq_spec() -> bool {
        true
    }

    open spec fn eq_spec(&self, other: &Self) -> bool {
        self.year == other.year && self.month == other.month && self.day == other.day
    }
}

impl PartialEq for Date {
    fn eq(&self, other: &Self) -> (r: bool) {
        self.year == other.year && self.month == other.month && self.day == other.day
    }
}

impl Eq for Date {
}

impl vstd::std_specs::cmp::PartialOrdSpecImpl for Date {
    open spec fn obeys_partial_cmp_spec() -> bool {
        true
    }

    open spec fn partial_cmp_spec(&self, other: &Self) -> Option<Ordering> {
        if self.key() < other.key() {
            Some(Ordering::Less)
        } else if self.key() == other.key() {
            Some(Ordering::Equal)
        } else {
            Some(Ordering::Greater)
        }
    }
}

impl PartialOrd for Date {
    fn partial_cmp(&self, other: &Self) -> (r: Option<Ordering>) {
        let a = self.sort_key();
        let b = other.sort_key();
        if a < b {
            Some(Ordering::Less)
        } else if a == b {
            Some(Ordering::Equal)
        } else {
            Some(Ordering::Greater)
        }
    }
}

} // verus!
