//! Reading the ministries of an ordinance from its title, such as
//! 「平成十二年厚生省令第百二十七号」.
//!
//! A title is searched from the left for an era year (an era name and a run
//! of numerals, then 年), an optional month (numerals, then 月), an optional day
//! (numerals, then 日), then the ministry's name, which runs on the same line
//! up to the last 令 or 規則. The era year is then read as such, and the
//! ministry's name by the ministries of the period that the year falls in.
use vstd::prelude::*;
use vstd::string::*;
use crate::era::Wareki;
use crate::law_id::{Ministry, MinistryView};
use crate::ministries::{M1Ministry, M2Ministry, M3Ministry, M4Ministry, M5Ministry, M6Ministry};
use crate::ministry::{named_in, MinistryContents};
use crate::text::chars_of;
use crate::wareki_text::{era_at, in_year_class, lemma_no_year_without_nen, YearForm};

verus! {

/// A numeral of a date in a title: a kanji numeral, an ASCII digit, a
/// full-width digit, or `|`.
pub open spec fn date_numeral(c: char) -> bool {
    in_year_class(c, YearForm::Kansuji) || in_year_class(c, YearForm::Arabic) || in_year_class(
        c,
        YearForm::FullWidth,
    )
}

fn is_date_numeral(c: char) -> (r: bool)
    ensures
        r == date_numeral(c),
{
    c == '一' || c == '二' || c == '三' || c == '四' || c == '五' || c == '六' || c == '七' || c
        == '八' || c == '九' || c == '十' || c == '百' || c == '|' || ('0' <= c && c <= '9') || (
    '０' <= c && c <= '９')
}

/// The length of the run of date numerals that starts at `j`.
pub open spec fn numeral_run(t: Seq<char>, j: int) -> nat
    decreases t.len() - j,
{
    if 0 <= j < t.len() && date_numeral(t[j]) {
        1 + numeral_run(t, j + 1)
    } else {
        0
    }
}

/// The position after a run of at least one date numeral that starts at `p`
/// and is followed by `unit`.
pub open spec fn unit_after(t: Seq<char>, p: int, unit: char) -> Option<int> {
    let k = numeral_run(t, p) as int;
    if k > 0 && p + k < t.len() && t[p + k] == unit {
        Some(p + k + 1)
    } else {
        None
    }
}

/// The end of the line that position `p` is on: the first line break at or
/// after `p`, or the end of the text.
pub open spec fn line_end(t: Seq<char>, p: int) -> int
    decreases t.len() - p,
{
    if p < 0 || p >= t.len() || t[p] == '\n' {
        p
    } else {
        line_end(t, p + 1)
    }
}

/// 令, or 規則, stands at position `q`.
pub open spec fn ending_at(t: Seq<char>, q: int) -> bool {
    t[q] == '令' || (q + 1 < t.len() && t[q] == '規' && t[q + 1] == '則')
}

/// The last position `k` with `p < k < q` where an ending stands.
pub open spec fn last_ending_below(t: Seq<char>, p: int, q: int) -> Option<int>
    decreases q - p,
{
    if q - p <= 1 {
        None
    } else if ending_at(t, q - 1) {
        Some(q - 1)
    } else {
        last_ending_below(t, p, q - 1)
    }
}

/// The last ending after `p` on the line of `p`.
pub open spec fn last_ending_of(t: Seq<char>, p: int) -> Option<int> {
    last_ending_below(t, p, line_end(t, p))
}

/// Where the ministry's name may start after the era year that ends before
/// `p0`, in the order they are tried: after a month and a day, after a month,
/// after a day, and right after the year.
pub open spec fn title_starts(t: Seq<char>, p0: int) -> Seq<int> {
    let with_month = match unit_after(t, p0, '月') {
        Some(pm) => match unit_after(t, pm, '日') {
            Some(pd) => seq![pd, pm],
            None => seq![pm],
        },
        None => seq![],
    };
    let with_day = match unit_after(t, p0, '日') {
        Some(pd) => seq![pd],
        None => seq![],
    };
    with_month + with_day + seq![p0]
}

/// The first of the starts `s`, from index `c` on, after which an ending
/// stands on the same line, with the last such ending.
pub open spec fn first_ending(t: Seq<char>, s: Seq<int>, c: int) -> Option<(int, int)>
    decreases s.len() - c,
{
    if c < 0 || c >= s.len() {
        None
    } else {
        match last_ending_of(t, s[c]) {
            Some(e) => Some((s[c], e)),
            None => first_ending(t, s, c + 1),
        }
    }
}

/// The title whose era year starts at `i`: where the era year and the
/// ministry's name start and end.
pub open spec fn title_at(t: Seq<char>, i: int) -> Option<(int, int, int, int)> {
    if era_at(t, i) is None {
        None
    } else {
        match unit_after(t, i + 2, '年') {
            None => None,
            Some(q) => match first_ending(t, title_starts(t, q), 0) {
                Some((ms, me)) => Some((i, q - 1, ms, me)),
                None => None,
            },
        }
    }
}

/// The leftmost title that starts at or after `i`.
pub open spec fn first_title(t: Seq<char>, i: int) -> Option<(int, int, int, int)>
    decreases t.len() - i,
{
    if i < 0 || i >= t.len() {
        None
    } else if title_at(t, i) is Some {
        title_at(t, i)
    } else {
        first_title(t, i + 1)
    }
}

/// A title's parts as positions.
pub open spec fn parts_view(r: Option<(usize, usize, usize, usize)>) -> Option<(int, int, int, int)> {
    match r {
        Some((a, b, c, d)) => Some((a as int, b as int, c as int, d as int)),
        None => None,
    }
}

/// The position after a run of numerals that starts at `p` and ends in `unit`.
fn after_unit(t: &Vec<char>, p: usize, unit: char) -> (r: Option<usize>)
    requires
        p <= t@.len(),
    ensures
        r matches Some(q) ==> p < q <= t@.len() && t@[q - 1] == unit && forall|k: int|
            p <= k < q - 1 ==> date_numeral(#[trigger] t@[k]),
        match r {
            Some(q) => unit_after(t@, p as int, unit) == Some(q as int),
            None => unit_after(t@, p as int, unit) is None,
        },
{
    let n = t.len();
    let mut q: usize = p;
    while q < n && is_date_numeral(t[q])
        invariant
            p <= q <= n,
            n == t@.len(),
            forall|k: int| p <= k < q ==> date_numeral(#[trigger] t@[k]),
            numeral_run(t@, p as int) == (q - p) + numeral_run(t@, q as int),
        decreases n - q,
    {
        q = q + 1;
    }
    assert(numeral_run(t@, q as int) == 0);
    if q > p && q < n && t[q] == unit {
        Some(q + 1)
    } else {
        None
    }
}

/// The last place after `p`, on the same line, where 令 or 規則 stands.
fn last_ending(t: &Vec<char>, p: usize) -> (r: Option<usize>)
    requires
        p <= t@.len(),
    ensures
        r matches Some(q) ==> p < q < t@.len(),
        match r {
            Some(q) => last_ending_of(t@, p as int) == Some(q as int),
            None => last_ending_of(t@, p as int) is None,
        },
{
    let n = t.len();
    let mut e: usize = p;
    while e < n && t[e] != '\n'
        invariant
            p <= e <= n,
            n == t@.len(),
            line_end(t@, p as int) == line_end(t@, e as int),
        decreases n - e,
    {
        e = e + 1;
    }
    let mut q: usize = e;
    while q - p > 1
        invariant
            p <= q <= e <= n,
            n == t@.len(),
            e == line_end(t@, p as int),
            last_ending_of(t@, p as int) == last_ending_below(t@, p as int, q as int),
        decreases q,
    {
        q = q - 1;
        if t[q] == '令' || (q + 1 < n && t[q] == '規' && t[q + 1] == '則') {
            return Some(q);
        }
    }
    None
}

/// The parts of a title whose era year starts at `i`: where the era year and
/// the ministry's name start and end.
fn title_parts_at(t: &Vec<char>, i: usize) -> (r: Option<(usize, usize, usize, usize)>)
    requires
        i < t@.len(),
    ensures
        r matches Some((ws, we, ms, me)) ==> {
            &&& ws <= we <= ms <= me <= t@.len()
            &&& forall|k: int| ws <= k < we ==> #[trigger] t@[k] != '年'
        },
        parts_view(r) == title_at(t@, i as int),
{
    let n = t.len();
    let era = crate::wareki_text::era_name_at(t, i);
    if era.is_none() {
        return None;
    }
    proof {
        reveal_strlit("明治");
        reveal_strlit("大正");
        reveal_strlit("昭和");
        reveal_strlit("平成");
        reveal_strlit("令和");
    }
    assert(t@[i as int] != '年' && t@[i + 1] != '年') by {
        let s = t@.subrange(i as int, i + 2);
        assert(s[0] == t@[i as int] && s[1] == t@[i + 1]);
    }
    let j = i + 2;
    let we = match after_unit(t, j, '年') {
        None => return None,
        Some(q) => q - 1,
    };
    assert forall|k: int| i <= k < we implies #[trigger] t@[k] != '年' by {
        if k >= j {
            assert(date_numeral(t@[k]));
        }
    }
    let p0 = we + 1;
    let ghost ts = title_starts(t@, p0 as int);
    let mut starts: Vec<usize> = Vec::new();
    if let Some(pm) = after_unit(t, p0, '月') {
        if let Some(pd) = after_unit(t, pm, '日') {
            starts.push(pd);
        }
        starts.push(pm);
    }
    if let Some(pd) = after_unit(t, p0, '日') {
        starts.push(pd);
    }
    starts.push(p0);
    assert(starts@.map_values(|x: usize| x as int) =~= ts);
    let count = starts.len();
    let mut c: usize = 0;
    while c < count
        invariant
            0 <= c <= count,
            count == starts@.len(),
            forall|x: int| 0 <= x < count ==> we < #[trigger] starts@[x] <= n,
            n == t@.len(),
            i <= we,
            forall|k: int| i <= k < we ==> #[trigger] t@[k] != '年',
            starts@.map_values(|x: usize| x as int) == ts,
            ts == title_starts(t@, p0 as int),
            p0 == we + 1,
            unit_after(t@, i + 2, '年') == Some(p0 as int),
            era_at(t@, i as int) is Some,
            first_ending(t@, ts, 0) == first_ending(t@, ts, c as int),
        decreases count - c,
    {
        let p = starts[c];
        if let Some(q) = last_ending(t, p) {
            return Some((i, we, p, q));
        }
        c = c + 1;
    }
    None
}

/// The parts of the leftmost title in `t`.
fn title_parts(t: &Vec<char>) -> (r: Option<(usize, usize, usize, usize)>)
    ensures
        r matches Some((ws, we, ms, me)) ==> {
            &&& ws <= we <= ms <= me <= t@.len()
            &&& forall|k: int| ws <= k < we ==> #[trigger] t@[k] != '年'
        },
        parts_view(r) == first_title(t@, 0),
{
    let n = t.len();
    let mut i: usize = 0;
    while i < n
        invariant
            0 <= i <= n,
            n == t@.len(),
            first_title(t@, 0) == first_title(t@, i as int),
        decreases n - i,
    {
        let parts = title_parts_at(t, i);
        if parts.is_some() {
            return parts;
        }
        i = i + 1;
    }
    None
}

/// The ministries that `name` names in the first period whose years contain
/// the era year `w`; none when no period does.
pub open spec fn ministry_of_period(w: Wareki, name: Seq<char>) -> Option<MinistryView> {
    let y = w.ad_year();
    if M1Ministry::first_day().year <= y <= M1Ministry::last_day().year {
        Some(MinistryView::M1(named_in(name, |k: int| M1Ministry::rule(k), M1Ministry::rule_count() as int)))
    } else if M2Ministry::first_day().year <= y <= M2Ministry::last_day().year {
        Some(MinistryView::M2(named_in(name, |k: int| M2Ministry::rule(k), M2Ministry::rule_count() as int)))
    } else if M3Ministry::first_day().year <= y <= M3Ministry::last_day().year {
        Some(MinistryView::M3(named_in(name, |k: int| M3Ministry::rule(k), M3Ministry::rule_count() as int)))
    } else if M4Ministry::first_day().year <= y <= M4Ministry::last_day().year {
        Some(MinistryView::M4(named_in(name, |k: int| M4Ministry::rule(k), M4Ministry::rule_count() as int)))
    } else if M5Ministry::first_day().year <= y <= M5Ministry::last_day().year {
        Some(MinistryView::M5(named_in(name, |k: int| M5Ministry::rule(k), M5Ministry::rule_count() as int)))
    } else if M6Ministry::first_day().year <= y <= M6Ministry::last_day().year {
        Some(MinistryView::M6(named_in(name, |k: int| M6Ministry::rule(k), M6Ministry::rule_count() as int)))
    } else {
        None
    }
}

/// The ministries that `name` names, read by the ministries of the first
/// period whose years contain `wareki`.
fn ministries_of_period(wareki: Wareki, name: &str) -> (r: Result<Ministry, String>)
    requires
        wareki.ad_year() <= usize::MAX,
    ensures
        match r {
            Ok(m) => ministry_of_period(wareki, name@) == Some(m@),
            Err(e) => ministry_of_period(wareki, name@) is None && e@ == "Unexpected input"@,
        },
{
    if M1Ministry::applicable_wareki(wareki) {
        Ok(Ministry::M1(M1Ministry::from_name(name)))
    } else if M2Ministry::applicable_wareki(wareki) {
        Ok(Ministry::M2(M2Ministry::from_name(name)))
    } else if M3Ministry::applicable_wareki(wareki) {
        Ok(Ministry::M3(M3Ministry::from_name(name)))
    } else if M4Ministry::applicable_wareki(wareki) {
        Ok(Ministry::M4(M4Ministry::from_name(name)))
    } else if M5Ministry::applicable_wareki(wareki) {
        Ok(Ministry::M5(M5Ministry::from_name(name)))
    } else if M6Ministry::applicable_wareki(wareki) {
        Ok(Ministry::M6(M6Ministry::from_name(name)))
    } else {
        Err(String::from_str("Unexpected input"))
    }
}

impl Ministry {
    /// 「厚生労働省令」や「厚生労働省・農林水産省令」などを含む題名から導き出す
    ///
    /// The era year is read from the title's era name and numerals without
    /// the 年 that follows them, and an era year is only read when 年
    /// follows; so every title is answered with the error.
    pub fn from_name(name: &str) -> (r: Result<Self, String>)
        ensures
            r matches Err(e) && e@ == "Unexpected input"@,
    {
        let t = chars_of(name);
        let (ws, we, ms, me) = match title_parts(&t) {
            None => return Err(String::from_str("Unexpected input")),
            Some(parts) => parts,
        };
        let wareki_s = name.substring_char(ws, we);
        proof {
            assert forall|k: int| 0 <= k < wareki_s@.len() implies wareki_s@[k] != '年' by {
                assert(wareki_s@[k] == t@[ws + k]);
            }
            lemma_no_year_without_nen(wareki_s@, 0);
        }
        let wareki = match Wareki::from_text(wareki_s) {
            None => return Err(String::from_str("Unexpected input")),
            Some(w) => w,
        };
        let ministry_s = name.substring_char(ms, me);
        ministries_of_period(wareki, ministry_s)
    }
}

} // verus!
