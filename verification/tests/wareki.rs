use japanese_law_id::wareki_text::YearForm;
use japanese_law_id::{Date, Era, Wareki};
use regex::Regex;

#[test]
fn check_wareki_parse() {
    assert_eq!(
        Wareki::from_text("大正元年"),
        Some(Wareki {
            era: Era::Taisho,
            year: 1
        })
    );
    assert_eq!(
        Wareki::from_text("大正五年"),
        Some(Wareki {
            era: Era::Taisho,
            year: 5
        })
    );
    assert_eq!(
        Wareki::from_text("大正5年"),
        Some(Wareki {
            era: Era::Taisho,
            year: 5
        })
    );
    assert_eq!(
        Wareki::from_text("大正５年"),
        Some(Wareki {
            era: Era::Taisho,
            year: 5
        })
    );
    assert_eq!(
        Wareki::from_text("昭和十五年"),
        Some(Wareki {
            era: Era::Showa,
            year: 15
        })
    );
    assert_eq!(
        Wareki::from_text("昭和15年"),
        Some(Wareki {
            era: Era::Showa,
            year: 15
        })
    );
    assert_eq!(
        Wareki::from_text("昭和１５年"),
        Some(Wareki {
            era: Era::Showa,
            year: 15
        })
    );
}

#[test]
fn check_date_gen() {
    let d = Date::new_ad(1923, 06, 20).gen_wareki_year();
    assert_eq!(
        d,
        Wareki {
            era: Era::Taisho,
            year: 12
        }
    )
}

#[test]
fn era_years_in_longer_texts() {
    assert_eq!(
        Wareki::from_text("この法律は平成三十一年四月一日から施行する"),
        Some(Wareki::new(Era::Heisei, 31))
    );
    assert_eq!(Wareki::from_text("令和元年五月一日"), Some(Wareki::new(Era::Reiwa, 1)));
    assert_eq!(Wareki::from_text("昭和二十年"), Some(Wareki::new(Era::Showa, 20)));
    assert_eq!(Wareki::from_text("明治百年"), Some(Wareki::new(Era::Meiji, 100)));
    assert_eq!(Wareki::from_text("西暦二千年"), None);
    assert_eq!(Wareki::from_text("令和5"), None);
    assert_eq!(Wareki::from_text("令和"), None);
    assert_eq!(Wareki::from_text("令和5|1年"), None);
    assert_eq!(Wareki::from_text("平成年"), None);
}

#[test]
fn era_names_and_numbers() {
    let eras = [Era::Meiji, Era::Taisho, Era::Showa, Era::Heisei, Era::Reiwa];
    let names = ["明治", "大正", "昭和", "平成", "令和"];
    for (i, e) in eras.iter().enumerate() {
        assert_eq!(e.to_number(), i + 1);
        assert_eq!(Era::from_number(i + 1), Some(*e));
        assert_eq!(e.to_text(), names[i]);
        assert_eq!(Era::from_text(names[i]), Some(*e));
    }
    assert_eq!(Era::from_number(0), None);
    assert_eq!(Era::from_number(6), None);
    assert_eq!(Era::from_text("西暦"), None);
}

#[test]
fn gregorian_conversion_at_era_boundaries() {
    assert_eq!(Wareki::from_ad(1868, 10, 23), Wareki::new(Era::Meiji, 1));
    assert_eq!(Wareki::from_ad(1912, 7, 28), Wareki::new(Era::Meiji, 45));
    assert_eq!(Wareki::from_ad(1912, 7, 29), Wareki::new(Era::Taisho, 1));
    assert_eq!(Wareki::from_ad(1926, 12, 25), Wareki::new(Era::Showa, 1));
    assert_eq!(Wareki::from_ad(1989, 1, 7), Wareki::new(Era::Showa, 64));
    assert_eq!(Wareki::from_ad(1989, 1, 8), Wareki::new(Era::Heisei, 1));
    assert_eq!(Wareki::from_ad(2019, 4, 30), Wareki::new(Era::Heisei, 31));
    assert_eq!(Wareki::from_ad(2019, 5, 1), Wareki::new(Era::Reiwa, 1));
    assert_eq!(Wareki::new(Era::Heisei, 31).to_ad(), 2019);
    assert_eq!(Wareki::new(Era::Meiji, 1).to_ad(), 1868);
    assert_eq!(Wareki::from_ad(1989, 1, 8).to_ad(), 1989);
    assert_eq!(Wareki::from_ad(2024, 12, 31).to_ad(), 2024);
}

#[test]
fn dates() {
    let d = Date::new_wareki(Era::Reiwa, 5, 4, 1);
    assert_eq!(d.get_ad_year(), 2023);
    assert_eq!(d, Date::new_ad(2023, 4, 1));
    assert_eq!(d.gen_wareki_year(), Wareki::new(Era::Reiwa, 5));
    assert!(Date::new_ad(2001, 1, 5) < Date::new_ad(2001, 1, 6));
    assert!(Date::new_ad(2000, 12, 31) < Date::new_ad(2001, 1, 1));
    assert!(Date::new_ad(2001, 2, 1) > Date::new_ad(2001, 1, 31));
    assert!(Date::new_ad(2001, 1, 6) <= Date::new_ad(2001, 1, 6));
    assert!(Date::new_ad(usize::MAX, 12, 31) > Date::new_ad(2024, 1, 1));
}

/// The era year that the pattern of era years finds first in `text`: the era
/// name, the form of the year and where the year stands, in characters.
fn pattern_match(text: &str) -> Option<(String, YearForm, usize, usize)> {
    let re = Regex::new("(?<era>明治|大正|昭和|平成|令和)((?<year_gan>元)|(?<year_kansuji>[一|二|三|四|五|六|七|八|九|十|百]+)|(?<year_num>[1|2|3|4|5|6|7|8|9|0]+)|(?<year_num_zen>[１|２|３|４|５|６|７|８|９|０]+))年").unwrap();
    let caps = re.captures(text)?;
    let chars_before = |byte: usize| text[..byte].chars().count();
    let groups = [
        ("year_gan", YearForm::Gan),
        ("year_kansuji", YearForm::Kansuji),
        ("year_num", YearForm::Arabic),
        ("year_num_zen", YearForm::FullWidth),
    ];
    for (name, form) in groups {
        if let Some(g) = caps.name(name) {
            return Some((
                caps["era"].to_string(),
                form,
                chars_before(g.start()),
                chars_before(g.end()),
            ));
        }
    }
    None
}

#[test]
fn era_year_search_agrees_with_the_pattern() {
    let texts = [
        "大正元年",
        "令和5年4月1日",
        "これは平成十二年の改正",
        "昭和１５年",
        "令和5|1年",
        "平成年、昭和3年",
        "明治三年と大正四年",
        "令和元",
        "大正元5年",
        "",
    ];
    for text in texts {
        let found = Wareki::find_in_text(text)
            .map(|m| (m.era.to_text(), m.form, m.start, m.end));
        assert_eq!(found, pattern_match(text), "{}", text);
    }
}
