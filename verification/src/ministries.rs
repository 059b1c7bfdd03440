//! The ministries (府・省) of each period of the identifier scheme, with their
//! flag numbers, periods and the names that identify them.
use vstd::prelude::*;
use crate::era::Date;
use crate::ministry::MinistryContents;

verus! {

/// M1時（1869年7月8日〜1943年10月31日）での府・省
#[derive(Debug, Clone, Copy, PartialEq, Eq, Hash, Structural)]
pub enum M1Ministry {
    /// 閣令
    CabinetOrder,
    /// 宮内省令
    ImperialHouseholdOrdinance,
    /// 大東亜省令
    GreaterEastAsiaMinisterialOrdinance,
    /// 内務省令
    MinistryOfTheInteriorOrdinance,
    /// 司法省令
    MinistryOfJusticeOrdinance,
    /// 外務省令
    MinistryOfForeignAffairsOrdinance,
    /// 大蔵省令
    MinistryOfFinanceOrdinance,
    /// 文部省令
    MinistryOfEducationOrdinance,
    /// 厚生省令
    MinistryOfHealthAndWelfareOrdinance,
    /// 農商務省令
    MinistryOfAgricultureAndCommerceOrdinance,
    /// 商工省令
    MinistryOfCommerceAndIndustryOrdinance,
    /// 鉄道省令
    RailwayMinisterialOrdinance,
    /// 逓信省令
    MinistryOfCommunicationsOrdinance,
    /// 陸軍省令（甲）
    MinistryOfTheArmyOrdinanceA,
    ///海軍省令
    NavyMinisterialOrdinance,
    /// 陸軍省令（乙）
    MinistryOfTheArmyOrdinanceB,
    /// 農林省令
    MinistryOfAgricultureAndForestryOrdinance,
    /// 拓殖務省令
    MinistryOfLandDevelopmentOrdinanceA,
    /// 拓務省令
    MinistryOfLandDevelopmentOrdinanceB,
    /// 農商務省令臨
    MinistryOfAgricultureAndCommerceOrdinanceTemporary,
    /// 司法省令（丙）
    /// 例：明治十九年度以降科料罰金徴収及民事刑事其他一時預リ金取扱方（明治19年4月7日司法省令丙第1号）<https://hourei.ndl.go.jp/#/detail?lawId=0000000249&searchDiv=1&current=1>
    MinistryOfJusticeOrdinanceHei,
}

impl MinistryContents for M1Ministry {
    open spec fn flag(self) -> int {
        match self {
            M1Ministry::CabinetOrder => 1,
            M1Ministry::ImperialHouseholdOrdinance => 2,
            M1Ministry::GreaterEastAsiaMinisterialOrdinance => 3,
            M1Ministry::MinistryOfTheInteriorOrdinance => 4,
            M1Ministry::MinistryOfJusticeOrdinance => 5,
            M1Ministry::MinistryOfForeignAffairsOrdinance => 6,
            M1Ministry::MinistryOfFinanceOrdinance => 7,
            M1Ministry::MinistryOfEducationOrdinance => 8,
            M1Ministry::MinistryOfHealthAndWelfareOrdinance => 9,
            M1Ministry::MinistryOfAgricultureAndCommerceOrdinance => 10,
            M1Ministry::MinistryOfCommerceAndIndustryOrdinance => 11,
            M1Ministry::RailwayMinisterialOrdinance => 12,
            M1Ministry::MinistryOfCommunicationsOrdinance => 13,
            M1Ministry::MinistryOfTheArmyOrdinanceA => 14,
            M1Ministry::NavyMinisterialOrdinance => 15,
            M1Ministry::MinistryOfTheArmyOrdinanceB => 16,
            M1Ministry::MinistryOfAgricultureAndForestryOrdinance => 17,
            M1Ministry::MinistryOfLandDevelopmentOrdinanceA => 18,
            M1Ministry::MinistryOfLandDevelopmentOrdinanceB => 19,
            M1Ministry::MinistryOfAgricultureAndCommerceOrdinanceTemporary => 20,
            M1Ministry::MinistryOfJusticeOrdinanceHei => 21,
        }
    }

    open spec fn of_flag(n: int) -> Option<Self> {
        if n == 1 {
            Some(M1Ministry::CabinetOrder)
        } else if n == 2 {
            Some(M1Ministry::ImperialHouseholdOrdinance)
        } else if n == 3 {
            Some(M1Ministry::GreaterEastAsiaMinisterialOrdinance)
        } else if n == 4 {
            Some(M1Ministry::MinistryOfTheInteriorOrdinance)
        } else if n == 5 {
            Some(M1Ministry::MinistryOfJusticeOrdinance)
        } else if n == 6 {
            Some(M1Ministry::MinistryOfForeignAffairsOrdinance)
        } else if n == 7 {
            Some(M1Ministry::MinistryOfFinanceOrdinance)
        } else if n == 8 {
            Some(M1Ministry::MinistryOfEducationOrdinance)
        } else if n == 9 {
            Some(M1Ministry::MinistryOfHealthAndWelfareOrdinance)
        } else if n == 10 {
            Some(M1Ministry::MinistryOfAgricultureAndCommerceOrdinance)
        } else if n == 11 {
            Some(M1Ministry::MinistryOfCommerceAndIndustryOrdinance)
        } else if n == 12 {
            Some(M1Ministry::RailwayMinisterialOrdinance)
        } else if n == 13 {
            Some(M1Ministry::MinistryOfCommunicationsOrdinance)
        } else if n == 14 {
            Some(M1Ministry::MinistryOfTheArmyOrdinanceA)
        } else if n == 15 {
            Some(M1Ministry::NavyMinisterialOrdinance)
        } else if n == 16 {
            Some(M1Ministry::MinistryOfTheArmyOrdinanceB)
        } else if n == 17 {
            Some(M1Ministry::MinistryOfAgricultureAndForestryOrdinance)
        } else if n == 18 {
            Some(M1Ministry::MinistryOfLandDevelopmentOrdinanceA)
        } else if n == 19 {
            Some(M1Ministry::MinistryOfLandDevelopmentOrdinanceB)
        } else if n == 20 {
            Some(M1Ministry::MinistryOfAgricultureAndCommerceOrdinanceTemporary)
        } else if n == 21 {
            Some(M1Ministry::MinistryOfJusticeOrdinanceHei)
        } else {
            None
        }
    }

    open spec fn first_day() -> Date {
        Date { year: 1869, month: 7, day: 8 }
    }

    open spec fn last_day() -> Date {
        Date { year: 1943, month: 10, day: 31 }
    }

    open spec fn rule_count() -> nat {
        21
    }

    open spec fn rule(k: int) -> (Seq<char>, Seq<char>, Self) {
        if k == 0 {
            ("閣"@, ""@, M1Ministry::CabinetOrder)
        } else if k == 1 {
            ("宮内省"@, ""@, M1Ministry::ImperialHouseholdOrdinance)
        } else if k == 2 {
            ("大東亜省"@, ""@, M1Ministry::GreaterEastAsiaMinisterialOrdinance)
        } else if k == 3 {
            ("内務省"@, ""@, M1Ministry::MinistryOfTheInteriorOrdinance)
        } else if k == 4 {
            ("司法省"@, ""@, M1Ministry::MinistryOfJusticeOrdinance)
        } else if k == 5 {
            ("外務省"@, ""@, M1Ministry::MinistryOfForeignAffairsOrdinance)
        } else if k == 6 {
            ("大蔵省"@, ""@, M1Ministry::MinistryOfFinanceOrdinance)
        } else if k == 7 {
            ("文部省"@, ""@, M1Ministry::MinistryOfEducationOrdinance)
        } else if k == 8 {
            ("厚生省"@, ""@, M1Ministry::MinistryOfHealthAndWelfareOrdinance)
        } else if k == 9 {
            ("農商務省"@, ""@, M1Ministry::MinistryOfAgricultureAndCommerceOrdinance)
        } else if k == 10 {
            ("商工省"@, ""@, M1Ministry::MinistryOfCommerceAndIndustryOrdinance)
        } else if k == 11 {
            ("鉄道省"@, ""@, M1Ministry::RailwayMinisterialOrdinance)
        } else if k == 12 {
            ("逓信省"@, ""@, M1Ministry::MinistryOfCommunicationsOrdinance)
        } else if k == 13 {
            ("陸軍省"@, "甲"@, M1Ministry::MinistryOfTheArmyOrdinanceA)
        } else if k == 14 {
            ("海軍省"@, ""@, M1Ministry::NavyMinisterialOrdinance)
        } else if k == 15 {
            ("陸軍省"@, "乙"@, M1Ministry::MinistryOfTheArmyOrdinanceB)
        } else if k == 16 {
            ("農林省"@, ""@, M1Ministry::MinistryOfAgricultureAndForestryOrdinance)
        } else if k == 17 {
            ("拓殖務省"@, ""@, M1Ministry::MinistryOfLandDevelopmentOrdinanceA)
        } else if k == 18 {
            ("拓務省"@, ""@, M1Ministry::MinistryOfLandDevelopmentOrdinanceB)
        } else if k == 19 {
            ("農商務省"@, "臨"@, M1Ministry::MinistryOfAgricultureAndCommerceOrdinanceTemporary)
        } else {
            ("司法省"@, "丙"@, M1Ministry::MinistryOfJusticeOrdinanceHei)
        }
    }

    proof fn lemma_flag(self, n: int) {
        assert(M1Ministry::of_flag(n) matches Some(x) ==> x.flag() == n);
        match self {
            M1Ministry::CabinetOrder => assert(M1Ministry::of_flag(1) == Some(M1Ministry::CabinetOrder)),
            M1Ministry::ImperialHouseholdOrdinance => assert(M1Ministry::of_flag(2) == Some(M1Ministry::ImperialHouseholdOrdinance)),
            M1Ministry::GreaterEastAsiaMinisterialOrdinance => assert(M1Ministry::of_flag(3) == Some(M1Ministry::GreaterEastAsiaMinisterialOrdinance)),
            M1Ministry::MinistryOfTheInteriorOrdinance => assert(M1Ministry::of_flag(4) == Some(M1Ministry::MinistryOfTheInteriorOrdinance)),
            M1Ministry::MinistryOfJusticeOrdinance => assert(M1Ministry::of_flag(5) == Some(M1Ministry::MinistryOfJusticeOrdinance)),
            M1Ministry::MinistryOfForeignAffairsOrdinance => assert(M1Ministry::of_flag(6) == Some(M1Ministry::MinistryOfForeignAffairsOrdinance)),
            M1Ministry::MinistryOfFinanceOrdinance => assert(M1Ministry::of_flag(7) == Some(M1Ministry::MinistryOfFinanceOrdinance)),
            M1Ministry::MinistryOfEducationOrdinance => assert(M1Ministry::of_flag(8) == Some(M1Ministry::MinistryOfEducationOrdinance)),
            M1Ministry::MinistryOfHealthAndWelfareOrdinance => assert(M1Ministry::of_flag(9) == Some(M1Ministry::MinistryOfHealthAndWelfareOrdinance)),
            M1Ministry::MinistryOfAgricultureAndCommerceOrdinance => assert(M1Ministry::of_flag(10) == Some(M1Ministry::MinistryOfAgricultureAndCommerceOrdinance)),
            M1Ministry::MinistryOfCommerceAndIndustryOrdinance => assert(M1Ministry::of_flag(11) == Some(M1Ministry::MinistryOfCommerceAndIndustryOrdinance)),
            M1Ministry::RailwayMinisterialOrdinance => assert(M1Ministry::of_flag(12) == Some(M1Ministry::RailwayMinisterialOrdinance)),
            M1Ministry::MinistryOfCommunicationsOrdinance => assert(M1Ministry::of_flag(13) == Some(M1Ministry::MinistryOfCommunicationsOrdinance)),
            M1Ministry::MinistryOfTheArmyOrdinanceA => assert(M1Ministry::of_flag(14) == Some(M1Ministry::MinistryOfTheArmyOrdinanceA)),
            M1Ministry::NavyMinisterialOrdinance => assert(M1Ministry::of_flag(15) == Some(M1Ministry::NavyMinisterialOrdinance)),
            M1Ministry::MinistryOfTheArmyOrdinanceB => assert(M1Ministry::of_flag(16) == Some(M1Ministry::MinistryOfTheArmyOrdinanceB)),
            M1Ministry::MinistryOfAgricultureAndForestryOrdinance => assert(M1Ministry::of_flag(17) == Some(M1Ministry::MinistryOfAgricultureAndForestryOrdinance)),
            M1Ministry::MinistryOfLandDevelopmentOrdinanceA => assert(M1Ministry::of_flag(18) == Some(M1Ministry::MinistryOfLandDevelopmentOrdinanceA)),
            M1Ministry::MinistryOfLandDevelopmentOrdinanceB => assert(M1Ministry::of_flag(19) == Some(M1Ministry::MinistryOfLandDevelopmentOrdinanceB)),
            M1Ministry::MinistryOfAgricultureAndCommerceOrdinanceTemporary => assert(M1Ministry::of_flag(20) == Some(M1Ministry::MinistryOfAgricultureAndCommerceOrdinanceTemporary)),
            M1Ministry::MinistryOfJusticeOrdinanceHei => assert(M1Ministry::of_flag(21) == Some(M1Ministry::MinistryOfJusticeOrdinanceHei)),
        }
    }

    fn to_int(&self) -> usize {
        match self {
            M1Ministry::CabinetOrder => 1,
            M1Ministry::ImperialHouseholdOrdinance => 2,
            M1Ministry::GreaterEastAsiaMinisterialOrdinance => 3,
            M1Ministry::MinistryOfTheInteriorOrdinance => 4,
            M1Ministry::MinistryOfJusticeOrdinance => 5,
            M1Ministry::MinistryOfForeignAffairsOrdinance => 6,
            M1Ministry::MinistryOfFinanceOrdinance => 7,
            M1Ministry::MinistryOfEducationOrdinance => 8,
            M1Ministry::MinistryOfHealthAndWelfareOrdinance => 9,
            M1Ministry::MinistryOfAgricultureAndCommerceOrdinance => 10,
            M1Ministry::MinistryOfCommerceAndIndustryOrdinance => 11,
            M1Ministry::RailwayMinisterialOrdinance => 12,
            M1Ministry::MinistryOfCommunicationsOrdinance => 13,
            M1Ministry::MinistryOfTheArmyOrdinanceA => 14,
            M1Ministry::NavyMinisterialOrdinance => 15,
            M1Ministry::MinistryOfTheArmyOrdinanceB => 16,
            M1Ministry::MinistryOfAgricultureAndForestryOrdinance => 17,
            M1Ministry::MinistryOfLandDevelopmentOrdinanceA => 18,
            M1Ministry::MinistryOfLandDevelopmentOrdinanceB => 19,
            M1Ministry::MinistryOfAgricultureAndCommerceOrdinanceTemporary => 20,
            M1Ministry::MinistryOfJusticeOrdinanceHei => 21,
        }
    }

    fn from_int(n: usize) -> Option<Self> {
        match n {
            1 => Some(M1Ministry::CabinetOrder),
            2 => Some(M1Ministry::ImperialHouseholdOrdinance),
            3 => Some(M1Ministry::GreaterEastAsiaMinisterialOrdinance),
            4 => Some(M1Ministry::MinistryOfTheInteriorOrdinance),
            5 => Some(M1Ministry::MinistryOfJusticeOrdinance),
            6 => Some(M1Ministry::MinistryOfForeignAffairsOrdinance),
            7 => Some(M1Ministry::MinistryOfFinanceOrdinance),
            8 => Some(M1Ministry::MinistryOfEducationOrdinance),
            9 => Some(M1Ministry::MinistryOfHealthAndWelfareOrdinance),
            10 => Some(M1Ministry::MinistryOfAgricultureAndCommerceOrdinance),
            11 => Some(M1Ministry::MinistryOfCommerceAndIndustryOrdinance),
            12 => Some(M1Ministry::RailwayMinisterialOrdinance),
            13 => Some(M1Ministry::MinistryOfCommunicationsOrdinance),
            14 => Some(M1Ministry::MinistryOfTheArmyOrdinanceA),
            15 => Some(M1Ministry::NavyMinisterialOrdinance),
            16 => Some(M1Ministry::MinistryOfTheArmyOrdinanceB),
            17 => Some(M1Ministry::MinistryOfAgricultureAndForestryOrdinance),
            18 => Some(M1Ministry::MinistryOfLandDevelopmentOrdinanceA),
            19 => Some(M1Ministry::MinistryOfLandDevelopmentOrdinanceB),
            20 => Some(M1Ministry::MinistryOfAgricultureAndCommerceOrdinanceTemporary),
            21 => Some(M1Ministry::MinistryOfJusticeOrdinanceHei),
            _ => None,
        }
    }

    fn start() -> Date {
        Date::new_ad(1869, 7, 8)
    }

    fn end() -> Date {
        Date::new_ad(1943, 10, 31)
    }

    fn rules() -> usize {
        21
    }

    fn name_rule(k: usize) -> (&'static str, &'static str, Self) {
        match k {
            0 => ("閣", "", M1Ministry::CabinetOrder),
            1 => ("宮内省", "", M1Ministry::ImperialHouseholdOrdinance),
            2 => ("大東亜省", "", M1Ministry::GreaterEastAsiaMinisterialOrdinance),
            3 => ("内務省", "", M1Ministry::MinistryOfTheInteriorOrdinance),
            4 => ("司法省", "", M1Ministry::MinistryOfJusticeOrdinance),
            5 => ("外務省", "", M1Ministry::MinistryOfForeignAffairsOrdinance),
            6 => ("大蔵省", "", M1Ministry::MinistryOfFinanceOrdinance),
            7 => ("文部省", "", M1Ministry::MinistryOfEducationOrdinance),
            8 => ("厚生省", "", M1Ministry::MinistryOfHealthAndWelfareOrdinance),
            9 => ("農商務省", "", M1Ministry::MinistryOfAgricultureAndCommerceOrdinance),
            10 => ("商工省", "", M1Ministry::MinistryOfCommerceAndIndustryOrdinance),
            11 => ("鉄道省", "", M1Ministry::RailwayMinisterialOrdinance),
            12 => ("逓信省", "", M1Ministry::MinistryOfCommunicationsOrdinance),
            13 => ("陸軍省", "甲", M1Ministry::MinistryOfTheArmyOrdinanceA),
            14 => ("海軍省", "", M1Ministry::NavyMinisterialOrdinance),
            15 => ("陸軍省", "乙", M1Ministry::MinistryOfTheArmyOrdinanceB),
            16 => ("農林省", "", M1Ministry::MinistryOfAgricultureAndForestryOrdinance),
            17 => ("拓殖務省", "", M1Ministry::MinistryOfLandDevelopmentOrdinanceA),
            18 => ("拓務省", "", M1Ministry::MinistryOfLandDevelopmentOrdinanceB),
            19 => ("農商務省", "臨", M1Ministry::MinistryOfAgricultureAndCommerceOrdinanceTemporary),
            _ => ("司法省", "丙", M1Ministry::MinistryOfJusticeOrdinanceHei),
        }
    }

}

/// M2時（1943年11月1日〜1945年11月31日）での府・省
#[derive(Debug, Clone, Copy, PartialEq, Eq, Hash, Structural)]
pub enum M2Ministry {
    /// 閣令
    CabinetOrder,
    /// 宮内省令
    ImperialHouseholdOrdinance,
    /// 大東亜省令
    GreaterEastAsiaMinisterialOrdinance,
    /// 内務省令
    MinistryOfTheInteriorOrdinance,
    /// 司法省令
    MinistryOfJusticeOrdinance,
    /// 外務省令
    MinistryOfForeignAffairsOrdinance,
    /// 大蔵省令
    MinistryOfFinanceOrdinance,
    /// 文部省令
    MinistryOfEducationOrdinance,
    /// 厚生省令
    MinistryOfHealthAndWelfareOrdinance,
    /// 農商務省令
    MinistryOfAgricultureAndCommerceOrdinance,
    /// 商工省令
    MinistryOfCommerceAndIndustryOrdinance,
    /// 運輸省令
    MinistryOfTransportOrdinance,
    /// 運輸通信省令
    MinistryOfTransportAndCommunicationsOrdinance,
    /// 陸軍省令（甲）
    MinistryOfTheArmyOrdinanceA,
    ///海軍省令
    NavyMinisterialOrdinance,
    /// 軍需省令
    OrdinanceOfTheMinistryOfMunitions,
    /// 農林省令
    MinistryOfAgricultureAndForestryOrdinance,
}

impl MinistryContents for M2Ministry {
    open spec fn flag(self) -> int {
        match self {
            M2Ministry::CabinetOrder => 1,
            M2Ministry::ImperialHouseholdOrdinance => 2,
            M2Ministry::GreaterEastAsiaMinisterialOrdinance => 3,
            M2Ministry::MinistryOfTheInteriorOrdinance => 4,
            M2Ministry::MinistryOfJusticeOrdinance => 5,
            M2Ministry::MinistryOfForeignAffairsOrdinance => 6,
            M2Ministry::MinistryOfFinanceOrdinance => 7,
            M2Ministry::MinistryOfEducationOrdinance => 8,
            M2Ministry::MinistryOfHealthAndWelfareOrdinance => 9,
            M2Ministry::MinistryOfAgricultureAndCommerceOrdinance => 10,
            M2Ministry::MinistryOfCommerceAndIndustryOrdinance => 11,
            M2Ministry::MinistryOfTransportOrdinance => 12,
            M2Ministry::MinistryOfTransportAndCommunicationsOrdinance => 13,
            M2Ministry::MinistryOfTheArmyOrdinanceA => 14,
            M2Ministry::NavyMinisterialOrdinance => 15,
            M2Ministry::OrdinanceOfTheMinistryOfMunitions => 16,
            M2Ministry::MinistryOfAgricultureAndForestryOrdinance => 17,
        }
    }

    open spec fn of_flag(n: int) -> Option<Self> {
        if n == 1 {
            Some(M2Ministry::CabinetOrder)
        } else if n == 2 {
            Some(M2Ministry::ImperialHouseholdOrdinance)
        } else if n == 3 {
            Some(M2Ministry::GreaterEastAsiaMinisterialOrdinance)
        } else if n == 4 {
            Some(M2Ministry::MinistryOfTheInteriorOrdinance)
        } else if n == 5 {
            Some(M2Ministry::MinistryOfJusticeOrdinance)
        } else if n == 6 {
            Some(M2Ministry::MinistryOfForeignAffairsOrdinance)
        } else if n == 7 {
            Some(M2Ministry::MinistryOfFinanceOrdinance)
        } else if n == 8 {
            Some(M2Ministry::MinistryOfEducationOrdinance)
        } else if n == 9 {
            Some(M2Ministry::MinistryOfHealthAndWelfareOrdinance)
        } else if n == 10 {
            Some(M2Ministry::MinistryOfAgricultureAndCommerceOrdinance)
        } else if n == 11 {
            Some(M2Ministry::MinistryOfCommerceAndIndustryOrdinance)
        } else if n == 12 {
            Some(M2Ministry::MinistryOfTransportOrdinance)
        } else if n == 13 {
            Some(M2Ministry::MinistryOfTransportAndCommunicationsOrdinance)
        } else if n == 14 {
            Some(M2Ministry::MinistryOfTheArmyOrdinanceA)
        } else if n == 15 {
            Some(M2Ministry::NavyMinisterialOrdinance)
        } else if n == 16 {
            Some(M2Ministry::OrdinanceOfTheMinistryOfMunitions)
        } else if n == 17 {
            Some(M2Ministry::MinistryOfAgricultureAndForestryOrdinance)
        } else {
            None
        }
    }

    open spec fn first_day() -> Date {
        Date { year: 1943, month: 11, day: 1 }
    }

    open spec fn last_day() -> Date {
        Date { year: 1945, month: 11, day: 30 }
    }

    open spec fn rule_count() -> nat {
        17
    }

    open spec fn rule(k: int) -> (Seq<char>, Seq<char>, Self) {
        if k == 0 {
            ("閣"@, ""@, M2Ministry::CabinetOrder)
        } else if k == 1 {
            ("宮内省"@, ""@, M2Ministry::ImperialHouseholdOrdinance)
        } else if k == 2 {
            ("大東亜省"@, ""@, M2Ministry::GreaterEastAsiaMinisterialOrdinance)
        } else if k == 3 {
            ("内務省"@, ""@, M2Ministry::MinistryOfTheInteriorOrdinance)
        } else if k == 4 {
            ("司法省"@, ""@, M2Ministry::MinistryOfJusticeOrdinance)
        } else if k == 5 {
            ("外務省"@, ""@, M2Ministry::MinistryOfForeignAffairsOrdinance)
        } else if k == 6 {
            ("大蔵省"@, ""@, M2Ministry::MinistryOfFinanceOrdinance)
        } else if k == 7 {
            ("文部省"@, ""@, M2Ministry::MinistryOfEducationOrdinance)
        } else if k == 8 {
            ("厚生省"@, ""@, M2Ministry::MinistryOfHealthAndWelfareOrdinance)
        } else if k == 9 {
            ("農商務省"@, ""@, M2Ministry::MinistryOfAgricultureAndCommerceOrdinance)
        } else if k == 10 {
            ("商工省"@, ""@, M2Ministry::MinistryOfCommerceAndIndustryOrdinance)
        } else if k == 11 {
            ("運輸省"@, ""@, M2Ministry::MinistryOfTransportOrdinance)
        } else if k == 12 {
            ("運輸通信省"@, ""@, M2Ministry::MinistryOfTransportAndCommunicationsOrdinance)
        } else if k == 13 {
            ("陸軍省"@, "甲"@, M2Ministry::MinistryOfTheArmyOrdinanceA)
        } else if k == 14 {
            ("海軍省"@, ""@, M2Ministry::NavyMinisterialOrdinance)
        } else if k == 15 {
            ("軍需省"@, ""@, M2Ministry::OrdinanceOfTheMinistryOfMunitions)
        } else {
            ("農林省"@, ""@, M2Ministry::MinistryOfAgricultureAndForestryOrdinance)
        }
    }

    proof fn lemma_flag(self, n: int) {
        assert(M2Ministry::of_flag(n) matches Some(x) ==> x.flag() == n);
        match self {
            M2Ministry::CabinetOrder => assert(M2Ministry::of_flag(1) == Some(M2Ministry::CabinetOrder)),
            M2Ministry::ImperialHouseholdOrdinance => assert(M2Ministry::of_flag(2) == Some(M2Ministry::ImperialHouseholdOrdinance)),
            M2Ministry::GreaterEastAsiaMinisterialOrdinance => assert(M2Ministry::of_flag(3) == Some(M2Ministry::GreaterEastAsiaMinisterialOrdinance)),
            M2Ministry::MinistryOfTheInteriorOrdinance => assert(M2Ministry::of_flag(4) == Some(M2Ministry::MinistryOfTheInteriorOrdinance)),
            M2Ministry::MinistryOfJusticeOrdinance => assert(M2Ministry::of_flag(5) == Some(M2Ministry::MinistryOfJusticeOrdinance)),
            M2Ministry::MinistryOfForeignAffairsOrdinance => assert(M2Ministry::of_flag(6) == Some(M2Ministry::MinistryOfForeignAffairsOrdinance)),
            M2Ministry::MinistryOfFinanceOrdinance => assert(M2Ministry::of_flag(7) == Some(M2Ministry::MinistryOfFinanceOrdinance)),
            M2Ministry::MinistryOfEducationOrdinance => assert(M2Ministry::of_flag(8) == Some(M2Ministry::MinistryOfEducationOrdinance)),
            M2Ministry::MinistryOfHealthAndWelfareOrdinance => assert(M2Ministry::of_flag(9) == Some(M2Ministry::MinistryOfHealthAndWelfareOrdinance)),
            M2Ministry::MinistryOfAgricultureAndCommerceOrdinance => assert(M2Ministry::of_flag(10) == Some(M2Ministry::MinistryOfAgricultureAndCommerceOrdinance)),
            M2Ministry::MinistryOfCommerceAndIndustryOrdinance => assert(M2Ministry::of_flag(11) == Some(M2Ministry::MinistryOfCommerceAndIndustryOrdinance)),
            M2Ministry::MinistryOfTransportOrdinance => assert(M2Ministry::of_flag(12) == Some(M2Ministry::MinistryOfTransportOrdinance)),
            M2Ministry::MinistryOfTransportAndCommunicationsOrdinance => assert(M2Ministry::of_flag(13) == Some(M2Ministry::MinistryOfTransportAndCommunicationsOrdinance)),
            M2Ministry::MinistryOfTheArmyOrdinanceA => assert(M2Ministry::of_flag(14) == Some(M2Ministry::MinistryOfTheArmyOrdinanceA)),
            M2Ministry::NavyMinisterialOrdinance => assert(M2Ministry::of_flag(15) == Some(M2Ministry::NavyMinisterialOrdinance)),
            M2Ministry::OrdinanceOfTheMinistryOfMunitions => assert(M2Ministry::of_flag(16) == Some(M2Ministry::OrdinanceOfTheMinistryOfMunitions)),
            M2Ministry::MinistryOfAgricultureAndForestryOrdinance => assert(M2Ministry::of_flag(17) == Some(M2Ministry::MinistryOfAgricultureAndForestryOrdinance)),
        }
    }

    fn to_int(&self) -> usize {
        match self {
            M2Ministry::CabinetOrder => 1,
            M2Ministry::ImperialHouseholdOrdinance => 2,
            M2Ministry::GreaterEastAsiaMinisterialOrdinance => 3,
            M2Ministry::MinistryOfTheInteriorOrdinance => 4,
            M2Ministry::MinistryOfJusticeOrdinance => 5,
            M2Ministry::MinistryOfForeignAffairsOrdinance => 6,
            M2Ministry::MinistryOfFinanceOrdinance => 7,
            M2Ministry::MinistryOfEducationOrdinance => 8,
            M2Ministry::MinistryOfHealthAndWelfareOrdinance => 9,
            M2Ministry::MinistryOfAgricultureAndCommerceOrdinance => 10,
            M2Ministry::MinistryOfCommerceAndIndustryOrdinance => 11,
            M2Ministry::MinistryOfTransportOrdinance => 12,
            M2Ministry::MinistryOfTransportAndCommunicationsOrdinance => 13,
            M2Ministry::MinistryOfTheArmyOrdinanceA => 14,
            M2Ministry::NavyMinisterialOrdinance => 15,
            M2Ministry::OrdinanceOfTheMinistryOfMunitions => 16,
            M2Ministry::MinistryOfAgricultureAndForestryOrdinance => 17,
        }
    }

    fn from_int(n: usize) -> Option<Self> {
        match n {
            1 => Some(M2Ministry::CabinetOrder),
            2 => Some(M2Ministry::ImperialHouseholdOrdinance),
            3 => Some(M2Ministry::GreaterEastAsiaMinisterialOrdinance),
            4 => Some(M2Ministry::MinistryOfTheInteriorOrdinance),
            5 => Some(M2Ministry::MinistryOfJusticeOrdinance),
            6 => Some(M2Ministry::MinistryOfForeignAffairsOrdinance),
            7 => Some(M2Ministry::MinistryOfFinanceOrdinance),
            8 => Some(M2Ministry::MinistryOfEducationOrdinance),
            9 => Some(M2Ministry::MinistryOfHealthAndWelfareOrdinance),
            10 => Some(M2Ministry::MinistryOfAgricultureAndCommerceOrdinance),
            11 => Some(M2Ministry::MinistryOfCommerceAndIndustryOrdinance),
            12 => Some(M2Ministry::MinistryOfTransportOrdinance),
            13 => Some(M2Ministry::MinistryOfTransportAndCommunicationsOrdinance),
            14 => Some(M2Ministry::MinistryOfTheArmyOrdinanceA),
            15 => Some(M2Ministry::NavyMinisterialOrdinance),
            16 => Some(M2Ministry::OrdinanceOfTheMinistryOfMunitions),
            17 => Some(M2Ministry::MinistryOfAgricultureAndForestryOrdinance),
            _ => None,
        }
    }

    fn start() -> Date {
        Date::new_ad(1943, 11, 1)
    }

    fn end() -> Date {
        Date::new_ad(1945, 11, 30)
    }

    fn rules() -> usize {
        17
    }

    fn name_rule(k: usize) -> (&'static str, &'static str, Self) {
        match k {
            0 => ("閣", "", M2Ministry::CabinetOrder),
            1 => ("宮内省", "", M2Ministry::ImperialHouseholdOrdinance),
            2 => ("大東亜省", "", M2Ministry::GreaterEastAsiaMinisterialOrdinance),
            3 => ("内務省", "", M2Ministry::MinistryOfTheInteriorOrdinance),
            4 => ("司法省", "", M2Ministry::MinistryOfJusticeOrdinance),
            5 => ("外務省", "", M2Ministry::MinistryOfForeignAffairsOrdinance),
            6 => ("大蔵省", "", M2Ministry::MinistryOfFinanceOrdinance),
            7 => ("文部省", "", M2Ministry::MinistryOfEducationOrdinance),
            8 => ("厚生省", "", M2Ministry::MinistryOfHealthAndWelfareOrdinance),
            9 => ("農商務省", "", M2Ministry::MinistryOfAgricultureAndCommerceOrdinance),
            10 => ("商工省", "", M2Ministry::MinistryOfCommerceAndIndustryOrdinance),
            11 => ("運輸省", "", M2Ministry::MinistryOfTransportOrdinance),
            12 => ("運輸通信省", "", M2Ministry::MinistryOfTransportAndCommunicationsOrdinance),
            13 => ("陸軍省", "甲", M2Ministry::MinistryOfTheArmyOrdinanceA),
            14 => ("海軍省", "", M2Ministry::NavyMinisterialOrdinance),
            15 => ("軍需省", "", M2Ministry::OrdinanceOfTheMinistryOfMunitions),
            _ => ("農林省", "", M2Ministry::MinistryOfAgricultureAndForestryOrdinance),
        }
    }

}

/// M3時（1945年12月1日〜1947年5月2日）での府・省
#[derive(Debug, Clone, Copy, PartialEq, Eq, Hash, Structural)]
pub enum M3Ministry {
    /// 閣令
    CabinetOrder,
    /// 宮内省令
    ImperialHouseholdOrdinance,
    /// 経済安定本部令
    EconomicStabilityHeadquartersOrdinance,
    /// 内務省令
    MinistryOfTheInteriorOrdinance,
    /// 司法省令
    MinistryOfJusticeOrdinance,
    /// 外務省令
    MinistryOfForeignAffairsOrdinance,
    /// 大蔵省令
    MinistryOfFinanceOrdinance,
    /// 文部省令
    MinistryOfEducationOrdinance,
    /// 厚生省令
    MinistryOfHealthAndWelfareOrdinance,
    /// 農林省令
    MinistryOfAgricultureAndForestryOrdinance,
    /// 商工省令
    MinistryOfCommerceAndIndustryOrdinance,
    /// 運輸省令
    MinistryOfTransportOrdinance,
    /// 逓信省令
    MinistryOfCommunicationsOrdinance,
    /// 第一復員省令
    FirstMinisterialOrdinanceForDemobilization,
    /// 第二復員省令
    SecondMinisterialOrdinanceForDemobilization,
    /// 物価庁令
    PriceAgencyOrdinance,
    /// 中央労働委員会規則
    CentralLaborRelationsCommissionRules,
}

impl MinistryContents for M3Ministry {
    open spec fn flag(self) -> int {
        match self {
            M3Ministry::CabinetOrder => 1,
            M3Ministry::ImperialHouseholdOrdinance => 2,
            M3Ministry::EconomicStabilityHeadquartersOrdinance => 3,
            M3Ministry::MinistryOfTheInteriorOrdinance => 4,
            M3Ministry::MinistryOfJusticeOrdinance => 5,
            M3Ministry::MinistryOfForeignAffairsOrdinance => 6,
            M3Ministry::MinistryOfFinanceOrdinance => 7,
            M3Ministry::MinistryOfEducationOrdinance => 8,
            M3Ministry::MinistryOfHealthAndWelfareOrdinance => 9,
            M3Ministry::MinistryOfAgricultureAndForestryOrdinance => 10,
            M3Ministry::MinistryOfCommerceAndIndustryOrdinance => 11,
            M3Ministry::MinistryOfTransportOrdinance => 12,
            M3Ministry::MinistryOfCommunicationsOrdinance => 13,
            M3Ministry::FirstMinisterialOrdinanceForDemobilization => 14,
            M3Ministry::SecondMinisterialOrdinanceForDemobilization => 15,
            M3Ministry::PriceAgencyOrdinance => 16,
            M3Ministry::CentralLaborRelationsCommissionRules => 21,
        }
    }

    open spec fn of_flag(n: int) -> Option<Self> {
        if n == 1 {
            Some(M3Ministry::CabinetOrder)
        } else if n == 2 {
            Some(M3Ministry::ImperialHouseholdOrdinance)
        } else if n == 3 {
            Some(M3Ministry::EconomicStabilityHeadquartersOrdinance)
        } else if n == 4 {
            Some(M3Ministry::MinistryOfTheInteriorOrdinance)
        } else if n == 5 {
            Some(M3Ministry::MinistryOfJusticeOrdinance)
        } else if n == 6 {
            Some(M3Ministry::MinistryOfForeignAffairsOrdinance)
        } else if n == 7 {
            Some(M3Ministry::MinistryOfFinanceOrdinance)
        } else if n == 8 {
            Some(M3Ministry::MinistryOfEducationOrdinance)
        } else if n == 9 {
            Some(M3Ministry::MinistryOfHealthAndWelfareOrdinance)
        } else if n == 10 {
            Some(M3Ministry::MinistryOfAgricultureAndForestryOrdinance)
        } else if n == 11 {
            Some(M3Ministry::MinistryOfCommerceAndIndustryOrdinance)
        } else if n == 12 {
            Some(M3Ministry::MinistryOfTransportOrdinance)
        } else if n == 13 {
            Some(M3Ministry::MinistryOfCommunicationsOrdinance)
        } else if n == 14 {
            Some(M3Ministry::FirstMinisterialOrdinanceForDemobilization)
        } else if n == 15 {
            Some(M3Ministry::SecondMinisterialOrdinanceForDemobilization)
        } else if n == 16 {
            Some(M3Ministry::PriceAgencyOrdinance)
        } else if n == 21 {
            Some(M3Ministry::CentralLaborRelationsCommissionRules)
        } else {
            None
        }
    }

    open spec fn first_day() -> Date {
        Date { year: 1945, month: 12, day: 1 }
    }

    open spec fn last_day() -> Date {
        Date { year: 1947, month: 5, day: 2 }
    }

    open spec fn rule_count() -> nat {
        17
    }

    open spec fn rule(k: int) -> (Seq<char>, Seq<char>, Self) {
        if k == 0 {
            ("閣"@, ""@, M3Ministry::CabinetOrder)
        } else if k == 1 {
            ("宮内省"@, ""@, M3Ministry::ImperialHouseholdOrdinance)
        } else if k == 2 {
            ("経済安定本部"@, ""@, M3Ministry::EconomicStabilityHeadquartersOrdinance)
        } else if k == 3 {
            ("内務省"@, ""@, M3Ministry::MinistryOfTheInteriorOrdinance)
        } else if k == 4 {
            ("司法省"@, ""@, M3Ministry::MinistryOfJusticeOrdinance)
        } else if k == 5 {
            ("外務省"@, ""@, M3Ministry::MinistryOfForeignAffairsOrdinance)
        } else if k == 6 {
            ("大蔵省"@, ""@, M3Ministry::MinistryOfFinanceOrdinance)
        } else if k == 7 {
            ("文部省"@, ""@, M3Ministry::MinistryOfEducationOrdinance)
        } else if k == 8 {
            ("厚生省"@, ""@, M3Ministry::MinistryOfHealthAndWelfareOrdinance)
        } else if k == 9 {
            ("農林省"@, ""@, M3Ministry::MinistryOfAgricultureAndForestryOrdinance)
        } else if k == 10 {
            ("商工省"@, ""@, M3Ministry::MinistryOfCommerceAndIndustryOrdinance)
        } else if k == 11 {
            ("運輸省"@, ""@, M3Ministry::MinistryOfTransportOrdinance)
        } else if k == 12 {
            ("逓信省"@, ""@, M3Ministry::MinistryOfCommunicationsOrdinance)
        } else if k == 13 {
            ("第一復員省"@, ""@, M3Ministry::FirstMinisterialOrdinanceForDemobilization)
        } else if k == 14 {
            ("第二復員省"@, ""@, M3Ministry::SecondMinisterialOrdinanceForDemobilization)
        } else if k == 15 {
            ("物価庁"@, ""@, M3Ministry::PriceAgencyOrdinance)
        } else {
            ("中央労働委員会"@, ""@, M3Ministry::CentralLaborRelationsCommissionRules)
        }
    }

    proof fn lemma_flag(self, n: int) {
        assert(M3Ministry::of_flag(n) matches Some(x) ==> x.flag() == n);
        match self {
            M3Ministry::CabinetOrder => assert(M3Ministry::of_flag(1) == Some(M3Ministry::CabinetOrder)),
            M3Ministry::ImperialHouseholdOrdinance => assert(M3Ministry::of_flag(2) == Some(M3Ministry::ImperialHouseholdOrdinance)),
            M3Ministry::EconomicStabilityHeadquartersOrdinance => assert(M3Ministry::of_flag(3) == Some(M3Ministry::EconomicStabilityHeadquartersOrdinance)),
            M3Ministry::MinistryOfTheInteriorOrdinance => assert(M3Ministry::of_flag(4) == Some(M3Ministry::MinistryOfTheInteriorOrdinance)),
            M3Ministry::MinistryOfJusticeOrdinance => assert(M3Ministry::of_flag(5) == Some(M3Ministry::MinistryOfJusticeOrdinance)),
            M3Ministry::MinistryOfForeignAffairsOrdinance => assert(M3Ministry::of_flag(6) == Some(M3Ministry::MinistryOfForeignAffairsOrdinance)),
            M3Ministry::MinistryOfFinanceOrdinance => assert(M3Ministry::of_flag(7) == Some(M3Ministry::MinistryOfFinanceOrdinance)),
            M3Ministry::MinistryOfEducationOrdinance => assert(M3Ministry::of_flag(8) == Some(M3Ministry::MinistryOfEducationOrdinance)),
            M3Ministry::MinistryOfHealthAndWelfareOrdinance => assert(M3Ministry::of_flag(9) == Some(M3Ministry::MinistryOfHealthAndWelfareOrdinance)),
            M3Ministry::MinistryOfAgricultureAndForestryOrdinance => assert(M3Ministry::of_flag(10) == Some(M3Ministry::MinistryOfAgricultureAndForestryOrdinance)),
            M3Ministry::MinistryOfCommerceAndIndustryOrdinance => assert(M3Ministry::of_flag(11) == Some(M3Ministry::MinistryOfCommerceAndIndustryOrdinance)),
            M3Ministry::MinistryOfTransportOrdinance => assert(M3Ministry::of_flag(12) == Some(M3Ministry::MinistryOfTransportOrdinance)),
            M3Ministry::MinistryOfCommunicationsOrdinance => assert(M3Ministry::of_flag(13) == Some(M3Ministry::MinistryOfCommunicationsOrdinance)),
            M3Ministry::FirstMinisterialOrdinanceForDemobilization => assert(M3Ministry::of_flag(14) == Some(M3Ministry::FirstMinisterialOrdinanceForDemobilization)),
            M3Ministry::SecondMinisterialOrdinanceForDemobilization => assert(M3Ministry::of_flag(15) == Some(M3Ministry::SecondMinisterialOrdinanceForDemobilization)),
            M3Ministry::PriceAgencyOrdinance => assert(M3Ministry::of_flag(16) == Some(M3Ministry::PriceAgencyOrdinance)),
            M3Ministry::CentralLaborRelationsCommissionRules => assert(M3Ministry::of_flag(21) == Some(M3Ministry::CentralLaborRelationsCommissionRules)),
        }
    }

    fn to_int(&self) -> usize {
        match self {
            M3Ministry::CabinetOrder => 1,
            M3Ministry::ImperialHouseholdOrdinance => 2,
            M3Ministry::EconomicStabilityHeadquartersOrdinance => 3,
            M3Ministry::MinistryOfTheInteriorOrdinance => 4,
            M3Ministry::MinistryOfJusticeOrdinance => 5,
            M3Ministry::MinistryOfForeignAffairsOrdinance => 6,
            M3Ministry::MinistryOfFinanceOrdinance => 7,
            M3Ministry::MinistryOfEducationOrdinance => 8,
            M3Ministry::MinistryOfHealthAndWelfareOrdinance => 9,
            M3Ministry::MinistryOfAgricultureAndForestryOrdinance => 10,
            M3Ministry::MinistryOfCommerceAndIndustryOrdinance => 11,
            M3Ministry::MinistryOfTransportOrdinance => 12,
            M3Ministry::MinistryOfCommunicationsOrdinance => 13,
            M3Ministry::FirstMinisterialOrdinanceForDemobilization => 14,
            M3Ministry::SecondMinisterialOrdinanceForDemobilization => 15,
            M3Ministry::PriceAgencyOrdinance => 16,
            M3Ministry::CentralLaborRelationsCommissionRules => 21,
        }
    }

    fn from_int(n: usize) -> Option<Self> {
        match n {
            1 => Some(M3Ministry::CabinetOrder),
            2 => Some(M3Ministry::ImperialHouseholdOrdinance),
            3 => Some(M3Ministry::EconomicStabilityHeadquartersOrdinance),
            4 => Some(M3Ministry::MinistryOfTheInteriorOrdinance),
            5 => Some(M3Ministry::MinistryOfJusticeOrdinance),
            6 => Some(M3Ministry::MinistryOfForeignAffairsOrdinance),
            7 => Some(M3Ministry::MinistryOfFinanceOrdinance),
            8 => Some(M3Ministry::MinistryOfEducationOrdinance),
            9 => Some(M3Ministry::MinistryOfHealthAndWelfareOrdinance),
            10 => Some(M3Ministry::MinistryOfAgricultureAndForestryOrdinance),
            11 => Some(M3Ministry::MinistryOfCommerceAndIndustryOrdinance),
            12 => Some(M3Ministry::MinistryOfTransportOrdinance),
            13 => Some(M3Ministry::MinistryOfCommunicationsOrdinance),
            14 => Some(M3Ministry::FirstMinisterialOrdinanceForDemobilization),
            15 => Some(M3Ministry::SecondMinisterialOrdinanceForDemobilization),
            16 => Some(M3Ministry::PriceAgencyOrdinance),
            21 => Some(M3Ministry::CentralLaborRelationsCommissionRules),
            _ => None,
        }
    }

    fn start() -> Date {
        Date::new_ad(1945, 12, 1)
    }

    fn end() -> Date {
        Date::new_ad(1947, 5, 2)
    }

    fn rules() -> usize {
        17
    }

    fn name_rule(k: usize) -> (&'static str, &'static str, Self) {
        match k {
            0 => ("閣", "", M3Ministry::CabinetOrder),
            1 => ("宮内省", "", M3Ministry::ImperialHouseholdOrdinance),
            2 => ("経済安定本部", "", M3Ministry::EconomicStabilityHeadquartersOrdinance),
            3 => ("内務省", "", M3Ministry::MinistryOfTheInteriorOrdinance),
            4 => ("司法省", "", M3Ministry::MinistryOfJusticeOrdinance),
            5 => ("外務省", "", M3Ministry::MinistryOfForeignAffairsOrdinance),
            6 => ("大蔵省", "", M3Ministry::MinistryOfFinanceOrdinance),
            7 => ("文部省", "", M3Ministry::MinistryOfEducationOrdinance),
            8 => ("厚生省", "", M3Ministry::MinistryOfHealthAndWelfareOrdinance),
            9 => ("農林省", "", M3Ministry::MinistryOfAgricultureAndForestryOrdinance),
            10 => ("商工省", "", M3Ministry::MinistryOfCommerceAndIndustryOrdinance),
            11 => ("運輸省", "", M3Ministry::MinistryOfTransportOrdinance),
            12 => ("逓信省", "", M3Ministry::MinistryOfCommunicationsOrdinance),
            13 => ("第一復員省", "", M3Ministry::FirstMinisterialOrdinanceForDemobilization),
            14 => ("第二復員省", "", M3Ministry::SecondMinisterialOrdinanceForDemobilization),
            15 => ("物価庁", "", M3Ministry::PriceAgencyOrdinance),
            _ => ("中央労働委員会", "", M3Ministry::CentralLaborRelationsCommissionRules),
        }
    }

}

/// M4時（1947年5月3日〜1949年5月31日）での府・省
#[derive(Debug, Clone, Copy, PartialEq, Eq, Hash, Structural)]
pub enum M4Ministry {
    /// 法務庁令
    LegalAffairsAgencyOrdinance,
    /// 総理庁令
    PrimeMinistersOfficeOrdinance,
    /// 経済安定本部令
    EconomicStabilityHeadquartersOrdinance,
    /// 内務省令
    MinistryOfTheInteriorOrdinance,
    /// 司法省令
    MinistryOfJusticeOrdinance,
    /// 外務省令
    MinistryOfForeignAffairsOrdinance,
    /// 大蔵省令
    MinistryOfFinanceOrdinance,
    /// 文部省令
    MinistryOfEducationOrdinance,
    /// 厚生省令
    MinistryOfHealthAndWelfareOrdinance,
    /// 農林省令
    MinistryOfAgricultureAndForestryOrdinance,
    /// 通商産業省令
    MinistryOfInternationalTradeAndIndustryOrdinance,
    /// 運輸省令
    MinistryOfTransportOrdinance,
    /// 逓信省令
    MinistryOfCommunicationsOrdinance,
    /// 労働省令
    MinistryOfLaborOrdinance,
    /// 建設省令
    MinistryOfConstructionOrdinance,
    /// 物価庁令
    PriceAgencyOrdinance,
    /// 商工省令
    MinistryOfCommerceAndIndustryOrdinance,
    /// 中央労働委員会規則
    CentralLaborRelationsCommissionRules,
    /// 公正取引委員会規則
    FairTradeCommissionRules,
    /// 国家公安委員会規則
    NationalPublicSafetyCommissionRegulations,
}

impl MinistryContents for M4Ministry {
    open spec fn flag(self) -> int {
        match self {
            M4Ministry::LegalAffairsAgencyOrdinance => 1,
            M4Ministry::PrimeMinistersOfficeOrdinance => 2,
            M4Ministry::EconomicStabilityHeadquartersOrdinance => 3,
            M4Ministry::MinistryOfTheInteriorOrdinance => 4,
            M4Ministry::MinistryOfJusticeOrdinance => 5,
            M4Ministry::MinistryOfForeignAffairsOrdinance => 6,
            M4Ministry::MinistryOfFinanceOrdinance => 7,
            M4Ministry::MinistryOfEducationOrdinance => 8,
            M4Ministry::MinistryOfHealthAndWelfareOrdinance => 9,
            M4Ministry::MinistryOfAgricultureAndForestryOrdinance => 10,
            M4Ministry::MinistryOfInternationalTradeAndIndustryOrdinance => 11,
            M4Ministry::MinistryOfTransportOrdinance => 12,
            M4Ministry::MinistryOfCommunicationsOrdinance => 13,
            M4Ministry::MinistryOfLaborOrdinance => 14,
            M4Ministry::MinistryOfConstructionOrdinance => 15,
            M4Ministry::PriceAgencyOrdinance => 16,
            M4Ministry::MinistryOfCommerceAndIndustryOrdinance => 17,
            M4Ministry::CentralLaborRelationsCommissionRules => 21,
            M4Ministry::FairTradeCommissionRules => 22,
            M4Ministry::NationalPublicSafetyCommissionRegulations => 23,
        }
    }

    open spec fn of_flag(n: int) -> Option<Self> {
        if n == 1 {
            Some(M4Ministry::LegalAffairsAgencyOrdinance)
        } else if n == 2 {
            Some(M4Ministry::PrimeMinistersOfficeOrdinance)
        } else if n == 3 {
            Some(M4Ministry::EconomicStabilityHeadquartersOrdinance)
        } else if n == 4 {
            Some(M4Ministry::MinistryOfTheInteriorOrdinance)
        } else if n == 5 {
            Some(M4Ministry::MinistryOfJusticeOrdinance)
        } else if n == 6 {
            Some(M4Ministry::MinistryOfForeignAffairsOrdinance)
        } else if n == 7 {
            Some(M4Ministry::MinistryOfFinanceOrdinance)
        } else if n == 8 {
            Some(M4Ministry::MinistryOfEducationOrdinance)
        } else if n == 9 {
            Some(M4Ministry::MinistryOfHealthAndWelfareOrdinance)
        } else if n == 10 {
            Some(M4Ministry::MinistryOfAgricultureAndForestryOrdinance)
        } else if n == 11 {
            Some(M4Ministry::MinistryOfInternationalTradeAndIndustryOrdinance)
        } else if n == 12 {
            Some(M4Ministry::MinistryOfTransportOrdinance)
        } else if n == 13 {
            Some(M4Ministry::MinistryOfCommunicationsOrdinance)
        } else if n == 14 {
            Some(M4Ministry::MinistryOfLaborOrdinance)
        } else if n == 15 {
            Some(M4Ministry::MinistryOfConstructionOrdinance)
        } else if n == 16 {
            Some(M4Ministry::PriceAgencyOrdinance)
        } else if n == 17 {
            Some(M4Ministry::MinistryOfCommerceAndIndustryOrdinance)
        } else if n == 21 {
            Some(M4Ministry::CentralLaborRelationsCommissionRules)
        } else if n == 22 {
            Some(M4Ministry::FairTradeCommissionRules)
        } else if n == 23 {
            Some(M4Ministry::NationalPublicSafetyCommissionRegulations)
        } else {
            None
        }
    }

    open spec fn first_day() -> Date {
        Date { year: 1947, month: 5, day: 3 }
    }

    open spec fn last_day() -> Date {
        Date { year: 1949, month: 5, day: 31 }
    }

    open spec fn rule_count() -> nat {
        20
    }

    open spec fn rule(k: int) -> (Seq<char>, Seq<char>, Self) {
        if k == 0 {
            ("法務庁"@, ""@, M4Ministry::LegalAffairsAgencyOrdinance)
        } else if k == 1 {
            ("総理庁"@, ""@, M4Ministry::PrimeMinistersOfficeOrdinance)
        } else if k == 2 {
            ("経済安定本部"@, ""@, M4Ministry::EconomicStabilityHeadquartersOrdinance)
        } else if k == 3 {
            ("内務省"@, ""@, M4Ministry::MinistryOfTheInteriorOrdinance)
        } else if k == 4 {
            ("司法省"@, ""@, M4Ministry::MinistryOfJusticeOrdinance)
        } else if k == 5 {
            ("外務省"@, ""@, M4Ministry::MinistryOfForeignAffairsOrdinance)
        } else if k == 6 {
            ("大蔵省"@, ""@, M4Ministry::MinistryOfFinanceOrdinance)
        } else if k == 7 {
            ("文部省"@, ""@, M4Ministry::MinistryOfEducationOrdinance)
        } else if k == 8 {
            ("厚生省"@, ""@, M4Ministry::MinistryOfHealthAndWelfareOrdinance)
        } else if k == 9 {
            ("農林省"@, ""@, M4Ministry::MinistryOfAgricultureAndForestryOrdinance)
        } else if k == 10 {
            ("通商産業省"@, ""@, M4Ministry::MinistryOfInternationalTradeAndIndustryOrdinance)
        } else if k == 11 {
            ("運輸省"@, ""@, M4Ministry::MinistryOfTransportOrdinance)
        } else if k == 12 {
            ("逓信省"@, ""@, M4Ministry::MinistryOfCommunicationsOrdinance)
        } else if k == 13 {
            ("労働省"@, ""@, M4Ministry::MinistryOfLaborOrdinance)
        } else if k == 14 {
            ("建設省"@, ""@, M4Ministry::MinistryOfConstructionOrdinance)
        } else if k == 15 {
            ("物価庁"@, ""@, M4Ministry::PriceAgencyOrdinance)
        } else if k == 16 {
            ("商工省"@, ""@, M4Ministry::MinistryOfCommerceAndIndustryOrdinance)
        } else if k == 17 {
            ("中央労働委員会"@, ""@, M4Ministry::CentralLaborRelationsCommissionRules)
        } else if k == 18 {
            ("公正取引委員会"@, ""@, M4Ministry::FairTradeCommissionRules)
        } else {
            ("国家公安委員会"@, ""@, M4Ministry::NationalPublicSafetyCommissionRegulations)
        }
    }

    proof fn lemma_flag(self, n: int) {
        assert(M4Ministry::of_flag(n) matches Some(x) ==> x.flag() == n);
        match self {
            M4Ministry::LegalAffairsAgencyOrdinance => assert(M4Ministry::of_flag(1) == Some(M4Ministry::LegalAffairsAgencyOrdinance)),
            M4Ministry::PrimeMinistersOfficeOrdinance => assert(M4Ministry::of_flag(2) == Some(M4Ministry::PrimeMinistersOfficeOrdinance)),
            M4Ministry::EconomicStabilityHeadquartersOrdinance => assert(M4Ministry::of_flag(3) == Some(M4Ministry::EconomicStabilityHeadquartersOrdinance)),
            M4Ministry::MinistryOfTheInteriorOrdinance => assert(M4Ministry::of_flag(4) == Some(M4Ministry::MinistryOfTheInteriorOrdinance)),
            M4Ministry::MinistryOfJusticeOrdinance => assert(M4Ministry::of_flag(5) == Some(M4Ministry::MinistryOfJusticeOrdinance)),
            M4Ministry::MinistryOfForeignAffairsOrdinance => assert(M4Ministry::of_flag(6) == Some(M4Ministry::MinistryOfForeignAffairsOrdinance)),
            M4Ministry::MinistryOfFinanceOrdinance => assert(M4Ministry::of_flag(7) == Some(M4Ministry::MinistryOfFinanceOrdinance)),
            M4Ministry::MinistryOfEducationOrdinance => assert(M4Ministry::of_flag(8) == Some(M4Ministry::MinistryOfEducationOrdinance)),
            M4Ministry::MinistryOfHealthAndWelfareOrdinance => assert(M4Ministry::of_flag(9) == Some(M4Ministry::MinistryOfHealthAndWelfareOrdinance)),
            M4Ministry::MinistryOfAgricultureAndForestryOrdinance => assert(M4Ministry::of_flag(10) == Some(M4Ministry::MinistryOfAgricultureAndForestryOrdinance)),
            M4Ministry::MinistryOfInternationalTradeAndIndustryOrdinance => assert(M4Ministry::of_flag(11) == Some(M4Ministry::MinistryOfInternationalTradeAndIndustryOrdinance)),
            M4Ministry::MinistryOfTransportOrdinance => assert(M4Ministry::of_flag(12) == Some(M4Ministry::MinistryOfTransportOrdinance)),
            M4Ministry::MinistryOfCommunicationsOrdinance => assert(M4Ministry::of_flag(13) == Some(M4Ministry::MinistryOfCommunicationsOrdinance)),
            M4Ministry::MinistryOfLaborOrdinance => assert(M4Ministry::of_flag(14) == Some(M4Ministry::MinistryOfLaborOrdinance)),
            M4Ministry::MinistryOfConstructionOrdinance => assert(M4Ministry::of_flag(15) == Some(M4Ministry::MinistryOfConstructionOrdinance)),
            M4Ministry::PriceAgencyOrdinance => assert(M4Ministry::of_flag(16) == Some(M4Ministry::PriceAgencyOrdinance)),
            M4Ministry::MinistryOfCommerceAndIndustryOrdinance => assert(M4Ministry::of_flag(17) == Some(M4Ministry::MinistryOfCommerceAndIndustryOrdinance)),
            M4Ministry::CentralLaborRelationsCommissionRules => assert(M4Ministry::of_flag(21) == Some(M4Ministry::CentralLaborRelationsCommissionRules)),
            M4Ministry::FairTradeCommissionRules => assert(M4Ministry::of_flag(22) == Some(M4Ministry::FairTradeCommissionRules)),
            M4Ministry::NationalPublicSafetyCommissionRegulations => assert(M4Ministry::of_flag(23) == Some(M4Ministry::NationalPublicSafetyCommissionRegulations)),
        }
    }

    fn to_int(&self) -> usize {
        match self {
            M4Ministry::LegalAffairsAgencyOrdinance => 1,
            M4Ministry::PrimeMinistersOfficeOrdinance => 2,
            M4Ministry::EconomicStabilityHeadquartersOrdinance => 3,
            M4Ministry::MinistryOfTheInteriorOrdinance => 4,
            M4Ministry::MinistryOfJusticeOrdinance => 5,
            M4Ministry::MinistryOfForeignAffairsOrdinance => 6,
            M4Ministry::MinistryOfFinanceOrdinance => 7,
            M4Ministry::MinistryOfEducationOrdinance => 8,
            M4Ministry::MinistryOfHealthAndWelfareOrdinance => 9,
            M4Ministry::MinistryOfAgricultureAndForestryOrdinance => 10,
            M4Ministry::MinistryOfInternationalTradeAndIndustryOrdinance => 11,
            M4Ministry::MinistryOfTransportOrdinance => 12,
            M4Ministry::MinistryOfCommunicationsOrdinance => 13,
            M4Ministry::MinistryOfLaborOrdinance => 14,
            M4Ministry::MinistryOfConstructionOrdinance => 15,
            M4Ministry::PriceAgencyOrdinance => 16,
            M4Ministry::MinistryOfCommerceAndIndustryOrdinance => 17,
            M4Ministry::CentralLaborRelationsCommissionRules => 21,
            M4Ministry::FairTradeCommissionRules => 22,
            M4Ministry::NationalPublicSafetyCommissionRegulations => 23,
        }
    }

    fn from_int(n: usize) -> Option<Self> {
        match n {
            1 => Some(M4Ministry::LegalAffairsAgencyOrdinance),
            2 => Some(M4Ministry::PrimeMinistersOfficeOrdinance),
            3 => Some(M4Ministry::EconomicStabilityHeadquartersOrdinance),
            4 => Some(M4Ministry::MinistryOfTheInteriorOrdinance),
            5 => Some(M4Ministry::MinistryOfJusticeOrdinance),
            6 => Some(M4Ministry::MinistryOfForeignAffairsOrdinance),
            7 => Some(M4Ministry::MinistryOfFinanceOrdinance),
            8 => Some(M4Ministry::MinistryOfEducationOrdinance),
            9 => Some(M4Ministry::MinistryOfHealthAndWelfareOrdinance),
            10 => Some(M4Ministry::MinistryOfAgricultureAndForestryOrdinance),
            11 => Some(M4Ministry::MinistryOfInternationalTradeAndIndustryOrdinance),
            12 => Some(M4Ministry::MinistryOfTransportOrdinance),
            13 => Some(M4Ministry::MinistryOfCommunicationsOrdinance),
            14 => Some(M4Ministry::MinistryOfLaborOrdinance),
            15 => Some(M4Ministry::MinistryOfConstructionOrdinance),
            16 => Some(M4Ministry::PriceAgencyOrdinance),
            17 => Some(M4Ministry::MinistryOfCommerceAndIndustryOrdinance),
            21 => Some(M4Ministry::CentralLaborRelationsCommissionRules),
            22 => Some(M4Ministry::FairTradeCommissionRules),
            23 => Some(M4Ministry::NationalPublicSafetyCommissionRegulations),
            _ => None,
        }
    }

    fn start() -> Date {
        Date::new_ad(1947, 5, 3)
    }

    fn end() -> Date {
        Date::new_ad(1949, 5, 31)
    }

    fn rules() -> usize {
        20
    }

    fn name_rule(k: usize) -> (&'static str, &'static str, Self) {
        match k {
            0 => ("法務庁", "", M4Ministry::LegalAffairsAgencyOrdinance),
            1 => ("総理庁", "", M4Ministry::PrimeMinistersOfficeOrdinance),
            2 => ("経済安定本部", "", M4Ministry::EconomicStabilityHeadquartersOrdinance),
            3 => ("内務省", "", M4Ministry::MinistryOfTheInteriorOrdinance),
            4 => ("司法省", "", M4Ministry::MinistryOfJusticeOrdinance),
            5 => ("外務省", "", M4Ministry::MinistryOfForeignAffairsOrdinance),
            6 => ("大蔵省", "", M4Ministry::MinistryOfFinanceOrdinance),
            7 => ("文部省", "", M4Ministry::MinistryOfEducationOrdinance),
            8 => ("厚生省", "", M4Ministry::MinistryOfHealthAndWelfareOrdinance),
            9 => ("農林省", "", M4Ministry::MinistryOfAgricultureAndForestryOrdinance),
            10 => ("通商産業省", "", M4Ministry::MinistryOfInternationalTradeAndIndustryOrdinance),
            11 => ("運輸省", "", M4Ministry::MinistryOfTransportOrdinance),
            12 => ("逓信省", "", M4Ministry::MinistryOfCommunicationsOrdinance),
            13 => ("労働省", "", M4Ministry::MinistryOfLaborOrdinance),
            14 => ("建設省", "", M4Ministry::MinistryOfConstructionOrdinance),
            15 => ("物価庁", "", M4Ministry::PriceAgencyOrdinance),
            16 => ("商工省", "", M4Ministry::MinistryOfCommerceAndIndustryOrdinance),
            17 => ("中央労働委員会", "", M4Ministry::CentralLaborRelationsCommissionRules),
            18 => ("公正取引委員会", "", M4Ministry::FairTradeCommissionRules),
            _ => ("国家公安委員会", "", M4Ministry::NationalPublicSafetyCommissionRegulations),
        }
    }

}

/// M5時（1949年6月1日〜2001年1月15日）での府・省
#[derive(Debug, Clone, Copy, PartialEq, Eq, Hash, Structural)]
pub enum M5Ministry {
    /// 法務庁令
    LegalAffairsAgencyOrdinance,
    /// 総理庁令
    PrimeMinistersOfficeOrdinance,
    /// 経済安定本部令
    EconomicStabilityHeadquartersOrdinance,
    /// 自治省令
    MinistryOfHomeAffairsOrdinance,
    /// 法務省令
    MinistryOfJusticeOrdinance,
    /// 外務省令
    MinistryOfForeignAffairsOrdinance,
    /// 大蔵省令
    MinistryOfFinanceOrdinance,
    /// 文部省令
    MinistryOfEducationOrdinance,
    /// 厚生省令
    MinistryOfHealthAndWelfareOrdinance,
    /// 農林水産省令
    MinistryOfAgricultureAndForestryAndFisheriesOrdinance,
    /// 通商産業省令
    MinistryOfInternationalTradeAndIndustryOrdinance,
    /// 運輸省令
    MinistryOfTransportOrdinance,
    /// 郵政省令
    MinistryOfPostsAndTelecommunicationsOrdinance,
    /// 労働省令
    MinistryOfLaborOrdinance,
    /// 建設省令
    MinistryOfConstructionOrdinance,
    /// 物価庁令
    PriceAgencyOrdinance,
    /// 農林省令
    MinistryOfAgricultureAndForestryOrdinance,
    /// 電気通信省令
    TelecommunicationsMinisterialOrdinance,
    /// 中央省庁等改革推進本部令
    CentralMinistriesAndAgenciesReformPromotionHeadquartersOrdinance,
    /// 電波監理委員会規則
    RadioRegulatoryCommissionRules,
    /// 中央労働委員会規則
    CentralLaborRelationsCommissionRules,
    /// 公正取引委員会規則
    FairTradeCommissionRules,
    /// 国家公安委員会規則
    NationalPublicSafetyCommissionRegulations,
    /// 公害等調整委員会規則
    PollutionAdjustmentCommitteeRules,
    /// 公安審査委員会規則
    PublicSafetyReviewCommitteeRules,
}

impl MinistryContents for M5Ministry {
    open spec fn flag(self) -> int {
        match self {
            M5Ministry::LegalAffairsAgencyOrdinance => 1,
            M5Ministry::PrimeMinistersOfficeOrdinance => 2,
            M5Ministry::EconomicStabilityHeadquartersOrdinance => 3,
            M5Ministry::MinistryOfHomeAffairsOrdinance => 4,
            M5Ministry::MinistryOfJusticeOrdinance => 5,
            M5Ministry::MinistryOfForeignAffairsOrdinance => 6,
            M5Ministry::MinistryOfFinanceOrdinance => 7,
            M5Ministry::MinistryOfEducationOrdinance => 8,
            M5Ministry::MinistryOfHealthAndWelfareOrdinance => 9,
            M5Ministry::MinistryOfAgricultureAndForestryAndFisheriesOrdinance => 10,
            M5Ministry::MinistryOfInternationalTradeAndIndustryOrdinance => 11,
            M5Ministry::MinistryOfTransportOrdinance => 12,
            M5Ministry::MinistryOfPostsAndTelecommunicationsOrdinance => 13,
            M5Ministry::MinistryOfLaborOrdinance => 14,
            M5Ministry::MinistryOfConstructionOrdinance => 15,
            M5Ministry::PriceAgencyOrdinance => 16,
            M5Ministry::MinistryOfAgricultureAndForestryOrdinance => 17,
            M5Ministry::TelecommunicationsMinisterialOrdinance => 18,
            M5Ministry::CentralMinistriesAndAgenciesReformPromotionHeadquartersOrdinance => 19,
            M5Ministry::RadioRegulatoryCommissionRules => 20,
            M5Ministry::CentralLaborRelationsCommissionRules => 21,
            M5Ministry::FairTradeCommissionRules => 22,
            M5Ministry::NationalPublicSafetyCommissionRegulations => 23,
            M5Ministry::PollutionAdjustmentCommitteeRules => 24,
            M5Ministry::PublicSafetyReviewCommitteeRules => 25,
        }
    }

    open spec fn of_flag(n: int) -> Option<Self> {
        if n == 1 {
            Some(M5Ministry::LegalAffairsAgencyOrdinance)
        } else if n == 2 {
            Some(M5Ministry::PrimeMinistersOfficeOrdinance)
        } else if n == 3 {
            Some(M5Ministry::EconomicStabilityHeadquartersOrdinance)
        } else if n == 4 {
            Some(M5Ministry::MinistryOfHomeAffairsOrdinance)
        } else if n == 5 {
            Some(M5Ministry::MinistryOfJusticeOrdinance)
        } else if n == 6 {
            Some(M5Ministry::MinistryOfForeignAffairsOrdinance)
        } else if n == 7 {
            Some(M5Ministry::MinistryOfFinanceOrdinance)
        } else if n == 8 {
            Some(M5Ministry::MinistryOfEducationOrdinance)
        } else if n == 9 {
            Some(M5Ministry::MinistryOfHealthAndWelfareOrdinance)
        } else if n == 10 {
            Some(M5Ministry::MinistryOfAgricultureAndForestryAndFisheriesOrdinance)
        } else if n == 11 {
            Some(M5Ministry::MinistryOfInternationalTradeAndIndustryOrdinance)
        } else if n == 12 {
            Some(M5Ministry::MinistryOfTransportOrdinance)
        } else if n == 13 {
            Some(M5Ministry::MinistryOfPostsAndTelecommunicationsOrdinance)
        } else if n == 14 {
            Some(M5Ministry::MinistryOfLaborOrdinance)
        } else if n == 15 {
            Some(M5Ministry::MinistryOfConstructionOrdinance)
        } else if n == 16 {
            Some(M5Ministry::PriceAgencyOrdinance)
        } else if n == 17 {
            Some(M5Ministry::MinistryOfAgricultureAndForestryOrdinance)
        } else if n == 18 {
            Some(M5Ministry::TelecommunicationsMinisterialOrdinance)
        } else if n == 19 {
            Some(M5Ministry::CentralMinistriesAndAgenciesReformPromotionHeadquartersOrdinance)
        } else if n == 20 {
            Some(M5Ministry::RadioRegulatoryCommissionRules)
        } else if n == 21 {
            Some(M5Ministry::CentralLaborRelationsCommissionRules)
        } else if n == 22 {
            Some(M5Ministry::FairTradeCommissionRules)
        } else if n == 23 {
            Some(M5Ministry::NationalPublicSafetyCommissionRegulations)
        } else if n == 24 {
            Some(M5Ministry::PollutionAdjustmentCommitteeRules)
        } else if n == 25 {
            Some(M5Ministry::PublicSafetyReviewCommitteeRules)
        } else {
            None
        }
    }

    open spec fn first_day() -> Date {
        Date { year: 1949, month: 6, day: 1 }
    }

    open spec fn last_day() -> Date {
        Date { year: 2001, month: 1, day: 15 }
    }

    open spec fn rule_count() -> nat {
        25
    }

    open spec fn rule(k: int) -> (Seq<char>, Seq<char>, Self) {
        if k == 0 {
            ("法務庁"@, ""@, M5Ministry::LegalAffairsAgencyOrdinance)
        } else if k == 1 {
            ("総理庁"@, ""@, M5Ministry::PrimeMinistersOfficeOrdinance)
        } else if k == 2 {
            ("経済安定本部"@, ""@, M5Ministry::EconomicStabilityHeadquartersOrdinance)
        } else if k == 3 {
            ("自治省"@, ""@, M5Ministry::MinistryOfHomeAffairsOrdinance)
        } else if k == 4 {
            ("法務省"@, ""@, M5Ministry::MinistryOfJusticeOrdinance)
        } else if k == 5 {
            ("外務省"@, ""@, M5Ministry::MinistryOfForeignAffairsOrdinance)
        } else if k == 6 {
            ("大蔵省"@, ""@, M5Ministry::MinistryOfFinanceOrdinance)
        } else if k == 7 {
            ("文部省"@, ""@, M5Ministry::MinistryOfEducationOrdinance)
        } else if k == 8 {
            ("厚生省"@, ""@, M5Ministry::MinistryOfHealthAndWelfareOrdinance)
        } else if k == 9 {
            ("農林水産省"@, ""@, M5Ministry::MinistryOfAgricultureAndForestryAndFisheriesOrdinance)
        } else if k == 10 {
            ("通商産業省"@, ""@, M5Ministry::MinistryOfInternationalTradeAndIndustryOrdinance)
        } else if k == 11 {
            ("運輸省"@, ""@, M5Ministry::MinistryOfTransportOrdinance)
        } else if k == 12 {
            ("郵政省"@, ""@, M5Ministry::MinistryOfPostsAndTelecommunicationsOrdinance)
        } else if k == 13 {
            ("労働省"@, ""@, M5Ministry::MinistryOfLaborOrdinance)
        } else if k == 14 {
            ("建設省"@, ""@, M5Ministry::MinistryOfConstructionOrdinance)
        } else if k == 15 {
            ("物価庁"@, ""@, M5Ministry::PriceAgencyOrdinance)
        } else if k == 16 {
            ("農林省"@, ""@, M5Ministry::MinistryOfAgricultureAndForestryOrdinance)
        } else if k == 17 {
            ("電気通信省"@, ""@, M5Ministry::TelecommunicationsMinisterialOrdinance)
        } else if k == 18 {
            ("中央省庁等改革推進本部"@, ""@, M5Ministry::CentralMinistriesAndAgenciesReformPromotionHeadquartersOrdinance)
        } else if k == 19 {
            ("電波監理委員会"@, ""@, M5Ministry::RadioRegulatoryCommissionRules)
        } else if k == 20 {
            ("中央労働委員会"@, ""@, M5Ministry::CentralLaborRelationsCommissionRules)
        } else if k == 21 {
            ("公正取引委員会"@, ""@, M5Ministry::FairTradeCommissionRules)
        } else if k == 22 {
            ("国家公安委員会"@, ""@, M5Ministry::NationalPublicSafetyCommissionRegulations)
        } else if k == 23 {
            ("公害等調整委員会"@, ""@, M5Ministry::PollutionAdjustmentCommitteeRules)
        } else {
            ("公安審査委員会"@, ""@, M5Ministry::PublicSafetyReviewCommitteeRules)
        }
    }

    proof fn lemma_flag(self, n: int) {
        assert(M5Ministry::of_flag(n) matches Some(x) ==> x.flag() == n);
        match self {
            M5Ministry::LegalAffairsAgencyOrdinance => assert(M5Ministry::of_flag(1) == Some(M5Ministry::LegalAffairsAgencyOrdinance)),
            M5Ministry::PrimeMinistersOfficeOrdinance => assert(M5Ministry::of_flag(2) == Some(M5Ministry::PrimeMinistersOfficeOrdinance)),
            M5Ministry::EconomicStabilityHeadquartersOrdinance => assert(M5Ministry::of_flag(3) == Some(M5Ministry::EconomicStabilityHeadquartersOrdinance)),
            M5Ministry::MinistryOfHomeAffairsOrdinance => assert(M5Ministry::of_flag(4) == Some(M5Ministry::MinistryOfHomeAffairsOrdinance)),
            M5Ministry::MinistryOfJusticeOrdinance => assert(M5Ministry::of_flag(5) == Some(M5Ministry::MinistryOfJusticeOrdinance)),
            M5Ministry::MinistryOfForeignAffairsOrdinance => assert(M5Ministry::of_flag(6) == Some(M5Ministry::MinistryOfForeignAffairsOrdinance)),
            M5Ministry::MinistryOfFinanceOrdinance => assert(M5Ministry::of_flag(7) == Some(M5Ministry::MinistryOfFinanceOrdinance)),
            M5Ministry::MinistryOfEducationOrdinance => assert(M5Ministry::of_flag(8) == Some(M5Ministry::MinistryOfEducationOrdinance)),
            M5Ministry::MinistryOfHealthAndWelfareOrdinance => assert(M5Ministry::of_flag(9) == Some(M5Ministry::MinistryOfHealthAndWelfareOrdinance)),
            M5Ministry::MinistryOfAgricultureAndForestryAndFisheriesOrdinance => assert(M5Ministry::of_flag(10) == Some(M5Ministry::MinistryOfAgricultureAndForestryAndFisheriesOrdinance)),
            M5Ministry::MinistryOfInternationalTradeAndIndustryOrdinance => assert(M5Ministry::of_flag(11) == Some(M5Ministry::MinistryOfInternationalTradeAndIndustryOrdinance)),
            M5Ministry::MinistryOfTransportOrdinance => assert(M5Ministry::of_flag(12) == Some(M5Ministry::MinistryOfTransportOrdinance)),
            M5Ministry::MinistryOfPostsAndTelecommunicationsOrdinance => assert(M5Ministry::of_flag(13) == Some(M5Ministry::MinistryOfPostsAndTelecommunicationsOrdinance)),
            M5Ministry::MinistryOfLaborOrdinance => assert(M5Ministry::of_flag(14) == Some(M5Ministry::MinistryOfLaborOrdinance)),
            M5Ministry::MinistryOfConstructionOrdinance => assert(M5Ministry::of_flag(15) == Some(M5Ministry::MinistryOfConstructionOrdinance)),
            M5Ministry::PriceAgencyOrdinance => assert(M5Ministry::of_flag(16) == Some(M5Ministry::PriceAgencyOrdinance)),
            M5Ministry::MinistryOfAgricultureAndForestryOrdinance => assert(M5Ministry::of_flag(17) == Some(M5Ministry::MinistryOfAgricultureAndForestryOrdinance)),
            M5Ministry::TelecommunicationsMinisterialOrdinance => assert(M5Ministry::of_flag(18) == Some(M5Ministry::TelecommunicationsMinisterialOrdinance)),
            M5Ministry::CentralMinistriesAndAgenciesReformPromotionHeadquartersOrdinance => assert(M5Ministry::of_flag(19) == Some(M5Ministry::CentralMinistriesAndAgenciesReformPromotionHeadquartersOrdinance)),
            M5Ministry::RadioRegulatoryCommissionRules => assert(M5Ministry::of_flag(20) == Some(M5Ministry::RadioRegulatoryCommissionRules)),
            M5Ministry::CentralLaborRelationsCommissionRules => assert(M5Ministry::of_flag(21) == Some(M5Ministry::CentralLaborRelationsCommissionRules)),
            M5Ministry::FairTradeCommissionRules => assert(M5Ministry::of_flag(22) == Some(M5Ministry::FairTradeCommissionRules)),
            M5Ministry::NationalPublicSafetyCommissionRegulations => assert(M5Ministry::of_flag(23) == Some(M5Ministry::NationalPublicSafetyCommissionRegulations)),
            M5Ministry::PollutionAdjustmentCommitteeRules => assert(M5Ministry::of_flag(24) == Some(M5Ministry::PollutionAdjustmentCommitteeRules)),
            M5Ministry::PublicSafetyReviewCommitteeRules => assert(M5Ministry::of_flag(25) == Some(M5Ministry::PublicSafetyReviewCommitteeRules)),
        }
    }

    fn to_int(&self) -> usize {
        match self {
            M5Ministry::LegalAffairsAgencyOrdinance => 1,
            M5Ministry::PrimeMinistersOfficeOrdinance => 2,
            M5Ministry::EconomicStabilityHeadquartersOrdinance => 3,
            M5Ministry::MinistryOfHomeAffairsOrdinance => 4,
            M5Ministry::MinistryOfJusticeOrdinance => 5,
            M5Ministry::MinistryOfForeignAffairsOrdinance => 6,
            M5Ministry::MinistryOfFinanceOrdinance => 7,
            M5Ministry::MinistryOfEducationOrdinance => 8,
            M5Ministry::MinistryOfHealthAndWelfareOrdinance => 9,
            M5Ministry::MinistryOfAgricultureAndForestryAndFisheriesOrdinance => 10,
            M5Ministry::MinistryOfInternationalTradeAndIndustryOrdinance => 11,
            M5Ministry::MinistryOfTransportOrdinance => 12,
            M5Ministry::MinistryOfPostsAndTelecommunicationsOrdinance => 13,
            M5Ministry::MinistryOfLaborOrdinance => 14,
            M5Ministry::MinistryOfConstructionOrdinance => 15,
            M5Ministry::PriceAgencyOrdinance => 16,
            M5Ministry::MinistryOfAgricultureAndForestryOrdinance => 17,
            M5Ministry::TelecommunicationsMinisterialOrdinance => 18,
            M5Ministry::CentralMinistriesAndAgenciesReformPromotionHeadquartersOrdinance => 19,
            M5Ministry::RadioRegulatoryCommissionRules => 20,
            M5Ministry::CentralLaborRelationsCommissionRules => 21,
            M5Ministry::FairTradeCommissionRules => 22,
            M5Ministry::NationalPublicSafetyCommissionRegulations => 23,
            M5Ministry::PollutionAdjustmentCommitteeRules => 24,
            M5Ministry::PublicSafetyReviewCommitteeRules => 25,
        }
    }

    fn from_int(n: usize) -> Option<Self> {
        match n {
            1 => Some(M5Ministry::LegalAffairsAgencyOrdinance),
            2 => Some(M5Ministry::PrimeMinistersOfficeOrdinance),
            3 => Some(M5Ministry::EconomicStabilityHeadquartersOrdinance),
            4 => Some(M5Ministry::MinistryOfHomeAffairsOrdinance),
            5 => Some(M5Ministry::MinistryOfJusticeOrdinance),
            6 => Some(M5Ministry::MinistryOfForeignAffairsOrdinance),
            7 => Some(M5Ministry::MinistryOfFinanceOrdinance),
            8 => Some(M5Ministry::MinistryOfEducationOrdinance),
            9 => Some(M5Ministry::MinistryOfHealthAndWelfareOrdinance),
            10 => Some(M5Ministry::MinistryOfAgricultureAndForestryAndFisheriesOrdinance),
            11 => Some(M5Ministry::MinistryOfInternationalTradeAndIndustryOrdinance),
            12 => Some(M5Ministry::MinistryOfTransportOrdinance),
            13 => Some(M5Ministry::MinistryOfPostsAndTelecommunicationsOrdinance),
            14 => Some(M5Ministry::MinistryOfLaborOrdinance),
            15 => Some(M5Ministry::MinistryOfConstructionOrdinance),
            16 => Some(M5Ministry::PriceAgencyOrdinance),
            17 => Some(M5Ministry::MinistryOfAgricultureAndForestryOrdinance),
            18 => Some(M5Ministry::TelecommunicationsMinisterialOrdinance),
            19 => Some(M5Ministry::CentralMinistriesAndAgenciesReformPromotionHeadquartersOrdinance),
            20 => Some(M5Ministry::RadioRegulatoryCommissionRules),
            21 => Some(M5Ministry::CentralLaborRelationsCommissionRules),
            22 => Some(M5Ministry::FairTradeCommissionRules),
            23 => Some(M5Ministry::NationalPublicSafetyCommissionRegulations),
            24 => Some(M5Ministry::PollutionAdjustmentCommitteeRules),
            25 => Some(M5Ministry::PublicSafetyReviewCommitteeRules),
            _ => None,
        }
    }

    fn start() -> Date {
        Date::new_ad(1949, 6, 1)
    }

    fn end() -> Date {
        Date::new_ad(2001, 1, 15)
    }

    fn rules() -> usize {
        25
    }

    fn name_rule(k: usize) -> (&'static str, &'static str, Self) {
        match k {
            0 => ("法務庁", "", M5Ministry::LegalAffairsAgencyOrdinance),
            1 => ("総理庁", "", M5Ministry::PrimeMinistersOfficeOrdinance),
            2 => ("経済安定本部", "", M5Ministry::EconomicStabilityHeadquartersOrdinance),
            3 => ("自治省", "", M5Ministry::MinistryOfHomeAffairsOrdinance),
            4 => ("法務省", "", M5Ministry::MinistryOfJusticeOrdinance),
            5 => ("外務省", "", M5Ministry::MinistryOfForeignAffairsOrdinance),
            6 => ("大蔵省", "", M5Ministry::MinistryOfFinanceOrdinance),
            7 => ("文部省", "", M5Ministry::MinistryOfEducationOrdinance),
            8 => ("厚生省", "", M5Ministry::MinistryOfHealthAndWelfareOrdinance),
            9 => ("農林水産省", "", M5Ministry::MinistryOfAgricultureAndForestryAndFisheriesOrdinance),
            10 => ("通商産業省", "", M5Ministry::MinistryOfInternationalTradeAndIndustryOrdinance),
            11 => ("運輸省", "", M5Ministry::MinistryOfTransportOrdinance),
            12 => ("郵政省", "", M5Ministry::MinistryOfPostsAndTelecommunicationsOrdinance),
            13 => ("労働省", "", M5Ministry::MinistryOfLaborOrdinance),
            14 => ("建設省", "", M5Ministry::MinistryOfConstructionOrdinance),
            15 => ("物価庁", "", M5Ministry::PriceAgencyOrdinance),
            16 => ("農林省", "", M5Ministry::MinistryOfAgricultureAndForestryOrdinance),
            17 => ("電気通信省", "", M5Ministry::TelecommunicationsMinisterialOrdinance),
            18 => ("中央省庁等改革推進本部", "", M5Ministry::CentralMinistriesAndAgenciesReformPromotionHeadquartersOrdinance),
            19 => ("電波監理委員会", "", M5Ministry::RadioRegulatoryCommissionRules),
            20 => ("中央労働委員会", "", M5Ministry::CentralLaborRelationsCommissionRules),
            21 => ("公正取引委員会", "", M5Ministry::FairTradeCommissionRules),
            22 => ("国家公安委員会", "", M5Ministry::NationalPublicSafetyCommissionRegulations),
            23 => ("公害等調整委員会", "", M5Ministry::PollutionAdjustmentCommitteeRules),
            _ => ("公安審査委員会", "", M5Ministry::PublicSafetyReviewCommitteeRules),
        }
    }

}

/// M6時（2001年1月16日〜）での府・省
#[derive(Debug, Clone, Copy, PartialEq, Eq, Hash, Structural)]
pub enum M6Ministry {
    /// 内閣官房令
    CabinetSecretariatOrdinance,
    /// 総理庁令
    PrimeMinistersOfficeOrdinance,
    /// 復興庁令
    ReconstructionAgencyOrdinance,
    /// 自治省令
    MinistryOfHomeAffairsOrdinance,
    /// 法務省令
    MinistryOfJusticeOrdinance,
    /// 外務省令
    MinistryOfForeignAffairsOrdinance,
    /// 財務省令
    MinistryOfFinanceOrdinance,
    /// 文部科学省令
    MinistryOfEducationAndCultureAndSportsAndScienceAndTechnologyOrdinance,
    /// 厚生労働省令
    MinistryOfHealthAndLaborAndWelfareOrdinance,
    /// 農林水産省令
    MinistryOfAgricultureAndForestryAndFisheriesOrdinance,
    /// 経済産業省令
    MinistryOfEconomyAndTradeAndIndustryOrdinance,
    /// 国土交通省令
    MinistryOfLandAndInfrastructureAndTransportAndTourismOrdinance,
    /// 環境省令
    MinistryOfTheEnvironmentOrdinance,
    /// 防衛省令
    MinistryOfDefenseOrdinance,
    /// デジタル庁令
    DigitalAgencyOrdinance,
    /// 特定個人情報保護委員会規則
    SpecificPersonalInformationProtectionCommissionRules,
    /// 運輸安全委員会規則
    JapanTransportSafetyBoardRegulations,
    /// 原子力規制委員会規則
    NuclearRegulationAuthorityRegulations,
    /// 中央労働委員会規則
    CentralLaborRelationsCommissionRules,
    /// 公正取引委員会規則
    FairTradeCommissionRules,
    /// 国家公安委員会規則
    NationalPublicSafetyCommissionRegulations,
    /// 公害等調整委員会規則
    PollutionAdjustmentCommitteeRules,
    /// 公安審査委員会規則
    PublicSafetyReviewCommitteeRules,
    /// カジノ管理委員会規則
    CasinoManagementCommitteeRules,
}

impl MinistryContents for M6Ministry {
    open spec fn flag(self) -> int {
        match self {
            M6Ministry::CabinetSecretariatOrdinance => 1,
            M6Ministry::PrimeMinistersOfficeOrdinance => 2,
            M6Ministry::ReconstructionAgencyOrdinance => 3,
            M6Ministry::MinistryOfHomeAffairsOrdinance => 4,
            M6Ministry::MinistryOfJusticeOrdinance => 5,
            M6Ministry::MinistryOfForeignAffairsOrdinance => 6,
            M6Ministry::MinistryOfFinanceOrdinance => 7,
            M6Ministry::MinistryOfEducationAndCultureAndSportsAndScienceAndTechnologyOrdinance => 8,
            M6Ministry::MinistryOfHealthAndLaborAndWelfareOrdinance => 9,
            M6Ministry::MinistryOfAgricultureAndForestryAndFisheriesOrdinance => 10,
            M6Ministry::MinistryOfEconomyAndTradeAndIndustryOrdinance => 11,
            M6Ministry::MinistryOfLandAndInfrastructureAndTransportAndTourismOrdinance => 12,
            M6Ministry::MinistryOfTheEnvironmentOrdinance => 13,
            M6Ministry::MinistryOfDefenseOrdinance => 14,
            M6Ministry::DigitalAgencyOrdinance => 15,
            M6Ministry::SpecificPersonalInformationProtectionCommissionRules => 18,
            M6Ministry::JapanTransportSafetyBoardRegulations => 19,
            M6Ministry::NuclearRegulationAuthorityRegulations => 20,
            M6Ministry::CentralLaborRelationsCommissionRules => 21,
            M6Ministry::FairTradeCommissionRules => 22,
            M6Ministry::NationalPublicSafetyCommissionRegulations => 23,
            M6Ministry::PollutionAdjustmentCommitteeRules => 24,
            M6Ministry::PublicSafetyReviewCommitteeRules => 25,
            M6Ministry::CasinoManagementCommitteeRules => 26,
        }
    }

    open spec fn of_flag(n: int) -> Option<Self> {
        if n == 1 {
            Some(M6Ministry::CabinetSecretariatOrdinance)
        } else if n == 2 {
            Some(M6Ministry::PrimeMinistersOfficeOrdinance)
        } else if n == 3 {
            Some(M6Ministry::ReconstructionAgencyOrdinance)
        } else if n == 4 {
            Some(M6Ministry::MinistryOfHomeAffairsOrdinance)
        } else if n == 5 {
            Some(M6Ministry::MinistryOfJusticeOrdinance)
        } else if n == 6 {
            Some(M6Ministry::MinistryOfForeignAffairsOrdinance)
        } else if n == 7 {
            Some(M6Ministry::MinistryOfFinanceOrdinance)
        } else if n == 8 {
            Some(M6Ministry::MinistryOfEducationAndCultureAndSportsAndScienceAndTechnologyOrdinance)
        } else if n == 9 {
            Some(M6Ministry::MinistryOfHealthAndLaborAndWelfareOrdinance)
        } else if n == 10 {
            Some(M6Ministry::MinistryOfAgricultureAndForestryAndFisheriesOrdinance)
        } else if n == 11 {
            Some(M6Ministry::MinistryOfEconomyAndTradeAndIndustryOrdinance)
        } else if n == 12 {
            Some(M6Ministry::MinistryOfLandAndInfrastructureAndTransportAndTourismOrdinance)
        } else if n == 13 {
            Some(M6Ministry::MinistryOfTheEnvironmentOrdinance)
        } else if n == 14 {
            Some(M6Ministry::MinistryOfDefenseOrdinance)
        } else if n == 15 {
            Some(M6Ministry::DigitalAgencyOrdinance)
        } else if n == 18 {
            Some(M6Ministry::SpecificPersonalInformationProtectionCommissionRules)
        } else if n == 19 {
            Some(M6Ministry::JapanTransportSafetyBoardRegulations)
        } else if n == 20 {
            Some(M6Ministry::NuclearRegulationAuthorityRegulations)
        } else if n == 21 {
            Some(M6Ministry::CentralLaborRelationsCommissionRules)
        } else if n == 22 {
            Some(M6Ministry::FairTradeCommissionRules)
        } else if n == 23 {
            Some(M6Ministry::NationalPublicSafetyCommissionRegulations)
        } else if n == 24 {
            Some(M6Ministry::PollutionAdjustmentCommitteeRules)
        } else if n == 25 {
            Some(M6Ministry::PublicSafetyReviewCommitteeRules)
        } else if n == 26 {
            Some(M6Ministry::CasinoManagementCommitteeRules)
        } else {
            None
        }
    }

    open spec fn first_day() -> Date {
        Date { year: 2001, month: 1, day: 16 }
    }

    open spec fn last_day() -> Date {
        Date { year: usize::MAX, month: 12, day: 31 }
    }

    open spec fn rule_count() -> nat {
        24
    }

    open spec fn rule(k: int) -> (Seq<char>, Seq<char>, Self) {
        if k == 0 {
            ("内閣官房"@, ""@, M6Ministry::CabinetSecretariatOrdinance)
        } else if k == 1 {
            ("総理庁"@, ""@, M6Ministry::PrimeMinistersOfficeOrdinance)
        } else if k == 2 {
            ("復興庁"@, ""@, M6Ministry::ReconstructionAgencyOrdinance)
        } else if k == 3 {
            ("自治省"@, ""@, M6Ministry::MinistryOfHomeAffairsOrdinance)
        } else if k == 4 {
            ("法務省"@, ""@, M6Ministry::MinistryOfJusticeOrdinance)
        } else if k == 5 {
            ("外務省"@, ""@, M6Ministry::MinistryOfForeignAffairsOrdinance)
        } else if k == 6 {
            ("財務省"@, ""@, M6Ministry::MinistryOfFinanceOrdinance)
        } else if k == 7 {
            ("文部科学省"@, ""@, M6Ministry::MinistryOfEducationAndCultureAndSportsAndScienceAndTechnologyOrdinance)
        } else if k == 8 {
            ("厚生労働省"@, ""@, M6Ministry::MinistryOfHealthAndLaborAndWelfareOrdinance)
        } else if k == 9 {
            ("農林水産省"@, ""@, M6Ministry::MinistryOfAgricultureAndForestryAndFisheriesOrdinance)
        } else if k == 10 {
            ("経済産業省"@, ""@, M6Ministry::MinistryOfEconomyAndTradeAndIndustryOrdinance)
        } else if k == 11 {
            ("国土交通省"@, ""@, M6Ministry::MinistryOfLandAndInfrastructureAndTransportAndTourismOrdinance)
        } else if k == 12 {
            ("環境省"@, ""@, M6Ministry::MinistryOfTheEnvironmentOrdinance)
        } else if k == 13 {
            ("防衛省"@, ""@, M6Ministry::MinistryOfDefenseOrdinance)
        } else if k == 14 {
            ("デジタル庁"@, ""@, M6Ministry::DigitalAgencyOrdinance)
        } else if k == 15 {
            ("特定個人情報保護委員会"@, ""@, M6Ministry::SpecificPersonalInformationProtectionCommissionRules)
        } else if k == 16 {
            ("運輸安全委員会"@, ""@, M6Ministry::JapanTransportSafetyBoardRegulations)
        } else if k == 17 {
            ("原子力規制委員会"@, ""@, M6Ministry::NuclearRegulationAuthorityRegulations)
        } else if k == 18 {
            ("中央労働委員会"@, ""@, M6Ministry::CentralLaborRelationsCommissionRules)
        } else if k == 19 {
            ("公正取引委員会"@, ""@, M6Ministry::FairTradeCommissionRules)
        } else if k == 20 {
            ("国家公安委員会"@, ""@, M6Ministry::NationalPublicSafetyCommissionRegulations)
        } else if k == 21 {
            ("公害等調整委員会"@, ""@, M6Ministry::PollutionAdjustmentCommitteeRules)
        } else if k == 22 {
            ("公安審査委員会"@, ""@, M6Ministry::PublicSafetyReviewCommitteeRules)
        } else {
            ("カジノ管理委員会"@, ""@, M6Ministry::CasinoManagementCommitteeRules)
        }
    }

    proof fn lemma_flag(self, n: int) {
        assert(M6Ministry::of_flag(n) matches Some(x) ==> x.flag() == n);
        match self {
            M6Ministry::CabinetSecretariatOrdinance => assert(M6Ministry::of_flag(1) == Some(M6Ministry::CabinetSecretariatOrdinance)),
            M6Ministry::PrimeMinistersOfficeOrdinance => assert(M6Ministry::of_flag(2) == Some(M6Ministry::PrimeMinistersOfficeOrdinance)),
            M6Ministry::ReconstructionAgencyOrdinance => assert(M6Ministry::of_flag(3) == Some(M6Ministry::ReconstructionAgencyOrdinance)),
            M6Ministry::MinistryOfHomeAffairsOrdinance => assert(M6Ministry::of_flag(4) == Some(M6Ministry::MinistryOfHomeAffairsOrdinance)),
            M6Ministry::MinistryOfJusticeOrdinance => assert(M6Ministry::of_flag(5) == Some(M6Ministry::MinistryOfJusticeOrdinance)),
            M6Ministry::MinistryOfForeignAffairsOrdinance => assert(M6Ministry::of_flag(6) == Some(M6Ministry::MinistryOfForeignAffairsOrdinance)),
            M6Ministry::MinistryOfFinanceOrdinance => assert(M6Ministry::of_flag(7) == Some(M6Ministry::MinistryOfFinanceOrdinance)),
            M6Ministry::MinistryOfEducationAndCultureAndSportsAndScienceAndTechnologyOrdinance => assert(M6Ministry::of_flag(8) == Some(M6Ministry::MinistryOfEducationAndCultureAndSportsAndScienceAndTechnologyOrdinance)),
            M6Ministry::MinistryOfHealthAndLaborAndWelfareOrdinance => assert(M6Ministry::of_flag(9) == Some(M6Ministry::MinistryOfHealthAndLaborAndWelfareOrdinance)),
            M6Ministry::MinistryOfAgricultureAndForestryAndFisheriesOrdinance => assert(M6Ministry::of_flag(10) == Some(M6Ministry::MinistryOfAgricultureAndForestryAndFisheriesOrdinance)),
            M6Ministry::MinistryOfEconomyAndTradeAndIndustryOrdinance => assert(M6Ministry::of_flag(11) == Some(M6Ministry::MinistryOfEconomyAndTradeAndIndustryOrdinance)),
            M6Ministry::MinistryOfLandAndInfrastructureAndTransportAndTourismOrdinance => assert(M6Ministry::of_flag(12) == Some(M6Ministry::MinistryOfLandAndInfrastructureAndTransportAndTourismOrdinance)),
            M6Ministry::MinistryOfTheEnvironmentOrdinance => assert(M6Ministry::of_flag(13) == Some(M6Ministry::MinistryOfTheEnvironmentOrdinance)),
            M6Ministry::MinistryOfDefenseOrdinance => assert(M6Ministry::of_flag(14) == Some(M6Ministry::MinistryOfDefenseOrdinance)),
            M6Ministry::DigitalAgencyOrdinance => assert(M6Ministry::of_flag(15) == Some(M6Ministry::DigitalAgencyOrdinance)),
            M6Ministry::SpecificPersonalInformationProtectionCommissionRules => assert(M6Ministry::of_flag(18) == Some(M6Ministry::SpecificPersonalInformationProtectionCommissionRules)),
            M6Ministry::JapanTransportSafetyBoardRegulations => assert(M6Ministry::of_flag(19) == Some(M6Ministry::JapanTransportSafetyBoardRegulations)),
            M6Ministry::NuclearRegulationAuthorityRegulations => assert(M6Ministry::of_flag(20) == Some(M6Ministry::NuclearRegulationAuthorityRegulations)),
            M6Ministry::CentralLaborRelationsCommissionRules => assert(M6Ministry::of_flag(21) == Some(M6Ministry::CentralLaborRelationsCommissionRules)),
            M6Ministry::FairTradeCommissionRules => assert(M6Ministry::of_flag(22) == Some(M6Ministry::FairTradeCommissionRules)),
            M6Ministry::NationalPublicSafetyCommissionRegulations => assert(M6Ministry::of_flag(23) == Some(M6Ministry::NationalPublicSafetyCommissionRegulations)),
            M6Ministry::PollutionAdjustmentCommitteeRules => assert(M6Ministry::of_flag(24) == Some(M6Ministry::PollutionAdjustmentCommitteeRules)),
            M6Ministry::PublicSafetyReviewCommitteeRules => assert(M6Ministry::of_flag(25) == Some(M6Ministry::PublicSafetyReviewCommitteeRules)),
            M6Ministry::CasinoManagementCommitteeRules => assert(M6Ministry::of_flag(26) == Some(M6Ministry::CasinoManagementCommitteeRules)),
        }
    }

    fn to_int(&self) -> usize {
        match self {
            M6Ministry::CabinetSecretariatOrdinance => 1,
            M6Ministry::PrimeMinistersOfficeOrdinance => 2,
            M6Ministry::ReconstructionAgencyOrdinance => 3,
            M6Ministry::MinistryOfHomeAffairsOrdinance => 4,
            M6Ministry::MinistryOfJusticeOrdinance => 5,
            M6Ministry::MinistryOfForeignAffairsOrdinance => 6,
            M6Ministry::MinistryOfFinanceOrdinance => 7,
            M6Ministry::MinistryOfEducationAndCultureAndSportsAndScienceAndTechnologyOrdinance => 8,
            M6Ministry::MinistryOfHealthAndLaborAndWelfareOrdinance => 9,
            M6Ministry::MinistryOfAgricultureAndForestryAndFisheriesOrdinance => 10,
            M6Ministry::MinistryOfEconomyAndTradeAndIndustryOrdinance => 11,
            M6Ministry::MinistryOfLandAndInfrastructureAndTransportAndTourismOrdinance => 12,
            M6Ministry::MinistryOfTheEnvironmentOrdinance => 13,
            M6Ministry::MinistryOfDefenseOrdinance => 14,
            M6Ministry::DigitalAgencyOrdinance => 15,
            M6Ministry::SpecificPersonalInformationProtectionCommissionRules => 18,
            M6Ministry::JapanTransportSafetyBoardRegulations => 19,
            M6Ministry::NuclearRegulationAuthorityRegulations => 20,
            M6Ministry::CentralLaborRelationsCommissionRules => 21,
            M6Ministry::FairTradeCommissionRules => 22,
            M6Ministry::NationalPublicSafetyCommissionRegulations => 23,
            M6Ministry::PollutionAdjustmentCommitteeRules => 24,
            M6Ministry::PublicSafetyReviewCommitteeRules => 25,
            M6Ministry::CasinoManagementCommitteeRules => 26,
        }
    }

    fn from_int(n: usize) -> Option<Self> {
        match n {
            1 => Some(M6Ministry::CabinetSecretariatOrdinance),
            2 => Some(M6Ministry::PrimeMinistersOfficeOrdinance),
            3 => Some(M6Ministry::ReconstructionAgencyOrdinance),
            4 => Some(M6Ministry::MinistryOfHomeAffairsOrdinance),
            5 => Some(M6Ministry::MinistryOfJusticeOrdinance),
            6 => Some(M6Ministry::MinistryOfForeignAffairsOrdinance),
            7 => Some(M6Ministry::MinistryOfFinanceOrdinance),
            8 => Some(M6Ministry::MinistryOfEducationAndCultureAndSportsAndScienceAndTechnologyOrdinance),
            9 => Some(M6Ministry::MinistryOfHealthAndLaborAndWelfareOrdinance),
            10 => Some(M6Ministry::MinistryOfAgricultureAndForestryAndFisheriesOrdinance),
            11 => Some(M6Ministry::MinistryOfEconomyAndTradeAndIndustryOrdinance),
            12 => Some(M6Ministry::MinistryOfLandAndInfrastructureAndTransportAndTourismOrdinance),
            13 => Some(M6Ministry::MinistryOfTheEnvironmentOrdinance),
            14 => Some(M6Ministry::MinistryOfDefenseOrdinance),
            15 => Some(M6Ministry::DigitalAgencyOrdinance),
            18 => Some(M6Ministry::SpecificPersonalInformationProtectionCommissionRules),
            19 => Some(M6Ministry::JapanTransportSafetyBoardRegulations),
            20 => Some(M6Ministry::NuclearRegulationAuthorityRegulations),
            21 => Some(M6Ministry::CentralLaborRelationsCommissionRules),
            22 => Some(M6Ministry::FairTradeCommissionRules),
            23 => Some(M6Ministry::NationalPublicSafetyCommissionRegulations),
            24 => Some(M6Ministry::PollutionAdjustmentCommitteeRules),
            25 => Some(M6Ministry::PublicSafetyReviewCommitteeRules),
            26 => Some(M6Ministry::CasinoManagementCommitteeRules),
            _ => None,
        }
    }

    fn start() -> Date {
        Date::new_ad(2001, 1, 16)
    }

    /// 施行中なのでMAX
    fn end() -> Date {
        Date::new_ad(usize::MAX, 12, 31)
    }

    fn rules() -> usize {
        24
    }

    fn name_rule(k: usize) -> (&'static str, &'static str, Self) {
        match k {
            0 => ("内閣官房", "", M6Ministry::CabinetSecretariatOrdinance),
            1 => ("総理庁", "", M6Ministry::PrimeMinistersOfficeOrdinance),
            2 => ("復興庁", "", M6Ministry::ReconstructionAgencyOrdinance),
            3 => ("自治省", "", M6Ministry::MinistryOfHomeAffairsOrdinance),
            4 => ("法務省", "", M6Ministry::MinistryOfJusticeOrdinance),
            5 => ("外務省", "", M6Ministry::MinistryOfForeignAffairsOrdinance),
            6 => ("財務省", "", M6Ministry::MinistryOfFinanceOrdinance),
            7 => ("文部科学省", "", M6Ministry::MinistryOfEducationAndCultureAndSportsAndScienceAndTechnologyOrdinance),
            8 => ("厚生労働省", "", M6Ministry::MinistryOfHealthAndLaborAndWelfareOrdinance),
            9 => ("農林水産省", "", M6Ministry::MinistryOfAgricultureAndForestryAndFisheriesOrdinance),
            10 => ("経済産業省", "", M6Ministry::MinistryOfEconomyAndTradeAndIndustryOrdinance),
            11 => ("国土交通省", "", M6Ministry::MinistryOfLandAndInfrastructureAndTransportAndTourismOrdinance),
            12 => ("環境省", "", M6Ministry::MinistryOfTheEnvironmentOrdinance),
            13 => ("防衛省", "", M6Ministry::MinistryOfDefenseOrdinance),
            14 => ("デジタル庁", "", M6Ministry::DigitalAgencyOrdinance),
            15 => ("特定個人情報保護委員会", "", M6Ministry::SpecificPersonalInformationProtectionCommissionRules),
            16 => ("運輸安全委員会", "", M6Ministry::JapanTransportSafetyBoardRegulations),
            17 => ("原子力規制委員会", "", M6Ministry::NuclearRegulationAuthorityRegulations),
            18 => ("中央労働委員会", "", M6Ministry::CentralLaborRelationsCommissionRules),
            19 => ("公正取引委員会", "", M6Ministry::FairTradeCommissionRules),
            20 => ("国家公安委員会", "", M6Ministry::NationalPublicSafetyCommissionRegulations),
            21 => ("公害等調整委員会", "", M6Ministry::PollutionAdjustmentCommitteeRules),
            22 => ("公安審査委員会", "", M6Ministry::PublicSafetyReviewCommitteeRules),
            _ => ("カジノ管理委員会", "", M6Ministry::CasinoManagementCommitteeRules),
        }
    }

}

} // verus!
