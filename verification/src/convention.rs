//! The fixed parts of the naming convention, stated as laws: the flag number of
//! each ministry in the identifier's bit field, the number of each institution,
//! the names by which ministries and institutions are recognised in a title,
//! and the numerals in which an era year is written.
use vstd::prelude::*;
use vstd::string::*;
use crate::era::{lemma_era_name_roundtrip, Era, Wareki};
use crate::institution::Institution;
use crate::ministries::{M1Ministry, M2Ministry, M3Ministry, M4Ministry, M5Ministry, M6Ministry};
use crate::ministry::{lemma_named_in_contains, named_in, MinistryContents};
use crate::text::{contains, parse_uint};
use crate::wareki_text::{
    ascii_digit, first_match, in_year_class, kansuji_number, run_len, wareki_of_text, WarekiMatch, YearForm,
};

verus! {

/// The flag numbers of the ministries of the first period, as the naming
/// convention fixes them; no other flag number names a ministry of the period.
pub proof fn lemma_m1_flag_numbers()
    ensures
        M1Ministry::CabinetOrder.flag() == 1,
        M1Ministry::ImperialHouseholdOrdinance.flag() == 2,
        M1Ministry::GreaterEastAsiaMinisterialOrdinance.flag() == 3,
        M1Ministry::MinistryOfTheInteriorOrdinance.flag() == 4,
        M1Ministry::MinistryOfJusticeOrdinance.flag() == 5,
        M1Ministry::MinistryOfForeignAffairsOrdinance.flag() == 6,
        M1Ministry::MinistryOfFinanceOrdinance.flag() == 7,
        M1Ministry::MinistryOfEducationOrdinance.flag() == 8,
        M1Ministry::MinistryOfHealthAndWelfareOrdinance.flag() == 9,
        M1Ministry::MinistryOfAgricultureAndCommerceOrdinance.flag() == 10,
        M1Ministry::MinistryOfCommerceAndIndustryOrdinance.flag() == 11,
        M1Ministry::RailwayMinisterialOrdinance.flag() == 12,
        M1Ministry::MinistryOfCommunicationsOrdinance.flag() == 13,
        M1Ministry::MinistryOfTheArmyOrdinanceA.flag() == 14,
        M1Ministry::NavyMinisterialOrdinance.flag() == 15,
        M1Ministry::MinistryOfTheArmyOrdinanceB.flag() == 16,
        M1Ministry::MinistryOfAgricultureAndForestryOrdinance.flag() == 17,
        M1Ministry::MinistryOfLandDevelopmentOrdinanceA.flag() == 18,
        M1Ministry::MinistryOfLandDevelopmentOrdinanceB.flag() == 19,
        M1Ministry::MinistryOfAgricultureAndCommerceOrdinanceTemporary.flag() == 20,
        M1Ministry::MinistryOfJusticeOrdinanceHei.flag() == 21,
        M1Ministry::of_flag(1) == Some(M1Ministry::CabinetOrder),
        M1Ministry::of_flag(2) == Some(M1Ministry::ImperialHouseholdOrdinance),
        M1Ministry::of_flag(3) == Some(M1Ministry::GreaterEastAsiaMinisterialOrdinance),
        M1Ministry::of_flag(4) == Some(M1Ministry::MinistryOfTheInteriorOrdinance),
        M1Ministry::of_flag(5) == Some(M1Ministry::MinistryOfJusticeOrdinance),
        M1Ministry::of_flag(6) == Some(M1Ministry::MinistryOfForeignAffairsOrdinance),
        M1Ministry::of_flag(7) == Some(M1Ministry::MinistryOfFinanceOrdinance),
        M1Ministry::of_flag(8) == Some(M1Ministry::MinistryOfEducationOrdinance),
        M1Ministry::of_flag(9) == Some(M1Ministry::MinistryOfHealthAndWelfareOrdinance),
        M1Ministry::of_flag(10) == Some(M1Ministry::MinistryOfAgricultureAndCommerceOrdinance),
        M1Ministry::of_flag(11) == Some(M1Ministry::MinistryOfCommerceAndIndustryOrdinance),
        M1Ministry::of_flag(12) == Some(M1Ministry::RailwayMinisterialOrdinance),
        M1Ministry::of_flag(13) == Some(M1Ministry::MinistryOfCommunicationsOrdinance),
        M1Ministry::of_flag(14) == Some(M1Ministry::MinistryOfTheArmyOrdinanceA),
        M1Ministry::of_flag(15) == Some(M1Ministry::NavyMinisterialOrdinance),
        M1Ministry::of_flag(16) == Some(M1Ministry::MinistryOfTheArmyOrdinanceB),
        M1Ministry::of_flag(17) == Some(M1Ministry::MinistryOfAgricultureAndForestryOrdinance),
        M1Ministry::of_flag(18) == Some(M1Ministry::MinistryOfLandDevelopmentOrdinanceA),
        M1Ministry::of_flag(19) == Some(M1Ministry::MinistryOfLandDevelopmentOrdinanceB),
        M1Ministry::of_flag(20) == Some(M1Ministry::MinistryOfAgricultureAndCommerceOrdinanceTemporary),
        M1Ministry::of_flag(21) == Some(M1Ministry::MinistryOfJusticeOrdinanceHei),
        forall|n: int| !(n == 1 || n == 2 || n == 3 || n == 4 || n == 5 || n == 6 || n == 7 || n == 8 || n == 9 || n == 10 || n == 11 || n == 12 || n == 13 || n == 14 || n == 15 || n == 16 || n == 17 || n == 18 || n == 19 || n == 20 || n == 21) ==> #[trigger] M1Ministry::of_flag(n) is None,
{
}

/// The texts whose presence in a title names a ministry of the first
/// period: its name and, where the period has two ordinances of one
/// ministry, the mark that tells them apart (empty otherwise).
pub open spec fn m1_title_texts(x: M1Ministry) -> (Seq<char>, Seq<char>) {
    match x {
        M1Ministry::CabinetOrder => ("閣"@, ""@),
        M1Ministry::ImperialHouseholdOrdinance => ("宮内省"@, ""@),
        M1Ministry::GreaterEastAsiaMinisterialOrdinance => ("大東亜省"@, ""@),
        M1Ministry::MinistryOfTheInteriorOrdinance => ("内務省"@, ""@),
        M1Ministry::MinistryOfJusticeOrdinance => ("司法省"@, ""@),
        M1Ministry::MinistryOfForeignAffairsOrdinance => ("外務省"@, ""@),
        M1Ministry::MinistryOfFinanceOrdinance => ("大蔵省"@, ""@),
        M1Ministry::MinistryOfEducationOrdinance => ("文部省"@, ""@),
        M1Ministry::MinistryOfHealthAndWelfareOrdinance => ("厚生省"@, ""@),
        M1Ministry::MinistryOfAgricultureAndCommerceOrdinance => ("農商務省"@, ""@),
        M1Ministry::MinistryOfCommerceAndIndustryOrdinance => ("商工省"@, ""@),
        M1Ministry::RailwayMinisterialOrdinance => ("鉄道省"@, ""@),
        M1Ministry::MinistryOfCommunicationsOrdinance => ("逓信省"@, ""@),
        M1Ministry::MinistryOfTheArmyOrdinanceA => ("陸軍省"@, "甲"@),
        M1Ministry::NavyMinisterialOrdinance => ("海軍省"@, ""@),
        M1Ministry::MinistryOfTheArmyOrdinanceB => ("陸軍省"@, "乙"@),
        M1Ministry::MinistryOfAgricultureAndForestryOrdinance => ("農林省"@, ""@),
        M1Ministry::MinistryOfLandDevelopmentOrdinanceA => ("拓殖務省"@, ""@),
        M1Ministry::MinistryOfLandDevelopmentOrdinanceB => ("拓務省"@, ""@),
        M1Ministry::MinistryOfAgricultureAndCommerceOrdinanceTemporary => ("農商務省"@, "臨"@),
        M1Ministry::MinistryOfJusticeOrdinanceHei => ("司法省"@, "丙"@),
    }
}

/// A ministry of the first period is read from a title exactly when the
/// title holds the texts that name it.
pub proof fn lemma_m1_title_names(t: Seq<char>, x: M1Ministry)
    ensures
        named_in(t, |k: int| M1Ministry::rule(k), M1Ministry::rule_count() as int).contains(x) <==> (
        contains(t, m1_title_texts(x).0) && contains(t, m1_title_texts(x).1)),
{
    let rule = |k: int| M1Ministry::rule(k);
    lemma_named_in_contains(t, rule, M1Ministry::rule_count() as int, x);
    assert forall|j: int|
        0 <= j < M1Ministry::rule_count() && #[trigger] rule(j).2 == x implies rule(j).0
        == m1_title_texts(x).0 && rule(j).1 == m1_title_texts(x).1 by {
        if j == 0 {
        } else if j == 1 {
        } else if j == 2 {
        } else if j == 3 {
        } else if j == 4 {
        } else if j == 5 {
        } else if j == 6 {
        } else if j == 7 {
        } else if j == 8 {
        } else if j == 9 {
        } else if j == 10 {
        } else if j == 11 {
        } else if j == 12 {
        } else if j == 13 {
        } else if j == 14 {
        } else if j == 15 {
        } else if j == 16 {
        } else if j == 17 {
        } else if j == 18 {
        } else if j == 19 {
        } else if j == 20 {
        }
    }
    match x {
        M1Ministry::CabinetOrder => {
            assert(rule(0) == ("閣"@, ""@, x));
            assert(rule(0).2 == x);
        },
        M1Ministry::ImperialHouseholdOrdinance => {
            assert(rule(1) == ("宮内省"@, ""@, x));
            assert(rule(1).2 == x);
        },
        M1Ministry::GreaterEastAsiaMinisterialOrdinance => {
            assert(rule(2) == ("大東亜省"@, ""@, x));
            assert(rule(2).2 == x);
        },
        M1Ministry::MinistryOfTheInteriorOrdinance => {
            assert(rule(3) == ("内務省"@, ""@, x));
            assert(rule(3).2 == x);
        },
        M1Ministry::MinistryOfJusticeOrdinance => {
            assert(rule(4) == ("司法省"@, ""@, x));
            assert(rule(4).2 == x);
        },
        M1Ministry::MinistryOfForeignAffairsOrdinance => {
            assert(rule(5) == ("外務省"@, ""@, x));
            assert(rule(5).2 == x);
        },
        M1Ministry::MinistryOfFinanceOrdinance => {
            assert(rule(6) == ("大蔵省"@, ""@, x));
            assert(rule(6).2 == x);
        },
        M1Ministry::MinistryOfEducationOrdinance => {
            assert(rule(7) == ("文部省"@, ""@, x));
            assert(rule(7).2 == x);
        },
        M1Ministry::MinistryOfHealthAndWelfareOrdinance => {
            assert(rule(8) == ("厚生省"@, ""@, x));
            assert(rule(8).2 == x);
        },
        M1Ministry::MinistryOfAgricultureAndCommerceOrdinance => {
            assert(rule(9) == ("農商務省"@, ""@, x));
            assert(rule(9).2 == x);
        },
        M1Ministry::MinistryOfCommerceAndIndustryOrdinance => {
            assert(rule(10) == ("商工省"@, ""@, x));
            assert(rule(10).2 == x);
        },
        M1Ministry::RailwayMinisterialOrdinance => {
            assert(rule(11) == ("鉄道省"@, ""@, x));
            assert(rule(11).2 == x);
        },
        M1Ministry::MinistryOfCommunicationsOrdinance => {
            assert(rule(12) == ("逓信省"@, ""@, x));
            assert(rule(12).2 == x);
        },
        M1Ministry::MinistryOfTheArmyOrdinanceA => {
            assert(rule(13) == ("陸軍省"@, "甲"@, x));
            assert(rule(13).2 == x);
        },
        M1Ministry::NavyMinisterialOrdinance => {
            assert(rule(14) == ("海軍省"@, ""@, x));
            assert(rule(14).2 == x);
        },
        M1Ministry::MinistryOfTheArmyOrdinanceB => {
            assert(rule(15) == ("陸軍省"@, "乙"@, x));
            assert(rule(15).2 == x);
        },
        M1Ministry::MinistryOfAgricultureAndForestryOrdinance => {
            assert(rule(16) == ("農林省"@, ""@, x));
            assert(rule(16).2 == x);
        },
        M1Ministry::MinistryOfLandDevelopmentOrdinanceA => {
            assert(rule(17) == ("拓殖務省"@, ""@, x));
            assert(rule(17).2 == x);
        },
        M1Ministry::MinistryOfLandDevelopmentOrdinanceB => {
            assert(rule(18) == ("拓務省"@, ""@, x));
            assert(rule(18).2 == x);
        },
        M1Ministry::MinistryOfAgricultureAndCommerceOrdinanceTemporary => {
            assert(rule(19) == ("農商務省"@, "臨"@, x));
            assert(rule(19).2 == x);
        },
        M1Ministry::MinistryOfJusticeOrdinanceHei => {
            assert(rule(20) == ("司法省"@, "丙"@, x));
            assert(rule(20).2 == x);
        },
    }
}

/// The flag numbers of the ministries of the second period, as the naming
/// convention fixes them; no other flag number names a ministry of the period.
pub proof fn lemma_m2_flag_numbers()
    ensures
        M2Ministry::CabinetOrder.flag() == 1,
        M2Ministry::ImperialHouseholdOrdinance.flag() == 2,
        M2Ministry::GreaterEastAsiaMinisterialOrdinance.flag() == 3,
        M2Ministry::MinistryOfTheInteriorOrdinance.flag() == 4,
        M2Ministry::MinistryOfJusticeOrdinance.flag() == 5,
        M2Ministry::MinistryOfForeignAffairsOrdinance.flag() == 6,
        M2Ministry::MinistryOfFinanceOrdinance.flag() == 7,
        M2Ministry::MinistryOfEducationOrdinance.flag() == 8,
        M2Ministry::MinistryOfHealthAndWelfareOrdinance.flag() == 9,
        M2Ministry::MinistryOfAgricultureAndCommerceOrdinance.flag() == 10,
        M2Ministry::MinistryOfCommerceAndIndustryOrdinance.flag() == 11,
        M2Ministry::MinistryOfTransportOrdinance.flag() == 12,
        M2Ministry::MinistryOfTransportAndCommunicationsOrdinance.flag() == 13,
        M2Ministry::MinistryOfTheArmyOrdinanceA.flag() == 14,
        M2Ministry::NavyMinisterialOrdinance.flag() == 15,
        M2Ministry::OrdinanceOfTheMinistryOfMunitions.flag() == 16,
        M2Ministry::MinistryOfAgricultureAndForestryOrdinance.flag() == 17,
        M2Ministry::of_flag(1) == Some(M2Ministry::CabinetOrder),
        M2Ministry::of_flag(2) == Some(M2Ministry::ImperialHouseholdOrdinance),
        M2Ministry::of_flag(3) == Some(M2Ministry::GreaterEastAsiaMinisterialOrdinance),
        M2Ministry::of_flag(4) == Some(M2Ministry::MinistryOfTheInteriorOrdinance),
        M2Ministry::of_flag(5) == Some(M2Ministry::MinistryOfJusticeOrdinance),
        M2Ministry::of_flag(6) == Some(M2Ministry::MinistryOfForeignAffairsOrdinance),
        M2Ministry::of_flag(7) == Some(M2Ministry::MinistryOfFinanceOrdinance),
        M2Ministry::of_flag(8) == Some(M2Ministry::MinistryOfEducationOrdinance),
        M2Ministry::of_flag(9) == Some(M2Ministry::MinistryOfHealthAndWelfareOrdinance),
        M2Ministry::of_flag(10) == Some(M2Ministry::MinistryOfAgricultureAndCommerceOrdinance),
        M2Ministry::of_flag(11) == Some(M2Ministry::MinistryOfCommerceAndIndustryOrdinance),
        M2Ministry::of_flag(12) == Some(M2Ministry::MinistryOfTransportOrdinance),
        M2Ministry::of_flag(13) == Some(M2Ministry::MinistryOfTransportAndCommunicationsOrdinance),
        M2Ministry::of_flag(14) == Some(M2Ministry::MinistryOfTheArmyOrdinanceA),
        M2Ministry::of_flag(15) == Some(M2Ministry::NavyMinisterialOrdinance),
        M2Ministry::of_flag(16) == Some(M2Ministry::OrdinanceOfTheMinistryOfMunitions),
        M2Ministry::of_flag(17) == Some(M2Ministry::MinistryOfAgricultureAndForestryOrdinance),
        forall|n: int| !(n == 1 || n == 2 || n == 3 || n == 4 || n == 5 || n == 6 || n == 7 || n == 8 || n == 9 || n == 10 || n == 11 || n == 12 || n == 13 || n == 14 || n == 15 || n == 16 || n == 17) ==> #[trigger] M2Ministry::of_flag(n) is None,
{
}

/// The texts whose presence in a title names a ministry of the second
/// period: its name and, where the period has two ordinances of one
/// ministry, the mark that tells them apart (empty otherwise).
pub open spec fn m2_title_texts(x: M2Ministry) -> (Seq<char>, Seq<char>) {
    match x {
        M2Ministry::CabinetOrder => ("閣"@, ""@),
        M2Ministry::ImperialHouseholdOrdinance => ("宮内省"@, ""@),
        M2Ministry::GreaterEastAsiaMinisterialOrdinance => ("大東亜省"@, ""@),
        M2Ministry::MinistryOfTheInteriorOrdinance => ("内務省"@, ""@),
        M2Ministry::MinistryOfJusticeOrdinance => ("司法省"@, ""@),
        M2Ministry::MinistryOfForeignAffairsOrdinance => ("外務省"@, ""@),
        M2Ministry::MinistryOfFinanceOrdinance => ("大蔵省"@, ""@),
        M2Ministry::MinistryOfEducationOrdinance => ("文部省"@, ""@),
        M2Ministry::MinistryOfHealthAndWelfareOrdinance => ("厚生省"@, ""@),
        M2Ministry::MinistryOfAgricultureAndCommerceOrdinance => ("農商務省"@, ""@),
        M2Ministry::MinistryOfCommerceAndIndustryOrdinance => ("商工省"@, ""@),
        M2Ministry::MinistryOfTransportOrdinance => ("運輸省"@, ""@),
        M2Ministry::MinistryOfTransportAndCommunicationsOrdinance => ("運輸通信省"@, ""@),
        M2Ministry::MinistryOfTheArmyOrdinanceA => ("陸軍省"@, "甲"@),
        M2Ministry::NavyMinisterialOrdinance => ("海軍省"@, ""@),
        M2Ministry::OrdinanceOfTheMinistryOfMunitions => ("軍需省"@, ""@),
        M2Ministry::MinistryOfAgricultureAndForestryOrdinance => ("農林省"@, ""@),
    }
}

/// A ministry of the second period is read from a title exactly when the
/// title holds the texts that name it.
pub proof fn lemma_m2_title_names(t: Seq<char>, x: M2Ministry)
    ensures
        named_in(t, |k: int| M2Ministry::rule(k), M2Ministry::rule_count() as int).contains(x) <==> (
        contains(t, m2_title_texts(x).0) && contains(t, m2_title_texts(x).1)),
{
    let rule = |k: int| M2Ministry::rule(k);
    lemma_named_in_contains(t, rule, M2Ministry::rule_count() as int, x);
    assert forall|j: int|
        0 <= j < M2Ministry::rule_count() && #[trigger] rule(j).2 == x implies rule(j).0
        == m2_title_texts(x).0 && rule(j).1 == m2_title_texts(x).1 by {
        if j == 0 {
        } else if j == 1 {
        } else if j == 2 {
        } else if j == 3 {
        } else if j == 4 {
        } else if j == 5 {
        } else if j == 6 {
        } else if j == 7 {
        } else if j == 8 {
        } else if j == 9 {
        } else if j == 10 {
        } else if j == 11 {
        } else if j == 12 {
        } else if j == 13 {
        } else if j == 14 {
        } else if j == 15 {
        } else if j == 16 {
        }
    }
    match x {
        M2Ministry::CabinetOrder => {
            assert(rule(0) == ("閣"@, ""@, x));
            assert(rule(0).2 == x);
        },
        M2Ministry::ImperialHouseholdOrdinance => {
            assert(rule(1) == ("宮内省"@, ""@, x));
            assert(rule(1).2 == x);
        },
        M2Ministry::GreaterEastAsiaMinisterialOrdinance => {
            assert(rule(2) == ("大東亜省"@, ""@, x));
            assert(rule(2).2 == x);
        },
        M2Ministry::MinistryOfTheInteriorOrdinance => {
            assert(rule(3) == ("内務省"@, ""@, x));
            assert(rule(3).2 == x);
        },
        M2Ministry::MinistryOfJusticeOrdinance => {
            assert(rule(4) == ("司法省"@, ""@, x));
            assert(rule(4).2 == x);
        },
        M2Ministry::MinistryOfForeignAffairsOrdinance => {
            assert(rule(5) == ("外務省"@, ""@, x));
            assert(rule(5).2 == x);
        },
        M2Ministry::MinistryOfFinanceOrdinance => {
            assert(rule(6) == ("大蔵省"@, ""@, x));
            assert(rule(6).2 == x);
        },
        M2Ministry::MinistryOfEducationOrdinance => {
            assert(rule(7) == ("文部省"@, ""@, x));
            assert(rule(7).2 == x);
        },
        M2Ministry::MinistryOfHealthAndWelfareOrdinance => {
            assert(rule(8) == ("厚生省"@, ""@, x));
            assert(rule(8).2 == x);
        },
        M2Ministry::MinistryOfAgricultureAndCommerceOrdinance => {
            assert(rule(9) == ("農商務省"@, ""@, x));
            assert(rule(9).2 == x);
        },
        M2Ministry::MinistryOfCommerceAndIndustryOrdinance => {
            assert(rule(10) == ("商工省"@, ""@, x));
            assert(rule(10).2 == x);
        },
        M2Ministry::MinistryOfTransportOrdinance => {
            assert(rule(11) == ("運輸省"@, ""@, x));
            assert(rule(11).2 == x);
        },
        M2Ministry::MinistryOfTransportAndCommunicationsOrdinance => {
            assert(rule(12) == ("運輸通信省"@, ""@, x));
            assert(rule(12).2 == x);
        },
        M2Ministry::MinistryOfTheArmyOrdinanceA => {
            assert(rule(13) == ("陸軍省"@, "甲"@, x));
            assert(rule(13).2 == x);
        },
        M2Ministry::NavyMinisterialOrdinance => {
            assert(rule(14) == ("海軍省"@, ""@, x));
            assert(rule(14).2 == x);
        },
        M2Ministry::OrdinanceOfTheMinistryOfMunitions => {
            assert(rule(15) == ("軍需省"@, ""@, x));
            assert(rule(15).2 == x);
        },
        M2Ministry::MinistryOfAgricultureAndForestryOrdinance => {
            assert(rule(16) == ("農林省"@, ""@, x));
            assert(rule(16).2 == x);
        },
    }
}

/// The flag numbers of the ministries of the third period, as the naming
/// convention fixes them; no other flag number names a ministry of the period.
pub proof fn lemma_m3_flag_numbers()
    ensures
        M3Ministry::CabinetOrder.flag() == 1,
        M3Ministry::ImperialHouseholdOrdinance.flag() == 2,
        M3Ministry::EconomicStabilityHeadquartersOrdinance.flag() == 3,
        M3Ministry::MinistryOfTheInteriorOrdinance.flag() == 4,
        M3Ministry::MinistryOfJusticeOrdinance.flag() == 5,
        M3Ministry::MinistryOfForeignAffairsOrdinance.flag() == 6,
        M3Ministry::MinistryOfFinanceOrdinance.flag() == 7,
        M3Ministry::MinistryOfEducationOrdinance.flag() == 8,
        M3Ministry::MinistryOfHealthAndWelfareOrdinance.flag() == 9,
        M3Ministry::MinistryOfAgricultureAndForestryOrdinance.flag() == 10,
        M3Ministry::MinistryOfCommerceAndIndustryOrdinance.flag() == 11,
        M3Ministry::MinistryOfTransportOrdinance.flag() == 12,
        M3Ministry::MinistryOfCommunicationsOrdinance.flag() == 13,
        M3Ministry::FirstMinisterialOrdinanceForDemobilization.flag() == 14,
        M3Ministry::SecondMinisterialOrdinanceForDemobilization.flag() == 15,
        M3Ministry::PriceAgencyOrdinance.flag() == 16,
        M3Ministry::CentralLaborRelationsCommissionRules.flag() == 21,
        M3Ministry::of_flag(1) == Some(M3Ministry::CabinetOrder),
        M3Ministry::of_flag(2) == Some(M3Ministry::ImperialHouseholdOrdinance),
        M3Ministry::of_flag(3) == Some(M3Ministry::EconomicStabilityHeadquartersOrdinance),
        M3Ministry::of_flag(4) == Some(M3Ministry::MinistryOfTheInteriorOrdinance),
        M3Ministry::of_flag(5) == Some(M3Ministry::MinistryOfJusticeOrdinance),
        M3Ministry::of_flag(6) == Some(M3Ministry::MinistryOfForeignAffairsOrdinance),
        M3Ministry::of_flag(7) == Some(M3Ministry::MinistryOfFinanceOrdinance),
        M3Ministry::of_flag(8) == Some(M3Ministry::MinistryOfEducationOrdinance),
        M3Ministry::of_flag(9) == Some(M3Ministry::MinistryOfHealthAndWelfareOrdinance),
        M3Ministry::of_flag(10) == Some(M3Ministry::MinistryOfAgricultureAndForestryOrdinance),
        M3Ministry::of_flag(11) == Some(M3Ministry::MinistryOfCommerceAndIndustryOrdinance),
        M3Ministry::of_flag(12) == Some(M3Ministry::MinistryOfTransportOrdinance),
        M3Ministry::of_flag(13) == Some(M3Ministry::MinistryOfCommunicationsOrdinance),
        M3Ministry::of_flag(14) == Some(M3Ministry::FirstMinisterialOrdinanceForDemobilization),
        M3Ministry::of_flag(15) == Some(M3Ministry::SecondMinisterialOrdinanceForDemobilization),
        M3Ministry::of_flag(16) == Some(M3Ministry::PriceAgencyOrdinance),
        M3Ministry::of_flag(21) == Some(M3Ministry::CentralLaborRelationsCommissionRules),
        forall|n: int| !(n == 1 || n == 2 || n == 3 || n == 4 || n == 5 || n == 6 || n == 7 || n == 8 || n == 9 || n == 10 || n == 11 || n == 12 || n == 13 || n == 14 || n == 15 || n == 16 || n == 21) ==> #[trigger] M3Ministry::of_flag(n) is None,
{
}

/// The texts whose presence in a title names a ministry of the third
/// period: its name and, where the period has two ordinances of one
/// ministry, the mark that tells them apart (empty otherwise).
pub open spec fn m3_title_texts(x: M3Ministry) -> (Seq<char>, Seq<char>) {
    match x {
        M3Ministry::CabinetOrder => ("閣"@, ""@),
        M3Ministry::ImperialHouseholdOrdinance => ("宮内省"@, ""@),
        M3Ministry::EconomicStabilityHeadquartersOrdinance => ("経済安定本部"@, ""@),
        M3Ministry::MinistryOfTheInteriorOrdinance => ("内務省"@, ""@),
        M3Ministry::MinistryOfJusticeOrdinance => ("司法省"@, ""@),
        M3Ministry::MinistryOfForeignAffairsOrdinance => ("外務省"@, ""@),
        M3Ministry::MinistryOfFinanceOrdinance => ("大蔵省"@, ""@),
        M3Ministry::MinistryOfEducationOrdinance => ("文部省"@, ""@),
        M3Ministry::MinistryOfHealthAndWelfareOrdinance => ("厚生省"@, ""@),
        M3Ministry::MinistryOfAgricultureAndForestryOrdinance => ("農林省"@, ""@),
        M3Ministry::MinistryOfCommerceAndIndustryOrdinance => ("商工省"@, ""@),
        M3Ministry::MinistryOfTransportOrdinance => ("運輸省"@, ""@),
        M3Ministry::MinistryOfCommunicationsOrdinance => ("逓信省"@, ""@),
        M3Ministry::FirstMinisterialOrdinanceForDemobilization => ("第一復員省"@, ""@),
        M3Ministry::SecondMinisterialOrdinanceForDemobilization => ("第二復員省"@, ""@),
        M3Ministry::PriceAgencyOrdinance => ("物価庁"@, ""@),
        M3Ministry::CentralLaborRelationsCommissionRules => ("中央労働委員会"@, ""@),
    }
}

/// A ministry of the third period is read from a title exactly when the
/// title holds the texts that name it.
pub proof fn lemma_m3_title_names(t: Seq<char>, x: M3Ministry)
    ensures
        named_in(t, |k: int| M3Ministry::rule(k), M3Ministry::rule_count() as int).contains(x) <==> (
        contains(t, m3_title_texts(x).0) && contains(t, m3_title_texts(x).1)),
{
    let rule = |k: int| M3Ministry::rule(k);
    lemma_named_in_contains(t, rule, M3Ministry::rule_count() as int, x);
    assert forall|j: int|
        0 <= j < M3Ministry::rule_count() && #[trigger] rule(j).2 == x implies rule(j).0
        == m3_title_texts(x).0 && rule(j).1 == m3_title_texts(x).1 by {
        if j == 0 {
        } else if j == 1 {
        } else if j == 2 {
        } else if j == 3 {
        } else if j == 4 {
        } else if j == 5 {
        } else if j == 6 {
        } else if j == 7 {
        } else if j == 8 {
        } else if j == 9 {
        } else if j == 10 {
        } else if j == 11 {
        } else if j == 12 {
        } else if j == 13 {
        } else if j == 14 {
        } else if j == 15 {
        } else if j == 16 {
        }
    }
    match x {
        M3Ministry::CabinetOrder => {
            assert(rule(0) == ("閣"@, ""@, x));
            assert(rule(0).2 == x);
        },
        M3Ministry::ImperialHouseholdOrdinance => {
            assert(rule(1) == ("宮内省"@, ""@, x));
            assert(rule(1).2 == x);
        },
        M3Ministry::EconomicStabilityHeadquartersOrdinance => {
            assert(rule(2) == ("経済安定本部"@, ""@, x));
            assert(rule(2).2 == x);
        },
        M3Ministry::MinistryOfTheInteriorOrdinance => {
            assert(rule(3) == ("内務省"@, ""@, x));
            assert(rule(3).2 == x);
        },
        M3Ministry::MinistryOfJusticeOrdinance => {
            assert(rule(4) == ("司法省"@, ""@, x));
            assert(rule(4).2 == x);
        },
        M3Ministry::MinistryOfForeignAffairsOrdinance => {
            assert(rule(5) == ("外務省"@, ""@, x));
            assert(rule(5).2 == x);
        },
        M3Ministry::MinistryOfFinanceOrdinance => {
            assert(rule(6) == ("大蔵省"@, ""@, x));
            assert(rule(6).2 == x);
        },
        M3Ministry::MinistryOfEducationOrdinance => {
            assert(rule(7) == ("文部省"@, ""@, x));
            assert(rule(7).2 == x);
        },
        M3Ministry::MinistryOfHealthAndWelfareOrdinance => {
            assert(rule(8) == ("厚生省"@, ""@, x));
            assert(rule(8).2 == x);
        },
        M3Ministry::MinistryOfAgricultureAndForestryOrdinance => {
            assert(rule(9) == ("農林省"@, ""@, x));
            assert(rule(9).2 == x);
        },
        M3Ministry::MinistryOfCommerceAndIndustryOrdinance => {
            assert(rule(10) == ("商工省"@, ""@, x));
            assert(rule(10).2 == x);
        },
        M3Ministry::MinistryOfTransportOrdinance => {
            assert(rule(11) == ("運輸省"@, ""@, x));
            assert(rule(11).2 == x);
        },
        M3Ministry::MinistryOfCommunicationsOrdinance => {
            assert(rule(12) == ("逓信省"@, ""@, x));
            assert(rule(12).2 == x);
        },
        M3Ministry::FirstMinisterialOrdinanceForDemobilization => {
            assert(rule(13) == ("第一復員省"@, ""@, x));
            assert(rule(13).2 == x);
        },
        M3Ministry::SecondMinisterialOrdinanceForDemobilization => {
            assert(rule(14) == ("第二復員省"@, ""@, x));
            assert(rule(14).2 == x);
        },
        M3Ministry::PriceAgencyOrdinance => {
            assert(rule(15) == ("物価庁"@, ""@, x));
            assert(rule(15).2 == x);
        },
        M3Ministry::CentralLaborRelationsCommissionRules => {
            assert(rule(16) == ("中央労働委員会"@, ""@, x));
            assert(rule(16).2 == x);
        },
    }
}

/// The flag numbers of the ministries of the fourth period, as the naming
/// convention fixes them; no other flag number names a ministry of the period.
pub proof fn lemma_m4_flag_numbers()
    ensures
        M4Ministry::LegalAffairsAgencyOrdinance.flag() == 1,
        M4Ministry::PrimeMinistersOfficeOrdinance.flag() == 2,
        M4Ministry::EconomicStabilityHeadquartersOrdinance.flag() == 3,
        M4Ministry::MinistryOfTheInteriorOrdinance.flag() == 4,
        M4Ministry::MinistryOfJusticeOrdinance.flag() == 5,
        M4Ministry::MinistryOfForeignAffairsOrdinance.flag() == 6,
        M4Ministry::MinistryOfFinanceOrdinance.flag() == 7,
        M4Ministry::MinistryOfEducationOrdinance.flag() == 8,
        M4Ministry::MinistryOfHealthAndWelfareOrdinance.flag() == 9,
        M4Ministry::MinistryOfAgricultureAndForestryOrdinance.flag() == 10,
        M4Ministry::MinistryOfInternationalTradeAndIndustryOrdinance.flag() == 11,
        M4Ministry::MinistryOfTransportOrdinance.flag() == 12,
        M4Ministry::MinistryOfCommunicationsOrdinance.flag() == 13,
        M4Ministry::MinistryOfLaborOrdinance.flag() == 14,
        M4Ministry::MinistryOfConstructionOrdinance.flag() == 15,
        M4Ministry::PriceAgencyOrdinance.flag() == 16,
        M4Ministry::MinistryOfCommerceAndIndustryOrdinance.flag() == 17,
        M4Ministry::CentralLaborRelationsCommissionRules.flag() == 21,
        M4Ministry::FairTradeCommissionRules.flag() == 22,
        M4Ministry::NationalPublicSafetyCommissionRegulations.flag() == 23,
        M4Ministry::of_flag(1) == Some(M4Ministry::LegalAffairsAgencyOrdinance),
        M4Ministry::of_flag(2) == Some(M4Ministry::PrimeMinistersOfficeOrdinance),
        M4Ministry::of_flag(3) == Some(M4Ministry::EconomicStabilityHeadquartersOrdinance),
        M4Ministry::of_flag(4) == Some(M4Ministry::MinistryOfTheInteriorOrdinance),
        M4Ministry::of_flag(5) == Some(M4Ministry::MinistryOfJusticeOrdinance),
        M4Ministry::of_flag(6) == Some(M4Ministry::MinistryOfForeignAffairsOrdinance),
        M4Ministry::of_flag(7) == Some(M4Ministry::MinistryOfFinanceOrdinance),
        M4Ministry::of_flag(8) == Some(M4Ministry::MinistryOfEducationOrdinance),
        M4Ministry::of_flag(9) == Some(M4Ministry::MinistryOfHealthAndWelfareOrdinance),
        M4Ministry::of_flag(10) == Some(M4Ministry::MinistryOfAgricultureAndForestryOrdinance),
        M4Ministry::of_flag(11) == Some(M4Ministry::MinistryOfInternationalTradeAndIndustryOrdinance),
        M4Ministry::of_flag(12) == Some(M4Ministry::MinistryOfTransportOrdinance),
        M4Ministry::of_flag(13) == Some(M4Ministry::MinistryOfCommunicationsOrdinance),
        M4Ministry::of_flag(14) == Some(M4Ministry::MinistryOfLaborOrdinance),
        M4Ministry::of_flag(15) == Some(M4Ministry::MinistryOfConstructionOrdinance),
        M4Ministry::of_flag(16) == Some(M4Ministry::PriceAgencyOrdinance),
        M4Ministry::of_flag(17) == Some(M4Ministry::MinistryOfCommerceAndIndustryOrdinance),
        M4Ministry::of_flag(21) == Some(M4Ministry::CentralLaborRelationsCommissionRules),
        M4Ministry::of_flag(22) == Some(M4Ministry::FairTradeCommissionRules),
        M4Ministry::of_flag(23) == Some(M4Ministry::NationalPublicSafetyCommissionRegulations),
        forall|n: int| !(n == 1 || n == 2 || n == 3 || n == 4 || n == 5 || n == 6 || n == 7 || n == 8 || n == 9 || n == 10 || n == 11 || n == 12 || n == 13 || n == 14 || n == 15 || n == 16 || n == 17 || n == 21 || n == 22 || n == 23) ==> #[trigger] M4Ministry::of_flag(n) is None,
{
}

/// The texts whose presence in a title names a ministry of the fourth
/// period: its name and, where the period has two ordinances of one
/// ministry, the mark that tells them apart (empty otherwise).
pub open spec fn m4_title_texts(x: M4Ministry) -> (Seq<char>, Seq<char>) {
    match x {
        M4Ministry::LegalAffairsAgencyOrdinance => ("法務庁"@, ""@),
        M4Ministry::PrimeMinistersOfficeOrdinance => ("総理庁"@, ""@),
        M4Ministry::EconomicStabilityHeadquartersOrdinance => ("経済安定本部"@, ""@),
        M4Ministry::MinistryOfTheInteriorOrdinance => ("内務省"@, ""@),
        M4Ministry::MinistryOfJusticeOrdinance => ("司法省"@, ""@),
        M4Ministry::MinistryOfForeignAffairsOrdinance => ("外務省"@, ""@),
        M4Ministry::MinistryOfFinanceOrdinance => ("大蔵省"@, ""@),
        M4Ministry::MinistryOfEducationOrdinance => ("文部省"@, ""@),
        M4Ministry::MinistryOfHealthAndWelfareOrdinance => ("厚生省"@, ""@),
        M4Ministry::MinistryOfAgricultureAndForestryOrdinance => ("農林省"@, ""@),
        M4Ministry::MinistryOfInternationalTradeAndIndustryOrdinance => ("通商産業省"@, ""@),
        M4Ministry::MinistryOfTransportOrdinance => ("運輸省"@, ""@),
        M4Ministry::MinistryOfCommunicationsOrdinance => ("逓信省"@, ""@),
        M4Ministry::MinistryOfLaborOrdinance => ("労働省"@, ""@),
        M4Ministry::MinistryOfConstructionOrdinance => ("建設省"@, ""@),
        M4Ministry::PriceAgencyOrdinance => ("物価庁"@, ""@),
        M4Ministry::MinistryOfCommerceAndIndustryOrdinance => ("商工省"@, ""@),
        M4Ministry::CentralLaborRelationsCommissionRules => ("中央労働委員会"@, ""@),
        M4Ministry::FairTradeCommissionRules => ("公正取引委員会"@, ""@),
        M4Ministry::NationalPublicSafetyCommissionRegulations => ("国家公安委員会"@, ""@),
    }
}

/// A ministry of the fourth period is read from a title exactly when the
/// title holds the texts that name it.
pub proof fn lemma_m4_title_names(t: Seq<char>, x: M4Ministry)
    ensures
        named_in(t, |k: int| M4Ministry::rule(k), M4Ministry::rule_count() as int).contains(x) <==> (
        contains(t, m4_title_texts(x).0) && contains(t, m4_title_texts(x).1)),
{
    let rule = |k: int| M4Ministry::rule(k);
    lemma_named_in_contains(t, rule, M4Ministry::rule_count() as int, x);
    assert forall|j: int|
        0 <= j < M4Ministry::rule_count() && #[trigger] rule(j).2 == x implies rule(j).0
        == m4_title_texts(x).0 && rule(j).1 == m4_title_texts(x).1 by {
        if j == 0 {
        } else if j == 1 {
        } else if j == 2 {
        } else if j == 3 {
        } else if j == 4 {
        } else if j == 5 {
        } else if j == 6 {
        } else if j == 7 {
        } else if j == 8 {
        } else if j == 9 {
        } else if j == 10 {
        } else if j == 11 {
        } else if j == 12 {
        } else if j == 13 {
        } else if j == 14 {
        } else if j == 15 {
        } else if j == 16 {
        } else if j == 17 {
        } else if j == 18 {
        } else if j == 19 {
        }
    }
    match x {
        M4Ministry::LegalAffairsAgencyOrdinance => {
            assert(rule(0) == ("法務庁"@, ""@, x));
            assert(rule(0).2 == x);
        },
        M4Ministry::PrimeMinistersOfficeOrdinance => {
            assert(rule(1) == ("総理庁"@, ""@, x));
            assert(rule(1).2 == x);
        },
        M4Ministry::EconomicStabilityHeadquartersOrdinance => {
            assert(rule(2) == ("経済安定本部"@, ""@, x));
            assert(rule(2).2 == x);
        },
        M4Ministry::MinistryOfTheInteriorOrdinance => {
            assert(rule(3) == ("内務省"@, ""@, x));
            assert(rule(3).2 == x);
        },
        M4Ministry::MinistryOfJusticeOrdinance => {
            assert(rule(4) == ("司法省"@, ""@, x));
            assert(rule(4).2 == x);
        },
        M4Ministry::MinistryOfForeignAffairsOrdinance => {
            assert(rule(5) == ("外務省"@, ""@, x));
            assert(rule(5).2 == x);
        },
        M4Ministry::MinistryOfFinanceOrdinance => {
            assert(rule(6) == ("大蔵省"@, ""@, x));
            assert(rule(6).2 == x);
        },
        M4Ministry::MinistryOfEducationOrdinance => {
            assert(rule(7) == ("文部省"@, ""@, x));
            assert(rule(7).2 == x);
        },
        M4Ministry::MinistryOfHealthAndWelfareOrdinance => {
            assert(rule(8) == ("厚生省"@, ""@, x));
            assert(rule(8).2 == x);
        },
        M4Ministry::MinistryOfAgricultureAndForestryOrdinance => {
            assert(rule(9) == ("農林省"@, ""@, x));
            assert(rule(9).2 == x);
        },
        M4Ministry::MinistryOfInternationalTradeAndIndustryOrdinance => {
            assert(rule(10) == ("通商産業省"@, ""@, x));
            assert(rule(10).2 == x);
        },
        M4Ministry::MinistryOfTransportOrdinance => {
            assert(rule(11) == ("運輸省"@, ""@, x));
            assert(rule(11).2 == x);
        },
        M4Ministry::MinistryOfCommunicationsOrdinance => {
            assert(rule(12) == ("逓信省"@, ""@, x));
            assert(rule(12).2 == x);
        },
        M4Ministry::MinistryOfLaborOrdinance => {
            assert(rule(13) == ("労働省"@, ""@, x));
            assert(rule(13).2 == x);
        },
        M4Ministry::MinistryOfConstructionOrdinance => {
            assert(rule(14) == ("建設省"@, ""@, x));
            assert(rule(14).2 == x);
        },
        M4Ministry::PriceAgencyOrdinance => {
            assert(rule(15) == ("物価庁"@, ""@, x));
            assert(rule(15).2 == x);
        },
        M4Ministry::MinistryOfCommerceAndIndustryOrdinance => {
            assert(rule(16) == ("商工省"@, ""@, x));
            assert(rule(16).2 == x);
        },
        M4Ministry::CentralLaborRelationsCommissionRules => {
            assert(rule(17) == ("中央労働委員会"@, ""@, x));
            assert(rule(17).2 == x);
        },
        M4Ministry::FairTradeCommissionRules => {
            assert(rule(18) == ("公正取引委員会"@, ""@, x));
            assert(rule(18).2 == x);
        },
        M4Ministry::NationalPublicSafetyCommissionRegulations => {
            assert(rule(19) == ("国家公安委員会"@, ""@, x));
            assert(rule(19).2 == x);
        },
    }
}

/// The flag numbers of the ministries of the fifth period, as the naming
/// convention fixes them; no other flag number names a ministry of the period.
pub proof fn lemma_m5_flag_numbers()
    ensures
        M5Ministry::LegalAffairsAgencyOrdinance.flag() == 1,
        M5Ministry::PrimeMinistersOfficeOrdinance.flag() == 2,
        M5Ministry::EconomicStabilityHeadquartersOrdinance.flag() == 3,
        M5Ministry::MinistryOfHomeAffairsOrdinance.flag() == 4,
        M5Ministry::MinistryOfJusticeOrdinance.flag() == 5,
        M5Ministry::MinistryOfForeignAffairsOrdinance.flag() == 6,
        M5Ministry::MinistryOfFinanceOrdinance.flag() == 7,
        M5Ministry::MinistryOfEducationOrdinance.flag() == 8,
        M5Ministry::MinistryOfHealthAndWelfareOrdinance.flag() == 9,
        M5Ministry::MinistryOfAgricultureAndForestryAndFisheriesOrdinance.flag() == 10,
        M5Ministry::MinistryOfInternationalTradeAndIndustryOrdinance.flag() == 11,
        M5Ministry::MinistryOfTransportOrdinance.flag() == 12,
        M5Ministry::MinistryOfPostsAndTelecommunicationsOrdinance.flag() == 13,
        M5Ministry::MinistryOfLaborOrdinance.flag() == 14,
        M5Ministry::MinistryOfConstructionOrdinance.flag() == 15,
        M5Ministry::PriceAgencyOrdinance.flag() == 16,
        M5Ministry::MinistryOfAgricultureAndForestryOrdinance.flag() == 17,
        M5Ministry::TelecommunicationsMinisterialOrdinance.flag() == 18,
        M5Ministry::CentralMinistriesAndAgenciesReformPromotionHeadquartersOrdinance.flag() == 19,
        M5Ministry::RadioRegulatoryCommissionRules.flag() == 20,
        M5Ministry::CentralLaborRelationsCommissionRules.flag() == 21,
        M5Ministry::FairTradeCommissionRules.flag() == 22,
        M5Ministry::NationalPublicSafetyCommissionRegulations.flag() == 23,
        M5Ministry::PollutionAdjustmentCommitteeRules.flag() == 24,
        M5Ministry::PublicSafetyReviewCommitteeRules.flag() == 25,
        M5Ministry::of_flag(1) == Some(M5Ministry::LegalAffairsAgencyOrdinance),
        M5Ministry::of_flag(2) == Some(M5Ministry::PrimeMinistersOfficeOrdinance),
        M5Ministry::of_flag(3) == Some(M5Ministry::EconomicStabilityHeadquartersOrdinance),
        M5Ministry::of_flag(4) == Some(M5Ministry::MinistryOfHomeAffairsOrdinance),
        M5Ministry::of_flag(5) == Some(M5Ministry::MinistryOfJusticeOrdinance),
        M5Ministry::of_flag(6) == Some(M5Ministry::MinistryOfForeignAffairsOrdinance),
        M5Ministry::of_flag(7) == Some(M5Ministry::MinistryOfFinanceOrdinance),
        M5Ministry::of_flag(8) == Some(M5Ministry::MinistryOfEducationOrdinance),
        M5Ministry::of_flag(9) == Some(M5Ministry::MinistryOfHealthAndWelfareOrdinance),
        M5Ministry::of_flag(10) == Some(M5Ministry::MinistryOfAgricultureAndForestryAndFisheriesOrdinance),
        M5Ministry::of_flag(11) == Some(M5Ministry::MinistryOfInternationalTradeAndIndustryOrdinance),
        M5Ministry::of_flag(12) == Some(M5Ministry::MinistryOfTransportOrdinance),
        M5Ministry::of_flag(13) == Some(M5Ministry::MinistryOfPostsAndTelecommunicationsOrdinance),
        M5Ministry::of_flag(14) == Some(M5Ministry::MinistryOfLaborOrdinance),
        M5Ministry::of_flag(15) == Some(M5Ministry::MinistryOfConstructionOrdinance),
        M5Ministry::of_flag(16) == Some(M5Ministry::PriceAgencyOrdinance),
        M5Ministry::of_flag(17) == Some(M5Ministry::MinistryOfAgricultureAndForestryOrdinance),
        M5Ministry::of_flag(18) == Some(M5Ministry::TelecommunicationsMinisterialOrdinance),
        M5Ministry::of_flag(19) == Some(M5Ministry::CentralMinistriesAndAgenciesReformPromotionHeadquartersOrdinance),
        M5Ministry::of_flag(20) == Some(M5Ministry::RadioRegulatoryCommissionRules),
        M5Ministry::of_flag(21) == Some(M5Ministry::CentralLaborRelationsCommissionRules),
        M5Ministry::of_flag(22) == Some(M5Ministry::FairTradeCommissionRules),
        M5Ministry::of_flag(23) == Some(M5Ministry::NationalPublicSafetyCommissionRegulations),
        M5Ministry::of_flag(24) == Some(M5Ministry::PollutionAdjustmentCommitteeRules),
        M5Ministry::of_flag(25) == Some(M5Ministry::PublicSafetyReviewCommitteeRules),
        forall|n: int| !(n == 1 || n == 2 || n == 3 || n == 4 || n == 5 || n == 6 || n == 7 || n == 8 || n == 9 || n == 10 || n == 11 || n == 12 || n == 13 || n == 14 || n == 15 || n == 16 || n == 17 || n == 18 || n == 19 || n == 20 || n == 21 || n == 22 || n == 23 || n == 24 || n == 25) ==> #[trigger] M5Ministry::of_flag(n) is None,
{
}

/// The texts whose presence in a title names a ministry of the fifth
/// period: its name and, where the period has two ordinances of one
/// ministry, the mark that tells them apart (empty otherwise).
pub open spec fn m5_title_texts(x: M5Ministry) -> (Seq<char>, Seq<char>) {
    match x {
        M5Ministry::LegalAffairsAgencyOrdinance => ("法務庁"@, ""@),
        M5Ministry::PrimeMinistersOfficeOrdinance => ("総理庁"@, ""@),
        M5Ministry::EconomicStabilityHeadquartersOrdinance => ("経済安定本部"@, ""@),
        M5Ministry::MinistryOfHomeAffairsOrdinance => ("自治省"@, ""@),
        M5Ministry::MinistryOfJusticeOrdinance => ("法務省"@, ""@),
        M5Ministry::MinistryOfForeignAffairsOrdinance => ("外務省"@, ""@),
        M5Ministry::MinistryOfFinanceOrdinance => ("大蔵省"@, ""@),
        M5Ministry::MinistryOfEducationOrdinance => ("文部省"@, ""@),
        M5Ministry::MinistryOfHealthAndWelfareOrdinance => ("厚生省"@, ""@),
        M5Ministry::MinistryOfAgricultureAndForestryAndFisheriesOrdinance => ("農林水産省"@, ""@),
        M5Ministry::MinistryOfInternationalTradeAndIndustryOrdinance => ("通商産業省"@, ""@),
        M5Ministry::MinistryOfTransportOrdinance => ("運輸省"@, ""@),
        M5Ministry::MinistryOfPostsAndTelecommunicationsOrdinance => ("郵政省"@, ""@),
        M5Ministry::MinistryOfLaborOrdinance => ("労働省"@, ""@),
        M5Ministry::MinistryOfConstructionOrdinance => ("建設省"@, ""@),
        M5Ministry::PriceAgencyOrdinance => ("物価庁"@, ""@),
        M5Ministry::MinistryOfAgricultureAndForestryOrdinance => ("農林省"@, ""@),
        M5Ministry::TelecommunicationsMinisterialOrdinance => ("電気通信省"@, ""@),
        M5Ministry::CentralMinistriesAndAgenciesReformPromotionHeadquartersOrdinance => ("中央省庁等改革推進本部"@, ""@),
        M5Ministry::RadioRegulatoryCommissionRules => ("電波監理委員会"@, ""@),
        M5Ministry::CentralLaborRelationsCommissionRules => ("中央労働委員会"@, ""@),
        M5Ministry::FairTradeCommissionRules => ("公正取引委員会"@, ""@),
        M5Ministry::NationalPublicSafetyCommissionRegulations => ("国家公安委員会"@, ""@),
        M5Ministry::PollutionAdjustmentCommitteeRules => ("公害等調整委員会"@, ""@),
        M5Ministry::PublicSafetyReviewCommitteeRules => ("公安審査委員会"@, ""@),
    }
}

/// A ministry of the fifth period is read from a title exactly when the
/// title holds the texts that name it.
pub proof fn lemma_m5_title_names(t: Seq<char>, x: M5Ministry)
    ensures
        named_in(t, |k: int| M5Ministry::rule(k), M5Ministry::rule_count() as int).contains(x) <==> (
        contains(t, m5_title_texts(x).0) && contains(t, m5_title_texts(x).1)),
{
    let rule = |k: int| M5Ministry::rule(k);
    lemma_named_in_contains(t, rule, M5Ministry::rule_count() as int, x);
    assert forall|j: int|
        0 <= j < M5Ministry::rule_count() && #[trigger] rule(j).2 == x implies rule(j).0
        == m5_title_texts(x).0 && rule(j).1 == m5_title_texts(x).1 by {
        if j == 0 {
        } else if j == 1 {
        } else if j == 2 {
        } else if j == 3 {
        } else if j == 4 {
        } else if j == 5 {
        } else if j == 6 {
        } else if j == 7 {
        } else if j == 8 {
        } else if j == 9 {
        } else if j == 10 {
        } else if j == 11 {
        } else if j == 12 {
        } else if j == 13 {
        } else if j == 14 {
        } else if j == 15 {
        } else if j == 16 {
        } else if j == 17 {
        } else if j == 18 {
        } else if j == 19 {
        } else if j == 20 {
        } else if j == 21 {
        } else if j == 22 {
        } else if j == 23 {
        } else if j == 24 {
        }
    }
    match x {
        M5Ministry::LegalAffairsAgencyOrdinance => {
            assert(rule(0) == ("法務庁"@, ""@, x));
            assert(rule(0).2 == x);
        },
        M5Ministry::PrimeMinistersOfficeOrdinance => {
            assert(rule(1) == ("総理庁"@, ""@, x));
            assert(rule(1).2 == x);
        },
        M5Ministry::EconomicStabilityHeadquartersOrdinance => {
            assert(rule(2) == ("経済安定本部"@, ""@, x));
            assert(rule(2).2 == x);
        },
        M5Ministry::MinistryOfHomeAffairsOrdinance => {
            assert(rule(3) == ("自治省"@, ""@, x));
            assert(rule(3).2 == x);
        },
        M5Ministry::MinistryOfJusticeOrdinance => {
            assert(rule(4) == ("法務省"@, ""@, x));
            assert(rule(4).2 == x);
        },
        M5Ministry::MinistryOfForeignAffairsOrdinance => {
            assert(rule(5) == ("外務省"@, ""@, x));
            assert(rule(5).2 == x);
        },
        M5Ministry::MinistryOfFinanceOrdinance => {
            assert(rule(6) == ("大蔵省"@, ""@, x));
            assert(rule(6).2 == x);
        },
        M5Ministry::MinistryOfEducationOrdinance => {
            assert(rule(7) == ("文部省"@, ""@, x));
            assert(rule(7).2 == x);
        },
        M5Ministry::MinistryOfHealthAndWelfareOrdinance => {
            assert(rule(8) == ("厚生省"@, ""@, x));
            assert(rule(8).2 == x);
        },
        M5Ministry::MinistryOfAgricultureAndForestryAndFisheriesOrdinance => {
            assert(rule(9) == ("農林水産省"@, ""@, x));
            assert(rule(9).2 == x);
        },
        M5Ministry::MinistryOfInternationalTradeAndIndustryOrdinance => {
            assert(rule(10) == ("通商産業省"@, ""@, x));
            assert(rule(10).2 == x);
        },
        M5Ministry::MinistryOfTransportOrdinance => {
            assert(rule(11) == ("運輸省"@, ""@, x));
            assert(rule(11).2 == x);
        },
        M5Ministry::MinistryOfPostsAndTelecommunicationsOrdinance => {
            assert(rule(12) == ("郵政省"@, ""@, x));
            assert(rule(12).2 == x);
        },
        M5Ministry::MinistryOfLaborOrdinance => {
            assert(rule(13) == ("労働省"@, ""@, x));
            assert(rule(13).2 == x);
        },
        M5Ministry::MinistryOfConstructionOrdinance => {
            assert(rule(14) == ("建設省"@, ""@, x));
            assert(rule(14).2 == x);
        },
        M5Ministry::PriceAgencyOrdinance => {
            assert(rule(15) == ("物価庁"@, ""@, x));
            assert(rule(15).2 == x);
        },
        M5Ministry::MinistryOfAgricultureAndForestryOrdinance => {
            assert(rule(16) == ("農林省"@, ""@, x));
            assert(rule(16).2 == x);
        },
        M5Ministry::TelecommunicationsMinisterialOrdinance => {
            assert(rule(17) == ("電気通信省"@, ""@, x));
            assert(rule(17).2 == x);
        },
        M5Ministry::CentralMinistriesAndAgenciesReformPromotionHeadquartersOrdinance => {
            assert(rule(18) == ("中央省庁等改革推進本部"@, ""@, x));
            assert(rule(18).2 == x);
        },
        M5Ministry::RadioRegulatoryCommissionRules => {
            assert(rule(19) == ("電波監理委員会"@, ""@, x));
            assert(rule(19).2 == x);
        },
        M5Ministry::CentralLaborRelationsCommissionRules => {
            assert(rule(20) == ("中央労働委員会"@, ""@, x));
            assert(rule(20).2 == x);
        },
        M5Ministry::FairTradeCommissionRules => {
            assert(rule(21) == ("公正取引委員会"@, ""@, x));
            assert(rule(21).2 == x);
        },
        M5Ministry::NationalPublicSafetyCommissionRegulations => {
            assert(rule(22) == ("国家公安委員会"@, ""@, x));
            assert(rule(22).2 == x);
        },
        M5Ministry::PollutionAdjustmentCommitteeRules => {
            assert(rule(23) == ("公害等調整委員会"@, ""@, x));
            assert(rule(23).2 == x);
        },
        M5Ministry::PublicSafetyReviewCommitteeRules => {
            assert(rule(24) == ("公安審査委員会"@, ""@, x));
            assert(rule(24).2 == x);
        },
    }
}

/// The flag numbers of the ministries of the sixth period, as the naming
/// convention fixes them; no other flag number names a ministry of the period.
pub proof fn lemma_m6_flag_numbers()
    ensures
        M6Ministry::CabinetSecretariatOrdinance.flag() == 1,
        M6Ministry::PrimeMinistersOfficeOrdinance.flag() == 2,
        M6Ministry::ReconstructionAgencyOrdinance.flag() == 3,
        M6Ministry::MinistryOfHomeAffairsOrdinance.flag() == 4,
        M6Ministry::MinistryOfJusticeOrdinance.flag() == 5,
        M6Ministry::MinistryOfForeignAffairsOrdinance.flag() == 6,
        M6Ministry::MinistryOfFinanceOrdinance.flag() == 7,
        M6Ministry::MinistryOfEducationAndCultureAndSportsAndScienceAndTechnologyOrdinance.flag() == 8,
        M6Ministry::MinistryOfHealthAndLaborAndWelfareOrdinance.flag() == 9,
        M6Ministry::MinistryOfAgricultureAndForestryAndFisheriesOrdinance.flag() == 10,
        M6Ministry::MinistryOfEconomyAndTradeAndIndustryOrdinance.flag() == 11,
        M6Ministry::MinistryOfLandAndInfrastructureAndTransportAndTourismOrdinance.flag() == 12,
        M6Ministry::MinistryOfTheEnvironmentOrdinance.flag() == 13,
        M6Ministry::MinistryOfDefenseOrdinance.flag() == 14,
        M6Ministry::DigitalAgencyOrdinance.flag() == 15,
        M6Ministry::SpecificPersonalInformationProtectionCommissionRules.flag() == 18,
        M6Ministry::JapanTransportSafetyBoardRegulations.flag() == 19,
        M6Ministry::NuclearRegulationAuthorityRegulations.flag() == 20,
        M6Ministry::CentralLaborRelationsCommissionRules.flag() == 21,
        M6Ministry::FairTradeCommissionRules.flag() == 22,
        M6Ministry::NationalPublicSafetyCommissionRegulations.flag() == 23,
        M6Ministry::PollutionAdjustmentCommitteeRules.flag() == 24,
        M6Ministry::PublicSafetyReviewCommitteeRules.flag() == 25,
        M6Ministry::CasinoManagementCommitteeRules.flag() == 26,
        M6Ministry::of_flag(1) == Some(M6Ministry::CabinetSecretariatOrdinance),
        M6Ministry::of_flag(2) == Some(M6Ministry::PrimeMinistersOfficeOrdinance),
        M6Ministry::of_flag(3) == Some(M6Ministry::ReconstructionAgencyOrdinance),
        M6Ministry::of_flag(4) == Some(M6Ministry::MinistryOfHomeAffairsOrdinance),
        M6Ministry::of_flag(5) == Some(M6Ministry::MinistryOfJusticeOrdinance),
        M6Ministry::of_flag(6) == Some(M6Ministry::MinistryOfForeignAffairsOrdinance),
        M6Ministry::of_flag(7) == Some(M6Ministry::MinistryOfFinanceOrdinance),
        M6Ministry::of_flag(8) == Some(M6Ministry::MinistryOfEducationAndCultureAndSportsAndScienceAndTechnologyOrdinance),
        M6Ministry::of_flag(9) == Some(M6Ministry::MinistryOfHealthAndLaborAndWelfareOrdinance),
        M6Ministry::of_flag(10) == Some(M6Ministry::MinistryOfAgricultureAndForestryAndFisheriesOrdinance),
        M6Ministry::of_flag(11) == Some(M6Ministry::MinistryOfEconomyAndTradeAndIndustryOrdinance),
        M6Ministry::of_flag(12) == Some(M6Ministry::MinistryOfLandAndInfrastructureAndTransportAndTourismOrdinance),
        M6Ministry::of_flag(13) == Some(M6Ministry::MinistryOfTheEnvironmentOrdinance),
        M6Ministry::of_flag(14) == Some(M6Ministry::MinistryOfDefenseOrdinance),
        M6Ministry::of_flag(15) == Some(M6Ministry::DigitalAgencyOrdinance),
        M6Ministry::of_flag(18) == Some(M6Ministry::SpecificPersonalInformationProtectionCommissionRules),
        M6Ministry::of_flag(19) == Some(M6Ministry::JapanTransportSafetyBoardRegulations),
        M6Ministry::of_flag(20) == Some(M6Ministry::NuclearRegulationAuthorityRegulations),
        M6Ministry::of_flag(21) == Some(M6Ministry::CentralLaborRelationsCommissionRules),
        M6Ministry::of_flag(22) == Some(M6Ministry::FairTradeCommissionRules),
        M6Ministry::of_flag(23) == Some(M6Ministry::NationalPublicSafetyCommissionRegulations),
        M6Ministry::of_flag(24) == Some(M6Ministry::PollutionAdjustmentCommitteeRules),
        M6Ministry::of_flag(25) == Some(M6Ministry::PublicSafetyReviewCommitteeRules),
        M6Ministry::of_flag(26) == Some(M6Ministry::CasinoManagementCommitteeRules),
        forall|n: int| !(n == 1 || n == 2 || n == 3 || n == 4 || n == 5 || n == 6 || n == 7 || n == 8 || n == 9 || n == 10 || n == 11 || n == 12 || n == 13 || n == 14 || n == 15 || n == 18 || n == 19 || n == 20 || n == 21 || n == 22 || n == 23 || n == 24 || n == 25 || n == 26) ==> #[trigger] M6Ministry::of_flag(n) is None,
{
}

/// The texts whose presence in a title names a ministry of the sixth
/// period: its name and, where the period has two ordinances of one
/// ministry, the mark that tells them apart (empty otherwise).
pub open spec fn m6_title_texts(x: M6Ministry) -> (Seq<char>, Seq<char>) {
    match x {
        M6Ministry::CabinetSecretariatOrdinance => ("内閣官房"@, ""@),
        M6Ministry::PrimeMinistersOfficeOrdinance => ("総理庁"@, ""@),
        M6Ministry::ReconstructionAgencyOrdinance => ("復興庁"@, ""@),
        M6Ministry::MinistryOfHomeAffairsOrdinance => ("自治省"@, ""@),
        M6Ministry::MinistryOfJusticeOrdinance => ("法務省"@, ""@),
        M6Ministry::MinistryOfForeignAffairsOrdinance => ("外務省"@, ""@),
        M6Ministry::MinistryOfFinanceOrdinance => ("財務省"@, ""@),
        M6Ministry::MinistryOfEducationAndCultureAndSportsAndScienceAndTechnologyOrdinance => ("文部科学省"@, ""@),
        M6Ministry::MinistryOfHealthAndLaborAndWelfareOrdinance => ("厚生労働省"@, ""@),
        M6Ministry::MinistryOfAgricultureAndForestryAndFisheriesOrdinance => ("農林水産省"@, ""@),
        M6Ministry::MinistryOfEconomyAndTradeAndIndustryOrdinance => ("経済産業省"@, ""@),
        M6Ministry::MinistryOfLandAndInfrastructureAndTransportAndTourismOrdinance => ("国土交通省"@, ""@),
        M6Ministry::MinistryOfTheEnvironmentOrdinance => ("環境省"@, ""@),
        M6Ministry::MinistryOfDefenseOrdinance => ("防衛省"@, ""@),
        M6Ministry::DigitalAgencyOrdinance => ("デジタル庁"@, ""@),
        M6Ministry::SpecificPersonalInformationProtectionCommissionRules => ("特定個人情報保護委員会"@, ""@),
        M6Ministry::JapanTransportSafetyBoardRegulations => ("運輸安全委員会"@, ""@),
        M6Ministry::NuclearRegulationAuthorityRegulations => ("原子力規制委員会"@, ""@),
        M6Ministry::CentralLaborRelationsCommissionRules => ("中央労働委員会"@, ""@),
        M6Ministry::FairTradeCommissionRules => ("公正取引委員会"@, ""@),
        M6Ministry::NationalPublicSafetyCommissionRegulations => ("国家公安委員会"@, ""@),
        M6Ministry::PollutionAdjustmentCommitteeRules => ("公害等調整委員会"@, ""@),
        M6Ministry::PublicSafetyReviewCommitteeRules => ("公安審査委員会"@, ""@),
        M6Ministry::CasinoManagementCommitteeRules => ("カジノ管理委員会"@, ""@),
    }
}

/// A ministry of the sixth period is read from a title exactly when the
/// title holds the texts that name it.
pub proof fn lemma_m6_title_names(t: Seq<char>, x: M6Ministry)
    ensures
        named_in(t, |k: int| M6Ministry::rule(k), M6Ministry::rule_count() as int).contains(x) <==> (
        contains(t, m6_title_texts(x).0) && contains(t, m6_title_texts(x).1)),
{
    let rule = |k: int| M6Ministry::rule(k);
    lemma_named_in_contains(t, rule, M6Ministry::rule_count() as int, x);
    assert forall|j: int|
        0 <= j < M6Ministry::rule_count() && #[trigger] rule(j).2 == x implies rule(j).0
        == m6_title_texts(x).0 && rule(j).1 == m6_title_texts(x).1 by {
        if j == 0 {
        } else if j == 1 {
        } else if j == 2 {
        } else if j == 3 {
        } else if j == 4 {
        } else if j == 5 {
        } else if j == 6 {
        } else if j == 7 {
        } else if j == 8 {
        } else if j == 9 {
        } else if j == 10 {
        } else if j == 11 {
        } else if j == 12 {
        } else if j == 13 {
        } else if j == 14 {
        } else if j == 15 {
        } else if j == 16 {
        } else if j == 17 {
        } else if j == 18 {
        } else if j == 19 {
        } else if j == 20 {
        } else if j == 21 {
        } else if j == 22 {
        } else if j == 23 {
        }
    }
    match x {
        M6Ministry::CabinetSecretariatOrdinance => {
            assert(rule(0) == ("内閣官房"@, ""@, x));
            assert(rule(0).2 == x);
        },
        M6Ministry::PrimeMinistersOfficeOrdinance => {
            assert(rule(1) == ("総理庁"@, ""@, x));
            assert(rule(1).2 == x);
        },
        M6Ministry::ReconstructionAgencyOrdinance => {
            assert(rule(2) == ("復興庁"@, ""@, x));
            assert(rule(2).2 == x);
        },
        M6Ministry::MinistryOfHomeAffairsOrdinance => {
            assert(rule(3) == ("自治省"@, ""@, x));
            assert(rule(3).2 == x);
        },
        M6Ministry::MinistryOfJusticeOrdinance => {
            assert(rule(4) == ("法務省"@, ""@, x));
            assert(rule(4).2 == x);
        },
        M6Ministry::MinistryOfForeignAffairsOrdinance => {
            assert(rule(5) == ("外務省"@, ""@, x));
            assert(rule(5).2 == x);
        },
        M6Ministry::MinistryOfFinanceOrdinance => {
            assert(rule(6) == ("財務省"@, ""@, x));
            assert(rule(6).2 == x);
        },
        M6Ministry::MinistryOfEducationAndCultureAndSportsAndScienceAndTechnologyOrdinance => {
            assert(rule(7) == ("文部科学省"@, ""@, x));
            assert(rule(7).2 == x);
        },
        M6Ministry::MinistryOfHealthAndLaborAndWelfareOrdinance => {
            assert(rule(8) == ("厚生労働省"@, ""@, x));
            assert(rule(8).2 == x);
        },
        M6Ministry::MinistryOfAgricultureAndForestryAndFisheriesOrdinance => {
            assert(rule(9) == ("農林水産省"@, ""@, x));
            assert(rule(9).2 == x);
        },
        M6Ministry::MinistryOfEconomyAndTradeAndIndustryOrdinance => {
            assert(rule(10) == ("経済産業省"@, ""@, x));
            assert(rule(10).2 == x);
        },
        M6Ministry::MinistryOfLandAndInfrastructureAndTransportAndTourismOrdinance => {
            assert(rule(11) == ("国土交通省"@, ""@, x));
            assert(rule(11).2 == x);
        },
        M6Ministry::MinistryOfTheEnvironmentOrdinance => {
            assert(rule(12) == ("環境省"@, ""@, x));
            assert(rule(12).2 == x);
        },
        M6Ministry::MinistryOfDefenseOrdinance => {
            assert(rule(13) == ("防衛省"@, ""@, x));
            assert(rule(13).2 == x);
        },
        M6Ministry::DigitalAgencyOrdinance => {
            assert(rule(14) == ("デジタル庁"@, ""@, x));
            assert(rule(14).2 == x);
        },
        M6Ministry::SpecificPersonalInformationProtectionCommissionRules => {
            assert(rule(15) == ("特定個人情報保護委員会"@, ""@, x));
            assert(rule(15).2 == x);
        },
        M6Ministry::JapanTransportSafetyBoardRegulations => {
            assert(rule(16) == ("運輸安全委員会"@, ""@, x));
            assert(rule(16).2 == x);
        },
        M6Ministry::NuclearRegulationAuthorityRegulations => {
            assert(rule(17) == ("原子力規制委員会"@, ""@, x));
            assert(rule(17).2 == x);
        },
        M6Ministry::CentralLaborRelationsCommissionRules => {
            assert(rule(18) == ("中央労働委員会"@, ""@, x));
            assert(rule(18).2 == x);
        },
        M6Ministry::FairTradeCommissionRules => {
            assert(rule(19) == ("公正取引委員会"@, ""@, x));
            assert(rule(19).2 == x);
        },
        M6Ministry::NationalPublicSafetyCommissionRegulations => {
            assert(rule(20) == ("国家公安委員会"@, ""@, x));
            assert(rule(20).2 == x);
        },
        M6Ministry::PollutionAdjustmentCommitteeRules => {
            assert(rule(21) == ("公害等調整委員会"@, ""@, x));
            assert(rule(21).2 == x);
        },
        M6Ministry::PublicSafetyReviewCommitteeRules => {
            assert(rule(22) == ("公安審査委員会"@, ""@, x));
            assert(rule(22).2 == x);
        },
        M6Ministry::CasinoManagementCommitteeRules => {
            assert(rule(23) == ("カジノ管理委員会"@, ""@, x));
            assert(rule(23).2 == x);
        },
    }
}
/// The numbers of the institutions in a regulation's identifier, as the
/// naming convention fixes them; 17 is also read as 司法試験管理委員会, and no
/// number outside 1 to 19 names an institution.
pub proof fn lemma_institution_numbers()
    ensures
        Institution::BoardOfAudit.number() == 1,
        Institution::CoastGuard.number() == 2,
        Institution::ScienceCouncilOfJapan.number() == 3,
        Institution::LandAdjustmentCommittee.number() == 4,
        Institution::FinancialReconstructionCommittee.number() == 5,
        Institution::MetropolitanAreaDevelopmentCommittee.number() == 6,
        Institution::LocalFinanceCommittee.number() == 7,
        Institution::BarExaminationManagementCommittee.number() == 8,
        Institution::CertifiedPublicAccountantManagementCommittee.number() == 9,
        Institution::ForeignInvestmentCommittee.number() == 10,
        Institution::CulturalPropertiesProtectionCommittee.number() == 11,
        Institution::JapaneseNationalCommissionForUNESCO.number() == 12,
        Institution::SupremeCourt.number() == 13,
        Institution::HouseOfRepresentatives.number() == 14,
        Institution::HouseOfCouncilors.number() == 15,
        Institution::SeafarersCentralLaborCommittee.number() == 16,
        Institution::RadioRegulatoryCommission.number() == 18,
        Institution::CasinoManagementCommittee.number() == 19,
        Institution::of_number(1) == Some(Institution::BoardOfAudit),
        Institution::of_number(2) == Some(Institution::CoastGuard),
        Institution::of_number(3) == Some(Institution::ScienceCouncilOfJapan),
        Institution::of_number(4) == Some(Institution::LandAdjustmentCommittee),
        Institution::of_number(5) == Some(Institution::FinancialReconstructionCommittee),
        Institution::of_number(6) == Some(Institution::MetropolitanAreaDevelopmentCommittee),
        Institution::of_number(7) == Some(Institution::LocalFinanceCommittee),
        Institution::of_number(8) == Some(Institution::BarExaminationManagementCommittee),
        Institution::of_number(9) == Some(Institution::CertifiedPublicAccountantManagementCommittee),
        Institution::of_number(10) == Some(Institution::ForeignInvestmentCommittee),
        Institution::of_number(11) == Some(Institution::CulturalPropertiesProtectionCommittee),
        Institution::of_number(12) == Some(Institution::JapaneseNationalCommissionForUNESCO),
        Institution::of_number(13) == Some(Institution::SupremeCourt),
        Institution::of_number(14) == Some(Institution::HouseOfRepresentatives),
        Institution::of_number(15) == Some(Institution::HouseOfCouncilors),
        Institution::of_number(16) == Some(Institution::SeafarersCentralLaborCommittee),
        Institution::of_number(17) == Some(Institution::BarExaminationManagementCommittee),
        Institution::of_number(18) == Some(Institution::RadioRegulatoryCommission),
        Institution::of_number(19) == Some(Institution::CasinoManagementCommittee),
        forall|n: int| !(1 <= n <= 19) ==> #[trigger] Institution::of_number(n) is None,
{
}

/// The name by which an institution is recognised in a regulation's title.
pub open spec fn institution_title_name(x: Institution) -> Seq<char> {
    match x {
        Institution::BoardOfAudit => "会計検査院"@,
        Institution::CoastGuard => "海上保安庁"@,
        Institution::ScienceCouncilOfJapan => "日本学術会議"@,
        Institution::LandAdjustmentCommittee => "土地調整委員会"@,
        Institution::FinancialReconstructionCommittee => "金融再生委員会"@,
        Institution::MetropolitanAreaDevelopmentCommittee => "首都圏整備委員会"@,
        Institution::LocalFinanceCommittee => "地方財政委員会"@,
        Institution::BarExaminationManagementCommittee => "司法試験管理委員会"@,
        Institution::CertifiedPublicAccountantManagementCommittee => "公認会計士管理委員会"@,
        Institution::ForeignInvestmentCommittee => "外資委員会"@,
        Institution::CulturalPropertiesProtectionCommittee => "文化財保護委員会"@,
        Institution::JapaneseNationalCommissionForUNESCO => "日本ユネスコ国内委員会"@,
        Institution::SupremeCourt => "最高裁判所"@,
        Institution::HouseOfRepresentatives => "衆議院"@,
        Institution::HouseOfCouncilors => "参議院"@,
        Institution::SeafarersCentralLaborCommittee => "船員中央労働委員会"@,
        Institution::RadioRegulatoryCommission => "電波監理委員会"@,
        Institution::CasinoManagementCommittee => "カジノ管理委員会"@,
    }
}

/// Reading the institution of a title: the institution read is one whose name
/// the title holds; a title that holds some institution's name gives an
/// institution; and a title that holds the name of just one institution gives
/// that institution.
pub proof fn lemma_institution_title(t: Seq<char>, x: Institution)
    ensures
        Institution::named(t) matches Some(y) ==> contains(t, institution_title_name(y)),
        contains(t, institution_title_name(x)) ==> Institution::named(t) is Some,
        (contains(t, institution_title_name(x)) && forall|y: Institution|
            y != x ==> !contains(t, #[trigger] institution_title_name(y))) ==> Institution::named(t)
            == Some(x),
{
    if let Some(y) = Institution::named(t) {
        assert(contains(t, institution_title_name(y)));
    }
}

/// A kanji numeral of a year: 一 to 九, 十 and 百.
pub open spec fn kanji_year_char(c: char) -> bool {
    c == '一' || c == '二' || c == '三' || c == '四' || c == '五' || c == '六' || c == '七' || c
        == '八' || c == '九' || c == '十' || c == '百'
}

/// The run of characters of `form` that starts at `j` is `n` long when the
/// `n` characters from `j` are of the form and the next one is not.
proof fn lemma_run_to(t: Seq<char>, j: int, n: int, form: YearForm)
    requires
        0 <= j,
        0 <= n,
        j + n < t.len(),
        forall|i: int| j <= i < j + n ==> in_year_class(#[trigger] t[i], form),
        !in_year_class(t[j + n], form),
    ensures
        run_len(t, j, form) == n,
    decreases n,
{
    if n > 0 {
        lemma_run_to(t, j + 1, n - 1, form);
    }
}

/// The text of an era name followed by `d` and 年, then anything.
pub open spec fn era_year_text(e: Era, d: Seq<char>, rest: Seq<char>) -> Seq<char> {
    e.name() + d + seq!['年'] + rest
}

/// Facts on an era year text shared by the laws below.
proof fn lemma_era_year_text(e: Era, d: Seq<char>, rest: Seq<char>)
    ensures
        era_year_text(e, d, rest).subrange(0, 2) == e.name(),
        era_year_text(e, d, rest).len() == 3 + d.len() + rest.len(),
        forall|i: int| 0 <= i < d.len() ==> era_year_text(e, d, rest)[2 + i] == #[trigger] d[i],
        era_year_text(e, d, rest)[2 + d.len() as int] == '年',
        era_year_text(e, d, rest).subrange(2, 2 + d.len() as int) == d,
        crate::era::Era::of_name(e.name()) == Some(e),
{
    reveal_strlit("明治");
    reveal_strlit("大正");
    reveal_strlit("昭和");
    reveal_strlit("平成");
    reveal_strlit("令和");
    lemma_era_name_roundtrip(e);
    let t = era_year_text(e, d, rest);
    assert(e.name().len() == 2);
    assert(t.subrange(0, 2) =~= e.name());
    assert(t.subrange(2, 2 + d.len() as int) =~= d);
}

/// An era name followed by a year in kanji numerals and 年 is found where it
/// stands, as a year in kanji numerals, and reads as that era with the year
/// that the numerals give.
pub proof fn lemma_kanji_era_year(e: Era, d: Seq<char>, rest: Seq<char>)
    requires
        d.len() > 0,
        d.len() + 2 <= usize::MAX,
        forall|i: int| 0 <= i < d.len() ==> kanji_year_char(#[trigger] d[i]),
    ensures
        first_match(era_year_text(e, d, rest), 0) == Some(
            WarekiMatch {
                era: e,
                form: YearForm::Kansuji,
                start: 2,
                end: (2 + d.len()) as usize,
            },
        ),
        wareki_of_text(era_year_text(e, d, rest)) == match kansuji_number(d) {
            Some(v) => Some(Wareki { era: e, year: v as usize }),
            None => None,
        },
{
    let t = era_year_text(e, d, rest);
    lemma_era_year_text(e, d, rest);
    assert(kanji_year_char(d[0]));
    lemma_run_to(t, 2, d.len() as int, YearForm::Kansuji);
}

/// An era name followed by a year in ASCII digits and 年 is found where it
/// stands, as a year in ASCII digits, and reads as that era with the year that
/// the digits write.
pub proof fn lemma_ascii_era_year(e: Era, d: Seq<char>, rest: Seq<char>)
    requires
        d.len() > 0,
        d.len() + 2 <= usize::MAX,
        forall|i: int| 0 <= i < d.len() ==> '0' <= #[trigger] d[i] <= '9',
    ensures
        first_match(era_year_text(e, d, rest), 0) == Some(
            WarekiMatch {
                era: e,
                form: YearForm::Arabic,
                start: 2,
                end: (2 + d.len()) as usize,
            },
        ),
        wareki_of_text(era_year_text(e, d, rest)) == match parse_uint(d, 10) {
            Some(y) => Some(Wareki { era: e, year: y }),
            None => None,
        },
{
    let t = era_year_text(e, d, rest);
    lemma_era_year_text(e, d, rest);
    assert('0' <= d[0] <= '9');
    lemma_run_to(t, 2, 0, YearForm::Kansuji);
    lemma_run_to(t, 2, d.len() as int, YearForm::Arabic);
}

/// An era name followed by a year in full-width digits and 年 is found where
/// it stands, as a year in full-width digits, and reads as that era with the
/// year that the digits write.
pub proof fn lemma_full_width_era_year(e: Era, d: Seq<char>, rest: Seq<char>)
    requires
        d.len() > 0,
        d.len() + 2 <= usize::MAX,
        forall|i: int| 0 <= i < d.len() ==> '０' <= #[trigger] d[i] <= '９',
    ensures
        first_match(era_year_text(e, d, rest), 0) == Some(
            WarekiMatch {
                era: e,
                form: YearForm::FullWidth,
                start: 2,
                end: (2 + d.len()) as usize,
            },
        ),
        wareki_of_text(era_year_text(e, d, rest)) == match parse_uint(
            d.map_values(|c: char| ascii_digit(c)),
            10,
        ) {
            Some(y) => Some(Wareki { era: e, year: y }),
            None => None,
        },
{
    let t = era_year_text(e, d, rest);
    lemma_era_year_text(e, d, rest);
    assert('０' <= d[0] <= '９');
    lemma_run_to(t, 2, 0, YearForm::Kansuji);
    lemma_run_to(t, 2, 0, YearForm::Arabic);
    lemma_run_to(t, 2, d.len() as int, YearForm::FullWidth);
}

/// An era name followed by 元年 reads as the first year of that era.
pub proof fn lemma_first_era_year(e: Era, rest: Seq<char>)
    ensures
        wareki_of_text(era_year_text(e, seq!['元'], rest)) == Some(Wareki { era: e, year: 1 }),
{
    lemma_era_year_text(e, seq!['元'], rest);
}

} // verus!
