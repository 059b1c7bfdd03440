//! The institutions (機関) whose regulations have identifiers of their own.
use vstd::prelude::*;
use crate::text::{chars_of, contains, contains_str};

verus! {

/// 機関名
#[derive(Debug, Clone, Copy, PartialEq, Eq, Hash, Structural)]
pub enum Institution {
    /// 会計検査院
    BoardOfAudit,
    /// 海上保安庁
    CoastGuard,
    /// 日本学術会議
    ScienceCouncilOfJapan,
    /// 土地調整委員会
    LandAdjustmentCommittee,
    /// 金融再生委員会
    FinancialReconstructionCommittee,
    /// 首都圏整備委員会
    MetropolitanAreaDevelopmentCommittee,
    /// 地方財政委員会
    LocalFinanceCommittee,
    /// 司法試験管理委員会
    BarExaminationManagementCommittee,
    /// 公認会計士管理委員会
    CertifiedPublicAccountantManagementCommittee,
    /// 外資委員会
    ForeignInvestmentCommittee,
    /// 文化財保護委員会
    CulturalPropertiesProtectionCommittee,
    /// 日本ユネスコ国内委員会
    JapaneseNationalCommissionForUNESCO,
    /// 最高裁判所
    SupremeCourt,
    /// 衆議院
    HouseOfRepresentatives,
    /// 参議院
    HouseOfCouncilors,
    /// 船員中央労働委員会
    SeafarersCentralLaborCommittee,
    /// 司法試験管理委員会
    /// 電波監理委員会
    RadioRegulatoryCommission,
    /// カジノ管理委員会
    CasinoManagementCommittee,
}

impl Institution {
    /// The institution's number in a regulation's identifier.
    pub open spec fn number(self) -> int {
        match self {
            Institution::BoardOfAudit => 1,
            Institution::CoastGuard => 2,
            Institution::ScienceCouncilOfJapan => 3,
            Institution::LandAdjustmentCommittee => 4,
            Institution::FinancialReconstructionCommittee => 5,
            Institution::MetropolitanAreaDevelopmentCommittee => 6,
            Institution::LocalFinanceCommittee => 7,
            Institution::BarExaminationManagementCommittee => 8,
            Institution::CertifiedPublicAccountantManagementCommittee => 9,
            Institution::ForeignInvestmentCommittee => 10,
            Institution::CulturalPropertiesProtectionCommittee => 11,
            Institution::JapaneseNationalCommissionForUNESCO => 12,
            Institution::SupremeCourt => 13,
            Institution::HouseOfRepresentatives => 14,
            Institution::HouseOfCouncilors => 15,
            Institution::SeafarersCentralLaborCommittee => 16,
            Institution::RadioRegulatoryCommission => 18,
            Institution::CasinoManagementCommittee => 19,
        }
    }

    /// The institution with number `n`; 17 is read as 司法試験管理委員会 too.
    pub open spec fn of_number(n: int) -> Option<Self> {
        if n == 1 {
            Some(Institution::BoardOfAudit)
        } else if n == 2 {
            Some(Institution::CoastGuard)
        } else if n == 3 {
            Some(Institution::ScienceCouncilOfJapan)
        } else if n == 4 {
            Some(Institution::LandAdjustmentCommittee)
        } else if n == 5 {
            Some(Institution::FinancialReconstructionCommittee)
        } else if n == 6 {
            Some(Institution::MetropolitanAreaDevelopmentCommittee)
        } else if n == 7 {
            Some(Institution::LocalFinanceCommittee)
        } else if n == 8 {
            Some(Institution::BarExaminationManagementCommittee)
        } else if n == 9 {
            Some(Institution::CertifiedPublicAccountantManagementCommittee)
        } else if n == 10 {
            Some(Institution::ForeignInvestmentCommittee)
        } else if n == 11 {
            Some(Institution::CulturalPropertiesProtectionCommittee)
        } else if n == 12 {
            Some(Institution::JapaneseNationalCommissionForUNESCO)
        } else if n == 13 {
            Some(Institution::SupremeCourt)
        } else if n == 14 {
            Some(Institution::HouseOfRepresentatives)
        } else if n == 15 {
            Some(Institution::HouseOfCouncilors)
        } else if n == 16 {
            Some(Institution::SeafarersCentralLaborCommittee)
        } else if n == 17 {
            Some(Institution::BarExaminationManagementCommittee)
        } else if n == 18 {
            Some(Institution::RadioRegulatoryCommission)
        } else if n == 19 {
            Some(Institution::CasinoManagementCommittee)
        } else {
            None
        }
    }

    /// The institution that the title `name` names: the first of the list whose
    /// name occurs in it.
    pub open spec fn named(name: Seq<char>) -> Option<Self> {
        if contains(name, "会計検査院"@) {
            Some(Institution::BoardOfAudit)
        } else if contains(name, "海上保安庁"@) {
            Some(Institution::CoastGuard)
        } else if contains(name, "日本学術会議"@) {
            Some(Institution::ScienceCouncilOfJapan)
        } else if contains(name, "土地調整委員会"@) {
            Some(Institution::LandAdjustmentCommittee)
        } else if contains(name, "金融再生委員会"@) {
            Some(Institution::FinancialReconstructionCommittee)
        } else if contains(name, "首都圏整備委員会"@) {
            Some(Institution::MetropolitanAreaDevelopmentCommittee)
        } else if contains(name, "地方財政委員会"@) {
            Some(Institution::LocalFinanceCommittee)
        } else if contains(name, "司法試験管理委員会"@) {
            Some(Institution::BarExaminationManagementCommittee)
        } else if contains(name, "公認会計士管理委員会"@) {
            Some(Institution::CertifiedPublicAccountantManagementCommittee)
        } else if contains(name, "外資委員会"@) {
            Some(Institution::ForeignInvestmentCommittee)
        } else if contains(name, "文化財保護委員会"@) {
            Some(Institution::CulturalPropertiesProtectionCommittee)
        } else if contains(name, "日本ユネスコ国内委員会"@) {
            Some(Institution::JapaneseNationalCommissionForUNESCO)
        } else if contains(name, "最高裁判所"@) {
            Some(Institution::SupremeCourt)
        } else if contains(name, "衆議院"@) {
            Some(Institution::HouseOfRepresentatives)
        } else if contains(name, "参議院"@) {
            Some(Institution::HouseOfCouncilors)
        } else if contains(name, "船員中央労働委員会"@) {
            Some(Institution::SeafarersCentralLaborCommittee)
        } else if contains(name, "電波監理委員会"@) {
            Some(Institution::RadioRegulatoryCommission)
        } else if contains(name, "カジノ管理委員会"@) {
            Some(Institution::CasinoManagementCommittee)
        } else {
            None
        }
    }

    pub fn to_int(&self) -> (r: usize)
        ensures
            r == self.number(),
    {
        match self {
            Institution::BoardOfAudit => 1,
            Institution::CoastGuard => 2,
            Institution::ScienceCouncilOfJapan => 3,
            Institution::LandAdjustmentCommittee => 4,
            Institution::FinancialReconstructionCommittee => 5,
            Institution::MetropolitanAreaDevelopmentCommittee => 6,
            Institution::LocalFinanceCommittee => 7,
            Institution::BarExaminationManagementCommittee => 8,
            Institution::CertifiedPublicAccountantManagementCommittee => 9,
            Institution::ForeignInvestmentCommittee => 10,
            Institution::CulturalPropertiesProtectionCommittee => 11,
            Institution::JapaneseNationalCommissionForUNESCO => 12,
            Institution::SupremeCourt => 13,
            Institution::HouseOfRepresentatives => 14,
            Institution::HouseOfCouncilors => 15,
            Institution::SeafarersCentralLaborCommittee => 16,
            Institution::RadioRegulatoryCommission => 18,
            Institution::CasinoManagementCommittee => 19,
        }
    }

    pub fn from_int(n: usize) -> (r: Option<Self>)
        ensures
            r == Institution::of_number(n as int),
    {
        match n {
            1 => Some(Institution::BoardOfAudit),
            2 => Some(Institution::CoastGuard),
            3 => Some(Institution::ScienceCouncilOfJapan),
            4 => Some(Institution::LandAdjustmentCommittee),
            5 => Some(Institution::FinancialReconstructionCommittee),
            6 => Some(Institution::MetropolitanAreaDevelopmentCommittee),
            7 => Some(Institution::LocalFinanceCommittee),
            8 => Some(Institution::BarExaminationManagementCommittee),
            9 => Some(Institution::CertifiedPublicAccountantManagementCommittee),
            10 => Some(Institution::ForeignInvestmentCommittee),
            11 => Some(Institution::CulturalPropertiesProtectionCommittee),
            12 => Some(Institution::JapaneseNationalCommissionForUNESCO),
            13 => Some(Institution::SupremeCourt),
            14 => Some(Institution::HouseOfRepresentatives),
            15 => Some(Institution::HouseOfCouncilors),
            16 => Some(Institution::SeafarersCentralLaborCommittee),
            17 => Some(Institution::BarExaminationManagementCommittee),
            18 => Some(Institution::RadioRegulatoryCommission),
            19 => Some(Institution::CasinoManagementCommittee),
            _ => None,
        }
    }

    /// 「会計検査院規則」などから導き出す
    pub fn from_name(name: &str) -> (r: Option<Self>)
        ensures
            r == Institution::named(name@),
    {
        let text = chars_of(name);
        if contains_str(&text, "会計検査院") {
            Some(Institution::BoardOfAudit)
        } else if contains_str(&text, "海上保安庁") {
            Some(Institution::CoastGuard)
        } else if contains_str(&text, "日本学術会議") {
            Some(Institution::ScienceCouncilOfJapan)
        } else if contains_str(&text, "土地調整委員会") {
            Some(Institution::LandAdjustmentCommittee)
        } else if contains_str(&text, "金融再生委員会") {
            Some(Institution::FinancialReconstructionCommittee)
        } else if contains_str(&text, "首都圏整備委員会") {
            Some(Institution::MetropolitanAreaDevelopmentCommittee)
        } else if contains_str(&text, "地方財政委員会") {
            Some(Institution::LocalFinanceCommittee)
        } else if contains_str(&text, "司法試験管理委員会") {
            Some(Institution::BarExaminationManagementCommittee)
        } else if contains_str(&text, "公認会計士管理委員会") {
            Some(Institution::CertifiedPublicAccountantManagementCommittee)
        } else if contains_str(&text, "外資委員会") {
            Some(Institution::ForeignInvestmentCommittee)
        } else if contains_str(&text, "文化財保護委員会") {
            Some(Institution::CulturalPropertiesProtectionCommittee)
        } else if contains_str(&text, "日本ユネスコ国内委員会") {
            Some(Institution::JapaneseNationalCommissionForUNESCO)
        } else if contains_str(&text, "最高裁判所") {
            Some(Institution::SupremeCourt)
        } else if contains_str(&text, "衆議院") {
            Some(Institution::HouseOfRepresentatives)
        } else if contains_str(&text, "参議院") {
            Some(Institution::HouseOfCouncilors)
        } else if contains_str(&text, "船員中央労働委員会") {
            Some(Institution::SeafarersCentralLaborCommittee)
        } else if contains_str(&text, "電波監理委員会") {
            Some(Institution::RadioRegulatoryCommission)
        } else if contains_str(&text, "カジノ管理委員会") {
            Some(Institution::CasinoManagementCommittee)
        } else {
            None
        }
    }
}

/// Reading an institution's number gives the institution back, and every number
/// that is read names an institution with that number, except 17, which is read
/// as 司法試験管理委員会 (number 8).
pub proof fn lemma_institution_number(x: Institution, n: int)
    ensures
        1 <= x.number() <= 19,
        Institution::of_number(x.number()) == Some(x),
        Institution::of_number(n) matches Some(y) ==> (y.number() == n || n == 17),
{
    assert(Institution::of_number(n) matches Some(y) ==> (y.number() == n || n == 17));
    match x {
        Institution::BoardOfAudit => assert(Institution::of_number(1) == Some(Institution::BoardOfAudit)),
        Institution::CoastGuard => assert(Institution::of_number(2) == Some(Institution::CoastGuard)),
        Institution::ScienceCouncilOfJapan => assert(Institution::of_number(3) == Some(Institution::ScienceCouncilOfJapan)),
        Institution::LandAdjustmentCommittee => assert(Institution::of_number(4) == Some(Institution::LandAdjustmentCommittee)),
        Institution::FinancialReconstructionCommittee => assert(Institution::of_number(5) == Some(Institution::FinancialReconstructionCommittee)),
        Institution::MetropolitanAreaDevelopmentCommittee => assert(Institution::of_number(6) == Some(Institution::MetropolitanAreaDevelopmentCommittee)),
        Institution::LocalFinanceCommittee => assert(Institution::of_number(7) == Some(Institution::LocalFinanceCommittee)),
        Institution::BarExaminationManagementCommittee => assert(Institution::of_number(8) == Some(Institution::BarExaminationManagementCommittee)),
        Institution::CertifiedPublicAccountantManagementCommittee => assert(Institution::of_number(9) == Some(Institution::CertifiedPublicAccountantManagementCommittee)),
        Institution::ForeignInvestmentCommittee => assert(Institution::of_number(10) == Some(Institution::ForeignInvestmentCommittee)),
        Institution::CulturalPropertiesProtectionCommittee => assert(Institution::of_number(11) == Some(Institution::CulturalPropertiesProtectionCommittee)),
        Institution::JapaneseNationalCommissionForUNESCO => assert(Institution::of_number(12) == Some(Institution::JapaneseNationalCommissionForUNESCO)),
        Institution::SupremeCourt => assert(Institution::of_number(13) == Some(Institution::SupremeCourt)),
        Institution::HouseOfRepresentatives => assert(Institution::of_number(14) == Some(Institution::HouseOfRepresentatives)),
        Institution::HouseOfCouncilors => assert(Institution::of_number(15) == Some(Institution::HouseOfCouncilors)),
        Institution::SeafarersCentralLaborCommittee => assert(Institution::of_number(16) == Some(Institution::SeafarersCentralLaborCommittee)),
        Institution::RadioRegulatoryCommission => assert(Institution::of_number(18) == Some(Institution::RadioRegulatoryCommission)),
        Institution::CasinoManagementCommittee => assert(Institution::of_number(19) == Some(Institution::CasinoManagementCommittee)),
    }
}

} // verus!
