use japanese_law_id::{
    Date, Era, Institution, M1Ministry, M2Ministry, M5Ministry, M6Ministry, MinistryContents,
    Wareki,
};

#[test]
fn flag_numbers() {
    assert_eq!(M6Ministry::MinistryOfTheEnvironmentOrdinance.to_int(), 13);
    assert_eq!(M6Ministry::CasinoManagementCommitteeRules.to_int(), 26);
    assert_eq!(M6Ministry::from_int(18), Some(M6Ministry::SpecificPersonalInformationProtectionCommissionRules));
    assert_eq!(M6Ministry::from_int(16), None);
    assert_eq!(M6Ministry::from_int(0), None);
    assert_eq!(M1Ministry::from_int(21), Some(M1Ministry::MinistryOfJusticeOrdinanceHei));
    assert_eq!(M1Ministry::from_int(22), None);
}

#[test]
fn bit_fields() {
    let l = [
        M6Ministry::MinistryOfTheEnvironmentOrdinance,
        M6Ministry::MinistryOfForeignAffairsOrdinance,
        M6Ministry::ReconstructionAgencyOrdinance,
    ];
    assert_eq!(M6Ministry::to_id_str(&l), "0001024");
    assert_eq!(M6Ministry::to_id_str(&[]), "0000000");
    assert_eq!(M6Ministry::to_id_str(&[M6Ministry::CasinoManagementCommitteeRules]), "2000000");
    assert_eq!(
        M6Ministry::from_id_str("0000000000000001000000100100"),
        Ok(l.to_vec())
    );
    assert_eq!(
        M6Ministry::from_id_str("0000000000001000000000000000"),
        Err(String::from("unexpected flag: 16"))
    );
    assert_eq!(
        M6Ministry::from_id_str("00000000000000000000000000x1"),
        Err(String::from("unexpected char: x"))
    );
    assert_eq!(
        M6Ministry::from_id_str("0000000000000000000000000000"),
        Ok(Vec::new())
    );
}

#[test]
fn periods() {
    assert_eq!(M6Ministry::start(), Date::new_ad(2001, 1, 16));
    assert_eq!(M5Ministry::end(), Date::new_ad(2001, 1, 15));
    assert!(M6Ministry::applicable(Date::new_ad(2001, 1, 16)));
    assert!(!M6Ministry::applicable(Date::new_ad(2001, 1, 15)));
    assert!(M5Ministry::applicable(Date::new_ad(2001, 1, 15)));
    assert!(!M5Ministry::applicable(Date::new_ad(2001, 1, 16)));
    assert!(M6Ministry::applicable(Date::new_ad(2100, 1, 1)));
    assert!(M6Ministry::applicable_wareki(Wareki::new(Era::Heisei, 13)));
    assert!(M5Ministry::applicable_wareki(Wareki::new(Era::Heisei, 13)));
    assert!(!M5Ministry::applicable_wareki(Wareki::new(Era::Heisei, 14)));
    assert!(M2Ministry::applicable_wareki(Wareki::new(Era::Showa, 19)));
    assert!(!M1Ministry::applicable_wareki(Wareki::new(Era::Showa, 19)));
}

#[test]
fn names_in_titles() {
    assert_eq!(
        M6Ministry::from_name("厚生労働省・農林水産省令"),
        vec![
            M6Ministry::MinistryOfHealthAndLaborAndWelfareOrdinance,
            M6Ministry::MinistryOfAgricultureAndForestryAndFisheriesOrdinance,
        ]
    );
    assert_eq!(
        M6Ministry::from_name("復興庁令"),
        vec![M6Ministry::ReconstructionAgencyOrdinance]
    );
    assert_eq!(
        M1Ministry::from_name("農商務省令（臨）"),
        vec![
            M1Ministry::MinistryOfAgricultureAndCommerceOrdinance,
            M1Ministry::MinistryOfAgricultureAndCommerceOrdinanceTemporary,
        ]
    );
    assert_eq!(M1Ministry::from_name("陸軍省令"), Vec::<M1Ministry>::new());
    assert_eq!(
        M1Ministry::from_name("陸軍省令（甲）"),
        vec![M1Ministry::MinistryOfTheArmyOrdinanceA]
    );
}

#[test]
fn institutions() {
    assert_eq!(Institution::SupremeCourt.to_int(), 13);
    assert_eq!(Institution::CasinoManagementCommittee.to_int(), 19);
    assert_eq!(Institution::from_int(17), Some(Institution::BarExaminationManagementCommittee));
    assert_eq!(Institution::from_int(8), Some(Institution::BarExaminationManagementCommittee));
    assert_eq!(Institution::from_int(0), None);
    assert_eq!(Institution::from_int(20), None);
    assert_eq!(Institution::from_name("最高裁判所規則"), Some(Institution::SupremeCourt));
    assert_eq!(Institution::from_name("厚生労働省令"), None);
}
