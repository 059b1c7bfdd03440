use japanese_law_id::{
    Era, Institution, LawEfficacy, LawId, LawType, M5Ministry, M6Ministry, Ministry, RippouType,
    Wareki,
};

#[test]
fn check_from_str_law_id() {
    let s = "325M50001000004";
    let law_id = LawId::from_id_str(s).unwrap();
    assert_eq!(
        law_id,
        LawId {
            wareki: Wareki::new(Era::Showa, 25),
            law_type: LawType::MinistryOrder {
                ministry: Ministry::M5(vec![
                    M5Ministry::MinistryOfPostsAndTelecommunicationsOrdinance
                ]),
                num: 4
            }
        }
    );
    assert_eq!(law_id.to_id_str(), s);
}

#[test]
fn check_from_str_law_id_2() {
    let s = "345AC0000000089";
    let law_id = LawId::from_id_str(s).unwrap();
    assert_eq!(
        law_id,
        LawId {
            wareki: Wareki::new(Era::Showa, 45),
            law_type: LawType::Act {
                rippou_type: RippouType::Kakuhou,
                num: 89
            }
        }
    );
    assert_eq!(law_id.to_id_str(), s);
}

#[test]
fn check_from_str_law_id_3() {
    let s = "505M60000400060";
    let law_id = LawId::from_id_str(s).unwrap();
    assert_eq!(
        law_id,
        LawId {
            wareki: Wareki::new(Era::Reiwa, 5),
            law_type: LawType::MinistryOrder {
                ministry: Ministry::M6(vec![
                    M6Ministry::MinistryOfEconomyAndTradeAndIndustryOrdinance
                ]),
                num: 60
            }
        }
    );
    assert_eq!(law_id.to_id_str(), s);
}

#[test]
fn check_from_str_law_id_4() {
    let s = "505M60001024060";
    let law_id = LawId::from_id_str(s).unwrap();
    assert_eq!(
        law_id,
        LawId {
            wareki: Wareki::new(Era::Reiwa, 5),
            law_type: LawType::MinistryOrder {
                ministry: Ministry::M6(vec![
                    M6Ministry::MinistryOfTheEnvironmentOrdinance,
                    M6Ministry::MinistryOfForeignAffairsOrdinance,
                    M6Ministry::ReconstructionAgencyOrdinance,
                ]),
                num: 60
            }
        }
    );
    assert_eq!(law_id.to_id_str(), s);
}

#[test]
fn check_from_str_law_id_lst() {
    let v = vec![
        "325M50001000004",
        "345AC0000000089",
        "505M60000400060",
        "505M60000040019",
        "326R00000011009",
    ];
    for s in v.iter() {
        let law_id = LawId::from_id_str(s).unwrap();
        let s2 = law_id.to_id_str();
        assert_eq!(s, &s2);
    }
}

#[test]
fn constitution_reads_and_prints() {
    let s = "321CONSTITUTION";
    let law_id = LawId::from_id_str(s).unwrap();
    assert_eq!(
        law_id,
        LawId { wareki: Wareki::new(Era::Showa, 21), law_type: LawType::Constitution }
    );
    assert_eq!(law_id.to_id_str(), s);
}

#[test]
fn acts_of_each_kind() {
    let syuin = LawId::from_id_str("405AC1000000012").unwrap();
    assert_eq!(
        syuin.law_type,
        LawType::Act { rippou_type: RippouType::Syuin, num: 12 }
    );
    let sanin = LawId::from_id_str("405AC0100000003").unwrap();
    assert_eq!(
        sanin.law_type,
        LawType::Act { rippou_type: RippouType::Sanin, num: 3 }
    );
    assert_eq!(syuin.to_id_str(), "405AC1000000012");
    assert_eq!(sanin.to_id_str(), "405AC0100000003");
    assert_eq!(LawId::from_id_str("405AC0000002012"), None);
}

#[test]
fn orders_of_each_kind() {
    let cases = vec![
        ("322CO0000000016", LawType::CabinetOrder { efficacy: LawEfficacy::CabinetOrder, num: 16 }),
        ("322CO1000000016", LawType::CabinetOrder { efficacy: LawEfficacy::Law, num: 16 }),
        ("122IO0000000001", LawType::ImperialOrder { efficacy: LawEfficacy::CabinetOrder, num: 1 }),
        ("106DF1000000337", LawType::DajokanFukoku { efficacy: LawEfficacy::Law, num: 337 }),
        ("106DT0000000100", LawType::DajokanTasshi { efficacy: LawEfficacy::CabinetOrder, num: 100 }),
        ("106DH1000000999", LawType::DajokanHutatsu { efficacy: LawEfficacy::Law, num: 999 }),
    ];
    for (s, expected) in cases {
        let law_id = LawId::from_id_str(s).unwrap();
        assert_eq!(law_id.law_type, expected);
        assert_eq!(law_id.to_id_str(), s);
    }
    assert_eq!(LawId::from_id_str("322CO0100000016"), None);
}

#[test]
fn rules_and_decisions() {
    let jinjin = LawId::from_id_str("324RJNJ09040000").unwrap();
    assert_eq!(
        jinjin.law_type,
        LawType::Jinjin { kind: 9, kind_serial_number: 40, amendment_serial_number: 0 }
    );
    assert_eq!(jinjin.to_id_str(), "324RJNJ09040000");
    let decision = LawId::from_id_str("430RPMD12250003").unwrap();
    assert_eq!(
        decision.law_type,
        LawType::PrimeMinisterDecision { month: 12, day: 25, num: 3 }
    );
    assert_eq!(decision.to_id_str(), "430RPMD12250003");
    let regulation = LawId::from_id_str("326R00000011009").unwrap();
    assert_eq!(
        regulation.law_type,
        LawType::Regulation { institution: Institution::CulturalPropertiesProtectionCommittee, num: 9 }
    );
}

#[test]
fn institution_seventeen_reads_as_bar_examination_committee() {
    let law_id = LawId::from_id_str("326R00000017001").unwrap();
    assert_eq!(
        law_id.law_type,
        LawType::Regulation { institution: Institution::BarExaminationManagementCommittee, num: 1 }
    );
    assert_eq!(law_id.to_id_str(), "326R00000008001");
}

#[test]
fn malformed_identifiers_are_refused() {
    assert_eq!(LawId::from_id_str("605AC0000000089"), None);
    assert_eq!(LawId::from_id_str("005AC0000000089"), None);
    assert_eq!(LawId::from_id_str("3X5AC0000000089"), None);
    assert_eq!(LawId::from_id_str("345XX0000000089"), None);
    assert_eq!(LawId::from_id_str("345AC00000000X9"), None);
    assert_eq!(LawId::from_id_str("505M70001024060"), None);
    assert_eq!(LawId::from_id_str("505M60008000060"), None);
    assert_eq!(LawId::from_id_str("326R00000020009"), None);
}

#[test]
fn lenient_fields_print_canonically() {
    let plus = LawId::from_id_str("3+5AC0000000089").unwrap();
    assert_eq!(plus.wareki, Wareki::new(Era::Showa, 5));
    assert_eq!(plus.to_id_str(), "305AC0000000089");
    let lower = LawId::from_id_str("505M6000000a060").unwrap();
    assert_eq!(
        lower.law_type,
        LawType::MinistryOrder {
            ministry: Ministry::M6(vec![
                M6Ministry::MinistryOfHomeAffairsOrdinance,
                M6Ministry::PrimeMinistersOfficeOrdinance,
            ]),
            num: 60
        }
    );
    assert_eq!(lower.to_id_str(), "505M6000000A060");
}

#[test]
fn printing_then_reading_gives_the_value() {
    let values = vec![
        LawId {
            wareki: Wareki::new(Era::Heisei, 7),
            law_type: LawType::MinistryOrder {
                ministry: Ministry::M5(vec![
                    M5Ministry::PublicSafetyReviewCommitteeRules,
                    M5Ministry::MinistryOfJusticeOrdinance,
                ]),
                num: 999,
            },
        },
        LawId {
            wareki: Wareki::new(Era::Meiji, 1),
            law_type: LawType::Regulation { institution: Institution::CasinoManagementCommittee, num: 0 },
        },
        LawId {
            wareki: Wareki::new(Era::Taisho, 99),
            law_type: LawType::PrimeMinisterDecision { month: 1, day: 2, num: 9999 },
        },
    ];
    for v in values {
        let s = v.to_id_str();
        assert_eq!(s.len(), 15);
        assert_eq!(LawId::from_id_str(&s), Some(v));
    }
}

#[test]
fn ministry_fields() {
    let m = Ministry::M6(vec![
        M6Ministry::MinistryOfTheEnvironmentOrdinance,
        M6Ministry::MinistryOfForeignAffairsOrdinance,
        M6Ministry::ReconstructionAgencyOrdinance,
    ]);
    assert_eq!(m.to_id_str(), "M60001024");
    assert_eq!(Ministry::from_id_str("M60001024"), Ok(m));
    assert_eq!(Ministry::from_id_str("X60001024"), Err(String::from("unexpected string")));
    assert_eq!(Ministry::from_id_str("M70001024"), Err(String::from("unexpected string")));
    assert_eq!(Ministry::from_id_str("M6000G024"), Err(String::from("unexpected string")));
    assert_eq!(Ministry::from_id_str("M60008000"), Err(String::from("unexpected flag: 16")));
    assert_eq!(Ministry::from_id_str("M1F000000"), Err(String::from("unexpected flag: 28")));
}

#[test]
fn kind_fields() {
    assert_eq!(LawType::Constitution.to_id_str(), "CONSTITUTION");
    assert_eq!(
        LawType::from_id_str("RJNJ01002003"),
        Some(LawType::Jinjin { kind: 1, kind_serial_number: 2, amendment_serial_number: 3 })
    );
    assert_eq!(LawType::from_id_str("ZZ0000000000"), None);
    let kinds = vec![
        LawType::Constitution,
        LawType::Act { rippou_type: RippouType::Sanin, num: 7 },
        LawType::DajokanTasshi { efficacy: LawEfficacy::Law, num: 12 },
        LawType::Jinjin { kind: 99, kind_serial_number: 999, amendment_serial_number: 1 },
    ];
    for k in kinds {
        let s = k.to_id_str();
        assert_eq!(s.len(), 12);
        assert_eq!(LawType::from_id_str(&s), Some(k));
    }
    assert_eq!(
        LawType::Regulation { institution: Institution::SupremeCourt, num: 5 }.to_id_str(),
        "R00000013005"
    );
}

#[test]
fn titles_give_no_ministry() {
    assert_eq!(
        Ministry::from_name("平成十二年厚生省令第百二十七号"),
        Err(String::from("Unexpected input"))
    );
    assert_eq!(Ministry::from_name("厚生労働省令"), Err(String::from("Unexpected input")));
}

#[test]
fn ministry_lists_read_back_sorted_and_once() {
    let m = Ministry::M6(vec![
        M6Ministry::ReconstructionAgencyOrdinance,
        M6Ministry::MinistryOfTheEnvironmentOrdinance,
        M6Ministry::ReconstructionAgencyOrdinance,
        M6Ministry::MinistryOfForeignAffairsOrdinance,
    ]);
    let s = m.to_id_str();
    assert_eq!(s, "M60001024");
    assert_eq!(
        Ministry::from_id_str(&s),
        Ok(Ministry::M6(vec![
            M6Ministry::MinistryOfTheEnvironmentOrdinance,
            M6Ministry::MinistryOfForeignAffairsOrdinance,
            M6Ministry::ReconstructionAgencyOrdinance,
        ]))
    );
}

#[test]
fn ministry_lists_print_alike_when_they_hold_the_same_ministries() {
    let a = Ministry::M5(vec![
        M5Ministry::MinistryOfJusticeOrdinance,
        M5Ministry::PublicSafetyReviewCommitteeRules,
    ]);
    let b = Ministry::M5(vec![
        M5Ministry::PublicSafetyReviewCommitteeRules,
        M5Ministry::MinistryOfJusticeOrdinance,
        M5Ministry::MinistryOfJusticeOrdinance,
    ]);
    let c = Ministry::M5(vec![M5Ministry::MinistryOfJusticeOrdinance]);
    let d = Ministry::M6(vec![
        M6Ministry::MinistryOfJusticeOrdinance,
        M6Ministry::PublicSafetyReviewCommitteeRules,
    ]);
    assert_eq!(a.to_id_str(), b.to_id_str());
    assert_ne!(a.to_id_str(), c.to_id_str());
    assert_ne!(a.to_id_str(), d.to_id_str());
}
