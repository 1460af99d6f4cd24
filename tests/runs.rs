use ofacxmlparser::aggregate::{ActiveState, AggregateRow, CategoryRecords, LinkKind};
use ofacxmlparser::period::{Date, DatePeriod, DatePeriodRange};
use ofacxmlparser::config::{data_type_parsing, load_configs, mode_parsing, Args, Config};
use ofacxmlparser::document::{
    DateOfIssue, DocumentType, FeatureVersion, OfacDocument, SanctionsMeasure, VersionDetail,
};
use ofacxmlparser::features::{feature_reference_id, feature_value_record, program_record};
use ofacxmlparser::calendar::CalendarDate;
use ofacxmlparser::import::{check_document, ImportDecision, ImporterErr};
use ofacxmlparser::reconcile::{ChangeFlag, ChildRecord};
use ofacxmlparser::reference::{plan_reference, ReferenceRow, ReferenceWrite};

fn detail_version(id: i32, detail: Option<VersionDetail>) -> FeatureVersion {
    FeatureVersion { id, reliability_id: 1, detail, location: None, date_period: None }
}

fn text_detail(value: Option<&str>) -> Option<VersionDetail> {
    Some(VersionDetail { detail_type_id: Some(1432), detail_reference_id: None, value: value.map(|v| v.to_owned()) })
}

fn one(key: i32, value: &str) -> ChildRecord {
    ChildRecord { key, values: vec![value.to_owned()], flag: ChangeFlag::Unchanged }
}

#[test]
fn parse_bic() {
    let feature = detail_version(33828, text_detail(Some("HAVIGB2L")));
    assert_eq!(one(33828, "HAVIGB2L"), feature_value_record(&feature));
}

#[test]
fn parse_pob() {
    let feature = detail_version(2995, text_detail(Some("Culiacan, Sinaloa, Mexico")));
    assert_eq!(one(2995, "CULIACAN, SINALOA, MEXICO"), feature_value_record(&feature));
}

#[test]
fn parse_website() {
    let feature = detail_version(6855, text_detail(Some("www.arrai.tv")));
    assert_eq!(one(6855, "WWW.ARRAI.TV"), feature_value_record(&feature));
}

#[test]
fn parse_website_empty_detail() {
    let feature = detail_version(6855, text_detail(None));
    assert_eq!(one(6855, ""), feature_value_record(&feature));
}

#[test]
fn parse_target() {
    let feature = detail_version(
        47587,
        Some(VersionDetail { detail_type_id: Some(1431), detail_reference_id: Some(92062), value: None }),
    );
    assert_eq!(Some(92062), feature_reference_id(&feature));
}

#[test]
fn parse_target_empty_detail() {
    let feature = detail_version(47587, None);
    assert_eq!(None, feature_reference_id(&feature));
}

#[test]
fn parse_program() {
    let measure = SanctionsMeasure { id: 126053, program: Some(String::from("Cuba")) };
    assert_eq!(one(126053, "CUBA"), program_record(&measure));
}

#[test]
fn same_issue_date_is_refused_unless_forced() {
    let d = CalendarDate { year: 2024, month: 5, day: 2 };
    match check_document(true, d, Some(d), false) {
        Err(ImporterErr::AlreadyImported(m)) => assert!(m.contains("already been imported")),
        other => panic!("unexpected {:?}", other),
    }
    assert_eq!(check_document(true, d, Some(d), true), Ok(ImportDecision::Proceed));
    let later = CalendarDate { year: 2024, month: 5, day: 3 };
    assert_eq!(check_document(true, later, Some(d), false), Ok(ImportDecision::Proceed));
    assert_eq!(check_document(false, d, Some(d), false), Ok(ImportDecision::NotLoaded));
}

#[test]
fn missing_marker_stands_for_epoch() {
    let epoch = CalendarDate { year: 1970, month: 1, day: 1 };
    assert!(check_document(true, epoch, None, false).is_err());
    assert_eq!(check_document(true, CalendarDate { year: 2020, month: 1, day: 1 }, None, false), Ok(ImportDecision::Proceed));
}

#[test]
fn issue_date_texts() {
    let d = DateOfIssue { year: "2024".into(), month: "02".into(), day: "29".into() };
    assert_eq!(d.to_issue_date(), Some(CalendarDate { year: 2024, month: 2, day: 29 }));
    let bad = DateOfIssue { year: "2023".into(), month: "2".into(), day: "29".into() };
    assert_eq!(bad.to_issue_date(), None);
    let text = DateOfIssue { year: "20x3".into(), month: "2".into(), day: "1".into() };
    assert_eq!(text.to_issue_date(), None);
}

#[test]
fn reference_values_are_upserted_in_upper_case() {
    let rows = vec![ReferenceRow { id: 1, value: "FRANCE".into() }, ReferenceRow { id: 2, value: "SPAIN".into() }];
    assert_eq!(plan_reference(1, "France", &rows), ReferenceWrite::Nothing);
    assert_eq!(plan_reference(2, "Portugal", &rows), ReferenceWrite::Update(ReferenceRow { id: 2, value: "PORTUGAL".into() }));
    assert_eq!(plan_reference(3, "Italy", &rows), ReferenceWrite::Insert(ReferenceRow { id: 3, value: "ITALY".into() }));
}

#[test]
fn modes_and_data_types() {
    assert_eq!(mode_parsing("import"), Ok(String::from("import")));
    assert!(mode_parsing("delete").is_err());
    assert_eq!(data_type_parsing("FOFNASY"), Ok(String::from("FOFNASY")));
    assert!(data_type_parsing("XML").is_err());
}

fn args(mode: &str, datatype: &str) -> Args {
    Args { mode: mode.into(), debug: false, datatype: datatype.into(), force: true }
}

#[test]
fn config_of_one_list() {
    let c = Config::init(&args("import", "OFACNS")).unwrap();
    assert_eq!(c.data_type, DocumentType::OFACNS);
    assert!(c.force);
    assert!(!c.is_loaded());
    match Config::init(&args("import", "ALL")) {
        Err(m) => assert_eq!(m, "Data type ALL not recognized (must be one of `OFAC` | `OFACNS`)"),
        Ok(_) => panic!("ALL names no single list"),
    }
}

#[test]
fn configs_of_a_run() {
    let all: Vec<DocumentType> = load_configs(&args("import", "ALL")).unwrap().iter().map(|c| c.data_type).collect();
    assert_eq!(all, vec![DocumentType::OFACNS, DocumentType::OFAC]);
    let export: Vec<DocumentType> = load_configs(&args("export", "FOFNASY")).unwrap().iter().map(|c| c.data_type).collect();
    assert_eq!(export, vec![DocumentType::OFAC, DocumentType::OFACNS]);
    assert_eq!(load_configs(&args("import", "OFAC")).unwrap().len(), 1);
    assert!(load_configs(&args("import", "FOFNASY")).is_err());
}

#[test]
fn new_document_is_empty() {
    let d = OfacDocument::new("/data", DocumentType::OFACNS);
    assert_eq!(d.root_folder, "/data");
    assert!(!d.is_loaded);
    assert!(d.references.area_codes.is_empty());
    assert!(d.references.script_values.scripts.is_empty());
    assert_eq!(d.file_name(), "cons_advanced.xml");
    assert_eq!(OfacDocument::new("/data", DocumentType::OFAC).file_name(), "sdn_advanced.xml");
}

fn feature(id: i32, feature_type: i32, version: FeatureVersion) -> ofacxmlparser::document::Feature {
    ofacxmlparser::document::Feature { id, feature_type, version }
}

#[test]
fn features_are_routed_by_type() {
    let features = vec![
        feature(1, 13, detail_version(10, text_detail(Some("havigb2l")))),
        feature(2, 14, detail_version(11, text_detail(Some("www.a.tv")))),
        feature(3, 13, detail_version(12, None)),
        feature(4, 13, detail_version(13, text_detail(None))),
    ];
    let bics = ofacxmlparser::features::records_of_type(&features, 13);
    assert_eq!(bics, vec![one(10, "HAVIGB2L"), one(13, "")]);
    let sites = ofacxmlparser::features::records_of_type(&features, 14);
    assert_eq!(sites, vec![one(11, "WWW.A.TV")]);
}

#[test]
fn dates_of_birth_are_routed() {
    let d = Date { year: "1975".into(), month: "4".into(), day: "13".into() };
    let r = DatePeriodRange { from: d.clone(), to: d, approximate: false };
    let mut v = detail_version(46531, None);
    v.date_period = Some(DatePeriod { start: Some(r.clone()), end: Some(r) });
    let features = vec![feature(1, 8, v), feature(2, 13, detail_version(5, text_detail(Some("x"))))];
    assert_eq!(ofacxmlparser::features::dob_records_of(&features), vec![one(46531, "13 APR 1975")]);
}

#[test]
fn last_feature_of_a_type_gives_root_text() {
    let features = vec![
        feature(1, 26, detail_version(10, text_detail(Some("minister")))),
        feature(2, 3, detail_version(11, text_detail(Some("panama")))),
        feature(3, 26, detail_version(12, text_detail(Some("general")))),
    ];
    assert_eq!(ofacxmlparser::features::root_text_field(&features, 26), Some(String::from("GENERAL")));
    assert_eq!(ofacxmlparser::features::root_text_field(&features, 3), Some(String::from("PANAMA")));
    assert_eq!(ofacxmlparser::features::root_text_field(&features, 4), None);
    let cleared = vec![
        feature(1, 26, detail_version(10, text_detail(Some("minister")))),
        feature(2, 26, detail_version(11, text_detail(None))),
    ];
    assert_eq!(ofacxmlparser::features::root_text_field(&cleared, 26), None);
}

#[test]
fn categories_linked_by_internal_key() {
    use_link_kinds();
}

fn use_link_kinds() {
    use_kind(25, LinkKind::Surrogate);
    use_kind(8, LinkKind::Surrogate);
    use_kind(9, LinkKind::Surrogate);
    use_kind(10, LinkKind::Surrogate);
    use_kind(14, LinkKind::Surrogate);
    use_kind(13, LinkKind::External);
    use_kind(21, LinkKind::External);
}

fn use_kind(t: i32, k: LinkKind) {
    assert_eq!(ofacxmlparser::features::link_kind_of_feature(t), k);
}

#[test]
fn party_gives_root_row_and_categories() {
    let party = ofacxmlparser::document::DistinctParty {
        fixed_ref: 306,
        comment: Some(String::from("listed vessel")),
        profile: ofacxmlparser::document::Profile {
            party_sub_id: 1,
            identity: ofacxmlparser::document::Identity { id: 4106, ..Default::default() },
            feature: Some(vec![
                feature(1, 3, detail_version(10, text_detail(Some("cuba")))),
                feature(2, 14, detail_version(11, text_detail(Some("www.a.tv")))),
            ]),
        },
    };
    let row = AggregateRow::from_party(&party, &vec![3, 26]);
    assert_eq!(row.external_key, 306);
    assert_eq!(row.surrogate_key, 4106);
    assert_eq!(row.active, ActiveState::Active);
    assert_eq!(row.fields, vec!["VESSEL", "LISTED VESSEL", "CUBA", ""]);
    let sites = CategoryRecords::from_party(&party, 14, vec![one(11, "OLD")]);
    assert_eq!(sites.current, vec![one(11, "WWW.A.TV")]);
    assert_eq!(sites.persisted, vec![one(11, "OLD")]);
    assert_eq!(sites.link, LinkKind::Surrogate);
}
