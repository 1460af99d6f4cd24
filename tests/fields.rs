use ofacxmlparser::document::DocumentType;
use ofacxmlparser::export::RecordType;
use ofacxmlparser::fofdbof::{AddInfoTemplate, FofdbofRecord};

fn texts(v: &[&str]) -> Vec<String> {
    v.iter().map(|s| s.to_string()).collect()
}

#[test]
fn gender_codes() {
    let mut r = FofdbofRecord::default();
    r.compute_gdr("MALE");
    assert_eq!(r.t_gdr, "M");
    r.compute_gdr("FEMALE");
    assert_eq!(r.t_gdr, "F");
    r.compute_gdr("female");
    assert_eq!(r.t_gdr, "U");
}

#[test]
fn nationalities_are_separated() {
    let mut r = FofdbofRecord::default();
    r.compute_ntl(&texts(&["FRANCE", "SPAIN"]));
    assert_eq!(r.t_ntl, "FRANCE;SPAIN");
    let mut empty = FofdbofRecord::default();
    empty.compute_ntl(&vec![]);
    assert_eq!(empty.t_ntl, "");
}

#[test]
fn dates_of_birth_stop_at_limit() {
    let mut r = FofdbofRecord::default();
    let long = "X".repeat(120);
    r.compute_dob(&texts(&["13 APR 1975", &long, "1961"]));
    assert_eq!(r.t_dob, "13 APR 1975/1961");
    assert!(r.t_dob_overflow);
    let mut p = FofdbofRecord::default();
    p.compute_pob(&texts(&["PARIS", "LYON"]));
    assert_eq!(p.t_pob, "PARIS/LYON");
    assert!(!p.t_pob_overflow);
}

#[test]
fn identifiers_are_ten_characters() {
    let mut r = FofdbofRecord::default();
    r.compute_oid(1234, 7);
    assert_eq!(r.t_oid, "OFAC001234");
    let mut alt = FofdbofRecord { record_type: RecordType::Alternative, doc_type: DocumentType::OFACNS, ..Default::default() };
    alt.compute_oid(1234, 77);
    assert_eq!(alt.t_oid, "OFNSZ00077");
    assert_eq!(FofdbofRecord::compute_oid_alternative(0), "OFAC000000");
}

#[test]
fn alias_reference_points_to_main_line() {
    let mut r = FofdbofRecord { t_oid: "OFAC000042".into(), ..Default::default() };
    r.compute_syn(true, 42);
    assert_eq!(r.t_syn, "OFAC000042");
    let mut alt = FofdbofRecord { record_type: RecordType::Alternative, ..Default::default() };
    alt.compute_syn(true, 42);
    assert_eq!(alt.t_syn, "OFAC000042");
    let mut none = FofdbofRecord::default();
    none.compute_syn(false, 42);
    assert_eq!(none.t_syn, "");
}

#[test]
fn reference_and_type() {
    let mut r = FofdbofRecord { doc_type: DocumentType::OFACNS, t_name: "ACME".into(), ..Default::default() };
    r.compute_ref("1970/01/01");
    assert_eq!(r.t_ref, "OFAC-NS_1970/01/01");
    r.compute_typ(3, &texts(&["SDGT"]), &texts(&["ACME"]));
    assert_eq!(r.t_typ, 'A');
    r.compute_typ(3, &texts(&["FTO"]), &vec![]);
    assert_eq!(r.t_typ, 'A');
    r.compute_typ(3, &texts(&["SDGT"]), &vec![]);
    assert_eq!(r.t_typ, 'C');
    r.compute_typ(4, &vec![], &vec![]);
    assert_eq!(r.t_typ, 'P');
    r.compute_typ(9, &vec![], &vec![]);
    assert_eq!(r.t_typ, 'P');
}

#[test]
fn watched_programs() {
    let mut r = FofdbofRecord::default();
    r.compute_us1(&texts(&["CUBA", "IRAN"]), &texts(&["SDGT", "IRAN"]));
    assert_eq!(r.t_us1, "Yes");
    r.compute_us1(&texts(&["CUBA"]), &texts(&["SDGT"]));
    assert_eq!(r.t_us1, "No");
}

#[test]
fn bank_codes() {
    let mut r = FofdbofRecord { t_typ: 'C', ..Default::default() };
    r.compute_bic(&texts(&["HAVIGB2L", "ABC"]), &texts(&["DDCBIC"]));
    assert_eq!(r.t_bic, Some(String::from("HAVIGB2L HAVIGB ABC DDCBIC ")));
    let mut p = FofdbofRecord { t_typ: 'P', ..Default::default() };
    p.compute_bic(&texts(&["HAVIGB2L"]), &vec![]);
    assert_eq!(p.t_bic, None);
}

#[test]
fn additional_information() {
    let mut r = FofdbofRecord::default();
    let program = AddInfoTemplate { title: "PROGRAM".into(), separator: '/', condition: true, space_between: true };
    r.extract_inf(&(1, program, texts(&["SDGT", "IRAN"])));
    assert_eq!(r.t_inf, "PROGRAM SDGT / IRAN; ");
    let nationality = AddInfoTemplate { title: "NATIONALITY".into(), separator: '/', condition: true, space_between: false };
    r.extract_inf(&(4, nationality, texts(&["FR", "ES"])));
    assert_eq!(r.t_inf, "PROGRAM SDGT / IRAN; NATIONALITY FR/ES; ");
    let off = AddInfoTemplate { title: "DOB".into(), separator: '/', condition: false, space_between: false };
    r.extract_inf(&(2, off, texts(&["1961"])));
    let short = AddInfoTemplate { title: "POB".into(), separator: '/', condition: true, space_between: false };
    r.extract_inf(&(3, short, texts(&["X"])));
    assert_eq!(r.t_inf, "PROGRAM SDGT / IRAN; NATIONALITY FR/ES; ");
}
