use ofacxmlparser::calendar::CalendarDate;
use ofacxmlparser::fofdbof::FofdbofRecord;
use ofacxmlparser::party::{SdnRecordAddress, SdnRecordDocument};

fn day(year: i32, month: u32, day: u32) -> CalendarDate {
    CalendarDate { year, month, day }
}

fn init_one_document() -> SdnRecordDocument {
    SdnRecordDocument {
        id: 1,
        doc_type: 1570,
        doc_type_value: String::from("Cedula No."),
        expiration_date: Some(day(1997, 10, 26)),
        issued_date: Some(day(1996, 10, 26)),
        issued_by: Some(String::from("France")),
        registration_number: String::from("12345"),
    }
}

fn init_multiple_documents() -> Vec<SdnRecordDocument> {
    let mut documents = Vec::new();
    for i in 0..5 {
        documents.push(SdnRecordDocument {
            id: i,
            doc_type: if i % 2 == 0 { 1570 } else { 1571 },
            doc_type_value: if i % 2 == 0 { String::from("Cedula No.") } else { String::from("Passport") },
            expiration_date: Some(day(1997 + i, 10, 26)),
            issued_date: Some(day(1996 + i, 10, 26)),
            issued_by: if i % 2 == 0 {
                Some(String::from("France"))
            } else if i == 0 {
                Some(String::from("Italia"))
            } else {
                None
            },
            registration_number: ((i + 1) * 12345).to_string(),
        });
    }
    documents
}

#[test]
fn extract_inf_from_one_document() {
    let mut inf = String::new();
    let expected = String::from("12345 (France) ISSUED 26 OCT 1996 EXPIRES 26 OCT 1997");
    init_one_document().extract_inf(&mut inf);
    assert_eq!(expected, inf);
}

#[test]
fn extract_inf_from_one_document_with_doc_name() {
    let mut inf = String::new();
    let expected = String::from("CEDULA NO. 12345 (France) ISSUED 26 OCT 1996 EXPIRES 26 OCT 1997");
    init_one_document().extract_inf_with_doc_name(&mut inf);
    assert_eq!(expected, inf);
}

#[test]
fn extract_inf_from_multiple_document() {
    let mut inf = String::new();
    let expected = String::from("12345 (France) ISSUED 26 OCT 1996 EXPIRES 26 OCT 1997 / 24690 ISSUED 26 OCT 1997 EXPIRES 26 OCT 1998 / 37035 (France) ISSUED 26 OCT 1998 EXPIRES 26 OCT 1999 / 49380 ISSUED 26 OCT 1999 EXPIRES 26 OCT 2000 / 61725 (France) ISSUED 26 OCT 2000 EXPIRES 26 OCT 2001");
    for d in init_multiple_documents() {
        d.extract_inf(&mut inf);
    }
    assert_eq!(expected, inf);
}

#[test]
fn extract_inf_from_multiple_document_with_doc_name() {
    let mut inf = String::new();
    let expected = String::from("CEDULA NO. 12345 (France) ISSUED 26 OCT 1996 EXPIRES 26 OCT 1997 / PASSPORT 24690 ISSUED 26 OCT 1997 EXPIRES 26 OCT 1998 / CEDULA NO. 37035 (France) ISSUED 26 OCT 1998 EXPIRES 26 OCT 1999 / PASSPORT 49380 ISSUED 26 OCT 1999 EXPIRES 26 OCT 2000 / CEDULA NO. 61725 (France) ISSUED 26 OCT 2000 EXPIRES 26 OCT 2001");
    for d in init_multiple_documents() {
        d.extract_inf_with_doc_name(&mut inf);
    }
    assert_eq!(expected, inf);
}

#[test]
fn early_dates_keep_four_digit_years() {
    let doc = SdnRecordDocument {
        registration_number: String::from("9"),
        issued_date: Some(day(987, 3, 5)),
        ..Default::default()
    };
    let mut inf = String::new();
    doc.extract_inf(&mut inf);
    assert_eq!("9 ISSUED 05 MAR 0987", inf);
}

#[test]
fn address_information() {
    let address = SdnRecordAddress {
        address: Some(String::from("1 Main St")),
        postal_code: Some(String::from("75001")),
        city: Some(String::from("Paris")),
        country: Some(String::from("France")),
        ..Default::default()
    };
    let mut inf = String::from("X");
    address.extract_inf(&mut inf);
    assert_eq!("X / 1 Main St 75001 Paris France", inf);
}

#[test]
fn address_and_country_fields() {
    let mut r = FofdbofRecord::default();
    let address = SdnRecordAddress {
        address: Some(String::from("1 Main St")),
        postal_code: Some(String::from("75001")),
        region: Some(String::from("Europe")),
        ..Default::default()
    };
    r.compute_add(&address);
    assert_eq!(r.t_add, Some(String::from("1 Main St, 75001")));
    r.compute_ctr(&address);
    assert_eq!(r.t_ctr, Some(String::from("Europe")));
    let mut empty = FofdbofRecord::default();
    empty.compute_add(&SdnRecordAddress::default());
    empty.compute_ctr(&SdnRecordAddress::default());
    assert_eq!(empty.t_add, None);
    assert_eq!(empty.t_ctr, None);
}

#[test]
fn short_key_of_vessel_and_aircraft() {
    let docs = vec![
        SdnRecordDocument { doc_type: 1626, registration_number: String::from("IMO1"), ..Default::default() },
        SdnRecordDocument { doc_type: 1571, registration_number: String::from("P9"), ..Default::default() },
        SdnRecordDocument { doc_type: 1626, registration_number: String::from("IMO2"), ..Default::default() },
    ];
    let mut vessel = FofdbofRecord::default();
    vessel.compute_shk(1, &docs);
    assert_eq!(vessel.t_shk, "IMO1IMO2");
    let mut aircraft = FofdbofRecord { t_name: String::from("JET"), ..Default::default() };
    aircraft.compute_shk(2, &docs);
    assert_eq!(aircraft.t_shk, "JET");
}

#[test]
fn documents_are_split_by_kind() {
    let docs = init_multiple_documents();
    let r = FofdbofRecord::default();
    let (cedula, passports, other) = r.compute_inf_documents(&docs, 4);
    assert_eq!(cedula, "12345 (France) ISSUED 26 OCT 1996 EXPIRES 26 OCT 1997 / 37035 (France) ISSUED 26 OCT 1998 EXPIRES 26 OCT 1999 / 61725 (France) ISSUED 26 OCT 2000 EXPIRES 26 OCT 2001");
    assert_eq!(passports, "24690 ISSUED 26 OCT 1997 EXPIRES 26 OCT 1998 / 49380 ISSUED 26 OCT 1999 EXPIRES 26 OCT 2000");
    assert_eq!(other, "");
    let (_, _, entity_docs) = r.compute_inf_documents(&vec![init_one_document()], 3);
    assert_eq!(entity_docs, "CEDULA NO. 12345 (France) ISSUED 26 OCT 1996 EXPIRES 26 OCT 1997");
}

#[test]
fn addresses_are_listed() {
    let a = SdnRecordAddress { city: Some(String::from("Paris")), ..Default::default() };
    let b = SdnRecordAddress { address: Some(String::from("Rue X")), country: Some(String::from("France")), ..Default::default() };
    let r = FofdbofRecord::default();
    assert_eq!(r.compute_inf_addresses(&vec![a, b]), " Paris / Rue X France");
}

#[test]
fn years_beyond_four_digits_carry_a_sign() {
    let doc = SdnRecordDocument {
        registration_number: String::from("9"),
        issued_date: Some(day(12345, 1, 2)),
        expiration_date: Some(day(-5, 1, 2)),
        ..Default::default()
    };
    let mut inf = String::new();
    doc.extract_inf(&mut inf);
    assert_eq!("9 ISSUED 02 JAN +12345 EXPIRES 02 JAN -0005", inf);
}
