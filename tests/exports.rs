use ofacxmlparser::document::DocumentType;
use ofacxmlparser::export::{Exporter, FofnasyExporter, FofnasyRecord, RecordType};

fn init_simple_records() -> Vec<(i32, Vec<String>)> {
    let mut records = Vec::new();
    for i in 0..5 {
        let mut aliases = Vec::new();
        for j in 0..2 {
            aliases.push(format!("ALIAS{}{}", j, i));
        }
        records.push((i, aliases))
    }
    records
}

#[test]
fn write_simple_records() {
    let mut buffer = String::new();
    let mut exporter = FofnasyExporter::default();
    let records = init_simple_records();
    exporter.load_records(&records, &DocumentType::OFAC);
    exporter.write_in(&mut buffer);
    assert_eq!(
        buffer,
        "OFAC000000ALIAS00
OFAC000000ALIAS10
OFAC000001ALIAS01
OFAC000001ALIAS11
OFAC000002ALIAS02
OFAC000002ALIAS12
OFAC000003ALIAS03
OFAC000003ALIAS13
OFAC000004ALIAS04
OFAC000004ALIAS14
"
    );
}

#[test]
fn short_alias_is_padded_and_upper_cased() {
    let record = FofnasyRecord { doc_type: DocumentType::OFACNS, t_id: 1234567, t_alias: String::from("ab") };
    let line = record.to_line();
    assert_eq!(line.len(), 4 + 7 + 300 + 1);
    assert!(line.starts_with("OFNS1234567AB "));
    assert!(line.ends_with(" \n"));
}

#[test]
fn negative_id_is_padded_after_its_sign() {
    let record = FofnasyRecord { doc_type: DocumentType::OFAC, t_id: -5, t_alias: String::from("alias") };
    assert_eq!("OFAC0000-5ALIAS\n", record.to_line());
}

#[test]
fn record_type_defaults_to_main() {
    assert_eq!(RecordType::Main, RecordType::default());
}

#[test]
fn export_through_trait() {
    let mut exporter = FofnasyExporter::default();
    exporter.load_records(&vec![(7, vec![String::from("Ab")])], &DocumentType::OFACNS);
    let mut buffer = String::new();
    Exporter::write_in(&exporter, &mut buffer);
    assert_eq!(buffer, format!("OFNS000007AB{}\n", " ".repeat(298)));
}
