use ofacxmlparser::document::{
    Alias, DocumentedName, DocumentedNamePart, MasterNamePartGroup, NamePartGroup, NamePartValue, Script,
};
use ofacxmlparser::names::NameRecord;
use ofacxmlparser::alias::SdnAlias;

#[test]
fn format_simple_name_individual() {
    let name = SdnAlias {
        fixed_ref: 10853,
        partysubtype: 4,
        script_id: 215,
        last_name: Some(String::from("DELOS REYES")),
        first_name: Some(String::from("Feliciano Semborio, Jr.")),
        ..Default::default()
    };
    assert_eq!("DELOS REYES, FELICIANO SEMBORIO JR.", name.build_alias());
}

#[test]
fn format_patronymic_name_individual() {
    let name = SdnAlias {
        fixed_ref: 10853,
        partysubtype: 4,
        script_id: 215,
        last_name: Some(String::from("DELOS REYES")),
        first_name: Some(String::from("Feliciano Semborio, Jr.")),
        patronymic: Some(String::from("PREYES")),
        matronymic: Some(String::from("MREYES")),
        ..Default::default()
    };
    assert_eq!("PREYES MREYES DELOS REYES, FELICIANO SEMBORIO JR.", name.build_alias());
}

#[test]
fn format_vessel_name() {
    let name = SdnAlias {
        fixed_ref: 10853,
        partysubtype: 1,
        script_id: 215,
        vessel_name: Some(String::from("VESSEL QDFZ' NAME HE")),
        ..Default::default()
    };
    assert_eq!("VESSEL QDFZ' NAME HE", name.build_alias());
}

#[test]
fn format_aircraft_name() {
    let name = SdnAlias {
        fixed_ref: 10853,
        partysubtype: 2,
        script_id: 215,
        aircraft_name: Some(String::from("AIRCRAFT QDFZ' NAME")),
        ..Default::default()
    };
    assert_eq!("AIRCRAFT QDFZ' NAME", name.build_alias());
}

#[test]
fn format_entity_name() {
    let name = SdnAlias {
        fixed_ref: 10853,
        partysubtype: 3,
        script_id: 215,
        entity_name: Some(String::from("ENTITY QDFZ' NAME HE")),
        ..Default::default()
    };
    assert_eq!("ENTITY QDFZ' NAME HE", name.build_alias());
}

#[test]
fn format_complete_name() {
    let mut name = SdnAlias {
        fixed_ref: 10853,
        partysubtype: 4,
        script_id: 215,
        last_name: Some(String::from("LAST NAME")),
        first_name: Some(String::from("FIRST NAME")),
        middle_name: Some(String::from("MIDDLE NAME")),
        maiden_name: Some(String::from("MAIDEN NAME")),
        aircraft_name: Some(String::from("AIRCRAFT NAME")),
        entity_name: Some(String::from("ENTITY NAME")),
        vessel_name: Some(String::from("VESSEL NAME")),
        nickname: Some(String::from("NICKNAME")),
        patronymic: Some(String::from("PATRONYMIC")),
        matronymic: Some(String::from("MATRONYMIC")),
        quality: String::from("NORMAL"),
    };
    assert_eq!("PATRONYMIC MATRONYMIC LAST NAME, FIRST NAME MIDDLE NAME MAIDEN NAME NICKNAME", name.build_alias());
    name.partysubtype = 1;
    assert_eq!("VESSEL NAME", name.build_alias());
    name.partysubtype = 2;
    assert_eq!("AIRCRAFT NAME", name.build_alias());
    name.partysubtype = 3;
    assert_eq!("ENTITY NAME", name.build_alias());
}

#[test]
fn family_only_name_has_no_comma() {
    let name = SdnAlias {
        partysubtype: 4,
        script_id: 220,
        last_name: Some(String::from("Reyes")),
        ..Default::default()
    };
    assert_eq!("REYES", name.build_alias());
}

#[test]
fn given_only_name() {
    let name = SdnAlias {
        partysubtype: 4,
        script_id: 215,
        first_name: Some(String::from("Ana")),
        nickname: Some(String::from("la, flaca")),
        ..Default::default()
    };
    assert_eq!("ANA LA FLACA", name.build_alias());
}

#[test]
fn other_script_joins_all_parts() {
    let name = SdnAlias {
        partysubtype: 4,
        script_id: 1,
        last_name: Some(String::from("Reyes")),
        first_name: Some(String::from("Ana")),
        ..Default::default()
    };
    assert_eq!("Reyes Ana", name.compose_alias());
    assert_eq!("REYES ANA", name.build_alias());
}

#[test]
fn unknown_subtype_is_empty() {
    let name = SdnAlias { partysubtype: 9, last_name: Some(String::from("X")), ..Default::default() };
    assert_eq!("", name.build_alias());
}


fn part(group: i32, script: i32, name: &str) -> DocumentedNamePart {
    DocumentedNamePart { name_part: NamePartValue { name: Some(name.to_owned()), script_id: script, name_part_group_id: group } }
}

fn group(id: i32, type_id: i32) -> MasterNamePartGroup {
    MasterNamePartGroup { name_part_group: NamePartGroup { id, name_part_type_id: type_id } }
}

#[test]
fn names_are_read_part_by_part() {
    let groups = vec![group(1, 1520), group(2, 1521)];
    let scripts = vec![Script { id: 215, code: "Latn".into(), value: "Latin".into() }, Script { id: 300, code: "Arab".into(), value: "Arabic".into() }];
    let aliases = vec![
        Alias {
            alias_type: 1,
            primary: true,
            quality: false,
            documented_name: vec![DocumentedName { parts: vec![part(1, 215, "REYES"), part(2, 215, "Ana")], doc_name_status: 1, id: 7 }],
        },
        Alias {
            alias_type: 1,
            primary: false,
            quality: true,
            documented_name: vec![DocumentedName { parts: vec![part(1, 300, "FAMILY"), part(2, 300, "GIVEN")], doc_name_status: 1, id: 8 }],
        },
    ];
    let names = NameRecord::from_ofac_document(&aliases, &groups, &scripts);
    assert_eq!(names.len(), 2);
    assert_eq!(names[0].id, 7);
    assert_eq!(names[0].name_type, "NAME");
    assert!(names[0].is_primary_215);
    assert_eq!(names[0].last_name.as_deref(), Some("REYES"));
    assert_eq!(names[0].first_name.as_deref(), Some("Ana"));
    assert_eq!(names[0].quality.as_deref(), Some("NORMAL"));
    assert_eq!(names[1].name_type, "ALIAS");
    assert_eq!(names[1].script, 300);
    assert_eq!(names[1].first_name.as_deref(), Some("FAMILY"));
    assert_eq!(names[1].last_name.as_deref(), Some("GIVEN"));
    assert_eq!(names[1].quality.as_deref(), Some("LOW"));
}
