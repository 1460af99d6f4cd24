//! The typed form of a published list, as the document reader hands it over.
use vstd::prelude::*;
use crate::period::{DatePeriod, Date};

verus! {

/// Which of the two published lists a document is.
#[derive(Debug, Clone, Copy, PartialEq, Eq, Structural)]
pub enum DocumentType {
    /// The list of specially designated nationals.
    OFAC,
    /// The consolidated list of the other programs.
    OFACNS,
}

impl Default for DocumentType {
    fn default() -> (r: DocumentType)
        ensures
            r == DocumentType::OFAC,
    {
        DocumentType::OFAC
    }
}

/// One name variant of an identity.
#[derive(Debug, Default, PartialEq, Eq)]
pub struct Alias {
    pub alias_type: i32,
    pub primary: bool,
    pub documented_name: Vec<DocumentedName>,
    pub quality: bool,
}

/// A name as documented, by parts.
#[derive(Debug, Default, PartialEq, Eq)]
pub struct DocumentedName {
    pub parts: Vec<DocumentedNamePart>,
    pub doc_name_status: i32,
    pub id: i32,
}

/// One part of a documented name.
#[derive(Debug, Default, PartialEq, Eq)]
pub struct DocumentedNamePart {
    pub name_part: NamePartValue,
}

/// The text of a name part, its script and the group giving its role.
#[derive(Debug, Default, PartialEq, Eq)]
pub struct NamePartValue {
    pub name: Option<String>,
    pub script_id: i32,
    pub name_part_group_id: i32,
}

/// The country codes of the document.
#[derive(Debug, Default, PartialEq, Eq)]
pub struct AreaCodeValues {
    pub area_codes: Vec<AreaCode>,
}

/// One country code.
#[derive(Debug, Default, PartialEq, Eq)]
pub struct AreaCode {
    pub id: i32,
    pub name: String,
}

/// The date on which the document was issued.
#[derive(Debug, Default, PartialEq, Eq)]
pub struct DateOfIssue {
    pub year: String,
    pub month: String,
    pub day: String,
}

/// The listed parties.
#[derive(Debug, Default, PartialEq, Eq)]
pub struct DistinctParties {
    pub parties: Vec<DistinctParty>,
}

/// One listed party.
#[derive(Debug, Default, PartialEq, Eq)]
pub struct DistinctParty {
    pub fixed_ref: i32,
    pub comment: Option<String>,
    pub profile: Profile,
}

/// The profile of a party: its sub-type, identity and features.
#[derive(Debug, Default, PartialEq, Eq)]
pub struct Profile {
    pub party_sub_id: i32,
    pub identity: Identity,
    pub feature: Option<Vec<Feature>>,
}

/// The identity of a party: its names and how their parts are grouped.
#[derive(Debug, Default, PartialEq, Eq)]
pub struct Identity {
    pub id: i32,
    pub alias: Vec<Alias>,
    pub name_part_groups: NamePartGroups,
}

/// The groups of name parts of an identity.
#[derive(Debug, Default, PartialEq, Eq)]
pub struct NamePartGroups {
    pub master_name_part_group: Vec<MasterNamePartGroup>,
}

/// One group of name parts.
#[derive(Debug, Default, PartialEq, Eq)]
pub struct MasterNamePartGroup {
    pub name_part_group: NamePartGroup,
}

/// A group of name parts and the kind of part it holds.
#[derive(Debug, Default, PartialEq, Eq)]
pub struct NamePartGroup {
    pub id: i32,
    pub name_part_type_id: i32,
}

/// The identification documents of the list.
#[derive(Debug, Default, PartialEq, Eq)]
pub struct IDRegDocuments {
    pub documents: Vec<Document>,
}

/// One identification or registration document.
#[derive(Debug, Default, PartialEq, Eq)]
pub struct Document {
    pub id: i32,
    pub type_id: i32,
    pub identity_id: i32,
    pub issued_by: Option<i32>,
    pub comment: Option<String>,
    pub registration_number: Option<String>,
    pub reference: Option<DocumentedNameReference>,
    pub dates: Option<Vec<DocumentDate>>,
}

/// A dated event of a document (issue, expiry).
#[derive(Debug, PartialEq, Eq)]
pub struct DocumentDate {
    pub type_id: i32,
    pub period: DatePeriod,
}

/// The documented name that a document belongs to.
#[derive(Debug, Default, PartialEq, Eq)]
pub struct DocumentedNameReference {
    pub id: i32,
}

/// A feature of a profile (a date of birth, an address, a vessel flag...).
#[derive(Debug, Default, PartialEq, Eq)]
pub struct Feature {
    pub id: i32,
    pub feature_type: i32,
    pub version: FeatureVersion,
}

/// The current version of a feature.
#[derive(Debug, Default, PartialEq, Eq)]
pub struct FeatureVersion {
    pub id: i32,
    pub reliability_id: i32,
    pub detail: Option<VersionDetail>,
    pub location: Option<VersionLocation>,
    pub date_period: Option<DatePeriod>,
}

/// The location a feature version points to.
#[derive(Debug, Clone, Copy, PartialEq, Eq, Default)]
pub struct VersionLocation {
    pub id: i32,
}

/// The detail of a feature version: a reference value or a text.
#[derive(Debug, Default, PartialEq, Eq)]
pub struct VersionDetail {
    pub detail_type_id: Option<i32>,
    pub detail_reference_id: Option<i32>,
    pub value: Option<String>,
}

/// The locations of the list.
#[derive(Debug, Default, PartialEq, Eq)]
pub struct Locations {
    pub locations: Vec<Location>,
}

/// One location, by country, area and parts.
#[derive(Debug, Default, PartialEq, Eq)]
pub struct Location {
    pub id: i32,
    pub location_area_code: Option<LocationAreaCode>,
    pub location_country: Option<LocationCountry>,
    pub location_parts: Option<Vec<LocationPart>>,
}

/// The area code of a location.
#[derive(Debug, Default, PartialEq, Eq)]
pub struct LocationAreaCode {
    pub id: String,
}

/// The country of a location.
#[derive(Debug, Default, PartialEq, Eq)]
pub struct LocationCountry {
    pub id: i32,
}

/// One part of a location (street, city, region...).
#[derive(Debug, Default, PartialEq, Eq)]
pub struct LocationPart {
    pub id: i32,
    pub values: Vec<LocationPartValue>,
}

/// The text of a location part.
#[derive(Debug, Default, PartialEq, Eq)]
pub struct LocationPartValue {
    pub primary: bool,
    pub value: String,
}

/// The relations between profiles.
#[derive(Debug, Default, PartialEq, Eq)]
pub struct ProfileRelationships {
    pub profile_relationships: Vec<ProfileRelationship>,
}

/// One relation from a profile to another.
#[derive(Debug, Default, PartialEq, Eq)]
pub struct ProfileRelationship {
    pub id: i32,
    pub from_profile_id: i32,
    pub sanction_entry_id: i32,
    pub relation_type_id: i32,
    pub to_profile_id: i32,
}

/// The reference tables of the list.
#[derive(Debug, Default, PartialEq, Eq)]
pub struct ReferenceValueSets {
    pub area_code_values: AreaCodeValues,
    pub detail_reference_values: DetailReferenceValues,
    pub feature_types: FeatureTypeValues,
    pub party_sub_type_values: PartySubTypeValues,
    pub reg_doc_types_values: IDRegDocTypeValues,
    pub script_values: ScriptValues,
}

/// The feature types.
#[derive(Debug, Default, PartialEq, Eq)]
pub struct FeatureTypeValues {
    pub types: Vec<FeatureType>,
}

/// One feature type.
#[derive(Debug, Default, PartialEq, Eq)]
pub struct FeatureType {
    pub id: i32,
    pub value: String,
}

/// The document types.
#[derive(Debug, Default, PartialEq, Eq)]
pub struct IDRegDocTypeValues {
    pub reg_doc_types: Vec<IDRegDocType>,
}

/// One document type.
#[derive(Debug, Default, PartialEq, Eq)]
pub struct IDRegDocType {
    pub id: i32,
    pub value: String,
}

/// The free-text reference values.
#[derive(Debug, Default, PartialEq, Eq)]
pub struct DetailReferenceValues {
    pub detail_references: Vec<DetailReference>,
}

/// One free-text reference value.
#[derive(Debug, Default, PartialEq, Eq)]
pub struct DetailReference {
    pub id: i32,
    pub value: String,
}

/// The party sub-types.
#[derive(Debug, Default, PartialEq, Eq)]
pub struct PartySubTypeValues {
    pub values: Vec<PartySubType>,
}

/// One party sub-type.
#[derive(Debug, Default, PartialEq, Eq)]
pub struct PartySubType {
    pub id: i32,
    pub value: String,
}

/// The scripts.
#[derive(Debug, Default, PartialEq, Eq)]
pub struct ScriptValues {
    pub scripts: Vec<Script>,
}

/// One script.
#[derive(Debug, Default, PartialEq, Eq)]
pub struct Script {
    pub id: i32,
    pub code: String,
    pub value: String,
}

/// The sanction entries of the list.
#[derive(Debug, Default, PartialEq, Eq)]
pub struct SanctionsEntries {
    pub entries: Vec<SanctionsEntry>,
}

/// The sanctions that apply to one profile.
#[derive(Debug, Default, PartialEq, Eq)]
pub struct SanctionsEntry {
    pub id: i32,
    pub profile_id: i32,
    pub events: Vec<EntryEvent>,
    pub measures: Vec<SanctionsMeasure>,
}

/// A dated event of a sanction entry.
#[derive(Debug, Default, PartialEq, Eq)]
pub struct EntryEvent {
    pub date: Date,
}

/// One measure of a sanction entry, with its program.
#[derive(Debug, Default, PartialEq, Eq)]
pub struct SanctionsMeasure {
    pub id: i32,
    pub program: Option<String>,
}

/// The reference tables and the issue date of a document.
#[derive(Debug, Default, PartialEq, Eq)]
pub struct OfacDocumentReferences {
    pub area_codes: Vec<AreaCode>,
    pub date_of_issue: DateOfIssue,
    pub detail_references: DetailReferenceValues,
    pub feature_types: FeatureTypeValues,
    pub party_sub_type_values: PartySubTypeValues,
    pub reg_doc_types: IDRegDocTypeValues,
    pub script_values: ScriptValues,
}

/// A whole document: where it is read from, which list it is, and its content
/// once loaded.
#[derive(Debug, Default, PartialEq, Eq)]
pub struct OfacDocument {
    pub distinct_parties: DistinctParties,
    pub document_type: DocumentType,
    pub documents: IDRegDocuments,
    pub locations: Locations,
    pub profile_relationships: ProfileRelationships,
    pub references: OfacDocumentReferences,
    pub root_folder: String,
    pub sanction_entries: SanctionsEntries,
    pub is_loaded: bool,
}

/// The file name of each list.
pub open spec fn document_file_name(t: DocumentType) -> Seq<char> {
    match t {
        DocumentType::OFAC => seq!['s', 'd', 'n', '_', 'a', 'd', 'v', 'a', 'n', 'c', 'e', 'd', '.', 'x', 'm', 'l'],
        DocumentType::OFACNS => seq!['c', 'o', 'n', 's', '_', 'a', 'd', 'v', 'a', 'n', 'c', 'e', 'd', '.', 'x', 'm', 'l'],
    }
}

impl OfacDocument {
    /// An empty, not yet loaded document of the given list, to be read from
    /// `folder`.
    pub fn new(folder: &str, document_type: DocumentType) -> (r: OfacDocument)
        ensures
            r.root_folder@ == folder@,
            r.document_type == document_type,
            !r.is_loaded,
            r.distinct_parties.parties@.len() == 0,
            r.documents.documents@.len() == 0,
            r.locations.locations@.len() == 0,
            r.profile_relationships.profile_relationships@.len() == 0,
            r.sanction_entries.entries@.len() == 0,
            r.references.area_codes@.len() == 0,
            r.references.date_of_issue.year@.len() == 0,
            r.references.date_of_issue.month@.len() == 0,
            r.references.date_of_issue.day@.len() == 0,
            r.references.detail_references.detail_references@.len() == 0,
            r.references.feature_types.types@.len() == 0,
            r.references.party_sub_type_values.values@.len() == 0,
            r.references.reg_doc_types.reg_doc_types@.len() == 0,
            r.references.script_values.scripts@.len() == 0,
    {
        OfacDocument {
            distinct_parties: DistinctParties { parties: Vec::new() },
            document_type,
            documents: IDRegDocuments { documents: Vec::new() },
            locations: Locations { locations: Vec::new() },
            profile_relationships: ProfileRelationships { profile_relationships: Vec::new() },
            references: OfacDocumentReferences {
                area_codes: Vec::new(),
                date_of_issue: DateOfIssue {
                    year: String::new(),
                    month: String::new(),
                    day: String::new(),
                },
                detail_references: DetailReferenceValues { detail_references: Vec::new() },
                feature_types: FeatureTypeValues { types: Vec::new() },
                party_sub_type_values: PartySubTypeValues { values: Vec::new() },
                reg_doc_types: IDRegDocTypeValues { reg_doc_types: Vec::new() },
                script_values: ScriptValues { scripts: Vec::new() },
            },
            root_folder: String::from_str(folder),
            sanction_entries: SanctionsEntries { entries: Vec::new() },
            is_loaded: false,
        }
    }

    /// The name of the file that holds the list.
    pub fn file_name(&self) -> (r: String)
        ensures
            r@ == document_file_name(self.document_type),
    {
        proof {
            reveal_strlit("sdn_advanced.xml");
            reveal_strlit("cons_advanced.xml");
        }
        let r = match self.document_type {
            DocumentType::OFAC => String::from_str("sdn_advanced.xml"),
            DocumentType::OFACNS => String::from_str("cons_advanced.xml"),
        };
        assert(r@ =~= document_file_name(self.document_type));
        r
    }
}

} // verus!
