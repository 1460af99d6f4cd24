//! The display form of a name or alias of a listed party.
use vstd::prelude::*;
use crate::text::{copy_text, join_with_spaces, joined, remove_commas, to_upper, upper_of, without_commas};

verus! {

/// A stored name of a party, by parts, with the party's sub-type and the
/// script the name is written in.
#[derive(Debug)]
pub struct SdnAlias {
    pub fixed_ref: i32,
    pub partysubtype: i32,
    pub script_id: i32,
    pub last_name: Option<String>,
    pub first_name: Option<String>,
    pub middle_name: Option<String>,
    pub maiden_name: Option<String>,
    pub aircraft_name: Option<String>,
    pub entity_name: Option<String>,
    pub vessel_name: Option<String>,
    pub nickname: Option<String>,
    pub patronymic: Option<String>,
    pub matronymic: Option<String>,
    pub quality: String,
}

/// Party sub-type of a vessel.
pub const VESSEL_SUBTYPE: i32 = 1;

/// Party sub-type of an aircraft.
pub const AIRCRAFT_SUBTYPE: i32 = 2;

/// Party sub-type of an entity.
pub const ENTITY_SUBTYPE: i32 = 3;

/// Party sub-type of an individual.
pub const INDIVIDUAL_SUBTYPE: i32 = 4;

/// The scripts whose individual names are written `FAMILY, GIVEN`.
pub open spec fn family_first_script(script_id: i32) -> bool {
    script_id == 215 || script_id == 220
}

/// The views of a list of texts.
pub open spec fn texts(v: Seq<String>) -> Seq<Seq<char>> {
    v.map_values(|p: String| p@)
}

/// A name part without its commas, when it is given.
pub open spec fn part(o: Option<String>) -> Seq<Seq<char>> {
    match o {
        None => Seq::empty(),
        Some(s) => seq![without_commas(s@)],
    }
}

/// The text of an optional whole name, empty when not given.
pub open spec fn whole(o: Option<String>) -> Seq<char> {
    match o {
        None => Seq::empty(),
        Some(s) => s@,
    }
}

impl SdnAlias {
    /// The family parts of an individual's name: patronymic, matronymic, last name.
    pub open spec fn family_parts(&self) -> Seq<Seq<char>> {
        part(self.patronymic) + part(self.matronymic) + part(self.last_name)
    }

    /// The given parts of an individual's name: first, middle, maiden name, nickname.
    pub open spec fn given_parts(&self) -> Seq<Seq<char>> {
        part(self.first_name) + part(self.middle_name) + part(self.maiden_name) + part(
            self.nickname,
        )
    }

    /// The name before it is put in upper case.
    pub open spec fn alias_text(&self) -> Seq<char> {
        if self.partysubtype == VESSEL_SUBTYPE {
            whole(self.vessel_name)
        } else if self.partysubtype == AIRCRAFT_SUBTYPE {
            whole(self.aircraft_name)
        } else if self.partysubtype == ENTITY_SUBTYPE {
            whole(self.entity_name)
        } else if self.partysubtype == INDIVIDUAL_SUBTYPE {
            if family_first_script(self.script_id) {
                if self.family_parts().len() > 0 && self.given_parts().len() > 0 {
                    joined(self.family_parts()) + seq![',', ' '] + joined(self.given_parts())
                } else if self.family_parts().len() > 0 {
                    joined(self.family_parts())
                } else {
                    joined(self.given_parts())
                }
            } else {
                joined(self.family_parts() + self.given_parts())
            }
        } else {
            Seq::empty()
        }
    }

    /// Adds a name part, without its commas, when it is given.
    pub fn push_to_alias(part_name: &Option<String>, parts: &mut Vec<String>)
        ensures
            texts(final(parts)@) == texts(old(parts)@) + part(*part_name),
    {
        let ghost before = texts(parts@);
        match part_name {
            Some(name) => {
                parts.push(remove_commas(name.as_str()));
                assert(texts(parts@) =~= before + part(*part_name));
            },
            None => {
                assert(texts(parts@) =~= before + part(*part_name));
            },
        }
    }

    /// The name as it is written before upper-casing: a vessel, aircraft or
    /// entity by its own name; an individual by its parts, commas taken out,
    /// joined by spaces, with `, ` between family and given parts in the
    /// scripts that write the family first.
    pub fn compose_alias(&self) -> (r: String)
        ensures
            r@ == self.alias_text(),
    {
        if self.partysubtype == VESSEL_SUBTYPE {
            whole_text(&self.vessel_name)
        } else if self.partysubtype == AIRCRAFT_SUBTYPE {
            whole_text(&self.aircraft_name)
        } else if self.partysubtype == ENTITY_SUBTYPE {
            whole_text(&self.entity_name)
        } else if self.partysubtype == INDIVIDUAL_SUBTYPE {
            let mut family: Vec<String> = Vec::new();
            Self::push_to_alias(&self.patronymic, &mut family);
            Self::push_to_alias(&self.matronymic, &mut family);
            Self::push_to_alias(&self.last_name, &mut family);
            let mut given: Vec<String> = Vec::new();
            Self::push_to_alias(&self.first_name, &mut given);
            Self::push_to_alias(&self.middle_name, &mut given);
            Self::push_to_alias(&self.maiden_name, &mut given);
            Self::push_to_alias(&self.nickname, &mut given);
            assert(texts(family@) =~= self.family_parts());
            assert(texts(given@) =~= self.given_parts());
            if self.script_id == 215 || self.script_id == 220 {
                if family.len() > 0 && given.len() > 0 {
                    let mut r = join_with_spaces(&family);
                    proof {
                        reveal_strlit(", ");
                        assert(", "@ =~= seq![',', ' ']);
                    }
                    r.append(", ");
                    let g = join_with_spaces(&given);
                    r.append(g.as_str());
                    r
                } else if family.len() > 0 {
                    join_with_spaces(&family)
                } else {
                    join_with_spaces(&given)
                }
            } else {
                let mut all: Vec<String> = Vec::new();
                Self::push_to_alias(&self.patronymic, &mut all);
                Self::push_to_alias(&self.matronymic, &mut all);
                Self::push_to_alias(&self.last_name, &mut all);
                Self::push_to_alias(&self.first_name, &mut all);
                Self::push_to_alias(&self.middle_name, &mut all);
                Self::push_to_alias(&self.maiden_name, &mut all);
                Self::push_to_alias(&self.nickname, &mut all);
                assert(texts(all@) =~= self.family_parts() + self.given_parts());
                join_with_spaces(&all)
            }
        } else {
            String::new()
        }
    }

    /// The name in the form the exports use: the composed name in upper case.
    pub fn build_alias(&self) -> (r: String)
        ensures
            r@ == upper_of(self.alias_text()),
    {
        let a = self.compose_alias();
        to_upper(a.as_str())
    }
}

/// The text of an optional name, empty when not given.
fn whole_text(o: &Option<String>) -> (r: String)
    ensures
        r@ == whole(*o),
{
    match o {
        Some(s) => copy_text(s.as_str()),
        None => String::new(),
    }
}

impl Default for SdnAlias {
    fn default() -> (r: SdnAlias)
        ensures
            r.fixed_ref == 0 && r.partysubtype == 0 && r.script_id == 0,
            r.last_name is None && r.first_name is None && r.middle_name is None,
            r.maiden_name is None && r.aircraft_name is None && r.entity_name is None,
            r.vessel_name is None && r.nickname is None && r.patronymic is None,
            r.matronymic is None && r.quality@.len() == 0,
    {
        SdnAlias {
            fixed_ref: 0,
            partysubtype: 0,
            script_id: 0,
            last_name: None,
            first_name: None,
            middle_name: None,
            maiden_name: None,
            aircraft_name: None,
            entity_name: None,
            vessel_name: None,
            nickname: None,
            patronymic: None,
            matronymic: None,
            quality: String::new(),
        }
    }
}

} // verus!
