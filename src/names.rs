//! The name records of a party, built from the names its identity documents.
use vstd::prelude::*;
use crate::document::{Alias, DocumentedName, DocumentedNamePart, MasterNamePartGroup, Script};
use crate::reconcile::ChangeFlag;
use crate::text::copy_text;

verus! {

/// One name of a party, by parts, with its script and quality.
#[derive(Debug, PartialEq, Eq)]
pub struct NameRecord {
    pub id: i32,
    pub name_type: String,
    pub script: i32,
    pub last_name: Option<String>,
    pub first_name: Option<String>,
    pub middle_name: Option<String>,
    pub maiden_name: Option<String>,
    pub aircraft_name: Option<String>,
    pub entity_name: Option<String>,
    pub vessel_name: Option<String>,
    pub nickname: Option<String>,
    pub patronymic: Option<String>,
    pub matronymic: Option<String>,
    pub quality: Option<String>,
    pub flag: ChangeFlag,
    pub is_primary_215: bool,
}

/// What a name record holds.
pub ghost struct NameView {
    pub id: i32,
    pub name_type: Seq<char>,
    pub script: i32,
    pub last_name: Option<Seq<char>>,
    pub first_name: Option<Seq<char>>,
    pub middle_name: Option<Seq<char>>,
    pub maiden_name: Option<Seq<char>>,
    pub aircraft_name: Option<Seq<char>>,
    pub entity_name: Option<Seq<char>>,
    pub vessel_name: Option<Seq<char>>,
    pub nickname: Option<Seq<char>>,
    pub patronymic: Option<Seq<char>>,
    pub matronymic: Option<Seq<char>>,
    pub quality: Option<Seq<char>>,
    pub flag: ChangeFlag,
    pub is_primary_215: bool,
}

/// The text of an optional value.
pub open spec fn opt_view(o: Option<String>) -> Option<Seq<char>> {
    match o {
        Some(s) => Some(s@),
        None => None,
    }
}

impl View for NameRecord {
    type V = NameView;

    open spec fn view(&self) -> NameView {
        NameView {
            id: self.id,
            name_type: self.name_type@,
            script: self.script,
            last_name: opt_view(self.last_name),
            first_name: opt_view(self.first_name),
            middle_name: opt_view(self.middle_name),
            maiden_name: opt_view(self.maiden_name),
            aircraft_name: opt_view(self.aircraft_name),
            entity_name: opt_view(self.entity_name),
            vessel_name: opt_view(self.vessel_name),
            nickname: opt_view(self.nickname),
            patronymic: opt_view(self.patronymic),
            matronymic: opt_view(self.matronymic),
            quality: opt_view(self.quality),
            flag: self.flag,
            is_primary_215: self.is_primary_215,
        }
    }
}

/// The script in which family and given names swap places.
pub open spec fn arabic_code() -> Seq<char> {
    seq!['A', 'r', 'a', 'b']
}

/// The id of the first script whose code is `Arab`.
pub open spec fn arabic_id(scripts: Seq<Script>) -> Option<i32>
    decreases scripts.len(),
{
    if scripts.len() == 0 {
        None
    } else if scripts[0].code@ == arabic_code() {
        Some(scripts[0].id)
    } else {
        arabic_id(scripts.drop_first())
    }
}

/// The part type of the first name-part group with id `group_id`.
pub open spec fn part_type(groups: Seq<MasterNamePartGroup>, group_id: i32) -> Option<i32>
    decreases groups.len(),
{
    if groups.len() == 0 {
        None
    } else if groups[0].name_part_group.id == group_id {
        Some(groups[0].name_part_group.name_part_type_id)
    } else {
        part_type(groups.drop_first(), group_id)
    }
}

/// `m` with the name part of type `type_id` set to `name`; family and given
/// names swap places in Arabic script.
pub open spec fn split(m: NameView, type_id: i32, name: Option<Seq<char>>, arabic: bool) -> NameView {
    if type_id == 1520 {
        if !arabic {
            NameView { last_name: name, ..m }
        } else {
            NameView { first_name: name, ..m }
        }
    } else if type_id == 1521 {
        if !arabic {
            NameView { first_name: name, ..m }
        } else {
            NameView { last_name: name, ..m }
        }
    } else if type_id == 1522 {
        NameView { middle_name: name, ..m }
    } else if type_id == 1523 {
        NameView { maiden_name: name, ..m }
    } else if type_id == 1524 {
        NameView { aircraft_name: name, ..m }
    } else if type_id == 1525 {
        NameView { entity_name: name, ..m }
    } else if type_id == 1526 {
        NameView { vessel_name: name, ..m }
    } else if type_id == 1528 {
        NameView { nickname: name, ..m }
    } else if type_id == 91708 {
        NameView { patronymic: name, ..m }
    } else if type_id == 91709 {
        NameView { matronymic: name, ..m }
    } else {
        m
    }
}

/// Whether every part of every documented name of `aliases` belongs to a
/// known name-part group.
pub open spec fn parts_grouped(aliases: Seq<Alias>, groups: Seq<MasterNamePartGroup>) -> bool {
    forall|a: int, d: int, p: int|
        0 <= a < aliases.len() && 0 <= d < aliases[a].documented_name@.len() && 0 <= p
            < aliases[a].documented_name@[d].parts@.len() ==> (#[trigger] part_type(
            groups,
            aliases[a].documented_name@[d].parts@[p].name_part.name_part_group_id,
        )) is Some
}

/// The name after its parts, in order, have been read.
pub open spec fn read_parts(
    m: NameView,
    parts: Seq<DocumentedNamePart>,
    groups: Seq<MasterNamePartGroup>,
    scripts: Seq<Script>,
    primary: bool,
    status: i32,
) -> NameView
    decreases parts.len(),
{
    if parts.len() == 0 {
        m
    } else {
        let prev = read_parts(m, parts.drop_last(), groups, scripts, primary, status);
        let part = parts.last().name_part;
        let s = split(
            prev,
            part_type(groups, part.name_part_group_id)->0,
            opt_view(part.name),
            arabic_id(scripts) == Some(part.script_id),
        );
        let s2 = NameView { script: part.script_id, ..s };
        if primary && part.script_id == 215 && status == 1 {
            NameView { is_primary_215: true, name_type: seq!['N', 'A', 'M', 'E'], ..s2 }
        } else {
            s2
        }
    }
}

/// A name before its parts are read: an alias of the given quality.
pub open spec fn blank_name(id: i32, low: bool) -> NameView {
    NameView {
        id,
        name_type: seq!['A', 'L', 'I', 'A', 'S'],
        script: 0,
        last_name: None,
        first_name: None,
        middle_name: None,
        maiden_name: None,
        aircraft_name: None,
        entity_name: None,
        vessel_name: None,
        nickname: None,
        patronymic: None,
        matronymic: None,
        quality: Some(
            if low {
                seq!['L', 'O', 'W']
            } else {
                seq!['N', 'O', 'R', 'M', 'A', 'L']
            },
        ),
        flag: ChangeFlag::Unchanged,
        is_primary_215: false,
    }
}

/// The name record of one documented name of alias `a`.
pub open spec fn name_of(
    a: &Alias,
    dn: &DocumentedName,
    groups: Seq<MasterNamePartGroup>,
    scripts: Seq<Script>,
) -> NameView {
    read_parts(blank_name(dn.id, a.quality), dn.parts@, groups, scripts, a.primary, dn.doc_name_status)
}

/// The name records of the first `k` documented names of alias `a`.
pub open spec fn names_of_alias(
    a: &Alias,
    k: int,
    groups: Seq<MasterNamePartGroup>,
    scripts: Seq<Script>,
) -> Seq<NameView>
    decreases k,
{
    if k <= 0 {
        Seq::empty()
    } else {
        names_of_alias(a, k - 1, groups, scripts).push(
            name_of(a, &a.documented_name@[k - 1], groups, scripts),
        )
    }
}

/// The name records of all documented names of `aliases`, in order.
pub open spec fn names_of(
    aliases: Seq<Alias>,
    groups: Seq<MasterNamePartGroup>,
    scripts: Seq<Script>,
) -> Seq<NameView>
    decreases aliases.len(),
{
    if aliases.len() == 0 {
        Seq::empty()
    } else {
        names_of(aliases.drop_last(), groups, scripts) + names_of_alias(
            &aliases.last(),
            aliases.last().documented_name@.len() as int,
            groups,
            scripts,
        )
    }
}

/// The views of a list of name records.
pub open spec fn name_views(v: Seq<NameRecord>) -> Seq<NameView> {
    v.map_values(|n: NameRecord| n@)
}

/// The id of the first script whose code is `Arab`.
fn find_arabic(scripts: &Vec<Script>) -> (r: Option<i32>)
    ensures
        r == arabic_id(scripts@),
{
    let mut i: usize = 0;
    assert(scripts@.subrange(0, scripts@.len() as int) =~= scripts@);
    while i < scripts.len()
        invariant
            0 <= i <= scripts.len(),
            arabic_id(scripts@) == arabic_id(scripts@.subrange(i as int, scripts@.len() as int)),
        decreases scripts.len() - i,
    {
        let ghost rest = scripts@.subrange(i as int, scripts@.len() as int);
        assert(rest.drop_first() =~= scripts@.subrange(i + 1, scripts@.len() as int));
        assert(rest[0] == scripts@[i as int]);
        proof {
            reveal_strlit("Arab");
            assert("Arab"@ =~= arabic_code());
        }
        if crate::text::same_text(scripts[i].code.as_str(), "Arab") {
            return Some(scripts[i].id);
        }
        i = i + 1;
    }
    assert(scripts@.subrange(i as int, scripts@.len() as int).len() == 0);
    None
}

/// The part type of the first name-part group with id `group_id`.
fn find_part_type(groups: &Vec<MasterNamePartGroup>, group_id: i32) -> (r: Option<i32>)
    ensures
        r == part_type(groups@, group_id),
{
    let mut i: usize = 0;
    assert(groups@.subrange(0, groups@.len() as int) =~= groups@);
    while i < groups.len()
        invariant
            0 <= i <= groups.len(),
            part_type(groups@, group_id) == part_type(
                groups@.subrange(i as int, groups@.len() as int),
                group_id,
            ),
        decreases groups.len() - i,
    {
        let ghost rest = groups@.subrange(i as int, groups@.len() as int);
        assert(rest.drop_first() =~= groups@.subrange(i + 1, groups@.len() as int));
        assert(rest[0] == groups@[i as int]);
        if groups[i].name_part_group.id == group_id {
            return Some(groups[i].name_part_group.name_part_type_id);
        }
        i = i + 1;
    }
    assert(groups@.subrange(i as int, groups@.len() as int).len() == 0);
    None
}

/// A copy of an optional text.
fn copy_opt(o: &Option<String>) -> (r: Option<String>)
    ensures
        opt_view(r) == opt_view(*o),
{
    match o {
        Some(s) => Some(copy_text(s.as_str())),
        None => None,
    }
}

impl NameRecord {
    /// Sets the name part of type `type_id` to `name`; family and given
    /// names swap places when the part is written in the Arabic script.
    pub fn split_name(&mut self, arabic_script: Option<i32>, type_id: i32, name: Option<String>, script_id: i32)
        ensures
            final(self)@ == split(old(self)@, type_id, opt_view(name), arabic_script == Some(script_id)),
    {
        let arabic = match arabic_script {
            Some(id) => id == script_id,
            None => false,
        };
        if type_id == 1520 {
            if !arabic {
                self.last_name = name;
            } else {
                self.first_name = name;
            }
        } else if type_id == 1521 {
            if !arabic {
                self.first_name = name;
            } else {
                self.last_name = name;
            }
        } else if type_id == 1522 {
            self.middle_name = name;
        } else if type_id == 1523 {
            self.maiden_name = name;
        } else if type_id == 1524 {
            self.aircraft_name = name;
        } else if type_id == 1525 {
            self.entity_name = name;
        } else if type_id == 1526 {
            self.vessel_name = name;
        } else if type_id == 1528 {
            self.nickname = name;
        } else if type_id == 91708 {
            self.patronymic = name;
        } else if type_id == 91709 {
            self.matronymic = name;
        }
    }

    /// The name records of an identity: one per documented name of each of
    /// its aliases, in order, each part placed by the type of its group.
    pub fn from_ofac_document(
        aliases: &Vec<Alias>,
        groups: &Vec<MasterNamePartGroup>,
        scripts: &Vec<Script>,
    ) -> (r: Vec<NameRecord>)
        requires
            parts_grouped(aliases@, groups@),
        ensures
            name_views(r@) == names_of(aliases@, groups@, scripts@),
    {
        let arabic = find_arabic(scripts);
        let mut names: Vec<NameRecord> = Vec::new();
        let mut a: usize = 0;
        while a < aliases.len()
            invariant
                0 <= a <= aliases.len(),
                arabic == arabic_id(scripts@),
                parts_grouped(aliases@, groups@),
                name_views(names@) == names_of(aliases@.subrange(0, a as int), groups@, scripts@),
            decreases aliases.len() - a,
        {
            let alias = &aliases[a];
            assert(aliases@.subrange(0, a + 1).drop_last() =~= aliases@.subrange(0, a as int));
            assert(aliases@.subrange(0, a + 1).last() == aliases@[a as int]);
            let ghost base = name_views(names@);
            let mut d: usize = 0;
            while d < alias.documented_name.len()
                invariant
                    0 <= d <= alias.documented_name.len(),
                    alias == &aliases@[a as int],
                    0 <= a < aliases.len(),
                    arabic == arabic_id(scripts@),
                    parts_grouped(aliases@, groups@),
                    name_views(names@) == base + names_of_alias(alias, d as int, groups@, scripts@),
                decreases alias.documented_name.len() - d,
            {
                let dn = &alias.documented_name[d];
                assert forall|p: int| 0 <= p < dn.parts@.len() implies (#[trigger] part_type(
                    groups@,
                    dn.parts@[p].name_part.name_part_group_id,
                )) is Some by {
                    assert(aliases@[a as int].documented_name@[d as int].parts@[p] == dn.parts@[p]);
                }
                let n = read_name(alias, dn, groups, arabic, Ghost(scripts@));
                let ghost before = names@;
                names.push(n);
                assert(name_views(names@) =~= name_views(before).push(n@));
                d = d + 1;
            }
            a = a + 1;
        }
        assert(aliases@.subrange(0, aliases.len() as int) =~= aliases@);
        names
    }
}

/// The name record of one documented name of `alias`.
fn read_name(
    alias: &Alias,
    dn: &DocumentedName,
    groups: &Vec<MasterNamePartGroup>,
    arabic: Option<i32>,
    Ghost(scripts): Ghost<Seq<Script>>,
) -> (r: NameRecord)
    requires
        arabic == arabic_id(scripts),
        forall|p: int|
            0 <= p < dn.parts@.len() ==> (#[trigger] part_type(
                groups@,
                dn.parts@[p].name_part.name_part_group_id,
            )) is Some,
    ensures
        r@ == name_of(alias, dn, groups@, scripts),
{
    proof {
        reveal_strlit("ALIAS");
        reveal_strlit("NAME");
        reveal_strlit("LOW");
        reveal_strlit("NORMAL");
        assert("ALIAS"@ =~= seq!['A', 'L', 'I', 'A', 'S']);
        assert("LOW"@ =~= seq!['L', 'O', 'W']);
        assert("NORMAL"@ =~= seq!['N', 'O', 'R', 'M', 'A', 'L']);
    }
    let quality = if alias.quality {
        String::from_str("LOW")
    } else {
        String::from_str("NORMAL")
    };
    let mut m = NameRecord {
        id: dn.id,
        name_type: String::from_str("ALIAS"),
        script: 0,
        last_name: None,
        first_name: None,
        middle_name: None,
        maiden_name: None,
        aircraft_name: None,
        entity_name: None,
        vessel_name: None,
        nickname: None,
        patronymic: None,
        matronymic: None,
        quality: Some(quality),
        flag: ChangeFlag::Unchanged,
        is_primary_215: false,
    };
    assert(m@ =~= blank_name(dn.id, alias.quality));
    let ghost parts = dn.parts@;
    let mut p: usize = 0;
    while p < dn.parts.len()
        invariant
            0 <= p <= dn.parts.len(),
            parts == dn.parts@,
            arabic == arabic_id(scripts),
            forall|q: int|
                0 <= q < dn.parts@.len() ==> (#[trigger] part_type(
                    groups@,
                    dn.parts@[q].name_part.name_part_group_id,
                )) is Some,
            m@ == read_parts(
                blank_name(dn.id, alias.quality),
                parts.subrange(0, p as int),
                groups@,
                scripts,
                alias.primary,
                dn.doc_name_status,
            ),
        decreases dn.parts.len() - p,
    {
        assert(parts.subrange(0, p + 1).drop_last() =~= parts.subrange(0, p as int));
        assert(parts.subrange(0, p + 1).last() == parts[p as int]);
        proof {
            reveal_strlit("NAME");
            assert("NAME"@ =~= seq!['N', 'A', 'M', 'E']);
        }
        let part = &dn.parts[p].name_part;
        assert(part_type(groups@, parts[p as int].name_part.name_part_group_id) is Some);
        let t = find_part_type(groups, part.name_part_group_id).unwrap();
        m.split_name(arabic, t, copy_opt(&part.name), part.script_id);
        m.script = part.script_id;
        if alias.primary && part.script_id == 215 && dn.doc_name_status == 1 {
            m.is_primary_215 = true;
            m.name_type = String::from_str("NAME");
        }
        assert(m@ =~= read_parts(
            blank_name(dn.id, alias.quality),
            parts.subrange(0, p + 1),
            groups@,
            scripts,
            alias.primary,
            dn.doc_name_status,
        ));
        p = p + 1;
    }
    assert(parts.subrange(0, dn.parts.len() as int) =~= parts);
    m
}

} // verus!
