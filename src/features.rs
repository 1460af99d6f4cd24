//! Records built from the features of a party.
use vstd::prelude::*;
use crate::aggregate::{ActiveState, AggregateRow, AggregateView, CategoryRecords, LinkKind};
use crate::document::{DistinctParty, Feature, FeatureVersion, SanctionsMeasure};
use crate::reconcile::{views, ChangeFlag, ChildRecord, ChildView};
use crate::text::{to_upper, upper_of};

verus! {

/// A date of birth of a party, as its display text.
#[derive(Debug, PartialEq, Eq)]
pub struct Dob {
    pub id: i32,
    pub dob: String,
    pub flag: ChangeFlag,
}

impl Dob {
    /// The date of birth that a feature version gives: its date period
    /// rendered as display text, under the version's id, not yet written.
    pub fn from_ofac_document(entity: &FeatureVersion) -> (r: Dob)
        requires
            entity.date_period is Some,
            entity.date_period->0.renderable(),
        ensures
            r.id == entity.id,
            r.dob@ == entity.date_period->0.display_text(),
            r.flag == ChangeFlag::Unchanged,
    {
        let period = entity.date_period.as_ref().unwrap();
        Dob { id: entity.id, dob: period.classify(), flag: ChangeFlag::Unchanged }
    }

    /// The satellite record of this date of birth.
    pub fn to_record(&self) -> (r: ChildRecord)
        ensures
            r@ == (ChildView { key: self.id, values: seq![self.dob@], flag: self.flag }),
    {
        let mut values: Vec<String> = Vec::new();
        values.push(self.dob.clone());
        let r = ChildRecord { key: self.id, values, flag: self.flag };
        assert(r@.values =~= seq![self.dob@]);
        r
    }
}

/// The text value that a feature version carries, in upper case; empty when
/// the version has no detail or its detail no text.
pub open spec fn feature_text(entity: &FeatureVersion) -> Seq<char> {
    match entity.detail {
        Some(d) => match d.value {
            Some(v) => upper_of(v@),
            None => Seq::empty(),
        },
        None => Seq::empty(),
    }
}

/// The text value of a feature version (an e-mail address, a web site, a
/// phone number...), in upper case; empty when it carries none.
pub fn feature_text_value(entity: &FeatureVersion) -> (r: String)
    ensures
        r@ == feature_text(entity),
{
    match &entity.detail {
        Some(d) => match &d.value {
            Some(v) => to_upper(v.as_str()),
            None => String::new(),
        },
        None => String::new(),
    }
}

/// The reference value id that a feature version points to, if any.
pub fn feature_reference_id(entity: &FeatureVersion) -> (r: Option<i32>)
    ensures
        r == (match entity.detail {
            Some(d) => d.detail_reference_id,
            None => None,
        }),
{
    match &entity.detail {
        Some(d) => d.detail_reference_id,
        None => None,
    }
}

/// The satellite record of a feature that carries a text value: the
/// version's id, and the text in upper case (empty when there is none).
pub fn feature_value_record(entity: &FeatureVersion) -> (r: ChildRecord)
    ensures
        r@ == (ChildView {
            key: entity.id,
            values: seq![feature_text(entity)],
            flag: ChangeFlag::Unchanged,
        }),
{
    let mut values: Vec<String> = Vec::new();
    values.push(feature_text_value(entity));
    let r = ChildRecord { key: entity.id, values, flag: ChangeFlag::Unchanged };
    assert(r@.values =~= seq![feature_text(entity)]);
    r
}

/// The satellite record of the program of a sanction measure: the measure's
/// id and the program in upper case.
pub fn program_record(measure: &SanctionsMeasure) -> (r: ChildRecord)
    requires
        measure.program is Some,
    ensures
        r@ == (ChildView {
            key: measure.id,
            values: seq![upper_of(measure.program->0@)],
            flag: ChangeFlag::Unchanged,
        }),
{
    let mut values: Vec<String> = Vec::new();
    values.push(to_upper(measure.program.as_ref().unwrap().as_str()));
    let r = ChildRecord { key: measure.id, values, flag: ChangeFlag::Unchanged };
    assert(r@.values =~= seq![upper_of(measure.program->0@)]);
    r
}

/// The feature type of a date of birth.
pub const DOB_FEATURE: i32 = 8;

/// The feature type of a place of birth.
pub const POB_FEATURE: i32 = 9;

/// The feature type of a bank identifier code.
pub const BIC_FEATURE: i32 = 13;

/// The feature type of a web site.
pub const WEBSITE_FEATURE: i32 = 14;

/// The feature type of an e-mail address.
pub const EMAIL_FEATURE: i32 = 21;

/// The feature type of an aircraft operator.
pub const OPERATOR_FEATURE: i32 = 48;

/// The feature type of a nationality.
pub const NATIONALITY_FEATURE: i32 = 10;

/// The feature type of an address.
pub const ADDRESS_FEATURE: i32 = 25;

/// The categories linked by the internal key of their aggregate: addresses,
/// dates and places of birth, nationalities and web sites; every other
/// category is linked by the public key.
pub open spec fn link_kind_spec(feature_type: i32) -> LinkKind {
    if feature_type == ADDRESS_FEATURE || feature_type == DOB_FEATURE || feature_type
        == POB_FEATURE || feature_type == NATIONALITY_FEATURE || feature_type == WEBSITE_FEATURE {
        LinkKind::Surrogate
    } else {
        LinkKind::External
    }
}

/// The key by which the category of features of type `feature_type` is
/// linked to its aggregate.
pub fn link_kind_of_feature(feature_type: i32) -> (r: LinkKind)
    ensures
        r == link_kind_spec(feature_type),
{
    if feature_type == ADDRESS_FEATURE || feature_type == DOB_FEATURE || feature_type
        == POB_FEATURE || feature_type == NATIONALITY_FEATURE || feature_type == WEBSITE_FEATURE {
        LinkKind::Surrogate
    } else {
        LinkKind::External
    }
}

/// The record of a feature that carries a text value.
pub open spec fn value_view(v: &FeatureVersion) -> ChildView {
    ChildView { key: v.id, values: seq![feature_text(v)], flag: ChangeFlag::Unchanged }
}

/// The records of the features of type `t` that carry a detail, in order.
pub open spec fn value_records(fs: Seq<Feature>, t: i32) -> Seq<ChildView>
    decreases fs.len(),
{
    if fs.len() == 0 {
        Seq::empty()
    } else if fs.last().feature_type == t && fs.last().version.detail is Some {
        value_records(fs.drop_last(), t).push(value_view(&fs.last().version))
    } else {
        value_records(fs.drop_last(), t)
    }
}

/// Every date of birth among `fs` can be rendered.
pub open spec fn dobs_renderable(fs: Seq<Feature>) -> bool {
    forall|i: int|
        0 <= i < fs.len() && (#[trigger] fs[i]).feature_type == DOB_FEATURE
            && fs[i].version.date_period is Some ==> fs[i].version.date_period->0.renderable()
}

/// The record of a date of birth.
pub open spec fn dob_view(v: &FeatureVersion) -> ChildView {
    ChildView {
        key: v.id,
        values: seq![v.date_period->0.display_text()],
        flag: ChangeFlag::Unchanged,
    }
}

/// The records of the dates of birth among `fs`, in order.
pub open spec fn dob_records(fs: Seq<Feature>) -> Seq<ChildView>
    decreases fs.len(),
{
    if fs.len() == 0 {
        Seq::empty()
    } else if fs.last().feature_type == DOB_FEATURE && fs.last().version.date_period is Some {
        dob_records(fs.drop_last()).push(dob_view(&fs.last().version))
    } else {
        dob_records(fs.drop_last())
    }
}

/// The satellite records of one text-valued category of a party: one per
/// feature of that type that carries a detail, in order.
pub fn records_of_type(features: &Vec<Feature>, feature_type: i32) -> (r: Vec<ChildRecord>)
    ensures
        views(r@) == value_records(features@, feature_type),
{
    let mut r: Vec<ChildRecord> = Vec::new();
    let mut i: usize = 0;
    while i < features.len()
        invariant
            0 <= i <= features.len(),
            views(r@) == value_records(features@.subrange(0, i as int), feature_type),
        decreases features.len() - i,
    {
        assert(features@.subrange(0, i + 1).drop_last() =~= features@.subrange(0, i as int));
        let f = &features[i];
        if f.feature_type == feature_type && f.version.detail.is_some() {
            let rec = feature_value_record(&f.version);
            let ghost before = r@;
            r.push(rec);
            assert(views(r@) =~= views(before).push(rec@));
        }
        i = i + 1;
    }
    assert(features@.subrange(0, features.len() as int) =~= features@);
    r
}

/// The date of birth records of a party: one per date-of-birth feature
/// that carries a period, in order.
pub fn dob_records_of(features: &Vec<Feature>) -> (r: Vec<ChildRecord>)
    requires
        dobs_renderable(features@),
    ensures
        views(r@) == dob_records(features@),
{
    let mut r: Vec<ChildRecord> = Vec::new();
    let mut i: usize = 0;
    while i < features.len()
        invariant
            0 <= i <= features.len(),
            dobs_renderable(features@),
            views(r@) == dob_records(features@.subrange(0, i as int)),
        decreases features.len() - i,
    {
        assert(features@.subrange(0, i + 1).drop_last() =~= features@.subrange(0, i as int));
        let f = &features[i];
        if f.feature_type == DOB_FEATURE && f.version.date_period.is_some() {
            assert(features@[i as int].feature_type == DOB_FEATURE);
            let rec = Dob::from_ofac_document(&f.version).to_record();
            let ghost before = r@;
            r.push(rec);
            assert(views(r@) =~= views(before).push(rec@));
        }
        i = i + 1;
    }
    assert(features@.subrange(0, features.len() as int) =~= features@);
    r
}

/// The upper-case text of the last feature of type `t` that carries a
/// detail: `None` when there is no such feature, or when its detail has no
/// text.
pub open spec fn last_text(fs: Seq<Feature>, t: i32) -> Option<Seq<char>>
    decreases fs.len(),
{
    if fs.len() == 0 {
        None
    } else if fs.last().feature_type == t && fs.last().version.detail is Some {
        match fs.last().version.detail->0.value {
            Some(v) => Some(upper_of(v@)),
            None => None,
        }
    } else {
        last_text(fs.drop_last(), t)
    }
}

/// A text field of a party's own row (a title, a vessel flag, a tail
/// number...): the upper-case text of the last feature of its type that
/// carries a detail.
pub fn root_text_field(features: &Vec<Feature>, feature_type: i32) -> (r: Option<String>)
    ensures
        match r {
            Some(s) => last_text(features@, feature_type) == Some(s@),
            None => last_text(features@, feature_type) is None,
        },
{
    let mut r: Option<String> = None;
    let mut i: usize = 0;
    while i < features.len()
        invariant
            0 <= i <= features.len(),
            match r {
                Some(s) => last_text(features@.subrange(0, i as int), feature_type) == Some(s@),
                None => last_text(features@.subrange(0, i as int), feature_type) is None,
            },
        decreases features.len() - i,
    {
        assert(features@.subrange(0, i + 1).drop_last() =~= features@.subrange(0, i as int));
        let f = &features[i];
        if f.feature_type == feature_type {
            match &f.version.detail {
                Some(d) => {
                    r = match &d.value {
                        Some(v) => Some(to_upper(v.as_str())),
                        None => None,
                    };
                },
                None => {},
            }
        }
        i = i + 1;
    }
    assert(features@.subrange(0, features.len() as int) =~= features@);
    r
}

/// The features of a party.
pub open spec fn features_of(party: &DistinctParty) -> Seq<Feature> {
    match party.profile.feature {
        Some(v) => v@,
        None => Seq::empty(),
    }
}

/// The name of a party sub-type; unknown sub-types are vessels.
pub open spec fn subtype_name(t: i32) -> Seq<char> {
    if t == 2 {
        "AIRCRAFT"@
    } else if t == 3 {
        "ENTITY"@
    } else if t == 4 {
        "INDIVIDUAL"@
    } else {
        "VESSEL"@
    }
}

/// The comment of a party in upper case, empty when there is none.
pub open spec fn comment_text(c: Option<String>) -> Seq<char> {
    match c {
        Some(s) => if s@.len() > 0 {
            upper_of(s@)
        } else {
            Seq::empty()
        },
        None => Seq::empty(),
    }
}

/// An optional text, empty when missing.
pub open spec fn text_or_empty(o: Option<Seq<char>>) -> Seq<char> {
    match o {
        Some(s) => s,
        None => Seq::empty(),
    }
}

/// The business fields of a party's own row: its sub-type name, its
/// comment, then for each root feature type the text of the last feature of
/// that type (empty when there is none).
pub open spec fn root_fields(party: &DistinctParty, types: Seq<i32>) -> Seq<Seq<char>> {
    seq![subtype_name(party.profile.party_sub_id), comment_text(party.comment)]
        + types.map_values(|t: i32| text_or_empty(last_text(features_of(party), t)))
}

/// The current records of the category of features of type `t`.
pub open spec fn category_records(party: &DistinctParty, t: i32) -> Seq<ChildView> {
    if t == DOB_FEATURE {
        dob_records(features_of(party))
    } else {
        value_records(features_of(party), t)
    }
}

impl AggregateRow {
    /// The current root row of a party: its reference as public key, its
    /// identity as internal key, active and not yet written, with the fields
    /// that `root_fields` lists for the root feature types `root_types`.
    pub fn from_party(party: &DistinctParty, root_types: &Vec<i32>) -> (r: AggregateRow)
        ensures
            r@ == (AggregateView {
                external_key: party.fixed_ref,
                surrogate_key: party.profile.identity.id,
                flag: ChangeFlag::Unchanged,
                active: ActiveState::Active,
                fields: root_fields(party, root_types@),
            }),
    {
        proof {
            reveal_strlit("AIRCRAFT");
            reveal_strlit("ENTITY");
            reveal_strlit("INDIVIDUAL");
            reveal_strlit("VESSEL");
        }
        let t = party.profile.party_sub_id;
        let kind = if t == 2 {
            String::from_str("AIRCRAFT")
        } else if t == 3 {
            String::from_str("ENTITY")
        } else if t == 4 {
            String::from_str("INDIVIDUAL")
        } else {
            String::from_str("VESSEL")
        };
        let comment = match &party.comment {
            Some(c) => if c.as_str().unicode_len() > 0 {
                to_upper(c.as_str())
            } else {
                String::new()
            },
            None => String::new(),
        };
        let empty: Vec<Feature> = Vec::new();
        let fs = match &party.profile.feature {
            Some(v) => v,
            None => &empty,
        };
        assert(fs@ == features_of(party));
        let mut fields: Vec<String> = Vec::new();
        fields.push(kind);
        fields.push(comment);
        let ghost head = seq![subtype_name(t), comment_text(party.comment)];
        assert(fields.deep_view() =~= head);
        let mut i: usize = 0;
        while i < root_types.len()
            invariant
                0 <= i <= root_types.len(),
                fs@ == features_of(party),
                fields.deep_view() == head + root_types@.subrange(0, i as int).map_values(
                    |t: i32| text_or_empty(last_text(features_of(party), t)),
                ),
            decreases root_types.len() - i,
        {
            let text = match root_text_field(fs, root_types[i]) {
                Some(s) => s,
                None => String::new(),
            };
            let ghost before = fields.deep_view();
            fields.push(text);
            assert(fields.deep_view() =~= before.push(text@));
            assert(root_types@.subrange(0, i + 1).map_values(
                |t: i32| text_or_empty(last_text(features_of(party), t)),
            ) =~= root_types@.subrange(0, i as int).map_values(
                |t: i32| text_or_empty(last_text(features_of(party), t)),
            ).push(text_or_empty(last_text(features_of(party), root_types@[i as int]))));
            i = i + 1;
        }
        assert(root_types@.subrange(0, root_types.len() as int) =~= root_types@);
        AggregateRow {
            external_key: party.fixed_ref,
            surrogate_key: party.profile.identity.id,
            flag: ChangeFlag::Unchanged,
            active: ActiveState::Active,
            fields,
        }
    }
}

impl CategoryRecords {
    /// The category of features of type `feature_type` of a party, with the
    /// records stored for it: the party's current records of that type
    /// (dates of birth rendered from their periods), and the key kind the
    /// category is linked by.
    pub fn from_party(party: &DistinctParty, feature_type: i32, persisted: Vec<ChildRecord>) -> (r:
        CategoryRecords)
        requires
            feature_type == DOB_FEATURE ==> dobs_renderable(features_of(party)),
        ensures
            views(r.current@) == category_records(party, feature_type),
            r.persisted@ == persisted@,
            r.link == link_kind_spec(feature_type),
    {
        let empty: Vec<Feature> = Vec::new();
        let fs = match &party.profile.feature {
            Some(v) => v,
            None => &empty,
        };
        assert(fs@ == features_of(party));
        let current = if feature_type == DOB_FEATURE {
            dob_records_of(fs)
        } else {
            records_of_type(fs, feature_type)
        };
        CategoryRecords { current, persisted, link: link_kind_of_feature(feature_type) }
    }
}

} // verus!
