//! The fields of a line of the party export, each computed from the stored
//! facts of a party.
use vstd::prelude::*;
use crate::document::DocumentType;
use crate::export::{format_signed, list_code, signed_text, RecordType};
use crate::text::{char_text, copy_text, same_text, zero_pad, zero_padded};

verus! {

/// How one piece of additional information is written: its title, the
/// separator of its values, whether it is written at all, and whether the
/// separator stands between spaces.
#[derive(Debug, PartialEq, Eq)]
pub struct AddInfoTemplate {
    pub title: String,
    pub separator: char,
    pub condition: bool,
    pub space_between: bool,
}

/// One line of the party export, field by field.
#[derive(Debug, PartialEq, Eq)]
pub struct FofdbofRecord {
    pub t_add: Option<String>,
    pub t_bad: char,
    pub t_bic: Option<String>,
    pub t_cit: Option<String>,
    pub t_ctr: Option<String>,
    pub t_dob: String,
    pub t_dob_overflow: bool,
    pub t_dsg: String,
    pub t_gdr: String,
    pub t_inf: String,
    pub t_name: String,
    pub t_nid: Option<String>,
    pub t_ntl: String,
    pub t_oid: String,
    pub t_ori: String,
    pub t_pob: String,
    pub t_pob_overflow: bool,
    pub t_psp: Option<String>,
    pub t_ref: String,
    pub t_shk: String,
    pub t_sta: Option<String>,
    pub t_syc: String,
    pub t_syk: String,
    pub t_syn: String,
    pub t_sys: String,
    pub t_typ: char,
    pub t_us1: String,
    pub t_us2: Option<String>,
    pub record_type: RecordType,
    pub doc_type: DocumentType,
}

/// The longest date or place list, in characters, that a line holds.
pub const LIST_LIMIT: usize = 128;

/// The longest additional information, in characters, that a line holds.
pub const INFO_LIMIT: usize = 2048;

/// The length of every identifier of a line.
pub const OID_WIDTH: usize = 10;

/// The views of a list of texts.
pub open spec fn texts_of(v: Seq<String>) -> Seq<Seq<char>> {
    v.map_values(|s: String| s@)
}

/// Each item followed by `sep`.
pub open spec fn terminated(items: Seq<Seq<char>>, sep: char) -> Seq<char>
    decreases items.len(),
{
    if items.len() == 0 {
        Seq::empty()
    } else {
        terminated(items.drop_last(), sep) + items.last() + seq![sep]
    }
}

/// The items joined by `sep`.
pub open spec fn joined_by(items: Seq<Seq<char>>, sep: Seq<char>) -> Seq<char>
    decreases items.len(),
{
    if items.len() == 0 {
        Seq::empty()
    } else if items.len() == 1 {
        items[0]
    } else {
        joined_by(items.drop_last(), sep) + sep + items.last()
    }
}

/// `s` without its last character, if it has one.
pub open spec fn without_last(s: Seq<char>) -> Seq<char> {
    if s.len() > 0 {
        s.drop_last()
    } else {
        s
    }
}

/// Appends to `acc` each item followed by `/` while the text stays under
/// the list limit; an item that does not fit is left out and marks an
/// overflow.
pub open spec fn bounded_list(acc: Seq<char>, items: Seq<Seq<char>>, overflow: bool) -> (
    Seq<char>,
    bool,
)
    decreases items.len(),
{
    if items.len() == 0 {
        (acc, overflow)
    } else {
        let (a, o) = bounded_list(acc, items.drop_last(), overflow);
        if a.len() + items.last().len() < LIST_LIMIT {
            (a + items.last() + seq!['/'], o)
        } else {
            (a, true)
        }
    }
}

/// The one-letter gender code.
pub open spec fn gender_code(g: Seq<char>) -> Seq<char> {
    if g == "MALE"@ {
        seq!['M']
    } else if g == "FEMALE"@ {
        seq!['F']
    } else {
        seq!['U']
    }
}

/// An identifier: `prefix`, then `id` padded with zeros to the full width.
pub open spec fn oid_text(prefix: Seq<char>, id: i32) -> Seq<char> {
    prefix + zero_padded(signed_text(id), (OID_WIDTH - prefix.len()) as nat)
}

/// The identifier prefix of a line.
pub open spec fn oid_prefix(t: DocumentType, r: RecordType) -> Seq<char> {
    match r {
        RecordType::Main => list_code(t),
        RecordType::Alternative => list_code(t) + seq!['Z'],
    }
}

/// The bank codes: each code followed by a space, and, for a code longer
/// than six characters, its first six characters followed by a space.
pub open spec fn bic_text(bics: Seq<Seq<char>>) -> Seq<char>
    decreases bics.len(),
{
    if bics.len() == 0 {
        Seq::empty()
    } else {
        let b = bics.last();
        bic_text(bics.drop_last()) + b + seq![' '] + (if b.len() > 6 {
            b.subrange(0, 6) + seq![' ']
        } else {
            Seq::empty()
        })
    }
}

/// Whether some text of `a` is also a text of `b`.
pub open spec fn share_text(a: Seq<Seq<char>>, b: Seq<Seq<char>>) -> bool {
    exists|i: int, j: int| 0 <= i < a.len() && 0 <= j < b.len() && a[i] == b[j]
}

/// Whether `s` is one of `v`.
pub open spec fn has_text(v: Seq<Seq<char>>, s: Seq<char>) -> bool {
    exists|i: int| 0 <= i < v.len() && v[i] == s
}

/// The separator between the values of a piece of information.
pub open spec fn separator_text(t: &AddInfoTemplate) -> Seq<char> {
    if t.space_between {
        seq![' ', t.separator, ' ']
    } else {
        seq![t.separator]
    }
}

/// `s` cut to the information limit.
pub open spec fn capped(s: Seq<char>) -> Seq<char> {
    if s.len() > INFO_LIMIT {
        s.subrange(0, INFO_LIMIT as int)
    } else {
        s
    }
}

/// The additional information `t` once one more piece, titled and laid out
/// by `tpl`, with values `items`, is considered: a piece that is switched
/// off, empty, of one character at most, or that would not fit under the
/// limit is left out.
pub open spec fn info_after(t: Seq<char>, tpl: &AddInfoTemplate, items: Seq<Seq<char>>) -> Seq<char> {
    if !tpl.condition {
        t
    } else if items.len() > 0 && t.len() < INFO_LIMIT {
        let field = joined_by(items, separator_text(tpl));
        let piece = tpl.title@ + seq![' '] + field + seq![';', ' '];
        if field.len() <= 1 || t.len() + piece.len() >= INFO_LIMIT {
            t
        } else {
            t + piece
        }
    } else {
        capped(t)
    }
}

/// Whether `s` is one of the texts of `v`.
fn contains_text(v: &Vec<String>, s: &str) -> (r: bool)
    ensures
        r == has_text(texts_of(v@), s@),
{
    let mut i: usize = 0;
    while i < v.len()
        invariant
            0 <= i <= v.len(),
            forall|j: int| 0 <= j < i ==> v@[j]@ != s@,
        decreases v.len() - i,
    {
        if same_text(v[i].as_str(), s) {
            assert(texts_of(v@)[i as int] == s@);
            return true;
        }
        i = i + 1;
    }
    assert forall|j: int| 0 <= j < texts_of(v@).len() implies texts_of(v@)[j] != s@ by {
        assert(texts_of(v@)[j] == v@[j]@);
    }
    false
}

/// `s` without its last character, if it has one.
fn drop_last_char(s: String) -> (r: String)
    ensures
        r@ == without_last(s@),
{
    let n = s.as_str().unicode_len();
    if n > 0 {
        let t = s.as_str().substring_char(0, n - 1);
        let r = String::from_str(t);
        assert(r@ =~= s@.drop_last());
        r
    } else {
        s
    }
}

/// The list of dates or places that fit, and whether one was left out.
fn bounded_join(start: String, items: &Vec<String>, overflow: bool) -> (r: (String, bool))
    ensures
        (r.0@, r.1) == bounded_list(start@, texts_of(items@), overflow),
{
    let ghost t = texts_of(items@);
    let mut acc = start;
    let mut over = overflow;
    let mut i: usize = 0;
    while i < items.len()
        invariant
            0 <= i <= items.len(),
            t == texts_of(items@),
            (acc@, over) == bounded_list(start@, t.subrange(0, i as int), overflow),
        decreases items.len() - i,
    {
        assert(t.subrange(0, i + 1).drop_last() =~= t.subrange(0, i as int));
        assert(t.subrange(0, i + 1).last() == items@[i as int]@);
        let a = acc.as_str().unicode_len();
        let b = items[i].as_str().unicode_len();
        if b < LIST_LIMIT && a < LIST_LIMIT - b {
            acc.append(items[i].as_str());
            proof {
                reveal_strlit("/");
            }
            acc.append("/");
        } else {
            over = true;
        }
        i = i + 1;
    }
    assert(t.subrange(0, items.len() as int) =~= t);
    (acc, over)
}

/// An identifier: `prefix` then `id` padded with zeros to the full width.
fn oid(prefix: String, id: i32) -> (r: String)
    requires
        prefix@.len() + signed_text(id).len() <= OID_WIDTH,
    ensures
        r@ == oid_text(prefix@, id),
{
    let n = prefix.as_str().unicode_len();
    let digits = format_signed(id);
    let padded = zero_pad(digits.as_str(), OID_WIDTH - n);
    let mut r = prefix;
    r.append(padded.as_str());
    r
}

/// The values joined by the template's separator.
fn join_values(items: &Vec<String>, tpl: &AddInfoTemplate) -> (r: String)
    ensures
        r@ == joined_by(texts_of(items@), separator_text(tpl)),
{
    let ghost t = texts_of(items@);
    let ghost sep = separator_text(tpl);
    let mut r = String::new();
    let mut i: usize = 0;
    while i < items.len()
        invariant
            0 <= i <= items.len(),
            t == texts_of(items@),
            sep == separator_text(tpl),
            r@ == joined_by(t.subrange(0, i as int), sep),
        decreases items.len() - i,
    {
        assert(t.subrange(0, i + 1).drop_last() =~= t.subrange(0, i as int));
        assert(t.subrange(0, i + 1).last() == items@[i as int]@);
        if i > 0 {
            push_separator(&mut r, tpl);
        }
        r.append(items[i].as_str());
        proof {
            if i == 0 {
                assert(r@ =~= t.subrange(0, 1)[0]);
            }
        }
        i = i + 1;
    }
    assert(t.subrange(0, items.len() as int) =~= t);
    r
}

/// Appends the template's separator.
fn push_separator(r: &mut String, tpl: &AddInfoTemplate)
    ensures
        final(r)@ == old(r)@ + separator_text(tpl),
{
    let one = char_text(tpl.separator);
    if tpl.space_between {
        proof {
            reveal_strlit(" ");
        }
        r.append(" ");
        r.append(one.as_str());
        r.append(" ");
    } else {
        r.append(one.as_str());
    }
    assert(final(r)@ =~= old(r)@ + separator_text(tpl));
}

impl FofdbofRecord {
    /// `M` for `MALE`, `F` for `FEMALE`, `U` otherwise.
    pub fn compute_gdr(&mut self, gender: &str)
        ensures
            final(self).t_gdr@ == gender_code(gender@),
            *final(self) == (FofdbofRecord { t_gdr: final(self).t_gdr, ..*old(self) }),
    {
        proof {
            reveal_strlit("M");
            reveal_strlit("F");
            reveal_strlit("U");
        }
        let code = if same_text(gender, "MALE") {
            String::from_str("M")
        } else if same_text(gender, "FEMALE") {
            String::from_str("F")
        } else {
            String::from_str("U")
        };
        assert(code@ =~= gender_code(gender@));
        self.t_gdr = code;
    }

    /// Appends the nationalities, separated by `;`.
    pub fn compute_ntl(&mut self, nationalities: &Vec<String>)
        ensures
            final(self).t_ntl@ == without_last(old(self).t_ntl@ + terminated(texts_of(nationalities@), ';')),
            *final(self) == (FofdbofRecord { t_ntl: final(self).t_ntl, ..*old(self) }),
    {
        let ghost t = texts_of(nationalities@);
        let ghost start = self.t_ntl@;
        let mut acc = copy_text(self.t_ntl.as_str());
        let mut i: usize = 0;
        while i < nationalities.len()
            invariant
                0 <= i <= nationalities.len(),
                t == texts_of(nationalities@),
                acc@ == start + terminated(t.subrange(0, i as int), ';'),
            decreases nationalities.len() - i,
        {
            assert(t.subrange(0, i + 1).drop_last() =~= t.subrange(0, i as int));
            assert(t.subrange(0, i + 1).last() == nationalities@[i as int]@);
            acc.append(nationalities[i].as_str());
            proof {
                reveal_strlit(";");
            }
            acc.append(";");
            assert(acc@ =~= start + terminated(t.subrange(0, i + 1), ';'));
            i = i + 1;
        }
        assert(t.subrange(0, nationalities.len() as int) =~= t);
        self.t_ntl = drop_last_char(acc);
    }

    /// Appends the dates of birth separated by `/`, as long as the list stays
    /// under the limit; a date left out marks an overflow.
    pub fn compute_dob(&mut self, dobs: &Vec<String>)
        ensures
            final(self).t_dob@ == without_last(bounded_list(old(self).t_dob@, texts_of(dobs@), old(self).t_dob_overflow).0),
            final(self).t_dob_overflow == bounded_list(old(self).t_dob@, texts_of(dobs@), old(self).t_dob_overflow).1,
            *final(self) == (FofdbofRecord { t_dob: final(self).t_dob, t_dob_overflow: final(self).t_dob_overflow, ..*old(self) }),
    {
        let (text, over) = bounded_join(copy_text(self.t_dob.as_str()), dobs, self.t_dob_overflow);
        self.t_dob = drop_last_char(text);
        self.t_dob_overflow = over;
    }

    /// Appends the places of birth separated by `/`, as long as the list
    /// stays under the limit; a place left out marks an overflow.
    pub fn compute_pob(&mut self, pobs: &Vec<String>)
        ensures
            final(self).t_pob@ == without_last(bounded_list(old(self).t_pob@, texts_of(pobs@), old(self).t_pob_overflow).0),
            final(self).t_pob_overflow == bounded_list(old(self).t_pob@, texts_of(pobs@), old(self).t_pob_overflow).1,
            *final(self) == (FofdbofRecord { t_pob: final(self).t_pob, t_pob_overflow: final(self).t_pob_overflow, ..*old(self) }),
    {
        let (text, over) = bounded_join(copy_text(self.t_pob.as_str()), pobs, self.t_pob_overflow);
        self.t_pob = drop_last_char(text);
        self.t_pob_overflow = over;
    }

    /// The identifier of the line: the list code (with `Z` for an extra
    /// address), then the party's reference, or the address id for an extra
    /// address, padded with zeros to ten characters.
    pub fn compute_oid(&mut self, fixed_ref: i32, address_id: i32)
        requires
            old(self).record_type == RecordType::Main ==> signed_text(fixed_ref).len() <= 6,
            old(self).record_type == RecordType::Alternative ==> signed_text(address_id).len() <= 5,
        ensures
            final(self).t_oid@ == oid_text(
                oid_prefix(old(self).doc_type, old(self).record_type),
                if old(self).record_type == RecordType::Main {
                    fixed_ref
                } else {
                    address_id
                },
            ),
            *final(self) == (FofdbofRecord { t_oid: final(self).t_oid, ..*old(self) }),
    {
        proof {
            reveal_strlit("OFAC");
            reveal_strlit("OFNS");
            reveal_strlit("Z");
        }
        let mut prefix = match self.doc_type {
            DocumentType::OFAC => String::from_str("OFAC"),
            DocumentType::OFACNS => String::from_str("OFNS"),
        };
        assert(prefix@ =~= list_code(self.doc_type));
        let id = match self.record_type {
            RecordType::Main => fixed_ref,
            RecordType::Alternative => {
                prefix.append("Z");
                address_id
            },
        };
        assert(prefix@ =~= oid_prefix(self.doc_type, self.record_type));
        self.t_oid = oid(prefix, id);
    }

    /// The identifier of the main line of a party: `OFAC`, then its reference
    /// padded with zeros to ten characters.
    pub fn compute_oid_alternative(fixed_ref: i32) -> (r: String)
        requires
            signed_text(fixed_ref).len() <= 6,
        ensures
            r@ == oid_text(seq!['O', 'F', 'A', 'C'], fixed_ref),
    {
        proof {
            reveal_strlit("OFAC");
        }
        let prefix = String::from_str("OFAC");
        assert(prefix@ =~= seq!['O', 'F', 'A', 'C']);
        oid(prefix, fixed_ref)
    }

    /// When the party has aliases, the line refers to the identifier it
    /// belongs to: its own for a main line, the party's main one otherwise.
    pub fn compute_syn(&mut self, is_alias: bool, fixed_ref: i32)
        requires
            is_alias && old(self).record_type == RecordType::Alternative ==> signed_text(fixed_ref).len() <= 6,
        ensures
            final(self).t_syn@ == (if !is_alias {
                old(self).t_syn@
            } else if old(self).record_type == RecordType::Main {
                old(self).t_oid@
            } else {
                oid_text(seq!['O', 'F', 'A', 'C'], fixed_ref)
            }),
            *final(self) == (FofdbofRecord { t_syn: final(self).t_syn, ..*old(self) }),
    {
        if is_alias {
            match self.record_type {
                RecordType::Main => {
                    self.t_syn = copy_text(self.t_oid.as_str());
                },
                RecordType::Alternative => {
                    self.t_syn = Self::compute_oid_alternative(fixed_ref);
                },
            }
        }
    }

    /// The reference of the line: the list name and the last update.
    pub fn compute_ref(&mut self, last_update: &str)
        ensures
            final(self).t_ref@ == (match old(self).doc_type {
                DocumentType::OFAC => "OFAC_"@,
                DocumentType::OFACNS => "OFAC-NS_"@,
            }) + last_update@,
            *final(self) == (FofdbofRecord { t_ref: final(self).t_ref, ..*old(self) }),
    {
        let mut r = match self.doc_type {
            DocumentType::OFAC => String::from_str("OFAC_"),
            DocumentType::OFACNS => String::from_str("OFAC-NS_"),
        };
        r.append(last_update);
        self.t_ref = r;
    }

    /// The type of the line: `V` for a vessel or aircraft, `P` for an
    /// individual; for an entity, `A` when one of its programs is `FTO` or
    /// its name is among `other_names`, `C` otherwise; any other sub-type
    /// leaves the type as it is.
    pub fn compute_typ(&mut self, partysubtypeid: i32, programs: &Vec<String>, other_names: &Vec<String>)
        ensures
            final(self).t_typ == (if partysubtypeid == 1 || partysubtypeid == 2 {
                'V'
            } else if partysubtypeid == 3 {
                if has_text(texts_of(programs@), "FTO"@) || has_text(texts_of(other_names@), old(self).t_name@) {
                    'A'
                } else {
                    'C'
                }
            } else if partysubtypeid == 4 {
                'P'
            } else {
                old(self).t_typ
            }),
            *final(self) == (FofdbofRecord { t_typ: final(self).t_typ, ..*old(self) }),
    {
        if partysubtypeid == 1 || partysubtypeid == 2 {
            self.t_typ = 'V';
        } else if partysubtypeid == 3 {
            if contains_text(programs, "FTO") || contains_text(other_names, self.t_name.as_str()) {
                self.t_typ = 'A';
            } else {
                self.t_typ = 'C';
            }
        } else if partysubtypeid == 4 {
            self.t_typ = 'P';
        }
    }

    /// `Yes` when one of the party's programs is among the watched ones,
    /// `No` otherwise.
    pub fn compute_us1(&mut self, ddc_programs: &Vec<String>, record_pgms: &Vec<String>)
        ensures
            final(self).t_us1@ == (if share_text(texts_of(ddc_programs@), texts_of(record_pgms@)) {
                "Yes"@
            } else {
                "No"@
            }),
            *final(self) == (FofdbofRecord { t_us1: final(self).t_us1, ..*old(self) }),
    {
        let ghost a = texts_of(ddc_programs@);
        let ghost b = texts_of(record_pgms@);
        let mut found = false;
        let mut i: usize = 0;
        while i < ddc_programs.len()
            invariant
                0 <= i <= ddc_programs.len(),
                a == texts_of(ddc_programs@),
                b == texts_of(record_pgms@),
                found == exists|x: int, y: int| 0 <= x < i && 0 <= y < b.len() && a[x] == b[y],
            decreases ddc_programs.len() - i,
        {
            let hit = contains_text(record_pgms, ddc_programs[i].as_str());
            proof {
                assert(a[i as int] == ddc_programs@[i as int]@);
                if hit {
                    let y = choose|y: int| 0 <= y < b.len() && b[y] == a[i as int];
                    assert(0 <= i < i + 1 && a[i as int] == b[y]);
                }
                if found || hit {
                } else {
                    assert forall|x: int, y: int| 0 <= x < i + 1 && 0 <= y < b.len() implies a[x] != b[y] by {
                        if x == i {
                            assert(!has_text(b, a[i as int]));
                        }
                    }
                }
            }
            found = found || hit;
            i = i + 1;
        }
        self.t_us1 = if found {
            String::from_str("Yes")
        } else {
            String::from_str("No")
        };
    }

    /// The bank codes of a party that is neither an individual, nor a vessel
    /// or aircraft, nor an entity marked `A`: each of its codes (and the first
    /// six characters of a longer one), then the other known codes, each
    /// followed by a space.
    pub fn compute_bic(&mut self, bics: &Vec<String>, ddc_bics: &Vec<String>)
        ensures
            old(self).t_typ == 'A' || old(self).t_typ == 'P' || old(self).t_typ == 'V' ==> final(self).t_bic == old(self).t_bic,
            !(old(self).t_typ == 'A' || old(self).t_typ == 'P' || old(self).t_typ == 'V') ==> final(self).t_bic is Some
                && final(self).t_bic->0@ == bic_text(texts_of(bics@)) + terminated(texts_of(ddc_bics@), ' '),
            *final(self) == (FofdbofRecord { t_bic: final(self).t_bic, ..*old(self) }),
    {
        if self.t_typ == 'A' || self.t_typ == 'P' || self.t_typ == 'V' {
            return;
        }
        proof {
            reveal_strlit(" ");
            assert(" "@ =~= seq![' ']);
        }
        let ghost t = texts_of(bics@);
        let mut acc = String::new();
        let mut i: usize = 0;
        while i < bics.len()
            invariant
                0 <= i <= bics.len(),
                t == texts_of(bics@),
                acc@ == bic_text(t.subrange(0, i as int)),
            decreases bics.len() - i,
        {
            assert(t.subrange(0, i + 1).drop_last() =~= t.subrange(0, i as int));
            assert(t.subrange(0, i + 1).last() == bics@[i as int]@);
            proof {
                reveal_strlit(" ");
            }
            let b = bics[i].as_str();
            acc.append(b);
            acc.append(" ");
            if b.unicode_len() > 6 {
                acc.append(b.substring_char(0, 6));
                acc.append(" ");
            }
            assert(acc@ =~= bic_text(t.subrange(0, i + 1)));
            i = i + 1;
        }
        assert(t.subrange(0, bics.len() as int) =~= t);
        let ghost start = acc@;
        let ghost u = texts_of(ddc_bics@);
        let mut j: usize = 0;
        while j < ddc_bics.len()
            invariant
                0 <= j <= ddc_bics.len(),
                u == texts_of(ddc_bics@),
                acc@ == start + terminated(u.subrange(0, j as int), ' '),
            decreases ddc_bics.len() - j,
        {
            assert(u.subrange(0, j + 1).drop_last() =~= u.subrange(0, j as int));
            assert(u.subrange(0, j + 1).last() == ddc_bics@[j as int]@);
            proof {
                reveal_strlit(" ");
            }
            acc.append(ddc_bics[j].as_str());
            acc.append(" ");
            assert(acc@ =~= start + terminated(u.subrange(0, j + 1), ' '));
            j = j + 1;
        }
        assert(u.subrange(0, ddc_bics.len() as int) =~= u);
        self.t_bic = Some(acc);
    }

    /// Adds one piece of additional information: its title, its values
    /// joined by the template's separator, then `; `, unless the piece is
    /// switched off, empty, too short or too long to fit under the limit.
    pub fn extract_inf(&mut self, inf: &(u32, AddInfoTemplate, Vec<String>))
        ensures
            final(self).t_inf@ == info_after(old(self).t_inf@, &inf.1, texts_of(inf.2@)),
            *final(self) == (FofdbofRecord { t_inf: final(self).t_inf, ..*old(self) }),
    {
        let tpl = &inf.1;
        let items = &inf.2;
        if !tpl.condition {
            return;
        }
        let n = self.t_inf.as_str().unicode_len();
        if items.len() > 0 && n < INFO_LIMIT {
            let field = join_values(items, tpl);
            let f = field.as_str().unicode_len();
            if f <= 1 {
                return;
            }
            let mut piece = copy_text(tpl.title.as_str());
            proof {
                reveal_strlit(" ");
                reveal_strlit("; ");
            }
            piece.append(" ");
            piece.append(field.as_str());
            piece.append("; ");
            let p = piece.as_str().unicode_len();
            if p >= INFO_LIMIT - n {
                return;
            }
            self.t_inf.append(piece.as_str());
            assert(self.t_inf@ =~= info_after(old(self).t_inf@, &inf.1, texts_of(inf.2@)));
        } else if n > INFO_LIMIT {
            let cut = String::from_str(self.t_inf.as_str().substring_char(0, INFO_LIMIT));
            self.t_inf = cut;
        }
    }
}

impl Default for FofdbofRecord {
    fn default() -> (r: FofdbofRecord)
        ensures
            r.record_type == RecordType::Main,
            r.doc_type == DocumentType::OFAC,
            r.t_add is None && r.t_bic is None && r.t_cit is None && r.t_ctr is None,
            r.t_nid is None && r.t_psp is None && r.t_sta is None && r.t_us2 is None,
            r.t_dob@.len() == 0 && r.t_pob@.len() == 0 && r.t_inf@.len() == 0,
            r.t_ntl@.len() == 0 && r.t_oid@.len() == 0 && r.t_syn@.len() == 0,
            r.t_name@.len() == 0 && r.t_gdr@.len() == 0 && r.t_us1@.len() == 0,
            !r.t_dob_overflow && !r.t_pob_overflow,
            r.t_bad == '\0' && r.t_typ == '\0',
    {
        FofdbofRecord {
            t_add: None,
            t_bad: '\0',
            t_bic: None,
            t_cit: None,
            t_ctr: None,
            t_dob: String::new(),
            t_dob_overflow: false,
            t_dsg: String::new(),
            t_gdr: String::new(),
            t_inf: String::new(),
            t_name: String::new(),
            t_nid: None,
            t_ntl: String::new(),
            t_oid: String::new(),
            t_ori: String::new(),
            t_pob: String::new(),
            t_pob_overflow: false,
            t_psp: None,
            t_ref: String::new(),
            t_shk: String::new(),
            t_sta: None,
            t_syc: String::new(),
            t_syk: String::new(),
            t_syn: String::new(),
            t_sys: String::new(),
            t_typ: '\0',
            t_us1: String::new(),
            t_us2: None,
            record_type: RecordType::Main,
            doc_type: DocumentType::OFAC,
        }
    }
}

} // verus!
