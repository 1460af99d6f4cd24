//! The stored addresses and identification documents of a party, and the
//! text the party export writes for them.
use vstd::prelude::*;
use crate::calendar::{is_calendar_date, CalendarDate};
use crate::fofdbof::FofdbofRecord;
use crate::text::{copy_text, decimal_text, to_upper, upper_of, zero_padded};

verus! {

/// A stored address of a party.
#[derive(Debug, Default, PartialEq, Eq)]
pub struct SdnRecordAddress {
    pub id: i32,
    pub country: Option<String>,
    pub address: Option<String>,
    pub postal_code: Option<String>,
    pub city: Option<String>,
    pub state: Option<String>,
    pub region: Option<String>,
    pub is_primary: bool,
}

/// A stored identification document of a party.
#[derive(Debug, Default, PartialEq, Eq)]
pub struct SdnRecordDocument {
    pub id: i32,
    pub doc_type: i32,
    pub doc_type_value: String,
    pub expiration_date: Option<CalendarDate>,
    pub issued_date: Option<CalendarDate>,
    pub issued_by: Option<String>,
    pub registration_number: String,
}

/// The English three-letter name of month `n`.
pub open spec fn english_month(n: int) -> Seq<char> {
    if n == 1 {
        seq!['J', 'a', 'n']
    } else if n == 2 {
        seq!['F', 'e', 'b']
    } else if n == 3 {
        seq!['M', 'a', 'r']
    } else if n == 4 {
        seq!['A', 'p', 'r']
    } else if n == 5 {
        seq!['M', 'a', 'y']
    } else if n == 6 {
        seq!['J', 'u', 'n']
    } else if n == 7 {
        seq!['J', 'u', 'l']
    } else if n == 8 {
        seq!['A', 'u', 'g']
    } else if n == 9 {
        seq!['S', 'e', 'p']
    } else if n == 10 {
        seq!['O', 'c', 't']
    } else if n == 11 {
        seq!['N', 'o', 'v']
    } else {
        seq!['D', 'e', 'c']
    }
}

/// An existing day of the calendar.
pub open spec fn printable(d: CalendarDate) -> bool {
    is_calendar_date(d.year as int, d.month as int, d.day as int)
}

/// A year on four digits at least, with its sign when outside 0 to 9999.
pub open spec fn year_text(y: i32) -> Seq<char> {
    if 0 <= y <= 9999 {
        zero_padded(decimal_text(y as nat), 4)
    } else if y < 0 {
        seq!['-'] + zero_padded(decimal_text((-y) as nat), 4)
    } else {
        seq!['+'] + zero_padded(decimal_text(y as nat), 4)
    }
}

/// `DD Mon YYYY`.
pub open spec fn day_month_year(d: CalendarDate) -> Seq<char> {
    zero_padded(decimal_text(d.day as nat), 2) + seq![' '] + english_month(d.month as int) + seq![
        ' ',
    ] + year_text(d.year)
}

/// Relies on chrono's `%d %b %Y` formatting of a NaiveDate: the day on two
/// digits, the English three-letter month name, and the year zero-padded to
/// four digits, with a sign outside 0 to 9999.
#[verifier::external_body]
fn format_day_month_year(d: CalendarDate) -> (r: String)
    requires
        printable(d),
    ensures
        r@ == day_month_year(d),
{
    match chrono::NaiveDate::from_ymd_opt(d.year, d.month, d.day) {
        Some(date) => date.format("%d %b %Y").to_string(),
        None => String::new(),
    }
}

/// The text of an optional value.
pub open spec fn opt_text(o: Option<String>) -> Option<Seq<char>> {
    match o {
        Some(s) => Some(s@),
        None => None,
    }
}

/// The optional value after a space, or nothing.
pub open spec fn spaced(o: Option<String>) -> Seq<char> {
    match o {
        Some(s) => seq![' '] + s@,
        None => Seq::empty(),
    }
}

/// The separator put before a piece when text is already there.
pub open spec fn list_separator(t: Seq<char>) -> Seq<char> {
    if t.len() > 0 {
        seq![' ', '/', ' ']
    } else {
        Seq::empty()
    }
}

/// What follows the number of a document: issuer, issue and expiry dates.
pub open spec fn document_tail(d: &SdnRecordDocument) -> Seq<char> {
    (match d.issued_by {
        Some(b) => seq![' ', '('] + b@ + seq![')'],
        None => Seq::empty(),
    }) + (match d.issued_date {
        Some(x) => " ISSUED "@ + upper_of(day_month_year(x)),
        None => Seq::empty(),
    }) + (match d.expiration_date {
        Some(x) => " EXPIRES "@ + upper_of(day_month_year(x)),
        None => Seq::empty(),
    })
}

/// The dates of the document can be written.
pub open spec fn printable_dates(d: &SdnRecordDocument) -> bool {
    (d.issued_date matches Some(x) ==> printable(x)) && (d.expiration_date matches Some(x)
        ==> printable(x))
}

/// Appends ` ` and the value, when there is one.
fn push_spaced(inf: &mut String, o: &Option<String>)
    ensures
        final(inf)@ == old(inf)@ + spaced(*o),
{
    if let Some(s) = o {
        proof {
            reveal_strlit(" ");
        }
        inf.append(" ");
        inf.append(s.as_str());
        assert(final(inf)@ =~= old(inf)@ + spaced(*o));
    } else {
        assert(final(inf)@ =~= old(inf)@ + spaced(*o));
    }
}

/// Appends ` / ` when text is already there.
fn push_list_separator(inf: &mut String)
    ensures
        final(inf)@ == old(inf)@ + list_separator(old(inf)@),
{
    if inf.as_str().unicode_len() > 0 {
        proof {
            reveal_strlit(" / ");
        }
        inf.append(" / ");
        assert(final(inf)@ =~= old(inf)@ + list_separator(old(inf)@));
    } else {
        assert(final(inf)@ =~= old(inf)@ + list_separator(old(inf)@));
    }
}

/// A date as the export writes it, upper case.
fn export_date(d: CalendarDate) -> (r: String)
    requires
        printable(d),
    ensures
        r@ == upper_of(day_month_year(d)),
{
    let s = format_day_month_year(d);
    to_upper(s.as_str())
}

impl SdnRecordAddress {
    /// Appends the address (after ` / ` when text is already there): street,
    /// postal code, city, state, region and country, each given one after a
    /// space.
    pub fn extract_inf(&self, inf: &mut String)
        ensures
            final(inf)@ == old(inf)@ + list_separator(old(inf)@) + (match self.address {
                Some(a) => a@,
                None => Seq::empty(),
            }) + spaced(self.postal_code) + spaced(self.city) + spaced(self.state) + spaced(
                self.region,
            ) + spaced(self.country),
    {
        push_list_separator(inf);
        if let Some(a) = &self.address {
            inf.append(a.as_str());
        }
        push_spaced(inf, &self.postal_code);
        push_spaced(inf, &self.city);
        push_spaced(inf, &self.state);
        push_spaced(inf, &self.region);
        push_spaced(inf, &self.country);
    }
}

impl SdnRecordDocument {
    /// Appends the document (after ` / ` when text is already there): its
    /// number, then its issuer in brackets, its issue and expiry dates.
    pub fn extract_inf(&self, inf: &mut String)
        requires
            printable_dates(self),
        ensures
            final(inf)@ == old(inf)@ + list_separator(old(inf)@) + self.registration_number@
                + document_tail(self),
    {
        push_list_separator(inf);
        inf.append(self.registration_number.as_str());
        self.push_tail(inf);
    }

    /// Appends the document (after ` / ` when text is already there): the
    /// name of its type in upper case, its number, then its issuer in
    /// brackets, its issue and expiry dates.
    pub fn extract_inf_with_doc_name(&self, inf: &mut String)
        requires
            printable_dates(self),
        ensures
            final(inf)@ == old(inf)@ + list_separator(old(inf)@) + upper_of(self.doc_type_value@)
                + seq![' '] + self.registration_number@ + document_tail(self),
    {
        push_list_separator(inf);
        let name = to_upper(self.doc_type_value.as_str());
        inf.append(name.as_str());
        proof {
            reveal_strlit(" ");
        }
        inf.append(" ");
        inf.append(self.registration_number.as_str());
        self.push_tail(inf);
    }

    /// Appends issuer, issue and expiry dates.
    fn push_tail(&self, inf: &mut String)
        requires
            printable_dates(self),
        ensures
            final(inf)@ == old(inf)@ + document_tail(self),
    {
        let ghost start = inf@;
        proof {
            reveal_strlit(" (");
            reveal_strlit(")");
        }
        if let Some(b) = &self.issued_by {
            inf.append(" (");
            inf.append(b.as_str());
            inf.append(")");
        }
        let ghost mid1 = inf@;
        if let Some(x) = self.issued_date {
            inf.append(" ISSUED ");
            let t = export_date(x);
            inf.append(t.as_str());
        }
        let ghost mid2 = inf@;
        if let Some(x) = self.expiration_date {
            inf.append(" EXPIRES ");
            let t = export_date(x);
            inf.append(t.as_str());
        }
        assert(inf@ =~= start + document_tail(self));
    }
}

/// The document type of a vessel registration.
pub const VESSEL_REGISTRATION: i32 = 1626;

/// The registration numbers of the vessel registrations among `docs`, one
/// after the other.
pub open spec fn vessel_numbers(docs: Seq<SdnRecordDocument>) -> Seq<char>
    decreases docs.len(),
{
    if docs.len() == 0 {
        Seq::empty()
    } else if docs.last().doc_type == VESSEL_REGISTRATION {
        vessel_numbers(docs.drop_last()) + docs.last().registration_number@
    } else {
        vessel_numbers(docs.drop_last())
    }
}

/// The address information of a list of addresses, each after ` / `
/// but the first.
pub open spec fn addresses_text(t: Seq<char>, addresses: Seq<SdnRecordAddress>) -> Seq<char>
    decreases addresses.len(),
{
    if addresses.len() == 0 {
        t
    } else {
        let prev = addresses_text(t, addresses.drop_last());
        let a = addresses.last();
        prev + list_separator(prev) + (match a.address {
            Some(x) => x@,
            None => Seq::empty(),
        }) + spaced(a.postal_code) + spaced(a.city) + spaced(a.state) + spaced(a.region) + spaced(
            a.country,
        )
    }
}

/// The document type of a cedula.
pub const CEDULA: i32 = 1570;

/// The document type of a passport.
pub const PASSPORT: i32 = 1571;

/// Whether a document of type `doc_type` is written with its type name among
/// the other documents of a party of sub-type `partysubtypeid`.
pub open spec fn other_document(partysubtypeid: i32, doc_type: i32) -> bool {
    (partysubtypeid == 1 && (doc_type == 1626 || doc_type == 91264)) || (partysubtypeid == 2
        && doc_type == 1623) || (partysubtypeid == 3 && doc_type != 1626) || (partysubtypeid == 4
        && doc_type != 1571 && doc_type != 1570 && doc_type != 1584)
}

/// A document as the number list writes it.
pub open spec fn document_piece(d: &SdnRecordDocument) -> Seq<char> {
    d.registration_number@ + document_tail(d)
}

/// A document as the other-document list writes it.
pub open spec fn named_document_piece(d: &SdnRecordDocument) -> Seq<char> {
    upper_of(d.doc_type_value@) + seq![' '] + d.registration_number@ + document_tail(d)
}

/// `t` with `piece` added after ` / ` when `t` is not empty.
pub open spec fn listed(t: Seq<char>, piece: Seq<char>) -> Seq<char> {
    t + list_separator(t) + piece
}

/// The cedulas, the passports and the other documents of a party, each as
/// a list.
pub open spec fn documents_text(docs: Seq<SdnRecordDocument>, partysubtypeid: i32) -> (
    Seq<char>,
    Seq<char>,
    Seq<char>,
)
    decreases docs.len(),
{
    if docs.len() == 0 {
        (Seq::empty(), Seq::empty(), Seq::empty())
    } else {
        let (c, p, o) = documents_text(docs.drop_last(), partysubtypeid);
        let d = docs.last();
        (
            if d.doc_type == CEDULA {
                listed(c, document_piece(&d))
            } else {
                c
            },
            if d.doc_type == PASSPORT {
                listed(p, document_piece(&d))
            } else {
                p
            },
            if other_document(partysubtypeid, d.doc_type) {
                listed(o, named_document_piece(&d))
            } else {
                o
            },
        )
    }
}

impl FofdbofRecord {
    /// The information on all addresses of a party, ` / ` between two.
    pub fn compute_inf_addresses(&self, addresses: &Vec<SdnRecordAddress>) -> (r: String)
        ensures
            r@ == addresses_text(Seq::empty(), addresses@),
    {
        let mut inf = String::new();
        let mut i: usize = 0;
        while i < addresses.len()
            invariant
                0 <= i <= addresses.len(),
                inf@ == addresses_text(Seq::empty(), addresses@.subrange(0, i as int)),
            decreases addresses.len() - i,
        {
            assert(addresses@.subrange(0, i + 1).drop_last() =~= addresses@.subrange(0, i as int));
            addresses[i].extract_inf(&mut inf);
            i = i + 1;
        }
        assert(addresses@.subrange(0, addresses.len() as int) =~= addresses@);
        inf
    }

    /// The cedulas, the passports and the other documents of a party (those
    /// its sub-type writes with their type name), each list with ` / `
    /// between two documents.
    #[verifier::rlimit(30)]
    pub fn compute_inf_documents(&self, documents: &Vec<SdnRecordDocument>, partysubtypeid: i32) -> (r: (
        String,
        String,
        String,
    ))
        requires
            forall|i: int| 0 <= i < documents@.len() ==> printable_dates(#[trigger] &documents@[i]),
        ensures
            (r.0@, r.1@, r.2@) == documents_text(documents@, partysubtypeid),
    {
        let mut cedula = String::new();
        let mut passports = String::new();
        let mut other = String::new();
        let mut i: usize = 0;
        while i < documents.len()
            invariant
                0 <= i <= documents.len(),
                forall|j: int| 0 <= j < documents@.len() ==> printable_dates(#[trigger] &documents@[j]),
                (cedula@, passports@, other@) == documents_text(documents@.subrange(0, i as int), partysubtypeid),
            decreases documents.len() - i,
        {
            assert(documents@.subrange(0, i + 1).drop_last() =~= documents@.subrange(0, i as int));
            let d = &documents[i];
            assert(printable_dates(&documents@[i as int]));
            assert(documents@.subrange(0, i + 1).last() == documents@[i as int]);
            if d.doc_type == CEDULA {
                d.extract_inf(&mut cedula);
            }
            if d.doc_type == PASSPORT {
                d.extract_inf(&mut passports);
            }
            if (partysubtypeid == 1 && (d.doc_type == 1626 || d.doc_type == 91264)) || (partysubtypeid
                == 2 && d.doc_type == 1623) || (partysubtypeid == 3 && d.doc_type != 1626) || (
            partysubtypeid == 4 && d.doc_type != 1571 && d.doc_type != 1570 && d.doc_type != 1584) {
                d.extract_inf_with_doc_name(&mut other);
            }
            i = i + 1;
        }
        assert(documents@.subrange(0, documents.len() as int) =~= documents@);
        (cedula, passports, other)
    }

    /// The short key of a line: for a vessel, its registration numbers
    /// appended; for an aircraft, its name; otherwise left as it is.
    pub fn compute_shk(&mut self, partysubtypeid: i32, documents: &Vec<SdnRecordDocument>)
        ensures
            final(self).t_shk@ == (if partysubtypeid == 1 {
                old(self).t_shk@ + vessel_numbers(documents@)
            } else if partysubtypeid == 2 {
                old(self).t_name@
            } else {
                old(self).t_shk@
            }),
            *final(self) == (FofdbofRecord { t_shk: final(self).t_shk, ..*old(self) }),
    {
        if partysubtypeid == 1 {
            let ghost start = self.t_shk@;
            let mut acc = copy_text(self.t_shk.as_str());
            let mut i: usize = 0;
            while i < documents.len()
                invariant
                    0 <= i <= documents.len(),
                    acc@ == start + vessel_numbers(documents@.subrange(0, i as int)),
                decreases documents.len() - i,
            {
                assert(documents@.subrange(0, i + 1).drop_last() =~= documents@.subrange(0, i as int));
                if documents[i].doc_type == VESSEL_REGISTRATION {
                    acc.append(documents[i].registration_number.as_str());
                }
                assert(acc@ =~= start + vessel_numbers(documents@.subrange(0, i + 1)));
                i = i + 1;
            }
            assert(documents@.subrange(0, documents.len() as int) =~= documents@);
            self.t_shk = acc;
        } else if partysubtypeid == 2 {
            self.t_shk = copy_text(self.t_name.as_str());
        }
    }

    /// The street of an address followed by its postal code, `, ` between
    /// them; left as it is when both are missing.
    pub fn compute_add(&mut self, address: &SdnRecordAddress)
        ensures
            ({
                let street = match address.address {
                    Some(a) => a@,
                    None => Seq::<char>::empty(),
                };
                let text = match address.postal_code {
                    Some(p) => if street.len() > 0 {
                        street + seq![',', ' '] + p@
                    } else {
                        p@
                    },
                    None => street,
                };
                if text.len() > 0 {
                    final(self).t_add is Some && final(self).t_add->0@ == text
                } else {
                    final(self).t_add == old(self).t_add
                }
            }),
            *final(self) == (FofdbofRecord { t_add: final(self).t_add, ..*old(self) }),
    {
        let mut add = String::new();
        if let Some(a) = &address.address {
            add = copy_text(a.as_str());
        }
        if let Some(p) = &address.postal_code {
            if add.as_str().unicode_len() > 0 {
                proof {
                    reveal_strlit(", ");
                }
                add.append(", ");
            }
            add.append(p.as_str());
        }
        if add.as_str().unicode_len() > 0 {
            self.t_add = Some(add);
        }
    }

    /// The country of an address, or failing that its region; left as it
    /// is when both are missing.
    pub fn compute_ctr(&mut self, address: &SdnRecordAddress)
        ensures
            opt_text(final(self).t_ctr) == (match address.country {
                Some(c) => Some(c@),
                None => match address.region {
                    Some(r) => Some(r@),
                    None => opt_text(old(self).t_ctr),
                },
            }),
            *final(self) == (FofdbofRecord { t_ctr: final(self).t_ctr, ..*old(self) }),
    {
        match &address.country {
            Some(c) => {
                self.t_ctr = Some(copy_text(c.as_str()));
            },
            None => {
                if let Some(r) = &address.region {
                    self.t_ctr = Some(copy_text(r.as_str()));
                }
            },
        }
    }
}

} // verus!
