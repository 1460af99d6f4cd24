//! The alias export: one fixed-width line per alias of each listed party.
use vstd::prelude::*;
use vstd::utf8::encode_utf8;
use crate::document::DocumentType;
use crate::text::{decimal_text, format_decimal, space_pad, space_padded, to_upper, upper_of, zero_pad, zero_padded};

verus! {

/// Whether an export line stands for an address of its own or an extra one.
#[derive(Debug, Clone, Copy, PartialEq, Eq, Structural)]
pub enum RecordType {
    Main,
    Alternative,
}

impl Default for RecordType {
    fn default() -> (r: RecordType)
        ensures
            r == RecordType::Main,
    {
        RecordType::Main
    }
}

/// One alias of one party, for the alias export.
#[derive(Debug, PartialEq, Eq)]
pub struct FofnasyRecord {
    pub doc_type: DocumentType,
    pub t_id: i32,
    pub t_alias: String,
}

/// The alias export: where it goes, which list it was last fed from, and
/// its lines.
#[derive(Debug)]
pub struct FofnasyExporter {
    pub filepath: String,
    pub doc_type: DocumentType,
    pub records: Vec<FofnasyRecord>,
}

/// What an export record holds.
pub open spec fn entry_of(r: FofnasyRecord) -> (DocumentType, i32, Seq<char>) {
    (r.doc_type, r.t_id, r.t_alias@)
}

/// What a list of export records holds.
pub open spec fn entries_of(rs: Seq<FofnasyRecord>) -> Seq<(DocumentType, i32, Seq<char>)> {
    rs.map_values(|r: FofnasyRecord| entry_of(r))
}

/// The entries of parties and their aliases, in order, for list `t`.
pub open spec fn alias_entries(records: Seq<(i32, Vec<String>)>, t: DocumentType) -> Seq<
    (DocumentType, i32, Seq<char>),
>
    decreases records.len(),
{
    if records.len() == 0 {
        Seq::empty()
    } else {
        alias_entries(records.drop_last(), t) + records.last().1@.map_values(
            |a: String| (t, records.last().0, a@),
        )
    }
}

/// The four-letter code of each list.
pub open spec fn list_code(t: DocumentType) -> Seq<char> {
    match t {
        DocumentType::OFAC => seq!['O', 'F', 'A', 'C'],
        DocumentType::OFACNS => seq!['O', 'F', 'N', 'S'],
    }
}

/// The decimal writing of an integer, with its sign when negative.
pub open spec fn signed_text(n: i32) -> Seq<char> {
    if n < 0 {
        seq!['-'] + decimal_text((-n) as nat)
    } else {
        decimal_text(n as nat)
    }
}

/// Short aliases (at most four bytes) are padded to 300 characters.
pub open spec fn alias_width(alias: Seq<char>) -> nat {
    if (encode_utf8(alias).len() as usize) <= 4 {
        300
    } else {
        0
    }
}

/// The export line of one record: list code, id padded with zeros to six
/// characters, alias in upper case (padded when short), end of line.
pub open spec fn line_text(r: FofnasyRecord) -> Seq<char> {
    list_code(r.doc_type) + zero_padded(signed_text(r.t_id), 6) + space_padded(
        upper_of(r.t_alias@),
        alias_width(r.t_alias@),
    ) + seq!['\n']
}

/// The export lines of a list of records, in order.
pub open spec fn lines_text(rs: Seq<FofnasyRecord>) -> Seq<char>
    decreases rs.len(),
{
    if rs.len() == 0 {
        Seq::empty()
    } else {
        lines_text(rs.drop_last()) + line_text(rs.last())
    }
}

/// The decimal writing of `n`, with its sign when negative.
pub fn format_signed(n: i32) -> (r: String)
    ensures
        r@ == signed_text(n),
{
    if n < 0 {
        proof {
            reveal_strlit("-");
        }
        let mut r = String::from_str("-");
        let m: u32 = (-(n as i64)) as u32;
        let d = format_decimal(m);
        r.append(d.as_str());
        assert(r@ =~= signed_text(n));
        r
    } else {
        format_decimal(n as u32)
    }
}

impl FofnasyRecord {
    /// The export line of the record.
    pub fn to_line(&self) -> (r: String)
        ensures
            r@ == line_text(*self),
    {
        proof {
            reveal_strlit("OFAC");
            reveal_strlit("OFNS");
            reveal_strlit("\n");
        }
        let mut r = match self.doc_type {
            DocumentType::OFAC => String::from_str("OFAC"),
            DocumentType::OFACNS => String::from_str("OFNS"),
        };
        assert(r@ =~= list_code(self.doc_type));
        let id = format_signed(self.t_id);
        let padded_id = zero_pad(id.as_str(), 6);
        r.append(padded_id.as_str());
        let upper = to_upper(self.t_alias.as_str());
        let width: usize = if self.t_alias.as_str().len() <= 4 {
            300
        } else {
            0
        };
        let alias = space_pad(upper.as_str(), width);
        r.append(alias.as_str());
        r.append("\n");
        assert(r@ =~= line_text(*self));
        r
    }
}

impl FofnasyExporter {
    /// Adds one record per alias of each party, in order, for list
    /// `doc_type`, which becomes the exporter's list.
    pub fn load_records(&mut self, records: &Vec<(i32, Vec<String>)>, doc_type: &DocumentType)
        ensures
            final(self).doc_type == *doc_type,
            final(self).filepath == old(self).filepath,
            entries_of(final(self).records@) == entries_of(old(self).records@) + alias_entries(
                records@,
                *doc_type,
            ),
    {
        self.doc_type = *doc_type;
        let ghost start = entries_of(self.records@);
        let mut i: usize = 0;
        while i < records.len()
            invariant
                0 <= i <= records.len(),
                self.doc_type == *doc_type,
                self.filepath == old(self).filepath,
                entries_of(self.records@) == start + alias_entries(
                    records@.subrange(0, i as int),
                    *doc_type,
                ),
            decreases records.len() - i,
        {
            let id = records[i].0;
            let aliases = &records[i].1;
            let ghost before = entries_of(self.records@);
            let mut j: usize = 0;
            while j < aliases.len()
                invariant
                    0 <= j <= aliases.len(),
                    aliases == &records@[i as int].1,
                    id == records@[i as int].0,
                    self.doc_type == *doc_type,
                    self.filepath == old(self).filepath,
                    entries_of(self.records@) == before + aliases@.subrange(0, j as int).map_values(
                        |a: String| (*doc_type, id, a@),
                    ),
                decreases aliases.len() - j,
            {
                let ghost prev = self.records@;
                self.records.push(
                    FofnasyRecord { doc_type: *doc_type, t_id: id, t_alias: aliases[j].clone() },
                );
                assert(entries_of(self.records@) =~= entries_of(prev).push(
                    (*doc_type, id, aliases@[j as int]@),
                ));
                assert(aliases@.subrange(0, j + 1).map_values(|a: String| (*doc_type, id, a@))
                    =~= aliases@.subrange(0, j as int).map_values(|a: String| (*doc_type, id, a@)).push(
                    (*doc_type, id, aliases@[j as int]@),
                ));
                j = j + 1;
            }
            assert(aliases@.subrange(0, aliases.len() as int) =~= aliases@);
            assert(records@.subrange(0, i + 1).drop_last() =~= records@.subrange(0, i as int));
            i = i + 1;
        }
        assert(records@.subrange(0, records.len() as int) =~= records@);
    }

    /// Appends the export line of every record, in order, to `buffer`.
    pub fn write_in(&self, buffer: &mut String)
        ensures
            final(buffer)@ == old(buffer)@ + lines_text(self.records@),
    {
        let mut i: usize = 0;
        while i < self.records.len()
            invariant
                0 <= i <= self.records.len(),
                buffer@ == old(buffer)@ + lines_text(self.records@.subrange(0, i as int)),
            decreases self.records.len() - i,
        {
            let line = self.records[i].to_line();
            buffer.append(line.as_str());
            assert(self.records@.subrange(0, i + 1).drop_last() =~= self.records@.subrange(
                0,
                i as int,
            ));
            i = i + 1;
        }
        assert(self.records@.subrange(0, self.records.len() as int) =~= self.records@);
    }
}

impl Default for FofnasyExporter {
    fn default() -> (r: FofnasyExporter)
        ensures
            r.filepath@ == "./output/FOFNASY.t"@,
            r.doc_type == DocumentType::OFAC,
            r.records@.len() == 0,
    {
        FofnasyExporter {
            filepath: String::from_str("./output/FOFNASY.t"),
            doc_type: DocumentType::OFAC,
            records: Vec::new(),
        }
    }
}

/// An export that writes its lines into a text buffer.
pub trait Exporter {
    /// Appends the export's lines to `buffer`.
    fn write_in(&self, buffer: &mut String);
}

impl Exporter for FofnasyExporter {
    fn write_in(&self, buffer: &mut String) {
        FofnasyExporter::write_in(self, buffer)
    }
}

} // verus!
