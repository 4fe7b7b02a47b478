//! The feature table writer: rows in the order of the annotation model,
//! handed one by one to the record sink.

use vstd::prelude::*;
use vstd::utf8::*;
use crate::coords::format_coords;
use crate::decimal::decimal_string;
use crate::encoding::{
    lemma_record_bytes, lemma_table_bytes_concat, lemma_table_bytes_one, row_fields_bytes,
};
use crate::error::{decoding_outcome, sink_outcome, TblError};
use crate::layout::{
    attribute_rows, cds_emitted, cds_parts, feature_row, gene_line_emitted, gene_map_emitted,
    gene_map_parts, gene_maps_emitted, gene_parts, header_row, lemma_sequence_push,
    lemma_sequence_stops, qualifier_row, qualifier_rows, segment_parts, table_bytes, table_text,
    Emitted,
};
use crate::model::{
    annotations_view, attributes_view, Attribute, Cds, Gene, GeneMap, GeneMapView,
    NextcladeOutputs, Truncation,
};
use crate::sink::{
    close_sink, fields_bytes, open_sink, sink_bytes, sink_delimiter, sink_flexible, sink_unquoted,
    sink_write_record, RecordSink,
};

verus! {

/// The fields of a row as text.
pub open spec fn row_view(fields: Seq<&str>) -> Seq<Seq<char>> {
    fields.map_values(|f: &str| f@)
}

/// Writes GenBank feature tables into a byte buffer.
///
/// See <https://www.ncbi.nlm.nih.gov/genbank/feature_table/>.
pub struct GenbankTblWriter {
    writer: RecordSink,
}

/// What a write has to show for itself: `expected` is what the input gives,
/// `r` the answer, `before` and `after` the writer around the call.
///
/// Success means that everything was rendered and appended. An undefined
/// orientation means that the rows up to it were appended and nothing
/// after. The sink of a usable writer does not fail, and text decoding plays
/// no part in writing.
pub open spec fn write_outcome(
    before: GenbankTblWriter,
    after: GenbankTblWriter,
    expected: Emitted,
    r: Result<(), TblError>,
) -> bool {
    match r {
        Ok(()) => expected.complete && after.appended(before, expected.rows),
        Err(TblError::OrientationUndefined) => !expected.complete && after.appended(
            before,
            expected.rows,
        ),
        Err(TblError::SinkWriteFailure(_)) => false,
        Err(TblError::TextDecodingFailure(_)) => false,
    }
}

/// Two writes in a row: where the first appended all of `first`, the
/// outcome of the second is the outcome of both together.
pub proof fn lemma_outcome_chain(
    start: GenbankTblWriter,
    mid: GenbankTblWriter,
    end: GenbankTblWriter,
    first: Emitted,
    second: Emitted,
    r: Result<(), TblError>,
)
    requires
        first.complete,
        mid.appended(start, first.rows),
        write_outcome(mid, end, second, r),
    ensures
        write_outcome(start, end, first.followed_by(second), r),
{
    lemma_table_bytes_concat(first.rows, second.rows);
    assert((start.written() + table_bytes(first.rows)) + table_bytes(second.rows)
        =~= start.written() + (table_bytes(first.rows) + table_bytes(second.rows)));
}

/// One more part of a sequence: with the parts before it appended, its
/// own outcome either extends what is appended by one part or is the
/// outcome of the whole sequence.
pub proof fn lemma_outcome_step(
    start: GenbankTblWriter,
    mid: GenbankTblWriter,
    end: GenbankTblWriter,
    parts: Seq<Emitted>,
    i: int,
    r: Result<(), TblError>,
)
    requires
        0 <= i < parts.len(),
        Emitted::sequence(parts.take(i)).complete,
        mid.appended(start, Emitted::sequence(parts.take(i)).rows),
        write_outcome(mid, end, parts[i], r),
    ensures
        r is Ok ==> Emitted::sequence(parts.take(i + 1)).complete && end.appended(
            start,
            Emitted::sequence(parts.take(i + 1)).rows,
        ),
        r is Err ==> write_outcome(start, end, Emitted::sequence(parts), r),
{
    let done = Emitted::sequence(parts.take(i));
    assert(parts.take(i + 1) =~= parts.take(i).push(parts[i]));
    lemma_sequence_push(parts.take(i), parts[i]);
    lemma_outcome_chain(start, mid, end, done, parts[i], r);
    if !Emitted::sequence(parts.take(i + 1)).complete {
        lemma_sequence_stops(parts, i + 1);
    }
}

impl GenbankTblWriter {
    /// The writer is usable: it separates fields by tabs, takes rows of any
    /// length, neither quotes nor escapes, and stands at the start of a row.
    pub closed spec fn wf(&self) -> bool {
        &&& sink_unquoted(self.writer)
        &&& sink_flexible(self.writer)
        &&& sink_delimiter(self.writer) == 0x09u8
    }

    /// All bytes written so far, the initial content of the buffer
    /// included.
    pub closed spec fn written(&self) -> Seq<u8> {
        sink_bytes(self.writer)
    }

    /// `self` is usable and holds what `before` held, followed by the bytes
    /// of `rows`.
    pub open spec fn appended(&self, before: GenbankTblWriter, rows: Seq<Seq<Seq<char>>>) -> bool {
        self.wf() && self.written() == before.written() + table_bytes(rows)
    }

    /// Binds a writer to `dest`; what `dest` holds stays in front of all
    /// that is written later.
    pub fn new(dest: Vec<u8>) -> (r: Result<Self, TblError>)
        ensures
            r matches Ok(w) && w.wf() && w.written() == dest@,
    {
        // Tab-delimited rows of differing lengths, and no header row.
        let writer = open_sink(dest, 0x09u8, true, false);
        Ok(Self { writer })
    }

    /// Hands back the buffer with everything written.
    pub fn into_inner(self) -> (r: Result<Vec<u8>, TblError>)
        ensures
            r matches Ok(bytes) && bytes@ == self.written(),
    {
        sink_outcome(close_sink(self.writer))
    }

    /// Writes one row.
    fn write_row(&mut self, fields: &Vec<&str>) -> (r: Result<(), TblError>)
        requires
            old(self).wf(),
            fields@.len() >= 2 || (fields@.len() == 1 && fields@[0]@.len() > 0),
        ensures
            r is Ok,
            final(self).appended(*old(self), seq![row_view(fields@)]),
    {
        proof {
            let row = row_view(fields@);
            lemma_record_bytes(row);
            lemma_table_bytes_one(row);
            assert(fields_bytes(fields@) =~= row_fields_bytes(row));
        }
        sink_outcome(sink_write_record(&mut self.writer, fields))
    }

    /// Writes the qualifier rows of an attribute multimap: one row per key
    /// and value, in stored order.
    fn write_qualifiers(&mut self, attributes: &Vec<Attribute>) -> (r: Result<(), TblError>)
        requires
            old(self).wf(),
        ensures
            r is Ok,
            final(self).appended(*old(self), qualifier_rows(attributes_view(attributes@))),
    {
        let ghost before = *self;
        let ghost attrs = attributes_view(attributes@);
        let mut i: usize = 0;
        while i < attributes.len()
            invariant
                i <= attributes.len(),
                attrs == attributes_view(attributes@),
                self.appended(before, qualifier_rows(attrs.take(i as int))),
            decreases attributes.len() - i,
        {
            let attribute = &attributes[i];
            let ghost done = qualifier_rows(attrs.take(i as int));
            let ghost rows = attribute_rows(attribute@);
            let mut j: usize = 0;
            while j < attribute.values.len()
                invariant
                    j <= attribute.values.len(),
                    rows == attribute_rows(attribute@),
                    self.appended(before, done + rows.take(j as int)),
                decreases attribute.values.len() - j,
            {
                let fields = vec!["", "", "", attribute.key.as_str(), attribute.values[j].as_str()];
                self.write_row(&fields)?;
                proof {
                    reveal_strlit("");
                    let row = row_view(fields@);
                    assert(fields@[0]@ =~= Seq::<char>::empty());
                    assert(row =~= rows[j as int]);
                    lemma_table_bytes_concat(done + rows.take(j as int), seq![row]);
                    assert((done + rows.take(j as int)) + seq![row] =~= done + rows.take(j + 1));
                    assert(before.written() + (table_bytes(done + rows.take(j as int))
                        + table_bytes(seq![row])) =~= (before.written() + table_bytes(
                        done + rows.take(j as int),
                    )) + table_bytes(seq![row]));
                }
                j += 1;
            }
            proof {
                assert(rows.take(j as int) =~= rows);
                assert(attrs.take(i + 1).drop_last() =~= attrs.take(i as int));
            }
            i += 1;
        }
        proof {
            assert(attrs.take(i as int) =~= attrs);
        }
        Ok(())
    }

    /// Writes the `gene` row of a gene and its qualifier rows.
    fn write_gene(&mut self, gene: &Gene) -> (r: Result<(), TblError>)
        requires
            old(self).wf(),
        ensures
            write_outcome(*old(self), *final(self), gene_line_emitted(gene@), r),
            r is Ok <==> gene@.strand is Some,
            gene@.strand is None ==> r matches Err(TblError::OrientationUndefined),
            gene@.strand is None ==> *final(self) == *old(self),
    {
        let ghost before = *self;
        let tokens = format_coords(gene.start, gene.end, gene.strand, Truncation::Neither)?;
        // A line with the feature's boundaries and the feature's kind.
        let fields = vec![tokens.0.as_str(), tokens.1.as_str(), "gene"];
        self.write_row(&fields)?;
        let ghost mid = *self;
        let ghost row = row_view(fields@);
        let ghost qualifiers = qualifier_rows(gene@.attributes);
        // Lines with the feature's qualifiers.
        self.write_qualifiers(&gene.attributes)?;
        proof {
            assert(row =~= feature_row((tokens.0@, tokens.1@), "gene"@));
            lemma_outcome_chain(
                before,
                mid,
                *self,
                Emitted::all(seq![row]),
                Emitted::all(qualifiers),
                Ok(()),
            );
        }
        Ok(())
    }

    /// Writes the rows of one coding sequence: for each segment a feature
    /// row and its qualifier rows, and after the first segment's the
    /// `codon_start` qualifier where the phase is not zero.
    fn write_cds(&mut self, cds: &Cds) -> (r: Result<(), TblError>)
        requires
            old(self).wf(),
        ensures
            write_outcome(*old(self), *final(self), cds_emitted(cds@), r),
            r is Ok <==> cds_emitted(cds@).complete,
            cds@.segments.len() == 0 ==> r is Ok && *final(self) == *old(self),
    {
        let ghost before = *self;
        let ghost parts = segment_parts(cds@.segments, true);
        let mut i: usize = 0;
        while i < cds.segments.len()
            invariant
                i <= cds.segments.len(),
                before == *old(self),
                i == 0 ==> *self == before,
                parts == segment_parts(cds@.segments, true),
                Emitted::sequence(parts.take(i as int)).complete,
                self.appended(before, Emitted::sequence(parts.take(i as int)).rows),
            decreases cds.segments.len() - i,
        {
            let seg = &cds.segments[i];
            let ghost at_segment = *self;
            proof {
                if seg.strand is None {
                    lemma_outcome_step(
                        before,
                        at_segment,
                        at_segment,
                        parts,
                        i as int,
                        Err(TblError::OrientationUndefined),
                    );
                }
            }
            let tokens = format_coords(seg.start, seg.end, seg.strand, seg.truncation)?;
            // The feature type is written for the first segment only.
            let feature_type = if i == 0 {
                "CDS"
            } else {
                ""
            };
            let fields = vec![tokens.0.as_str(), tokens.1.as_str(), feature_type];
            self.write_row(&fields)?;
            let ghost after_row = *self;
            let ghost row = row_view(fields@);
            let ghost qualifiers = qualifier_rows(seg@.attributes);
            self.write_qualifiers(&seg.attributes)?;
            let ghost after_qualifiers = *self;
            proof {
                reveal_strlit("");
                assert(""@ =~= Seq::<char>::empty());
                assert(row =~= feature_row(
                    (tokens.0@, tokens.1@),
                    if i == 0 {
                        "CDS"@
                    } else {
                        Seq::empty()
                    },
                ));
                lemma_outcome_chain(
                    at_segment,
                    after_row,
                    after_qualifiers,
                    Emitted::all(seq![row]),
                    Emitted::all(qualifiers),
                    Ok(()),
                );
            }
            // The phase goes out as a one-based `codon_start` qualifier on
            // the first segment, unless it is the default.
            if i == 0 {
                let codon_start = seg.phase.to_usize() + 1;
                if codon_start != 1 {
                    let text = decimal_string(codon_start as u128);
                    let fields = vec!["", "", "", "codon_start", text.as_str()];
                    self.write_row(&fields)?;
                    proof {
                        let extra = row_view(fields@);
                        assert(extra =~= qualifier_row("codon_start"@, text@));
                        lemma_outcome_chain(
                            at_segment,
                            after_qualifiers,
                            *self,
                            Emitted::all(seq![row] + qualifiers),
                            Emitted::all(seq![extra]),
                            Ok(()),
                        );
                    }
                }
            }
            proof {
                lemma_outcome_step(before, at_segment, *self, parts, i as int, Ok(()));
            }
            i += 1;
        }
        proof {
            assert(parts.take(i as int) =~= parts);
        }
        Ok(())
    }

    /// Appends the block of one annotation set: nothing for a set without
    /// genes, else the `>Feature` line and the rows of every gene with its
    /// coding sequences, in the order of the set.
    ///
    /// The answer is success exactly where every orientation on the way is
    /// resolved, and else [`TblError::OrientationUndefined`];
    /// [`write_outcome`] says what has been written in each case.
    pub fn write_genemap(&mut self, gene_map: &GeneMap) -> (r: Result<(), TblError>)
        requires
            old(self).wf(),
        ensures
            write_outcome(*old(self), *final(self), gene_map_emitted(gene_map@), r),
            r is Ok <==> gene_map_emitted(gene_map@).complete,
            gene_map@.genes.len() == 0 ==> r is Ok && *final(self) == *old(self),
    {
        let ghost before = *self;
        if gene_map.is_empty() {
            return Ok(());
        }
        let seq_id = match &gene_map.genes[0].gff_seqid {
            Some(id) => id.as_str(),
            None => "",
        };
        // A line with the sequence name.
        let mut header = String::from_str(">Feature ");
        header.append(seq_id);
        let fields = vec![header.as_str()];
        proof {
            reveal_strlit(">Feature ");
            reveal_strlit("");
            assert(row_view(fields@) =~= header_row(gene_map@));
        }
        self.write_row(&fields)?;
        let ghost top = Emitted::all(seq![header_row(gene_map@)]);
        let ghost after_header = *self;
        let ghost parts = gene_parts(gene_map@.genes);
        let mut i: usize = 0;
        while i < gene_map.genes.len()
            invariant
                i <= gene_map.genes.len(),
                before == *old(self),
                parts == gene_parts(gene_map@.genes),
                top == Emitted::all(seq![header_row(gene_map@)]),
                gene_map_emitted(gene_map@) == top.followed_by(Emitted::sequence(parts)),
                after_header.appended(before, top.rows),
                Emitted::sequence(parts.take(i as int)).complete,
                self.appended(after_header, Emitted::sequence(parts.take(i as int)).rows),
            decreases gene_map.genes.len() - i,
        {
            let gene = &gene_map.genes[i];
            let ghost at_gene = *self;
            let ghost line = gene_line_emitted(gene@);
            let ghost inner = cds_parts(gene@.cdses);
            let written = self.write_gene(gene);
            proof {
                if written is Err {
                    lemma_outcome_step(after_header, at_gene, *self, parts, i as int, written);
                    lemma_outcome_chain(
                        before,
                        after_header,
                        *self,
                        top,
                        Emitted::sequence(parts),
                        written,
                    );
                }
            }
            written?;
            let ghost after_line = *self;
            let mut j: usize = 0;
            while j < gene.cdses.len()
                invariant
                    j <= gene.cdses.len(),
                    i < gene_map.genes.len(),
                    before == *old(self),
                    parts == gene_parts(gene_map@.genes),
                    top == Emitted::all(seq![header_row(gene_map@)]),
                    gene_map_emitted(gene_map@) == top.followed_by(Emitted::sequence(parts)),
                    after_header.appended(before, top.rows),
                    Emitted::sequence(parts.take(i as int)).complete,
                    at_gene.appended(after_header, Emitted::sequence(parts.take(i as int)).rows),
                    inner == cds_parts(gene@.cdses),
                    line == gene_line_emitted(gene@),
                    parts[i as int] == line.followed_by(Emitted::sequence(inner)),
                    line.complete,
                    after_line.appended(at_gene, line.rows),
                    Emitted::sequence(inner.take(j as int)).complete,
                    self.appended(after_line, Emitted::sequence(inner.take(j as int)).rows),
                decreases gene.cdses.len() - j,
            {
                let cds = &gene.cdses[j];
                let ghost at_cds = *self;
                let written = self.write_cds(cds);
                proof {
                    lemma_outcome_step(after_line, at_cds, *self, inner, j as int, written);
                    if written is Err {
                        lemma_outcome_chain(
                            at_gene,
                            after_line,
                            *self,
                            line,
                            Emitted::sequence(inner),
                            written,
                        );
                        lemma_outcome_step(after_header, at_gene, *self, parts, i as int, written);
                        lemma_outcome_chain(
                            before,
                            after_header,
                            *self,
                            top,
                            Emitted::sequence(parts),
                            written,
                        );
                    }
                }
                written?;
                j += 1;
            }
            proof {
                assert(inner.take(j as int) =~= inner);
                lemma_outcome_chain(
                    at_gene,
                    after_line,
                    *self,
                    line,
                    Emitted::sequence(inner),
                    Ok(()),
                );
                lemma_outcome_step(after_header, at_gene, *self, parts, i as int, Ok(()));
            }
            i += 1;
        }
        proof {
            assert(parts.take(i as int) =~= parts);
            lemma_outcome_chain(
                before,
                after_header,
                *self,
                top,
                Emitted::sequence(parts),
                Ok(()),
            );
        }
        Ok(())
    }
}

/// What a rendering has to show for itself: `maps` are the annotation sets
/// and `r` the answer.
///
/// Success means that every orientation is resolved and the text is that of
/// all the rows of all the blocks. An undefined orientation is reported
/// exactly where there is one. The sink does not fail, and neither does
/// decoding.
pub open spec fn tbl_string_outcome(maps: Seq<GeneMapView>, r: Result<String, TblError>) -> bool {
    match r {
        Ok(text) => gene_maps_emitted(maps).complete && text@ == table_text(
            gene_maps_emitted(maps).rows,
        ),
        Err(TblError::OrientationUndefined) => !gene_maps_emitted(maps).complete,
        Err(TblError::SinkWriteFailure(_)) => false,
        Err(TblError::TextDecodingFailure(_)) => false,
    }
}

/// Renders the annotation of every result, block after block, into one
/// text.
///
/// Succeeds exactly where every orientation is resolved, and the text is
/// then that of all the rows; else the answer is
/// [`TblError::OrientationUndefined`]. The bytes written are always valid
/// UTF-8, so decoding never fails.
pub fn results_to_tbl_string(outputs: &[NextcladeOutputs]) -> (r: Result<String, TblError>)
    ensures
        tbl_string_outcome(annotations_view(outputs@), r),
        r is Ok <==> gene_maps_emitted(annotations_view(outputs@)).complete,
{
    let buf = Vec::<u8>::new();
    let mut writer = GenbankTblWriter::new(buf)?;
    let ghost start = writer;
    let ghost parts = gene_map_parts(annotations_view(outputs@));
    let mut i: usize = 0;
    while i < outputs.len()
        invariant
            i <= outputs.len(),
            parts == gene_map_parts(annotations_view(outputs@)),
            start.written() == Seq::<u8>::empty(),
            Emitted::sequence(parts.take(i as int)).complete,
            writer.appended(start, Emitted::sequence(parts.take(i as int)).rows),
        decreases outputs.len() - i,
    {
        let ghost at_block = writer;
        let written = writer.write_genemap(&outputs[i].annotation);
        proof {
            lemma_outcome_step(start, at_block, writer, parts, i as int, written);
        }
        written?;
        i += 1;
    }
    let ghost text = table_text(Emitted::sequence(parts).rows);
    proof {
        assert(parts.take(i as int) =~= parts);
        encode_utf8_valid_utf8(text);
    }
    let bytes = writer.into_inner()?;
    let decoded = String::from_utf8(bytes);
    proof {
        if decoded is Ok {
            encode_utf8_decode_utf8(decoded->Ok_0@);
            encode_utf8_decode_utf8(text);
        }
    }
    decoding_outcome(decoded)
}

} // verus!
