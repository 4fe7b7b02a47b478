//! The feature table as mathematics: which rows an annotation set gives,
//! in which order, and the text of those rows.
//!
//! A row is a sequence of fields and a field is a sequence of characters.
//! Rendering stops at the first gene or segment whose orientation is
//! unresolved; [`Emitted`] records the rows up to that point and whether
//! the end was reached.

use vstd::prelude::*;
use vstd::utf8::*;
use crate::decimal::decimal;
use crate::model::{
    AttributeView, CdsSegmentView, CdsView, GeneMapView, GeneStrand, GeneView, Phase, Truncation,
};
use crate::sink::delimited;

verus! {

/// The two coordinate columns of a feature row.
///
/// The one-based start and the end are swapped on the reverse strand; then
/// `<` goes before whatever stands first and `>` before whatever stands
/// second, as the truncation asks. The markers follow the position in the
/// row, not the biological end.
pub open spec fn coord_tokens(start: nat, end: nat, strand: GeneStrand, truncation: Truncation) -> (
    Seq<char>,
    Seq<char>,
) {
    let one_based = decimal(start + 1);
    let last = decimal(end);
    let first_tok = if strand == GeneStrand::Reverse {
        last
    } else {
        one_based
    };
    let second_tok = if strand == GeneStrand::Reverse {
        one_based
    } else {
        last
    };
    (
        if truncation.marks_first() {
            seq!['<'] + first_tok
        } else {
            first_tok
        },
        if truncation.marks_second() {
            seq!['>'] + second_tok
        } else {
            second_tok
        },
    )
}

/// A feature row: the two coordinate columns and the feature's kind.
pub open spec fn feature_row(tokens: (Seq<char>, Seq<char>), kind: Seq<char>) -> Seq<Seq<char>> {
    seq![tokens.0, tokens.1, kind]
}

/// A qualifier row: three empty columns, then key and value.
pub open spec fn qualifier_row(key: Seq<char>, value: Seq<char>) -> Seq<Seq<char>> {
    seq![Seq::empty(), Seq::empty(), Seq::empty(), key, value]
}

/// The qualifier rows of one key: one per value, in stored order.
pub open spec fn attribute_rows(attribute: AttributeView) -> Seq<Seq<Seq<char>>> {
    attribute.values.map_values(|value: Seq<char>| qualifier_row(attribute.key, value))
}

/// The qualifier rows of an attribute multimap: key by key in stored order,
/// nothing merged, sorted or dropped.
pub open spec fn qualifier_rows(attributes: Seq<AttributeView>) -> Seq<Seq<Seq<char>>>
    decreases attributes.len(),
{
    if attributes.len() == 0 {
        Seq::empty()
    } else {
        qualifier_rows(attributes.drop_last()) + attribute_rows(attributes.last())
    }
}

/// The `codon_start` qualifier of a coding sequence's first segment: the
/// one-based phase, present only where it is not 1.
pub open spec fn codon_start_rows(phase: Phase) -> Seq<Seq<Seq<char>>> {
    if phase.offset() + 1 != 1 {
        seq![qualifier_row("codon_start"@, decimal(phase.offset() + 1))]
    } else {
        Seq::empty()
    }
}

/// Rows written so far, and whether rendering ran to its end.
pub struct Emitted {
    pub rows: Seq<Seq<Seq<char>>>,
    /// `false` where rendering stopped at an unresolved orientation.
    pub complete: bool,
}

impl Emitted {
    /// No row, and nothing went wrong.
    pub open spec fn nothing() -> Emitted {
        Emitted { rows: Seq::empty(), complete: true }
    }

    /// No row, because the orientation is unresolved.
    pub open spec fn stopped() -> Emitted {
        Emitted { rows: Seq::empty(), complete: false }
    }

    /// These rows, all of them.
    pub open spec fn all(rows: Seq<Seq<Seq<char>>>) -> Emitted {
        Emitted { rows, complete: true }
    }

    /// `self` followed by `next`, unless `self` already stopped.
    pub open spec fn followed_by(self, next: Emitted) -> Emitted {
        if self.complete {
            Emitted { rows: self.rows + next.rows, complete: next.complete }
        } else {
            self
        }
    }

    /// The parts one after the other, up to the first that stopped.
    pub open spec fn sequence(parts: Seq<Emitted>) -> Emitted
        decreases parts.len(),
    {
        if parts.len() == 0 {
            Emitted::nothing()
        } else {
            Emitted::sequence(parts.drop_last()).followed_by(parts.last())
        }
    }
}

/// Following is associative: three emissions in a row give the same
/// whichever two are joined first.
pub proof fn lemma_followed_by_assoc(a: Emitted, b: Emitted, c: Emitted)
    ensures
        a.followed_by(b).followed_by(c) == a.followed_by(b.followed_by(c)),
{
    if a.complete && b.complete {
        assert((a.rows + b.rows) + c.rows =~= a.rows + (b.rows + c.rows));
    }
}

/// One more part at the end is emitted after all the others.
pub proof fn lemma_sequence_push(parts: Seq<Emitted>, part: Emitted)
    ensures
        Emitted::sequence(parts.push(part)) == Emitted::sequence(parts).followed_by(part),
{
    assert(parts.push(part).drop_last() =~= parts);
}

/// The parts of a concatenation are emitted in the order of the
/// concatenation: all of the first list, then all of the second.
pub proof fn lemma_sequence_concat(a: Seq<Emitted>, b: Seq<Emitted>)
    ensures
        Emitted::sequence(a + b) == Emitted::sequence(a).followed_by(Emitted::sequence(b)),
    decreases b.len(),
{
    if b.len() > 0 {
        lemma_sequence_concat(a, b.drop_last());
        assert((a + b).drop_last() =~= a + b.drop_last());
        lemma_followed_by_assoc(
            Emitted::sequence(a),
            Emitted::sequence(b.drop_last()),
            b.last(),
        );
    }
}

/// Once a prefix of the parts has stopped, the remaining parts add
/// nothing.
pub proof fn lemma_sequence_stops(parts: Seq<Emitted>, n: int)
    requires
        0 <= n <= parts.len(),
        !Emitted::sequence(parts.take(n)).complete,
    ensures
        Emitted::sequence(parts) == Emitted::sequence(parts.take(n)),
{
    assert(parts =~= parts.take(n) + parts.skip(n));
    lemma_sequence_concat(parts.take(n), parts.skip(n));
}

/// The rows of one segment. `leading` says that it is the first of its
/// coding sequence: only then is the kind column `CDS` and the
/// `codon_start` qualifier considered.
pub open spec fn segment_emitted(segment: CdsSegmentView, leading: bool) -> Emitted {
    match segment.strand {
        None => Emitted::stopped(),
        Some(strand) => Emitted::all(
            seq![
                feature_row(
                    coord_tokens(segment.start, segment.end, strand, segment.truncation),
                    if leading {
                        "CDS"@
                    } else {
                        Seq::empty()
                    },
                ),
            ] + qualifier_rows(segment.attributes) + if leading {
                codon_start_rows(segment.phase)
            } else {
                Seq::empty()
            },
        ),
    }
}

/// What each of some consecutive segments of one coding sequence gives.
/// `leading` says that the run starts at the coding sequence's first
/// segment.
pub open spec fn segment_parts(segments: Seq<CdsSegmentView>, leading: bool) -> Seq<Emitted> {
    Seq::new(segments.len(), |i: int| segment_emitted(segments[i], leading && i == 0))
}

/// The rows of one coding sequence: those of its segments, in order.
pub open spec fn cds_emitted(cds: CdsView) -> Emitted {
    Emitted::sequence(segment_parts(cds.segments, true))
}

/// What each of several coding sequences gives.
pub open spec fn cds_parts(cdses: Seq<CdsView>) -> Seq<Emitted> {
    cdses.map_values(|cds: CdsView| cds_emitted(cds))
}

/// The `gene` row of a gene and its qualifiers. A gene is never truncated.
pub open spec fn gene_line_emitted(gene: GeneView) -> Emitted {
    match gene.strand {
        None => Emitted::stopped(),
        Some(strand) => Emitted::all(
            seq![
                feature_row(
                    coord_tokens(gene.start, gene.end, strand, Truncation::Neither),
                    "gene"@,
                ),
            ] + qualifier_rows(gene.attributes),
        ),
    }
}

/// The rows of one gene: its own, then those of its coding sequences, in
/// order.
pub open spec fn gene_emitted(gene: GeneView) -> Emitted {
    gene_line_emitted(gene).followed_by(Emitted::sequence(cds_parts(gene.cdses)))
}

/// What each of several genes gives.
pub open spec fn gene_parts(genes: Seq<GeneView>) -> Seq<Emitted> {
    genes.map_values(|gene: GeneView| gene_emitted(gene))
}

/// The sequence identifier of a block: that of the first gene, or empty
/// where the first gene has none.
pub open spec fn seq_id(map: GeneMapView) -> Seq<char>
    recommends
        map.genes.len() > 0,
{
    match map.genes[0].gff_seqid {
        Some(id) => id,
        None => Seq::empty(),
    }
}

/// The single-column row that opens a block.
pub open spec fn header_row(map: GeneMapView) -> Seq<Seq<char>>
    recommends
        map.genes.len() > 0,
{
    seq![">Feature "@ + seq_id(map)]
}

/// The block of one annotation set: nothing at all for a set without
/// genes, else the header row and the rows of the genes, in order.
pub open spec fn gene_map_emitted(map: GeneMapView) -> Emitted {
    if map.genes.len() == 0 {
        Emitted::nothing()
    } else {
        Emitted::all(seq![header_row(map)]).followed_by(Emitted::sequence(gene_parts(map.genes)))
    }
}

/// What each of several annotation sets gives.
pub open spec fn gene_map_parts(maps: Seq<GeneMapView>) -> Seq<Emitted> {
    maps.map_values(|map: GeneMapView| gene_map_emitted(map))
}

/// The blocks of several annotation sets, one after the other.
pub open spec fn gene_maps_emitted(maps: Seq<GeneMapView>) -> Emitted {
    Emitted::sequence(gene_map_parts(maps))
}

/// The text of one row: its fields separated by tabs, and a line feed.
pub open spec fn row_text(row: Seq<Seq<char>>) -> Seq<char> {
    delimited(row, '\t').push('\n')
}

/// The text of several rows, one after the other.
pub open spec fn table_text(rows: Seq<Seq<Seq<char>>>) -> Seq<char>
    decreases rows.len(),
{
    if rows.len() == 0 {
        Seq::empty()
    } else {
        table_text(rows.drop_last()) + row_text(rows.last())
    }
}

/// The bytes of several rows: their text in UTF-8.
pub open spec fn table_bytes(rows: Seq<Seq<Seq<char>>>) -> Seq<u8> {
    encode_utf8(table_text(rows))
}

} // verus!
