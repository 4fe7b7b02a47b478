//! Laws of the serializer: markers go by the place in the row, the output
//! follows the order of the input, rendering runs to its end exactly where
//! every orientation is resolved, and the output is a function of the input
//! alone.

use vstd::prelude::*;
use crate::encoding::lemma_table_text_concat;
use crate::error::TblError;
use crate::layout::{
    attribute_rows, cds_emitted, cds_parts, coord_tokens, gene_emitted, gene_map_emitted,
    gene_map_parts, gene_maps_emitted, gene_parts, header_row, lemma_followed_by_assoc,
    lemma_sequence_concat, lemma_sequence_push, qualifier_rows, segment_parts, table_text,
    Emitted,
};
use crate::model::{
    AttributeView, CdsSegmentView, CdsView, GeneMapView, GeneStrand, GeneView, Truncation,
};
use crate::writer::{tbl_string_outcome, write_outcome, GenbankTblWriter};

verus! {

/// Truncation markers go by the place in the row: whatever the strand, the
/// first column is the untruncated first column with `<` in front where the
/// truncation asks for it, and the second column likewise with `>`.
pub proof fn lemma_markers_are_positional(
    start: nat,
    end: nat,
    strand: GeneStrand,
    truncation: Truncation,
)
    ensures
        ({
            let marked = coord_tokens(start, end, strand, truncation);
            let plain = coord_tokens(start, end, strand, Truncation::Neither);
            &&& marked.0 == if truncation.marks_first() {
                seq!['<'] + plain.0
            } else {
                plain.0
            }
            &&& marked.1 == if truncation.marks_second() {
                seq!['>'] + plain.1
            } else {
                plain.1
            }
        }),
{
}

/// The reverse strand swaps the two columns of the forward strand, before
/// any marker is set.
pub proof fn lemma_reverse_swaps(start: nat, end: nat)
    ensures
        ({
            let forward = coord_tokens(start, end, GeneStrand::Forward, Truncation::Neither);
            let reverse = coord_tokens(start, end, GeneStrand::Reverse, Truncation::Neither);
            reverse == (forward.1, forward.0)
        }),
{
}

/// The qualifier rows of a concatenation of attribute lists are those of
/// the first list followed by those of the second: keys keep their order.
pub proof fn lemma_qualifier_rows_concat(a: Seq<AttributeView>, b: Seq<AttributeView>)
    ensures
        qualifier_rows(a + b) == qualifier_rows(a) + qualifier_rows(b),
    decreases b.len(),
{
    if b.len() > 0 {
        lemma_qualifier_rows_concat(a, b.drop_last());
        assert((a + b).drop_last() =~= a + b.drop_last());
    }
}

/// The values of one key keep their order: the rows of a key whose values
/// are a concatenation are the rows for the first values followed by the
/// rows for the rest.
pub proof fn lemma_attribute_values_in_order(
    key: Seq<char>,
    a: Seq<Seq<char>>,
    b: Seq<Seq<char>>,
)
    ensures
        attribute_rows(AttributeView { key, values: a + b }) == attribute_rows(
            AttributeView { key, values: a },
        ) + attribute_rows(AttributeView { key, values: b }),
{
}

/// Segments keep their order within a coding sequence: a run of segments
/// gives the rows of its first part followed by the rows of the rest, and
/// only the very first segment counts as leading.
pub proof fn lemma_segments_in_order(
    a: Seq<CdsSegmentView>,
    b: Seq<CdsSegmentView>,
    leading: bool,
)
    ensures
        Emitted::sequence(segment_parts(a + b, leading)) == Emitted::sequence(
            segment_parts(a, leading),
        ).followed_by(Emitted::sequence(segment_parts(b, leading && a.len() == 0))),
{
    assert(segment_parts(a + b, leading) =~= segment_parts(a, leading) + segment_parts(
        b,
        leading && a.len() == 0,
    ));
    lemma_sequence_concat(segment_parts(a, leading), segment_parts(b, leading && a.len() == 0));
}

/// Coding sequences keep their order within a gene.
pub proof fn lemma_cdses_in_order(a: Seq<CdsView>, b: Seq<CdsView>)
    ensures
        Emitted::sequence(cds_parts(a + b)) == Emitted::sequence(cds_parts(a)).followed_by(
            Emitted::sequence(cds_parts(b)),
        ),
{
    assert(cds_parts(a + b) =~= cds_parts(a) + cds_parts(b));
    lemma_sequence_concat(cds_parts(a), cds_parts(b));
}

/// Genes keep their order within a block.
pub proof fn lemma_genes_in_order(a: Seq<GeneView>, b: Seq<GeneView>)
    ensures
        Emitted::sequence(gene_parts(a + b)) == Emitted::sequence(gene_parts(a)).followed_by(
            Emitted::sequence(gene_parts(b)),
        ),
{
    assert(gene_parts(a + b) =~= gene_parts(a) + gene_parts(b));
    lemma_sequence_concat(gene_parts(a), gene_parts(b));
}

/// Every gene has its place: its rows stand right after the rows of the
/// genes before it and right before the rows of the genes after it.
pub proof fn lemma_gene_rows_in_place(genes: Seq<GeneView>, i: int)
    requires
        0 <= i < genes.len(),
    ensures
        Emitted::sequence(gene_parts(genes)) == Emitted::sequence(
            gene_parts(genes.take(i)),
        ).followed_by(gene_emitted(genes[i])).followed_by(
            Emitted::sequence(gene_parts(genes.skip(i + 1))),
        ),
{
    let before = genes.take(i);
    let after = genes.skip(i + 1);
    assert(genes =~= before.push(genes[i]) + after);
    lemma_genes_in_order(before.push(genes[i]), after);
    assert(gene_parts(before.push(genes[i])) =~= gene_parts(before).push(gene_emitted(genes[i])));
    lemma_sequence_push(gene_parts(before), gene_emitted(genes[i]));
}

/// Appending genes to a set that has some appends their rows to its block:
/// the header and the rows of the genes before stay as they are.
pub proof fn lemma_block_extends(a: Seq<GeneView>, b: Seq<GeneView>)
    requires
        a.len() > 0,
    ensures
        gene_map_emitted(GeneMapView { genes: a + b }) == gene_map_emitted(
            GeneMapView { genes: a },
        ).followed_by(Emitted::sequence(gene_parts(b))),
{
    lemma_genes_in_order(a, b);
    let header = Emitted::all(seq![header_row(GeneMapView { genes: a })]);
    lemma_followed_by_assoc(
        header,
        Emitted::sequence(gene_parts(a)),
        Emitted::sequence(gene_parts(b)),
    );
}

/// Blocks keep the order of the annotation sets they come from.
pub proof fn lemma_blocks_in_order(a: Seq<GeneMapView>, b: Seq<GeneMapView>)
    ensures
        gene_maps_emitted(a + b) == gene_maps_emitted(a).followed_by(gene_maps_emitted(b)),
{
    assert(gene_map_parts(a + b) =~= gene_map_parts(a) + gene_map_parts(b));
    lemma_sequence_concat(gene_map_parts(a), gene_map_parts(b));
}

/// A sequence runs to its end exactly where every part does.
pub proof fn lemma_sequence_complete(parts: Seq<Emitted>)
    ensures
        Emitted::sequence(parts).complete <==> forall|i: int|
            0 <= i < parts.len() ==> (#[trigger] parts[i]).complete,
    decreases parts.len(),
{
    if parts.len() > 0 {
        lemma_sequence_complete(parts.drop_last());
        assert(forall|i: int|
            0 <= i < parts.len() - 1 ==> parts.drop_last()[i] == #[trigger] parts[i]);
    }
}

/// Every segment of the coding sequence has an orientation.
pub open spec fn cds_resolved(cds: CdsView) -> bool {
    forall|k: int| 0 <= k < cds.segments.len() ==> (#[trigger] cds.segments[k]).strand is Some
}

/// The gene and every segment of its coding sequences have an orientation.
pub open spec fn gene_resolved(gene: GeneView) -> bool {
    &&& gene.strand is Some
    &&& forall|j: int| 0 <= j < gene.cdses.len() ==> cds_resolved(#[trigger] gene.cdses[j])
}

/// Every gene of the set is resolved.
pub open spec fn gene_map_resolved(map: GeneMapView) -> bool {
    forall|i: int| 0 <= i < map.genes.len() ==> gene_resolved(#[trigger] map.genes[i])
}

/// A coding sequence is rendered to its end exactly where each of its
/// segments has an orientation.
pub proof fn lemma_cds_complete(cds: CdsView)
    ensures
        cds_emitted(cds).complete <==> cds_resolved(cds),
{
    let parts = segment_parts(cds.segments, true);
    lemma_sequence_complete(parts);
    if cds_resolved(cds) {
        assert forall|k: int| 0 <= k < parts.len() implies (#[trigger] parts[k]).complete by {
            assert(cds.segments[k].strand is Some);
        }
    } else {
        let k = choose|k: int| 0 <= k < cds.segments.len() && !(cds.segments[k].strand is Some);
        assert(!parts[k].complete);
    }
}

/// A gene is rendered to its end exactly where it and each segment of its
/// coding sequences have an orientation.
pub proof fn lemma_gene_complete(gene: GeneView)
    ensures
        gene_emitted(gene).complete <==> gene_resolved(gene),
{
    let parts = cds_parts(gene.cdses);
    lemma_sequence_complete(parts);
    assert forall|j: int| 0 <= j < gene.cdses.len() implies ((#[trigger] parts[j]).complete
        <==> cds_resolved(gene.cdses[j])) by {
        lemma_cds_complete(gene.cdses[j]);
    }
    if gene_resolved(gene) {
        assert forall|j: int| 0 <= j < parts.len() implies (#[trigger] parts[j]).complete by {
            assert(cds_resolved(gene.cdses[j]));
        }
    }
    if gene_emitted(gene).complete {
        assert forall|j: int| 0 <= j < gene.cdses.len() implies cds_resolved(
            #[trigger] gene.cdses[j],
        ) by {
            assert(parts[j].complete);
        }
    }
}

/// A block is rendered to its end exactly where every orientation in the
/// set is resolved. Together with the contract of
/// [`GenbankTblWriter::write_genemap`] this says that a write succeeds on
/// exactly those sets.
pub proof fn lemma_gene_map_complete(map: GeneMapView)
    ensures
        gene_map_emitted(map).complete <==> gene_map_resolved(map),
{
    let parts = gene_parts(map.genes);
    lemma_sequence_complete(parts);
    assert forall|i: int| 0 <= i < map.genes.len() implies ((#[trigger] parts[i]).complete
        <==> gene_resolved(map.genes[i])) by {
        lemma_gene_complete(map.genes[i]);
    }
    if gene_map_resolved(map) {
        assert forall|i: int| 0 <= i < parts.len() implies (#[trigger] parts[i]).complete by {
            assert(gene_resolved(map.genes[i]));
        }
    }
    if gene_map_emitted(map).complete {
        assert forall|i: int| 0 <= i < map.genes.len() implies gene_resolved(
            #[trigger] map.genes[i],
        ) by {
            assert(parts[i].complete);
        }
    }
}

/// Several blocks are rendered to their end exactly where every
/// orientation in every set is resolved.
pub proof fn lemma_gene_maps_complete(maps: Seq<GeneMapView>)
    ensures
        gene_maps_emitted(maps).complete <==> forall|i: int|
            0 <= i < maps.len() ==> gene_map_resolved(#[trigger] maps[i]),
{
    let parts = gene_map_parts(maps);
    lemma_sequence_complete(parts);
    assert forall|i: int| 0 <= i < maps.len() implies ((#[trigger] parts[i]).complete
        <==> gene_map_resolved(maps[i])) by {
        lemma_gene_map_complete(maps[i]);
    }
    if forall|i: int| 0 <= i < maps.len() ==> gene_map_resolved(#[trigger] maps[i]) {
        assert forall|i: int| 0 <= i < parts.len() implies (#[trigger] parts[i]).complete by {
            assert(gene_map_resolved(maps[i]));
        }
    }
    if gene_maps_emitted(maps).complete {
        assert forall|i: int| 0 <= i < maps.len() implies gene_map_resolved(
            #[trigger] maps[i],
        ) by {
            assert(parts[i].complete);
        }
    }
}

/// The text of a joined list of annotation sets is the text of the first
/// list followed by the text of the second, where the first is rendered to
/// its end.
pub proof fn lemma_rendering_joins(a: Seq<GeneMapView>, b: Seq<GeneMapView>)
    requires
        gene_maps_emitted(a).complete,
    ensures
        table_text(gene_maps_emitted(a + b).rows) == table_text(gene_maps_emitted(a).rows)
            + table_text(gene_maps_emitted(b).rows),
{
    lemma_blocks_in_order(a, b);
    lemma_table_text_concat(gene_maps_emitted(a).rows, gene_maps_emitted(b).rows);
}

/// Writing is repeatable: two writes of the same annotation set into
/// writers that held the same bytes leave the same bytes behind and give
/// the same answer.
pub proof fn lemma_write_genemap_repeatable(
    map: GeneMapView,
    before1: GenbankTblWriter,
    after1: GenbankTblWriter,
    r1: Result<(), TblError>,
    before2: GenbankTblWriter,
    after2: GenbankTblWriter,
    r2: Result<(), TblError>,
)
    requires
        write_outcome(before1, after1, gene_map_emitted(map), r1),
        write_outcome(before2, after2, gene_map_emitted(map), r2),
        before1.written() == before2.written(),
    ensures
        after1.written() == after2.written(),
        r1 is Ok <==> r2 is Ok,
        r1 matches Err(TblError::OrientationUndefined) <==> r2 matches Err(
            TblError::OrientationUndefined,
        ),
{
}

/// Rendering is repeatable: two renderings of the same annotation sets
/// give the same text, or fail alike.
pub proof fn lemma_results_to_tbl_string_repeatable(
    maps: Seq<GeneMapView>,
    r1: Result<String, TblError>,
    r2: Result<String, TblError>,
)
    requires
        tbl_string_outcome(maps, r1),
        tbl_string_outcome(maps, r2),
    ensures
        r1 is Ok <==> r2 is Ok,
        r1 matches Ok(text1) ==> r2 matches Ok(text2) && text1@ == text2@,
        r1 matches Err(TblError::OrientationUndefined) <==> r2 matches Err(
            TblError::OrientationUndefined,
        ),
{
}

} // verus!
