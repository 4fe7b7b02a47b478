//! The annotation model that the serializer reads, and its mathematical view.
//!
//! The executable types hold `usize`, `String` and `Vec`; their views hold
//! `nat`, `Seq<char>` and `Seq`. All contracts of this crate are stated over
//! the views.
//!
//! The serializer encodes what it is given: it asks nothing of the
//! positions, keeps repeated keys and values, and treats the order of every
//! list as meaningful.

use vstd::prelude::*;

verus! {

/// Direction of a feature relative to the reference sequence.
#[derive(Clone, Copy, Debug, PartialEq, Eq, Structural)]
pub enum GeneStrand {
    Forward,
    Reverse,
}

/// Which ends of a segment are incomplete.
#[derive(Clone, Copy, Debug, PartialEq, Eq, Structural)]
pub enum Truncation {
    /// Both ends are complete.
    Neither,
    FivePrime,
    ThreePrime,
    Both,
}

impl Truncation {
    /// Whether the first coordinate column gets the `<` marker.
    pub open spec fn marks_first(self) -> bool {
        self == Truncation::FivePrime || self == Truncation::Both
    }

    /// Whether the second coordinate column gets the `>` marker.
    pub open spec fn marks_second(self) -> bool {
        self == Truncation::ThreePrime || self == Truncation::Both
    }
}

/// Zero-based offset of the first complete codon within a segment.
#[derive(Clone, Copy, Debug, PartialEq, Eq, Structural)]
pub enum Phase {
    Zero,
    One,
    Two,
}

impl Phase {
    /// The offset as a number.
    pub open spec fn offset(self) -> nat {
        match self {
            Phase::Zero => 0,
            Phase::One => 1,
            Phase::Two => 2,
        }
    }

    /// The offset as a number.
    pub fn to_usize(&self) -> (n: usize)
        ensures
            n == self.offset(),
    {
        match self {
            Phase::Zero => 0,
            Phase::One => 1,
            Phase::Two => 2,
        }
    }
}

/// One key of an attribute multimap with its values, in stored order.
#[derive(Clone, Debug)]
pub struct Attribute {
    pub key: String,
    pub values: Vec<String>,
}

/// View of an [`Attribute`].
pub struct AttributeView {
    pub key: Seq<char>,
    pub values: Seq<Seq<char>>,
}

impl View for Attribute {
    type V = AttributeView;

    open spec fn view(&self) -> AttributeView {
        AttributeView { key: self.key@, values: self.values@.map_values(|v: String| v@) }
    }
}

/// The views of a list of attributes, in order.
pub open spec fn attributes_view(attributes: Seq<Attribute>) -> Seq<AttributeView> {
    attributes.map_values(|a: Attribute| a@)
}

/// One exon-like part of a coding sequence.
#[derive(Clone, Debug)]
pub struct CdsSegment {
    /// Zero-based start position; the table shows it one-based.
    pub start: usize,
    /// End position; the table shows it as it is.
    pub end: usize,
    /// `None` where the orientation could not be resolved.
    pub strand: Option<GeneStrand>,
    pub truncation: Truncation,
    pub attributes: Vec<Attribute>,
    pub phase: Phase,
}

/// View of a [`CdsSegment`].
pub struct CdsSegmentView {
    pub start: nat,
    pub end: nat,
    pub strand: Option<GeneStrand>,
    pub truncation: Truncation,
    pub attributes: Seq<AttributeView>,
    pub phase: Phase,
}

impl View for CdsSegment {
    type V = CdsSegmentView;

    open spec fn view(&self) -> CdsSegmentView {
        CdsSegmentView {
            start: self.start as nat,
            end: self.end as nat,
            strand: self.strand,
            truncation: self.truncation,
            attributes: attributes_view(self.attributes@),
            phase: self.phase,
        }
    }
}

/// A coding sequence: its segments in transcript order.
#[derive(Clone, Debug)]
pub struct Cds {
    pub segments: Vec<CdsSegment>,
}

/// View of a [`Cds`].
pub struct CdsView {
    pub segments: Seq<CdsSegmentView>,
}

impl View for Cds {
    type V = CdsView;

    open spec fn view(&self) -> CdsView {
        CdsView { segments: self.segments@.map_values(|s: CdsSegment| s@) }
    }
}

/// A gene with its coding sequences.
#[derive(Clone, Debug)]
pub struct Gene {
    /// Zero-based start position; the table shows it one-based.
    pub start: usize,
    /// End position; the table shows it as it is.
    pub end: usize,
    /// `None` where the orientation could not be resolved.
    pub strand: Option<GeneStrand>,
    pub attributes: Vec<Attribute>,
    pub cdses: Vec<Cds>,
    /// Identifier of the sequence that the gene was annotated on, if known.
    pub gff_seqid: Option<String>,
}

/// View of a [`Gene`].
pub struct GeneView {
    pub start: nat,
    pub end: nat,
    pub strand: Option<GeneStrand>,
    pub attributes: Seq<AttributeView>,
    pub cdses: Seq<CdsView>,
    pub gff_seqid: Option<Seq<char>>,
}

impl View for Gene {
    type V = GeneView;

    open spec fn view(&self) -> GeneView {
        GeneView {
            start: self.start as nat,
            end: self.end as nat,
            strand: self.strand,
            attributes: attributes_view(self.attributes@),
            cdses: self.cdses@.map_values(|c: Cds| c@),
            gff_seqid: match self.gff_seqid {
                Some(id) => Some(id@),
                None => None,
            },
        }
    }
}

/// An annotation set: genes in order.
#[derive(Clone, Debug)]
pub struct GeneMap {
    pub genes: Vec<Gene>,
}

/// View of a [`GeneMap`].
pub struct GeneMapView {
    pub genes: Seq<GeneView>,
}

impl View for GeneMap {
    type V = GeneMapView;

    open spec fn view(&self) -> GeneMapView {
        GeneMapView { genes: self.genes@.map_values(|g: Gene| g@) }
    }
}

impl GeneMap {
    /// Whether the set holds no gene.
    pub fn is_empty(&self) -> (b: bool)
        ensures
            b == (self@.genes.len() == 0),
    {
        self.genes.len() == 0
    }
}

/// One analysis result; the serializer reads its annotation only.
#[derive(Clone, Debug)]
pub struct NextcladeOutputs {
    pub annotation: GeneMap,
}

/// The views of the annotations of a list of results, in order.
pub open spec fn annotations_view(outputs: Seq<NextcladeOutputs>) -> Seq<GeneMapView> {
    outputs.map_values(|o: NextcladeOutputs| o.annotation@)
}

} // verus!
