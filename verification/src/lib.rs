//! Serializer for the NCBI GenBank Feature Table format.
//!
//! A [`GeneMap`] is rendered as a block of tab-delimited rows: one
//! `>Feature <seqid>` line, then for every gene a `gene` row with its
//! qualifiers, and for every segment of every coding sequence a `CDS` row
//! with its qualifiers. Every executable function carries a contract over
//! the mathematical model in [`layout`], and Verus proves each body against
//! its contract.
//!
//! See <https://www.ncbi.nlm.nih.gov/genbank/feature_table/>.

pub mod coords;
pub mod decimal;
pub mod encoding;
pub mod error;
pub mod laws;
pub mod layout;
pub mod model;
pub mod sink;
pub mod writer;

pub use crate::coords::format_coords;
pub use crate::error::TblError;
pub use crate::model::{
    Attribute, Cds, CdsSegment, Gene, GeneMap, GeneStrand, NextcladeOutputs, Phase, Truncation,
};
pub use crate::writer::{results_to_tbl_string, GenbankTblWriter};
