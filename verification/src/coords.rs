//! Coordinate columns: from zero-based positions, orientation and
//! truncation to the two tokens of a feature row.

use vstd::prelude::*;
use crate::decimal::decimal_string;
use crate::error::TblError;
use crate::layout::coord_tokens;
use crate::model::{GeneStrand, Truncation};

verus! {

/// Renders the two coordinate columns of a feature row.
///
/// Fails with [`TblError::OrientationUndefined`] exactly where `strand` is
/// `None`; otherwise the tokens are those of [`coord_tokens`].
pub fn format_coords(
    start: usize,
    end: usize,
    strand: Option<GeneStrand>,
    truncation: Truncation,
) -> (r: Result<(String, String), TblError>)
    ensures
        match strand {
            None => r matches Err(TblError::OrientationUndefined),
            Some(s) => r matches Ok(tokens) && (tokens.0@, tokens.1@) == coord_tokens(
                start as nat,
                end as nat,
                s,
                truncation,
            ),
        },
{
    let strand = match strand {
        Some(s) => s,
        None => {
            return Err(TblError::OrientationUndefined);
        },
    };
    let one_based = decimal_string(start as u128 + 1);
    let last = decimal_string(end as u128);
    let (mut first_tok, mut second_tok) = match strand {
        GeneStrand::Reverse => (last, one_based),
        GeneStrand::Forward => (one_based, last),
    };
    proof {
        reveal_strlit("<");
        reveal_strlit(">");
    }
    match truncation {
        Truncation::FivePrime | Truncation::Both => {
            first_tok = String::from_str("<").concat(first_tok.as_str());
        },
        _ => {},
    }
    match truncation {
        Truncation::ThreePrime | Truncation::Both => {
            second_tok = String::from_str(">").concat(second_tok.as_str());
        },
        _ => {},
    }
    Ok((first_tok, second_tok))
}

} // verus!
