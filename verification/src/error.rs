//! What can go wrong while a feature table is written.

use vstd::prelude::*;

verus! {

/// The failures of the serializer. Each one ends the operation at once;
/// rows written before it stay where they are.
#[derive(Debug)]
pub enum TblError {
    /// A gene or segment has no resolved orientation, so its coordinates
    /// cannot be rendered.
    OrientationUndefined,
    /// The record sink failed to take a row; its own error is passed on.
    /// This is what [`sink_outcome`] makes of a failing sink. The writers of
    /// this crate write into memory and are proved never to give it.
    SinkWriteFailure(csv::Error),
    /// The bytes written are not valid text. This is what
    /// [`decoding_outcome`] makes of a failed decoding.
    /// [`results_to_tbl_string`](crate::results_to_tbl_string) is proved
    /// never to give it.
    TextDecodingFailure(std::string::FromUtf8Error),
}

impl TblError {
    /// A description of the failure.
    pub fn message(&self) -> (s: String)
        ensures
            s@ == match *self {
                TblError::OrientationUndefined => "orientation is undefined"@,
                TblError::SinkWriteFailure(_) => "the record sink failed to write a row"@,
                TblError::TextDecodingFailure(_) => "the written bytes are not valid UTF-8"@,
            },
    {
        match self {
            TblError::OrientationUndefined => String::from_str("orientation is undefined"),
            TblError::SinkWriteFailure(_) => String::from_str(
                "the record sink failed to write a row",
            ),
            TblError::TextDecodingFailure(_) => String::from_str(
                "the written bytes are not valid UTF-8",
            ),
        }
    }
}

/// Turns the sink's answer into the serializer's: success stays success,
/// and a failure becomes [`TblError::SinkWriteFailure`] around the sink's
/// error.
pub fn sink_outcome<T>(answer: Result<T, csv::Error>) -> (r: Result<T, TblError>)
    ensures
        match answer {
            Ok(value) => r == Ok::<T, TblError>(value),
            Err(e) => r == Err::<T, TblError>(TblError::SinkWriteFailure(e)),
        },
{
    match answer {
        Ok(value) => Ok(value),
        Err(e) => Err(TblError::SinkWriteFailure(e)),
    }
}

/// Turns the decoder's answer into the serializer's: the text stays, and a
/// failure becomes [`TblError::TextDecodingFailure`] around the decoder's
/// error.
pub fn decoding_outcome(answer: Result<String, std::string::FromUtf8Error>) -> (r: Result<
    String,
    TblError,
>)
    ensures
        match answer {
            Ok(text) => r == Ok::<String, TblError>(text),
            Err(e) => r == Err::<String, TblError>(TblError::TextDecodingFailure(e)),
        },
{
    match answer {
        Ok(text) => Ok(text),
        Err(e) => Err(TblError::TextDecodingFailure(e)),
    }
}

} // verus!
