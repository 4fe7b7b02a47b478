//! The record sink: a `csv::Writer` over an in-memory buffer.
//!
//! Everything in this file is trusted: Verus does not see inside the `csv`
//! crate, so the contracts below restate what its source does and are
//! believed without proof. The rest of the crate is proved against them.

use vstd::prelude::*;
use vstd::utf8::*;

verus! {

/// A `csv::Writer` that writes into a byte buffer. Verus sees nothing
/// inside; what it holds is spoken of through [`sink_bytes`],
/// [`sink_delimiter`], [`sink_flexible`] and [`sink_unquoted`].
#[verifier::external_body]
pub struct RecordSink {
    writer: csv::Writer<Vec<u8>>,
}

#[verifier::external_type_specification]
#[verifier::external_body]
pub struct ExCsvError(csv::Error);

#[verifier::external_type_specification]
#[verifier::external_body]
pub struct ExFromUtf8Error(std::string::FromUtf8Error);

/// All bytes that the writer has accepted so far, in order: those already
/// handed to the underlying buffer followed by those still held in the
/// writer's own staging area. This is what `into_inner` yields.
pub uninterp spec fn sink_bytes(w: RecordSink) -> Seq<u8>;

/// The byte that the writer puts between two fields of a record.
pub uninterp spec fn sink_delimiter(w: RecordSink) -> u8;

/// Whether the writer accepts records of differing lengths.
pub uninterp spec fn sink_flexible(w: RecordSink) -> bool;

/// Whether the writer was made by [`open_sink`] and stands at the start of a
/// record: it never quotes or escapes and ends records with a line feed.
pub uninterp spec fn sink_unquoted(w: RecordSink) -> bool;

/// The fields, each followed by `delimiter` except the last.
pub open spec fn delimited<T>(fields: Seq<Seq<T>>, delimiter: T) -> Seq<T>
    decreases fields.len(),
{
    if fields.len() == 0 {
        Seq::empty()
    } else if fields.len() == 1 {
        fields[0]
    } else {
        delimited(fields.drop_last(), delimiter).push(delimiter) + fields.last()
    }
}

/// The bytes of one record as an unquoted writer emits it: the delimited
/// fields and a line feed. A record that would otherwise be empty (no
/// field, or one empty field) is written as a pair of double quotes.
pub open spec fn record_bytes(fields: Seq<Seq<u8>>, delimiter: u8) -> Seq<u8> {
    let body = delimited(fields, delimiter);
    if body.len() == 0 {
        seq![0x22u8, 0x22u8, 0x0au8]
    } else {
        body.push(0x0au8)
    }
}

/// The UTF-8 bytes of each field.
pub open spec fn fields_bytes(fields: Seq<&str>) -> Seq<Seq<u8>> {
    fields.map_values(|f: &str| encode_utf8(f@))
}

/// Calls `csv::WriterBuilder::new`, hands `delimiter`, `flexible` and
/// `has_headers` to the builder's methods of those names, sets
/// `quote_style(QuoteStyle::Never)`, and calls `from_writer` on `dest`.
///
/// Claims that the writer starts out holding the bytes of `dest`, separates
/// fields with `delimiter`, is flexible as asked, and is unquoted in the
/// sense of [`sink_unquoted`]. The header setting matters to serde records
/// only, which this crate does not write.
#[verifier::external_body]
pub(crate) fn open_sink(
    dest: Vec<u8>,
    delimiter: u8,
    flexible: bool,
    has_headers: bool,
) -> (w: RecordSink)
    ensures
        sink_bytes(w) == dest@,
        sink_delimiter(w) == delimiter,
        sink_flexible(w) == flexible,
        sink_unquoted(w),
{
    let writer = csv::WriterBuilder::new()
        .delimiter(delimiter)
        .flexible(flexible)
        .has_headers(has_headers)
        .quote_style(csv::QuoteStyle::Never)
        .from_writer(dest);
    RecordSink { writer }
}

/// Calls `csv::Writer::write_record`.
///
/// Claims that a flexible writer succeeds: the call fails only on the
/// check of the record's length, which a flexible writer does not make, or
/// when the destination refuses bytes, which a byte buffer never does.
/// Claims that on success exactly the bytes of the record, as
/// [`record_bytes`] gives them, were appended, and that the writer is again
/// at the start of a record with its configuration unchanged. Claims nothing
/// about the writer after a failure.
#[verifier::external_body]
pub(crate) fn sink_write_record(w: &mut RecordSink, fields: &Vec<&str>) -> (r: Result<
    (),
    csv::Error,
>)
    requires
        sink_unquoted(*old(w)),
    ensures
        sink_flexible(*old(w)) ==> r is Ok,
        r is Ok ==> sink_unquoted(*final(w)),
        r is Ok ==> sink_flexible(*final(w)) == sink_flexible(*old(w)),
        r is Ok ==> sink_delimiter(*final(w)) == sink_delimiter(*old(w)),
        r is Ok ==> sink_bytes(*final(w)) == sink_bytes(*old(w)) + record_bytes(
            fields_bytes(fields@),
            sink_delimiter(*old(w)),
        ),
{
    w.writer.write_record(fields)
}

/// Calls `csv::Writer::into_inner`; a failure is turned into a `csv::Error`
/// by `IntoInnerError::into_error` and `csv::Error::from`.
///
/// Claims that the call succeeds, since it fails only when the destination
/// refuses bytes, which a byte buffer never does, and that the buffer then
/// holds exactly the bytes that the writer had accepted.
#[verifier::external_body]
pub(crate) fn close_sink(w: RecordSink) -> (r: Result<Vec<u8>, csv::Error>)
    ensures
        r is Ok,
        r matches Ok(bytes) ==> bytes@ == sink_bytes(w),
{
    match w.writer.into_inner() {
        Ok(bytes) => Ok(bytes),
        Err(e) => Err(csv::Error::from(e.into_error())),
    }
}

/// `String::from_utf8` succeeds exactly on valid UTF-8, and the string it
/// returns has the given bytes as its encoding.
pub assume_specification[ String::from_utf8 ](bytes: Vec<u8>) -> (r: Result<
    String,
    std::string::FromUtf8Error,
>)
    ensures
        r is Ok <==> valid_utf8(bytes@),
        r matches Ok(s) ==> encode_utf8(s@) == bytes@,
;

} // verus!
