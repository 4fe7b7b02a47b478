//! How the text of rows relates to the bytes that the record sink writes.

use vstd::prelude::*;
use vstd::utf8::*;
use crate::layout::{row_text, table_bytes, table_text};
use crate::sink::{delimited, record_bytes};

verus! {

/// UTF-8 encodes a text piece by piece.
pub proof fn lemma_encode_concat(a: Seq<char>, b: Seq<char>)
    ensures
        encode_utf8(a + b) == encode_utf8(a) + encode_utf8(b),
    decreases a.len(),
{
    if a.len() > 0 {
        lemma_encode_concat(a.drop_first(), b);
        assert((a + b).drop_first() =~= a.drop_first() + b);
    }
}

/// A character below 128 is encoded as the one byte of its code.
pub proof fn lemma_encode_ascii(c: char)
    requires
        (c as u32) < 128,
    ensures
        encode_utf8(seq![c]) == seq![c as u8],
{
    is_ascii_chars_encode_utf8(seq![c]);
}

/// The UTF-8 bytes of each field of a row.
pub open spec fn row_fields_bytes(row: Seq<Seq<char>>) -> Seq<Seq<u8>> {
    row.map_values(|f: Seq<char>| encode_utf8(f))
}

/// Encoding the tab-separated fields gives the encoded fields separated by
/// the tab byte.
pub proof fn lemma_encode_delimited(row: Seq<Seq<char>>)
    ensures
        encode_utf8(delimited(row, '\t')) == delimited(row_fields_bytes(row), 0x09u8),
    decreases row.len(),
{
    if row.len() >= 2 {
        lemma_encode_delimited(row.drop_last());
        assert(row_fields_bytes(row.drop_last()) =~= row_fields_bytes(row).drop_last());
        let head = delimited(row.drop_last(), '\t');
        lemma_encode_ascii('\t');
        assert(head.push('\t') =~= head + seq!['\t']);
        lemma_encode_concat(head, seq!['\t']);
        lemma_encode_concat(head.push('\t'), row.last());
    }
}

/// For a row that is not empty as text, the sink writes the encoding of the
/// row's text.
pub proof fn lemma_record_bytes(row: Seq<Seq<char>>)
    requires
        delimited(row, '\t').len() > 0,
    ensures
        record_bytes(row_fields_bytes(row), 0x09u8) == encode_utf8(row_text(row)),
{
    let body = delimited(row, '\t');
    lemma_encode_delimited(row);
    lemma_encode_ascii('\n');
    assert(body.push('\n') =~= body + seq!['\n']);
    lemma_encode_concat(body, seq!['\n']);
}

/// The text of rows is the text of any first part followed by the text of
/// the rest.
pub proof fn lemma_table_text_concat(a: Seq<Seq<Seq<char>>>, b: Seq<Seq<Seq<char>>>)
    ensures
        table_text(a + b) == table_text(a) + table_text(b),
    decreases b.len(),
{
    if b.len() > 0 {
        lemma_table_text_concat(a, b.drop_last());
        assert((a + b).drop_last() =~= a + b.drop_last());
    }
}

/// The bytes of rows are the bytes of any first part followed by the bytes
/// of the rest.
pub proof fn lemma_table_bytes_concat(a: Seq<Seq<Seq<char>>>, b: Seq<Seq<Seq<char>>>)
    ensures
        table_bytes(a + b) == table_bytes(a) + table_bytes(b),
{
    lemma_table_text_concat(a, b);
    lemma_encode_concat(table_text(a), table_text(b));
}

/// The bytes of a single row.
pub proof fn lemma_table_bytes_one(row: Seq<Seq<char>>)
    ensures
        table_bytes(seq![row]) == encode_utf8(row_text(row)),
{
    assert(table_text(seq![row].drop_last()) =~= Seq::<char>::empty());
}

} // verus!
