use vstd::prelude::*;

verus! {

#[verifier::external_type_specification]
#[verifier::external_body]
pub struct ExCsvError(csv::Error);

/// A `csv::Writer` over an in-memory byte vector, with the default settings
/// (comma separated, `\n` terminated, quoting where needed). Held behind a
/// private field: Verus does not take the declaration of `csv::Writer`, whose
/// parameter is bound by `std::io::Write`.
#[verifier::external_body]
pub struct CsvBuffer {
    writer: csv::Writer<Vec<u8>>,
}

/// The records the buffer has been given, each a sequence of fields.
pub uninterp spec fn csv_records(w: CsvBuffer) -> Seq<Seq<Seq<char>>>;

/// The bytes `csv::Writer` with its default settings writes for the records.
pub uninterp spec fn csv_encoding(records: Seq<Seq<Seq<char>>>) -> Seq<u8>;

/// Some write into the buffer has failed. A failed `write_record` may have
/// left part of a record in the buffer.
pub uninterp spec fn csv_failed(w: CsvBuffer) -> bool;

/// The fields of a record as plain text.
pub open spec fn record_view(r: Seq<String>) -> Seq<Seq<char>> {
    r.map_values(|f: String| f@)
}

/// `csv::Writer::from_writer` on an empty byte vector: a buffer holding no
/// records, with no failed write.
#[verifier::external_body]
pub(crate) fn csv_buffer() -> (w: CsvBuffer)
    ensures
        csv_records(w) == Seq::<Seq<Seq<char>>>::empty(),
        !csv_failed(w),
{
    CsvBuffer { writer: csv::Writer::from_writer(Vec::new()) }
}

/// `csv::Writer::write_record`. On success the buffer holds one more record;
/// a failure is remembered. With the default (not flexible) settings the only
/// error on an in-memory sink is `UnequalLengths`: a record whose field count
/// differs from that of the first record. So where nothing failed before and
/// the record has as many fields as the first one (or is the first), the
/// write succeeds.
#[verifier::external_body]
pub(crate) fn csv_write_record(w: &mut CsvBuffer, record: &Vec<String>) -> (r: Result<(), csv::Error>)
    ensures
        r is Ok ==> csv_records(*final(w)) == csv_records(*old(w)).push(record_view(record@)),
        csv_failed(*final(w)) == (csv_failed(*old(w)) || r is Err),
        !csv_failed(*old(w)) && (csv_records(*old(w)).len() == 0 || record@.len() == csv_records(*old(w))[0].len())
            ==> r is Ok,
{
    w.writer.write_record(record.iter())
}

/// `csv::Writer::into_inner`: the bytes written for all the records. It can
/// only fail where flushing into the sink fails, which an in-memory byte
/// vector never does; its error type carries an `std::io::Error`, converted
/// here into a `csv::Error`. Called only on a buffer with no failed write, so
/// the bytes are exactly the encoding of the records.
#[verifier::external_body]
pub(crate) fn csv_into_inner(w: CsvBuffer) -> (r: Result<Vec<u8>, csv::Error>)
    requires
        !csv_failed(w),
    ensures
        r is Ok,
        r matches Ok(bytes) ==> bytes@ == csv_encoding(csv_records(w)),
{
    w.writer.into_inner().map_err(|e| csv::Error::from(e.into_error()))
}

} // verus!
