//! The immutable catalog record describing one persisted parquet file.

use vstd::prelude::*;

verus! {

/// Catalog file record, as read from the catalog's data store. Immutable
/// once read; the adapter never writes it back.
#[derive(Clone, Debug)]
pub struct ParquetFile {
    /// Numeric surrogate key of the file itself.
    pub id: u64,
    /// Numeric surrogate key of the owning table.
    pub table_id: u64,
    /// Numeric surrogate key of the owning partition.
    pub partition_id: u64,
    /// Minimum sequence number the file covers, as the catalog recorded it.
    pub min_sequence_number: u64,
    /// Size of the persisted file in bytes.
    pub file_size_bytes: u64,
    /// Raw embedded metadata blob, decoded once per adapter invocation.
    pub parquet_metadata: Vec<u8>,
}

/// Mathematical image of a [`ParquetFile`].
pub struct ParquetFileView {
    pub id: u64,
    pub table_id: u64,
    pub partition_id: u64,
    pub min_sequence_number: u64,
    pub file_size_bytes: u64,
    pub parquet_metadata: Seq<u8>,
}

impl View for ParquetFile {
    type V = ParquetFileView;

    open spec fn view(&self) -> ParquetFileView {
        ParquetFileView {
            id: self.id,
            table_id: self.table_id,
            partition_id: self.partition_id,
            min_sequence_number: self.min_sequence_number,
            file_size_bytes: self.file_size_bytes,
            parquet_metadata: self.parquet_metadata@,
        }
    }
}

} // verus!
