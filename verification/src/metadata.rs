//! The embedded metadata blob: layout, fail-fast decoding, and the decoded
//! file wrapper that shares the raw bytes with every downstream consumer.

use crate::bytes::{le_value, lemma_le_value_bound, lemma_pow256_values, read_uint_le};
use crate::error::Error;
use crate::record::ParquetFile;
use std::sync::Arc;
use vstd::prelude::*;

verus! {

/// Self-describing identifiers written inside the file at creation time.
/// They refer to the same logical entity as the catalog record's own keys;
/// the adapter trusts this embedded copy for path and order derivation.
#[derive(Clone, Copy, Debug, PartialEq, Eq, Structural)]
pub struct IoxMetadata {
    pub namespace_id: u64,
    pub table_id: u64,
    pub sequencer_id: u64,
    pub partition_id: u64,
    /// Object-store identifier of the file, a 128-bit value.
    pub object_store_id: u128,
    pub time_of_first_write: u64,
    pub time_of_last_write: u64,
    pub min_sequence_number: u64,
}

/// Summary of one column: its name and an opaque type tag.
#[derive(Debug)]
pub struct ColumnSummary {
    pub name: Vec<u8>,
    pub column_type: u8,
}

/// Mathematical image of a [`ColumnSummary`].
pub struct ColumnView {
    pub name: Seq<u8>,
    pub column_type: u8,
}

impl View for ColumnSummary {
    type V = ColumnView;

    open spec fn view(&self) -> ColumnView {
        ColumnView { name: self.name@, column_type: self.column_type }
    }
}

/// Per-column summary and schema of the file, decoded from the blob.
#[derive(Debug)]
pub struct TableSummary {
    pub row_count: u64,
    pub columns: Vec<ColumnSummary>,
}

/// Mathematical image of a [`TableSummary`].
pub struct TableSummaryView {
    pub row_count: u64,
    pub columns: Seq<ColumnView>,
}

impl View for TableSummary {
    type V = TableSummaryView;

    open spec fn view(&self) -> TableSummaryView {
        TableSummaryView { row_count: self.row_count, columns: col_views(self.columns@) }
    }
}

impl TableSummary {
    /// Value-equal copy of the summary.
    pub fn clone_summary(&self) -> (r: TableSummary)
        ensures
            r@ == self@,
    {
        let mut columns: Vec<ColumnSummary> = Vec::new();
        let n: usize = self.columns.len();
        let mut i: usize = 0;
        while i < n
            invariant
                n == self.columns@.len(),
                i <= n,
                columns@.len() == i,
                forall|j: int| 0 <= j < i ==> columns@[j]@ == self.columns@[j]@,
            decreases n - i,
        {
            let name = clone_bytes(&self.columns[i].name);
            let column_type = self.columns[i].column_type;
            columns.push(ColumnSummary { name, column_type });
            i = i + 1;
        }
        proof {
            assert(col_views(columns@) =~= col_views(self.columns@));
        }
        TableSummary { row_count: self.row_count, columns }
    }
}

/// Column images of a sequence of column summaries.
pub open spec fn col_views(s: Seq<ColumnSummary>) -> Seq<ColumnView> {
    s.map_values(|c: ColumnSummary| c@)
}

/// Everything one decode of the blob yields.
#[derive(Debug)]
pub struct DecodedMetadata {
    pub iox_metadata: IoxMetadata,
    /// File size recorded inside the blob at write time; the chunk factory
    /// holds the catalog record to it.
    pub file_size_bytes: u64,
    pub table_summary: TableSummary,
}

/// Mathematical image of a [`DecodedMetadata`].
pub struct MetadataView {
    pub iox_metadata: IoxMetadata,
    pub file_size_bytes: u64,
    pub table_summary: TableSummaryView,
}

impl View for DecodedMetadata {
    type V = MetadataView;

    open spec fn view(&self) -> MetadataView {
        MetadataView {
            iox_metadata: self.iox_metadata,
            file_size_bytes: self.file_size_bytes,
            table_summary: self.table_summary@,
        }
    }
}

/// Length of the fixed part of the blob, up to the column entries.
pub const METADATA_HEADER_LEN: usize = 94;

/// The `n`-byte little-endian field at `off`.
pub open spec fn le_field(b: Seq<u8>, off: int, n: int) -> int {
    le_value(b.subrange(off, off + n))
}

/// Parse `count` column entries starting at `off`; the entries must end
/// exactly at the end of the buffer. Each entry is a one-byte name length,
/// the name bytes, and a one-byte type tag.
pub open spec fn parse_columns(b: Seq<u8>, off: int, count: int) -> Option<Seq<ColumnView>>
    decreases count,
{
    if count <= 0 {
        if off == b.len() {
            Some(Seq::empty())
        } else {
            None
        }
    } else if off + 1 > b.len() {
        None
    } else {
        let name_len = b[off] as int;
        if off + 2 + name_len > b.len() {
            None
        } else {
            let head = ColumnView { name: b.subrange(off + 1, off + 1 + name_len), column_type: b[off + 1 + name_len] };
            match parse_columns(b, off + 2 + name_len, count - 1) {
                None => None,
                Some(rest) => Some(seq![head] + rest),
            }
        }
    }
}

/// Parse a whole metadata blob: magic, fixed identity and summary fields,
/// then the column entries. `None` on any malformation.
pub open spec fn parse_metadata(b: Seq<u8>) -> Option<MetadataView> {
    if b.len() < METADATA_HEADER_LEN {
        None
    } else if !(b[0] == 0x49u8 && b[1] == 0x4fu8 && b[2] == 0x58u8 && b[3] == 0x4du8) {
        None
    } else {
        match parse_columns(b, METADATA_HEADER_LEN as int, le_field(b, 92, 2)) {
            None => None,
            Some(cols) => Some(
                MetadataView {
                    iox_metadata: IoxMetadata {
                        namespace_id: le_field(b, 4, 8) as u64,
                        table_id: le_field(b, 12, 8) as u64,
                        sequencer_id: le_field(b, 20, 8) as u64,
                        partition_id: le_field(b, 28, 8) as u64,
                        object_store_id: le_field(b, 36, 16) as u128,
                        time_of_first_write: le_field(b, 52, 8) as u64,
                        time_of_last_write: le_field(b, 60, 8) as u64,
                        min_sequence_number: le_field(b, 68, 8) as u64,
                    },
                    file_size_bytes: le_field(b, 76, 8) as u64,
                    table_summary: TableSummaryView {
                        row_count: le_field(b, 84, 8) as u64,
                        columns: cols,
                    },
                },
            ),
        }
    }
}

/// The parsed image of a well-formed blob.
pub open spec fn parsed_meta(b: Seq<u8>) -> MetadataView {
    parse_metadata(b).unwrap()
}

/// Byte-for-byte copy of a buffer.
pub fn clone_bytes(v: &Vec<u8>) -> (r: Vec<u8>)
    ensures
        r@ == v@,
{
    let mut r: Vec<u8> = Vec::new();
    let n: usize = v.len();
    let mut i: usize = 0;
    while i < n
        invariant
            n == v@.len(),
            i <= n,
            r@ == v@.subrange(0, i as int),
        decreases n - i,
    {
        r.push(v[i]);
        i = i + 1;
        proof {
            assert(r@ =~= v@.subrange(0, i as int));
        }
    }
    proof {
        assert(r@ =~= v@);
    }
    r
}

fn parse_columns_exec(bytes: &Vec<u8>, off: usize, count: usize) -> (r: Option<
    Vec<ColumnSummary>,
>)
    requires
        off <= bytes@.len(),
    ensures
        match r {
            Some(cols) => parse_columns(bytes@, off as int, count as int) == Some(
                col_views(cols@),
            ),
            None => parse_columns(bytes@, off as int, count as int) is None,
        },
    decreases count,
{
    let len: usize = bytes.len();
    if count == 0 {
        if off == len {
            let cols: Vec<ColumnSummary> = Vec::new();
            proof {
                assert(col_views(cols@) =~= Seq::<ColumnView>::empty());
            }
            Some(cols)
        } else {
            None
        }
    } else if off >= len {
        None
    } else {
        let name_len: usize = bytes[off] as usize;
        if len - off < 2 + name_len {
            return None;
        }
        let mut name: Vec<u8> = Vec::new();
        let mut i: usize = 0;
        while i < name_len
            invariant
                len == bytes@.len(),
                off + 2 + name_len <= len,
                i <= name_len,
                name@ == bytes@.subrange(off + 1, off + 1 + i),
            decreases name_len - i,
        {
            name.push(bytes[off + 1 + i]);
            i = i + 1;
            proof {
                assert(name@ =~= bytes@.subrange(off + 1, off + 1 + i));
            }
        }
        let column_type = bytes[off + 1 + name_len];
        match parse_columns_exec(bytes, off + 2 + name_len, count - 1) {
            None => None,
            Some(rest) => {
                let mut cols = rest;
                cols.insert(0, ColumnSummary { name, column_type });
                proof {
                    let ghost head = ColumnView {
                        name: bytes@.subrange(off + 1, off + 1 + name_len),
                        column_type: bytes@[off + 1 + name_len],
                    };
                    let ghost tail = parse_columns(
                        bytes@,
                        off + 2 + name_len,
                        count - 1,
                    ).unwrap();
                    assert(col_views(cols@) =~= seq![head] + tail);
                }
                Some(cols)
            },
        }
    }
}

/// Decode a raw metadata blob. Fail-fast: a malformed blob yields
/// [`Error::CorruptMetadata`] and no partially decoded value.
pub fn decode_metadata(bytes: &Vec<u8>) -> (r: Result<DecodedMetadata, Error>)
    ensures
        match r {
            Ok(d) => parse_metadata(bytes@) == Some(d@),
            Err(e) => parse_metadata(bytes@) is None && e == Error::CorruptMetadata,
        },
{
    let len: usize = bytes.len();
    if len < METADATA_HEADER_LEN {
        return Err(Error::CorruptMetadata);
    }
    if !(bytes[0] == 0x49 && bytes[1] == 0x4f && bytes[2] == 0x58 && bytes[3] == 0x4d) {
        return Err(Error::CorruptMetadata);
    }
    proof {
        lemma_pow256_values();
        lemma_le_value_bound(bytes@.subrange(4, 12));
        lemma_le_value_bound(bytes@.subrange(12, 20));
        lemma_le_value_bound(bytes@.subrange(20, 28));
        lemma_le_value_bound(bytes@.subrange(28, 36));
        lemma_le_value_bound(bytes@.subrange(52, 60));
        lemma_le_value_bound(bytes@.subrange(60, 68));
        lemma_le_value_bound(bytes@.subrange(68, 76));
        lemma_le_value_bound(bytes@.subrange(76, 84));
        lemma_le_value_bound(bytes@.subrange(84, 92));
        lemma_le_value_bound(bytes@.subrange(92, 94));
    }
    let namespace_id = read_uint_le(bytes, 4, 8) as u64;
    let table_id = read_uint_le(bytes, 12, 8) as u64;
    let sequencer_id = read_uint_le(bytes, 20, 8) as u64;
    let partition_id = read_uint_le(bytes, 28, 8) as u64;
    let object_store_id = read_uint_le(bytes, 36, 16);
    let time_of_first_write = read_uint_le(bytes, 52, 8) as u64;
    let time_of_last_write = read_uint_le(bytes, 60, 8) as u64;
    let min_sequence_number = read_uint_le(bytes, 68, 8) as u64;
    let file_size_bytes = read_uint_le(bytes, 76, 8) as u64;
    let row_count = read_uint_le(bytes, 84, 8) as u64;
    let count = read_uint_le(bytes, 92, 2) as usize;
    match parse_columns_exec(bytes, METADATA_HEADER_LEN, count) {
        None => Err(Error::CorruptMetadata),
        Some(columns) => Ok(
            DecodedMetadata {
                iox_metadata: IoxMetadata {
                    namespace_id,
                    table_id,
                    sequencer_id,
                    partition_id,
                    object_store_id,
                    time_of_first_write,
                    time_of_last_write,
                    min_sequence_number,
                },
                file_size_bytes,
                table_summary: TableSummary { row_count, columns },
            },
        ),
    }
}

/// Catalog record together with its metadata, decoded exactly once. The raw
/// blob is held behind a reference-counted handle so that every downstream
/// consumer shares the same bytes.
#[derive(Debug)]
pub struct DecodedParquetFile {
    pub parquet_file: ParquetFile,
    pub parquet_metadata: Arc<Vec<u8>>,
    pub decoded_metadata: DecodedMetadata,
    pub iox_metadata: IoxMetadata,
}

impl DecodedParquetFile {
    /// Decode the record's blob. Construction is all-or-nothing: a corrupt
    /// blob yields an error and no partially decoded value.
    pub fn new(parquet_file: ParquetFile) -> (r: Result<DecodedParquetFile, Error>)
        ensures
            match r {
                Ok(d) => {
                    &&& parse_metadata(parquet_file@.parquet_metadata) is Some
                    &&& d.parquet_file@ == parquet_file@
                    &&& d.parquet_metadata@ == parquet_file@.parquet_metadata
                    &&& d.decoded_metadata@ == parsed_meta(parquet_file@.parquet_metadata)
                    &&& d.iox_metadata == parsed_meta(
                        parquet_file@.parquet_metadata,
                    ).iox_metadata
                },
                Err(e) => {
                    &&& parse_metadata(parquet_file@.parquet_metadata) is None
                    &&& e == Error::CorruptMetadata
                },
            },
    {
        match decode_metadata(&parquet_file.parquet_metadata) {
            Err(e) => Err(e),
            Ok(decoded_metadata) => {
                let iox_metadata = decoded_metadata.iox_metadata;
                let parquet_metadata = Arc::new(clone_bytes(&parquet_file.parquet_metadata));
                Ok(
                    DecodedParquetFile {
                        parquet_file,
                        parquet_metadata,
                        decoded_metadata,
                        iox_metadata,
                    },
                )
            },
        }
    }
}

} // verus!
