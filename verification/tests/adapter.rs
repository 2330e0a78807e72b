//! End-to-end tests of the catalog chunk adapter.

use querier::address::ChunkOrder;
use querier::cache::CatalogCache;
use querier::chunk::{ParquetChunkAdapter, Registry, TimeProvider};
use querier::error::Error;
use querier::record::ParquetFile;

/// Build a well-formed metadata blob for the given identity and summary.
fn make_blob(
    namespace_id: u64,
    table_id: u64,
    sequencer_id: u64,
    partition_id: u64,
    object_store_id: u128,
    time_of_first_write: u64,
    time_of_last_write: u64,
    min_sequence_number: u64,
    file_size_bytes: u64,
    row_count: u64,
    columns: &[(&[u8], u8)],
) -> Vec<u8> {
    let mut b: Vec<u8> = vec![0x49, 0x4f, 0x58, 0x4d];
    for v in [
        namespace_id,
        table_id,
        sequencer_id,
        partition_id,
    ] {
        b.extend_from_slice(&v.to_le_bytes());
    }
    b.extend_from_slice(&object_store_id.to_le_bytes());
    for v in [
        time_of_first_write,
        time_of_last_write,
        min_sequence_number,
        file_size_bytes,
        row_count,
    ] {
        b.extend_from_slice(&v.to_le_bytes());
    }
    b.extend_from_slice(&(columns.len() as u16).to_le_bytes());
    for (name, ty) in columns {
        b.push(name.len() as u8);
        b.extend_from_slice(name);
        b.push(*ty);
    }
    b
}

/// The cache state every happy-path test uses: namespace 3 is "ns", table 2
/// is "table" in namespace 3, partition 4 was written by sequencer 1 and is
/// named "part".
fn test_cache() -> CatalogCache {
    let mut cache = CatalogCache::new();
    cache.insert_namespace(3, String::from("ns"));
    cache.insert_table(2, String::from("table"), 3);
    cache.insert_partition(4, 1, String::from("part"));
    cache
}

fn test_record() -> ParquetFile {
    let blob = make_blob(3, 2, 1, 4, 1, 8000, 20000, 0, 1337, 3, &[
        (b"field_int", 1),
        (b"tag1", 2),
        (b"time", 3),
    ]);
    ParquetFile {
        id: 1,
        table_id: 2,
        partition_id: 4,
        min_sequence_number: 0,
        file_size_bytes: 1337,
        parquet_metadata: blob,
    }
}

fn test_adapter() -> ParquetChunkAdapter {
    ParquetChunkAdapter::new(test_cache(), Registry {}, TimeProvider {})
}

#[test]
fn test_create_record() {
    let adapter = test_adapter();
    let catalog_chunk = adapter.new_catalog_chunk(test_record()).unwrap();
    assert_eq!(
        catalog_chunk.addr().to_text(),
        "Chunk('ns':'table':'1-part':00000000-0000-0000-0000-000000000001)",
    );
}

#[test]
fn end_to_end_address_and_order() {
    let adapter = test_adapter();
    let chunk = adapter.new_catalog_chunk(test_record()).unwrap();
    assert_eq!(chunk.addr.db_name, "ns");
    assert_eq!(chunk.addr.table_name, "table");
    assert_eq!(chunk.addr.partition_key, "1-part");
    assert_eq!(chunk.addr.chunk_id, 1u128);
    assert_eq!(chunk.order.order, 1);
    assert_eq!(chunk.metadata.time_of_first_write, 8000);
    assert_eq!(chunk.metadata.time_of_last_write, 20000);
    assert!(chunk.metadata.delete_predicates.is_empty());
    assert!(chunk.metadata.sort_key.is_none());
    assert_eq!(chunk.metadata.table_summary.row_count, 3);
    assert_eq!(
        chunk.chunk.path,
        "3/2/1/4/00000000-0000-0000-0000-000000000001.parquet"
    );
    assert_eq!(chunk.chunk.file_size_bytes, 1337);
}

#[test]
fn address_derivation_is_deterministic() {
    let adapter = test_adapter();
    let record = test_record();
    let a1 = adapter.old_gen_chunk_addr(&record).unwrap();
    let a2 = adapter.old_gen_chunk_addr(&record).unwrap();
    assert_eq!(a1.db_name, a2.db_name);
    assert_eq!(a1.table_name, a2.table_name);
    assert_eq!(a1.partition_key, a2.partition_key);
    assert_eq!(a1.chunk_id, a2.chunk_id);
    assert_eq!(a1.to_text(), a2.to_text());
}

#[test]
fn distinct_file_ids_give_distinct_chunk_identifiers() {
    let adapter = test_adapter();
    let mut r1 = test_record();
    let mut r2 = test_record();
    r1.id = 7;
    r2.id = u64::MAX;
    let a1 = adapter.old_gen_chunk_addr(&r1).unwrap();
    let a2 = adapter.old_gen_chunk_addr(&r2).unwrap();
    assert_ne!(a1.chunk_id, a2.chunk_id);
    assert_eq!(a1.chunk_id, 7u128);
    assert_eq!(a2.chunk_id, u64::MAX as u128);
}

#[test]
fn chunk_order_is_strictly_positive() {
    let o = querier::address::chunk_order_from_min_sequence(0).unwrap();
    assert_eq!(o.order, 1);
    let o = querier::address::chunk_order_from_min_sequence(41).unwrap();
    assert_eq!(o.order, 42);
    assert!(ChunkOrder::new(0).is_none());
    assert_eq!(ChunkOrder::new(9).unwrap().order, 9);
}

#[test]
fn order_that_would_wrap_to_zero_fails() {
    let r = querier::address::chunk_order_from_min_sequence(0xFFFF_FFFF);
    assert!(matches!(r, Err(Error::OrderOverflow)));

    let adapter = test_adapter();
    let mut record = test_record();
    record.parquet_metadata = make_blob(3, 2, 1, 4, 1, 8000, 20000, 0xFFFF_FFFF, 1337, 3, &[]);
    let r = adapter.new_catalog_chunk(record);
    assert!(matches!(r, Err(Error::OrderOverflow)));
}

#[test]
fn building_twice_yields_equal_chunks() {
    let adapter = test_adapter();
    let c1 = adapter.new_catalog_chunk(test_record()).unwrap();
    let c2 = adapter.new_catalog_chunk(test_record()).unwrap();
    assert_eq!(c1.addr.to_text(), c2.addr.to_text());
    assert_eq!(c1.order, c2.order);
    assert_eq!(
        c1.metadata.table_summary.row_count,
        c2.metadata.table_summary.row_count
    );
    assert_eq!(
        c1.metadata.table_summary.columns.len(),
        c2.metadata.table_summary.columns.len()
    );
    for (a, b) in c1
        .metadata
        .table_summary
        .columns
        .iter()
        .zip(c2.metadata.table_summary.columns.iter())
    {
        assert_eq!(a.name, b.name);
        assert_eq!(a.column_type, b.column_type);
    }
    assert_eq!(c1.chunk.path, c2.chunk.path);
}

#[test]
fn corrupt_metadata_aborts_construction() {
    let adapter = test_adapter();

    let mut record = test_record();
    record.parquet_metadata = vec![0x49, 0x4f, 0x58, 0x4d, 0, 1, 2];
    assert!(matches!(
        adapter.new_catalog_chunk(record),
        Err(Error::CorruptMetadata)
    ));

    let mut record = test_record();
    record.parquet_metadata = vec![0xde, 0xad, 0xbe, 0xef];
    assert!(matches!(
        adapter.new_catalog_chunk(record),
        Err(Error::CorruptMetadata)
    ));

    let mut record = test_record();
    record.parquet_metadata.push(0);
    assert!(matches!(
        adapter.new_catalog_chunk(record),
        Err(Error::CorruptMetadata)
    ));

    let mut record = test_record();
    record.parquet_metadata.clear();
    assert!(matches!(
        adapter.new_catalog_chunk(record),
        Err(Error::CorruptMetadata)
    ));
}

#[test]
fn unknown_table_id_aborts_with_unresolved_identifier() {
    let mut cache = CatalogCache::new();
    cache.insert_namespace(3, String::from("ns"));
    cache.insert_partition(4, 1, String::from("part"));
    let adapter = ParquetChunkAdapter::new(cache, Registry {}, TimeProvider {});
    let r = adapter.new_catalog_chunk(test_record());
    assert!(matches!(r, Err(Error::UnresolvedIdentifier)));
}

#[test]
fn unknown_namespace_or_partition_aborts_with_unresolved_identifier() {
    let mut cache = CatalogCache::new();
    cache.insert_table(2, String::from("table"), 3);
    cache.insert_partition(4, 1, String::from("part"));
    let adapter = ParquetChunkAdapter::new(cache, Registry {}, TimeProvider {});
    assert!(matches!(
        adapter.new_catalog_chunk(test_record()),
        Err(Error::UnresolvedIdentifier)
    ));

    let mut cache = CatalogCache::new();
    cache.insert_namespace(3, String::from("ns"));
    cache.insert_table(2, String::from("table"), 3);
    let adapter = ParquetChunkAdapter::new(cache, Registry {}, TimeProvider {});
    assert!(matches!(
        adapter.new_catalog_chunk(test_record()),
        Err(Error::UnresolvedIdentifier)
    ));
}

#[test]
fn file_size_mismatch_aborts_chunk_construction() {
    let adapter = test_adapter();
    let mut record = test_record();
    record.file_size_bytes = 1338;
    let r = adapter.new_catalog_chunk(record);
    assert!(matches!(r, Err(Error::UnderlyingChunkConstructionFailure)));
}

#[test]
fn corrupt_metadata_takes_precedence_over_later_failures() {
    // An empty cache would also fail resolution, but decoding fails first.
    let adapter = ParquetChunkAdapter::new(CatalogCache::new(), Registry {}, TimeProvider {});
    let mut record = test_record();
    record.parquet_metadata = vec![0, 1, 2];
    assert!(matches!(
        adapter.new_catalog_chunk(record),
        Err(Error::CorruptMetadata)
    ));
}

#[test]
fn unresolved_identifier_aborts_before_the_chunk_factory() {
    // The record's size also disagrees with the metadata, but resolution
    // fails first: no factory step is reached.
    let adapter = ParquetChunkAdapter::new(CatalogCache::new(), Registry {}, TimeProvider {});
    let mut record = test_record();
    record.file_size_bytes = 9999;
    assert!(matches!(
        adapter.new_catalog_chunk(record),
        Err(Error::UnresolvedIdentifier)
    ));
}

#[test]
fn decoded_blob_is_shared_not_copied() {
    let adapter = test_adapter();
    let decoded = querier::metadata::DecodedParquetFile::new(test_record()).unwrap();
    let chunk = adapter
        .new_parquet_chunk(
            &decoded,
            String::from("table"),
            String::from("1-part"),
        )
        .unwrap();
    assert!(std::sync::Arc::ptr_eq(
        &decoded.parquet_metadata,
        &chunk.parquet_metadata
    ));
    assert_eq!(chunk.table_name, "table");
    assert_eq!(chunk.partition_key, "1-part");
    assert_eq!(chunk.table_summary.row_count, 3);
}
