//! The catalog chunk adapter: record in, queryable chunk out.

use crate::address::{
    chunk_id_of, chunk_order_from_min_sequence, derived_order, ChunkAddr, ChunkAddrView,
    ChunkOrder,
};
use crate::cache::{partition_key_chars, CacheView, CatalogCache};
use crate::error::Error;
use crate::metadata::{
    parse_metadata, parsed_meta, DecodedParquetFile, TableSummary, TableSummaryView,
};
use crate::record::{ParquetFile, ParquetFileView};
use crate::text::{dec_chars, u64_to_dec, uuid_chars, uuid_text};
use std::sync::Arc;
use vstd::prelude::*;
use vstd::string::StringExecFns;

verus! {

/// Opaque metric-registry handle; carried through unchanged, never read.
#[derive(Clone, Copy, Debug, PartialEq, Eq, Structural)]
pub struct Registry {}

/// Opaque time-source handle; carried through unchanged, never read.
#[derive(Clone, Copy, Debug, PartialEq, Eq, Structural)]
pub struct TimeProvider {}

/// Opaque per-chunk metrics handle.
#[derive(Clone, Copy, Debug, PartialEq, Eq, Structural)]
pub struct ChunkMetrics {}

impl ChunkMetrics {
    /// Metrics tied to a registry.
    pub fn new(registry: &Registry) -> ChunkMetrics {
        ChunkMetrics {}
    }

    /// Metrics registered nowhere.
    pub fn new_unregistered() -> ChunkMetrics {
        ChunkMetrics {}
    }
}

/// A delete predicate. None is ever attached here: the set is populated by
/// a dedicated external synchronization process.
#[derive(Clone, Debug)]
pub struct DeletePredicate {
    pub expr: Vec<u8>,
}

/// The storage path of a file, derived from its five embedded identifiers
/// alone, so that any holder of the same identifiers recomputes the same
/// location.
pub open spec fn parquet_file_path_chars(
    namespace_id: u64,
    table_id: u64,
    sequencer_id: u64,
    partition_id: u64,
    object_store_id: u128,
) -> Seq<char> {
    dec_chars(namespace_id as nat) + seq!['/'] + dec_chars(table_id as nat) + seq!['/']
        + dec_chars(sequencer_id as nat) + seq!['/'] + dec_chars(partition_id as nat) + seq!['/']
        + uuid_chars(object_store_id as int) + ".parquet"@
}

/// Render the storage path of a file from its embedded identifiers.
pub fn parquet_file_path(
    namespace_id: u64,
    table_id: u64,
    sequencer_id: u64,
    partition_id: u64,
    object_store_id: u128,
) -> (r: String)
    ensures
        r@ == parquet_file_path_chars(
            namespace_id,
            table_id,
            sequencer_id,
            partition_id,
            object_store_id,
        ),
{
    proof {
        reveal_strlit("/");
    }
    let mut s = u64_to_dec(namespace_id);
    s.append("/");
    let t = u64_to_dec(table_id);
    s.append(t.as_str());
    s.append("/");
    let q = u64_to_dec(sequencer_id);
    s.append(q.as_str());
    s.append("/");
    let p = u64_to_dec(partition_id);
    s.append(p.as_str());
    s.append("/");
    let u = uuid_text(object_store_id);
    s.append(u.as_str());
    s.append(".parquet");
    proof {
        assert(s@ =~= parquet_file_path_chars(
            namespace_id,
            table_id,
            sequencer_id,
            partition_id,
            object_store_id,
        ));
    }
    s
}

/// Read-only, shareable representation of the file's data: the storage
/// path, the byte size, the shared raw metadata, and the decoded summary.
#[derive(Debug)]
pub struct ParquetChunk {
    pub path: String,
    pub file_size_bytes: u64,
    pub parquet_metadata: Arc<Vec<u8>>,
    pub table_summary: TableSummary,
    pub table_name: String,
    pub partition_key: String,
    pub metrics: ChunkMetrics,
}

/// Mathematical image of a [`ParquetChunk`].
pub struct ParquetChunkView {
    pub path: Seq<char>,
    pub file_size_bytes: u64,
    pub parquet_metadata: Seq<u8>,
    pub table_summary: TableSummaryView,
    pub table_name: Seq<char>,
    pub partition_key: Seq<char>,
}

impl View for ParquetChunk {
    type V = ParquetChunkView;

    open spec fn view(&self) -> ParquetChunkView {
        ParquetChunkView {
            path: self.path@,
            file_size_bytes: self.file_size_bytes,
            parquet_metadata: self.parquet_metadata@,
            table_summary: self.table_summary@,
            table_name: self.table_name@,
            partition_key: self.partition_key@,
        }
    }
}

/// Summary metadata the catalog-facing chunk carries beside the data.
#[derive(Debug)]
pub struct ChunkMetadata {
    pub table_summary: TableSummary,
    pub delete_predicates: Vec<DeletePredicate>,
    pub time_of_first_write: u64,
    pub time_of_last_write: u64,
    pub sort_key: Option<String>,
}

/// The assembled catalog-facing chunk: address, order, metadata, and a
/// shared handle to the scan-able chunk. Owned by the caller; the adapter
/// retains nothing.
#[derive(Debug)]
pub struct CatalogChunk {
    pub addr: ChunkAddr,
    pub order: ChunkOrder,
    pub metadata: ChunkMetadata,
    pub chunk: Arc<ParquetChunk>,
    pub metrics: ChunkMetrics,
    pub time_provider: TimeProvider,
}

impl CatalogChunk {
    /// The chunk's composite address.
    pub fn addr(&self) -> (r: &ChunkAddr)
        ensures
            r == &self.addr,
    {
        &self.addr
    }
}

/// Whether every surrogate key the address needs resolves in the cache.
pub open spec fn address_resolvable(cache: CacheView, pf: ParquetFileView) -> bool {
    &&& cache.tables.contains_key(pf.table_id)
    &&& cache.namespaces.contains_key(cache.tables[pf.table_id].namespace_id)
    &&& cache.partitions.contains_key(pf.partition_id)
}

/// The address an adapter with the given cache state derives for a record:
/// resolved namespace and table names, the composite partition key, and the
/// file id widened into the chunk-identifier space.
pub open spec fn addr_spec(cache: CacheView, pf: ParquetFileView) -> ChunkAddrView {
    ChunkAddrView {
        db_name: cache.namespaces[cache.tables[pf.table_id].namespace_id],
        table_name: cache.tables[pf.table_id].name,
        partition_key: partition_key_chars(
            cache.partitions[pf.partition_id].sequencer_id,
            cache.partitions[pf.partition_id].name,
        ),
        chunk_id: chunk_id_of(pf.id),
    }
}

/// The derived address is a function of the resolved namespace name, table
/// name, sequencer id, partition name, and file id alone: whenever two
/// cache states resolve two records to the same five values, the addresses
/// are equal. In particular, deriving twice in one cache state yields
/// identical addresses.
pub proof fn lemma_address_determined_by_names(
    c1: CacheView,
    f1: ParquetFileView,
    c2: CacheView,
    f2: ParquetFileView,
)
    requires
        address_resolvable(c1, f1),
        address_resolvable(c2, f2),
        c1.namespaces[c1.tables[f1.table_id].namespace_id] == c2.namespaces[c2.tables[f2.table_id].namespace_id],
        c1.tables[f1.table_id].name == c2.tables[f2.table_id].name,
        c1.partitions[f1.partition_id].sequencer_id == c2.partitions[f2.partition_id].sequencer_id,
        c1.partitions[f1.partition_id].name == c2.partitions[f2.partition_id].name,
        f1.id == f2.id,
    ensures
        addr_spec(c1, f1) == addr_spec(c2, f2),
{
}

/// What the assembled chunk must look like for a given cache state and
/// record, on the path where construction succeeds.
pub open spec fn chunk_conforms(cache: CacheView, pf: ParquetFileView, c: CatalogChunk) -> bool {
    let m = parsed_meta(pf.parquet_metadata);
    &&& c.addr@ == addr_spec(cache, pf)
    &&& derived_order(m.iox_metadata.min_sequence_number) == Some(c.order.order)
    &&& c.order.wf()
    &&& c.metadata.table_summary@ == m.table_summary
    &&& c.metadata.delete_predicates@.len() == 0
    &&& c.metadata.time_of_first_write == m.iox_metadata.time_of_first_write
    &&& c.metadata.time_of_last_write == m.iox_metadata.time_of_last_write
    &&& c.metadata.sort_key is None
    &&& c.chunk@.path == parquet_file_path_chars(
        m.iox_metadata.namespace_id,
        m.iox_metadata.table_id,
        m.iox_metadata.sequencer_id,
        m.iox_metadata.partition_id,
        m.iox_metadata.object_store_id,
    )
    &&& c.chunk@.file_size_bytes == pf.file_size_bytes
    &&& c.chunk@.parquet_metadata == pf.parquet_metadata
    &&& c.chunk@.table_summary == m.table_summary
    &&& c.chunk@.table_name == addr_spec(cache, pf).table_name
    &&& c.chunk@.partition_key == addr_spec(cache, pf).partition_key
}

/// Building twice from the same record in the same cache state is
/// idempotent: any two chunks the contract admits agree on address, order,
/// schema and statistics.
pub proof fn lemma_build_idempotent(
    cache: CacheView,
    pf: ParquetFileView,
    c1: CatalogChunk,
    c2: CatalogChunk,
)
    requires
        chunk_conforms(cache, pf, c1),
        chunk_conforms(cache, pf, c2),
    ensures
        c1.addr@ == c2.addr@,
        c1.order == c2.order,
        c1.metadata.table_summary@ == c2.metadata.table_summary@,
        c1.chunk@.table_summary == c2.chunk@.table_summary,
        c1.chunk@.path == c2.chunk@.path,
{
}

/// Relies on `Arc::clone`: returns a new handle to the same allocation,
/// equal to the one handed in.
#[verifier::external_body]
fn arc_clone_bytes(v: &Arc<Vec<u8>>) -> (r: Arc<Vec<u8>>)
    ensures
        r == *v,
{
    Arc::clone(v)
}

/// Adapter that builds catalog-facing chunks from catalog file records.
#[derive(Debug)]
pub struct ParquetChunkAdapter {
    /// Identifier-resolution cache.
    pub catalog_cache: CatalogCache,
    /// Metric registry handle.
    pub metric_registry: Registry,
    /// Time source handle.
    pub time_provider: TimeProvider,
}

impl ParquetChunkAdapter {
    /// Create a new adapter around a cache and the injected handles.
    pub fn new(catalog_cache: CatalogCache, metric_registry: Registry, time_provider: TimeProvider) -> (r:
        ParquetChunkAdapter)
        ensures
            r.catalog_cache@ == catalog_cache@,
            r.metric_registry == metric_registry,
            r.time_provider == time_provider,
    {
        ParquetChunkAdapter { catalog_cache, metric_registry, time_provider }
    }

    /// Derive the old-style composite chunk address for a record. A pure
    /// function of the record and the cache state; fails if and only if
    /// some surrogate key does not resolve.
    pub fn old_gen_chunk_addr(&self, parquet_file: &ParquetFile) -> (r: Result<ChunkAddr, Error>)
        ensures
            match r {
                Ok(a) => address_resolvable(self.catalog_cache@, parquet_file@) && a@
                    == addr_spec(self.catalog_cache@, parquet_file@),
                Err(e) => !address_resolvable(self.catalog_cache@, parquet_file@) && e
                    == Error::UnresolvedIdentifier,
            },
    {
        let namespace_id = match self.catalog_cache.table_namespace_id(parquet_file.table_id) {
            Ok(ns) => ns,
            Err(e) => {
                return Err(e);
            },
        };
        let db_name = match self.catalog_cache.namespace_name(namespace_id) {
            Ok(n) => n,
            Err(e) => {
                return Err(e);
            },
        };
        let table_name = match self.catalog_cache.table_name(parquet_file.table_id) {
            Ok(n) => n,
            Err(e) => {
                return Err(e);
            },
        };
        let partition_key = match self.catalog_cache.old_gen_partition_key(
            parquet_file.partition_id,
        ) {
            Ok(k) => k,
            Err(e) => {
                return Err(e);
            },
        };
        Ok(ChunkAddr { db_name, table_name, partition_key, chunk_id: parquet_file.id as u128 })
    }

    /// Build the scan-able chunk from decoded metadata and the resolved
    /// names. Fails if and only if the record's file size disagrees with
    /// the size the metadata recorded at write time.
    pub fn new_parquet_chunk(
        &self,
        decoded_parquet_file: &DecodedParquetFile,
        table_name: String,
        partition_key: String,
    ) -> (r: Result<ParquetChunk, Error>)
        ensures
            match r {
                Ok(c) => {
                    &&& decoded_parquet_file.parquet_file.file_size_bytes
                        == decoded_parquet_file.decoded_metadata.file_size_bytes
                    &&& c@.path == parquet_file_path_chars(
                        decoded_parquet_file.iox_metadata.namespace_id,
                        decoded_parquet_file.iox_metadata.table_id,
                        decoded_parquet_file.iox_metadata.sequencer_id,
                        decoded_parquet_file.iox_metadata.partition_id,
                        decoded_parquet_file.iox_metadata.object_store_id,
                    )
                    &&& c@.file_size_bytes == decoded_parquet_file.parquet_file.file_size_bytes
                    &&& c@.parquet_metadata == decoded_parquet_file.parquet_metadata@
                    &&& c@.table_summary == decoded_parquet_file.decoded_metadata@.table_summary
                    &&& c@.table_name == table_name@
                    &&& c@.partition_key == partition_key@
                },
                Err(e) => {
                    &&& decoded_parquet_file.parquet_file.file_size_bytes
                        != decoded_parquet_file.decoded_metadata.file_size_bytes
                    &&& e == Error::UnderlyingChunkConstructionFailure
                },
            },
    {
        let iox = &decoded_parquet_file.iox_metadata;
        let path = parquet_file_path(
            iox.namespace_id,
            iox.table_id,
            iox.sequencer_id,
            iox.partition_id,
            iox.object_store_id,
        );
        let file_size_bytes = decoded_parquet_file.parquet_file.file_size_bytes;
        if file_size_bytes != decoded_parquet_file.decoded_metadata.file_size_bytes {
            return Err(Error::UnderlyingChunkConstructionFailure);
        }
        let metrics = ChunkMetrics::new(&self.metric_registry);
        Ok(
            ParquetChunk {
                path,
                file_size_bytes,
                parquet_metadata: arc_clone_bytes(&decoded_parquet_file.parquet_metadata),
                table_summary: decoded_parquet_file.decoded_metadata.table_summary.clone_summary(),
                table_name,
                partition_key,
                metrics,
            },
        )
    }

    /// Build a catalog chunk from a catalog file record: decode the
    /// metadata once, resolve every identifier, build the scan-able chunk,
    /// derive the ordering value, and assemble. All-or-nothing: each
    /// failure aborts the whole construction, in this order of precedence:
    /// corrupt metadata, then an unresolved identifier, then a file-size
    /// mismatch, then an ordering overflow.
    pub fn new_catalog_chunk(&self, parquet_file: ParquetFile) -> (r: Result<CatalogChunk, Error>)
        ensures
            parse_metadata(parquet_file@.parquet_metadata) is None ==> (r matches Err(e) && e
                == Error::CorruptMetadata),
            parse_metadata(parquet_file@.parquet_metadata) is Some && !address_resolvable(
                self.catalog_cache@,
                parquet_file@,
            ) ==> (r matches Err(e) && e == Error::UnresolvedIdentifier),
            parse_metadata(parquet_file@.parquet_metadata) is Some && address_resolvable(
                self.catalog_cache@,
                parquet_file@,
            ) && parquet_file@.file_size_bytes != parsed_meta(
                parquet_file@.parquet_metadata,
            ).file_size_bytes ==> (r matches Err(e) && e == Error::UnderlyingChunkConstructionFailure),
            parse_metadata(parquet_file@.parquet_metadata) is Some && address_resolvable(
                self.catalog_cache@,
                parquet_file@,
            ) && parquet_file@.file_size_bytes == parsed_meta(
                parquet_file@.parquet_metadata,
            ).file_size_bytes && derived_order(
                parsed_meta(parquet_file@.parquet_metadata).iox_metadata.min_sequence_number,
            ) is None ==> (r matches Err(e) && e == Error::OrderOverflow),
            parse_metadata(parquet_file@.parquet_metadata) is Some && address_resolvable(
                self.catalog_cache@,
                parquet_file@,
            ) && parquet_file@.file_size_bytes == parsed_meta(
                parquet_file@.parquet_metadata,
            ).file_size_bytes && derived_order(
                parsed_meta(parquet_file@.parquet_metadata).iox_metadata.min_sequence_number,
            ) is Some ==> (r matches Ok(c) && chunk_conforms(self.catalog_cache@, parquet_file@, c)
                && c.time_provider == self.time_provider),
    {
        let decoded_parquet_file = match DecodedParquetFile::new(parquet_file) {
            Ok(d) => d,
            Err(e) => {
                return Err(e);
            },
        };
        let addr = match self.old_gen_chunk_addr(&decoded_parquet_file.parquet_file) {
            Ok(a) => a,
            Err(e) => {
                return Err(e);
            },
        };
        let table_name = addr.table_name.clone();
        let partition_key = addr.partition_key.clone();
        let chunk = match self.new_parquet_chunk(&decoded_parquet_file, table_name, partition_key) {
            Ok(c) => c,
            Err(e) => {
                return Err(e);
            },
        };
        let metrics = ChunkMetrics::new_unregistered();
        let order = match chunk_order_from_min_sequence(
            decoded_parquet_file.iox_metadata.min_sequence_number,
        ) {
            Ok(o) => o,
            Err(e) => {
                return Err(e);
            },
        };
        let metadata = ChunkMetadata {
            table_summary: decoded_parquet_file.decoded_metadata.table_summary.clone_summary(),
            delete_predicates: Vec::new(),
            time_of_first_write: decoded_parquet_file.iox_metadata.time_of_first_write,
            time_of_last_write: decoded_parquet_file.iox_metadata.time_of_last_write,
            sort_key: None,
        };
        Ok(
            CatalogChunk {
                addr,
                order,
                metadata,
                chunk: Arc::new(chunk),
                metrics,
                time_provider: self.time_provider,
            },
        )
    }
}

} // verus!
