//! The identifier-resolution cache: memoized lookups from numeric surrogate
//! keys to names and old-style composite keys.

use crate::error::Error;
use crate::text::{dec_chars, u64_to_dec};
use std::collections::HashMap;
use vstd::prelude::*;
use vstd::string::StringExecFns;

verus! {

broadcast use vstd::std_specs::hash::group_hash_axioms;

/// Cached description of a table: its name and its owning namespace.
#[derive(Debug)]
pub struct CachedTable {
    pub name: String,
    pub namespace_id: u64,
}

/// Mathematical image of a [`CachedTable`].
pub struct CachedTableView {
    pub name: Seq<char>,
    pub namespace_id: u64,
}

impl View for CachedTable {
    type V = CachedTableView;

    open spec fn view(&self) -> CachedTableView {
        CachedTableView { name: self.name@, namespace_id: self.namespace_id }
    }
}

/// Cached description of a partition: the sequencer that wrote it and its
/// human-readable name.
#[derive(Debug)]
pub struct CachedPartition {
    pub sequencer_id: u64,
    pub name: String,
}

/// Mathematical image of a [`CachedPartition`].
pub struct CachedPartitionView {
    pub sequencer_id: u64,
    pub name: Seq<char>,
}

impl View for CachedPartition {
    type V = CachedPartitionView;

    open spec fn view(&self) -> CachedPartitionView {
        CachedPartitionView { sequencer_id: self.sequencer_id, name: self.name@ }
    }
}

/// Mathematical image of the cache: three partial maps keyed by surrogate id.
pub struct CacheView {
    pub tables: Map<u64, CachedTableView>,
    pub namespaces: Map<u64, Seq<char>>,
    pub partitions: Map<u64, CachedPartitionView>,
}

/// Identifier-resolution cache. Each lookup either returns the resolved
/// value or fails on an id the catalog does not know; lookups are idempotent
/// and never invent a default.
#[derive(Debug)]
pub struct CatalogCache {
    pub tables: HashMap<u64, CachedTable>,
    pub namespaces: HashMap<u64, String>,
    pub partitions: HashMap<u64, CachedPartition>,
}

impl View for CatalogCache {
    type V = CacheView;

    open spec fn view(&self) -> CacheView {
        CacheView {
            tables: self.tables@.map_values(|t: CachedTable| t@),
            namespaces: self.namespaces@.map_values(|n: String| n@),
            partitions: self.partitions@.map_values(|p: CachedPartition| p@),
        }
    }
}

/// The old-style composite partition key: the sequencer id in decimal, a
/// hyphen, then the partition name.
pub open spec fn partition_key_chars(sequencer_id: u64, name: Seq<char>) -> Seq<char> {
    dec_chars(sequencer_id as nat) + seq!['-'] + name
}

impl CatalogCache {
    /// An empty cache: no id resolves.
    pub fn new() -> (r: CatalogCache)
        ensures
            r@.tables == Map::<u64, CachedTableView>::empty(),
            r@.namespaces == Map::<u64, Seq<char>>::empty(),
            r@.partitions == Map::<u64, CachedPartitionView>::empty(),
    {
        let r = CatalogCache {
            tables: HashMap::new(),
            namespaces: HashMap::new(),
            partitions: HashMap::new(),
        };
        proof {
            assert(r@.tables =~= Map::<u64, CachedTableView>::empty());
            assert(r@.namespaces =~= Map::<u64, Seq<char>>::empty());
            assert(r@.partitions =~= Map::<u64, CachedPartitionView>::empty());
        }
        r
    }

    /// Record what the catalog knows of a table.
    pub fn insert_table(&mut self, table_id: u64, name: String, namespace_id: u64)
        ensures
            final(self)@.tables == old(self)@.tables.insert(
                table_id,
                CachedTableView { name: name@, namespace_id },
            ),
            final(self)@.namespaces == old(self)@.namespaces,
            final(self)@.partitions == old(self)@.partitions,
    {
        self.tables.insert(table_id, CachedTable { name, namespace_id });
        proof {
            assert(self@.tables =~= old(self)@.tables.insert(
                table_id,
                CachedTableView { name: name@, namespace_id },
            ));
        }
    }

    /// Record what the catalog knows of a namespace.
    pub fn insert_namespace(&mut self, namespace_id: u64, name: String)
        ensures
            final(self)@.namespaces == old(self)@.namespaces.insert(namespace_id, name@),
            final(self)@.tables == old(self)@.tables,
            final(self)@.partitions == old(self)@.partitions,
    {
        self.namespaces.insert(namespace_id, name);
        proof {
            assert(self@.namespaces =~= old(self)@.namespaces.insert(namespace_id, name@));
        }
    }

    /// Record what the catalog knows of a partition.
    pub fn insert_partition(&mut self, partition_id: u64, sequencer_id: u64, name: String)
        ensures
            final(self)@.partitions == old(self)@.partitions.insert(
                partition_id,
                CachedPartitionView { sequencer_id, name: name@ },
            ),
            final(self)@.tables == old(self)@.tables,
            final(self)@.namespaces == old(self)@.namespaces,
    {
        self.partitions.insert(partition_id, CachedPartition { sequencer_id, name });
        proof {
            assert(self@.partitions =~= old(self)@.partitions.insert(
                partition_id,
                CachedPartitionView { sequencer_id, name: name@ },
            ));
        }
    }

    /// Name of a table, or [`Error::UnresolvedIdentifier`] on an unknown id.
    pub fn table_name(&self, table_id: u64) -> (r: Result<String, Error>)
        ensures
            match r {
                Ok(name) => self@.tables.contains_key(table_id) && name@ == self@.tables[
                    table_id
                ].name,
                Err(e) => !self@.tables.contains_key(table_id) && e
                    == Error::UnresolvedIdentifier,
            },
    {
        match self.tables.get(&table_id) {
            Some(t) => Ok(t.name.clone()),
            None => Err(Error::UnresolvedIdentifier),
        }
    }

    /// Owning namespace id of a table, or [`Error::UnresolvedIdentifier`].
    pub fn table_namespace_id(&self, table_id: u64) -> (r: Result<u64, Error>)
        ensures
            match r {
                Ok(ns) => self@.tables.contains_key(table_id) && ns == self@.tables[
                    table_id
                ].namespace_id,
                Err(e) => !self@.tables.contains_key(table_id) && e
                    == Error::UnresolvedIdentifier,
            },
    {
        match self.tables.get(&table_id) {
            Some(t) => Ok(t.namespace_id),
            None => Err(Error::UnresolvedIdentifier),
        }
    }

    /// Name of a namespace, or [`Error::UnresolvedIdentifier`].
    pub fn namespace_name(&self, namespace_id: u64) -> (r: Result<String, Error>)
        ensures
            match r {
                Ok(name) => self@.namespaces.contains_key(namespace_id) && name@
                    == self@.namespaces[namespace_id],
                Err(e) => !self@.namespaces.contains_key(namespace_id) && e
                    == Error::UnresolvedIdentifier,
            },
    {
        match self.namespaces.get(&namespace_id) {
            Some(n) => Ok(n.clone()),
            None => Err(Error::UnresolvedIdentifier),
        }
    }

    /// Old-style composite partition key of a partition, or
    /// [`Error::UnresolvedIdentifier`].
    pub fn old_gen_partition_key(&self, partition_id: u64) -> (r: Result<String, Error>)
        ensures
            match r {
                Ok(key) => self@.partitions.contains_key(partition_id) && key@
                    == partition_key_chars(
                    self@.partitions[partition_id].sequencer_id,
                    self@.partitions[partition_id].name,
                ),
                Err(e) => !self@.partitions.contains_key(partition_id) && e
                    == Error::UnresolvedIdentifier,
            },
    {
        match self.partitions.get(&partition_id) {
            Some(p) => {
                proof {
                    reveal_strlit("-");
                }
                let mut key = u64_to_dec(p.sequencer_id);
                key.append("-");
                key.append(p.name.as_str());
                proof {
                    assert(key@ =~= partition_key_chars(p.sequencer_id, p.name@));
                }
                Ok(key)
            },
            None => Err(Error::UnresolvedIdentifier),
        }
    }
}

} // verus!
