//! Composite chunk addresses and the derived ordering value.

use crate::error::Error;
use crate::text::{uuid_chars, uuid_text};
use vstd::prelude::*;
use vstd::string::StringExecFns;

verus! {

/// Old-style composite chunk address: namespace (database) name, table
/// name, composite partition key, and a 128-bit chunk identifier.
#[derive(Debug)]
pub struct ChunkAddr {
    pub db_name: String,
    pub table_name: String,
    pub partition_key: String,
    pub chunk_id: u128,
}

/// Mathematical image of a [`ChunkAddr`].
pub struct ChunkAddrView {
    pub db_name: Seq<char>,
    pub table_name: Seq<char>,
    pub partition_key: Seq<char>,
    pub chunk_id: u128,
}

impl View for ChunkAddr {
    type V = ChunkAddrView;

    open spec fn view(&self) -> ChunkAddrView {
        ChunkAddrView {
            db_name: self.db_name@,
            table_name: self.table_name@,
            partition_key: self.partition_key@,
            chunk_id: self.chunk_id,
        }
    }
}

/// The chunk identifier derived from a file's numeric id: the id widened
/// into the 128-bit identifier space.
pub open spec fn chunk_id_of(file_id: u64) -> u128 {
    file_id as u128
}

/// Widening a file id into the 128-bit chunk-identifier space is injective:
/// distinct file ids always yield distinct chunk identifiers.
pub proof fn lemma_chunk_id_injective(id1: u64, id2: u64)
    requires
        id1 != id2,
    ensures
        chunk_id_of(id1) != chunk_id_of(id2),
{
}

/// Diagnostic text of an address.
pub open spec fn addr_text_chars(a: ChunkAddrView) -> Seq<char> {
    "Chunk('"@ + a.db_name + "':'"@ + a.table_name + "':'"@ + a.partition_key + "':"@
        + uuid_chars(a.chunk_id as int) + ")"@
}

impl ChunkAddr {
    /// Render the address for diagnostics.
    pub fn to_text(&self) -> (r: String)
        ensures
            r@ == addr_text_chars(self@),
    {
        let mut s = String::from_str("Chunk('");
        s.append(self.db_name.as_str());
        s.append("':'");
        s.append(self.table_name.as_str());
        s.append("':'");
        s.append(self.partition_key.as_str());
        s.append("':");
        let u = uuid_text(self.chunk_id);
        s.append(u.as_str());
        s.append(")");
        proof {
            assert(s@ =~= addr_text_chars(self@));
        }
        s
    }
}

/// Strictly positive 32-bit ordering value: a stand-in total order derived
/// from the minimum sequence number, isolated here so it can be replaced
/// once a native ordering field exists.
#[derive(Clone, Copy, Debug, PartialEq, Eq, Structural)]
pub struct ChunkOrder {
    pub order: u32,
}

impl ChunkOrder {
    /// A well-formed ordering value is never zero.
    pub open spec fn wf(self) -> bool {
        self.order >= 1
    }

    /// Wrap a raw value; zero is rejected.
    pub fn new(order: u32) -> (r: Option<ChunkOrder>)
        ensures
            r is Some <==> order != 0,
            r matches Some(c) ==> c.order == order && c.wf(),
    {
        if order == 0 {
            None
        } else {
            Some(ChunkOrder { order })
        }
    }
}

/// The ordering value derived from a minimum sequence number: one more than
/// its low 32 bits, or nothing where that addition would wrap to zero.
pub open spec fn derived_order(min_sequence_number: u64) -> Option<u32> {
    let low = min_sequence_number % 0x1_0000_0000;
    if low == 0xFFFF_FFFF {
        None
    } else {
        Some((low + 1) as u32)
    }
}

/// Derive the ordering value for a chunk, failing with
/// [`Error::OrderOverflow`] where the arithmetic would force a zero value.
pub fn chunk_order_from_min_sequence(min_sequence_number: u64) -> (r: Result<ChunkOrder, Error>)
    ensures
        match r {
            Ok(c) => derived_order(min_sequence_number) == Some(c.order) && c.wf(),
            Err(e) => derived_order(min_sequence_number) is None && e == Error::OrderOverflow,
        },
{
    let low: u64 = min_sequence_number % 0x1_0000_0000;
    if low == 0xFFFF_FFFF {
        Err(Error::OrderOverflow)
    } else {
        Ok(ChunkOrder { order: (low + 1) as u32 })
    }
}

/// Every ordering value this derivation admits is strictly positive, and a
/// minimum sequence number whose low 32 bits are all ones is rejected
/// rather than wrapped to zero.
pub proof fn lemma_chunk_order_strictly_positive(min_sequence_number: u64)
    ensures
        derived_order(min_sequence_number) matches Some(o) ==> o >= 1,
        min_sequence_number % 0x1_0000_0000 == 0xFFFF_FFFF ==> derived_order(
            min_sequence_number,
        ) is None,
{
}

} // verus!
