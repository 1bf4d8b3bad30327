//! Domain values of the sync protocol.
use crate::felt::StarkHash;
use vstd::prelude::*;

verus! {

/// The height of a block.
#[derive(Clone, Copy, Debug, PartialEq, Eq, Hash, Structural)]
pub struct BlockNumber(pub u64);

/// The hash of a block.
#[derive(Clone, Copy, Debug, PartialEq, Eq, Hash)]
pub struct BlockHash(pub StarkHash);

/// A block named either by its hash or by its number.
#[derive(Clone, Copy, Debug, PartialEq, Eq)]
pub enum BlockHashOrNumber {
    Hash(BlockHash),
    Number(BlockNumber),
}

/// The order in which blocks are streamed.
#[derive(Clone, Copy, Debug, PartialEq, Eq, Hash, Structural)]
pub enum Direction {
    Forward,
    Backward,
}

/// How a block's data is posted to the base layer.
#[derive(Clone, Copy, Debug, PartialEq, Eq, Hash, Structural)]
pub enum L1DataAvailabilityMode {
    Calldata,
    Blob,
}

/// A query built locally: it always starts at a block number.
#[derive(Clone, Copy, Debug, PartialEq, Eq)]
pub struct Query {
    pub start_block: BlockNumber,
    pub direction: Direction,
    pub limit: usize,
    pub step: usize,
}

/// A query received from a peer: it may start at a block hash or at a block number.
#[derive(Clone, Copy, Debug, PartialEq, Eq)]
pub struct InternalQuery {
    pub start_block: BlockHashOrNumber,
    pub direction: Direction,
    pub limit: u64,
    pub step: u64,
}

} // verus!
