//! Wire messages of the sync protocol, as the framing layer hands them over.
use vstd::prelude::*;

verus! {

/// A field element on the wire.
#[derive(Clone, Debug, PartialEq, Eq)]
pub struct Felt252 {
    pub elements: Vec<u8>,
}

/// A hash on the wire.
#[derive(Clone, Debug, PartialEq, Eq)]
pub struct Hash {
    pub elements: Vec<u8>,
}

/// A contract address on the wire.
#[derive(Clone, Debug, PartialEq, Eq)]
pub struct Address {
    pub elements: Vec<u8>,
}

/// A 128-bit unsigned integer on the wire, split in two halves.
#[derive(Clone, Copy, Debug, PartialEq, Eq, Structural)]
pub struct Uint128 {
    pub high: u64,
    pub low: u64,
}

/// Where an iteration starts: at a block number or at a block's header hash.
#[derive(Clone, Debug, PartialEq, Eq)]
pub enum Start {
    BlockNumber(u64),
    Header(Hash),
}

/// A request to stream blocks: a start, a direction tag, a count and a stride.
#[derive(Clone, Debug, PartialEq, Eq)]
pub struct Iteration {
    pub start: Option<Start>,
    pub direction: i32,
    pub limit: u64,
    pub step: u64,
}

} // verus!
