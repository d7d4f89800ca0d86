//! Core data model for per-tuple MVCC visibility in a row-store engine:
//! the transaction-identifier algebra, the multixact identifier and status
//! domain, and the packed info-mask tuple header built on top of them.

use vstd::prelude::*;

pub mod heap;
pub mod multixact;
pub mod trans;

verus! {

/// Object identifier.
#[derive(Clone, Copy, PartialEq, Eq, Structural, Debug)]
pub struct Oid(pub u32);

/// Command identifier: position of a command within its transaction.
#[derive(Clone, Copy, PartialEq, Eq, Structural, Debug)]
pub struct CommandId(pub u32);

/// A value stored in a tuple's payload.
pub type Datum = usize;

/// Block number of a disk page.
#[derive(Clone, Copy, PartialEq, Eq, Structural, Debug)]
pub struct BlockNumber(pub u32);

/// A block number split into two 16-bit halves, as stored on disk.
#[derive(Clone, Copy, PartialEq, Eq, Structural, Debug)]
pub struct BlockIdData {
    pub bi_hi: u16,
    pub bi_lo: u16,
}

/// 1-based position of a tuple within its page.
#[derive(Clone, Copy, PartialEq, Eq, Structural, Debug)]
pub struct OffsetNumber(pub u16);

/// Physical location of a tuple: a block id plus an offset within the block.
#[derive(Clone, Copy, PartialEq, Eq, Structural, Debug)]
pub struct ItemPointerData {
    pub ip_blkid: BlockIdData,
    pub ip_posid: OffsetNumber,
}

} // verus!
