//! MultiXact domain: group-lock identifiers standing in for several
//! concurrent lockers or updaters of one tuple, the totally ordered status
//! enumeration, and the member record shape handed over by the external
//! member store.

use crate::trans::TransactionId;
use vstd::prelude::*;

verus! {

/// Reserved raw value: no multixact.
pub const INVALID_MULTI_XACT_ID: u32 = 0;
/// The smallest raw value that names a multixact.
pub const FIRST_MULTI_XACT_ID: u32 = 1;
/// The largest raw value of the 32-bit multixact domain.
pub const MAX_MULTI_XACT_ID: u32 = 0xFFFF_FFFF;

/// A multixact id known not to be `INVALID_MULTI_XACT_ID`.
#[derive(Clone, Copy, PartialEq, Eq, Structural, Debug)]
pub struct ValidMultiXactId(u32);

/// A raw 32-bit multixact id, carrying no refinement.
#[derive(Clone, Copy, PartialEq, Eq, Structural, Debug)]
pub struct MultiXactId(pub u32);

impl View for ValidMultiXactId {
    type V = u32;

    closed spec fn view(&self) -> u32 {
        self.0
    }
}

impl ValidMultiXactId {
    #[verifier::type_invariant]
    spec fn type_inv(self) -> bool {
        self.0 != INVALID_MULTI_XACT_ID
    }

    /// Forget the refinement and return the raw id.
    pub fn unwrap(&self) -> (r: MultiXactId)
        ensures
            r.0 == self@,
            r.0 != INVALID_MULTI_XACT_ID,
    {
        proof {
            use_type_invariant(self);
        }
        MultiXactId(self.0)
    }
}

impl MultiXactId {
    /// Classify a fresh raw value: `None` exactly for the invalid value.
    pub fn new(multi_xact_id: u32) -> (r: Option<ValidMultiXactId>)
        ensures
            match r {
                None => multi_xact_id == INVALID_MULTI_XACT_ID,
                Some(v) => v@ == multi_xact_id && multi_xact_id != INVALID_MULTI_XACT_ID,
            },
    {
        MultiXactId(multi_xact_id).to_valid()
    }

    /// `None` exactly when the id is the invalid value.
    pub fn to_valid(&self) -> (r: Option<ValidMultiXactId>)
        ensures
            match r {
                None => self.0 == INVALID_MULTI_XACT_ID,
                Some(v) => v@ == self.0 && self.0 != INVALID_MULTI_XACT_ID,
            },
    {
        match self.0 {
            INVALID_MULTI_XACT_ID => None,
            _ => Some(ValidMultiXactId(self.0)),
        }
    }

    /// True unless the id is the invalid value.
    pub fn is_valid(&self) -> (r: bool)
        ensures
            r == (self.0 != INVALID_MULTI_XACT_ID),
    {
        self.0 != INVALID_MULTI_XACT_ID
    }
}

/// Offset of a multixact's member list within the external member store.
#[derive(Clone, Copy, PartialEq, Eq, Structural, Debug)]
pub struct MultiXactOffset(pub u32);

/// The largest raw value of the 32-bit offset domain.
pub const MAX_MULTI_XACT_OFFSET: u32 = 0xFFFF_FFFF;

/// Number of cache buffers used for the multixact offset table.
pub const NUM_MXACTOFFSET_BUFFERS: usize = 8;
/// Number of cache buffers used for the multixact member table.
pub const NUM_MXACTMEMBER_BUFFERS: usize = 16;

/// What one member of a multixact did to the tuple, ordered by strength:
/// the four weakest are locks, the two strongest are updates.
#[derive(Clone, Copy, PartialEq, Eq, Structural, Debug, PartialOrd, Ord)]
pub enum MultiXactStatus {
    ForKeyShare,
    ForShare,
    ForNoKeyUpdate,
    ForUpdate,
    NoKeyUpdate,
    Update,
}

/// The rank of the strongest status.
pub const MAX_MULTI_XACT_STATUS: usize = 5;

/// Position of a status in the strength order.
pub open spec fn status_rank(s: MultiXactStatus) -> int {
    match s {
        MultiXactStatus::ForKeyShare => 0,
        MultiXactStatus::ForShare => 1,
        MultiXactStatus::ForNoKeyUpdate => 2,
        MultiXactStatus::ForUpdate => 3,
        MultiXactStatus::NoKeyUpdate => 4,
        MultiXactStatus::Update => 5,
    }
}

/// True for the statuses stronger than `ForUpdate`: those that record an
/// update rather than a mere lock.
pub open spec fn is_update_spec(s: MultiXactStatus) -> bool {
    status_rank(s) > status_rank(MultiXactStatus::ForUpdate)
}

impl MultiXactStatus {
    /// True exactly when this member updated (or deleted) the tuple rather
    /// than merely locking it.
    pub fn is_update(&self) -> (r: bool)
        ensures
            r == is_update_spec(*self),
    {
        match *self {
            MultiXactStatus::NoKeyUpdate => true,
            MultiXactStatus::Update => true,
            _ => false,
        }
    }
}

/// One entry of a multixact's member list: which transaction took part, and
/// with what status.
#[derive(Clone, Copy, PartialEq, Eq, Structural, Debug)]
pub struct MultiXactMember {
    pub xid: TransactionId,
    pub status: MultiXactStatus,
}

/// The status strengths form a strict total order, and exactly the two
/// statuses above `ForUpdate` record an update.
pub proof fn lemma_multi_xact_status_order()
    ensures
        status_rank(MultiXactStatus::ForKeyShare) < status_rank(MultiXactStatus::ForShare)
            < status_rank(MultiXactStatus::ForNoKeyUpdate) < status_rank(
            MultiXactStatus::ForUpdate,
        ) < status_rank(MultiXactStatus::NoKeyUpdate) < status_rank(MultiXactStatus::Update),
        forall|s: MultiXactStatus|
            is_update_spec(s) <==> (s == MultiXactStatus::NoKeyUpdate || s
                == MultiXactStatus::Update),
        status_rank(MultiXactStatus::Update) == MAX_MULTI_XACT_STATUS,
{
    assert forall|s: MultiXactStatus|
        is_update_spec(s) <==> (s == MultiXactStatus::NoKeyUpdate || s
            == MultiXactStatus::Update) by {
        match s {
            MultiXactStatus::ForKeyShare => {},
            MultiXactStatus::ForShare => {},
            MultiXactStatus::ForNoKeyUpdate => {},
            MultiXactStatus::ForUpdate => {},
            MultiXactStatus::NoKeyUpdate => {},
            MultiXactStatus::Update => {},
        }
    }
}

} // verus!
