//! Transaction-identifier algebra: the raw 32-bit counter domain, its
//! reserved values, the refinement types that exclude them, and the
//! wraparound-safe increment and decrement over the normal range.

use vstd::prelude::*;

verus! {

/// Reserved raw value: no transaction.
pub const INVALID_TRANSACTION_ID: u32 = 0;
/// Reserved raw value: the bootstrap transaction.
pub const BOOTSTRAP_TRANSACTION_ID: u32 = 1;
/// Reserved raw value: a frozen transaction, visible to every snapshot.
pub const FROZEN_TRANSACTION_ID: u32 = 2;
/// The smallest raw value that names an ordinary transaction.
pub const FIRST_NORMAL_TRANSACTION_ID: u32 = 3;
/// The largest raw value of the 32-bit counter domain.
pub const MAX_TRANSACTION_ID: u32 = 0xFFFF_FFFF;

/// A transaction id known not to be `INVALID_TRANSACTION_ID`.
#[derive(Clone, Copy, PartialEq, Eq, Structural, Debug)]
pub struct ValidTransactionId(u32);

/// A transaction id known to name an ordinary transaction: none of the
/// three reserved values. The derived order gives recency only within a
/// bounded window of the counter: ids further apart may have wrapped.
#[derive(Clone, Copy, PartialEq, Eq, Structural, Debug, PartialOrd, Ord)]
pub struct NormalTransactionId(u32);

/// The two reserved values that are valid but not normal.
#[derive(Clone, Copy, PartialEq, Eq, Structural, Debug)]
pub enum SpecialTransactionId {
    Bootstrap,
    Frozen,
}

/// A raw 32-bit transaction id, carrying no refinement.
#[derive(Clone, Copy, PartialEq, Eq, Structural, Debug)]
pub struct TransactionId(pub u32);

/// Outcome of classifying a raw id that is already known valid.
pub type ValidTransactionIdResult = Result<NormalTransactionId, SpecialTransactionId>;

/// Outcome of classifying an arbitrary raw id: `Err(None)` is the invalid
/// id, `Err(Some(_))` one of the two reserved valid ids.
pub type TransactionIdResult = Result<NormalTransactionId, Option<SpecialTransactionId>>;

impl View for ValidTransactionId {
    type V = u32;

    closed spec fn view(&self) -> u32 {
        self.0
    }
}

impl View for NormalTransactionId {
    type V = u32;

    closed spec fn view(&self) -> u32 {
        self.0
    }
}

impl ValidTransactionId {
    #[verifier::type_invariant]
    spec fn type_inv(self) -> bool {
        self.0 != INVALID_TRANSACTION_ID
    }

    /// Forget the refinement and return the raw id.
    pub fn unwrap(&self) -> (r: TransactionId)
        ensures
            r.0 == self@,
            r.0 != INVALID_TRANSACTION_ID,
    {
        proof {
            use_type_invariant(self);
        }
        TransactionId(self.0)
    }

    /// Classify a valid id as normal or one of the two reserved valid values.
    pub fn to_normal(&self) -> (r: ValidTransactionIdResult)
        ensures
            match r {
                Ok(n) => n@ == self@ && self@ >= FIRST_NORMAL_TRANSACTION_ID,
                Err(SpecialTransactionId::Bootstrap) => self@ == BOOTSTRAP_TRANSACTION_ID,
                Err(SpecialTransactionId::Frozen) => self@ == FROZEN_TRANSACTION_ID,
            },
    {
        proof {
            use_type_invariant(self);
        }
        match self.0 {
            BOOTSTRAP_TRANSACTION_ID => Err(SpecialTransactionId::Bootstrap),
            FROZEN_TRANSACTION_ID => Err(SpecialTransactionId::Frozen),
            _ => Ok(NormalTransactionId(self.0)),
        }
    }
}

impl NormalTransactionId {
    #[verifier::type_invariant]
    spec fn type_inv(self) -> bool {
        self.0 >= FIRST_NORMAL_TRANSACTION_ID
    }

    /// Forget the refinement and return the raw id.
    pub fn unwrap(&self) -> (r: TransactionId)
        ensures
            r.0 == self@,
            r.0 >= FIRST_NORMAL_TRANSACTION_ID,
    {
        proof {
            use_type_invariant(self);
        }
        TransactionId(self.0)
    }

    /// Weaken the refinement: every normal id is valid.
    pub fn to_valid(&self) -> (r: ValidTransactionId)
        ensures
            r@ == self@,
            self@ >= FIRST_NORMAL_TRANSACTION_ID,
    {
        proof {
            use_type_invariant(self);
        }
        ValidTransactionId(self.0)
    }
}

impl SpecialTransactionId {
    /// The raw value a reserved marker stands for, as a valid id.
    pub fn to_valid(&self) -> (r: ValidTransactionId)
        ensures
            r@ == match *self {
                SpecialTransactionId::Bootstrap => BOOTSTRAP_TRANSACTION_ID,
                SpecialTransactionId::Frozen => FROZEN_TRANSACTION_ID,
            },
    {
        match *self {
            SpecialTransactionId::Bootstrap => ValidTransactionId(BOOTSTRAP_TRANSACTION_ID),
            SpecialTransactionId::Frozen => ValidTransactionId(FROZEN_TRANSACTION_ID),
        }
    }
}

/// The exact relation between a raw 32-bit value and its classification:
/// the four outcomes partition the whole domain, so for each `raw` exactly
/// one result value satisfies this.
pub open spec fn classifies(raw: u32, r: TransactionIdResult) -> bool {
    match r {
        Ok(n) => n@ == raw && raw >= FIRST_NORMAL_TRANSACTION_ID,
        Err(None) => raw == INVALID_TRANSACTION_ID,
        Err(Some(SpecialTransactionId::Bootstrap)) => raw == BOOTSTRAP_TRANSACTION_ID,
        Err(Some(SpecialTransactionId::Frozen)) => raw == FROZEN_TRANSACTION_ID,
    }
}

/// The value `advance` leaves behind when starting from `raw`: the smallest
/// normal value greater than `raw` modulo 2^32, skipping the reserved range.
pub open spec fn advance_spec(raw: u32) -> u32 {
    if FIRST_NORMAL_TRANSACTION_ID <= raw && raw < MAX_TRANSACTION_ID {
        (raw + 1) as u32
    } else {
        FIRST_NORMAL_TRANSACTION_ID
    }
}

/// The value `retreat` leaves behind when starting from `raw`: the largest
/// normal value less than `raw` modulo 2^32, skipping the reserved range.
pub open spec fn retreat_spec(raw: u32) -> u32 {
    if raw > FIRST_NORMAL_TRANSACTION_ID {
        (raw - 1) as u32
    } else {
        MAX_TRANSACTION_ID
    }
}

impl TransactionId {
    /// Classify a fresh raw value.
    pub fn new(transaction_id: u32) -> (r: TransactionIdResult)
        ensures
            classifies(transaction_id, r),
    {
        TransactionId(transaction_id).to_normal()
    }

    /// `None` exactly when the id is the invalid value.
    pub fn to_valid(&self) -> (r: Option<ValidTransactionId>)
        ensures
            match r {
                None => self.0 == INVALID_TRANSACTION_ID,
                Some(v) => v@ == self.0 && self.0 != INVALID_TRANSACTION_ID,
            },
    {
        match self.0 {
            INVALID_TRANSACTION_ID => None,
            _ => Some(ValidTransactionId(self.0)),
        }
    }

    /// Partition the full 32-bit space into invalid, the two reserved valid
    /// values, and the normal range: total and mutually exclusive.
    pub fn to_normal(&self) -> (r: TransactionIdResult)
        ensures
            classifies(self.0, r),
    {
        match self.0 {
            INVALID_TRANSACTION_ID => Err(None),
            BOOTSTRAP_TRANSACTION_ID => Err(Some(SpecialTransactionId::Bootstrap)),
            FROZEN_TRANSACTION_ID => Err(Some(SpecialTransactionId::Frozen)),
            _ => Ok(NormalTransactionId(self.0)),
        }
    }

    /// True unless the id is the invalid value.
    pub fn is_valid(&self) -> (r: bool)
        ensures
            r == (self.0 != INVALID_TRANSACTION_ID),
    {
        self.0 != INVALID_TRANSACTION_ID
    }

    /// True exactly for ids outside the reserved range.
    pub fn is_normal(&self) -> (r: bool)
        ensures
            r == (self.0 >= FIRST_NORMAL_TRANSACTION_ID),
    {
        self.0 >= FIRST_NORMAL_TRANSACTION_ID
    }

    /// Overwrite with a valid id; the refinement type rules out storing the
    /// invalid value, without a runtime check.
    pub fn store(&mut self, xid: ValidTransactionId)
        ensures
            final(self).0 == xid@,
            final(self).0 != INVALID_TRANSACTION_ID,
    {
        proof {
            use_type_invariant(&xid);
        }
        *self = xid.unwrap();
    }

    /// Force to the invalid value.
    pub fn invalidate(&mut self)
        ensures
            final(self).0 == INVALID_TRANSACTION_ID,
    {
        self.0 = INVALID_TRANSACTION_ID;
    }

    /// Step to the next normal value, wrapping over the full 32-bit domain
    /// and skipping the three reserved values; never leaves a reserved value
    /// behind.
    pub fn advance(&mut self)
        ensures
            final(self).0 == advance_spec(old(self).0),
            final(self).0 >= FIRST_NORMAL_TRANSACTION_ID,
    {
        let next: u32 = if self.0 == MAX_TRANSACTION_ID {
            0
        } else {
            self.0 + 1
        };
        self.0 = if next < FIRST_NORMAL_TRANSACTION_ID {
            FIRST_NORMAL_TRANSACTION_ID
        } else {
            next
        };
    }

    /// Step to the previous normal value. The counter wraps over the full
    /// 32-bit domain: decrementing from the reserved range or from the first
    /// normal value lands on `MAX_TRANSACTION_ID`; never leaves a reserved
    /// value behind.
    pub fn retreat(&mut self)
        ensures
            final(self).0 == retreat_spec(old(self).0),
            final(self).0 >= FIRST_NORMAL_TRANSACTION_ID,
    {
        loop
            invariant_except_break
                self.0 == old(self).0 || (self.0 < FIRST_NORMAL_TRANSACTION_ID && old(self).0
                    <= FIRST_NORMAL_TRANSACTION_ID),
            ensures
                self.0 == retreat_spec(old(self).0),
            decreases self.0,
        {
            self.0 = if self.0 == 0 {
                MAX_TRANSACTION_ID
            } else {
                self.0 - 1
            };
            if self.0 >= FIRST_NORMAL_TRANSACTION_ID {
                break ;
            }
        }
    }
}

/// Classification is total: every raw 32-bit value admits an outcome.
pub proof fn lemma_classification_total(raw: u32)
    ensures
        exists|r: TransactionIdResult| classifies(raw, r),
{
    if raw == INVALID_TRANSACTION_ID {
        assert(classifies(raw, Err(None)));
    } else if raw == BOOTSTRAP_TRANSACTION_ID {
        assert(classifies(raw, Err(Some(SpecialTransactionId::Bootstrap))));
    } else if raw == FROZEN_TRANSACTION_ID {
        assert(classifies(raw, Err(Some(SpecialTransactionId::Frozen))));
    } else {
        assert(classifies(raw, Ok(NormalTransactionId(raw))));
    }
}

/// Classification is mutually exclusive: a raw value admits only one
/// outcome, so the four ranges — invalid, bootstrap, frozen, and the
/// normal values mapped to themselves — partition the whole domain.
pub proof fn lemma_classification_exclusive(raw: u32, r1: TransactionIdResult, r2: TransactionIdResult)
    requires
        classifies(raw, r1),
        classifies(raw, r2),
    ensures
        r1 == r2,
{
}

/// Advancing a normal id and then retreating returns to the same id, for
/// every normal id including the one at the wraparound boundary; the step
/// away stays in the normal range.
pub proof fn lemma_advance_retreat_round_trip(raw: u32)
    requires
        raw >= FIRST_NORMAL_TRANSACTION_ID,
    ensures
        advance_spec(raw) >= FIRST_NORMAL_TRANSACTION_ID,
        retreat_spec(advance_spec(raw)) == raw,
{
}

/// Neither stepping operation ever leaves a reserved value behind, and at
/// the wraparound boundary each skips exactly the three reserved values:
/// advancing past the maximum lands on the first normal value, and
/// retreating from the first normal value lands on the maximum.
pub proof fn lemma_advance_retreat_skip_reserved(raw: u32)
    ensures
        advance_spec(raw) >= FIRST_NORMAL_TRANSACTION_ID,
        retreat_spec(raw) >= FIRST_NORMAL_TRANSACTION_ID,
        advance_spec(MAX_TRANSACTION_ID) == FIRST_NORMAL_TRANSACTION_ID,
        retreat_spec(FIRST_NORMAL_TRANSACTION_ID) == MAX_TRANSACTION_ID,
{
}

} // verus!
