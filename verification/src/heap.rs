//! The packed tuple header: two 16-bit info masks whose bits and derived
//! combinations encode visibility and lock state, the header field block,
//! and the accessor layer that maintains the visibility invariants.

use crate::multixact::{is_update_spec, MultiXactMember};
use crate::trans::{
    classifies, SpecialTransactionId, TransactionId, TransactionIdResult, ValidTransactionId,
};
use crate::{CommandId, ItemPointerData, Oid};
use vstd::prelude::*;

verus! {

/// xmax is a key-share locker.
pub const HEAP_XMAX_KEYSHR_LOCK: u16 = 0x0010;
/// t_cid is a key into the external combo-cid table.
pub const HEAP_COMBOCID: u16 = 0x0020;
/// xmax is an exclusive locker.
pub const HEAP_XMAX_EXCL_LOCK: u16 = 0x0040;
/// xmax, if valid, is only a locker: it did not update the tuple.
pub const HEAP_XMAX_LOCK_ONLY: u16 = 0x0080;
/// Derived: xmax is a shared locker.
pub const HEAP_XMAX_SHR_LOCK: u16 = HEAP_XMAX_EXCL_LOCK | HEAP_XMAX_KEYSHR_LOCK;
/// Derived: any lock-strength bit.
pub const HEAP_LOCK_MASK: u16 = HEAP_XMAX_SHR_LOCK | HEAP_XMAX_EXCL_LOCK
    | HEAP_XMAX_KEYSHR_LOCK;
/// t_xmin committed.
pub const HEAP_XMIN_COMMITTED: u16 = 0x0100;
/// t_xmin invalid or aborted.
pub const HEAP_XMIN_INVALID: u16 = 0x0200;
/// Derived: both hint bits together mean the tuple is frozen.
pub const HEAP_XMIN_FROZEN: u16 = HEAP_XMIN_COMMITTED | HEAP_XMIN_INVALID;
/// t_xmax committed.
pub const HEAP_XMAX_COMMITTED: u16 = 0x0400;
/// t_xmax invalid or aborted.
pub const HEAP_XMAX_INVALID: u16 = 0x0800;
/// t_xmax is a multixact id rather than a plain transaction id.
pub const HEAP_XMAX_IS_MULTI: u16 = 0x1000;
/// This tuple version is the target of an update.
pub const HEAP_UPDATED: u16 = 0x2000;
/// Derived aggregate: all visibility-related bits of the primary mask.
pub const HEAP_XACT_MASK: u16 = 0xFFF0;
/// Derived: the bits to clear whenever xmax is about to change.
pub const HEAP_XMAX_BITS: u16 = HEAP_XMAX_COMMITTED | HEAP_XMAX_INVALID | HEAP_XMAX_IS_MULTI
    | HEAP_LOCK_MASK | HEAP_XMAX_LOCK_ONLY;

/// Secondary mask: the attribute-count field.
pub const HEAP_NATTS_MASK: u16 = 0x07FF;
/// Secondary mask: its visibility-related bits.
pub const HEAP2_XACT_MASK: u16 = 0xE000;

/// xmax is lock-only: either the dedicated bit is set, or the bits show the
/// legacy encoding that predates it (a plain exclusive lock with no
/// multixact and no other lock bit).
pub open spec fn xmax_is_locked_only_spec(bits: u16) -> bool {
    bits & HEAP_XMAX_LOCK_ONLY != 0 || bits & (HEAP_XMAX_IS_MULTI | HEAP_LOCK_MASK)
        == HEAP_XMAX_EXCL_LOCK
}

/// The lock-strength bits read exactly "shared locker".
pub open spec fn xmax_is_shr_locked_spec(bits: u16) -> bool {
    bits & HEAP_LOCK_MASK == HEAP_XMAX_SHR_LOCK
}

/// The lock-strength bits read exactly "exclusive locker".
pub open spec fn xmax_is_excl_locked_spec(bits: u16) -> bool {
    bits & HEAP_LOCK_MASK == HEAP_XMAX_EXCL_LOCK
}

/// The lock-strength bits read exactly "key-share locker".
pub open spec fn xmax_is_keyshr_locked_spec(bits: u16) -> bool {
    bits & HEAP_LOCK_MASK == HEAP_XMAX_KEYSHR_LOCK
}

/// The committed hint bit is set (also true once frozen).
pub open spec fn xmin_committed_spec(bits: u16) -> bool {
    bits & HEAP_XMIN_COMMITTED != 0
}

/// The invalid hint bit is set alone: the frozen combination is excluded.
pub open spec fn xmin_invalid_spec(bits: u16) -> bool {
    bits & (HEAP_XMIN_COMMITTED | HEAP_XMIN_INVALID) == HEAP_XMIN_INVALID
}

/// Both hint bits are set: the otherwise contradictory combination reserved
/// to mean "frozen".
pub open spec fn xmin_frozen_spec(bits: u16) -> bool {
    bits & HEAP_XMIN_FROZEN == HEAP_XMIN_FROZEN
}

/// The primary info mask: a typed bitset over the flag values above.
#[derive(Clone, Copy, PartialEq, Eq, Structural, Debug)]
pub struct HeapInfoMask {
    pub bits: u16,
}

impl HeapInfoMask {
    /// The mask with no bit set.
    pub fn empty() -> (r: Self)
        ensures
            r.bits == 0,
    {
        HeapInfoMask { bits: 0 }
    }

    /// The mask holding exactly the given bits.
    pub fn from_bits(bits: u16) -> (r: Self)
        ensures
            r.bits == bits,
    {
        HeapInfoMask { bits }
    }

    /// The raw bit pattern.
    pub fn bits(&self) -> (r: u16)
        ensures
            r == self.bits,
    {
        self.bits
    }

    /// True when no bit is set.
    pub fn is_empty(&self) -> (r: bool)
        ensures
            r == (self.bits == 0),
    {
        self.bits == 0
    }

    /// True when every bit of `mask` is set here.
    pub fn contains(&self, mask: u16) -> (r: bool)
        ensures
            r == (self.bits & mask == mask),
    {
        self.bits & mask == mask
    }

    /// True when at least one bit of `mask` is set here.
    pub fn intersects(&self, mask: u16) -> (r: bool)
        ensures
            r == (self.bits & mask != 0),
    {
        self.bits & mask != 0
    }

    /// Set every bit of `mask`.
    pub fn insert(&mut self, mask: u16)
        ensures
            final(self).bits == old(self).bits | mask,
    {
        self.bits = self.bits | mask;
    }

    /// Clear every bit of `mask`.
    pub fn remove(&mut self, mask: u16)
        ensures
            final(self).bits == old(self).bits & !mask,
    {
        self.bits = self.bits & !mask;
    }

    /// See `xmax_is_locked_only_spec`.
    pub fn xmax_is_locked_only(&self) -> (r: bool)
        ensures
            r == xmax_is_locked_only_spec(self.bits),
    {
        self.bits & HEAP_XMAX_LOCK_ONLY != 0 || self.bits & (HEAP_XMAX_IS_MULTI | HEAP_LOCK_MASK)
            == HEAP_XMAX_EXCL_LOCK
    }

    /// See `xmax_is_shr_locked_spec`.
    pub fn xmax_is_shr_locked(&self) -> (r: bool)
        ensures
            r == xmax_is_shr_locked_spec(self.bits),
    {
        self.bits & HEAP_LOCK_MASK == HEAP_XMAX_SHR_LOCK
    }

    /// See `xmax_is_excl_locked_spec`.
    pub fn xmax_is_excl_locked(&self) -> (r: bool)
        ensures
            r == xmax_is_excl_locked_spec(self.bits),
    {
        self.bits & HEAP_LOCK_MASK == HEAP_XMAX_EXCL_LOCK
    }

    /// See `xmax_is_keyshr_locked_spec`.
    pub fn xmax_is_keyshr_locked(&self) -> (r: bool)
        ensures
            r == xmax_is_keyshr_locked_spec(self.bits),
    {
        self.bits & HEAP_LOCK_MASK == HEAP_XMAX_KEYSHR_LOCK
    }
}

/// The secondary info mask: attribute count plus its own visibility bits.
#[derive(Clone, Copy, PartialEq, Eq, Structural, Debug)]
pub struct HeapInfoMask2 {
    pub bits: u16,
}

impl HeapInfoMask2 {
    /// The mask with no bit set.
    pub fn empty() -> (r: Self)
        ensures
            r.bits == 0,
    {
        HeapInfoMask2 { bits: 0 }
    }

    /// The mask holding exactly the given bits.
    pub fn from_bits(bits: u16) -> (r: Self)
        ensures
            r.bits == bits,
    {
        HeapInfoMask2 { bits }
    }

    /// The raw bit pattern.
    pub fn bits(&self) -> (r: u16)
        ensures
            r == self.bits,
    {
        self.bits
    }

    /// The attribute count stored in the low bits.
    pub fn natts(&self) -> (r: u16)
        ensures
            r == self.bits & HEAP_NATTS_MASK,
    {
        self.bits & HEAP_NATTS_MASK
    }
}

/// Whether `set_cmax` stores a plain maximum command id or a combo key.
#[derive(Clone, Copy, PartialEq, Eq, Structural, Debug)]
pub enum Combo {
    Combo,
    Max,
}

/// The visibility fields of a normal tuple: inserting id, deleting or
/// locking id, and the command-id slot. The command-id slot is an overlay:
/// it is a plain command id while `HEAP_COMBOCID` is clear and an opaque key
/// into the external combo-cid table while it is set; the reading is decided
/// by that bit alone, never by the value.
#[derive(Clone, Copy, PartialEq, Eq, Structural, Debug)]
pub struct HeapTupleFields {
    /// inserting xact ID
    pub t_xmin: TransactionId,
    /// deleting or locking xact ID
    pub t_xmax: TransactionId,
    /// inserting or deleting command ID, or both
    pub t_cid: CommandId,
}

/// Kind-specific storage of a normal (full) tuple header.
#[derive(Clone, Copy, PartialEq, Eq, Structural, Debug)]
pub struct NormalTupleHeaderData {
    pub t_heap: HeapTupleFields,
    /// current t_ctid of this or newer tuple
    pub t_ctid: ItemPointerData,
}

/// Kind-specific storage of a minimal tuple header: none at all.
#[derive(Clone, Copy, PartialEq, Eq, Structural, Debug)]
pub struct MinimalTupleHeaderData;

/// A tuple header, generic over the kind-specific storage `T` (normal or
/// minimal) and the tail `D` that carries the payload. The accessor layer
/// below is defined only for the normal kind.
pub struct HeapTupleHeaderData<T, D> {
    pub data_: T,
    /// number of attributes + various flags
    pub t_infomask2: HeapInfoMask2,
    /// various flag bits
    pub t_infomask: HeapInfoMask,
    /// more bits (if necessary) plus user data
    pub rest_: D,
}

/// The distinct checked failure of the hint-bit setters: the header already
/// carries the opposite exclusive hint, so the visibility invariant was
/// broken upstream.
#[derive(Clone, Copy, PartialEq, Eq, Structural, Debug)]
pub struct HintBitsConflict;

/// Outcome of a checked hint-bit transition.
pub type HintBitsResult = Result<(), HintBitsConflict>;

/// The transaction id of the first member of `s` whose status records an
/// update, if any member does.
pub open spec fn first_update_xid_spec(s: Seq<MultiXactMember>) -> Option<TransactionId>
    decreases s.len(),
{
    if s.len() == 0 {
        None
    } else if is_update_spec(s[0].status) {
        Some(s[0].xid)
    } else {
        first_update_xid_spec(s.subrange(1, s.len() as int))
    }
}

/// Scan a multixact's member list, as obtained from the external member
/// store, for the (expected at most one) member that updated the tuple.
/// The first update member found wins; its id is classified as usual. A
/// list with no update member — a fully pruned group — yields `Err(None)`:
/// the tuple has no live updater, which is not a corruption.
pub fn multi_xact_id_get_update_xid(members: &[MultiXactMember]) -> (r: TransactionIdResult)
    ensures
        match first_update_xid_spec(members@) {
            None => r == TransactionIdResult::Err(None),
            Some(xid) => classifies(xid.0, r),
        },
{
    let n = members.len();
    let mut i: usize = 0;
    proof {
        assert(members@.subrange(0, n as int) =~= members@);
    }
    while i < n
        invariant
            i <= n,
            n == members@.len(),
            first_update_xid_spec(members@) == first_update_xid_spec(
                members@.subrange(i as int, n as int),
            ),
        decreases n - i,
    {
        let m = members[i];
        proof {
            let suffix = members@.subrange(i as int, n as int);
            assert(suffix[0] == members@[i as int]);
            assert(suffix.subrange(1, suffix.len() as int) =~= members@.subrange(
                i + 1,
                n as int,
            ));
        }
        if m.status.is_update() {
            return m.xid.to_normal();
        }
        i = i + 1;
    }
    proof {
        assert(members@.subrange(n as int, n as int) =~= Seq::<MultiXactMember>::empty());
    }
    Err(None)
}

impl<D> HeapTupleHeaderData<NormalTupleHeaderData, D> {
    /// This header with the inserting id replaced.
    pub open spec fn with_xmin(self, raw: u32) -> Self {
        HeapTupleHeaderData {
            data_: NormalTupleHeaderData {
                t_heap: HeapTupleFields { t_xmin: TransactionId(raw), ..self.data_.t_heap },
                ..self.data_
            },
            ..self
        }
    }

    /// This header with the deleting or locking id replaced.
    pub open spec fn with_xmax(self, raw: u32) -> Self {
        HeapTupleHeaderData {
            data_: NormalTupleHeaderData {
                t_heap: HeapTupleFields { t_xmax: TransactionId(raw), ..self.data_.t_heap },
                ..self.data_
            },
            ..self
        }
    }

    /// This header with the command-id slot replaced.
    pub open spec fn with_cid(self, raw: u32) -> Self {
        HeapTupleHeaderData {
            data_: NormalTupleHeaderData {
                t_heap: HeapTupleFields { t_cid: CommandId(raw), ..self.data_.t_heap },
                ..self.data_
            },
            ..self
        }
    }

    /// This header with the primary info mask replaced.
    pub open spec fn with_mask_bits(self, bits: u16) -> Self {
        HeapTupleHeaderData { t_infomask: HeapInfoMask { bits }, ..self }
    }

    /// The raw stored inserting id, uninterpreted.
    pub fn get_raw_xmin(&self) -> (r: TransactionId)
        ensures
            r == self.data_.t_heap.t_xmin,
    {
        self.data_.t_heap.t_xmin
    }

    /// Read the inserting id through the hint bits: a frozen tuple reports
    /// the frozen outcome whatever raw value is still stored; otherwise the
    /// raw id is classified as usual.
    pub fn get_xmin(&self) -> (r: TransactionIdResult)
        ensures
            xmin_frozen_spec(self.t_infomask.bits) ==> r == TransactionIdResult::Err(
                Some(SpecialTransactionId::Frozen),
            ),
            !xmin_frozen_spec(self.t_infomask.bits) ==> classifies(
                self.data_.t_heap.t_xmin.0,
                r,
            ),
    {
        if self.xmin_frozen() {
            Err(Some(SpecialTransactionId::Frozen))
        } else {
            self.get_raw_xmin().to_normal()
        }
    }

    /// Overwrite the inserting id; the refinement type rules out storing
    /// the invalid value. Caller must hold the access mode appropriate to a
    /// header mutation.
    pub fn set_xmin(&mut self, xid: ValidTransactionId)
        ensures
            *final(self) == old(self).with_xmin(xid@),
            xid@ != 0,
    {
        self.data_.t_heap.t_xmin.store(xid);
    }

    /// The committed hint bit is set (also once frozen).
    pub fn xmin_committed(&self) -> (r: bool)
        ensures
            r == xmin_committed_spec(self.t_infomask.bits),
    {
        self.t_infomask.bits & HEAP_XMIN_COMMITTED != 0
    }

    /// The invalid hint bit is set alone (the frozen reading is excluded).
    pub fn xmin_invalid(&self) -> (r: bool)
        ensures
            r == xmin_invalid_spec(self.t_infomask.bits),
    {
        self.t_infomask.bits & (HEAP_XMIN_COMMITTED | HEAP_XMIN_INVALID) == HEAP_XMIN_INVALID
    }

    /// Both hint bits are set: the tuple is frozen.
    pub fn xmin_frozen(&self) -> (r: bool)
        ensures
            r == xmin_frozen_spec(self.t_infomask.bits),
    {
        self.t_infomask.bits & HEAP_XMIN_FROZEN == HEAP_XMIN_FROZEN
    }

    /// Checked hint transition: record that xmin committed. Rejected when
    /// the header already reads "xmin invalid", which would mean the
    /// visibility invariant was broken upstream. Caller must hold the
    /// access mode appropriate to a header mutation.
    pub fn set_xmin_committed(&mut self) -> (r: HintBitsResult)
        ensures
            r is Err <==> xmin_invalid_spec(old(self).t_infomask.bits),
            r is Err ==> *final(self) == *old(self),
            r is Ok ==> *final(self) == old(self).with_mask_bits(
                old(self).t_infomask.bits | HEAP_XMIN_COMMITTED,
            ),
            r is Ok ==> xmin_committed_spec(final(self).t_infomask.bits),
    {
        if self.xmin_invalid() {
            Err(HintBitsConflict)
        } else {
            proof {
                let b = self.t_infomask.bits;
                assert(xmin_committed_spec((b | HEAP_XMIN_COMMITTED) as u16)) by (bit_vector);
            }
            self.t_infomask.insert(HEAP_XMIN_COMMITTED);
            Ok(())
        }
    }

    /// Unchecked fast path of `set_xmin_committed`: the caller has already
    /// established that the header does not read "xmin invalid".
    pub fn set_xmin_committed_unchecked(&mut self)
        requires
            !xmin_invalid_spec(old(self).t_infomask.bits),
        ensures
            *final(self) == old(self).with_mask_bits(
                old(self).t_infomask.bits | HEAP_XMIN_COMMITTED,
            ),
            xmin_committed_spec(final(self).t_infomask.bits),
    {
        proof {
            let b = self.t_infomask.bits;
            assert(xmin_committed_spec((b | HEAP_XMIN_COMMITTED) as u16)) by (bit_vector);
        }
        self.t_infomask.insert(HEAP_XMIN_COMMITTED);
    }

    /// Checked hint transition: record that xmin is invalid (aborted).
    /// Rejected when the header already reads "xmin committed" and is not
    /// frozen. On a frozen header the bit is already set, so the operation
    /// changes nothing. Caller must hold the access mode appropriate to a
    /// header mutation.
    pub fn set_xmin_invalid(&mut self) -> (r: HintBitsResult)
        ensures
            r is Err <==> (xmin_committed_spec(old(self).t_infomask.bits) && !xmin_frozen_spec(
                old(self).t_infomask.bits,
            )),
            r is Err ==> *final(self) == *old(self),
            r is Ok ==> *final(self) == old(self).with_mask_bits(
                old(self).t_infomask.bits | HEAP_XMIN_INVALID,
            ),
            r is Ok && !xmin_frozen_spec(old(self).t_infomask.bits) ==> xmin_invalid_spec(
                final(self).t_infomask.bits,
            ),
    {
        if self.xmin_committed() && !self.xmin_frozen() {
            Err(HintBitsConflict)
        } else {
            proof {
                let b = self.t_infomask.bits;
                assert(!(xmin_committed_spec(b) && !xmin_frozen_spec(b)) && !xmin_frozen_spec(b)
                    ==> xmin_invalid_spec((b | HEAP_XMIN_INVALID) as u16)) by (bit_vector);
            }
            self.t_infomask.insert(HEAP_XMIN_INVALID);
            Ok(())
        }
    }

    /// Unchecked fast path of `set_xmin_invalid`: the caller has already
    /// established that the header does not read "xmin committed" (unless
    /// frozen).
    pub fn set_xmin_invalid_unchecked(&mut self)
        requires
            !(xmin_committed_spec(old(self).t_infomask.bits) && !xmin_frozen_spec(
                old(self).t_infomask.bits,
            )),
        ensures
            *final(self) == old(self).with_mask_bits(
                old(self).t_infomask.bits | HEAP_XMIN_INVALID,
            ),
            !xmin_frozen_spec(old(self).t_infomask.bits) ==> xmin_invalid_spec(
                final(self).t_infomask.bits,
            ),
    {
        proof {
            let b = self.t_infomask.bits;
            assert(!(xmin_committed_spec(b) && !xmin_frozen_spec(b)) && !xmin_frozen_spec(b)
                ==> xmin_invalid_spec((b | HEAP_XMIN_INVALID) as u16)) by (bit_vector);
        }
        self.t_infomask.insert(HEAP_XMIN_INVALID);
    }

    /// Checked hint transition: freeze the tuple, making it visible to
    /// every snapshot; the raw xmin stops being meaningful and no further
    /// hint transition applies. Rejected when the header already reads
    /// "xmin invalid". Caller must hold the access mode appropriate to a
    /// header mutation.
    pub fn set_xmin_frozen(&mut self) -> (r: HintBitsResult)
        ensures
            r is Err <==> xmin_invalid_spec(old(self).t_infomask.bits),
            r is Err ==> *final(self) == *old(self),
            r is Ok ==> *final(self) == old(self).with_mask_bits(
                old(self).t_infomask.bits | HEAP_XMIN_FROZEN,
            ),
            r is Ok ==> xmin_frozen_spec(final(self).t_infomask.bits),
    {
        if self.xmin_invalid() {
            Err(HintBitsConflict)
        } else {
            proof {
                let b = self.t_infomask.bits;
                assert(xmin_frozen_spec((b | HEAP_XMIN_FROZEN) as u16)) by (bit_vector);
            }
            self.t_infomask.insert(HEAP_XMIN_FROZEN);
            Ok(())
        }
    }

    /// Unchecked fast path of `set_xmin_frozen`: the caller has already
    /// established that the header does not read "xmin invalid".
    pub fn set_xmin_frozen_unchecked(&mut self)
        requires
            !xmin_invalid_spec(old(self).t_infomask.bits),
        ensures
            *final(self) == old(self).with_mask_bits(
                old(self).t_infomask.bits | HEAP_XMIN_FROZEN,
            ),
            xmin_frozen_spec(final(self).t_infomask.bits),
    {
        proof {
            let b = self.t_infomask.bits;
            assert(xmin_frozen_spec((b | HEAP_XMIN_FROZEN) as u16)) by (bit_vector);
        }
        self.t_infomask.insert(HEAP_XMIN_FROZEN);
    }

    /// Resolve the updating transaction of a multixact xmax. Legal only
    /// when xmax carries the multixact bit and is not lock-only; `members`
    /// is the member list of that multixact, as obtained from the external
    /// member store.
    pub fn get_raw_update_xid(&self, members: &[MultiXactMember]) -> (r: TransactionIdResult)
        requires
            self.t_infomask.bits & HEAP_XMAX_LOCK_ONLY == 0,
            self.t_infomask.bits & HEAP_XMAX_IS_MULTI != 0,
        ensures
            match first_update_xid_spec(members@) {
                None => r == TransactionIdResult::Err(None),
                Some(xid) => classifies(xid.0, r),
            },
    {
        multi_xact_id_get_update_xid(members)
    }

    /// Read the id that updated this tuple. When xmax is a live multixact
    /// that is not lock-only, the answer comes from its member list
    /// (`members`, obtained from the external member store for the id in
    /// xmax); otherwise the plain xmax is classified as usual.
    pub fn get_update_xid(&self, members: &[MultiXactMember]) -> (r: TransactionIdResult)
        ensures
            ({
                let bits = self.t_infomask.bits;
                if bits & HEAP_XMAX_INVALID == 0 && bits & HEAP_XMAX_IS_MULTI != 0 && bits
                    & HEAP_XMAX_LOCK_ONLY == 0 {
                    match first_update_xid_spec(members@) {
                        None => r == TransactionIdResult::Err(None),
                        Some(xid) => classifies(xid.0, r),
                    }
                } else {
                    classifies(self.data_.t_heap.t_xmax.0, r)
                }
            }),
    {
        if self.t_infomask.bits & HEAP_XMAX_INVALID == 0 && self.t_infomask.bits
            & HEAP_XMAX_IS_MULTI != 0 && self.t_infomask.bits & HEAP_XMAX_LOCK_ONLY == 0 {
            self.get_raw_update_xid(members)
        } else {
            self.get_raw_xmax().to_normal()
        }
    }

    /// The raw stored deleting or locking id, uninterpreted.
    pub fn get_raw_xmax(&self) -> (r: TransactionId)
        ensures
            r == self.data_.t_heap.t_xmax,
    {
        self.data_.t_heap.t_xmax
    }

    /// Overwrite the deleting or locking id; the refinement type rules out
    /// storing the invalid value. Caller must hold the access mode
    /// appropriate to a header mutation.
    pub fn set_xmax(&mut self, xid: ValidTransactionId)
        ensures
            *final(self) == old(self).with_xmax(xid@),
            xid@ != 0,
    {
        self.data_.t_heap.t_xmax.store(xid);
    }

    /// The raw stored command-id slot, uninterpreted: a plain command id or
    /// a combo key, as decided by the `HEAP_COMBOCID` bit.
    pub fn get_raw_command_id(&self) -> (r: CommandId)
        ensures
            r == self.data_.t_heap.t_cid,
    {
        self.data_.t_heap.t_cid
    }

    /// Store the inserting command id: cmin is never combo-encoded, so the
    /// combo bit is cleared. Caller must hold the access mode appropriate
    /// to a header mutation.
    pub fn set_cmin(&mut self, cid: CommandId)
        ensures
            *final(self) == old(self).with_cid(cid.0).with_mask_bits(
                old(self).t_infomask.bits & !HEAP_COMBOCID,
            ),
            final(self).t_infomask.bits & HEAP_COMBOCID == 0,
    {
        proof {
            let b = self.t_infomask.bits;
            assert((b & !HEAP_COMBOCID) & HEAP_COMBOCID == 0) by (bit_vector);
        }
        self.data_.t_heap.t_cid = cid;
        self.t_infomask.remove(HEAP_COMBOCID);
    }

    /// Store the deleting command id: a combo key sets the combo bit, a
    /// plain maximum clears it. Caller must hold the access mode
    /// appropriate to a header mutation.
    pub fn set_cmax(&mut self, cid: CommandId, iscombo: Combo)
        ensures
            *final(self) == old(self).with_cid(cid.0).with_mask_bits(
                match iscombo {
                    Combo::Combo => old(self).t_infomask.bits | HEAP_COMBOCID,
                    Combo::Max => old(self).t_infomask.bits & !HEAP_COMBOCID,
                },
            ),
            (iscombo is Combo) == (final(self).t_infomask.bits & HEAP_COMBOCID != 0),
    {
        proof {
            let b = self.t_infomask.bits;
            assert((b | HEAP_COMBOCID) & HEAP_COMBOCID != 0) by (bit_vector);
            assert((b & !HEAP_COMBOCID) & HEAP_COMBOCID == 0) by (bit_vector);
        }
        self.data_.t_heap.t_cid = cid;
        match iscombo {
            Combo::Combo => self.t_infomask.insert(HEAP_COMBOCID),
            Combo::Max => self.t_infomask.remove(HEAP_COMBOCID),
        }
    }
}

/// The four flag bits of the low byte are pairwise disjoint; the derived
/// masks have exactly the documented compositions; and the visibility
/// aggregate is `0xFFF0`: it contains every named visibility bit and
/// excludes the low nibble.
pub proof fn lemma_info_mask_bit_layout()
    ensures
        HEAP_XMAX_KEYSHR_LOCK & HEAP_COMBOCID == 0,
        HEAP_XMAX_KEYSHR_LOCK & HEAP_XMAX_EXCL_LOCK == 0,
        HEAP_XMAX_KEYSHR_LOCK & HEAP_XMAX_LOCK_ONLY == 0,
        HEAP_COMBOCID & HEAP_XMAX_EXCL_LOCK == 0,
        HEAP_COMBOCID & HEAP_XMAX_LOCK_ONLY == 0,
        HEAP_XMAX_EXCL_LOCK & HEAP_XMAX_LOCK_ONLY == 0,
        HEAP_XMAX_SHR_LOCK == (HEAP_XMAX_EXCL_LOCK | HEAP_XMAX_KEYSHR_LOCK),
        HEAP_LOCK_MASK == (HEAP_XMAX_SHR_LOCK | HEAP_XMAX_EXCL_LOCK | HEAP_XMAX_KEYSHR_LOCK),
        HEAP_XACT_MASK == 0xFFF0,
        HEAP_XACT_MASK & 0x000F == 0,
        (HEAP_XMAX_KEYSHR_LOCK | HEAP_COMBOCID | HEAP_XMAX_EXCL_LOCK | HEAP_XMAX_LOCK_ONLY
            | HEAP_XMIN_COMMITTED | HEAP_XMIN_INVALID | HEAP_XMAX_COMMITTED | HEAP_XMAX_INVALID
            | HEAP_XMAX_IS_MULTI | HEAP_UPDATED) & HEAP_XACT_MASK == (HEAP_XMAX_KEYSHR_LOCK
            | HEAP_COMBOCID | HEAP_XMAX_EXCL_LOCK | HEAP_XMAX_LOCK_ONLY | HEAP_XMIN_COMMITTED
            | HEAP_XMIN_INVALID | HEAP_XMAX_COMMITTED | HEAP_XMAX_INVALID | HEAP_XMAX_IS_MULTI
            | HEAP_UPDATED),
{
    assert(HEAP_XMAX_KEYSHR_LOCK & HEAP_COMBOCID == 0 && HEAP_XMAX_KEYSHR_LOCK
        & HEAP_XMAX_EXCL_LOCK == 0 && HEAP_XMAX_KEYSHR_LOCK & HEAP_XMAX_LOCK_ONLY == 0
        && HEAP_COMBOCID & HEAP_XMAX_EXCL_LOCK == 0 && HEAP_COMBOCID & HEAP_XMAX_LOCK_ONLY == 0
        && HEAP_XMAX_EXCL_LOCK & HEAP_XMAX_LOCK_ONLY == 0) by (bit_vector);
    assert(HEAP_XACT_MASK & 0x000F == 0) by (bit_vector);
    assert((HEAP_XMAX_KEYSHR_LOCK | HEAP_COMBOCID | HEAP_XMAX_EXCL_LOCK | HEAP_XMAX_LOCK_ONLY
        | HEAP_XMIN_COMMITTED | HEAP_XMIN_INVALID | HEAP_XMAX_COMMITTED | HEAP_XMAX_INVALID
        | HEAP_XMAX_IS_MULTI | HEAP_UPDATED) & HEAP_XACT_MASK == (HEAP_XMAX_KEYSHR_LOCK
        | HEAP_COMBOCID | HEAP_XMAX_EXCL_LOCK | HEAP_XMAX_LOCK_ONLY | HEAP_XMIN_COMMITTED
        | HEAP_XMIN_INVALID | HEAP_XMAX_COMMITTED | HEAP_XMAX_INVALID | HEAP_XMAX_IS_MULTI
        | HEAP_UPDATED)) by (bit_vector);
}

/// A frozen reading and a plain-invalid reading of the same header never
/// coexist: the frozen bit combination excludes the invalid one.
pub proof fn lemma_xmin_frozen_excludes_invalid(bits: u16)
    ensures
        xmin_frozen_spec(bits) ==> !xmin_invalid_spec(bits),
{
    assert(xmin_frozen_spec(bits) ==> !xmin_invalid_spec(bits)) by (bit_vector);
}

/// An outer tuple wrapper: a length prefix, wrapper-specific storage `T`,
/// and the tuple data `U` (a header held inline or by reference).
pub struct HeapTupleHeader<T, U> {
    /// length of the tuple data
    pub t_len: u32,
    pub header_: T,
    /// tuple header and data
    pub t_data: U,
}

/// Wrapper storage of a transient in-memory tuple: none.
pub struct HeapTupleTemp;

/// Wrapper storage of a tuple read from disk: where it came from.
pub struct HeapTupleDisk {
    /// its own item pointer
    pub t_self: ItemPointerData,
    /// table the tuple came from
    pub t_table_oid: Oid,
}

/// A tuple wrapper that holds its tuple data by reference.
pub type HeapTupleIndirectData<'a, T, U, D> = HeapTupleHeader<T, &'a HeapTupleHeaderData<U, D>>;

/// A tuple wrapper that holds its tuple data inline.
pub type HeapTupleContiguousData<T, U, D> = HeapTupleHeader<T, HeapTupleHeaderData<U, D>>;

/// Platform maximum alignment, in bytes: payloads are aligned to this.
pub const MAXIMUM_ALIGNOF: usize = 8;

/// Width of a stored transaction id, in bytes.
pub const TRANSACTION_ID_WIDTH: usize = 4;
/// Width of the stored command-id slot, in bytes.
pub const COMMAND_ID_WIDTH: usize = 4;
/// Width of a stored block id, in bytes.
pub const BLOCK_ID_WIDTH: usize = 4;
/// Width of a stored offset number, in bytes.
pub const OFFSET_NUMBER_WIDTH: usize = 2;
/// Width of one info mask, in bytes.
pub const INFO_MASK_WIDTH: usize = 2;
/// Width of the outer wrapper's length prefix, in bytes.
pub const LENGTH_PREFIX_WIDTH: usize = 4;
/// Width of the visibility field block: xmin, xmax and the cid slot.
pub const HEAP_TUPLE_FIELDS_WIDTH: usize = TRANSACTION_ID_WIDTH + TRANSACTION_ID_WIDTH
    + COMMAND_ID_WIDTH;
/// Width of a stored item pointer: a block id plus an offset number.
pub const ITEM_POINTER_WIDTH: usize = BLOCK_ID_WIDTH + OFFSET_NUMBER_WIDTH;
/// Byte offset of the secondary info mask within a stored normal header:
/// everything kind-specific comes first.
pub const NORMAL_HEADER_MASK_OFFSET: usize = HEAP_TUPLE_FIELDS_WIDTH + ITEM_POINTER_WIDTH;

/// Header layout invariant, as a fixed constant: see
/// `minimal_tuple_padding`.
pub const MINIMAL_TUPLE_PADDING: usize = 6;

/// Construction-time self-check of the header layout invariant: the
/// distance from the length prefix to the mask block of a stored normal
/// header, modulo the platform maximum alignment, recomputed from the
/// widths of the preceding fields rather than hard-coded. Verification
/// pins it to `MINIMAL_TUPLE_PADDING`, so the constant cannot drift when a
/// field width changes.
pub fn minimal_tuple_padding() -> (r: usize)
    ensures
        r == MINIMAL_TUPLE_PADDING,
{
    (NORMAL_HEADER_MASK_OFFSET - LENGTH_PREFIX_WIDTH) % MAXIMUM_ALIGNOF
}

} // verus!
