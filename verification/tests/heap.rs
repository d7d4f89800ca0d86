use heap_mvcc::heap::{
    Combo, HeapInfoMask, HeapInfoMask2, HeapTupleContiguousData, HeapTupleFields,
    HeapTupleHeaderData, HeapTupleIndirectData, HeapTupleTemp, HintBitsConflict,
    MinimalTupleHeaderData, NormalTupleHeaderData,
    HEAP2_XACT_MASK, HEAP_COMBOCID, HEAP_LOCK_MASK, HEAP_NATTS_MASK, HEAP_TUPLE_FIELDS_WIDTH,
    HEAP_UPDATED, HEAP_XACT_MASK, HEAP_XMAX_BITS, HEAP_XMAX_COMMITTED, HEAP_XMAX_EXCL_LOCK,
    HEAP_XMAX_INVALID, HEAP_XMAX_IS_MULTI, HEAP_XMAX_KEYSHR_LOCK, HEAP_XMAX_LOCK_ONLY,
    HEAP_XMAX_SHR_LOCK, HEAP_XMIN_COMMITTED, HEAP_XMIN_FROZEN, HEAP_XMIN_INVALID,
    ITEM_POINTER_WIDTH, LENGTH_PREFIX_WIDTH, MAXIMUM_ALIGNOF, MINIMAL_TUPLE_PADDING,
    NORMAL_HEADER_MASK_OFFSET,
};
use heap_mvcc::multixact::{MultiXactMember, MultiXactStatus};
use heap_mvcc::trans::{SpecialTransactionId, TransactionId};
use heap_mvcc::{BlockIdData, CommandId, Datum, ItemPointerData, OffsetNumber};
use std::mem;

fn fresh_header(xmin: u32, xmax: u32, bits: u16) -> HeapTupleHeaderData<NormalTupleHeaderData, [Datum; 0]> {
    HeapTupleHeaderData {
        data_: NormalTupleHeaderData {
            t_heap: HeapTupleFields {
                t_xmin: TransactionId(xmin),
                t_xmax: TransactionId(xmax),
                t_cid: CommandId(0),
            },
            t_ctid: ItemPointerData {
                ip_blkid: BlockIdData { bi_hi: 0, bi_lo: 0 },
                ip_posid: OffsetNumber(0),
            },
        },
        t_infomask2: HeapInfoMask2::empty(),
        t_infomask: HeapInfoMask::from_bits(bits),
        rest_: [],
    }
}

#[test]
fn maximum_alignof() {
    assert_eq!(mem::align_of::<usize>(), MAXIMUM_ALIGNOF);
}

#[test]
fn heap_form_tuple() {
    let tuple: HeapTupleHeaderData<MinimalTupleHeaderData, [Datum; 1]> = HeapTupleHeaderData {
        data_: MinimalTupleHeaderData,
        t_infomask2: HeapInfoMask2::empty(),
        t_infomask: HeapInfoMask::from_bits(HEAP_LOCK_MASK),
        rest_: [1],
    };
    println!("{}: {}", tuple.rest_[0], tuple.t_infomask.bits());
}

#[test]
fn minimal_tuple_padding() {
    let offset = NORMAL_HEADER_MASK_OFFSET;
    let align = mem::align_of::<[Datum; 0]>();
    println!("{} {} {}", offset, HEAP_TUPLE_FIELDS_WIDTH, align);
    assert_eq!(mem::align_of::<[Datum; 0]>(), MAXIMUM_ALIGNOF);
    assert_eq!(mem::align_of::<[Datum; 1]>(), MAXIMUM_ALIGNOF);
    println!("{} {}", ITEM_POINTER_WIDTH, LENGTH_PREFIX_WIDTH);
    assert_eq!(heap_mvcc::heap::minimal_tuple_padding(), MINIMAL_TUPLE_PADDING);
    assert_eq!(MINIMAL_TUPLE_PADDING, 6);
}

#[test]
fn info_mask_bit_values() {
    assert_eq!(HEAP_XMAX_KEYSHR_LOCK, 0x0010);
    assert_eq!(HEAP_COMBOCID, 0x0020);
    assert_eq!(HEAP_XMAX_EXCL_LOCK, 0x0040);
    assert_eq!(HEAP_XMAX_LOCK_ONLY, 0x0080);
    assert_eq!(HEAP_XMAX_SHR_LOCK, HEAP_XMAX_EXCL_LOCK | HEAP_XMAX_KEYSHR_LOCK);
    assert_eq!(
        HEAP_LOCK_MASK,
        HEAP_XMAX_SHR_LOCK | HEAP_XMAX_EXCL_LOCK | HEAP_XMAX_KEYSHR_LOCK
    );
    assert_eq!(HEAP_XMIN_COMMITTED, 0x0100);
    assert_eq!(HEAP_XMIN_INVALID, 0x0200);
    assert_eq!(HEAP_XMIN_FROZEN, HEAP_XMIN_COMMITTED | HEAP_XMIN_INVALID);
    assert_eq!(HEAP_XMAX_COMMITTED, 0x0400);
    assert_eq!(HEAP_XMAX_INVALID, 0x0800);
    assert_eq!(HEAP_XMAX_IS_MULTI, 0x1000);
    assert_eq!(HEAP_UPDATED, 0x2000);
    assert_eq!(HEAP_XACT_MASK, 0xFFF0);
    assert_eq!(
        HEAP_XMAX_BITS,
        HEAP_XMAX_COMMITTED | HEAP_XMAX_INVALID | HEAP_XMAX_IS_MULTI | HEAP_LOCK_MASK
            | HEAP_XMAX_LOCK_ONLY
    );
    assert_eq!(HEAP_NATTS_MASK, 0x07FF);
    assert_eq!(HEAP2_XACT_MASK, 0xE000);
    // the four low-byte flag bits are pairwise disjoint
    assert_eq!(HEAP_XMAX_KEYSHR_LOCK & HEAP_COMBOCID, 0);
    assert_eq!(HEAP_XMAX_KEYSHR_LOCK & HEAP_XMAX_EXCL_LOCK, 0);
    assert_eq!(HEAP_XMAX_KEYSHR_LOCK & HEAP_XMAX_LOCK_ONLY, 0);
    assert_eq!(HEAP_COMBOCID & HEAP_XMAX_EXCL_LOCK, 0);
    assert_eq!(HEAP_COMBOCID & HEAP_XMAX_LOCK_ONLY, 0);
    assert_eq!(HEAP_XMAX_EXCL_LOCK & HEAP_XMAX_LOCK_ONLY, 0);
    assert_eq!(HEAP_XACT_MASK & 0x000F, 0);
}

#[test]
fn info_mask_combinators() {
    let mut m = HeapInfoMask::empty();
    assert!(m.is_empty());
    assert_eq!(m.bits(), 0);
    m.insert(HEAP_XMIN_COMMITTED | HEAP_UPDATED);
    assert!(!m.is_empty());
    assert!(m.contains(HEAP_XMIN_COMMITTED));
    assert!(m.contains(HEAP_XMIN_COMMITTED | HEAP_UPDATED));
    assert!(!m.contains(HEAP_XMIN_FROZEN));
    assert!(m.intersects(HEAP_XMIN_FROZEN));
    assert!(!m.intersects(HEAP_COMBOCID));
    m.remove(HEAP_UPDATED);
    assert_eq!(m.bits(), HEAP_XMIN_COMMITTED);
    let m2 = HeapInfoMask2::from_bits(0x0005 | HEAP2_XACT_MASK);
    assert_eq!(m2.natts(), 5);
}

#[test]
fn frozen_reading_excludes_invalid_reading() {
    let frozen = fresh_header(100, 0, HEAP_XMIN_FROZEN);
    assert!(frozen.xmin_frozen());
    assert!(!frozen.xmin_invalid());
    let invalid = fresh_header(100, 0, HEAP_XMIN_INVALID);
    assert!(!invalid.xmin_frozen());
    assert!(invalid.xmin_invalid());
}

#[test]
fn insert_scenario() {
    let mut h = fresh_header(100, 0, 0);
    assert_eq!(h.get_raw_xmin().0, 100);
    assert_eq!(h.get_raw_xmax().0, 0);
    assert!(!h.get_raw_xmax().is_valid());
    assert_eq!(h.get_xmin().unwrap().unwrap().0, 100);
    assert_eq!(h.set_xmin_committed(), Ok(()));
    assert!(h.xmin_committed());
    assert_eq!(h.get_xmin().unwrap().unwrap().0, 100);
}

#[test]
fn freeze_scenario() {
    let mut h = fresh_header(77, 0, 0);
    assert_eq!(h.set_xmin_frozen(), Ok(()));
    assert_eq!(h.get_xmin(), Err(Some(SpecialTransactionId::Frozen)));
    // the raw stored value no longer matters, even a reserved one
    let mut h2 = fresh_header(1, 0, HEAP_XMIN_FROZEN);
    assert_eq!(h2.get_xmin(), Err(Some(SpecialTransactionId::Frozen)));
    // freezing again is still accepted and changes nothing
    assert_eq!(h2.set_xmin_frozen(), Ok(()));
    assert_eq!(h2.t_infomask.bits(), HEAP_XMIN_FROZEN);
}

#[test]
fn invalid_hint_rejected_after_committed() {
    let mut h = fresh_header(100, 0, 0);
    assert_eq!(h.set_xmin_committed(), Ok(()));
    assert_eq!(h.set_xmin_invalid(), Err(HintBitsConflict));
    assert_eq!(h.t_infomask.bits(), HEAP_XMIN_COMMITTED);
}

#[test]
fn committed_hint_rejected_after_invalid() {
    let mut h = fresh_header(100, 0, 0);
    assert_eq!(h.set_xmin_invalid(), Ok(()));
    assert!(h.xmin_invalid());
    assert_eq!(h.set_xmin_committed(), Err(HintBitsConflict));
    assert_eq!(h.set_xmin_frozen(), Err(HintBitsConflict));
    assert_eq!(h.t_infomask.bits(), HEAP_XMIN_INVALID);
}

#[test]
fn hint_setters_accept_frozen_header() {
    let mut h = fresh_header(100, 0, HEAP_XMIN_FROZEN);
    assert_eq!(h.set_xmin_committed(), Ok(()));
    assert_eq!(h.set_xmin_invalid(), Ok(()));
    assert_eq!(h.t_infomask.bits(), HEAP_XMIN_FROZEN);
}

#[test]
fn combo_cid_round_trip() {
    let mut h = fresh_header(100, 0, 0);
    h.set_cmin(CommandId(7));
    assert_eq!(h.get_raw_command_id(), CommandId(7));
    assert!(!h.t_infomask.intersects(HEAP_COMBOCID));
    h.set_cmax(CommandId(9), Combo::Combo);
    assert_eq!(h.get_raw_command_id(), CommandId(9));
    assert!(h.t_infomask.intersects(HEAP_COMBOCID));
    h.set_cmax(CommandId(11), Combo::Max);
    assert_eq!(h.get_raw_command_id(), CommandId(11));
    assert!(!h.t_infomask.intersects(HEAP_COMBOCID));
}

#[test]
fn set_xmin_and_xmax_store_valid_ids() {
    let mut h = fresh_header(0, 0, 0);
    h.set_xmin(TransactionId(321).to_valid().unwrap());
    h.set_xmax(TransactionId(654).to_valid().unwrap());
    assert_eq!(h.get_raw_xmin().0, 321);
    assert_eq!(h.get_raw_xmax().0, 654);
    assert_eq!(h.t_infomask.bits(), 0);
}

#[test]
fn lock_classification_exact_equality() {
    let keyshr = HeapInfoMask::from_bits(HEAP_XMAX_KEYSHR_LOCK);
    assert!(keyshr.xmax_is_keyshr_locked());
    assert!(!keyshr.xmax_is_excl_locked());
    assert!(!keyshr.xmax_is_shr_locked());
    let excl = HeapInfoMask::from_bits(HEAP_XMAX_EXCL_LOCK);
    assert!(excl.xmax_is_excl_locked());
    assert!(!excl.xmax_is_keyshr_locked());
    assert!(!excl.xmax_is_shr_locked());
    let shr = HeapInfoMask::from_bits(HEAP_XMAX_SHR_LOCK);
    assert!(shr.xmax_is_shr_locked());
    assert!(!shr.xmax_is_excl_locked());
    assert!(!shr.xmax_is_keyshr_locked());
}

#[test]
fn degenerate_lock_mask_state() {
    // all lock-strength bits at once: a contradictory reading
    let m = HeapInfoMask::from_bits(HEAP_LOCK_MASK);
    assert!(!m.xmax_is_excl_locked());
    assert!(!m.xmax_is_keyshr_locked());
    // the lock-only rule is evaluated independently of that combination:
    // no dedicated bit, and the legacy clause asks for exactly an
    // exclusive lock
    assert!(!HeapInfoMask::from_bits(HEAP_LOCK_MASK | HEAP_XMAX_IS_MULTI).xmax_is_locked_only());
}

#[test]
fn locked_only_rule() {
    assert!(HeapInfoMask::from_bits(HEAP_XMAX_LOCK_ONLY).xmax_is_locked_only());
    // legacy encoding: plain exclusive lock, no multixact, no dedicated bit
    assert!(HeapInfoMask::from_bits(HEAP_XMAX_EXCL_LOCK).xmax_is_locked_only());
    assert!(!HeapInfoMask::from_bits(HEAP_XMAX_EXCL_LOCK | HEAP_XMAX_IS_MULTI).xmax_is_locked_only());
    assert!(!HeapInfoMask::from_bits(HEAP_XMAX_SHR_LOCK).xmax_is_locked_only());
    assert!(!HeapInfoMask::from_bits(0).xmax_is_locked_only());
}

#[test]
fn update_xid_resolved_from_members() {
    let h = fresh_header(100, 8, HEAP_XMAX_IS_MULTI);
    let members = vec![
        MultiXactMember { xid: TransactionId(200), status: MultiXactStatus::ForShare },
        MultiXactMember { xid: TransactionId(300), status: MultiXactStatus::Update },
        MultiXactMember { xid: TransactionId(400), status: MultiXactStatus::ForKeyShare },
    ];
    assert_eq!(h.get_raw_update_xid(&members).unwrap().unwrap().0, 300);
    assert_eq!(h.get_update_xid(&members).unwrap().unwrap().0, 300);
}

#[test]
fn update_xid_without_update_member_signals_no_live_updater() {
    let h = fresh_header(100, 8, HEAP_XMAX_IS_MULTI);
    let members = vec![
        MultiXactMember { xid: TransactionId(200), status: MultiXactStatus::ForShare },
        MultiXactMember { xid: TransactionId(400), status: MultiXactStatus::ForKeyShare },
    ];
    assert_eq!(h.get_update_xid(&members), Err(None));
    assert_eq!(h.get_update_xid(&[]), Err(None));
}

#[test]
fn update_xid_of_plain_xmax() {
    let h = fresh_header(100, 500, 0);
    assert_eq!(h.get_update_xid(&[]).unwrap().unwrap().0, 500);
    // a lock-only multixact is not consulted: the raw xmax is classified
    let locked = fresh_header(100, 8, HEAP_XMAX_IS_MULTI | HEAP_XMAX_LOCK_ONLY);
    assert_eq!(locked.get_update_xid(&[]).unwrap().unwrap().0, 8);
    // an invalidated xmax is not consulted either
    let invalidated = fresh_header(100, 0, HEAP_XMAX_IS_MULTI | HEAP_XMAX_INVALID);
    assert_eq!(invalidated.get_update_xid(&[]), Err(None));
}

#[test]
fn tuple_wrappers_hold_data_inline_or_by_reference() {
    let header = fresh_header(100, 0, 0);
    let contiguous: HeapTupleContiguousData<HeapTupleTemp, NormalTupleHeaderData, [Datum; 0]> =
        heap_mvcc::heap::HeapTupleHeader { t_len: 0, header_: HeapTupleTemp, t_data: header };
    assert_eq!(contiguous.t_data.get_raw_xmin().0, 100);
    let indirect: HeapTupleIndirectData<HeapTupleTemp, NormalTupleHeaderData, [Datum; 0]> =
        heap_mvcc::heap::HeapTupleHeader {
            t_len: 0,
            header_: HeapTupleTemp,
            t_data: &contiguous.t_data,
        };
    assert_eq!(indirect.t_data.get_raw_xmin().0, 100);
}

#[test]
fn minimal_kind_has_no_visibility_storage() {
    assert_eq!(mem::size_of::<MinimalTupleHeaderData>(), 0);
}
