//! Deterministic, directory-free addressing of escrow records.
//!
//! The storage address of a record is a pure function of its
//! `(owner, order_id)` pair and a fixed domain tag, so any party — the
//! crank, the secondary domain — can locate the record without a lookup
//! service. The derivation is proved collision-free across distinct pairs,
//! the property the whole addressing scheme rests on.

use vstd::bytes::lemma_auto_spec_u64_to_from_le_bytes;
use vstd::bytes::spec_u64_from_le_bytes;
use vstd::bytes::spec_u64_to_le_bytes;
use vstd::bytes::u64_to_le_bytes;
use vstd::prelude::*;

use crate::types::Pubkey;

verus! {

/// The fixed domain tag every escrow address starts with: the bytes of
/// `"escrow"`.
pub open spec fn spec_address_tag() -> Seq<u8> {
    seq![0x65u8, 0x73u8, 0x63u8, 0x72u8, 0x6fu8, 0x77u8]
}

/// The derived address: domain tag, then the owner's four identity words,
/// then the order id, each word in little-endian bytes. 46 bytes in all.
pub open spec fn spec_escrow_address(owner: Pubkey, order_id: u64) -> Seq<u8> {
    spec_address_tag() + spec_u64_to_le_bytes(owner.w0) + spec_u64_to_le_bytes(owner.w1)
        + spec_u64_to_le_bytes(owner.w2) + spec_u64_to_le_bytes(owner.w3) + spec_u64_to_le_bytes(
        order_id,
    )
}

/// Derive the storage address of the record for `(owner, order_id)`.
/// Reproducible by any observer holding the pair; no directory is needed.
pub fn derive_escrow_address(owner: Pubkey, order_id: u64) -> (addr: Vec<u8>)
    ensures
        addr@ == spec_escrow_address(owner, order_id),
        addr@.len() == 46,
{
    proof {
        lemma_auto_spec_u64_to_from_le_bytes();
    }
    let mut addr: Vec<u8> = Vec::new();
    addr.push(0x65);
    addr.push(0x73);
    addr.push(0x63);
    addr.push(0x72);
    addr.push(0x6f);
    addr.push(0x77);
    let mut part = u64_to_le_bytes(owner.w0);
    addr.append(&mut part);
    let mut part = u64_to_le_bytes(owner.w1);
    addr.append(&mut part);
    let mut part = u64_to_le_bytes(owner.w2);
    addr.append(&mut part);
    let mut part = u64_to_le_bytes(owner.w3);
    addr.append(&mut part);
    let mut part = u64_to_le_bytes(order_id);
    addr.append(&mut part);
    proof {
        assert(addr@ =~= spec_escrow_address(owner, order_id));
    }
    addr
}

/// A little-endian word is recovered from any 8-byte window that carries it,
/// so equal windows carry equal words.
proof fn lemma_le_window_injective(a: Seq<u8>, b: Seq<u8>, off: int, x: u64, y: u64)
    requires
        0 <= off,
        off + 8 <= a.len(),
        a.len() == b.len(),
        a.subrange(off, off + 8) == spec_u64_to_le_bytes(x),
        b.subrange(off, off + 8) == spec_u64_to_le_bytes(y),
        a == b,
    ensures
        x == y,
{
    lemma_auto_spec_u64_to_from_le_bytes();
    assert(spec_u64_from_le_bytes(spec_u64_to_le_bytes(x)) == x);
    assert(spec_u64_from_le_bytes(spec_u64_to_le_bytes(y)) == y);
}

/// Collision freedom: two `(owner, order_id)` pairs derive the same address
/// exactly when they are the same pair. Distinct records can therefore never
/// share a storage address, and any party recomputes the address of a given
/// record identically.
pub proof fn lemma_escrow_address_collision_free(o1: Pubkey, id1: u64, o2: Pubkey, id2: u64)
    ensures
        (spec_escrow_address(o1, id1) == spec_escrow_address(o2, id2)) <==> (o1 == o2 && id1
            == id2),
{
    lemma_auto_spec_u64_to_from_le_bytes();
    let a = spec_escrow_address(o1, id1);
    let b = spec_escrow_address(o2, id2);
    if a == b {
        assert(a.subrange(6, 14) =~= spec_u64_to_le_bytes(o1.w0));
        assert(a.subrange(14, 22) =~= spec_u64_to_le_bytes(o1.w1));
        assert(a.subrange(22, 30) =~= spec_u64_to_le_bytes(o1.w2));
        assert(a.subrange(30, 38) =~= spec_u64_to_le_bytes(o1.w3));
        assert(a.subrange(38, 46) =~= spec_u64_to_le_bytes(id1));
        assert(b.subrange(6, 14) =~= spec_u64_to_le_bytes(o2.w0));
        assert(b.subrange(14, 22) =~= spec_u64_to_le_bytes(o2.w1));
        assert(b.subrange(22, 30) =~= spec_u64_to_le_bytes(o2.w2));
        assert(b.subrange(30, 38) =~= spec_u64_to_le_bytes(o2.w3));
        assert(b.subrange(38, 46) =~= spec_u64_to_le_bytes(id2));
        lemma_le_window_injective(a, b, 6, o1.w0, o2.w0);
        lemma_le_window_injective(a, b, 14, o1.w1, o2.w1);
        lemma_le_window_injective(a, b, 22, o1.w2, o2.w2);
        lemma_le_window_injective(a, b, 30, o1.w3, o2.w3);
        lemma_le_window_injective(a, b, 38, id1, id2);
        assert(o1 == o2);
    }
}

} // verus!
