//! The persisted record layout: each escrow record is stored as a fixed
//! 90-byte payload — owner identity (32 bytes), balance (8), order id (8),
//! then the embedded order as activity flag (1), side (1), asset identifier
//! (32) and limit price (8), every word little-endian. Encoding and decoding
//! are proved inverse, so a record survives a round trip through storage
//! unchanged.

use vstd::bytes::lemma_auto_spec_u64_to_from_le_bytes;
use vstd::bytes::spec_u64_from_le_bytes;
use vstd::bytes::spec_u64_to_le_bytes;
use vstd::bytes::u64_from_le_bytes;
use vstd::bytes::u64_to_le_bytes;
use vstd::prelude::*;
use vstd::slice::slice_index_get;
use vstd::slice::slice_subrange;

use crate::types::EscrowAccount;
use crate::types::LimitOrder;
use crate::types::OrderType;
use crate::types::Pubkey;

verus! {

/// The fixed payload size of one persisted record, in bytes.
pub const RECORD_SIZE: usize = 90;

/// A 32-byte identity as its four words, each little-endian.
pub open spec fn spec_encode_pubkey(p: Pubkey) -> Seq<u8> {
    spec_u64_to_le_bytes(p.w0) + spec_u64_to_le_bytes(p.w1) + spec_u64_to_le_bytes(p.w2)
        + spec_u64_to_le_bytes(p.w3)
}

/// The identity whose four words sit at `off` in `s`.
pub open spec fn spec_decode_pubkey(s: Seq<u8>, off: int) -> Pubkey {
    Pubkey {
        w0: spec_u64_from_le_bytes(s.subrange(off, off + 8)),
        w1: spec_u64_from_le_bytes(s.subrange(off + 8, off + 16)),
        w2: spec_u64_from_le_bytes(s.subrange(off + 16, off + 24)),
        w3: spec_u64_from_le_bytes(s.subrange(off + 24, off + 32)),
    }
}

/// The one-byte tag of an order side.
pub open spec fn spec_order_type_byte(t: OrderType) -> u8 {
    match t {
        OrderType::Buy => 0,
        OrderType::Sell => 1,
    }
}

/// The 90-byte payload of a record.
pub open spec fn spec_encode_account(a: EscrowAccount) -> Seq<u8> {
    spec_encode_pubkey(a.owner) + spec_u64_to_le_bytes(a.balance) + spec_u64_to_le_bytes(
        a.order_id,
    ) + seq![
        if a.limit_order.is_active {
            1u8
        } else {
            0u8
        },
    ] + seq![spec_order_type_byte(a.limit_order.order_type)] + spec_encode_pubkey(
        a.limit_order.token_mint,
    ) + spec_u64_to_le_bytes(a.limit_order.limit_price)
}

/// The record a 90-byte payload holds, or `None` if the payload has the
/// wrong size or an activity or side byte outside its one-bit range.
pub open spec fn spec_decode_account(s: Seq<u8>) -> Option<EscrowAccount> {
    if s.len() != 90 || s[48] > 1 || s[49] > 1 {
        None
    } else {
        Some(
            EscrowAccount {
                owner: spec_decode_pubkey(s, 0),
                balance: spec_u64_from_le_bytes(s.subrange(32, 40)),
                order_id: spec_u64_from_le_bytes(s.subrange(40, 48)),
                limit_order: LimitOrder {
                    is_active: s[48] == 1,
                    order_type: if s[49] == 0 {
                        OrderType::Buy
                    } else {
                        OrderType::Sell
                    },
                    token_mint: spec_decode_pubkey(s, 50),
                    limit_price: spec_u64_from_le_bytes(s.subrange(82, 90)),
                },
            },
        )
    }
}

/// Append an identity's four little-endian words.
fn push_pubkey(out: &mut Vec<u8>, p: Pubkey)
    ensures
        final(out)@ == old(out)@ + spec_encode_pubkey(p),
{
    let mut part = u64_to_le_bytes(p.w0);
    out.append(&mut part);
    let mut part = u64_to_le_bytes(p.w1);
    out.append(&mut part);
    let mut part = u64_to_le_bytes(p.w2);
    out.append(&mut part);
    let mut part = u64_to_le_bytes(p.w3);
    out.append(&mut part);
    proof {
        assert(out@ =~= old(out)@ + spec_encode_pubkey(p));
    }
}

/// Serialize a record into its fixed 90-byte payload.
pub fn encode_escrow_account(a: &EscrowAccount) -> (out: Vec<u8>)
    ensures
        out@ == spec_encode_account(*a),
        out@.len() == RECORD_SIZE,
{
    proof {
        lemma_auto_spec_u64_to_from_le_bytes();
    }
    let mut out: Vec<u8> = Vec::new();
    push_pubkey(&mut out, a.owner);
    let mut part = u64_to_le_bytes(a.balance);
    out.append(&mut part);
    let mut part = u64_to_le_bytes(a.order_id);
    out.append(&mut part);
    out.push(if a.limit_order.is_active { 1 } else { 0 });
    out.push(
        match a.limit_order.order_type {
            OrderType::Buy => 0,
            OrderType::Sell => 1,
        },
    );
    push_pubkey(&mut out, a.limit_order.token_mint);
    let mut part = u64_to_le_bytes(a.limit_order.limit_price);
    out.append(&mut part);
    proof {
        assert(out@ =~= spec_encode_account(*a));
    }
    out
}

/// Read the identity at `off`.
fn read_pubkey(bytes: &[u8], off: usize) -> (p: Pubkey)
    requires
        off + 32 <= bytes@.len(),
        bytes@.len() <= usize::MAX,
    ensures
        p == spec_decode_pubkey(bytes@, off as int),
{
    let w0 = u64_from_le_bytes(slice_subrange(bytes, off, off + 8));
    let w1 = u64_from_le_bytes(slice_subrange(bytes, off + 8, off + 16));
    let w2 = u64_from_le_bytes(slice_subrange(bytes, off + 16, off + 24));
    let w3 = u64_from_le_bytes(slice_subrange(bytes, off + 24, off + 32));
    Pubkey { w0, w1, w2, w3 }
}

/// Deserialize a 90-byte payload back into a record; `None` on a payload of
/// the wrong size or with an out-of-range activity or side byte.
pub fn decode_escrow_account(bytes: &[u8]) -> (r: Option<EscrowAccount>)
    ensures
        r == spec_decode_account(bytes@),
{
    if bytes.len() != RECORD_SIZE {
        return None;
    }
    let active_byte = *slice_index_get(bytes, 48);
    let side_byte = *slice_index_get(bytes, 49);
    if active_byte > 1 || side_byte > 1 {
        return None;
    }
    let owner = read_pubkey(bytes, 0);
    let balance = u64_from_le_bytes(slice_subrange(bytes, 32, 40));
    let order_id = u64_from_le_bytes(slice_subrange(bytes, 40, 48));
    let token_mint = read_pubkey(bytes, 50);
    let limit_price = u64_from_le_bytes(slice_subrange(bytes, 82, 90));
    Some(
        EscrowAccount {
            owner,
            balance,
            order_id,
            limit_order: LimitOrder {
                is_active: active_byte == 1,
                order_type: if side_byte == 0 {
                    OrderType::Buy
                } else {
                    OrderType::Sell
                },
                token_mint,
                limit_price,
            },
        },
    )
}

/// An encoded identity decodes back to itself from any payload that carries
/// its 32 bytes at `off`.
proof fn lemma_pubkey_round_trip(s: Seq<u8>, off: int, p: Pubkey)
    requires
        0 <= off,
        off + 32 <= s.len(),
        s.subrange(off, off + 32) == spec_encode_pubkey(p),
    ensures
        spec_decode_pubkey(s, off) == p,
{
    lemma_auto_spec_u64_to_from_le_bytes();
    let a0 = spec_u64_to_le_bytes(p.w0);
    let a1 = spec_u64_to_le_bytes(p.w1);
    let a2 = spec_u64_to_le_bytes(p.w2);
    let a3 = spec_u64_to_le_bytes(p.w3);
    assert(a0.len() == 8 && a1.len() == 8 && a2.len() == 8 && a3.len() == 8);
    let window = s.subrange(off, off + 32);
    assert(s.subrange(off, off + 8) =~= a0) by {
        assert forall|k: int| 0 <= k < 8 implies s.subrange(off, off + 8)[k] == a0[k] by {
            assert(window[k] == s[off + k]);
            assert(window[k] == a0[k]);
        }
    }
    assert(s.subrange(off + 8, off + 16) =~= a1) by {
        assert forall|k: int| 0 <= k < 8 implies s.subrange(off + 8, off + 16)[k] == a1[k] by {
            assert(window[8 + k] == s[off + 8 + k]);
            assert(window[8 + k] == a1[k]);
        }
    }
    assert(s.subrange(off + 16, off + 24) =~= a2) by {
        assert forall|k: int| 0 <= k < 8 implies s.subrange(off + 16, off + 24)[k] == a2[k] by {
            assert(window[16 + k] == s[off + 16 + k]);
            assert(window[16 + k] == a2[k]);
        }
    }
    assert(s.subrange(off + 24, off + 32) =~= a3) by {
        assert forall|k: int| 0 <= k < 8 implies s.subrange(off + 24, off + 32)[k] == a3[k] by {
            assert(window[24 + k] == s[off + 24 + k]);
            assert(window[24 + k] == a3[k]);
        }
    }
}

/// Round trip: decoding an encoded record yields the record. Persisting a
/// record and loading it back is the identity.
pub proof fn lemma_codec_round_trip(a: EscrowAccount)
    ensures
        spec_decode_account(spec_encode_account(a)) == Some(a),
{
    lemma_auto_spec_u64_to_from_le_bytes();
    let s = spec_encode_account(a);
    assert(s.len() == 90);
    assert(s.subrange(0, 32) =~= spec_encode_pubkey(a.owner));
    lemma_pubkey_round_trip(s, 0, a.owner);
    assert(s.subrange(32, 40) =~= spec_u64_to_le_bytes(a.balance));
    assert(s.subrange(40, 48) =~= spec_u64_to_le_bytes(a.order_id));
    assert(s[48] == if a.limit_order.is_active {
        1u8
    } else {
        0u8
    });
    assert(s[49] == spec_order_type_byte(a.limit_order.order_type));
    assert(s.subrange(50, 82) =~= spec_encode_pubkey(a.limit_order.token_mint));
    lemma_pubkey_round_trip(s, 50, a.limit_order.token_mint);
    assert(s.subrange(82, 90) =~= spec_u64_to_le_bytes(a.limit_order.limit_price));
}

} // verus!
