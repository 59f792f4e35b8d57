//! Mathematical model of the escrow store: what each operation does, stated
//! over a sequence of entries. The executable operations in `store` promise
//! to behave exactly as these transition functions say, and the laws in
//! `laws` are proved about them.

use vstd::prelude::*;

use crate::types::Authority;
use crate::types::CustomError;
use crate::types::EscrowAccount;
use crate::types::ExecutionEvent;
use crate::types::LimitOrder;
use crate::types::OrderType;
use crate::types::Pubkey;

verus! {

/// One stored record together with the domain that currently holds write
/// authority over it.
#[derive(Clone, Copy, Debug, PartialEq, Eq, Structural)]
pub struct EscrowEntry {
    pub account: EscrowAccount,
    pub authority: Authority,
}

/// Does this entry sit at the address derived from `(owner, order_id)`?
pub open spec fn key_matches(e: EscrowEntry, owner: Pubkey, order_id: u64) -> bool {
    e.account.owner == owner && e.account.order_id == order_id
}

/// Some entry of `s` is addressed by `(owner, order_id)`.
pub open spec fn has_key(s: Seq<EscrowEntry>, owner: Pubkey, order_id: u64) -> bool {
    exists|i: int| 0 <= i < s.len() && #[trigger] key_matches(s[i], owner, order_id)
}

/// The index of the entry addressed by `(owner, order_id)`. Under
/// `unique_keys` there is at most one such index.
pub open spec fn idx_of(s: Seq<EscrowEntry>, owner: Pubkey, order_id: u64) -> int {
    choose|i: int| 0 <= i < s.len() && #[trigger] key_matches(s[i], owner, order_id)
}

/// The entry addressed by `(owner, order_id)`; meaningful when `has_key`.
pub open spec fn entry_of(s: Seq<EscrowEntry>, owner: Pubkey, order_id: u64) -> EscrowEntry {
    s[idx_of(s, owner, order_id)]
}

/// Each `(owner, order_id)` pair addresses at most one entry: the store is a
/// directory-free map from derived addresses to records.
pub open spec fn unique_keys(s: Seq<EscrowEntry>) -> bool {
    forall|i: int, j: int|
        #![trigger s[i], s[j]]
        0 <= i < s.len() && 0 <= j < s.len() && s[i].account.owner == s[j].account.owner
            && s[i].account.order_id == s[j].account.order_id ==> i == j
}

/// If an entry at `i` matches the key, it is the entry `idx_of` names.
pub proof fn lemma_idx_of_unique(s: Seq<EscrowEntry>, owner: Pubkey, order_id: u64, i: int)
    requires
        unique_keys(s),
        0 <= i < s.len(),
        key_matches(s[i], owner, order_id),
    ensures
        has_key(s, owner, order_id),
        idx_of(s, owner, order_id) == i,
{
    assert(has_key(s, owner, order_id));
    let j = idx_of(s, owner, order_id);
    assert(key_matches(s[j], owner, order_id));
}

/// Overwriting an entry with one that keeps its `(owner, order_id)` key
/// leaves the key structure of the store intact: uniqueness is preserved,
/// every key still addresses the index it did, and `idx_of` is unchanged
/// for every key.
pub proof fn lemma_update_keeps_keys(s: Seq<EscrowEntry>, i: int, e: EscrowEntry)
    requires
        unique_keys(s),
        0 <= i < s.len(),
        e.account.owner == s[i].account.owner,
        e.account.order_id == s[i].account.order_id,
    ensures
        unique_keys(s.update(i, e)),
        forall|o: Pubkey, d: u64|
            #![trigger has_key(s.update(i, e), o, d)]
            has_key(s.update(i, e), o, d) == has_key(s, o, d),
        forall|o: Pubkey, d: u64|
            #![trigger idx_of(s.update(i, e), o, d)]
            has_key(s, o, d) ==> idx_of(s.update(i, e), o, d) == idx_of(s, o, d),
{
    let s2 = s.update(i, e);
    assert forall|k: int, l: int|
        #![trigger s2[k], s2[l]]
        0 <= k < s2.len() && 0 <= l < s2.len() && s2[k].account.owner == s2[l].account.owner
            && s2[k].account.order_id == s2[l].account.order_id implies k == l by {
        assert(s2[k].account.owner == s[k].account.owner && s2[k].account.order_id
            == s[k].account.order_id);
        assert(s2[l].account.owner == s[l].account.owner && s2[l].account.order_id
            == s[l].account.order_id);
    }
    assert forall|o: Pubkey, d: u64| #![trigger has_key(s2, o, d)] has_key(s2, o, d) == has_key(
        s,
        o,
        d,
    ) by {
        if has_key(s2, o, d) {
            let k = idx_of(s2, o, d);
            assert(key_matches(s2[k], o, d));
            assert(key_matches(s[k], o, d));
            assert(has_key(s, o, d));
        }
        if has_key(s, o, d) {
            let k = idx_of(s, o, d);
            assert(key_matches(s[k], o, d));
            assert(key_matches(s2[k], o, d));
            assert(has_key(s2, o, d));
        }
    }
    assert forall|o: Pubkey, d: u64| #![trigger idx_of(s2, o, d)] has_key(s, o, d) implies idx_of(
        s2,
        o,
        d,
    ) == idx_of(s, o, d) by {
        let k = idx_of(s, o, d);
        assert(key_matches(s[k], o, d));
        assert(key_matches(s2[k], o, d));
        lemma_idx_of_unique(s2, o, d, k);
    }
}

/// The record a fresh `initialize_escrow` writes: zero balance, inactive
/// default Buy order.
pub open spec fn spec_new_account(owner: Pubkey, order_id: u64) -> EscrowAccount {
    EscrowAccount { owner, balance: 0, order_id, limit_order: LimitOrder::spec_default() }
}

/// Transition of `initialize_escrow`: create the record at the derived
/// address, or fail with `AlreadyExists` if that address already holds one.
/// A fresh record starts under primary-domain authority.
pub open spec fn spec_initialize_escrow(s: Seq<EscrowEntry>, owner: Pubkey, order_id: u64) -> (
    Seq<EscrowEntry>,
    Result<(), CustomError>,
) {
    if has_key(s, owner, order_id) {
        (s, Err(CustomError::AlreadyExists))
    } else {
        (
            s.push(
                EscrowEntry { account: spec_new_account(owner, order_id), authority: Authority::Primary },
            ),
            Ok(()),
        )
    }
}

/// Transition of `delegate_order`: hand write authority over the record to
/// the secondary domain. Only the record's owner may delegate; the record
/// must already exist. Idempotent for the caller.
pub open spec fn spec_delegate_order(
    s: Seq<EscrowEntry>,
    caller: Pubkey,
    owner: Pubkey,
    order_id: u64,
) -> (Seq<EscrowEntry>, Result<(), CustomError>) {
    if !has_key(s, owner, order_id) {
        (s, Err(CustomError::NotFound))
    } else if caller != owner {
        (s, Err(CustomError::Unauthorized))
    } else {
        let i = idx_of(s, owner, order_id);
        (s.update(i, EscrowEntry { authority: Authority::Secondary, ..s[i] }), Ok(()))
    }
}

/// Transition of `deposit_sol`: credit `amount` native units to the record's
/// balance with checked arithmetic. The call must arrive at the domain that
/// holds authority.
pub open spec fn spec_deposit_sol(
    s: Seq<EscrowEntry>,
    owner: Pubkey,
    order_id: u64,
    domain: Authority,
    amount: u64,
) -> (Seq<EscrowEntry>, Result<(), CustomError>) {
    if !has_key(s, owner, order_id) {
        (s, Err(CustomError::NotFound))
    } else {
        let i = idx_of(s, owner, order_id);
        let e = s[i];
        if e.authority != domain {
            (s, Err(CustomError::WrongDomain))
        } else if e.account.balance + amount > u64::MAX {
            (s, Err(CustomError::Overflow))
        } else {
            (
                s.update(
                    i,
                    EscrowEntry {
                        account: EscrowAccount {
                            balance: (e.account.balance + amount) as u64,
                            ..e.account
                        },
                        ..e
                    },
                ),
                Ok(()),
            )
        }
    }
}

/// Ten to the `d`-th power, the scaling factor of an asset with `d` decimal
/// places.
pub open spec fn spec_pow10(d: nat) -> nat
    decreases d,
{
    if d == 0 {
        1
    } else {
        10 * spec_pow10((d - 1) as nat)
    }
}

/// Powers of ten grow monotonically.
pub proof fn lemma_pow10_increases(a: nat, b: nat)
    requires
        a <= b,
    ensures
        spec_pow10(a) <= spec_pow10(b),
    decreases b,
{
    if a < b {
        lemma_pow10_increases(a, (b - 1) as nat);
        assert(spec_pow10(b) == 10 * spec_pow10((b - 1) as nat));
    }
}

/// Result of `deposit_tokens`: the store is never changed (asset deposits
/// are untracked in the native ledger — a documented limitation of this
/// core); on success the scaled base-unit amount to transfer is returned.
pub open spec fn spec_deposit_tokens(
    s: Seq<EscrowEntry>,
    owner: Pubkey,
    order_id: u64,
    domain: Authority,
    amount: u64,
    decimals: u8,
) -> Result<u64, CustomError> {
    if !has_key(s, owner, order_id) {
        Err(CustomError::NotFound)
    } else if entry_of(s, owner, order_id).authority != domain {
        Err(CustomError::WrongDomain)
    } else if spec_pow10(decimals as nat) > u64::MAX || amount * spec_pow10(decimals as nat)
        > u64::MAX {
        Err(CustomError::Overflow)
    } else {
        Ok((amount * spec_pow10(decimals as nat)) as u64)
    }
}

/// Transition of `create_limit_order`: overwrite the embedded order and
/// activate it. Owner-only; a Buy order requires the balance to cover the
/// limit price at activation time.
pub open spec fn spec_create_limit_order(
    s: Seq<EscrowEntry>,
    caller: Pubkey,
    owner: Pubkey,
    order_id: u64,
    domain: Authority,
    order_type: OrderType,
    token_mint: Pubkey,
    limit_price: u64,
) -> (Seq<EscrowEntry>, Result<(), CustomError>) {
    if !has_key(s, owner, order_id) {
        (s, Err(CustomError::NotFound))
    } else {
        let i = idx_of(s, owner, order_id);
        let e = s[i];
        if e.authority != domain {
            (s, Err(CustomError::WrongDomain))
        } else if caller != owner {
            (s, Err(CustomError::Unauthorized))
        } else if order_type == OrderType::Buy && e.account.balance < limit_price {
            (s, Err(CustomError::InsufficientFunds))
        } else {
            (
                s.update(
                    i,
                    EscrowEntry {
                        account: EscrowAccount {
                            limit_order: LimitOrder {
                                is_active: true,
                                order_type,
                                token_mint,
                                limit_price,
                            },
                            ..e.account
                        },
                        ..e
                    },
                ),
                Ok(()),
            )
        }
    }
}

/// Transition of `cancel_limit_order`: deactivate the order, leaving its
/// other fields as they are (stale but inert). Owner-only.
pub open spec fn spec_cancel_limit_order(
    s: Seq<EscrowEntry>,
    caller: Pubkey,
    owner: Pubkey,
    order_id: u64,
    domain: Authority,
) -> (Seq<EscrowEntry>, Result<(), CustomError>) {
    if !has_key(s, owner, order_id) {
        (s, Err(CustomError::NotFound))
    } else {
        let i = idx_of(s, owner, order_id);
        let e = s[i];
        if e.authority != domain {
            (s, Err(CustomError::WrongDomain))
        } else if caller != owner {
            (s, Err(CustomError::Unauthorized))
        } else {
            (
                s.update(
                    i,
                    EscrowEntry {
                        account: EscrowAccount {
                            limit_order: LimitOrder { is_active: false, ..e.account.limit_order },
                            ..e.account
                        },
                        ..e
                    },
                ),
                Ok(()),
            )
        }
    }
}

/// Result of `execute_limit_order`: the store is never changed (this core
/// records the execution event and performs no settlement); the order must
/// be active. Any signer may act as crank.
pub open spec fn spec_execute_limit_order(
    s: Seq<EscrowEntry>,
    owner: Pubkey,
    order_id: u64,
    domain: Authority,
) -> Result<ExecutionEvent, CustomError> {
    if !has_key(s, owner, order_id) {
        Err(CustomError::NotFound)
    } else {
        let e = entry_of(s, owner, order_id);
        if e.authority != domain {
            Err(CustomError::WrongDomain)
        } else if !e.account.limit_order.is_active {
            Err(CustomError::OrderNotActive)
        } else {
            Ok(
                ExecutionEvent {
                    owner: e.account.owner,
                    order_id: e.account.order_id,
                    order: e.account.limit_order,
                },
            )
        }
    }
}

/// One mutating operation against a record, with its arguments. The laws
/// about delegation and authorization quantify over this type.
#[derive(Clone, Copy, Debug, PartialEq, Eq, Structural)]
pub enum EscrowOp {
    DepositSol { amount: u64 },
    DepositTokens { token_mint: Pubkey, amount: u64, decimals: u8 },
    CreateLimitOrder { caller: Pubkey, order_type: OrderType, token_mint: Pubkey, limit_price: u64 },
    CancelLimitOrder { caller: Pubkey },
    ExecuteLimitOrder { crank: Pubkey },
}

/// The store and acknowledgement a mutating operation produces, with the
/// operation-specific payload of a success dropped.
pub open spec fn spec_apply_op(
    s: Seq<EscrowEntry>,
    owner: Pubkey,
    order_id: u64,
    domain: Authority,
    op: EscrowOp,
) -> (Seq<EscrowEntry>, Result<(), CustomError>) {
    match op {
        EscrowOp::DepositSol { amount } => spec_deposit_sol(s, owner, order_id, domain, amount),
        EscrowOp::DepositTokens { token_mint, amount, decimals } => (
            s,
            match spec_deposit_tokens(s, owner, order_id, domain, amount, decimals) {
                Ok(_) => Ok(()),
                Err(e) => Err(e),
            },
        ),
        EscrowOp::CreateLimitOrder { caller, order_type, token_mint, limit_price } => spec_create_limit_order(
            s,
            caller,
            owner,
            order_id,
            domain,
            order_type,
            token_mint,
            limit_price,
        ),
        EscrowOp::CancelLimitOrder { caller } => spec_cancel_limit_order(
            s,
            caller,
            owner,
            order_id,
            domain,
        ),
        EscrowOp::ExecuteLimitOrder { crank: _ } => (
            s,
            match spec_execute_limit_order(s, owner, order_id, domain) {
                Ok(_) => Ok(()),
                Err(e) => Err(e),
            },
        ),
    }
}

} // verus!
