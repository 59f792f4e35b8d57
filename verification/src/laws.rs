//! Laws of the escrow core, proved over the transition functions in `state`
//! that every executable operation is bound to by its contract.

use vstd::prelude::*;

use crate::address::lemma_escrow_address_collision_free;
use crate::address::spec_escrow_address;
use crate::state::entry_of;
use crate::state::has_key;
use crate::state::idx_of;
use crate::state::key_matches;
use crate::state::lemma_update_keeps_keys;
use crate::state::spec_apply_op;
use crate::state::spec_cancel_limit_order;
use crate::state::spec_create_limit_order;
use crate::state::spec_delegate_order;
use crate::state::spec_deposit_sol;
use crate::state::spec_execute_limit_order;
use crate::state::spec_initialize_escrow;
use crate::state::unique_keys;
use crate::state::EscrowEntry;
use crate::state::EscrowOp;
use crate::types::Authority;
use crate::types::EscrowAccount;
use crate::types::CustomError;
use crate::types::ExecutionEvent;
use crate::types::LimitOrder;
use crate::types::OrderType;
use crate::types::Pubkey;

verus! {

/// Initializing the same `(owner, order_id)` pair twice fails: whatever the
/// first call did, the second fails with `AlreadyExists` and changes
/// nothing, so the record the first call created (or found) is untouched.
pub proof fn lemma_initialize_twice_fails(s: Seq<EscrowEntry>, owner: Pubkey, order_id: u64)
    ensures
        ({
            let first = spec_initialize_escrow(s, owner, order_id);
            let second = spec_initialize_escrow(first.0, owner, order_id);
            &&& second.1 == Err::<(), CustomError>(CustomError::AlreadyExists)
            &&& second.0 == first.0
        }),
{
    let first = spec_initialize_escrow(s, owner, order_id);
    if !has_key(s, owner, order_id) {
        assert(key_matches(first.0[s.len() as int], owner, order_id));
        assert(has_key(first.0, owner, order_id));
    }
}

/// In a well-formed store no two records share a storage address: record
/// identity by `(owner, order_id)` pair and identity by derived address
/// coincide, because the derivation is collision-free.
pub proof fn lemma_wf_store_has_distinct_addresses(s: Seq<EscrowEntry>)
    requires
        unique_keys(s),
    ensures
        forall|i: int, j: int|
            #![trigger s[i], s[j]]
            0 <= i < s.len() && 0 <= j < s.len() && i != j ==> spec_escrow_address(
                s[i].account.owner,
                s[i].account.order_id,
            ) != spec_escrow_address(s[j].account.owner, s[j].account.order_id),
{
    assert forall|i: int, j: int|
        #![trigger s[i], s[j]]
        0 <= i < s.len() && 0 <= j < s.len() && i != j implies spec_escrow_address(
        s[i].account.owner,
        s[i].account.order_id,
    ) != spec_escrow_address(s[j].account.owner, s[j].account.order_id) by {
        lemma_escrow_address_collision_free(
            s[i].account.owner,
            s[i].account.order_id,
            s[j].account.owner,
            s[j].account.order_id,
        );
    }
}

/// The sum of a sequence of deposit amounts.
pub open spec fn spec_sum(amounts: Seq<u64>) -> int
    decreases amounts.len(),
{
    if amounts.len() == 0 {
        0
    } else {
        amounts[0] + spec_sum(amounts.drop_first())
    }
}

/// A sequence of native deposits applied in order, stopping at the first
/// failure with the state the prior deposits produced.
pub open spec fn spec_deposit_many(
    s: Seq<EscrowEntry>,
    owner: Pubkey,
    order_id: u64,
    domain: Authority,
    amounts: Seq<u64>,
) -> (Seq<EscrowEntry>, Result<(), CustomError>)
    decreases amounts.len(),
{
    if amounts.len() == 0 {
        (s, Ok(()))
    } else {
        let step = spec_deposit_sol(s, owner, order_id, domain, amounts[0]);
        if step.1 is Err {
            step
        } else {
            spec_deposit_many(step.0, owner, order_id, domain, amounts.drop_first())
        }
    }
}

/// The ledger is a faithful accumulator: after any sequence of deposits that
/// all succeed, the balance has grown by exactly their sum; and the only way
/// such a sequence can fail, once the record exists and the right domain is
/// addressed, is an `Overflow`, which is raised before the failing deposit
/// credits anything. Everything else about the record is left untouched.
pub proof fn lemma_deposits_accumulate(
    s: Seq<EscrowEntry>,
    owner: Pubkey,
    order_id: u64,
    domain: Authority,
    amounts: Seq<u64>,
)
    requires
        unique_keys(s),
        has_key(s, owner, order_id),
        entry_of(s, owner, order_id).authority == domain,
    ensures
        ({
            let r = spec_deposit_many(s, owner, order_id, domain, amounts);
            &&& r.1 is Ok ==> entry_of(r.0, owner, order_id).account.balance == entry_of(
                s,
                owner,
                order_id,
            ).account.balance + spec_sum(amounts)
            &&& r.1 is Err ==> r.1 == Err::<(), CustomError>(CustomError::Overflow)
            &&& r.1 is Err ==> exists|n: int|
                0 <= n < amounts.len() && entry_of(r.0, owner, order_id).account.balance
                    == entry_of(s, owner, order_id).account.balance + spec_sum(amounts.take(n))
                    && entry_of(r.0, owner, order_id).account.balance + #[trigger] amounts[n]
                    > u64::MAX
            &&& entry_of(r.0, owner, order_id).account.limit_order == entry_of(
                s,
                owner,
                order_id,
            ).account.limit_order
            &&& entry_of(r.0, owner, order_id).account.owner == owner
            &&& entry_of(r.0, owner, order_id).account.order_id == order_id
        }),
    decreases amounts.len(),
{
    let i = idx_of(s, owner, order_id);
    assert(key_matches(s[i], owner, order_id));
    let b0 = entry_of(s, owner, order_id).account.balance;
    if amounts.len() > 0 {
        let step = spec_deposit_sol(s, owner, order_id, domain, amounts[0]);
        if step.1 is Ok {
            let e = s[i];
            let e2 = EscrowEntry {
                account: EscrowAccount {
                    balance: (e.account.balance + amounts[0]) as u64,
                    ..e.account
                },
                ..e
            };
            lemma_update_keeps_keys(s, i, e2);
            assert(entry_of(step.0, owner, order_id) == e2);
            let rest = amounts.drop_first();
            lemma_deposits_accumulate(step.0, owner, order_id, domain, rest);
            let r = spec_deposit_many(s, owner, order_id, domain, amounts);
            if r.1 is Err {
                // Lift the failing-step witness of the tail to the full
                // sequence: prior deposits shift the prefix sum by the first
                // amount.
                let b1 = entry_of(step.0, owner, order_id).account.balance;
                let br = entry_of(r.0, owner, order_id).account.balance;
                let m = choose|m: int|
                    0 <= m < rest.len() && entry_of(
                        spec_deposit_many(step.0, owner, order_id, domain, rest).0,
                        owner,
                        order_id,
                    ).account.balance == entry_of(step.0, owner, order_id).account.balance
                        + spec_sum(rest.take(m)) && entry_of(
                        spec_deposit_many(step.0, owner, order_id, domain, rest).0,
                        owner,
                        order_id,
                    ).account.balance + #[trigger] rest[m] > u64::MAX;
                assert(amounts.take(m + 1).drop_first() =~= rest.take(m));
                assert(spec_sum(amounts.take(m + 1)) == amounts[0] + spec_sum(rest.take(m)));
                assert(b1 == b0 + amounts[0]);
                assert(br == b0 + spec_sum(amounts.take(m + 1)));
                assert(amounts[m + 1] == rest[m]);
                assert(br + amounts[m + 1] > u64::MAX);
                assert(0 <= m + 1 < amounts.len());
            }
        } else {
            // The very first deposit already overflows: the state is
            // untouched and the empty prefix sums to zero.
            assert(amounts.take(0) =~= Seq::<u64>::empty());
            assert(spec_sum(amounts.take(0)) == 0);
            assert(b0 + amounts[0] > u64::MAX);
            let r = spec_deposit_many(s, owner, order_id, domain, amounts);
            assert(entry_of(r.0, owner, order_id).account.balance == b0 + spec_sum(
                amounts.take(0),
            ) && entry_of(r.0, owner, order_id).account.balance + amounts[0] > u64::MAX);
        }
    }
}

/// A Buy order whose limit price exceeds the reserved balance is never
/// activated: once the record is addressed at its authoritative domain by
/// its owner, activation fails with `InsufficientFunds` and the store — the
/// embedded order in particular — is unchanged.
pub proof fn lemma_buy_above_balance_rejected(
    s: Seq<EscrowEntry>,
    owner: Pubkey,
    order_id: u64,
    domain: Authority,
    token_mint: Pubkey,
    limit_price: u64,
)
    requires
        unique_keys(s),
        has_key(s, owner, order_id),
        entry_of(s, owner, order_id).authority == domain,
        limit_price > entry_of(s, owner, order_id).account.balance,
    ensures
        spec_create_limit_order(
            s,
            owner,
            owner,
            order_id,
            domain,
            OrderType::Buy,
            token_mint,
            limit_price,
        ) == (s, Err::<(), CustomError>(CustomError::InsufficientFunds)),
{
}

/// Cancelling always deactivates: whatever state the order was in, after a
/// cancel by the owner `is_active` is false, and a subsequent execution
/// attempt fails with `OrderNotActive` without touching the store.
pub proof fn lemma_cancel_blocks_execution(
    s: Seq<EscrowEntry>,
    owner: Pubkey,
    order_id: u64,
    domain: Authority,
)
    requires
        unique_keys(s),
        has_key(s, owner, order_id),
        entry_of(s, owner, order_id).authority == domain,
    ensures
        ({
            let c = spec_cancel_limit_order(s, owner, owner, order_id, domain);
            &&& c.1 == Ok::<(), CustomError>(())
            &&& entry_of(c.0, owner, order_id).account.limit_order.is_active == false
            &&& spec_execute_limit_order(c.0, owner, order_id, domain) == Err::<
                ExecutionEvent,
                CustomError,
            >(CustomError::OrderNotActive)
        }),
{
    let i = idx_of(s, owner, order_id);
    assert(key_matches(s[i], owner, order_id));
    let e = s[i];
    let e2 = EscrowEntry {
        account: EscrowAccount {
            limit_order: LimitOrder { is_active: false, ..e.account.limit_order },
            ..e.account
        },
        ..e
    };
    lemma_update_keeps_keys(s, i, e2);
    assert(entry_of(spec_cancel_limit_order(s, owner, owner, order_id, domain).0, owner, order_id)
        == e2);
}

/// Delegation makes the two domains mutually exclusive writers and is
/// otherwise transparent. After the owner delegates a record that the
/// primary domain held: every mutating operation issued against the primary
/// domain fails with `WrongDomain` and changes nothing; the identical
/// operation issued against the secondary domain returns the very
/// acknowledgement the operation would have returned on the primary domain
/// had delegation never occurred, and leaves every record's account in the
/// very state that un-delegated operation would have left it in — only the
/// authority tag of the delegated record differs.
pub proof fn lemma_delegation_exclusive_and_transparent(
    s: Seq<EscrowEntry>,
    owner: Pubkey,
    order_id: u64,
    op: EscrowOp,
)
    requires
        unique_keys(s),
        has_key(s, owner, order_id),
        entry_of(s, owner, order_id).authority == Authority::Primary,
    ensures
        spec_delegate_order(s, owner, owner, order_id).1 == Ok::<(), CustomError>(()),
        ({
            let s1 = spec_delegate_order(s, owner, owner, order_id).0;
            let on_primary = spec_apply_op(s1, owner, order_id, Authority::Primary, op);
            let on_secondary = spec_apply_op(s1, owner, order_id, Authority::Secondary, op);
            let undelegated = spec_apply_op(s, owner, order_id, Authority::Primary, op);
            let i = idx_of(s, owner, order_id);
            &&& on_primary == (s1, Err::<(), CustomError>(CustomError::WrongDomain))
            &&& on_secondary.1 == undelegated.1
            &&& on_secondary.0.len() == s.len() && undelegated.0.len() == s.len()
            &&& forall|j: int|
                0 <= j < s.len() && j != i ==> on_secondary.0[j] == s[j] && undelegated.0[j] == s[j]
            &&& on_secondary.0[i].account == undelegated.0[i].account
            &&& on_secondary.0[i].authority == Authority::Secondary
            &&& undelegated.0[i].authority == Authority::Primary
        }),
{
    let i = idx_of(s, owner, order_id);
    assert(key_matches(s[i], owner, order_id));
    let e = s[i];
    let e1 = EscrowEntry { authority: Authority::Secondary, ..e };
    lemma_update_keeps_keys(s, i, e1);
    let s1 = s.update(i, e1);
    assert(spec_delegate_order(s, owner, owner, order_id).0 == s1);
    assert(entry_of(s1, owner, order_id) == e1);
    match op {
        EscrowOp::DepositSol { amount } => {
            if e.account.balance + amount <= u64::MAX {
                let e2 = EscrowEntry {
                    account: EscrowAccount {
                        balance: (e.account.balance + amount) as u64,
                        ..e.account
                    },
                    ..e
                };
                lemma_update_keeps_keys(s, i, e2);
                lemma_update_keeps_keys(s1, i, EscrowEntry { account: e2.account, ..e1 });
            }
        },
        EscrowOp::DepositTokens { .. } => {},
        EscrowOp::CreateLimitOrder { caller, order_type, token_mint, limit_price } => {
            if caller == owner && !(order_type == OrderType::Buy && e.account.balance
                < limit_price) {
                let acc2 = EscrowAccount {
                    limit_order: LimitOrder {
                        is_active: true,
                        order_type,
                        token_mint,
                        limit_price,
                    },
                    ..e.account
                };
                lemma_update_keeps_keys(s, i, EscrowEntry { account: acc2, ..e });
                lemma_update_keeps_keys(s1, i, EscrowEntry { account: acc2, ..e1 });
            }
        },
        EscrowOp::CancelLimitOrder { caller } => {
            if caller == owner {
                let acc2 = EscrowAccount {
                    limit_order: LimitOrder {
                        is_active: false,
                        ..e.account.limit_order
                    },
                    ..e.account
                };
                lemma_update_keeps_keys(s, i, EscrowEntry { account: acc2, ..e });
                lemma_update_keeps_keys(s1, i, EscrowEntry { account: acc2, ..e1 });
            }
        },
        EscrowOp::ExecuteLimitOrder { .. } => {},
    }
}

/// The caller an operation claims to act for, where the operation is
/// owner-only.
pub open spec fn owner_only_caller(op: EscrowOp) -> Option<Pubkey> {
    match op {
        EscrowOp::CreateLimitOrder { caller, .. } => Some(caller),
        EscrowOp::CancelLimitOrder { caller } => Some(caller),
        _ => None,
    }
}

/// Owner-only operations on a record demand the owner: invoked by any other
/// identity they fail with `Unauthorized` and leave the store unchanged.
/// Together with `lemma_delegate_requires_owner` this covers every
/// owner-only operation: create, cancel and delegate.
pub proof fn lemma_owner_only_requires_owner(
    s: Seq<EscrowEntry>,
    owner: Pubkey,
    order_id: u64,
    domain: Authority,
    op: EscrowOp,
)
    requires
        unique_keys(s),
        has_key(s, owner, order_id),
        entry_of(s, owner, order_id).authority == domain,
        owner_only_caller(op) is Some,
        owner_only_caller(op) != Some(owner),
    ensures
        spec_apply_op(s, owner, order_id, domain, op) == (
            s,
            Err::<(), CustomError>(CustomError::Unauthorized),
        ),
{
    let i = idx_of(s, owner, order_id);
    assert(key_matches(s[i], owner, order_id));
}

/// Delegation is owner-only: requested by any identity other than the
/// record's owner it fails with `Unauthorized` and leaves the store
/// unchanged.
pub proof fn lemma_delegate_requires_owner(
    s: Seq<EscrowEntry>,
    caller: Pubkey,
    owner: Pubkey,
    order_id: u64,
)
    requires
        has_key(s, owner, order_id),
        caller != owner,
    ensures
        spec_delegate_order(s, caller, owner, order_id) == (
            s,
            Err::<(), CustomError>(CustomError::Unauthorized),
        ),
{
}

} // verus!
