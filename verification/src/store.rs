//! The escrow store and its executable operations. Every operation behaves
//! exactly as the matching transition function in `state` says, and
//! preserves the store's well-formedness: at most one record per
//! `(owner, order_id)` pair.

use vstd::prelude::*;

use crate::state::entry_of;
use crate::state::has_key;
use crate::state::idx_of;
use crate::state::key_matches;
use crate::state::lemma_idx_of_unique;
use crate::state::lemma_pow10_increases;
use crate::state::lemma_update_keeps_keys;
use crate::state::spec_cancel_limit_order;
use crate::state::spec_create_limit_order;
use crate::state::spec_delegate_order;
use crate::state::spec_deposit_sol;
use crate::state::spec_deposit_tokens;
use crate::state::spec_execute_limit_order;
use crate::state::spec_initialize_escrow;
use crate::state::spec_new_account;
use crate::state::spec_pow10;
use crate::state::unique_keys;
use crate::state::EscrowEntry;
use crate::types::Authority;
use crate::types::CustomError;
use crate::types::EscrowAccount;
use crate::types::ExecutionEvent;
use crate::types::LimitOrder;
use crate::types::OrderType;
use crate::types::Pubkey;

verus! {

/// All escrow records of the system, indexed by their derived address
/// (equivalently, by their `(owner, order_id)` pair).
pub struct EscrowStore {
    entries: Vec<EscrowEntry>,
}

impl View for EscrowStore {
    type V = Seq<EscrowEntry>;

    closed spec fn view(&self) -> Seq<EscrowEntry> {
        self.entries@
    }
}

impl EscrowStore {
    /// Well-formedness: each `(owner, order_id)` pair addresses at most one
    /// record. Established at creation and preserved by every operation.
    pub open spec fn wf(&self) -> bool {
        unique_keys(self@)
    }

    /// An empty store.
    pub fn new() -> (r: EscrowStore)
        ensures
            r@ == Seq::<EscrowEntry>::empty(),
            r.wf(),
    {
        let s = EscrowStore { entries: Vec::new() };
        proof {
            assert(s@ =~= Seq::<EscrowEntry>::empty());
        }
        s
    }

    /// Index of the record addressed by `(owner, order_id)`, if any.
    fn find_entry(&self, owner: Pubkey, order_id: u64) -> (r: Option<usize>)
        requires
            self.wf(),
        ensures
            match r {
                Some(i) => i < self@.len() && key_matches(self@[i as int], owner, order_id)
                    && has_key(self@, owner, order_id) && idx_of(self@, owner, order_id) == i,
                None => !has_key(self@, owner, order_id),
            },
    {
        let n = self.entries.len();
        let mut k: usize = 0;
        while k < n
            invariant
                n == self@.len(),
                k <= n,
                self.wf(),
                forall|j: int| 0 <= j < k ==> !key_matches(self@[j], owner, order_id),
            decreases n - k,
        {
            let e = &self.entries[k];
            if e.account.owner == owner && e.account.order_id == order_id {
                proof {
                    lemma_idx_of_unique(self@, owner, order_id, k as int);
                }
                return Some(k);
            }
            k += 1;
        }
        None
    }
}

/// Create the escrow record for `(owner, order_id)` at its derived address,
/// with zero balance and an inactive default order, under primary-domain
/// authority. Fails with `AlreadyExists` if the address already holds a
/// record, leaving the store unchanged. This is the only constructor of
/// records; a record is never destroyed.
pub fn initialize_escrow(store: &mut EscrowStore, owner: Pubkey, order_id: u64) -> (r: Result<
    (),
    CustomError,
>)
    requires
        old(store).wf(),
    ensures
        final(store).wf(),
        (final(store)@, r) == spec_initialize_escrow(old(store)@, owner, order_id),
{
    let ghost s0 = store@;
    match store.find_entry(owner, order_id) {
        Some(_) => Err(CustomError::AlreadyExists),
        None => {
            let entry = EscrowEntry {
                account: EscrowAccount {
                    owner,
                    balance: 0,
                    order_id,
                    limit_order: LimitOrder::default(),
                },
                authority: Authority::Primary,
            };
            proof {
                assert(entry.account == spec_new_account(owner, order_id));
            }
            store.entries.push(entry);
            // The pushed key was absent, so uniqueness carries over to the
            // extended sequence.
            proof {
                let s1 = store@;
                assert(s1 == s0.push(entry));
                assert forall|i: int, j: int|
                    #![trigger s1[i], s1[j]]
                    0 <= i < s1.len() && 0 <= j < s1.len() && s1[i].account.owner
                        == s1[j].account.owner && s1[i].account.order_id
                        == s1[j].account.order_id implies i == j by {
                    if i < s0.len() && j < s0.len() {
                        assert(unique_keys(s0));
                    } else if i < s0.len() && j == s0.len() {
                        assert(key_matches(s0[i], owner, order_id));
                        assert(!has_key(s0, owner, order_id));
                    } else if j < s0.len() && i == s0.len() {
                        assert(key_matches(s0[j], owner, order_id));
                        assert(!has_key(s0, owner, order_id));
                    }
                }
                assert((store@, Ok::<(), CustomError>(())) == spec_initialize_escrow(
                    s0,
                    owner,
                    order_id,
                ));
            }
            Ok(())
        },
    }
}

/// Hand write authority over the record at `(owner, order_id)` to the
/// secondary low-latency domain. Only the record's owner may delegate
/// (`Unauthorized` otherwise); the record must already exist (`NotFound`).
/// Idempotent from the caller's perspective: delegating an already delegated
/// record succeeds and leaves it delegated. Delegation persists until an
/// out-of-scope revocation mechanism is invoked.
pub fn delegate_order(store: &mut EscrowStore, caller: Pubkey, owner: Pubkey, order_id: u64) -> (r:
    Result<(), CustomError>)
    requires
        old(store).wf(),
    ensures
        final(store).wf(),
        (final(store)@, r) == spec_delegate_order(old(store)@, caller, owner, order_id),
{
    let ghost s0 = store@;
    match store.find_entry(owner, order_id) {
        None => Err(CustomError::NotFound),
        Some(i) => {
            if caller != owner {
                Err(CustomError::Unauthorized)
            } else {
                let mut e = store.entries[i];
                e.authority = Authority::Secondary;
                store.entries[i] = e;
                proof {
                    lemma_update_keeps_keys(s0, i as int, e);
                }
                Ok(())
            }
        },
    }
}

/// Credit `amount` native-currency units to the record's balance, with
/// checked arithmetic (`Overflow` instead of wraparound). The external value
/// transfer into the escrow's holding address is the caller's concern and
/// must have completed before the balance is credited. The call must arrive
/// at the domain that holds authority (`WrongDomain` otherwise).
pub fn deposit_sol(
    store: &mut EscrowStore,
    owner: Pubkey,
    order_id: u64,
    domain: Authority,
    amount: u64,
) -> (r: Result<(), CustomError>)
    requires
        old(store).wf(),
    ensures
        final(store).wf(),
        (final(store)@, r) == spec_deposit_sol(old(store)@, owner, order_id, domain, amount),
{
    let ghost s0 = store@;
    match store.find_entry(owner, order_id) {
        None => Err(CustomError::NotFound),
        Some(i) => {
            let e = store.entries[i];
            if e.authority != domain {
                Err(CustomError::WrongDomain)
            } else {
                match e.account.balance.checked_add(amount) {
                    None => Err(CustomError::Overflow),
                    Some(nb) => {
                        let mut e2 = e;
                        e2.account.balance = nb;
                        store.entries[i] = e2;
                        proof {
                            lemma_update_keeps_keys(s0, i as int, e2);
                        }
                        Ok(())
                    },
                }
            }
        },
    }
}

/// Ten to the `d`-th power, or `None` if it exceeds the 64-bit range.
fn pow10_checked(d: u8) -> (r: Option<u64>)
    ensures
        match r {
            Some(v) => v == spec_pow10(d as nat),
            None => spec_pow10(d as nat) > u64::MAX,
        },
{
    let mut acc: u64 = 1;
    let mut k: u8 = 0;
    while k < d
        invariant
            k <= d,
            acc == spec_pow10(k as nat),
        decreases d - k,
    {
        match acc.checked_mul(10) {
            None => {
                proof {
                    lemma_pow10_increases(k as nat + 1, d as nat);
                }
                return None;
            },
            Some(n) => {
                acc = n;
            },
        }
        k += 1;
    }
    Some(acc)
}

/// Validate and scale an asset deposit: on success the returned value is
/// `amount` scaled by the asset's declared decimal precision, the base-unit
/// quantity the external asset transfer must move into the escrow-owned
/// holding. The record's native balance is deliberately left untouched:
/// asset deposits are untracked in this ledger, a documented limitation of
/// this core. Scaling uses checked arithmetic (`Overflow` otherwise), and
/// the call must arrive at the domain that holds authority.
pub fn deposit_tokens(
    store: &mut EscrowStore,
    owner: Pubkey,
    order_id: u64,
    domain: Authority,
    token_mint: Pubkey,
    amount: u64,
    mint_decimals: u8,
) -> (r: Result<u64, CustomError>)
    requires
        old(store).wf(),
    ensures
        final(store).wf(),
        final(store)@ == old(store)@,
        r == spec_deposit_tokens(old(store)@, owner, order_id, domain, amount, mint_decimals),
{
    match store.find_entry(owner, order_id) {
        None => Err(CustomError::NotFound),
        Some(i) => {
            let e = store.entries[i];
            if e.authority != domain {
                Err(CustomError::WrongDomain)
            } else {
                match pow10_checked(mint_decimals) {
                    None => Err(CustomError::Overflow),
                    Some(scale) => match amount.checked_mul(scale) {
                        None => Err(CustomError::Overflow),
                        Some(scaled) => Ok(scaled),
                    },
                }
            }
        },
    }
}

/// Overwrite the record's embedded limit order with an active one carrying
/// the given side, asset class and price. Owner-only (`Unauthorized`
/// otherwise). A Buy order reserves `limit_price` native units and is only
/// activated while `balance >= limit_price` (`InsufficientFunds` otherwise);
/// no asset-side validation is performed for Sell orders in this core.
/// Calling it while an order is active simply overwrites the order.
pub fn create_limit_order(
    store: &mut EscrowStore,
    caller: Pubkey,
    owner: Pubkey,
    order_id: u64,
    domain: Authority,
    order_type: OrderType,
    token_mint: Pubkey,
    limit_price: u64,
) -> (r: Result<(), CustomError>)
    requires
        old(store).wf(),
    ensures
        final(store).wf(),
        (final(store)@, r) == spec_create_limit_order(
            old(store)@,
            caller,
            owner,
            order_id,
            domain,
            order_type,
            token_mint,
            limit_price,
        ),
{
    let ghost s0 = store@;
    match store.find_entry(owner, order_id) {
        None => Err(CustomError::NotFound),
        Some(i) => {
            let e = store.entries[i];
            if e.authority != domain {
                Err(CustomError::WrongDomain)
            } else if caller != owner {
                Err(CustomError::Unauthorized)
            } else if order_type == OrderType::Buy && e.account.balance < limit_price {
                Err(CustomError::InsufficientFunds)
            } else {
                let mut e2 = e;
                e2.account.limit_order = LimitOrder {
                    is_active: true,
                    order_type,
                    token_mint,
                    limit_price,
                };
                store.entries[i] = e2;
                proof {
                    lemma_update_keeps_keys(s0, i as int, e2);
                }
                Ok(())
            }
        },
    }
}

/// Deactivate the record's limit order; all other order fields are left
/// as they are (stale but inert). Owner-only (`Unauthorized` otherwise).
/// Cancelling an already inactive order succeeds and leaves it inactive.
pub fn cancel_limit_order(
    store: &mut EscrowStore,
    caller: Pubkey,
    owner: Pubkey,
    order_id: u64,
    domain: Authority,
) -> (r: Result<(), CustomError>)
    requires
        old(store).wf(),
    ensures
        final(store).wf(),
        (final(store)@, r) == spec_cancel_limit_order(old(store)@, caller, owner, order_id, domain),
{
    let ghost s0 = store@;
    match store.find_entry(owner, order_id) {
        None => Err(CustomError::NotFound),
        Some(i) => {
            let e = store.entries[i];
            if e.authority != domain {
                Err(CustomError::WrongDomain)
            } else if caller != owner {
                Err(CustomError::Unauthorized)
            } else {
                let mut e2 = e;
                e2.account.limit_order.is_active = false;
                store.entries[i] = e2;
                proof {
                    lemma_update_keeps_keys(s0, i as int, e2);
                }
                Ok(())
            }
        },
    }
}

/// Record the execution of the active order at `(owner, order_id)` and
/// return the execution event. Requires the order to be active
/// (`OrderNotActive` otherwise) and the call to arrive at the domain that
/// holds authority. Any signer may act as crank: `crank` is not validated
/// against an allow-list, an acknowledged authorization gap of this core.
/// No settlement is performed and the order stays active, so execution may
/// fire repeatedly while the order remains active.
pub fn execute_limit_order(
    store: &EscrowStore,
    crank: Pubkey,
    owner: Pubkey,
    order_id: u64,
    domain: Authority,
) -> (r: Result<ExecutionEvent, CustomError>)
    requires
        store.wf(),
    ensures
        r == spec_execute_limit_order(store@, owner, order_id, domain),
{
    match store.find_entry(owner, order_id) {
        None => Err(CustomError::NotFound),
        Some(i) => {
            let e = store.entries[i];
            if e.authority != domain {
                Err(CustomError::WrongDomain)
            } else if !e.account.limit_order.is_active {
                Err(CustomError::OrderNotActive)
            } else {
                Ok(
                    ExecutionEvent {
                        owner: e.account.owner,
                        order_id: e.account.order_id,
                        order: e.account.limit_order,
                    },
                )
            }
        },
    }
}

/// The record at `(owner, order_id)`, if any.
pub fn get_escrow_account(store: &EscrowStore, owner: Pubkey, order_id: u64) -> (r: Option<
    EscrowAccount,
>)
    requires
        store.wf(),
    ensures
        match r {
            Some(a) => has_key(store@, owner, order_id) && a == entry_of(
                store@,
                owner,
                order_id,
            ).account,
            None => !has_key(store@, owner, order_id),
        },
{
    match store.find_entry(owner, order_id) {
        None => None,
        Some(i) => Some(store.entries[i].account),
    }
}

/// The domain that currently holds write authority over the record at
/// `(owner, order_id)`, if the record exists.
pub fn get_authority(store: &EscrowStore, owner: Pubkey, order_id: u64) -> (r: Option<Authority>)
    requires
        store.wf(),
    ensures
        match r {
            Some(a) => has_key(store@, owner, order_id) && a == entry_of(
                store@,
                owner,
                order_id,
            ).authority,
            None => !has_key(store@, owner, order_id),
        },
{
    match store.find_entry(owner, order_id) {
        None => None,
        Some(i) => Some(store.entries[i].authority),
    }
}

} // verus!
