//! Data model: identities, escrow records, limit orders, authority domains
//! and the error catalogue.

use vstd::prelude::*;

verus! {

/// A 32-byte identity, held as four 64-bit little-endian words.
///
/// It stands for the public key of a party (an owner, a crank signer) or for
/// the identifier of a fungible-asset class.
#[derive(Clone, Copy, Debug, PartialEq, Eq, Structural)]
pub struct Pubkey {
    pub w0: u64,
    pub w1: u64,
    pub w2: u64,
    pub w3: u64,
}

impl Default for Pubkey {
    /// The all-zero identity.
    fn default() -> (r: Pubkey)
        ensures
            r == (Pubkey { w0: 0, w1: 0, w2: 0, w3: 0 }),
    {
        Pubkey { w0: 0, w1: 0, w2: 0, w3: 0 }
    }
}

/// The side of a limit order.
#[derive(Clone, Copy, Debug, PartialEq, Eq, Structural)]
pub enum OrderType {
    Buy,
    Sell,
}

impl Default for OrderType {
    /// Orders default to the Buy side.
    fn default() -> (r: OrderType)
        ensures
            r == OrderType::Buy,
    {
        OrderType::Buy
    }
}

/// The limit order embedded in an escrow record. An escrow holds at most one
/// order at a time; creating a new order overwrites the previous one.
#[derive(Clone, Copy, Debug, PartialEq, Eq, Structural)]
pub struct LimitOrder {
    /// Gate for execution eligibility.
    pub is_active: bool,
    pub order_type: OrderType,
    /// The fungible-asset class this order concerns.
    pub token_mint: Pubkey,
    /// For Buy orders: the amount of native currency reserved at activation.
    pub limit_price: u64,
}

impl LimitOrder {
    /// The inactive Buy order every freshly initialized escrow starts with.
    pub open spec fn spec_default() -> LimitOrder {
        LimitOrder {
            is_active: false,
            order_type: OrderType::Buy,
            token_mint: Pubkey { w0: 0, w1: 0, w2: 0, w3: 0 },
            limit_price: 0,
        }
    }
}

impl Default for LimitOrder {
    fn default() -> (r: LimitOrder)
        ensures
            r == LimitOrder::spec_default(),
    {
        LimitOrder { is_active: false, order_type: OrderType::Buy, token_mint: Pubkey::default(), limit_price: 0 }
    }
}

/// One escrow record: a native-currency balance and one embedded limit
/// order, bound to the `(owner, order_id)` pair that addresses it.
#[derive(Clone, Copy, Debug, PartialEq, Eq, Structural)]
pub struct EscrowAccount {
    /// The creating party. Immutable after creation.
    pub owner: Pubkey,
    /// Native-currency units deposited; increases monotonically.
    pub balance: u64,
    /// Caller-chosen identifier; with `owner` it addresses the record.
    pub order_id: u64,
    pub limit_order: LimitOrder,
}

/// Which execution domain currently holds write authority over a record.
/// The two domains are mutually exclusive writers at any instant.
#[derive(Clone, Copy, Debug, PartialEq, Eq, Structural)]
pub enum Authority {
    Primary,
    Secondary,
}

/// The event recorded when an active order is executed. Settlement is not
/// performed by this core; the event only captures what was executed.
#[derive(Clone, Copy, Debug, PartialEq, Eq, Structural)]
pub struct ExecutionEvent {
    pub owner: Pubkey,
    pub order_id: u64,
    pub order: LimitOrder,
}

/// Every failure surfaces one of these kinds; no error is silently swallowed
/// and a failing operation leaves the store unchanged.
#[derive(Clone, Copy, Debug, PartialEq, Eq, Structural)]
pub enum CustomError {
    /// `initialize_escrow` on a pair that already holds a record.
    AlreadyExists,
    /// The addressed record does not exist.
    NotFound,
    /// An owner-only operation invoked by a non-owner identity.
    Unauthorized,
    /// A mutating call arrived at the domain that does not hold authority.
    WrongDomain,
    /// Buy-order activation below the reserved balance.
    InsufficientFunds,
    /// `execute_limit_order` on an inactive order.
    OrderNotActive,
    /// An addition or scaling would exceed the 64-bit range.
    Overflow,
}

} // verus!
