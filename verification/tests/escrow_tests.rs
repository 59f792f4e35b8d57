use nyftprotocol::store::cancel_limit_order;
use nyftprotocol::store::create_limit_order;
use nyftprotocol::store::delegate_order;
use nyftprotocol::store::deposit_sol;
use nyftprotocol::store::execute_limit_order;
use nyftprotocol::store::get_authority;
use nyftprotocol::store::get_escrow_account;
use nyftprotocol::store::initialize_escrow;
use nyftprotocol::store::EscrowStore;
use nyftprotocol::types::Authority;
use nyftprotocol::types::CustomError;
use nyftprotocol::types::LimitOrder;
use nyftprotocol::types::OrderType;
use nyftprotocol::types::Pubkey;

fn pk(n: u64) -> Pubkey {
    Pubkey { w0: n, w1: 0, w2: 0, w3: 0 }
}

#[test]
fn initialize_creates_fresh_record() {
    let mut store = EscrowStore::new();
    let a = pk(1);
    assert_eq!(initialize_escrow(&mut store, a, 7), Ok(()));
    let acct = get_escrow_account(&store, a, 7).unwrap();
    assert_eq!(acct.owner, a);
    assert_eq!(acct.order_id, 7);
    assert_eq!(acct.balance, 0);
    assert_eq!(acct.limit_order, LimitOrder::default());
    assert!(!acct.limit_order.is_active);
    assert_eq!(acct.limit_order.order_type, OrderType::Buy);
    assert_eq!(get_authority(&store, a, 7), Some(Authority::Primary));
}

#[test]
fn initialize_twice_fails_and_preserves_record() {
    let mut store = EscrowStore::new();
    let a = pk(1);
    assert_eq!(initialize_escrow(&mut store, a, 7), Ok(()));
    assert_eq!(deposit_sol(&mut store, a, 7, Authority::Primary, 500), Ok(()));
    let before = get_escrow_account(&store, a, 7).unwrap();
    assert_eq!(initialize_escrow(&mut store, a, 7), Err(CustomError::AlreadyExists));
    assert_eq!(get_escrow_account(&store, a, 7).unwrap(), before);
    assert_eq!(before.balance, 500);
}

#[test]
fn distinct_pairs_get_distinct_records() {
    let mut store = EscrowStore::new();
    let a = pk(1);
    let b = pk(2);
    assert_eq!(initialize_escrow(&mut store, a, 7), Ok(()));
    assert_eq!(initialize_escrow(&mut store, a, 8), Ok(()));
    assert_eq!(initialize_escrow(&mut store, b, 7), Ok(()));
    assert_eq!(deposit_sol(&mut store, a, 8, Authority::Primary, 42), Ok(()));
    assert_eq!(get_escrow_account(&store, a, 7).unwrap().balance, 0);
    assert_eq!(get_escrow_account(&store, a, 8).unwrap().balance, 42);
    assert_eq!(get_escrow_account(&store, b, 7).unwrap().balance, 0);
}

#[test]
fn deposits_accumulate_to_their_sum() {
    let mut store = EscrowStore::new();
    let a = pk(3);
    assert_eq!(initialize_escrow(&mut store, a, 1), Ok(()));
    assert_eq!(deposit_sol(&mut store, a, 1, Authority::Primary, 100), Ok(()));
    assert_eq!(deposit_sol(&mut store, a, 1, Authority::Primary, 250), Ok(()));
    assert_eq!(deposit_sol(&mut store, a, 1, Authority::Primary, 0), Ok(()));
    assert_eq!(deposit_sol(&mut store, a, 1, Authority::Primary, 650), Ok(()));
    assert_eq!(get_escrow_account(&store, a, 1).unwrap().balance, 1000);
}

#[test]
fn deposit_overflow_fails_without_partial_increment() {
    let mut store = EscrowStore::new();
    let a = pk(3);
    assert_eq!(initialize_escrow(&mut store, a, 1), Ok(()));
    assert_eq!(deposit_sol(&mut store, a, 1, Authority::Primary, u64::MAX), Ok(()));
    assert_eq!(
        deposit_sol(&mut store, a, 1, Authority::Primary, 1),
        Err(CustomError::Overflow)
    );
    assert_eq!(get_escrow_account(&store, a, 1).unwrap().balance, u64::MAX);
    assert_eq!(deposit_sol(&mut store, a, 1, Authority::Primary, 0), Ok(()));
}

#[test]
fn deposit_on_missing_record_fails_not_found() {
    let mut store = EscrowStore::new();
    assert_eq!(
        deposit_sol(&mut store, pk(1), 7, Authority::Primary, 10),
        Err(CustomError::NotFound)
    );
}

#[test]
fn buy_order_above_balance_is_rejected() {
    let mut store = EscrowStore::new();
    let a = pk(4);
    let mint = pk(900);
    assert_eq!(initialize_escrow(&mut store, a, 2), Ok(()));
    assert_eq!(deposit_sol(&mut store, a, 2, Authority::Primary, 700), Ok(()));
    assert_eq!(
        create_limit_order(&mut store, a, a, 2, Authority::Primary, OrderType::Buy, mint, 701),
        Err(CustomError::InsufficientFunds)
    );
    let acct = get_escrow_account(&store, a, 2).unwrap();
    assert_eq!(acct.limit_order, LimitOrder::default());
    assert!(!acct.limit_order.is_active);
}

#[test]
fn buy_order_at_exact_balance_activates() {
    let mut store = EscrowStore::new();
    let a = pk(4);
    let mint = pk(900);
    assert_eq!(initialize_escrow(&mut store, a, 2), Ok(()));
    assert_eq!(deposit_sol(&mut store, a, 2, Authority::Primary, 700), Ok(()));
    assert_eq!(
        create_limit_order(&mut store, a, a, 2, Authority::Primary, OrderType::Buy, mint, 700),
        Ok(())
    );
    let order = get_escrow_account(&store, a, 2).unwrap().limit_order;
    assert!(order.is_active);
    assert_eq!(order.order_type, OrderType::Buy);
    assert_eq!(order.token_mint, mint);
    assert_eq!(order.limit_price, 700);
}

#[test]
fn sell_order_needs_no_balance() {
    let mut store = EscrowStore::new();
    let a = pk(5);
    assert_eq!(initialize_escrow(&mut store, a, 3), Ok(()));
    assert_eq!(
        create_limit_order(&mut store, a, a, 3, Authority::Primary, OrderType::Sell, pk(901), 999),
        Ok(())
    );
    assert!(get_escrow_account(&store, a, 3).unwrap().limit_order.is_active);
}

#[test]
fn create_while_active_overwrites_order() {
    let mut store = EscrowStore::new();
    let a = pk(5);
    assert_eq!(initialize_escrow(&mut store, a, 3), Ok(()));
    assert_eq!(deposit_sol(&mut store, a, 3, Authority::Primary, 50), Ok(()));
    assert_eq!(
        create_limit_order(&mut store, a, a, 3, Authority::Primary, OrderType::Buy, pk(901), 50),
        Ok(())
    );
    assert_eq!(
        create_limit_order(&mut store, a, a, 3, Authority::Primary, OrderType::Sell, pk(902), 60),
        Ok(())
    );
    let order = get_escrow_account(&store, a, 3).unwrap().limit_order;
    assert!(order.is_active);
    assert_eq!(order.order_type, OrderType::Sell);
    assert_eq!(order.token_mint, pk(902));
    assert_eq!(order.limit_price, 60);
}

#[test]
fn cancel_deactivates_and_blocks_execution() {
    let mut store = EscrowStore::new();
    let a = pk(6);
    let crank = pk(77);
    assert_eq!(initialize_escrow(&mut store, a, 4), Ok(()));
    assert_eq!(
        create_limit_order(&mut store, a, a, 4, Authority::Primary, OrderType::Sell, pk(903), 10),
        Ok(())
    );
    assert_eq!(cancel_limit_order(&mut store, a, a, 4, Authority::Primary), Ok(()));
    let order = get_escrow_account(&store, a, 4).unwrap().limit_order;
    assert!(!order.is_active);
    assert_eq!(order.order_type, OrderType::Sell);
    assert_eq!(order.limit_price, 10);
    assert_eq!(
        execute_limit_order(&store, crank, a, 4, Authority::Primary),
        Err(CustomError::OrderNotActive)
    );
}

#[test]
fn cancel_when_already_inactive_succeeds() {
    let mut store = EscrowStore::new();
    let a = pk(6);
    assert_eq!(initialize_escrow(&mut store, a, 4), Ok(()));
    assert_eq!(cancel_limit_order(&mut store, a, a, 4, Authority::Primary), Ok(()));
    assert!(!get_escrow_account(&store, a, 4).unwrap().limit_order.is_active);
}

#[test]
fn execute_returns_the_event_and_may_repeat() {
    let mut store = EscrowStore::new();
    let a = pk(8);
    let crank = pk(99);
    assert_eq!(initialize_escrow(&mut store, a, 5), Ok(()));
    assert_eq!(deposit_sol(&mut store, a, 5, Authority::Primary, 20), Ok(()));
    assert_eq!(
        create_limit_order(&mut store, a, a, 5, Authority::Primary, OrderType::Buy, pk(904), 15),
        Ok(())
    );
    let ev = execute_limit_order(&store, crank, a, 5, Authority::Primary).unwrap();
    assert_eq!(ev.owner, a);
    assert_eq!(ev.order_id, 5);
    assert!(ev.order.is_active);
    assert_eq!(ev.order.limit_price, 15);
    let again = execute_limit_order(&store, crank, a, 5, Authority::Primary).unwrap();
    assert_eq!(again, ev);
}

#[test]
fn execute_inactive_order_fails() {
    let mut store = EscrowStore::new();
    let a = pk(8);
    assert_eq!(initialize_escrow(&mut store, a, 5), Ok(()));
    assert_eq!(
        execute_limit_order(&store, pk(99), a, 5, Authority::Primary),
        Err(CustomError::OrderNotActive)
    );
}

#[test]
fn execute_missing_record_fails_not_found() {
    let store = EscrowStore::new();
    assert_eq!(
        execute_limit_order(&store, pk(99), pk(8), 5, Authority::Primary),
        Err(CustomError::NotFound)
    );
}

#[test]
fn owner_only_operations_reject_non_owner() {
    let mut store = EscrowStore::new();
    let a = pk(10);
    let stranger = pk(11);
    assert_eq!(initialize_escrow(&mut store, a, 6), Ok(()));
    assert_eq!(deposit_sol(&mut store, a, 6, Authority::Primary, 100), Ok(()));
    let before = get_escrow_account(&store, a, 6).unwrap();
    assert_eq!(
        create_limit_order(
            &mut store,
            stranger,
            a,
            6,
            Authority::Primary,
            OrderType::Buy,
            pk(905),
            1
        ),
        Err(CustomError::Unauthorized)
    );
    assert_eq!(
        cancel_limit_order(&mut store, stranger, a, 6, Authority::Primary),
        Err(CustomError::Unauthorized)
    );
    assert_eq!(delegate_order(&mut store, stranger, a, 6), Err(CustomError::Unauthorized));
    assert_eq!(get_escrow_account(&store, a, 6).unwrap(), before);
    assert_eq!(get_authority(&store, a, 6), Some(Authority::Primary));
}

#[test]
fn delegate_missing_record_fails_not_found() {
    let mut store = EscrowStore::new();
    assert_eq!(delegate_order(&mut store, pk(1), pk(1), 9), Err(CustomError::NotFound));
}

#[test]
fn delegate_is_idempotent_for_the_owner() {
    let mut store = EscrowStore::new();
    let a = pk(12);
    assert_eq!(initialize_escrow(&mut store, a, 9), Ok(()));
    assert_eq!(delegate_order(&mut store, a, a, 9), Ok(()));
    assert_eq!(get_authority(&store, a, 9), Some(Authority::Secondary));
    assert_eq!(delegate_order(&mut store, a, a, 9), Ok(()));
    assert_eq!(get_authority(&store, a, 9), Some(Authority::Secondary));
}

#[test]
fn delegation_excludes_primary_and_is_transparent() {
    // The same operations against a delegated record (on the secondary
    // domain) and an undelegated one (on the primary domain) must produce
    // the same account state; the primary domain must refuse the delegated
    // record.
    let a = pk(13);
    let mint = pk(906);

    let mut delegated = EscrowStore::new();
    assert_eq!(initialize_escrow(&mut delegated, a, 1), Ok(()));
    assert_eq!(delegate_order(&mut delegated, a, a, 1), Ok(()));

    let mut plain = EscrowStore::new();
    assert_eq!(initialize_escrow(&mut plain, a, 1), Ok(()));

    // Every mutating operation is refused on the primary domain.
    assert_eq!(
        deposit_sol(&mut delegated, a, 1, Authority::Primary, 5),
        Err(CustomError::WrongDomain)
    );
    assert_eq!(
        create_limit_order(&mut delegated, a, a, 1, Authority::Primary, OrderType::Sell, mint, 2),
        Err(CustomError::WrongDomain)
    );
    assert_eq!(
        cancel_limit_order(&mut delegated, a, a, 1, Authority::Primary),
        Err(CustomError::WrongDomain)
    );
    assert_eq!(
        execute_limit_order(&delegated, pk(99), a, 1, Authority::Primary),
        Err(CustomError::WrongDomain)
    );

    // On the secondary domain the operations behave exactly as they would
    // have on the primary domain without delegation.
    assert_eq!(
        deposit_sol(&mut delegated, a, 1, Authority::Secondary, 5),
        deposit_sol(&mut plain, a, 1, Authority::Primary, 5)
    );
    assert_eq!(
        create_limit_order(&mut delegated, a, a, 1, Authority::Secondary, OrderType::Buy, mint, 5),
        create_limit_order(&mut plain, a, a, 1, Authority::Primary, OrderType::Buy, mint, 5)
    );
    assert_eq!(
        get_escrow_account(&delegated, a, 1).unwrap(),
        get_escrow_account(&plain, a, 1).unwrap()
    );
    assert_eq!(get_authority(&delegated, a, 1), Some(Authority::Secondary));
    assert_eq!(get_authority(&plain, a, 1), Some(Authority::Primary));
}

#[test]
fn scenario_deposit_then_buy_orders() {
    // initialize(owner=A, order_id=7), deposit 1000, Buy at 800 succeeds;
    // a second Buy at 1500 fails and leaves the prior order in place.
    let mut store = EscrowStore::new();
    let a = pk(14);
    let mint = pk(907);
    assert_eq!(initialize_escrow(&mut store, a, 7), Ok(()));
    assert_eq!(deposit_sol(&mut store, a, 7, Authority::Primary, 1000), Ok(()));
    assert_eq!(
        create_limit_order(&mut store, a, a, 7, Authority::Primary, OrderType::Buy, mint, 800),
        Ok(())
    );
    let acct = get_escrow_account(&store, a, 7).unwrap();
    assert_eq!(acct.balance, 1000);
    assert!(acct.limit_order.is_active);
    assert_eq!(
        create_limit_order(&mut store, a, a, 7, Authority::Primary, OrderType::Buy, mint, 1500),
        Err(CustomError::InsufficientFunds)
    );
    let after = get_escrow_account(&store, a, 7).unwrap();
    assert_eq!(after, acct);
    assert_eq!(after.limit_order.limit_price, 800);
}

#[test]
fn scenario_delegate_then_deposit_on_each_domain() {
    // initialize, delegate(A, 7): a deposit on the primary domain fails
    // WrongDomain, the same deposit on the secondary domain succeeds.
    let mut store = EscrowStore::new();
    let a = pk(15);
    assert_eq!(initialize_escrow(&mut store, a, 7), Ok(()));
    assert_eq!(delegate_order(&mut store, a, a, 7), Ok(()));
    assert_eq!(
        deposit_sol(&mut store, a, 7, Authority::Primary, 300),
        Err(CustomError::WrongDomain)
    );
    assert_eq!(get_escrow_account(&store, a, 7).unwrap().balance, 0);
    assert_eq!(deposit_sol(&mut store, a, 7, Authority::Secondary, 300), Ok(()));
    assert_eq!(get_escrow_account(&store, a, 7).unwrap().balance, 300);
}

#[test]
fn getters_on_missing_record() {
    let store = EscrowStore::new();
    assert_eq!(get_escrow_account(&store, pk(1), 1), None);
    assert_eq!(get_authority(&store, pk(1), 1), None);
}

#[test]
fn defaults_are_the_inactive_buy_order() {
    assert_eq!(OrderType::default(), OrderType::Buy);
    let order = LimitOrder::default();
    assert!(!order.is_active);
    assert_eq!(order.order_type, OrderType::Buy);
    assert_eq!(order.token_mint, Pubkey::default());
    assert_eq!(order.limit_price, 0);
    assert_eq!(Pubkey::default(), pk(0));
}
