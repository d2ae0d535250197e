use anchor_lang::prelude::Pubkey;
use position_ledger::states::position::{BurnEvent, CollectEvent, MintEvent, POSITION_SEED};

#[test]
fn position_seed_is_ps() {
    assert_eq!(POSITION_SEED, "ps");
    assert_eq!(POSITION_SEED.as_bytes(), [112u8, 115u8]);
}

#[test]
fn mint_event_carries_its_fields() {
    let pool = Pubkey::new_from_array([1u8; 32]);
    let sender = Pubkey::new_from_array([2u8; 32]);
    let owner = Pubkey::new_from_array([3u8; 32]);
    let e = MintEvent {
        pool_state: pool,
        sender,
        owner,
        tick_lower: -120,
        tick_upper: 60,
        amount: 1000,
        amount_0: 17,
        amount_1: 19,
    };
    let copy = e;
    assert_eq!(copy, e);
    assert_eq!(copy.pool_state.to_bytes(), [1u8; 32]);
    assert_eq!(copy.sender.to_bytes(), [2u8; 32]);
    assert_eq!(copy.owner.to_bytes(), [3u8; 32]);
    assert_eq!(copy.tick_lower, -120);
    assert_eq!(copy.tick_upper, 60);
    assert_eq!(copy.amount, 1000);
    assert_eq!(copy.amount_0, 17);
    assert_eq!(copy.amount_1, 19);
}

#[test]
fn burn_event_carries_its_fields() {
    let e = BurnEvent {
        pool_state: Pubkey::new_from_array([4u8; 32]),
        owner: Pubkey::new_from_array([5u8; 32]),
        tick_lower: 0,
        tick_upper: 10,
        amount: 500,
        amount_0: 1,
        amount_1: 2,
    };
    let other = BurnEvent { amount: 501, ..e };
    assert_ne!(other, e);
    assert_eq!(other.owner, e.owner);
    assert_eq!(e.pool_state.to_bytes(), [4u8; 32]);
    assert_eq!(e.amount, 500);
}

#[test]
fn collect_event_may_report_nothing_collected() {
    let e = CollectEvent {
        pool_state: Pubkey::new_from_array([6u8; 32]),
        owner: Pubkey::new_from_array([7u8; 32]),
        tick_lower: -10,
        tick_upper: 10,
        amount_0: 0,
        amount_1: 0,
    };
    assert_eq!(e.amount_0, 0);
    assert_eq!(e.amount_1, 0);
    assert_eq!(e.owner.to_bytes(), [7u8; 32]);
}
