use psp22::AccountId;
use psp22::Approval;
use psp22::PSP22Data;
use psp22::PSP22Error;
use psp22::PSP22Event;
use psp22::Transfer;

#[test]
fn new_ledger_is_empty() {
    let d = PSP22Data::new();
    assert_eq!(d.total_supply(), 0);
    assert_eq!(d.balance_of(AccountId(1)), 0);
    assert_eq!(d.allowance(AccountId(1), AccountId(2)), 0);
}

#[test]
fn mint_credits_balance_and_supply() {
    let mut d = PSP22Data::new();
    let evs = d.mint(AccountId(1), 1000).unwrap();
    assert_eq!(d.balance_of(AccountId(1)), 1000);
    assert_eq!(d.total_supply(), 1000);
    assert_eq!(
        evs,
        vec![PSP22Event::Transfer(Transfer {
            from: None,
            to: Some(AccountId(1)),
            value: 1000,
        })]
    );
}

#[test]
fn mint_zero_produces_no_notification() {
    let mut d = PSP22Data::new();
    let evs = d.mint(AccountId(1), 0).unwrap();
    assert!(evs.is_empty());
    assert_eq!(d.total_supply(), 0);
    assert_eq!(d.balance_of(AccountId(1)), 0);
}

#[test]
fn mint_overflow_fails_and_changes_nothing() {
    let mut d = PSP22Data::new();
    d.mint(AccountId(1), u128::MAX).unwrap();
    let r = d.mint(AccountId(2), 1);
    assert_eq!(r, Err(PSP22Error::Overflow));
    assert_eq!(d.total_supply(), u128::MAX);
    assert_eq!(d.balance_of(AccountId(1)), u128::MAX);
    assert_eq!(d.balance_of(AccountId(2)), 0);
}

#[test]
fn burn_debits_balance_and_supply() {
    let mut d = PSP22Data::new();
    d.mint(AccountId(1), 1000).unwrap();
    let evs = d.burn(AccountId(1), 400).unwrap();
    assert_eq!(d.balance_of(AccountId(1)), 600);
    assert_eq!(d.total_supply(), 600);
    assert_eq!(
        evs,
        vec![PSP22Event::Transfer(Transfer {
            from: Some(AccountId(1)),
            to: None,
            value: 400,
        })]
    );
}

#[test]
fn burn_zero_produces_no_notification() {
    let mut d = PSP22Data::new();
    d.mint(AccountId(1), 10).unwrap();
    let evs = d.burn(AccountId(1), 0).unwrap();
    assert!(evs.is_empty());
    assert_eq!(d.balance_of(AccountId(1)), 10);
    assert_eq!(d.total_supply(), 10);
}

#[test]
fn burn_insufficient_balance_fails_and_changes_nothing() {
    let mut d = PSP22Data::new();
    d.mint(AccountId(1), 100).unwrap();
    let r = d.burn(AccountId(1), 101);
    assert_eq!(r, Err(PSP22Error::InsufficientBalance));
    assert_eq!(d.balance_of(AccountId(1)), 100);
    assert_eq!(d.total_supply(), 100);
}

#[test]
fn mint_then_burn_restores_balance_and_supply() {
    let mut d = PSP22Data::new();
    d.mint(AccountId(7), 250).unwrap();
    let balance_before = d.balance_of(AccountId(7));
    let supply_before = d.total_supply();
    d.mint(AccountId(7), 99).unwrap();
    d.burn(AccountId(7), 99).unwrap();
    assert_eq!(d.balance_of(AccountId(7)), balance_before);
    assert_eq!(d.total_supply(), supply_before);
}

#[test]
fn transfer_moves_value_and_keeps_supply() {
    let mut d = PSP22Data::new();
    d.mint(AccountId(1), 1000).unwrap();
    let evs = d.transfer(AccountId(1), AccountId(2), 300).unwrap();
    assert_eq!(d.balance_of(AccountId(1)), 700);
    assert_eq!(d.balance_of(AccountId(2)), 300);
    assert_eq!(d.total_supply(), 1000);
    assert_eq!(
        evs,
        vec![PSP22Event::Transfer(Transfer {
            from: Some(AccountId(1)),
            to: Some(AccountId(2)),
            value: 300,
        })]
    );
}

#[test]
fn transfer_insufficient_balance_fails_and_changes_nothing() {
    let mut d = PSP22Data::new();
    d.mint(AccountId(1), 100).unwrap();
    let r = d.transfer(AccountId(1), AccountId(2), 101);
    assert_eq!(r, Err(PSP22Error::InsufficientBalance));
    assert_eq!(d.balance_of(AccountId(1)), 100);
    assert_eq!(d.balance_of(AccountId(2)), 0);
    assert_eq!(d.total_supply(), 100);
}

#[test]
fn transfer_zero_succeeds_with_no_change_and_no_notification() {
    let mut d = PSP22Data::new();
    d.mint(AccountId(1), 100).unwrap();
    let evs = d.transfer(AccountId(1), AccountId(2), 0).unwrap();
    assert!(evs.is_empty());
    assert_eq!(d.balance_of(AccountId(1)), 100);
    assert_eq!(d.balance_of(AccountId(2)), 0);
    assert_eq!(d.total_supply(), 100);
}

#[test]
fn self_transfer_keeps_balance_but_checks_sufficiency() {
    let mut d = PSP22Data::new();
    d.mint(AccountId(1), 1000).unwrap();
    let evs = d.transfer(AccountId(1), AccountId(1), 600).unwrap();
    assert_eq!(d.balance_of(AccountId(1)), 1000);
    assert_eq!(d.total_supply(), 1000);
    assert_eq!(
        evs,
        vec![PSP22Event::Transfer(Transfer {
            from: Some(AccountId(1)),
            to: Some(AccountId(1)),
            value: 600,
        })]
    );
    let r = d.transfer(AccountId(1), AccountId(1), 1001);
    assert_eq!(r, Err(PSP22Error::InsufficientBalance));
    assert_eq!(d.balance_of(AccountId(1)), 1000);
}

#[test]
fn approve_sets_allowance_absolutely() {
    let mut d = PSP22Data::new();
    let evs = d.approve(AccountId(1), AccountId(2), 400).unwrap();
    assert_eq!(d.allowance(AccountId(1), AccountId(2)), 400);
    assert_eq!(
        evs,
        vec![PSP22Event::Approval(Approval {
            owner: AccountId(1),
            spender: AccountId(2),
            amount: 400,
        })]
    );
    d.approve(AccountId(1), AccountId(2), 150).unwrap();
    assert_eq!(d.allowance(AccountId(1), AccountId(2)), 150);
}

#[test]
fn increase_then_decrease_allowance() {
    let mut d = PSP22Data::new();
    d.approve(AccountId(1), AccountId(2), 100).unwrap();
    let evs = d.increase_allowance(AccountId(1), AccountId(2), 50).unwrap();
    assert_eq!(d.allowance(AccountId(1), AccountId(2)), 150);
    assert_eq!(
        evs,
        vec![PSP22Event::Approval(Approval {
            owner: AccountId(1),
            spender: AccountId(2),
            amount: 150,
        })]
    );
    d.decrease_allowance(AccountId(1), AccountId(2), 120).unwrap();
    assert_eq!(d.allowance(AccountId(1), AccountId(2)), 30);
}

#[test]
fn decrease_allowance_below_zero_fails_and_changes_nothing() {
    let mut d = PSP22Data::new();
    d.approve(AccountId(1), AccountId(2), 30).unwrap();
    let r = d.decrease_allowance(AccountId(1), AccountId(2), 31);
    assert_eq!(r, Err(PSP22Error::InsufficientAllowance));
    assert_eq!(d.allowance(AccountId(1), AccountId(2)), 30);
}

#[test]
fn increase_allowance_overflow_fails_and_changes_nothing() {
    let mut d = PSP22Data::new();
    d.approve(AccountId(1), AccountId(2), u128::MAX).unwrap();
    let r = d.increase_allowance(AccountId(1), AccountId(2), 1);
    assert_eq!(r, Err(PSP22Error::Overflow));
    assert_eq!(d.allowance(AccountId(1), AccountId(2)), u128::MAX);
}

#[test]
fn scenario_mint_approve_transfer_from() {
    let a = AccountId(10);
    let b = AccountId(20);
    let c = AccountId(30);
    let mut d = PSP22Data::new();
    let evs = d.mint(a, 1000).unwrap();
    assert_eq!(d.balance_of(a), 1000);
    assert_eq!(d.total_supply(), 1000);
    assert_eq!(
        evs,
        vec![PSP22Event::Transfer(Transfer { from: None, to: Some(a), value: 1000 })]
    );
    let evs = d.approve(a, b, 400).unwrap();
    assert_eq!(d.allowance(a, b), 400);
    assert_eq!(evs.len(), 1);
    let evs = d.transfer_from(b, a, c, 300).unwrap();
    assert_eq!(d.allowance(a, b), 100);
    assert_eq!(d.balance_of(a), 700);
    assert_eq!(d.balance_of(c), 300);
    assert_eq!(d.total_supply(), 1000);
    assert_eq!(
        evs,
        vec![
            PSP22Event::Approval(Approval { owner: a, spender: b, amount: 100 }),
            PSP22Event::Transfer(Transfer { from: Some(a), to: Some(c), value: 300 }),
        ]
    );
    let r = d.transfer_from(b, a, c, 200);
    assert_eq!(r, Err(PSP22Error::InsufficientAllowance));
    assert_eq!(d.allowance(a, b), 100);
    assert_eq!(d.balance_of(a), 700);
    assert_eq!(d.balance_of(c), 300);
    assert_eq!(d.total_supply(), 1000);
}

#[test]
fn transfer_from_insufficient_balance_fails_and_changes_nothing() {
    let a = AccountId(1);
    let b = AccountId(2);
    let c = AccountId(3);
    let mut d = PSP22Data::new();
    d.mint(a, 100).unwrap();
    d.approve(a, b, 500).unwrap();
    let r = d.transfer_from(b, a, c, 300);
    assert_eq!(r, Err(PSP22Error::InsufficientBalance));
    assert_eq!(d.allowance(a, b), 500);
    assert_eq!(d.balance_of(a), 100);
    assert_eq!(d.balance_of(c), 0);
    assert_eq!(d.total_supply(), 100);
}

#[test]
fn transfer_from_requires_allowance_even_for_owner() {
    let a = AccountId(1);
    let c = AccountId(3);
    let mut d = PSP22Data::new();
    d.mint(a, 100).unwrap();
    let r = d.transfer_from(a, a, c, 50);
    assert_eq!(r, Err(PSP22Error::InsufficientAllowance));
    d.approve(a, a, 50).unwrap();
    d.transfer_from(a, a, c, 50).unwrap();
    assert_eq!(d.balance_of(a), 50);
    assert_eq!(d.balance_of(c), 50);
    assert_eq!(d.allowance(a, a), 0);
}

#[test]
fn conservation_over_a_mixed_sequence() {
    let a = AccountId(1);
    let b = AccountId(2);
    let c = AccountId(3);
    let mut d = PSP22Data::new();
    d.mint(a, 500).unwrap();
    d.mint(b, 700).unwrap();
    d.transfer(a, c, 200).unwrap();
    d.approve(b, a, 650).unwrap();
    d.transfer_from(a, b, c, 600).unwrap();
    d.burn(c, 100).unwrap();
    let sum = d.balance_of(a) + d.balance_of(b) + d.balance_of(c);
    assert_eq!(d.total_supply(), sum);
    assert_eq!(d.total_supply(), 1100);
}
