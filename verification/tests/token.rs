use psp22::AccountId;
use psp22::PSP22Error;
use psp22::PSP22Event;
use psp22::Token;
use psp22::Transfer;

#[test]
fn token_new_carries_metadata_and_empty_ledger() {
    let bond = AccountId(99);
    let t = Token::new(Some("Bonded Token".to_string()), Some("BND".to_string()), bond);
    assert_eq!(t.token_name(), Some("Bonded Token".to_string()));
    assert_eq!(t.token_symbol(), Some("BND".to_string()));
    assert_eq!(t.token_decimals(), 12);
    assert_eq!(t.total_supply(), 0);
    assert_eq!(t.balance_of(AccountId(1)), 0);
    assert_eq!(t.allowance(AccountId(1), AccountId(2)), 0);
}

#[test]
fn token_without_metadata() {
    let t = Token::new(None, None, AccountId(5));
    assert_eq!(t.token_name(), None);
    assert_eq!(t.token_symbol(), None);
    assert_eq!(t.token_decimals(), 12);
}

#[test]
fn token_mint_requires_bond() {
    let bond = AccountId(99);
    let mut t = Token::new(None, None, bond);
    let r = t.mint(AccountId(1), AccountId(1), 100);
    assert_eq!(r, Err(PSP22Error::Custom("Not Permission".to_string())));
    assert_eq!(t.total_supply(), 0);
    assert_eq!(t.balance_of(AccountId(1)), 0);
}

#[test]
fn token_mint_by_bond_credits_balance() {
    let bond = AccountId(99);
    let mut t = Token::new(None, None, bond);
    t.mint(bond, AccountId(1), 100).unwrap();
    assert_eq!(t.total_supply(), 100);
    assert_eq!(t.balance_of(AccountId(1)), 100);
}

#[test]
fn token_burn_requires_bond() {
    let bond = AccountId(99);
    let mut t = Token::new(None, None, bond);
    t.mint(bond, AccountId(1), 100).unwrap();
    let r = t.burn(AccountId(1), AccountId(1), 50);
    assert_eq!(r, Err(PSP22Error::Custom("Not Permission".to_string())));
    assert_eq!(t.balance_of(AccountId(1)), 100);
    let r = t.burn(bond, AccountId(1), 50);
    assert_eq!(r, Ok(()));
    assert_eq!(t.balance_of(AccountId(1)), 50);
    assert_eq!(t.total_supply(), 50);
}

#[test]
fn token_burn_insufficient_balance() {
    let bond = AccountId(99);
    let mut t = Token::new(None, None, bond);
    t.mint(bond, AccountId(1), 10).unwrap();
    let r = t.burn(bond, AccountId(1), 11);
    assert_eq!(r, Err(PSP22Error::InsufficientBalance));
    assert_eq!(t.balance_of(AccountId(1)), 10);
}

#[test]
fn token_transfer_returns_notifications_for_the_host() {
    let bond = AccountId(99);
    let mut t = Token::new(None, None, bond);
    t.mint(bond, AccountId(1), 1000).unwrap();
    let evs = t.transfer(AccountId(1), AccountId(2), 250, Vec::new()).unwrap();
    assert_eq!(t.balance_of(AccountId(1)), 750);
    assert_eq!(t.balance_of(AccountId(2)), 250);
    assert_eq!(
        evs,
        vec![PSP22Event::Transfer(Transfer {
            from: Some(AccountId(1)),
            to: Some(AccountId(2)),
            value: 250,
        })]
    );
}

#[test]
fn token_approve_and_transfer_from() {
    let bond = AccountId(99);
    let mut t = Token::new(None, None, bond);
    t.mint(bond, AccountId(1), 1000).unwrap();
    t.approve(AccountId(1), AccountId(2), 400).unwrap();
    assert_eq!(t.allowance(AccountId(1), AccountId(2)), 400);
    t.transfer_from(AccountId(2), AccountId(1), AccountId(3), 300, Vec::new()).unwrap();
    assert_eq!(t.allowance(AccountId(1), AccountId(2)), 100);
    assert_eq!(t.balance_of(AccountId(1)), 700);
    assert_eq!(t.balance_of(AccountId(3)), 300);
    assert_eq!(t.total_supply(), 1000);
}

#[test]
fn token_allowance_adjustments() {
    let mut t = Token::new(None, None, AccountId(9));
    t.approve(AccountId(1), AccountId(2), 100).unwrap();
    t.increase_allowance(AccountId(1), AccountId(2), 50).unwrap();
    assert_eq!(t.allowance(AccountId(1), AccountId(2)), 150);
    t.decrease_allowance(AccountId(1), AccountId(2), 150).unwrap();
    assert_eq!(t.allowance(AccountId(1), AccountId(2)), 0);
    let r = t.decrease_allowance(AccountId(1), AccountId(2), 1);
    assert_eq!(r, Err(PSP22Error::InsufficientAllowance));
}
