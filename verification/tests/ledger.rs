use non_custodial_escrow::{
    CloseAccount, EscrowError, Ledger, Pubkey, Signer, TokenAccount, Transfer,
};

fn address(byte: u8) -> Pubkey {
    Pubkey::new_from_array([byte; 32])
}

fn funded() -> Ledger {
    let mut ledger = Ledger::new(address(9), 10, 20);
    assert!(ledger.create_token_account(&address(11), &address(3), &address(1), 500));
    assert!(ledger.create_token_account(&address(12), &address(3), &address(2), 40));
    assert!(ledger.create_token_account(&address(13), &address(4), &address(2), 70));
    assert!(ledger.create_token_account(&address(14), &address(3), &address(1), 0));
    ledger
}

fn order(from: u8, to: u8, authority: u8, amount: u64) -> Transfer {
    Transfer { from: address(from), to: address(to), authority: address(authority), amount }
}

fn signed(byte: u8) -> Signer {
    Signer { key: address(byte), is_signer: true }
}

fn balance(ledger: &Ledger, account: u8) -> u64 {
    ledger.token_account(&address(account)).unwrap().amount
}

#[test]
fn new_ledger_is_empty() {
    let ledger = Ledger::new(address(9), 10, 20);
    assert_eq!(ledger.program_id(), address(9));
    assert_eq!(ledger.entry_deposit(), 10);
    assert_eq!(ledger.custody_deposit(), 20);
    assert_eq!(ledger.token_account(&address(1)), None);
    assert_eq!(ledger.escrow(&address(1)), None);
    assert_eq!(ledger.lamports(&address(1)), 0);
    assert_eq!(ledger.supply_of(&address(3)), 0);
}

#[test]
fn airdrop_adds_to_the_wallet() {
    let mut ledger = Ledger::new(address(9), 10, 20);
    assert!(ledger.airdrop(&address(1), 100));
    assert!(ledger.airdrop(&address(1), 23));
    assert!(ledger.airdrop(&address(2), 5));
    assert_eq!(ledger.lamports(&address(1)), 123);
    assert_eq!(ledger.lamports(&address(2)), 5);
    assert_eq!(ledger.lamports(&address(3)), 0);
}

#[test]
fn airdrop_refuses_what_would_not_fit() {
    let mut ledger = Ledger::new(address(9), 10, 20);
    assert!(ledger.airdrop(&address(1), u64::MAX - 5));
    assert!(!ledger.airdrop(&address(2), 6));
    assert_eq!(ledger.lamports(&address(2)), 0);
    assert!(ledger.airdrop(&address(2), 5));
    assert!(!ledger.airdrop(&address(1), 1));
    assert_eq!(ledger.lamports(&address(1)), u64::MAX - 5);
    assert_eq!(ledger.lamports(&address(2)), 5);
}

#[test]
fn created_account_records_what_was_given() {
    let ledger = funded();
    assert_eq!(
        ledger.token_account(&address(11)),
        Some(TokenAccount { mint: address(3), owner: address(1), amount: 500 })
    );
    assert_eq!(ledger.token_account(&address(15)), None);
}

#[test]
fn create_refuses_a_taken_address() {
    let mut ledger = funded();
    assert!(!ledger.create_token_account(&address(11), &address(4), &address(2), 1));
    assert_eq!(
        ledger.token_account(&address(11)),
        Some(TokenAccount { mint: address(3), owner: address(1), amount: 500 })
    );
}

#[test]
fn create_refuses_a_supply_that_would_not_fit() {
    let mut ledger = funded();
    assert!(!ledger.create_token_account(&address(20), &address(3), &address(1), u64::MAX - 539));
    assert_eq!(ledger.token_account(&address(20)), None);
    assert!(ledger.create_token_account(&address(20), &address(3), &address(1), u64::MAX - 540));
    assert!(ledger.create_token_account(&address(21), &address(4), &address(1), u64::MAX - 70));
    assert_eq!(ledger.supply_of(&address(3)), u64::MAX);
    assert_eq!(ledger.supply_of(&address(4)), u64::MAX);
}

#[test]
fn supply_counts_each_asset_apart() {
    let ledger = funded();
    assert_eq!(ledger.supply_of(&address(3)), 540);
    assert_eq!(ledger.supply_of(&address(4)), 70);
    assert_eq!(ledger.supply_of(&address(5)), 0);
}

#[test]
fn transfer_debits_and_credits() {
    let mut ledger = funded();
    assert_eq!(ledger.transfer(&order(11, 12, 1, 120), &signed(1)), Ok(()));
    assert_eq!(balance(&ledger, 11), 380);
    assert_eq!(balance(&ledger, 12), 160);
    assert_eq!(balance(&ledger, 13), 70);
    assert_eq!(ledger.supply_of(&address(3)), 540);
}

#[test]
fn transfer_of_the_whole_balance_empties_the_source() {
    let mut ledger = funded();
    assert_eq!(ledger.transfer(&order(11, 14, 1, 500), &signed(1)), Ok(()));
    assert_eq!(balance(&ledger, 11), 0);
    assert_eq!(balance(&ledger, 14), 500);
}

#[test]
fn transfer_of_nothing_changes_nothing() {
    let mut ledger = funded();
    assert_eq!(ledger.transfer(&order(14, 11, 1, 0), &signed(1)), Ok(()));
    assert_eq!(balance(&ledger, 11), 500);
    assert_eq!(balance(&ledger, 14), 0);
}

#[test]
fn transfer_to_the_source_itself_changes_nothing() {
    let mut ledger = funded();
    assert_eq!(ledger.transfer(&order(11, 11, 1, 300), &signed(1)), Ok(()));
    assert_eq!(balance(&ledger, 11), 500);
    assert_eq!(ledger.transfer(&order(11, 11, 1, 501), &signed(1)), Err(EscrowError::InsufficientBalance));
}

#[test]
fn transfer_refuses_a_missing_account() {
    let mut ledger = funded();
    assert_eq!(ledger.transfer(&order(30, 12, 1, 1), &signed(1)), Err(EscrowError::AccountMismatch));
    assert_eq!(ledger.transfer(&order(11, 30, 1, 1), &signed(1)), Err(EscrowError::AccountMismatch));
    assert_eq!(balance(&ledger, 11), 500);
}

#[test]
fn transfer_refuses_another_asset() {
    let mut ledger = funded();
    assert_eq!(ledger.transfer(&order(11, 13, 1, 1), &signed(1)), Err(EscrowError::AccountMismatch));
    assert_eq!(balance(&ledger, 11), 500);
    assert_eq!(balance(&ledger, 13), 70);
}

#[test]
fn transfer_refuses_another_authority() {
    let mut ledger = funded();
    assert_eq!(ledger.transfer(&order(11, 12, 2, 1), &signed(2)), Err(EscrowError::AuthorizationFailure));
    assert_eq!(balance(&ledger, 11), 500);
    assert_eq!(balance(&ledger, 12), 40);
}

#[test]
fn transfer_refuses_more_than_the_balance() {
    let mut ledger = funded();
    assert_eq!(ledger.transfer(&order(12, 11, 2, 41), &signed(2)), Err(EscrowError::InsufficientBalance));
    assert_eq!(balance(&ledger, 11), 500);
    assert_eq!(balance(&ledger, 12), 40);
    assert_eq!(ledger.transfer(&order(12, 11, 2, 40), &signed(2)), Ok(()));
}

#[test]
fn close_removes_an_empty_account() {
    let mut ledger = funded();
    let close =
        CloseAccount { account: address(14), destination: address(1), authority: address(1) };
    assert_eq!(ledger.close_account(&close, &signed(1)), Ok(()));
    assert_eq!(ledger.token_account(&address(14)), None);
    assert_eq!(ledger.lamports(&address(1)), 0);
    assert_eq!(balance(&ledger, 11), 500);
    assert_eq!(ledger.close_account(&close, &signed(1)), Err(EscrowError::AccountMismatch));
}

#[test]
fn close_refuses_an_account_that_holds_units() {
    let mut ledger = funded();
    let close =
        CloseAccount { account: address(11), destination: address(1), authority: address(1) };
    assert_eq!(ledger.close_account(&close, &signed(1)), Err(EscrowError::AccountMismatch));
    assert_eq!(balance(&ledger, 11), 500);
}

#[test]
fn close_refuses_another_authority() {
    let mut ledger = funded();
    let close =
        CloseAccount { account: address(14), destination: address(2), authority: address(2) };
    assert_eq!(ledger.close_account(&close, &signed(2)), Err(EscrowError::AuthorizationFailure));
    assert_eq!(balance(&ledger, 14), 0);
}

#[test]
fn transfer_needs_the_signature_of_the_authority() {
    let mut ledger = funded();
    let unsigned = Signer { key: address(1), is_signer: false };
    assert_eq!(
        ledger.transfer(&order(11, 12, 1, 120), &unsigned),
        Err(EscrowError::AuthorizationFailure)
    );
    assert_eq!(
        ledger.transfer(&order(11, 12, 1, 120), &signed(2)),
        Err(EscrowError::AuthorizationFailure)
    );
    assert_eq!(
        ledger.transfer(&order(30, 12, 1, 120), &signed(2)),
        Err(EscrowError::AuthorizationFailure)
    );
    assert_eq!(balance(&ledger, 11), 500);
    assert_eq!(balance(&ledger, 12), 40);
}

#[test]
fn close_needs_the_signature_of_the_authority() {
    let mut ledger = funded();
    let close =
        CloseAccount { account: address(14), destination: address(1), authority: address(1) };
    let unsigned = Signer { key: address(1), is_signer: false };
    assert_eq!(ledger.close_account(&close, &unsigned), Err(EscrowError::AuthorizationFailure));
    assert_eq!(ledger.close_account(&close, &signed(2)), Err(EscrowError::AuthorizationFailure));
    assert_eq!(balance(&ledger, 14), 0);
}

#[test]
fn snapshot_is_independent_of_the_ledger() {
    let mut ledger = funded();
    let saved = ledger.snapshot();
    assert_eq!(ledger.transfer(&order(11, 12, 1, 120), &signed(1)), Ok(()));
    assert_eq!(balance(&saved, 11), 500);
    assert_eq!(balance(&saved, 12), 40);
    assert_eq!(balance(&ledger, 11), 380);
}
