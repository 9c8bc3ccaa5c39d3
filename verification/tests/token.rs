use bitnun::contracts::BTNToken;

#[test]
fn new_token_puts_the_supply_on_the_owner() {
    let token = BTNToken::new("owner", 1_000);
    assert_eq!(token.name, "Bitnun Token");
    assert_eq!(token.symbol, "BTN");
    assert_eq!(token.decimals, 2);
    assert_eq!(token.total_supply, 1_000);
    assert_eq!(token.owner, "owner");
    assert!(token.minting_enabled);
    assert_eq!(token.balance_of("owner"), 1_000);
    assert_eq!(token.balance_of("other"), 0);
    assert!(token.allowances.is_empty());
}

#[test]
fn transfer_moves_the_amount() {
    let mut token = BTNToken::new("owner", 1_000);
    assert!(token.transfer("owner", "bob", 300));
    assert_eq!(token.balance_of("owner"), 700);
    assert_eq!(token.balance_of("bob"), 300);
    assert!(token.transfer("bob", "owner", 300));
    assert_eq!(token.balance_of("owner"), 1_000);
    assert_eq!(token.balance_of("bob"), 0);
    assert_eq!(token.total_supply, 1_000);
    assert_eq!(token.balances.len(), 2);
}

#[test]
fn transfer_without_funds_changes_nothing() {
    let mut token = BTNToken::new("owner", 1_000);
    assert!(!token.transfer("owner", "bob", 1_001));
    assert!(!token.transfer("bob", "owner", 1));
    assert_eq!(token.balance_of("owner"), 1_000);
    assert_eq!(token.balance_of("bob"), 0);
    assert_eq!(token.balances.len(), 1);
}

#[test]
fn transfer_of_nothing_is_accepted() {
    let mut token = BTNToken::new("owner", 1_000);
    assert!(token.transfer("nobody", "bob", 0));
    assert_eq!(token.balance_of("nobody"), 0);
    assert_eq!(token.balance_of("bob"), 0);
}

#[test]
fn transfer_to_oneself_reads_both_balances_first() {
    let mut token = BTNToken::new("owner", 1_000);
    assert!(token.transfer("owner", "owner", 100));
    assert_eq!(token.balance_of("owner"), 1_100);
}

#[test]
fn allowance_is_set_and_read_per_owner_and_spender() {
    let mut token = BTNToken::new("owner", 1_000);
    assert_eq!(token.allowance("owner", "spender"), 0);
    assert!(token.approve("owner", "spender", 250));
    assert!(token.approve("owner", "other", 5));
    assert!(token.approve("second", "spender", 7));
    assert_eq!(token.allowance("owner", "spender"), 250);
    assert_eq!(token.allowance("owner", "other"), 5);
    assert_eq!(token.allowance("second", "spender"), 7);
    assert_eq!(token.allowance("spender", "owner"), 0);
    assert!(token.approve("owner", "spender", 100));
    assert_eq!(token.allowance("owner", "spender"), 100);
    assert_eq!(token.allowances.len(), 2);
}

#[test]
fn transfer_from_spends_the_allowance() {
    let mut token = BTNToken::new("owner", 1_000);
    token.approve("owner", "spender", 250);
    assert!(token.transfer_from("spender", "owner", "bob", 200));
    assert_eq!(token.balance_of("owner"), 800);
    assert_eq!(token.balance_of("bob"), 200);
    assert_eq!(token.allowance("owner", "spender"), 50);
    assert!(!token.transfer_from("spender", "owner", "bob", 51));
    assert!(token.transfer_from("spender", "owner", "bob", 50));
    assert_eq!(token.allowance("owner", "spender"), 0);
    assert_eq!(token.balance_of("bob"), 250);
}

#[test]
fn transfer_from_needs_allowance_and_balance() {
    let mut token = BTNToken::new("owner", 100);
    assert!(!token.transfer_from("spender", "owner", "bob", 1));
    token.approve("owner", "spender", 500);
    assert!(!token.transfer_from("spender", "owner", "bob", 101));
    assert_eq!(token.allowance("owner", "spender"), 500);
    assert_eq!(token.balance_of("owner"), 100);
    assert!(!token.transfer_from("other", "owner", "bob", 1));
    assert!(token.transfer_from("other", "owner", "bob", 0));
    assert_eq!(token.allowance("owner", "other"), 0);
    assert_eq!(token.allowances.len(), 1);
}

#[test]
fn minting_raises_balance_and_supply_until_disabled() {
    let mut token = BTNToken::new("owner", 100);
    assert!(token.mint("bob", 50));
    assert_eq!(token.balance_of("bob"), 50);
    assert_eq!(token.total_supply, 150);
    token.disable_minting();
    assert!(!token.minting_enabled);
    assert!(!token.mint("bob", 50));
    assert_eq!(token.balance_of("bob"), 50);
    assert_eq!(token.total_supply, 150);
}

#[test]
fn burning_lowers_balance_and_supply() {
    let mut token = BTNToken::new("owner", 100);
    assert!(token.burn("owner", 40));
    assert_eq!(token.balance_of("owner"), 60);
    assert_eq!(token.total_supply, 60);
    assert!(!token.burn("owner", 61));
    assert!(!token.burn("bob", 1));
    assert_eq!(token.total_supply, 60);
    assert!(token.burn("owner", 60));
    assert_eq!(token.balance_of("owner"), 0);
    assert_eq!(token.total_supply, 0);
}

#[test]
fn token_info_copies_the_figures() {
    let mut token = BTNToken::new("owner", 100);
    token.mint("bob", 1);
    token.disable_minting();
    let info = token.get_token_info();
    assert_eq!(info.name, "Bitnun Token");
    assert_eq!(info.symbol, "BTN");
    assert_eq!(info.decimals, 2);
    assert_eq!(info.total_supply, 101);
    assert!(!info.minting_enabled);
}
