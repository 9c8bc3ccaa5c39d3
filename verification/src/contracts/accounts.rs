//! Amounts kept by address: the balances, allowances and stakes of the
//! contracts. An address has the amount of its first entry, and zero
//! without one.

use crate::keyed::{
    find,
    keys_after_put,
    keys_of,
    lemma_position_after_put,
    lemma_position_none,
    position_of,
    Keyed,
};
use vstd::prelude::*;
use vstd::string::*;

verus! {

/// The amount held for one address.
pub struct Account {
    pub address: String,
    pub amount: u64,
}

/// What an account holds, as plain mathematical values.
pub struct AccountView {
    pub address: Seq<char>,
    pub amount: nat,
}

impl View for Account {
    type V = AccountView;

    open spec fn view(&self) -> AccountView {
        AccountView { address: self.address@, amount: self.amount as nat }
    }
}

impl Keyed for Account {
    open spec fn key(&self) -> Seq<char> {
        self.address@
    }

    fn key_text(&self) -> (text: &String) {
        &self.address
    }
}

/// The views of a sequence of accounts, in order.
pub open spec fn account_views(accounts: Seq<Account>) -> Seq<AccountView> {
    accounts.map_values(|a: Account| a@)
}

/// The addresses of a sequence of accounts, in order.
pub open spec fn account_addresses(accounts: Seq<AccountView>) -> Seq<Seq<char>> {
    accounts.map_values(|a: AccountView| a.address)
}

/// The amount held for `address`: zero without an entry.
pub open spec fn amount_of(accounts: Seq<AccountView>, address: Seq<char>) -> nat {
    match position_of(account_addresses(accounts), address) {
        Some(i) => accounts[i].amount,
        None => 0,
    }
}

/// The accounts after the amount of `address` was set: its entry is
/// replaced, or a new entry comes last.
pub open spec fn with_amount(accounts: Seq<AccountView>, address: Seq<char>, amount: nat) -> Seq<
    AccountView,
> {
    match position_of(account_addresses(accounts), address) {
        Some(i) => accounts.update(i, AccountView { address, amount }),
        None => accounts.push(AccountView { address, amount }),
    }
}

/// Setting an amount changes what is held for that address and for no
/// other.
pub proof fn lemma_amount_after_set(
    accounts: Seq<AccountView>,
    address: Seq<char>,
    amount: nat,
    other: Seq<char>,
)
    ensures
        amount_of(with_amount(accounts, address, amount), address) == amount,
        other != address ==> amount_of(with_amount(accounts, address, amount), other) == amount_of(
            accounts,
            other,
        ),
{
    let before = account_addresses(accounts);
    let after = account_addresses(with_amount(accounts, address, amount));
    lemma_position_none(before, address);
    assert(after =~= keys_after_put(before, address));
    lemma_position_after_put(before, address, other);
}

/// The amount held for `address`.
pub fn get_amount(accounts: &[Account], address: &str) -> (amount: u64)
    ensures
        amount == amount_of(account_views(accounts@), address@),
{
    assert(keys_of(accounts@) =~= account_addresses(account_views(accounts@)));
    match find(accounts, address) {
        Some(i) => accounts[i].amount,
        None => 0,
    }
}

/// Sets the amount held for `address`.
pub fn set_amount(accounts: &mut Vec<Account>, address: &str, amount: u64)
    ensures
        account_views(final(accounts)@) == with_amount(
            account_views(old(accounts)@),
            address@,
            amount as nat,
        ),
{
    assert(keys_of(accounts@) =~= account_addresses(account_views(accounts@)));
    let entry = Account { address: String::from_str(address), amount };
    match find(accounts.as_slice(), address) {
        Some(i) => {
            accounts.set(i, entry);
        },
        None => {
            accounts.push(entry);
        },
    }
}

} // verus!
