//! The token: balances, allowances, minting and burning.

use crate::contracts::accounts::{
    account_views,
    amount_of,
    get_amount,
    lemma_amount_after_set,
    set_amount,
    with_amount,
    Account,
    AccountView,
};
use crate::keyed::{find, keys_of, position_of, Keyed};
use vstd::prelude::*;
use vstd::string::*;

verus! {

/// What one owner allows each spender to move.
pub struct OwnerAllowances {
    pub owner: String,
    pub spenders: Vec<Account>,
}

/// What the allowances of one owner hold, as plain mathematical values.
pub struct OwnerAllowancesView {
    pub owner: Seq<char>,
    pub spenders: Seq<AccountView>,
}

impl View for OwnerAllowances {
    type V = OwnerAllowancesView;

    open spec fn view(&self) -> OwnerAllowancesView {
        OwnerAllowancesView { owner: self.owner@, spenders: account_views(self.spenders@) }
    }
}

impl Keyed for OwnerAllowances {
    open spec fn key(&self) -> Seq<char> {
        self.owner@
    }

    fn key_text(&self) -> (text: &String) {
        &self.owner
    }
}

/// The views of a sequence of allowances, in order.
pub open spec fn allowance_views(allowances: Seq<OwnerAllowances>) -> Seq<OwnerAllowancesView> {
    allowances.map_values(|a: OwnerAllowances| a@)
}

/// The owners of a sequence of allowances, in order.
pub open spec fn allowance_owners(allowances: Seq<OwnerAllowancesView>) -> Seq<Seq<char>> {
    allowances.map_values(|a: OwnerAllowancesView| a.owner)
}

/// What `owner` allows `spender` to move: zero without an entry.
pub open spec fn allowance_of(
    allowances: Seq<OwnerAllowancesView>,
    owner: Seq<char>,
    spender: Seq<char>,
) -> nat {
    match position_of(allowance_owners(allowances), owner) {
        Some(i) => amount_of(allowances[i].spenders, spender),
        None => 0,
    }
}

/// The allowances after `owner` allowed `spender` to move `amount`.
pub open spec fn with_allowance(
    allowances: Seq<OwnerAllowancesView>,
    owner: Seq<char>,
    spender: Seq<char>,
    amount: nat,
) -> Seq<OwnerAllowancesView> {
    match position_of(allowance_owners(allowances), owner) {
        Some(i) => allowances.update(
            i,
            OwnerAllowancesView {
                owner: allowances[i].owner,
                spenders: with_amount(allowances[i].spenders, spender, amount),
            },
        ),
        None => allowances.push(
            OwnerAllowancesView {
                owner,
                spenders: with_amount(Seq::empty(), spender, amount),
            },
        ),
    }
}

/// The token with its balances and allowances.
pub struct BTNToken {
    pub name: String,
    pub symbol: String,
    pub decimals: u8,
    pub total_supply: u64,
    pub balances: Vec<Account>,
    pub allowances: Vec<OwnerAllowances>,
    pub owner: String,
    pub minting_enabled: bool,
}

/// What the token holds, as plain mathematical values.
pub struct TokenView {
    pub name: Seq<char>,
    pub symbol: Seq<char>,
    pub decimals: nat,
    pub total_supply: nat,
    pub balances: Seq<AccountView>,
    pub allowances: Seq<OwnerAllowancesView>,
    pub owner: Seq<char>,
    pub minting_enabled: bool,
}

impl View for BTNToken {
    type V = TokenView;

    open spec fn view(&self) -> TokenView {
        TokenView {
            name: self.name@,
            symbol: self.symbol@,
            decimals: self.decimals as nat,
            total_supply: self.total_supply as nat,
            balances: account_views(self.balances@),
            allowances: allowance_views(self.allowances@),
            owner: self.owner@,
            minting_enabled: self.minting_enabled,
        }
    }
}

/// The figures that describe the token.
pub struct TokenInfo {
    pub name: String,
    pub symbol: String,
    pub decimals: u8,
    pub total_supply: u64,
    pub minting_enabled: bool,
}

/// The balances after `amount` moved from `from` to `to`. Both balances
/// are read before either is written: a transfer of an address to itself
/// leaves it with its balance plus the amount.
pub open spec fn after_transfer(
    balances: Seq<AccountView>,
    from: Seq<char>,
    to: Seq<char>,
    amount: nat,
) -> Seq<AccountView> {
    with_amount(
        with_amount(balances, from, (amount_of(balances, from) - amount) as nat),
        to,
        amount_of(balances, to) + amount,
    )
}

impl BTNToken {
    /// The token with the whole initial supply on the owner's balance.
    pub fn new(owner: &str, initial_supply: u64) -> (token: BTNToken)
        ensures
            token@ == (TokenView {
                name: "Bitnun Token"@,
                symbol: "BTN"@,
                decimals: 2,
                total_supply: initial_supply as nat,
                balances: with_amount(Seq::empty(), owner@, initial_supply as nat),
                allowances: Seq::empty(),
                owner: owner@,
                minting_enabled: true,
            }),
    {
        let mut balances: Vec<Account> = Vec::new();
        assert(account_views(balances@) =~= Seq::empty());
        set_amount(&mut balances, owner, initial_supply);
        let token = BTNToken {
            name: String::from_str("Bitnun Token"),
            symbol: String::from_str("BTN"),
            decimals: 2,
            total_supply: initial_supply,
            balances,
            allowances: Vec::new(),
            owner: String::from_str(owner),
            minting_enabled: true,
        };
        assert(token@.allowances =~= Seq::empty());
        token
    }

    /// The balance of `account`.
    pub fn balance_of(&self, account: &str) -> (balance: u64)
        ensures
            balance == amount_of(self@.balances, account@),
    {
        get_amount(self.balances.as_slice(), account)
    }

    /// Moves `amount` from `from` to `to` if the balance of `from` covers
    /// it. A rejected transfer changes nothing.
    pub fn transfer(&mut self, from: &str, to: &str, amount: u64) -> (done: bool)
        requires
            amount_of(old(self)@.balances, from@) >= amount ==> amount_of(
                old(self)@.balances,
                to@,
            ) + amount <= u64::MAX,
        ensures
            done == (amount_of(old(self)@.balances, from@) >= amount),
            !done ==> final(self)@ == old(self)@,
            done ==> final(self)@ == (TokenView {
                balances: after_transfer(old(self)@.balances, from@, to@, amount as nat),
                ..old(self)@
            }),
            done && from@ != to@ ==> amount_of(final(self)@.balances, from@) == amount_of(
                old(self)@.balances,
                from@,
            ) - amount && amount_of(final(self)@.balances, to@) == amount_of(
                old(self)@.balances,
                to@,
            ) + amount,
    {
        let from_balance: u64 = self.balance_of(from);
        if from_balance < amount {
            return false;
        }
        let to_balance: u64 = self.balance_of(to);
        set_amount(&mut self.balances, from, from_balance - amount);
        let ghost debited = account_views(self.balances@);
        set_amount(&mut self.balances, to, to_balance + amount);
        proof {
            lemma_amount_after_set(
                old(self)@.balances,
                from@,
                (from_balance - amount) as nat,
                to@,
            );
            lemma_amount_after_set(debited, to@, (to_balance + amount) as nat, from@);
        }
        true
    }

    /// Lets `spender` move up to `amount` from the balance of `owner`.
    pub fn approve(&mut self, owner: &str, spender: &str, amount: u64) -> (done: bool)
        ensures
            done,
            final(self)@ == (TokenView {
                allowances: with_allowance(
                    old(self)@.allowances,
                    owner@,
                    spender@,
                    amount as nat,
                ),
                ..old(self)@
            }),
    {
        assert(keys_of(self.allowances@) =~= allowance_owners(self@.allowances));
        match find(self.allowances.as_slice(), owner) {
            Some(i) => {
                set_amount(&mut self.allowances[i].spenders, spender, amount);
                assert(self@.allowances =~= with_allowance(
                    old(self)@.allowances,
                    owner@,
                    spender@,
                    amount as nat,
                ));
            },
            None => {
                let mut spenders: Vec<Account> = Vec::new();
                assert(account_views(spenders@) =~= Seq::empty());
                set_amount(&mut spenders, spender, amount);
                let entry = OwnerAllowances { owner: String::from_str(owner), spenders };
                self.allowances.push(entry);
                assert(self@.allowances =~= old(self)@.allowances.push(entry@));
            },
        }
        true
    }

    /// What `owner` allows `spender` to move.
    pub fn allowance(&self, owner: &str, spender: &str) -> (amount: u64)
        ensures
            amount == allowance_of(self@.allowances, owner@, spender@),
    {
        assert(keys_of(self.allowances@) =~= allowance_owners(self@.allowances));
        match find(self.allowances.as_slice(), owner) {
            Some(i) => get_amount(self.allowances[i].spenders.as_slice(), spender),
            None => 0,
        }
    }

    /// Moves `amount` from `from` to `to` on behalf of `spender`, if the
    /// allowance and the balance cover it, and takes the amount off the
    /// allowance. A rejected transfer changes nothing.
    pub fn transfer_from(&mut self, spender: &str, from: &str, to: &str, amount: u64) -> (done:
        bool)
        requires
            amount_of(old(self)@.balances, from@) >= amount ==> amount_of(
                old(self)@.balances,
                to@,
            ) + amount <= u64::MAX,
        ensures
            done == (allowance_of(old(self)@.allowances, from@, spender@) >= amount && amount_of(
                old(self)@.balances,
                from@,
            ) >= amount),
            !done ==> final(self)@ == old(self)@,
            done ==> final(self)@ == (TokenView {
                balances: after_transfer(old(self)@.balances, from@, to@, amount as nat),
                allowances: if position_of(allowance_owners(old(self)@.allowances), from@)
                    is Some {
                    with_allowance(
                        old(self)@.allowances,
                        from@,
                        spender@,
                        (allowance_of(old(self)@.allowances, from@, spender@) - amount) as nat,
                    )
                } else {
                    old(self)@.allowances
                },
                ..old(self)@
            }),
    {
        let allowance: u64 = self.allowance(from, spender);
        if allowance < amount {
            return false;
        }
        if !self.transfer(from, to, amount) {
            return false;
        }
        assert(keys_of(self.allowances@) =~= allowance_owners(self@.allowances));
        match find(self.allowances.as_slice(), from) {
            Some(i) => {
                set_amount(&mut self.allowances[i].spenders, spender, allowance - amount);
                assert(self@.allowances =~= with_allowance(
                    old(self)@.allowances,
                    from@,
                    spender@,
                    (allowance - amount) as nat,
                ));
            },
            None => {},
        }
        true
    }

    /// Creates `amount` new units on the balance of `to`, while minting is
    /// enabled. A rejected minting changes nothing.
    pub fn mint(&mut self, to: &str, amount: u64) -> (done: bool)
        requires
            old(self).minting_enabled ==> amount_of(old(self)@.balances, to@) + amount <= u64::MAX
                && old(self).total_supply + amount <= u64::MAX,
        ensures
            done == old(self)@.minting_enabled,
            !done ==> final(self)@ == old(self)@,
            done ==> final(self)@ == (TokenView {
                balances: with_amount(
                    old(self)@.balances,
                    to@,
                    amount_of(old(self)@.balances, to@) + amount as nat,
                ),
                total_supply: old(self)@.total_supply + amount as nat,
                ..old(self)@
            }),
    {
        if !self.minting_enabled {
            return false;
        }
        let to_balance: u64 = self.balance_of(to);
        set_amount(&mut self.balances, to, to_balance + amount);
        self.total_supply = self.total_supply + amount;
        true
    }

    /// Destroys `amount` units of the balance of `from`, if it covers them.
    /// A rejected burning changes nothing.
    pub fn burn(&mut self, from: &str, amount: u64) -> (done: bool)
        requires
            amount_of(old(self)@.balances, from@) >= amount ==> old(self).total_supply >= amount,
        ensures
            done == (amount_of(old(self)@.balances, from@) >= amount),
            !done ==> final(self)@ == old(self)@,
            done ==> final(self)@ == (TokenView {
                balances: with_amount(
                    old(self)@.balances,
                    from@,
                    (amount_of(old(self)@.balances, from@) - amount) as nat,
                ),
                total_supply: (old(self)@.total_supply - amount) as nat,
                ..old(self)@
            }),
    {
        let from_balance: u64 = self.balance_of(from);
        if from_balance < amount {
            return false;
        }
        set_amount(&mut self.balances, from, from_balance - amount);
        self.total_supply = self.total_supply - amount;
        true
    }

    /// Disables minting for good.
    pub fn disable_minting(&mut self)
        ensures
            final(self)@ == (TokenView { minting_enabled: false, ..old(self)@ }),
    {
        self.minting_enabled = false;
    }

    /// The figures that describe the token.
    pub fn get_token_info(&self) -> (info: TokenInfo)
        ensures
            info.name@ == self@.name,
            info.symbol@ == self@.symbol,
            info.decimals == self@.decimals,
            info.total_supply == self@.total_supply,
            info.minting_enabled == self@.minting_enabled,
    {
        TokenInfo {
            name: self.name.clone(),
            symbol: self.symbol.clone(),
            decimals: self.decimals,
            total_supply: self.total_supply,
            minting_enabled: self.minting_enabled,
        }
    }
}

} // verus!
