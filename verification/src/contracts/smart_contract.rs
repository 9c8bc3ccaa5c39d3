//! The scripted contract: named functions that work on a store of texts.

use crate::keyed::{
    find,
    keys_after_put,
    keys_of,
    lemma_position_after_put,
    lemma_position_none,
    position_of,
    Keyed,
};
use crate::stamp::fresh_id;
use crate::text::{
    amount_text_value,
    decimal_string,
    decimal_text,
    parse_amount,
    same_text,
    split_at_char,
    split_text,
    texts,
};
use vstd::prelude::*;
use vstd::string::*;

verus! {

/// The gas limit of a new contract.
pub const DEFAULT_GAS_LIMIT: u64 = 1_000_000;

/// One stored value.
pub struct StorageEntry {
    pub key: String,
    pub value: String,
}

/// What a stored value holds, as plain mathematical values.
pub struct StorageEntryView {
    pub key: Seq<char>,
    pub value: Seq<char>,
}

impl View for StorageEntry {
    type V = StorageEntryView;

    open spec fn view(&self) -> StorageEntryView {
        StorageEntryView { key: self.key@, value: self.value@ }
    }
}

impl Keyed for StorageEntry {
    open spec fn key(&self) -> Seq<char> {
        self.key@
    }

    fn key_text(&self) -> (text: &String) {
        &self.key
    }
}

/// The views of a sequence of stored values, in order.
pub open spec fn storage_views(entries: Seq<StorageEntry>) -> Seq<StorageEntryView> {
    entries.map_values(|e: StorageEntry| e@)
}

/// The keys of a sequence of stored values, in order.
pub open spec fn storage_keys(entries: Seq<StorageEntryView>) -> Seq<Seq<char>> {
    entries.map_values(|e: StorageEntryView| e.key)
}

/// The value stored under `key`: the empty text without an entry.
pub open spec fn stored(entries: Seq<StorageEntryView>, key: Seq<char>) -> Seq<char> {
    match position_of(storage_keys(entries), key) {
        Some(i) => entries[i].value,
        None => Seq::empty(),
    }
}

/// The amount stored under `key`: zero without an entry, and zero for a
/// value that does not write an amount.
pub open spec fn stored_amount(entries: Seq<StorageEntryView>, key: Seq<char>) -> nat {
    amount_text_value(stored(entries, key))
}

/// The store after `value` was stored under `key`.
pub open spec fn with_stored(
    entries: Seq<StorageEntryView>,
    key: Seq<char>,
    value: Seq<char>,
) -> Seq<StorageEntryView> {
    match position_of(storage_keys(entries), key) {
        Some(i) => entries.update(i, StorageEntryView { key, value }),
        None => entries.push(StorageEntryView { key, value }),
    }
}

/// The store after the amount `amount` was stored under `key`.
pub open spec fn with_stored_amount(
    entries: Seq<StorageEntryView>,
    key: Seq<char>,
    amount: nat,
) -> Seq<StorageEntryView> {
    with_stored(entries, key, decimal_text(amount))
}

/// The key of the balance of `account`.
pub open spec fn balance_key(account: Seq<char>) -> Seq<char> {
    "balance_"@ + account
}

/// The key of the stake of `user`.
pub open spec fn stake_key(user: Seq<char>) -> Seq<char> {
    "stake_"@ + user
}

/// The key of what `owner` allows `spender` to move.
pub open spec fn allowance_key(owner: Seq<char>, spender: Seq<char>) -> Seq<char> {
    "allowance_"@ + owner + "_"@ + spender
}

/// The text without its hyphens.
pub open spec fn without_hyphens(text: Seq<char>) -> Seq<char>
    decreases text.len(),
{
    if text.len() == 0 {
        Seq::empty()
    } else if text.last() == '-' {
        without_hyphens(text.drop_last())
    } else {
        without_hyphens(text.drop_last()).push(text.last())
    }
}

/// The address of the contract with the identifier `id`.
pub open spec fn contract_address(id: Seq<char>) -> Seq<char> {
    "0x"@ + without_hyphens(id)
}

/// A contract: its address, owner and code, and its store.
pub struct SmartContract {
    pub address: String,
    pub owner: String,
    pub code: String,
    pub storage: Vec<StorageEntry>,
    pub gas_limit: u64,
}

/// What a contract holds, as plain mathematical values.
pub struct ContractView {
    pub address: Seq<char>,
    pub owner: Seq<char>,
    pub code: Seq<char>,
    pub storage: Seq<StorageEntryView>,
    pub gas_limit: nat,
}

impl View for SmartContract {
    type V = ContractView;

    open spec fn view(&self) -> ContractView {
        ContractView {
            address: self.address@,
            owner: self.owner@,
            code: self.code@,
            storage: storage_views(self.storage@),
            gas_limit: self.gas_limit as nat,
        }
    }
}

/// What a call of a function does: the answer and the store afterwards.
pub struct Outcome {
    pub answer: Seq<char>,
    pub storage: Seq<StorageEntryView>,
}

/// The answer to a call that did what it was asked.
pub open spec fn success() -> Seq<char> {
    "Success"@
}

/// The answer to a call with the wrong number of parameters.
pub open spec fn invalid_parameters() -> Seq<char> {
    "Invalid parameters"@
}

/// `transfer` with the parameters `from,to,amount`: moves the amount if
/// the balance of `from` covers it. Both balances are read before either
/// is written.
pub open spec fn transfer_outcome(storage: Seq<StorageEntryView>, params: Seq<char>) -> Outcome {
    let parts = split_text(params, ',');
    if parts.len() != 3 {
        Outcome { answer: invalid_parameters(), storage }
    } else {
        let amount = amount_text_value(parts[2]);
        let from_balance = stored_amount(storage, balance_key(parts[0]));
        let to_balance = stored_amount(storage, balance_key(parts[1]));
        if from_balance < amount {
            Outcome { answer: "Insufficient balance"@, storage }
        } else {
            Outcome {
                answer: success(),
                storage: with_stored_amount(
                    with_stored_amount(
                        storage,
                        balance_key(parts[0]),
                        (from_balance - amount) as nat,
                    ),
                    balance_key(parts[1]),
                    to_balance + amount,
                ),
            }
        }
    }
}

/// `mint` with the parameters `to,amount`: adds the amount to the balance
/// of `to` and to the total supply.
pub open spec fn mint_outcome(storage: Seq<StorageEntryView>, params: Seq<char>) -> Outcome {
    let parts = split_text(params, ',');
    if parts.len() != 2 {
        Outcome { answer: invalid_parameters(), storage }
    } else {
        let amount = amount_text_value(parts[1]);
        let credited = with_stored_amount(
            storage,
            balance_key(parts[0]),
            stored_amount(storage, balance_key(parts[0])) + amount,
        );
        Outcome {
            answer: success(),
            storage: with_stored_amount(
                credited,
                "total_supply"@,
                stored_amount(credited, "total_supply"@) + amount,
            ),
        }
    }
}

/// `approve` with the parameters `owner,spender,amount`: stores the
/// allowance.
pub open spec fn approve_outcome(storage: Seq<StorageEntryView>, params: Seq<char>) -> Outcome {
    let parts = split_text(params, ',');
    if parts.len() != 3 {
        Outcome { answer: invalid_parameters(), storage }
    } else {
        Outcome {
            answer: success(),
            storage: with_stored_amount(
                storage,
                allowance_key(parts[0], parts[1]),
                amount_text_value(parts[2]),
            ),
        }
    }
}

/// `stake` with the parameters `user,amount`: adds the amount to the
/// stake of `user`.
pub open spec fn stake_outcome(storage: Seq<StorageEntryView>, params: Seq<char>) -> Outcome {
    let parts = split_text(params, ',');
    if parts.len() != 2 {
        Outcome { answer: invalid_parameters(), storage }
    } else {
        Outcome {
            answer: success(),
            storage: with_stored_amount(
                storage,
                stake_key(parts[0]),
                stored_amount(storage, stake_key(parts[0])) + amount_text_value(parts[1]),
            ),
        }
    }
}

/// What a call of `function` with `params` does.
pub open spec fn outcome(storage: Seq<StorageEntryView>, function: Seq<char>, params: Seq<char>) -> Outcome {
    if function == "transfer"@ {
        transfer_outcome(storage, params)
    } else if function == "mint"@ {
        mint_outcome(storage, params)
    } else if function == "approve"@ {
        approve_outcome(storage, params)
    } else if function == "stake"@ {
        stake_outcome(storage, params)
    } else {
        Outcome { answer: "Function not found"@, storage }
    }
}

/// The balance that `transfer` credits stays at most `u64::MAX`.
pub open spec fn transfer_fits(storage: Seq<StorageEntryView>, params: Seq<char>) -> bool {
    let parts = split_text(params, ',');
    parts.len() == 3 && stored_amount(storage, balance_key(parts[0])) >= amount_text_value(
        parts[2],
    ) ==> stored_amount(storage, balance_key(parts[1])) + amount_text_value(parts[2]) <= u64::MAX
}

/// The balance and the total supply that `mint` raises stay at most
/// `u64::MAX`.
pub open spec fn mint_fits(storage: Seq<StorageEntryView>, params: Seq<char>) -> bool {
    let parts = split_text(params, ',');
    parts.len() == 2 ==> {
        let amount = amount_text_value(parts[1]);
        let balance = stored_amount(storage, balance_key(parts[0]));
        &&& balance + amount <= u64::MAX
        &&& stored_amount(
            with_stored_amount(storage, balance_key(parts[0]), balance + amount),
            "total_supply"@,
        ) + amount <= u64::MAX
    }
}

/// The stake that `stake` raises stays at most `u64::MAX`.
pub open spec fn stake_fits(storage: Seq<StorageEntryView>, params: Seq<char>) -> bool {
    let parts = split_text(params, ',');
    parts.len() == 2 ==> stored_amount(storage, stake_key(parts[0])) + amount_text_value(
        parts[1],
    ) <= u64::MAX
}

/// Every amount that a call of `function` with `params` stores is at most
/// `u64::MAX`.
pub open spec fn amounts_fit(storage: Seq<StorageEntryView>, function: Seq<char>, params: Seq<char>) -> bool {
    if function == "transfer"@ {
        transfer_fits(storage, params)
    } else if function == "mint"@ {
        mint_fits(storage, params)
    } else if function == "stake"@ {
        stake_fits(storage, params)
    } else {
        true
    }
}

/// Removes the hyphens of `text`.
pub fn strip_hyphens(text: &str) -> (stripped: String)
    ensures
        stripped@ == without_hyphens(text@),
{
    let len: usize = text.unicode_len();
    let mut stripped: String = String::new();
    let mut i: usize = 0;
    while i < len
        invariant
            i <= len == text@.len(),
            stripped@ == without_hyphens(text@.take(i as int)),
        decreases len - i,
    {
        let c: char = text.get_char(i);
        proof {
            assert(text@.take(i + 1).drop_last() =~= text@.take(i as int));
        }
        if c != '-' {
            stripped.append(text.substring_char(i, i + 1));
        }
        i = i + 1;
    }
    assert(text@.take(len as int) =~= text@);
    stripped
}

impl SmartContract {
    /// A contract with a fresh address and an empty store.
    pub fn new(owner: &str, code: &str) -> (contract: SmartContract)
        ensures
            contract@.owner == owner@,
            contract@.code == code@,
            contract@.storage.len() == 0,
            contract@.gas_limit == DEFAULT_GAS_LIMIT,
            exists|id: Seq<char>| contract@.address == #[trigger] contract_address(id),
    {
        let id: String = fresh_id();
        let contract = Self::with_id(id.as_str(), owner, code);
        contract
    }

    /// The contract whose address is made from the identifier `id`.
    pub fn with_id(id: &str, owner: &str, code: &str) -> (contract: SmartContract)
        ensures
            contract@ == (ContractView {
                address: contract_address(id@),
                owner: owner@,
                code: code@,
                storage: Seq::empty(),
                gas_limit: DEFAULT_GAS_LIMIT as nat,
            }),
    {
        let mut address: String = String::from_str("0x");
        address.append(strip_hyphens(id).as_str());
        let contract = SmartContract {
            address,
            owner: String::from_str(owner),
            code: String::from_str(code),
            storage: Vec::new(),
            gas_limit: DEFAULT_GAS_LIMIT,
        };
        assert(contract@.storage =~= Seq::empty());
        contract
    }

    /// Calls `function` with the comma-separated parameters `params` and
    /// returns its answer.
    pub fn execute(&mut self, function: &str, params: &str) -> (answer: String)
        requires
            amounts_fit(old(self)@.storage, function@, params@),
        ensures
            answer@ == outcome(old(self)@.storage, function@, params@).answer,
            final(self)@ == (ContractView {
                storage: outcome(old(self)@.storage, function@, params@).storage,
                ..old(self)@
            }),
    {
        if same_text(function, "transfer") {
            self.handle_transfer(params)
        } else if same_text(function, "mint") {
            self.handle_mint(params)
        } else if same_text(function, "approve") {
            self.handle_approve(params)
        } else if same_text(function, "stake") {
            self.handle_stake(params)
        } else {
            String::from_str("Function not found")
        }
    }

    /// Whether every amount that a call of `function` with `params` would
    /// store is at most `u64::MAX`: whether [`Self::execute`] may be called.
    pub fn can_execute(&self, function: &str, params: &str) -> (fits: bool)
        ensures
            fits == amounts_fit(self@.storage, function@, params@),
    {
        let parts: Vec<String> = split_at_char(params, ',');
        if same_text(function, "transfer") {
            if parts.len() != 3 {
                return true;
            }
            let amount: u64 = parse_amount(parts[2].as_str());
            let from_balance: u64 = self.amount_under(Self::key_of_balance(parts[0].as_str()).as_str());
            let to_balance: u64 = self.amount_under(Self::key_of_balance(parts[1].as_str()).as_str());
            from_balance < amount || to_balance.checked_add(amount).is_some()
        } else if same_text(function, "mint") {
            if parts.len() != 2 {
                return true;
            }
            let amount: u64 = parse_amount(parts[1].as_str());
            let key: String = Self::key_of_balance(parts[0].as_str());
            let balance: u64 = self.amount_under(key.as_str());
            match balance.checked_add(amount) {
                Some(credited) => {
                    let supply: u64 = if same_text(key.as_str(), "total_supply") {
                        credited
                    } else {
                        self.amount_under("total_supply")
                    };
                    proof {
                        lemma_stored_after(
                            self@.storage,
                            key@,
                            decimal_text(credited as nat),
                            "total_supply"@,
                        );
                        crate::text::lemma_amount_of_decimal(credited as nat);
                    }
                    supply.checked_add(amount).is_some()
                },
                None => false,
            }
        } else if same_text(function, "stake") {
            if parts.len() != 2 {
                return true;
            }
            let amount: u64 = parse_amount(parts[1].as_str());
            let mut key: String = String::from_str("stake_");
            key.append(parts[0].as_str());
            self.amount_under(key.as_str()).checked_add(amount).is_some()
        } else {
            true
        }
    }

    fn key_of_balance(account: &str) -> (key: String)
        ensures
            key@ == balance_key(account@),
    {
        let mut key: String = String::from_str("balance_");
        key.append(account);
        key
    }

    /// The amount stored under `key`.
    pub fn amount_under(&self, key: &str) -> (amount: u64)
        ensures
            amount == stored_amount(self@.storage, key@),
    {
        parse_amount(self.get_storage(key).as_str())
    }

    fn store_amount(&mut self, key: &str, amount: u64)
        ensures
            final(self)@ == (ContractView {
                storage: with_stored_amount(old(self)@.storage, key@, amount as nat),
                ..old(self)@
            }),
    {
        self.set_storage(key, decimal_string(amount).as_str());
    }

    fn handle_transfer(&mut self, params: &str) -> (answer: String)
        requires
            transfer_fits(old(self)@.storage, params@),
        ensures
            answer@ == transfer_outcome(old(self)@.storage, params@).answer,
            final(self)@ == (ContractView {
                storage: transfer_outcome(old(self)@.storage, params@).storage,
                ..old(self)@
            }),
    {
        let parts: Vec<String> = split_at_char(params, ',');
        if parts.len() != 3 {
            return String::from_str("Invalid parameters");
        }
        let amount: u64 = parse_amount(parts[2].as_str());
        let from_key: String = Self::key_of_balance(parts[0].as_str());
        let to_key: String = Self::key_of_balance(parts[1].as_str());
        let from_balance: u64 = self.amount_under(from_key.as_str());
        if from_balance < amount {
            return String::from_str("Insufficient balance");
        }
        let to_balance: u64 = self.amount_under(to_key.as_str());
        self.store_amount(from_key.as_str(), from_balance - amount);
        self.store_amount(to_key.as_str(), to_balance + amount);
        String::from_str("Success")
    }

    fn handle_mint(&mut self, params: &str) -> (answer: String)
        requires
            mint_fits(old(self)@.storage, params@),
        ensures
            answer@ == mint_outcome(old(self)@.storage, params@).answer,
            final(self)@ == (ContractView {
                storage: mint_outcome(old(self)@.storage, params@).storage,
                ..old(self)@
            }),
    {
        let parts: Vec<String> = split_at_char(params, ',');
        if parts.len() != 2 {
            return String::from_str("Invalid parameters");
        }
        let amount: u64 = parse_amount(parts[1].as_str());
        let key: String = Self::key_of_balance(parts[0].as_str());
        let balance: u64 = self.amount_under(key.as_str());
        self.store_amount(key.as_str(), balance + amount);
        let supply: u64 = self.amount_under("total_supply");
        self.store_amount("total_supply", supply + amount);
        String::from_str("Success")
    }

    fn handle_approve(&mut self, params: &str) -> (answer: String)
        ensures
            answer@ == approve_outcome(old(self)@.storage, params@).answer,
            final(self)@ == (ContractView {
                storage: approve_outcome(old(self)@.storage, params@).storage,
                ..old(self)@
            }),
    {
        let parts: Vec<String> = split_at_char(params, ',');
        if parts.len() != 3 {
            return String::from_str("Invalid parameters");
        }
        let amount: u64 = parse_amount(parts[2].as_str());
        let mut key: String = String::from_str("allowance_");
        key.append(parts[0].as_str());
        key.append("_");
        key.append(parts[1].as_str());
        self.store_amount(key.as_str(), amount);
        String::from_str("Success")
    }

    fn handle_stake(&mut self, params: &str) -> (answer: String)
        requires
            stake_fits(old(self)@.storage, params@),
        ensures
            answer@ == stake_outcome(old(self)@.storage, params@).answer,
            final(self)@ == (ContractView {
                storage: stake_outcome(old(self)@.storage, params@).storage,
                ..old(self)@
            }),
    {
        let parts: Vec<String> = split_at_char(params, ',');
        if parts.len() != 2 {
            return String::from_str("Invalid parameters");
        }
        let amount: u64 = parse_amount(parts[1].as_str());
        let mut key: String = String::from_str("stake_");
        key.append(parts[0].as_str());
        let staked: u64 = self.amount_under(key.as_str());
        self.store_amount(key.as_str(), staked + amount);
        String::from_str("Success")
    }

    /// The value stored under `key`: the empty text without an entry.
    pub fn get_storage(&self, key: &str) -> (value: String)
        ensures
            value@ == stored(self@.storage, key@),
    {
        assert(keys_of(self.storage@) =~= storage_keys(self@.storage));
        match find(self.storage.as_slice(), key) {
            Some(i) => self.storage[i].value.clone(),
            None => String::new(),
        }
    }

    /// Stores `value` under `key`.
    pub fn set_storage(&mut self, key: &str, value: &str)
        ensures
            final(self)@ == (ContractView {
                storage: with_stored(old(self)@.storage, key@, value@),
                ..old(self)@
            }),
    {
        assert(keys_of(self.storage@) =~= storage_keys(self@.storage));
        let entry = StorageEntry { key: String::from_str(key), value: String::from_str(value) };
        match find(self.storage.as_slice(), key) {
            Some(i) => {
                self.storage.set(i, entry);
                assert(self@.storage =~= old(self)@.storage.update(i as int, entry@));
            },
            None => {
                self.storage.push(entry);
                assert(self@.storage =~= old(self)@.storage.push(entry@));
            },
        }
    }
}

/// Storing a value changes what is stored under that key and under no
/// other.
pub proof fn lemma_stored_after(
    entries: Seq<StorageEntryView>,
    key: Seq<char>,
    value: Seq<char>,
    other: Seq<char>,
)
    ensures
        stored(with_stored(entries, key, value), key) == value,
        other != key ==> stored(with_stored(entries, key, value), other) == stored(entries, other),
{
    let before = storage_keys(entries);
    let after = storage_keys(with_stored(entries, key, value));
    lemma_position_none(before, key);
    assert(after =~= keys_after_put(before, key));
    lemma_position_after_put(before, key, other);
}

} // verus!
