//! The world state: the account map, the flat storage map, and the
//! deployed contracts, each a store with pairwise distinct keys.
use vstd::prelude::*;
use crate::account::{Account, AccountView};
use crate::address::Address;
use crate::bytes::{clone_bytes, eq_bytes, zero_bytes};
use crate::evm::{Contract, ContractView};
use crate::kvmap::{
    entries_map, keys_unique, lemma_entries_map_contains, lemma_entries_map_index,
    lemma_entries_map_update, lemma_entries_map_push,
};

verus! {

/// The accounts, keyed by address bytes.
#[derive(Debug)]
pub struct AccountMap {
    pub entries: Vec<(Address, Account)>,
}

impl View for AccountMap {
    type V = Map<Seq<u8>, AccountView>;

    open spec fn view(&self) -> Map<Seq<u8>, AccountView> {
        entries_map(self.entries@)
    }
}

impl AccountMap {
    /// No two entries share an address.
    pub open spec fn well_formed(&self) -> bool {
        keys_unique(self.entries@)
    }

    /// An empty map.
    pub fn new() -> (r: AccountMap)
        ensures
            r@ == Map::<Seq<u8>, AccountView>::empty(),
            r.well_formed(),
    {
        let r = AccountMap { entries: Vec::new() };
        proof {
            assert(r.entries@.len() == 0);
        }
        r
    }

    /// The index holding the address, if any.
    fn find(&self, address: &Address) -> (r: Option<usize>)
        ensures
            match r {
                Some(i) => i < self.entries@.len() && self.entries@[i as int].0@ == address@,
                None => forall|j: int|
                    0 <= j < self.entries@.len() ==> self.entries@[j].0@ != address@,
            },
    {
        let mut i: usize = 0;
        while i < self.entries.len()
            invariant
                i <= self.entries@.len(),
                forall|j: int| 0 <= j < i ==> self.entries@[j].0@ != address@,
            decreases self.entries@.len() - i,
        {
            if self.entries[i].0.equals(address) {
                return Some(i);
            }
            i = i + 1;
        }
        None
    }

    /// A copy of the account stored under an address.
    pub fn get(&self, address: &Address) -> (r: Option<Account>)
        requires
            self.well_formed(),
        ensures
            match r {
                Some(a) => self@.contains_key(address@) && self@[address@] == a@,
                None => !self@.contains_key(address@),
            },
    {
        let found = self.find(address);
        proof {
            lemma_entries_map_contains(self.entries@, address@);
        }
        match found {
            Some(i) => {
                proof {
                    lemma_entries_map_index(self.entries@, i as int);
                }
                Some(self.entries[i].1.duplicate())
            },
            None => None,
        }
    }

    /// Store an account under an address, replacing what was there.
    pub fn set(&mut self, address: Address, account: Account)
        requires
            old(self).well_formed(),
        ensures
            final(self).well_formed(),
            final(self)@ == old(self)@.insert(address@, account@),
    {
        let found = self.find(&address);
        match found {
            Some(i) => {
                proof {
                    lemma_entries_map_update(self.entries@, i as int, (address, account));
                }
                self.entries[i] = (address, account);
            },
            None => {
                proof {
                    lemma_entries_map_push(self.entries@, (address, account));
                }
                self.entries.push((address, account));
            },
        }
    }
}

/// The deployed contracts, keyed by address bytes.
#[derive(Debug)]
pub struct ContractMap {
    pub entries: Vec<(Address, Contract)>,
}

impl View for ContractMap {
    type V = Map<Seq<u8>, ContractView>;

    open spec fn view(&self) -> Map<Seq<u8>, ContractView> {
        entries_map(self.entries@)
    }
}

impl ContractMap {
    /// No two entries share an address, and every stored contract keeps
    /// its storage keys distinct.
    pub open spec fn well_formed(&self) -> bool {
        keys_unique(self.entries@) && forall|i: int|
            0 <= i < self.entries@.len() ==> (#[trigger] self.entries@[i].1).well_formed()
    }

    /// An empty map.
    pub fn new() -> (r: ContractMap)
        ensures
            r@ == Map::<Seq<u8>, ContractView>::empty(),
            r.well_formed(),
    {
        let r = ContractMap { entries: Vec::new() };
        proof {
            assert(r.entries@.len() == 0);
        }
        r
    }

    /// The index holding the address, if any.
    fn find(&self, address: &Address) -> (r: Option<usize>)
        ensures
            match r {
                Some(i) => i < self.entries@.len() && self.entries@[i as int].0@ == address@,
                None => forall|j: int|
                    0 <= j < self.entries@.len() ==> self.entries@[j].0@ != address@,
            },
    {
        let mut i: usize = 0;
        while i < self.entries.len()
            invariant
                i <= self.entries@.len(),
                forall|j: int| 0 <= j < i ==> self.entries@[j].0@ != address@,
            decreases self.entries@.len() - i,
        {
            if self.entries[i].0.equals(address) {
                return Some(i);
            }
            i = i + 1;
        }
        None
    }

    /// A copy of the contract stored under an address.
    pub fn get(&self, address: &Address) -> (r: Option<Contract>)
        requires
            self.well_formed(),
        ensures
            match r {
                Some(c) => self@.contains_key(address@) && self@[address@] == c@
                    && c.well_formed(),
                None => !self@.contains_key(address@),
            },
    {
        let found = self.find(address);
        proof {
            lemma_entries_map_contains(self.entries@, address@);
        }
        match found {
            Some(i) => {
                proof {
                    lemma_entries_map_index(self.entries@, i as int);
                }
                Some(self.entries[i].1.duplicate())
            },
            None => None,
        }
    }

    /// Store a contract under an address, replacing what was there.
    pub fn set(&mut self, address: Address, contract: Contract)
        requires
            old(self).well_formed(),
            contract.well_formed(),
        ensures
            final(self).well_formed(),
            final(self)@ == old(self)@.insert(address@, contract@),
    {
        let found = self.find(&address);
        match found {
            Some(i) => {
                proof {
                    lemma_entries_map_update(self.entries@, i as int, (address, contract));
                }
                self.entries[i] = (address, contract);
            },
            None => {
                proof {
                    lemma_entries_map_push(self.entries@, (address, contract));
                }
                self.entries.push((address, contract));
            },
        }
    }
}

/// One flat-storage key: an address paired with a 32-byte slot key.
#[derive(Debug)]
pub struct SlotKey {
    pub address: Address,
    pub key: Vec<u8>,
}

impl View for SlotKey {
    type V = (Seq<u8>, Seq<u8>);

    open spec fn view(&self) -> (Seq<u8>, Seq<u8>) {
        (self.address@, self.key@)
    }
}

/// The flat storage, from address-and-key pairs to 32-byte values.
#[derive(Debug)]
pub struct SlotMap {
    pub entries: Vec<(SlotKey, Vec<u8>)>,
}

impl View for SlotMap {
    type V = Map<(Seq<u8>, Seq<u8>), Seq<u8>>;

    open spec fn view(&self) -> Map<(Seq<u8>, Seq<u8>), Seq<u8>> {
        entries_map(self.entries@)
    }
}

impl SlotMap {
    /// No two entries share a key pair.
    pub open spec fn well_formed(&self) -> bool {
        keys_unique(self.entries@)
    }

    /// An empty map.
    pub fn new() -> (r: SlotMap)
        ensures
            r@ == Map::<(Seq<u8>, Seq<u8>), Seq<u8>>::empty(),
            r.well_formed(),
    {
        let r = SlotMap { entries: Vec::new() };
        proof {
            assert(r.entries@.len() == 0);
        }
        r
    }

    /// The index holding the pair, if any.
    fn find(&self, address: &Address, key: &Vec<u8>) -> (r: Option<usize>)
        ensures
            match r {
                Some(i) => i < self.entries@.len() && self.entries@[i as int].0@ == (
                    address@,
                    key@,
                ),
                None => forall|j: int|
                    0 <= j < self.entries@.len() ==> self.entries@[j].0@ != (address@, key@),
            },
    {
        let mut i: usize = 0;
        while i < self.entries.len()
            invariant
                i <= self.entries@.len(),
                forall|j: int| 0 <= j < i ==> self.entries@[j].0@ != (address@, key@),
            decreases self.entries@.len() - i,
        {
            if self.entries[i].0.address.equals(address) && eq_bytes(&self.entries[i].0.key, key) {
                return Some(i);
            }
            i = i + 1;
        }
        None
    }

    /// A copy of the value stored under a pair.
    pub fn get(&self, address: &Address, key: &Vec<u8>) -> (r: Option<Vec<u8>>)
        requires
            self.well_formed(),
        ensures
            match r {
                Some(v) => self@.contains_key((address@, key@)) && self@[(address@, key@)] == v@,
                None => !self@.contains_key((address@, key@)),
            },
    {
        let found = self.find(address, key);
        proof {
            lemma_entries_map_contains(self.entries@, (address@, key@));
        }
        match found {
            Some(i) => {
                proof {
                    lemma_entries_map_index(self.entries@, i as int);
                }
                Some(clone_bytes(&self.entries[i].1))
            },
            None => None,
        }
    }

    /// Store a value under a pair, replacing what was there.
    pub fn set(&mut self, address: Address, key: Vec<u8>, value: Vec<u8>)
        requires
            old(self).well_formed(),
        ensures
            final(self).well_formed(),
            final(self)@ == old(self)@.insert((address@, key@), value@),
    {
        let found = self.find(&address, &key);
        let entry = (SlotKey { address, key }, value);
        match found {
            Some(i) => {
                proof {
                    lemma_entries_map_update(self.entries@, i as int, entry);
                }
                self.entries[i] = entry;
            },
            None => {
                proof {
                    lemma_entries_map_push(self.entries@, entry);
                }
                self.entries.push(entry);
            },
        }
    }
}

/// The process-wide mutable state: accounts, flat storage, contracts.
#[derive(Debug)]
pub struct State {
    pub accounts: AccountMap,
    pub storage: SlotMap,
    pub contract: ContractMap,
}

impl State {
    /// All three stores keep their keys distinct.
    pub open spec fn well_formed(&self) -> bool {
        self.accounts.well_formed() && self.storage.well_formed() && self.contract.well_formed()
    }

    /// An empty state.
    pub fn new() -> (r: State)
        ensures
            r.well_formed(),
            r.accounts@ == Map::<Seq<u8>, AccountView>::empty(),
            r.storage@ == Map::<(Seq<u8>, Seq<u8>), Seq<u8>>::empty(),
            r.contract@ == Map::<Seq<u8>, ContractView>::empty(),
    {
        State { accounts: AccountMap::new(), storage: SlotMap::new(), contract: ContractMap::new() }
    }

    /// A copy of the account at an address.
    pub fn get_account(&self, address: &Address) -> (r: Option<Account>)
        requires
            self.well_formed(),
        ensures
            match r {
                Some(a) => self.accounts@.contains_key(address@) && self.accounts@[address@]
                    == a@,
                None => !self.accounts@.contains_key(address@),
            },
    {
        self.accounts.get(address)
    }

    /// Store an account at an address.
    pub fn set_account(&mut self, address: Address, account: Account)
        requires
            old(self).well_formed(),
        ensures
            final(self).well_formed(),
            final(self).accounts@ == old(self).accounts@.insert(address@, account@),
            final(self).storage == old(self).storage,
            final(self).contract == old(self).contract,
    {
        self.accounts.set(address, account);
    }

    /// The stored 32-byte value of a slot; absent slots read as zero.
    pub fn get_storage(&self, address: &Address, key: &Vec<u8>) -> (r: Vec<u8>)
        requires
            self.well_formed(),
        ensures
            r@ == (if self.storage@.contains_key((address@, key@)) {
                self.storage@[(address@, key@)]
            } else {
                Seq::new(32, |i: int| 0u8)
            }),
    {
        match self.storage.get(address, key) {
            Some(v) => v,
            None => zero_bytes(32),
        }
    }

    /// Store a 32-byte value under a slot.
    pub fn set_storage(&mut self, address: Address, key: Vec<u8>, value: Vec<u8>)
        requires
            old(self).well_formed(),
        ensures
            final(self).well_formed(),
            final(self).storage@ == old(self).storage@.insert((address@, key@), value@),
            final(self).accounts == old(self).accounts,
            final(self).contract == old(self).contract,
    {
        self.storage.set(address, key, value);
    }
}

impl Default for State {
    /// The empty state.
    fn default() -> (r: State)
        ensures
            r.well_formed(),
            r.accounts@ == Map::<Seq<u8>, AccountView>::empty(),
            r.storage@ == Map::<(Seq<u8>, Seq<u8>), Seq<u8>>::empty(),
            r.contract@ == Map::<Seq<u8>, ContractView>::empty(),
    {
        State::new()
    }
}

} // verus!
