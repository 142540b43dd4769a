//! The contract's view of the ledger during one invocation.
//!
//! A [`Ledger`] holds the storage entries that the invocation works on, and notes in order
//! every step that the host has to carry out. The surrounding contract restores the entries
//! before it calls the oracle, and performs the noted actions afterwards.
use crate::price_map::{
    get_price_entry, has_room, is_typed, new_price_map, precedes, price_entries, price_map_keys,
    set_price_entry, PriceEntries, PriceMap,
};
use crate::table::Table;
use crate::types::{Action, Address, DataKey, PriceData, Symbol};
use soroban_sdk::Env;
use vstd::prelude::*;

verus! {

/// What is fixed when the contract is deployed.
#[derive(Clone, Copy, Debug, PartialEq, Eq)]
pub struct Deployment {
    /// The address of the contract itself.
    pub contract: Address,
    /// The delay, in ledgers, that the slashing engine enforces on withdrawals of stake.
    pub min_unbonding_delay_ledgers: u32,
}

/// The contents of the contract's persistent storage.
pub struct Store {
    pub admin: Option<Address>,
    /// The providers that may submit prices.
    pub providers: Set<Address>,
    /// Thresholds and reported liquidity.
    pub amounts: Map<DataKey, i128>,
    /// Times of validation.
    pub times: Map<DataKey, u64>,
    /// For every tracked asset its price, the time of it and its provider.
    pub prices: PriceEntries,
}

impl Store {
    /// The amount stored under a key.
    pub open spec fn amount(self, key: DataKey) -> Option<i128> {
        if self.amounts.contains_key(key) {
            Some(self.amounts[key])
        } else {
            None
        }
    }

    /// The point in time stored under a key.
    pub open spec fn time(self, key: DataKey) -> Option<u64> {
        if self.times.contains_key(key) {
            Some(self.times[key])
        } else {
            None
        }
    }

    /// The minimum liquidity that is configured for an asset.
    pub open spec fn threshold(self, asset: Symbol) -> Option<i128> {
        self.amount(DataKey::LiquidityThreshold(asset))
    }

    /// The latest price of an asset.
    pub open spec fn price(self, asset: Symbol) -> Option<(i128, u64, Seq<u8>)> {
        if self.prices.contains_key(asset@) {
            Some(self.prices[asset@])
        } else {
            None
        }
    }

    /// Whether there is room for the price of an asset.
    pub open spec fn has_room_for(self, asset: Symbol) -> bool {
        has_room(self.prices, asset@)
    }

    /// The storage after the host has carried out an action.
    pub open spec fn after(self, action: Action) -> Store {
        match action {
            Action::RequireAuth(_) => self,
            Action::SetAdmin(admin) => Store { admin: Some(admin), ..self },
            Action::SetAmount(key, value) => Store {
                amounts: self.amounts.insert(key, value),
                ..self
            },
            Action::RemoveAmount(key) => Store { amounts: self.amounts.remove(key), ..self },
            Action::SetTime(key, time) => Store { times: self.times.insert(key, time), ..self },
            Action::StorePrice(asset, data) => Store {
                prices: self.prices.insert(asset@, data@),
                ..self
            },
            Action::Publish(_) => self,
            Action::PublishPrice(_) => self,
        }
    }

    /// Whether an action can be carried out: only a price may find no room.
    pub open spec fn admits(self, action: Action) -> bool {
        action matches Action::StorePrice(asset, _) ==> self.has_room_for(asset)
    }
}

/// What a ledger stands for.
pub struct LedgerView {
    /// The time of the ledger, in seconds.
    pub timestamp: u64,
    pub deployment: Deployment,
    pub store: Store,
    /// The actions that the host has yet to carry out, in order.
    pub actions: Seq<Action>,
}

impl LedgerView {
    /// The ledger after one more action.
    pub open spec fn perform(self, action: Action) -> LedgerView {
        LedgerView {
            store: self.store.after(action),
            actions: self.actions.push(action),
            ..self
        }
    }
}

/// The state that an invocation of the contract works on.
pub struct Ledger {
    timestamp: u64,
    deployment: Deployment,
    admin: Option<Address>,
    providers: Vec<Address>,
    amounts: Table<i128>,
    times: Table<u64>,
    prices: PriceMap,
    actions: Vec<Action>,
}

impl View for Ledger {
    type V = LedgerView;

    closed spec fn view(&self) -> LedgerView {
        LedgerView {
            timestamp: self.timestamp,
            deployment: self.deployment,
            store: Store {
                admin: self.admin,
                providers: self.providers@.to_set(),
                amounts: self.amounts@,
                times: self.times@,
                prices: price_entries(self.prices),
            },
            actions: self.actions@,
        }
    }
}

impl Ledger {
    /// Whether the ledger is as its operations leave it.
    pub closed spec fn wf(&self) -> bool {
        &&& self.amounts.wf()
        &&& self.times.wf()
        &&& is_typed(self.prices)
    }

    /// Starts an invocation at the given time, with nothing restored from storage yet.
    pub fn new(env: &Env, deployment: Deployment, timestamp: u64) -> (ledger: Ledger)
        ensures
            ledger.wf(),
            ledger@.timestamp == timestamp,
            ledger@.deployment == deployment,
            ledger@.store.admin is None,
            ledger@.store.providers == Set::<Address>::empty(),
            ledger@.store.amounts == Map::<DataKey, i128>::empty(),
            ledger@.store.times == Map::<DataKey, u64>::empty(),
            ledger@.store.prices == PriceEntries::empty(),
            ledger@.actions == Seq::<Action>::empty(),
    {
        let ledger = Ledger {
            timestamp,
            deployment,
            admin: None,
            providers: Vec::new(),
            amounts: Table::new(),
            times: Table::new(),
            prices: new_price_map(env),
            actions: Vec::new(),
        };
        assert(ledger.providers@.to_set() =~= Set::<Address>::empty());
        ledger
    }

    /// Restores what an earlier action left in storage. The action is not noted again.
    pub fn restore(&mut self, action: Action)
        requires
            old(self).wf(),
            old(self)@.store.admits(action),
        ensures
            final(self).wf(),
            final(self)@ == (LedgerView {
                store: old(self)@.store.after(action),
                ..old(self)@
            }),
    {
        match action {
            Action::RequireAuth(_) => {},
            Action::SetAdmin(admin) => {
                self.admin = Some(admin);
            },
            Action::SetAmount(key, value) => {
                self.amounts.set(key, value);
            },
            Action::RemoveAmount(key) => {
                self.amounts.remove(&key);
            },
            Action::SetTime(key, time) => {
                self.times.set(key, time);
            },
            Action::StorePrice(asset, data) => {
                set_price_entry(
                    &mut self.prices,
                    &asset.name,
                    data.price,
                    data.timestamp,
                    &data.provider.strkey,
                );
            },
            Action::Publish(_) => {},
            Action::PublishPrice(_) => {},
        }
    }

    /// Restores that an address is on the list of providers that may submit prices.
    pub fn restore_provider(&mut self, provider: Address)
        requires
            old(self).wf(),
        ensures
            final(self).wf(),
            final(self)@ == (LedgerView {
                store: Store {
                    providers: old(self)@.store.providers.insert(provider),
                    ..old(self)@.store
                },
                ..old(self)@
            }),
    {
        let ghost before = self.providers@;
        self.providers.push(provider);
        proof {
            assert forall|a: Address| self.providers@.contains(a) <==> before.to_set().insert(
                provider,
            ).contains(a) by {
                if before.contains(a) {
                    let i = choose|i: int| 0 <= i < before.len() && before[i] == a;
                    assert(self.providers@[i] == a);
                }
                assert(self.providers@[before.len() as int] == provider);
            }
            assert(self.providers@.to_set() =~= before.to_set().insert(provider));
        }
    }

    /// Carries out an action on the entries at hand, and notes it for the host.
    pub fn perform(&mut self, action: Action)
        requires
            old(self).wf(),
            old(self)@.store.admits(action),
        ensures
            final(self).wf(),
            final(self)@ == old(self)@.perform(action),
    {
        self.restore(action);
        self.actions.push(action);
    }

    /// Hands over the actions noted so far, in order, and forgets them.
    pub fn take_actions(&mut self) -> (actions: Vec<Action>)
        requires
            old(self).wf(),
        ensures
            final(self).wf(),
            actions@ == old(self)@.actions,
            final(self)@ == (LedgerView { actions: Seq::empty(), ..old(self)@ }),
    {
        let mut actions: Vec<Action> = Vec::new();
        std::mem::swap(&mut actions, &mut self.actions);
        actions
    }

    /// Returns the time of the ledger, in seconds.
    pub fn timestamp(&self) -> (timestamp: u64)
        ensures
            timestamp == self@.timestamp,
    {
        self.timestamp
    }

    /// Returns what is fixed for the contract.
    pub fn deployment(&self) -> (deployment: Deployment)
        ensures
            deployment == self@.deployment,
    {
        self.deployment
    }

    /// Returns the admin address, if there is one.
    pub fn admin(&self) -> (admin: Option<Address>)
        ensures
            admin == self@.store.admin,
    {
        self.admin
    }

    /// Tells whether an address may submit prices.
    pub fn is_provider(&self, address: &Address) -> (listed: bool)
        ensures
            listed == self@.store.providers.contains(*address),
    {
        let mut i: usize = 0;
        while i < self.providers.len()
            invariant
                i <= self.providers.len(),
                forall|j: int| 0 <= j < i ==> #[trigger] self.providers@[j] != *address,
            decreases self.providers.len() - i,
        {
            if self.providers[i].same(address) {
                assert(self.providers@.contains(*address));
                return true;
            }
            i += 1;
        }
        false
    }

    /// Returns the amount stored under a key.
    pub fn amount(&self, key: &DataKey) -> (amount: Option<i128>)
        requires
            self.wf(),
        ensures
            amount == self@.store.amount(*key),
    {
        self.amounts.get(key)
    }

    /// Returns the point in time stored under a key.
    pub fn time(&self, key: &DataKey) -> (time: Option<u64>)
        requires
            self.wf(),
        ensures
            time == self@.store.time(*key),
    {
        self.times.get(key)
    }

    /// Returns the latest price of an asset.
    pub fn price(&self, asset: &Symbol) -> (price: Option<PriceData>)
        requires
            self.wf(),
        ensures
            match price {
                Some(data) => self@.store.price(*asset) == Some(data@),
                None => self@.store.price(*asset) is None,
            },
    {
        match get_price_entry(&self.prices, &asset.name) {
            Some((price, timestamp, strkey)) => Some(
                PriceData { price, timestamp, provider: Address { strkey } },
            ),
            None => None,
        }
    }

    /// Returns all tracked assets, each once, in the order of their names.
    pub fn assets(&self) -> (assets: Vec<Symbol>)
        requires
            self.wf(),
        ensures
            forall|i: int| 0 <= i < assets@.len() ==> self@.store.prices.contains_key(
                (#[trigger] assets@[i])@,
            ),
            forall|asset: Symbol| #[trigger] self@.store.prices.contains_key(asset@)
                ==> assets@.contains(asset),
            forall|i: int, j: int| 0 <= i < j < assets@.len() ==> precedes(
                (#[trigger] assets@[i])@,
                (#[trigger] assets@[j])@,
            ),
    {
        let names = price_map_keys(&self.prices);
        let mut assets: Vec<Symbol> = Vec::new();
        let mut i: usize = 0;
        while i < names.len()
            invariant
                i <= names.len(),
                assets@.len() == i,
                forall|j: int| 0 <= j < i ==> (#[trigger] assets@[j]).name == names@[j],
            decreases names.len() - i,
        {
            assets.push(Symbol { name: names[i] });
            i += 1;
        }
        proof {
            assert forall|asset: Symbol| #[trigger] self@.store.prices.contains_key(
                asset@,
            ) implies assets@.contains(asset) by {
                let j = choose|j: int| 0 <= j < names@.len() && (#[trigger] names@[j])@ == asset@;
                assert(names@[j] =~= asset.name);
                assert(assets@[j] == asset);
            }
            assert forall|i: int, j: int| 0 <= i < j < assets@.len() implies precedes(
                (#[trigger] assets@[i])@,
                (#[trigger] assets@[j])@,
            ) by {
                assert(precedes(names@[i]@, names@[j]@));
            }
        }
        assets
    }
}

} // verus!
