//! The identity registry of an ERC-3643 token: which accounts belong to a
//! registered investor, with the investor's identity and country, and which
//! countries the token admits.
//!
//! An account is verified when it is registered and either no country is
//! configured or its investor's country is among the allowed ones.
use std::collections::HashMap;
use vstd::prelude::*;

use crate::agents::Agents;
use crate::host::{
    account_item_converts, account_items_typed, account_list, account_list_clone, account_list_len,
    account_list_push, account_list_try_get, country_item_converts, country_items_typed,
    country_list, country_list_clone, country_list_len, country_list_push, country_list_try_get,
    new_account_list, new_country_list, new_country_list_beside,
};
use crate::laws::law_batch_registration_records_each_newcomer;
use crate::AccountId;

verus! {

broadcast use vstd::std_specs::hash::group_hash_axioms;

/// The errors of the identity registry.
#[derive(Clone, Copy, Debug, PartialEq, Eq, Structural, PartialOrd, Ord)]
pub enum IdentityRegistryError {
    /// Contract already initialized
    AlreadyInitialized,
    /// Caller is not authorized
    Unauthorized,
    /// Identity not found in registry
    IdentityNotFound,
    /// Identity already registered
    IdentityAlreadyRegistered,
    /// Array lengths do not match for batch operations
    ArrayLengthMismatch,
    /// Country not allowed
    CountryNotAllowed,
}

/// What the registry stores for an investor's account.
#[derive(Clone, Copy, Debug, PartialEq, Eq, Structural)]
pub struct IdentityInfo {
    /// The investor's identity contract
    pub identity: AccountId,
    /// The investor's country (an ISO-3166 code)
    pub country: u32,
}

/// What the identity registry keeps in its storage.
pub struct RegistryState {
    pub address: AccountId,
    pub admin: AccountId,
    pub agents: Map<AccountId, bool>,
    pub identities: Map<AccountId, IdentityInfo>,
    pub registered: Seq<AccountId>,
    pub allowed_countries: Seq<u32>,
}

impl RegistryState {
    /// The rule of `is_verified`.
    pub open spec fn verifies(self, user: AccountId) -> bool {
        &&& self.identities.contains_key(user)
        &&& (self.allowed_countries.len() == 0 || self.allowed_countries.contains(
            self.identities[user].country,
        ))
    }

    /// `user` is in the agent map with the flag set.
    pub open spec fn has_agent(self, agent: AccountId) -> bool {
        self.agents.contains_key(agent) && self.agents[agent]
    }

    /// Registering `user` appends it to the list of registered accounts,
    /// which the host keeps under `u32::MAX` items.
    pub open spec fn can_list(self) -> bool {
        self.registered.len() < u32::MAX
    }
}

/// The allowed countries after `country` is removed from `list`: the other
/// countries, in their order.
pub open spec fn without_country(list: Seq<u32>, country: u32) -> Seq<u32>
    decreases list.len(),
{
    if list.len() == 0 {
        list
    } else {
        let rest = without_country(list.drop_last(), country);
        if list.last() == country {
            rest
        } else {
            rest.push(list.last())
        }
    }
}

/// The allowed countries after `country` is added to `list`: unchanged when
/// it is there already, else with `country` appended.
pub open spec fn with_country(list: Seq<u32>, country: u32) -> Seq<u32> {
    if list.contains(country) {
        list
    } else {
        list.push(country)
    }
}

/// Whether every item of the host vector `countries` is a country code (a
/// `u32` value).
pub fn country_items_well_typed(countries: &soroban_sdk::Vec<u32>) -> (r: bool)
    ensures
        r == country_items_typed(*countries),
{
    let n = country_list_len(countries);
    let mut i: u32 = 0;
    while i < n
        invariant
            n == country_list(*countries).len(),
            0 <= i <= n,
            forall|j: int| 0 <= j < i ==> #[trigger] country_item_converts(*countries, j),
        decreases n - i,
    {
        if country_list_try_get(countries, i).is_err() {
            return false;
        }
        i = i + 1;
    }
    true
}

/// The countries a registry admits, kept in a host vector of country codes.
pub struct AllowedCountries {
    items: soroban_sdk::Vec<u32>,
}

impl View for AllowedCountries {
    type V = Seq<u32>;

    closed spec fn view(&self) -> Seq<u32> {
        country_list(self.items)
    }
}

impl AllowedCountries {
    /// Every item of the vector is a country code.
    #[verifier::type_invariant]
    spec fn holds_codes(self) -> bool {
        country_items_typed(self.items)
    }

    /// No country.
    pub fn new(env: &soroban_sdk::Env) -> (r: Self)
        ensures
            r@.len() == 0,
    {
        AllowedCountries { items: new_country_list(env) }
    }

    /// The countries of a host vector whose items are all country codes.
    pub fn from_host(items: soroban_sdk::Vec<u32>) -> (r: Self)
        requires
            country_items_typed(items),
        ensures
            r@ == country_list(items),
    {
        AllowedCountries { items }
    }

    /// The countries, as a host vector.
    pub fn to_host(&self) -> (r: soroban_sdk::Vec<u32>)
        ensures
            country_list(r) == self@,
            country_items_typed(r),
    {
        proof {
            use_type_invariant(self);
        }
        country_list_clone(&self.items)
    }

    /// The number of countries.
    pub fn len(&self) -> (r: u32)
        ensures
            r == self@.len(),
    {
        country_list_len(&self.items)
    }

    /// The country at position `i`.
    pub fn get(&self, i: u32) -> (r: u32)
        requires
            i < self@.len(),
        ensures
            r == self@[i as int],
    {
        proof {
            use_type_invariant(self);
            assert(country_item_converts(self.items, i as int));
        }
        match country_list_try_get(&self.items, i) {
            Ok(Some(c)) => c,
            Ok(None) | Err(_) => {
                proof {
                    assert(false);
                }
                0
            },
        }
    }

    /// Whether `country` is among the countries.
    pub fn contains(&self, country: u32) -> (r: bool)
        ensures
            r == self@.contains(country),
    {
        let n = self.len();
        let mut i: u32 = 0;
        while i < n
            invariant
                n == self@.len(),
                0 <= i <= n,
                forall|j: int| 0 <= j < i ==> self@[j] != country,
            decreases n - i,
        {
            if self.get(i) == country {
                return true;
            }
            i = i + 1;
        }
        false
    }

    /// Whether `country` is admitted: there is no country, or it is one of
    /// them.
    pub fn admits(&self, country: u32) -> (r: bool)
        ensures
            r == (self@.len() == 0 || self@.contains(country)),
    {
        self.len() == 0 || self.contains(country)
    }

    /// Adds `country` at the end unless it is there already.
    pub fn add(&mut self, country: u32)
        requires
            !old(self)@.contains(country) ==> old(self)@.len() < u32::MAX,
        ensures
            final(self)@ == with_country(old(self)@, country),
    {
        if self.contains(country) {
            return;
        }
        proof {
            use_type_invariant(&*self);
        }
        let mut items = country_list_clone(&self.items);
        country_list_push(&mut items, country);
        self.items = items;
    }

    /// Removes `country`, keeping the others in their order.
    pub fn remove(&mut self, country: u32)
        ensures
            final(self)@ == without_country(old(self)@, country),
    {
        let n = self.len();
        let mut kept = new_country_list_beside(&self.items);
        let mut i: u32 = 0;
        while i < n
            invariant
                n == self@.len(),
                0 <= i <= n,
                country_list(kept) == without_country(self@.take(i as int), country),
                country_list(kept).len() <= i,
                country_items_typed(kept),
            decreases n - i,
        {
            let ghost all = self@;
            proof {
                lemma_without_country_len(all.take(i + 1), country);
                assert(all.take(i + 1).drop_last() == all.take(i as int));
            }
            let c = self.get(i);
            if c != country {
                country_list_push(&mut kept, c);
            }
            i = i + 1;
        }
        proof {
            assert(self@.take(n as int) == self@);
        }
        self.items = kept;
    }
}

/// The accounts a registry has listed as registered, in the order they were
/// listed, kept in a host vector of accounts.
pub struct RegisteredAccounts {
    items: soroban_sdk::Vec<u64>,
}

impl View for RegisteredAccounts {
    type V = Seq<AccountId>;

    closed spec fn view(&self) -> Seq<AccountId> {
        account_list(self.items)
    }
}

impl RegisteredAccounts {
    /// Every item of the vector is an account.
    #[verifier::type_invariant]
    spec fn holds_accounts(self) -> bool {
        account_items_typed(self.items)
    }

    /// No account.
    pub fn new(env: &soroban_sdk::Env) -> (r: Self)
        ensures
            r@.len() == 0,
    {
        RegisteredAccounts { items: new_account_list(env) }
    }

    /// The accounts, as a host vector.
    pub fn to_host(&self) -> (r: soroban_sdk::Vec<u64>)
        ensures
            account_list(r) == self@,
    {
        account_list_clone(&self.items)
    }

    /// The number of accounts.
    pub fn len(&self) -> (r: u32)
        ensures
            r == self@.len(),
    {
        account_list_len(&self.items)
    }

    /// The account at position `i`.
    pub fn get(&self, i: u32) -> (r: AccountId)
        requires
            i < self@.len(),
        ensures
            r == self@[i as int],
    {
        proof {
            use_type_invariant(self);
            assert(account_item_converts(self.items, i as int));
        }
        match account_list_try_get(&self.items, i) {
            Ok(Some(a)) => a,
            Ok(None) | Err(_) => {
                proof {
                    assert(false);
                }
                0
            },
        }
    }

    /// Whether `user` is among the accounts.
    pub fn contains(&self, user: AccountId) -> (r: bool)
        ensures
            r == self@.contains(user),
    {
        let n = self.len();
        let mut i: u32 = 0;
        while i < n
            invariant
                n == self@.len(),
                0 <= i <= n,
                forall|j: int| 0 <= j < i ==> self@[j] != user,
            decreases n - i,
        {
            if self.get(i) == user {
                return true;
            }
            i = i + 1;
        }
        false
    }

    /// Appends `user`.
    pub fn push(&mut self, user: AccountId)
        requires
            old(self)@.len() < u32::MAX,
        ensures
            final(self)@ == old(self)@.push(user),
    {
        proof {
            use_type_invariant(&*self);
        }
        let mut items = account_list_clone(&self.items);
        account_list_push(&mut items, user);
        self.items = items;
    }
}

/// The identity registry contract.
pub struct MockIdentityRegistry {
    address: AccountId,
    admin: AccountId,
    agents: Agents,
    identities: HashMap<AccountId, IdentityInfo>,
    registered: RegisteredAccounts,
    allowed_countries: AllowedCountries,
}

impl View for MockIdentityRegistry {
    type V = RegistryState;

    closed spec fn view(&self) -> RegistryState {
        RegistryState {
            address: self.address,
            admin: self.admin,
            agents: self.agents@,
            identities: self.identities@,
            registered: self.registered@,
            allowed_countries: self.allowed_countries@,
        }
    }
}

impl MockIdentityRegistry {
    /// Deploys the registry at `address` with `admin` as its administrator:
    /// no agent, no identity, no registered account, no country configured.
    pub fn new(env: &soroban_sdk::Env, address: AccountId, admin: AccountId) -> (r: Self)
        ensures
            r@.address == address,
            r@.admin == admin,
            r@.agents.dom().is_empty(),
            r@.identities.dom().is_empty(),
            r@.registered.len() == 0,
            r@.allowed_countries.len() == 0,
    {
        MockIdentityRegistry {
            address,
            admin,
            agents: Agents::new(env),
            identities: HashMap::new(),
            registered: RegisteredAccounts::new(env),
            allowed_countries: AllowedCountries::new(env),
        }
    }

    /// The address the registry is deployed at.
    pub fn address(&self) -> (r: AccountId)
        ensures
            r == self@.address,
    {
        self.address
    }

    /// Adds `agent` to the agents.
    pub fn add_agent(&mut self, agent: AccountId)
        ensures
            final(self)@ == (RegistryState {
                agents: old(self)@.agents.insert(agent, true),
                ..old(self)@
            }),
    {
        self.agents.set(agent, true);
    }

    /// Removes `agent` from the agents.
    pub fn remove_agent(&mut self, agent: AccountId)
        ensures
            final(self)@ == (RegistryState { agents: old(self)@.agents.remove(agent), ..old(self)@ }),
    {
        self.agents.remove(agent);
    }

    /// Whether `agent` is an agent.
    pub fn is_agent(&self, agent: AccountId) -> (r: bool)
        ensures
            r == self@.has_agent(agent),
    {
        self.agents.has(agent)
    }

    /// Whether one more account can be listed as registered.
    pub fn can_list_more(&self) -> (r: bool)
        ensures
            r == self@.can_list(),
    {
        self.registered.len() < u32::MAX
    }

    /// Whether `country` can be added to the allowed countries: it is
    /// there already, or the host vector has room for it.
    pub fn can_allow_country(&self, country: u32) -> (r: bool)
        ensures
            r == (!self@.allowed_countries.contains(country) ==> self@.allowed_countries.len()
                < u32::MAX),
    {
        self.allowed_countries.len() < u32::MAX || self.allowed_countries.contains(country)
    }

    fn list_account(&mut self, user: AccountId)
        requires
            old(self)@.can_list(),
        ensures
            final(self)@ == (RegistryState {
                registered: old(self)@.registered.push(user),
                ..old(self)@
            }),
    {
        self.registered.push(user);
    }

    /// Registers `user` with its investor's identity and country;
    /// `IdentityAlreadyRegistered` when `user` is registered already.
    pub fn register_identity(&mut self, user: AccountId, identity: AccountId, country: u32) -> (r:
        Result<(), IdentityRegistryError>)
        requires
            !old(self)@.identities.contains_key(user) ==> old(self)@.can_list(),
        ensures
            old(self)@.identities.contains_key(user) ==> r == Err::<(), IdentityRegistryError>(
                IdentityRegistryError::IdentityAlreadyRegistered,
            ) && final(self)@ == old(self)@,
            !old(self)@.identities.contains_key(user) ==> r is Ok && final(self)@ == (
            RegistryState {
                identities: old(self)@.identities.insert(
                    user,
                    IdentityInfo { identity, country },
                ),
                registered: old(self)@.registered.push(user),
                ..old(self)@
            }),
    {
        if self.identities.contains_key(&user) {
            return Err(IdentityRegistryError::IdentityAlreadyRegistered);
        }
        self.identities.insert(user, IdentityInfo { identity, country });
        self.list_account(user);
        Ok(())
    }

    /// Removes `user`'s identity; `IdentityNotFound` when there is none.
    /// The account stays in the list of registered accounts.
    pub fn delete_identity(&mut self, user: AccountId) -> (r: Result<(), IdentityRegistryError>)
        ensures
            !old(self)@.identities.contains_key(user) ==> r == Err::<(), IdentityRegistryError>(
                IdentityRegistryError::IdentityNotFound,
            ) && final(self)@ == old(self)@,
            old(self)@.identities.contains_key(user) ==> r is Ok && final(self)@ == (
            RegistryState { identities: old(self)@.identities.remove(user), ..old(self)@ }),
    {
        if !self.identities.contains_key(&user) {
            return Err(IdentityRegistryError::IdentityNotFound);
        }
        self.identities.remove(&user);
        Ok(())
    }

    /// Sets the country of `user`'s investor; `IdentityNotFound` when
    /// `user` is not registered.
    pub fn update_country(&mut self, user: AccountId, country: u32) -> (r: Result<
        (),
        IdentityRegistryError,
    >)
        ensures
            !old(self)@.identities.contains_key(user) ==> r == Err::<(), IdentityRegistryError>(
                IdentityRegistryError::IdentityNotFound,
            ) && final(self)@ == old(self)@,
            old(self)@.identities.contains_key(user) ==> r is Ok && final(self)@ == (
            RegistryState {
                identities: old(self)@.identities.insert(
                    user,
                    IdentityInfo { country, ..old(self)@.identities[user] },
                ),
                ..old(self)@
            }),
    {
        match self.identities.get(&user) {
            None => Err(IdentityRegistryError::IdentityNotFound),
            Some(info) => {
                let updated = IdentityInfo { identity: info.identity, country };
                self.identities.insert(user, updated);
                Ok(())
            },
        }
    }

    /// Sets the identity of `user`'s investor; `IdentityNotFound` when
    /// `user` is not registered.
    pub fn update_identity(&mut self, user: AccountId, identity: AccountId) -> (r: Result<
        (),
        IdentityRegistryError,
    >)
        ensures
            !old(self)@.identities.contains_key(user) ==> r == Err::<(), IdentityRegistryError>(
                IdentityRegistryError::IdentityNotFound,
            ) && final(self)@ == old(self)@,
            old(self)@.identities.contains_key(user) ==> r is Ok && final(self)@ == (
            RegistryState {
                identities: old(self)@.identities.insert(
                    user,
                    IdentityInfo { identity, ..old(self)@.identities[user] },
                ),
                ..old(self)@
            }),
    {
        match self.identities.get(&user) {
            None => Err(IdentityRegistryError::IdentityNotFound),
            Some(info) => {
                let updated = IdentityInfo { identity, country: info.country };
                self.identities.insert(user, updated);
                Ok(())
            },
        }
    }

    /// Registers each `users[i]` that is not registered yet with
    /// `identities[i]` and `countries[i]`, in order, and skips the others;
    /// `ArrayLengthMismatch` when the three lists differ in length.
    pub fn batch_register_identity(
        &mut self,
        users: &[AccountId],
        identities: &[AccountId],
        countries: &[u32],
    ) -> (r: Result<(), IdentityRegistryError>)
        requires
            users@.len() == identities@.len() && users@.len() == countries@.len() ==>
                old(self)@.registered.len() + newcomers(old(self)@, users@, users@.len()) <= u32::MAX,
        ensures
            !(users@.len() == identities@.len() && users@.len() == countries@.len()) ==> r == Err::<
                (),
                IdentityRegistryError,
            >(IdentityRegistryError::ArrayLengthMismatch) && final(self)@ == old(self)@,
            users@.len() == identities@.len() && users@.len() == countries@.len() ==> r is Ok
                && final(self)@ == registered_batch(
                old(self)@,
                users@,
                identities@,
                countries@,
                users@.len(),
            ),
            r is Ok ==> forall|i: int|
                0 <= i < users@.len() && #[trigger] batch_newcomer(old(self)@, users@, i) ==> {
                    &&& final(self)@.identities.contains_key(users@[i])
                    &&& final(self)@.identities[users@[i]] == (IdentityInfo {
                        identity: identities@[i],
                        country: countries@[i],
                    })
                },
            r is Ok ==> forall|u: AccountId|
                #[trigger] old(self)@.identities.contains_key(u) ==> final(self)@.identities.contains_key(u)
                    && final(self)@.identities[u] == old(self)@.identities[u],
    {
        if users.len() != identities.len() || users.len() != countries.len() {
            return Err(IdentityRegistryError::ArrayLengthMismatch);
        }
        proof {
            law_batch_registration_records_each_newcomer(
                old(self)@,
                users@,
                identities@,
                countries@,
                users@.len(),
            );
        }
        let ghost start = self@;
        let n = users.len();
        let mut i: usize = 0;
        while i < n
            invariant
                n == users@.len(),
                n == identities@.len(),
                n == countries@.len(),
                0 <= i <= n,
                self@ == registered_batch(start, users@, identities@, countries@, i as nat),
                start.registered.len() + newcomers(start, users@, n as nat) <= u32::MAX,
            decreases n - i,
        {
            proof {
                lemma_registered_batch_shape(start, users@, identities@, countries@, i as nat);
                lemma_newcomers_grow(start, users@, (i + 1) as nat, n as nat);
            }
            let user = users[i];
            if !self.identities.contains_key(&user) {
                proof {
                    assert(!registered_batch(start, users@, identities@, countries@, i as nat).identities.contains_key(user));
                    assert(batch_newcomer(start, users@, i as int));
                }
                self.identities.insert(user, IdentityInfo { identity: identities[i], country: countries[i] });
                self.list_account(user);
            }
            i = i + 1;
        }
        Ok(())
    }

    /// For each `users[i]`, whether a batch registration of `users` would
    /// register it: it is not registered, and no earlier item names it.
    pub fn batch_newcomers(&self, users: &[AccountId]) -> (r: Vec<bool>)
        ensures
            r@.len() == users@.len(),
            forall|i: int| 0 <= i < users@.len() ==> r@[i] == batch_newcomer(self@, users@, i),
    {
        let mut r: Vec<bool> = Vec::new();
        let mut i: usize = 0;
        while i < users.len()
            invariant
                0 <= i <= users@.len(),
                r@.len() == i,
                forall|k: int| 0 <= k < i ==> r@[k] == batch_newcomer(self@, users@, k),
            decreases users@.len() - i,
        {
            let user = users[i];
            let mut seen = false;
            let mut j: usize = 0;
            while j < i
                invariant
                    0 <= j <= i < users@.len(),
                    user == users@[i as int],
                    seen <==> exists|k: int| 0 <= k < j && users@[k] == user,
                decreases i - j,
            {
                if users[j] == user {
                    seen = true;
                }
                j = j + 1;
            }
            proof {
                let before = users@.take(i as int);
                if seen {
                    let k = choose|k: int| 0 <= k < i && users@[k] == user;
                    assert(before[k] == user);
                }
                if before.contains(user) {
                    let k = choose|k: int| 0 <= k < before.len() && before[k] == user;
                    assert(users@[k] == user);
                }
            }
            r.push(!self.identities.contains_key(&user) && !seen);
            i = i + 1;
        }
        r
    }

    /// Whether a batch registration of `users` leaves room in the list of
    /// registered accounts, which the host keeps under `u32::MAX` items.
    pub fn batch_register_fits_now(&self, users: &[AccountId]) -> (r: bool)
        ensures
            r == (self@.registered.len() + newcomers(self@, users@, users@.len()) <= u32::MAX),
    {
        let fresh = self.batch_newcomers(users);
        let mut count: u64 = 0;
        let mut i: usize = 0;
        while i < fresh.len()
            invariant
                fresh@.len() == users@.len(),
                forall|k: int| 0 <= k < users@.len() ==> fresh@[k] == batch_newcomer(self@, users@, k),
                0 <= i <= users@.len(),
                count == newcomers(self@, users@, i as nat),
                count <= i,
            decreases users@.len() - i,
        {
            if fresh[i] {
                count = count + 1;
            }
            i = i + 1;
        }
        (self.registered.len() as u128) + (count as u128) <= (u32::MAX as u128)
    }

    /// Whether `user` is registered.
    pub fn contains(&self, user: AccountId) -> (r: bool)
        ensures
            r == self@.identities.contains_key(user),
    {
        self.identities.contains_key(&user)
    }

    /// Whether `user` is verified: registered, and either no country is
    /// configured or its investor's country is allowed.
    pub fn is_verified(&self, user: AccountId) -> (r: bool)
        ensures
            r == self@.verifies(user),
    {
        match self.identities.get(&user) {
            None => false,
            Some(info) => self.allowed_countries.admits(info.country),
        }
    }

    /// The identity of `user`'s investor; `IdentityNotFound` when `user` is
    /// not registered.
    pub fn identity(&self, user: AccountId) -> (r: Result<AccountId, IdentityRegistryError>)
        ensures
            r == (if self@.identities.contains_key(user) {
                Ok::<AccountId, IdentityRegistryError>(self@.identities[user].identity)
            } else {
                Err(IdentityRegistryError::IdentityNotFound)
            }),
    {
        match self.identities.get(&user) {
            None => Err(IdentityRegistryError::IdentityNotFound),
            Some(info) => Ok(info.identity),
        }
    }

    /// The country of `user`'s investor; `IdentityNotFound` when `user` is
    /// not registered.
    pub fn investor_country(&self, user: AccountId) -> (r: Result<u32, IdentityRegistryError>)
        ensures
            r == (if self@.identities.contains_key(user) {
                Ok::<u32, IdentityRegistryError>(self@.identities[user].country)
            } else {
                Err(IdentityRegistryError::IdentityNotFound)
            }),
    {
        match self.identities.get(&user) {
            None => Err(IdentityRegistryError::IdentityNotFound),
            Some(info) => Ok(info.country),
        }
    }

    /// Replaces the allowed countries with the items of `countries`, each a
    /// country code.
    pub fn set_allowed_countries(&mut self, countries: soroban_sdk::Vec<u32>)
        requires
            country_items_typed(countries),
        ensures
            final(self)@ == (RegistryState {
                allowed_countries: country_list(countries),
                ..old(self)@
            }),
    {
        self.allowed_countries = AllowedCountries::from_host(countries);
    }

    /// The allowed countries.
    pub fn get_allowed_countries(&self) -> (r: soroban_sdk::Vec<u32>)
        ensures
            country_list(r) == self@.allowed_countries,
            country_items_typed(r),
    {
        self.allowed_countries.to_host()
    }

    /// Adds `country` to the allowed countries, unless it is there already.
    pub fn add_allowed_country(&mut self, country: u32)
        requires
            !old(self)@.allowed_countries.contains(country) ==> old(self)@.allowed_countries.len()
                < u32::MAX,
        ensures
            final(self)@ == (RegistryState {
                allowed_countries: with_country(old(self)@.allowed_countries, country),
                ..old(self)@
            }),
    {
        self.allowed_countries.add(country);
    }

    /// Removes `country` from the allowed countries, keeping the others in
    /// their order.
    pub fn remove_allowed_country(&mut self, country: u32)
        ensures
            final(self)@ == (RegistryState {
                allowed_countries: without_country(old(self)@.allowed_countries, country),
                ..old(self)@
            }),
    {
        self.allowed_countries.remove(country);
    }

    /// Sets `user`'s identity and country directly, whether or not it was
    /// registered, and lists `user` as registered unless it is listed
    /// already.
    pub fn mock_set_verified(&mut self, user: AccountId, identity: AccountId, country: u32)
        requires
            !old(self)@.registered.contains(user) ==> old(self)@.can_list(),
        ensures
            final(self)@ == set_verified(old(self)@, user, identity, country),
    {
        self.identities.insert(user, IdentityInfo { identity, country });
        if !self.registered.contains(user) {
            self.list_account(user);
        }
    }

    /// Whether `user` is listed as registered.
    pub fn is_listed(&self, user: AccountId) -> (r: bool)
        ensures
            r == self@.registered.contains(user),
    {
        self.registered.contains(user)
    }

    /// The registered accounts, in the order they were listed.
    pub fn get_registered_addresses(&self) -> (r: soroban_sdk::Vec<u64>)
        ensures
            account_list(r) == self@.registered,
    {
        self.registered.to_host()
    }

    /// The administrator.
    pub fn get_admin(&self) -> (r: AccountId)
        ensures
            r == self@.admin,
    {
        self.admin
    }
}

/// The registry after `user`'s identity and country are set directly:
/// `user` is listed as registered unless it is listed already.
pub open spec fn set_verified(st: RegistryState, user: AccountId, identity: AccountId, country: u32) -> RegistryState {
    RegistryState {
        identities: st.identities.insert(user, IdentityInfo { identity, country }),
        registered: if st.registered.contains(user) {
            st.registered
        } else {
            st.registered.push(user)
        },
        ..st
    }
}

/// One step of a batch registration: registers `user` unless it is
/// registered already.
pub open spec fn register_step(st: RegistryState, user: AccountId, identity: AccountId, country: u32) -> RegistryState {
    if st.identities.contains_key(user) {
        st
    } else {
        RegistryState {
            identities: st.identities.insert(user, IdentityInfo { identity, country }),
            registered: st.registered.push(user),
            ..st
        }
    }
}

/// The registry after the first `n` steps of a batch registration.
pub open spec fn registered_batch(
    st: RegistryState,
    users: Seq<AccountId>,
    identities: Seq<AccountId>,
    countries: Seq<u32>,
    n: nat,
) -> RegistryState
    decreases n,
{
    if n == 0 {
        st
    } else {
        register_step(
            registered_batch(st, users, identities, countries, (n - 1) as nat),
            users[n - 1],
            identities[n - 1],
            countries[n - 1],
        )
    }
}

/// Whether a batch registration of `users` registers `users[i]`: it is
/// not registered in `st`, and no earlier item names it.
pub open spec fn batch_newcomer(st: RegistryState, users: Seq<AccountId>, i: int) -> bool {
    !st.identities.contains_key(users[i]) && !users.take(i).contains(users[i])
}

/// How many of the first `n` items of a batch registration register their
/// account.
pub open spec fn newcomers(st: RegistryState, users: Seq<AccountId>, n: nat) -> nat
    decreases n,
{
    if n == 0 {
        0
    } else {
        newcomers(st, users, (n - 1) as nat) + if batch_newcomer(st, users, n - 1) {
            1nat
        } else {
            0nat
        }
    }
}

/// The count of registered accounts only grows along a batch.
pub proof fn lemma_newcomers_grow(st: RegistryState, users: Seq<AccountId>, i: nat, n: nat)
    requires
        i <= n,
    ensures
        newcomers(st, users, i) <= newcomers(st, users, n),
    decreases n - i,
{
    if i < n {
        lemma_newcomers_grow(st, users, i, (n - 1) as nat);
    }
}

/// After the first `n` steps of a batch registration, the accounts with an
/// identity are those registered before and those the steps named, and
/// the list has grown by the newcomers.
pub proof fn lemma_registered_batch_shape(
    st: RegistryState,
    users: Seq<AccountId>,
    identities: Seq<AccountId>,
    countries: Seq<u32>,
    n: nat,
)
    requires
        n <= users.len(),
    ensures
        registered_batch(st, users, identities, countries, n).registered.len() == st.registered.len()
            + newcomers(st, users, n),
        forall|u: AccountId|
            #[trigger] registered_batch(st, users, identities, countries, n).identities.contains_key(u)
                <==> (st.identities.contains_key(u) || users.take(n as int).contains(u)),
    decreases n,
{
    if n > 0 {
        let m = (n - 1) as nat;
        lemma_registered_batch_shape(st, users, identities, countries, m);
        let prev = registered_batch(st, users, identities, countries, m);
        let user = users[m as int];
        assert(users.take(n as int) =~= users.take(m as int).push(user));
        assert forall|u: AccountId|
            #[trigger] registered_batch(st, users, identities, countries, n).identities.contains_key(u)
                <==> (st.identities.contains_key(u) || users.take(n as int).contains(u)) by {
            assert(prev.identities.contains_key(u) <==> (st.identities.contains_key(u) || users.take(
                m as int,
            ).contains(u)));
            if users.take(n as int).contains(u) && !users.take(m as int).contains(u) {
                let k = choose|k: int| 0 <= k < n && users.take(n as int)[k] == u;
                assert(k == m);
            }
            if users.take(m as int).contains(u) {
                let k = choose|k: int| 0 <= k < m && users.take(m as int)[k] == u;
                assert(users.take(n as int)[k] == u);
            }
            if u == user {
                assert(users.take(n as int)[m as int] == u);
            }
        }
        assert(prev.identities.contains_key(user) <==> (st.identities.contains_key(user) || users.take(
            m as int,
        ).contains(user)));
    }
}

/// Removing a country never lengthens the list.
pub proof fn lemma_without_country_len(list: Seq<u32>, country: u32)
    ensures
        without_country(list, country).len() <= list.len(),
    decreases list.len(),
{
    if list.len() > 0 {
        lemma_without_country_len(list.drop_last(), country);
    }
}

} // verus!
