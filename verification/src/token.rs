//! The ERC-3643 security token: balances that only verified investors may
//! receive, under the limits of the compliance module, with pausing,
//! frozen wallets, partially frozen balances, forced transfers, recovery of
//! lost wallets and batch operations.
//!
//! The token consults the identity registry and reports to the compliance
//! module it is wired to; the operations that do so take those contracts as
//! arguments. The checks that the token makes of its caller's authority are
//! the host's, and are made before these operations are entered.
use std::collections::HashMap;
use vstd::prelude::*;

use crate::compliance::{ComplianceState, MockCompliance};
use crate::agents::Agents;
use crate::identity_registry::{MockIdentityRegistry, RegistryState};
use crate::ledger::{read_amount, read_flag, write_amount, write_flag};
use crate::token_state::{
    allowance_key, burns, burns_outcome_registry, fits, frozen_after, lemma_fits_after_refusal,
    lemma_refusal_persists,
    lemma_steps_fit_prefix, mints, step_fits, transfer_checks_fit, step_outcome, steps_fit, steps_outcome,
    transfers_between, transfers_from, AllowanceInfo, ERC3643Error, LedgerStep, TokenState,
};
use crate::laws::law_batch_freeze_sets_each_flag;
use crate::ledger::flag_in;
use crate::AccountId;

verus! {

broadcast use vstd::std_specs::hash::group_hash_axioms;

/// The token's name, symbol and number of decimals.
pub struct TokenMetadata {
    pub name: soroban_sdk::String,
    pub symbol: soroban_sdk::String,
    pub decimals: u32,
}

/// The token contract.
pub struct MockERC3643Token {
    address: AccountId,
    admin: AccountId,
    metadata: TokenMetadata,
    identity_registry: AccountId,
    compliance: AccountId,
    paused: bool,
    total_supply: i128,
    balances: HashMap<AccountId, i128>,
    allowances: HashMap<u128, AllowanceInfo>,
    frozen: HashMap<AccountId, bool>,
    frozen_tokens: HashMap<AccountId, i128>,
    agents: Agents,
}

impl View for MockERC3643Token {
    type V = TokenState;

    closed spec fn view(&self) -> TokenState {
        TokenState {
            address: self.address,
            admin: self.admin,
            name: self.metadata.name,
            symbol: self.metadata.symbol,
            decimals: self.metadata.decimals,
            identity_registry: self.identity_registry,
            compliance: self.compliance,
            paused: self.paused,
            total_supply: self.total_supply,
            balances: self.balances@,
            allowances: self.allowances@,
            frozen: self.frozen@,
            frozen_tokens: self.frozen_tokens@,
            agents: self.agents@,
        }
    }
}

/// The key under which an allowance is stored.
fn allowance_key_of(from: AccountId, spender: AccountId) -> (r: u128)
    ensures
        r == allowance_key(from, spender),
{
    (from as u128) * 0x1_0000_0000_0000_0000u128 + (spender as u128)
}

/// Builds the transfers of `to_list[i]` of `amounts[i]` from `from`.
fn transfer_steps_from(from: AccountId, to_list: &[AccountId], amounts: &[i128], checked: bool) -> (r:
    Vec<LedgerStep>)
    requires
        to_list@.len() == amounts@.len(),
    ensures
        r@ == transfers_from(from, to_list@, amounts@, checked),
{
    let mut steps: Vec<LedgerStep> = Vec::new();
    let mut i: usize = 0;
    while i < to_list.len()
        invariant
            to_list@.len() == amounts@.len(),
            0 <= i <= to_list@.len(),
            steps@ == transfers_from(from, to_list@, amounts@, checked).take(i as int),
        decreases to_list@.len() - i,
    {
        steps.push(LedgerStep::Transfer { from, to: to_list[i], amount: amounts[i], checked });
        i = i + 1;
        assert(steps@ =~= transfers_from(from, to_list@, amounts@, checked).take(i as int));
    }
    assert(steps@ =~= transfers_from(from, to_list@, amounts@, checked));
    steps
}

/// Builds the transfers of `amounts[i]` from `from_list[i]` to `to_list[i]`.
fn transfer_steps_between(
    from_list: &[AccountId],
    to_list: &[AccountId],
    amounts: &[i128],
    checked: bool,
) -> (r: Vec<LedgerStep>)
    requires
        from_list@.len() == to_list@.len(),
        from_list@.len() == amounts@.len(),
    ensures
        r@ == transfers_between(from_list@, to_list@, amounts@, checked),
{
    let mut steps: Vec<LedgerStep> = Vec::new();
    let mut i: usize = 0;
    while i < from_list.len()
        invariant
            from_list@.len() == to_list@.len(),
            from_list@.len() == amounts@.len(),
            0 <= i <= from_list@.len(),
            steps@ == transfers_between(from_list@, to_list@, amounts@, checked).take(i as int),
        decreases from_list@.len() - i,
    {
        steps.push(
            LedgerStep::Transfer { from: from_list[i], to: to_list[i], amount: amounts[i], checked },
        );
        i = i + 1;
        assert(steps@ =~= transfers_between(from_list@, to_list@, amounts@, checked).take(i as int));
    }
    assert(steps@ =~= transfers_between(from_list@, to_list@, amounts@, checked));
    steps
}

/// Builds the mints of `amounts[i]` to `to_list[i]`.
fn mint_steps(to_list: &[AccountId], amounts: &[i128]) -> (r: Vec<LedgerStep>)
    requires
        to_list@.len() == amounts@.len(),
    ensures
        r@ == mints(to_list@, amounts@),
{
    let mut steps: Vec<LedgerStep> = Vec::new();
    let mut i: usize = 0;
    while i < to_list.len()
        invariant
            to_list@.len() == amounts@.len(),
            0 <= i <= to_list@.len(),
            steps@ == mints(to_list@, amounts@).take(i as int),
        decreases to_list@.len() - i,
    {
        steps.push(LedgerStep::Mint { to: to_list[i], amount: amounts[i] });
        i = i + 1;
        assert(steps@ =~= mints(to_list@, amounts@).take(i as int));
    }
    assert(steps@ =~= mints(to_list@, amounts@));
    steps
}

/// Builds the burns of `amounts[i]` from `users[i]`.
fn burn_steps(users: &[AccountId], amounts: &[i128]) -> (r: Vec<LedgerStep>)
    requires
        users@.len() == amounts@.len(),
    ensures
        r@ == burns(users@, amounts@),
{
    let mut steps: Vec<LedgerStep> = Vec::new();
    let mut i: usize = 0;
    while i < users.len()
        invariant
            users@.len() == amounts@.len(),
            0 <= i <= users@.len(),
            steps@ == burns(users@, amounts@).take(i as int),
        decreases users@.len() - i,
    {
        steps.push(LedgerStep::Burn { from: users[i], amount: amounts[i] });
        i = i + 1;
        assert(steps@ =~= burns(users@, amounts@).take(i as int));
    }
    assert(steps@ =~= burns(users@, amounts@));
    steps
}

impl MockERC3643Token {
    /// Deploys the token at `address`: `admin` administers it, it consults
    /// the registry at `identity_registry` and reports to the compliance
    /// module at `compliance`; it is not paused, has no supply, no balance,
    /// no allowance, no frozen wallet and no agent.
    pub fn new(
        env: &soroban_sdk::Env,
        address: AccountId,
        admin: AccountId,
        name: soroban_sdk::String,
        symbol: soroban_sdk::String,
        decimals: u32,
        identity_registry: AccountId,
        compliance: AccountId,
    ) -> (r: Self)
        ensures
            r@.address == address,
            r@.admin == admin,
            r@.name == name,
            r@.symbol == symbol,
            r@.decimals == decimals,
            r@.identity_registry == identity_registry,
            r@.compliance == compliance,
            !r@.paused,
            r@.total_supply == 0,
            r@.balances.dom().is_empty(),
            r@.allowances.dom().is_empty(),
            r@.frozen.dom().is_empty(),
            r@.frozen_tokens.dom().is_empty(),
            r@.agents.dom().is_empty(),
    {
        MockERC3643Token {
            address,
            admin,
            metadata: TokenMetadata { name, symbol, decimals },
            identity_registry,
            compliance,
            paused: false,
            total_supply: 0,
            balances: HashMap::new(),
            allowances: HashMap::new(),
            frozen: HashMap::new(),
            frozen_tokens: HashMap::new(),
            agents: Agents::new(env),
        }
    }

    /// The address the token is deployed at.
    pub fn address(&self) -> (r: AccountId)
        ensures
            r == self@.address,
    {
        self.address
    }

    // ----- Token interface -----
    /// The token's name.
    pub fn name(&self) -> (r: &soroban_sdk::String)
        ensures
            *r == self@.name,
    {
        &self.metadata.name
    }

    /// The token's symbol.
    pub fn symbol(&self) -> (r: &soroban_sdk::String)
        ensures
            *r == self@.symbol,
    {
        &self.metadata.symbol
    }

    /// The token's number of decimals.
    pub fn decimals(&self) -> (r: u32)
        ensures
            r == self@.decimals,
    {
        self.metadata.decimals
    }

    /// The balance of `id`.
    pub fn balance(&self, id: AccountId) -> (r: i128)
        ensures
            r == self@.balance_of(id),
    {
        read_amount(&self.balances, id)
    }

    /// What `spender` may take of `from`'s tokens, whether or not the
    /// allowance has expired.
    pub fn allowance(&self, from: AccountId, spender: AccountId) -> (r: i128)
        ensures
            r == self@.allowance_of(from, spender).amount,
    {
        let key = allowance_key_of(from, spender);
        match self.allowances.get(&key) {
            Some(a) => a.amount,
            None => 0,
        }
    }

    fn allowance_info(&self, from: AccountId, spender: AccountId) -> (r: AllowanceInfo)
        ensures
            r == self@.allowance_of(from, spender),
    {
        let key = allowance_key_of(from, spender);
        match self.allowances.get(&key) {
            Some(a) => *a,
            None => AllowanceInfo { amount: 0, expiration_ledger: 0 },
        }
    }

    /// Lets `spender` take up to `amount` of `from`'s tokens until ledger
    /// `expiration_ledger`, replacing any earlier allowance.
    pub fn approve(&mut self, from: AccountId, spender: AccountId, amount: i128, expiration_ledger: u32)
        ensures
            final(self)@ == (TokenState {
                allowances: old(self)@.allowances.insert(
                    allowance_key(from, spender),
                    AllowanceInfo { amount, expiration_ledger },
                ),
                ..old(self)@
            }),
            final(self)@.allowance_of(from, spender) == (AllowanceInfo { amount, expiration_ledger }),
    {
        let key = allowance_key_of(from, spender);
        self.allowances.insert(key, AllowanceInfo { amount, expiration_ledger });
    }

    /// The error, if any, with which a transfer is refused.
    fn transfer_check(
        &self,
        from: AccountId,
        to: AccountId,
        amount: i128,
        checked: bool,
        registry: &MockIdentityRegistry,
        compliance: &MockCompliance,
    ) -> (r: Option<ERC3643Error>)
        requires
            transfer_checks_fit(self@, compliance@, registry@, from, to, amount, checked),
        ensures
            r == self@.transfer_refusal(
                from,
                to,
                amount,
                checked,
                registry@.verifies(to),
                compliance@.allows(to, amount),
            ),
    {
        if self.paused {
            return Some(ERC3643Error::TokenPaused);
        }
        if from == to {
            return Some(ERC3643Error::SelfTransfer);
        }
        if checked {
            if read_flag(&self.frozen, from) {
                return Some(ERC3643Error::FrozenWallet);
            }
            let balance = read_amount(&self.balances, from);
            let frozen_tokens = read_amount(&self.frozen_tokens, from);
            if amount > balance - frozen_tokens {
                return Some(ERC3643Error::InsufficientBalance);
            }
        }
        if read_flag(&self.frozen, to) {
            return Some(ERC3643Error::FrozenWallet);
        }
        if !registry.is_verified(to) {
            return Some(ERC3643Error::InvalidIdentity);
        }
        if checked && !compliance.can_transfer(from, to, amount) {
            return Some(ERC3643Error::ComplianceFailure);
        }
        let from_balance = read_amount(&self.balances, from);
        if from_balance < amount {
            return Some(ERC3643Error::InsufficientBalance);
        }
        None
    }

    /// Moves `amount` from `from` to `to` after the checks of a transfer (a
    /// forced transfer when `checked` is false), and reports the receipt to
    /// the compliance module.
    fn do_transfer(
        &mut self,
        from: AccountId,
        to: AccountId,
        amount: i128,
        checked: bool,
        registry: &MockIdentityRegistry,
        compliance: &mut MockCompliance,
    ) -> (r: Result<(), ERC3643Error>)
        requires
            step_fits(
                old(self)@,
                old(compliance)@,
                registry@,
                LedgerStep::Transfer { from, to, amount, checked },
            ),
        ensures
            match step_outcome(
                old(self)@,
                old(compliance)@,
                registry@,
                LedgerStep::Transfer { from, to, amount, checked },
            ) {
                Err(e) => r == Err::<(), ERC3643Error>(e) && final(self)@ == old(self)@ && final(compliance)@ == old(compliance)@,
                Ok((t, c)) => r is Ok && final(self)@ == t && final(compliance)@ == c,
            },
    {
        match self.transfer_check(from, to, amount, checked, registry, compliance) {
            Some(e) => {
                return Err(e);
            },
            None => {},
        }
        let from_balance = read_amount(&self.balances, from);
        let to_balance = read_amount(&self.balances, to);
        write_amount(&mut self.balances, from, from_balance - amount);
        write_amount(&mut self.balances, to, to_balance + amount);
        compliance.transferred(from, to, amount);
        Ok(())
    }

    /// Mints `amount` to `to` if `to` is verified, and reports it to the
    /// compliance module.
    fn do_mint(
        &mut self,
        to: AccountId,
        amount: i128,
        registry: &MockIdentityRegistry,
        compliance: &mut MockCompliance,
    ) -> (r: Result<(), ERC3643Error>)
        requires
            step_fits(old(self)@, old(compliance)@, registry@, LedgerStep::Mint { to, amount }),
        ensures
            match step_outcome(old(self)@, old(compliance)@, registry@, LedgerStep::Mint { to, amount }) {
                Err(e) => r == Err::<(), ERC3643Error>(e) && final(self)@ == old(self)@ && final(compliance)@ == old(compliance)@,
                Ok((t, c)) => r is Ok && final(self)@ == t && final(compliance)@ == c,
            },
    {
        if !registry.is_verified(to) {
            return Err(ERC3643Error::InvalidIdentity);
        }
        let balance = read_amount(&self.balances, to);
        write_amount(&mut self.balances, to, balance + amount);
        self.total_supply = self.total_supply + amount;
        compliance.created(to, amount);
        Ok(())
    }

    /// Burns `amount` from `from` if its balance covers it, and reports it
    /// to the compliance module.
    fn do_burn(&mut self, from: AccountId, amount: i128, compliance: &mut MockCompliance) -> (r:
        Result<(), ERC3643Error>)
        requires
            old(self)@.balance_of(from) >= amount ==> {
                &&& fits(old(self)@.balance_of(from) - amount)
                &&& fits(old(self)@.total_supply - amount)
                &&& old(compliance)@.release_fits(from, amount)
            },
        ensures
            old(self)@.balance_of(from) < amount ==> r == Err::<(), ERC3643Error>(
                ERC3643Error::InsufficientBalance,
            ) && final(self)@ == old(self)@ && final(compliance)@ == old(compliance)@,
            old(self)@.balance_of(from) >= amount ==> r is Ok && final(self)@ == old(self)@.with_burn(from, amount) && final(compliance)@ == old(compliance)@.with_release(
                from,
                amount,
            ),
    {
        let balance = read_amount(&self.balances, from);
        if balance < amount {
            return Err(ERC3643Error::InsufficientBalance);
        }
        write_amount(&mut self.balances, from, balance - amount);
        self.total_supply = self.total_supply - amount;
        compliance.destroyed(from, amount);
        Ok(())
    }

    /// Performs one step. Only a burn may be performed without a registry.
    fn perform(
        &mut self,
        step: LedgerStep,
        registry: Option<&MockIdentityRegistry>,
        Ghost(reg): Ghost<RegistryState>,
        compliance: &mut MockCompliance,
    ) -> (r: Result<(), ERC3643Error>)
        requires
            match registry {
                Some(known) => known@ == reg,
                None => step is Burn,
            },
            step_fits(old(self)@, old(compliance)@, reg, step),
        ensures
            match step_outcome(old(self)@, old(compliance)@, reg, step) {
                Err(e) => r == Err::<(), ERC3643Error>(e) && final(self)@ == old(self)@ && final(compliance)@ == old(compliance)@,
                Ok((t, c)) => r is Ok && final(self)@ == t && final(compliance)@ == c,
            },
    {
        match step {
            LedgerStep::Transfer { from, to, amount, checked } => match registry {
                Some(known) => self.do_transfer(from, to, amount, checked, known, compliance),
                None => Err(ERC3643Error::InvalidIdentity),
            },
            LedgerStep::Mint { to, amount } => match registry {
                Some(known) => self.do_mint(to, amount, known, compliance),
                None => Err(ERC3643Error::InvalidIdentity),
            },
            LedgerStep::Burn { from, amount } => self.do_burn(from, amount, compliance),
        }
    }

    /// Performs `steps` one after the other. When one is refused, the token
    /// and the compliance module are left as they were before the first.
    /// Only burns may be performed without a registry.
    fn perform_all(
        &mut self,
        steps: &Vec<LedgerStep>,
        registry: Option<&MockIdentityRegistry>,
        Ghost(reg): Ghost<RegistryState>,
        compliance: &mut MockCompliance,
    ) -> (r: Result<(), ERC3643Error>)
        requires
            match registry {
                Some(known) => known@ == reg,
                None => forall|i: int| 0 <= i < steps@.len() ==> (#[trigger] steps@[i]) is Burn,
            },
            steps_fit(old(self)@, old(compliance)@, reg, steps@, steps@.len()),
        ensures
            match steps_outcome(old(self)@, old(compliance)@, reg, steps@, steps@.len()) {
                Err(e) => r == Err::<(), ERC3643Error>(e) && final(self)@ == old(self)@ && final(compliance)@ == old(compliance)@,
                Ok((t, c)) => r is Ok && final(self)@ == t && final(compliance)@ == c,
            },
    {
        let ghost st0 = self@;
        let ghost c0 = compliance@;
        let saved_balances = self.balances.clone();
        let saved_total = self.total_supply;
        let saved_compliance = compliance.snapshot();
        let n = steps.len();
        let mut i: usize = 0;
        while i < n
            invariant
                n == steps@.len(),
                0 <= i <= n,
                match registry {
                    Some(known) => known@ == reg,
                    None => forall|j: int| 0 <= j < steps@.len() ==> (#[trigger] steps@[j]) is Burn,
                },
                steps_fit(st0, c0, reg, steps@, n as nat),
                steps_outcome(st0, c0, reg, steps@, i as nat) == Ok::<
                    (TokenState, ComplianceState),
                    ERC3643Error,
                >((self@, compliance@)),
                self@ == (TokenState {
                    balances: self@.balances,
                    total_supply: self@.total_supply,
                    ..st0
                }),
                saved_balances@ == st0.balances,
                saved_total == st0.total_supply,
                saved_compliance@ == c0,
                st0 == old(self)@,
                c0 == old(compliance)@,
            decreases n - i,
        {
            proof {
                lemma_steps_fit_prefix(st0, c0, reg, steps@, (i + 1) as nat, n as nat);
            }
            let step = steps[i];
            match self.perform(step, registry, Ghost(reg), compliance) {
                Err(e) => {
                    proof {
                        lemma_refusal_persists(st0, c0, reg, steps@, (i + 1) as nat, n as nat);
                    }
                    self.balances = saved_balances;
                    self.total_supply = saved_total;
                    *compliance = saved_compliance;
                    return Err(e);
                },
                Ok(()) => {},
            }
            i = i + 1;
        }
        Ok(())
    }

    /// Transfers `amount` from `from` to `to` with every check of the token:
    /// not paused, not to the sender itself, sender not frozen, free balance
    /// of the sender (balance less frozen tokens) at least `amount`, receiver
    /// not frozen, receiver verified, compliance allows the receipt, balance
    /// of the sender at least `amount`.
    pub fn transfer(
        &mut self,
        from: AccountId,
        to: AccountId,
        amount: i128,
        registry: &MockIdentityRegistry,
        compliance: &mut MockCompliance,
    ) -> (r: Result<(), ERC3643Error>)
        requires
            old(self)@.wired_to(registry@, old(compliance)@),
            step_fits(
                old(self)@,
                old(compliance)@,
                registry@,
                LedgerStep::Transfer { from, to, amount, checked: true },
            ),
        ensures
            match step_outcome(
                old(self)@,
                old(compliance)@,
                registry@,
                LedgerStep::Transfer { from, to, amount, checked: true },
            ) {
                Err(e) => r == Err::<(), ERC3643Error>(e) && final(self)@ == old(self)@ && final(compliance)@ == old(compliance)@,
                Ok((t, c)) => r is Ok && final(self)@ == t && final(compliance)@ == c,
            },
            r is Ok ==> {
                &&& !old(self)@.paused
                &&& from != to
                &&& !old(self)@.is_frozen(from)
                &&& !old(self)@.is_frozen(to)
                &&& amount <= old(self)@.balance_of(from) - old(self)@.frozen_tokens_of(from)
                &&& registry@.verifies(to)
                &&& old(compliance)@.allows(to, amount)
            },
    {
        self.do_transfer(from, to, amount, true, registry, compliance)
    }

    /// Takes `amount` of `spender`'s allowance over `from`'s tokens at
    /// ledger `ledger_sequence`, then transfers it from `from` to `to` as
    /// `transfer` does. An allowance that expired before the ledger, or that
    /// is below `amount`, refuses the call first.
    pub fn transfer_from(
        &mut self,
        spender: AccountId,
        from: AccountId,
        to: AccountId,
        amount: i128,
        ledger_sequence: u32,
        registry: &MockIdentityRegistry,
        compliance: &mut MockCompliance,
    ) -> (r: Result<(), ERC3643Error>)
        requires
            old(self)@.wired_to(registry@, old(compliance)@),
            old(self)@.spend_refusal(from, spender, amount, ledger_sequence) is None ==> old(self)@.spend_fits(from, spender, amount),
            old(self)@.spend_refusal(from, spender, amount, ledger_sequence) is None ==> step_fits(
                old(self)@,
                old(compliance)@,
                registry@,
                LedgerStep::Transfer { from, to, amount, checked: true },
            ),
        ensures
            old(self)@.spend_refusal(from, spender, amount, ledger_sequence) matches Some(e) ==> r
                == Err::<(), ERC3643Error>(e) && final(self)@ == old(self)@ && final(compliance)@
                == old(compliance)@,
            old(self)@.spend_refusal(from, spender, amount, ledger_sequence) is None ==> match step_outcome(
                old(self)@,
                old(compliance)@,
                registry@,
                LedgerStep::Transfer { from, to, amount, checked: true },
            ) {
                Err(e) => r == Err::<(), ERC3643Error>(e) && final(self)@ == old(self)@ && final(compliance)@ == old(compliance)@,
                Ok((t, c)) => r is Ok && final(self)@ == t.with_spend(from, spender, amount) && final(compliance)@ == c,
            },
            r is Ok ==> {
                &&& old(self)@.allowance_of(from, spender).amount >= amount
                &&& old(self)@.allowance_of(from, spender).expiration_ledger >= ledger_sequence
                &&& !old(self)@.is_frozen(from)
                &&& !old(self)@.is_frozen(to)
                &&& registry@.verifies(to)
            },
    {
        let allowance = self.allowance_info(from, spender);
        if allowance.expiration_ledger < ledger_sequence {
            return Err(ERC3643Error::AllowanceExpired);
        }
        if allowance.amount < amount {
            return Err(ERC3643Error::InsufficientAllowance);
        }
        match self.do_transfer(from, to, amount, true, registry, compliance) {
            Err(e) => {
                return Err(e);
            },
            Ok(()) => {},
        }
        if allowance.amount > 0 {
            let key = allowance_key_of(from, spender);
            self.allowances.insert(
                key,
                AllowanceInfo {
                    amount: allowance.amount - amount,
                    expiration_ledger: allowance.expiration_ledger,
                },
            );
        }
        Ok(())
    }

    /// Burns `amount` from `from`; `InsufficientBalance` when its balance is
    /// below `amount`. Frozen tokens are not spared.
    pub fn burn(&mut self, from: AccountId, amount: i128, compliance: &mut MockCompliance) -> (r:
        Result<(), ERC3643Error>)
        requires
            old(self)@.compliance == old(compliance)@.address,
            old(self)@.balance_of(from) >= amount ==> {
                &&& fits(old(self)@.balance_of(from) - amount)
                &&& fits(old(self)@.total_supply - amount)
                &&& old(compliance)@.release_fits(from, amount)
            },
        ensures
            old(self)@.balance_of(from) < amount ==> r == Err::<(), ERC3643Error>(
                ERC3643Error::InsufficientBalance,
            ) && final(self)@ == old(self)@ && final(compliance)@ == old(compliance)@,
            old(self)@.balance_of(from) >= amount ==> r is Ok && final(self)@ == old(self)@.with_burn(from, amount) && final(compliance)@ == old(compliance)@.with_release(
                from,
                amount,
            ),
    {
        self.do_burn(from, amount, compliance)
    }

    /// Always refused: the token does not let a spender burn.
    pub fn burn_from(&self, spender: AccountId, from: AccountId, amount: i128) -> (r: Result<
        (),
        ERC3643Error,
    >)
        ensures
            r == Err::<(), ERC3643Error>(ERC3643Error::Unauthorized),
    {
        Err(ERC3643Error::Unauthorized)
    }

    // ----- Overflow checks -----
    /// Whether a step can be performed without overflowing: the condition
    /// under which the token performs it instead of trapping.
    pub fn step_fits_now(
        &self,
        step: LedgerStep,
        registry: &MockIdentityRegistry,
        compliance: &MockCompliance,
    ) -> (r: bool)
        ensures
            r == step_fits(self@, compliance@, registry@, step),
    {
        match step {
            LedgerStep::Transfer { from, to, amount, checked } => {
                let balance = read_amount(&self.balances, from);
                let frozen_tokens = read_amount(&self.frozen_tokens, from);
                let sender_checked = !self.paused && checked && !read_flag(&self.frozen, from);
                if sender_checked {
                    match balance.checked_sub(frozen_tokens) {
                        None => {
                            return false;
                        },
                        Some(free) => {
                            if amount <= free && !read_flag(&self.frozen, to) && registry.is_verified(
                                to,
                            ) && !compliance.check_fits_now(to, amount) {
                                return false;
                            }
                        },
                    }
                }
                match self.transfer_check(from, to, amount, checked, registry, compliance) {
                    Some(_) => true,
                    None => {
                        let to_balance = read_amount(&self.balances, to);
                        balance.checked_sub(amount).is_some() && to_balance.checked_add(
                            amount,
                        ).is_some() && compliance.receipt_fits_now(to, amount)
                    },
                }
            },
            LedgerStep::Mint { to, amount } => {
                if !registry.is_verified(to) {
                    return true;
                }
                let balance = read_amount(&self.balances, to);
                balance.checked_add(amount).is_some() && self.total_supply.checked_add(amount).is_some()
                    && compliance.receipt_fits_now(to, amount)
            },
            LedgerStep::Burn { from, amount } => self.burn_fits_now(from, amount, compliance),
        }
    }

    /// Whether a burn can be performed without overflowing.
    fn burn_fits_now(&self, from: AccountId, amount: i128, compliance: &MockCompliance) -> (r: bool)
        ensures
            forall|reg: RegistryState|
                r == #[trigger] step_fits(self@, compliance@, reg, LedgerStep::Burn { from, amount }),
    {
        let balance = read_amount(&self.balances, from);
        if balance < amount {
            return true;
        }
        balance.checked_sub(amount).is_some() && self.total_supply.checked_sub(amount).is_some()
            && compliance.release_fits_now(from, amount)
    }

    /// Whether a step can be performed without overflowing, against the
    /// registry `reg`. Only a burn may be checked without a registry.
    fn step_fits_with(
        &self,
        step: LedgerStep,
        registry: Option<&MockIdentityRegistry>,
        Ghost(reg): Ghost<RegistryState>,
        compliance: &MockCompliance,
    ) -> (r: bool)
        requires
            match registry {
                Some(known) => known@ == reg,
                None => step is Burn,
            },
        ensures
            r == step_fits(self@, compliance@, reg, step),
    {
        match registry {
            Some(known) => self.step_fits_now(step, known, compliance),
            None => match step {
                LedgerStep::Burn { from, amount } => self.burn_fits_now(from, amount, compliance),
                _ => false,
            },
        }
    }

    /// Whether `steps` can be performed one after the other without
    /// overflowing. The steps are tried and undone: the token and the
    /// compliance module are left as they were.
    fn steps_fit_with(
        &mut self,
        steps: &Vec<LedgerStep>,
        registry: Option<&MockIdentityRegistry>,
        Ghost(reg): Ghost<RegistryState>,
        compliance: &mut MockCompliance,
    ) -> (r: bool)
        requires
            match registry {
                Some(known) => known@ == reg,
                None => forall|i: int| 0 <= i < steps@.len() ==> (#[trigger] steps@[i]) is Burn,
            },
        ensures
            r == steps_fit(old(self)@, old(compliance)@, reg, steps@, steps@.len()),
            final(self)@ == old(self)@,
            final(compliance)@ == old(compliance)@,
    {
        let ghost st0 = self@;
        let ghost c0 = compliance@;
        let saved_balances = self.balances.clone();
        let saved_total = self.total_supply;
        let saved_compliance = compliance.snapshot();
        let n = steps.len();
        let mut i: usize = 0;
        let mut fits_all = true;
        while i < n
            invariant_except_break
                fits_all,
            invariant
                n == steps@.len(),
                0 <= i <= n,
                match registry {
                    Some(known) => known@ == reg,
                    None => forall|j: int| 0 <= j < steps@.len() ==> (#[trigger] steps@[j]) is Burn,
                },
                steps_fit(st0, c0, reg, steps@, i as nat),
                steps_outcome(st0, c0, reg, steps@, i as nat) == Ok::<
                    (TokenState, ComplianceState),
                    ERC3643Error,
                >((self@, compliance@)),
                self@ == (TokenState {
                    balances: self@.balances,
                    total_supply: self@.total_supply,
                    ..st0
                }),
                saved_balances@ == st0.balances,
                saved_total == st0.total_supply,
                saved_compliance@ == c0,
                st0 == old(self)@,
                c0 == old(compliance)@,
            ensures
                fits_all == steps_fit(st0, c0, reg, steps@, n as nat),
            decreases n - i,
        {
            let step = steps[i];
            if !self.step_fits_with(step, registry, Ghost(reg), compliance) {
                proof {
                    if steps_fit(st0, c0, reg, steps@, n as nat) {
                        lemma_steps_fit_prefix(st0, c0, reg, steps@, (i + 1) as nat, n as nat);
                    }
                }
                fits_all = false;
                break;
            }
            match self.perform(step, registry, Ghost(reg), compliance) {
                Err(_) => {
                    proof {
                        lemma_fits_after_refusal(st0, c0, reg, steps@, (i + 1) as nat, n as nat);
                    }
                    break;
                },
                Ok(()) => {},
            }
            i = i + 1;
        }
        self.balances = saved_balances;
        self.total_supply = saved_total;
        *compliance = saved_compliance;
        fits_all
    }

    /// Whether `batch_transfer` from `from` can be performed without
    /// overflowing; the token and the compliance module are left as they
    /// were.
    pub fn batch_transfer_fits_now(
        &mut self,
        from: AccountId,
        to_list: &[AccountId],
        amounts: &[i128],
        registry: &MockIdentityRegistry,
        compliance: &mut MockCompliance,
    ) -> (r: bool)
        requires
            to_list@.len() == amounts@.len(),
        ensures
            r == steps_fit(
                old(self)@,
                old(compliance)@,
                registry@,
                transfers_from(from, to_list@, amounts@, true),
                to_list@.len(),
            ),
            final(self)@ == old(self)@,
            final(compliance)@ == old(compliance)@,
    {
        let steps = transfer_steps_from(from, to_list, amounts, true);
        self.steps_fit_with(&steps, Some(registry), Ghost(registry@), compliance)
    }

    /// Whether `batch_forced_transfer` can be performed without
    /// overflowing; the token and the compliance module are left as they
    /// were.
    pub fn batch_forced_transfer_fits_now(
        &mut self,
        from_list: &[AccountId],
        to_list: &[AccountId],
        amounts: &[i128],
        registry: &MockIdentityRegistry,
        compliance: &mut MockCompliance,
    ) -> (r: bool)
        requires
            from_list@.len() == to_list@.len(),
            from_list@.len() == amounts@.len(),
        ensures
            r == steps_fit(
                old(self)@,
                old(compliance)@,
                registry@,
                transfers_between(from_list@, to_list@, amounts@, false),
                from_list@.len(),
            ),
            final(self)@ == old(self)@,
            final(compliance)@ == old(compliance)@,
    {
        let steps = transfer_steps_between(from_list, to_list, amounts, false);
        self.steps_fit_with(&steps, Some(registry), Ghost(registry@), compliance)
    }

    /// Whether `batch_mint` can be performed without overflowing; the token
    /// and the compliance module are left as they were.
    pub fn batch_mint_fits_now(
        &mut self,
        to_list: &[AccountId],
        amounts: &[i128],
        registry: &MockIdentityRegistry,
        compliance: &mut MockCompliance,
    ) -> (r: bool)
        requires
            to_list@.len() == amounts@.len(),
        ensures
            r == steps_fit(old(self)@, old(compliance)@, registry@, mints(to_list@, amounts@), to_list@.len()),
            final(self)@ == old(self)@,
            final(compliance)@ == old(compliance)@,
    {
        let steps = mint_steps(to_list, amounts);
        self.steps_fit_with(&steps, Some(registry), Ghost(registry@), compliance)
    }

    /// Whether `batch_burn` can be performed without overflowing; the token
    /// and the compliance module are left as they were.
    pub fn batch_burn_fits_now(
        &mut self,
        users: &[AccountId],
        amounts: &[i128],
        compliance: &mut MockCompliance,
    ) -> (r: bool)
        requires
            users@.len() == amounts@.len(),
        ensures
            r == steps_fit(
                old(self)@,
                old(compliance)@,
                burns_outcome_registry(),
                burns(users@, amounts@),
                users@.len(),
            ),
            final(self)@ == old(self)@,
            final(compliance)@ == old(compliance)@,
    {
        let steps = burn_steps(users, amounts);
        proof {
            assert(forall|j: int| 0 <= j < steps@.len() ==> (#[trigger] steps@[j]) is Burn);
        }
        self.steps_fit_with(&steps, None, Ghost(burns_outcome_registry()), compliance)
    }

    /// Whether taking `amount` of `spender`'s allowance over `from`'s tokens
    /// can be done without overflowing.
    pub fn spend_fits_now(&self, from: AccountId, spender: AccountId, amount: i128) -> (r: bool)
        ensures
            r == self@.spend_fits(from, spender, amount),
    {
        let a = self.allowance_info(from, spender);
        if a.amount >= amount && a.amount > 0 {
            a.amount.checked_sub(amount).is_some()
        } else {
            true
        }
    }

    /// Whether freezing `amount` more of `user`'s balance can be checked
    /// without overflowing.
    pub fn freeze_fits_now(&self, user: AccountId, amount: i128) -> (r: bool)
        ensures
            r == fits(self@.frozen_tokens_of(user) + amount),
    {
        read_amount(&self.frozen_tokens, user).checked_add(amount).is_some()
    }

    /// Whether unfreezing `amount` of `user`'s frozen tokens can be done
    /// without overflowing.
    pub fn unfreeze_fits_now(&self, user: AccountId, amount: i128) -> (r: bool)
        ensures
            r == (amount <= self@.frozen_tokens_of(user) ==> fits(self@.frozen_tokens_of(user) - amount)),
    {
        let current = read_amount(&self.frozen_tokens, user);
        amount > current || current.checked_sub(amount).is_some()
    }

    // ----- Getters -----
    /// The total supply.
    pub fn total_supply(&self) -> (r: i128)
        ensures
            r == self@.total_supply,
    {
        self.total_supply
    }

    /// The address of the identity registry.
    pub fn identity_registry(&self) -> (r: AccountId)
        ensures
            r == self@.identity_registry,
    {
        self.identity_registry
    }

    /// The address of the compliance module.
    pub fn compliance(&self) -> (r: AccountId)
        ensures
            r == self@.compliance,
    {
        self.compliance
    }

    /// Whether the token is paused.
    pub fn paused(&self) -> (r: bool)
        ensures
            r == self@.paused,
    {
        self.paused
    }

    /// Whether `user` is frozen.
    pub fn is_frozen(&self, user: AccountId) -> (r: bool)
        ensures
            r == self@.is_frozen(user),
    {
        read_flag(&self.frozen, user)
    }

    /// The frozen part of `user`'s balance.
    pub fn get_frozen_tokens(&self, user: AccountId) -> (r: i128)
        ensures
            r == self@.frozen_tokens_of(user),
    {
        read_amount(&self.frozen_tokens, user)
    }

    // ----- Setters -----
    /// Renames the token.
    pub fn set_name(&mut self, name: soroban_sdk::String)
        ensures
            final(self)@ == (TokenState { name, ..old(self)@ }),
    {
        self.metadata.name = name;
    }

    /// Sets the token's symbol.
    pub fn set_symbol(&mut self, symbol: soroban_sdk::String)
        ensures
            final(self)@ == (TokenState { symbol, ..old(self)@ }),
    {
        self.metadata.symbol = symbol;
    }

    /// Pauses the token.
    pub fn pause(&mut self)
        ensures
            final(self)@ == (TokenState { paused: true, ..old(self)@ }),
    {
        self.paused = true;
    }

    /// Unpauses the token.
    pub fn unpause(&mut self)
        ensures
            final(self)@ == (TokenState { paused: false, ..old(self)@ }),
    {
        self.paused = false;
    }

    /// Freezes or unfreezes `user`.
    pub fn set_address_frozen(&mut self, user: AccountId, freeze: bool)
        ensures
            final(self)@ == (TokenState { frozen: old(self)@.frozen.insert(user, freeze), ..old(self)@ }),
    {
        write_flag(&mut self.frozen, user, freeze);
    }

    /// Freezes `amount` more of `user`'s balance; `InsufficientBalance` when
    /// the frozen part would exceed the balance.
    pub fn freeze_partial_tokens(&mut self, user: AccountId, amount: i128) -> (r: Result<
        (),
        ERC3643Error,
    >)
        requires
            fits(old(self)@.frozen_tokens_of(user) + amount),
        ensures
            old(self)@.frozen_tokens_of(user) + amount > old(self)@.balance_of(user) ==> r == Err::<
                (),
                ERC3643Error,
            >(ERC3643Error::InsufficientBalance) && final(self)@ == old(self)@,
            old(self)@.frozen_tokens_of(user) + amount <= old(self)@.balance_of(user) ==> r is Ok
                && final(self)@ == (TokenState {
                frozen_tokens: old(self)@.frozen_tokens.insert(
                    user,
                    (old(self)@.frozen_tokens_of(user) + amount) as i128,
                ),
                ..old(self)@
            }),
            final(self)@.balance_of(user) == old(self)@.balance_of(user),
            old(self)@.frozen_tokens_of(user) <= old(self)@.balance_of(user) ==> final(self)@.frozen_tokens_of(user)
                <= final(self)@.balance_of(user),
            0 <= old(self)@.frozen_tokens_of(user) && 0 <= amount ==> 0 <= final(self)@.frozen_tokens_of(user),
    {
        let current_frozen = read_amount(&self.frozen_tokens, user);
        let balance = read_amount(&self.balances, user);
        if current_frozen + amount > balance {
            return Err(ERC3643Error::InsufficientBalance);
        }
        write_amount(&mut self.frozen_tokens, user, current_frozen + amount);
        Ok(())
    }

    /// Unfreezes `amount` of `user`'s frozen tokens;
    /// `InsufficientFrozenTokens` when fewer are frozen.
    pub fn unfreeze_partial_tokens(&mut self, user: AccountId, amount: i128) -> (r: Result<
        (),
        ERC3643Error,
    >)
        requires
            amount <= old(self)@.frozen_tokens_of(user) ==> fits(
                old(self)@.frozen_tokens_of(user) - amount,
            ),
        ensures
            amount > old(self)@.frozen_tokens_of(user) ==> r == Err::<(), ERC3643Error>(
                ERC3643Error::InsufficientFrozenTokens,
            ) && final(self)@ == old(self)@,
            amount <= old(self)@.frozen_tokens_of(user) ==> r is Ok && final(self)@ == (TokenState {
                frozen_tokens: old(self)@.frozen_tokens.insert(
                    user,
                    (old(self)@.frozen_tokens_of(user) - amount) as i128,
                ),
                ..old(self)@
            }),
    {
        let current_frozen = read_amount(&self.frozen_tokens, user);
        if amount > current_frozen {
            return Err(ERC3643Error::InsufficientFrozenTokens);
        }
        write_amount(&mut self.frozen_tokens, user, current_frozen - amount);
        Ok(())
    }

    /// Points the token at another identity registry.
    pub fn set_identity_registry(&mut self, identity_registry: AccountId)
        ensures
            final(self)@ == (TokenState { identity_registry, ..old(self)@ }),
    {
        self.identity_registry = identity_registry;
    }

    /// Points the token at another compliance module.
    pub fn set_compliance(&mut self, compliance: AccountId)
        ensures
            final(self)@ == (TokenState { compliance, ..old(self)@ }),
    {
        self.compliance = compliance;
    }

    // ----- Transfer actions -----
    /// Transfers `amount` from `from` to `to` whatever the sender's
    /// restrictions and the compliance rules: only the pause, a transfer to
    /// the sender itself, a frozen receiver, the receiver's identity and the
    /// sender's balance can refuse it. Answers `true` when it is done.
    pub fn forced_transfer(
        &mut self,
        from: AccountId,
        to: AccountId,
        amount: i128,
        registry: &MockIdentityRegistry,
        compliance: &mut MockCompliance,
    ) -> (r: Result<bool, ERC3643Error>)
        requires
            old(self)@.wired_to(registry@, old(compliance)@),
            step_fits(
                old(self)@,
                old(compliance)@,
                registry@,
                LedgerStep::Transfer { from, to, amount, checked: false },
            ),
        ensures
            match step_outcome(
                old(self)@,
                old(compliance)@,
                registry@,
                LedgerStep::Transfer { from, to, amount, checked: false },
            ) {
                Err(e) => r == Err::<bool, ERC3643Error>(e) && final(self)@ == old(self)@ && final(compliance)@ == old(compliance)@,
                Ok((t, c)) => r == Ok::<bool, ERC3643Error>(true) && final(self)@ == t && final(compliance)@ == c,
            },
            r is Ok ==> {
                &&& !old(self)@.paused
                &&& from != to
                &&& !old(self)@.is_frozen(to)
                &&& registry@.verifies(to)
                &&& amount <= old(self)@.balance_of(from)
            },
    {
        match self.do_transfer(from, to, amount, false, registry, compliance) {
            Err(e) => Err(e),
            Ok(()) => Ok(true),
        }
    }

    /// Mints `amount` to `to`; `InvalidIdentity` when `to` is not verified.
    pub fn mint(
        &mut self,
        to: AccountId,
        amount: i128,
        registry: &MockIdentityRegistry,
        compliance: &mut MockCompliance,
    ) -> (r: Result<(), ERC3643Error>)
        requires
            old(self)@.wired_to(registry@, old(compliance)@),
            step_fits(old(self)@, old(compliance)@, registry@, LedgerStep::Mint { to, amount }),
        ensures
            !registry@.verifies(to) ==> r == Err::<(), ERC3643Error>(ERC3643Error::InvalidIdentity)
                && final(self)@ == old(self)@ && final(compliance)@ == old(compliance)@,
            registry@.verifies(to) ==> r is Ok && final(self)@ == old(self)@.with_mint(to, amount)
                && final(compliance)@ == old(compliance)@.with_receipt(to, amount),
    {
        self.do_mint(to, amount, registry, compliance)
    }

    /// Moves all of `lost_wallet`'s tokens, and its frozen part, to
    /// `new_wallet`, adding them to what it holds; `InvalidIdentity` when
    /// `new_wallet` is not verified. Answers `true` when it is done.
    pub fn recovery_address(
        &mut self,
        lost_wallet: AccountId,
        new_wallet: AccountId,
        investor_identity: AccountId,
        registry: &MockIdentityRegistry,
    ) -> (r: Result<bool, ERC3643Error>)
        requires
            old(self)@.identity_registry == registry@.address,
            registry@.verifies(new_wallet) ==> old(self)@.recovery_fits(lost_wallet, new_wallet),
        ensures
            !registry@.verifies(new_wallet) ==> r == Err::<bool, ERC3643Error>(
                ERC3643Error::InvalidIdentity,
            ) && final(self)@ == old(self)@,
            registry@.verifies(new_wallet) ==> r == Ok::<bool, ERC3643Error>(true) && final(self)@
                == old(self)@.with_recovery(lost_wallet, new_wallet),
    {
        if !registry.is_verified(new_wallet) {
            return Err(ERC3643Error::InvalidIdentity);
        }
        let balance = read_amount(&self.balances, lost_wallet);
        let frozen = read_amount(&self.frozen_tokens, lost_wallet);
        write_amount(&mut self.balances, lost_wallet, 0);
        write_amount(&mut self.frozen_tokens, lost_wallet, 0);
        let new_balance = read_amount(&self.balances, new_wallet);
        let new_frozen = read_amount(&self.frozen_tokens, new_wallet);
        write_amount(&mut self.balances, new_wallet, new_balance + balance);
        write_amount(&mut self.frozen_tokens, new_wallet, new_frozen + frozen);
        Ok(true)
    }

    /// Whether recovering `lost_wallet` into `new_wallet` can be done
    /// without overflowing.
    pub fn recovery_fits_now(&self, lost_wallet: AccountId, new_wallet: AccountId) -> (r: bool)
        ensures
            r == self@.recovery_fits(lost_wallet, new_wallet),
    {
        if lost_wallet == new_wallet {
            return true;
        }
        let balance = read_amount(&self.balances, lost_wallet);
        let frozen = read_amount(&self.frozen_tokens, lost_wallet);
        read_amount(&self.balances, new_wallet).checked_add(balance).is_some() && read_amount(
            &self.frozen_tokens,
            new_wallet,
        ).checked_add(frozen).is_some()
    }

    // ----- Batch functions -----
    /// Transfers `amounts[i]` from `from` to `to_list[i]`, in order, as
    /// `transfer` does; the first refused transfer refuses the whole batch.
    /// `ArrayLengthMismatch` when the lists differ in length.
    pub fn batch_transfer(
        &mut self,
        from: AccountId,
        to_list: &[AccountId],
        amounts: &[i128],
        registry: &MockIdentityRegistry,
        compliance: &mut MockCompliance,
    ) -> (r: Result<(), ERC3643Error>)
        requires
            old(self)@.wired_to(registry@, old(compliance)@),
            to_list@.len() == amounts@.len() ==> steps_fit(
                old(self)@,
                old(compliance)@,
                registry@,
                transfers_from(from, to_list@, amounts@, true),
                to_list@.len(),
            ),
        ensures
            to_list@.len() != amounts@.len() ==> r == Err::<(), ERC3643Error>(
                ERC3643Error::ArrayLengthMismatch,
            ) && final(self)@ == old(self)@ && final(compliance)@ == old(compliance)@,
            to_list@.len() == amounts@.len() ==> match steps_outcome(
                old(self)@,
                old(compliance)@,
                registry@,
                transfers_from(from, to_list@, amounts@, true),
                to_list@.len(),
            ) {
                Err(e) => r == Err::<(), ERC3643Error>(e) && final(self)@ == old(self)@ && final(compliance)@ == old(compliance)@,
                Ok((t, c)) => r is Ok && final(self)@ == t && final(compliance)@ == c,
            },
            r is Ok && to_list@.len() > 0 ==> !old(self)@.is_frozen(from) && !old(self)@.paused,
    {
        if to_list.len() != amounts.len() {
            return Err(ERC3643Error::ArrayLengthMismatch);
        }
        let ghost st0 = self@;
        let ghost c0 = compliance@;
        let steps = transfer_steps_from(from, to_list, amounts, true);
        let r = self.perform_all(&steps, Some(registry), Ghost(registry@), compliance);
        proof {
            if r is Ok && to_list@.len() > 0 {
                assert(steps_outcome(st0, c0, registry@, steps@, 0) == Ok::<
                    (TokenState, ComplianceState),
                    ERC3643Error,
                >((st0, c0)));
                if steps_outcome(st0, c0, registry@, steps@, 1) is Err {
                    lemma_refusal_persists(st0, c0, registry@, steps@, 1, to_list@.len());
                }
            }
        }
        r
    }

    /// Transfers `amounts[i]` from `from_list[i]` to `to_list[i]`, in order,
    /// as `forced_transfer` does; the first refused transfer refuses the
    /// whole batch. `ArrayLengthMismatch` when the lists differ in length.
    pub fn batch_forced_transfer(
        &mut self,
        from_list: &[AccountId],
        to_list: &[AccountId],
        amounts: &[i128],
        registry: &MockIdentityRegistry,
        compliance: &mut MockCompliance,
    ) -> (r: Result<(), ERC3643Error>)
        requires
            old(self)@.wired_to(registry@, old(compliance)@),
            from_list@.len() == to_list@.len() && from_list@.len() == amounts@.len() ==> steps_fit(
                old(self)@,
                old(compliance)@,
                registry@,
                transfers_between(from_list@, to_list@, amounts@, false),
                from_list@.len(),
            ),
        ensures
            !(from_list@.len() == to_list@.len() && from_list@.len() == amounts@.len()) ==> r
                == Err::<(), ERC3643Error>(ERC3643Error::ArrayLengthMismatch) && final(self)@ == old(self)@ && final(compliance)@ == old(compliance)@,
            from_list@.len() == to_list@.len() && from_list@.len() == amounts@.len()
                ==> match steps_outcome(
                old(self)@,
                old(compliance)@,
                registry@,
                transfers_between(from_list@, to_list@, amounts@, false),
                from_list@.len(),
            ) {
                Err(e) => r == Err::<(), ERC3643Error>(e) && final(self)@ == old(self)@ && final(compliance)@ == old(compliance)@,
                Ok((t, c)) => r is Ok && final(self)@ == t && final(compliance)@ == c,
            },
    {
        if from_list.len() != to_list.len() || from_list.len() != amounts.len() {
            return Err(ERC3643Error::ArrayLengthMismatch);
        }
        let steps = transfer_steps_between(from_list, to_list, amounts, false);
        self.perform_all(&steps, Some(registry), Ghost(registry@), compliance)
    }

    /// Mints `amounts[i]` to `to_list[i]`, in order, as `mint` does; the
    /// first unverified receiver refuses the whole batch.
    /// `ArrayLengthMismatch` when the lists differ in length.
    pub fn batch_mint(
        &mut self,
        to_list: &[AccountId],
        amounts: &[i128],
        registry: &MockIdentityRegistry,
        compliance: &mut MockCompliance,
    ) -> (r: Result<(), ERC3643Error>)
        requires
            old(self)@.wired_to(registry@, old(compliance)@),
            to_list@.len() == amounts@.len() ==> steps_fit(
                old(self)@,
                old(compliance)@,
                registry@,
                mints(to_list@, amounts@),
                to_list@.len(),
            ),
        ensures
            to_list@.len() != amounts@.len() ==> r == Err::<(), ERC3643Error>(
                ERC3643Error::ArrayLengthMismatch,
            ) && final(self)@ == old(self)@ && final(compliance)@ == old(compliance)@,
            to_list@.len() == amounts@.len() ==> match steps_outcome(
                old(self)@,
                old(compliance)@,
                registry@,
                mints(to_list@, amounts@),
                to_list@.len(),
            ) {
                Err(e) => r == Err::<(), ERC3643Error>(e) && final(self)@ == old(self)@ && final(compliance)@ == old(compliance)@,
                Ok((t, c)) => r is Ok && final(self)@ == t && final(compliance)@ == c,
            },
    {
        if to_list.len() != amounts.len() {
            return Err(ERC3643Error::ArrayLengthMismatch);
        }
        let steps = mint_steps(to_list, amounts);
        self.perform_all(&steps, Some(registry), Ghost(registry@), compliance)
    }

    /// Burns `amounts[i]` from `users[i]`, in order, as `burn` does; the
    /// first balance that does not cover its amount refuses the whole batch.
    /// `ArrayLengthMismatch` when the lists differ in length.
    pub fn batch_burn(
        &mut self,
        users: &[AccountId],
        amounts: &[i128],
        compliance: &mut MockCompliance,
    ) -> (r: Result<(), ERC3643Error>)
        requires
            old(self)@.compliance == old(compliance)@.address,
            users@.len() == amounts@.len() ==> steps_fit(
                old(self)@,
                old(compliance)@,
                burns_outcome_registry(),
                burns(users@, amounts@),
                users@.len(),
            ),
        ensures
            users@.len() != amounts@.len() ==> r == Err::<(), ERC3643Error>(
                ERC3643Error::ArrayLengthMismatch,
            ) && final(self)@ == old(self)@ && final(compliance)@ == old(compliance)@,
            users@.len() == amounts@.len() ==> match steps_outcome(
                old(self)@,
                old(compliance)@,
                burns_outcome_registry(),
                burns(users@, amounts@),
                users@.len(),
            ) {
                Err(e) => r == Err::<(), ERC3643Error>(e) && final(self)@ == old(self)@ && final(compliance)@ == old(compliance)@,
                Ok((t, c)) => r is Ok && final(self)@ == t && final(compliance)@ == c,
            },
    {
        if users.len() != amounts.len() {
            return Err(ERC3643Error::ArrayLengthMismatch);
        }
        let steps = burn_steps(users, amounts);
        proof {
            assert(forall|j: int| 0 <= j < steps@.len() ==> (#[trigger] steps@[j]) is Burn);
        }
        self.perform_all(&steps, None, Ghost(burns_outcome_registry()), compliance)
    }

    /// Freezes or unfreezes `users[i]` as `freeze[i]` says, in order.
    /// `ArrayLengthMismatch` when the lists differ in length.
    pub fn batch_set_address_frozen(&mut self, users: &[AccountId], freeze: &[bool]) -> (r: Result<
        (),
        ERC3643Error,
    >)
        ensures
            users@.len() != freeze@.len() ==> r == Err::<(), ERC3643Error>(
                ERC3643Error::ArrayLengthMismatch,
            ) && final(self)@ == old(self)@,
            users@.len() == freeze@.len() ==> r is Ok && final(self)@ == (TokenState {
                frozen: frozen_after(old(self)@.frozen, users@, freeze@, users@.len()),
                ..old(self)@
            }),
            users@.len() == freeze@.len() ==> forall|i: int|
                0 <= i < users@.len() && !users@.subrange(i + 1, users@.len() as int).contains(users@[i])
                    ==> #[trigger] final(self)@.is_frozen(users@[i]) == freeze@[i],
            users@.len() == freeze@.len() ==> forall|u: AccountId|
                !users@.contains(u) ==> #[trigger] final(self)@.is_frozen(u) == old(self)@.is_frozen(u),
    {
        proof {
            if users@.len() == freeze@.len() {
                law_batch_freeze_sets_each_flag(old(self)@.frozen, users@, freeze@, users@.len());
                assert(users@.take(users@.len() as int) == users@);
            }
        }
        if users.len() != freeze.len() {
            return Err(ERC3643Error::ArrayLengthMismatch);
        }
        let ghost start = self@;
        let mut i: usize = 0;
        while i < users.len()
            invariant
                users@.len() == freeze@.len(),
                0 <= i <= users@.len(),
                self@ == (TokenState {
                    frozen: frozen_after(start.frozen, users@, freeze@, i as nat),
                    ..start
                }),
            decreases users@.len() - i,
        {
            write_flag(&mut self.frozen, users[i], freeze[i]);
            i = i + 1;
        }
        Ok(())
    }

    // ----- Agent management -----
    /// Adds `agent` to the agents.
    pub fn add_agent(&mut self, agent: AccountId)
        ensures
            final(self)@ == (TokenState { agents: old(self)@.agents.insert(agent, true), ..old(self)@ }),
    {
        self.agents.set(agent, true);
    }

    /// Removes `agent` from the agents.
    pub fn remove_agent(&mut self, agent: AccountId)
        ensures
            final(self)@ == (TokenState { agents: old(self)@.agents.remove(agent), ..old(self)@ }),
    {
        self.agents.remove(agent);
    }

    /// Whether `agent` is an agent.
    pub fn is_agent(&self, agent: AccountId) -> (r: bool)
        ensures
            r == self@.has_agent(agent),
    {
        self.agents.has(agent)
    }

    // ----- Compliance check -----
    /// Whether the compliance module allows `to` to receive `amount`; the
    /// registry and the token's own restrictions play no part.
    pub fn can_transfer(&self, from: AccountId, to: AccountId, amount: i128, compliance: &MockCompliance) -> (r:
        bool)
        requires
            self@.compliance == compliance@.address,
            compliance@.check_fits(to, amount),
        ensures
            r == compliance@.allows(to, amount),
    {
        compliance.can_transfer(from, to, amount)
    }

    /// Whether the registry verifies `user`.
    pub fn is_verified(&self, user: AccountId, registry: &MockIdentityRegistry) -> (r: bool)
        requires
            self@.identity_registry == registry@.address,
        ensures
            r == registry@.verifies(user),
    {
        registry.is_verified(user)
    }
}

} // verus!
