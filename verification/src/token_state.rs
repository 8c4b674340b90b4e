//! What the ERC-3643 token keeps in its storage, and the rules of the
//! operations that move balances, stated over that state, the compliance
//! module's state and the identity registry's state.
use vstd::prelude::*;

use crate::compliance::ComplianceState;
use crate::identity_registry::RegistryState;
use crate::ledger::{amount_in, flag_in};
use crate::AccountId;

verus! {

/// The errors of the token.
#[derive(Clone, Copy, Debug, PartialEq, Eq, Structural, PartialOrd, Ord)]
pub enum ERC3643Error {
    /// Contract already initialized
    AlreadyInitialized,
    /// Caller is not authorized
    Unauthorized,
    /// Token is paused
    TokenPaused,
    /// Wallet is frozen
    FrozenWallet,
    /// Insufficient balance
    InsufficientBalance,
    /// Receiver identity not verified
    InvalidIdentity,
    /// Compliance check failed
    ComplianceFailure,
    /// Insufficient allowance
    InsufficientAllowance,
    /// Allowance has expired
    AllowanceExpired,
    /// Array lengths do not match
    ArrayLengthMismatch,
    /// Insufficient frozen tokens to unfreeze
    InsufficientFrozenTokens,
    /// Cannot transfer to self
    SelfTransfer,
}

/// An allowance: what a spender may still take, and the last ledger at
/// which it may.
#[derive(Clone, Copy, Debug, PartialEq, Eq, Structural)]
pub struct AllowanceInfo {
    pub amount: i128,
    pub expiration_ledger: u32,
}

/// `x` is a value of `i128`.
pub open spec fn fits(x: int) -> bool {
    i128::MIN <= x <= i128::MAX
}

/// The key under which the allowance of `spender` over `from`'s tokens is
/// stored: the two accounts side by side in one `u128`.
pub open spec fn allowance_key(from: AccountId, spender: AccountId) -> u128 {
    (from as int * 0x1_0000_0000_0000_0000 + spender as int) as u128
}

/// Two pairs of accounts share an allowance key only when they are the
/// same pair.
pub proof fn lemma_allowance_key_injective(f1: AccountId, s1: AccountId, f2: AccountId, s2: AccountId)
    ensures
        allowance_key(f1, s1) == allowance_key(f2, s2) ==> f1 == f2 && s1 == s2,
{
    assert(0 <= f1 as int * 0x1_0000_0000_0000_0000 + s1 as int <= u128::MAX) by (nonlinear_arith);
    assert(0 <= f2 as int * 0x1_0000_0000_0000_0000 + s2 as int <= u128::MAX) by (nonlinear_arith);
    if allowance_key(f1, s1) == allowance_key(f2, s2) {
        assert(f1 as int * 0x1_0000_0000_0000_0000 + s1 as int == f2 as int * 0x1_0000_0000_0000_0000
            + s2 as int);
        assert(f1 == f2 && s1 == s2) by (nonlinear_arith)
            requires
                f1 as int * 0x1_0000_0000_0000_0000 + s1 as int == f2 as int * 0x1_0000_0000_0000_0000
                    + s2 as int,
                0 <= s1 < 0x1_0000_0000_0000_0000,
                0 <= s2 < 0x1_0000_0000_0000_0000,
        ;
    }
}

/// What the token keeps in its storage.
pub struct TokenState {
    pub address: AccountId,
    pub admin: AccountId,
    pub name: soroban_sdk::String,
    pub symbol: soroban_sdk::String,
    pub decimals: u32,
    pub identity_registry: AccountId,
    pub compliance: AccountId,
    pub paused: bool,
    pub total_supply: i128,
    pub balances: Map<AccountId, i128>,
    pub allowances: Map<u128, AllowanceInfo>,
    pub frozen: Map<AccountId, bool>,
    pub frozen_tokens: Map<AccountId, i128>,
    pub agents: Map<AccountId, bool>,
}

/// One operation on balances, as the batch operations perform them one after
/// the other.
#[derive(Clone, Copy, Debug)]
pub enum LedgerStep {
    /// A transfer; `checked` is false for a forced transfer, which skips the
    /// sender's restrictions and the compliance check.
    Transfer { from: AccountId, to: AccountId, amount: i128, checked: bool },
    /// A mint to a verified receiver.
    Mint { to: AccountId, amount: i128 },
    /// A burn.
    Burn { from: AccountId, amount: i128 },
}

impl TokenState {
    pub open spec fn balance_of(self, a: AccountId) -> i128 {
        amount_in(self.balances, a)
    }

    pub open spec fn frozen_tokens_of(self, a: AccountId) -> i128 {
        amount_in(self.frozen_tokens, a)
    }

    pub open spec fn is_frozen(self, a: AccountId) -> bool {
        flag_in(self.frozen, a)
    }

    pub open spec fn has_agent(self, agent: AccountId) -> bool {
        self.agents.contains_key(agent) && self.agents[agent]
    }

    /// The allowance of `spender` over `from`'s tokens; none is an amount
    /// of zero that expired at ledger zero.
    pub open spec fn allowance_of(self, from: AccountId, spender: AccountId) -> AllowanceInfo {
        let key = allowance_key(from, spender);
        if self.allowances.contains_key(key) {
            self.allowances[key]
        } else {
            AllowanceInfo { amount: 0, expiration_ledger: 0 }
        }
    }

    /// The token is wired to this registry and this compliance module.
    pub open spec fn wired_to(self, reg: RegistryState, comp: ComplianceState) -> bool {
        self.identity_registry == reg.address && self.compliance == comp.address
    }

    /// The error with which a transfer is refused, in the order the token
    /// checks: pause, a transfer to oneself, frozen sender, free balance of
    /// the sender, frozen receiver, receiver's identity, compliance, balance
    /// of the sender. A forced transfer (`checked` false) skips the sender's
    /// restrictions and the compliance check.
    pub open spec fn transfer_refusal(
        self,
        from: AccountId,
        to: AccountId,
        amount: i128,
        checked: bool,
        receiver_verified: bool,
        compliance_allows: bool,
    ) -> Option<ERC3643Error> {
        if self.paused {
            Some(ERC3643Error::TokenPaused)
        } else if from == to {
            Some(ERC3643Error::SelfTransfer)
        } else if checked && self.is_frozen(from) {
            Some(ERC3643Error::FrozenWallet)
        } else if checked && amount > self.balance_of(from) - self.frozen_tokens_of(from) {
            Some(ERC3643Error::InsufficientBalance)
        } else if self.is_frozen(to) {
            Some(ERC3643Error::FrozenWallet)
        } else if !receiver_verified {
            Some(ERC3643Error::InvalidIdentity)
        } else if checked && !compliance_allows {
            Some(ERC3643Error::ComplianceFailure)
        } else if self.balance_of(from) < amount {
            Some(ERC3643Error::InsufficientBalance)
        } else {
            None
        }
    }

    /// The balances after `amount` moves from `from` to another account `to`.
    pub open spec fn with_transfer(self, from: AccountId, to: AccountId, amount: i128) -> TokenState {
        TokenState {
            balances: self.balances.insert(
                from,
                (self.balance_of(from) - amount) as i128,
            ).insert(to, (self.balance_of(to) + amount) as i128),
            ..self
        }
    }

    /// The state after `amount` is minted to `to`.
    pub open spec fn with_mint(self, to: AccountId, amount: i128) -> TokenState {
        TokenState {
            balances: self.balances.insert(to, (self.balance_of(to) + amount) as i128),
            total_supply: (self.total_supply + amount) as i128,
            ..self
        }
    }

    /// The state after `amount` is burned from `from`.
    pub open spec fn with_burn(self, from: AccountId, amount: i128) -> TokenState {
        TokenState {
            balances: self.balances.insert(from, (self.balance_of(from) - amount) as i128),
            total_supply: (self.total_supply - amount) as i128,
            ..self
        }
    }

    /// The state after the tokens of `lost` are recovered into `new`: `lost`
    /// is emptied of its balance and of its frozen part, and both are added
    /// to what `new` holds then. Recovering a wallet into itself changes
    /// nothing.
    pub open spec fn with_recovery(self, lost: AccountId, new: AccountId) -> TokenState {
        let balances = self.balances.insert(lost, 0);
        let frozen_tokens = self.frozen_tokens.insert(lost, 0);
        TokenState {
            balances: balances.insert(new, (amount_in(balances, new) + self.balance_of(lost)) as i128),
            frozen_tokens: frozen_tokens.insert(
                new,
                (amount_in(frozen_tokens, new) + self.frozen_tokens_of(lost)) as i128,
            ),
            ..self
        }
    }

    /// Recovering `lost` into `new` does not overflow `new`'s balance or its
    /// frozen part.
    pub open spec fn recovery_fits(self, lost: AccountId, new: AccountId) -> bool {
        lost != new ==> {
            &&& fits(self.balance_of(new) + self.balance_of(lost))
            &&& fits(self.frozen_tokens_of(new) + self.frozen_tokens_of(lost))
        }
    }

    /// The error with which taking `amount` of `spender`'s allowance over
    /// `from`'s tokens at ledger `ledger` is refused.
    pub open spec fn spend_refusal(self, from: AccountId, spender: AccountId, amount: i128, ledger: u32) -> Option<
        ERC3643Error,
    > {
        let a = self.allowance_of(from, spender);
        if a.expiration_ledger < ledger {
            Some(ERC3643Error::AllowanceExpired)
        } else if a.amount < amount {
            Some(ERC3643Error::InsufficientAllowance)
        } else {
            None
        }
    }

    /// Taking `amount` of the allowance does not overflow.
    pub open spec fn spend_fits(self, from: AccountId, spender: AccountId, amount: i128) -> bool {
        let a = self.allowance_of(from, spender);
        a.amount >= amount && a.amount > 0 ==> fits(a.amount - amount)
    }

    /// The state after `amount` of the allowance is taken. An allowance of
    /// zero or less is left as it is.
    pub open spec fn with_spend(self, from: AccountId, spender: AccountId, amount: i128) -> TokenState {
        let a = self.allowance_of(from, spender);
        if a.amount > 0 {
            TokenState {
                allowances: self.allowances.insert(
                    allowance_key(from, spender),
                    AllowanceInfo {
                        amount: (a.amount - amount) as i128,
                        expiration_ledger: a.expiration_ledger,
                    },
                ),
                ..self
            }
        } else {
            self
        }
    }
}

/// The outcome of one step: the error with which it is refused, or the token
/// and compliance states after it.
pub open spec fn step_outcome(
    tok: TokenState,
    comp: ComplianceState,
    reg: RegistryState,
    step: LedgerStep,
) -> Result<(TokenState, ComplianceState), ERC3643Error> {
    match step {
        LedgerStep::Transfer { from, to, amount, checked } => {
            match tok.transfer_refusal(
                from,
                to,
                amount,
                checked,
                reg.verifies(to),
                comp.allows(to, amount),
            ) {
                Some(e) => Err(e),
                None => Ok((tok.with_transfer(from, to, amount), comp.with_receipt(to, amount))),
            }
        },
        LedgerStep::Mint { to, amount } => {
            if !reg.verifies(to) {
                Err(ERC3643Error::InvalidIdentity)
            } else {
                Ok((tok.with_mint(to, amount), comp.with_receipt(to, amount)))
            }
        },
        LedgerStep::Burn { from, amount } => {
            if tok.balance_of(from) < amount {
                Err(ERC3643Error::InsufficientBalance)
            } else {
                Ok((tok.with_burn(from, amount), comp.with_release(from, amount)))
            }
        },
    }
}

/// The checks of a transfer do not overflow: the sender's free balance when
/// it is checked, and the receiver's compliance check when it is reached.
pub open spec fn transfer_checks_fit(
    tok: TokenState,
    comp: ComplianceState,
    reg: RegistryState,
    from: AccountId,
    to: AccountId,
    amount: i128,
    checked: bool,
) -> bool {
    let sender_checked = !tok.paused && checked && !tok.is_frozen(from);
    let free = tok.balance_of(from) - tok.frozen_tokens_of(from);
    &&& sender_checked ==> fits(free)
    &&& sender_checked && amount <= free && !tok.is_frozen(to) && reg.verifies(to)
        ==> comp.check_fits(to, amount)
}

/// No arithmetic of the step overflows on the path that it takes.
pub open spec fn step_fits(
    tok: TokenState,
    comp: ComplianceState,
    reg: RegistryState,
    step: LedgerStep,
) -> bool {
    match step {
        LedgerStep::Transfer { from, to, amount, checked } => {
            &&& transfer_checks_fit(tok, comp, reg, from, to, amount, checked)
            &&& step_outcome(tok, comp, reg, step) is Ok ==> {
                &&& fits(tok.balance_of(from) - amount)
                &&& fits(tok.balance_of(to) + amount)
                &&& comp.receipt_fits(to, amount)
            }
        },
        LedgerStep::Mint { to, amount } => {
            reg.verifies(to) ==> {
                &&& fits(tok.balance_of(to) + amount)
                &&& fits(tok.total_supply + amount)
                &&& comp.receipt_fits(to, amount)
            }
        },
        LedgerStep::Burn { from, amount } => {
            tok.balance_of(from) >= amount ==> {
                &&& fits(tok.balance_of(from) - amount)
                &&& fits(tok.total_supply - amount)
                &&& comp.release_fits(from, amount)
            }
        },
    }
}

/// The outcome of the first `n` steps, performed one after the other; the
/// first refused step refuses them all.
pub open spec fn steps_outcome(
    tok: TokenState,
    comp: ComplianceState,
    reg: RegistryState,
    steps: Seq<LedgerStep>,
    n: nat,
) -> Result<(TokenState, ComplianceState), ERC3643Error>
    decreases n,
{
    if n == 0 {
        Ok((tok, comp))
    } else {
        match steps_outcome(tok, comp, reg, steps, (n - 1) as nat) {
            Err(e) => Err(e),
            Ok((t, c)) => step_outcome(t, c, reg, steps[n - 1]),
        }
    }
}

/// No arithmetic of the first `n` steps overflows.
pub open spec fn steps_fit(
    tok: TokenState,
    comp: ComplianceState,
    reg: RegistryState,
    steps: Seq<LedgerStep>,
    n: nat,
) -> bool
    decreases n,
{
    if n == 0 {
        true
    } else {
        &&& steps_fit(tok, comp, reg, steps, (n - 1) as nat)
        &&& match steps_outcome(tok, comp, reg, steps, (n - 1) as nat) {
            Err(_) => true,
            Ok((t, c)) => step_fits(t, c, reg, steps[n - 1]),
        }
    }
}

/// Once a step is refused, so are all longer runs, with the same error.
pub proof fn lemma_refusal_persists(
    tok: TokenState,
    comp: ComplianceState,
    reg: RegistryState,
    steps: Seq<LedgerStep>,
    i: nat,
    n: nat,
)
    requires
        i <= n,
        steps_outcome(tok, comp, reg, steps, i) is Err,
    ensures
        steps_outcome(tok, comp, reg, steps, n) == steps_outcome(tok, comp, reg, steps, i),
    decreases n - i,
{
    if i < n {
        lemma_refusal_persists(tok, comp, reg, steps, i, (n - 1) as nat);
    }
}

/// A run that fits has prefixes that fit.
pub proof fn lemma_steps_fit_prefix(
    tok: TokenState,
    comp: ComplianceState,
    reg: RegistryState,
    steps: Seq<LedgerStep>,
    i: nat,
    n: nat,
)
    requires
        i <= n,
        steps_fit(tok, comp, reg, steps, n),
    ensures
        steps_fit(tok, comp, reg, steps, i),
    decreases n - i,
{
    if i < n {
        lemma_steps_fit_prefix(tok, comp, reg, steps, i, (n - 1) as nat);
    }
}

/// After a refused step nothing more is performed, so nothing more can
/// overflow: a run that fits up to the refusal fits to any length.
pub proof fn lemma_fits_after_refusal(
    tok: TokenState,
    comp: ComplianceState,
    reg: RegistryState,
    steps: Seq<LedgerStep>,
    i: nat,
    n: nat,
)
    requires
        i <= n,
        steps_outcome(tok, comp, reg, steps, i) is Err,
        steps_fit(tok, comp, reg, steps, i),
    ensures
        steps_fit(tok, comp, reg, steps, n),
    decreases n - i,
{
    if i < n {
        lemma_fits_after_refusal(tok, comp, reg, steps, i, (n - 1) as nat);
        lemma_refusal_persists(tok, comp, reg, steps, i, (n - 1) as nat);
    }
}

/// The transfers of `to_list[i]` of `amounts[i]` from one sender.
pub open spec fn transfers_from(from: AccountId, to_list: Seq<AccountId>, amounts: Seq<i128>, checked: bool) -> Seq<
    LedgerStep,
> {
    Seq::new(
        to_list.len(),
        |i: int| LedgerStep::Transfer { from, to: to_list[i], amount: amounts[i], checked },
    )
}

/// The transfers of `amounts[i]` from `from_list[i]` to `to_list[i]`.
pub open spec fn transfers_between(
    from_list: Seq<AccountId>,
    to_list: Seq<AccountId>,
    amounts: Seq<i128>,
    checked: bool,
) -> Seq<LedgerStep> {
    Seq::new(
        from_list.len(),
        |i: int| LedgerStep::Transfer { from: from_list[i], to: to_list[i], amount: amounts[i], checked },
    )
}

/// The mints of `amounts[i]` to `to_list[i]`.
pub open spec fn mints(to_list: Seq<AccountId>, amounts: Seq<i128>) -> Seq<LedgerStep> {
    Seq::new(to_list.len(), |i: int| LedgerStep::Mint { to: to_list[i], amount: amounts[i] })
}

/// The registry against which a run of burns is stated. A burn consults no
/// registry, so any would do; this one is empty.
pub open spec fn burns_outcome_registry() -> RegistryState {
    RegistryState {
        address: 0,
        admin: 0,
        agents: Map::empty(),
        identities: Map::empty(),
        registered: Seq::empty(),
        allowed_countries: Seq::empty(),
    }
}

/// The burns of `amounts[i]` from `users[i]`.
pub open spec fn burns(users: Seq<AccountId>, amounts: Seq<i128>) -> Seq<LedgerStep> {
    Seq::new(users.len(), |i: int| LedgerStep::Burn { from: users[i], amount: amounts[i] })
}

/// The freeze flags after `users[i]` is set to `freeze[i]` for each of the
/// first `n` items, in order.
pub open spec fn frozen_after(frozen: Map<AccountId, bool>, users: Seq<AccountId>, freeze: Seq<bool>, n: nat) -> Map<
    AccountId,
    bool,
>
    decreases n,
{
    if n == 0 {
        frozen
    } else {
        frozen_after(frozen, users, freeze, (n - 1) as nat).insert(users[n - 1], freeze[n - 1])
    }
}

} // verus!
