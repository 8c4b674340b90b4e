//! The compliance module of an ERC-3643 token: a cumulative limit on what
//! each account may receive, and the running total of what it has received.
//!
//! A limit of zero, the default, means no limit; any other limit admits a
//! receipt when `received + amount <= limit`, cumulatively over every
//! transfer, mint and burn that the token reports.
use std::collections::HashMap;
use vstd::prelude::*;

use crate::ledger::{amount_in, read_amount, write_amount};
use crate::AccountId;

verus! {

broadcast use vstd::std_specs::hash::group_hash_axioms;

/// The errors of the compliance contract.
#[derive(Clone, Copy, Debug, PartialEq, Eq, Structural, PartialOrd, Ord)]
pub enum ComplianceError {
    /// Contract already initialized
    AlreadyInitialized,
    /// Caller is not authorized
    Unauthorized,
    /// No token is bound to this compliance contract
    NoTokenBound,
    /// Transfer limit exceeded
    TransferLimitExceeded,
}

/// What the compliance contract keeps in its storage.
pub struct ComplianceState {
    pub address: AccountId,
    pub admin: AccountId,
    pub bound_token: Option<AccountId>,
    pub transfer_limits: Map<AccountId, i128>,
    pub transferred: Map<AccountId, i128>,
}

impl ComplianceState {
    /// The limit on what `user` may receive in all; zero means no limit.
    pub open spec fn limit_of(self, user: AccountId) -> i128 {
        amount_in(self.transfer_limits, user)
    }

    /// What `user` has received so far, as reported by the token.
    pub open spec fn received_of(self, user: AccountId) -> i128 {
        amount_in(self.transferred, user)
    }

    /// The rule of `can_transfer`: `to` has no limit (a limit of zero), or
    /// stays within it after receiving `amount`.
    pub open spec fn allows(self, to: AccountId, amount: i128) -> bool {
        self.limit_of(to) == 0 || self.received_of(to) + amount <= self.limit_of(to)
    }

    /// Checking a receipt against the limit does not overflow.
    pub open spec fn check_fits(self, to: AccountId, amount: i128) -> bool {
        self.limit_of(to) != 0 ==> self.receipt_fits(to, amount)
    }

    /// `received_of(to) + amount` is an `i128`, so the check and the record
    /// of a receipt do not overflow.
    pub open spec fn receipt_fits(self, to: AccountId, amount: i128) -> bool {
        i128::MIN <= self.received_of(to) + amount <= i128::MAX
    }

    /// The state after `to` received `amount`.
    pub open spec fn with_receipt(self, to: AccountId, amount: i128) -> ComplianceState {
        ComplianceState {
            address: self.address,
            admin: self.admin,
            bound_token: self.bound_token,
            transfer_limits: self.transfer_limits,
            transferred: self.transferred.insert(to, (self.received_of(to) + amount) as i128),
        }
    }

    /// What is left of `received` after `amount` is burned from the account:
    /// the difference, or zero when the amount is not below `received`.
    pub open spec fn released(received: i128, amount: i128) -> int {
        if received > amount {
            received - amount
        } else {
            0
        }
    }

    /// Burning `amount` from `from` does not overflow.
    pub open spec fn release_fits(self, from: AccountId, amount: i128) -> bool {
        Self::released(self.received_of(from), amount) <= i128::MAX
    }

    /// The state after `amount` was burned from `from`.
    pub open spec fn with_release(self, from: AccountId, amount: i128) -> ComplianceState {
        ComplianceState {
            address: self.address,
            admin: self.admin,
            bound_token: self.bound_token,
            transfer_limits: self.transfer_limits,
            transferred: self.transferred.insert(
                from,
                Self::released(self.received_of(from), amount) as i128,
            ),
        }
    }
}

/// The compliance contract.
pub struct MockCompliance {
    address: AccountId,
    admin: AccountId,
    bound_token: Option<AccountId>,
    transfer_limits: HashMap<AccountId, i128>,
    transferred: HashMap<AccountId, i128>,
}

impl View for MockCompliance {
    type V = ComplianceState;

    closed spec fn view(&self) -> ComplianceState {
        ComplianceState {
            address: self.address,
            admin: self.admin,
            bound_token: self.bound_token,
            transfer_limits: self.transfer_limits@,
            transferred: self.transferred@,
        }
    }
}

impl MockCompliance {
    /// Deploys the contract at `address` with `admin` as its administrator:
    /// no token is bound, no limit is set and nothing has been received.
    pub fn new(address: AccountId, admin: AccountId) -> (c: Self)
        ensures
            c@.address == address,
            c@.admin == admin,
            c@.bound_token is None,
            c@.transfer_limits.is_empty(),
            c@.transferred.is_empty(),
    {
        MockCompliance {
            address,
            admin,
            bound_token: None,
            transfer_limits: HashMap::new(),
            transferred: HashMap::new(),
        }
    }

    /// The address the contract is deployed at.
    pub fn address(&self) -> (r: AccountId)
        ensures
            r == self@.address,
    {
        self.address
    }

    /// A copy of the contract's state.
    pub(crate) fn snapshot(&self) -> (r: Self)
        ensures
            r@ == self@,
    {
        MockCompliance {
            address: self.address,
            admin: self.admin,
            bound_token: self.bound_token,
            transfer_limits: self.transfer_limits.clone(),
            transferred: self.transferred.clone(),
        }
    }

    /// Whether checking a receipt of `amount` by `to` against its limit can
    /// be done without overflowing.
    pub fn check_fits_now(&self, to: AccountId, amount: i128) -> (r: bool)
        ensures
            r == self@.check_fits(to, amount),
    {
        read_amount(&self.transfer_limits, to) == 0 || self.receipt_fits_now(to, amount)
    }

    /// Whether recording a receipt of `amount` by `to` can be done without
    /// overflowing.
    pub fn receipt_fits_now(&self, to: AccountId, amount: i128) -> (r: bool)
        ensures
            r == self@.receipt_fits(to, amount),
    {
        read_amount(&self.transferred, to).checked_add(amount).is_some()
    }

    /// Whether recording a burn of `amount` from `from` can be done without
    /// overflowing.
    pub fn release_fits_now(&self, from: AccountId, amount: i128) -> (r: bool)
        ensures
            r == self@.release_fits(from, amount),
    {
        let current = read_amount(&self.transferred, from);
        current <= amount || current.checked_sub(amount).is_some()
    }

    /// Binds the contract to `token`, replacing any earlier binding.
    pub fn bind_token(&mut self, token: AccountId)
        ensures
            final(self)@ == (ComplianceState { bound_token: Some(token), ..old(self)@ }),
    {
        self.bound_token = Some(token);
    }

    /// Unbinds `token` if it is the bound token; otherwise changes nothing.
    pub fn unbind_token(&mut self, token: AccountId)
        ensures
            old(self)@.bound_token == Some(token) ==> final(self)@ == (ComplianceState {
                bound_token: None,
                ..old(self)@
            }),
            old(self)@.bound_token != Some(token) ==> final(self)@ == old(self)@,
    {
        match self.bound_token {
            Some(bound) => {
                if bound == token {
                    self.bound_token = None;
                }
            },
            None => {},
        }
    }

    /// Whether `token` is the bound token.
    pub fn is_token_bound(&self, token: AccountId) -> (r: bool)
        ensures
            r == (self@.bound_token == Some(token)),
    {
        match self.bound_token {
            Some(bound) => bound == token,
            None => false,
        }
    }

    /// The bound token, or `NoTokenBound` when there is none.
    pub fn get_token_bound(&self) -> (r: Result<AccountId, ComplianceError>)
        ensures
            r == (match self@.bound_token {
                Some(t) => Ok::<AccountId, ComplianceError>(t),
                None => Err(ComplianceError::NoTokenBound),
            }),
    {
        match self.bound_token {
            Some(t) => Ok(t),
            None => Err(ComplianceError::NoTokenBound),
        }
    }

    /// Whether `to` may receive `amount`: it has no limit, or does not go
    /// over it.
    pub fn can_transfer(&self, from: AccountId, to: AccountId, amount: i128) -> (r: bool)
        requires
            self@.check_fits(to, amount),
        ensures
            r == self@.allows(to, amount),
    {
        let limit = read_amount(&self.transfer_limits, to);
        if limit == 0 {
            return true;
        }
        let current = read_amount(&self.transferred, to);
        let new_total = current + amount;
        new_total <= limit
    }

    /// Records that `to` received `amount` in a transfer.
    pub fn transferred(&mut self, from: AccountId, to: AccountId, amount: i128)
        requires
            old(self)@.receipt_fits(to, amount),
        ensures
            final(self)@ == old(self)@.with_receipt(to, amount),
    {
        let current = read_amount(&self.transferred, to);
        write_amount(&mut self.transferred, to, current + amount);
    }

    /// Records that `amount` was minted to `to`; minting counts toward the
    /// limit as a receipt does.
    pub fn created(&mut self, to: AccountId, amount: i128)
        requires
            old(self)@.receipt_fits(to, amount),
        ensures
            final(self)@ == old(self)@.with_receipt(to, amount),
    {
        let current = read_amount(&self.transferred, to);
        write_amount(&mut self.transferred, to, current + amount);
    }

    /// Records that `amount` was burned from `from`: what it has received
    /// goes down by the amount, and not below zero.
    pub fn destroyed(&mut self, from: AccountId, amount: i128)
        requires
            old(self)@.release_fits(from, amount),
        ensures
            final(self)@ == old(self)@.with_release(from, amount),
    {
        let current = read_amount(&self.transferred, from);
        let new_amount = if current > amount {
            current - amount
        } else {
            0
        };
        write_amount(&mut self.transferred, from, new_amount);
    }

    /// Sets the limit on what `user` may receive in all; zero means no
    /// limit.
    pub fn set_transfer_limit(&mut self, user: AccountId, limit: i128)
        ensures
            final(self)@ == (ComplianceState {
                transfer_limits: old(self)@.transfer_limits.insert(user, limit),
                ..old(self)@
            }),
    {
        write_amount(&mut self.transfer_limits, user, limit);
    }

    /// The limit on what `user` may receive in all.
    pub fn get_transfer_limit(&self, user: AccountId) -> (r: i128)
        ensures
            r == self@.limit_of(user),
    {
        read_amount(&self.transfer_limits, user)
    }

    /// What `user` has received so far.
    pub fn get_transferred_amount(&self, user: AccountId) -> (r: i128)
        ensures
            r == self@.received_of(user),
    {
        read_amount(&self.transferred, user)
    }

    /// Sets what `user` has received back to zero.
    pub fn reset_transferred_amount(&mut self, user: AccountId)
        ensures
            final(self)@ == (ComplianceState {
                transferred: old(self)@.transferred.insert(user, 0),
                ..old(self)@
            }),
    {
        write_amount(&mut self.transferred, user, 0);
    }

    /// The administrator.
    pub fn get_admin(&self) -> (r: AccountId)
        ensures
            r == self@.admin,
    {
        self.admin
    }
}

} // verus!
