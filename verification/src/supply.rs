//! The sum of all balances, and the invariant that ties it to the total
//! supply: mints, burns, transfers between two different accounts and
//! recoveries into an empty wallet keep the two equal.
use vstd::prelude::*;

use crate::compliance::ComplianceState;
use crate::identity_registry::RegistryState;
use crate::ledger::amount_in;
use crate::token_state::{
    burns, burns_outcome_registry, lemma_steps_fit_prefix, mints, step_fits, step_outcome, steps_fit,
    steps_outcome, LedgerStep, TokenState,
};
use crate::AccountId;

verus! {

/// The sum of the amounts stored for the accounts of `keys`.
pub open spec fn sum_over(m: Map<AccountId, i128>, keys: Set<AccountId>) -> int
    decreases keys.len(),
    when keys.finite()
{
    if keys.len() == 0 {
        0
    } else {
        let k = keys.choose();
        amount_in(m, k) + sum_over(m, keys.remove(k))
    }
}

/// The sum of all balances.
pub open spec fn balance_total(balances: Map<AccountId, i128>) -> int {
    sum_over(balances, balances.dom())
}

/// The token holds as many tokens in balances as it has supplied.
pub open spec fn supply_matches(tok: TokenState) -> bool {
    tok.balances.dom().finite() && balance_total(tok.balances) == tok.total_supply
}

/// A token with no balance and no supply holds as many tokens as it has
/// supplied.
pub proof fn law_new_token_supply_matches(tok: TokenState)
    requires
        tok.balances.dom().is_empty(),
        tok.total_supply == 0,
    ensures
        supply_matches(tok),
{
    assert(tok.balances.dom() =~= Set::empty());
}

/// Any one account of the set can be taken out of the sum first.
pub proof fn lemma_sum_over_remove(m: Map<AccountId, i128>, keys: Set<AccountId>, a: AccountId)
    requires
        keys.finite(),
        keys.contains(a),
    ensures
        sum_over(m, keys) == amount_in(m, a) + sum_over(m, keys.remove(a)),
    decreases keys.len(),
{
    let k = keys.choose();
    if k != a {
        lemma_sum_over_remove(m, keys.remove(k), a);
        lemma_sum_over_remove(m, keys.remove(a), k);
        assert(keys.remove(k).remove(a) =~= keys.remove(a).remove(k));
    }
}

/// Two maps that agree on a set of accounts have the same sum over it.
pub proof fn lemma_sum_over_agree(m1: Map<AccountId, i128>, m2: Map<AccountId, i128>, keys: Set<AccountId>)
    requires
        keys.finite(),
        forall|k: AccountId| keys.contains(k) ==> amount_in(m1, k) == amount_in(m2, k),
    ensures
        sum_over(m1, keys) == sum_over(m2, keys),
    decreases keys.len(),
{
    if keys.len() > 0 {
        let k = keys.choose();
        lemma_sum_over_agree(m1, m2, keys.remove(k));
    }
}

/// Writing `v` for `k` changes the sum of all balances by `v` less what was
/// stored for `k`.
pub proof fn lemma_balance_total_insert(m: Map<AccountId, i128>, k: AccountId, v: i128)
    requires
        m.dom().finite(),
    ensures
        m.insert(k, v).dom().finite(),
        balance_total(m.insert(k, v)) == balance_total(m) - amount_in(m, k) + v,
{
    let m2 = m.insert(k, v);
    let d2 = m2.dom();
    assert(d2 =~= m.dom().insert(k));
    lemma_sum_over_remove(m2, d2, k);
    lemma_sum_over_agree(m2, m, d2.remove(k));
    if m.dom().contains(k) {
        lemma_sum_over_remove(m, m.dom(), k);
        assert(d2.remove(k) =~= m.dom().remove(k));
    } else {
        assert(d2.remove(k) =~= m.dom());
    }
}

/// A mint, a burn and a transfer keep the sum of the balances equal to the
/// total supply.
pub proof fn law_step_keeps_supply(
    tok: TokenState,
    comp: ComplianceState,
    reg: RegistryState,
    step: LedgerStep,
)
    requires
        supply_matches(tok),
        step_fits(tok, comp, reg, step),
    ensures
        step_outcome(tok, comp, reg, step) matches Ok((t, c)) ==> supply_matches(t),
{
    match step {
        LedgerStep::Transfer { from, to, amount, checked } => {
            if step_outcome(tok, comp, reg, step) is Ok {
                let m1 = tok.balances.insert(from, (tok.balance_of(from) - amount) as i128);
                lemma_balance_total_insert(tok.balances, from, (tok.balance_of(from) - amount) as i128);
                lemma_balance_total_insert(m1, to, (tok.balance_of(to) + amount) as i128);
            }
        },
        LedgerStep::Mint { to, amount } => {
            if step_outcome(tok, comp, reg, step) is Ok {
                lemma_balance_total_insert(tok.balances, to, (tok.balance_of(to) + amount) as i128);
            }
        },
        LedgerStep::Burn { from, amount } => {
            if step_outcome(tok, comp, reg, step) is Ok {
                lemma_balance_total_insert(tok.balances, from, (tok.balance_of(from) - amount) as i128);
            }
        },
    }
}

/// A batch of mints, burns and transfers keeps the sum of the balances
/// equal to the total supply.
pub proof fn law_steps_keep_supply(
    tok: TokenState,
    comp: ComplianceState,
    reg: RegistryState,
    steps: Seq<LedgerStep>,
    n: nat,
)
    requires
        n <= steps.len(),
        supply_matches(tok),
        steps_fit(tok, comp, reg, steps, n),
    ensures
        steps_outcome(tok, comp, reg, steps, n) matches Ok((t, c)) ==> supply_matches(t),
    decreases n,
{
    if n > 0 {
        law_steps_keep_supply(tok, comp, reg, steps, (n - 1) as nat);
        match steps_outcome(tok, comp, reg, steps, (n - 1) as nat) {
            Err(_) => {},
            Ok((t, c)) => {
                let s = steps[n - 1];
                law_step_keeps_supply(t, c, reg, s);
            },
        }
    }
}

/// Recovering a lost wallet keeps the sum of the balances equal to the
/// total supply.
pub proof fn law_recovery_keeps_supply(tok: TokenState, lost_wallet: AccountId, new_wallet: AccountId)
    requires
        supply_matches(tok),
        tok.recovery_fits(lost_wallet, new_wallet),
    ensures
        supply_matches(tok.with_recovery(lost_wallet, new_wallet)),
{
    let m1 = tok.balances.insert(lost_wallet, 0);
    lemma_balance_total_insert(tok.balances, lost_wallet, 0);
    lemma_balance_total_insert(m1, new_wallet, (amount_in(m1, new_wallet) + tok.balance_of(lost_wallet)) as i128);
    if lost_wallet == new_wallet {
        assert(tok.with_recovery(lost_wallet, new_wallet).balances =~= m1.insert(new_wallet, tok.balance_of(lost_wallet)));
    }
}

/// Recovering a lost wallet into another empties the lost wallet and
/// moves its whole balance and frozen part to the new one: the two balances
/// together, and the two frozen parts together, stay what they were, and no
/// other account changes.
pub proof fn law_recovery_moves_everything(
    tok: TokenState,
    lost_wallet: AccountId,
    new_wallet: AccountId,
    other: AccountId,
)
    requires
        lost_wallet != new_wallet,
    ensures
        tok.with_recovery(lost_wallet, new_wallet).balance_of(lost_wallet) == 0,
        tok.with_recovery(lost_wallet, new_wallet).frozen_tokens_of(lost_wallet) == 0,
        tok.recovery_fits(lost_wallet, new_wallet) ==> {
            &&& tok.with_recovery(lost_wallet, new_wallet).balance_of(new_wallet) == tok.balance_of(new_wallet)
                + tok.balance_of(lost_wallet)
            &&& tok.with_recovery(lost_wallet, new_wallet).frozen_tokens_of(new_wallet)
                == tok.frozen_tokens_of(new_wallet) + tok.frozen_tokens_of(lost_wallet)
        },
        other != lost_wallet && other != new_wallet ==> {
            &&& tok.with_recovery(lost_wallet, new_wallet).balance_of(other) == tok.balance_of(other)
            &&& tok.with_recovery(lost_wallet, new_wallet).frozen_tokens_of(other) == tok.frozen_tokens_of(
                other,
            )
        },
        tok.with_recovery(lost_wallet, new_wallet).total_supply == tok.total_supply,
{
}

/// The sum of the first `n` amounts.
pub open spec fn amounts_total(amounts: Seq<i128>, n: nat) -> int
    decreases n,
{
    if n == 0 {
        0
    } else {
        amounts_total(amounts, (n - 1) as nat) + amounts[n - 1]
    }
}

/// A batch of mints that goes through raises the total supply by the sum
/// of its amounts.
pub proof fn law_batch_mint_raises_supply(
    tok: TokenState,
    comp: ComplianceState,
    reg: RegistryState,
    to_list: Seq<AccountId>,
    amounts: Seq<i128>,
    n: nat,
)
    requires
        to_list.len() == amounts.len(),
        n <= to_list.len(),
        steps_fit(tok, comp, reg, mints(to_list, amounts), n),
    ensures
        steps_outcome(tok, comp, reg, mints(to_list, amounts), n) matches Ok((t, c))
            ==> t.total_supply == tok.total_supply + amounts_total(amounts, n),
    decreases n,
{
    if n > 0 {
        lemma_steps_fit_prefix(tok, comp, reg, mints(to_list, amounts), (n - 1) as nat, n);
        law_batch_mint_raises_supply(tok, comp, reg, to_list, amounts, (n - 1) as nat);
        assert(mints(to_list, amounts)[n - 1] == LedgerStep::Mint { to: to_list[n - 1], amount: amounts[n - 1] });
    }
}

/// A batch of burns that goes through lowers the total supply by the sum
/// of its amounts.
pub proof fn law_batch_burn_lowers_supply(
    tok: TokenState,
    comp: ComplianceState,
    users: Seq<AccountId>,
    amounts: Seq<i128>,
    n: nat,
)
    requires
        users.len() == amounts.len(),
        n <= users.len(),
        steps_fit(tok, comp, burns_outcome_registry(), burns(users, amounts), n),
    ensures
        steps_outcome(tok, comp, burns_outcome_registry(), burns(users, amounts), n) matches Ok((t, c))
            ==> t.total_supply == tok.total_supply - amounts_total(amounts, n),
    decreases n,
{
    if n > 0 {
        lemma_steps_fit_prefix(tok, comp, burns_outcome_registry(), burns(users, amounts), (n - 1) as nat, n);
        law_batch_burn_lowers_supply(tok, comp, users, amounts, (n - 1) as nat);
        assert(burns(users, amounts)[n - 1] == LedgerStep::Burn { from: users[n - 1], amount: amounts[n - 1] });
    }
}

} // verus!
