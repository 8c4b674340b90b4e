//! Properties that hold across operations of the token, the compliance
//! module and the identity registry, stated over the states that the
//! operations' contracts speak of.
use vstd::prelude::*;

use crate::compliance::ComplianceState;
use crate::identity_registry::{
    batch_newcomer, lemma_registered_batch_shape, registered_batch, set_verified, with_country,
    without_country, IdentityInfo, RegistryState,
};
use crate::ledger::flag_in;
use crate::token_state::{
    allowance_key, burns, fits, frozen_after, lemma_allowance_key_injective, lemma_refusal_persists,
    mints, step_fits, step_outcome, steps_outcome, transfers_between, transfers_from, AllowanceInfo,
    ERC3643Error, LedgerStep, TokenState,
};
use crate::AccountId;

verus! {

/// A transfer moves `amount` from one account to another: their sum, every other balance and the total supply stay as they
/// were.
pub proof fn law_transfer_conserves_balances(
    tok: TokenState,
    comp: ComplianceState,
    reg: RegistryState,
    from: AccountId,
    to: AccountId,
    amount: i128,
    checked: bool,
    other: AccountId,
)
    requires
        step_fits(tok, comp, reg, LedgerStep::Transfer { from, to, amount, checked }),
    ensures
        step_outcome(tok, comp, reg, LedgerStep::Transfer { from, to, amount, checked }) matches Ok(
            (t, c),
        ) ==> {
            &&& t.balance_of(from) == tok.balance_of(from) - amount
            &&& t.balance_of(to) == tok.balance_of(to) + amount
            &&& t.balance_of(from) + t.balance_of(to) == tok.balance_of(from) + tok.balance_of(to)
            &&& (other != from && other != to ==> t.balance_of(other) == tok.balance_of(other))
            &&& t.total_supply == tok.total_supply
        },
{
}

/// A checked transfer never takes the receiver past a compliance limit it
/// has, and adds exactly `amount` to what it has received.
pub proof fn law_checked_transfer_respects_limit(
    tok: TokenState,
    comp: ComplianceState,
    reg: RegistryState,
    from: AccountId,
    to: AccountId,
    amount: i128,
)
    requires
        step_fits(tok, comp, reg, LedgerStep::Transfer { from, to, amount, checked: true }),
    ensures
        step_outcome(tok, comp, reg, LedgerStep::Transfer { from, to, amount, checked: true }) matches Ok(
            (t, c),
        ) ==> {
            &&& c.received_of(to) == comp.received_of(to) + amount
            &&& (c.limit_of(to) != 0 ==> c.received_of(to) <= c.limit_of(to))
        },
{
}

/// A checked transfer never spends frozen tokens: the sender keeps at least
/// its frozen part.
pub proof fn law_checked_transfer_spares_frozen_tokens(
    tok: TokenState,
    comp: ComplianceState,
    reg: RegistryState,
    from: AccountId,
    to: AccountId,
    amount: i128,
)
    requires
        step_fits(tok, comp, reg, LedgerStep::Transfer { from, to, amount, checked: true }),
    ensures
        step_outcome(tok, comp, reg, LedgerStep::Transfer { from, to, amount, checked: true }) matches Ok(
            (t, c),
        ) ==> t.balance_of(from) >= t.frozen_tokens_of(from),
{
}

/// While the token is paused, every transfer, forced or not, is refused
/// with `TokenPaused`.
pub proof fn law_paused_token_refuses_transfers(
    tok: TokenState,
    comp: ComplianceState,
    reg: RegistryState,
    from: AccountId,
    to: AccountId,
    amount: i128,
    checked: bool,
)
    requires
        tok.paused,
    ensures
        step_outcome(tok, comp, reg, LedgerStep::Transfer { from, to, amount, checked }) == Err::<
            (TokenState, ComplianceState),
            ERC3643Error,
        >(ERC3643Error::TokenPaused),
{
}

/// A transfer to oneself, forced or not, is refused with `SelfTransfer`
/// unless the token is paused, and creates no tokens.
pub proof fn law_self_transfer_refused(
    tok: TokenState,
    comp: ComplianceState,
    reg: RegistryState,
    account: AccountId,
    amount: i128,
    checked: bool,
)
    requires
        !tok.paused,
    ensures
        step_outcome(
            tok,
            comp,
            reg,
            LedgerStep::Transfer { from: account, to: account, amount, checked },
        ) == Err::<(TokenState, ComplianceState), ERC3643Error>(ERC3643Error::SelfTransfer),
{
}

/// A frozen wallet cannot send to another account with a transfer, but a
/// forced transfer out of it is not refused for that reason.
pub proof fn law_frozen_sender(
    tok: TokenState,
    comp: ComplianceState,
    reg: RegistryState,
    from: AccountId,
    to: AccountId,
    amount: i128,
)
    requires
        !tok.paused,
        from != to,
        tok.is_frozen(from),
    ensures
        step_outcome(tok, comp, reg, LedgerStep::Transfer { from, to, amount, checked: true }) == Err::<
            (TokenState, ComplianceState),
            ERC3643Error,
        >(ERC3643Error::FrozenWallet),
        !tok.is_frozen(to) && reg.verifies(to) && tok.balance_of(from) >= amount ==> step_outcome(
            tok,
            comp,
            reg,
            LedgerStep::Transfer { from, to, amount, checked: false },
        ) is Ok,
{
}

/// Tokens reach only verified receivers: a transfer or a mint to an account
/// that the registry does not verify is refused.
pub proof fn law_only_verified_receivers(
    tok: TokenState,
    comp: ComplianceState,
    reg: RegistryState,
    from: AccountId,
    to: AccountId,
    amount: i128,
    checked: bool,
)
    requires
        !reg.verifies(to),
    ensures
        step_outcome(tok, comp, reg, LedgerStep::Transfer { from, to, amount, checked }) is Err,
        step_outcome(tok, comp, reg, LedgerStep::Mint { to, amount }) == Err::<
            (TokenState, ComplianceState),
            ERC3643Error,
        >(ERC3643Error::InvalidIdentity),
{
}

/// A mint and a burn change the total supply by exactly what they change
/// the account's balance by.
pub proof fn law_supply_follows_mint_and_burn(
    tok: TokenState,
    comp: ComplianceState,
    reg: RegistryState,
    account: AccountId,
    amount: i128,
)
    requires
        step_fits(tok, comp, reg, LedgerStep::Mint { to: account, amount }),
        step_fits(tok, comp, reg, LedgerStep::Burn { from: account, amount }),
    ensures
        step_outcome(tok, comp, reg, LedgerStep::Mint { to: account, amount }) matches Ok((t, c))
            ==> t.total_supply - tok.total_supply == amount && t.balance_of(account) - tok.balance_of(
            account,
        ) == amount,
        step_outcome(tok, comp, reg, LedgerStep::Burn { from: account, amount }) matches Ok((t, c))
            ==> tok.total_supply - t.total_supply == amount && tok.balance_of(account) - t.balance_of(
            account,
        ) == amount,
{
}

/// Burning what was just minted to an account gives back its balance and
/// the total supply; what the compliance module counts as received comes
/// back too when it was not negative.
pub proof fn law_burn_undoes_mint(
    tok: TokenState,
    comp: ComplianceState,
    reg: RegistryState,
    account: AccountId,
    amount: i128,
)
    requires
        reg.verifies(account),
        tok.balance_of(account) >= 0,
        step_fits(tok, comp, reg, LedgerStep::Mint { to: account, amount }),
    ensures
        ({
            let (t1, c1) = step_outcome(tok, comp, reg, LedgerStep::Mint { to: account, amount })->Ok_0;
            step_outcome(t1, c1, reg, LedgerStep::Burn { from: account, amount }) matches Ok((t2, c2))
                && t2.balances == tok.balances.insert(account, tok.balance_of(account))
                && t2.total_supply == tok.total_supply && (comp.received_of(account) >= 0
                ==> c2.received_of(account) == comp.received_of(account))
        }),
{
    let t1 = tok.with_mint(account, amount);
    let t2 = t1.with_burn(account, amount);
    assert(t2.balances =~= tok.balances.insert(account, tok.balance_of(account)));
}

/// Freezing part of a balance and then unfreezing the same amount leaves the
/// frozen part as it was.
pub proof fn law_unfreeze_undoes_freeze(tok: TokenState, user: AccountId, amount: i128)
    requires
        tok.frozen_tokens_of(user) >= 0,
        fits(tok.frozen_tokens_of(user) + amount),
    ensures
        ({
            let frozen = (tok.frozen_tokens_of(user) + amount) as i128;
            let t1 = TokenState { frozen_tokens: tok.frozen_tokens.insert(user, frozen), ..tok };
            &&& amount <= t1.frozen_tokens_of(user)
            &&& t1.frozen_tokens_of(user) - amount == tok.frozen_tokens_of(user)
        }),
{
}

/// Approving a spender sets its allowance over the owner's tokens and leaves
/// every other pair's allowance as it was.
pub proof fn law_approve_sets_one_allowance(
    tok: TokenState,
    from: AccountId,
    spender: AccountId,
    amount: i128,
    expiration_ledger: u32,
    other_from: AccountId,
    other_spender: AccountId,
)
    requires
        other_from != from || other_spender != spender,
    ensures
        ({
            let t = TokenState {
                allowances: tok.allowances.insert(
                    allowance_key(from, spender),
                    AllowanceInfo { amount, expiration_ledger },
                ),
                ..tok
            };
            &&& t.allowance_of(from, spender) == AllowanceInfo { amount, expiration_ledger }
            &&& t.allowance_of(other_from, other_spender) == tok.allowance_of(other_from, other_spender)
        }),
{
    lemma_allowance_key_injective(from, spender, other_from, other_spender);
}

/// Spending an allowance lowers it by exactly the amount spent, unless it
/// was not positive, in which case it stays.
pub proof fn law_spend_lowers_allowance(tok: TokenState, from: AccountId, spender: AccountId, amount: i128)
    requires
        tok.spend_fits(from, spender, amount),
        tok.allowance_of(from, spender).amount >= amount,
    ensures
        tok.allowance_of(from, spender).amount > 0 ==> tok.with_spend(from, spender, amount).allowance_of(
            from,
            spender,
        ).amount == tok.allowance_of(from, spender).amount - amount,
        tok.allowance_of(from, spender).amount <= 0 ==> tok.with_spend(from, spender, amount)
            == tok,
        tok.with_spend(from, spender, amount).allowance_of(from, spender).expiration_ledger
            == tok.allowance_of(from, spender).expiration_ledger,
{
}

/// An item is in a sequence with one more item pushed exactly when it is
/// that item or was in the sequence already.
pub proof fn lemma_push_contains(s: Seq<u32>, x: u32, y: u32)
    ensures
        s.push(x).contains(y) <==> (s.contains(y) || x == y),
{
    if s.push(x).contains(y) {
        let k = choose|k: int| 0 <= k < s.push(x).len() && s.push(x)[k] == y;
        if k < s.len() {
            assert(s[k] == y);
        }
    }
    if s.contains(y) {
        let k = choose|k: int| 0 <= k < s.len() && s[k] == y;
        assert(s.push(x)[k] == y);
    }
    if x == y {
        assert(s.push(x)[s.len() as int] == y);
    }
}

/// After `remove_allowed_country(country)` the country is no longer allowed,
/// and every other allowed country still is.
pub proof fn law_removed_country_is_gone(list: Seq<u32>, country: u32, other: u32)
    requires
        other != country,
    ensures
        !without_country(list, country).contains(country),
        without_country(list, country).contains(other) <==> list.contains(other),
    decreases list.len(),
{
    if list.len() > 0 {
        let init = list.drop_last();
        let last = list.last();
        law_removed_country_is_gone(init, country, other);
        let rest = without_country(init, country);
        assert(list == init.push(last));
        lemma_push_contains(init, last, other);
        lemma_push_contains(rest, last, other);
        lemma_push_contains(rest, last, country);
    }
}

/// Adding an allowed country makes it allowed, and adding it again changes
/// nothing.
pub proof fn law_add_country_is_idempotent(list: Seq<u32>, country: u32)
    ensures
        with_country(list, country).contains(country),
        with_country(with_country(list, country), country) == with_country(list, country),
{
    if !list.contains(country) {
        assert(list.push(country)[list.len() as int] == country);
    }
}

/// Once `country` is allowed, every account registered with that country is
/// verified.
pub proof fn law_allowed_country_verifies(reg: RegistryState, user: AccountId, country: u32)
    requires
        reg.identities.contains_key(user),
        reg.identities[user].country == country,
    ensures
        (RegistryState { allowed_countries: with_country(reg.allowed_countries, country), ..reg }).verifies(
            user,
        ),
{
    law_add_country_is_idempotent(reg.allowed_countries, country);
}

/// An account whose identity was deleted is not verified.
pub proof fn law_deleted_identity_is_unverified(reg: RegistryState, user: AccountId)
    ensures
        !(RegistryState { identities: reg.identities.remove(user), ..reg }).verifies(user),
{
}

/// After the received amount is reset, a receipt is allowed exactly when
/// there is no limit or it is within the limit.
pub proof fn law_reset_restores_full_limit(comp: ComplianceState, user: AccountId, amount: i128)
    ensures
        (ComplianceState { transferred: comp.transferred.insert(user, 0), ..comp }).allows(
            user,
            amount,
        ) <==> (comp.limit_of(user) == 0 || amount <= comp.limit_of(user)),
{
}

/// Receipts add up: two receipts count as one of their sum.
pub proof fn law_receipts_accumulate(comp: ComplianceState, to: AccountId, a: i128, b: i128)
    requires
        comp.receipt_fits(to, a),
        comp.with_receipt(to, a).receipt_fits(to, b),
    ensures
        comp.with_receipt(to, a).with_receipt(to, b).received_of(to) == comp.received_of(to) + a + b,
        comp.with_receipt(to, a).allows(to, b) <==> (comp.limit_of(to) == 0 || comp.received_of(to)
            + a + b <= comp.limit_of(to)),
{
}

/// An agent just added is an agent; one just removed is not.
pub proof fn law_agent_membership(tok: TokenState, reg: RegistryState, agent: AccountId)
    ensures
        (TokenState { agents: tok.agents.insert(agent, true), ..tok }).has_agent(agent),
        !(TokenState { agents: tok.agents.remove(agent), ..tok }).has_agent(agent),
        (RegistryState { agents: reg.agents.insert(agent, true), ..reg }).has_agent(agent),
        !(RegistryState { agents: reg.agents.remove(agent), ..reg }).has_agent(agent),
{
}

/// A token just bound is the bound token; once unbound, no token is.
pub proof fn law_bind_then_unbind(comp: ComplianceState, token: AccountId)
    ensures
        (ComplianceState { bound_token: Some(token), ..comp }).bound_token == Some(token),
        ({
            let bound = ComplianceState { bound_token: Some(token), ..comp };
            let unbound = if bound.bound_token == Some(token) {
                ComplianceState { bound_token: None, ..bound }
            } else {
                bound
            };
            unbound.bound_token is None
        }),
{
}

/// A receiver with a limit of zero has no limit: every receipt is allowed.
pub proof fn law_zero_limit_is_unlimited(comp: ComplianceState, to: AccountId, amount: i128)
    requires
        comp.limit_of(to) == 0,
    ensures
        comp.allows(to, amount),
{
}

/// A mint counts toward the receiver's limit as a transfer does.
pub proof fn law_mint_counts_toward_limit(
    tok: TokenState,
    comp: ComplianceState,
    reg: RegistryState,
    to: AccountId,
    amount: i128,
)
    requires
        step_fits(tok, comp, reg, LedgerStep::Mint { to, amount }),
    ensures
        step_outcome(tok, comp, reg, LedgerStep::Mint { to, amount }) matches Ok((t, c))
            ==> c.received_of(to) == comp.received_of(to) + amount,
{
}

/// What is written is read back: a limit set for a user is its limit, a
/// freeze flag set for a user is its flag, and other users keep theirs.
pub proof fn law_read_after_write(
    comp: ComplianceState,
    tok: TokenState,
    user: AccountId,
    other: AccountId,
    limit: i128,
    freeze: bool,
)
    requires
        other != user,
    ensures
        (ComplianceState { transfer_limits: comp.transfer_limits.insert(user, limit), ..comp }).limit_of(
            user,
        ) == limit,
        (ComplianceState { transfer_limits: comp.transfer_limits.insert(user, limit), ..comp }).limit_of(
            other,
        ) == comp.limit_of(other),
        (TokenState { frozen: tok.frozen.insert(user, freeze), ..tok }).is_frozen(user) == freeze,
        (TokenState { frozen: tok.frozen.insert(user, freeze), ..tok }).is_frozen(other)
            == tok.is_frozen(other),
{
}

/// A registered identity reads back as registered, with its identity and
/// country.
pub proof fn law_registration_reads_back(
    reg: RegistryState,
    user: AccountId,
    identity: AccountId,
    country: u32,
)
    ensures
        ({
            let after = RegistryState {
                identities: reg.identities.insert(user, IdentityInfo { identity, country }),
                registered: reg.registered.push(user),
                ..reg
            };
            &&& after.identities.contains_key(user)
            &&& after.identities[user].identity == identity
            &&& after.identities[user].country == country
            &&& (reg.allowed_countries.len() == 0 ==> after.verifies(user))
        }),
{
}

/// A batch performs its items one after the other: a batch of one item is
/// that item alone, and a longer batch is its first items followed by its
/// last.
pub proof fn law_batch_is_sequential(
    tok: TokenState,
    comp: ComplianceState,
    reg: RegistryState,
    steps: Seq<LedgerStep>,
    n: nat,
)
    requires
        0 < n <= steps.len(),
    ensures
        steps_outcome(tok, comp, reg, seq![steps[0]], 1) == step_outcome(tok, comp, reg, steps[0]),
        steps_outcome(tok, comp, reg, steps, n) == match steps_outcome(
            tok,
            comp,
            reg,
            steps,
            (n - 1) as nat,
        ) {
            Err(e) => Err(e),
            Ok((t, c)) => step_outcome(t, c, reg, steps[n - 1]),
        },
{
    assert(steps_outcome(tok, comp, reg, seq![steps[0]], 0) == Ok::<
        (TokenState, ComplianceState),
        ERC3643Error,
    >((tok, comp)));
}

/// A list of allowed countries without repeats keeps none after a country
/// is added.
pub proof fn law_add_country_keeps_countries_distinct(list: Seq<u32>, country: u32)
    requires
        list.no_duplicates(),
    ensures
        with_country(list, country).no_duplicates(),
{
}

/// Setting an account verified directly leaves it listed as registered,
/// exactly once when the list held no account twice, and makes the registry
/// verify it when its country is admitted.
pub proof fn law_set_verified_lists_once(
    reg: RegistryState,
    user: AccountId,
    identity: AccountId,
    country: u32,
)
    requires
        reg.registered.no_duplicates(),
    ensures
        set_verified(reg, user, identity, country).registered.contains(user),
        set_verified(reg, user, identity, country).registered.no_duplicates(),
        set_verified(reg, user, identity, country).identities[user] == (IdentityInfo { identity, country }),
        (reg.allowed_countries.len() == 0 || reg.allowed_countries.contains(country)) ==> set_verified(
            reg,
            user,
            identity,
            country,
        ).verifies(user),
{
    let after = set_verified(reg, user, identity, country).registered;
    if !reg.registered.contains(user) {
        assert(after[reg.registered.len() as int] == user);
    }
}

/// No transfer, forced or not, delivers tokens to a frozen wallet: one that
/// goes through has a receiver that is not frozen, and a forced transfer
/// that is neither paused nor to the sender itself is refused with
/// `FrozenWallet` when the receiver is frozen.
pub proof fn law_frozen_receiver_gets_nothing(
    tok: TokenState,
    comp: ComplianceState,
    reg: RegistryState,
    from: AccountId,
    to: AccountId,
    amount: i128,
    checked: bool,
)
    ensures
        step_outcome(tok, comp, reg, LedgerStep::Transfer { from, to, amount, checked }) is Ok
            ==> !tok.is_frozen(to),
        !tok.paused && from != to && tok.is_frozen(to) ==> step_outcome(
            tok,
            comp,
            reg,
            LedgerStep::Transfer { from, to, amount, checked: false },
        ) == Err::<(TokenState, ComplianceState), ERC3643Error>(ERC3643Error::FrozenWallet),
{
}

/// A spender takes tokens only within an allowance that has not expired:
/// when taking `amount` at ledger `ledger` is not refused, the allowance is
/// at least `amount` and lasts at least until `ledger`; an unexpired
/// allowance below `amount` is refused with `InsufficientAllowance`, an
/// expired one with `AllowanceExpired`.
pub proof fn law_spending_needs_allowance(
    tok: TokenState,
    from: AccountId,
    spender: AccountId,
    amount: i128,
    ledger: u32,
)
    ensures
        tok.spend_refusal(from, spender, amount, ledger) is None ==> {
            &&& tok.allowance_of(from, spender).amount >= amount
            &&& tok.allowance_of(from, spender).expiration_ledger >= ledger
        },
        tok.allowance_of(from, spender).expiration_ledger >= ledger && tok.allowance_of(
            from,
            spender,
        ).amount < amount ==> tok.spend_refusal(from, spender, amount, ledger) == Some(
            ERC3643Error::InsufficientAllowance,
        ),
        tok.allowance_of(from, spender).expiration_ledger < ledger ==> tok.spend_refusal(
            from,
            spender,
            amount,
            ledger,
        ) == Some(ERC3643Error::AllowanceExpired),
{
}

/// A batch transfer from one sender is that sender's checked transfers, one
/// after the other: after the first `n` items, the next item has the outcome
/// of a checked transfer of `amounts[n]` to `to_list[n]` from the state they
/// left.
pub proof fn law_batch_transfer_is_checked_transfers(
    tok: TokenState,
    comp: ComplianceState,
    reg: RegistryState,
    from: AccountId,
    to_list: Seq<AccountId>,
    amounts: Seq<i128>,
    n: nat,
)
    requires
        to_list.len() == amounts.len(),
        n < to_list.len(),
    ensures
        steps_outcome(tok, comp, reg, transfers_from(from, to_list, amounts, true), n + 1) == match steps_outcome(
            tok,
            comp,
            reg,
            transfers_from(from, to_list, amounts, true),
            n,
        ) {
            Err(e) => Err(e),
            Ok((t, c)) => step_outcome(
                t,
                c,
                reg,
                LedgerStep::Transfer { from, to: to_list[n as int], amount: amounts[n as int], checked: true },
            ),
        },
{
}

/// A batch transfer from a frozen sender is refused with `FrozenWallet`,
/// whatever its items, unless the token is paused or its first item is to
/// the sender itself.
pub proof fn law_batch_transfer_from_frozen_sender(
    tok: TokenState,
    comp: ComplianceState,
    reg: RegistryState,
    from: AccountId,
    to_list: Seq<AccountId>,
    amounts: Seq<i128>,
)
    requires
        to_list.len() == amounts.len(),
        to_list.len() > 0,
        !tok.paused,
        tok.is_frozen(from),
        to_list[0] != from,
    ensures
        steps_outcome(tok, comp, reg, transfers_from(from, to_list, amounts, true), to_list.len())
            == Err::<(TokenState, ComplianceState), ERC3643Error>(ERC3643Error::FrozenWallet),
{
    let steps = transfers_from(from, to_list, amounts, true);
    assert(steps_outcome(tok, comp, reg, steps, 0) == Ok::<(TokenState, ComplianceState), ERC3643Error>(
        (tok, comp),
    ));
    assert(steps_outcome(tok, comp, reg, steps, 1) == Err::<(TokenState, ComplianceState), ERC3643Error>(
        ERC3643Error::FrozenWallet,
    ));
    lemma_refusal_persists(tok, comp, reg, steps, 1, to_list.len());
}

/// A batch of forced transfers is the forced transfers of its items, one
/// after the other.
pub proof fn law_batch_forced_transfer_is_forced_transfers(
    tok: TokenState,
    comp: ComplianceState,
    reg: RegistryState,
    from_list: Seq<AccountId>,
    to_list: Seq<AccountId>,
    amounts: Seq<i128>,
    n: nat,
)
    requires
        from_list.len() == to_list.len(),
        from_list.len() == amounts.len(),
        n < from_list.len(),
    ensures
        steps_outcome(tok, comp, reg, transfers_between(from_list, to_list, amounts, false), n + 1)
            == match steps_outcome(tok, comp, reg, transfers_between(from_list, to_list, amounts, false), n) {
            Err(e) => Err(e),
            Ok((t, c)) => step_outcome(
                t,
                c,
                reg,
                LedgerStep::Transfer {
                    from: from_list[n as int],
                    to: to_list[n as int],
                    amount: amounts[n as int],
                    checked: false,
                },
            ),
        },
{
}

/// A batch of mints is the mints of its items, one after the other.
pub proof fn law_batch_mint_is_mints(
    tok: TokenState,
    comp: ComplianceState,
    reg: RegistryState,
    to_list: Seq<AccountId>,
    amounts: Seq<i128>,
    n: nat,
)
    requires
        to_list.len() == amounts.len(),
        n < to_list.len(),
    ensures
        steps_outcome(tok, comp, reg, mints(to_list, amounts), n + 1) == match steps_outcome(
            tok,
            comp,
            reg,
            mints(to_list, amounts),
            n,
        ) {
            Err(e) => Err(e),
            Ok((t, c)) => step_outcome(t, c, reg, LedgerStep::Mint { to: to_list[n as int], amount: amounts[n as int] }),
        },
{
}

/// A batch of burns is the burns of its items, one after the other.
pub proof fn law_batch_burn_is_burns(
    tok: TokenState,
    comp: ComplianceState,
    reg: RegistryState,
    users: Seq<AccountId>,
    amounts: Seq<i128>,
    n: nat,
)
    requires
        users.len() == amounts.len(),
        n < users.len(),
    ensures
        steps_outcome(tok, comp, reg, burns(users, amounts), n + 1) == match steps_outcome(
            tok,
            comp,
            reg,
            burns(users, amounts),
            n,
        ) {
            Err(e) => Err(e),
            Ok((t, c)) => step_outcome(t, c, reg, LedgerStep::Burn { from: users[n as int], amount: amounts[n as int] }),
        },
{
}

/// After a batch of freeze flags, each account named in the first `n`
/// items has the flag of its last item among them, and every other account
/// keeps its flag.
pub proof fn law_batch_freeze_sets_each_flag(
    frozen: Map<AccountId, bool>,
    users: Seq<AccountId>,
    freeze: Seq<bool>,
    n: nat,
)
    requires
        users.len() == freeze.len(),
        n <= users.len(),
    ensures
        forall|i: int|
            0 <= i < n && !users.subrange(i + 1, n as int).contains(users[i]) ==> flag_in(
                #[trigger] frozen_after(frozen, users, freeze, n),
                users[i],
            ) == freeze[i],
        forall|u: AccountId|
            !users.take(n as int).contains(u) ==> flag_in(frozen_after(frozen, users, freeze, n), u)
                == flag_in(frozen, u),
    decreases n,
{
    if n > 0 {
        let m = (n - 1) as nat;
        law_batch_freeze_sets_each_flag(frozen, users, freeze, m);
        let after = frozen_after(frozen, users, freeze, n);
        assert(after == frozen_after(frozen, users, freeze, m).insert(users[m as int], freeze[m as int]));
        assert forall|i: int|
            0 <= i < n && !users.subrange(i + 1, n as int).contains(users[i]) implies flag_in(
                #[trigger] frozen_after(frozen, users, freeze, n),
                users[i],
            ) == freeze[i] by {
            if i < m {
                assert(users.subrange(i + 1, n as int)[m - i - 1] == users[m as int]);
                assert(users[i] != users[m as int]);
                if users.subrange(i + 1, m as int).contains(users[i]) {
                    let k = choose|k: int| 0 <= k < m - i - 1 && #[trigger] users.subrange(i + 1, m as int)[k] == users[i];
                    assert(users.subrange(i + 1, n as int)[k] == users[i]);
                }
            }
        }
        assert forall|u: AccountId|
            !users.take(n as int).contains(u) implies flag_in(frozen_after(frozen, users, freeze, n), u)
                == flag_in(frozen, u) by {
            assert(users.take(n as int)[m as int] == users[m as int]);
            if users.take(m as int).contains(u) {
                let k = choose|k: int| 0 <= k < m && users.take(m as int)[k] == u;
                assert(users.take(n as int)[k] == u);
            }
        }
    }
}

/// A batch registration gives each account it registers the identity and
/// the country of the item that names it first, and leaves every account
/// registered before as it was.
pub proof fn law_batch_registration_records_each_newcomer(
    st: RegistryState,
    users: Seq<AccountId>,
    identities: Seq<AccountId>,
    countries: Seq<u32>,
    n: nat,
)
    requires
        users.len() == identities.len(),
        users.len() == countries.len(),
        n <= users.len(),
    ensures
        forall|i: int|
            0 <= i < n && #[trigger] batch_newcomer(st, users, i) ==> {
                &&& registered_batch(st, users, identities, countries, n).identities.contains_key(users[i])
                &&& registered_batch(st, users, identities, countries, n).identities[users[i]] == (IdentityInfo {
                    identity: identities[i],
                    country: countries[i],
                })
            },
        forall|u: AccountId|
            #[trigger] st.identities.contains_key(u) ==> {
                &&& registered_batch(st, users, identities, countries, n).identities.contains_key(u)
                &&& registered_batch(st, users, identities, countries, n).identities[u] == st.identities[u]
            },
    decreases n,
{
    if n > 0 {
        let m = (n - 1) as nat;
        law_batch_registration_records_each_newcomer(st, users, identities, countries, m);
        lemma_registered_batch_shape(st, users, identities, countries, m);
        let prev = registered_batch(st, users, identities, countries, m);
        let user = users[m as int];
        assert forall|i: int|
            0 <= i < n && #[trigger] batch_newcomer(st, users, i) implies {
                &&& registered_batch(st, users, identities, countries, n).identities.contains_key(users[i])
                &&& registered_batch(st, users, identities, countries, n).identities[users[i]] == (IdentityInfo {
                    identity: identities[i],
                    country: countries[i],
                })
            } by {
            if i < m {
                assert(users.take(m as int)[i] == users[i]);
                assert(prev.identities.contains_key(users[i]));
            } else {
                assert(!prev.identities.contains_key(user));
            }
        }
    }
}

/// Only a registered account can be verified; one registered with a
/// country outside a non-empty list of allowed countries is not, and with no
/// country configured every registered account is.
pub proof fn law_verification_needs_registration_and_country(reg: RegistryState, user: AccountId)
    ensures
        reg.verifies(user) ==> reg.identities.contains_key(user),
        reg.allowed_countries.len() > 0 && !reg.allowed_countries.contains(reg.identities[user].country)
            ==> !reg.verifies(user),
        reg.allowed_countries.len() == 0 && reg.identities.contains_key(user) ==> reg.verifies(user),
{
}

/// A receiver with a limit cannot receive past it: a receipt that would take
/// what it has received beyond a non-zero limit is not allowed.
pub proof fn law_limit_refuses_excess(comp: ComplianceState, to: AccountId, amount: i128)
    requires
        comp.limit_of(to) != 0,
        comp.received_of(to) + amount > comp.limit_of(to),
    ensures
        !comp.allows(to, amount),
{
}

} // verus!
