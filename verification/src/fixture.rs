//! A token deployed together with its compliance module and identity
//! registry, all administered by one account and wired to one another.
use vstd::prelude::*;

use crate::compliance::MockCompliance;
use crate::host::host_string_clone;
use crate::identity_registry::MockIdentityRegistry;
use crate::token::MockERC3643Token;
use crate::AccountId;

verus! {

/// The three contracts of one ERC-3643 token.
pub struct Erc3643Fixture {
    pub token: MockERC3643Token,
    pub compliance: MockCompliance,
    pub id_registry: MockIdentityRegistry,
}

impl Erc3643Fixture {
    /// Deploys a compliance module at `compliance_address`, an identity
    /// registry at `id_registry_address` and, at `token_address`, a token
    /// named and symbolized `symbol` with `decimals` decimals, wired to the
    /// two; `admin` administers all three.
    pub fn create(
        env: &soroban_sdk::Env,
        admin: AccountId,
        symbol: soroban_sdk::String,
        decimals: u32,
        compliance_address: AccountId,
        id_registry_address: AccountId,
        token_address: AccountId,
    ) -> (r: Self)
        ensures
            r.compliance@.address == compliance_address,
            r.compliance@.admin == admin,
            r.compliance@.bound_token is None,
            r.compliance@.transfer_limits.dom().is_empty(),
            r.compliance@.transferred.dom().is_empty(),
            r.id_registry@.address == id_registry_address,
            r.id_registry@.admin == admin,
            r.id_registry@.agents.dom().is_empty(),
            r.id_registry@.identities.dom().is_empty(),
            r.id_registry@.registered.len() == 0,
            r.id_registry@.allowed_countries.len() == 0,
            r.token@.address == token_address,
            r.token@.admin == admin,
            r.token@.name == symbol,
            r.token@.symbol == symbol,
            r.token@.decimals == decimals,
            r.token@.wired_to(r.id_registry@, r.compliance@),
            !r.token@.paused,
            r.token@.total_supply == 0,
            r.token@.balances.dom().is_empty(),
            r.token@.allowances.dom().is_empty(),
            r.token@.frozen.dom().is_empty(),
            r.token@.frozen_tokens.dom().is_empty(),
            r.token@.agents.dom().is_empty(),
    {
        let compliance = MockCompliance::new(compliance_address, admin);
        let id_registry = MockIdentityRegistry::new(env, id_registry_address, admin);
        let name = host_string_clone(&symbol);
        let token = MockERC3643Token::new(
            env,
            token_address,
            admin,
            name,
            symbol,
            decimals,
            id_registry_address,
            compliance_address,
        );
        Erc3643Fixture { token, compliance, id_registry }
    }
}

} // verus!
