//! The agents of a contract, kept as the contracts keep them: in a host map
//! from accounts to flags.
use vstd::prelude::*;

use crate::host::{
    agent_flags, agent_flags_clone, agent_flags_remove, agent_flags_set, agent_flags_try_get,
    agent_flags_typed, new_agent_flags,
};
use crate::AccountId;

verus! {

/// The agents of a contract: a flag for each account entered.
pub struct Agents {
    map: soroban_sdk::Map<u64, bool>,
}

impl View for Agents {
    type V = Map<AccountId, bool>;

    closed spec fn view(&self) -> Map<AccountId, bool> {
        agent_flags(self.map)
    }
}

impl Agents {
    /// Only flags are ever written to the map.
    #[verifier::type_invariant]
    spec fn holds_flags(self) -> bool {
        agent_flags_typed(self.map)
    }

    /// No account entered.
    pub fn new(env: &soroban_sdk::Env) -> (r: Self)
        ensures
            r@.dom().is_empty(),
    {
        Agents { map: new_agent_flags(env) }
    }

    /// Enters `agent` with `flag`, replacing any earlier flag.
    pub fn set(&mut self, agent: AccountId, flag: bool)
        ensures
            final(self)@ == old(self)@.insert(agent, flag),
    {
        proof {
            use_type_invariant(&*self);
        }
        let mut map = agent_flags_clone(&self.map);
        agent_flags_set(&mut map, agent, flag);
        self.map = map;
    }

    /// Removes `agent`'s entry, if any.
    pub fn remove(&mut self, agent: AccountId)
        ensures
            final(self)@ == old(self)@.remove(agent),
    {
        proof {
            use_type_invariant(&*self);
        }
        let mut map = agent_flags_clone(&self.map);
        let _ = agent_flags_remove(&mut map, agent);
        self.map = map;
    }

    /// Whether `agent` is entered with its flag set.
    pub fn has(&self, agent: AccountId) -> (r: bool)
        ensures
            r == (self@.contains_key(agent) && self@[agent]),
    {
        proof {
            use_type_invariant(self);
        }
        match agent_flags_try_get(&self.map, agent) {
            Ok(Some(flag)) => flag,
            Ok(None) => false,
            Err(_) => {
                proof {
                    assert(false);
                }
                false
            },
        }
    }
}

} // verus!
