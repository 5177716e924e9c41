//! The persisted configuration: the account token and the known agents.

use vstd::prelude::*;

verus! {

/// A persisted agent identity.
#[derive(Clone, Debug, PartialEq, Eq)]
pub struct Agent {
    pub id: String,
    pub token: String,
}

/// Everything that is kept between runs.
#[derive(Debug)]
pub struct Config {
    pub account_token: String,
    pub agents: Vec<Agent>,
}

impl Config {
    /// The configuration used when none was saved yet.
    pub fn empty() -> (r: Config)
        ensures
            r.account_token@.len() == 0,
            r.agents@.len() == 0,
    {
        Config { account_token: String::new(), agents: Vec::new() }
    }

    /// Whether an account token still has to be asked for.
    pub fn needs_token(&self) -> (r: bool)
        ensures
            r == (self.account_token@.len() == 0),
    {
        self.account_token.as_str().unicode_len() == 0
    }

    /// Records a newly registered agent after those already known.
    pub fn add_agent(&mut self, id: String, token: String)
        ensures
            final(self).account_token == old(self).account_token,
            final(self).agents@ == old(self).agents@.push(Agent { id, token }),
    {
        self.agents.push(Agent { id, token });
    }
}

} // verus!
