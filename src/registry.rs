//! The agent registry: the authenticated agents of this session, keyed by
//! callsign in the order they were added, each with a contract cache that is
//! filled once from the remote service and then kept.

use crate::command::words;
use crate::records::{AgentInfo, ContractSession};
use crate::text::str_eq;
use vstd::prelude::*;

verus! {

/// Why a registry operation did nothing.
#[derive(Clone, Copy, Debug, PartialEq, Eq, Structural)]
pub enum RegistryError {
    /// No agent with that callsign is known.
    UnknownAgent,
    /// An agent with that callsign is already known.
    DuplicateAgent,
    /// The agent's contracts have not been fetched yet.
    ContractsNotFetched,
    /// The agent has no contract with that id.
    UnknownContract,
}

/// One authenticated agent and its contract cache.
#[derive(Debug)]
pub struct AgentSession {
    pub info: AgentInfo,
    pub token: String,
    pub contracts: Option<Vec<ContractSession>>,
}

/// The abstract state of an agent session.
pub struct AgentModel {
    pub info: AgentInfo,
    pub token: Seq<char>,
    pub contracts: Option<Seq<ContractSession>>,
}

impl View for AgentSession {
    type V = AgentModel;

    open spec fn view(&self) -> AgentModel {
        AgentModel {
            info: self.info,
            token: self.token@,
            contracts: match self.contracts {
                Some(v) => Some(v@),
                None => None,
            },
        }
    }
}

impl AgentSession {
    /// A session whose contracts are not fetched yet.
    pub fn new(info: AgentInfo, token: String) -> (r: AgentSession)
        ensures
            r@ == (AgentModel { info, token: token@, contracts: None }),
    {
        AgentSession { info, token, contracts: None }
    }
}

/// The callsign of an agent.
pub open spec fn callsign(a: AgentModel) -> Seq<char> {
    a.info.symbol@
}

/// The callsigns of a registry state, in order.
pub open spec fn callsigns(m: Seq<AgentModel>) -> Seq<Seq<char>> {
    m.map_values(|a: AgentModel| callsign(a))
}

pub open spec fn is_known(m: Seq<AgentModel>, cs: Seq<char>) -> bool {
    exists|i: int| 0 <= i < m.len() && callsign(#[trigger] m[i]) == cs
}

/// Where the agent `cs` stands; meaningful when `is_known(m, cs)`.
pub open spec fn slot_of(m: Seq<AgentModel>, cs: Seq<char>) -> int {
    choose|i: int| 0 <= i < m.len() && callsign(#[trigger] m[i]) == cs
}

/// No two agents share a callsign.
pub open spec fn unique(m: Seq<AgentModel>) -> bool {
    forall|i: int, j: int|
        0 <= i < m.len() && 0 <= j < m.len() && callsign(#[trigger] m[i]) == callsign(#[trigger] m[j])
            ==> i == j
}

/// The state after adding the agent `a`: an agent already known under the same
/// callsign is kept and `a` is dropped.
pub open spec fn insert_model(m: Seq<AgentModel>, a: AgentModel) -> Seq<AgentModel> {
    if is_known(m, callsign(a)) {
        m
    } else {
        m.push(a)
    }
}

/// `j` is the first contract in `cs` with id `id`.
pub open spec fn first_contract(cs: Seq<ContractSession>, id: Seq<char>, j: int) -> bool {
    0 <= j < cs.len() && cs[j].id@ == id && forall|k: int| 0 <= k < j ==> cs[k].id@ != id
}

pub open spec fn has_contract(cs: Seq<ContractSession>, id: Seq<char>) -> bool {
    exists|j: int| 0 <= j < cs.len() && cs[j].id@ == id
}

/// The first contract with id `id`; meaningful when `has_contract(cs, id)`.
pub open spec fn contract_slot(cs: Seq<ContractSession>, id: Seq<char>) -> int {
    choose|j: int| first_contract(cs, id, j)
}

/// The state after caching `fetched` for agent `cs`: only an unfetched cache of
/// a known agent is filled.
pub open spec fn fill_model(m: Seq<AgentModel>, cs: Seq<char>, fetched: Seq<ContractSession>) -> Seq<
    AgentModel,
> {
    if is_known(m, cs) && m[slot_of(m, cs)].contracts is None {
        m.update(slot_of(m, cs), AgentModel { contracts: Some(fetched), ..m[slot_of(m, cs)] })
    } else {
        m
    }
}

/// The contract with `accepted` set.
pub open spec fn accepted(c: ContractSession) -> ContractSession {
    ContractSession { accepted: true, ..c }
}

/// The state after marking contract `id` of agent `cs` accepted; unchanged
/// where the agent, its cache or the contract is missing.
pub open spec fn accept_model(m: Seq<AgentModel>, cs: Seq<char>, id: Seq<char>) -> Seq<AgentModel> {
    if is_known(m, cs) && m[slot_of(m, cs)].contracts is Some && has_contract(
        m[slot_of(m, cs)].contracts->0,
        id,
    ) {
        let list = m[slot_of(m, cs)].contracts->0;
        let j = contract_slot(list, id);
        m.update(
            slot_of(m, cs),
            AgentModel { contracts: Some(list.update(j, accepted(list[j]))), ..m[slot_of(m, cs)] },
        )
    } else {
        m
    }
}

/// The outcome of a contract lookup in state `m`.
pub open spec fn contract_lookup(m: Seq<AgentModel>, cs: Seq<char>, id: Seq<char>) -> Result<
    ContractSession,
    RegistryError,
> {
    if !is_known(m, cs) {
        Err(RegistryError::UnknownAgent)
    } else {
        match m[slot_of(m, cs)].contracts {
            None => Err(RegistryError::ContractsNotFetched),
            Some(list) => if has_contract(list, id) {
                Ok(list[contract_slot(list, id)])
            } else {
                Err(RegistryError::UnknownContract)
            },
        }
    }
}

/// All known agents of this session.
#[derive(Debug)]
pub struct AgentRegistry {
    agents: Vec<AgentSession>,
}

impl View for AgentRegistry {
    type V = Seq<AgentModel>;

    closed spec fn view(&self) -> Seq<AgentModel> {
        self.agents@.map_values(|a: AgentSession| a@)
    }
}

proof fn lemma_slot(m: Seq<AgentModel>, cs: Seq<char>, i: int)
    requires
        unique(m),
        0 <= i < m.len(),
        callsign(m[i]) == cs,
    ensures
        is_known(m, cs),
        slot_of(m, cs) == i,
{
    assert(is_known(m, cs));
    let k = slot_of(m, cs);
    assert(callsign(m[k]) == callsign(m[i]));
}

proof fn lemma_contract_slot(cs: Seq<ContractSession>, id: Seq<char>, j: int)
    requires
        first_contract(cs, id, j),
    ensures
        has_contract(cs, id),
        contract_slot(cs, id) == j,
{
    let k = contract_slot(cs, id);
    assert(first_contract(cs, id, k));
    if k < j {
        assert(cs[k].id@ != id);
    } else if j < k {
        assert(cs[j].id@ != id);
    }
}

impl AgentRegistry {
    /// No two agents share a callsign.
    pub closed spec fn wf(&self) -> bool {
        unique(self@)
    }

    pub fn new() -> (r: AgentRegistry)
        ensures
            r.wf(),
            r@ == Seq::<AgentModel>::empty(),
    {
        let r = AgentRegistry { agents: Vec::new() };
        assert(r@ =~= Seq::<AgentModel>::empty());
        r
    }

    pub fn len(&self) -> (r: usize)
        ensures
            r == self@.len(),
    {
        self.agents.len()
    }

    /// Where the agent `cs` stands, if it is known.
    fn position(&self, cs: &str) -> (r: Option<usize>)
        requires
            self.wf(),
        ensures
            match r {
                Some(i) => is_known(self@, cs@) && i == slot_of(self@, cs@),
                None => !is_known(self@, cs@),
            },
    {
        let mut i: usize = 0;
        while i < self.agents.len()
            invariant
                self.wf(),
                i <= self.agents.len(),
                forall|k: int| 0 <= k < i ==> callsign(#[trigger] self@[k]) != cs@,
            decreases self.agents.len() - i,
        {
            if str_eq(self.agents[i].info.symbol.as_str(), cs) {
                proof {
                    lemma_slot(self@, cs@, i as int);
                }
                return Some(i);
            }
            i = i + 1;
        }
        None
    }

    /// Adds a session under its callsign. An agent already known under that
    /// callsign is never replaced.
    pub fn insert(&mut self, session: AgentSession) -> (r: Result<(), RegistryError>)
        requires
            old(self).wf(),
        ensures
            final(self).wf(),
            final(self)@ == insert_model(old(self)@, session@),
            is_known(old(self)@, callsign(session@)) ==> r == Err::<(), RegistryError>(
                RegistryError::DuplicateAgent,
            ),
            !is_known(old(self)@, callsign(session@)) ==> r is Ok,
    {
        if self.position(session.info.symbol.as_str()).is_some() {
            return Err(RegistryError::DuplicateAgent);
        }
        let ghost before = self@;
        let ghost added = session@;
        self.agents.push(session);
        assert(self@ =~= before.push(added));
        assert forall|i: int, j: int|
            0 <= i < self@.len() && 0 <= j < self@.len() && callsign(#[trigger] self@[i]) == callsign(
                #[trigger] self@[j],
            ) implies i == j by {
            if i < before.len() && j == before.len() as int {
                assert(is_known(before, callsign(added)));
            } else if j < before.len() && i == before.len() as int {
                assert(is_known(before, callsign(added)));
            }
        }
        Ok(())
    }

    /// Looks an agent up by callsign.
    pub fn get(&self, cs: &str) -> (r: Option<&AgentSession>)
        requires
            self.wf(),
        ensures
            match r {
                Some(a) => is_known(self@, cs@) && a@ == self@[slot_of(self@, cs@)],
                None => !is_known(self@, cs@),
            },
    {
        match self.position(cs) {
            Some(i) => Some(&self.agents[i]),
            None => None,
        }
    }

    /// The callsigns of all known agents, in the order they were added.
    pub fn list_callsigns(&self) -> (r: Vec<String>)
        ensures
            words(r@) == callsigns(self@),
    {
        let mut r: Vec<String> = Vec::new();
        let mut i: usize = 0;
        while i < self.agents.len()
            invariant
                i <= self.agents.len(),
                r@.len() == i,
                forall|k: int| 0 <= k < i ==> #[trigger] r@[k]@ == callsign(self@[k]),
            decreases self.agents.len() - i,
        {
            r.push(self.agents[i].info.symbol.clone());
            i = i + 1;
        }
        assert(words(r@) =~= callsigns(self@));
        r
    }

    /// Whether the agent's contracts still have to be fetched.
    pub fn needs_fetch(&self, cs: &str) -> (r: Result<bool, RegistryError>)
        requires
            self.wf(),
        ensures
            !is_known(self@, cs@) ==> r == Err::<bool, RegistryError>(RegistryError::UnknownAgent),
            is_known(self@, cs@) ==> r == Ok::<bool, RegistryError>(
                self@[slot_of(self@, cs@)].contracts is None,
            ),
    {
        match self.position(cs) {
            Some(i) => Ok(self.agents[i].contracts.is_none()),
            None => Err(RegistryError::UnknownAgent),
        }
    }

    /// Caches the contracts fetched for an agent. A cache that is already
    /// filled is kept as it is.
    pub fn store_contracts(&mut self, cs: &str, fetched: Vec<ContractSession>) -> (r: Result<
        (),
        RegistryError,
    >)
        requires
            old(self).wf(),
        ensures
            final(self).wf(),
            final(self)@ == fill_model(old(self)@, cs@, fetched@),
            !is_known(old(self)@, cs@) ==> r == Err::<(), RegistryError>(RegistryError::UnknownAgent),
            is_known(old(self)@, cs@) ==> r is Ok,
    {
        let i = match self.position(cs) {
            Some(i) => i,
            None => {
                return Err(RegistryError::UnknownAgent);
            },
        };
        if self.agents[i].contracts.is_some() {
            return Ok(());
        }
        let ghost before = self@;
        let ghost f = fetched@;
        let mut a = self.agents.remove(i);
        a.contracts = Some(fetched);
        self.agents.insert(i, a);
        assert(self@ =~= before.update(i as int, AgentModel { contracts: Some(f), ..before[i as int] }));
        assert forall|x: int, y: int|
            0 <= x < self@.len() && 0 <= y < self@.len() && callsign(#[trigger] self@[x]) == callsign(
                #[trigger] self@[y],
            ) implies x == y by {
            assert(callsign(self@[x]) == callsign(before[x]));
            assert(callsign(self@[y]) == callsign(before[y]));
        }
        Ok(())
    }

    /// The cached contracts of an agent.
    pub fn contracts(&self, cs: &str) -> (r: Result<&Vec<ContractSession>, RegistryError>)
        requires
            self.wf(),
        ensures
            !is_known(self@, cs@) ==> r matches Err(RegistryError::UnknownAgent),
            is_known(self@, cs@) ==> match self@[slot_of(self@, cs@)].contracts {
                None => r matches Err(RegistryError::ContractsNotFetched),
                Some(list) => (r matches Ok(v) && v@ == list),
            },
    {
        match self.position(cs) {
            None => Err(RegistryError::UnknownAgent),
            Some(i) => match &self.agents[i].contracts {
                None => Err(RegistryError::ContractsNotFetched),
                Some(v) => Ok(v),
            },
        }
    }

    /// Where the first contract with id `id` stands in `list`.
    fn contract_position(list: &Vec<ContractSession>, id: &str) -> (r: Option<usize>)
        ensures
            match r {
                Some(j) => first_contract(list@, id@, j as int),
                None => !has_contract(list@, id@),
            },
    {
        let mut j: usize = 0;
        while j < list.len()
            invariant
                j <= list.len(),
                forall|k: int| 0 <= k < j ==> list@[k].id@ != id@,
            decreases list.len() - j,
        {
            if str_eq(list[j].id.as_str(), id) {
                return Some(j);
            }
            j = j + 1;
        }
        None
    }

    /// One cached contract of an agent.
    pub fn contract(&self, cs: &str, id: &str) -> (r: Result<&ContractSession, RegistryError>)
        requires
            self.wf(),
        ensures
            match r {
                Ok(c) => contract_lookup(self@, cs@, id@) == Ok::<ContractSession, RegistryError>(*c),
                Err(e) => contract_lookup(self@, cs@, id@) == Err::<ContractSession, RegistryError>(e),
            },
    {
        let contracts = match self.contracts(cs) {
            Err(e) => {
                return Err(e);
            },
            Ok(v) => v,
        };
        match AgentRegistry::contract_position(contracts, id) {
            None => Err(RegistryError::UnknownContract),
            Some(j) => {
                proof {
                    lemma_contract_slot(contracts@, id@, j as int);
                }
                Ok(&contracts[j])
            },
        }
    }

    /// Marks a cached contract accepted, once the remote service has accepted
    /// it. Accepting an accepted contract changes nothing.
    pub fn accept_contract(&mut self, cs: &str, id: &str) -> (r: Result<(), RegistryError>)
        requires
            old(self).wf(),
        ensures
            final(self).wf(),
            final(self)@ == accept_model(old(self)@, cs@, id@),
            match contract_lookup(old(self)@, cs@, id@) {
                Ok(_) => r is Ok,
                Err(e) => r == Err::<(), RegistryError>(e),
            },
    {
        let i = match self.position(cs) {
            Some(i) => i,
            None => {
                return Err(RegistryError::UnknownAgent);
            },
        };
        let j = match &self.agents[i].contracts {
            None => {
                return Err(RegistryError::ContractsNotFetched);
            },
            Some(list) => match AgentRegistry::contract_position(list, id) {
                None => {
                    return Err(RegistryError::UnknownContract);
                },
                Some(j) => {
                    proof {
                        lemma_contract_slot(list@, id@, j as int);
                    }
                    j
                },
            },
        };
        let ghost before = self@;
        let mut a = self.agents.remove(i);
        let mut list = match a.contracts {
            Some(list) => list,
            None => Vec::new(),
        };
        let ghost old_list = list@;
        let mut c = list.remove(j);
        c.accepted = true;
        list.insert(j, c);
        assert(list@ =~= old_list.update(j as int, accepted(old_list[j as int])));
        a.contracts = Some(list);
        self.agents.insert(i, a);
        assert(self@ =~= before.update(
            i as int,
            AgentModel {
                contracts: Some(old_list.update(j as int, accepted(old_list[j as int]))),
                ..before[i as int]
            },
        ));
        assert forall|x: int, y: int|
            0 <= x < self@.len() && 0 <= y < self@.len() && callsign(#[trigger] self@[x]) == callsign(
                #[trigger] self@[y],
            ) implies x == y by {
            assert(callsign(self@[x]) == callsign(before[x]));
            assert(callsign(self@[y]) == callsign(before[y]));
        }
        Ok(())
    }
}

proof fn lemma_first_from(cs: Seq<ContractSession>, id: Seq<char>, k: int, w: int)
    requires
        0 <= k <= w < cs.len(),
        cs[w].id@ == id,
        forall|x: int| 0 <= x < k ==> cs[x].id@ != id,
    ensures
        first_contract(cs, id, contract_slot(cs, id)),
    decreases w - k,
{
    if cs[k].id@ == id {
        assert(first_contract(cs, id, k));
    } else {
        lemma_first_from(cs, id, k + 1, w);
    }
}

/// A contract that is present has a first occurrence.
proof fn lemma_first_exists(cs: Seq<ContractSession>, id: Seq<char>)
    requires
        has_contract(cs, id),
    ensures
        first_contract(cs, id, contract_slot(cs, id)),
{
    let w = choose|j: int| 0 <= j < cs.len() && cs[j].id@ == id;
    lemma_first_from(cs, id, 0, w);
}

proof fn lemma_same_keys(m: Seq<AgentModel>, i: int, a: AgentModel, cs: Seq<char>)
    requires
        unique(m),
        0 <= i < m.len(),
        callsign(a) == callsign(m[i]),
    ensures
        unique(m.update(i, a)),
        is_known(m.update(i, a), cs) == is_known(m, cs),
        is_known(m, cs) ==> slot_of(m.update(i, a), cs) == slot_of(m, cs),
{
    let n = m.update(i, a);
    assert forall|x: int| 0 <= x < m.len() implies callsign(#[trigger] n[x]) == callsign(m[x]) by {}
    assert forall|x: int, y: int|
        0 <= x < n.len() && 0 <= y < n.len() && callsign(#[trigger] n[x]) == callsign(#[trigger] n[y])
        implies x == y by {
        assert(callsign(n[x]) == callsign(m[x]));
        assert(callsign(n[y]) == callsign(m[y]));
    }
    if is_known(m, cs) {
        let k = slot_of(m, cs);
        assert(callsign(n[k]) == cs);
        lemma_slot(n, cs, k);
    }
    if is_known(n, cs) {
        let k = slot_of(n, cs);
        assert(callsign(m[k]) == cs);
    }
}

/// Adding a second session under a callsign that is already known changes
/// nothing: the first session stays, and callsigns stay unique.
pub proof fn lemma_insert_twice(m: Seq<AgentModel>, a: AgentModel, b: AgentModel)
    requires
        unique(m),
        callsign(a) == callsign(b),
    ensures
        ({
            let m1 = insert_model(m, a);
            &&& is_known(m1, callsign(a))
            &&& insert_model(m1, b) == m1
            &&& !is_known(m, callsign(a)) ==> m1[slot_of(m1, callsign(a))] == a
        }),
{
    let m1 = insert_model(m, a);
    if !is_known(m, callsign(a)) {
        assert(m1[m.len() as int] == a);
        assert(unique(m1)) by {
            assert forall|i: int, j: int|
                0 <= i < m1.len() && 0 <= j < m1.len() && callsign(#[trigger] m1[i]) == callsign(
                    #[trigger] m1[j],
                ) implies i == j by {
                if i < m.len() && j == m.len() as int {
                    assert(callsign(m[i]) == callsign(a));
                } else if j < m.len() && i == m.len() as int {
                    assert(callsign(m[j]) == callsign(a));
                } else if i < m.len() && j < m.len() {
                    assert(m1[i] == m[i] && m1[j] == m[j]);
                }
            }
        }
        lemma_slot(m1, callsign(a), m.len() as int);
    }
}

/// An agent that is not known has no contract state: every contract
/// operation on it reports the unknown agent and changes nothing.
pub proof fn lemma_unknown_agent(
    m: Seq<AgentModel>,
    cs: Seq<char>,
    id: Seq<char>,
    fetched: Seq<ContractSession>,
)
    requires
        !is_known(m, cs),
    ensures
        fill_model(m, cs, fetched) == m,
        accept_model(m, cs, id) == m,
        contract_lookup(m, cs, id) == Err::<ContractSession, RegistryError>(RegistryError::UnknownAgent),
{
}

/// Contracts are fetched at most once per agent: after the first fill the
/// cache is present, and a later fill changes nothing.
pub proof fn lemma_fetch_once(
    m: Seq<AgentModel>,
    cs: Seq<char>,
    first: Seq<ContractSession>,
    second: Seq<ContractSession>,
)
    requires
        unique(m),
        is_known(m, cs),
    ensures
        ({
            let m1 = fill_model(m, cs, first);
            &&& unique(m1)
            &&& is_known(m1, cs)
            &&& m1[slot_of(m1, cs)].contracts is Some
            &&& fill_model(m1, cs, second) == m1
        }),
{
    let i = slot_of(m, cs);
    if m[i].contracts is None {
        lemma_same_keys(m, i, AgentModel { contracts: Some(first), ..m[i] }, cs);
    }
}

/// Accepting a contract sets its `accepted` flag, and accepting it again
/// leaves the state as the first acceptance left it.
pub proof fn lemma_accept_idempotent(m: Seq<AgentModel>, cs: Seq<char>, id: Seq<char>)
    requires
        unique(m),
    ensures
        ({
            let m1 = accept_model(m, cs, id);
            &&& unique(m1)
            &&& accept_model(m1, cs, id) == m1
            &&& contract_lookup(m, cs, id) matches Ok(c) ==> contract_lookup(m1, cs, id)
                == Ok::<ContractSession, RegistryError>(accepted(c))
            &&& contract_lookup(m, cs, id) is Err ==> m1 == m
        }),
{
    let m1 = accept_model(m, cs, id);
    if is_known(m, cs) && m[slot_of(m, cs)].contracts is Some && has_contract(
        m[slot_of(m, cs)].contracts->0,
        id,
    ) {
        let i = slot_of(m, cs);
        let list = m[i].contracts->0;
        let j = contract_slot(list, id);
        let list1 = list.update(j, accepted(list[j]));
        let a1 = AgentModel { contracts: Some(list1), ..m[i] };
        lemma_same_keys(m, i, a1, cs);
        lemma_first_exists(list, id);
        assert(first_contract(list1, id, j));
        lemma_contract_slot(list1, id, j);
        assert(list1.update(j, accepted(list1[j])) =~= list1);
        assert(m1.update(i, AgentModel { contracts: Some(list1), ..m1[i] }) =~= m1);
    }
}

} // verus!
