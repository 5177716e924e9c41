//! Plain records of what the remote service reports about agents, contracts
//! and waypoints. Enumerated fields hold the service's symbols.

use vstd::prelude::*;

verus! {

/// Public details of one agent.
#[derive(Clone, Debug, PartialEq, Eq)]
pub struct AgentInfo {
    pub symbol: String,
    pub headquarters: String,
    pub credits: i64,
    pub starting_faction: String,
    pub account_id: Option<String>,
}

/// One delivery a contract asks for.
#[derive(Clone, Debug, PartialEq, Eq)]
pub struct Deliverable {
    pub trade_symbol: String,
    pub destination: String,
    pub units_required: u64,
    pub units_fulfilled: u64,
}

/// What a contract pays and asks for.
#[derive(Clone, Debug, PartialEq, Eq)]
pub struct ContractTerms {
    pub deadline: String,
    pub on_accepted: u64,
    pub on_fulfilled: u64,
    pub deliver: Option<Vec<Deliverable>>,
}

/// One contract of an agent, as last fetched or locally accepted.
#[derive(Clone, Debug, PartialEq, Eq)]
pub struct ContractSession {
    pub id: String,
    pub contract_type: String,
    pub faction: String,
    pub terms: ContractTerms,
    pub accepted: bool,
    pub fulfilled: bool,
}

/// Who charted a waypoint, when it is charted.
#[derive(Clone, Debug, PartialEq, Eq)]
pub struct Chart {
    pub submitted_by: Option<String>,
}

/// One waypoint of a system.
#[derive(Clone, Debug, PartialEq, Eq)]
pub struct Waypoint {
    pub symbol: String,
    pub waypoint_type: String,
    pub system_symbol: String,
    pub x: i64,
    pub y: i64,
    pub orbitals: Vec<String>,
    pub traits: Vec<String>,
    pub faction: Option<String>,
    pub chart: Option<Chart>,
}

} // verus!
