//! The unified decision core: one state value holding the voting
//! ledger, the latch registry and the configuration, driven by a closed
//! union of calls.
//!
//! Every external call is a single transition: validate, compute the new
//! state, and report an acknowledgment that echoes the method and the
//! affected id, or a typed error. A failed call leaves every component
//! of the state as it was; the host persists the state around each call.

use vstd::prelude::*;

use crate::error::ContractError;
use crate::latch::{
    create_latch, create_latch_post, distinct_ids, init_contract, latch_index, sync_latch,
    sync_latch_post, update_threshold, update_threshold_outcome, vote, vote_outcome, Config, Latch,
};
use crate::voting::{
    distinct_name_list, get_votes, record_vote, submit_outcome, submit_vote, total_budget, Votes,
};

verus! {

/// The whole persistent state of the core.
#[derive(Clone, Debug, PartialEq)]
pub struct ContractState {
    pub votes: Votes,
    pub latches: Vec<Latch>,
    pub config: Config,
}

impl ContractState {
    /// Every component satisfies its own invariant.
    pub open spec fn wf(self) -> bool {
        &&& self.votes.well_formed()
        &&& distinct_ids(self.latches@)
        &&& self.config.wf()
    }
}

/// A state-mutating call on the core.
#[derive(Clone, Debug, PartialEq)]
pub enum Execute {
    SubmitVote { scenario: String, budget: u128 },
    CreateLatch { id: String, threshold: u64, participants: Vec<String> },
    Vote { latch_id: String },
    UpdateThreshold { latch_id: String, new_threshold: u64 },
    SyncLatch { latch_id: String, actor_state: String },
}

/// A read-only call on the core.
#[derive(Clone, Debug, PartialEq)]
pub enum Query {
    GetVotes {},
}

/// A success acknowledgment: the method and its key attributes, echoed
/// back to the host.
#[derive(Clone, Debug, PartialEq)]
pub enum Ack {
    VoteSubmitted { scenario: String },
    LatchCreated { id: String },
    Voted { latch_id: String, is_open: bool },
    ThresholdUpdated { latch_id: String, new_threshold: u64 },
    LatchSynced { latch_id: String },
}

/// Builds the initial state: the fixed scenario ledger with zero
/// budgets, no latches, the admin role assigned and no actor state.
pub fn instantiate(scenarios: Vec<String>, admin: String) -> (s: ContractState)
    requires
        distinct_name_list(scenarios@),
    ensures
        s.wf(),
        s.votes.scenario_votes@.len() == scenarios@.len(),
        forall|i: int|
            0 <= i < scenarios@.len() ==> s.votes.scenario_votes@[i].0 == scenarios@[i]
                && s.votes.scenario_votes@[i].1 == 0,
        total_budget(s.votes.scenario_votes@) == 0,
        s.latches@.len() == 0,
        s.config.roles@.len() == 1,
        s.config.roles@[0].0 == admin,
        s.config.roles@[0].1@ == "admin"@,
        s.config.is_admin(admin@),
        s.config.latch_actors@.len() == 0,
{
    ContractState {
        votes: crate::voting::instantiate(crate::voting::InstantiateMsg { scenarios }),
        latches: Vec::new(),
        config: init_contract(admin),
    }
}

/// Runs one mutating call as a single transition of the whole state.
/// Each arm of the union touches exactly one component; the others are
/// reported unchanged.
pub fn execute(state: &mut ContractState, sender: &String, msg: Execute) -> (r: Result<
    Ack,
    ContractError,
>)
    requires
        old(state).wf(),
        (match msg {
            Execute::Vote { latch_id } => vote_outcome(
                old(state).latches@,
                latch_id@,
                sender@,
            ) is None ==> old(state).latches@[latch_index(old(state).latches@, latch_id@)].votes
                < u64::MAX,
            _ => true,
        }),
    ensures
        final(state).wf(),
        (match msg {
            Execute::SubmitVote { scenario, budget } => {
                &&& final(state).latches == old(state).latches
                &&& final(state).config == old(state).config
                &&& (match submit_outcome(old(state).votes.scenario_votes@, scenario@, budget) {
                    Some(e) => r == Err::<Ack, ContractError>(e) && final(state).votes == old(
                        state,
                    ).votes,
                    None => {
                        &&& r == Ok::<Ack, ContractError>((Ack::VoteSubmitted { scenario }))
                        &&& final(state).votes.scenario_votes@ == record_vote(
                            old(state).votes.scenario_votes@,
                            scenario@,
                            budget,
                        )
                    },
                })
            },
            Execute::CreateLatch { id, threshold, participants } => {
                &&& final(state).votes == old(state).votes
                &&& final(state).config == old(state).config
                &&& r == Ok::<Ack, ContractError>((Ack::LatchCreated { id }))
                &&& create_latch_post(
                    old(state).latches@,
                    final(state).latches@,
                    id,
                    threshold,
                    participants,
                )
            },
            Execute::Vote { latch_id } => {
                &&& final(state).votes == old(state).votes
                &&& final(state).config == old(state).config
                &&& (match vote_outcome(old(state).latches@, latch_id@, sender@) {
                    Some(e) => r == Err::<Ack, ContractError>(e) && final(state).latches@ == old(
                        state,
                    ).latches@,
                    None => {
                        let i = latch_index(old(state).latches@, latch_id@);
                        &&& r == Ok::<Ack, ContractError>(
                            (Ack::Voted {
                                latch_id,
                                is_open: old(state).latches@[i].voted().is_open,
                            }),
                        )
                        &&& final(state).latches@ == old(state).latches@.update(
                            i,
                            old(state).latches@[i].voted(),
                        )
                    },
                })
            },
            Execute::UpdateThreshold { latch_id, new_threshold } => {
                &&& final(state).votes == old(state).votes
                &&& final(state).config == old(state).config
                &&& (match update_threshold_outcome(
                    old(state).latches@,
                    latch_id@,
                    old(state).config,
                    sender@,
                ) {
                    Some(e) => r == Err::<Ack, ContractError>(e) && final(state).latches@ == old(
                        state,
                    ).latches@,
                    None => {
                        let i = latch_index(old(state).latches@, latch_id@);
                        &&& r == Ok::<Ack, ContractError>(
                            (Ack::ThresholdUpdated { latch_id, new_threshold }),
                        )
                        &&& final(state).latches@ == old(state).latches@.update(
                            i,
                            old(state).latches@[i].with_threshold(new_threshold),
                        )
                    },
                })
            },
            Execute::SyncLatch { latch_id, actor_state } => {
                &&& final(state).votes == old(state).votes
                &&& final(state).latches == old(state).latches
                &&& r == Ok::<Ack, ContractError>((Ack::LatchSynced { latch_id }))
                &&& sync_latch_post(old(state).config, final(state).config, latch_id, actor_state)
            },
        }),
{
    match msg {
        Execute::SubmitVote { scenario, budget } => {
            match submit_vote(&mut state.votes, &scenario, budget) {
                Ok(()) => Ok(Ack::VoteSubmitted { scenario }),
                Err(e) => Err(e),
            }
        },
        Execute::CreateLatch { id, threshold, participants } => {
            create_latch(&mut state.latches, id.clone(), threshold, participants);
            Ok(Ack::LatchCreated { id })
        },
        Execute::Vote { latch_id } => {
            match vote(&mut state.latches, &latch_id, sender) {
                Ok(is_open) => Ok(Ack::Voted { latch_id, is_open }),
                Err(e) => Err(e),
            }
        },
        Execute::UpdateThreshold { latch_id, new_threshold } => {
            match update_threshold(
                &mut state.latches,
                &state.config,
                &latch_id,
                new_threshold,
                sender,
            ) {
                Ok(()) => Ok(Ack::ThresholdUpdated { latch_id, new_threshold }),
                Err(e) => Err(e),
            }
        },
        Execute::SyncLatch { latch_id, actor_state } => {
            sync_latch(&mut state.config, latch_id.clone(), actor_state);
            Ok(Ack::LatchSynced { latch_id })
        },
    }
}

/// Answers a read-only call against the current state.
pub fn query(state: &ContractState, msg: Query) -> (r: Votes)
    ensures
        (match msg {
            Query::GetVotes {} => r.scenario_votes@ == state.votes.scenario_votes@,
        }),
{
    match msg {
        Query::GetVotes {} => get_votes(&state.votes),
    }
}

} // verus!
