//! The budget-capped, single-choice voting ledger.
//!
//! A ledger holds a fixed list of scenarios, each with an allocated budget.
//! Votes allocate budget to one scenario, subject to a global cap and to a
//! global single-use rule: once any scenario carries a nonzero budget, no
//! further vote is accepted. The rule is deliberately global rather than
//! per caller: the ledger keeps no per-caller record, only aggregate
//! per-scenario budgets.

use vstd::prelude::*;

use crate::error::ContractError;

verus! {

/// Global cap on the sum of allocated budgets across all scenarios.
pub const MAX_BUDGET: u128 = 1000;

/// The ledger state: each entry pairs a scenario name with its allocated
/// budget.
#[derive(Clone, Debug, PartialEq, Default)]
pub struct Votes {
    pub scenario_votes: Vec<(String, u128)>,
}

/// The message that creates a ledger: the fixed scenario list.
#[derive(Clone, Debug, PartialEq)]
pub struct InstantiateMsg {
    pub scenarios: Vec<String>,
}

/// A state-mutating call on the ledger.
#[derive(Clone, Debug, PartialEq)]
pub struct ExecuteMsg {
    pub action: Action,
}

/// The mutating actions the ledger accepts.
#[derive(Clone, Debug, PartialEq)]
pub enum Action {
    SubmitVote { scenario: String, budget: u128 },
}

/// A read-only call on the ledger.
#[derive(Clone, Debug, PartialEq)]
pub struct QueryMsg {
    pub action: QueryAction,
}

/// The read-only actions the ledger accepts.
#[derive(Clone, Debug, PartialEq)]
pub enum QueryAction {
    GetVotes {},
}

/// The sum of all allocated budgets in the ledger.
pub open spec fn total_budget(s: Seq<(String, u128)>) -> int
    decreases s.len(),
{
    if s.len() == 0 {
        0
    } else {
        total_budget(s.drop_last()) + s.last().1
    }
}

/// Whether some entry carries the given scenario name.
pub open spec fn contains_scenario(s: Seq<(String, u128)>, name: Seq<char>) -> bool {
    exists|i: int| 0 <= i < s.len() && s[i].0@ == name
}

/// Whether some entry already carries a nonzero budget.
pub open spec fn some_budget_positive(s: Seq<(String, u128)>) -> bool {
    exists|i: int| 0 <= i < s.len() && s[i].1 > 0
}

/// Whether the entry named `name` carries a nonzero budget.
pub open spec fn voted_for(s: Seq<(String, u128)>, name: Seq<char>) -> bool {
    exists|i: int| 0 <= i < s.len() && s[i].0@ == name && s[i].1 > 0
}

/// Whether an entry with a name other than `name` carries a nonzero budget.
pub open spec fn voted_for_other(s: Seq<(String, u128)>, name: Seq<char>) -> bool {
    exists|i: int| 0 <= i < s.len() && s[i].0@ != name && s[i].1 > 0
}

/// Whether all scenario names in the ledger are pairwise distinct.
pub open spec fn distinct_names(s: Seq<(String, u128)>) -> bool {
    forall|i: int, j: int| 0 <= i < j < s.len() ==> s[i].0@ != s[j].0@
}

/// Whether a list of scenario names is pairwise distinct.
pub open spec fn distinct_name_list(s: Seq<String>) -> bool {
    forall|i: int, j: int| 0 <= i < j < s.len() ==> s[i]@ != s[j]@
}

impl Votes {
    /// The ledger invariant: distinct scenario names, and a total
    /// allocation within the global cap.
    pub open spec fn well_formed(self) -> bool {
        &&& distinct_names(self.scenario_votes@)
        &&& total_budget(self.scenario_votes@) <= MAX_BUDGET
    }
}

/// The error a vote is rejected with, or `None` when it is accepted.
/// The checks apply in this order: global cap, zero budget, unknown
/// scenario, vote already recorded anywhere in the ledger.
pub open spec fn submit_outcome(s: Seq<(String, u128)>, scenario: Seq<char>, budget: u128) -> Option<
    ContractError,
> {
    if total_budget(s) + budget > MAX_BUDGET {
        Some(ContractError::BudgetCapExceeded)
    } else if budget == 0 {
        Some(ContractError::InvalidBudget)
    } else if !contains_scenario(s, scenario) {
        Some(ContractError::ScenarioNotFound)
    } else if some_budget_positive(s) {
        Some(ContractError::AlreadyVoted)
    } else {
        None
    }
}

/// The ledger after an accepted vote: the budget is added to every entry
/// named `scenario` (exactly one, when names are distinct).
pub open spec fn record_vote(s: Seq<(String, u128)>, scenario: Seq<char>, budget: u128) -> Seq<
    (String, u128),
> {
    s.map(
        |i: int, p: (String, u128)|
            if p.0@ == scenario {
                (p.0, (p.1 + budget) as u128)
            } else {
                p
            },
    )
}

/// How the ledger and the result of `submit_vote` relate to the state
/// before the call.
pub open spec fn submit_vote_post(
    pre: Votes,
    post: Votes,
    scenario: Seq<char>,
    budget: u128,
    r: Result<(), ContractError>,
) -> bool {
    match submit_outcome(pre.scenario_votes@, scenario, budget) {
        Some(e) => r == Err::<(), ContractError>(e) && post == pre,
        None => r == Ok::<(), ContractError>(()) && post.scenario_votes@ == record_vote(
            pre.scenario_votes@,
            scenario,
            budget,
        ),
    }
}

proof fn lemma_total_budget_nonneg(s: Seq<(String, u128)>)
    ensures
        total_budget(s) >= 0,
    decreases s.len(),
{
    if s.len() > 0 {
        lemma_total_budget_nonneg(s.drop_last());
    }
}

proof fn lemma_total_budget_take_step(s: Seq<(String, u128)>, i: int)
    requires
        0 <= i < s.len(),
    ensures
        total_budget(s.take(i + 1)) == total_budget(s.take(i)) + s[i].1,
{
    assert(s.take(i + 1).drop_last() =~= s.take(i));
    assert(s.take(i + 1).last() == s[i]);
}

proof fn lemma_total_budget_take_le(s: Seq<(String, u128)>, i: int)
    requires
        0 <= i <= s.len(),
    ensures
        total_budget(s.take(i)) <= total_budget(s),
    decreases s.len() - i,
{
    if i == s.len() {
        assert(s.take(i) =~= s);
    } else {
        lemma_total_budget_take_step(s, i);
        lemma_total_budget_take_le(s, i + 1);
    }
}

proof fn lemma_total_budget_element(s: Seq<(String, u128)>, i: int)
    requires
        0 <= i < s.len(),
    ensures
        s[i].1 <= total_budget(s),
    decreases s.len(),
{
    if i == s.len() - 1 {
        lemma_total_budget_nonneg(s.drop_last());
    } else {
        assert(s.drop_last()[i] == s[i]);
        lemma_total_budget_element(s.drop_last(), i);
    }
}

proof fn lemma_total_budget_update(s: Seq<(String, u128)>, i: int, b: u128)
    requires
        0 <= i < s.len(),
    ensures
        total_budget(s.update(i, (s[i].0, b))) == total_budget(s) - s[i].1 + b,
    decreases s.len(),
{
    let t = s.update(i, (s[i].0, b));
    if i == s.len() - 1 {
        assert(t.drop_last() =~= s.drop_last());
        assert(t.last() == (s[i].0, b));
    } else {
        assert(t.drop_last() =~= s.drop_last().update(i, (s.drop_last()[i].0, b)));
        assert(s.drop_last()[i] == s[i]);
        lemma_total_budget_update(s.drop_last(), i, b);
        assert(t.last() == s.last());
    }
}

proof fn lemma_total_budget_all_zero(s: Seq<(String, u128)>)
    requires
        forall|i: int| 0 <= i < s.len() ==> s[i].1 == 0,
    ensures
        total_budget(s) == 0,
    decreases s.len(),
{
    if s.len() > 0 {
        assert(forall|i: int| 0 <= i < s.drop_last().len() ==> s.drop_last()[i].1 == 0);
        lemma_total_budget_all_zero(s.drop_last());
    }
}

/// Once any vote has been recorded, every further vote is rejected:
/// the ledger is single-use across all callers and all scenarios. When
/// the later vote passes the cap, zero-budget and unknown-scenario
/// checks, it is rejected precisely with `AlreadyVoted`.
pub proof fn lemma_ledger_is_single_use(
    s: Seq<(String, u128)>,
    scenario: Seq<char>,
    budget: u128,
    scenario2: Seq<char>,
    budget2: u128,
)
    requires
        submit_outcome(s, scenario, budget) is None,
    ensures
        submit_outcome(record_vote(s, scenario, budget), scenario2, budget2) is Some,
        (budget2 != 0 && total_budget(record_vote(s, scenario, budget)) + budget2 <= MAX_BUDGET
            && contains_scenario(record_vote(s, scenario, budget), scenario2)) ==> submit_outcome(
            record_vote(s, scenario, budget),
            scenario2,
            budget2,
        ) == Some(ContractError::AlreadyVoted),
{
    let post = record_vote(s, scenario, budget);
    let i = choose|i: int| 0 <= i < s.len() && s[i].0@ == scenario;
    lemma_total_budget_element(s, i);
    assert(post[i].1 == s[i].1 + budget);
    assert(some_budget_positive(post));
}

fn sum_budgets(votes: &Votes) -> (r: u128)
    requires
        total_budget(votes.scenario_votes@) <= MAX_BUDGET,
    ensures
        r == total_budget(votes.scenario_votes@),
{
    let n: usize = votes.scenario_votes.len();
    let mut total: u128 = 0;
    let mut i: usize = 0;
    while i < n
        invariant
            i <= n,
            n == votes.scenario_votes@.len(),
            total_budget(votes.scenario_votes@) <= MAX_BUDGET,
            total == total_budget(votes.scenario_votes@.take(i as int)),
            total <= MAX_BUDGET,
        decreases n - i,
    {
        proof {
            lemma_total_budget_take_step(votes.scenario_votes@, i as int);
            lemma_total_budget_take_le(votes.scenario_votes@, i + 1);
        }
        total = total + votes.scenario_votes[i].1;
        i = i + 1;
    }
    proof {
        assert(votes.scenario_votes@.take(n as int) =~= votes.scenario_votes@);
    }
    total
}

/// The index of the entry named `scenario`, when one exists.
fn find_scenario(votes: &Votes, scenario: &String) -> (r: Option<usize>)
    ensures
        (match r {
            Some(i) => i < votes.scenario_votes@.len() && votes.scenario_votes@[i as int].0@
                == scenario@,
            None => !contains_scenario(votes.scenario_votes@, scenario@),
        }),
{
    let n: usize = votes.scenario_votes.len();
    let mut i: usize = 0;
    while i < n
        invariant
            i <= n,
            n == votes.scenario_votes@.len(),
            forall|k: int| 0 <= k < i ==> votes.scenario_votes@[k].0@ != scenario@,
        decreases n - i,
    {
        if votes.scenario_votes[i].0 == *scenario {
            return Some(i);
        }
        i = i + 1;
    }
    None
}

fn check_has_budget(budget: u128) -> (r: Option<ContractError>)
    ensures
        r == (if budget == 0 {
            Some(ContractError::InvalidBudget)
        } else {
            None::<ContractError>
        }),
{
    if budget == 0 {
        Some(ContractError::InvalidBudget)
    } else {
        None
    }
}

fn check_scenario_exists(scenario: &String, votes: &Votes) -> (r: Option<ContractError>)
    ensures
        r == (if contains_scenario(votes.scenario_votes@, scenario@) {
            None::<ContractError>
        } else {
            Some(ContractError::ScenarioNotFound)
        }),
{
    match find_scenario(votes, scenario) {
        Some(i) => {
            proof {
                assert(votes.scenario_votes@[i as int].0@ == scenario@);
            }
            None
        },
        None => Some(ContractError::ScenarioNotFound),
    }
}

fn check_has_not_voted_for_scenario(scenario: &String, votes: &Votes) -> (r: Option<ContractError>)
    ensures
        r == (if voted_for(votes.scenario_votes@, scenario@) {
            Some(ContractError::AlreadyVoted)
        } else {
            None::<ContractError>
        }),
{
    let n: usize = votes.scenario_votes.len();
    let mut i: usize = 0;
    while i < n
        invariant
            i <= n,
            n == votes.scenario_votes@.len(),
            forall|k: int|
                0 <= k < i ==> !(votes.scenario_votes@[k].0@ == scenario@
                    && votes.scenario_votes@[k].1 > 0),
        decreases n - i,
    {
        if votes.scenario_votes[i].0 == *scenario && votes.scenario_votes[i].1 > 0 {
            return Some(ContractError::AlreadyVoted);
        }
        i = i + 1;
    }
    None
}

fn check_has_not_voted_for_other_scenarios(scenario: &String, votes: &Votes) -> (r: Option<
    ContractError,
>)
    ensures
        r == (if voted_for_other(votes.scenario_votes@, scenario@) {
            Some(ContractError::AlreadyVoted)
        } else {
            None::<ContractError>
        }),
{
    let n: usize = votes.scenario_votes.len();
    let mut i: usize = 0;
    while i < n
        invariant
            i <= n,
            n == votes.scenario_votes@.len(),
            forall|k: int|
                0 <= k < i ==> !(votes.scenario_votes@[k].0@ != scenario@
                    && votes.scenario_votes@[k].1 > 0),
        decreases n - i,
    {
        if !(votes.scenario_votes[i].0 == *scenario) && votes.scenario_votes[i].1 > 0 {
            return Some(ContractError::AlreadyVoted);
        }
        i = i + 1;
    }
    None
}

/// Runs the validation checks in order: global cap, zero budget, unknown
/// scenario, vote already recorded for this or for another scenario.
fn validate(scenario: &String, budget: u128, votes: &Votes, total: u128) -> (r: Option<
    ContractError,
>)
    requires
        total == total_budget(votes.scenario_votes@),
        total <= MAX_BUDGET,
    ensures
        r == submit_outcome(votes.scenario_votes@, scenario@, budget),
{
    if budget > MAX_BUDGET - total {
        return Some(ContractError::BudgetCapExceeded);
    }
    if let Some(e) = check_has_budget(budget) {
        return Some(e);
    }
    if let Some(e) = check_scenario_exists(scenario, votes) {
        return Some(e);
    }
    if let Some(e) = check_has_not_voted_for_scenario(scenario, votes) {
        return Some(e);
    }
    if let Some(e) = check_has_not_voted_for_other_scenarios(scenario, votes) {
        return Some(e);
    }
    proof {
        assert(!some_budget_positive(votes.scenario_votes@)) by {
            if some_budget_positive(votes.scenario_votes@) {
                let i = choose|i: int|
                    0 <= i < votes.scenario_votes@.len() && votes.scenario_votes@[i].1 > 0;
                if votes.scenario_votes@[i].0@ == scenario@ {
                    assert(voted_for(votes.scenario_votes@, scenario@));
                } else {
                    assert(voted_for_other(votes.scenario_votes@, scenario@));
                }
            }
        }
    }
    None
}

/// Builds the fixed scenario list with zero budget each.
pub fn instantiate(msg: InstantiateMsg) -> (v: Votes)
    requires
        distinct_name_list(msg.scenarios@),
    ensures
        v.scenario_votes@.len() == msg.scenarios@.len(),
        forall|i: int|
            0 <= i < msg.scenarios@.len() ==> v.scenario_votes@[i].0 == msg.scenarios@[i]
                && v.scenario_votes@[i].1 == 0,
        v.well_formed(),
        total_budget(v.scenario_votes@) == 0,
{
    let n: usize = msg.scenarios.len();
    let mut entries: Vec<(String, u128)> = Vec::new();
    let mut i: usize = 0;
    while i < n
        invariant
            i <= n,
            n == msg.scenarios@.len(),
            entries@.len() == i,
            forall|k: int| 0 <= k < i ==> entries@[k].0 == msg.scenarios@[k],
            forall|k: int| 0 <= k < i ==> entries@[k].1 == 0,
        decreases n - i,
    {
        entries.push((msg.scenarios[i].clone(), 0));
        i = i + 1;
    }
    proof {
        lemma_total_budget_all_zero(entries@);
        assert forall|a: int, b: int|
            0 <= a < b < entries@.len() implies entries@[a].0@ != entries@[b].0@ by {
            assert(entries@[a].0 == msg.scenarios@[a]);
            assert(entries@[b].0 == msg.scenarios@[b]);
            assert(msg.scenarios@[a]@ != msg.scenarios@[b]@);
        }
    }
    Votes { scenario_votes: entries }
}

/// Allocates `budget` to `scenario`, or rejects the vote. The checks
/// apply in this order: the global cap over all scenarios, a zero
/// budget, an unknown scenario, and a vote already recorded anywhere in
/// the ledger. A rejected vote leaves the ledger untouched.
pub fn submit_vote(votes: &mut Votes, scenario: &String, budget: u128) -> (r: Result<
    (),
    ContractError,
>)
    requires
        old(votes).well_formed(),
    ensures
        final(votes).well_formed(),
        submit_vote_post(*old(votes), *final(votes), scenario@, budget, r),
        budget == 0 ==> r == Err::<(), ContractError>(ContractError::InvalidBudget),
        (budget != 0 && total_budget(old(votes).scenario_votes@) + budget <= MAX_BUDGET
            && !contains_scenario(old(votes).scenario_votes@, scenario@)) ==> r == Err::<
            (),
            ContractError,
        >(ContractError::ScenarioNotFound),
        r is Ok ==> total_budget(final(votes).scenario_votes@) == total_budget(
            old(votes).scenario_votes@,
        ) + budget,
        r is Err ==> *final(votes) == *old(votes),
{
    let total: u128 = sum_budgets(votes);
    match validate(scenario, budget, votes, total) {
        Some(e) => Err(e),
        None => {
            match find_scenario(votes, scenario) {
                Some(i) => {
                    proof {
                        lemma_total_budget_element(votes.scenario_votes@, i as int);
                    }
                    let old_b: u128 = votes.scenario_votes[i].1;
                    let ghost pre = votes.scenario_votes@;
                    votes.scenario_votes[i].1 = old_b + budget;
                    proof {
                        let post = votes.scenario_votes@;
                        assert(post =~= pre.update(i as int, (pre[i as int].0, (old_b
                            + budget) as u128)));
                        lemma_total_budget_update(pre, i as int, (old_b + budget) as u128);
                        assert(post =~= record_vote(pre, scenario@, budget)) by {
                            assert(forall|k: int|
                                0 <= k < post.len() && k != i ==> pre[k].0@ != scenario@);
                        }
                    }
                    Ok(())
                },
                None => {
                    proof {
                        assert(false);
                    }
                    Err(ContractError::ScenarioNotFound)
                },
            }
        },
    }
}

/// A snapshot of the current scenario list and budgets.
pub fn get_votes(votes: &Votes) -> (r: Votes)
    ensures
        r.scenario_votes@ == votes.scenario_votes@,
{
    let n: usize = votes.scenario_votes.len();
    let mut entries: Vec<(String, u128)> = Vec::new();
    let mut i: usize = 0;
    while i < n
        invariant
            i <= n,
            n == votes.scenario_votes@.len(),
            entries@.len() == i,
            forall|k: int| 0 <= k < i ==> entries@[k] == votes.scenario_votes@[k],
        decreases n - i,
    {
        entries.push((votes.scenario_votes[i].0.clone(), votes.scenario_votes[i].1));
        i = i + 1;
    }
    proof {
        assert(entries@ =~= votes.scenario_votes@);
    }
    Votes { scenario_votes: entries }
}

/// Dispatches a mutating call on the ledger.
pub fn execute(votes: &mut Votes, msg: ExecuteMsg) -> (r: Result<(), ContractError>)
    requires
        old(votes).well_formed(),
    ensures
        final(votes).well_formed(),
        (match msg.action {
            Action::SubmitVote { scenario, budget } => submit_vote_post(
                *old(votes),
                *final(votes),
                scenario@,
                budget,
                r,
            ),
        }),
{
    match msg.action {
        Action::SubmitVote { scenario, budget } => submit_vote(votes, &scenario, budget),
    }
}

/// Answers a read-only call on the ledger.
pub fn query(votes: &Votes, msg: QueryMsg) -> (r: Votes)
    ensures
        (match msg.action {
            QueryAction::GetVotes {} => r.scenario_votes@ == votes.scenario_votes@,
        }),
{
    match msg.action {
        QueryAction::GetVotes {} => get_votes(votes),
    }
}

} // verus!
