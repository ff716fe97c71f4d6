use latch_ledger::error::ContractError;
use latch_ledger::voting::{
    execute, get_votes, instantiate, query, submit_vote, Action, ExecuteMsg, InstantiateMsg,
    QueryAction, QueryMsg,
};

#[test]
fn test_instantiate() {
    let msg = InstantiateMsg {
        scenarios: vec!["Scenario 1".to_string(), "Scenario 2".to_string()],
    };
    let votes = instantiate(msg);
    assert_eq!(votes.scenario_votes.len(), 2);
    assert_eq!(votes.scenario_votes[0], ("Scenario 1".to_string(), 0));
}

#[test]
fn test_submit_vote() {
    let msg = InstantiateMsg {
        scenarios: vec!["Scenario 1".to_string(), "Scenario 2".to_string()],
    };
    let mut votes = instantiate(msg);

    let vote_msg = ExecuteMsg {
        action: Action::SubmitVote {
            scenario: "Scenario 1".to_string(),
            budget: 100,
        },
    };
    let res = execute(&mut votes, vote_msg);
    assert!(res.is_ok());
    assert_eq!(votes.scenario_votes[0], ("Scenario 1".to_string(), 100));

    let vote_msg = ExecuteMsg {
        action: Action::SubmitVote {
            scenario: "Scenario 2".to_string(),
            budget: 1001,
        },
    };
    let err = execute(&mut votes, vote_msg).unwrap_err();
    assert_eq!(err, ContractError::BudgetCapExceeded);

    let vote_msg = ExecuteMsg {
        action: Action::SubmitVote {
            scenario: "Invalid".to_string(),
            budget: 50,
        },
    };
    let err = execute(&mut votes, vote_msg).unwrap_err();
    assert_eq!(err, ContractError::ScenarioNotFound);
}

#[test]
fn test_query_votes() {
    let msg = InstantiateMsg {
        scenarios: vec!["Scenario 1".to_string(), "Scenario 2".to_string()],
    };
    let votes = instantiate(msg);

    let query_msg = QueryMsg {
        action: QueryAction::GetVotes {},
    };
    let snapshot = query(&votes, query_msg);
    assert_eq!(snapshot.scenario_votes.len(), 2);
    assert_eq!(snapshot.scenario_votes[0], ("Scenario 1".to_string(), 0));
}

#[test]
fn test_one_vote_then_every_vote_fails() {
    let msg = InstantiateMsg {
        scenarios: vec!["A".to_string(), "B".to_string()],
    };
    let mut votes = instantiate(msg);

    let res = submit_vote(&mut votes, &"A".to_string(), 100);
    assert!(res.is_ok());
    assert_eq!(votes.scenario_votes[0], ("A".to_string(), 100));
    assert_eq!(votes.scenario_votes[1], ("B".to_string(), 0));

    let err = submit_vote(&mut votes, &"B".to_string(), 50).unwrap_err();
    assert_eq!(err, ContractError::AlreadyVoted);

    let err = submit_vote(&mut votes, &"A".to_string(), 1).unwrap_err();
    assert_eq!(err, ContractError::AlreadyVoted);
    assert_eq!(votes.scenario_votes[0], ("A".to_string(), 100));
    assert_eq!(votes.scenario_votes[1], ("B".to_string(), 0));
}

#[test]
fn test_budget_cap_on_empty_ledger() {
    let msg = InstantiateMsg {
        scenarios: vec!["A".to_string()],
    };
    let mut votes = instantiate(msg);
    let err = submit_vote(&mut votes, &"A".to_string(), 1001).unwrap_err();
    assert_eq!(err, ContractError::BudgetCapExceeded);
    assert_eq!(votes.scenario_votes[0], ("A".to_string(), 0));
}

#[test]
fn test_full_budget_is_accepted() {
    let msg = InstantiateMsg {
        scenarios: vec!["A".to_string()],
    };
    let mut votes = instantiate(msg);
    let res = submit_vote(&mut votes, &"A".to_string(), 1000);
    assert!(res.is_ok());
    assert_eq!(votes.scenario_votes[0], ("A".to_string(), 1000));
}

#[test]
fn test_zero_budget_is_invalid() {
    let msg = InstantiateMsg {
        scenarios: vec!["A".to_string(), "B".to_string()],
    };
    let mut votes = instantiate(msg);
    let err = submit_vote(&mut votes, &"A".to_string(), 0).unwrap_err();
    assert_eq!(err, ContractError::InvalidBudget);
    let err = submit_vote(&mut votes, &"Missing".to_string(), 0).unwrap_err();
    assert_eq!(err, ContractError::InvalidBudget);
}

#[test]
fn test_unknown_scenario_not_found() {
    let msg = InstantiateMsg {
        scenarios: vec!["A".to_string(), "B".to_string()],
    };
    let mut votes = instantiate(msg);
    let err = submit_vote(&mut votes, &"C".to_string(), 10).unwrap_err();
    assert_eq!(err, ContractError::ScenarioNotFound);
    assert_eq!(votes.scenario_votes[0], ("A".to_string(), 0));
}

#[test]
fn test_get_votes_snapshot() {
    let msg = InstantiateMsg {
        scenarios: vec!["A".to_string(), "B".to_string()],
    };
    let mut votes = instantiate(msg);
    submit_vote(&mut votes, &"B".to_string(), 7).unwrap();
    let snapshot = get_votes(&votes);
    assert_eq!(snapshot.scenario_votes, votes.scenario_votes);
    assert_eq!(snapshot.scenario_votes[1], ("B".to_string(), 7));
}
