use latch_ledger::contract::{execute, instantiate, query, Ack, Execute, Query};
use latch_ledger::error::ContractError;

#[test]
fn test_unified_core_lifecycle() {
    let mut state = instantiate(
        vec!["A".to_string(), "B".to_string()],
        "root".to_string(),
    );
    let alice = "alice".to_string();
    let root = "root".to_string();

    // A vote on the scenario ledger.
    let ack = execute(
        &mut state,
        &alice,
        Execute::SubmitVote {
            scenario: "A".to_string(),
            budget: 100,
        },
    )
    .unwrap();
    assert_eq!(
        ack,
        Ack::VoteSubmitted {
            scenario: "A".to_string()
        }
    );
    let snapshot = query(&state, Query::GetVotes {});
    assert_eq!(snapshot.scenario_votes[0], ("A".to_string(), 100));

    // The ledger is single-use: the next vote fails wherever it goes.
    let err = execute(
        &mut state,
        &root,
        Execute::SubmitVote {
            scenario: "B".to_string(),
            budget: 50,
        },
    )
    .unwrap_err();
    assert_eq!(err, ContractError::AlreadyVoted);

    // A latch among alice and bob, opening at two votes.
    let ack = execute(
        &mut state,
        &root,
        Execute::CreateLatch {
            id: "L1".to_string(),
            threshold: 2,
            participants: vec!["alice".to_string(), "bob".to_string()],
        },
    )
    .unwrap();
    assert_eq!(
        ack,
        Ack::LatchCreated {
            id: "L1".to_string()
        }
    );

    let ack = execute(
        &mut state,
        &alice,
        Execute::Vote {
            latch_id: "L1".to_string(),
        },
    )
    .unwrap();
    assert_eq!(
        ack,
        Ack::Voted {
            latch_id: "L1".to_string(),
            is_open: false
        }
    );

    let ack = execute(
        &mut state,
        &"bob".to_string(),
        Execute::Vote {
            latch_id: "L1".to_string(),
        },
    )
    .unwrap();
    assert_eq!(
        ack,
        Ack::Voted {
            latch_id: "L1".to_string(),
            is_open: true
        }
    );

    // Reconfiguration is admin-gated; the open flag survives it.
    let err = execute(
        &mut state,
        &alice,
        Execute::UpdateThreshold {
            latch_id: "L1".to_string(),
            new_threshold: 10,
        },
    )
    .unwrap_err();
    assert_eq!(err, ContractError::Unauthorized);

    let ack = execute(
        &mut state,
        &root,
        Execute::UpdateThreshold {
            latch_id: "L1".to_string(),
            new_threshold: 10,
        },
    )
    .unwrap();
    assert_eq!(
        ack,
        Ack::ThresholdUpdated {
            latch_id: "L1".to_string(),
            new_threshold: 10
        }
    );
    assert!(state.latches[0].is_open);

    // Synchronization is unchecked and unconditional.
    let ack = execute(
        &mut state,
        &alice,
        Execute::SyncLatch {
            latch_id: "L9".to_string(),
            actor_state: "observing".to_string(),
        },
    )
    .unwrap();
    assert_eq!(
        ack,
        Ack::LatchSynced {
            latch_id: "L9".to_string()
        }
    );
    assert_eq!(
        state.config.latch_actors,
        vec![("L9".to_string(), "observing".to_string())]
    );
}

#[test]
fn test_unified_core_errors() {
    let mut state = instantiate(vec!["A".to_string()], "root".to_string());
    let alice = "alice".to_string();

    let err = execute(
        &mut state,
        &alice,
        Execute::SubmitVote {
            scenario: "A".to_string(),
            budget: 0,
        },
    )
    .unwrap_err();
    assert_eq!(err, ContractError::InvalidBudget);

    let err = execute(
        &mut state,
        &alice,
        Execute::Vote {
            latch_id: "L1".to_string(),
        },
    )
    .unwrap_err();
    assert_eq!(err, ContractError::LatchNotFound);

    let err = execute(
        &mut state,
        &alice,
        Execute::UpdateThreshold {
            latch_id: "L1".to_string(),
            new_threshold: 1,
        },
    )
    .unwrap_err();
    assert_eq!(err, ContractError::LatchNotFound);
}
