use latch_ledger::error::ContractError;
use latch_ledger::latch::{
    create_latch, init_contract, sync_latch, update_threshold, vote, Config, Latch,
};

fn two_party_latch() -> Vec<Latch> {
    let mut latches: Vec<Latch> = Vec::new();
    create_latch(
        &mut latches,
        "L1".to_string(),
        2,
        vec!["alice".to_string(), "bob".to_string()],
    );
    latches
}

#[test]
fn test_latch_opens_at_threshold() {
    let mut latches = two_party_latch();
    assert_eq!(latches[0].votes, 0);
    assert!(!latches[0].is_open);

    let open = vote(&mut latches, &"L1".to_string(), &"alice".to_string()).unwrap();
    assert!(!open);
    assert_eq!(latches[0].votes, 1);

    let open = vote(&mut latches, &"L1".to_string(), &"bob".to_string()).unwrap();
    assert!(open);
    assert_eq!(latches[0].votes, 2);

    let open = vote(&mut latches, &"L1".to_string(), &"alice".to_string()).unwrap();
    assert!(open);
    assert_eq!(latches[0].votes, 3);
    assert!(latches[0].is_open);
}

#[test]
fn test_vote_unknown_latch() {
    let mut latches = two_party_latch();
    let err = vote(&mut latches, &"L9".to_string(), &"alice".to_string()).unwrap_err();
    assert_eq!(err, ContractError::LatchNotFound);
}

#[test]
fn test_vote_by_non_participant() {
    let mut latches = two_party_latch();
    let err = vote(&mut latches, &"L1".to_string(), &"carol".to_string()).unwrap_err();
    assert_eq!(err, ContractError::UnauthorizedParticipant);
    assert_eq!(latches[0].votes, 0);
    assert!(!latches[0].is_open);
}

#[test]
fn test_create_latch_overwrites() {
    let mut latches = two_party_latch();
    vote(&mut latches, &"L1".to_string(), &"alice".to_string()).unwrap();
    assert_eq!(latches[0].votes, 1);

    create_latch(
        &mut latches,
        "L1".to_string(),
        1,
        vec!["carol".to_string()],
    );
    assert_eq!(latches.len(), 1);
    assert_eq!(latches[0].votes, 0);
    assert_eq!(latches[0].threshold, 1);
    assert!(!latches[0].is_open);
    assert_eq!(latches[0].participants, vec!["carol".to_string()]);
}

#[test]
fn test_update_threshold_requires_admin() {
    let mut latches = two_party_latch();
    let config = init_contract("root".to_string());

    let err = update_threshold(
        &mut latches,
        &config,
        &"L1".to_string(),
        5,
        &"alice".to_string(),
    )
    .unwrap_err();
    assert_eq!(err, ContractError::Unauthorized);
    assert_eq!(latches[0].threshold, 2);

    update_threshold(
        &mut latches,
        &config,
        &"L1".to_string(),
        5,
        &"root".to_string(),
    )
    .unwrap();
    assert_eq!(latches[0].threshold, 5);
}

#[test]
fn test_update_threshold_unknown_latch() {
    let mut latches = two_party_latch();
    let config = init_contract("root".to_string());
    let err = update_threshold(
        &mut latches,
        &config,
        &"L9".to_string(),
        5,
        &"root".to_string(),
    )
    .unwrap_err();
    assert_eq!(err, ContractError::LatchNotFound);
}

#[test]
fn test_open_latch_stays_open_when_threshold_raised() {
    let mut latches = two_party_latch();
    let config = init_contract("root".to_string());
    vote(&mut latches, &"L1".to_string(), &"alice".to_string()).unwrap();
    let open = vote(&mut latches, &"L1".to_string(), &"bob".to_string()).unwrap();
    assert!(open);

    update_threshold(
        &mut latches,
        &config,
        &"L1".to_string(),
        10,
        &"root".to_string(),
    )
    .unwrap();
    assert!(latches[0].is_open);

    let open = vote(&mut latches, &"L1".to_string(), &"alice".to_string()).unwrap();
    assert!(open);
    assert!(latches[0].is_open);
}

#[test]
fn test_lowered_threshold_opens_only_on_next_vote() {
    let mut latches: Vec<Latch> = Vec::new();
    create_latch(
        &mut latches,
        "L1".to_string(),
        5,
        vec!["alice".to_string(), "bob".to_string()],
    );
    let config = init_contract("root".to_string());
    vote(&mut latches, &"L1".to_string(), &"alice".to_string()).unwrap();
    vote(&mut latches, &"L1".to_string(), &"bob".to_string()).unwrap();
    assert_eq!(latches[0].votes, 2);
    assert!(!latches[0].is_open);

    update_threshold(
        &mut latches,
        &config,
        &"L1".to_string(),
        2,
        &"root".to_string(),
    )
    .unwrap();
    assert!(!latches[0].is_open);

    let open = vote(&mut latches, &"L1".to_string(), &"alice".to_string()).unwrap();
    assert!(open);
    assert!(latches[0].is_open);
}

#[test]
fn test_init_contract_assigns_admin() {
    let config = init_contract("root".to_string());
    assert_eq!(config.roles, vec![("root".to_string(), "admin".to_string())]);
    assert!(config.latch_actors.is_empty());
}

#[test]
fn test_sync_latch_records_and_overwrites() {
    let mut config: Config = init_contract("root".to_string());
    sync_latch(&mut config, "L1".to_string(), "probing".to_string());
    assert_eq!(
        config.latch_actors,
        vec![("L1".to_string(), "probing".to_string())]
    );

    sync_latch(&mut config, "L1".to_string(), "settled".to_string());
    assert_eq!(
        config.latch_actors,
        vec![("L1".to_string(), "settled".to_string())]
    );

    // No existence check against the latch registry, by design.
    sync_latch(&mut config, "unknown".to_string(), "drift".to_string());
    assert_eq!(config.latch_actors.len(), 2);
    assert_eq!(
        config.latch_actors[1],
        ("unknown".to_string(), "drift".to_string())
    );
}
