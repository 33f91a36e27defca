use card_game::contract::{
    execute, execute_receive_hex_randomness, execute_set_config, execute_shuffle_deck,
    instantiate, migrate, query, query_get_decks, ValidatedAddresses,
};
use card_game::error::ContractError;
use card_game::msg::{AurandExecuteMsg, Coin, ExecuteMsg, MessageInfo, MigrateMsg, QueryMsg};
use card_game::state::{Config, Ledger};

const OWNER: &str = "owner";
const ORACLE: &str = "oracle";
const ZERO_SEED: &str = "0000000000000000000000000000000000000000000000000000000000000000";

fn info(sender: &str) -> MessageInfo {
    MessageInfo { sender: sender.to_string(), funds: vec![] }
}

fn ledger() -> Ledger {
    Ledger::new(Config { aurand_address: ORACLE.to_string(), owner: OWNER.to_string() })
}

fn resolved(id: &str, seed: &str) -> Ledger {
    let mut l = ledger();
    execute_shuffle_deck(&mut l, info(OWNER), id.to_string()).unwrap();
    execute_receive_hex_randomness(&mut l, info(ORACLE), id.to_string(), vec![seed.to_string()])
        .unwrap();
    l
}

#[test]
fn open_records_job_and_requests_one_unit() {
    let mut l = ledger();
    let funds = vec![Coin { denom: "uaura".to_string(), amount: 300 }];
    let r = execute_shuffle_deck(
        &mut l,
        MessageInfo { sender: OWNER.to_string(), funds: funds.clone() },
        "job1".to_string(),
    )
    .unwrap();
    assert_eq!(l.job(&"job1".to_string()), Some(OWNER.to_string()));
    assert_eq!(r.messages.len(), 1);
    assert_eq!(r.messages[0].contract_addr, ORACLE);
    assert_eq!(r.messages[0].funds, funds);
    assert_eq!(
        r.messages[0].msg,
        AurandExecuteMsg::RequestHexRandomness { request_id: "job1".to_string(), num: 1 }
    );
    let attrs: Vec<(String, String)> =
        r.attributes.iter().map(|a| (a.key.clone(), a.value.clone())).collect();
    assert_eq!(
        attrs,
        vec![
            ("action".to_string(), "shuffle_deck".to_string()),
            ("sender".to_string(), OWNER.to_string()),
            ("request_id".to_string(), "job1".to_string()),
        ]
    );
}

#[test]
fn open_twice_is_duplicate() {
    let mut l = ledger();
    execute_shuffle_deck(&mut l, info(OWNER), "a".to_string()).unwrap();
    let r = execute_shuffle_deck(&mut l, info(OWNER), "a".to_string());
    assert_eq!(r.unwrap_err(), ContractError::DuplicateRequest);
}

#[test]
fn resolve_without_open_is_unknown() {
    let mut l = ledger();
    let r = execute_receive_hex_randomness(
        &mut l,
        info(ORACLE),
        "a".to_string(),
        vec![ZERO_SEED.to_string()],
    );
    assert_eq!(r.unwrap_err(), ContractError::UnknownRequest);
    assert!(l.random(&"a".to_string()).is_none());
}

#[test]
fn resolve_twice_is_unknown() {
    let mut l = resolved("a", ZERO_SEED);
    assert_eq!(l.job(&"a".to_string()), None);
    assert_eq!(l.random(&"a".to_string()), Some(&vec![ZERO_SEED.to_string()]));
    let r = execute_receive_hex_randomness(
        &mut l,
        info(ORACLE),
        "a".to_string(),
        vec!["11".repeat(32)],
    );
    assert_eq!(r.unwrap_err(), ContractError::UnknownRequest);
    assert_eq!(l.random(&"a".to_string()), Some(&vec![ZERO_SEED.to_string()]));
}

#[test]
fn open_by_non_owner_is_unauthorized() {
    let mut l = ledger();
    let r = execute_shuffle_deck(&mut l, info("mallory"), "a".to_string());
    assert_eq!(r.unwrap_err(), ContractError::Unauthorized);
    assert_eq!(l.job(&"a".to_string()), None);
}

#[test]
fn resolve_by_non_oracle_is_unauthorized() {
    let mut l = ledger();
    execute_shuffle_deck(&mut l, info(OWNER), "a".to_string()).unwrap();
    let r = execute_receive_hex_randomness(
        &mut l,
        info(OWNER),
        "a".to_string(),
        vec![ZERO_SEED.to_string()],
    );
    assert_eq!(r.unwrap_err(), ContractError::Unauthorized);
    assert_eq!(l.job(&"a".to_string()), Some(OWNER.to_string()));
    assert!(l.random(&"a".to_string()).is_none());
}

#[test]
fn request_id_length_boundary() {
    let mut l = ledger();
    let r = execute_shuffle_deck(&mut l, info(OWNER), "x".repeat(65));
    assert_eq!(r.unwrap_err(), ContractError::RequestIdTooLong);
    assert!(execute_shuffle_deck(&mut l, info(OWNER), "x".repeat(64)).is_ok());
}

#[test]
fn request_id_length_counts_characters() {
    let mut l = ledger();
    assert!(execute_shuffle_deck(&mut l, info(OWNER), "é".repeat(64)).is_ok());
    let r = execute_shuffle_deck(&mut l, info(OWNER), "é".repeat(65));
    assert_eq!(r.unwrap_err(), ContractError::RequestIdTooLong);
}

#[test]
fn owner_check_comes_before_length_check() {
    let mut l = ledger();
    let r = execute_shuffle_deck(&mut l, info("mallory"), "x".repeat(65));
    assert_eq!(r.unwrap_err(), ContractError::Unauthorized);
}

#[test]
fn reopen_after_resolve_is_accepted() {
    let mut l = resolved("a", ZERO_SEED);
    assert!(execute_shuffle_deck(&mut l, info(OWNER), "a".to_string()).is_ok());
    assert_eq!(l.job(&"a".to_string()), Some(OWNER.to_string()));
    assert!(l.random(&"a".to_string()).is_some());
}

#[test]
fn uninitialized_ledger_refuses() {
    let mut l = Ledger::uninitialized();
    let r = execute_shuffle_deck(&mut l, info(OWNER), "a".to_string());
    assert_eq!(r.unwrap_err(), ContractError::NotInitialized);
    assert!(l.config().is_none());
}

#[test]
fn instantiate_sets_config() {
    let (l, r) = instantiate(ValidatedAddresses {
        aurand_address: Some(ORACLE.to_string()),
        owner: Some(OWNER.to_string()),
    })
    .unwrap();
    assert_eq!(
        l.config(),
        Some(&Config { aurand_address: ORACLE.to_string(), owner: OWNER.to_string() })
    );
    assert_eq!(r.attributes.len(), 3);
    assert_eq!(r.attributes[1].value, ORACLE);
    assert_eq!(r.attributes[2].value, OWNER);
}

#[test]
fn instantiate_with_invalid_identity_fails() {
    let r = instantiate(ValidatedAddresses { aurand_address: None, owner: Some(OWNER.to_string()) });
    assert_eq!(r.unwrap_err(), ContractError::InvalidAddress);
}

#[test]
fn set_config_by_owner_replaces_both() {
    let mut l = ledger();
    execute_set_config(&mut l, info(OWNER), Some("o2".to_string()), Some("w2".to_string())).unwrap();
    assert_eq!(
        l.config(),
        Some(&Config { aurand_address: "o2".to_string(), owner: "w2".to_string() })
    );
    let r = execute_shuffle_deck(&mut l, info(OWNER), "a".to_string());
    assert_eq!(r.unwrap_err(), ContractError::Unauthorized);
}

#[test]
fn set_config_by_non_owner_is_unauthorized() {
    let mut l = ledger();
    let r = execute_set_config(&mut l, info(ORACLE), Some("o2".to_string()), Some("w2".to_string()));
    assert_eq!(r.unwrap_err(), ContractError::Unauthorized);
    assert_eq!(l.config().unwrap().owner, OWNER);
}

#[test]
fn set_config_with_invalid_identity_fails() {
    let mut l = ledger();
    let r = execute_set_config(&mut l, info(OWNER), Some("o2".to_string()), None);
    assert_eq!(r.unwrap_err(), ContractError::InvalidAddress);
    assert_eq!(l.config().unwrap().aurand_address, ORACLE);
}

#[test]
fn execute_dispatches_messages() {
    let mut l = ledger();
    let none = ValidatedAddresses { aurand_address: None, owner: None };
    execute(&mut l, info(OWNER), ExecuteMsg::ShuffleDeck { request_id: "a".to_string() }, none.clone())
        .unwrap();
    execute(
        &mut l,
        info(ORACLE),
        ExecuteMsg::ReceiveHexRandomness {
            request_id: "a".to_string(),
            randomness: vec![ZERO_SEED.to_string()],
        },
        none.clone(),
    )
    .unwrap();
    assert!(l.random(&"a".to_string()).is_some());
    let r = execute(
        &mut l,
        info(OWNER),
        ExecuteMsg::SetConfig { aurand_address: "x".to_string(), owner: "y".to_string() },
        none,
    );
    assert_eq!(r.unwrap_err(), ContractError::InvalidAddress);
}

#[test]
fn migrate_changes_nothing() {
    let r = migrate(MigrateMsg {}).unwrap();
    assert!(r.messages.is_empty());
    assert!(r.attributes.is_empty());
}

#[test]
fn query_on_absent_or_pending_id_is_empty() {
    let mut l = ledger();
    assert_eq!(query_get_decks(&l, &"a".to_string(), Some(3)), Ok(None));
    execute_shuffle_deck(&mut l, info(OWNER), "a".to_string()).unwrap();
    assert_eq!(query_get_decks(&l, &"a".to_string(), Some(3)), Ok(None));
}

#[test]
fn query_without_count_is_empty() {
    let l = resolved("a", ZERO_SEED);
    assert_eq!(query_get_decks(&l, &"a".to_string(), None), Ok(None));
}

#[test]
fn count_boundary() {
    let l = resolved("a", ZERO_SEED);
    assert_eq!(query_get_decks(&l, &"a".to_string(), Some(104)), Ok(None));
    let d = query_get_decks(&l, &"a".to_string(), Some(103)).unwrap().unwrap();
    assert_eq!(d.decks.len(), 103);
    assert_eq!(query_get_decks(&l, &"a".to_string(), Some(0)).unwrap().unwrap().decks.len(), 0);
}

#[test]
fn snapshots_are_permutations() {
    let l = resolved("a", &"ab".repeat(32));
    let d = query_get_decks(&l, &"a".to_string(), Some(7)).unwrap().unwrap();
    assert_eq!(d.decks.len(), 7);
    for deck in &d.decks {
        let mut s = deck.clone();
        s.sort();
        assert_eq!(s, (1..=52).collect::<Vec<u8>>());
    }
}

#[test]
fn zero_seed_example() {
    let l = resolved("a", ZERO_SEED);
    let p = nois::shuffle([0u8; 32], (1..=52).collect::<Vec<u8>>());
    let mut r1 = p.clone();
    r1.rotate_right(1);
    let mut r2 = r1.clone();
    r2.rotate_right(1);
    let one = query_get_decks(&l, &"a".to_string(), Some(1)).unwrap().unwrap();
    assert_eq!(one.decks, vec![r1.clone()]);
    let two = query_get_decks(&l, &"a".to_string(), Some(2)).unwrap().unwrap();
    assert_eq!(two.decks, vec![r1, r2]);
    assert_ne!(p, (1..=52).collect::<Vec<u8>>());
}

#[test]
fn same_randomness_same_decks() {
    let l1 = resolved("a", &"5a".repeat(32));
    let l2 = resolved("a", &"5A".repeat(32));
    let d1 = query_get_decks(&l1, &"a".to_string(), Some(10));
    let d2 = query_get_decks(&l1, &"a".to_string(), Some(10));
    let d3 = query_get_decks(&l2, &"a".to_string(), Some(10));
    assert_eq!(d1, d2);
    assert_eq!(d1, d3);
}

#[test]
fn different_seeds_give_different_permutations() {
    let l1 = resolved("a", ZERO_SEED);
    let l2 = resolved("a", &"01".repeat(32));
    let d1 = query_get_decks(&l1, &"a".to_string(), Some(1)).unwrap().unwrap();
    let d2 = query_get_decks(&l2, &"a".to_string(), Some(1)).unwrap().unwrap();
    assert_ne!(d1.decks, d2.decks);
}

#[test]
fn malformed_randomness_is_refused() {
    for bad in ["zz".repeat(32), "00".repeat(31), "00".repeat(33), "0".repeat(63)] {
        let mut l = ledger();
        execute_shuffle_deck(&mut l, info(OWNER), "a".to_string()).unwrap();
        let r = execute_receive_hex_randomness(&mut l, info(ORACLE), "a".to_string(), vec![bad]);
        assert_eq!(r.unwrap_err(), ContractError::InvalidRandomness);
        assert_eq!(l.job(&"a".to_string()), Some(OWNER.to_string()));
        assert!(l.random(&"a".to_string()).is_none());
    }
    let mut l = ledger();
    execute_shuffle_deck(&mut l, info(OWNER), "a".to_string()).unwrap();
    let r = execute_receive_hex_randomness(&mut l, info(ORACLE), "a".to_string(), vec![]);
    assert_eq!(r.unwrap_err(), ContractError::InvalidRandomness);
    assert_eq!(l.job(&"a".to_string()), Some(OWNER.to_string()));
}

#[test]
fn extra_randomness_elements_are_kept() {
    let mut l = ledger();
    execute_shuffle_deck(&mut l, info(OWNER), "a".to_string()).unwrap();
    let randomness = vec![ZERO_SEED.to_string(), "not hex".to_string()];
    execute_receive_hex_randomness(&mut l, info(ORACLE), "a".to_string(), randomness.clone())
        .unwrap();
    assert_eq!(l.random(&"a".to_string()), Some(&randomness));
}

#[test]
fn corrupt_stored_randomness_is_corrupt_state() {
    for bad in [vec![], vec!["zz".repeat(32)], vec!["00".repeat(31)]] {
        let mut l = ledger();
        l.insert_random("a".to_string(), bad);
        assert_eq!(query_get_decks(&l, &"a".to_string(), Some(1)), Err(ContractError::CorruptState));
        assert_eq!(query_get_decks(&l, &"a".to_string(), Some(104)), Ok(None));
        assert_eq!(query_get_decks(&l, &"a".to_string(), None), Ok(None));
    }
}

#[test]
fn execute_returns_the_oracle_request() {
    let mut l = ledger();
    let none = ValidatedAddresses { aurand_address: None, owner: None };
    let r = execute(
        &mut l,
        MessageInfo {
            sender: OWNER.to_string(),
            funds: vec![Coin { denom: "uaura".to_string(), amount: 5 }],
        },
        ExecuteMsg::ShuffleDeck { request_id: "a".to_string() },
        none,
    )
    .unwrap();
    assert_eq!(r.messages.len(), 1);
    assert_eq!(r.messages[0].contract_addr, ORACLE);
    assert_eq!(r.messages[0].funds, vec![Coin { denom: "uaura".to_string(), amount: 5 }]);
    assert_eq!(
        r.messages[0].msg,
        AurandExecuteMsg::RequestHexRandomness { request_id: "a".to_string(), num: 1 }
    );
    assert_eq!(r.attributes[0].value, "shuffle_deck");
}

#[test]
fn query_message_answers_get_decks() {
    let l = resolved("a", ZERO_SEED);
    let msg = QueryMsg::GetDecks { request_id: "a".to_string(), num: Some(2) };
    assert_eq!(query(&l, &msg), query_get_decks(&l, &"a".to_string(), Some(2)));
}
