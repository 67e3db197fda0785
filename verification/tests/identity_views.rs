use std::collections::HashMap;

use mx_agents::identity::{IdentityStorage, ViewError, ViewsModule};
use mx_agents::structs::{AgentDetails, Payment};

const AGENT_OWNER: [u8; 32] = [0xa1; 32];
const CLIENT: [u8; 32] = [0xc1; 32];

fn details(name: &[u8], public_key: &[u8]) -> AgentDetails {
    AgentDetails { name: name.to_vec(), public_key: public_key.to_vec() }
}

fn payment(token: &[u8], nonce: u64, amount: u64) -> Payment {
    let bytes: Vec<u8> = amount.to_be_bytes().iter().copied().skip_while(|b| *b == 0).collect();
    Payment { token_identifier: token.to_vec(), token_nonce: nonce, amount: bytes }
}

fn empty_storage() -> IdentityStorage {
    IdentityStorage {
        agents: Vec::new(),
        agent_details: HashMap::new(),
        agent_metadata: HashMap::new(),
        agent_service_config: HashMap::new(),
    }
}

/// One agent, nonce 1, owned by AGENT_OWNER.
fn one_agent(
    name: &[u8],
    public_key: &[u8],
    metadata: Vec<(&[u8], &[u8])>,
    services: Vec<(u32, u64, &[u8], u64)>,
) -> IdentityStorage {
    let mut s = empty_storage();
    s.agents.push((1, AGENT_OWNER));
    s.agent_details.insert(1, details(name, public_key));
    if !metadata.is_empty() {
        s.agent_metadata
            .insert(1, metadata.into_iter().map(|(k, v)| (k.to_vec(), v.to_vec())).collect());
    }
    if !services.is_empty() {
        s.agent_service_config.insert(
            1,
            services
                .into_iter()
                .map(|(id, price, token, nonce)| (id, payment(token, nonce, price)))
                .collect(),
        );
    }
    s
}

fn two_agents() -> IdentityStorage {
    let mut s = empty_storage();
    s.agents.push((1, AGENT_OWNER));
    s.agents.push((2, CLIENT));
    s.agent_details.insert(1, details(b"Agent1", b"pubkey1"));
    s.agent_details.insert(2, details(b"Agent2", b"pubkey2"));
    s
}

#[test]
fn test_query_get_agent_view() {
    let state = one_agent(b"TestAgent", b"pubkey123", vec![], vec![]);
    let agent = state.get_agent(1).unwrap();
    assert_eq!(agent.name, b"TestAgent".to_vec());
    assert_eq!(agent.public_key, b"pubkey123".to_vec());
}

#[test]
fn test_query_agents_bidi() {
    let state = one_agent(b"TestAgent", b"pubkey123", vec![], vec![]);
    let entries = state.get_agents(0, 100).unwrap();
    assert_eq!(entries.len(), 1);
    assert_eq!(entries[0].nonce, 1u64);
    assert_eq!(entries[0].owner, AGENT_OWNER);
}

#[test]
fn test_query_agents_paginated() {
    let state = two_agents();
    let count = state.get_agent_count();
    assert_eq!(count, 2);

    let page = state.get_agents(0, 10).unwrap();
    assert_eq!(page.len(), 2);
    let names: Vec<Vec<u8>> = page.iter().map(|e| e.details.name.clone()).collect();
    assert!(names.contains(&b"Agent1".to_vec()));
    assert!(names.contains(&b"Agent2".to_vec()));

    let page1 = state.get_agents(0, 1).unwrap();
    assert_eq!(page1.len(), 1);
    let page2 = state.get_agents(1, 1).unwrap();
    assert_eq!(page2.len(), 1);
}

#[test]
fn test_query_nonexistent_agent() {
    let state = empty_storage();
    assert_eq!(state.get_agent(99), Err(ViewError::AgentNotFound));
    assert_eq!(state.get_agent_owner(99), Err(ViewError::AgentNotFound));
}

#[test]
fn test_query_agent_metadata_page() {
    let state = one_agent(
        b"TestAgent",
        b"pubkey123",
        vec![(b"key1", b"val1"), (b"key2", b"val2")],
        vec![],
    );
    let page = state.get_agent_metadata_page(1, 0, 10);
    assert_eq!(page.len(), 2);
    let page1 = state.get_agent_metadata_page(1, 0, 1);
    assert_eq!(page1.len(), 1);
}

#[test]
fn test_query_agent_service_configs_page() {
    let state = one_agent(
        b"TestAgent",
        b"pubkey123",
        vec![],
        vec![(1u32, 100u64, b"USDC-abcdef", 0u64), (2u32, 200u64, b"USDC-abcdef", 0u64)],
    );
    let page = state.get_agent_service_configs_page(1, 0, 10);
    assert_eq!(page.len(), 2);
}

#[test]
fn test_pagination_edge_cases() {
    let state = one_agent(
        b"Agent1",
        b"pubkey1",
        vec![(b"k1", b"v1")],
        vec![(1u32, 100u64, b"USDC-abcdef", 0u64)],
    );

    // from > total count (agents)
    assert_eq!(state.get_agents(100, 10).unwrap().len(), 0);
    // size = 0
    assert_eq!(state.get_agents(0, 0).unwrap().len(), 0);
    // size > 100 (capped at 100)
    assert_eq!(state.get_agents(0, 200).unwrap().len(), 1);
    // non-existent nonce for metadata
    assert_eq!(state.get_agent_metadata_page(99, 0, 10).len(), 0);
    // non-existent nonce for service configs
    assert_eq!(state.get_agent_service_configs_page(99, 0, 10).len(), 0);
}

#[test]
fn get_agent_owner_returns_registered_owner() {
    let state = two_agents();
    assert_eq!(state.get_agent_owner(1), Ok(AGENT_OWNER));
    assert_eq!(state.get_agent_owner(2), Ok(CLIENT));
    assert_eq!(state.get_agent_owner(3), Err(ViewError::AgentNotFound));
}

#[test]
fn get_agent_without_stored_details_fails_to_decode() {
    let mut state = two_agents();
    state.agent_details.remove(&2);
    assert_eq!(state.get_agent(2), Err(ViewError::AgentDetailsMissing));
    assert_eq!(state.get_agent(1).unwrap().name, b"Agent1".to_vec());
    // the owner lookup does not read the details
    assert_eq!(state.get_agent_owner(2), Ok(CLIENT));
}

#[test]
fn get_agents_fails_only_when_a_listed_agent_lacks_details() {
    let mut state = two_agents();
    state.agent_details.remove(&2);
    assert_eq!(state.get_agents(0, 10), Err(ViewError::AgentDetailsMissing));
    assert_eq!(state.get_agents(1, 1), Err(ViewError::AgentDetailsMissing));
    // a page that does not reach agent 2 still succeeds
    let first = state.get_agents(0, 1).unwrap();
    assert_eq!(first.len(), 1);
    assert_eq!(first[0].nonce, 1);
    // a page past the end reads nothing
    assert_eq!(state.get_agents(5, 10).unwrap().len(), 0);
}

#[test]
fn get_agents_entries_follow_listing_order() {
    let mut state = empty_storage();
    for nonce in 1..=5u64 {
        state.agents.push((nonce, [nonce as u8; 32]));
        state.agent_details.insert(nonce, details(format!("A{nonce}").as_bytes(), b"k"));
    }
    let page = state.get_agents(1, 3).unwrap();
    let nonces: Vec<u64> = page.iter().map(|e| e.nonce).collect();
    assert_eq!(nonces, vec![2, 3, 4]);
    assert_eq!(page[0].owner, [2u8; 32]);
    assert_eq!(page[2].details.name, b"A4".to_vec());
    // adjacent pages join into one page of the combined size
    let mut joined = state.get_agents(0, 2).unwrap();
    joined.extend(state.get_agents(2, 3).unwrap());
    assert_eq!(joined, state.get_agents(0, 5).unwrap());
}

#[test]
fn page_size_is_capped_at_one_hundred() {
    let mut state = empty_storage();
    for nonce in 0..250u64 {
        state.agents.push((nonce, [7; 32]));
        state.agent_details.insert(nonce, details(b"n", b"k"));
    }
    assert_eq!(state.get_agent_count(), 250);
    assert_eq!(state.get_agents(0, 1000).unwrap().len(), 100);
    assert_eq!(state.get_agents(100, u64::MAX).unwrap().len(), 100);
    assert_eq!(state.get_agents(200, 100).unwrap().len(), 50);
    assert_eq!(state.get_agents(u64::MAX, 100).unwrap().len(), 0);
    assert_eq!(state.get_agents(240, 5).unwrap()[4].nonce, 244);
}

#[test]
fn get_metadata_returns_stored_value() {
    let state = one_agent(
        b"TestAgent",
        b"pubkey123",
        vec![(b"key1", b"val1"), (b"desc", b"A cool agent")],
        vec![],
    );
    assert_eq!(state.get_metadata(1, &b"desc".to_vec()), Some(b"A cool agent".to_vec()));
    assert_eq!(state.get_metadata(1, &b"key1".to_vec()), Some(b"val1".to_vec()));
    assert_eq!(state.get_metadata(1, &b"missing".to_vec()), None);
    assert_eq!(state.get_metadata(2, &b"key1".to_vec()), None);
}

#[test]
fn metadata_page_entries_match_single_key_view() {
    let state = one_agent(
        b"TestAgent",
        b"pubkey123",
        vec![(b"a", b"1"), (b"b", b"2"), (b"c", b"3")],
        vec![],
    );
    let page = state.get_agent_metadata_page(1, 1, 5);
    assert_eq!(page.len(), 2);
    assert_eq!(page[0].key, b"b".to_vec());
    assert_eq!(page[1].value, b"3".to_vec());
    for entry in &page {
        assert_eq!(state.get_metadata(1, &entry.key), Some(entry.value.clone()));
    }
}

#[test]
fn get_agent_service_config_reports_stored_payment() {
    let state = one_agent(
        b"TestAgent",
        b"pubkey123",
        vec![],
        vec![(42u32, 500u64, b"USDC-abcdef", 0u64), (7u32, 1u64, b"NFT-123456", 3u64)],
    );
    let p = state.get_agent_service_config(1, 42).unwrap();
    assert_eq!(p.token_identifier, b"USDC-abcdef".to_vec());
    assert_eq!(p.token_nonce, 0);
    assert_eq!(p.amount, vec![0x01, 0xf4]);
    let nft = state.get_agent_service_config(1, 7).unwrap();
    assert_eq!(nft.token_identifier, b"NFT-123456".to_vec());
    assert_eq!(nft.token_nonce, 3);
    assert_eq!(nft.amount, vec![1]);
    assert_eq!(state.get_agent_service_config(1, 43), None);
    assert_eq!(state.get_agent_service_config(9, 42), None);
}

#[test]
fn service_configs_page_entries_match_single_service_view() {
    let state = one_agent(
        b"TestAgent",
        b"pubkey123",
        vec![],
        vec![(1u32, 100u64, b"USDC-abcdef", 0u64), (2u32, 200u64, b"EGLD-000000", 0u64)],
    );
    let page = state.get_agent_service_configs_page(1, 0, 10);
    assert_eq!(page[0].service_id, 1);
    assert_eq!(page[1].service_id, 2);
    assert_eq!(page[1].payment.token_identifier, b"EGLD-000000".to_vec());
    assert_eq!(page[1].payment.amount, vec![200]);
    for entry in &page {
        assert_eq!(state.get_agent_service_config(1, entry.service_id).as_ref(), Some(&entry.payment));
    }
    assert_eq!(state.get_agent_service_configs_page(1, 1, 10).len(), 1);
}

#[test]
fn agent_count_of_empty_registry_is_zero() {
    let state = empty_storage();
    assert_eq!(state.get_agent_count(), 0);
    assert_eq!(state.get_agents(0, 10).unwrap().len(), 0);
}
