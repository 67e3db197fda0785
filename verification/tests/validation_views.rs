use std::collections::HashMap;

use mx_agents::structs::{JobData, JobStatus, ValidationRequestData};
use mx_agents::validation::{ValidationStorage, ViewsModule};

const OWNER_ADDRESS: [u8; 32] = [0x0a; 32];
const VALIDATOR: [u8; 32] = [0x0b; 32];

fn job(status: JobStatus, proof: &[u8]) -> JobData {
    JobData {
        status,
        proof: proof.to_vec(),
        employer: OWNER_ADDRESS,
        creation_timestamp: 1_000,
        agent_nonce: 1,
    }
}

fn request(job_id: &[u8], response: u8, response_hash: &[u8], tag: &[u8]) -> ValidationRequestData {
    ValidationRequestData {
        validator_address: VALIDATOR,
        agent_nonce: 1,
        job_id: job_id.to_vec(),
        response,
        response_hash: response_hash.to_vec(),
        tag: tag.to_vec(),
        last_update: 77,
    }
}

fn storage_with_job(job_id: &[u8], data: JobData) -> ValidationStorage {
    ValidationStorage {
        job_data: vec![(job_id.to_vec(), data)],
        validation_request_data: Vec::new(),
        agent_validations: HashMap::new(),
    }
}

#[test]
fn test_is_job_verified_view() {
    // Not verified before validation
    let before = storage_with_job(b"job_verify_view", job(JobStatus::Pending, b"proof-hash"));
    assert!(!before.is_job_verified(&b"job_verify_view".to_vec()));

    // Now verified
    let mut after = storage_with_job(b"job_verify_view", job(JobStatus::Verified, b"proof-hash"));
    after.validation_request_data.push((
        b"req-verify-view".to_vec(),
        request(b"job_verify_view", 1, b"resp-verify-view", b"approved"),
    ));
    assert!(after.is_job_verified(&b"job_verify_view".to_vec()));
}

#[test]
fn is_job_verified_is_false_for_every_other_status_and_unknown_jobs() {
    for status in [JobStatus::New, JobStatus::Pending, JobStatus::ValidationRequested] {
        let s = storage_with_job(b"job1", job(status, b""));
        assert!(!s.is_job_verified(&b"job1".to_vec()));
    }
    let s = storage_with_job(b"job1", job(JobStatus::Verified, b""));
    assert!(!s.is_job_verified(&b"job2".to_vec()));
    assert!(!s.is_job_verified(&Vec::new()));
}

#[test]
fn get_job_data_returns_stored_job() {
    let mut s = storage_with_job(b"job_proof", job(JobStatus::Pending, b"proof_data_here"));
    s.job_data.push((b"job2".to_vec(), job(JobStatus::New, b"")));
    let data = s.get_job_data(&b"job_proof".to_vec()).unwrap();
    assert_eq!(data.status, JobStatus::Pending);
    assert_eq!(data.proof, b"proof_data_here".to_vec());
    assert_eq!(data.employer, OWNER_ADDRESS);
    assert_eq!(data.creation_timestamp, 1_000);
    assert_eq!(data.agent_nonce, 1);
    assert_eq!(s.get_job_data(&b"job2".to_vec()).unwrap().status, JobStatus::New);
    assert_eq!(s.get_job_data(&b"nonexistent".to_vec()), None);
}

#[test]
fn job_views_agree() {
    let mut s = storage_with_job(b"a", job(JobStatus::Verified, b"p"));
    s.job_data.push((b"b".to_vec(), job(JobStatus::Pending, b"q")));
    for id in [b"a".to_vec(), b"b".to_vec(), b"c".to_vec()] {
        let verified = s.is_job_verified(&id);
        let data = s.get_job_data(&id);
        assert_eq!(verified, matches!(data, Some(JobData { status: JobStatus::Verified, .. })));
    }
}

#[test]
fn get_validation_status_returns_latest_request_data() {
    let mut s = storage_with_job(b"job_resp", job(JobStatus::Verified, b"proof123"));
    s.validation_request_data
        .push((b"req_hash_resp".to_vec(), request(b"job_resp", 85, b"resp_hash_001", b"quality")));
    let status = s.get_validation_status(&b"req_hash_resp".to_vec()).unwrap();
    assert_eq!(status.response, 85);
    assert_eq!(status.job_id, b"job_resp".to_vec());
    assert_eq!(status.response_hash, b"resp_hash_001".to_vec());
    assert_eq!(status.tag, b"quality".to_vec());
    assert_eq!(status.validator_address, VALIDATOR);
    assert_eq!(status.last_update, 77);
    assert_eq!(s.get_validation_status(&b"req_hash_other".to_vec()), None);
}

#[test]
fn agent_validations_list_and_pages() {
    let mut s = storage_with_job(b"j", job(JobStatus::New, b""));
    let hashes: Vec<Vec<u8>> = (0..130u32).map(|i| format!("req-{i}").into_bytes()).collect();
    s.agent_validations.insert(1, hashes.clone());

    let all = s.get_agent_validations(1);
    assert_eq!(all, hashes);

    let first = s.get_agent_validations_page(1, 0, 200);
    assert_eq!(first.len(), 100);
    assert_eq!(first[..], hashes[..100]);

    let second = s.get_agent_validations_page(1, 100, 100);
    assert_eq!(second.len(), 30);
    assert_eq!(second[..], hashes[100..]);

    let middle = s.get_agent_validations_page(1, 10, 3);
    assert_eq!(middle, vec![b"req-10".to_vec(), b"req-11".to_vec(), b"req-12".to_vec()]);

    assert!(s.get_agent_validations_page(1, 130, 10).is_empty());
    assert!(s.get_agent_validations_page(1, 0, 0).is_empty());
}

#[test]
fn unknown_agent_has_no_validations() {
    let s = storage_with_job(b"j", job(JobStatus::New, b""));
    assert!(s.get_agent_validations(5).is_empty());
    assert!(s.get_agent_validations_page(5, 0, 10).is_empty());
}
