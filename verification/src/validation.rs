//! The validation registry: jobs, validation requests and each agent's
//! validation request hashes, and the read-only views over them.

use std::collections::HashMap;

use vstd::prelude::*;

use crate::bytes::copy_bytes;
use crate::keyed::{find_by_key, keys_unique, lemma_find_unique_key, position_by_key};
use crate::paging::{lemma_page_index, page, page_bounds};
use crate::structs::{JobData, JobStatus, ValidationRequestData};

verus! {

broadcast use vstd::std_specs::hash::group_hash_axioms;

/// The contents of the validation registry's storage.
pub struct ValidationStorage {
    /// Job id and job pairs.
    pub job_data: Vec<(Vec<u8>, JobData)>,
    /// Request hash and validation request pairs.
    pub validation_request_data: Vec<(Vec<u8>, ValidationRequestData)>,
    /// The validation request hashes of each agent, by agent nonce, in the
    /// order in which the registry walks them.
    pub agent_validations: HashMap<u64, Vec<Vec<u8>>>,
}

/// The validation registry's storage as mathematical values.
pub struct ValidationStorageView {
    pub job_data: Seq<(Vec<u8>, JobData)>,
    pub validation_request_data: Seq<(Vec<u8>, ValidationRequestData)>,
    pub agent_validations: Map<u64, Vec<Vec<u8>>>,
}

impl ValidationStorageView {
    /// The storage holds the contents that its storage kinds allow: one job
    /// per job id, one request per request hash, and no hash twice in an
    /// agent's set of validations.
    pub open spec fn wf(self) -> bool {
        &&& keys_unique(self.job_data)
        &&& keys_unique(self.validation_request_data)
        &&& forall|n: u64| #[trigger]
            self.agent_validations.contains_key(n) ==> hashes_unique(self.agent_validations[n]@)
    }

    /// The validation request hashes of agent `agent_nonce`; none where
    /// nothing is stored.
    pub open spec fn validations_of(self, agent_nonce: u64) -> Seq<Vec<u8>> {
        if self.agent_validations.contains_key(agent_nonce) {
            self.agent_validations[agent_nonce]@
        } else {
            Seq::empty()
        }
    }

    /// Whether the job stored under `job_id` exists and is verified.
    pub open spec fn job_verified(self, job_id: Seq<u8>) -> bool {
        find_by_key(self.job_data, job_id) matches Some(d) && d.status == JobStatus::Verified
    }
}

/// No hash occurs twice.
pub open spec fn hashes_unique(hashes: Seq<Vec<u8>>) -> bool {
    forall|i: int, j: int| 0 <= i < j < hashes.len() ==> #[trigger] hashes[i]@ != #[trigger] hashes[j]@
}

/// `is_job_verified` and `get_job_data` agree: a job is verified exactly when
/// its data is found and its status is `Verified`; an unknown job is never
/// verified.
pub proof fn lemma_job_views_agree(s: ValidationStorageView, job_id: Seq<u8>)
    ensures
        s.job_verified(job_id) <==> (find_by_key(s.job_data, job_id) is Some && find_by_key(
            s.job_data,
            job_id,
        )->0.status == JobStatus::Verified),
        find_by_key(s.job_data, job_id) is None ==> !s.job_verified(job_id),
{
}

/// Each stored job is found under its id, so `get_job_data` gives it and
/// `is_job_verified` reports whether its status is `Verified`.
pub proof fn lemma_stored_job_is_found(s: ValidationStorageView, i: int)
    requires
        s.wf(),
        0 <= i < s.job_data.len(),
    ensures
        find_by_key(s.job_data, s.job_data[i].0@) == Some(s.job_data[i].1),
        s.job_verified(s.job_data[i].0@) == (s.job_data[i].1.status == JobStatus::Verified),
{
    lemma_find_unique_key(s.job_data, i);
}

/// Each stored validation request is found under its hash, so
/// `get_validation_status` gives it.
pub proof fn lemma_stored_request_is_found(s: ValidationStorageView, i: int)
    requires
        s.wf(),
        0 <= i < s.validation_request_data.len(),
    ensures
        find_by_key(s.validation_request_data, s.validation_request_data[i].0@) == Some(
            s.validation_request_data[i].1,
        ),
{
    lemma_find_unique_key(s.validation_request_data, i);
}

/// A page of an agent's validation hashes is the slice of the full list
/// that `get_agent_validations` returns, starting at `from`.
pub proof fn lemma_validation_page_is_slice(
    s: ValidationStorageView,
    agent_nonce: u64,
    from: u64,
    size: u64,
    j: int,
)
    requires
        0 <= j < page(s.validations_of(agent_nonce), from, size).len(),
    ensures
        page(s.validations_of(agent_nonce), from, size)[j] == s.validations_of(agent_nonce)[from
            + j],
{
    lemma_page_index(s.validations_of(agent_nonce), from, size, j);
}

/// An agent's validation listing is exactly the sequence of request hashes
/// stored for it, in storage order; an agent with nothing stored has none.
pub proof fn lemma_validations_of_is_stored(s: ValidationStorageView, agent_nonce: u64)
    ensures
        s.agent_validations.contains_key(agent_nonce) ==> {
            &&& s.validations_of(agent_nonce).len() == s.agent_validations[agent_nonce]@.len()
            &&& forall|i: int|
                0 <= i < s.agent_validations[agent_nonce]@.len() ==> #[trigger] s.validations_of(
                    agent_nonce,
                )[i] == s.agent_validations[agent_nonce]@[i]
        },
        !s.agent_validations.contains_key(agent_nonce) ==> s.validations_of(agent_nonce).len()
            == 0,
{
}

/// The storage model of a validation registry is its fields' contents.
pub proof fn lemma_validation_storage_model(s: &ValidationStorage)
    ensures
        s.storage().job_data == s.job_data@,
        s.storage().validation_request_data == s.validation_request_data@,
        s.storage().agent_validations == s.agent_validations@,
{
}

/// The read-only views of the validation registry.
pub trait ViewsModule {
    spec fn storage(&self) -> ValidationStorageView;

    /// Whether job `job_id` exists and has been verified.
    fn is_job_verified(&self, job_id: &Vec<u8>) -> (r: bool)
        ensures
            r == self.storage().job_verified(job_id@),
    ;

    /// The data of job `job_id`, if the job exists.
    fn get_job_data(&self, job_id: &Vec<u8>) -> (r: Option<JobData>)
        ensures
            match find_by_key(self.storage().job_data, job_id@) {
                Some(d) => r is Some && r->0@ == d@,
                None => r is None,
            },
    ;

    /// The validation request stored under `request_hash`, if there is one.
    fn get_validation_status(&self, request_hash: &Vec<u8>) -> (r: Option<ValidationRequestData>)
        ensures
            match find_by_key(self.storage().validation_request_data, request_hash@) {
                Some(d) => r is Some && r->0@ == d@,
                None => r is None,
            },
    ;

    /// All validation request hashes of agent `agent_nonce`.
    fn get_agent_validations(&self, agent_nonce: u64) -> (r: Vec<Vec<u8>>)
        ensures
            ({
                let all = self.storage().validations_of(agent_nonce);
                &&& r.len() == all.len()
                &&& forall|j: int| 0 <= j < all.len() ==> #[trigger] r[j]@ == all[j]@
            }),
    ;

    /// A page of the validation request hashes of agent `agent_nonce`.
    fn get_agent_validations_page(&self, agent_nonce: u64, from: u64, size: u64) -> (r: Vec<
        Vec<u8>,
    >)
        ensures
            ({
                let pg = page(self.storage().validations_of(agent_nonce), from, size);
                &&& r.len() == pg.len()
                &&& forall|j: int| 0 <= j < pg.len() ==> #[trigger] r[j]@ == pg[j]@
            }),
    ;
}

/// Copies the entries `start..end` of a list of byte strings.
fn copy_range(hashes: &Vec<Vec<u8>>, start: usize, end: usize) -> (r: Vec<Vec<u8>>)
    requires
        start <= end <= hashes.len(),
    ensures
        r.len() == end - start,
        forall|j: int| 0 <= j < end - start ==> #[trigger] r[j]@ == hashes@[start + j]@,
{
    let mut result: Vec<Vec<u8>> = Vec::new();
    let mut i: usize = start;
    while i < end
        invariant
            start <= i <= end <= hashes.len(),
            result.len() == i - start,
            forall|j: int| 0 <= j < i - start ==> #[trigger] result[j]@ == hashes@[start + j]@,
        decreases end - i,
    {
        result.push(copy_bytes(&hashes[i]));
        i = i + 1;
    }
    result
}

impl ViewsModule for ValidationStorage {
    open spec fn storage(&self) -> ValidationStorageView {
        ValidationStorageView {
            job_data: self.job_data@,
            validation_request_data: self.validation_request_data@,
            agent_validations: self.agent_validations@,
        }
    }

    fn is_job_verified(&self, job_id: &Vec<u8>) -> (r: bool) {
        match position_by_key(&self.job_data, job_id) {
            Some(i) => self.job_data[i].1.status == JobStatus::Verified,
            None => false,
        }
    }

    fn get_job_data(&self, job_id: &Vec<u8>) -> (r: Option<JobData>) {
        match position_by_key(&self.job_data, job_id) {
            Some(i) => Some(self.job_data[i].1.copy()),
            None => None,
        }
    }

    fn get_validation_status(&self, request_hash: &Vec<u8>) -> (r: Option<ValidationRequestData>) {
        match position_by_key(&self.validation_request_data, request_hash) {
            Some(i) => Some(self.validation_request_data[i].1.copy()),
            None => None,
        }
    }

    fn get_agent_validations(&self, agent_nonce: u64) -> (r: Vec<Vec<u8>>) {
        match self.agent_validations.get(&agent_nonce) {
            Some(hashes) => copy_range(hashes, 0, hashes.len()),
            None => Vec::new(),
        }
    }

    fn get_agent_validations_page(&self, agent_nonce: u64, from: u64, size: u64) -> (r: Vec<
        Vec<u8>,
    >) {
        match self.agent_validations.get(&agent_nonce) {
            Some(hashes) => {
                let (start, end) = page_bounds(from, size, hashes.len());
                copy_range(hashes, start, end)
            },
            None => {
                assert(page(self.storage().validations_of(agent_nonce), from, size) =~= Seq::<
                    Vec<u8>,
                >::empty());
                Vec::new()
            },
        }
    }
}

} // verus!
