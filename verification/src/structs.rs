//! The records that the registries store and hand out.
//!
//! Byte buffers are `Vec<u8>`, account addresses are 32 bytes, token amounts
//! are the big-endian bytes of an unsigned integer, and timestamps are plain
//! `u64` counts (milliseconds for jobs, seconds for validation updates).

use vstd::prelude::*;

use crate::bytes::copy_bytes;

verus! {

/// An account address on the chain.
pub type Address = [u8; 32];

/// Where a job stands in its lifecycle.
#[derive(Clone, Copy, Debug, PartialEq, Eq, Structural)]
pub enum JobStatus {
    New,
    Pending,
    Verified,
    ValidationRequested,
}

/// A job recorded by the validation registry.
#[derive(Debug, PartialEq, Eq)]
pub struct JobData {
    pub status: JobStatus,
    pub proof: Vec<u8>,
    pub employer: Address,
    /// Creation time, in milliseconds.
    pub creation_timestamp: u64,
    pub agent_nonce: u64,
}

/// A validation request, and the validator's latest response to it.
#[derive(Debug, PartialEq, Eq)]
pub struct ValidationRequestData {
    pub validator_address: Address,
    pub agent_nonce: u64,
    pub job_id: Vec<u8>,
    pub response: u8,
    pub response_hash: Vec<u8>,
    pub tag: Vec<u8>,
    /// Time of the last update, in seconds.
    pub last_update: u64,
}

/// One key/value pair of an agent's metadata.
#[derive(Debug, PartialEq, Eq)]
pub struct MetadataEntry {
    pub key: Vec<u8>,
    pub value: Vec<u8>,
}

/// The name and public key of an agent.
#[derive(Debug, PartialEq, Eq)]
pub struct AgentDetails {
    pub name: Vec<u8>,
    pub public_key: Vec<u8>,
}

/// One entry of the agent listing: nonce, owner, and details.
#[derive(Debug, PartialEq, Eq)]
pub struct AgentListEntry {
    pub nonce: u64,
    pub owner: Address,
    pub details: AgentDetails,
}

/// A service offering as an agent owner submits it.
#[derive(Debug, PartialEq, Eq)]
pub struct ServiceConfigInput {
    pub service_id: u32,
    /// Price, as the big-endian bytes of an unsigned integer.
    pub price: Vec<u8>,
    pub token: Vec<u8>,
    pub nonce: u64,
}

/// A stored service price: the token, its nonce and a non-zero amount.
#[derive(Debug, PartialEq, Eq)]
pub struct Payment {
    pub token_identifier: Vec<u8>,
    pub token_nonce: u64,
    /// Amount, as the big-endian bytes of a non-zero unsigned integer.
    pub amount: Vec<u8>,
}

/// A payment in EGLD or in an ESDT token, as the views report it.
#[derive(Debug, PartialEq, Eq)]
pub struct EgldOrEsdtTokenPayment {
    pub token_identifier: Vec<u8>,
    pub token_nonce: u64,
    /// Amount, as the big-endian bytes of an unsigned integer.
    pub amount: Vec<u8>,
}

/// One entry of an agent's service listing: service id and payment.
#[derive(Debug, PartialEq, Eq)]
pub struct ServiceConfigEntry {
    pub service_id: u32,
    pub payment: EgldOrEsdtTokenPayment,
}

/// Payload of the event that announces a registration.
#[derive(Debug, PartialEq, Eq)]
pub struct AgentRegisteredEventData {
    pub name: Vec<u8>,
    pub uri: Vec<u8>,
}

/// Payload of the event that announces an update of an agent.
#[derive(Debug, PartialEq, Eq)]
pub struct AgentUpdatedEventData {
    pub new_name: Vec<u8>,
    pub new_uri: Vec<u8>,
    pub metadata_updated: bool,
    pub services_updated: bool,
}

// ---------------------------------------------------------------------------
// Mathematical views
// ---------------------------------------------------------------------------

pub struct JobDataView {
    pub status: JobStatus,
    pub proof: Seq<u8>,
    pub employer: Address,
    pub creation_timestamp: u64,
    pub agent_nonce: u64,
}

impl View for JobData {
    type V = JobDataView;

    open spec fn view(&self) -> JobDataView {
        JobDataView {
            status: self.status,
            proof: self.proof@,
            employer: self.employer,
            creation_timestamp: self.creation_timestamp,
            agent_nonce: self.agent_nonce,
        }
    }
}

pub struct ValidationRequestDataView {
    pub validator_address: Address,
    pub agent_nonce: u64,
    pub job_id: Seq<u8>,
    pub response: u8,
    pub response_hash: Seq<u8>,
    pub tag: Seq<u8>,
    pub last_update: u64,
}

impl View for ValidationRequestData {
    type V = ValidationRequestDataView;

    open spec fn view(&self) -> ValidationRequestDataView {
        ValidationRequestDataView {
            validator_address: self.validator_address,
            agent_nonce: self.agent_nonce,
            job_id: self.job_id@,
            response: self.response,
            response_hash: self.response_hash@,
            tag: self.tag@,
            last_update: self.last_update,
        }
    }
}

pub struct MetadataEntryView {
    pub key: Seq<u8>,
    pub value: Seq<u8>,
}

impl View for MetadataEntry {
    type V = MetadataEntryView;

    open spec fn view(&self) -> MetadataEntryView {
        MetadataEntryView { key: self.key@, value: self.value@ }
    }
}

pub struct AgentDetailsView {
    pub name: Seq<u8>,
    pub public_key: Seq<u8>,
}

impl View for AgentDetails {
    type V = AgentDetailsView;

    open spec fn view(&self) -> AgentDetailsView {
        AgentDetailsView { name: self.name@, public_key: self.public_key@ }
    }
}

pub struct AgentListEntryView {
    pub nonce: u64,
    pub owner: Address,
    pub details: AgentDetailsView,
}

impl View for AgentListEntry {
    type V = AgentListEntryView;

    open spec fn view(&self) -> AgentListEntryView {
        AgentListEntryView { nonce: self.nonce, owner: self.owner, details: self.details@ }
    }
}

pub struct PaymentView {
    pub token_identifier: Seq<u8>,
    pub token_nonce: u64,
    pub amount: Seq<u8>,
}

impl View for Payment {
    type V = PaymentView;

    open spec fn view(&self) -> PaymentView {
        PaymentView {
            token_identifier: self.token_identifier@,
            token_nonce: self.token_nonce,
            amount: self.amount@,
        }
    }
}

impl View for EgldOrEsdtTokenPayment {
    type V = PaymentView;

    open spec fn view(&self) -> PaymentView {
        PaymentView {
            token_identifier: self.token_identifier@,
            token_nonce: self.token_nonce,
            amount: self.amount@,
        }
    }
}

pub struct ServiceConfigEntryView {
    pub service_id: u32,
    pub payment: PaymentView,
}

impl View for ServiceConfigEntry {
    type V = ServiceConfigEntryView;

    open spec fn view(&self) -> ServiceConfigEntryView {
        ServiceConfigEntryView { service_id: self.service_id, payment: self.payment@ }
    }
}

/// The view of each record holds its fields: buffers by their bytes, other
/// fields as they are.
pub proof fn lemma_record_views_are_fields(
    job: JobData,
    request: ValidationRequestData,
    entry: MetadataEntry,
    details: AgentDetails,
    listed: AgentListEntry,
    payment: Payment,
    reported: EgldOrEsdtTokenPayment,
    service: ServiceConfigEntry,
)
    ensures
        job@.status == job.status && job@.proof == job.proof@ && job@.employer == job.employer
            && job@.creation_timestamp == job.creation_timestamp && job@.agent_nonce
            == job.agent_nonce,
        request@.validator_address == request.validator_address && request@.agent_nonce
            == request.agent_nonce && request@.job_id == request.job_id@ && request@.response
            == request.response && request@.response_hash == request.response_hash@ && request@.tag
            == request.tag@ && request@.last_update == request.last_update,
        entry@.key == entry.key@ && entry@.value == entry.value@,
        details@.name == details.name@ && details@.public_key == details.public_key@,
        listed@.nonce == listed.nonce && listed@.owner == listed.owner && listed@.details.name
            == listed.details.name@ && listed@.details.public_key == listed.details.public_key@,
        payment@.token_identifier == payment.token_identifier@ && payment@.token_nonce
            == payment.token_nonce && payment@.amount == payment.amount@,
        reported@.token_identifier == reported.token_identifier@ && reported@.token_nonce
            == reported.token_nonce && reported@.amount == reported.amount@,
        service@.service_id == service.service_id && service@.payment.token_identifier
            == service.payment.token_identifier@ && service@.payment.token_nonce
            == service.payment.token_nonce && service@.payment.amount == service.payment.amount@,
{
}

// ---------------------------------------------------------------------------
// Copies
// ---------------------------------------------------------------------------

impl JobData {
    /// A copy with the same contents.
    pub fn copy(&self) -> (r: JobData)
        ensures
            r@ == self@,
    {
        JobData {
            status: self.status,
            proof: copy_bytes(&self.proof),
            employer: self.employer,
            creation_timestamp: self.creation_timestamp,
            agent_nonce: self.agent_nonce,
        }
    }
}

impl ValidationRequestData {
    /// A copy with the same contents.
    pub fn copy(&self) -> (r: ValidationRequestData)
        ensures
            r@ == self@,
    {
        ValidationRequestData {
            validator_address: self.validator_address,
            agent_nonce: self.agent_nonce,
            job_id: copy_bytes(&self.job_id),
            response: self.response,
            response_hash: copy_bytes(&self.response_hash),
            tag: copy_bytes(&self.tag),
            last_update: self.last_update,
        }
    }
}

impl AgentDetails {
    /// A copy with the same contents.
    pub fn copy(&self) -> (r: AgentDetails)
        ensures
            r@ == self@,
    {
        AgentDetails { name: copy_bytes(&self.name), public_key: copy_bytes(&self.public_key) }
    }
}

impl EgldOrEsdtTokenPayment {
    /// Turns a stored payment into the payment that the views report: the
    /// same token identifier, token nonce and amount.
    pub fn from_payment(p: &Payment) -> (r: EgldOrEsdtTokenPayment)
        ensures
            r@ == p@,
            r.token_identifier@ == p.token_identifier@,
            r.token_nonce == p.token_nonce,
            r.amount@ == p.amount@,
    {
        EgldOrEsdtTokenPayment {
            token_identifier: copy_bytes(&p.token_identifier),
            token_nonce: p.token_nonce,
            amount: copy_bytes(&p.amount),
        }
    }
}

} // verus!
