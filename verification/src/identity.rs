//! The identity registry: registered agents, their details, metadata and
//! service prices, and the read-only views over them.

use std::collections::HashMap;

use vstd::prelude::*;

use crate::bytes::copy_bytes;
use crate::keyed::{find_by_key, keys_unique, lemma_find_unique_key, position_by_key};
use crate::paging::{lemma_page_index, page, page_bounds};
use crate::structs::{
    Address, AgentDetails, AgentListEntry, AgentListEntryView,
    EgldOrEsdtTokenPayment, MetadataEntry, MetadataEntryView, Payment, PaymentView,
    ServiceConfigEntry, ServiceConfigEntryView,
};

verus! {

broadcast use vstd::std_specs::hash::group_hash_axioms;

/// The contents of the identity registry's storage.
pub struct IdentityStorage {
    /// Agent nonce and owner pairs, in the order in which the registry walks them.
    pub agents: Vec<(u64, Address)>,
    /// Name and public key of each agent, by nonce.
    pub agent_details: HashMap<u64, AgentDetails>,
    /// Metadata key and value pairs of each agent, by nonce, in the order in
    /// which the registry walks them.
    pub agent_metadata: HashMap<u64, Vec<(Vec<u8>, Vec<u8>)>>,
    /// Service id and price pairs of each agent, by nonce, in the order in
    /// which the registry walks them.
    pub agent_service_config: HashMap<u64, Vec<(u32, Payment)>>,
}

/// The identity registry's storage as mathematical values.
pub struct IdentityStorageView {
    pub agents: Seq<(u64, Address)>,
    pub agent_details: Map<u64, AgentDetails>,
    pub agent_metadata: Map<u64, Vec<(Vec<u8>, Vec<u8>)>>,
    pub agent_service_config: Map<u64, Vec<(u32, Payment)>>,
}

/// Why an identity view fails.
#[derive(Clone, Copy, Debug, PartialEq, Eq, Structural)]
pub enum ViewError {
    /// No agent with the requested nonce is registered ("Agent not found").
    AgentNotFound,
    /// An agent is registered but its details are not stored: reading them
    /// fails to decode.
    AgentDetailsMissing,
}

impl IdentityStorageView {
    /// The storage holds the contents that its storage kinds allow: every
    /// nonce and every owner is registered at most once, and no agent has two
    /// metadata entries with one key or two prices for one service.
    pub open spec fn wf(self) -> bool {
        &&& forall|i: int, j: int|
            0 <= i < j < self.agents.len() ==> #[trigger] self.agents[i].0 != #[trigger] self.agents[j].0
                && self.agents[i].1 != self.agents[j].1
        &&& forall|n: u64| #[trigger]
            self.agent_metadata.contains_key(n) ==> keys_unique(self.agent_metadata[n]@)
        &&& forall|n: u64| #[trigger]
            self.agent_service_config.contains_key(n) ==> service_ids_unique(
                self.agent_service_config[n]@,
            )
    }

    /// The metadata key and value pairs of agent `nonce`; none where nothing
    /// is stored.
    pub open spec fn metadata_of(self, nonce: u64) -> Seq<(Vec<u8>, Vec<u8>)> {
        if self.agent_metadata.contains_key(nonce) {
            self.agent_metadata[nonce]@
        } else {
            Seq::empty()
        }
    }

    /// The service id and price pairs of agent `nonce`; none where nothing
    /// is stored.
    pub open spec fn service_configs_of(self, nonce: u64) -> Seq<(u32, Payment)> {
        if self.agent_service_config.contains_key(nonce) {
            self.agent_service_config[nonce]@
        } else {
            Seq::empty()
        }
    }

    /// The listing entry of a registered agent: nonce, owner and details.
    pub open spec fn list_entry(self, agent: (u64, Address)) -> AgentListEntryView {
        AgentListEntryView {
            nonce: agent.0,
            owner: agent.1,
            details: self.agent_details[agent.0]@,
        }
    }
}

/// No service id occurs twice.
pub open spec fn service_ids_unique(configs: Seq<(u32, Payment)>) -> bool {
    forall|i: int, j: int|
        0 <= i < j < configs.len() ==> #[trigger] configs[i].0 != #[trigger] configs[j].0
}

/// The owner of the first registration of `nonce`, if there is one.
pub open spec fn find_owner(agents: Seq<(u64, Address)>, nonce: u64) -> Option<Address>
    decreases agents.len(),
{
    if agents.len() == 0 {
        None
    } else if agents[0].0 == nonce {
        Some(agents[0].1)
    } else {
        find_owner(agents.drop_first(), nonce)
    }
}

/// The price of the first service with id `service_id`, if there is one.
pub open spec fn find_service(configs: Seq<(u32, Payment)>, service_id: u32) -> Option<PaymentView>
    decreases configs.len(),
{
    if configs.len() == 0 {
        None
    } else if configs[0].0 == service_id {
        Some(configs[0].1@)
    } else {
        find_service(configs.drop_first(), service_id)
    }
}

/// An agent is found by its nonce exactly when the agent listing holds an
/// entry with that nonce.
pub proof fn lemma_owner_found_iff_listed(agents: Seq<(u64, Address)>, nonce: u64)
    ensures
        find_owner(agents, nonce) is Some <==> exists|i: int|
            0 <= i < agents.len() && #[trigger] agents[i].0 == nonce,
    decreases agents.len(),
{
    if agents.len() > 0 {
        let rest = agents.drop_first();
        lemma_owner_found_iff_listed(rest, nonce);
        if exists|i: int| 0 <= i < agents.len() && #[trigger] agents[i].0 == nonce {
            let i = choose|i: int| 0 <= i < agents.len() && #[trigger] agents[i].0 == nonce;
            if i > 0 {
                assert(rest[i - 1] == agents[i]);
            }
        }
        if exists|i: int| 0 <= i < rest.len() && #[trigger] rest[i].0 == nonce {
            let i = choose|i: int| 0 <= i < rest.len() && #[trigger] rest[i].0 == nonce;
            assert(rest[i] == agents[i + 1]);
        }
    }
}

/// With every nonce registered once, looking an agent up by the nonce of
/// its `i`-th listing entry gives that entry's owner.
pub proof fn lemma_find_owner_of_entry(agents: Seq<(u64, Address)>, i: int)
    requires
        forall|a: int, b: int|
            0 <= a < b < agents.len() ==> #[trigger] agents[a].0 != #[trigger] agents[b].0,
        0 <= i < agents.len(),
    ensures
        find_owner(agents, agents[i].0) == Some(agents[i].1),
    decreases agents.len(),
{
    if i > 0 {
        let rest = agents.drop_first();
        assert(rest[i - 1] == agents[i]);
        assert(agents[0].0 != agents[i].0);
        assert forall|a: int, b: int| 0 <= a < b < rest.len() implies #[trigger] rest[a].0
            != #[trigger] rest[b].0 by {
            assert(rest[a] == agents[a + 1] && rest[b] == agents[b + 1]);
        }
        lemma_find_owner_of_entry(rest, i - 1);
    }
}

/// With every service id stored once, looking a service up by the id of
/// its `i`-th entry gives that entry's price.
pub proof fn lemma_find_service_of_entry(configs: Seq<(u32, Payment)>, i: int)
    requires
        service_ids_unique(configs),
        0 <= i < configs.len(),
    ensures
        find_service(configs, configs[i].0) == Some(configs[i].1@),
    decreases configs.len(),
{
    if i > 0 {
        let rest = configs.drop_first();
        assert(rest[i - 1] == configs[i]);
        assert(configs[0].0 != configs[i].0);
        assert forall|a: int, b: int| 0 <= a < b < rest.len() implies #[trigger] rest[a].0
            != #[trigger] rest[b].0 by {
            assert(rest[a] == configs[a + 1] && rest[b] == configs[b + 1]);
        }
        lemma_find_service_of_entry(rest, i - 1);
    }
}

/// The agent listing and the single-agent views agree: for each agent on a
/// page of `get_agents`, `get_agent_owner` gives the owner listed there, and
/// `get_agent` reads the same stored details that the entry shows.
pub proof fn lemma_listing_agrees_with_agent_views(
    s: IdentityStorageView,
    from: u64,
    size: u64,
    j: int,
)
    requires
        s.wf(),
        0 <= j < page(s.agents, from, size).len(),
    ensures
        ({
            let entry = page(s.agents, from, size)[j];
            &&& find_owner(s.agents, entry.0) == Some(entry.1)
            &&& s.agent_details.contains_key(entry.0) ==> s.list_entry(entry).details
                == s.agent_details[entry.0]@
        }),
{
    lemma_page_index(s.agents, from, size, j);
    lemma_find_owner_of_entry(s.agents, from + j);
}

/// The metadata listing and the single-key view agree: for each entry on a
/// page of `get_agent_metadata_page`, `get_metadata` with the entry's key
/// gives the entry's value.
pub proof fn lemma_metadata_page_agrees_with_get_metadata(
    s: IdentityStorageView,
    nonce: u64,
    from: u64,
    size: u64,
    j: int,
)
    requires
        s.wf(),
        0 <= j < page(s.metadata_of(nonce), from, size).len(),
    ensures
        ({
            let entry = page(s.metadata_of(nonce), from, size)[j];
            find_by_key(s.metadata_of(nonce), entry.0@) == Some(entry.1)
        }),
{
    lemma_page_index(s.metadata_of(nonce), from, size, j);
    lemma_find_unique_key(s.metadata_of(nonce), from + j);
}

/// The service listing and the single-service view agree: for each entry on
/// a page of `get_agent_service_configs_page`, `get_agent_service_config`
/// with the entry's service id gives the entry's payment.
pub proof fn lemma_service_page_agrees_with_get_service(
    s: IdentityStorageView,
    nonce: u64,
    from: u64,
    size: u64,
    j: int,
)
    requires
        s.wf(),
        0 <= j < page(s.service_configs_of(nonce), from, size).len(),
    ensures
        ({
            let entry = page(s.service_configs_of(nonce), from, size)[j];
            find_service(s.service_configs_of(nonce), entry.0) == Some(entry.1@)
        }),
{
    lemma_page_index(s.service_configs_of(nonce), from, size, j);
    lemma_find_service_of_entry(s.service_configs_of(nonce), from + j);
}

/// An agent with nothing stored has empty metadata and service pages, and
/// no metadata value or service price, whatever is asked for.
pub proof fn lemma_unknown_agent_views_are_empty(
    s: IdentityStorageView,
    nonce: u64,
    from: u64,
    size: u64,
    key: Seq<u8>,
    service_id: u32,
)
    ensures
        !s.agent_metadata.contains_key(nonce) ==> page(s.metadata_of(nonce), from, size).len()
            == 0 && find_by_key(s.metadata_of(nonce), key) is None,
        !s.agent_service_config.contains_key(nonce) ==> page(
            s.service_configs_of(nonce),
            from,
            size,
        ).len() == 0 && find_service(s.service_configs_of(nonce), service_id) is None,
{
}

/// A listing entry is the registration it lists: its nonce and owner are the
/// registration's, and its details are those stored for that nonce.
pub proof fn lemma_list_entry_is_registration(s: IdentityStorageView, agent: (u64, Address))
    ensures
        s.list_entry(agent).nonce == agent.0,
        s.list_entry(agent).owner == agent.1,
        s.list_entry(agent).details == s.agent_details[agent.0]@,
{
}

/// An agent's metadata listing is exactly the sequence of key/value pairs
/// stored for it, in storage order; an agent with nothing stored has none.
pub proof fn lemma_metadata_of_is_stored(s: IdentityStorageView, nonce: u64)
    ensures
        s.agent_metadata.contains_key(nonce) ==> {
            &&& s.metadata_of(nonce).len() == s.agent_metadata[nonce]@.len()
            &&& forall|i: int|
                0 <= i < s.agent_metadata[nonce]@.len() ==> #[trigger] s.metadata_of(nonce)[i]
                    == s.agent_metadata[nonce]@[i]
        },
        !s.agent_metadata.contains_key(nonce) ==> s.metadata_of(nonce).len() == 0,
{
}

/// An agent's service listing is exactly the sequence of service id and
/// price pairs stored for it, in storage order; an agent with nothing stored
/// has none.
pub proof fn lemma_service_configs_of_is_stored(s: IdentityStorageView, nonce: u64)
    ensures
        s.agent_service_config.contains_key(nonce) ==> {
            &&& s.service_configs_of(nonce).len() == s.agent_service_config[nonce]@.len()
            &&& forall|i: int|
                0 <= i < s.agent_service_config[nonce]@.len() ==> #[trigger] s.service_configs_of(
                    nonce,
                )[i] == s.agent_service_config[nonce]@[i]
        },
        !s.agent_service_config.contains_key(nonce) ==> s.service_configs_of(nonce).len() == 0,
{
}

/// Every stored metadata entry of an agent is found by its key, with its
/// stored value (`get_metadata` gives it).
pub proof fn lemma_stored_metadata_is_found(s: IdentityStorageView, nonce: u64, i: int)
    requires
        s.wf(),
        s.agent_metadata.contains_key(nonce),
        0 <= i < s.agent_metadata[nonce]@.len(),
    ensures
        find_by_key(s.metadata_of(nonce), s.agent_metadata[nonce]@[i].0@) == Some(
            s.agent_metadata[nonce]@[i].1,
        ),
{
    assert(s.metadata_of(nonce) =~= s.agent_metadata[nonce]@);
    lemma_find_unique_key(s.agent_metadata[nonce]@, i);
}

/// Every stored service of an agent is found by its id, with its stored
/// price (`get_agent_service_config` gives it).
pub proof fn lemma_stored_service_is_found(s: IdentityStorageView, nonce: u64, i: int)
    requires
        s.wf(),
        s.agent_service_config.contains_key(nonce),
        0 <= i < s.agent_service_config[nonce]@.len(),
    ensures
        find_service(s.service_configs_of(nonce), s.agent_service_config[nonce]@[i].0) == Some(
            s.agent_service_config[nonce]@[i].1@,
        ),
{
    assert(s.service_configs_of(nonce) =~= s.agent_service_config[nonce]@);
    lemma_find_service_of_entry(s.agent_service_config[nonce]@, i);
}

/// Looking an agent up gives the owner of its first registration: the
/// result is `Some(o)` exactly when some entry registers `nonce`, and then
/// the first such entry has owner `o`.
pub proof fn lemma_find_owner_first_match(agents: Seq<(u64, Address)>, nonce: u64)
    ensures
        find_owner(agents, nonce) is None <==> forall|i: int|
            0 <= i < agents.len() ==> #[trigger] agents[i].0 != nonce,
        find_owner(agents, nonce) matches Some(o) ==> exists|i: int|
            0 <= i < agents.len() && #[trigger] agents[i].0 == nonce && agents[i].1 == o
                && forall|j: int| 0 <= j < i ==> #[trigger] agents[j].0 != nonce,
    decreases agents.len(),
{
    if agents.len() > 0 {
        let rest = agents.drop_first();
        lemma_find_owner_first_match(rest, nonce);
        if agents[0].0 != nonce {
            assert forall|i: int| 0 <= i < rest.len() implies #[trigger] rest[i] == agents[i + 1] by {}
            if find_owner(rest, nonce) is None {
                assert forall|i: int| 0 <= i < agents.len() implies #[trigger] agents[i].0 != nonce by {
                    if i > 0 {
                        assert(rest[i - 1] == agents[i]);
                    }
                }
            } else {
                let o = find_owner(rest, nonce)->0;
                let k = choose|k: int|
                    0 <= k < rest.len() && #[trigger] rest[k].0 == nonce && rest[k].1 == o
                        && forall|j: int| 0 <= j < k ==> #[trigger] rest[j].0 != nonce;
                assert(agents[k + 1] == rest[k]);
                assert forall|j: int| 0 <= j < k + 1 implies #[trigger] agents[j].0 != nonce by {
                    if j > 0 {
                        assert(rest[j - 1] == agents[j]);
                    }
                }
            }
        }
    }
}

/// Looking a service up gives the price of its first entry: the result is
/// `Some(p)` exactly when some entry has service id `service_id`, and then
/// the first such entry has price `p`; ids that are not stored give `None`.
pub proof fn lemma_find_service_first_match(configs: Seq<(u32, Payment)>, service_id: u32)
    ensures
        find_service(configs, service_id) is None <==> forall|i: int|
            0 <= i < configs.len() ==> #[trigger] configs[i].0 != service_id,
        find_service(configs, service_id) matches Some(p) ==> exists|i: int|
            0 <= i < configs.len() && #[trigger] configs[i].0 == service_id && configs[i].1@ == p
                && forall|j: int| 0 <= j < i ==> #[trigger] configs[j].0 != service_id,
    decreases configs.len(),
{
    if configs.len() > 0 {
        let rest = configs.drop_first();
        lemma_find_service_first_match(rest, service_id);
        if configs[0].0 != service_id {
            if find_service(rest, service_id) is None {
                assert forall|i: int| 0 <= i < configs.len() implies #[trigger] configs[i].0
                    != service_id by {
                    if i > 0 {
                        assert(rest[i - 1] == configs[i]);
                    }
                }
            } else {
                let p = find_service(rest, service_id)->0;
                let k = choose|k: int|
                    0 <= k < rest.len() && #[trigger] rest[k].0 == service_id && rest[k].1@ == p
                        && forall|j: int| 0 <= j < k ==> #[trigger] rest[j].0 != service_id;
                assert(configs[k + 1] == rest[k]);
                assert forall|j: int| 0 <= j < k + 1 implies #[trigger] configs[j].0
                    != service_id by {
                    if j > 0 {
                        assert(rest[j - 1] == configs[j]);
                    }
                }
            }
        }
    }
}

/// The storage model of an identity registry is its fields' contents.
pub proof fn lemma_identity_storage_model(s: &IdentityStorage)
    ensures
        s.storage().agents == s.agents@,
        s.storage().agent_details == s.agent_details@,
        s.storage().agent_metadata == s.agent_metadata@,
        s.storage().agent_service_config == s.agent_service_config@,
{
}

/// The read-only views of the identity registry.
pub trait ViewsModule {
    spec fn storage(&self) -> IdentityStorageView;

    /// The details of agent `nonce`.
    fn get_agent(&self, nonce: u64) -> (r: Result<AgentDetails, ViewError>)
        ensures
            match r {
                Ok(d) => {
                    &&& find_owner(self.storage().agents, nonce) is Some
                    &&& self.storage().agent_details.contains_key(nonce)
                    &&& d@ == self.storage().agent_details[nonce]@
                },
                Err(ViewError::AgentNotFound) => find_owner(self.storage().agents, nonce) is None,
                Err(ViewError::AgentDetailsMissing) => {
                    &&& find_owner(self.storage().agents, nonce) is Some
                    &&& !self.storage().agent_details.contains_key(nonce)
                },
            },
    ;

    /// A page of the agent listing, each agent with its owner and details.
    /// `from` is the index of the first agent, `size` the largest number of
    /// agents (capped at 100).
    fn get_agents(&self, from: u64, size: u64) -> (r: Result<Vec<AgentListEntry>, ViewError>)
        ensures
            r is Ok <==> forall|j: int|
                0 <= j < page(self.storage().agents, from, size).len()
                    ==> self.storage().agent_details.contains_key(
                    #[trigger] page(self.storage().agents, from, size)[j].0,
                ),
            r matches Ok(entries) ==> {
                let pg = page(self.storage().agents, from, size);
                &&& entries.len() == pg.len()
                &&& forall|j: int|
                    0 <= j < pg.len() ==> #[trigger] entries[j]@ == self.storage().list_entry(pg[j])
                &&& forall|j: int|
                    0 <= j < pg.len() ==> {
                        &&& (#[trigger] entries[j]).nonce == self.storage().agents[from + j].0
                        &&& entries[j].owner == self.storage().agents[from + j].1
                        &&& entries[j].details@ == self.storage().agent_details[entries[j].nonce]@
                    }
            },
            r matches Err(e) ==> e == ViewError::AgentDetailsMissing,
    ;

    /// The number of registered agents.
    fn get_agent_count(&self) -> (r: u64)
        ensures
            r == self.storage().agents.len(),
    ;

    /// The owner of agent `nonce`.
    fn get_agent_owner(&self, nonce: u64) -> (r: Result<Address, ViewError>)
        ensures
            match find_owner(self.storage().agents, nonce) {
                Some(owner) => r == Ok::<Address, ViewError>(owner),
                None => r == Err::<Address, ViewError>(ViewError::AgentNotFound),
            },
    ;

    /// The value stored under `key` in the metadata of agent `nonce`.
    fn get_metadata(&self, nonce: u64, key: &Vec<u8>) -> (r: Option<Vec<u8>>)
        ensures
            match find_by_key(self.storage().metadata_of(nonce), key@) {
                Some(v) => r is Some && r->0@ == v@,
                None => r is None,
            },
    ;

    /// A page of the metadata entries of agent `nonce`.
    fn get_agent_metadata_page(&self, nonce: u64, from: u64, size: u64) -> (r: Vec<
        MetadataEntry,
    >)
        ensures
            ({
                let pg = page(self.storage().metadata_of(nonce), from, size);
                &&& r.len() == pg.len()
                &&& forall|j: int|
                    0 <= j < pg.len() ==> #[trigger] r[j]@ == (MetadataEntryView {
                        key: pg[j].0@,
                        value: pg[j].1@,
                    })
            }),
    ;

    /// The price of service `service_id` of agent `nonce`.
    fn get_agent_service_config(&self, nonce: u64, service_id: u32) -> (r: Option<
        EgldOrEsdtTokenPayment,
    >)
        ensures
            match find_service(self.storage().service_configs_of(nonce), service_id) {
                Some(p) => r is Some && r->0@ == p,
                None => r is None,
            },
    ;

    /// A page of the services of agent `nonce`, each with its price.
    fn get_agent_service_configs_page(&self, nonce: u64, from: u64, size: u64) -> (r: Vec<
        ServiceConfigEntry,
    >)
        ensures
            ({
                let pg = page(self.storage().service_configs_of(nonce), from, size);
                &&& r.len() == pg.len()
                &&& forall|j: int|
                    0 <= j < pg.len() ==> #[trigger] r[j]@ == (ServiceConfigEntryView {
                        service_id: pg[j].0,
                        payment: pg[j].1@,
                    })
            }),
    ;
}

impl IdentityStorage {
    /// The owner of the first registration of `nonce`.
    fn find_agent(&self, nonce: u64) -> (r: Option<Address>)
        ensures
            r == find_owner(self.agents@, nonce),
    {
        let mut i: usize = 0;
        assert(self.agents@.subrange(0, self.agents@.len() as int) =~= self.agents@);
        while i < self.agents.len()
            invariant
                i <= self.agents.len(),
                find_owner(self.agents@, nonce) == find_owner(
                    self.agents@.subrange(i as int, self.agents@.len() as int),
                    nonce,
                ),
            decreases self.agents.len() - i,
        {
            let (n, owner) = self.agents[i];
            let ghost rest = self.agents@.subrange(i as int, self.agents@.len() as int);
            if n == nonce {
                return Some(owner);
            }
            assert(rest.drop_first() =~= self.agents@.subrange(
                i + 1,
                self.agents@.len() as int,
            ));
            i = i + 1;
        }
        None
    }
}

/// Searches `configs` for the first service with id `service_id`.
fn lookup_service(configs: &Vec<(u32, Payment)>, service_id: u32) -> (r: Option<
    EgldOrEsdtTokenPayment,
>)
    ensures
        match find_service(configs@, service_id) {
            Some(p) => r is Some && r->0@ == p,
            None => r is None,
        },
{
    let mut i: usize = 0;
    assert(configs@.subrange(0, configs@.len() as int) =~= configs@);
    while i < configs.len()
        invariant
            i <= configs.len(),
            find_service(configs@, service_id) == find_service(
                configs@.subrange(i as int, configs@.len() as int),
                service_id,
            ),
        decreases configs.len() - i,
    {
        let ghost rest = configs@.subrange(i as int, configs@.len() as int);
        if configs[i].0 == service_id {
            return Some(EgldOrEsdtTokenPayment::from_payment(&configs[i].1));
        }
        assert(rest.drop_first() =~= configs@.subrange(i + 1, configs@.len() as int));
        i = i + 1;
    }
    None
}

impl ViewsModule for IdentityStorage {
    open spec fn storage(&self) -> IdentityStorageView {
        IdentityStorageView {
            agents: self.agents@,
            agent_details: self.agent_details@,
            agent_metadata: self.agent_metadata@,
            agent_service_config: self.agent_service_config@,
        }
    }

    fn get_agent(&self, nonce: u64) -> (r: Result<AgentDetails, ViewError>) {
        if self.find_agent(nonce).is_none() {
            return Err(ViewError::AgentNotFound);
        }
        match self.agent_details.get(&nonce) {
            Some(d) => Ok(d.copy()),
            None => Err(ViewError::AgentDetailsMissing),
        }
    }

    fn get_agents(&self, from: u64, size: u64) -> (r: Result<Vec<AgentListEntry>, ViewError>) {
        let (start, end) = page_bounds(from, size, self.agents.len());
        let ghost pg = page(self.agents@, from, size);
        let mut result: Vec<AgentListEntry> = Vec::new();
        let mut i: usize = start;
        while i < end
            invariant
                start <= i <= end <= self.agents.len(),
                pg == page(self.agents@, from, size),
                pg == self.agents@.subrange(start as int, end as int),
                result.len() == i - start,
                forall|j: int|
                    0 <= j < i - start ==> self.agent_details@.contains_key(#[trigger] pg[j].0),
                forall|j: int|
                    0 <= j < i - start ==> #[trigger] result[j]@ == self.storage().list_entry(
                        pg[j],
                    ),
                forall|j: int|
                    0 <= j < i - start ==> {
                        &&& (#[trigger] result[j]).nonce == self.agents@[start + j].0
                        &&& result[j].owner == self.agents@[start + j].1
                        &&& self.agent_details@.contains_key(result[j].nonce)
                        &&& result[j].details@ == self.agent_details@[result[j].nonce]@
                    },
            decreases end - i,
        {
            let (nonce, owner) = self.agents[i];
            match self.agent_details.get(&nonce) {
                Some(d) => {
                    result.push(AgentListEntry { nonce, owner, details: d.copy() });
                },
                None => {
                    assert(pg[i - start] == self.agents@[i as int]);
                    assert(!self.storage().agent_details.contains_key(
                        page(self.storage().agents, from, size)[i - start].0,
                    ));

                    return Err(ViewError::AgentDetailsMissing);
                },
            }
            i = i + 1;
        }
        assert(pg.len() > 0 ==> start == from);
        Ok(result)
    }

    fn get_agent_count(&self) -> (r: u64) {
        self.agents.len() as u64
    }

    fn get_agent_owner(&self, nonce: u64) -> (r: Result<Address, ViewError>) {
        match self.find_agent(nonce) {
            Some(owner) => Ok(owner),
            None => Err(ViewError::AgentNotFound),
        }
    }

    fn get_metadata(&self, nonce: u64, key: &Vec<u8>) -> (r: Option<Vec<u8>>) {
        match self.agent_metadata.get(&nonce) {
            Some(entries) => match position_by_key(entries, key) {
                Some(i) => Some(copy_bytes(&entries[i].1)),
                None => None,
            },
            None => None,
        }
    }

    fn get_agent_metadata_page(&self, nonce: u64, from: u64, size: u64) -> (r: Vec<
        MetadataEntry,
    >) {
        let mut result: Vec<MetadataEntry> = Vec::new();
        match self.agent_metadata.get(&nonce) {
            None => {
                assert(page(self.storage().metadata_of(nonce), from, size) =~= Seq::<
                    (Vec<u8>, Vec<u8>),
                >::empty());
            },
            Some(entries) => {
                let (start, end) = page_bounds(from, size, entries.len());
                let ghost pg = page(entries@, from, size);
                let mut i: usize = start;
                while i < end
                    invariant
                        start <= i <= end <= entries.len(),
                        pg == entries@.subrange(start as int, end as int),
                        result.len() == i - start,
                        forall|j: int|
                            0 <= j < i - start ==> #[trigger] result[j]@ == (MetadataEntryView {
                                key: pg[j].0@,
                                value: pg[j].1@,
                            }),
                    decreases end - i,
                {
                    let entry = MetadataEntry {
                        key: copy_bytes(&entries[i].0),
                        value: copy_bytes(&entries[i].1),
                    };
                    result.push(entry);
                    i = i + 1;
                }
            },
        }
        result
    }

    fn get_agent_service_config(&self, nonce: u64, service_id: u32) -> (r: Option<
        EgldOrEsdtTokenPayment,
    >) {
        match self.agent_service_config.get(&nonce) {
            Some(configs) => lookup_service(configs, service_id),
            None => None,
        }
    }

    fn get_agent_service_configs_page(&self, nonce: u64, from: u64, size: u64) -> (r: Vec<
        ServiceConfigEntry,
    >) {
        let mut result: Vec<ServiceConfigEntry> = Vec::new();
        match self.agent_service_config.get(&nonce) {
            None => {
                assert(page(self.storage().service_configs_of(nonce), from, size) =~= Seq::<
                    (u32, Payment),
                >::empty());
            },
            Some(configs) => {
                let (start, end) = page_bounds(from, size, configs.len());
                let ghost pg = page(configs@, from, size);
                let mut i: usize = start;
                while i < end
                    invariant
                        start <= i <= end <= configs.len(),
                        pg == configs@.subrange(start as int, end as int),
                        result.len() == i - start,
                        forall|j: int|
                            0 <= j < i - start ==> #[trigger] result[j]@ == (ServiceConfigEntryView {
                                service_id: pg[j].0,
                                payment: pg[j].1@,
                            }),
                    decreases end - i,
                {
                    let payment = EgldOrEsdtTokenPayment::from_payment(&configs[i].1);
                    result.push(ServiceConfigEntry { service_id: configs[i].0, payment });
                    i = i + 1;
                }
            },
        }
        result
    }
}

} // verus!
