# mx_agents

Verified read-only views of an agent registry on the MultiversX chain:
agent identities (owner, name and public key, key/value metadata, service
prices) and jobs with their validation requests.

- `src/` — the library, verified with Verus. Each registry's storage is held
  as plain values (`identity::IdentityStorage`, `validation::ValidationStorage`);
  the views (`ViewsModule` in each module) are proved against a model of that
  storage, and `paging` states and proves how pages are cut from listings.
- `tests/` — tests of the views on concrete storage contents.
- `app/` — the chain side: storage mappers, the views that read them and call
  the library, conversions between managed and plain records, and events.
