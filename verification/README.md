# registrar_node

A registrar registers resources (agent services, skills, MCP servers, tool APIs) under the
domains that Root has granted it. It checks a submission, has it published by Root, issues the
registration credential, keeps the record, and lists, counts and answers queries about what it
keeps. It registers nothing unless its view of its own governance says that it is active.

- `src/` is the verified library. Every rule of the node stands there with its contract: the
  states of a registration (`registration`), the domains (`domains`), the queries for a
  credential (`access`), the pages of a listing (`listing`), the counts (`stats`). The functions
  named `law_...` state what holds of several of them together.
- `tests/` runs the library with the crates that it calls.
- `app/` is the server around it: configuration files, HTTP, storage, and the calls that verify
  a controller's proof and sign a credential.

JSON values are those of `serde_json`; `json::contents` names what one holds, and the contracts
speak of that. Hashes, signatures and request envelopes are those of the `oan-*` crates. Each
function whose contract is taken on trust is marked `external_body` or `assume_specification`
and says in its comment what is claimed.
