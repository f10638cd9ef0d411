# infrazeug_ext

Clients for infrastructure APIs — Proxmox VE, STACKIT IaaS, the UniFi Network
controller — together with the GCP "ensure" resources, Helm command lines and
the OVH v2 data model. The request planning, response handling, cache and
session transitions and Helm plans are a verified Verus library; the HTTP
transport, the shared state that holds caches and sessions between requests,
and the JSON decoding are ordinary Rust.

## Layout

- `src/` — the verified library.
  - `text.rs`, `encoding.rs`, `string_map.rs`: character-level string helpers,
    percent-encoding, and an ordered string-keyed map,
    all with exact specifications over `Seq<char>` and `Map`.
  - `proxmox/`: API paths, credentials and request headers, login-ticket
    caching rules, guest parameter flattening, coercing configuration readers,
    error messages, and the task-wait state machine.
  - `stackit/`: paths (v1 and regional v2), bearer and key-flow credentials,
    the signed key-flow assertion, token caching rules, error messages.
  - `unifi/`: UniFi OS and legacy path layouts, session and CSRF handling,
    the `{ meta, data }` envelope and v2 error handling, resource types and
    manager commands.
  - `gcp/`: how observed provider state becomes each resource's state.
  - `helm.rs`: the argument lists of the Helm subcommands and their plans of
    shell steps (staging a values file, idempotent wrappers).
  - `ovh/`: the OVH v2 API data types.
- `tests/`: tests of the library on concrete values.
- `app/`: the asynchronous HTTP clients (`reqwest`, `tokio`), token caches,
  and the serde shapes of the JSON payloads with conversions to the library's
  types.

The verified functions state their results exactly, in terms of the few
calls into outside crates (`urlencoding`, `jsonwebtoken`, `uuid`,
`serde_json`'s string writer, `reqwest`'s header check, and a handful of
`std` functions). Those sit behind small trusted wrappers whose contracts say
what the crates' sources show; where a result takes more than a few lines to
describe (the signed key-flow token and whether signing succeeds, a JSON
string literal, a `Debug` rendering), the contract names it as a function of
the call's arguments.
