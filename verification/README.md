# lakekeeper_delta

The decisions of a read-only Delta catalog API over a Lakekeeper catalog, verified
with Verus.

- `src/` is the library: coordinates and namespaces, failures, authorization,
  lookups, resolved tables, vended credentials, request contexts and routes. It
  calls nothing that has to be waited for. An operation is a chain of states: each
  holds what the host is asked for next, and takes the answer. `src/laws.rs` states
  what holds of whole operations.
- `tests/` runs the library on concrete answers.
- `app/` is the async glue: axum routes, the backend trait of the
  `unitycatalog-delta-api` crate, and the services that a host has to bring.

Of `iceberg`, the library uses `NamespaceIdent::from_vec` and the debug text of a
namespace; what it takes for granted of both is stated in `src/namespace.rs`.
