# nova_opensearch

OpenSearch for vector workloads, verified with Verus: loading a corpus of dense vectors into an
index, and querying it in batches.

- `src/json*.rs`, `src/text.rs`, `src/error_chain.rs`: JSON values and their text, strings and
  numbers, errors with their causes.
- `src/named.rs`: values under names, each name once.
- `src/connection.rs`, `src/field.rs`: how the server is reached, and what a live field says.
- `src/load/`: the load backend. Request bodies (`mapping`, `convert`), documents (`bulk`), the
  steps against one index (`store`, `settle`), the check after a load (`verify`, `settings`), what
  is fixed at creation (`fixed`) and changes in place (`reindex`).
- `src/storm/`: the query target. Its construction (`config`, `target`), the lines of a request
  (`search`), the outcome of a batch (`batch`) and how an index scores (`profile`).
- `laws.rs` and `live_laws.rs` state what holds of each part as a whole.
- `app/`: the client, the clock and the configuration files around the library.

The library decides and the application acts: where requests and decisions alternate, a function
takes what was seen and gives back what to do next.
