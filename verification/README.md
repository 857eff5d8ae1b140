# ofs

The logic of a feature store with point-in-time correctness, verified with
Verus: the Feast value and type system, entity key serialization, the
registry and its protobuf conversions, online store layouts (SQLite and
Redis), the REST and gRPC read paths, the offline store's ASOF query
builder, materialization, backfill, data lifecycle, caching, authentication
and RBAC, configuration, and the values the Python bindings hand out.

## Layout

- `src/` is the verified library. Each module states its behaviour in
  `requires` / `ensures` clauses over spec functions, and proves its laws
  as public proof functions (`lemma_*`): round trips of every encoding,
  what a registry read gives back after an apply or a delete, what an
  online read gives back after a Redis write, what the cache answers after a
  write, how backfill chunks cover their range, and more.
- Calls into outside crates (chrono, url, hex, dirs, shellexpand, serde_json)
  and into the few parts of std that the library needs without a
  specification sit behind small trusted wrappers, each documented with what
  it claims.
- `tests/` runs the library on concrete values.
- `app/` is the server process around the library: configuration files,
  environment, the first cache tier, the audit file, health reporting, and
  the gRPC read call wired to a registry and an online store.
