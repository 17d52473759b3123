# databend_query_core

Verified core logic of a cloud data warehouse's query engine, written in
Verus. Every function under `src/` is verified by Verus; the public ones
state in their contracts what they return or change, except where the
result is decided entirely by a user's implementation of a trait (the
default dispatch of `PhysicalPlanReplacer::replace`).

- `ast/` — the SQL expression tree, its operator tables, type names, and its
  SQL text (identifiers and some literals are rendered by caller-supplied
  functions).
- `constant_folding` — folding of constant plan expressions, with the
  function registry and expression engine supplied as an `Evaluator`.
- `json_srf`, `jsonb_binary` — the set-returning functions over binary
  JSONB values, and the check that a value is well-formed JSONB: `FLATTEN`,
  `JSON_PATH_QUERY`, `JSON_ARRAY_ELEMENTS`, `JSON_EACH`.
- `arrow_types`, `parquet_types`, `parquet_schema` — the mapping of Arrow
  fields to Parquet schema nodes.
- `physical_plan` — the physical plan tree, its traversal and rewriting.
- `show_create`, `task`, `task_history`, `infer_schema`, `check_json` —
  statement and table-function logic.
- `global_services`, `meta_leader`, `sort_merge`, `union_all`, `serde_meta`,
  `table_meta` — start-up planning, cluster membership changes, processor
  decisions and storage metadata.

Calls into outside crates (`jsonb`, `serde_json`, `parquet2`, `base64`,
`cron`, `chrono`, `chrono-tz`) go through small trusted wrappers whose
contracts name or describe what those crates compute.

`app/` holds the unverified glue: the serde form of aggregation metadata,
the clock behind snapshot timestamps, the driver that starts services, the
driver that runs a node's join or leave against the raft node, and the
text of floating-point literals.
