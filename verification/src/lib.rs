//! Verified core logic of a cloud data warehouse's query engine: the SQL
//! expression syntax tree and its operator tables, the mapping of Arrow
//! fields to Parquet schema nodes, the FLATTEN table function over JSONB
//! values, constant folding of plan expressions, and a handful of planner,
//! storage and meta-service decisions.

pub mod arrow_types;
pub mod ast;
pub mod check_json;
pub mod constant_folding;
pub mod error;
pub mod global_services;
pub mod infer_schema;
pub mod json_srf;
pub mod jsonb_binary;
pub mod meta_leader;
pub mod parquet_schema;
pub mod physical_plan;
pub mod serde_meta;
pub mod show_create;
pub mod sort_merge;
pub mod table_meta;
pub mod task;
pub mod task_history;
pub mod parquet_types;
pub mod text;
pub mod union_all;
