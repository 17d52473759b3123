//! The `system.task_history` table: the runs of tasks reported by cloud
//! control, one row per run.

use vstd::prelude::*;

use std::collections::BTreeMap;

use crate::error::{ErrorCode, ErrorKind};

verus! {

/// What `serde_json::to_vec` gives for a map from texts to texts: a JSON
/// object with the entries in key order.
pub uninterp spec fn json_object_bytes(params: Map<Seq<char>, Seq<char>>) -> Seq<u8>;

/// `serde_json::to_vec` on the session parameters, named by
/// `json_object_bytes`. A map with text keys always serializes, so the
/// error case of `to_vec` does not occur.
#[verifier::external_body]
fn serialize_params(params: &BTreeMap<String, String>) -> (r: Vec<u8>)
    ensures
        r@ == json_object_bytes(params.deep_view()),
{
    serde_json::to_vec(params).unwrap()
}

/// One run of a task, as cloud control reports it.
pub struct TaskRun {
    pub task_name: String,
    pub task_id: u64,
    pub owner: String,
    pub comment: Option<String>,
    pub schedule_options: Option<String>,
    /// The warehouse of the run's warehouse options, if any.
    pub warehouse: Option<String>,
    /// The state, as it displays.
    pub state: String,
    pub error_code: i64,
    pub error_message: Option<String>,
    pub query_text: String,
    pub condition_text: String,
    pub run_id: String,
    pub query_id: String,
    pub attempt_number: i32,
    /// When the run completed, in microseconds since the epoch.
    pub completed_at: Option<i64>,
    /// When the run was scheduled, in microseconds since the epoch.
    pub scheduled_at: i64,
    pub root_task_id: String,
    pub session_params: BTreeMap<String, String>,
}

/// The columns of the table, one entry per run.
pub struct TaskHistoryBlock {
    pub name: Vec<String>,
    pub id: Vec<u64>,
    pub owner: Vec<String>,
    pub comment: Vec<Option<String>>,
    pub schedule: Vec<Option<String>>,
    pub warehouse: Vec<Option<String>>,
    pub state: Vec<String>,
    pub definition: Vec<String>,
    pub condition_text: Vec<String>,
    pub run_id: Vec<String>,
    pub query_id: Vec<String>,
    pub exception_code: Vec<i64>,
    pub exception_text: Vec<Option<String>>,
    pub attempt_number: Vec<i32>,
    pub completed_time: Vec<Option<i64>>,
    pub scheduled_time: Vec<i64>,
    pub root_task_id: Vec<String>,
    pub session_params: Vec<Option<Vec<u8>>>,
}

pub open spec fn opt_text(o: Option<String>) -> Option<Seq<char>> {
    match o {
        Some(s) => Some(s@),
        None => None,
    }
}

/// Row `i` of the block holds run `i`.
pub open spec fn row_holds(b: TaskHistoryBlock, i: int, r: TaskRun) -> bool {
    &&& b.name@[i]@ == r.task_name@
    &&& b.id@[i] == r.task_id
    &&& b.owner@[i]@ == r.owner@
    &&& opt_text(b.comment@[i]) == opt_text(r.comment)
    &&& opt_text(b.schedule@[i]) == opt_text(r.schedule_options)
    &&& opt_text(b.warehouse@[i]) == opt_text(r.warehouse)
    &&& b.state@[i]@ == r.state@
    &&& b.definition@[i]@ == r.query_text@
    &&& b.condition_text@[i]@ == r.condition_text@
    &&& b.run_id@[i]@ == r.run_id@
    &&& b.query_id@[i]@ == r.query_id@
    &&& b.exception_code@[i] == r.error_code
    &&& opt_text(b.exception_text@[i]) == opt_text(r.error_message)
    &&& b.attempt_number@[i] == r.attempt_number
    &&& b.completed_time@[i] == r.completed_at
    &&& b.scheduled_time@[i] == r.scheduled_at
    &&& b.root_task_id@[i]@ == r.root_task_id@
    &&& b.session_params@[i] matches Some(p) && p@ == json_object_bytes(r.session_params.deep_view())
}

pub open spec fn block_len(b: TaskHistoryBlock, n: nat) -> bool {
    &&& b.name@.len() == n
    &&& b.id@.len() == n
    &&& b.owner@.len() == n
    &&& b.comment@.len() == n
    &&& b.schedule@.len() == n
    &&& b.warehouse@.len() == n
    &&& b.state@.len() == n
    &&& b.definition@.len() == n
    &&& b.condition_text@.len() == n
    &&& b.run_id@.len() == n
    &&& b.query_id@.len() == n
    &&& b.exception_code@.len() == n
    &&& b.exception_text@.len() == n
    &&& b.attempt_number@.len() == n
    &&& b.completed_time@.len() == n
    &&& b.scheduled_time@.len() == n
    &&& b.root_task_id@.len() == n
    &&& b.session_params@.len() == n
}

fn copy_opt(o: &Option<String>) -> (r: Option<String>)
    ensures
        opt_text(r) == opt_text(*o),
{
    match o {
        Some(s) => Some(s.clone()),
        None => None,
    }
}

/// The rows of the table for the runs, in order; the session parameters
/// of each run are stored as a JSON object.
pub fn parse_task_runs_to_datablock(task_runs: &Vec<TaskRun>) -> (b: TaskHistoryBlock)
    ensures
        block_len(b, task_runs@.len()),
        forall|i: int| 0 <= i < task_runs@.len() ==> row_holds(b, i, #[trigger] task_runs@[i]),
{
    let mut b = TaskHistoryBlock {
        name: Vec::new(),
        id: Vec::new(),
        owner: Vec::new(),
        comment: Vec::new(),
        schedule: Vec::new(),
        warehouse: Vec::new(),
        state: Vec::new(),
        definition: Vec::new(),
        condition_text: Vec::new(),
        run_id: Vec::new(),
        query_id: Vec::new(),
        exception_code: Vec::new(),
        exception_text: Vec::new(),
        attempt_number: Vec::new(),
        completed_time: Vec::new(),
        scheduled_time: Vec::new(),
        root_task_id: Vec::new(),
        session_params: Vec::new(),
    };
    let mut i: usize = 0;
    while i < task_runs.len()
        invariant
            i <= task_runs@.len(),
            block_len(b, i as nat),
            forall|k: int| 0 <= k < i ==> row_holds(b, k, #[trigger] task_runs@[k]),
        decreases task_runs@.len() - i,
    {
        let tr = &task_runs[i];
        let ghost before = b;
        b.name.push(tr.task_name.clone());
        b.id.push(tr.task_id);
        b.owner.push(tr.owner.clone());
        b.comment.push(copy_opt(&tr.comment));
        b.schedule.push(copy_opt(&tr.schedule_options));
        b.warehouse.push(copy_opt(&tr.warehouse));
        b.state.push(tr.state.clone());
        b.definition.push(tr.query_text.clone());
        b.condition_text.push(tr.condition_text.clone());
        b.run_id.push(tr.run_id.clone());
        b.query_id.push(tr.query_id.clone());
        b.exception_code.push(tr.error_code);
        b.exception_text.push(copy_opt(&tr.error_message));
        b.attempt_number.push(tr.attempt_number);
        b.completed_time.push(tr.completed_at);
        b.scheduled_time.push(tr.scheduled_at);
        b.root_task_id.push(tr.root_task_id.clone());
        b.session_params.push(Some(serialize_params(&tr.session_params)));
        proof {
            assert forall|k: int| 0 <= k < i + 1 implies row_holds(b, k, #[trigger] task_runs@[k]) by {
                if k < i {
                    assert(row_holds(before, k, task_runs@[k]));
                }
            }
        }
        i = i + 1;
    }
    b
}

/// The request for the runs of a tenant's tasks that the current roles own.
pub struct ShowTaskRunsRequest {
    pub tenant_id: String,
    pub scheduled_time_start: String,
    pub scheduled_time_end: String,
    pub task_name: String,
    pub result_limit: i32,
    pub error_only: bool,
    pub owners: Vec<String>,
    pub task_ids: Vec<String>,
}

pub open spec fn cloud_control_disabled_message() -> Seq<char> {
    "cannot view system.task_history table without cloud control enabled, please set cloud_control_grpc_server_address in config"@
}

pub struct TaskHistoryTable;

impl TaskHistoryTable {
    /// The request that reading the table sends: up to 10000 runs of all
    /// the tenant's tasks that one of `roles` owns, failing without a cloud
    /// control address.
    pub fn task_runs_request(
        cloud_control_enabled: bool,
        tenant: &str,
        roles: &Vec<String>,
    ) -> (r: Result<ShowTaskRunsRequest, ErrorCode>)
        ensures
            !cloud_control_enabled ==> (r matches Err(e)
                && e@ == (ErrorKind::CloudControlNotEnabled, cloud_control_disabled_message())),
            cloud_control_enabled ==> (r matches Ok(q) && {
                &&& q.tenant_id@ == tenant@
                &&& q.scheduled_time_start@.len() == 0
                &&& q.scheduled_time_end@.len() == 0
                &&& q.task_name@.len() == 0
                &&& q.result_limit == 10000
                &&& !q.error_only
                &&& q.owners@.len() == roles@.len()
                &&& (forall|i: int| 0 <= i < roles@.len() ==> (#[trigger] q.owners@[i])@ == roles@[i]@)
                &&& q.task_ids@.len() == 0
            }),
    {
        if !cloud_control_enabled {
            return Err(ErrorCode::new(
                ErrorKind::CloudControlNotEnabled,
                String::from_str(
                    "cannot view system.task_history table without cloud control enabled, please set cloud_control_grpc_server_address in config",
                ),
            ));
        }
        let mut owners: Vec<String> = Vec::new();
        let mut i: usize = 0;
        while i < roles.len()
            invariant
                i <= roles@.len(),
                owners@.len() == i,
                forall|k: int| 0 <= k < i ==> (#[trigger] owners@[k])@ == roles@[k]@,
            decreases roles@.len() - i,
        {
            owners.push(roles[i].clone());
            i = i + 1;
        }
        Ok(ShowTaskRunsRequest {
            tenant_id: String::from_str(tenant),
            scheduled_time_start: String::new(),
            scheduled_time_end: String::new(),
            task_name: String::new(),
            result_limit: 10000,
            error_only: false,
            owners,
            task_ids: Vec::new(),
        })
    }

    /// The catalog entry of the table: `'system'.'task_history'`, under the
    /// `SystemTaskHistory` engine.
    pub fn create(table_id: u64) -> (r: (u64, String, String, String))
        ensures
            r.0 == table_id,
            r.1@ == "'system'.'task_history'"@,
            r.2@ == "task_history"@,
            r.3@ == "SystemTaskHistory"@,
    {
        (
            table_id,
            String::from_str("'system'.'task_history'"),
            String::from_str("task_history"),
            String::from_str("SystemTaskHistory"),
        )
    }
}

} // verus!
