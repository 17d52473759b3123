use std::collections::BTreeMap;

use databend_query_core::check_json::{
    CheckJsonArgType, CheckJsonColumn, CheckJsonFunction, CheckJsonOutput, CheckJsonReturnType, CheckJsonValues,
    ValueKind, VariantValue,
};
use databend_query_core::error::{ErrorCode, ErrorKind};
use databend_query_core::global_services::{CatalogKind, GlobalServices, InitStep, ServiceConfig};
use databend_query_core::infer_schema::{
    check_connection_protocol, check_file_format, check_stage_visibility, infer_location, schema_rows, FileColumn,
    InferColumnType, InferLocation, InferSchemaSource, InferSchemaTable,
};
use databend_query_core::meta_leader::{
    join_event_fits_check, leave_event_fits_check, leave_step, ChangeAction, ChangeEvent, ChangeState, LogEntry,
    after_remove_learner, insert_node, leave_voters, remove_node, remove_node_entry, stamp_entry, Cmd, ForwardToLeader,
    JoinPlan, JoinRequest, Membership, MetaDataError, MetaLeader, MetaNode, MetaOperationError, RemoveLearnerError,
};
use databend_query_core::sort_merge::{
    after_poll, choose_sort_rows, merge_step, try_add_multi_sort_merge, stream_step, Event, MergeStep, NumberDataType,
    SortColumnType, SortRows, StreamStep,
};
use databend_query_core::task::{check_alter_task, check_create_task, verify_scheduler_option, AlterTaskOptions, ScheduleOptions};
use databend_query_core::task_history::{parse_task_runs_to_datablock, TaskHistoryTable, TaskRun};
use databend_query_core::text::u64_to_decimal;

fn node(id: u64, configs: Vec<Vec<u64>>) -> MetaNode {
    MetaNode { id, membership: Membership { configs } }
}

#[test]
fn meta_leader_keeps_its_node() {
    let n = node(1, vec![vec![1, 2]]);
    let leader = MetaLeader::new(&n);
    let req = JoinRequest { node_id: 2, endpoint: "e".to_string(), grpc_api_addr: "g".to_string() };
    assert_eq!(leader.join_plan(req), JoinPlan::AlreadyMember);
}

#[test]
fn joining_adds_the_node() {
    let n = node(1, vec![vec![1, 2]]);
    let leader = MetaLeader::new(&n);
    let req = JoinRequest { node_id: 7, endpoint: "127.0.0.1:28004".to_string(), grpc_api_addr: "127.0.0.1:9191".to_string() };
    match leader.join_plan(req) {
        JoinPlan::AddNode { entry, voters } => {
            assert_eq!(voters, vec![1, 2, 7]);
            assert_eq!(entry.txid, None);
            assert_eq!(entry.time_ms, None);
            match entry.cmd {
                Cmd::AddNode { node_id, node } => {
                    assert_eq!(node_id, 7);
                    assert_eq!(node.name, "7");
                    assert_eq!(node.endpoint, "127.0.0.1:28004");
                    assert_eq!(node.grpc_api_addr, Some("127.0.0.1:9191".to_string()));
                },
                _ => panic!("an AddNode command was expected"),
            }
        },
        _ => panic!("the node should be added"),
    }
}

#[test]
fn leaving_removes_the_node() {
    let m = Membership { configs: vec![vec![1, 2, 3]] };
    assert_eq!(leave_voters(&m, 2), Some(vec![1, 3]));
    assert_eq!(leave_voters(&m, 9), None);
    let joint = Membership { configs: vec![vec![1, 2], vec![2, 5]] };
    assert_eq!(leave_voters(&joint, 5), Some(vec![1, 2]));
}

#[test]
fn join_then_leave_restores_the_voters() {
    let voters = vec![4, 5];
    let joined = insert_node(&voters, 6);
    assert_eq!(joined, vec![4, 5, 6]);
    assert_eq!(remove_node(&joined, 6), voters);
    assert_eq!(insert_node(&voters, 5), voters);
    assert_eq!(remove_node(&vec![3, 1, 3], 3), vec![1]);
}

#[test]
fn removing_a_learner() {
    assert_eq!(after_remove_learner(Ok(())), Ok(()));
    assert_eq!(after_remove_learner(Err(RemoveLearnerError::NotLearner)), Ok(()));
    assert_eq!(after_remove_learner(Err(RemoveLearnerError::NotExists)), Ok(()));
    let f = ForwardToLeader { leader_id: Some(3) };
    assert_eq!(
        after_remove_learner(Err(RemoveLearnerError::ForwardToLeader(f))),
        Err(MetaOperationError::ForwardToLeader(f))
    );
    assert_eq!(
        after_remove_learner(Err(RemoveLearnerError::Fatal("disk".to_string()))),
        Err(MetaOperationError::DataError(MetaDataError::WriteError("disk".to_string())))
    );
}

#[test]
fn log_entries() {
    let e = remove_node_entry(4);
    assert_eq!(e.cmd, Cmd::RemoveNode { node_id: 4 });
    let stamped = stamp_entry(e, 1234);
    assert_eq!(stamped.time_ms, Some(1234));
    assert_eq!(stamped.cmd, Cmd::RemoveNode { node_id: 4 });
}

#[test]
fn sort_row_formats() {
    assert_eq!(choose_sort_rows(1, SortColumnType::Number(NumberDataType::Int32)), SortRows::SimpleNumber(NumberDataType::Int32));
    assert_eq!(choose_sort_rows(1, SortColumnType::String), SortRows::SimpleString);
    assert_eq!(choose_sort_rows(1, SortColumnType::Other), SortRows::Binary);
    assert_eq!(choose_sort_rows(2, SortColumnType::Date), SortRows::Binary);
}

#[test]
fn try_add_multi_sort_merges() {
    let e = try_add_multi_sort_merge(true, 3).err().unwrap();
    assert_eq!(e.kind, ErrorKind::Internal);
    assert_eq!(e.message, "Cannot resize empty pipe.");
    assert!(try_add_multi_sort_merge(false, 0).is_err());
    assert_eq!(try_add_multi_sort_merge(false, 1).ok().unwrap(), None);
    assert_eq!(try_add_multi_sort_merge(false, 4).ok().unwrap(), Some(4));
}

#[test]
fn merge_processor_steps() {
    assert_eq!(merge_step(true, true, true, true), MergeStep::FinishInputs);
    assert_eq!(merge_step(false, false, true, true), MergeStep::WaitForConsumer);
    assert_eq!(merge_step(false, true, true, true), MergeStep::PushBlock);
    assert_eq!(merge_step(false, true, false, true), MergeStep::FinishAll);
    assert_eq!(merge_step(false, true, false, false), MergeStep::PollInputs);
    assert_eq!(after_poll(true), Event::NeedData);
    assert_eq!(after_poll(false), Event::Sync);
    assert_eq!(stream_step(true, true, false), StreamStep::PullBlock { remove_order_col: false });
    assert_eq!(stream_step(false, true, true), StreamStep::Done);
    assert_eq!(stream_step(false, false, true), StreamStep::Pending);
}

#[test]
fn schedules() {
    assert!(verify_scheduler_option(&None).is_ok());
    assert!(verify_scheduler_option(&Some(ScheduleOptions::IntervalSecs(5))).is_ok());
    let good = Some(ScheduleOptions::CronExpression("0 0 * * * *".to_string(), Some("Asia/Shanghai".to_string())));
    assert!(verify_scheduler_option(&good).is_ok());
    let empty_zone = Some(ScheduleOptions::CronExpression("0 0 * * * *".to_string(), Some(String::new())));
    assert!(verify_scheduler_option(&empty_zone).is_ok());
    let bad = Some(ScheduleOptions::CronExpression("not a cron".to_string(), None));
    let e = verify_scheduler_option(&bad).err().unwrap();
    assert_eq!(e.kind, ErrorKind::SemanticError);
    assert_eq!(e.message, "invalid cron expression not a cron");
    let bad_zone = Some(ScheduleOptions::CronExpression("0 0 * * * *".to_string(), Some("Mars/Base".to_string())));
    let e = verify_scheduler_option(&bad_zone).err().unwrap();
    assert_eq!(e.message, "invalid time zone Mars/Base");
}

#[test]
fn create_task_checks() {
    let e = check_create_task(&None, &vec![], Ok(())).err().unwrap();
    assert_eq!(e.kind, ErrorKind::SyntaxException);
    assert_eq!(
        e.message,
        "task must be defined with either given time schedule as a root task or run after other task as a DAG"
    );
    let both = check_create_task(&Some(ScheduleOptions::IntervalSecs(1)), &vec!["t0".to_string()], Ok(()));
    assert!(both.is_err());
    assert!(check_create_task(&Some(ScheduleOptions::IntervalSecs(1)), &vec![], Ok(())).is_ok());
    let parse_error = ErrorCode::new(ErrorKind::SyntaxException, "bad sql".to_string());
    let e = check_create_task(&None, &vec!["t0".to_string()], Err(parse_error)).err().unwrap();
    assert_eq!(e.message, "bad sql");
}

#[test]
fn alter_task_checks() {
    let nothing = AlterTaskOptions::SetOptions {
        warehouse: None,
        schedule: None,
        suspend_task_after_num_failures: None,
        comments: None,
        session_parameters: None,
    };
    let e = check_alter_task(&nothing, Ok(())).err().unwrap();
    assert_eq!(e.message, "alter task must set at least one option");
    let comment = AlterTaskOptions::SetOptions {
        warehouse: None,
        schedule: None,
        suspend_task_after_num_failures: None,
        comments: Some("c".to_string()),
        session_parameters: None,
    };
    assert!(check_alter_task(&comment, Ok(())).is_ok());
    let parse_error = ErrorCode::new(ErrorKind::SyntaxException, "bad sql".to_string());
    assert!(check_alter_task(&AlterTaskOptions::ModifyAs("x".to_string()), Err(parse_error)).is_err());
    let parse_error = ErrorCode::new(ErrorKind::SyntaxException, "bad sql".to_string());
    assert!(check_alter_task(&AlterTaskOptions::Resume, Err(parse_error)).is_ok());
}

#[test]
fn task_history_rows() {
    let mut params = BTreeMap::new();
    params.insert("b".to_string(), "2".to_string());
    params.insert("a".to_string(), "1".to_string());
    let run = TaskRun {
        task_name: "t".to_string(),
        task_id: 9,
        owner: "o".to_string(),
        comment: None,
        schedule_options: Some("5 SECOND".to_string()),
        warehouse: None,
        state: "SUCCEEDED".to_string(),
        error_code: 0,
        error_message: None,
        query_text: "SELECT 1".to_string(),
        condition_text: String::new(),
        run_id: "r".to_string(),
        query_id: "q".to_string(),
        attempt_number: 1,
        completed_at: Some(20),
        scheduled_at: 10,
        root_task_id: "root".to_string(),
        session_params: params,
    };
    let b = parse_task_runs_to_datablock(&vec![run]);
    assert_eq!(b.name, vec!["t".to_string()]);
    assert_eq!(b.id, vec![9]);
    assert_eq!(b.schedule, vec![Some("5 SECOND".to_string())]);
    assert_eq!(b.completed_time, vec![Some(20)]);
    assert_eq!(b.scheduled_time, vec![10]);
    assert_eq!(b.session_params, vec![Some(b"{\"a\":\"1\",\"b\":\"2\"}".to_vec())]);
    let empty = parse_task_runs_to_datablock(&vec![]);
    assert_eq!(empty.name.len(), 0);
}

#[test]
fn task_history_request() {
    let e = TaskHistoryTable::task_runs_request(false, "tenant", &vec![]).err().unwrap();
    assert_eq!(e.kind, ErrorKind::CloudControlNotEnabled);
    let q = TaskHistoryTable::task_runs_request(true, "tenant", &vec!["role1".to_string()]).ok().unwrap();
    assert_eq!(q.tenant_id, "tenant");
    assert_eq!(q.result_limit, 10000);
    assert_eq!(q.owners, vec!["role1".to_string()]);
    assert!(!q.error_only);
    let (id, desc, name, engine) = TaskHistoryTable::create(5);
    assert_eq!(id, 5);
    assert_eq!(desc, "'system'.'task_history'");
    assert_eq!(name, "task_history");
    assert_eq!(engine, "SystemTaskHistory");
}

fn config(address: Option<String>) -> ServiceConfig {
    ServiceConfig {
        tenant_id: "tn".to_string(),
        cluster_id: "c1".to_string(),
        node_id: "n1".to_string(),
        num_cpus: 8,
        share_endpoint_address: "addr".to_string(),
        share_endpoint_auth_token_file: "token".to_string(),
        cloud_control_grpc_server_address: address,
    }
}

#[test]
fn service_start_up_order() {
    let c = config(None);
    assert!(matches!(GlobalServices::init(&c, 0), Some(InitStep::ProductionInstance)));
    assert!(matches!(GlobalServices::init_with(&c, 0), Some(InitStep::GlobalConfig)));
    match GlobalServices::init_with(&c, 1) {
        Some(InitStep::Logger { app_name, labels }) => {
            assert_eq!(app_name, "databend-query-c1");
            let keys: Vec<&str> = labels.iter().map(|(k, _)| k.as_str()).collect();
            assert_eq!(keys, vec!["cluster_id", "node_id", "service", "tenant_id"]);
            assert_eq!(labels[2].1, "databend-query");
        },
        _ => panic!("the logger comes second"),
    }
    assert!(matches!(GlobalServices::init_with(&c, 2), Some(InitStep::IoRuntime { threads: 8 })));
    match GlobalServices::init_with(&c, 5) {
        Some(InitStep::Catalogs { creators }) => assert_eq!(creators, vec![CatalogKind::Iceberg, CatalogKind::Hive]),
        _ => panic!("the catalogs come sixth"),
    }
    assert!(matches!(GlobalServices::init_with(&c, 16), Some(InitStep::CacheManager { .. })));
    assert!(GlobalServices::init_with(&c, 17).is_none());
    let c = config(Some("cc:1".to_string()));
    match GlobalServices::init_with(&c, 17) {
        Some(InitStep::CloudControl { address }) => assert_eq!(address, "cc:1"),
        _ => panic!("cloud control comes last"),
    }
    assert!(GlobalServices::init_with(&c, 18).is_none());
}

#[test]
fn infer_schema_table_and_rows() {
    let t = InferSchemaTable::create("db", "infer_schema", 3);
    assert_eq!(t.desc, "'db'.'infer_schema'");
    assert_eq!(t.engine, "infer_schema");
    let names: Vec<&str> = t.schema.iter().map(|f| f.name.as_str()).collect();
    assert_eq!(names, vec!["column_name", "type", "nullable", "order_id"]);
    assert_eq!(t.schema[3].data_type, InferColumnType::UInt64);
    let rows = schema_rows(&vec![
        FileColumn { name: "a".to_string(), sql_type: "INT".to_string(), nullable: false },
        FileColumn { name: "b".to_string(), sql_type: "VARCHAR".to_string(), nullable: true },
    ]);
    assert_eq!(rows.names, vec!["a".to_string(), "b".to_string()]);
    assert_eq!(rows.nulls, vec![false, true]);
    assert_eq!(rows.order_ids, vec![0, 1]);
}

#[test]
fn infer_schema_locations_and_checks() {
    assert!(matches!(infer_location(true, "@s", &None), InferLocation::Finished));
    match infer_location(false, "@stage/dir/", &None) {
        InferLocation::Stage(s) => assert_eq!(s, "stage/dir/"),
        _ => panic!("a stage was expected"),
    }
    match infer_location(false, "s3://b/k", &Some("conn".to_string())) {
        InferLocation::ConnectionUri { connection_name, location } => {
            assert_eq!(connection_name, "conn");
            assert_eq!(location, "s3://b/k");
        },
        _ => panic!("a connection was expected"),
    }
    assert!(matches!(infer_location(false, "fs:///tmp/x", &None), InferLocation::Uri(_)));
    assert!(check_connection_protocol("conn", "s3", "s3", true).is_ok());
    let e = check_connection_protocol("conn", "s3", "gcs", false).err().unwrap();
    assert_eq!(e.message, "protocol from connection_name=conn (s3) not match with uri protocol (gcs).");
    let e = check_stage_visibility(true, false, false, "st", "'u'@'%'").err().unwrap();
    assert_eq!(e.kind, ErrorKind::PermissionDenied);
    assert_eq!(e.message, "Permission denied, privilege READ is required on stage st for user 'u'@'%'");
    assert!(check_stage_visibility(true, true, false, "st", "u").is_ok());
    assert!(check_stage_visibility(false, false, false, "st", "u").is_ok());
    assert!(check_file_format(true).is_ok());
    let e = check_file_format(false).err().unwrap();
    assert_eq!(e.message, "infer_schema is currently limited to format Parquet");
}

#[test]
fn check_json_function() {
    let f = CheckJsonFunction::try_create("check_json").ok().unwrap();
    assert_eq!(f.name(), "check_json");
    assert_eq!(f.to_string(), "CHECK_JSON");
    let d = CheckJsonFunction::desc();
    assert!(d.deterministic && d.monotonicity);
    assert_eq!(d.num_arguments, 1);
    let null = CheckJsonArgType { kind: ValueKind::Null, nullable: false };
    assert_eq!(CheckJsonFunction::return_type(null), CheckJsonReturnType::Null);
    let text = CheckJsonArgType { kind: ValueKind::Text, nullable: true };
    assert_eq!(CheckJsonFunction::return_type(text), CheckJsonReturnType::NullableVariant);
    let text = CheckJsonArgType { kind: ValueKind::Text, nullable: false };
    assert_eq!(CheckJsonFunction::return_type(text), CheckJsonReturnType::Variant);
}

#[test]
fn check_json_of_texts() {
    let column = CheckJsonColumn {
        validity: Some(vec![true, true, false, true]),
        values: CheckJsonValues::Text(vec![
            b"{\"a\":1}".to_vec(),
            b"{\"a\":".to_vec(),
            b"junk".to_vec(),
            vec![0xff, 0xfe],
        ]),
    };
    match CheckJsonFunction::eval(&column, 4) {
        CheckJsonOutput::Messages(m) => {
            assert_eq!(m.len(), 4);
            assert!(m[0].is_none());
            assert_eq!(m[1], Some("EOF while parsing a value at line 1 column 5".to_string()));
            assert!(m[2].is_none());
            assert!(m[3].as_ref().unwrap().contains("invalid utf-8"));
        },
        _ => panic!("messages were expected"),
    }
}

#[test]
fn check_json_of_other_columns() {
    let column = CheckJsonColumn { validity: None, values: CheckJsonValues::Array };
    match CheckJsonFunction::eval(&column, 2) {
        CheckJsonOutput::Messages(m) => assert_eq!(
            m,
            vec![Some("Invalid argument types for function 'CHECK_JSON': (ARRAY)".to_string()); 2]
        ),
        _ => panic!("messages were expected"),
    }
    let column = CheckJsonColumn { validity: None, values: CheckJsonValues::Null };
    assert!(matches!(CheckJsonFunction::eval(&column, 3), CheckJsonOutput::AllNull { rows: 3 }));
    let column = CheckJsonColumn { validity: None, values: CheckJsonValues::Other };
    match CheckJsonFunction::eval(&column, 2) {
        CheckJsonOutput::Messages(m) => assert_eq!(m, vec![None, None]),
        _ => panic!("messages were expected"),
    }
    let column = CheckJsonColumn {
        validity: None,
        values: CheckJsonValues::Variant(vec![VariantValue::Text("[1,".to_string()), VariantValue::NotText]),
    };
    match CheckJsonFunction::eval(&column, 2) {
        CheckJsonOutput::Messages(m) => {
            assert!(m[0].is_some());
            assert!(m[1].is_none());
        },
        _ => panic!("messages were expected"),
    }
}

#[test]
fn decimal_text() {
    assert_eq!(u64_to_decimal(0), "0");
    assert_eq!(u64_to_decimal(907), "907");
    assert_eq!(u64_to_decimal(u64::MAX), "18446744073709551615");
}

#[test]
fn infer_schema_source_reads_its_location_once() {
    let mut s = InferSchemaSource::create("@st/dir/".to_string(), None);
    assert!(!s.is_finished());
    match s.generate() {
        InferLocation::Stage(st) => assert_eq!(st, "st/dir/"),
        _ => panic!("a stage was expected"),
    }
    assert!(s.is_finished());
    assert!(matches!(s.generate(), InferLocation::Finished));
    assert!(matches!(s.generate(), InferLocation::Finished));

    let mut c = InferSchemaSource::create("s3://b/k".to_string(), Some("conn".to_string()));
    match c.generate() {
        InferLocation::ConnectionUri { connection_name, location } => {
            assert_eq!(connection_name, "conn");
            assert_eq!(location, "s3://b/k");
        },
        _ => panic!("a connection URI was expected"),
    }
    assert!(matches!(c.generate(), InferLocation::Finished));
}

#[test]
fn leaving_voter_walks_every_step() {
    let (s, a) = leave_step(3, ChangeState::Start, ChangeEvent::Begin);
    assert_eq!(a, ChangeAction::AskCanLeave(3));
    let (s, a) = leave_step(3, s, ChangeEvent::CanLeave(Ok(Ok(()))));
    assert_eq!(a, ChangeAction::ReadMembership);
    let e = ChangeEvent::Membership(Ok(Membership { configs: vec![vec![1, 2, 3]] }));
    assert!(leave_event_fits_check(&s, &e));
    let (s, a) = leave_step(3, s, e);
    assert_eq!(a, ChangeAction::ChangeMembership { voters: vec![1, 2], retain: true });
    let (s, a) = leave_step(3, s, ChangeEvent::MembershipChanged(Ok(())));
    assert_eq!(a, ChangeAction::RemoveLearner(3));
    let (s, a) = leave_step(3, s, ChangeEvent::LearnerRemoved(Err(RemoveLearnerError::NotLearner)));
    assert_eq!(a, ChangeAction::Write(LogEntry { txid: None, time_ms: None, cmd: Cmd::RemoveNode { node_id: 3 } }));
    let (s, a) = leave_step(3, s, ChangeEvent::Written(Ok(())));
    assert_eq!(s, ChangeState::Done);
    assert_eq!(a, ChangeAction::Finish(Ok(())));
}

#[test]
fn leaving_stops_at_the_first_error() {
    let (s, _) = leave_step(3, ChangeState::Start, ChangeEvent::Begin);
    let (done, a) = leave_step(3, s.clone(), ChangeEvent::CanLeave(Ok(Err("not a member".to_string()))));
    assert_eq!(done, ChangeState::Done);
    assert_eq!(a, ChangeAction::Finish(Ok(())));
    let (_, a) = leave_step(3, s, ChangeEvent::CanLeave(Err("io".to_string())));
    assert_eq!(a, ChangeAction::Finish(Err(MetaOperationError::DataError(MetaDataError::ReadError("io".to_string())))));
    // a node that is no voter goes straight to replication
    let (s, a) = leave_step(9, ChangeState::AwaitMembership, ChangeEvent::Membership(Ok(Membership { configs: vec![vec![1]] })));
    assert_eq!(a, ChangeAction::RemoveLearner(9));
    let (s, a) = leave_step(9, s, ChangeEvent::LearnerRemoved(Err(RemoveLearnerError::Fatal("disk".to_string()))));
    assert_eq!(s, ChangeState::Done);
    assert_eq!(a, ChangeAction::Finish(Err(MetaOperationError::DataError(MetaDataError::WriteError("disk".to_string())))));
    // a membership without configurations cannot be taken
    assert!(!leave_event_fits_check(&ChangeState::AwaitMembership, &ChangeEvent::Membership(Ok(Membership { configs: vec![] }))));
}

#[test]
fn joining_logs_then_changes_membership() {
    let n = node(1, vec![vec![1, 2]]);
    let leader = MetaLeader::new(&n);
    let req = JoinRequest { node_id: 7, endpoint: "e".to_string(), grpc_api_addr: "g".to_string() };
    assert!(join_event_fits_check(&leader, &ChangeState::Start, &ChangeEvent::Begin));
    let (s, a) = leader.join_step(&req, ChangeState::Start, ChangeEvent::Begin);
    match a {
        ChangeAction::Write(entry) => assert!(matches!(entry.cmd, Cmd::AddNode { node_id: 7, .. })),
        _ => panic!("a write was expected"),
    }
    let (s, a) = leader.join_step(&req, s, ChangeEvent::Written(Ok(())));
    assert_eq!(a, ChangeAction::ChangeMembership { voters: vec![1, 2, 7], retain: false });
    let (s, a) = leader.join_step(&req, s, ChangeEvent::MembershipChanged(Ok(())));
    assert_eq!(s, ChangeState::Done);
    assert_eq!(a, ChangeAction::Finish(Ok(())));

    let member = JoinRequest { node_id: 2, endpoint: "e".to_string(), grpc_api_addr: "g".to_string() };
    let (s, a) = leader.join_step(&member, ChangeState::Start, ChangeEvent::Begin);
    assert_eq!(s, ChangeState::Done);
    assert_eq!(a, ChangeAction::Finish(Ok(())));
}
