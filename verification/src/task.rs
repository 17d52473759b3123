//! The checks that the binder makes on `CREATE TASK` and `ALTER TASK`
//! statements before it plans them.

use vstd::prelude::*;

use crate::error::{ErrorCode, ErrorKind};

verus! {

/// When a root task runs: every so many seconds, or by a cron expression
/// with an optional time zone.
#[derive(Debug, Clone, PartialEq, Eq)]
pub enum ScheduleOptions {
    IntervalSecs(u64),
    CronExpression(String, Option<String>),
}

/// What an `ALTER TASK` statement changes.
#[derive(Debug, Clone, PartialEq, Eq)]
pub enum AlterTaskOptions {
    Resume,
    Suspend,
    /// `SET` of some options.
    SetOptions {
        warehouse: Option<String>,
        schedule: Option<ScheduleOptions>,
        suspend_task_after_num_failures: Option<u64>,
        comments: Option<String>,
        session_parameters: Option<Vec<(String, String)>>,
    },
    Unset { warehouse: bool },
    /// A new SQL body.
    ModifyAs(String),
    /// A new `WHEN` condition, as SQL text.
    ModifyWhen(String),
    AddAfter(Vec<String>),
    RemoveAfter(Vec<String>),
}

/// Whether the `cron` crate parses `expr` as a schedule
/// (`cron::Schedule::from_str(expr).is_ok()`).
pub uninterp spec fn cron_accepts(expr: Seq<char>) -> bool;

/// Whether `chrono_tz` knows the time zone `name`
/// (`chrono_tz::Tz::from_str(name).is_ok()`).
pub uninterp spec fn tz_accepts(name: Seq<char>) -> bool;

/// Parses a cron expression with `cron::Schedule::from_str` and reports
/// whether it parsed; which expressions parse is named by `cron_accepts`.
#[verifier::external_body]
fn parse_cron(expr: &str) -> (ok: bool)
    ensures
        ok == cron_accepts(expr@),
{
    <cron::Schedule as core::str::FromStr>::from_str(expr).is_ok()
}

/// Parses a time zone name with `chrono_tz::Tz::from_str` and reports
/// whether it parsed; which names parse is named by `tz_accepts`.
#[verifier::external_body]
fn parse_time_zone(name: &str) -> (ok: bool)
    ensures
        ok == tz_accepts(name@),
{
    <chrono_tz::Tz as core::str::FromStr>::from_str(name).is_ok()
}

pub open spec fn invalid_cron_message(expr: Seq<char>) -> Seq<char> {
    "invalid cron expression "@ + expr
}

pub open spec fn invalid_time_zone_message(tz: Seq<char>) -> Seq<char> {
    "invalid time zone "@ + tz
}

/// The error of a schedule, if any: a cron expression that does not parse,
/// then a non-empty time zone that is unknown. Interval schedules and no
/// schedule are always fine.
pub open spec fn schedule_error(opts: Option<ScheduleOptions>) -> Option<(ErrorKind, Seq<char>)> {
    match opts {
        Some(ScheduleOptions::CronExpression(expr, tz)) => if !cron_accepts(expr@) {
            Some((ErrorKind::SemanticError, invalid_cron_message(expr@)))
        } else if tz matches Some(z) && z@.len() > 0 && !tz_accepts(z@) {
            Some((ErrorKind::SemanticError, invalid_time_zone_message(tz.unwrap()@)))
        } else {
            None
        },
        _ => None,
    }
}

/// Whether `r` reports exactly the error `e`, or success when there is none.
pub open spec fn reports(r: Result<(), ErrorCode>, e: Option<(ErrorKind, Seq<char>)>) -> bool {
    match e {
        None => r is Ok,
        Some(err) => r matches Err(x) && x@ == err,
    }
}

/// Checks a schedule: its cron expression must parse, and its time zone, if
/// given and not empty, must be known.
pub fn verify_scheduler_option(schedule_opts: &Option<ScheduleOptions>) -> (r: Result<(), ErrorCode>)
    ensures
        reports(r, schedule_error(*schedule_opts)),
{
    match schedule_opts {
        Some(ScheduleOptions::CronExpression(cron_expr, time_zone)) => {
            if !parse_cron(cron_expr.as_str()) {
                let m = String::from_str("invalid cron expression ");
                let m = m.concat(cron_expr.as_str());
                return Err(ErrorCode::new(ErrorKind::SemanticError, m));
            }
            if let Some(tz) = time_zone {
                if !tz.as_str().is_empty() && !parse_time_zone(tz.as_str()) {
                    let m = String::from_str("invalid time zone ");
                    let m = m.concat(tz.as_str());
                    return Err(ErrorCode::new(ErrorKind::SemanticError, m));
                }
            }
            Ok(())
        },
        _ => Ok(()),
    }
}

pub open spec fn root_or_dag_message() -> Seq<char> {
    "task must be defined with either given time schedule as a root task or run after other task as a DAG"@
}

/// The error of a `CREATE TASK` statement, if any, given the verdict of the
/// SQL parser on its body: a task is a root task with a schedule or runs
/// after other tasks, never both and never neither; then its schedule must
/// be valid; then its body must parse.
pub open spec fn create_task_error(
    schedule_opts: Option<ScheduleOptions>,
    after: Seq<String>,
    sql_verdict: Result<(), ErrorCode>,
) -> Option<(ErrorKind, Seq<char>)> {
    if (schedule_opts is None && after.len() == 0) || (schedule_opts is Some && after.len() != 0) {
        Some((ErrorKind::SyntaxException, root_or_dag_message()))
    } else if schedule_error(schedule_opts) is Some {
        schedule_error(schedule_opts)
    } else {
        match sql_verdict {
            Ok(()) => None,
            Err(e) => Some(e@),
        }
    }
}

/// Checks a `CREATE TASK` statement, given the parser's verdict on its SQL body.
pub fn check_create_task(
    schedule_opts: &Option<ScheduleOptions>,
    after: &Vec<String>,
    sql_verdict: Result<(), ErrorCode>,
) -> (r: Result<(), ErrorCode>)
    ensures
        reports(r, create_task_error(*schedule_opts, after@, sql_verdict)),
{
    if (schedule_opts.is_none() && after.len() == 0) || (schedule_opts.is_some() && after.len() != 0) {
        let m = String::from_str(
            "task must be defined with either given time schedule as a root task or run after other task as a DAG",
        );
        return Err(ErrorCode::new(ErrorKind::SyntaxException, m));
    }
    verify_scheduler_option(schedule_opts)?;
    sql_verdict
}

/// A cron schedule that the cron parser rejects is an error, reported as a
/// semantic error naming the expression; so is a known-bad time zone on an
/// accepted expression. Interval schedules and no schedule never fail.
pub proof fn law_schedule_errors(expr: String, tz: Option<String>, secs: u64)
    ensures
        !cron_accepts(expr@) ==> schedule_error(Some(ScheduleOptions::CronExpression(expr, tz)))
            == Some((ErrorKind::SemanticError, "invalid cron expression "@ + expr@)),
        cron_accepts(expr@) && tz is Some && tz.unwrap()@.len() > 0 && !tz_accepts(tz.unwrap()@)
            ==> schedule_error(Some(ScheduleOptions::CronExpression(expr, tz)))
            == Some((ErrorKind::SemanticError, "invalid time zone "@ + tz.unwrap()@)),
        schedule_error(Some(ScheduleOptions::CronExpression(expr, tz))) is None <==> (cron_accepts(expr@)
            && (tz is Some && tz.unwrap()@.len() > 0 ==> tz_accepts(tz.unwrap()@))),
        schedule_error(Some(ScheduleOptions::IntervalSecs(secs))) is None,
        schedule_error(None) is None,
{
}

/// A `CREATE TASK` is accepted exactly when it is a root task with a
/// schedule or a task run after others (not both, not neither), its
/// schedule is valid, and its body parses; a schedule error of a
/// well-placed task is the error reported.
pub proof fn law_create_task_accepts(
    schedule_opts: Option<ScheduleOptions>,
    after: Seq<String>,
    sql_verdict: Result<(), ErrorCode>,
)
    ensures
        create_task_error(schedule_opts, after, sql_verdict) is None <==> {
            &&& (schedule_opts is Some <==> after.len() == 0)
            &&& schedule_error(schedule_opts) is None
            &&& sql_verdict is Ok
        },
        (schedule_opts is Some <==> after.len() == 0) && schedule_error(schedule_opts) is Some
            ==> create_task_error(schedule_opts, after, sql_verdict) == schedule_error(schedule_opts),
        schedule_error(schedule_opts) is Some ==> create_task_error(schedule_opts, after, sql_verdict) is Some,
{
}

/// An `ALTER TASK ... SET` with a schedule reports the schedule's error.
pub proof fn law_alter_task_checks_schedule(options: AlterTaskOptions, sql_verdict: Result<(), ErrorCode>)
    ensures
        options matches AlterTaskOptions::SetOptions { schedule, .. } && schedule_error(schedule) is Some
            ==> alter_task_error(options, sql_verdict) is Some,
{
}

pub open spec fn alter_nothing_message() -> Seq<char> {
    "alter task must set at least one option"@
}

/// The error of an `ALTER TASK` statement, if any, given the parser's
/// verdict on a new SQL body: a `SET` must set some option and its schedule
/// must be valid; a new body must parse.
pub open spec fn alter_task_error(options: AlterTaskOptions, sql_verdict: Result<(), ErrorCode>)
    -> Option<(ErrorKind, Seq<char>)> {
    match options {
        AlterTaskOptions::SetOptions { warehouse, schedule, suspend_task_after_num_failures, comments, session_parameters } =>
            if warehouse is None && schedule is None && suspend_task_after_num_failures is None
                && comments is None && session_parameters is None {
                Some((ErrorKind::SyntaxException, alter_nothing_message()))
            } else {
                schedule_error(schedule)
            },
        AlterTaskOptions::ModifyAs(_) => match sql_verdict {
            Ok(()) => None,
            Err(e) => Some(e@),
        },
        _ => None,
    }
}

/// Checks an `ALTER TASK` statement, given the parser's verdict on the new
/// SQL body of a `MODIFY AS` (it is not read otherwise).
pub fn check_alter_task(options: &AlterTaskOptions, sql_verdict: Result<(), ErrorCode>) -> (r: Result<(), ErrorCode>)
    ensures
        reports(r, alter_task_error(*options, sql_verdict)),
{
    if let AlterTaskOptions::SetOptions { warehouse, schedule, suspend_task_after_num_failures, comments, session_parameters } = options {
        if warehouse.is_none() && schedule.is_none() && suspend_task_after_num_failures.is_none()
            && comments.is_none() && session_parameters.is_none() {
            let m = String::from_str("alter task must set at least one option");
            return Err(ErrorCode::new(ErrorKind::SyntaxException, m));
        }
        if schedule.is_some() {
            verify_scheduler_option(schedule)?;
        }
    }
    if let AlterTaskOptions::ModifyAs(_) = options {
        return sql_verdict;
    }
    Ok(())
}

} // verus!
