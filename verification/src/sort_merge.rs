//! The decisions of the processor that merges several sorted block streams
//! into one: whether a pipeline needs it, how rows are compared, and how it
//! reacts to the state of its ports.

use vstd::prelude::*;

use crate::error::{ErrorCode, ErrorKind};

verus! {

#[derive(Debug, Clone, Copy, PartialEq, Eq, Structural)]
pub enum NumberDataType {
    UInt8,
    UInt16,
    UInt32,
    UInt64,
    Int8,
    Int16,
    Int32,
    Int64,
    Float32,
    Float64,
}

/// The type of a sort column, as far as the choice of row format goes.
#[derive(Debug, Clone, Copy, PartialEq, Eq, Structural)]
pub enum SortColumnType {
    Number(NumberDataType),
    Date,
    Timestamp,
    String,
    /// Any other type.
    Other,
}

/// How the merger compares rows: by the values of a single column of a
/// simple type, or by the binary-encoded sort keys.
#[derive(Debug, Clone, Copy, PartialEq, Eq, Structural)]
pub enum SortRows {
    SimpleNumber(NumberDataType),
    SimpleDate,
    SimpleTimestamp,
    SimpleString,
    Binary,
}

pub open spec fn sort_rows_for(n_sort_columns: nat, first: SortColumnType) -> SortRows {
    if n_sort_columns == 1 {
        match first {
            SortColumnType::Number(n) => SortRows::SimpleNumber(n),
            SortColumnType::Date => SortRows::SimpleDate,
            SortColumnType::Timestamp => SortRows::SimpleTimestamp,
            SortColumnType::String => SortRows::SimpleString,
            SortColumnType::Other => SortRows::Binary,
        }
    } else {
        SortRows::Binary
    }
}

/// The row format of the merger: a single sort column of a number, date,
/// timestamp or string type is compared directly; anything else by its
/// binary sort key. `first` is the type of the first sort column.
pub fn choose_sort_rows(n_sort_columns: usize, first: SortColumnType) -> (r: SortRows)
    ensures
        r == sort_rows_for(n_sort_columns as nat, first),
{
    if n_sort_columns == 1 {
        match first {
            SortColumnType::Number(n) => SortRows::SimpleNumber(n),
            SortColumnType::Date => SortRows::SimpleDate,
            SortColumnType::Timestamp => SortRows::SimpleTimestamp,
            SortColumnType::String => SortRows::SimpleString,
            SortColumnType::Other => SortRows::Binary,
        }
    } else {
        SortRows::Binary
    }
}

pub open spec fn empty_pipe_message() -> Seq<char> {
    "Cannot resize empty pipe."@
}

/// Whether a multi-way sort merge goes onto a pipeline, and how wide: an error for
/// a pipeline without pipes or without outputs, nothing for a single
/// output, and otherwise a merge of that many outputs into one.
pub fn try_add_multi_sort_merge(pipeline_is_empty: bool, output_len: usize) -> (r: Result<Option<usize>, ErrorCode>)
    ensures
        (pipeline_is_empty || output_len == 0) ==> (r matches Err(e) && e@ == (ErrorKind::Internal, empty_pipe_message())),
        (!pipeline_is_empty && output_len == 1) ==> r == Ok::<Option<usize>, ErrorCode>(None),
        (!pipeline_is_empty && output_len > 1) ==> r == Ok::<Option<usize>, ErrorCode>(Some(output_len)),
{
    if pipeline_is_empty || output_len == 0 {
        return Err(ErrorCode::new(ErrorKind::Internal, String::from_str("Cannot resize empty pipe.")));
    }
    if output_len == 1 {
        Ok(None)
    } else {
        Ok(Some(output_len))
    }
}

/// The scheduling events of a processor.
#[derive(Debug, Clone, Copy, PartialEq, Eq, Structural)]
pub enum Event {
    NeedData,
    NeedConsume,
    Sync,
    Async,
    Finished,
}

/// What the merge processor does when it is asked for its next event.
#[derive(Debug, Clone, Copy, PartialEq, Eq, Structural)]
pub enum MergeStep {
    /// The output is finished: finish every input, and report `Finished`.
    FinishInputs,
    /// The output cannot take data: report `NeedConsume`.
    WaitForConsumer,
    /// Push the first buffered block to the output, and report `NeedConsume`.
    PushBlock,
    /// The merge is done: finish the output and every input, and report `Finished`.
    FinishAll,
    /// Poll the pending input streams, then decide by `after_poll`.
    PollInputs,
}

/// The next step of the merge processor, from the state of its output
/// port, of its buffer of merged blocks and of the merger, in that order
/// of precedence.
pub fn merge_step(output_finished: bool, output_can_push: bool, has_buffered_block: bool, merger_finished: bool)
    -> (s: MergeStep)
    ensures
        output_finished ==> s == MergeStep::FinishInputs,
        !output_finished && !output_can_push ==> s == MergeStep::WaitForConsumer,
        !output_finished && output_can_push && has_buffered_block ==> s == MergeStep::PushBlock,
        !output_finished && output_can_push && !has_buffered_block && merger_finished ==> s == MergeStep::FinishAll,
        !output_finished && output_can_push && !has_buffered_block && !merger_finished ==> s == MergeStep::PollInputs,
{
    if output_finished {
        MergeStep::FinishInputs
    } else if !output_can_push {
        MergeStep::WaitForConsumer
    } else if has_buffered_block {
        MergeStep::PushBlock
    } else if merger_finished {
        MergeStep::FinishAll
    } else {
        MergeStep::PollInputs
    }
}

/// The event reported by each step but polling.
pub open spec fn step_event(s: MergeStep) -> Event {
    match s {
        MergeStep::FinishInputs | MergeStep::FinishAll => Event::Finished,
        _ => Event::NeedConsume,
    }
}

/// The event after polling the inputs: wait for data while some stream is
/// still pending, and merge otherwise.
pub fn after_poll(has_pending_stream: bool) -> (e: Event)
    ensures
        e == (if has_pending_stream { Event::NeedData } else { Event::Sync }),
{
    if has_pending_stream { Event::NeedData } else { Event::Sync }
}

/// What a sorted input stream does when the merger asks it for a block.
#[derive(Debug, Clone, Copy, PartialEq, Eq, Structural)]
pub enum StreamStep {
    /// Pull the block (dropping its order column when asked to), ask for
    /// more data, and hand the block over.
    PullBlock { remove_order_col: bool },
    /// The input is done: no block, and nothing pending.
    Done,
    /// Ask for data, and report the stream as pending.
    Pending,
}

pub fn stream_step(has_data: bool, is_finished: bool, remove_order_col: bool) -> (s: StreamStep)
    ensures
        has_data ==> s == (StreamStep::PullBlock { remove_order_col }),
        !has_data && is_finished ==> s == StreamStep::Done,
        !has_data && !is_finished ==> s == StreamStep::Pending,
{
    if has_data {
        StreamStep::PullBlock { remove_order_col }
    } else if is_finished {
        StreamStep::Done
    } else {
        StreamStep::Pending
    }
}

/// Rows are compared by their binary sort key unless there is exactly one
/// sort column of a number, date, timestamp or string type; then they are
/// compared by that column's values, of that very type.
pub proof fn law_sort_rows_follow_the_column(n_sort_columns: nat, first: SortColumnType)
    ensures
        n_sort_columns != 1 ==> sort_rows_for(n_sort_columns, first) == SortRows::Binary,
        sort_rows_for(n_sort_columns, first) != SortRows::Binary ==> n_sort_columns == 1 && !(first is Other),
        n_sort_columns == 1 ==> match first {
            SortColumnType::Number(k) => sort_rows_for(n_sort_columns, first) matches SortRows::SimpleNumber(j) && j == k,
            SortColumnType::Date => sort_rows_for(n_sort_columns, first) is SimpleDate,
            SortColumnType::Timestamp => sort_rows_for(n_sort_columns, first) is SimpleTimestamp,
            SortColumnType::String => sort_rows_for(n_sort_columns, first) is SimpleString,
            SortColumnType::Other => sort_rows_for(n_sort_columns, first) is Binary,
        },
{
}

} // verus!
