//! The decisions of a meta-service node that believes it leads the cluster:
//! how it answers forwarded requests and how it changes the membership when
//! a node joins or leaves. The raft calls themselves are made by the caller.

use vstd::prelude::*;

use crate::text::{decimal, u64_to_decimal};

verus! {

/// One voting configuration: the ids of its voters, without repetition.
pub type NodeSet = Vec<u64>;

/// The membership of the cluster: one configuration, or two while a joint
/// change is under way.
#[derive(Debug, Clone, PartialEq, Eq)]
pub struct Membership {
    pub configs: Vec<NodeSet>,
}

/// Whether `node_id` is a voter of some configuration.
pub open spec fn membership_contains(m: Membership, node_id: u64) -> bool {
    exists|i: int, j: int| 0 <= i < m.configs@.len() && 0 <= j < m.configs@[i]@.len()
        && #[trigger] m.configs@[i]@[j] == node_id
}

/// The state of the local meta node that the leader reads.
#[derive(Debug, Clone, PartialEq, Eq)]
pub struct MetaNode {
    pub id: u64,
    /// The membership as the raft metrics report it.
    pub membership: Membership,
}

/// The container of APIs of a meta-service leader in a cluster.
///
/// A meta leader does not imply it is actually the leader granted by the cluster.
/// It just means it believes it is the leader and has not yet perceived a newer leader.
pub struct MetaLeader<'a> {
    meta_node: &'a MetaNode,
}

/// A cluster node as the membership log records it.
#[derive(Debug, Clone, PartialEq, Eq)]
pub struct Node {
    pub name: String,
    pub endpoint: String,
    pub grpc_api_addr: Option<String>,
}

/// The commands that the leader writes to the log.
#[derive(Debug, Clone, PartialEq, Eq)]
pub enum Cmd {
    AddNode { node_id: u64, node: Node },
    RemoveNode { node_id: u64 },
}

/// An entry of the raft log.
#[derive(Debug, Clone, PartialEq, Eq)]
pub struct LogEntry {
    pub txid: Option<u64>,
    pub time_ms: Option<u64>,
    pub cmd: Cmd,
}

#[derive(Debug, Clone, PartialEq, Eq)]
pub struct JoinRequest {
    pub node_id: u64,
    pub endpoint: String,
    pub grpc_api_addr: String,
}

#[derive(Debug, Clone, Copy, PartialEq, Eq, Structural)]
pub struct LeaveRequest {
    pub node_id: u64,
}

/// What the leader does for a node that asks to join.
#[derive(Debug, Clone, PartialEq, Eq)]
pub enum JoinPlan {
    /// The node is a member already: nothing to do.
    AlreadyMember,
    /// Write `entry` to the log, then change the membership to the single
    /// configuration `voters`.
    AddNode { entry: LogEntry, voters: NodeSet },
}

impl<'a> MetaLeader<'a> {
    pub fn new(meta_node: &'a MetaNode) -> (l: MetaLeader<'a>)
        ensures
            l.node() == *meta_node,
    {
        MetaLeader { meta_node }
    }

    pub closed spec fn node(&self) -> MetaNode {
        *self.meta_node
    }

    /// How many configurations the membership the leader sees has.
    pub fn membership_configs(&self) -> (n: usize)
        ensures
            n == self.node().membership.configs@.len(),
    {
        self.meta_node.membership.configs.len()
    }

    /// How to add the requesting node: nothing when it is already a member;
    /// otherwise log an `AddNode` command (named by the node's id in
    /// decimal, at the endpoints it gave, without transaction or time) and
    /// make the first configuration, with the node added, the membership.
    pub fn join_plan(&self, req: JoinRequest) -> (p: JoinPlan)
        requires
            self.node().membership.configs@.len() > 0,
        ensures
            membership_contains(self.node().membership, req.node_id) ==> p == JoinPlan::AlreadyMember,
            !membership_contains(self.node().membership, req.node_id) ==> (p matches JoinPlan::AddNode { entry, voters } && {
                &&& entry.txid is None
                &&& entry.time_ms is None
                &&& entry.cmd matches Cmd::AddNode { node_id, node } && {
                    &&& node_id == req.node_id
                    &&& node.name@ == decimal(req.node_id as nat)
                    &&& node.endpoint == req.endpoint
                    &&& node.grpc_api_addr == Some(req.grpc_api_addr)
                }
                &&& voters@.to_set() == self.node().membership.configs@[0]@.to_set().insert(req.node_id)
            }),
    {
        let membership = &self.meta_node.membership;
        if contains_node(membership, req.node_id) {
            return JoinPlan::AlreadyMember;
        }
        let voters = insert_node(&membership.configs[0], req.node_id);
        let entry = LogEntry {
            txid: None,
            time_ms: None,
            cmd: Cmd::AddNode {
                node_id: req.node_id,
                node: Node {
                    name: u64_to_decimal(req.node_id),
                    endpoint: req.endpoint,
                    grpc_api_addr: Some(req.grpc_api_addr),
                },
            },
        };
        JoinPlan::AddNode { entry, voters }
    }
}

/// Whether `node_id` is a voter of some configuration.
pub fn contains_node(m: &Membership, node_id: u64) -> (b: bool)
    ensures
        b == membership_contains(*m, node_id),
{
    let mut i: usize = 0;
    while i < m.configs.len()
        invariant
            i <= m.configs@.len(),
            forall|a: int, j: int| 0 <= a < i && 0 <= j < m.configs@[a]@.len() ==> #[trigger] m.configs@[a]@[j] != node_id,
        decreases m.configs@.len() - i,
    {
        let c = &m.configs[i];
        let mut j: usize = 0;
        while j < c.len()
            invariant
                i < m.configs@.len(),
                *c == m.configs@[i as int],
                j <= c@.len(),
                forall|k: int| 0 <= k < j ==> c@[k] != node_id,
            decreases c@.len() - j,
        {
            if c[j] == node_id {
                return true;
            }
            j = j + 1;
        }
        i = i + 1;
    }
    false
}

/// The configuration with `node_id` added, unless it is there already.
pub fn insert_node(voters: &NodeSet, node_id: u64) -> (r: NodeSet)
    ensures
        r@.to_set() == voters@.to_set().insert(node_id),
        voters@.contains(node_id) ==> r@ == voters@,
        !voters@.contains(node_id) ==> r@ == voters@.push(node_id),
{
    let mut r: NodeSet = Vec::new();
    let mut found = false;
    let mut i: usize = 0;
    while i < voters.len()
        invariant
            i <= voters@.len(),
            r@ == voters@.subrange(0, i as int),
            found == voters@.subrange(0, i as int).contains(node_id),
        decreases voters@.len() - i,
    {
        if voters[i] == node_id {
            found = true;
        }
        r.push(voters[i]);
        proof {
            let prev = voters@.subrange(0, i as int);
            let next = voters@.subrange(0, i + 1);
            assert(next == prev.push(voters@[i as int]));
            if next.contains(node_id) {
                let k = choose|k: int| 0 <= k < next.len() && next[k] == node_id;
                if k < i {
                    assert(prev[k] == node_id);
                }
            }
            if prev.contains(node_id) {
                let k = choose|k: int| 0 <= k < prev.len() && prev[k] == node_id;
                assert(next[k] == node_id);
            }
            if voters@[i as int] == node_id {
                assert(next[i as int] == node_id);
            }
        }
        i = i + 1;
    }
    assert(voters@.subrange(0, voters@.len() as int) == voters@);
    if !found {
        r.push(node_id);
    }
    proof {
        assert(r@.to_set() =~= voters@.to_set().insert(node_id)) by {
            if !found {
                vstd::seq_lib::lemma_seq_contains_after_push(voters@, node_id, node_id);
                assert forall|x: u64| r@.to_set().contains(x) <==> voters@.to_set().insert(node_id).contains(x) by {
                    if x != node_id {
                        vstd::seq_lib::lemma_seq_contains_after_push(voters@, node_id, x);
                    }
                }
            }
        }
    }
    r
}

/// The test that keeps the ids other than `node_id`.
pub open spec fn other_than(node_id: u64) -> spec_fn(u64) -> bool {
    |x: u64| x != node_id
}

/// The configuration with every occurrence of `node_id` removed.
pub fn remove_node(voters: &NodeSet, node_id: u64) -> (r: NodeSet)
    ensures
        r@ == voters@.filter(other_than(node_id)),
        r@.to_set() == voters@.to_set().remove(node_id),
{
    let mut r: NodeSet = Vec::new();
    let mut i: usize = 0;
    while i < voters.len()
        invariant
            i <= voters@.len(),
            r@ == voters@.subrange(0, i as int).filter(other_than(node_id)),
        decreases voters@.len() - i,
    {
        proof {
            let s = voters@.subrange(0, i + 1);
            assert(s.drop_last() == voters@.subrange(0, i as int));
            reveal(Seq::filter);
        }
        if voters[i] != node_id {
            r.push(voters[i]);
        }
        i = i + 1;
    }
    assert(voters@.subrange(0, voters@.len() as int) == voters@);
    proof {
        let p = other_than(node_id);
        assert forall|x: u64| r@.to_set().contains(x) <==> voters@.to_set().remove(node_id).contains(x) by {
            if r@.contains(x) {
                voters@.lemma_filter_contains_rev(p, x);
            }
            if voters@.contains(x) && x != node_id {
                let k = choose|k: int| 0 <= k < voters@.len() && voters@[k] == x;
                voters@.lemma_filter_contains(p, k);
            }
        }
        assert(r@.to_set() =~= voters@.to_set().remove(node_id));
    }
    r
}

} // verus!

verus! {

/// A redirection to the node believed to lead the cluster.
#[derive(Debug, Clone, Copy, PartialEq, Eq, Structural)]
pub struct ForwardToLeader {
    pub leader_id: Option<u64>,
}

/// Why raft refused to stop replicating to a node.
#[derive(Debug, Clone, PartialEq, Eq)]
pub enum RemoveLearnerError {
    ForwardToLeader(ForwardToLeader),
    NotLearner,
    NotExists,
    Fatal(String),
}

#[derive(Debug, Clone, PartialEq, Eq)]
pub enum MetaDataError {
    WriteError(String),
    ReadError(String),
}

#[derive(Debug, Clone, PartialEq, Eq)]
pub enum MetaOperationError {
    ForwardToLeader(ForwardToLeader),
    DataError(MetaDataError),
}

/// The voters to keep when `node_id` leaves: the first configuration
/// without it, when the node is a member; `None` when it is not.
pub fn leave_voters(membership: &Membership, node_id: u64) -> (r: Option<NodeSet>)
    requires
        membership.configs@.len() > 0,
    ensures
        !membership_contains(*membership, node_id) ==> r is None,
        membership_contains(*membership, node_id) ==> (r matches Some(v)
            && v@ == without_node(membership.configs@[0]@, node_id)),
{
    if contains_node(membership, node_id) {
        Some(remove_node(&membership.configs[0], node_id))
    } else {
        None
    }
}

/// Whether leaving goes on after raft was asked to stop replicating to the
/// node: it does when that succeeded, or when the node was no learner or
/// did not exist; a redirection to the leader, or a fatal storage error,
/// ends it with that error.
pub fn after_remove_learner(res: Result<(), RemoveLearnerError>) -> (r: Result<(), MetaOperationError>)
    ensures
        match res {
            Ok(()) => r is Ok,
            Err(RemoveLearnerError::NotLearner) => r is Ok,
            Err(RemoveLearnerError::NotExists) => r is Ok,
            Err(RemoveLearnerError::ForwardToLeader(f)) => r == Err::<(), MetaOperationError>(MetaOperationError::ForwardToLeader(f)),
            Err(RemoveLearnerError::Fatal(e)) =>
                r == Err::<(), MetaOperationError>(MetaOperationError::DataError(MetaDataError::WriteError(e))),
        },
{
    match res {
        Ok(()) => Ok(()),
        Err(RemoveLearnerError::ForwardToLeader(e)) => Err(MetaOperationError::ForwardToLeader(e)),
        Err(RemoveLearnerError::NotLearner) => Ok(()),
        Err(RemoveLearnerError::NotExists) => Ok(()),
        Err(RemoveLearnerError::Fatal(e)) => Err(MetaOperationError::DataError(MetaDataError::WriteError(e))),
    }
}

/// The log entry that removes the node's information, written last when a node leaves.
pub fn remove_node_entry(node_id: u64) -> (e: LogEntry)
    ensures
        e == (LogEntry { txid: None, time_ms: None, cmd: Cmd::RemoveNode { node_id } }),
{
    LogEntry { txid: None, time_ms: None, cmd: Cmd::RemoveNode { node_id } }
}

/// The entry as it is proposed to raft: stamped with the leader's clock.
pub fn stamp_entry(entry: LogEntry, now_ms: u64) -> (e: LogEntry)
    ensures
        e == (LogEntry { time_ms: Some(now_ms), ..entry }),
{
    let mut entry = entry;
    entry.time_ms = Some(now_ms);
    entry
}

/// Where a membership change (a join or a leave) stands: which outside
/// call it waits for, or that it is over.
#[derive(Debug, Clone, PartialEq, Eq)]
pub enum ChangeState {
    /// Nothing asked yet.
    Start,
    /// Waiting for whether the node may leave.
    AwaitCanLeave,
    /// Waiting for the membership stored in the state machine.
    AwaitMembership,
    /// Waiting for the membership change; a join also holds nothing more.
    AwaitChange,
    /// Waiting for raft to stop replicating to the node.
    AwaitRemoveLearner,
    /// Waiting for a log entry to be written; a join then changes the
    /// membership to `voters`.
    AwaitWrite { voters: Option<NodeSet> },
    /// The change is over.
    Done,
}

/// What came back from the outside call the change waited for.
#[derive(Debug, PartialEq, Eq)]
pub enum ChangeEvent {
    /// The request arrived.
    Begin,
    /// Whether the node may leave: `Ok(Err(reason))` when it need not,
    /// `Err(e)` when the check could not be read.
    CanLeave(Result<Result<(), String>, String>),
    /// The stored membership, or why it could not be read.
    Membership(Result<Membership, String>),
    /// The outcome of changing the membership.
    MembershipChanged(Result<(), MetaOperationError>),
    /// The outcome of stopping replication to the node.
    LearnerRemoved(Result<(), RemoveLearnerError>),
    /// The outcome of writing a log entry.
    Written(Result<(), MetaOperationError>),
}

/// The next thing to do for a membership change.
#[derive(Debug, PartialEq, Eq)]
pub enum ChangeAction {
    AskCanLeave(u64),
    ReadMembership,
    /// Make the single configuration `voters` the membership; with
    /// `retain`, removed voters stay learners.
    ChangeMembership { voters: NodeSet, retain: bool },
    RemoveLearner(u64),
    /// Write the entry through raft (stamped with the leader's clock).
    Write(LogEntry),
    /// Answer the request.
    Finish(Result<(), MetaOperationError>),
}

/// How far a change has gone; every step moves it further.
pub open spec fn change_rank(s: ChangeState) -> nat {
    match s {
        ChangeState::Start => 0,
        ChangeState::AwaitCanLeave => 1,
        ChangeState::AwaitMembership => 2,
        ChangeState::AwaitChange => 4,
        ChangeState::AwaitRemoveLearner => 5,
        ChangeState::AwaitWrite { voters } => if voters is Some { 3 } else { 6 },
        ChangeState::Done => 7,
    }
}

/// The error of a read from the state machine.
pub open spec fn read_error(e: String) -> MetaOperationError {
    MetaOperationError::DataError(MetaDataError::ReadError(e))
}

/// The event is the answer to the call a leave waits for in `state`.
pub open spec fn leave_event_fits(state: ChangeState, event: ChangeEvent) -> bool {
    match state {
        ChangeState::Start => event is Begin,
        ChangeState::AwaitCanLeave => event is CanLeave,
        ChangeState::AwaitMembership => event matches ChangeEvent::Membership(m)
            && (m matches Ok(mm) ==> mm.configs@.len() > 0),
        ChangeState::AwaitChange => event is MembershipChanged,
        ChangeState::AwaitRemoveLearner => event is LearnerRemoved,
        ChangeState::AwaitWrite { voters } => voters is None && event is Written,
        ChangeState::Done => false,
    }
}

/// Whether `leave_step` may take this event in this state.
pub fn leave_event_fits_check(state: &ChangeState, event: &ChangeEvent) -> (r: bool)
    ensures
        r == leave_event_fits(*state, *event),
{
    match state {
        ChangeState::Start => matches!(event, ChangeEvent::Begin),
        ChangeState::AwaitCanLeave => matches!(event, ChangeEvent::CanLeave(..)),
        ChangeState::AwaitMembership => match event {
            ChangeEvent::Membership(Ok(mm)) => mm.configs.len() > 0,
            ChangeEvent::Membership(Err(_)) => true,
            _ => false,
        },
        ChangeState::AwaitChange => matches!(event, ChangeEvent::MembershipChanged(..)),
        ChangeState::AwaitRemoveLearner => matches!(event, ChangeEvent::LearnerRemoved(..)),
        ChangeState::AwaitWrite { voters } => voters.is_none() && matches!(event, ChangeEvent::Written(..)),
        ChangeState::Done => false,
    }
}

/// One step of a node leaving the cluster: ask whether it may leave (a
/// node that need not leave is answered at once), read the membership,
/// remove the node from the first configuration when it is a voter, stop
/// replicating to it, and log its removal; the first error ends the leave.
pub fn leave_step(node_id: u64, state: ChangeState, event: ChangeEvent) -> (r: (ChangeState, ChangeAction))
    requires
        leave_event_fits(state, event),
    ensures
        change_rank(r.0) > change_rank(state),
        r.0 is Done <==> r.1 is Finish,
        match (state, event) {
            (ChangeState::Start, _) => r == (ChangeState::AwaitCanLeave, ChangeAction::AskCanLeave(node_id)),
            (ChangeState::AwaitCanLeave, ChangeEvent::CanLeave(c)) => match c {
                Err(e) => r == (ChangeState::Done, ChangeAction::Finish(Err(read_error(e)))),
                Ok(Err(_)) => r == (ChangeState::Done, ChangeAction::Finish(Ok(()))),
                Ok(Ok(())) => r == (ChangeState::AwaitMembership, ChangeAction::ReadMembership),
            },
            (ChangeState::AwaitMembership, ChangeEvent::Membership(m)) => match m {
                Err(e) => r == (ChangeState::Done, ChangeAction::Finish(Err(read_error(e)))),
                Ok(mm) => if membership_contains(mm, node_id) {
                    &&& r.0 == ChangeState::AwaitChange
                    &&& r.1 matches ChangeAction::ChangeMembership { voters, retain }
                        && retain && voters@ == without_node(mm.configs@[0]@, node_id)
                } else {
                    r == (ChangeState::AwaitRemoveLearner, ChangeAction::RemoveLearner(node_id))
                },
            },
            (ChangeState::AwaitChange, ChangeEvent::MembershipChanged(c)) => match c {
                Err(e) => r == (ChangeState::Done, ChangeAction::Finish(Err(e))),
                Ok(()) => r == (ChangeState::AwaitRemoveLearner, ChangeAction::RemoveLearner(node_id)),
            },
            (ChangeState::AwaitRemoveLearner, ChangeEvent::LearnerRemoved(res)) => match res {
                Err(RemoveLearnerError::ForwardToLeader(f)) =>
                    r == (ChangeState::Done, ChangeAction::Finish(Err(MetaOperationError::ForwardToLeader(f)))),
                Err(RemoveLearnerError::Fatal(e)) => r == (ChangeState::Done, ChangeAction::Finish(
                    Err(MetaOperationError::DataError(MetaDataError::WriteError(e))))),
                _ => r == (ChangeState::AwaitWrite { voters: None }, ChangeAction::Write(
                    LogEntry { txid: None, time_ms: None, cmd: Cmd::RemoveNode { node_id } })),
            },
            (ChangeState::AwaitWrite { .. }, ChangeEvent::Written(w)) => r == (ChangeState::Done, ChangeAction::Finish(w)),
            _ => false,
        },
{
    match (state, event) {
        (ChangeState::Start, _) => (ChangeState::AwaitCanLeave, ChangeAction::AskCanLeave(node_id)),
        (ChangeState::AwaitCanLeave, ChangeEvent::CanLeave(c)) => match c {
            Err(e) => (ChangeState::Done, ChangeAction::Finish(Err(MetaOperationError::DataError(MetaDataError::ReadError(e))))),
            Ok(Err(_)) => (ChangeState::Done, ChangeAction::Finish(Ok(()))),
            Ok(Ok(())) => (ChangeState::AwaitMembership, ChangeAction::ReadMembership),
        },
        (ChangeState::AwaitMembership, ChangeEvent::Membership(m)) => match m {
            Err(e) => (ChangeState::Done, ChangeAction::Finish(Err(MetaOperationError::DataError(MetaDataError::ReadError(e))))),
            Ok(mm) => match leave_voters(&mm, node_id) {
                Some(voters) => (ChangeState::AwaitChange, ChangeAction::ChangeMembership { voters, retain: true }),
                None => (ChangeState::AwaitRemoveLearner, ChangeAction::RemoveLearner(node_id)),
            },
        },
        (ChangeState::AwaitChange, ChangeEvent::MembershipChanged(c)) => match c {
            Err(e) => (ChangeState::Done, ChangeAction::Finish(Err(e))),
            Ok(()) => (ChangeState::AwaitRemoveLearner, ChangeAction::RemoveLearner(node_id)),
        },
        (ChangeState::AwaitRemoveLearner, ChangeEvent::LearnerRemoved(res)) => match after_remove_learner(res) {
            Err(e) => (ChangeState::Done, ChangeAction::Finish(Err(e))),
            Ok(()) => (ChangeState::AwaitWrite { voters: None }, ChangeAction::Write(remove_node_entry(node_id))),
        },
        (ChangeState::AwaitWrite { .. }, ChangeEvent::Written(w)) => (ChangeState::Done, ChangeAction::Finish(w)),
        _ => {
            assert(false);
            (ChangeState::Done, ChangeAction::Finish(Ok(())))
        },
    }
}

/// The event is the answer to the call a join waits for in `state`.
pub open spec fn join_event_fits(state: ChangeState, event: ChangeEvent) -> bool {
    match state {
        ChangeState::Start => event is Begin,
        ChangeState::AwaitWrite { voters } => voters is Some && event is Written,
        ChangeState::AwaitChange => event is MembershipChanged,
        _ => false,
    }
}

/// Whether `join_step` may take this event in this state, for this leader.
pub fn join_event_fits_check(leader: &MetaLeader, state: &ChangeState, event: &ChangeEvent) -> (r: bool)
    ensures
        r == (leader.node().membership.configs@.len() > 0 && join_event_fits(*state, *event)),
{
    leader.membership_configs() > 0 && match state {
        ChangeState::Start => matches!(event, ChangeEvent::Begin),
        ChangeState::AwaitWrite { voters } => voters.is_some() && matches!(event, ChangeEvent::Written(..)),
        ChangeState::AwaitChange => matches!(event, ChangeEvent::MembershipChanged(..)),
        _ => false,
    }
}

impl<'a> MetaLeader<'a> {
    /// One step of a node joining the cluster: a member is answered at
    /// once; otherwise its `AddNode` entry is logged, then the first
    /// configuration with the node added becomes the membership. The first
    /// error ends the join.
    pub fn join_step(&self, req: &JoinRequest, state: ChangeState, event: ChangeEvent) -> (r: (ChangeState, ChangeAction))
        requires
            self.node().membership.configs@.len() > 0,
            join_event_fits(state, event),
        ensures
            change_rank(r.0) > change_rank(state),
            r.0 is Done <==> r.1 is Finish,
            match (state, event) {
                (ChangeState::Start, _) => if membership_contains(self.node().membership, req.node_id) {
                    r == (ChangeState::Done, ChangeAction::Finish(Ok(())))
                } else {
                    &&& r.0 matches ChangeState::AwaitWrite { voters: Some(v) }
                        && v@.to_set() == self.node().membership.configs@[0]@.to_set().insert(req.node_id)
                    &&& r.1 matches ChangeAction::Write(entry) && {
                        &&& entry.txid is None && entry.time_ms is None
                        &&& entry.cmd matches Cmd::AddNode { node_id, node } && {
                            &&& node_id == req.node_id
                            &&& node.name@ == decimal(req.node_id as nat)
                            &&& node.endpoint == req.endpoint
                            &&& node.grpc_api_addr == Some(req.grpc_api_addr)
                        }
                    }
                },
                (ChangeState::AwaitWrite { voters: Some(v) }, ChangeEvent::Written(w)) => match w {
                    Err(e) => r == (ChangeState::Done, ChangeAction::Finish(Err(e))),
                    Ok(()) => r == (ChangeState::AwaitChange, ChangeAction::ChangeMembership { voters: v, retain: false }),
                },
                (ChangeState::AwaitChange, ChangeEvent::MembershipChanged(c)) =>
                    r == (ChangeState::Done, ChangeAction::Finish(c)),
                _ => false,
            },
    {
        match (state, event) {
            (ChangeState::Start, _) => match self.join_plan(JoinRequest {
                node_id: req.node_id,
                endpoint: req.endpoint.clone(),
                grpc_api_addr: req.grpc_api_addr.clone(),
            }) {
                JoinPlan::AlreadyMember => (ChangeState::Done, ChangeAction::Finish(Ok(()))),
                JoinPlan::AddNode { entry, voters } => (ChangeState::AwaitWrite { voters: Some(voters) }, ChangeAction::Write(entry)),
            },
            (ChangeState::AwaitWrite { voters: Some(v) }, ChangeEvent::Written(w)) => match w {
                Err(e) => (ChangeState::Done, ChangeAction::Finish(Err(e))),
                Ok(()) => (ChangeState::AwaitChange, ChangeAction::ChangeMembership { voters: v, retain: false }),
            },
            (ChangeState::AwaitChange, ChangeEvent::MembershipChanged(c)) => (ChangeState::Done, ChangeAction::Finish(c)),
            _ => {
                assert(false);
                (ChangeState::Done, ChangeAction::Finish(Ok(())))
            },
        }
    }
}

/// The voters without `node_id`.
pub open spec fn without_node(voters: Seq<u64>, node_id: u64) -> Seq<u64> {
    voters.filter(other_than(node_id))
}

/// A node that leaves is no voter of the configuration kept, and every
/// other voter stays.
pub proof fn law_leave_removes_only_the_node(voters: Seq<u64>, node_id: u64)
    ensures
        !without_node(voters, node_id).contains(node_id),
        forall|x: u64| x != node_id && #[trigger] voters.contains(x) ==> without_node(voters, node_id).contains(x),
{
    let p = other_than(node_id);
    if voters.filter(p).contains(node_id) {
        voters.lemma_filter_contains_rev(p, node_id);
    }
    assert forall|x: u64| x != node_id && #[trigger] voters.contains(x) implies without_node(voters, node_id).contains(x) by {
        let k = choose|k: int| 0 <= k < voters.len() && voters[k] == x;
        voters.lemma_filter_contains(p, k);
    }
}

/// Joining and then leaving gives back the voters as they were, as a set,
/// apart from the node itself.
pub proof fn law_join_then_leave(voters: Seq<u64>, node_id: u64)
    ensures
        voters.to_set().insert(node_id).remove(node_id) == voters.to_set().remove(node_id),
{
    assert(voters.to_set().insert(node_id).remove(node_id) =~= voters.to_set().remove(node_id));
}

} // verus!
