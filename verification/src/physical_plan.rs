//! The operator tree of a physical query plan and its depth-first traversal.

use vstd::prelude::*;

use crate::error::{ErrorCode, ErrorKind};

verus! {

/// An operator without inputs: a scan or a source.
#[derive(Debug, Clone, Copy, PartialEq, Eq, Structural)]
pub struct LeafPlan {
    pub plan_id: u32,
}

/// An operator over one input.
#[derive(Debug, PartialEq)]
pub struct UnaryPlan {
    pub plan_id: u32,
    pub input: Box<PhysicalPlan>,
}

/// An operator over two inputs; for a hash join `left` is the build side
/// and `right` the probe side.
#[derive(Debug, PartialEq)]
pub struct BinaryPlan {
    pub plan_id: u32,
    pub left: Box<PhysicalPlan>,
    pub right: Box<PhysicalPlan>,
}

/// Where `COPY INTO <table>` reads from.
#[derive(Debug, PartialEq)]
pub enum CopyIntoTableSource {
    Query(Box<PhysicalPlan>),
    Stage,
}

#[derive(Debug, PartialEq)]
pub struct CopyIntoTablePlan {
    pub plan_id: u32,
    pub source: CopyIntoTableSource,
}

/// A physical plan: a tree of operators.
#[derive(Debug, PartialEq)]
pub enum PhysicalPlan {
    TableScan(LeafPlan),
    ReplaceAsyncSourcer(LeafPlan),
    CteScan(LeafPlan),
    ConstantTableScan(LeafPlan),
    ReclusterSource(LeafPlan),
    ExchangeSource(LeafPlan),
    CompactSource(LeafPlan),
    DeleteSource(LeafPlan),
    UpdateSource(LeafPlan),
    Filter(UnaryPlan),
    Project(UnaryPlan),
    EvalScalar(UnaryPlan),
    AggregateExpand(UnaryPlan),
    AggregatePartial(UnaryPlan),
    AggregateFinal(UnaryPlan),
    Window(UnaryPlan),
    Sort(UnaryPlan),
    Limit(UnaryPlan),
    RowFetch(UnaryPlan),
    Exchange(UnaryPlan),
    ExchangeSink(UnaryPlan),
    DistributedInsertSelect(UnaryPlan),
    ProjectSet(UnaryPlan),
    ReclusterSink(UnaryPlan),
    CommitSink(UnaryPlan),
    ReplaceDeduplicate(UnaryPlan),
    ReplaceInto(UnaryPlan),
    MergeIntoSource(UnaryPlan),
    MergeInto(UnaryPlan),
    MergeIntoAddRowNumber(UnaryPlan),
    MergeIntoAppendNotMatched(UnaryPlan),
    Udf(UnaryPlan),
    HashJoin(BinaryPlan),
    UnionAll(BinaryPlan),
    RangeJoin(BinaryPlan),
    MaterializedCte(BinaryPlan),
    CopyIntoTable(CopyIntoTablePlan),
}

/// One callback of a traversal: the call of `pre_visit` on a node the
/// traversal reaches, the visit of a node when it is entered, or the
/// post-visit when its inputs are done.
pub enum TraverseStep<'a> {
    PreVisit(&'a PhysicalPlan),
    Visit(&'a PhysicalPlan),
    PostVisit(&'a PhysicalPlan),
}

/// The callbacks of a depth-first traversal of `plan`: `pre_visit` is
/// called once on the node; a node it admits is visited, then its inputs
/// are traversed in order, then it is post-visited; a node it refuses is
/// skipped with its inputs.
pub open spec fn traversal<'a, F: Fn(&PhysicalPlan) -> bool>(plan: &'a PhysicalPlan, pre_visit: F) -> Seq<TraverseStep<'a>>
    decreases plan,
{
    if pre_visit.ensures((plan,), true) {
        seq![TraverseStep::PreVisit(plan), TraverseStep::Visit(plan)] + children_traversal(plan, pre_visit)
            + seq![TraverseStep::PostVisit(plan)]
    } else {
        seq![TraverseStep::PreVisit(plan)]
    }
}

/// The traversals of the inputs of `plan`, one after the other.
pub open spec fn children_traversal<'a, F: Fn(&PhysicalPlan) -> bool>(plan: &'a PhysicalPlan, pre_visit: F) -> Seq<TraverseStep<'a>>
    decreases plan, 0nat,
{
    match plan {
        PhysicalPlan::TableScan(_) | PhysicalPlan::ReplaceAsyncSourcer(_) | PhysicalPlan::CteScan(_) | PhysicalPlan::ConstantTableScan(_) | PhysicalPlan::ReclusterSource(_) | PhysicalPlan::ExchangeSource(_) | PhysicalPlan::CompactSource(_) | PhysicalPlan::DeleteSource(_) | PhysicalPlan::UpdateSource(_) => Seq::empty(),
        PhysicalPlan::Filter(p) => traversal(&p.input, pre_visit),
        PhysicalPlan::Project(p) => traversal(&p.input, pre_visit),
        PhysicalPlan::EvalScalar(p) => traversal(&p.input, pre_visit),
        PhysicalPlan::AggregateExpand(p) => traversal(&p.input, pre_visit),
        PhysicalPlan::AggregatePartial(p) => traversal(&p.input, pre_visit),
        PhysicalPlan::AggregateFinal(p) => traversal(&p.input, pre_visit),
        PhysicalPlan::Window(p) => traversal(&p.input, pre_visit),
        PhysicalPlan::Sort(p) => traversal(&p.input, pre_visit),
        PhysicalPlan::Limit(p) => traversal(&p.input, pre_visit),
        PhysicalPlan::RowFetch(p) => traversal(&p.input, pre_visit),
        PhysicalPlan::Exchange(p) => traversal(&p.input, pre_visit),
        PhysicalPlan::ExchangeSink(p) => traversal(&p.input, pre_visit),
        PhysicalPlan::DistributedInsertSelect(p) => traversal(&p.input, pre_visit),
        PhysicalPlan::ProjectSet(p) => traversal(&p.input, pre_visit),
        PhysicalPlan::ReclusterSink(p) => traversal(&p.input, pre_visit),
        PhysicalPlan::CommitSink(p) => traversal(&p.input, pre_visit),
        PhysicalPlan::ReplaceDeduplicate(p) => traversal(&p.input, pre_visit),
        PhysicalPlan::ReplaceInto(p) => traversal(&p.input, pre_visit),
        PhysicalPlan::MergeIntoSource(p) => traversal(&p.input, pre_visit),
        PhysicalPlan::MergeInto(p) => traversal(&p.input, pre_visit),
        PhysicalPlan::MergeIntoAddRowNumber(p) => traversal(&p.input, pre_visit),
        PhysicalPlan::MergeIntoAppendNotMatched(p) => traversal(&p.input, pre_visit),
        PhysicalPlan::Udf(p) => traversal(&p.input, pre_visit),
        PhysicalPlan::HashJoin(p) => traversal(&p.left, pre_visit) + traversal(&p.right, pre_visit),
        PhysicalPlan::UnionAll(p) => traversal(&p.left, pre_visit) + traversal(&p.right, pre_visit),
        PhysicalPlan::RangeJoin(p) => traversal(&p.left, pre_visit) + traversal(&p.right, pre_visit),
        PhysicalPlan::MaterializedCte(p) => traversal(&p.left, pre_visit) + traversal(&p.right, pre_visit),
        PhysicalPlan::CopyIntoTable(p) => match p.source {
            CopyIntoTableSource::Query(q) => traversal(&q, pre_visit),
            CopyIntoTableSource::Stage => Seq::empty(),
        },
    }
}

/// `pre_visit` may be called on any node and gives each node one answer.
pub open spec fn visit_oracle<F: Fn(&PhysicalPlan) -> bool>(pre_visit: F) -> bool {
    &&& forall|p: &PhysicalPlan| #[trigger] pre_visit.requires((p,))
    &&& forall|p: &PhysicalPlan| !(#[trigger] pre_visit.ensures((p,), true) && pre_visit.ensures((p,), false))
}

impl PhysicalPlan {
    /// Traverses `plan` depth first: `pre_visit` is called on each node
    /// reached, each node it admits is visited, its inputs are traversed,
    /// and it is post-visited; these calls are appended to `steps` in the
    /// order made.
    pub fn traverse<'a, F: Fn(&PhysicalPlan) -> bool>(
        plan: &'a PhysicalPlan,
        pre_visit: &F,
        steps: &mut Vec<TraverseStep<'a>>,
    )
        requires
            visit_oracle(*pre_visit),
        ensures
            final(steps)@ == old(steps)@ + traversal(plan, *pre_visit),
        decreases plan,
    {
        steps.push(TraverseStep::PreVisit(plan));
        if pre_visit(plan) {
            steps.push(TraverseStep::Visit(plan));
            match plan {
            PhysicalPlan::TableScan(_) | PhysicalPlan::ReplaceAsyncSourcer(_) | PhysicalPlan::CteScan(_) | PhysicalPlan::ConstantTableScan(_) | PhysicalPlan::ReclusterSource(_) | PhysicalPlan::ExchangeSource(_) | PhysicalPlan::CompactSource(_) | PhysicalPlan::DeleteSource(_) | PhysicalPlan::UpdateSource(_) => {},
            PhysicalPlan::Filter(p) => {
                PhysicalPlan::traverse(&p.input, pre_visit, steps);
            },
            PhysicalPlan::Project(p) => {
                PhysicalPlan::traverse(&p.input, pre_visit, steps);
            },
            PhysicalPlan::EvalScalar(p) => {
                PhysicalPlan::traverse(&p.input, pre_visit, steps);
            },
            PhysicalPlan::AggregateExpand(p) => {
                PhysicalPlan::traverse(&p.input, pre_visit, steps);
            },
            PhysicalPlan::AggregatePartial(p) => {
                PhysicalPlan::traverse(&p.input, pre_visit, steps);
            },
            PhysicalPlan::AggregateFinal(p) => {
                PhysicalPlan::traverse(&p.input, pre_visit, steps);
            },
            PhysicalPlan::Window(p) => {
                PhysicalPlan::traverse(&p.input, pre_visit, steps);
            },
            PhysicalPlan::Sort(p) => {
                PhysicalPlan::traverse(&p.input, pre_visit, steps);
            },
            PhysicalPlan::Limit(p) => {
                PhysicalPlan::traverse(&p.input, pre_visit, steps);
            },
            PhysicalPlan::RowFetch(p) => {
                PhysicalPlan::traverse(&p.input, pre_visit, steps);
            },
            PhysicalPlan::Exchange(p) => {
                PhysicalPlan::traverse(&p.input, pre_visit, steps);
            },
            PhysicalPlan::ExchangeSink(p) => {
                PhysicalPlan::traverse(&p.input, pre_visit, steps);
            },
            PhysicalPlan::DistributedInsertSelect(p) => {
                PhysicalPlan::traverse(&p.input, pre_visit, steps);
            },
            PhysicalPlan::ProjectSet(p) => {
                PhysicalPlan::traverse(&p.input, pre_visit, steps);
            },
            PhysicalPlan::ReclusterSink(p) => {
                PhysicalPlan::traverse(&p.input, pre_visit, steps);
            },
            PhysicalPlan::CommitSink(p) => {
                PhysicalPlan::traverse(&p.input, pre_visit, steps);
            },
            PhysicalPlan::ReplaceDeduplicate(p) => {
                PhysicalPlan::traverse(&p.input, pre_visit, steps);
            },
            PhysicalPlan::ReplaceInto(p) => {
                PhysicalPlan::traverse(&p.input, pre_visit, steps);
            },
            PhysicalPlan::MergeIntoSource(p) => {
                PhysicalPlan::traverse(&p.input, pre_visit, steps);
            },
            PhysicalPlan::MergeInto(p) => {
                PhysicalPlan::traverse(&p.input, pre_visit, steps);
            },
            PhysicalPlan::MergeIntoAddRowNumber(p) => {
                PhysicalPlan::traverse(&p.input, pre_visit, steps);
            },
            PhysicalPlan::MergeIntoAppendNotMatched(p) => {
                PhysicalPlan::traverse(&p.input, pre_visit, steps);
            },
            PhysicalPlan::Udf(p) => {
                PhysicalPlan::traverse(&p.input, pre_visit, steps);
            },
            PhysicalPlan::HashJoin(p) => {
                PhysicalPlan::traverse(&p.left, pre_visit, steps);
                PhysicalPlan::traverse(&p.right, pre_visit, steps);
            },
            PhysicalPlan::UnionAll(p) => {
                PhysicalPlan::traverse(&p.left, pre_visit, steps);
                PhysicalPlan::traverse(&p.right, pre_visit, steps);
            },
            PhysicalPlan::RangeJoin(p) => {
                PhysicalPlan::traverse(&p.left, pre_visit, steps);
                PhysicalPlan::traverse(&p.right, pre_visit, steps);
            },
            PhysicalPlan::MaterializedCte(p) => {
                PhysicalPlan::traverse(&p.left, pre_visit, steps);
                PhysicalPlan::traverse(&p.right, pre_visit, steps);
            },
            PhysicalPlan::CopyIntoTable(p) => match &p.source {
                CopyIntoTableSource::Query(q) => {
                    PhysicalPlan::traverse(q, pre_visit, steps);
                },
                CopyIntoTableSource::Stage => {},
            },
            }
            steps.push(TraverseStep::PostVisit(plan));
        }
    }
}

/// The number of visits among traversal steps.
pub open spec fn visit_count<'a>(steps: Seq<TraverseStep<'a>>) -> nat
    decreases steps.len(),
{
    if steps.len() == 0 {
        0
    } else {
        visit_count(steps.drop_last()) + if steps.last() is Visit { 1nat } else { 0nat }
    }
}

/// The number of post-visits among traversal steps.
pub open spec fn post_visit_count<'a>(steps: Seq<TraverseStep<'a>>) -> nat
    decreases steps.len(),
{
    if steps.len() == 0 {
        0
    } else {
        post_visit_count(steps.drop_last()) + if steps.last() is PostVisit { 1nat } else { 0nat }
    }
}

proof fn lemma_counts_add<'a>(a: Seq<TraverseStep<'a>>, b: Seq<TraverseStep<'a>>)
    ensures
        visit_count(a + b) == visit_count(a) + visit_count(b),
        post_visit_count(a + b) == post_visit_count(a) + post_visit_count(b),
    decreases b.len(),
{
    if b.len() == 0 {
        assert(a + b =~= a);
    } else {
        lemma_counts_add(a, b.drop_last());
        assert((a + b).drop_last() =~= a + b.drop_last());
    }
}

proof fn lemma_pre_visit_counts<'a>(plan: &'a PhysicalPlan)
    ensures
        visit_count(seq![TraverseStep::PreVisit(plan)]) == 0,
        post_visit_count(seq![TraverseStep::PreVisit(plan)]) == 0,
{
    let pre: Seq<TraverseStep<'a>> = seq![TraverseStep::PreVisit(plan)];
    assert(pre.drop_last() =~= Seq::<TraverseStep<'a>>::empty());
    assert(visit_count(pre.drop_last()) == 0);
    assert(post_visit_count(pre.drop_last()) == 0);
}

/// A traversal always starts by asking `pre_visit` about the root; when it
/// refuses the root, that is all: nothing is visited and no input is
/// traversed. When it admits the root, the root's visit comes next and its
/// post-visit comes last.
pub proof fn law_traversal_starts_with_pre_visit<'a, F: Fn(&PhysicalPlan) -> bool>(plan: &'a PhysicalPlan, pre_visit: F)
    ensures
        traversal(plan, pre_visit).len() >= 1,
        traversal(plan, pre_visit)[0] == TraverseStep::PreVisit(plan),
        !pre_visit.ensures((plan,), true) ==> traversal(plan, pre_visit) == seq![TraverseStep::PreVisit(plan)],
        pre_visit.ensures((plan,), true) ==> {
            &&& traversal(plan, pre_visit).len() >= 3
            &&& traversal(plan, pre_visit)[1] == TraverseStep::Visit(plan)
            &&& traversal(plan, pre_visit).last() == TraverseStep::PostVisit(plan)
        },
{
}

/// A traversal post-visits every node it visits: the visits and the
/// post-visits are as many.
pub proof fn law_traversal_balanced<'a, F: Fn(&PhysicalPlan) -> bool>(plan: &'a PhysicalPlan, pre_visit: F)
    ensures
        visit_count(traversal(plan, pre_visit)) == post_visit_count(traversal(plan, pre_visit)),
    decreases plan,
{
    if pre_visit.ensures((plan,), true) {
        let inner = children_traversal(plan, pre_visit);
        lemma_children_balanced(plan, pre_visit);
        let pre: Seq<TraverseStep<'a>> = seq![TraverseStep::PreVisit(plan)];
        let v: Seq<TraverseStep<'a>> = seq![TraverseStep::PreVisit(plan), TraverseStep::Visit(plan)];
        let pv: Seq<TraverseStep<'a>> = seq![TraverseStep::PostVisit(plan)];
        lemma_counts_add(v, inner);
        lemma_counts_add(v + inner, pv);
        lemma_pre_visit_counts(plan);
        assert(v.drop_last() =~= pre);
        assert(visit_count(v) == 1) by {
            assert(v.last() is Visit);
        }
        assert(post_visit_count(v) == 0) by {
            assert(!(v.last() is PostVisit));
        }
        assert(visit_count(pv) == 0) by {
            assert(pv.drop_last() =~= Seq::<TraverseStep<'a>>::empty());
            assert(visit_count(pv.drop_last()) == 0);
            assert(!(pv.last() is Visit));
        }
        assert(post_visit_count(pv) == 1) by {
            assert(pv.drop_last() =~= Seq::<TraverseStep<'a>>::empty());
            assert(post_visit_count(pv.drop_last()) == 0);
            assert(pv.last() is PostVisit);
        }
    } else {
        lemma_pre_visit_counts(plan);
    }
}

proof fn lemma_children_balanced<'a, F: Fn(&PhysicalPlan) -> bool>(plan: &'a PhysicalPlan, pre_visit: F)
    ensures
        visit_count(children_traversal(plan, pre_visit)) == post_visit_count(children_traversal(plan, pre_visit)),
    decreases plan, 0nat,
{
    match plan {
        PhysicalPlan::Filter(p) => law_traversal_balanced(&p.input, pre_visit),
        PhysicalPlan::Project(p) => law_traversal_balanced(&p.input, pre_visit),
        PhysicalPlan::EvalScalar(p) => law_traversal_balanced(&p.input, pre_visit),
        PhysicalPlan::AggregateExpand(p) => law_traversal_balanced(&p.input, pre_visit),
        PhysicalPlan::AggregatePartial(p) => law_traversal_balanced(&p.input, pre_visit),
        PhysicalPlan::AggregateFinal(p) => law_traversal_balanced(&p.input, pre_visit),
        PhysicalPlan::Window(p) => law_traversal_balanced(&p.input, pre_visit),
        PhysicalPlan::Sort(p) => law_traversal_balanced(&p.input, pre_visit),
        PhysicalPlan::Limit(p) => law_traversal_balanced(&p.input, pre_visit),
        PhysicalPlan::RowFetch(p) => law_traversal_balanced(&p.input, pre_visit),
        PhysicalPlan::Exchange(p) => law_traversal_balanced(&p.input, pre_visit),
        PhysicalPlan::ExchangeSink(p) => law_traversal_balanced(&p.input, pre_visit),
        PhysicalPlan::DistributedInsertSelect(p) => law_traversal_balanced(&p.input, pre_visit),
        PhysicalPlan::ProjectSet(p) => law_traversal_balanced(&p.input, pre_visit),
        PhysicalPlan::ReclusterSink(p) => law_traversal_balanced(&p.input, pre_visit),
        PhysicalPlan::CommitSink(p) => law_traversal_balanced(&p.input, pre_visit),
        PhysicalPlan::ReplaceDeduplicate(p) => law_traversal_balanced(&p.input, pre_visit),
        PhysicalPlan::ReplaceInto(p) => law_traversal_balanced(&p.input, pre_visit),
        PhysicalPlan::MergeIntoSource(p) => law_traversal_balanced(&p.input, pre_visit),
        PhysicalPlan::MergeInto(p) => law_traversal_balanced(&p.input, pre_visit),
        PhysicalPlan::MergeIntoAddRowNumber(p) => law_traversal_balanced(&p.input, pre_visit),
        PhysicalPlan::MergeIntoAppendNotMatched(p) => law_traversal_balanced(&p.input, pre_visit),
        PhysicalPlan::Udf(p) => law_traversal_balanced(&p.input, pre_visit),
        PhysicalPlan::HashJoin(p) => {
            law_traversal_balanced(&p.left, pre_visit);
            law_traversal_balanced(&p.right, pre_visit);
            lemma_counts_add(traversal(&p.left, pre_visit), traversal(&p.right, pre_visit));
        },
        PhysicalPlan::UnionAll(p) => {
            law_traversal_balanced(&p.left, pre_visit);
            law_traversal_balanced(&p.right, pre_visit);
            lemma_counts_add(traversal(&p.left, pre_visit), traversal(&p.right, pre_visit));
        },
        PhysicalPlan::RangeJoin(p) => {
            law_traversal_balanced(&p.left, pre_visit);
            law_traversal_balanced(&p.right, pre_visit);
            lemma_counts_add(traversal(&p.left, pre_visit), traversal(&p.right, pre_visit));
        },
        PhysicalPlan::MaterializedCte(p) => {
            law_traversal_balanced(&p.left, pre_visit);
            law_traversal_balanced(&p.right, pre_visit);
            lemma_counts_add(traversal(&p.left, pre_visit), traversal(&p.right, pre_visit));
        },
        PhysicalPlan::CopyIntoTable(p) => match &p.source {
            CopyIntoTableSource::Query(q) => law_traversal_balanced(q, pre_visit),
            CopyIntoTableSource::Stage => {},
        },
        _ => {},
    }
}

/// Whether `a` is the same node as `b`: the same operator with the same
/// plan id (its inputs aside).
pub open spec fn same_node(a: PhysicalPlan, b: PhysicalPlan) -> bool {
    match (a, b) {
        (PhysicalPlan::TableScan(x), PhysicalPlan::TableScan(y)) => x == y,
        (PhysicalPlan::ReplaceAsyncSourcer(x), PhysicalPlan::ReplaceAsyncSourcer(y)) => x == y,
        (PhysicalPlan::CteScan(x), PhysicalPlan::CteScan(y)) => x == y,
        (PhysicalPlan::ConstantTableScan(x), PhysicalPlan::ConstantTableScan(y)) => x == y,
        (PhysicalPlan::ReclusterSource(x), PhysicalPlan::ReclusterSource(y)) => x == y,
        (PhysicalPlan::ExchangeSource(x), PhysicalPlan::ExchangeSource(y)) => x == y,
        (PhysicalPlan::CompactSource(x), PhysicalPlan::CompactSource(y)) => x == y,
        (PhysicalPlan::DeleteSource(x), PhysicalPlan::DeleteSource(y)) => x == y,
        (PhysicalPlan::UpdateSource(x), PhysicalPlan::UpdateSource(y)) => x == y,
        (PhysicalPlan::Filter(x), PhysicalPlan::Filter(y)) => x.plan_id == y.plan_id,
        (PhysicalPlan::Project(x), PhysicalPlan::Project(y)) => x.plan_id == y.plan_id,
        (PhysicalPlan::EvalScalar(x), PhysicalPlan::EvalScalar(y)) => x.plan_id == y.plan_id,
        (PhysicalPlan::AggregateExpand(x), PhysicalPlan::AggregateExpand(y)) => x.plan_id == y.plan_id,
        (PhysicalPlan::AggregatePartial(x), PhysicalPlan::AggregatePartial(y)) => x.plan_id == y.plan_id,
        (PhysicalPlan::AggregateFinal(x), PhysicalPlan::AggregateFinal(y)) => x.plan_id == y.plan_id,
        (PhysicalPlan::Window(x), PhysicalPlan::Window(y)) => x.plan_id == y.plan_id,
        (PhysicalPlan::Sort(x), PhysicalPlan::Sort(y)) => x.plan_id == y.plan_id,
        (PhysicalPlan::Limit(x), PhysicalPlan::Limit(y)) => x.plan_id == y.plan_id,
        (PhysicalPlan::RowFetch(x), PhysicalPlan::RowFetch(y)) => x.plan_id == y.plan_id,
        (PhysicalPlan::Exchange(x), PhysicalPlan::Exchange(y)) => x.plan_id == y.plan_id,
        (PhysicalPlan::ExchangeSink(x), PhysicalPlan::ExchangeSink(y)) => x.plan_id == y.plan_id,
        (PhysicalPlan::DistributedInsertSelect(x), PhysicalPlan::DistributedInsertSelect(y)) => x.plan_id == y.plan_id,
        (PhysicalPlan::ProjectSet(x), PhysicalPlan::ProjectSet(y)) => x.plan_id == y.plan_id,
        (PhysicalPlan::ReclusterSink(x), PhysicalPlan::ReclusterSink(y)) => x.plan_id == y.plan_id,
        (PhysicalPlan::CommitSink(x), PhysicalPlan::CommitSink(y)) => x.plan_id == y.plan_id,
        (PhysicalPlan::ReplaceDeduplicate(x), PhysicalPlan::ReplaceDeduplicate(y)) => x.plan_id == y.plan_id,
        (PhysicalPlan::ReplaceInto(x), PhysicalPlan::ReplaceInto(y)) => x.plan_id == y.plan_id,
        (PhysicalPlan::MergeIntoSource(x), PhysicalPlan::MergeIntoSource(y)) => x.plan_id == y.plan_id,
        (PhysicalPlan::MergeInto(x), PhysicalPlan::MergeInto(y)) => x.plan_id == y.plan_id,
        (PhysicalPlan::MergeIntoAddRowNumber(x), PhysicalPlan::MergeIntoAddRowNumber(y)) => x.plan_id == y.plan_id,
        (PhysicalPlan::MergeIntoAppendNotMatched(x), PhysicalPlan::MergeIntoAppendNotMatched(y)) => x.plan_id == y.plan_id,
        (PhysicalPlan::Udf(x), PhysicalPlan::Udf(y)) => x.plan_id == y.plan_id,
        (PhysicalPlan::HashJoin(x), PhysicalPlan::HashJoin(y)) => x.plan_id == y.plan_id,
        (PhysicalPlan::UnionAll(x), PhysicalPlan::UnionAll(y)) => x.plan_id == y.plan_id,
        (PhysicalPlan::RangeJoin(x), PhysicalPlan::RangeJoin(y)) => x.plan_id == y.plan_id,
        (PhysicalPlan::MaterializedCte(x), PhysicalPlan::MaterializedCte(y)) => x.plan_id == y.plan_id,
        (PhysicalPlan::CopyIntoTable(x), PhysicalPlan::CopyIntoTable(y)) =>
            x.plan_id == y.plan_id && (x.source is Stage <==> y.source is Stage),
        _ => false,
    }
}

/// Whether the node is a plan without inputs.
pub open spec fn is_leaf(p: PhysicalPlan) -> bool {
    match p {
        PhysicalPlan::TableScan(_) | PhysicalPlan::ReplaceAsyncSourcer(_) | PhysicalPlan::CteScan(_)
        | PhysicalPlan::ConstantTableScan(_) | PhysicalPlan::ReclusterSource(_) | PhysicalPlan::ExchangeSource(_)
        | PhysicalPlan::CompactSource(_) | PhysicalPlan::DeleteSource(_) | PhysicalPlan::UpdateSource(_) => true,
        _ => false,
    }
}

/// Whether the node is an operator with one input.
pub open spec fn is_unary(p: PhysicalPlan) -> bool {
    match p {
        PhysicalPlan::Filter(_) => true,
        PhysicalPlan::Project(_) => true,
        PhysicalPlan::EvalScalar(_) => true,
        PhysicalPlan::AggregateExpand(_) => true,
        PhysicalPlan::AggregatePartial(_) => true,
        PhysicalPlan::AggregateFinal(_) => true,
        PhysicalPlan::Window(_) => true,
        PhysicalPlan::Sort(_) => true,
        PhysicalPlan::Limit(_) => true,
        PhysicalPlan::RowFetch(_) => true,
        PhysicalPlan::Exchange(_) => true,
        PhysicalPlan::ExchangeSink(_) => true,
        PhysicalPlan::DistributedInsertSelect(_) => true,
        PhysicalPlan::ProjectSet(_) => true,
        PhysicalPlan::ReclusterSink(_) => true,
        PhysicalPlan::CommitSink(_) => true,
        PhysicalPlan::ReplaceDeduplicate(_) => true,
        PhysicalPlan::ReplaceInto(_) => true,
        PhysicalPlan::MergeIntoSource(_) => true,
        PhysicalPlan::MergeInto(_) => true,
        PhysicalPlan::MergeIntoAddRowNumber(_) => true,
        PhysicalPlan::MergeIntoAppendNotMatched(_) => true,
        PhysicalPlan::Udf(_) => true,
        _ => false,
    }
}

/// Whether the node is an operator with two inputs.
pub open spec fn is_binary(p: PhysicalPlan) -> bool {
    match p {
        PhysicalPlan::HashJoin(_) => true,
        PhysicalPlan::UnionAll(_) => true,
        PhysicalPlan::RangeJoin(_) => true,
        PhysicalPlan::MaterializedCte(_) => true,
        _ => false,
    }
}

fn has_one_input(p: &PhysicalPlan) -> (r: bool)
    ensures
        r == is_unary(*p),
{
    match p {
        PhysicalPlan::Filter(_) => true,
        PhysicalPlan::Project(_) => true,
        PhysicalPlan::EvalScalar(_) => true,
        PhysicalPlan::AggregateExpand(_) => true,
        PhysicalPlan::AggregatePartial(_) => true,
        PhysicalPlan::AggregateFinal(_) => true,
        PhysicalPlan::Window(_) => true,
        PhysicalPlan::Sort(_) => true,
        PhysicalPlan::Limit(_) => true,
        PhysicalPlan::RowFetch(_) => true,
        PhysicalPlan::Exchange(_) => true,
        PhysicalPlan::ExchangeSink(_) => true,
        PhysicalPlan::DistributedInsertSelect(_) => true,
        PhysicalPlan::ProjectSet(_) => true,
        PhysicalPlan::ReclusterSink(_) => true,
        PhysicalPlan::CommitSink(_) => true,
        PhysicalPlan::ReplaceDeduplicate(_) => true,
        PhysicalPlan::ReplaceInto(_) => true,
        PhysicalPlan::MergeIntoSource(_) => true,
        PhysicalPlan::MergeInto(_) => true,
        PhysicalPlan::MergeIntoAddRowNumber(_) => true,
        PhysicalPlan::MergeIntoAppendNotMatched(_) => true,
        PhysicalPlan::Udf(_) => true,
        _ => false,
    }
}

fn has_two_inputs(p: &PhysicalPlan) -> (r: bool)
    ensures
        r == is_binary(*p),
{
    match p {
        PhysicalPlan::HashJoin(_) => true,
        PhysicalPlan::UnionAll(_) => true,
        PhysicalPlan::RangeJoin(_) => true,
        PhysicalPlan::MaterializedCte(_) => true,
        _ => false,
    }
}

/// The operator `node` (one with one input) over `input`.
pub open spec fn over_input(node: PhysicalPlan, input: PhysicalPlan) -> PhysicalPlan {
    match node {
        PhysicalPlan::Filter(p) => PhysicalPlan::Filter(UnaryPlan { plan_id: p.plan_id, input: Box::new(input) }),
        PhysicalPlan::Project(p) => PhysicalPlan::Project(UnaryPlan { plan_id: p.plan_id, input: Box::new(input) }),
        PhysicalPlan::EvalScalar(p) => PhysicalPlan::EvalScalar(UnaryPlan { plan_id: p.plan_id, input: Box::new(input) }),
        PhysicalPlan::AggregateExpand(p) => PhysicalPlan::AggregateExpand(UnaryPlan { plan_id: p.plan_id, input: Box::new(input) }),
        PhysicalPlan::AggregatePartial(p) => PhysicalPlan::AggregatePartial(UnaryPlan { plan_id: p.plan_id, input: Box::new(input) }),
        PhysicalPlan::AggregateFinal(p) => PhysicalPlan::AggregateFinal(UnaryPlan { plan_id: p.plan_id, input: Box::new(input) }),
        PhysicalPlan::Window(p) => PhysicalPlan::Window(UnaryPlan { plan_id: p.plan_id, input: Box::new(input) }),
        PhysicalPlan::Sort(p) => PhysicalPlan::Sort(UnaryPlan { plan_id: p.plan_id, input: Box::new(input) }),
        PhysicalPlan::Limit(p) => PhysicalPlan::Limit(UnaryPlan { plan_id: p.plan_id, input: Box::new(input) }),
        PhysicalPlan::RowFetch(p) => PhysicalPlan::RowFetch(UnaryPlan { plan_id: p.plan_id, input: Box::new(input) }),
        PhysicalPlan::Exchange(p) => PhysicalPlan::Exchange(UnaryPlan { plan_id: p.plan_id, input: Box::new(input) }),
        PhysicalPlan::ExchangeSink(p) => PhysicalPlan::ExchangeSink(UnaryPlan { plan_id: p.plan_id, input: Box::new(input) }),
        PhysicalPlan::DistributedInsertSelect(p) => PhysicalPlan::DistributedInsertSelect(UnaryPlan { plan_id: p.plan_id, input: Box::new(input) }),
        PhysicalPlan::ProjectSet(p) => PhysicalPlan::ProjectSet(UnaryPlan { plan_id: p.plan_id, input: Box::new(input) }),
        PhysicalPlan::ReclusterSink(p) => PhysicalPlan::ReclusterSink(UnaryPlan { plan_id: p.plan_id, input: Box::new(input) }),
        PhysicalPlan::CommitSink(p) => PhysicalPlan::CommitSink(UnaryPlan { plan_id: p.plan_id, input: Box::new(input) }),
        PhysicalPlan::ReplaceDeduplicate(p) => PhysicalPlan::ReplaceDeduplicate(UnaryPlan { plan_id: p.plan_id, input: Box::new(input) }),
        PhysicalPlan::ReplaceInto(p) => PhysicalPlan::ReplaceInto(UnaryPlan { plan_id: p.plan_id, input: Box::new(input) }),
        PhysicalPlan::MergeIntoSource(p) => PhysicalPlan::MergeIntoSource(UnaryPlan { plan_id: p.plan_id, input: Box::new(input) }),
        PhysicalPlan::MergeInto(p) => PhysicalPlan::MergeInto(UnaryPlan { plan_id: p.plan_id, input: Box::new(input) }),
        PhysicalPlan::MergeIntoAddRowNumber(p) => PhysicalPlan::MergeIntoAddRowNumber(UnaryPlan { plan_id: p.plan_id, input: Box::new(input) }),
        PhysicalPlan::MergeIntoAppendNotMatched(p) => PhysicalPlan::MergeIntoAppendNotMatched(UnaryPlan { plan_id: p.plan_id, input: Box::new(input) }),
        PhysicalPlan::Udf(p) => PhysicalPlan::Udf(UnaryPlan { plan_id: p.plan_id, input: Box::new(input) }),
        _ => node,
    }
}

/// The operator `node` (one with two inputs) over `left` and `right`.
pub open spec fn over_inputs(node: PhysicalPlan, left: PhysicalPlan, right: PhysicalPlan) -> PhysicalPlan {
    match node {
        PhysicalPlan::HashJoin(p) => PhysicalPlan::HashJoin(BinaryPlan { plan_id: p.plan_id, left: Box::new(left), right: Box::new(right) }),
        PhysicalPlan::UnionAll(p) => PhysicalPlan::UnionAll(BinaryPlan { plan_id: p.plan_id, left: Box::new(left), right: Box::new(right) }),
        PhysicalPlan::RangeJoin(p) => PhysicalPlan::RangeJoin(BinaryPlan { plan_id: p.plan_id, left: Box::new(left), right: Box::new(right) }),
        PhysicalPlan::MaterializedCte(p) => PhysicalPlan::MaterializedCte(BinaryPlan { plan_id: p.plan_id, left: Box::new(left), right: Box::new(right) }),
        _ => node,
    }
}

/// The node `node` (an operator with one input) over a new input.
pub fn with_input(node: &PhysicalPlan, input: PhysicalPlan) -> (r: PhysicalPlan)
    requires
        is_unary(*node),
    ensures
        r == over_input(*node, input),
        same_node(r, *node),
{
    match node {
        PhysicalPlan::Filter(p) => PhysicalPlan::Filter(UnaryPlan { plan_id: p.plan_id, input: Box::new(input) }),
        PhysicalPlan::Project(p) => PhysicalPlan::Project(UnaryPlan { plan_id: p.plan_id, input: Box::new(input) }),
        PhysicalPlan::EvalScalar(p) => PhysicalPlan::EvalScalar(UnaryPlan { plan_id: p.plan_id, input: Box::new(input) }),
        PhysicalPlan::AggregateExpand(p) => PhysicalPlan::AggregateExpand(UnaryPlan { plan_id: p.plan_id, input: Box::new(input) }),
        PhysicalPlan::AggregatePartial(p) => PhysicalPlan::AggregatePartial(UnaryPlan { plan_id: p.plan_id, input: Box::new(input) }),
        PhysicalPlan::AggregateFinal(p) => PhysicalPlan::AggregateFinal(UnaryPlan { plan_id: p.plan_id, input: Box::new(input) }),
        PhysicalPlan::Window(p) => PhysicalPlan::Window(UnaryPlan { plan_id: p.plan_id, input: Box::new(input) }),
        PhysicalPlan::Sort(p) => PhysicalPlan::Sort(UnaryPlan { plan_id: p.plan_id, input: Box::new(input) }),
        PhysicalPlan::Limit(p) => PhysicalPlan::Limit(UnaryPlan { plan_id: p.plan_id, input: Box::new(input) }),
        PhysicalPlan::RowFetch(p) => PhysicalPlan::RowFetch(UnaryPlan { plan_id: p.plan_id, input: Box::new(input) }),
        PhysicalPlan::Exchange(p) => PhysicalPlan::Exchange(UnaryPlan { plan_id: p.plan_id, input: Box::new(input) }),
        PhysicalPlan::ExchangeSink(p) => PhysicalPlan::ExchangeSink(UnaryPlan { plan_id: p.plan_id, input: Box::new(input) }),
        PhysicalPlan::DistributedInsertSelect(p) => PhysicalPlan::DistributedInsertSelect(UnaryPlan { plan_id: p.plan_id, input: Box::new(input) }),
        PhysicalPlan::ProjectSet(p) => PhysicalPlan::ProjectSet(UnaryPlan { plan_id: p.plan_id, input: Box::new(input) }),
        PhysicalPlan::ReclusterSink(p) => PhysicalPlan::ReclusterSink(UnaryPlan { plan_id: p.plan_id, input: Box::new(input) }),
        PhysicalPlan::CommitSink(p) => PhysicalPlan::CommitSink(UnaryPlan { plan_id: p.plan_id, input: Box::new(input) }),
        PhysicalPlan::ReplaceDeduplicate(p) => PhysicalPlan::ReplaceDeduplicate(UnaryPlan { plan_id: p.plan_id, input: Box::new(input) }),
        PhysicalPlan::ReplaceInto(p) => PhysicalPlan::ReplaceInto(UnaryPlan { plan_id: p.plan_id, input: Box::new(input) }),
        PhysicalPlan::MergeIntoSource(p) => PhysicalPlan::MergeIntoSource(UnaryPlan { plan_id: p.plan_id, input: Box::new(input) }),
        PhysicalPlan::MergeInto(p) => PhysicalPlan::MergeInto(UnaryPlan { plan_id: p.plan_id, input: Box::new(input) }),
        PhysicalPlan::MergeIntoAddRowNumber(p) => PhysicalPlan::MergeIntoAddRowNumber(UnaryPlan { plan_id: p.plan_id, input: Box::new(input) }),
        PhysicalPlan::MergeIntoAppendNotMatched(p) => PhysicalPlan::MergeIntoAppendNotMatched(UnaryPlan { plan_id: p.plan_id, input: Box::new(input) }),
        PhysicalPlan::Udf(p) => PhysicalPlan::Udf(UnaryPlan { plan_id: p.plan_id, input: Box::new(input) }),
        _ => {
            assert(false);
            input
        },
    }
}

/// The node `node` (an operator with two inputs) over new inputs.
pub fn with_inputs(node: &PhysicalPlan, left: PhysicalPlan, right: PhysicalPlan) -> (r: PhysicalPlan)
    requires
        is_binary(*node),
    ensures
        r == over_inputs(*node, left, right),
        same_node(r, *node),
{
    match node {
        PhysicalPlan::HashJoin(p) => PhysicalPlan::HashJoin(BinaryPlan { plan_id: p.plan_id, left: Box::new(left), right: Box::new(right) }),
        PhysicalPlan::UnionAll(p) => PhysicalPlan::UnionAll(BinaryPlan { plan_id: p.plan_id, left: Box::new(left), right: Box::new(right) }),
        PhysicalPlan::RangeJoin(p) => PhysicalPlan::RangeJoin(BinaryPlan { plan_id: p.plan_id, left: Box::new(left), right: Box::new(right) }),
        PhysicalPlan::MaterializedCte(p) => PhysicalPlan::MaterializedCte(BinaryPlan { plan_id: p.plan_id, left: Box::new(left), right: Box::new(right) }),
        _ => {
            assert(false);
            left
        },
    }
}

/// Rewrites a plan bottom-up. By default each node is rebuilt over its
/// rewritten inputs, the left (build) input before the right (probe) one;
/// an implementation overrides the methods of the nodes it changes. The
/// first error stops the rewrite.
///
/// `keeps_plans` tells that a replacer rewrites each plan into itself. It
/// is false unless an implementation says otherwise, and then the methods
/// promise nothing. The default of each method keeps plans when the
/// methods it calls do (see their contracts); so a replacer that keeps
/// every default rewrites each plan into itself, by induction on the plan.
pub trait PhysicalPlanReplacer {
    open spec fn keeps_plans(&self) -> bool {
        false
    }

    fn replace(&mut self, plan: &PhysicalPlan) -> (r: Result<PhysicalPlan, ErrorCode>)
        ensures
            old(self).keeps_plans() ==> r == Ok::<PhysicalPlan, ErrorCode>(*plan),
            old(self).keeps_plans() ==> final(self).keeps_plans(),
    ;

    fn replace_leaf(&mut self, plan: &PhysicalPlan) -> (r: Result<PhysicalPlan, ErrorCode>)
        ensures
            old(self).keeps_plans() && is_leaf(*plan) ==> r == Ok::<PhysicalPlan, ErrorCode>(*plan),
            old(self).keeps_plans() ==> final(self).keeps_plans(),
    ;

    fn replace_unary(&mut self, node: &PhysicalPlan, plan: &UnaryPlan) -> (r: Result<PhysicalPlan, ErrorCode>)
        ensures
            old(self).keeps_plans() && is_unary(*node) && over_input(*node, *plan.input) == *node
                ==> r == Ok::<PhysicalPlan, ErrorCode>(*node),
            old(self).keeps_plans() ==> final(self).keeps_plans(),
    ;

    fn replace_binary(&mut self, node: &PhysicalPlan, plan: &BinaryPlan) -> (r: Result<PhysicalPlan, ErrorCode>)
        ensures
            old(self).keeps_plans() && is_binary(*node) && over_inputs(*node, *plan.left, *plan.right) == *node
                ==> r == Ok::<PhysicalPlan, ErrorCode>(*node),
            old(self).keeps_plans() ==> final(self).keeps_plans(),
    ;

    fn replace_copy_into_table(&mut self, plan: &CopyIntoTablePlan) -> (r: Result<PhysicalPlan, ErrorCode>)
        ensures
            old(self).keeps_plans() ==> r == Ok::<PhysicalPlan, ErrorCode>(PhysicalPlan::CopyIntoTable(*plan)),
            old(self).keeps_plans() ==> final(self).keeps_plans(),
    ;
}

/// The default of `replace`: each node goes to the method of its kind.
pub fn replace_default<R: PhysicalPlanReplacer>(this: &mut R, plan: &PhysicalPlan) -> (r: Result<PhysicalPlan, ErrorCode>)
    ensures
        old(this).keeps_plans() ==> r == Ok::<PhysicalPlan, ErrorCode>(*plan),
        old(this).keeps_plans() ==> final(this).keeps_plans(),
{
    match plan {
        PhysicalPlan::TableScan(_) => this.replace_leaf(plan),
        PhysicalPlan::ReplaceAsyncSourcer(_) => this.replace_leaf(plan),
        PhysicalPlan::CteScan(_) => this.replace_leaf(plan),
        PhysicalPlan::ConstantTableScan(_) => this.replace_leaf(plan),
        PhysicalPlan::ReclusterSource(_) => this.replace_leaf(plan),
        PhysicalPlan::ExchangeSource(_) => this.replace_leaf(plan),
        PhysicalPlan::CompactSource(_) => this.replace_leaf(plan),
        PhysicalPlan::DeleteSource(_) => this.replace_leaf(plan),
        PhysicalPlan::UpdateSource(_) => this.replace_leaf(plan),
        PhysicalPlan::Filter(p) => this.replace_unary(plan, p),
        PhysicalPlan::Project(p) => this.replace_unary(plan, p),
        PhysicalPlan::EvalScalar(p) => this.replace_unary(plan, p),
        PhysicalPlan::AggregateExpand(p) => this.replace_unary(plan, p),
        PhysicalPlan::AggregatePartial(p) => this.replace_unary(plan, p),
        PhysicalPlan::AggregateFinal(p) => this.replace_unary(plan, p),
        PhysicalPlan::Window(p) => this.replace_unary(plan, p),
        PhysicalPlan::Sort(p) => this.replace_unary(plan, p),
        PhysicalPlan::Limit(p) => this.replace_unary(plan, p),
        PhysicalPlan::RowFetch(p) => this.replace_unary(plan, p),
        PhysicalPlan::Exchange(p) => this.replace_unary(plan, p),
        PhysicalPlan::ExchangeSink(p) => this.replace_unary(plan, p),
        PhysicalPlan::DistributedInsertSelect(p) => this.replace_unary(plan, p),
        PhysicalPlan::ProjectSet(p) => this.replace_unary(plan, p),
        PhysicalPlan::ReclusterSink(p) => this.replace_unary(plan, p),
        PhysicalPlan::CommitSink(p) => this.replace_unary(plan, p),
        PhysicalPlan::ReplaceDeduplicate(p) => this.replace_unary(plan, p),
        PhysicalPlan::ReplaceInto(p) => this.replace_unary(plan, p),
        PhysicalPlan::MergeIntoSource(p) => this.replace_unary(plan, p),
        PhysicalPlan::MergeInto(p) => this.replace_unary(plan, p),
        PhysicalPlan::MergeIntoAddRowNumber(p) => this.replace_unary(plan, p),
        PhysicalPlan::MergeIntoAppendNotMatched(p) => this.replace_unary(plan, p),
        PhysicalPlan::Udf(p) => this.replace_unary(plan, p),
        PhysicalPlan::HashJoin(p) => this.replace_binary(plan, p),
        PhysicalPlan::UnionAll(p) => this.replace_binary(plan, p),
        PhysicalPlan::RangeJoin(p) => this.replace_binary(plan, p),
        PhysicalPlan::MaterializedCte(p) => this.replace_binary(plan, p),
        PhysicalPlan::CopyIntoTable(p) => this.replace_copy_into_table(p),
    }
}

/// The default of `replace_leaf`: a node without inputs is kept as it is.
pub fn replace_leaf_default(plan: &PhysicalPlan) -> (r: Result<PhysicalPlan, ErrorCode>)
    ensures
        match *plan {
            PhysicalPlan::TableScan(p) => r == Ok::<PhysicalPlan, ErrorCode>(PhysicalPlan::TableScan(p)),
            PhysicalPlan::ReplaceAsyncSourcer(p) => r == Ok::<PhysicalPlan, ErrorCode>(PhysicalPlan::ReplaceAsyncSourcer(p)),
            PhysicalPlan::CteScan(p) => r == Ok::<PhysicalPlan, ErrorCode>(PhysicalPlan::CteScan(p)),
            PhysicalPlan::ConstantTableScan(p) => r == Ok::<PhysicalPlan, ErrorCode>(PhysicalPlan::ConstantTableScan(p)),
            PhysicalPlan::ReclusterSource(p) => r == Ok::<PhysicalPlan, ErrorCode>(PhysicalPlan::ReclusterSource(p)),
            PhysicalPlan::ExchangeSource(p) => r == Ok::<PhysicalPlan, ErrorCode>(PhysicalPlan::ExchangeSource(p)),
            PhysicalPlan::CompactSource(p) => r == Ok::<PhysicalPlan, ErrorCode>(PhysicalPlan::CompactSource(p)),
            PhysicalPlan::DeleteSource(p) => r == Ok::<PhysicalPlan, ErrorCode>(PhysicalPlan::DeleteSource(p)),
            PhysicalPlan::UpdateSource(p) => r == Ok::<PhysicalPlan, ErrorCode>(PhysicalPlan::UpdateSource(p)),
            _ => r is Err,
        },
{
    match plan {
        PhysicalPlan::TableScan(p) => Ok(PhysicalPlan::TableScan(*p)),
        PhysicalPlan::ReplaceAsyncSourcer(p) => Ok(PhysicalPlan::ReplaceAsyncSourcer(*p)),
        PhysicalPlan::CteScan(p) => Ok(PhysicalPlan::CteScan(*p)),
        PhysicalPlan::ConstantTableScan(p) => Ok(PhysicalPlan::ConstantTableScan(*p)),
        PhysicalPlan::ReclusterSource(p) => Ok(PhysicalPlan::ReclusterSource(*p)),
        PhysicalPlan::ExchangeSource(p) => Ok(PhysicalPlan::ExchangeSource(*p)),
        PhysicalPlan::CompactSource(p) => Ok(PhysicalPlan::CompactSource(*p)),
        PhysicalPlan::DeleteSource(p) => Ok(PhysicalPlan::DeleteSource(*p)),
        PhysicalPlan::UpdateSource(p) => Ok(PhysicalPlan::UpdateSource(*p)),
        _ => Err(ErrorCode::new(ErrorKind::Internal, String::from_str("not a plan without inputs"))),
    }
}

/// An operator with one input rebuilt over what rewriting its input gave:
/// the rewritten input, or the error.
pub fn rebuild_unary(node: &PhysicalPlan, input: Result<PhysicalPlan, ErrorCode>) -> (r: Result<PhysicalPlan, ErrorCode>)
    requires
        is_unary(*node),
    ensures
        match input {
            Ok(i) => r == Ok::<PhysicalPlan, ErrorCode>(over_input(*node, i)),
            Err(e) => r == Err::<PhysicalPlan, ErrorCode>(e),
        },
{
    match input {
        Ok(i) => Ok(with_input(node, i)),
        Err(e) => Err(e),
    }
}

/// An operator with two inputs rebuilt over its rewritten left input and
/// what rewriting its right input gave: the rewritten input, or the error.
pub fn rebuild_binary(node: &PhysicalPlan, left: PhysicalPlan, right: Result<PhysicalPlan, ErrorCode>)
    -> (r: Result<PhysicalPlan, ErrorCode>)
    requires
        is_binary(*node),
    ensures
        match right {
            Ok(i) => r == Ok::<PhysicalPlan, ErrorCode>(over_inputs(*node, left, i)),
            Err(e) => r == Err::<PhysicalPlan, ErrorCode>(e),
        },
{
    match right {
        Ok(i) => Ok(with_inputs(node, left, i)),
        Err(e) => Err(e),
    }
}

/// The default of `replace_unary`: a node with one input is rebuilt
/// over its rewritten input.
pub fn replace_unary_default<R: PhysicalPlanReplacer>(this: &mut R, node: &PhysicalPlan, plan: &UnaryPlan) -> (r: Result<PhysicalPlan, ErrorCode>)
    requires
        is_unary(*node),
    ensures
        r matches Ok(p) ==> same_node(p, *node),
        r matches Ok(p) ==> exists|i: PhysicalPlan| p == #[trigger] over_input(*node, i),
        old(this).keeps_plans() && over_input(*node, *plan.input) == *node ==> r == Ok::<PhysicalPlan, ErrorCode>(*node),
        old(this).keeps_plans() ==> final(this).keeps_plans(),
{
    let input = this.replace(&plan.input);
    let ghost rewritten = input;
    let r = rebuild_unary(node, input);
    proof {
        if let Ok(i) = rewritten {
            assert(r == Ok::<PhysicalPlan, ErrorCode>(over_input(*node, i)));
        }
    }
    r
}

/// The default of `replace_binary`: a node with two inputs is rebuilt
/// over its rewritten inputs, the left (build) one first; an error in the
/// left one stops before the right one is rewritten.
pub fn replace_binary_default<R: PhysicalPlanReplacer>(this: &mut R, node: &PhysicalPlan, plan: &BinaryPlan) -> (r: Result<PhysicalPlan, ErrorCode>)
    requires
        is_binary(*node),
    ensures
        r matches Ok(p) ==> same_node(p, *node),
        r matches Ok(p) ==> exists|l: PhysicalPlan, q: PhysicalPlan| p == #[trigger] over_inputs(*node, l, q),
        old(this).keeps_plans() && over_inputs(*node, *plan.left, *plan.right) == *node
            ==> r == Ok::<PhysicalPlan, ErrorCode>(*node),
        old(this).keeps_plans() ==> final(this).keeps_plans(),
{
    let left = match this.replace(&plan.left) {
        Ok(p) => p,
        Err(e) => return Err(e),
    };
    let ghost new_left = left;
    let right = this.replace(&plan.right);
    let ghost rewritten = right;
    let r = rebuild_binary(node, left, right);
    proof {
        if let Ok(q) = rewritten {
            assert(r == Ok::<PhysicalPlan, ErrorCode>(over_inputs(*node, new_left, q)));
        }
    }
    r
}

/// The default of `replace_copy_into_table`: `COPY INTO` from a stage is
/// kept; from a query it is rebuilt over the rewritten query.
pub fn replace_copy_into_table_default<R: PhysicalPlanReplacer>(this: &mut R, plan: &CopyIntoTablePlan) -> (r: Result<PhysicalPlan, ErrorCode>)
    ensures
        r matches Ok(p) ==> p matches PhysicalPlan::CopyIntoTable(c) && c.plan_id == plan.plan_id
            && (c.source is Stage <==> plan.source is Stage),
        plan.source is Stage ==> r == Ok::<PhysicalPlan, ErrorCode>(PhysicalPlan::CopyIntoTable(CopyIntoTablePlan {
            plan_id: plan.plan_id,
            source: CopyIntoTableSource::Stage,
        })),
        old(this).keeps_plans() ==> r == Ok::<PhysicalPlan, ErrorCode>(PhysicalPlan::CopyIntoTable(*plan)),
        old(this).keeps_plans() ==> final(this).keeps_plans(),
{
    match &plan.source {
        CopyIntoTableSource::Stage => Ok(PhysicalPlan::CopyIntoTable(CopyIntoTablePlan {
            plan_id: plan.plan_id,
            source: CopyIntoTableSource::Stage,
        })),
        CopyIntoTableSource::Query(q) => {
            let input = match this.replace(q) {
                Ok(p) => p,
                Err(e) => return Err(e),
            };
            Ok(PhysicalPlan::CopyIntoTable(CopyIntoTablePlan {
                plan_id: plan.plan_id,
                source: CopyIntoTableSource::Query(Box::new(input)),
            }))
        },
    }
}

} // verus!
