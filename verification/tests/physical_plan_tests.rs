use databend_query_core::error::{ErrorCode, ErrorKind};
use databend_query_core::physical_plan::{
    rebuild_binary, rebuild_unary, replace_binary_default, replace_copy_into_table_default, replace_default,
    replace_leaf_default, replace_unary_default, with_input, BinaryPlan, CopyIntoTablePlan, CopyIntoTableSource,
    LeafPlan, PhysicalPlan, PhysicalPlanReplacer, TraverseStep, UnaryPlan,
};

fn scan(id: u32) -> PhysicalPlan {
    PhysicalPlan::TableScan(LeafPlan { plan_id: id })
}

fn filter(id: u32, input: PhysicalPlan) -> PhysicalPlan {
    PhysicalPlan::Filter(UnaryPlan { plan_id: id, input: Box::new(input) })
}

fn sort(id: u32, input: PhysicalPlan) -> PhysicalPlan {
    PhysicalPlan::Sort(UnaryPlan { plan_id: id, input: Box::new(input) })
}

fn join(id: u32, left: PhysicalPlan, right: PhysicalPlan) -> PhysicalPlan {
    PhysicalPlan::HashJoin(BinaryPlan { plan_id: id, left: Box::new(left), right: Box::new(right) })
}

/// Rewrites nothing of its own: every node goes through the defaults.
struct Identity;

impl PhysicalPlanReplacer for Identity {
    fn replace(&mut self, plan: &PhysicalPlan) -> Result<PhysicalPlan, ErrorCode> {
        replace_default(self, plan)
    }
    fn replace_leaf(&mut self, plan: &PhysicalPlan) -> Result<PhysicalPlan, ErrorCode> {
        replace_leaf_default(plan)
    }
    fn replace_unary(&mut self, node: &PhysicalPlan, plan: &UnaryPlan) -> Result<PhysicalPlan, ErrorCode> {
        replace_unary_default(self, node, plan)
    }
    fn replace_binary(&mut self, node: &PhysicalPlan, plan: &BinaryPlan) -> Result<PhysicalPlan, ErrorCode> {
        replace_binary_default(self, node, plan)
    }
    fn replace_copy_into_table(&mut self, plan: &CopyIntoTablePlan) -> Result<PhysicalPlan, ErrorCode> {
        replace_copy_into_table_default(self, plan)
    }
}

/// Renumbers table scans; fails on scan 0. Records the scans it saw.
struct RenumberScans {
    seen: Vec<u32>,
}

impl PhysicalPlanReplacer for RenumberScans {
    fn replace(&mut self, plan: &PhysicalPlan) -> Result<PhysicalPlan, ErrorCode> {
        replace_default(self, plan)
    }
    fn replace_leaf(&mut self, plan: &PhysicalPlan) -> Result<PhysicalPlan, ErrorCode> {
        match plan {
            PhysicalPlan::TableScan(p) => {
                self.seen.push(p.plan_id);
                if p.plan_id == 0 {
                    Err(ErrorCode::new(ErrorKind::Internal, "scan 0".to_string()))
                } else {
                    Ok(scan(p.plan_id + 100))
                }
            }
            _ => replace_leaf_default(plan),
        }
    }
    fn replace_unary(&mut self, node: &PhysicalPlan, plan: &UnaryPlan) -> Result<PhysicalPlan, ErrorCode> {
        replace_unary_default(self, node, plan)
    }
    fn replace_binary(&mut self, node: &PhysicalPlan, plan: &BinaryPlan) -> Result<PhysicalPlan, ErrorCode> {
        replace_binary_default(self, node, plan)
    }
    fn replace_copy_into_table(&mut self, plan: &CopyIntoTablePlan) -> Result<PhysicalPlan, ErrorCode> {
        replace_copy_into_table_default(self, plan)
    }
}

fn steps_text(steps: &[TraverseStep]) -> Vec<String> {
    steps
        .iter()
        .map(|s| match s {
            TraverseStep::PreVisit(p) => format!("pre {}", plan_id(p)),
            TraverseStep::Visit(p) => format!("visit {}", plan_id(p)),
            TraverseStep::PostVisit(p) => format!("post {}", plan_id(p)),
        })
        .collect()
}

fn plan_id(p: &PhysicalPlan) -> u32 {
    match p {
        PhysicalPlan::TableScan(l) => l.plan_id,
        PhysicalPlan::Filter(u) | PhysicalPlan::Sort(u) => u.plan_id,
        PhysicalPlan::HashJoin(b) => b.plan_id,
        _ => u32::MAX,
    }
}

#[test]
fn traverse_visits_depth_first_left_to_right() {
    let plan = join(1, filter(2, scan(3)), scan(4));
    let mut steps = Vec::new();
    PhysicalPlan::traverse(&plan, &|_p: &PhysicalPlan| true, &mut steps);
    assert_eq!(
        steps_text(&steps),
        vec![
            "pre 1", "visit 1", "pre 2", "visit 2", "pre 3", "visit 3", "post 3", "post 2", "pre 4", "visit 4",
            "post 4", "post 1"
        ]
    );
}

#[test]
fn traverse_skips_refused_subtrees() {
    let plan = join(1, sort(2, scan(3)), scan(4));
    let mut steps = Vec::new();
    PhysicalPlan::traverse(&plan, &|p: &PhysicalPlan| !matches!(p, PhysicalPlan::Sort(_)), &mut steps);
    assert_eq!(steps_text(&steps), vec!["pre 1", "visit 1", "pre 2", "pre 4", "visit 4", "post 4", "post 1"]);
}

#[test]
fn traverse_of_refused_root_is_empty() {
    let plan = scan(7);
    let mut steps = Vec::new();
    PhysicalPlan::traverse(&plan, &|_p: &PhysicalPlan| false, &mut steps);
    assert_eq!(steps_text(&steps), vec!["pre 7"]);
}

#[test]
fn default_replacer_rebuilds_the_same_plan() {
    let plan = join(1, filter(2, scan(3)), sort(4, scan(5)));
    let copy = Identity.replace(&plan).unwrap();
    assert_eq!(copy, plan);
}

#[test]
fn replacer_rewrites_leaves_under_their_operators() {
    let plan = join(1, filter(2, scan(3)), scan(4));
    let mut r = RenumberScans { seen: vec![] };
    let out = r.replace(&plan).unwrap();
    assert_eq!(out, join(1, filter(2, scan(103)), scan(104)));
    assert_eq!(r.seen, vec![3, 4]);
}

#[test]
fn error_on_the_left_stops_before_the_right() {
    let plan = join(1, scan(0), scan(4));
    let mut r = RenumberScans { seen: vec![] };
    let e = r.replace(&plan).unwrap_err();
    assert_eq!(e.message, "scan 0");
    assert_eq!(r.seen, vec![0]);
}

#[test]
fn copy_into_from_stage_is_kept_and_from_query_is_rewritten() {
    let stage = PhysicalPlan::CopyIntoTable(CopyIntoTablePlan { plan_id: 9, source: CopyIntoTableSource::Stage });
    assert_eq!(Identity.replace(&stage).unwrap(), PhysicalPlan::CopyIntoTable(CopyIntoTablePlan {
        plan_id: 9,
        source: CopyIntoTableSource::Stage,
    }));
    let query = PhysicalPlan::CopyIntoTable(CopyIntoTablePlan {
        plan_id: 9,
        source: CopyIntoTableSource::Query(Box::new(scan(5))),
    });
    let mut r = RenumberScans { seen: vec![] };
    assert_eq!(r.replace(&query).unwrap(), PhysicalPlan::CopyIntoTable(CopyIntoTablePlan {
        plan_id: 9,
        source: CopyIntoTableSource::Query(Box::new(scan(105))),
    }));
}

#[test]
fn leaf_default_refuses_operators_with_inputs() {
    assert!(replace_leaf_default(&filter(1, scan(2))).is_err());
    assert_eq!(replace_leaf_default(&scan(2)).unwrap(), scan(2));
}

#[test]
fn rebuild_puts_the_rewritten_inputs_under_the_node() {
    let node = sort(8, scan(1));
    assert_eq!(rebuild_unary(&node, Ok(scan(2))).unwrap(), sort(8, scan(2)));
    let e = rebuild_unary(&node, Err(ErrorCode::new(ErrorKind::Internal, "x".to_string()))).unwrap_err();
    assert_eq!(e.message, "x");
    let j = join(3, scan(1), scan(2));
    assert_eq!(rebuild_binary(&j, scan(5), Ok(scan(6))).unwrap(), join(3, scan(5), scan(6)));
    assert!(rebuild_binary(&j, scan(5), Err(ErrorCode::new(ErrorKind::Internal, "y".to_string()))).is_err());
    assert_eq!(with_input(&filter(4, scan(1)), scan(9)), filter(4, scan(9)));
}
