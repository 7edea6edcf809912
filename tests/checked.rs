use little_planner::checked::PlanError;
use little_planner::expr::Expr;
use little_planner::plan::RelExpr;
use little_planner::text::render_plan;
use std::collections::HashSet;

fn scan_a() -> RelExpr {
    RelExpr::scan("a".to_string(), vec![0, 1])
}

fn scan_x() -> RelExpr {
    RelExpr::scan("x".to_string(), vec![2, 3])
}

fn set(ids: &[usize]) -> HashSet<usize> {
    ids.iter().cloned().collect()
}

#[test]
fn checked_select_accepts_bound_predicates() {
    let plan = scan_a()
        .checked_select(vec![Expr::col_ref(1).eq(Expr::int_lit(100))])
        .unwrap();
    assert_eq!(render_plan(&plan), "-> select(@1=100)\n  -> scan(\"a\", [0, 1])\n");
}

#[test]
fn checked_select_rejects_unknown_column() {
    let r = scan_a().checked_select(vec![Expr::col_ref(7).eq(Expr::int_lit(1))]);
    assert_eq!(r.err(), Some(PlanError::UnresolvedColumnReference));
}

#[test]
fn checked_join_accepts_columns_of_either_side() {
    let plan = scan_a()
        .checked_join(
            scan_x(),
            vec![
                Expr::col_ref(0).eq(Expr::col_ref(2)),
                Expr::col_ref(3).eq(Expr::int_lit(5)),
            ],
        )
        .unwrap();
    assert_eq!(
        render_plan(&plan),
        "-> join(@0=@2)\n  -> scan(\"a\", [0, 1])\n  -> select(@3=5)\n    -> scan(\"x\", [2, 3])\n"
    );
}

#[test]
fn checked_join_rejects_unknown_column() {
    let r = scan_a().checked_join(scan_x(), vec![Expr::col_ref(0).eq(Expr::col_ref(9))]);
    assert_eq!(r.err(), Some(PlanError::UnresolvedColumnReference));
}

#[test]
fn checked_project_accepts_subset() {
    let plan = scan_a().checked_project(set(&[1])).unwrap();
    assert_eq!(render_plan(&plan), "-> project({1})\n  -> scan(\"a\", [0, 1])\n");
}

#[test]
fn checked_project_rejects_missing_column() {
    let r = scan_a().checked_project(set(&[1, 2]));
    assert_eq!(r.err(), Some(PlanError::InvalidProjection));
}
