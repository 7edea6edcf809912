use little_planner::expr::Expr;
use little_planner::plan::RelExpr;
use little_planner::colset::sorted_ids;
use little_planner::text::{format_expr, format_predicates, format_scan, render_plan};
use std::collections::HashSet;

fn scan_a() -> RelExpr {
    RelExpr::scan("a".to_string(), vec![0, 1])
}

fn scan_x() -> RelExpr {
    RelExpr::scan("x".to_string(), vec![2, 3])
}

fn set(ids: &[usize]) -> HashSet<usize> {
    ids.iter().cloned().collect()
}

fn col_eq_int(id: usize, v: i64) -> Expr {
    Expr::col_ref(id).eq(Expr::int_lit(v))
}

fn col_eq_col(a: usize, b: usize) -> Expr {
    Expr::col_ref(a).eq(Expr::col_ref(b))
}

#[test]
fn free_columns_of_expressions() {
    assert_eq!(Expr::col_ref(4).free(), set(&[4]));
    assert_eq!(Expr::int_lit(9).free(), set(&[]));
    assert_eq!(col_eq_col(0, 2).free(), set(&[0, 2]));
    assert_eq!(col_eq_int(1, 100).free(), set(&[1]));
    assert_eq!(col_eq_col(3, 3).free(), set(&[3]));
}

#[test]
fn bound_by_checks_attributes() {
    let a = scan_a();
    assert!(col_eq_int(1, 100).bound_by(&a));
    assert!(!col_eq_col(0, 2).bound_by(&a));
    assert!(Expr::int_lit(1).eq(Expr::int_lit(1)).bound_by(&a));
}

#[test]
fn attributes_of_each_node() {
    assert_eq!(scan_a().att(), set(&[0, 1]));
    assert_eq!(RelExpr::scan("t".to_string(), vec![5, 5, 6]).att(), set(&[5, 6]));
    assert_eq!(scan_a().select(vec![col_eq_int(0, 1)]).att(), set(&[0, 1]));
    assert_eq!(scan_a().join(scan_x(), vec![col_eq_col(0, 2)]).att(), set(&[0, 1, 2, 3]));
    assert_eq!(scan_a().project(set(&[1])).att(), set(&[1]));
}

#[test]
fn attributes_twice_agree() {
    let plan = scan_a().join(scan_x(), vec![col_eq_col(0, 2), col_eq_int(3, 7)]);
    let first = plan.att();
    let second = plan.att();
    assert_eq!(first, second);
    assert_eq!(first, set(&[0, 1, 2, 3]));
}

#[test]
fn select_twice_makes_one_node() {
    let plan = scan_a()
        .select(vec![col_eq_int(0, 1)])
        .select(vec![col_eq_int(1, 2), col_eq_int(0, 3)]);
    match &plan {
        RelExpr::Select { src, predicates } => {
            assert!(matches!(**src, RelExpr::Scan { .. }));
            assert_eq!(predicates.len(), 3);
        },
        _ => panic!("expected a single selection"),
    }
    assert_eq!(
        render_plan(&plan),
        "-> select(@0=1 && @1=2 && @0=3)\n  -> scan(\"a\", [0, 1])\n"
    );
}

#[test]
fn join_pushes_single_side_predicate() {
    let plan = scan_a().join(scan_x(), vec![col_eq_col(0, 2), col_eq_int(1, 100)]);
    assert_eq!(
        render_plan(&plan),
        "-> join(@0=@2)\n  -> select(@1=100)\n    -> scan(\"a\", [0, 1])\n  -> scan(\"x\", [2, 3])\n"
    );
}

#[test]
fn join_merges_left_predicates() {
    let plan = scan_a().join(scan_x(), vec![col_eq_int(0, 100), col_eq_int(1, 200)]);
    match &plan {
        RelExpr::Join { left, predicates, .. } => {
            assert!(predicates.is_empty());
            match &**left {
                RelExpr::Select { src, predicates } => {
                    assert!(matches!(**src, RelExpr::Scan { .. }));
                    assert_eq!(predicates.len(), 2);
                },
                _ => panic!("expected a selection on the left"),
            }
        },
        _ => panic!("expected a join"),
    }
    assert_eq!(
        render_plan(&plan),
        "-> join()\n  -> select(@0=100 && @1=200)\n    -> scan(\"a\", [0, 1])\n  -> scan(\"x\", [2, 3])\n"
    );
}

#[test]
fn join_pushes_onto_both_sides() {
    let plan = scan_a().join(
        scan_x(),
        vec![col_eq_col(0, 2), col_eq_int(1, 100), col_eq_int(3, 100)],
    );
    assert_eq!(
        render_plan(&plan),
        "-> join(@0=@2)\n  -> select(@1=100)\n    -> scan(\"a\", [0, 1])\n  -> select(@3=100)\n    -> scan(\"x\", [2, 3])\n"
    );
}

#[test]
fn join_prefers_left_side_first() {
    let plan = scan_a().join(scan_x(), vec![col_eq_int(2, 1), col_eq_int(0, 1), col_eq_int(3, 2)]);
    assert_eq!(
        render_plan(&plan),
        "-> join()\n  -> select(@0=1)\n    -> scan(\"a\", [0, 1])\n  -> select(@2=1 && @3=2)\n    -> scan(\"x\", [2, 3])\n"
    );
}

#[test]
fn join_keeps_order_of_remaining_predicates() {
    let plan = scan_a().join(
        scan_x(),
        vec![col_eq_int(1, 5), col_eq_col(0, 2), col_eq_col(1, 3)],
    );
    assert_eq!(
        render_plan(&plan),
        "-> join(@0=@2 && @1=@3)\n  -> select(@1=5)\n    -> scan(\"a\", [0, 1])\n  -> scan(\"x\", [2, 3])\n"
    );
}

#[test]
fn join_pushes_constant_predicate_left() {
    let plan = scan_a().join(scan_x(), vec![Expr::int_lit(1).eq(Expr::int_lit(1))]);
    assert_eq!(
        render_plan(&plan),
        "-> join()\n  -> select(1=1)\n    -> scan(\"a\", [0, 1])\n  -> scan(\"x\", [2, 3])\n"
    );
}

#[test]
fn selection_then_join() {
    let plan = scan_a()
        .select(vec![col_eq_int(1, 100)])
        .join(scan_x(), vec![col_eq_col(0, 2)]);
    assert_eq!(
        render_plan(&plan),
        "-> join(@0=@2)\n  -> select(@1=100)\n    -> scan(\"a\", [0, 1])\n  -> scan(\"x\", [2, 3])\n"
    );
}

#[test]
fn select_above_join_is_absorbed() {
    let plan = scan_a()
        .join(scan_x(), vec![col_eq_col(0, 2)])
        .select(vec![col_eq_int(1, 100)]);
    assert_eq!(
        render_plan(&plan),
        "-> join(@0=@2 && @1=100)\n  -> scan(\"a\", [0, 1])\n  -> scan(\"x\", [2, 3])\n"
    );
}

#[test]
fn select_pushed_below_project() {
    let plan = scan_a().project(set(&[0])).select(vec![col_eq_int(0, 100)]);
    match &plan {
        RelExpr::Project { src, cols } => {
            assert_eq!(*cols, set(&[0]));
            assert!(matches!(**src, RelExpr::Select { .. }));
        },
        _ => panic!("expected a projection at the root"),
    }
    assert_eq!(
        render_plan(&plan),
        "-> project({0})\n  -> select(@0=100)\n    -> scan(\"a\", [0, 1])\n"
    );
}

#[test]
fn project_pushed_into_left_of_join() {
    let plan = scan_a()
        .join(scan_x(), vec![col_eq_col(0, 2)])
        .project(set(&[0]));
    assert_eq!(
        render_plan(&plan),
        "-> join(@0=@2)\n  -> project({0})\n    -> scan(\"a\", [0, 1])\n  -> scan(\"x\", [2, 3])\n"
    );
}

#[test]
fn project_pushed_into_right_of_join() {
    let plan = scan_a()
        .join(scan_x(), vec![col_eq_col(0, 2)])
        .project(set(&[3, 2]));
    assert_eq!(
        render_plan(&plan),
        "-> join(@0=@2)\n  -> scan(\"a\", [0, 1])\n  -> project({2, 3})\n    -> scan(\"x\", [2, 3])\n"
    );
}

#[test]
fn project_spanning_both_sides_stays_above_join() {
    let plan = scan_a()
        .join(scan_x(), vec![col_eq_col(0, 2)])
        .project(set(&[2, 0]));
    assert_eq!(
        render_plan(&plan),
        "-> project({0, 2})\n  -> join(@0=@2)\n    -> scan(\"a\", [0, 1])\n    -> scan(\"x\", [2, 3])\n"
    );
    assert_eq!(plan.att(), set(&[0, 2]));
}

#[test]
fn pushed_projection_keeps_other_side_columns() {
    // The projection lands on the left side only, so the right side's
    // columns still reach the output.
    let plan = scan_a().join(scan_x(), vec![]).project(set(&[0]));
    assert_eq!(plan.att(), set(&[0, 2, 3]));
}

#[test]
fn format_plan_lines() {
    assert_eq!(scan_a().format_plan(), "scan(\"a\", [0, 1])");
    assert_eq!(RelExpr::scan("q\"t".to_string(), vec![]).format_plan(), "scan(\"q\\\"t\", [])");
    assert_eq!(scan_a().select(vec![col_eq_int(0, 1)]).format_plan(), "select(@0=1)");
    assert_eq!(scan_a().join(scan_x(), vec![]).format_plan(), "join()");
    assert_eq!(scan_a().project(set(&[1, 0])).format_plan(), "project({0, 1})");
    assert_eq!(scan_a().project(set(&[])).format_plan(), "project({})");
}

#[test]
fn format_expressions() {
    assert_eq!(format_expr(&Expr::col_ref(12)), "@12");
    assert_eq!(format_expr(&Expr::int_lit(0)), "0");
    assert_eq!(format_expr(&Expr::int_lit(-42)), "-42");
    assert_eq!(format_expr(&Expr::int_lit(i64::MIN)), "-9223372036854775808");
    assert_eq!(format_expr(&Expr::int_lit(i64::MAX)), "9223372036854775807");
    assert_eq!(format_expr(&col_eq_int(3, -7)), "@3=-7");
    assert_eq!(format_expr(&Expr::col_ref(usize::MAX)), format!("@{}", usize::MAX));
}

#[test]
fn format_predicate_lists() {
    assert_eq!(format_predicates(&[]), "");
    assert_eq!(format_predicates(&[col_eq_col(0, 2)]), "@0=@2");
    assert_eq!(
        format_predicates(&[col_eq_col(0, 2), col_eq_int(1, 100), col_eq_int(3, 4)]),
        "@0=@2 && @1=100 && @3=4"
    );
}

#[test]
fn format_scan_line() {
    assert_eq!(format_scan("\"orders\"", &vec![10, 2, 33]), "scan(\"orders\", [10, 2, 33])");
    assert_eq!(format_scan("t", &vec![]), "scan(t, [])");
}

#[test]
fn sorted_ids_ascending() {
    assert_eq!(sorted_ids(&set(&[9, 1, 5, 0, 100])), vec![0, 1, 5, 9, 100]);
    assert_eq!(sorted_ids(&set(&[])), Vec::<usize>::new());
}
