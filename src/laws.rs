//! Laws that relate the constructors to one another and to attribute sets.
use crate::expr::Expr;
use crate::plan::{attrs, is_normal, Plan, RelExpr};
use crate::rewrite::{beside_projection, join_plan, project_plan, select_plan};
use std::collections::HashSet;
use vstd::prelude::*;

verus! {

/// Selecting from a plan in normal form keeps it in normal form, keeps its
/// attribute set, and gives a join exactly when the plan was a join.
pub proof fn select_keeps_normal_form(p: Plan, preds: Seq<Expr>)
    requires
        is_normal(p),
    ensures
        is_normal(select_plan(p, preds)),
        attrs(select_plan(p, preds)) == attrs(p),
        (select_plan(p, preds) is Join) == (p is Join),
    decreases p,
{
    match p {
        Plan::Project { src, cols } => {
            let x = select_plan(*src, preds);
            match *src {
                Plan::Join { left, right, preds: ps } => {
                    assert(x == Plan::Join { left, right, preds: ps + preds });
                    assert(project_plan(x, cols) == Plan::Project { src: Box::new(x), cols });
                },
                _ => {
                    select_keeps_normal_form(*src, preds);
                    assert(project_plan(x, cols) == Plan::Project { src: Box::new(x), cols });
                },
            }
        },
        Plan::Select { src, preds: ps } => {
            assert(select_plan(*src, ps + preds) == Plan::Select { src, preds: ps + preds });
        },
        _ => {},
    }
}

/// Projecting a plan in normal form gives a plan in normal form.
pub proof fn project_keeps_normal_form(p: Plan, cols: Set<usize>)
    requires
        is_normal(p),
    ensures
        is_normal(project_plan(p, cols)),
{
}

/// Joining plans in normal form gives a join in normal form that produces
/// the columns of both sides.
pub proof fn join_keeps_normal_form(l: Plan, r: Plan, preds: Seq<Expr>)
    requires
        is_normal(l),
        is_normal(r),
    ensures
        is_normal(join_plan(l, r, preds)),
        join_plan(l, r, preds) is Join,
        attrs(join_plan(l, r, preds)) == attrs(l).union(attrs(r)),
    decreases preds.len(),
{
    let i = crate::rewrite::first_bound(preds, attrs(l), 0);
    let j = crate::rewrite::first_bound(preds, attrs(r), 0);
    if i < preds.len() {
        select_keeps_normal_form(l, seq![preds[i as int]]);
        join_keeps_normal_form(select_plan(l, seq![preds[i as int]]), r, preds.remove(i as int));
    } else if j < preds.len() {
        select_keeps_normal_form(r, seq![preds[j as int]]);
        join_keeps_normal_form(l, select_plan(r, seq![preds[j as int]]), preds.remove(j as int));
    }
}

/// Attribute consistency of selection: filtering a plan (in the normal form
/// every constructor yields) produces the same columns as the plan itself.
pub proof fn select_attributes(p: Plan, preds: Seq<Expr>)
    requires
        is_normal(p),
    ensures
        attrs(select_plan(p, preds)) == attrs(p),
{
    select_keeps_normal_form(p, preds);
}

/// Attribute consistency of join: a join of plans in normal form produces
/// the union of the columns of its two sides.
pub proof fn join_attributes(l: Plan, r: Plan, preds: Seq<Expr>)
    requires
        is_normal(l),
        is_normal(r),
    ensures
        attrs(join_plan(l, r, preds)) == attrs(l).union(attrs(r)),
{
    join_keeps_normal_form(l, r, preds);
}

/// Attribute consistency of projection: projecting onto `cols` produces
/// `cols`, together with the columns of the join side left beside a pushed
/// projection; so exactly `cols` unless that side yields a column outside it.
pub proof fn project_attributes(p: Plan, cols: Set<usize>)
    ensures
        attrs(project_plan(p, cols)) == cols.union(beside_projection(p, cols)),
        attrs(project_plan(p, cols)) == cols <==> beside_projection(p, cols).subset_of(cols),
{
    match p {
        Plan::Join { left, right, .. } => {
            if cols.subset_of(attrs(*left)) {
                assert(attrs(Plan::Project { src: left, cols }) == cols);
            } else if cols.subset_of(attrs(*right)) {
                assert(attrs(Plan::Project { src: right, cols }) == cols);
                assert(cols.union(attrs(*left)) =~= attrs(*left).union(cols));
            }
        },
        _ => {},
    }
    assert(attrs(project_plan(p, cols)) =~= cols.union(beside_projection(p, cols)));
    if beside_projection(p, cols).subset_of(cols) {
        assert(cols.union(beside_projection(p, cols)) =~= cols);
    }
    if attrs(project_plan(p, cols)) == cols {
        assert(beside_projection(p, cols).subset_of(cols));
    }
}

/// A selection above a projection ends up the same whether it is applied
/// before or after the projection is built.
proof fn select_over_project(x: Plan, cols: Set<usize>, b: Seq<Expr>)
    ensures
        select_plan(project_plan(x, cols), b) == project_plan(select_plan(x, b), cols),
{
}

/// Select flattening: selecting by `a` and then by `b` builds the same plan
/// as selecting once by `a` followed by `b`; over a scan that plan is a
/// single selection node holding `a` followed by `b`.
pub proof fn select_twice(p: Plan, a: Seq<Expr>, b: Seq<Expr>)
    ensures
        select_plan(select_plan(p, a), b) == select_plan(p, a + b),
        p is Scan ==> select_plan(p, a + b) == (Plan::Select { src: Box::new(p), preds: a + b }),
    decreases p,
{
    match p {
        Plan::Select { src, preds: ps } => {
            select_twice(*src, ps + a, b);
            assert(ps + a + b =~= ps + (a + b));
        },
        Plan::Join { left, right, preds: ps } => {
            assert(ps + a + b =~= ps + (a + b));
        },
        Plan::Project { src, cols } => {
            select_over_project(select_plan(*src, a), cols, b);
            select_twice(*src, a, b);
        },
        Plan::Scan { .. } => {},
    }
}

/// Computing the attributes of one plan twice gives the same set both times.
pub proof fn attributes_repeatable(r: &RelExpr, first: &HashSet<usize>, second: &HashSet<usize>)
    requires
        first@ == attrs(r@),
        second@ == attrs(r@),
    ensures
        first@ == second@,
{
}

} // verus!
