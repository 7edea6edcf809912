//! Relational plans, their mathematical model and their attribute sets.
use crate::colset::{copy_set, set_of_vec, union_into};
use crate::expr::Expr;
use std::collections::HashSet;
use vstd::prelude::*;

verus! {

broadcast use vstd::std_specs::hash::group_hash_axioms;

/// A relational plan; each node owns its children.
pub enum RelExpr {
    Scan { table_name: String, column_names: Vec<usize> },
    Select { src: Box<RelExpr>, predicates: Vec<Expr> },
    Join { left: Box<RelExpr>, right: Box<RelExpr>, predicates: Vec<Expr> },
    Project { src: Box<RelExpr>, cols: HashSet<usize> },
}

/// The mathematical model of a plan: the same tree over sequences and sets.
pub enum Plan {
    Scan { table: Seq<char>, columns: Seq<usize> },
    Select { src: Box<Plan>, preds: Seq<Expr> },
    Join { left: Box<Plan>, right: Box<Plan>, preds: Seq<Expr> },
    Project { src: Box<Plan>, cols: Set<usize> },
}

/// The model of `r`.
pub open spec fn plan_of(r: RelExpr) -> Plan
    decreases r,
{
    match r {
        RelExpr::Scan { table_name, column_names } => Plan::Scan {
            table: table_name@,
            columns: column_names@,
        },
        RelExpr::Select { src, predicates } => Plan::Select {
            src: Box::new(plan_of(*src)),
            preds: predicates@,
        },
        RelExpr::Join { left, right, predicates } => Plan::Join {
            left: Box::new(plan_of(*left)),
            right: Box::new(plan_of(*right)),
            preds: predicates@,
        },
        RelExpr::Project { src, cols } => Plan::Project { src: Box::new(plan_of(*src)), cols: cols@ },
    }
}

impl View for RelExpr {
    type V = Plan;

    open spec fn view(&self) -> Plan {
        plan_of(*self)
    }
}

/// The output columns of `p`.
pub open spec fn attrs(p: Plan) -> Set<usize>
    decreases p,
{
    match p {
        Plan::Scan { columns, .. } => columns.to_set(),
        Plan::Select { src, .. } => attrs(*src),
        Plan::Join { left, right, .. } => attrs(*left).union(attrs(*right)),
        Plan::Project { cols, .. } => cols,
    }
}

/// Whether `p` has the shape the constructors give every plan they build:
/// a selection sits directly on a scan, and a projection sits on a join only
/// where neither side of the join produces every projected column.
pub open spec fn is_normal(p: Plan) -> bool
    decreases p,
{
    match p {
        Plan::Scan { .. } => true,
        Plan::Select { src, .. } => *src is Scan,
        Plan::Join { .. } => true,
        Plan::Project { src, cols } => match *src {
            Plan::Join { left, right, .. } => !cols.subset_of(attrs(*left)) && !cols.subset_of(
                attrs(*right),
            ),
            _ => is_normal(*src),
        },
    }
}

impl RelExpr {
    /// A scan of `table_name` producing `column_names`.
    pub fn scan(table_name: String, column_names: Vec<usize>) -> (r: Self)
        ensures
            r@ == (Plan::Scan { table: table_name@, columns: column_names@ }),
            is_normal(r@),
    {
        RelExpr::Scan { table_name, column_names }
    }

    /// The set of columns this plan produces.
    pub fn att(&self) -> (r: HashSet<usize>)
        ensures
            r@ == attrs(self@),
        decreases self,
    {
        match self {
            RelExpr::Scan { column_names, .. } => set_of_vec(column_names),
            RelExpr::Select { src, .. } => src.att(),
            RelExpr::Join { left, right, .. } => {
                let mut set = left.att();
                let other = right.att();
                union_into(&mut set, &other);
                set
            },
            RelExpr::Project { cols, .. } => copy_set(cols),
        }
    }
}

} // verus!
