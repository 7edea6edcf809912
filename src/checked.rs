//! Constructors that validate their inputs before building: a predicate must
//! refer only to columns its input produces, and a projection must keep only
//! columns its input produces.
use crate::colset::is_subset;
use crate::expr::{bound_in, Expr};
use crate::plan::{attrs, RelExpr};
use crate::rewrite::{join_plan, project_plan, select_plan};
use std::collections::HashSet;
use vstd::prelude::*;

verus! {

broadcast use vstd::std_specs::hash::group_hash_axioms;

/// Why a plan could not be built.
#[derive(Debug, PartialEq, Eq, Structural)]
pub enum PlanError {
    /// A projection asked for a column that its input does not produce.
    InvalidProjection,
    /// A predicate referred to a column that its input does not produce.
    UnresolvedColumnReference,
}

/// Whether every predicate of `preds` is bound in `cols`.
pub open spec fn all_bound(preds: Seq<Expr>, cols: Set<usize>) -> bool {
    forall|i: int| 0 <= i < preds.len() ==> bound_in(#[trigger] preds[i], cols)
}

/// Whether every predicate of `preds` refers only to members of `cols`.
pub fn all_bound_in(preds: &Vec<Expr>, cols: &HashSet<usize>) -> (r: bool)
    ensures
        r == all_bound(preds@, cols@),
{
    let mut i: usize = 0;
    while i < preds.len()
        invariant
            i <= preds.len(),
            forall|j: int| 0 <= j < i ==> bound_in(#[trigger] preds@[j], cols@),
        decreases preds.len() - i,
    {
        let f = preds[i].free();
        if !is_subset(&f, cols) {
            return false;
        }
        i = i + 1;
    }
    true
}

impl RelExpr {
    /// `select`, once every predicate is known to refer only to columns
    /// this plan produces.
    pub fn checked_select(self, predicates: Vec<Expr>) -> (r: Result<RelExpr, PlanError>)
        ensures
            all_bound(predicates@, attrs(self@)) <==> r is Ok,
            r matches Ok(p) ==> p@ == select_plan(self@, predicates@),
            r matches Err(e) ==> e == PlanError::UnresolvedColumnReference,
    {
        let a = self.att();
        if !all_bound_in(&predicates, &a) {
            return Err(PlanError::UnresolvedColumnReference);
        }
        Ok(self.select(predicates))
    }

    /// `join`, once every predicate is known to refer only to columns that
    /// one of the two sides produces.
    pub fn checked_join(self, other: Self, predicates: Vec<Expr>) -> (r: Result<RelExpr, PlanError>)
        ensures
            all_bound(predicates@, attrs(self@).union(attrs(other@))) <==> r is Ok,
            r matches Ok(p) ==> p@ == join_plan(self@, other@, predicates@),
            r matches Err(e) ==> e == PlanError::UnresolvedColumnReference,
    {
        let mut a = self.att();
        let b = other.att();
        crate::colset::union_into(&mut a, &b);
        if !all_bound_in(&predicates, &a) {
            return Err(PlanError::UnresolvedColumnReference);
        }
        Ok(self.join(other, predicates))
    }

    /// `project`, once every requested column is known to be produced by
    /// this plan.
    pub fn checked_project(self, cols: HashSet<usize>) -> (r: Result<RelExpr, PlanError>)
        ensures
            cols@.subset_of(attrs(self@)) <==> r is Ok,
            r matches Ok(p) ==> p@ == project_plan(self@, cols@),
            r matches Err(e) ==> e == PlanError::InvalidProjection,
    {
        let a = self.att();
        if !is_subset(&cols, &a) {
            return Err(PlanError::InvalidProjection);
        }
        Ok(self.project(cols))
    }
}

} // verus!
