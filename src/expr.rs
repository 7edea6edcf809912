//! Scalar predicates: column references, integer literals and equalities.
use crate::colset::{is_subset, union_into};
use crate::plan::{attrs, RelExpr};
use std::collections::HashSet;
use vstd::prelude::*;

verus! {

broadcast use vstd::std_specs::hash::group_hash_axioms;

/// A scalar expression over the output columns of a plan.
pub enum Expr {
    ColRef { id: usize },
    Int { val: i64 },
    Eq { left: Box<Expr>, right: Box<Expr> },
}

/// The columns that `e` refers to.
pub open spec fn free_cols(e: Expr) -> Set<usize>
    decreases e,
{
    match e {
        Expr::ColRef { id } => set![id],
        Expr::Int { .. } => Set::empty(),
        Expr::Eq { left, right } => free_cols(*left).union(free_cols(*right)),
    }
}

/// Whether every column that `e` refers to is among `cols`.
pub open spec fn bound_in(e: Expr, cols: Set<usize>) -> bool {
    free_cols(e).subset_of(cols)
}

impl Expr {
    /// A reference to column `id`.
    pub fn col_ref(id: usize) -> (r: Self)
        ensures
            r == (Expr::ColRef { id }),
    {
        Expr::ColRef { id }
    }

    /// The integer literal `val`.
    pub fn int_lit(val: i64) -> (r: Self)
        ensures
            r == (Expr::Int { val }),
    {
        Expr::Int { val }
    }

    /// The equality of `self` and `other`.
    pub fn eq(self, other: Self) -> (r: Self)
        ensures
            r == (Expr::Eq { left: Box::new(self), right: Box::new(other) }),
    {
        Expr::Eq { left: Box::new(self), right: Box::new(other) }
    }

    /// The set of columns this expression refers to.
    pub fn free(&self) -> (r: HashSet<usize>)
        ensures
            r@ == free_cols(*self),
        decreases self,
    {
        match self {
            Expr::ColRef { id } => {
                let mut set: HashSet<usize> = HashSet::new();
                set.insert(*id);
                proof {
                    assert(set@ =~= set![*id]);
                }
                set
            },
            Expr::Int { .. } => {
                let set: HashSet<usize> = HashSet::new();
                proof {
                    assert(set@ =~= Set::<usize>::empty());
                }
                set
            },
            Expr::Eq { left, right } => {
                let mut set = left.free();
                let other = right.free();
                union_into(&mut set, &other);
                set
            },
        }
    }

    /// Whether the plan `rel` produces every column this expression refers to.
    pub fn bound_by(&self, rel: &RelExpr) -> (r: bool)
        ensures
            r == bound_in(*self, attrs(rel@)),
    {
        let f = self.free();
        let a = rel.att();
        is_subset(&f, &a)
    }
}

} // verus!
