//! The normalising constructors: `select`, `join` and `project` build a plan
//! and push the new operator as far towards the scans as the rules allow.
use crate::colset::is_subset;
use crate::expr::{bound_in, Expr};
use crate::laws::{join_keeps_normal_form, project_attributes, project_keeps_normal_form, select_keeps_normal_form};
use crate::plan::{attrs, is_normal, Plan, RelExpr};
use std::collections::HashSet;
use vstd::prelude::*;

verus! {

broadcast use vstd::std_specs::hash::group_hash_axioms;

/// The plan that projecting `p` onto `cols` builds: over a join whose one side
/// already produces every requested column, the projection goes onto that side
/// (left first); otherwise it wraps `p`.
pub open spec fn project_plan(p: Plan, cols: Set<usize>) -> Plan {
    match p {
        Plan::Join { left, right, preds } => {
            if cols.subset_of(attrs(*left)) {
                Plan::Join { left: Box::new(Plan::Project { src: left, cols }), right, preds }
            } else if cols.subset_of(attrs(*right)) {
                Plan::Join { left, right: Box::new(Plan::Project { src: right, cols }), preds }
            } else {
                Plan::Project { src: Box::new(p), cols }
            }
        },
        _ => Plan::Project { src: Box::new(p), cols },
    }
}

/// The columns of the join side that a projection onto `cols` is not pushed
/// onto; empty where the projection is not pushed into a join.
pub open spec fn beside_projection(p: Plan, cols: Set<usize>) -> Set<usize> {
    match p {
        Plan::Join { left, right, .. } => {
            if cols.subset_of(attrs(*left)) {
                attrs(*right)
            } else if cols.subset_of(attrs(*right)) {
                attrs(*left)
            } else {
                Set::empty()
            }
        },
        _ => Set::empty(),
    }
}

/// The plan that filtering `p` by the conjunction `preds` builds: a selection
/// is merged into the selection below it and retried on that one's input, is
/// absorbed into a join's predicates, and commutes below a projection.
pub open spec fn select_plan(p: Plan, preds: Seq<Expr>) -> Plan
    decreases p,
{
    match p {
        Plan::Select { src, preds: ps } => select_plan(*src, ps + preds),
        Plan::Join { left, right, preds: ps } => Plan::Join { left, right, preds: ps + preds },
        Plan::Project { src, cols } => project_plan(select_plan(*src, preds), cols),
        _ => Plan::Select { src: Box::new(p), preds },
    }
}

/// The first index from `start` on whose predicate is bound in `cols`, or the
/// length of `preds` if there is none.
pub open spec fn first_bound(preds: Seq<Expr>, cols: Set<usize>, start: nat) -> nat
    decreases preds.len() - start,
{
    if start >= preds.len() {
        preds.len()
    } else if bound_in(preds[start as int], cols) {
        start
    } else {
        first_bound(preds, cols, start + 1)
    }
}

/// The plan that joining `l` and `r` on the conjunction `preds` builds: the
/// first predicate bound by the left side alone becomes a selection on the
/// left; failing that, the first bound by the right side alone becomes one on
/// the right; this repeats until every remaining predicate needs both sides.
pub open spec fn join_plan(l: Plan, r: Plan, preds: Seq<Expr>) -> Plan
    decreases preds.len(),
{
    let i = first_bound(preds, attrs(l), 0);
    let j = first_bound(preds, attrs(r), 0);
    if i < preds.len() {
        join_plan(select_plan(l, seq![preds[i as int]]), r, preds.remove(i as int))
    } else if j < preds.len() {
        join_plan(l, select_plan(r, seq![preds[j as int]]), preds.remove(j as int))
    } else {
        Plan::Join { left: Box::new(l), right: Box::new(r), preds }
    }
}

/// The first index of `preds` whose predicate `rel` binds, or its length.
pub fn first_bound_index(preds: &Vec<Expr>, rel: &RelExpr) -> (i: usize)
    ensures
        i == first_bound(preds@, attrs(rel@), 0),
{
    let mut i: usize = 0;
    while i < preds.len()
        invariant
            i <= preds.len(),
            first_bound(preds@, attrs(rel@), 0) == first_bound(preds@, attrs(rel@), i as nat),
        decreases preds.len() - i,
    {
        if preds[i].bound_by(rel) {
            return i;
        }
        i = i + 1;
    }
    i
}

impl RelExpr {
    /// Filters this plan by the conjunction of `predicates`, pushed down as
    /// far as the rules allow.
    pub fn select(self, predicates: Vec<Expr>) -> (r: RelExpr)
        ensures
            r@ == select_plan(self@, predicates@),
            is_normal(self@) ==> is_normal(r@) && attrs(r@) == attrs(self@),
        decreases self,
    {
        proof {
            if is_normal(self@) {
                select_keeps_normal_form(self@, predicates@);
            }
        }
        let mut predicates = predicates;
        match self {
            RelExpr::Select { src, predicates: preds } => {
                let mut preds = preds;
                preds.append(&mut predicates);
                (*src).select(preds)
            },
            RelExpr::Join { left, right, predicates: preds } => {
                let mut preds = preds;
                preds.append(&mut predicates);
                RelExpr::Join { left, right, predicates: preds }
            },
            RelExpr::Project { src, cols } => (*src).select(predicates).project(cols),
            RelExpr::Scan { table_name, column_names } => RelExpr::Select {
                src: Box::new(RelExpr::Scan { table_name, column_names }),
                predicates,
            },
        }
    }

    /// Joins this plan with `other` on the conjunction of `predicates`,
    /// moving each predicate that one side binds alone onto that side.
    pub fn join(self, other: Self, predicates: Vec<Expr>) -> (r: RelExpr)
        ensures
            r@ == join_plan(self@, other@, predicates@),
            is_normal(self@) && is_normal(other@) ==> is_normal(r@) && attrs(r@) == attrs(
                self@,
            ).union(attrs(other@)),
        decreases predicates.len(),
    {
        proof {
            if is_normal(self@) && is_normal(other@) {
                join_keeps_normal_form(self@, other@, predicates@);
            }
        }
        let ghost preds = predicates@;
        let mut predicates = predicates;
        let i = first_bound_index(&predicates, &self);
        if i < predicates.len() {
            let p = predicates.remove(i);
            let single = vec![p];
            assert(single@ =~= seq![preds[i as int]]);
            return self.select(single).join(other, predicates);
        }
        let j = first_bound_index(&predicates, &other);
        if j < predicates.len() {
            let p = predicates.remove(j);
            let single = vec![p];
            assert(single@ =~= seq![preds[j as int]]);
            return self.join(other.select(single), predicates);
        }
        RelExpr::Join { left: Box::new(self), right: Box::new(other), predicates }
    }

    /// Projects this plan onto `cols`, onto one side of a join where that
    /// side produces every requested column.
    pub fn project(self, cols: HashSet<usize>) -> (r: RelExpr)
        ensures
            r@ == project_plan(self@, cols@),
            attrs(r@) == cols@.union(beside_projection(self@, cols@)),
            is_normal(self@) ==> is_normal(r@),
    {
        proof {
            project_attributes(self@, cols@);
            if is_normal(self@) {
                project_keeps_normal_form(self@, cols@);
            }
        }
        match self {
            RelExpr::Join { left, right, predicates } => {
                let la = left.att();
                if is_subset(&cols, &la) {
                    let pushed = RelExpr::Project { src: left, cols };
                    assert(pushed@ == (Plan::Project { src: Box::new(left@), cols: cols@ }));
                    return RelExpr::Join { left: Box::new(pushed), right, predicates };
                }
                let ra = right.att();
                if is_subset(&cols, &ra) {
                    let pushed = RelExpr::Project { src: right, cols };
                    assert(pushed@ == (Plan::Project { src: Box::new(right@), cols: cols@ }));
                    return RelExpr::Join { left, right: Box::new(pushed), predicates };
                }
                RelExpr::Project {
                    src: Box::new(RelExpr::Join { left, right, predicates }),
                    cols,
                }
            },
            other => RelExpr::Project { src: Box::new(other), cols },
        }
    }
}

} // verus!
