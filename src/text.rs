//! One-line descriptions of plan nodes and the indented text of a whole plan.
use crate::colset::{ascending, sorted_ids};
use crate::expr::Expr;
use crate::plan::{Plan, RelExpr};
use vstd::prelude::*;

verus! {

/// The character of the decimal digit `d`.
pub open spec fn digit(d: nat) -> char {
    seq!['0', '1', '2', '3', '4', '5', '6', '7', '8', '9'][d as int]
}

/// The decimal text of `n`, without leading zeros.
pub open spec fn dec_text(n: nat) -> Seq<char>
    decreases n,
{
    if n < 10 {
        seq![digit(n)]
    } else {
        dec_text(n / 10).push(digit(n % 10))
    }
}

/// The decimal text of `v`, with a leading `-` when it is negative.
pub open spec fn int_text(v: int) -> Seq<char> {
    if v < 0 {
        seq!['-'] + dec_text((-v) as nat)
    } else {
        dec_text(v as nat)
    }
}

/// The text of an expression: `@id` for a column, the decimal value for a
/// literal, `l=r` for an equality.
pub open spec fn expr_text(e: Expr) -> Seq<char>
    decreases e,
{
    match e {
        Expr::ColRef { id } => seq!['@'] + dec_text(id as nat),
        Expr::Int { val } => int_text(val as int),
        Expr::Eq { left, right } => expr_text(*left) + seq!['='] + expr_text(*right),
    }
}

/// The items one after another with `sep` between each two.
pub open spec fn joined(items: Seq<Seq<char>>, sep: Seq<char>) -> Seq<char>
    decreases items.len(),
{
    if items.len() == 0 {
        Seq::empty()
    } else if items.len() == 1 {
        items[0]
    } else {
        joined(items.drop_last(), sep) + sep + items.last()
    }
}

/// The separator between the predicates of a conjunction.
pub open spec fn and_sep() -> Seq<char> {
    seq![' ', '&', '&', ' ']
}

/// The separator between column identifiers.
pub open spec fn comma_sep() -> Seq<char> {
    seq![',', ' ']
}

/// The text of each expression of `ps`.
pub open spec fn expr_texts(ps: Seq<Expr>) -> Seq<Seq<char>> {
    ps.map_values(|e: Expr| expr_text(e))
}

/// The decimal text of each identifier of `ids`.
pub open spec fn dec_texts(ids: Seq<usize>) -> Seq<Seq<char>> {
    ids.map_values(|i: usize| dec_text(i as nat))
}

/// The text of a conjunction of predicates.
pub open spec fn preds_text(ps: Seq<Expr>) -> Seq<char> {
    joined(expr_texts(ps), and_sep())
}

/// The text of a list of column identifiers.
pub open spec fn ids_text(ids: Seq<usize>) -> Seq<char> {
    joined(dec_texts(ids), comma_sep())
}

proof fn joined_push(items: Seq<Seq<char>>, x: Seq<char>, sep: Seq<char>)
    ensures
        joined(items.push(x), sep) == if items.len() == 0 {
            x
        } else {
            joined(items, sep) + sep + x
        },
{
    assert(items.push(x).drop_last() =~= items);
}

/// Relies on `String::push_str`: appends the characters of `t`.
#[verifier::external_body]
fn push_str(s: &mut String, t: &str)
    ensures
        final(s)@ == old(s)@ + t@,
{
    s.push_str(t)
}

/// Relies on `String::push`: appends one character.
#[verifier::external_body]
fn push_char(s: &mut String, c: char)
    ensures
        final(s)@ == old(s)@.push(c),
{
    s.push(c)
}

fn digit_char(d: u64) -> (c: char)
    requires
        d < 10,
    ensures
        c == digit(d as nat),
{
    let digits: [char; 10] = ['0', '1', '2', '3', '4', '5', '6', '7', '8', '9'];
    assert(digits@ =~= seq!['0', '1', '2', '3', '4', '5', '6', '7', '8', '9']);
    digits[d as usize]
}

fn push_dec(out: &mut String, n: u64)
    ensures
        final(out)@ == old(out)@ + dec_text(n as nat),
    decreases n,
{
    if n >= 10 {
        push_dec(out, n / 10);
    }
    push_char(out, digit_char(n % 10));
    proof {
        if n >= 10 {
            assert(dec_text(n as nat) == dec_text((n / 10) as nat).push(digit((n % 10) as nat)));
        }
        assert(final(out)@ =~= old(out)@ + dec_text(n as nat));
    }
}

fn push_int(out: &mut String, v: i64)
    ensures
        final(out)@ == old(out)@ + int_text(v as int),
{
    if v < 0 {
        push_char(out, '-');
        let m: u64 = ((-(v + 1)) as u64) + 1;
        push_dec(out, m);
        assert(final(out)@ =~= old(out)@ + int_text(v as int));
    } else {
        push_dec(out, v as u64);
    }
}

fn push_expr(out: &mut String, e: &Expr)
    ensures
        final(out)@ == old(out)@ + expr_text(*e),
    decreases e,
{
    match e {
        Expr::ColRef { id } => {
            push_char(out, '@');
            push_dec(out, *id as u64);
        },
        Expr::Int { val } => push_int(out, *val),
        Expr::Eq { left, right } => {
            push_expr(out, left);
            push_char(out, '=');
            push_expr(out, right);
        },
    }
    assert(final(out)@ =~= old(out)@ + expr_text(*e));
}

/// The text of one expression.
pub fn format_expr(expr: &Expr) -> (r: String)
    ensures
        r@ == expr_text(*expr),
{
    let mut out = String::new();
    push_expr(&mut out, expr);
    assert(out@ =~= expr_text(*expr));
    out
}

fn push_preds(out: &mut String, predicates: &[Expr])
    ensures
        final(out)@ == old(out)@ + preds_text(predicates@),
{
    let ghost start = out@;
    let mut i: usize = 0;
    while i < predicates.len()
        invariant
            i <= predicates.len(),
            out@ == start + preds_text(predicates@.take(i as int)),
        decreases predicates.len() - i,
    {
        proof {
            let items = expr_texts(predicates@.take(i as int));
            let x = expr_text(predicates@[i as int]);
            assert(expr_texts(predicates@.take(i + 1)) =~= items.push(x));
            joined_push(items, x, and_sep());
            reveal_strlit(" && ");
        }
        if i > 0 {
            push_str(out, " && ");
        }
        push_expr(out, &predicates[i]);
        i = i + 1;
        assert(out@ =~= start + preds_text(predicates@.take(i as int)));
    }
    assert(predicates@.take(i as int) =~= predicates@);
}

/// The text of a conjunction: the predicates joined by ` && `.
pub fn format_predicates(predicates: &[Expr]) -> (r: String)
    ensures
        r@ == preds_text(predicates@),
{
    let mut out = String::new();
    push_preds(&mut out, predicates);
    assert(out@ =~= preds_text(predicates@));
    out
}

fn push_ids(out: &mut String, ids: &Vec<usize>)
    ensures
        final(out)@ == old(out)@ + ids_text(ids@),
{
    let ghost start = out@;
    let mut i: usize = 0;
    while i < ids.len()
        invariant
            i <= ids.len(),
            out@ == start + ids_text(ids@.take(i as int)),
        decreases ids.len() - i,
    {
        proof {
            let items = dec_texts(ids@.take(i as int));
            let x = dec_text(ids@[i as int] as nat);
            assert(dec_texts(ids@.take(i + 1)) =~= items.push(x));
            joined_push(items, x, comma_sep());
            reveal_strlit(", ");
        }
        if i > 0 {
            push_str(out, ", ");
        }
        push_dec(out, ids[i] as u64);
        i = i + 1;
        assert(out@ =~= start + ids_text(ids@.take(i as int)));
    }
    assert(ids@.take(i as int) =~= ids@);
}

/// What `{:?}` writes for a string: the text in double quotes, with
/// characters escaped as `str::escape_debug` does.
pub uninterp spec fn debug_text(s: Seq<char>) -> Seq<char>;

/// Relies on the `Debug` impl of `str`, through `format!("{:?}", ..)`: the
/// quoted and escaped form of `s`, a function of its characters alone.
#[verifier::external_body]
fn debug_quote(s: &str) -> (r: String)
    ensures
        r@ == debug_text(s@),
{
    format!("{:?}", s)
}

/// The line of a scan, given the quoted table name.
pub open spec fn scan_text(quoted: Seq<char>, cols: Seq<usize>) -> Seq<char> {
    "scan("@ + quoted + ", ["@ + ids_text(cols) + "])"@
}

/// The one-line description of the root node of `p`.
pub open spec fn line_text(p: Plan) -> Seq<char> {
    match p {
        Plan::Scan { table, columns } => scan_text(debug_text(table), columns),
        Plan::Select { preds, .. } => "select("@ + preds_text(preds) + ")"@,
        Plan::Join { preds, .. } => "join("@ + preds_text(preds) + ")"@,
        Plan::Project { cols, .. } => "project({"@ + ids_text(ascending(cols)) + "})"@,
    }
}

/// The text of `p` and its inputs, one node per line: each line is `indent`,
/// `-> ` and the node's description, and each input is indented two spaces
/// further than its parent.
pub open spec fn tree_text(p: Plan, indent: Seq<char>) -> Seq<char>
    decreases p,
{
    let head = indent + "-> "@ + line_text(p) + "\n"@;
    let deeper = indent + "  "@;
    match p {
        Plan::Scan { .. } => head,
        Plan::Select { src, .. } => head + tree_text(*src, deeper),
        Plan::Join { left, right, .. } => head + tree_text(*left, deeper) + tree_text(*right, deeper),
        Plan::Project { src, .. } => head + tree_text(*src, deeper),
    }
}

/// The line of a scan whose table name reads `quoted` once quoted.
pub fn format_scan(quoted: &str, column_names: &Vec<usize>) -> (r: String)
    ensures
        r@ == scan_text(quoted@, column_names@),
{
    let mut out = String::new();
    push_str(&mut out, "scan(");
    push_str(&mut out, quoted);
    push_str(&mut out, ", [");
    push_ids(&mut out, column_names);
    push_str(&mut out, "])");
    assert(out@ =~= scan_text(quoted@, column_names@));
    out
}

impl RelExpr {
    /// The one-line description of this plan's root node.
    pub fn format_plan(&self) -> (r: String)
        ensures
            r@ == line_text(self@),
    {
        let mut out = String::new();
        match self {
            RelExpr::Scan { table_name, column_names } => {
                let quoted = debug_quote(table_name.as_str());
                return format_scan(quoted.as_str(), column_names);
            },
            RelExpr::Select { predicates, .. } => {
                push_str(&mut out, "select(");
                push_preds(&mut out, predicates.as_slice());
                push_str(&mut out, ")");
            },
            RelExpr::Join { predicates, .. } => {
                push_str(&mut out, "join(");
                push_preds(&mut out, predicates.as_slice());
                push_str(&mut out, ")");
            },
            RelExpr::Project { cols, .. } => {
                push_str(&mut out, "project({");
                let ids = sorted_ids(cols);
                push_ids(&mut out, &ids);
                push_str(&mut out, "})");
            },
        }
        assert(out@ =~= line_text(self@));
        out
    }
}

fn push_tree(out: &mut String, plan: &RelExpr, indent: &String)
    ensures
        final(out)@ == old(out)@ + tree_text(plan@, indent@),
    decreases plan,
{
    push_str(out, indent.as_str());
    push_str(out, "-> ");
    let line = plan.format_plan();
    push_str(out, line.as_str());
    push_str(out, "\n");
    let mut deeper = indent.clone();
    push_str(&mut deeper, "  ");
    match plan {
        RelExpr::Scan { .. } => {},
        RelExpr::Select { src, .. } => push_tree(out, src, &deeper),
        RelExpr::Join { left, right, .. } => {
            push_tree(out, left, &deeper);
            push_tree(out, right, &deeper);
        },
        RelExpr::Project { src, .. } => push_tree(out, src, &deeper),
    }
    assert(final(out)@ =~= old(out)@ + tree_text(plan@, indent@));
}

/// The text of the whole plan, one node per line, each input indented two
/// spaces further than its parent.
pub fn render_plan(plan: &RelExpr) -> (r: String)
    ensures
        r@ == tree_text(plan@, Seq::empty()),
{
    let mut out = String::new();
    let indent = String::new();
    push_tree(&mut out, plan, &indent);
    assert(out@ =~= tree_text(plan@, Seq::empty()));
    out
}

} // verus!
