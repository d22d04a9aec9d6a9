//! Editing the advanced query from its chips, and the chips of the simple
//! filters.

use vstd::prelude::*;
use crate::text::{blank, trim, is_blank, trim_str, views};
use crate::search::{
    QueryExpr, QueryGroup, QueryCondition, LogicOp, ExprModel, GroupModel, exprs_model,
    lemma_group_view,
};
use crate::db_types::Filters;
use crate::stored_queries::QueryLabels;

verus! {

// ---------- negation ----------

/// The expression with its negation flipped.
pub open spec fn toggled(e: ExprModel) -> ExprModel {
    match e {
        ExprModel::Group(g) => ExprModel::Group(GroupModel { negated: !g.negated, ..g }),
        ExprModel::Condition(c) => ExprModel::Condition(
            crate::search::ConditionModel { negated: !c.negated, ..c },
        ),
    }
}

fn toggle_owned(expr: QueryExpr) -> (r: QueryExpr)
    ensures
        r@ == toggled(expr@),
{
    match expr {
        QueryExpr::Group(g) => {
            let g2 = QueryGroup { op: g.op, negated: !g.negated, children: g.children };
            proof {
                lemma_group_view(g);
                lemma_group_view(g2);
            }
            QueryExpr::Group(g2)
        },
        QueryExpr::Condition(c) => QueryExpr::Condition(
            QueryCondition { field: c.field, op: c.op, value: c.value, negated: !c.negated },
        ),
    }
}

/// Flips the negation of an expression.
pub fn toggle_expr_not(expr: &mut QueryExpr)
    ensures
        final(expr)@ == toggled(old(expr)@),
{
    let mut taken = QueryExpr::Group(QueryGroup::default());
    std::mem::swap(&mut taken, expr);
    *expr = toggle_owned(taken);
}

/// Flipping the negation twice gives the expression back.
pub proof fn lemma_toggle_twice(e: ExprModel)
    ensures
        toggled(toggled(e)) == e,
{
}

// ---------- the root group ----------

/// The advanced query with a group at its root: a group is kept, another
/// expression becomes the only child of an `And` group, and no expression
/// becomes an empty `And` group.
pub open spec fn with_root(q: Option<ExprModel>) -> GroupModel {
    match q {
        Some(ExprModel::Group(g)) => g,
        Some(e) => GroupModel { op: LogicOp::And, negated: false, children: seq![e] },
        None => GroupModel { op: LogicOp::And, negated: false, children: Seq::empty() },
    }
}

pub open spec fn opt_expr(q: Option<QueryExpr>) -> Option<ExprModel> {
    match q {
        Some(e) => Some(e@),
        None => None,
    }
}

fn root_group(query: Option<QueryExpr>) -> (r: QueryGroup)
    ensures
        r@ == with_root(opt_expr(query)),
{
    match query {
        Some(QueryExpr::Group(group)) => {
            proof {
                lemma_group_view(group);
            }
            group
        },
        Some(expr) => {
            let ghost m = expr@;
            let g = QueryGroup { op: LogicOp::And, negated: false, children: vec![expr] };
            assert(g@.children =~= seq![m]);
            g
        },
        None => {
            let g = QueryGroup::default();
            assert(g@.children =~= Seq::<ExprModel>::empty());
            g
        },
    }
}

/// Makes the advanced query a group (see `with_root`).
pub fn ensure_advanced_root(query: &mut Option<QueryExpr>)
    ensures
        *final(query) matches Some(QueryExpr::Group(g)) && g@ == with_root(opt_expr(*old(query))),
{
    let mut taken: Option<QueryExpr> = None;
    std::mem::swap(&mut taken, query);
    let group = root_group(taken);
    *query = Some(QueryExpr::Group(group));
}

/// Making the root a group twice is making it once.
pub proof fn lemma_root_group_stable(q: Option<ExprModel>)
    ensures
        with_root(Some(ExprModel::Group(with_root(q)))) == with_root(q),
{
}

/// Adds a rule at the end of the root group.
pub fn add_advanced_condition(query: &mut Option<QueryExpr>, condition: QueryCondition)
    ensures
        *final(query) matches Some(QueryExpr::Group(g)) && g@ == ({
            let root = with_root(opt_expr(*old(query)));
            GroupModel {
                children: root.children.push(ExprModel::Condition(condition@)),
                ..root
            }
        }),
{
    let mut taken: Option<QueryExpr> = None;
    std::mem::swap(&mut taken, query);
    let mut group = root_group(taken);
    let ghost before = group@;
    let ghost c = condition@;
    group.children.push(QueryExpr::Condition(condition));
    assert(group@.children =~= before.children.push(ExprModel::Condition(c)));
    *query = Some(QueryExpr::Group(group));
}

// ---------- chip actions ----------

/// What a chip of the advanced query asks for, by child position.
#[derive(Clone, Copy, Debug, PartialEq, Eq, Structural)]
pub enum AdvancedChipAction {
    Duplicate(usize),
    ToggleNot(usize),
    Remove(usize),
}

/// The children of the root group after a chip action; positions past the
/// end change nothing.
pub open spec fn chip_applied(cs: Seq<ExprModel>, action: AdvancedChipAction) -> Seq<ExprModel> {
    match action {
        AdvancedChipAction::Duplicate(i) => if i < cs.len() {
            cs.insert(i + 1, cs[i as int])
        } else {
            cs
        },
        AdvancedChipAction::ToggleNot(i) => if i < cs.len() {
            cs.update(i as int, toggled(cs[i as int]))
        } else {
            cs
        },
        AdvancedChipAction::Remove(i) => if i < cs.len() {
            cs.remove(i as int)
        } else {
            cs
        },
    }
}

/// Applies a chip action to the root group of the advanced query.
pub fn apply_advanced_chip_action(query: &mut Option<QueryExpr>, action: AdvancedChipAction)
    ensures
        *final(query) matches Some(QueryExpr::Group(g)) && g@ == ({
            let root = with_root(opt_expr(*old(query)));
            GroupModel { children: chip_applied(root.children, action), ..root }
        }),
{
    let mut taken: Option<QueryExpr> = None;
    std::mem::swap(&mut taken, query);
    let mut group = root_group(taken);
    let ghost before = group@;
    let ghost cs = exprs_model(group.children@);
    match action {
        AdvancedChipAction::Duplicate(index) => {
            if index < group.children.len() {
                let copy = group.children[index].clone();
                group.children.insert(index + 1, copy);
                assert(exprs_model(group.children@) =~= cs.insert(
                    index + 1,
                    cs[index as int],
                ));
            }
        },
        AdvancedChipAction::ToggleNot(index) => {
            if index < group.children.len() {
                let copy = group.children[index].clone();
                let flipped = toggle_owned(copy);
                group.children.set(index, flipped);
                assert(exprs_model(group.children@) =~= cs.update(
                    index as int,
                    toggled(cs[index as int]),
                ));
            }
        },
        AdvancedChipAction::Remove(index) => {
            if index < group.children.len() {
                group.children.remove(index);
                assert(exprs_model(group.children@) =~= cs.remove(index as int));
            }
        },
    }
    *query = Some(QueryExpr::Group(group));
}

/// Flipping the same chip twice leaves the advanced query as the first flip
/// found it with a group at its root.
pub proof fn lemma_toggle_chip_twice(cs: Seq<ExprModel>, i: usize)
    ensures
        chip_applied(
            chip_applied(cs, AdvancedChipAction::ToggleNot(i)),
            AdvancedChipAction::ToggleNot(i),
        ) == cs,
{
    if i < cs.len() {
        assert(cs.update(i as int, toggled(cs[i as int])).update(
            i as int,
            toggled(toggled(cs[i as int])),
        ) =~= cs);
    }
}

// ---------- chips of the simple filters ----------

/// The order in which filter chips are shown, by position in the view of
/// `Filters`: year, product code, EDRPOU, trademark, sender, recipient,
/// description, then trade, dispatch and origin country.
pub open spec fn chip_slots() -> Seq<int> {
    seq![0, 1, 6, 2, 4, 5, 3, 7, 8, 9]
}

/// The chips of the first `k` slots in chip order: label, trimmed value and
/// slot, for each filter that is set.
pub open spec fn chips_upto(f: Seq<Seq<char>>, labels: Seq<Seq<char>>, k: nat) -> Seq<
    (Seq<char>, Seq<char>, int),
>
    decreases k,
{
    if k == 0 {
        Seq::empty()
    } else {
        let p = chips_upto(f, labels, (k - 1) as nat);
        let slot = chip_slots()[k - 1];
        if blank(f[slot]) {
            p
        } else {
            p.push((labels[slot], trim(f[slot]), slot))
        }
    }
}

pub open spec fn chips_view(v: Seq<(String, String, usize)>) -> Seq<(Seq<char>, Seq<char>, int)> {
    v.map_values(|c: (String, String, usize)| (c.0@, c.1@, c.2 as int))
}

fn push_filter_chip(
    chips: &mut Vec<(String, String, usize)>,
    label: &String,
    value: &str,
    slot: usize,
)
    ensures
        chips_view(final(chips)@) == if blank(value@) {
            chips_view(old(chips)@)
        } else {
            chips_view(old(chips)@).push((label@, trim(value@), slot as int))
        },
{
    if !is_blank(value) {
        let ghost before = chips_view(chips@);
        chips.push((label.clone(), trim_str(value), slot));
        assert(chips_view(chips@) =~= before.push((label@, trim(value@), slot as int)));
    }
}

/// The chips of the simple filters that are set, in chip order; a chip's
/// slot is the filter that `clear_filter` clears for it.
pub fn flat_filter_chips(filters: &Filters, t: &QueryLabels) -> (r: Vec<(String, String, usize)>)
    ensures
        chips_view(r@) == chips_upto(filters@, t@.fields, 10),
{
    let slots: [usize; 10] = [0, 1, 6, 2, 4, 5, 3, 7, 8, 9];
    let mut chips: Vec<(String, String, usize)> = Vec::new();
    let mut k: usize = 0;
    assert(chips_view(chips@) =~= Seq::empty());
    while k < 10
        invariant
            k <= 10,
            slots@ == seq![0usize, 1, 6, 2, 4, 5, 3, 7, 8, 9],
            chips_view(chips@) == chips_upto(filters@, t@.fields, k as nat),
        decreases 10 - k,
    {
        let slot = slots[k];
        assert(slot as int == chip_slots()[k as int]);
        push_filter_chip(&mut chips, t.field_label(slot), filters.get(slot).as_str(), slot);
        k += 1;
    }
    chips
}

/// Clears one filter, by its position in the view of `Filters`.
pub fn clear_filter(filters: &mut Filters, slot: usize)
    requires
        slot < 10,
    ensures
        final(filters)@ == old(filters)@.update(slot as int, Seq::empty()),
{
    match slot {
        0 => filters.year = String::new(),
        1 => filters.product_code = String::new(),
        2 => filters.trademark = String::new(),
        3 => filters.description = String::new(),
        4 => filters.sender = String::new(),
        5 => filters.recipient = String::new(),
        6 => filters.edrpou = String::new(),
        7 => filters.trade_country = String::new(),
        8 => filters.dispatch_country = String::new(),
        _ => filters.origin_country = String::new(),
    }
    assert(final(filters)@ =~= old(filters)@.update(slot as int, Seq::empty()));
}

} // verus!
