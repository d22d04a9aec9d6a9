//! Row selection in the results table and the text copied from it.

use vstd::prelude::*;
use std::collections::HashSet;
use crate::text::{join, views, join_strings};

verus! {

broadcast use vstd::std_specs::hash::group_hash_axioms;

/// Selected result rows, by position on the page, and the row that anchors
/// a range selection.
pub struct RowSelection {
    selected: HashSet<usize>,
    anchor: Option<usize>,
}

/// Abstract selection.
pub struct SelectionModel {
    pub selected: Set<usize>,
    pub anchor: Option<usize>,
}

impl View for RowSelection {
    type V = SelectionModel;

    closed spec fn view(&self) -> SelectionModel {
        SelectionModel { selected: self.selected@, anchor: self.anchor }
    }
}

/// How a row was clicked: with the toggle key (Ctrl or Command) or with the
/// range key (Shift).
#[derive(Clone, Copy, Debug, PartialEq, Eq, Structural)]
pub struct ClickKeys {
    pub toggle: bool,
    pub extend: bool,
}

/// The rows from `lo` to `hi`, both included.
pub open spec fn row_span(lo: usize, hi: usize) -> Set<usize> {
    Set::new(|k: usize| lo <= k <= hi)
}

/// The selection after clicking row `i`: the toggle key flips that row and
/// makes it the anchor; the range key selects every row between the anchor
/// and `i`; a plain click selects that row alone and makes it the anchor.
pub open spec fn clicked(s: SelectionModel, i: usize, keys: ClickKeys) -> SelectionModel {
    if keys.toggle {
        SelectionModel {
            selected: if s.selected.contains(i) {
                s.selected.remove(i)
            } else {
                s.selected.insert(i)
            },
            anchor: Some(i),
        }
    } else if keys.extend && s.anchor is Some {
        let a = s.anchor->0;
        SelectionModel {
            selected: if a <= i {
                row_span(a, i)
            } else {
                row_span(i, a)
            },
            anchor: s.anchor,
        }
    } else {
        SelectionModel { selected: Set::empty().insert(i), anchor: Some(i) }
    }
}

fn span_set(lo: usize, hi: usize) -> (r: HashSet<usize>)
    requires
        lo <= hi,
    ensures
        r@ == row_span(lo, hi),
{
    let mut r: HashSet<usize> = HashSet::new();
    let mut k: usize = lo;
    while k < hi
        invariant
            lo <= k <= hi,
            r@ == Set::new(|x: usize| lo <= x < k),
        decreases hi - k,
    {
        r.insert(k);
        k += 1;
        assert(r@ =~= Set::new(|x: usize| lo <= x < k));
    }
    r.insert(hi);
    assert(r@ =~= row_span(lo, hi));
    r
}

impl RowSelection {
    /// Nothing selected and no anchor.
    pub fn new() -> (r: RowSelection)
        ensures
            r@.selected == Set::<usize>::empty(),
            r@.anchor is None,
    {
        RowSelection { selected: HashSet::new(), anchor: None }
    }

    /// Whether row `i` is selected.
    pub fn contains(&self, i: usize) -> (r: bool)
        ensures
            r == self@.selected.contains(i),
    {
        self.selected.contains(&i)
    }

    /// Number of selected rows.
    pub fn len(&self) -> (r: usize)
        ensures
            r == self@.selected.len(),
    {
        self.selected.len()
    }

    /// The anchor of a range selection.
    pub fn anchor(&self) -> (r: Option<usize>)
        ensures
            r == self@.anchor,
    {
        self.anchor
    }

    /// Drops the selection and the anchor, as a new result page does.
    pub fn clear(&mut self)
        ensures
            final(self)@.selected == Set::<usize>::empty(),
            final(self)@.anchor is None,
    {
        self.selected.clear();
        self.anchor = None;
    }

    /// Applies a click on row `i`.
    pub fn click(&mut self, i: usize, keys: ClickKeys)
        ensures
            final(self)@ == clicked(old(self)@, i, keys),
    {
        if keys.toggle {
            if !self.selected.insert(i) {
                self.selected.remove(&i);
            }
            self.anchor = Some(i);
            proof {
                let o = old(self)@.selected;
                if o.contains(i) {
                    assert(self.selected@ =~= o.remove(i));
                } else {
                    assert(self.selected@ =~= o.insert(i));
                }
            }
        } else if keys.extend && self.anchor.is_some() {
            let a = self.anchor.unwrap();
            if a <= i {
                self.selected = span_set(a, i);
            } else {
                self.selected = span_set(i, a);
            }
        } else {
            self.selected.clear();
            self.selected.insert(i);
            self.anchor = Some(i);
            assert(self.selected@ =~= Set::empty().insert(i));
        }
    }
}

/// Two toggle clicks on the same row restore the selected rows.
pub proof fn lemma_toggle_click_twice(s: SelectionModel, i: usize)
    ensures
        clicked(clicked(s, i, ClickKeys { toggle: true, extend: false }), i, ClickKeys {
            toggle: true,
            extend: false,
        }).selected == s.selected,
{
    let once = clicked(s, i, ClickKeys { toggle: true, extend: false });
    if s.selected.contains(i) {
        assert(once.selected.insert(i) =~= s.selected);
    } else {
        assert(once.selected.remove(i) =~= s.selected);
    }
}

/// A range click selects exactly the rows between the anchor and the
/// clicked row, whichever way round, and keeps the anchor.
pub proof fn lemma_range_click(s: SelectionModel, i: usize, k: usize)
    requires
        s.anchor is Some,
    ensures
        ({
            let a = s.anchor->0;
            let r = clicked(s, i, ClickKeys { toggle: false, extend: true });
            &&& r.anchor == s.anchor
            &&& r.selected.contains(k) <==> ((a <= k <= i) || (i <= k <= a))
        }),
{
}

/// The cells of a row under the visible columns, in column order; a row and
/// the visibility list are read up to the shorter of the two.
pub open spec fn visible_cells(row: Seq<Seq<char>>, vis: Seq<bool>, n: int) -> Seq<Seq<char>>
    decreases n,
{
    if n <= 0 {
        Seq::empty()
    } else {
        let rest = visible_cells(row, vis, n - 1);
        if vis[n - 1] {
            rest.push(row[n - 1])
        } else {
            rest
        }
    }
}

/// A row copied as text: its visible cells separated by tabs.
pub open spec fn row_line(row: Seq<Seq<char>>, vis: Seq<bool>) -> Seq<char> {
    let n = if row.len() < vis.len() {
        row.len() as int
    } else {
        vis.len() as int
    };
    join(visible_cells(row, vis, n), seq!['\t'])
}

/// The lines of the selected rows among the first `n`, in row order.
pub open spec fn selected_lines(
    rows: Seq<Seq<Seq<char>>>,
    vis: Seq<bool>,
    sel: Set<usize>,
    n: int,
) -> Seq<Seq<char>>
    decreases n,
{
    if n <= 0 {
        Seq::empty()
    } else {
        let rest = selected_lines(rows, vis, sel, n - 1);
        if sel.contains((n - 1) as usize) {
            rest.push(row_line(rows[n - 1], vis))
        } else {
            rest
        }
    }
}

/// The cell texts of a list of rows.
pub open spec fn rows_view(rows: Seq<Vec<String>>) -> Seq<Seq<Seq<char>>> {
    Seq::new(rows.len(), |i: int| views(rows[i]@))
}

fn row_text(row: &Vec<String>, visible: &Vec<bool>) -> (r: String)
    ensures
        r@ == row_line(views(row@), visible@),
{
    let n: usize = if row.len() < visible.len() {
        row.len()
    } else {
        visible.len()
    };
    let mut cells: Vec<String> = Vec::new();
    let mut k: usize = 0;
    while k < n
        invariant
            k <= n,
            n <= row@.len(),
            n <= visible@.len(),
            views(cells@) == visible_cells(views(row@), visible@, k as int),
        decreases n - k,
    {
        if visible[k] {
            let ghost before = cells@;
            cells.push(row[k].clone());
            assert(views(cells@) =~= views(before).push(row@[k as int]@));
        }
        k += 1;
    }
    let r = join_strings(&cells, "\t");
    proof {
        reveal_strlit("\t");
        assert("\t"@ =~= seq!['\t']);
    }
    r
}

/// The text copied from the selected rows: the visible cells of each
/// selected row joined by tabs, rows in ascending order joined by newlines.
/// Selected positions past the last row are skipped; with no line to copy
/// the result is `None`.
pub fn selected_rows_text(rows: &Vec<Vec<String>>, visible: &Vec<bool>, selection: &RowSelection) -> (r:
    Option<String>)
    ensures
        ({
            let lines = selected_lines(rows_view(rows@), visible@, selection@.selected, rows@.len() as int);
            match r {
                None => lines.len() == 0,
                Some(t) => lines.len() > 0 && t@ == join(lines, seq!['\n']),
            }
        }),
{
    let ghost rv = rows_view(rows@);
    let mut lines: Vec<String> = Vec::new();
    let mut i: usize = 0;
    while i < rows.len()
        invariant
            i <= rows@.len(),
            rv == rows_view(rows@),
            views(lines@) == selected_lines(rv, visible@, selection@.selected, i as int),
        decreases rows.len() - i,
    {
        if selection.contains(i) {
            let line = row_text(&rows[i], visible);
            let ghost before = lines@;
            lines.push(line);
            assert(views(lines@) =~= views(before).push(line@));
            assert(rv[i as int] == views(rows@[i as int]@));
        }
        i += 1;
    }
    if lines.len() == 0 {
        None
    } else {
        let t = join_strings(&lines, "\n");
        proof {
            reveal_strlit("\n");
            assert("\n"@ =~= seq!['\n']);
        }
        Some(t)
    }
}

/// One row copied on its own: every cell joined by tabs.
pub fn row_copy_text(row: &Vec<String>) -> (r: String)
    ensures
        r@ == join(views(row@), seq!['\t']),
{
    let r = join_strings(row, "\t");
    proof {
        reveal_strlit("\t");
        assert("\t"@ =~= seq!['\t']);
    }
    r
}

} // verus!
