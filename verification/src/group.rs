//! Grouping rows of text into a tree with one level for each column.
//!
//! A row is a path from the root: rows that share their first cells share
//! the nodes for them. Below a node, the groups come in the order in which
//! their keys first occur in the rows; the cells of the last column become
//! leaves, one for each row.

use vstd::prelude::*;
use crate::text::{contains_text, same_text};
use crate::tree::{indented, leaves, outline, tree_new, tree_push, tree_with_leaves, Entry};

verus! {

/// The texts without repetition, each one where it first occurs.
pub open spec fn distinct(items: Seq<Seq<char>>) -> Seq<Seq<char>>
    decreases items.len(),
{
    if items.len() == 0 {
        Seq::empty()
    } else {
        let before = distinct(items.drop_last());
        if before.contains(items.last()) {
            before
        } else {
            before.push(items.last())
        }
    }
}

/// The cells of one column, one for each row.
pub open spec fn column(rows: Seq<Seq<Seq<char>>>, col: int) -> Seq<Seq<char>> {
    rows.map_values(|row: Seq<Seq<char>>| row[col])
}

/// The test for a row to hold `head` in the column `col`.
pub open spec fn holds(col: int, head: Seq<char>) -> spec_fn(Seq<Seq<char>>) -> bool {
    |row: Seq<Seq<char>>| row[col] == head
}

/// The rows that hold `head` in the column `col`, in their order.
pub open spec fn under(rows: Seq<Seq<Seq<char>>>, col: int, head: Seq<char>) -> Seq<
    Seq<Seq<char>>,
> {
    rows.filter(holds(col, head))
}

/// Whether every row has `width` cells.
pub open spec fn rows_of_width(rows: Seq<Seq<Seq<char>>>, width: nat) -> bool {
    forall|i: int| 0 <= i < rows.len() ==> (#[trigger] rows[i]).len() == width
}

/// The outline of the tree titled `title` that groups the rows by the
/// columns from `col` on.
pub open spec fn grouped(rows: Seq<Seq<Seq<char>>>, col: nat, width: nat, title: Seq<char>) -> Seq<
    Entry,
>
    decreases width - col, 1nat, 0nat,
{
    if col + 1 >= width {
        seq![(0nat, title)] + leaves(column(rows, col as int))
    } else {
        seq![(0nat, title)] + branches(rows, col, width, distinct(column(rows, col as int)))
    }
}

/// The outlines, one after the other and one level down, of the groups of
/// rows under each of `heads` in the column `col`.
pub open spec fn branches(
    rows: Seq<Seq<Seq<char>>>,
    col: nat,
    width: nat,
    heads: Seq<Seq<char>>,
) -> Seq<Entry>
    decreases width - col, 0nat, heads.len(),
{
    if col + 1 >= width || heads.len() == 0 {
        Seq::empty()
    } else {
        branches(rows, col, width, heads.drop_last()) + indented(
            grouped(under(rows, col as int, heads.last()), col + 1, width, heads.last()),
        )
    }
}

/// The strings without repetition, each one where it first occurs.
pub fn distinct_texts(items: &Vec<String>) -> (r: Vec<String>)
    ensures
        r.deep_view() == distinct(items.deep_view()),
{
    let mut r: Vec<String> = Vec::new();
    let mut i: usize = 0;
    assert(items.deep_view().take(0) =~= Seq::empty());
    assert(r.deep_view() =~= Seq::empty());
    while i < items.len()
        invariant
            i <= items.len(),
            r.deep_view() == distinct(items.deep_view().take(i as int)),
        decreases items.len() - i,
    {
        let ghost before = r.deep_view();
        let ghost seen = items.deep_view().take(i as int);
        let ghost next = items.deep_view().take(i as int + 1);
        assert(next.drop_last() =~= seen);
        assert(next.last() == items[i as int]@);
        if !contains_text(&r, items[i].as_str()) {
            r.push(items[i].clone());
            assert(r.deep_view() =~= before.push(items[i as int]@));
        }
        i += 1;
    }
    assert(items.deep_view().take(items.len() as int) =~= items.deep_view());
    r
}

/// The cells of one column, one for each row.
pub fn column_texts(rows: &Vec<Vec<String>>, col: usize) -> (r: Vec<String>)
    requires
        forall|i: int| 0 <= i < rows.len() ==> col < (#[trigger] rows[i]).len(),
    ensures
        r.deep_view() == column(rows.deep_view(), col as int),
{
    let mut r: Vec<String> = Vec::new();
    let mut i: usize = 0;
    while i < rows.len()
        invariant
            i <= rows.len(),
            forall|i: int| 0 <= i < rows.len() ==> col < (#[trigger] rows[i]).len(),
            r.len() == i,
            forall|j: int| 0 <= j < i ==> (#[trigger] r[j])@ == rows[j][col as int]@,
        decreases rows.len() - i,
    {
        r.push(rows[i][col].clone());
        i += 1;
    }
    assert(r.deep_view() =~= column(rows.deep_view(), col as int));
    r
}

/// A copy of a row.
pub fn copy_row(row: &Vec<String>) -> (r: Vec<String>)
    ensures
        r.deep_view() == row.deep_view(),
{
    let mut r: Vec<String> = Vec::new();
    let mut i: usize = 0;
    while i < row.len()
        invariant
            i <= row.len(),
            r.len() == i,
            forall|j: int| 0 <= j < i ==> (#[trigger] r[j])@ == row[j]@,
        decreases row.len() - i,
    {
        r.push(row[i].clone());
        i += 1;
    }
    assert(r.deep_view() =~= row.deep_view());
    r
}

/// The rows that hold `head` in the column `col`, in their order.
pub fn rows_under(rows: &Vec<Vec<String>>, col: usize, head: &str) -> (r: Vec<Vec<String>>)
    requires
        forall|i: int| 0 <= i < rows.len() ==> col < (#[trigger] rows[i]).len(),
    ensures
        r.deep_view() == under(rows.deep_view(), col as int, head@),
{
    let ghost pred = holds(col as int, head@);
    let mut r: Vec<Vec<String>> = Vec::new();
    let mut i: usize = 0;
    proof {
        reveal(Seq::filter);
        assert(rows.deep_view().take(0) =~= Seq::empty());
        assert(r.deep_view() =~= Seq::empty());
    }
    while i < rows.len()
        invariant
            i <= rows.len(),
            forall|i: int| 0 <= i < rows.len() ==> col < (#[trigger] rows[i]).len(),
            pred == holds(col as int, head@),
            r.deep_view() == rows.deep_view().take(i as int).filter(pred),
        decreases rows.len() - i,
    {
        let ghost before = r.deep_view();
        let ghost seen = rows.deep_view().take(i as int);
        proof {
            seen.lemma_filter_push(rows.deep_view()[i as int], pred);
            assert(seen.push(rows.deep_view()[i as int]) =~= rows.deep_view().take(i as int + 1));
            assert(rows.deep_view()[i as int][col as int] == rows[i as int][col as int]@);
        }
        if same_text(rows[i][col].as_str(), head) {
            r.push(copy_row(&rows[i]));
            assert(r.deep_view() =~= before.push(rows.deep_view()[i as int]));
        }
        i += 1;
    }
    assert(rows.deep_view().take(rows.len() as int) =~= rows.deep_view());
    r
}

/// The tree titled `title` that groups the rows by the columns from `col`
/// on: one child for each distinct cell of the column `col`, where it first
/// occurs, and below it the rows that hold that cell, grouped by the next
/// column. The cells of the last column are leaves, one for each row.
pub fn group_rows(rows: &Vec<Vec<String>>, col: usize, width: usize, title: String) -> (tree:
    termtree::Tree<String>)
    requires
        col < width,
        rows_of_width(rows.deep_view(), width as nat),
    ensures
        outline(tree) == grouped(rows.deep_view(), col as nat, width as nat, title@),
    decreases width - col,
{
    assert forall|i: int| 0 <= i < rows.len() implies col < (#[trigger] rows[i]).len() by {
        assert(rows.deep_view()[i].len() == width);
    }
    let ghost root = seq![(0nat, title@)];
    let node = tree_new(title);
    if col + 1 >= width {
        let cells = column_texts(rows, col);
        let tree = tree_with_leaves(node, cells);
        assert(root.take(1) =~= root);
        tree
    } else {
        let mut node = node;
        let heads = distinct_texts(&column_texts(rows, col));
        let mut i: usize = 0;
        assert(heads.deep_view().take(0) =~= Seq::empty());
        assert(outline(node) =~= root + branches(
            rows.deep_view(),
            col as nat,
            width as nat,
            heads.deep_view().take(0),
        ));
        while i < heads.len()
            invariant
                i <= heads.len(),
                col + 1 < width,
                rows_of_width(rows.deep_view(), width as nat),
                forall|i: int| 0 <= i < rows.len() ==> col < (#[trigger] rows[i]).len(),
                outline(node) == root + branches(
                    rows.deep_view(),
                    col as nat,
                    width as nat,
                    heads.deep_view().take(i as int),
                ),
            decreases heads.len() - i,
        {
            let ghost done = heads.deep_view().take(i as int);
            let ghost next = heads.deep_view().take(i as int + 1);
            let below = rows_under(rows, col, heads[i].as_str());
            proof {
                assert(next.drop_last() =~= done);
                assert(next.last() == heads[i as int]@);
                lemma_under_keeps_width(rows.deep_view(), col as int, heads[i as int]@, width as nat);
            }
            let sub = group_rows(&below, col + 1, width, heads[i].clone());
            tree_push(&mut node, sub);
            assert(outline(node) =~= root + branches(
                rows.deep_view(),
                col as nat,
                width as nat,
                next,
            ));
            i += 1;
        }
        assert(heads.deep_view().take(heads.len() as int) =~= heads.deep_view());
        node
    }
}

/// The rows under a head are rows of the table, so they are as wide.
pub proof fn lemma_under_keeps_width(
    rows: Seq<Seq<Seq<char>>>,
    col: int,
    head: Seq<char>,
    width: nat,
)
    requires
        rows_of_width(rows, width),
    ensures
        rows_of_width(under(rows, col, head), width),
{
    let pred = holds(col, head);
    let picked = under(rows, col, head);
    assert forall|i: int| 0 <= i < picked.len() implies (#[trigger] picked[i]).len() == width by {
        assert(picked.contains(picked[i]));
        rows.lemma_filter_contains_rev(pred, picked[i]);
        let j = choose|j: int| 0 <= j < rows.len() && rows[j] == picked[i];
        assert(rows[j].len() == width);
    }
}

/// A text is among the distinct texts exactly when it is among the texts.
pub proof fn lemma_distinct_same_members(items: Seq<Seq<char>>, text: Seq<char>)
    ensures
        distinct(items).contains(text) <==> items.contains(text),
    decreases items.len(),
{
    if items.len() > 0 {
        let before = items.drop_last();
        lemma_distinct_same_members(before, text);
        lemma_distinct_same_members(before, items.last());
        assert(items =~= before.push(items.last()));
        if items.contains(text) {
            let i = choose|i: int| 0 <= i < items.len() && items[i] == text;
            if i < before.len() {
                assert(before[i] == text);
                assert(before.contains(text));
            }
        }
        if before.contains(text) {
            let i = choose|i: int| 0 <= i < before.len() && before[i] == text;
            assert(items[i] == text);
        }
        let d = distinct(before);
        if !d.contains(items.last()) {
            assert(d.push(items.last()).last() == items.last());
            if d.contains(text) {
                let i = choose|i: int| 0 <= i < d.len() && d[i] == text;
                assert(d.push(items.last())[i] == text);
            }
            if d.push(items.last()).contains(text) {
                let i = choose|i: int|
                    0 <= i < d.push(items.last()).len() && d.push(items.last())[i] == text;
                if i < d.len() {
                    assert(d[i] == text);
                }
            }
        }
        assert(items[items.len() - 1] == items.last());
    }
}

/// No text stands twice among the distinct texts.
pub proof fn lemma_distinct_no_duplicates(items: Seq<Seq<char>>)
    ensures
        distinct(items).no_duplicates(),
    decreases items.len(),
{
    if items.len() > 0 {
        lemma_distinct_no_duplicates(items.drop_last());
    }
}

/// The tree that groups rows starts with its title.
pub proof fn lemma_grouped_starts_with_title(
    rows: Seq<Seq<Seq<char>>>,
    col: nat,
    width: nat,
    title: Seq<char>,
)
    ensures
        grouped(rows, col, width, title).len() > 0,
        grouped(rows, col, width, title)[0] == (0nat, title),
{
}

} // verus!
