//! Presentation trees, built with `termtree`.

use vstd::prelude::*;

verus! {

/// `termtree::Tree`: a tree of nodes that prints itself with branches. Its
/// inside is not looked at here; what a tree holds is its `outline`.
#[verifier::external_type_specification]
#[verifier::external_body]
#[verifier::reject_recursive_types(D)]
pub struct ExTree<D: std::fmt::Display>(termtree::Tree<D>);

/// One line of a tree's outline: how deep the node sits and what it says.
pub type Entry = (nat, Seq<char>);

/// The outline of a tree: its nodes in the order in which they are printed,
/// the root first, each one with its depth below the root.
pub uninterp spec fn outline(tree: termtree::Tree<String>) -> Seq<(nat, Seq<char>)>;

/// An outline moved one level down, as it appears below a new parent.
pub open spec fn indented(lines: Seq<Entry>) -> Seq<Entry> {
    lines.map_values(|line: Entry| (line.0 + 1, line.1))
}

/// The outline of a row of leaves directly below a root.
pub open spec fn leaves(texts: Seq<Seq<char>>) -> Seq<Entry> {
    texts.map_values(|text: Seq<char>| (1nat, text))
}

/// The outlines of a list of trees.
pub open spec fn outlines(trees: Seq<termtree::Tree<String>>) -> Seq<Seq<Entry>> {
    trees.map_values(|tree: termtree::Tree<String>| outline(tree))
}

/// `termtree::Tree::new`: a tree of one node, the root, without leaves.
#[verifier::external_body]
pub(crate) fn tree_new(root: String) -> (tree: termtree::Tree<String>)
    ensures
        outline(tree) == seq![(0nat, root@)],
{
    termtree::Tree::new(root)
}

/// `termtree::Tree::push`: the leaf, with all that hangs below it, becomes
/// the last child of the root.
#[verifier::external_body]
pub(crate) fn tree_push(tree: &mut termtree::Tree<String>, leaf: termtree::Tree<String>)
    ensures
        outline(*final(tree)) == outline(*old(tree)) + indented(outline(leaf)),
{
    tree.push(leaf);
}

/// `termtree::Tree::with_leaves`: the root stays, and its children are
/// replaced by one leaf for each of the texts, in their order.
#[verifier::external_body]
pub(crate) fn tree_with_leaves(tree: termtree::Tree<String>, texts: Vec<String>) -> (r:
    termtree::Tree<String>)
    ensures
        outline(r) == outline(tree).take(1) + leaves(texts.deep_view()),
{
    tree.with_leaves(texts)
}

} // verus!
