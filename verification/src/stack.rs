//! CloudFormation stacks and their resources, and the trees that show them.

use vstd::prelude::*;
use vstd::string::*;
use crate::show::{find_tag, label, tag_value, Show, Tag};
use crate::status::StackStatus;
use crate::text::{
    as_opt_str, contains_text, opt_str_text, opt_text, pad_right, padded, str_or_empty,
    text_or_empty,
};
use crate::tree::{leaves, outline, outlines, tree_new, tree_push, Entry};

verus! {

/// The name of an optional status.
pub open spec fn status_name(status: Option<StackStatus>) -> Option<Seq<char>> {
    match status {
        Some(s) => Some(s.name()),
        None => None,
    }
}

/// A title: the name, followed in brackets by the status where there is one.
pub open spec fn titled(name: Seq<char>, status: Option<Seq<char>>) -> Seq<char> {
    match status {
        Some(s) => name + " ("@ + s + ")"@,
        None => name,
    }
}

/// A title: the name, followed in brackets by the status where there is one.
pub fn make_title(name: &str, status: Option<&str>) -> (r: String)
    ensures
        r@ == titled(name@, opt_str_text(status)),
{
    let mut r = name.to_owned();
    match status {
        Some(s) => {
            r.append(" (");
            r.append(s);
            r.append(")");
        },
        None => {},
    }
    r
}

/// What has a title in a tree of stacks.
pub trait Title {
    /// The title: the name and, in brackets, the status.
    spec fn titled(&self) -> Seq<char>;

    /// The title: the name and, in brackets, the status.
    fn title(&self) -> (r: String)
        ensures
            r@ == self.titled(),
    ;
}

/// A stack as a listing of stacks gives it.
#[derive(Debug, PartialEq, Eq)]
pub struct StackSummary {
    pub stack_id: Option<String>,
    pub stack_name: Option<String>,
    pub stack_status: Option<StackStatus>,
}

impl StackSummary {
    /// A copy of the stack.
    pub fn duplicate(&self) -> (copy: StackSummary)
        ensures
            copy == *self,
    {
        StackSummary {
            stack_id: match &self.stack_id {
                Some(id) => Some(id.clone()),
                None => None,
            },
            stack_name: match &self.stack_name {
                Some(name) => Some(name.clone()),
                None => None,
            },
            stack_status: match &self.stack_status {
                Some(status) => Some(status.duplicate()),
                None => None,
            },
        }
    }
}

impl Title for StackSummary {
    open spec fn titled(&self) -> Seq<char> {
        titled(text_or_empty(self.stack_name), status_name(self.stack_status))
    }

    fn title(&self) -> (r: String) {
        let status = match &self.stack_status {
            Some(s) => Some(s.as_str()),
            None => None,
        };
        make_title(str_or_empty(&self.stack_name), status)
    }
}

/// A stack as its own description gives it.
#[derive(Debug, PartialEq, Eq)]
pub struct Stack {
    pub stack_id: Option<String>,
    pub stack_name: Option<String>,
    pub stack_status: Option<StackStatus>,
    pub tags: Vec<Tag>,
}

impl Title for Stack {
    open spec fn titled(&self) -> Seq<char> {
        titled(text_or_empty(self.stack_name), status_name(self.stack_status))
    }

    fn title(&self) -> (r: String) {
        let status = match &self.stack_status {
            Some(s) => Some(s.as_str()),
            None => None,
        };
        make_title(str_or_empty(&self.stack_name), status)
    }
}

impl Show for Stack {
    open spec fn shown_id(&self) -> Seq<char> {
        text_or_empty(self.stack_id)
    }

    open spec fn shown_tag(&self, key: Seq<char>) -> Option<Seq<char>> {
        tag_value(self.tags@, key)
    }

    open spec fn shown_name(&self) -> Option<Seq<char>> {
        opt_text(self.stack_name)
    }

    fn id(&self) -> (r: String) {
        str_or_empty(&self.stack_id).to_owned()
    }

    fn tag(&self, key: &str) -> (r: Option<&str>) {
        find_tag(&self.tags, key)
    }

    fn description(&self) -> (r: Option<&str>) {
        None
    }

    fn name(&self) -> (r: Option<&str>) {
        as_opt_str(&self.stack_name)
    }

    fn id_and_name(&self) -> (r: String) {
        label(self.id(), self.name(), self.description())
    }
}

/// A resource of a stack as the description of the stack's resources gives it.
#[derive(Debug, PartialEq, Eq)]
pub struct StackResource {
    pub logical_resource_id: Option<String>,
    pub physical_resource_id: Option<String>,
    pub resource_type: Option<String>,
    pub resource_status: Option<String>,
}

/// The text of an optional string, or `default` where there is none.
pub open spec fn text_or(value: Option<String>, default: Seq<char>) -> Seq<char> {
    match value {
        Some(s) => s@,
        None => default,
    }
}

/// The text of an optional string, or `default` where there is none.
pub fn str_or<'a>(value: &'a Option<String>, default: &'a str) -> (r: &'a str)
    ensures
        r@ == text_or(*value, default@),
{
    match value {
        Some(s) => s.as_str(),
        None => default,
    }
}

/// The label of a resource of a stack: its physical identifier, its logical
/// identifier in round brackets and its status in square brackets.
pub open spec fn resource_label(
    physical: Option<String>,
    logical: Option<String>,
    status: Option<String>,
) -> Seq<char> {
    text_or_empty(physical) + " ("@ + text_or(logical, "unnamed resource"@) + ") ["@ + text_or(
        status,
        "no status"@,
    ) + "]"@
}

/// The label of a resource of a stack: its physical identifier, its logical
/// identifier in round brackets and its status in square brackets.
pub fn make_resource_label(
    physical: &Option<String>,
    logical: &Option<String>,
    status: &Option<String>,
) -> (r: String)
    ensures
        r@ == resource_label(*physical, *logical, *status),
{
    let mut r = str_or_empty(physical).to_owned();
    r.append(" (");
    r.append(str_or(logical, "unnamed resource"));
    r.append(") [");
    r.append(str_or(status, "no status"));
    r.append("]");
    r
}

impl Title for StackResource {
    open spec fn titled(&self) -> Seq<char> {
        titled(text_or_empty(self.logical_resource_id), opt_text(self.resource_status))
    }

    fn title(&self) -> (r: String) {
        make_title(str_or_empty(&self.logical_resource_id), as_opt_str(&self.resource_status))
    }
}

impl Show for StackResource {
    open spec fn shown_id(&self) -> Seq<char> {
        text_or_empty(self.physical_resource_id)
    }

    open spec fn shown_tag(&self, key: Seq<char>) -> Option<Seq<char>> {
        None
    }

    open spec fn shown_name(&self) -> Option<Seq<char>> {
        opt_text(self.logical_resource_id)
    }

    open spec fn shown(&self) -> Seq<char> {
        resource_label(self.physical_resource_id, self.logical_resource_id, self.resource_status)
    }

    fn id(&self) -> (r: String) {
        str_or_empty(&self.physical_resource_id).to_owned()
    }

    fn tag(&self, key: &str) -> (r: Option<&str>) {
        None
    }

    fn description(&self) -> (r: Option<&str>) {
        None
    }

    fn name(&self) -> (r: Option<&str>) {
        as_opt_str(&self.logical_resource_id)
    }

    fn id_and_name(&self) -> (r: String) {
        make_resource_label(
            &self.physical_resource_id,
            &self.logical_resource_id,
            &self.resource_status,
        )
    }
}

/// A resource of a stack as a listing of the stack's resources gives it.
#[derive(Debug, PartialEq, Eq)]
pub struct StackResourceSummary {
    pub logical_resource_id: Option<String>,
    pub physical_resource_id: Option<String>,
    pub resource_type: Option<String>,
    pub resource_status: Option<String>,
}

impl Show for StackResourceSummary {
    open spec fn shown_id(&self) -> Seq<char> {
        text_or_empty(self.physical_resource_id)
    }

    open spec fn shown_tag(&self, key: Seq<char>) -> Option<Seq<char>> {
        None
    }

    open spec fn shown_name(&self) -> Option<Seq<char>> {
        opt_text(self.logical_resource_id)
    }

    open spec fn shown(&self) -> Seq<char> {
        text_or_empty(self.resource_type) + ": "@ + resource_label(
            self.physical_resource_id,
            self.logical_resource_id,
            self.resource_status,
        )
    }

    fn id(&self) -> (r: String) {
        str_or_empty(&self.physical_resource_id).to_owned()
    }

    fn tag(&self, key: &str) -> (r: Option<&str>) {
        None
    }

    fn description(&self) -> (r: Option<&str>) {
        None
    }

    fn name(&self) -> (r: Option<&str>) {
        as_opt_str(&self.logical_resource_id)
    }

    fn id_and_name(&self) -> (r: String) {
        let mut r = str_or_empty(&self.resource_type).to_owned();
        r.append(": ");
        let rest = make_resource_label(
            &self.physical_resource_id,
            &self.logical_resource_id,
            &self.resource_status,
        );
        r.append(rest.as_str());
        r
    }
}

/// Whether a stack is among those asked for: every stack is where none was
/// named, else the stacks whose name or identifier was named.
pub open spec fn requested(stack: StackSummary, names: Seq<Seq<char>>) -> bool {
    ||| names.len() == 0
    ||| (stack.stack_name is Some && names.contains(stack.stack_name->0@))
    ||| (stack.stack_id is Some && names.contains(stack.stack_id->0@))
}

/// Whether a stack is among those asked for: every stack is where none was
/// named, else the stacks whose name or identifier was named.
pub fn is_requested(stack: &StackSummary, names: &Vec<String>) -> (r: bool)
    ensures
        r == requested(*stack, names.deep_view()),
{
    if names.len() == 0 {
        return true;
    }
    let by_name = match &stack.stack_name {
        Some(name) => contains_text(names, name.as_str()),
        None => false,
    };
    if by_name {
        return true;
    }
    match &stack.stack_id {
        Some(id) => contains_text(names, id.as_str()),
        None => false,
    }
}

/// The test by which a listed stack is kept: it could be read, and it is
/// among those asked for.
pub open spec fn kept(names: Seq<Seq<char>>) -> spec_fn(Option<StackSummary>) -> Option<
    StackSummary,
> {
    |listed: Option<StackSummary>|
        match listed {
            Some(stack) => if requested(stack, names) {
                Some(stack)
            } else {
                None
            },
            None => None,
        }
}

/// The line of a resource in the tree of its stack: the type, made 40
/// characters wide, a colon, and the physical identifier.
pub open spec fn resource_line(resource: StackResource) -> Seq<char> {
    padded(text_or(resource.resource_type, "no type"@), 40) + ": "@ + text_or(
        resource.physical_resource_id,
        "no id"@,
    )
}

/// The outline of the tree of a stack: its title, and one leaf for each of
/// its resources.
pub open spec fn stack_outline(stack: StackSummary, resources: Seq<StackResource>) -> Seq<Entry> {
    seq![(0nat, stack.titled())] + leaves(
        resources.map_values(|resource: StackResource| resource_line(resource)),
    )
}

/// The tree of a stack: its title at the root, and one leaf for each of its
/// resources, with the type and the physical identifier.
pub fn stack_tree(stack: &StackSummary, resources: &Vec<StackResource>) -> (tree: termtree::Tree<
    String,
>)
    ensures
        outline(tree) == stack_outline(*stack, resources@),
{
    let mut tree = tree_new(stack.title());
    let ghost lines = resources@.map_values(|resource: StackResource| resource_line(resource));
    let mut i: usize = 0;
    assert(outline(tree) =~= seq![(0nat, stack.titled())] + leaves(lines.take(0)));
    while i < resources.len()
        invariant
            i <= resources.len(),
            lines == resources@.map_values(|resource: StackResource| resource_line(resource)),
            outline(tree) == seq![(0nat, stack.titled())] + leaves(lines.take(i as int)),
        decreases resources.len() - i,
    {
        let mut line = pad_right(str_or(&resources[i].resource_type, "no type"), 40);
        line.append(": ");
        line.append(str_or(&resources[i].physical_resource_id, "no id"));
        assert(line@ == lines[i as int]);
        tree_push(&mut tree, tree_new(line));
        assert(outline(tree) =~= seq![(0nat, stack.titled())] + leaves(lines.take(i as int + 1)));
        i += 1;
    }
    assert(lines.take(resources.len() as int) =~= lines);
    tree
}

/// What to ask the region next: the resources of one stack.
#[derive(Debug, PartialEq, Eq)]
pub struct Lookup {
    /// What the progress bar says meanwhile: the name of the stack or, for a
    /// stack without a name, its identifier.
    pub label: String,
    /// The identifier by which the stack is asked for.
    pub stack_id: String,
}

/// What the progress bar says while the resources of a stack are collected.
pub open spec fn lookup_label(stack: StackSummary) -> Seq<char> {
    match stack.stack_name {
        Some(name) => name@,
        None => text_or_empty(stack.stack_id),
    }
}

/// The stacks of one region, and the resources collected for them.
#[derive(Debug)]
pub struct CfResources {
    stacks: Vec<StackSummary>,
    resources: Vec<(StackSummary, Vec<StackResource>)>,
    next: usize,
}

/// What a collection of stacks holds.
pub struct CfContents {
    /// The stacks that were listed and asked for.
    pub stacks: Seq<StackSummary>,
    /// The stacks whose resources were collected, each with its resources.
    pub resources: Seq<(StackSummary, Seq<StackResource>)>,
    /// How many stacks the run has collected the resources of so far, in
    /// their order.
    pub next: nat,
}

impl View for CfResources {
    type V = CfContents;

    closed spec fn view(&self) -> CfContents {
        CfContents {
            stacks: self.stacks@,
            resources: self.resources@.map_values(
                |pair: (StackSummary, Vec<StackResource>)| (pair.0, pair.1@),
            ),
            next: self.next as nat,
        }
    }
}

impl CfContents {
    /// The outlines of the trees to print: one for each stack whose
    /// resources were collected.
    pub open spec fn tree_outlines(self) -> Seq<Seq<Entry>> {
        self.resources.map_values(
            |pair: (StackSummary, Seq<StackResource>)| stack_outline(pair.0, pair.1),
        )
    }
}

impl CfResources {
    /// No stacks yet.
    pub fn new() -> (r: CfResources)
        ensures
            r@.stacks.len() == 0,
            r@.resources.len() == 0,
            r@.next == 0,
    {
        CfResources { stacks: Vec::new(), resources: Vec::new(), next: 0 }
    }

    /// Takes the stacks of a listing: of those that could be read, the
    /// stacks asked for, in their order. They replace the stacks held before.
    pub fn collect_stacks(&mut self, listed: &Vec<Option<StackSummary>>, names: &Vec<String>)
        ensures
            final(self)@.stacks == listed@.filter_map(kept(names.deep_view())),
            final(self)@.resources == old(self)@.resources,
            final(self)@.next == old(self)@.next,
    {
        let ghost keep = kept(names.deep_view());
        let mut stacks: Vec<StackSummary> = Vec::new();
        let mut i: usize = 0;
        assert(listed@.take(0) =~= Seq::empty());
        while i < listed.len()
            invariant
                i <= listed.len(),
                keep == kept(names.deep_view()),
                stacks@ == listed@.take(i as int).filter_map(keep),
            decreases listed.len() - i,
        {
            proof {
                listed@.lemma_filter_map_take_succ(keep, i as int);
            }
            match &listed[i] {
                Some(stack) => {
                    if is_requested(stack, names) {
                        stacks.push(stack.duplicate());
                    }
                },
                None => {},
            }
            i += 1;
        }
        assert(listed@.take(listed.len() as int) =~= listed@);
        self.stacks = stacks;
    }

    /// Starts a run over the stacks: the next stack to collect the resources
    /// of is the first one again. What was collected before stays, and the
    /// run adds to it.
    pub fn begin_run(&mut self)
        ensures
            final(self)@.next == 0,
            final(self)@.stacks == old(self)@.stacks,
            final(self)@.resources == old(self)@.resources,
    {
        self.next = 0;
    }

    /// The stacks that were listed and asked for.
    pub fn stacks(&self) -> (r: &Vec<StackSummary>)
        ensures
            r@ == self@.stacks,
    {
        &self.stacks
    }

    /// How many stacks there are to collect the resources of.
    pub fn stack_count(&self) -> (n: usize)
        ensures
            n == self@.stacks.len(),
    {
        self.stacks.len()
    }

    /// The next stack to collect the resources of in this run: the first
    /// one that the run has not come to yet, if there is one.
    pub fn pending(&self) -> (r: Option<Lookup>)
        ensures
            r is Some <==> self@.next < self@.stacks.len(),
            r matches Some(lookup) ==> {
                let stack = self@.stacks[self@.next as int];
                &&& lookup.label@ == lookup_label(stack)
                &&& lookup.stack_id@ == text_or_empty(stack.stack_id)
            },
    {
        if self.next < self.stacks.len() {
            let stack = &self.stacks[self.next];
            let label = match &stack.stack_name {
                Some(name) => name.clone(),
                None => str_or_empty(&stack.stack_id).to_owned(),
            };
            Some(Lookup { label, stack_id: str_or_empty(&stack.stack_id).to_owned() })
        } else {
            None
        }
    }

    /// Adds the resources that were collected for the pending stack to what
    /// is held, and moves on to the next stack. Where no stack is pending,
    /// nothing changes and the result is `false`.
    pub fn collect_stack_resources(&mut self, resources: Vec<StackResource>) -> (taken: bool)
        ensures
            taken == (old(self)@.next < old(self)@.stacks.len()),
            final(self)@.stacks == old(self)@.stacks,
            taken ==> {
                &&& final(self)@.next == old(self)@.next + 1
                &&& final(self)@.resources == old(self)@.resources.push(
                    (old(self)@.stacks[old(self)@.next as int], resources@),
                )
            },
            !taken ==> {
                &&& final(self)@.next == old(self)@.next
                &&& final(self)@.resources == old(self)@.resources
            },
    {
        if self.next < self.stacks.len() {
            let stack = self.stacks[self.next].duplicate();
            self.resources.push((stack, resources));
            self.next = self.next + 1;
            assert(self@.resources =~= old(self)@.resources.push(
                (old(self)@.stacks[old(self)@.next as int], resources@),
            ));
            true
        } else {
            false
        }
    }

    /// The trees to print: one for each stack whose resources were
    /// collected, in their order.
    pub fn trees(&self) -> (r: Vec<termtree::Tree<String>>)
        ensures
            outlines(r@) == self@.tree_outlines(),
    {
        let mut r: Vec<termtree::Tree<String>> = Vec::new();
        let mut i: usize = 0;
        while i < self.resources.len()
            invariant
                i <= self.resources.len(),
                r.len() == i,
                forall|j: int|
                    0 <= j < i ==> outline(#[trigger] r[j]) == stack_outline(
                        self.resources[j].0,
                        self.resources[j].1@,
                    ),
            decreases self.resources.len() - i,
        {
            r.push(stack_tree(&self.resources[i].0, &self.resources[i].1));
            i += 1;
        }
        assert(outlines(r@) =~= self@.tree_outlines());
        r
    }
}

} // verus!
