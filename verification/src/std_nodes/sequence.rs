//! Nodes that have children and tick them in a sequential order as long as they succeed.
use crate::node::{Node, NodeInfo, NodeView, Tickable};
use crate::status::Status;
use crate::std_nodes::children::{
    all_reset,
    describe_all,
    reset_all,
    resume_point,
    resumed,
    scanned,
    snapshots_of,
    tick_from,
    tick_in_order,
};
use vstd::prelude::*;

verus! {

/// A node that will tick its children in order as long as they succeed.
///
/// This node will tick all of its children in order until one of them returns
/// a status other than `Status::Succeeded`. If none do, this node succeeds.
///
/// The difference between this node and the normal `Sequence` is that this
/// node will always begin ticking from its first child, where as the normal
/// version will resume ticking with the node that previously returned that it
/// was running. This makes the active version better for things that must be
/// checked each tick (e.g., if motors are too hot) and the normal version better
/// for completing series of actions.
///
/// Due to the reticking, some nodes that succeeded on previous ticks may fail
/// on later ticks.
///
/// This node is equivalent to an "and" statement.
///
/// # State
///
/// **Initialized:** Before being ticked after being created or reset.
///
/// **Running:** The latest ticked child node return that it was running.
///
/// **Succeeded:** All child nodes succeeded.
///
/// **Failed:** The latest ticked child node failed.
///
/// # Children
///
/// Any number of children. A child node will be ticked every time this node is
/// ticked as long as all the sibling nodes to the left succeeded.
///
/// Note that, if a node is running and a sibling to the left returned either
/// failure or running, the child node will be reset. Additionally, the children
/// will be reset each time the parent is.
#[verifier::reject_recursive_types(W)]
pub struct ActiveSequence<'a, W> {
    /// Vector containing the children of this node.
    children: Vec<Node<'a, W>>,
}

impl<'a, W> ActiveSequence<'a, W> {
    /// The children of this node, in the order in which they are ticked.
    pub closed spec fn nodes(&self) -> Seq<Node<'a, W>> {
        self.children@
    }

    /// Creates a new `ActiveSequence` node without children.
    pub fn new() -> (node: Self)
        ensures
            node.nodes() == Seq::<Node<'a, W>>::empty(),
    {
        ActiveSequence { children: Vec::new() }
    }

    /// Adds a child behind the children that the node has.
    pub fn with_child(self, child: Node<'a, W>) -> (node: Self)
        ensures
            node.nodes() == self.nodes().push(child),
    {
        let mut node = self;
        node.children.push(child);
        node
    }

    /// Replaces the children of the node.
    pub fn with_children(self, children: Vec<Node<'a, W>>) -> (node: Self)
        ensures
            node.nodes() == children@,
    {
        let mut node = self;
        node.children = children;
        node
    }
}

impl<'a, W> Tickable<W> for ActiveSequence<'a, W> {
    /// The kind name of this node is "ActiveSequence".
    open spec fn kind_is(&self, name: Seq<char>) -> bool {
        name == "ActiveSequence"@
    }

    /// The snapshots show the children of this node, in order.
    open spec fn children_shown(&self, infos: Seq<NodeInfo>) -> bool {
        snapshots_of(infos, self.nodes())
    }

    fn tick(&mut self, world: &mut W) -> (s: Status)
        ensures
            exists|stop: int| #[trigger]
                scanned(old(self).nodes(), final(self).nodes(), Status::Succeeded, stop, s),
            old(self).nodes().len() == 0 ==> *final(world) == *old(world),
    {
        // Tick all of our children as long as they succeed
        let s = tick_in_order(&mut self.children, Status::Succeeded, world);
        proof {
            let stop = choose|stop: int| #[trigger]
                scanned(old(self).children@, self.children@, Status::Succeeded, stop, s);
            assert(scanned(old(self).nodes(), self.nodes(), Status::Succeeded, stop, s));
        }
        s
    }

    fn reset(&mut self)
        ensures
            all_reset(old(self).nodes(), final(self).nodes()),
    {
        // Reset all of our children
        reset_all(&mut self.children);
    }

    fn children(&self) -> (infos: Vec<NodeInfo>)
        ensures
            snapshots_of(infos@, self.nodes()),
    {
        describe_all(&self.children)
    }

    /// Returns the string "ActiveSequence".
    fn kind_name(&self) -> (r: &str)
        ensures
            r@ == "ActiveSequence"@,
    {
        "ActiveSequence"
    }
}

/// A node that will tick its children in order as long as they succeed.
///
/// This node will tick all of its children in order until one of them returns
/// a status other than `Status::Succeeded`. If none do, this node succeeds.
///
/// The difference between this node and an `ActiveSequence` is that this node
/// will resume ticking at the last running node whereas the active version will
/// always restart ticking from the beginning. That makes the active sequence
/// good for things that always need to be rechecked and this version good for
/// completing actions. Once a node is ticked to completion, this version will
/// *not* revisit it.
///
/// This node is equivalent to an "and" statement.
///
/// # State
///
/// **Initialized:** Before being ticked after being created or reset.
///
/// **Running:** The latest ticked child node return that it was running.
///
/// **Succeeded:** All child nodes succeeded.
///
/// **Failed:** The latest ticked child node failed.
///
/// # Children
///
/// Any number of children. A child node will only be ticked if all the nodes
/// to the left succeeded and this node has not yet completed.
///
/// Unlike the active version, children nodes will only be reset when this node
/// is reset.
#[verifier::reject_recursive_types(W)]
pub struct Sequence<'a, W> {
    /// Vector containing the children of this node.
    children: Vec<Node<'a, W>>,
    /// The next child to be ticked.
    next_child: usize,
}

impl<'a, W> Sequence<'a, W> {
    /// The children of this node, in the order in which they are ticked.
    pub closed spec fn nodes(&self) -> Seq<Node<'a, W>> {
        self.children@
    }

    /// The place of the child at which the next tick resumes.
    pub closed spec fn cursor(&self) -> int {
        self.next_child as int
    }

    /// Creates the internals of a `Sequence` node from a vector of Nodes.
    pub fn internals(children: Vec<Node<'a, W>>) -> (seq: Self)
        ensures
            seq.nodes() == children@,
            seq.cursor() == 0,
    {
        Sequence { children, next_child: 0 }
    }

    /// Creates a new `Sequence` node from a vector of Nodes.
    pub fn new(children: Vec<Node<'a, W>>) -> (node: Node<'a, W>) where W: 'a
        ensures
            node@ == NodeView::fresh(),
    {
        Node::new(Sequence::internals(children))
    }
}

impl<'a, W> Tickable<W> for Sequence<'a, W> {
    /// The kind name of this node is "Sequence".
    open spec fn kind_is(&self, name: Seq<char>) -> bool {
        name == "Sequence"@
    }

    /// The snapshots show the children of this node, in order.
    open spec fn children_shown(&self, infos: Seq<NodeInfo>) -> bool {
        snapshots_of(infos, self.nodes())
    }

    fn tick(&mut self, world: &mut W) -> (s: Status)
        ensures
            exists|last: int|
                #[trigger] resumed(
                    old(self).nodes(),
                    final(self).nodes(),
                    Status::Succeeded,
                    old(self).cursor(),
                    last,
                    s,
                ) && final(self).cursor() == resume_point(
                    old(self).nodes().len() as int,
                    old(self).cursor(),
                    last,
                    s,
                ),
            old(self).cursor() >= old(self).nodes().len() ==> *final(world) == *old(world),
    {
        // Tick the children as long as they keep succeeding
        let (s, next) = tick_from(&mut self.children, self.next_child, Status::Succeeded, world);
        self.next_child = next;
        proof {
            let last = choose|last: int| #[trigger]
                resumed(
                    old(self).children@,
                    self.children@,
                    Status::Succeeded,
                    old(self).next_child as int,
                    last,
                    s,
                ) && next == resume_point(
                    old(self).children@.len() as int,
                    old(self).next_child as int,
                    last,
                    s,
                );
            assert(resumed(
                old(self).nodes(),
                self.nodes(),
                Status::Succeeded,
                old(self).cursor(),
                last,
                s,
            ));
        }
        s
    }

    fn reset(&mut self)
        ensures
            all_reset(old(self).nodes(), final(self).nodes()),
            final(self).cursor() == 0,
    {
        // Reset all of our children
        reset_all(&mut self.children);
        self.next_child = 0;
    }

    fn children(&self) -> (infos: Vec<NodeInfo>)
        ensures
            snapshots_of(infos@, self.nodes()),
    {
        describe_all(&self.children)
    }

    /// Returns the string "Sequence".
    fn kind_name(&self) -> (r: &str)
        ensures
            r@ == "Sequence"@,
    {
        "Sequence"
    }
}

} // verus!
