//! Nodes that have children and tick them in a sequential order as long as they
//! fail.
use crate::node::{Node, NodeInfo, NodeView, Tickable};
use crate::status::Status;
use crate::std_nodes::children::{
    all_reset,
    describe_all,
    reset_all,
    resume_point,
    resumed,
    scanned,
    snapshots_of,
    tick_from,
    tick_in_order,
};
use vstd::prelude::*;

verus! {

/// A node that ticks its children sequentially as long as they fail.
///
/// This node will tick all of its children in order until one of them returns
/// a status other than `Status::Failed`. If none do, this node fails.
///
/// The difference between this node and a `StatefulSelector` is that this node
/// begins ticking at its first child every single time: the stateful version
/// will only tick a node to completion. That makes this version of the
/// selector good for things like monitoring if motors are too hot (which should
/// be checked every tick) whereas the stateful selector is better for simply
/// completing a sequence of actions.
///
/// Due to the reticking, some nodes that failed on previous ticks may succeed
/// on later ticks.
///
/// This is equivalent to an "or" statement.
///
/// # State
///
/// **Initialized:** Before being ticked after being created or reset.
///
/// **Running:** The latest ticked child node returned that it was running.
///
/// **Succeeded:** At least one of the children succeeded.
///
/// **Failed:** All of the children failed.
///
/// # Children
///
/// Any number of children. A child node will be ticked every time this node is
/// ticked as long as all the sibling nodes to the left failed.
///
/// Note that, if a node is running and a sibling to the left returned either
/// success or running, the child node will be reset. Additionally, the children
/// will be reset each time the parent node is reset.
#[verifier::reject_recursive_types(W)]
pub struct Selector<'a, W> {
    /// Vector containing the children of this node.
    children: Vec<Node<'a, W>>,
}

impl<'a, W> Selector<'a, W> {
    /// The children of this node, in the order in which they are ticked.
    pub closed spec fn nodes(&self) -> Seq<Node<'a, W>> {
        self.children@
    }

    /// Creates the internals of a `Selector` node from a vector of Nodes.
    pub fn internals(children: Vec<Node<'a, W>>) -> (sel: Self)
        ensures
            sel.nodes() == children@,
    {
        Selector { children }
    }

    /// Creates a new `Selector` node from a vector of Nodes.
    pub fn new(children: Vec<Node<'a, W>>) -> (node: Node<'a, W>) where W: 'a
        ensures
            node@ == NodeView::fresh(),
    {
        Node::new(Selector::internals(children))
    }
}

impl<'a, W> Tickable<W> for Selector<'a, W> {
    /// The kind name of this node is "Selector".
    open spec fn kind_is(&self, name: Seq<char>) -> bool {
        name == "Selector"@
    }

    /// The snapshots show the children of this node, in order.
    open spec fn children_shown(&self, infos: Seq<NodeInfo>) -> bool {
        snapshots_of(infos, self.nodes())
    }

    fn tick(&mut self, world: &mut W) -> (s: Status)
        ensures
            exists|stop: int| #[trigger]
                scanned(old(self).nodes(), final(self).nodes(), Status::Failed, stop, s),
            old(self).nodes().len() == 0 ==> *final(world) == *old(world),
    {
        // What we want to do is tick our children until we find one that
        // is either running or successful. If we find either of those, all
        // children after that node need to be reset
        let s = tick_in_order(&mut self.children, Status::Failed, world);
        proof {
            let stop = choose|stop: int| #[trigger]
                scanned(old(self).children@, self.children@, Status::Failed, stop, s);
            assert(scanned(old(self).nodes(), self.nodes(), Status::Failed, stop, s));
        }
        s
    }

    fn reset(&mut self)
        ensures
            all_reset(old(self).nodes(), final(self).nodes()),
    {
        // Reset all of our children
        reset_all(&mut self.children);
    }

    fn children(&self) -> (infos: Vec<NodeInfo>)
        ensures
            snapshots_of(infos@, self.nodes()),
    {
        describe_all(&self.children)
    }

    /// Returns the string "Selector".
    fn kind_name(&self) -> (r: &str)
        ensures
            r@ == "Selector"@,
    {
        "Selector"
    }
}

/// A node that ticks its children sequentially as long as they fail.
///
/// This node will tick all of its children in order until one of them returns
/// a status other than `Status::Failed`. If none do, this node fails.
///
/// The difference between this node and a `Selector` is that this node
/// will resume ticking at the last running node whereas the `Selector`
/// will always restart ticking from the beginning. That makes the `Selector`
/// good for things that always need to be rechecked and this version
/// good at completing actions. Once a node is ticked to completion, this
/// selector will *not* revisit it.
///
/// This is equivalent to an "or" statement.
///
/// # State
///
/// **Initialized:** Before being ticked after being created or reset.
///
/// **Running:** A child node returned that it was running.
///
/// **Succeeded:** At least one of the children succeeded.
///
/// **Failed:** All of the children failed.
///
/// # Children
///
/// Any number of children. A child node will only be ticked if all the nodes
/// to the left failed and this node has not yet completed.
///
/// All children nodes will be reset only when this node is reset.
#[verifier::reject_recursive_types(W)]
pub struct StatefulSelector<'a, W> {
    /// Vector containing the children of this node.
    children: Vec<Node<'a, W>>,
    /// The next child to be ticked.
    next_child: usize,
}

impl<'a, W> StatefulSelector<'a, W> {
    /// The children of this node, in the order in which they are ticked.
    pub closed spec fn nodes(&self) -> Seq<Node<'a, W>> {
        self.children@
    }

    /// The place of the child at which the next tick resumes.
    pub closed spec fn cursor(&self) -> int {
        self.next_child as int
    }

    /// Creates the internals of a `StatefulSelector` node from a vector of
    /// Nodes.
    pub fn internals(children: Vec<Node<'a, W>>) -> (sel: Self)
        ensures
            sel.nodes() == children@,
            sel.cursor() == 0,
    {
        StatefulSelector { children, next_child: 0 }
    }

    /// Creates a new `StatefulSelector` node from a vector of Nodes.
    pub fn new(children: Vec<Node<'a, W>>) -> (node: Node<'a, W>) where W: 'a
        ensures
            node@ == NodeView::fresh(),
    {
        Node::new(StatefulSelector::internals(children))
    }
}

impl<'a, W> Tickable<W> for StatefulSelector<'a, W> {
    /// The kind name of this node is "Selector".
    open spec fn kind_is(&self, name: Seq<char>) -> bool {
        name == "Selector"@
    }

    /// The snapshots show the children of this node, in order.
    open spec fn children_shown(&self, infos: Seq<NodeInfo>) -> bool {
        snapshots_of(infos, self.nodes())
    }

    fn tick(&mut self, world: &mut W) -> (s: Status)
        ensures
            exists|last: int|
                #[trigger] resumed(
                    old(self).nodes(),
                    final(self).nodes(),
                    Status::Failed,
                    old(self).cursor(),
                    last,
                    s,
                ) && final(self).cursor() == resume_point(
                    old(self).nodes().len() as int,
                    old(self).cursor(),
                    last,
                    s,
                ),
            old(self).cursor() >= old(self).nodes().len() ==> *final(world) == *old(world),
    {
        // Tick the children as long as they keep failing
        let (s, next) = tick_from(&mut self.children, self.next_child, Status::Failed, world);
        self.next_child = next;
        proof {
            let last = choose|last: int| #[trigger]
                resumed(
                    old(self).children@,
                    self.children@,
                    Status::Failed,
                    old(self).next_child as int,
                    last,
                    s,
                ) && next == resume_point(
                    old(self).children@.len() as int,
                    old(self).next_child as int,
                    last,
                    s,
                );
            assert(resumed(
                old(self).nodes(),
                self.nodes(),
                Status::Failed,
                old(self).cursor(),
                last,
                s,
            ));
        }
        s
    }

    fn reset(&mut self)
        ensures
            all_reset(old(self).nodes(), final(self).nodes()),
            final(self).cursor() == 0,
    {
        // Reset all of our children
        reset_all(&mut self.children);
        self.next_child = 0;
    }

    fn children(&self) -> (infos: Vec<NodeInfo>)
        ensures
            snapshots_of(infos@, self.nodes()),
    {
        describe_all(&self.children)
    }

    /// Returns the string "Selector".
    fn kind_name(&self) -> (r: &str)
        ensures
            r@ == "Selector"@,
    {
        "Selector"
    }
}

} // verus!
