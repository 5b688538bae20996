//! Nodes that have a constant behavior.
use crate::node::{snapshot_of, Node, NodeInfo, NodeView, Tickable};
use crate::status::Status;
use vstd::prelude::*;

verus! {

/// The status of a constant node whose child returned `child_status`: the
/// node is running until the child is done, and then has its fixed status
/// whatever the child's was.
pub open spec fn fixed_after(fixed: Status, child_status: Status) -> Status {
    if child_status.done() {
        fixed
    } else {
        Status::Running
    }
}

/// One tick of a constant node with an optional child: without a child the
/// node has its fixed status; with one, the child was ticked once and
/// the status follows from what it returned.
pub open spec fn constant_ticked<'a, W>(
    pre: Option<Node<'a, W>>,
    post: Option<Node<'a, W>>,
    fixed: Status,
    s: Status,
) -> bool {
    match pre {
        None => post.is_none() && s == fixed,
        Some(child) => post.is_some() && post.unwrap()@ == child@.after_tick(post.unwrap()@.status)
            && s == fixed_after(fixed, post.unwrap()@.status),
    }
}

/// The optional child after a reset of the node.
pub open spec fn constant_reset<'a, W>(pre: Option<Node<'a, W>>, post: Option<Node<'a, W>>) -> bool {
    match pre {
        None => post.is_none(),
        Some(child) => post.is_some() && post.unwrap()@ == child@.after_reset() && (child@.status
            == Status::Initialized ==> post == pre),
    }
}

/// The snapshots show the optional child: there is one where there is a
/// child, and none where there is not.
pub open spec fn constant_snapshots<'a, W>(infos: Seq<NodeInfo>, child: Option<Node<'a, W>>) -> bool {
    match child {
        None => infos.len() == 0,
        Some(child) => infos.len() == 1 && snapshot_of(infos[0], child),
    }
}

fn tick_constant<'a, W>(child: &mut Option<Node<'a, W>>, fixed: Status, world: &mut W) -> (s: Status)
    ensures
        constant_ticked(*old(child), *final(child), fixed, s),
        old(child).is_none() ==> *final(world) == *old(world),
{
    match child {
        Some(child) => {
            if !child.tick(world).is_done() {
                return Status::Running;
            }
        },
        None => {},
    }
    fixed
}

fn reset_constant<'a, W>(child: &mut Option<Node<'a, W>>)
    ensures
        constant_reset(*old(child), *final(child)),
{
    match child {
        Some(child) => {
            child.reset();
        },
        None => {},
    }
}

fn describe_constant<'a, W>(child: &Option<Node<'a, W>>) -> (infos: Vec<NodeInfo>)
    ensures
        constant_snapshots(infos@, *child),
{
    let mut infos: Vec<NodeInfo> = Vec::new();
    match child {
        Some(child) => {
            infos.push(child.describe());
        },
        None => {},
    }
    infos
}

/// Implements a node that always returns that it has failed.
///
/// This node potentially takes a child node. If it does, then it will tick that
/// node until it is completed, disregard the child's status, and return that it
/// failed. If it does not have a child node, it will simply fail on every tick.
///
/// # State
///
/// **Initialized:** Before being ticked after either being created or reset.
///
/// **Running:** While child is running. If no child, then never.
///
/// **Succeeded:** Never.
///
/// **Failed:** After child finishes. If no child, always.
///
/// # Children
///
/// One optional child. The child will be reset every time this node is reset.
#[verifier::reject_recursive_types(W)]
pub struct AlwaysFail<'a, W> {
    /// Optional child node.
    child: Option<Node<'a, W>>,
}

impl<'a, W> AlwaysFail<'a, W> {
    /// The child of this node, if it has one.
    pub closed spec fn child(&self) -> Option<Node<'a, W>> {
        self.child
    }

    /// Creates the internals of an `AlwaysFail` node.
    pub fn internals(child: Option<Node<'a, W>>) -> (node: Self)
        ensures
            node.child() == child,
    {
        AlwaysFail { child }
    }

    /// Construct a new AlwaysFail node.
    pub fn new() -> (node: Node<'a, W>) where W: 'a
        ensures
            node@ == NodeView::fresh(),
    {
        Node::new(AlwaysFail::internals(None))
    }

    /// Construct a new AlwaysFail node that has a child.
    pub fn with_child(child: Node<'a, W>) -> (node: Node<'a, W>) where W: 'a
        ensures
            node@ == NodeView::fresh(),
    {
        Node::new(AlwaysFail::internals(Some(child)))
    }
}

impl<'a, W> Tickable<W> for AlwaysFail<'a, W> {
    /// The kind name of this node is "AlwaysFail".
    open spec fn kind_is(&self, name: Seq<char>) -> bool {
        name == "AlwaysFail"@
    }

    /// The snapshots show the children of this node, in order.
    open spec fn children_shown(&self, infos: Seq<NodeInfo>) -> bool {
        constant_snapshots(infos, self.child())
    }

    fn tick(&mut self, world: &mut W) -> (s: Status)
        ensures
            constant_ticked(old(self).child(), final(self).child(), Status::Failed, s),
            old(self).child().is_none() ==> *final(world) == *old(world),
    {
        tick_constant(&mut self.child, Status::Failed, world)
    }

    fn reset(&mut self)
        ensures
            constant_reset(old(self).child(), final(self).child()),
    {
        reset_constant(&mut self.child);
    }

    fn children(&self) -> (infos: Vec<NodeInfo>)
        ensures
            constant_snapshots(infos@, self.child()),
    {
        describe_constant(&self.child)
    }

    /// Returns the string "AlwaysFail".
    fn kind_name(&self) -> (r: &str)
        ensures
            r@ == "AlwaysFail"@,
    {
        "AlwaysFail"
    }
}

/// Implements a node that always returns that it has succeeded.
///
/// This node potentially takes a child node. If it does, then it will tick that
/// node until it is completed, disregard the child's status, and return that it
/// succeeded. If it does not have a child node, it will simply succeed on
/// every tick.
///
/// # State
///
/// **Initialized:** Before being ticked after either being created or reset.
///
/// **Running:** While child is running. If no child, then never.
///
/// **Succeeded:** After child finished. If no child, always.
///
/// **Failed:** Never.
///
/// # Children
///
/// One optional child. The child will be reset every time this node is reset.
#[verifier::reject_recursive_types(W)]
pub struct AlwaysSucceed<'a, W> {
    /// Optional child node.
    child: Option<Node<'a, W>>,
}

impl<'a, W> AlwaysSucceed<'a, W> {
    /// The child of this node, if it has one.
    pub closed spec fn child(&self) -> Option<Node<'a, W>> {
        self.child
    }

    /// Creates the internals of an `AlwaysSucceed` node.
    pub fn internals(child: Option<Node<'a, W>>) -> (node: Self)
        ensures
            node.child() == child,
    {
        AlwaysSucceed { child }
    }

    /// Construct a new `AlwaysSucceed` node.
    pub fn new() -> (node: Node<'a, W>) where W: 'a
        ensures
            node@ == NodeView::fresh(),
    {
        Node::new(AlwaysSucceed::internals(None))
    }

    /// Construct a new `AlwaysSucceed` node with a child.
    pub fn with_child(child: Node<'a, W>) -> (node: Node<'a, W>) where W: 'a
        ensures
            node@ == NodeView::fresh(),
    {
        Node::new(AlwaysSucceed::internals(Some(child)))
    }
}

impl<'a, W> Tickable<W> for AlwaysSucceed<'a, W> {
    /// The kind name of this node is "AlwaysSucceed".
    open spec fn kind_is(&self, name: Seq<char>) -> bool {
        name == "AlwaysSucceed"@
    }

    /// The snapshots show the children of this node, in order.
    open spec fn children_shown(&self, infos: Seq<NodeInfo>) -> bool {
        constant_snapshots(infos, self.child())
    }

    fn tick(&mut self, world: &mut W) -> (s: Status)
        ensures
            constant_ticked(old(self).child(), final(self).child(), Status::Succeeded, s),
            old(self).child().is_none() ==> *final(world) == *old(world),
    {
        tick_constant(&mut self.child, Status::Succeeded, world)
    }

    fn reset(&mut self)
        ensures
            constant_reset(old(self).child(), final(self).child()),
    {
        reset_constant(&mut self.child);
    }

    fn children(&self) -> (infos: Vec<NodeInfo>)
        ensures
            constant_snapshots(infos@, self.child()),
    {
        describe_constant(&self.child)
    }

    /// Returns the string "AlwaysSucceed".
    fn kind_name(&self) -> (r: &str)
        ensures
            r@ == "AlwaysSucceed"@,
    {
        "AlwaysSucceed"
    }
}

/// Implements a node that always returns that it is currently running.
///
/// # State
///
/// **Initialized:** Before being ticked after either being created or reset.
///
/// **Running:** Always.
///
/// **Succeeded:** Never.
///
/// **Failed:** Never.
///
/// # Children
///
/// None.
pub struct AlwaysRunning;

impl AlwaysRunning {
    /// Construct a new AlwaysRunning node.
    pub fn new<W>() -> (node: Node<'static, W>)
        ensures
            node@ == NodeView::fresh(),
    {
        Node::new(AlwaysRunning {  })
    }
}

impl<W> Tickable<W> for AlwaysRunning {
    /// This node has no children.
    open spec fn children_shown(&self, infos: Seq<NodeInfo>) -> bool {
        infos.len() == 0
    }

    /// The kind name of this node is "AlwaysRunning".
    open spec fn kind_is(&self, name: Seq<char>) -> bool {
        name == "AlwaysRunning"@
    }

    fn tick(&mut self, world: &mut W) -> (s: Status)
        ensures
            s == Status::Running,
            *final(world) == *old(world),
    {
        Status::Running
    }

    fn reset(&mut self) {
        // No-op
    }

    /// Returns the string "AlwaysRunning".
    fn kind_name(&self) -> &str {
        "AlwaysRunning"
    }
}

} // verus!
