//! Decorators that map the status of their child to another.
use crate::node::{snapshot_of, Node, NodeInfo, NodeView, Tickable};
use crate::status::Status;
use core::marker::PhantomData;
use vstd::prelude::*;

verus! {

/// A function from the status of a child and the world to a status, which
/// can be called on every status and every world.
#[verifier::reject_recursive_types(W)]
struct Mapping<W, F: Fn(Status, &W) -> Status> {
    func: F,
    world: PhantomData<W>,
}

impl<W, F: Fn(Status, &W) -> Status> Mapping<W, F> {
    #[verifier::type_invariant]
    spec fn total(&self) -> bool {
        forall|s: Status, w: &W| call_requires(self.func, (s, w))
    }

    fn new(func: F) -> (m: Self)
        requires
            forall|s: Status, w: &W| call_requires(func, (s, w)),
        ensures
            m.func == func,
    {
        Mapping { func, world: PhantomData }
    }

    fn apply(&self, child_status: Status, world: &W) -> (s: Status)
        ensures
            call_ensures(self.func, (child_status, world), s),
    {
        proof {
            use_type_invariant(self);
        }
        (self.func)(child_status, world)
    }
}

/// A node whose status is determined by running a function on its child's status.
///
/// This node will tick its child and then run the supplied function on the
/// child's return status and the world.
///
/// # State
///
/// **Initialized:** Depends on function.
///
/// **Running:** Depends on function.
///
/// **Succeeded:** Depends on function.
///
/// **Failed:** Depends on function.
///
/// # Children
///
/// Takes a single child which is ticked or reset every time the `Decorator` is
/// ticked or reset.
#[verifier::reject_recursive_types(W)]
pub struct Decorator<'a, W, F: Fn(Status, &W) -> Status> {
    /// Function that is performed on the child's status.
    func: Mapping<W, F>,
    /// Child node.
    child: Node<'a, W>,
}

impl<'a, W, F: Fn(Status, &W) -> Status> Decorator<'a, W, F> {
    /// The child of this node.
    pub closed spec fn child(&self) -> Node<'a, W> {
        self.child
    }

    /// The function that is run on the child's status.
    pub closed spec fn func(&self) -> F {
        self.func.func
    }

    /// Creates the internals of a `Decorator` node with the supplied child
    /// node and function to be run on the child's status.
    pub fn internals(child: Node<'a, W>, func: F) -> (decorator: Self)
        requires
            forall|s: Status, w: &W| call_requires(func, (s, w)),
        ensures
            decorator.child() == child,
            decorator.func() == func,
    {
        Decorator { func: Mapping::new(func), child }
    }

    /// Creates a new Decorator node with the supplied child node and function
    /// to be run on the child's status.
    pub fn new(child: Node<'a, W>, func: F) -> (node: Node<'a, W>) where W: 'a, F: 'a
        requires
            forall|s: Status, w: &W| call_requires(func, (s, w)),
        ensures
            node@ == NodeView::fresh(),
    {
        Node::new(Decorator::internals(child, func))
    }
}

impl<'a, W, F: Fn(Status, &W) -> Status> Tickable<W> for Decorator<'a, W, F> {
    /// The kind name of this node is "Decorator".
    open spec fn kind_is(&self, name: Seq<char>) -> bool {
        name == "Decorator"@
    }

    /// The snapshots show the children of this node, in order.
    open spec fn children_shown(&self, infos: Seq<NodeInfo>) -> bool {
        infos.len() == 1 && snapshot_of(infos[0], self.child())
    }

    fn tick(&mut self, world: &mut W) -> (s: Status)
        ensures
            final(self).func() == old(self).func(),
            final(self).child()@ == old(self).child()@.after_tick(final(self).child()@.status),
            call_ensures(old(self).func(), (final(self).child()@.status, &*final(world)), s),
    {
        let child_status = self.child.tick(world);
        self.func.apply(child_status, world)
    }

    fn reset(&mut self)
        ensures
            final(self).func() == old(self).func(),
            final(self).child()@ == old(self).child()@.after_reset(),
            old(self).child()@.status == Status::Initialized ==> *final(self) == *old(self),
    {
        self.child.reset();
    }

    fn children(&self) -> (infos: Vec<NodeInfo>)
        ensures
            infos@.len() == 1,
            snapshot_of(infos@[0], self.child()),
    {
        let mut infos: Vec<NodeInfo> = Vec::new();
        infos.push(self.child.describe());
        infos
    }

    /// Returns the string "Decorator".
    fn kind_name(&self) -> (r: &str)
        ensures
            r@ == "Decorator"@,
    {
        "Decorator"
    }
}

/// The status with success and failure swapped.
pub open spec fn inverted(s: Status) -> Status {
    match s {
        Status::Succeeded => Status::Failed,
        Status::Failed => Status::Succeeded,
        _ => s,
    }
}

/// A node that will invert the status of its child.
///
/// # State
///
/// **Initialized:** Before being ticked after either being reset or created.
///
/// **Running:** While the child node is running.
///
/// **Succeeded:** When the child node fails.
///
/// **Failed:** When the child node succeeds.
///
/// # Children
///
/// One. It is ticked or reset whenever the invert node is ticked or reset.
#[verifier::reject_recursive_types(W)]
pub struct Invert<'a, W> {
    /// Child node.
    child: Node<'a, W>,
}

impl<'a, W> Invert<'a, W> {
    /// The child of this node.
    pub closed spec fn child(&self) -> Node<'a, W> {
        self.child
    }

    /// Creates the internals of an `Invert` node.
    pub fn internals(child: Node<'a, W>) -> (invert: Self)
        ensures
            invert.child() == child,
    {
        Invert { child }
    }

    /// Creates a new `Invert` node.
    pub fn new(child: Node<'a, W>) -> (node: Node<'a, W>) where W: 'a
        ensures
            node@ == NodeView::fresh(),
    {
        Node::new(Invert::internals(child))
    }

    /// Swaps success and failure; any other status passes through unchanged.
    pub fn invert(child_status: Status) -> (s: Status)
        ensures
            s == inverted(child_status),
    {
        match child_status {
            Status::Succeeded => Status::Failed,
            Status::Failed => Status::Succeeded,
            s => s,
        }
    }
}

impl<'a, W> Tickable<W> for Invert<'a, W> {
    /// The kind name of this node is "Invert".
    open spec fn kind_is(&self, name: Seq<char>) -> bool {
        name == "Invert"@
    }

    /// The snapshots show the children of this node, in order.
    open spec fn children_shown(&self, infos: Seq<NodeInfo>) -> bool {
        infos.len() == 1 && snapshot_of(infos[0], self.child())
    }

    fn tick(&mut self, world: &mut W) -> (s: Status)
        ensures
            final(self).child()@ == old(self).child()@.after_tick(final(self).child()@.status),
            s == inverted(final(self).child()@.status),
    {
        let child_status = self.child.tick(world);
        Invert::<W>::invert(child_status)
    }

    fn reset(&mut self)
        ensures
            final(self).child()@ == old(self).child()@.after_reset(),
            old(self).child()@.status == Status::Initialized ==> *final(self) == *old(self),
    {
        // Reset the child
        self.child.reset();
    }

    fn children(&self) -> (infos: Vec<NodeInfo>)
        ensures
            infos@.len() == 1,
            snapshot_of(infos@[0], self.child()),
    {
        let mut infos: Vec<NodeInfo> = Vec::new();
        infos.push(self.child.describe());
        infos
    }

    /// Returns the string "Invert".
    fn kind_name(&self) -> (r: &str)
        ensures
            r@ == "Invert"@,
    {
        "Invert"
    }
}

/// Inverting twice gives the status back, and a status that is not done is
/// left as it is.
pub proof fn lemma_inverted_twice(s: Status)
    ensures
        inverted(inverted(s)) == s,
        inverted(s).done() == s.done(),
        !s.done() ==> inverted(s) == s,
{
}

} // verus!
