//! Nodes which query the state of the world.
use crate::node::{Node, NodeInfo, NodeView, Tickable};
use crate::status::Status;
use core::marker::PhantomData;
use vstd::prelude::*;

verus! {

/// The status of a condition whose predicate returned `holds`.
pub open spec fn condition_status(holds: bool) -> Status {
    if holds {
        Status::Succeeded
    } else {
        Status::Failed
    }
}

/// A node whose status is determined by a function.
///
/// When ticked, this node will run the supplied function to determine its
/// return value. If the function returns `true`, the node is considered
/// successful - it is considered failed otherwise. Note that this means the node
/// will never be in a running state. As such, all supplied functions should be
/// able to be completed within a single tick's amount of time.
///
/// # State
///
/// **Initialized:** Before being ticked after either being created or reset.
///
/// **Running:** Never.
///
/// **Succeeded:** If the supplied function returns `true`.
///
/// **Failed:** If the supplied function returns `false`.
///
/// # Children
///
/// None
#[verifier::reject_recursive_types(W)]
pub struct Condition<W, F: Fn(&W) -> bool> {
    /// Function that is performed to determine the node's status
    ///
    /// A return value of `true` means success and a return value of `false`
    /// means failure.
    func: F,
    world: PhantomData<W>,
}

impl<W, F: Fn(&W) -> bool> Condition<W, F> {
    /// The predicate can be evaluated on every world.
    #[verifier::type_invariant]
    spec fn total(&self) -> bool {
        forall|w: &W| call_requires(self.func, (w,))
    }

    /// The predicate of this node.
    pub closed spec fn func(&self) -> F {
        self.func
    }

    /// Creates the internals of a Condition node that will run the given
    /// function.
    pub fn internals(func: F) -> (condition: Self)
        requires
            forall|w: &W| call_requires(func, (w,)),
        ensures
            condition.func() == func,
    {
        Condition { func, world: PhantomData }
    }

    /// Constructs a new Condition node that will run the given function.
    pub fn new<'a>(func: F) -> (node: Node<'a, W>) where W: 'a, F: 'a
        requires
            forall|w: &W| call_requires(func, (w,)),
        ensures
            node@ == NodeView::fresh(),
    {
        Node::new(Condition::internals(func))
    }
}

impl<W, F: Fn(&W) -> bool> Tickable<W> for Condition<W, F> {
    /// This node has no children.
    open spec fn children_shown(&self, infos: Seq<NodeInfo>) -> bool {
        infos.len() == 0
    }

    /// The kind name of this node is "Condition".
    open spec fn kind_is(&self, name: Seq<char>) -> bool {
        name == "Condition"@
    }

    fn tick(&mut self, world: &mut W) -> (s: Status)
        ensures
            *final(self) == *old(self),
            *final(world) == *old(world),
            exists|holds: bool| #[trigger]
                call_ensures(old(self).func(), (&*old(world),), holds) && s == condition_status(
                    holds,
                ),
            s.done(),
    {
        proof {
            use_type_invariant(&*self);
        }
        let holds = (self.func)(world);
        proof {
            assert(call_ensures(old(self).func(), (&*old(world),), holds));
        }
        if holds {
            Status::Succeeded
        } else {
            Status::Failed
        }
    }

    fn reset(&mut self)
        ensures
            *final(self) == *old(self),
    {
        // No-op
    }

    /// Returns the string "Condition".
    fn kind_name(&self) -> (r: &str)
        ensures
            r@ == "Condition"@,
    {
        "Condition"
    }
}

} // verus!
