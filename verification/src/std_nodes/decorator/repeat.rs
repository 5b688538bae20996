//! A decorator that runs its child a number of times.
use crate::node::{snapshot_of, Node, NodeInfo, NodeView, Tickable};
use crate::status::Status;
use crate::std_nodes::decorator::attempts::{counted, limit_reached, Attempts};
use vstd::prelude::*;

verus! {

/// What a `Repeat` node makes of the status `child_status` that the tick of
/// its child returned: the child, the count of completed runs and the
/// status of the node afterwards.
///
/// A child that has run to completion, whether it succeeded or failed, is
/// counted and reset; the node succeeds once the count reaches the limit and
/// is running until then.
pub open spec fn repeat_step(
    ticked_child: NodeView,
    limit: Option<u32>,
    made: nat,
    child_status: Status,
) -> (NodeView, nat, Status) {
    if child_status.done() {
        let made = counted(limit, made);
        (
            ticked_child.after_reset(),
            made,
            if limit_reached(limit, made) {
                Status::Succeeded
            } else {
                Status::Running
            },
        )
    } else {
        (ticked_child, made, Status::Running)
    }
}

/// A node that will repeat its child a specific number of times, possibly infinite.
///
/// A repeat node will report that it is running until its child node has been
/// run to completion the specified number of times, upon which it will be
/// considered successful. This could also be an infinite number, in which case
/// this node will always be considered running.
///
/// # State
///
/// **Initialized:** Before being ticked after either being reset or created.
///
/// **Running:** Until the child node has been run to completion the specified
/// number of times. If there is no limit, always.
///
/// **Succeeded:** Once the child has been run to completion the specified
/// number of times. If there is no limit, never.
///
/// **Failed:** Never.
///
/// # Children
///
/// One. It is ticked or reset whenever the repeat node is ticked or reset. It
/// is also reset each time it has run to completion.
#[verifier::reject_recursive_types(W)]
pub struct Repeat<'a, W> {
    /// Child node.
    child: Node<'a, W>,
    /// The completed runs of the child and their optional limit.
    attempts: Attempts,
}

impl<'a, W> Repeat<'a, W> {
    /// The child of this node.
    pub closed spec fn child(&self) -> Node<'a, W> {
        self.child
    }

    /// The number of runs after which the node succeeds, if there is one.
    pub closed spec fn limit(&self) -> Option<u32> {
        self.attempts.limit()
    }

    /// The number of times the child has run to completion since the last
    /// reset.
    pub closed spec fn attempts(&self) -> nat {
        self.attempts.made()
    }

    /// Creates the internals of a `Repeat` node with the given limit, or
    /// without one.
    pub fn internals(limit: Option<u32>, child: Node<'a, W>) -> (repeat: Self)
        ensures
            repeat.child() == child,
            repeat.limit() == limit,
            repeat.attempts() == 0,
    {
        let attempts = match limit {
            Some(limit) => Attempts::limited(limit),
            None => Attempts::unlimited(),
        };
        Repeat { child, attempts }
    }

    /// Creates a new Repeat node that will repeat forever.
    pub fn new(child: Node<'a, W>) -> (node: Node<'a, W>) where W: 'a
        ensures
            node@ == NodeView::fresh(),
    {
        Node::new(Repeat::internals(None, child))
    }

    /// Creates a new Repeat node that will only repeat a limited number of times.
    ///
    /// The limit specifies the number of times the child is run. A limit
    /// of zero means that the node will instantly succeed.
    pub fn with_limit(limit: u32, child: Node<'a, W>) -> (node: Node<'a, W>) where W: 'a
        ensures
            node@ == NodeView::fresh(),
    {
        Node::new(Repeat::internals(Some(limit), child))
    }

    /// Takes in the status that the tick of the child returned and returns
    /// the status of this node.
    pub fn settle(&mut self, child_status: Status) -> (s: Status)
        ensures
            final(self).limit() == old(self).limit(),
            (final(self).child()@, final(self).attempts(), s) == repeat_step(
                old(self).child()@,
                old(self).limit(),
                old(self).attempts(),
                child_status,
            ),
            !child_status.done() ==> final(self).child() == old(self).child(),
    {
        if child_status.is_done() {
            self.attempts.count();
            self.child.reset();
            if self.attempts.is_exhausted() {
                Status::Succeeded
            } else {
                Status::Running
            }
        } else {
            // We're still running
            Status::Running
        }
    }
}

impl<'a, W> Tickable<W> for Repeat<'a, W> {
    /// The kind name of this node is "Repeat".
    open spec fn kind_is(&self, name: Seq<char>) -> bool {
        name == "Repeat"@
    }

    /// The snapshots show the children of this node, in order.
    open spec fn children_shown(&self, infos: Seq<NodeInfo>) -> bool {
        infos.len() == 1 && snapshot_of(infos[0], self.child())
    }

    fn tick(&mut self, world: &mut W) -> (s: Status)
        ensures
            final(self).limit() == old(self).limit(),
            limit_reached(old(self).limit(), old(self).attempts()) ==> s == Status::Succeeded
                && *final(self) == *old(self) && *final(world) == *old(world),
            !limit_reached(old(self).limit(), old(self).attempts()) ==> exists|child_status: Status|
                (final(self).child()@, final(self).attempts(), s) == #[trigger] repeat_step(
                    old(self).child()@.after_tick(child_status),
                    old(self).limit(),
                    old(self).attempts(),
                    child_status,
                ),
    {
        if self.attempts.is_exhausted() {
            return Status::Succeeded;
        }
        let child_status = self.child.tick(world);
        let s = self.settle(child_status);
        proof {
            assert((self.child()@, self.attempts(), s) == repeat_step(
                old(self).child()@.after_tick(child_status),
                old(self).limit(),
                old(self).attempts(),
                child_status,
            ));
        }
        s
    }

    fn reset(&mut self)
        ensures
            final(self).limit() == old(self).limit(),
            final(self).attempts() == 0,
            final(self).child()@ == old(self).child()@.after_reset(),
            old(self).child()@.status == Status::Initialized ==> final(self).child() == old(
                self,
            ).child(),
    {
        // Reset our attempt count
        self.attempts.clear();
        // Reset the child
        self.child.reset();
    }

    fn children(&self) -> (infos: Vec<NodeInfo>)
        ensures
            infos@.len() == 1,
            snapshot_of(infos@[0], self.child()),
    {
        let mut infos: Vec<NodeInfo> = Vec::new();
        infos.push(self.child.describe());
        infos
    }

    /// Returns the string "Repeat".
    fn kind_name(&self) -> (r: &str)
        ensures
            r@ == "Repeat"@,
    {
        "Repeat"
    }
}

/// A run of the child that is counted below the limit: the child is reset,
/// the count goes up by one, and the node succeeds with the run that reaches
/// the limit and is running on every run before it.
pub proof fn lemma_repeat_counts_each_run(
    ticked_child: NodeView,
    limit: u32,
    made: nat,
    child_status: Status,
)
    requires
        child_status.done(),
        made < limit,
    ensures
        repeat_step(ticked_child, Some(limit), made, child_status) == (
            ticked_child.after_reset(),
            made + 1,
            if made + 1 == limit {
                Status::Succeeded
            } else {
                Status::Running
            },
        ),
{
}

/// Without a limit the node is running whatever its child returns.
pub proof fn lemma_repeat_without_limit_is_running(
    ticked_child: NodeView,
    made: nat,
    child_status: Status,
)
    ensures
        repeat_step(ticked_child, None, made, child_status).2 == Status::Running,
{
}

/// A tick on which the child is not done changes nothing but the child, and
/// the node is running.
pub proof fn lemma_repeat_waits_for_child(
    ticked_child: NodeView,
    limit: Option<u32>,
    made: nat,
    child_status: Status,
)
    requires
        !child_status.done(),
    ensures
        repeat_step(ticked_child, limit, made, child_status) == (
            ticked_child,
            made,
            Status::Running,
        ),
{
}

} // verus!
