//! Decorators that run their child again and again until it returns the
//! status they wait for.
use crate::node::{snapshot_of, Node, NodeInfo, NodeView, Tickable};
use crate::status::Status;
use crate::std_nodes::decorator::attempts::{counted, limit_reached, Attempts};
use vstd::prelude::*;

verus! {

/// What a node that waits for its child to return `target` makes of the
/// status `child_status` that the tick of its child returned: the child, the
/// count of completed runs and the status of the node afterwards.
///
/// The node succeeds the instant the child returns `target`. Any other
/// completed run is counted and the child reset; the node fails once the
/// count reaches the limit and is running until then.
pub open spec fn until_step(
    ticked_child: NodeView,
    limit: Option<u32>,
    made: nat,
    target: Status,
    child_status: Status,
) -> (NodeView, nat, Status) {
    if child_status == target {
        (ticked_child, made, Status::Succeeded)
    } else if child_status.done() {
        let made = counted(limit, made);
        (
            ticked_child.after_reset(),
            made,
            if limit_reached(limit, made) {
                Status::Failed
            } else {
                Status::Running
            },
        )
    } else {
        (ticked_child, made, Status::Running)
    }
}

/// Takes in the status that the tick of the child returned, for a node that
/// waits for `target`.
fn settle_until<'a, W>(
    child: &mut Node<'a, W>,
    attempts: &mut Attempts,
    target: Status,
    child_status: Status,
) -> (s: Status)
    ensures
        final(attempts).limit() == old(attempts).limit(),
        (final(child)@, final(attempts).made(), s) == until_step(
            old(child)@,
            old(attempts).limit(),
            old(attempts).made(),
            target,
            child_status,
        ),
        child_status == target || !child_status.done() ==> *final(child) == *old(child),
{
    if child_status == target {
        return Status::Succeeded;
    }
    if child_status.is_done() {
        attempts.count();
        child.reset();
        if attempts.is_exhausted() {
            Status::Failed
        } else {
            Status::Running
        }
    } else {
        // We're still running
        Status::Running
    }
}

/// A node that repeats its child until the child fails.
///
/// This node will return that it is running until the child fails. It can
/// potentially have a finite attempt limit. If the child ever returns that it
/// fails, this node returns that it *succeeds*. If the limit is reached before
/// the child fails, this node *fails*.
///
/// # State
///
/// **Initialized:** Before being ticked after either being created or reset.
///
/// **Running:** While the child node has yet to fail and it is below the
/// attempt limit.
///
/// **Succeeded:** Once the child node fails.
///
/// **Failed:** If the attempt limit was reached before the child failed.
///
/// # Children
///
/// One, which will be ticked or reset every time the `UntilFail` node is
/// ticked or reset. The child is also reset each time it has succeeded.
#[verifier::reject_recursive_types(W)]
pub struct UntilFail<'a, W> {
    /// Child node.
    child: Node<'a, W>,
    /// The completed runs of the child and their optional limit.
    attempts: Attempts,
}

impl<'a, W> UntilFail<'a, W> {
    /// The child of this node.
    pub closed spec fn child(&self) -> Node<'a, W> {
        self.child
    }

    /// The number of runs after which the node gives up, if there is one.
    pub closed spec fn limit(&self) -> Option<u32> {
        self.attempts.limit()
    }

    /// The number of times the child has succeeded since the last reset.
    pub closed spec fn attempts(&self) -> nat {
        self.attempts.made()
    }

    /// Creates the internals of an `UntilFail` node with the given limit, or
    /// without one.
    pub fn internals(limit: Option<u32>, child: Node<'a, W>) -> (until: Self)
        ensures
            until.child() == child,
            until.limit() == limit,
            until.attempts() == 0,
    {
        let attempts = match limit {
            Some(limit) => Attempts::limited(limit),
            None => Attempts::unlimited(),
        };
        UntilFail { child, attempts }
    }

    /// Creates a new `UntilFail` node that will keep trying indefinitely.
    pub fn new(child: Node<'a, W>) -> (node: Node<'a, W>) where W: 'a
        ensures
            node@ == NodeView::fresh(),
    {
        Node::new(UntilFail::internals(None, child))
    }

    /// Creates a new `UntilFail` node that will only retry a specific number of times.
    ///
    /// The limit is the number of times the child will run. A limit of zero
    /// means instant failure.
    pub fn with_limit(limit: u32, child: Node<'a, W>) -> (node: Node<'a, W>) where W: 'a
        ensures
            node@ == NodeView::fresh(),
    {
        Node::new(UntilFail::internals(Some(limit), child))
    }

    /// Takes in the status that the tick of the child returned and returns
    /// the status of this node.
    pub fn settle(&mut self, child_status: Status) -> (s: Status)
        ensures
            final(self).limit() == old(self).limit(),
            (final(self).child()@, final(self).attempts(), s) == until_step(
                old(self).child()@,
                old(self).limit(),
                old(self).attempts(),
                Status::Failed,
                child_status,
            ),
            child_status == Status::Failed || !child_status.done() ==> final(self).child() == old(
                self,
            ).child(),
    {
        settle_until(&mut self.child, &mut self.attempts, Status::Failed, child_status)
    }
}

impl<'a, W> Tickable<W> for UntilFail<'a, W> {
    /// The kind name of this node is "UntilFail".
    open spec fn kind_is(&self, name: Seq<char>) -> bool {
        name == "UntilFail"@
    }

    /// The snapshots show the children of this node, in order.
    open spec fn children_shown(&self, infos: Seq<NodeInfo>) -> bool {
        infos.len() == 1 && snapshot_of(infos[0], self.child())
    }

    fn tick(&mut self, world: &mut W) -> (s: Status)
        ensures
            final(self).limit() == old(self).limit(),
            limit_reached(old(self).limit(), old(self).attempts()) ==> s == Status::Failed
                && *final(self) == *old(self) && *final(world) == *old(world),
            !limit_reached(old(self).limit(), old(self).attempts()) ==> exists|child_status: Status|
                (final(self).child()@, final(self).attempts(), s) == #[trigger] until_step(
                    old(self).child()@.after_tick(child_status),
                    old(self).limit(),
                    old(self).attempts(),
                    Status::Failed,
                    child_status,
                ),
    {
        if self.attempts.is_exhausted() {
            return Status::Failed;
        }
        let child_status = self.child.tick(world);
        let s = self.settle(child_status);
        proof {
            assert((self.child()@, self.attempts(), s) == until_step(
                old(self).child()@.after_tick(child_status),
                old(self).limit(),
                old(self).attempts(),
                Status::Failed,
                child_status,
            ));
        }
        s
    }

    fn reset(&mut self)
        ensures
            final(self).limit() == old(self).limit(),
            final(self).attempts() == 0,
            final(self).child()@ == old(self).child()@.after_reset(),
            old(self).child()@.status == Status::Initialized ==> final(self).child() == old(
                self,
            ).child(),
    {
        // Reset our own status
        self.attempts.clear();
        // Reset the child
        self.child.reset();
    }

    fn children(&self) -> (infos: Vec<NodeInfo>)
        ensures
            infos@.len() == 1,
            snapshot_of(infos@[0], self.child()),
    {
        let mut infos: Vec<NodeInfo> = Vec::new();
        infos.push(self.child.describe());
        infos
    }

    /// Returns the string "UntilFail".
    fn kind_name(&self) -> (r: &str)
        ensures
            r@ == "UntilFail"@,
    {
        "UntilFail"
    }
}

/// A node that repeats its child until the child succeeds.
///
/// This node will return that it is running until the child succeeds. It can
/// potentially have a finite attempt limit. If the child ever returns that it
/// succeeds, this node returns that it *succeeds*. If the limit is reached before
/// the child succeeds, this node *fails*.
///
/// # State
///
/// **Initialized:** Before being ticked after either being created or reset.
///
/// **Running:** While the child node has yet to succeed and it is below the
/// attempt limit.
///
/// **Succeeded:** Once the child node succeeds.
///
/// **Failed:** If the attempt limit was reached before the child succeeded.
///
/// # Children
///
/// One, which will be ticked or reset every time the `UntilSuccess` node is
/// ticked or reset. The child is also reset each time it has failed.
#[verifier::reject_recursive_types(W)]
pub struct UntilSuccess<'a, W> {
    /// Child node.
    child: Node<'a, W>,
    /// The completed runs of the child and their optional limit.
    attempts: Attempts,
}

impl<'a, W> UntilSuccess<'a, W> {
    /// The child of this node.
    pub closed spec fn child(&self) -> Node<'a, W> {
        self.child
    }

    /// The number of runs after which the node gives up, if there is one.
    pub closed spec fn limit(&self) -> Option<u32> {
        self.attempts.limit()
    }

    /// The number of times the child has failed since the last reset.
    pub closed spec fn attempts(&self) -> nat {
        self.attempts.made()
    }

    /// Creates the internals of an `UntilSuccess` node with the given limit,
    /// or without one.
    pub fn internals(limit: Option<u32>, child: Node<'a, W>) -> (until: Self)
        ensures
            until.child() == child,
            until.limit() == limit,
            until.attempts() == 0,
    {
        let attempts = match limit {
            Some(limit) => Attempts::limited(limit),
            None => Attempts::unlimited(),
        };
        UntilSuccess { child, attempts }
    }

    /// Creates a new `UntilSuccess` node that will keep trying indefinitely.
    pub fn new(child: Node<'a, W>) -> (node: Node<'a, W>) where W: 'a
        ensures
            node@ == NodeView::fresh(),
    {
        Node::new(UntilSuccess::internals(None, child))
    }

    /// Creates a new `UntilSuccess` node that will only retry a specific number of times.
    ///
    /// The limit is the number of times the child will run. A limit of zero
    /// means instant failure.
    pub fn with_limit(limit: u32, child: Node<'a, W>) -> (node: Node<'a, W>) where W: 'a
        ensures
            node@ == NodeView::fresh(),
    {
        Node::new(UntilSuccess::internals(Some(limit), child))
    }

    /// Takes in the status that the tick of the child returned and returns
    /// the status of this node.
    pub fn settle(&mut self, child_status: Status) -> (s: Status)
        ensures
            final(self).limit() == old(self).limit(),
            (final(self).child()@, final(self).attempts(), s) == until_step(
                old(self).child()@,
                old(self).limit(),
                old(self).attempts(),
                Status::Succeeded,
                child_status,
            ),
            child_status == Status::Succeeded || !child_status.done() ==> final(self).child()
                == old(self).child(),
    {
        settle_until(&mut self.child, &mut self.attempts, Status::Succeeded, child_status)
    }
}

impl<'a, W> Tickable<W> for UntilSuccess<'a, W> {
    /// The kind name of this node is "UntilSuccess".
    open spec fn kind_is(&self, name: Seq<char>) -> bool {
        name == "UntilSuccess"@
    }

    /// The snapshots show the children of this node, in order.
    open spec fn children_shown(&self, infos: Seq<NodeInfo>) -> bool {
        infos.len() == 1 && snapshot_of(infos[0], self.child())
    }

    fn tick(&mut self, world: &mut W) -> (s: Status)
        ensures
            final(self).limit() == old(self).limit(),
            limit_reached(old(self).limit(), old(self).attempts()) ==> s == Status::Failed
                && *final(self) == *old(self) && *final(world) == *old(world),
            !limit_reached(old(self).limit(), old(self).attempts()) ==> exists|child_status: Status|
                (final(self).child()@, final(self).attempts(), s) == #[trigger] until_step(
                    old(self).child()@.after_tick(child_status),
                    old(self).limit(),
                    old(self).attempts(),
                    Status::Succeeded,
                    child_status,
                ),
    {
        if self.attempts.is_exhausted() {
            return Status::Failed;
        }
        let child_status = self.child.tick(world);
        let s = self.settle(child_status);
        proof {
            assert((self.child()@, self.attempts(), s) == until_step(
                old(self).child()@.after_tick(child_status),
                old(self).limit(),
                old(self).attempts(),
                Status::Succeeded,
                child_status,
            ));
        }
        s
    }

    fn reset(&mut self)
        ensures
            final(self).limit() == old(self).limit(),
            final(self).attempts() == 0,
            final(self).child()@ == old(self).child()@.after_reset(),
            old(self).child()@.status == Status::Initialized ==> final(self).child() == old(
                self,
            ).child(),
    {
        // Reset our own status
        self.attempts.clear();
        // Reset the child
        self.child.reset();
    }

    fn children(&self) -> (infos: Vec<NodeInfo>)
        ensures
            infos@.len() == 1,
            snapshot_of(infos@[0], self.child()),
    {
        let mut infos: Vec<NodeInfo> = Vec::new();
        infos.push(self.child.describe());
        infos
    }

    /// Returns the string "UntilSuccess".
    fn kind_name(&self) -> (r: &str)
        ensures
            r@ == "UntilSuccess"@,
    {
        "UntilSuccess"
    }
}

/// The node succeeds on the very tick on which its child returns the status
/// it waits for, whatever the limit and the count, and leaves the child as
/// the tick left it.
pub proof fn lemma_until_succeeds_at_once(
    ticked_child: NodeView,
    limit: Option<u32>,
    made: nat,
    target: Status,
)
    ensures
        until_step(ticked_child, limit, made, target, target) == (
            ticked_child,
            made,
            Status::Succeeded,
        ),
{
}

/// A completed run that does not return the status the node waits for is
/// counted, and the node fails with the run that reaches the limit and is
/// running on every run before it.
pub proof fn lemma_until_counts_each_miss(
    ticked_child: NodeView,
    limit: u32,
    made: nat,
    target: Status,
    child_status: Status,
)
    requires
        child_status.done(),
        child_status != target,
        made < limit,
    ensures
        until_step(ticked_child, Some(limit), made, target, child_status) == (
            ticked_child.after_reset(),
            made + 1,
            if made + 1 == limit {
                Status::Failed
            } else {
                Status::Running
            },
        ),
{
}

/// Without a limit the node never fails.
pub proof fn lemma_until_without_limit_never_fails(
    ticked_child: NodeView,
    made: nat,
    target: Status,
    child_status: Status,
)
    ensures
        until_step(ticked_child, None, made, target, child_status).2 != Status::Failed,
{
}

} // verus!
