//! Nodes that tick their children in parallel
use crate::node::{Node, NodeInfo, NodeView, Tickable};
use crate::status::Status;
use crate::std_nodes::children::{all_reset, describe_all, reset_all, snapshots_of};
use vstd::prelude::*;

verus! {

/// How many of the statuses are `which`.
pub open spec fn count_status(statuses: Seq<Status>, which: Status) -> nat
    decreases statuses.len(),
{
    if statuses.len() == 0 {
        0
    } else {
        count_status(statuses.drop_last(), which) + if statuses.last() == which {
            1nat
        } else {
            0nat
        }
    }
}

/// The statuses of the nodes, in order.
pub open spec fn statuses<'a, W>(nodes: Seq<Node<'a, W>>) -> Seq<Status> {
    Seq::new(nodes.len(), |i: int| nodes[i]@.status)
}

/// What a vote of `total` children comes to when `required` of them have to
/// succeed: success once enough have succeeded, failure once so many have
/// failed that the others cannot reach the threshold even if all of them
/// succeed, and running otherwise.
pub open spec fn threshold_verdict(successes: nat, failures: nat, required: nat, total: nat) -> Status {
    if successes >= required {
        Status::Succeeded
    } else if failures + required > total {
        Status::Failed
    } else {
        Status::Running
    }
}

/// Every node has run to completion.
pub open spec fn all_done<'a, W>(nodes: Seq<Node<'a, W>>) -> bool {
    forall|i: int| 0 <= i < nodes.len() ==> (#[trigger] nodes[i])@.status.done()
}

/// One round of a vote: a child that was done is left alone, so that it is
/// not restarted, and every other child was ticked once.
pub open spec fn polled<'a, W>(pre: Seq<Node<'a, W>>, post: Seq<Node<'a, W>>) -> bool {
    &&& post.len() == pre.len()
    &&& forall|i: int|
        0 <= i < pre.len() ==> if pre[i]@.status.done() {
            #[trigger] post[i] == pre[i]
        } else {
            post[i]@ == pre[i]@.after_tick(post[i]@.status)
        }
}

/// A node that handles "concurrent" behavior.
///
/// Every tick, this node will tick all of its children that have not been run
/// to completion. Success or failure of this node is determined by how many of
/// its children are in a successful or failed state. If the specified number
/// of children have succeeded, this node succeeds. If it is impossible for the
/// remaining children to bring the success count to the required threshold then
/// the node fails. Otherwise it is considered running.
///
/// Note that a threshold of zero means this node always succeeds on the first
/// tick and a threshold greater than the number of children means this node
/// always fails on the first tick.
///
/// # State
///
/// **Initialized:** Before being ticked after either being created or reset.
///
/// **Running:** As long as the successful child count is below the threshold
/// and the running children could potentially make the successful count cross
/// the threshold.
///
/// **Succeeded:** The count of successful children has reached the threshold.
///
/// **Failed:** The sum of the successful children and the running children is
/// smaller than the threshold.
///
/// # Children
///
/// Any number. The children will be reset when this node is reset but may not
/// necessarily ticked when this node is, depending on their current status.
///
/// There is a possibility that some children may not be ticked to completion
/// based on when the `Parallel` node crosses its success or failure threshold.
#[verifier::reject_recursive_types(W)]
pub struct Parallel<'a, W> {
    /// Child nodes.
    children: Vec<Node<'a, W>>,
    /// Number of child nodes required to succeed.
    required_successes: usize,
}

impl<'a, W> Parallel<'a, W> {
    /// The children of this node.
    pub closed spec fn nodes(&self) -> Seq<Node<'a, W>> {
        self.children@
    }

    /// The number of children that have to succeed.
    pub closed spec fn required(&self) -> nat {
        self.required_successes as nat
    }

    /// Creates the internals of a `Parallel` node with the given children and
    /// required number of successes.
    pub fn internals(required_successes: usize, children: Vec<Node<'a, W>>) -> (par: Self)
        ensures
            par.nodes() == children@,
            par.required() == required_successes,
    {
        Parallel { children, required_successes }
    }

    /// Creates a `Parallel` node with the given children and required number
    /// of successes.
    pub fn new(required_successes: usize, children: Vec<Node<'a, W>>) -> (node: Node<'a, W>) where
        W: 'a,

        ensures
            node@ == NodeView::fresh(),
    {
        Node::new(Parallel::internals(required_successes, children))
    }

    /// Decides the vote from the tallies of succeeded and failed children.
    pub fn verdict(successes: usize, failures: usize, required: usize, total: usize) -> (s: Status)
        ensures
            s == threshold_verdict(successes as nat, failures as nat, required as nat, total as nat),
    {
        if successes >= required {
            // Enough children succeeded
            Status::Succeeded
        } else if required > total || failures > total - required {
            // Too many children failed - it is impossible to succeed
            Status::Failed
        } else {
            // Status is still undetermined
            Status::Running
        }
    }
}

impl<'a, W> Tickable<W> for Parallel<'a, W> {
    /// The kind name of this node is "Parallel".
    open spec fn kind_is(&self, name: Seq<char>) -> bool {
        name == "Parallel"@
    }

    /// The snapshots show the children of this node, in order.
    open spec fn children_shown(&self, infos: Seq<NodeInfo>) -> bool {
        snapshots_of(infos, self.nodes())
    }

    fn tick(&mut self, world: &mut W) -> (s: Status)
        ensures
            polled(old(self).nodes(), final(self).nodes()),
            final(self).required() == old(self).required(),
            s == threshold_verdict(
                count_status(statuses(final(self).nodes()), Status::Succeeded),
                count_status(statuses(final(self).nodes()), Status::Failed),
                old(self).required(),
                old(self).nodes().len(),
            ),
            all_done(old(self).nodes()) ==> *final(world) == *old(world),
    {
        let ghost before = self.children@;
        // The statuses of the children that were gone through
        let ghost mut seen: Seq<Status> = Seq::empty();
        let mut successes: usize = 0;
        let mut failures: usize = 0;
        // Go through all the children to determine success or failure
        let mut i: usize = 0;
        while i < self.children.len()
            invariant
                self.children@.len() == before.len(),
                self.required_successes == old(self).required_successes,
                i <= before.len(),
                seen.len() == i,
                forall|j: int| 0 <= j < i ==> #[trigger] seen[j] == self.children@[j]@.status,
                successes == count_status(seen, Status::Succeeded),
                failures == count_status(seen, Status::Failed),
                successes <= i,
                failures <= i,
                (forall|j: int| 0 <= j < i ==> (#[trigger] before[j])@.status.done()) ==> *world
                    == *old(world),
                forall|j: int|
                    0 <= j < i ==> if before[j]@.status.done() {
                        #[trigger] self.children@[j] == before[j]
                    } else {
                        self.children@[j]@ == before[j]@.after_tick(self.children@[j]@.status)
                    },
                forall|j: int| i <= j < before.len() ==> #[trigger] self.children@[j] == before[j],
            decreases before.len() - i,
        {
            // Check if this child has already completed
            let child_status = if self.children[i].status().is_done() {
                // It has, so we don't want to tick it again and accidentally
                // restart it
                self.children[i].status()
            } else {
                self.children[i].tick(world)
            };
            proof {
                assert(seen.push(child_status).drop_last() == seen);
                seen = seen.push(child_status);
            }
            if child_status == Status::Succeeded {
                successes += 1;
            } else if child_status == Status::Failed {
                failures += 1;
            }
            i += 1;
        }
        proof {
            assert(seen == statuses(self.children@));
        }
        // Return a result based on the children
        Parallel::<W>::verdict(successes, failures, self.required_successes, self.children.len())
    }

    fn reset(&mut self)
        ensures
            all_reset(old(self).nodes(), final(self).nodes()),
            final(self).required() == old(self).required(),
    {
        // Reset all of our children
        reset_all(&mut self.children);
    }

    fn children(&self) -> (infos: Vec<NodeInfo>)
        ensures
            snapshots_of(infos@, self.nodes()),
    {
        describe_all(&self.children)
    }

    /// Returns the string "Parallel".
    fn kind_name(&self) -> (r: &str)
        ensures
            r@ == "Parallel"@,
    {
        "Parallel"
    }
}

/// A threshold of zero is met whatever the children do, and a threshold
/// above the number of children cannot be met by them.
pub proof fn lemma_threshold_edges(successes: nat, failures: nat, required: nat, total: nat)
    ensures
        required == 0 ==> threshold_verdict(successes, failures, required, total)
            == Status::Succeeded,
        required > total && successes <= total ==> threshold_verdict(
            successes,
            failures,
            required,
            total,
        ) == Status::Failed,
{
}

/// The vote fails exactly when the threshold is out of reach: when it is not
/// met even if every child that has not failed succeeds.
pub proof fn lemma_threshold_fails_when_out_of_reach(
    successes: nat,
    failures: nat,
    required: nat,
    total: nat,
)
    requires
        successes + failures <= total,
    ensures
        threshold_verdict(successes, failures, required, total) == Status::Failed <==> total
            - failures < required,
        threshold_verdict(successes, failures, required, total) == Status::Succeeded <==> successes
            >= required,
{
}

/// No status is counted more often than there are statuses, and a status is
/// counted as succeeded or as failed, never as both.
pub proof fn lemma_count_status_bounds(statuses: Seq<Status>)
    ensures
        count_status(statuses, Status::Succeeded) + count_status(statuses, Status::Failed)
            <= statuses.len(),
    decreases statuses.len(),
{
    if statuses.len() > 0 {
        lemma_count_status_bounds(statuses.drop_last());
    }
}

} // verus!
