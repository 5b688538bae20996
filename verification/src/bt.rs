//! The driver of a behavior tree: it holds the root node and ticks it.
use crate::node::{snapshot_of, Node, NodeInfo, Tickable};
use crate::status::{status_text, Status};
use vstd::prelude::*;
use vstd::string::StringExecFns;

verus! {

/// How often a tree is to be ticked when it is run.
#[derive(Copy, Clone, PartialEq, Eq, Debug, Structural)]
pub enum Rate {
    /// Tick exactly once.
    Once,
    /// Tick once in every period of this many nanoseconds.
    Every(u64),
    /// Tick as fast as possible, without ever sleeping.
    Unpaced,
}

/// What a run does after a tick.
#[derive(Copy, Clone, PartialEq, Eq, Debug, Structural)]
pub enum Pace {
    /// The run is over.
    Stop,
    /// Tick again at once.
    Continue,
    /// Sleep for this many nanoseconds, the rest of the period, and tick
    /// again.
    Sleep(u64),
    /// The tick took this many nanoseconds more than a period has, or used
    /// it up to the last: tick again at once, and let it be known. The time
    /// that was lost is not made up for.
    Overrun(u64),
}

/// What a run at the given rate does after a tick that returned `status` and
/// took `elapsed` nanoseconds.
///
/// A run goes on for as long as the tree is running. Between two ticks it
/// sleeps for what is left of the period, and it never sleeps when it is not
/// paced.
pub open spec fn pace_after(rate: Rate, status: Status, elapsed: u64) -> Pace {
    match rate {
        Rate::Once => Pace::Stop,
        Rate::Unpaced => if status == Status::Running {
            Pace::Continue
        } else {
            Pace::Stop
        },
        Rate::Every(period) => if status != Status::Running {
            Pace::Stop
        } else if elapsed < period {
            Pace::Sleep((period - elapsed) as u64)
        } else {
            Pace::Overrun((elapsed - period) as u64)
        },
    }
}

/// Main behavior tree struct.
#[verifier::reject_recursive_types(W)]
pub struct BehaviorTree<'a, W> {
    /// Root node of the behavior tree.
    root: Node<'a, W>,
}

impl<'a, W> BehaviorTree<'a, W> {
    /// The root node of the tree.
    pub closed spec fn root_node(&self) -> &Node<'a, W> {
        &self.root
    }

    /// Create a new behavior tree with the supplied `Node` as the root.
    pub fn new(root: Node<'a, W>) -> (tree: BehaviorTree<'a, W>)
        ensures
            *tree.root_node() == root,
    {
        BehaviorTree { root }
    }

    /// Returns a reference to the root node.
    #[verifier::when_used_as_spec(root_node)]
    pub fn root(&self) -> (root: &Node<'a, W>)
        ensures
            root == self.root_node(),
    {
        &self.root
    }

    /// Tick the behavior tree a single time.
    ///
    /// If the tree has already been completed, ticking it again will reset it
    /// and then tick it, as for any node.
    pub fn tick(&mut self, world: &mut W) -> (s: Status)
        ensures
            final(self).root_node()@ == old(self).root_node()@.after_tick(s),
            final(self).root_node()@.consistent(),
    {
        self.root.tick(world)
    }

    /// Reset the tree to a state identical to before it had ran.
    pub fn reset(&mut self)
        ensures
            final(self).root_node()@ == old(self).root_node()@.after_reset(),
            final(self).root_node()@.consistent(),
            old(self).root_node()@.status == Status::Initialized ==> *final(self) == *old(self),
    {
        self.root.reset()
    }

    /// Writes the tree out as text: the status of the root and the text of
    /// the root with everything below it.
    pub fn render(&self) -> (out: String)
        ensures
            exists|info: NodeInfo|
                snapshot_of(info, *self.root_node()) && out@ == "BehaviorTree:( status = "@
                    + status_text(self.root_node()@.status) + ", root = "@ + #[trigger] info.text()
                    + " )"@,
    {
        let info = self.root.describe();
        let root = info.render();
        let mut out = "BehaviorTree:( status = ".to_owned();
        out.append(self.root.status().label());
        out.append(", root = ");
        out.append(root.as_str());
        out.append(" )");
        out
    }

    /// Decides what a run at the given rate does after a tick that returned
    /// `status` and took `elapsed` nanoseconds.
    pub fn pace(rate: Rate, status: Status, elapsed: u64) -> (pace: Pace)
        ensures
            pace == pace_after(rate, status, elapsed),
    {
        match rate {
            Rate::Once => Pace::Stop,
            Rate::Unpaced => {
                if status == Status::Running {
                    Pace::Continue
                } else {
                    Pace::Stop
                }
            },
            Rate::Every(period) => {
                if status != Status::Running {
                    Pace::Stop
                } else if elapsed < period {
                    Pace::Sleep(period - elapsed)
                } else {
                    Pace::Overrun(elapsed - period)
                }
            },
        }
    }
}

} // verus!
