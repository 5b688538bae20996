//! Nodes that cause the execution of tasks.
use crate::node::{Node, NodeInfo, NodeView, Tickable};
use crate::status::Status;
use core::marker::PhantomData;
use vstd::prelude::*;

verus! {

/// A task that was started and runs on its own, apart from the ticks.
pub trait Worker {
    /// Asks, without waiting, whether the task has finished. Returns the
    /// status that the task computed once it has, and `None` until then.
    fn poll(&mut self) -> Option<Status>;

    /// Waits until the task has finished and all that ran it has ended.
    fn join(&mut self);
}

/// Something that starts a task on the state of the world.
pub trait Launcher<W> {
    /// What runs the task once it is started.
    type Handle: Worker;

    /// Starts the task on the given world, without waiting for it.
    fn launch(&self, world: &W) -> Self::Handle;
}

/// Where an `Action` node stands with its task.
pub enum Phase {
    /// No task was started since the node was created or reset, or the task
    /// that was started has ended without being done.
    Idle,
    /// The task was started and has not been seen to end.
    Working,
    /// The task has ended with this status, which is done.
    Finished(Status),
}

/// What an `Action` node with a task at work makes of the answer that its
/// worker gave when polled: where the node stands afterwards, and its
/// status.
///
/// While there is no answer the node is running. An answer that is done is
/// kept and returned. An answer that is not done is returned, and the node
/// goes back to the start: the next tick starts the task again.
pub open spec fn after_poll(polled: Option<Status>) -> (Phase, Status) {
    match polled {
        None => (Phase::Working, Status::Running),
        Some(s) => if s.done() {
            (Phase::Finished(s), s)
        } else {
            (Phase::Idle, s)
        },
    }
}

/// The mathematical model of an `Action` node.
pub ghost struct ActionView {
    /// Where the node stands with its task.
    pub phase: Phase,
    /// The number of workers that the node has started.
    pub launched: nat,
    /// The number of workers that the node has waited for until they had
    /// ended.
    pub joined: nat,
}

impl ActionView {
    /// A node that was just created.
    pub open spec fn fresh() -> ActionView {
        ActionView { phase: Phase::Idle, launched: 0, joined: 0 }
    }

    /// A worker is outstanding: it was started and not yet joined. The node
    /// holds on to its worker from the tick that starts it to the reset, or
    /// to the tick on which the task is seen to have ended without being
    /// done.
    pub open spec fn outstanding(self) -> bool {
        self.phase != Phase::Idle
    }

    /// The workers are accounted for: the one that may be outstanding is the
    /// only one that was started and not joined.
    pub open spec fn balanced(self) -> bool {
        self.launched == self.joined + if self.outstanding() {
            1nat
        } else {
            0nat
        }
    }

    /// The node and its status after a tick, where `polled` is what the
    /// worker answers if the tick asks it.
    ///
    /// An idle node starts one worker and is running. A node whose task has
    /// finished returns the status it finished with and touches nothing. A
    /// node with a task at work asks the worker, and joins it if the task
    /// has ended without being done.
    pub open spec fn after_tick(self, polled: Option<Status>) -> (ActionView, Status) {
        match self.phase {
            Phase::Idle => (
                ActionView {
                    phase: Phase::Working,
                    launched: self.launched + 1,
                    joined: self.joined,
                },
                Status::Running,
            ),
            Phase::Working => (
                ActionView {
                    phase: after_poll(polled).0,
                    launched: self.launched,
                    joined: if after_poll(polled).0 == Phase::Idle {
                        self.joined + 1
                    } else {
                        self.joined
                    },
                },
                after_poll(polled).1,
            ),
            Phase::Finished(outcome) => (self, outcome),
        }
    }

    /// The node after a reset: the outstanding worker, if there is one, was
    /// joined, and the node is idle.
    pub open spec fn after_reset(self) -> ActionView {
        ActionView {
            phase: Phase::Idle,
            launched: self.launched,
            joined: if self.outstanding() {
                self.joined + 1
            } else {
                self.joined
            },
        }
    }
}

/// What an `Action` node holds of its task.
enum Work<H> {
    /// Nothing.
    Idle,
    /// The worker that runs the task.
    Working(H),
    /// The worker that ran the task, and the status that the task computed.
    Finished(H, Status),
}

/// A node that manages the execution of tasks that run apart from the ticks.
///
/// This node will launch the supplied task and ticks will monitor the state
/// of the worker that runs it. The status that the task computes is the
/// status of the Action node.
///
/// Note that the task will be started again the next tick if it
/// returns either `Initialized` or `Running`.
///
/// # State
///
/// **Initialized:** Before being ticked after either being created or reset,
/// or if the task returned `Initialized`.
///
/// **Running:** While the task is being executed or if the task returned
/// `Running`.
///
/// **Succeeded:** When the task returns `Succeeded`.
///
/// **Failed:** When the task returns `Failed`.
///
/// # Children
///
/// None.
#[verifier::reject_recursive_types(W)]
#[verifier::reject_recursive_types(L)]
pub struct Action<W, L: Launcher<W>> {
    /// Starts the task which is to be run.
    launcher: L,
    /// The worker that was started last, until it is joined.
    work: Work<L::Handle>,
    /// How many workers were started.
    launched: Ghost<nat>,
    /// How many workers were waited for until they had ended.
    joined: Ghost<nat>,
    world: PhantomData<W>,
}

impl<W, L: Launcher<W>> View for Action<W, L> {
    type V = ActionView;

    closed spec fn view(&self) -> ActionView {
        ActionView {
            phase: match self.work {
                Work::Idle => Phase::Idle,
                Work::Working(_) => Phase::Working,
                Work::Finished(_, outcome) => Phase::Finished(outcome),
            },
            launched: self.launched@,
            joined: self.joined@,
        }
    }
}

impl<W, L: Launcher<W>> Action<W, L> {
    /// Creates the internals of an Action node that will execute the given
    /// task.
    pub fn internals(launcher: L) -> (action: Self)
        ensures
            action@ == ActionView::fresh(),
    {
        Action {
            launcher,
            work: Work::Idle,
            launched: Ghost(0),
            joined: Ghost(0),
            world: PhantomData,
        }
    }

    /// Creates a new Action node that will execute the given task.
    pub fn new<'a>(launcher: L) -> (node: Node<'a, W>) where W: 'a, L: 'a
        ensures
            node@ == NodeView::fresh(),
    {
        Node::new(Action::internals(launcher))
    }

    /// Decides what the answer of a polled worker means: the status of the
    /// node, and whether the task has finished with it.
    pub fn settle(polled: Option<Status>) -> (r: (Status, bool))
        ensures
            r.0 == after_poll(polled).1,
            r.1 == (after_poll(polled).0 == Phase::Finished(r.0)),
            r.1 == (after_poll(polled).0 is Finished),
    {
        match polled {
            None => (Status::Running, false),
            Some(s) => (s, s.is_done()),
        }
    }
}

impl<W, L: Launcher<W>> Tickable<W> for Action<W, L> {
    /// This node has no children.
    open spec fn children_shown(&self, infos: Seq<NodeInfo>) -> bool {
        infos.len() == 0
    }

    /// The kind name of this node is "Action".
    open spec fn kind_is(&self, name: Seq<char>) -> bool {
        name == "Action"@
    }

    /// Ticks the Action node a single time.
    ///
    /// The first time being ticked after being reset (or initialized), it
    /// will launch the task on `world`. Later ticks ask the worker for the
    /// status that the task computed, without waiting for it.
    fn tick(&mut self, world: &mut W) -> (s: Status)
        ensures
            *final(world) == *old(world),
            exists|polled: Option<Status>|
                (final(self)@, s) == #[trigger] old(self)@.after_tick(polled),
            old(self)@.phase is Finished ==> *final(self) == *old(self),
    {
        let mut work = Work::Idle;
        core::mem::swap(&mut work, &mut self.work);
        match work {
            Work::Idle => {
                let worker = self.launcher.launch(world);
                self.work = Work::Working(worker);
                self.launched = Ghost(self.launched@ + 1);
                proof {
                    assert((self@, Status::Running) == old(self)@.after_tick(None));
                }
                Status::Running
            },
            Work::Working(worker) => {
                let mut worker = worker;
                let polled = worker.poll();
                let (s, finished) = Action::<W, L>::settle(polled);
                if finished {
                    self.work = Work::Finished(worker, s);
                } else if polled.is_some() {
                    // The task has ended without being done. It starts anew
                    // on the next tick, once all that ran it has ended.
                    worker.join();
                    self.joined = Ghost(self.joined@ + 1);
                } else {
                    self.work = Work::Working(worker);
                }
                proof {
                    assert((self@, s) == old(self)@.after_tick(polled));
                }
                s
            },
            Work::Finished(worker, outcome) => {
                self.work = Work::Finished(worker, outcome);
                proof {
                    assert((self@, outcome) == old(self)@.after_tick(None));
                }
                outcome
            },
        }
    }

    /// Resets the internal state of this node.
    ///
    /// If there is a task currently running, this will wait until the task is
    /// completed.
    fn reset(&mut self)
        ensures
            final(self)@ == old(self)@.after_reset(),
    {
        // A worker is never detached: a node that only looked like it had
        // been fully reset would be worse than one that makes its caller wait.
        let mut work = Work::Idle;
        core::mem::swap(&mut work, &mut self.work);
        match work {
            Work::Idle => {},
            Work::Working(worker) => {
                let mut worker = worker;
                worker.join();
                self.joined = Ghost(self.joined@ + 1);
            },
            Work::Finished(worker, _) => {
                let mut worker = worker;
                worker.join();
                self.joined = Ghost(self.joined@ + 1);
            },
        }
    }

    /// Returns the constant string "Action"
    fn kind_name(&self) -> (r: &str)
        ensures
            r@ == "Action"@,
    {
        "Action"
    }
}

/// A node never has more than one worker outstanding, and none after a
/// reset: every worker that was started has been waited for by the time the
/// reset returns.
pub proof fn lemma_action_workers_accounted_for(v: ActionView, polled: Option<Status>)
    requires
        v.balanced(),
    ensures
        ActionView::fresh().balanced(),
        v.launched <= v.joined + 1,
        v.after_tick(polled).0.balanced(),
        v.after_reset().balanced(),
        v.after_reset().joined == v.after_reset().launched,
        !v.after_reset().outstanding(),
{
}

/// A tick starts a worker only where none is outstanding, and then exactly
/// one.
pub proof fn lemma_action_starts_one_worker(v: ActionView, polled: Option<Status>)
    ensures
        v.after_tick(polled).0.launched == v.launched + if v.outstanding() {
            0nat
        } else {
            1nat
        },
        !v.outstanding() ==> v.after_tick(polled) == (
            ActionView { phase: Phase::Working, launched: v.launched + 1, joined: v.joined },
            Status::Running,
        ),
{
}

/// The status that the task finished with is returned on every tick until
/// the node is reset, and only a status that is done is kept so.
pub proof fn lemma_action_keeps_final_status(v: ActionView, polled: Option<Status>)
    ensures
        v.phase matches Phase::Finished(outcome) ==> v.after_tick(polled) == (v, outcome),
        v.phase == Phase::Working && v.after_tick(polled).0.phase is Finished ==> (polled
            matches Some(s) && s.done() && v.after_tick(polled).0.phase == Phase::Finished(s)
            && v.after_tick(polled).1 == s),
{
}

/// A node that manages the execution of tasks within the ticking thread.
///
/// This node is an alternative to a normal Action node which can be used when
/// the time required to do the task is significantly less than a single tick
/// or if it can be broken down into discrete steps. If the task takes too
/// long, or too many of these nodes are utilized, the ticking rate can be
/// affected.
///
/// # State
///
/// **Initialized:** Before being ticked after either being created or reset,
/// or if the supplied function returns `Initialized`.
///
/// **Running:** When the function returns `Running`.
///
/// **Succeeded:** When the function returns `Succeeded`.
///
/// **Failed:** When the function returns `Failed`.
///
/// # Children
///
/// None.
#[verifier::reject_recursive_types(W)]
pub struct InlineAction<W, F: Fn(&mut W) -> Status> {
    /// The task which is to be run.
    func: F,
    world: PhantomData<W>,
}

impl<W, F: Fn(&mut W) -> Status> InlineAction<W, F> {
    /// The task can be run on every world.
    #[verifier::type_invariant]
    spec fn total(&self) -> bool {
        forall|w: &mut W| call_requires(self.func, (w,))
    }

    /// The task of this node.
    pub closed spec fn func(&self) -> F {
        self.func
    }

    /// Creates the internals of an `InlineAction` node that will execute the
    /// given task.
    pub fn internals(task: F) -> (action: Self)
        requires
            forall|w: &mut W| call_requires(task, (w,)),
        ensures
            action.func() == task,
    {
        InlineAction { func: task, world: PhantomData }
    }

    /// Creates a new `InlineAction` node that will execute the given task.
    pub fn new<'a>(task: F) -> (node: Node<'a, W>) where W: 'a, F: 'a
        requires
            forall|w: &mut W| call_requires(task, (w,)),
        ensures
            node@ == NodeView::fresh(),
    {
        Node::new(InlineAction::internals(task))
    }
}

impl<W, F: Fn(&mut W) -> Status> Tickable<W> for InlineAction<W, F> {
    /// This node has no children.
    open spec fn children_shown(&self, infos: Seq<NodeInfo>) -> bool {
        infos.len() == 0
    }

    /// The kind name of this node is "InlineAction".
    open spec fn kind_is(&self, name: Seq<char>) -> bool {
        name == "InlineAction"@
    }

    /// Runs the task once on the world and returns the status that it
    /// computed.
    fn tick(&mut self, world: &mut W) -> (s: Status)
        ensures
            *final(self) == *old(self),
            exists|w: &mut W|
                mut_ref_current(w) == *old(world) && mut_ref_future(w) == *final(world)
                    && #[trigger] call_ensures(old(self).func(), (w,), s),
    {
        proof {
            use_type_invariant(&*self);
        }
        let s = (self.func)(world);
        proof {
            assert(self.func == old(self).func());
        }
        s
    }

    fn reset(&mut self)
        ensures
            *final(self) == *old(self),
    {
        // No-op
    }

    /// Returns the constant string "InlineAction"
    fn kind_name(&self) -> (r: &str)
        ensures
            r@ == "InlineAction"@,
    {
        "InlineAction"
    }
}

} // verus!
