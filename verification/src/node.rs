//! Behavior tree nodes and internal node logic.
//!
//! A [`Node`] wraps one [`Tickable`] and enforces the lifecycle around it:
//! a node that has run to completion is reset before it is ticked again, and
//! a node that has not run since its last reset is not reset a second time.
//!
//! What a node has done to its internals is recorded as a ghost history of
//! [`Event`]s. The contracts of this crate are stated over that history and
//! the last status, the [`NodeView`].
use crate::status::{status_text, Status};
use vstd::prelude::*;
use vstd::string::StringExecFns;

verus! {

/// One call that a `Node` made on its internals.
pub enum Event {
    /// The internals were reset.
    Reset,
    /// The internals were ticked and returned this status.
    Tick(Status),
}

/// The status that a node with the given history reports: the status that
/// the last tick returned, or `Initialized` if the node has not been ticked
/// since it was created or last reset.
pub open spec fn status_after(history: Seq<Event>) -> Status {
    if history.len() == 0 {
        Status::Initialized
    } else {
        match history.last() {
            Event::Reset => Status::Initialized,
            Event::Tick(s) => s,
        }
    }
}

/// The mathematical model of a `Node`.
pub ghost struct NodeView {
    /// The status from the last time the node was ticked.
    pub status: Status,
    /// Every call made on the internals so far, oldest first.
    pub history: Seq<Event>,
    /// The name given to the node, if any.
    pub name: Option<Seq<char>>,
}

impl NodeView {
    /// A node that was just created.
    pub open spec fn fresh() -> NodeView {
        NodeView { status: Status::Initialized, history: Seq::empty(), name: None }
    }

    /// The status is the one that the history accounts for.
    pub open spec fn consistent(self) -> bool {
        self.status == status_after(self.history)
    }

    /// The node after `Node::reset`: the internals are reset unless the node
    /// is still `Initialized`.
    pub open spec fn after_reset(self) -> NodeView {
        if self.status == Status::Initialized {
            self
        } else {
            NodeView {
                status: Status::Initialized,
                history: self.history.push(Event::Reset),
                name: self.name,
            }
        }
    }

    /// The node after a `Node::tick` in which the internals returned `s`:
    /// a node that was done is reset first, then the internals are ticked.
    pub open spec fn after_tick(self, s: Status) -> NodeView {
        let start = if self.status.done() {
            self.after_reset()
        } else {
            self
        };
        NodeView { status: s, history: start.history.push(Event::Tick(s)), name: start.name }
    }
}

/// A snapshot of a node for display: its name, its status and the snapshots
/// of its children, in the order in which the node evaluates them.
#[derive(Debug)]
pub struct NodeInfo {
    /// The name of the node.
    pub name: String,
    /// The status from the last time the node was ticked.
    pub status: Status,
    /// The children of the node.
    pub children: Vec<NodeInfo>,
}

impl NodeInfo {
    /// The snapshot as text: the name, the status and the texts of the
    /// children, as in `root:( status = Running, leaf:( status = Failed ) )`.
    pub open spec fn text(self) -> Seq<char>
        decreases self,
    {
        self.name@ + ":( status = "@ + status_text(self.status) + NodeInfo::texts(
            self.children@,
        ) + " )"@
    }

    /// The texts of the snapshots in a row, each behind a comma.
    pub open spec fn texts(infos: Seq<NodeInfo>) -> Seq<char>
        decreases infos,
    {
        if infos.len() == 0 {
            Seq::empty()
        } else {
            NodeInfo::texts(infos.drop_last()) + ", "@ + infos.last().text()
        }
    }

    /// Writes the snapshot out as text.
    pub fn render(&self) -> (out: String)
        ensures
            out@ == self.text(),
        decreases self,
    {
        let mut out = self.name.clone();
        out.append(":( status = ");
        out.append(self.status.label());
        let ghost head = out@;
        let mut i: usize = 0;
        while i < self.children.len()
            invariant
                i <= self.children@.len(),
                head == self.name@ + ":( status = "@ + status_text(self.status),
                out@ == head + NodeInfo::texts(self.children@.take(i as int)),
            decreases self.children@.len() - i,
        {
            out.append(", ");
            let child = self.children[i].render();
            out.append(child.as_str());
            proof {
                let done = self.children@.take(i + 1);
                assert(done.drop_last() == self.children@.take(i as int));
                assert(done.last() == self.children@[i as int]);
            }
            i += 1;
        }
        proof {
            assert(self.children@.take(i as int) == self.children@);
        }
        out.append(" )");
        out
    }
}

/// The snapshot shows the node: it has the status of the node and the name
/// under which the node shows, and its children are none or the snapshots
/// of the node's children.
pub open spec fn snapshot_of<'a, W>(info: NodeInfo, node: Node<'a, W>) -> bool {
    &&& info.status == node@.status
    &&& node.shows_as(info.name@)
    &&& info.children@.len() == 0 || node.children_shown(info.children@)
}

/// The internal logic of a node.
///
/// This is the object that controls the tick behavior of the `Node`, with
/// `Node` just being a wrapper to enforce some runtime behavior.
pub trait Tickable<W> {
    /// Ticks the internal state of the node a single time.
    ///
    /// Node internals should not automatically reset themselves. If a node has
    /// been run to completion, the `Node` that holds this object will call
    /// `reset` before ticking the node.
    fn tick(&mut self, world: &mut W) -> Status;

    /// Resets the internal state of the node.
    ///
    /// This sets the node to a state that is identical to a newly constructed
    /// node. Note that this could be called when the node is in any state.
    fn reset(&mut self);

    /// What this kind of node says of the snapshots of its children: that
    /// there is one for each child, in the order in which the node evaluates
    /// them, and that each shows its child. A kind that says nothing of its
    /// children leaves this as it is.
    open spec fn children_shown(&self, infos: Seq<NodeInfo>) -> bool {
        true
    }

    /// Returns a snapshot of each of this node's children.
    ///
    /// Default behavior is to return no children, which is suitable for any
    /// leaf node. A node that has children shows them.
    fn children(&self) -> (infos: Vec<NodeInfo>)
        ensures
            infos@.len() == 0 || self.children_shown(infos@),
    {
        Vec::new()
    }

    /// What this kind of node says of its kind name: which name it is. A
    /// kind that says nothing of its name leaves this as it is.
    open spec fn kind_is(&self, name: Seq<char>) -> bool {
        true
    }

    /// Returns the kind of the node as a string literal.
    ///
    /// In general, this should be the name of the node type, the same for
    /// all instances of it.
    fn kind_name(&self) -> (r: &str)
        ensures
            self.kind_is(r@),
    ;
}

/// The last status of a node and the history that led to it.
struct Record {
    status: Status,
    history: Ghost<Seq<Event>>,
}

impl Record {
    #[verifier::type_invariant]
    spec fn consistent(&self) -> bool {
        self.status == status_after(self.history@)
    }

    fn fresh() -> (r: Record)
        ensures
            r.status == Status::Initialized,
            r.history@ == Seq::<Event>::empty(),
    {
        Record { status: Status::Initialized, history: Ghost(Seq::empty()) }
    }

    fn status(&self) -> (s: Status)
        ensures
            s == self.status,
            s == status_after(self.history@),
    {
        proof {
            use_type_invariant(self);
        }
        self.status
    }

    fn ticked(&self, s: Status) -> (r: Record)
        ensures
            r.status == s,
            r.history@ == self.history@.push(Event::Tick(s)),
    {
        Record { status: s, history: Ghost(self.history@.push(Event::Tick(s))) }
    }

    fn cleared(&self) -> (r: Record)
        ensures
            r.status == Status::Initialized,
            r.history@ == self.history@.push(Event::Reset),
    {
        Record { status: Status::Initialized, history: Ghost(self.history@.push(Event::Reset)) }
    }
}

/// The name under which a node shows: the name it was given, or else the
/// kind of its internals.
pub fn display_name<'b>(name: &'b Option<String>, kind: &'b str) -> (r: &'b str)
    ensures
        r@ == match *name {
            Some(n) => n@,
            None => kind@,
        },
{
    match name {
        Some(n) => n.as_str(),
        None => kind,
    }
}

/// Represents a generic node.
///
/// The logic of the node is controlled by the supplied `Tickable` object.
/// Nodes are considered to have been run to completion when they return either
/// `Status::Succeeded` or `Status::Failed` when ticked. If they are ticked after
/// completion, they will be reset before the tick logic is executed.
#[verifier::reject_recursive_types(W)]
pub struct Node<'a, W> {
    /// The status from the last time this node was ticked.
    record: Record,
    /// The internal logic for this node.
    internals: Box<dyn Tickable<W> + 'a>,
    /// The name for this node.
    ///
    /// If present, it will be used instead of the kind name.
    name: Option<String>,
}

impl<'a, W> View for Node<'a, W> {
    type V = NodeView;

    closed spec fn view(&self) -> NodeView {
        NodeView {
            status: self.record.status,
            history: self.record.history@,
            name: match self.name {
                Some(n) => Some(n@),
                None => None,
            },
        }
    }
}

impl<'a, W> Node<'a, W> {
    /// The internal logic of this node.
    pub closed spec fn internals(&self) -> Box<dyn Tickable<W> + 'a> {
        self.internals
    }

    /// The node shows under this name: it is the name that the node was
    /// given, or else the kind name of its internals.
    pub open spec fn shows_as(&self, name: Seq<char>) -> bool {
        match self@.name {
            Some(given) => name == given,
            None => self.kind_is(name),
        }
    }

    /// Creates a new `Node` with the given `Tickable`.
    ///
    /// The internals are used to govern the tick logic of the node.
    pub fn new<I>(internals: I) -> (node: Node<'a, W>) where I: Tickable<W> + 'a
        ensures
            node@ == NodeView::fresh(),
    {
        Node { record: Record::fresh(), internals: Box::new(internals), name: None }
    }

    /// Gets the current status of the node.
    ///
    /// This value matches the return value of the last call to `tick`, and is
    /// `Initialized` if the node was not ticked since it was created or reset.
    pub fn status(&self) -> (s: Status)
        ensures
            s == self@.status,
            self@.consistent(),
    {
        self.record.status()
    }

    /// Returns the name of this node.
    ///
    /// Unless this node was renamed via the `named` method, this will be the
    /// kind name of the underlying `Tickable` object.
    pub fn name(&self) -> (r: &str)
        ensures
            self.shows_as(r@),
    {
        display_name(&self.name, self.internals.kind_name())
    }

    /// Sets the name for this particular node, or removes it.
    pub fn named(self, name: Option<String>) -> (node: Node<'a, W>)
        ensures
            node@.status == self@.status,
            node@.history == self@.history,
            node@.name == match name {
                Some(n) => Some(n@),
                None => None,
            },
            node.internals() == self.internals(),
    {
        // We consume the node and return it to fit better into the current
        // pattern of making trees.
        let mut node = self;
        node.name = name;
        node
    }

    /// Writes this node and everything below it out as text.
    pub fn render(&self) -> (out: String)
        ensures
            exists|info: NodeInfo| snapshot_of(info, *self) && out@ == #[trigger] info.text(),
    {
        self.describe().render()
    }

    /// Takes a snapshot of this node and of everything below it.
    pub fn describe(&self) -> (info: NodeInfo)
        ensures
            snapshot_of(info, *self),
    {
        NodeInfo {
            name: self.name().to_owned(),
            status: self.record.status(),
            children: self.internals.children(),
        }
    }
}

impl<'a, W> Tickable<W> for Node<'a, W> {
    /// The kind name of a node is the kind name of its internals.
    closed spec fn kind_is(&self, name: Seq<char>) -> bool {
        self.internals.kind_is(name)
    }

    /// The children of a node are the children of its internals.
    closed spec fn children_shown(&self, infos: Seq<NodeInfo>) -> bool {
        self.internals.children_shown(infos)
    }

    /// Ticks the node a single time.
    ///
    /// If the node is currently considered to have run to completion, this
    /// will call `reset` on the node before calling the internal tick logic.
    fn tick(&mut self, world: &mut W) -> (s: Status)
        ensures
            final(self)@ == old(self)@.after_tick(s),
            final(self)@.consistent(),
    {
        // Reset the node if it's already completed
        if self.record.status().is_done() {
            self.reset();
        }
        // Tick the internals
        let s = self.internals.tick(world);
        self.record = self.record.ticked(s);
        s
    }

    /// Resets the node.
    ///
    /// This returns the node to a state that is identical to when it was first
    /// created. If the node state is still `Initialized`, then the internal
    /// reset method will not be called.
    fn reset(&mut self)
        ensures
            final(self)@ == old(self)@.after_reset(),
            final(self)@.consistent(),
            old(self)@.status == Status::Initialized ==> *final(self) == *old(self),
    {
        if self.record.status() != Status::Initialized {
            self.record = self.record.cleared();
            self.internals.reset();
        }
    }

    /// Returns a snapshot of each of this node's children.
    fn children(&self) -> Vec<NodeInfo> {
        self.internals.children()
    }

    /// Returns the kind of the internals as a string literal.
    fn kind_name(&self) -> &str {
        self.internals.kind_name()
    }
}

/// A node that had run to completion is reset exactly once, and before its
/// internals are ticked: the stale result is never returned again without
/// the internals being asked anew.
pub proof fn lemma_tick_after_done_resets_first(v: NodeView, s: Status)
    requires
        v.status.done(),
    ensures
        v.after_tick(s).history == v.history.push(Event::Reset).push(Event::Tick(s)),
        v.after_tick(s).status == s,
{
}

/// A node that was not done is ticked without being reset.
pub proof fn lemma_tick_before_done_does_not_reset(v: NodeView, s: Status)
    requires
        !v.status.done(),
    ensures
        v.after_tick(s).history == v.history.push(Event::Tick(s)),
        v.after_tick(s).status == s,
{
}

/// After a reset the node is `Initialized`, and a second reset in a row
/// changes nothing: of two resets in a row at most the first reaches the
/// internals.
pub proof fn lemma_reset_round_trip(v: NodeView)
    ensures
        v.after_reset().status == Status::Initialized,
        v.after_reset().after_reset() == v.after_reset(),
        v.after_reset().history == v.history || v.after_reset().history == v.history.push(
            Event::Reset,
        ),
{
}

/// Ticks and resets keep the status in step with the history.
pub proof fn lemma_lifecycle_keeps_consistent(v: NodeView, s: Status)
    ensures
        NodeView::fresh().consistent(),
        v.after_tick(s).consistent(),
        v.consistent() ==> v.after_reset().consistent(),
{
}

} // verus!
