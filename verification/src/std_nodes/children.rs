//! What the composite nodes do with the children they own: tick them in
//! order, reset them, take their snapshots.
//!
//! A composite decides by the statuses that its children return. What a
//! child does when it is ticked is the child's own matter, so the contracts
//! here say which children were ticked or reset, in terms of their
//! [`NodeView`](crate::node::NodeView)s, and how the result follows from the
//! statuses that came back.
use crate::node::{snapshot_of, Node, NodeInfo, Tickable};
use crate::status::Status;
use vstd::prelude::*;

verus! {

/// Every node of `post` is the node of `pre` at the same place after a
/// reset; a node that was still `Initialized` is untouched.
pub open spec fn all_reset<'a, W>(pre: Seq<Node<'a, W>>, post: Seq<Node<'a, W>>) -> bool {
    &&& post.len() == pre.len()
    &&& forall|i: int|
        0 <= i < pre.len() ==> (#[trigger] post[i])@ == pre[i]@.after_reset() && (pre[i]@.status
            == Status::Initialized ==> post[i] == pre[i])
}

/// A scan that starts at the first child on every tick.
///
/// The children before `stop` were ticked once each and returned `pass`. If
/// there is a child at `stop`, it was ticked once and returned `s`, which is
/// not `pass`, and every child after it was reset. If `stop` is the number
/// of children, all of them returned `pass`, and so does the scan.
pub open spec fn scanned<'a, W>(
    pre: Seq<Node<'a, W>>,
    post: Seq<Node<'a, W>>,
    pass: Status,
    stop: int,
    s: Status,
) -> bool {
    &&& post.len() == pre.len()
    &&& 0 <= stop <= pre.len()
    &&& forall|i: int| 0 <= i < stop ==> (#[trigger] post[i])@ == pre[i]@.after_tick(pass)
    &&& stop < pre.len() ==> s != pass && post[stop]@ == pre[stop]@.after_tick(s)
    &&& stop == pre.len() ==> s == pass
    &&& forall|i: int|
        stop < i < pre.len() ==> (#[trigger] post[i])@ == pre[i]@.after_reset() && (pre[i]@.status
            == Status::Initialized ==> post[i] == pre[i])
}

/// A scan that resumes at child `from` and leaves the children it has
/// passed alone.
///
/// With no child at `from` nothing is ticked and the scan returns `pass`.
/// Otherwise `last` is the last child that was ticked: the children from
/// `from` up to it were ticked once each and returned `pass`, child `last`
/// was ticked once and returned `s`, and `s` is `pass` only where `last` is
/// the last child of all. No other child was touched.
pub open spec fn resumed<'a, W>(
    pre: Seq<Node<'a, W>>,
    post: Seq<Node<'a, W>>,
    pass: Status,
    from: int,
    last: int,
    s: Status,
) -> bool {
    &&& post.len() == pre.len()
    &&& if from >= pre.len() {
        &&& s == pass
        &&& post == pre
    } else {
        &&& from <= last < pre.len()
        &&& forall|i: int| from <= i < last ==> (#[trigger] post[i])@ == pre[i]@.after_tick(pass)
        &&& post[last]@ == pre[last]@.after_tick(s)
        &&& s == pass ==> last == pre.len() - 1
        &&& forall|i: int| 0 <= i < pre.len() && !(from <= i <= last) ==> #[trigger] post[i] == pre[i]
    }
}

/// Where a resumed scan goes on next time: behind the last child it ticked
/// if that child is done, at that child if it is not.
pub open spec fn resume_point(len: int, from: int, last: int, s: Status) -> int {
    if from >= len {
        from
    } else if s.done() {
        last + 1
    } else {
        last
    }
}

/// The snapshots show the nodes, one for one and in the same order.
pub open spec fn snapshots_of<'a, W>(infos: Seq<NodeInfo>, nodes: Seq<Node<'a, W>>) -> bool {
    &&& infos.len() == nodes.len()
    &&& forall|i: int| 0 <= i < nodes.len() ==> snapshot_of(#[trigger] infos[i], nodes[i])
}

/// Resets every child, in order.
pub(crate) fn reset_all<'a, W>(children: &mut Vec<Node<'a, W>>)
    ensures
        all_reset(old(children)@, final(children)@),
{
    let ghost before = children@;
    let mut i: usize = 0;
    while i < children.len()
        invariant
            children@.len() == before.len(),
            i <= before.len(),
            forall|j: int|
                0 <= j < i ==> (#[trigger] children@[j])@ == before[j]@.after_reset() && (
                before[j]@.status == Status::Initialized ==> children@[j] == before[j]),
            forall|j: int| i <= j < before.len() ==> #[trigger] children@[j] == before[j],
        decreases before.len() - i,
    {
        children[i].reset();
        i += 1;
    }
}

/// Ticks the children in order from the first one for as long as they
/// return `pass`, and resets the children after the one that did not.
pub(crate) fn tick_in_order<'a, W>(
    children: &mut Vec<Node<'a, W>>,
    pass: Status,
    world: &mut W,
) -> (s: Status)
    ensures
        exists|stop: int| #[trigger] scanned(old(children)@, final(children)@, pass, stop, s),
        old(children)@.len() == 0 ==> *final(world) == *old(world),
{
    let ghost before = children@;
    let ghost mut stop: int = 0;
    let mut ret_status = pass;
    let mut i: usize = 0;
    while i < children.len()
        invariant
            children@.len() == before.len(),
            i <= before.len(),
            0 <= stop <= i,
            i == 0 ==> *world == *old(world),
            ret_status == pass ==> stop == i,
            ret_status != pass ==> stop < i && children@[stop]@ == before[stop]@.after_tick(
                ret_status,
            ),
            forall|j: int|
                0 <= j < stop ==> (#[trigger] children@[j])@ == before[j]@.after_tick(pass),
            forall|j: int|
                stop < j < i ==> (#[trigger] children@[j])@ == before[j]@.after_reset() && (
                before[j]@.status == Status::Initialized ==> children@[j] == before[j]),
            forall|j: int| i <= j < before.len() ==> #[trigger] children@[j] == before[j],
        decreases before.len() - i,
    {
        if ret_status == pass {
            ret_status = children[i].tick(world);
            proof {
                stop = if ret_status == pass {
                    i + 1
                } else {
                    i as int
                };
            }
        } else {
            children[i].reset();
        }
        i += 1;
    }
    proof {
        assert(scanned(before, children@, pass, stop, ret_status));
    }
    ret_status
}

/// Ticks the children in order from child `from` for as long as they return
/// `pass`, and returns the status of the scan with the place at which the
/// next scan resumes.
pub(crate) fn tick_from<'a, W>(
    children: &mut Vec<Node<'a, W>>,
    from: usize,
    pass: Status,
    world: &mut W,
) -> (r: (Status, usize))
    requires
        pass.done(),
    ensures
        exists|last: int|
            #[trigger] resumed(old(children)@, final(children)@, pass, from as int, last, r.0)
                && r.1 == resume_point(old(children)@.len() as int, from as int, last, r.0),
        from >= old(children)@.len() ==> *final(world) == *old(world),
{
    let ghost before = children@;
    // The last child that was ticked, once one was
    let ghost mut last: int = from as int;
    let ghost mut started: bool = false;
    let mut ret_status = pass;
    let mut next: usize = from;
    while next < children.len() && ret_status == pass
        invariant
            pass.done(),
            children@.len() == before.len(),
            !started ==> next == from && ret_status == pass && children@ == before && *world
                == *old(world),
            started ==> from <= last < before.len(),
            started ==> children@[last]@ == before[last]@.after_tick(ret_status),
            started ==> next == resume_point(before.len() as int, from as int, last, ret_status),
            started ==> forall|j: int|
                from <= j < last ==> (#[trigger] children@[j])@ == before[j]@.after_tick(pass),
            started ==> forall|j: int|
                0 <= j < before.len() && !(from <= j <= last) ==> #[trigger] children@[j]
                    == before[j],
        decreases
                before.len() - next + (if ret_status == pass {
                    1int
                } else {
                    0int
                }),
    {
        ret_status = children[next].tick(world);
        proof {
            last = next as int;
            started = true;
        }
        if ret_status.is_done() {
            next += 1;
        }
    }
    let r = (ret_status, next);
    proof {
        assert(resumed(before, children@, pass, from as int, last, r.0));
    }
    r
}

/// Takes the snapshot of every child, in order.
pub(crate) fn describe_all<'a, W>(children: &Vec<Node<'a, W>>) -> (infos: Vec<NodeInfo>)
    ensures
        snapshots_of(infos@, children@),
{
    let mut infos: Vec<NodeInfo> = Vec::new();
    let mut i: usize = 0;
    while i < children.len()
        invariant
            i <= children@.len(),
            infos@.len() == i,
            forall|j: int| 0 <= j < i ==> snapshot_of(#[trigger] infos@[j], children@[j]),
        decreases children@.len() - i,
    {
        infos.push(children[i].describe());
        i += 1;
    }
    infos
}

/// A scan from the first child in which every child reports `pass` after the
/// tick has gone through all of them: each child was ticked exactly once,
/// and the scan returns `pass`.
pub proof fn lemma_scanned_all_pass<'a, W>(
    pre: Seq<Node<'a, W>>,
    post: Seq<Node<'a, W>>,
    pass: Status,
    stop: int,
    s: Status,
)
    requires
        scanned(pre, post, pass, stop, s),
        forall|i: int| 0 <= i < post.len() ==> (#[trigger] post[i])@.status == pass,
    ensures
        s == pass,
        stop == pre.len(),
        forall|i: int| 0 <= i < pre.len() ==> (#[trigger] post[i])@ == pre[i]@.after_tick(pass),
{
    if stop < pre.len() {
        assert(post[stop]@.status == pass);
    }
}

/// A resumed scan in which every child from the resume point on reports
/// `pass` after the tick: each of them was ticked exactly once, the scan
/// returns `pass`, and the next scan resumes behind the last child.
pub proof fn lemma_resumed_all_pass<'a, W>(
    pre: Seq<Node<'a, W>>,
    post: Seq<Node<'a, W>>,
    pass: Status,
    from: int,
    last: int,
    s: Status,
)
    requires
        pass.done(),
        0 <= from <= pre.len(),
        resumed(pre, post, pass, from, last, s),
        forall|i: int| from <= i < post.len() ==> (#[trigger] post[i])@.status == pass,
    ensures
        s == pass,
        forall|i: int| from <= i < pre.len() ==> (#[trigger] post[i])@ == pre[i]@.after_tick(pass),
        resume_point(pre.len() as int, from, last, s) == pre.len(),
{
    if from < pre.len() {
        assert(post[last]@.status == pass);
    }
}

/// A scan from the first child stops at the first child that does not
/// return `pass`: the status of that child is the status of the scan, and a
/// child behind it is reset, not ticked.
pub proof fn lemma_scanned_short_circuit<'a, W>(
    pre: Seq<Node<'a, W>>,
    post: Seq<Node<'a, W>>,
    pass: Status,
    stop: int,
    s: Status,
    i: int,
)
    requires
        scanned(pre, post, pass, stop, s),
        stop < i < pre.len(),
    ensures
        s == post[stop]@.status,
        s != pass,
        post[i]@ == pre[i]@.after_reset(),
        pre[i]@.status == Status::Initialized ==> post[i] == pre[i],
{
}

/// A resumed scan stops at the first child that does not return `pass`: the
/// status of the last child that was ticked is the status of the scan, and
/// a child behind it is not touched at all.
pub proof fn lemma_resumed_short_circuit<'a, W>(
    pre: Seq<Node<'a, W>>,
    post: Seq<Node<'a, W>>,
    pass: Status,
    from: int,
    last: int,
    s: Status,
    i: int,
)
    requires
        resumed(pre, post, pass, from, last, s),
        0 <= from < pre.len(),
        last < i < pre.len(),
    ensures
        s == post[last]@.status,
        post[i] == pre[i],
{
}

/// Children that were reset are not touched by a second reset in a row.
pub proof fn lemma_all_reset_twice<'a, W>(
    pre: Seq<Node<'a, W>>,
    mid: Seq<Node<'a, W>>,
    post: Seq<Node<'a, W>>,
)
    requires
        all_reset(pre, mid),
        all_reset(mid, post),
    ensures
        post == mid,
        forall|i: int| 0 <= i < post.len() ==> (#[trigger] post[i])@.status == Status::Initialized,
{
    assert forall|i: int| 0 <= i < mid.len() implies post[i] == mid[i] by {
        assert(mid[i]@ == pre[i]@.after_reset());
    }
    assert(post =~= mid);
}

} // verus!
