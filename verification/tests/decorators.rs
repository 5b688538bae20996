//! Decorators and constant nodes over several ticks.
use aspen::node::{Node, Tickable};
use aspen::std_nodes::decorator::attempts::Attempts;
use aspen::std_nodes::{
    AlwaysFail, AlwaysRunning, AlwaysSucceed, Condition, Decorator, Invert, Repeat, UntilFail,
    UntilSuccess,
};
use aspen::Status;
use std::cell::Cell;
use std::rc::Rc;

/// The calls that a `Scripted` leaf has seen.
#[derive(Default)]
struct Seen {
    ticks: Cell<u32>,
    resets: Cell<u32>,
}

/// A leaf that returns the statuses of a script, one per tick and the last
/// one for ever, and counts the calls made on it.
struct Scripted {
    script: Vec<Status>,
    next: usize,
    seen: Rc<Seen>,
}

fn scripted<W>(script: Vec<Status>) -> (Node<'static, W>, Rc<Seen>) {
    let seen = Rc::new(Seen::default());
    let leaf = Scripted {
        script,
        next: 0,
        seen: seen.clone(),
    };
    (Node::new(leaf), seen)
}

fn steady<W>(status: Status) -> (Node<'static, W>, Rc<Seen>) {
    scripted(vec![status])
}

impl<W> Tickable<W> for Scripted {
    fn tick(&mut self, _: &mut W) -> Status {
        self.seen.ticks.set(self.seen.ticks.get() + 1);
        let status = self.script[self.next];
        if self.next + 1 < self.script.len() {
            self.next += 1;
        }
        status
    }

    fn reset(&mut self) {
        self.seen.resets.set(self.seen.resets.get() + 1);
    }

    fn kind_name(&self) -> &str {
        "Scripted"
    }
}

/// A leaf that must not be ticked.
struct Untouchable;

impl<W> Tickable<W> for Untouchable {
    fn tick(&mut self, _: &mut W) -> Status {
        panic!("This node should not have been ticked");
    }

    fn reset(&mut self) {}

    fn kind_name(&self) -> &str {
        "Untouchable"
    }
}

#[test]
fn repeat_resets_its_child_after_each_run() {
    let (child, seen) = steady::<()>(Status::Failed);
    let mut node = Repeat::with_limit(5, child);
    for _ in 0..4 {
        assert_eq!(node.tick(&mut ()), Status::Running);
    }
    assert_eq!(node.tick(&mut ()), Status::Succeeded);
    assert_eq!(seen.ticks.get(), 5);
    assert_eq!(seen.resets.get(), 5);
}

#[test]
fn repeat_counts_successes_and_failures_alike() {
    let (child, seen) = scripted::<()>(vec![
        Status::Succeeded,
        Status::Running,
        Status::Failed,
        Status::Succeeded,
    ]);
    let mut node = Repeat::with_limit(3, child);
    assert_eq!(node.tick(&mut ()), Status::Running);
    // A tick on which the child is still running is no run
    assert_eq!(node.tick(&mut ()), Status::Running);
    assert_eq!(node.tick(&mut ()), Status::Running);
    assert_eq!(node.tick(&mut ()), Status::Succeeded);
    assert_eq!(seen.ticks.get(), 4);
    assert_eq!(seen.resets.get(), 3);
}

#[test]
fn repeat_with_limit_zero_succeeds_without_ticking_the_child() {
    let mut node: Node<()> = Repeat::with_limit(0, Node::new(Untouchable));
    assert_eq!(node.tick(&mut ()), Status::Succeeded);
    assert_eq!(node.tick(&mut ()), Status::Succeeded);
}

#[test]
fn repeat_with_limit_one_succeeds_after_the_first_run() {
    let (child, seen) = scripted::<()>(vec![Status::Running, Status::Failed]);
    let mut node = Repeat::with_limit(1, child);
    assert_eq!(node.tick(&mut ()), Status::Running);
    assert_eq!(node.tick(&mut ()), Status::Succeeded);
    assert_eq!(seen.ticks.get(), 2);
}

#[test]
fn repeat_without_limit_runs_for_ever() {
    let (child, seen) = steady::<()>(Status::Succeeded);
    let mut node = Repeat::new(child);
    for _ in 0..50 {
        assert_eq!(node.tick(&mut ()), Status::Running);
    }
    assert_eq!(seen.ticks.get(), 50);
    assert_eq!(seen.resets.get(), 50);
}

#[test]
fn repeat_starts_its_count_again_after_a_reset() {
    let (child, seen) = steady::<()>(Status::Succeeded);
    let mut node = Repeat::with_limit(2, child);
    assert_eq!(node.tick(&mut ()), Status::Running);
    node.reset();
    assert_eq!(node.tick(&mut ()), Status::Running);
    assert_eq!(node.tick(&mut ()), Status::Succeeded);
    // Done: the next tick resets the node and counts from the start
    assert_eq!(node.tick(&mut ()), Status::Running);
    assert_eq!(node.tick(&mut ()), Status::Succeeded);
    assert_eq!(seen.ticks.get(), 5);
}

#[test]
fn repeat_settles_what_its_child_returned() {
    let (child, seen) = steady::<()>(Status::Running);
    let mut repeat = Repeat::internals(Some(2), child);
    assert_eq!(repeat.settle(Status::Running), Status::Running);
    assert_eq!(repeat.settle(Status::Initialized), Status::Running);
    assert_eq!(repeat.settle(Status::Failed), Status::Running);
    assert_eq!(repeat.settle(Status::Succeeded), Status::Succeeded);
    // Once the limit is reached the node stays succeeded
    assert_eq!(repeat.settle(Status::Failed), Status::Succeeded);
    assert_eq!(repeat.tick(&mut ()), Status::Succeeded);
    assert_eq!(seen.ticks.get(), 0);
}

#[test]
fn until_fail_succeeds_on_the_tick_on_which_the_child_fails() {
    let (child, seen) = scripted::<()>(vec![
        Status::Succeeded,
        Status::Running,
        Status::Succeeded,
        Status::Failed,
    ]);
    let mut node = UntilFail::new(child);
    assert_eq!(node.tick(&mut ()), Status::Running);
    assert_eq!(node.tick(&mut ()), Status::Running);
    assert_eq!(node.tick(&mut ()), Status::Running);
    assert_eq!(node.tick(&mut ()), Status::Succeeded);
    assert_eq!(seen.ticks.get(), 4);
    // The child was reset after each success, and not after the failure
    assert_eq!(seen.resets.get(), 2);
}

#[test]
fn until_fail_succeeds_within_its_limit() {
    let (child, _) = scripted::<()>(vec![Status::Succeeded, Status::Succeeded, Status::Failed]);
    let mut node = UntilFail::with_limit(3, child);
    assert_eq!(node.tick(&mut ()), Status::Running);
    assert_eq!(node.tick(&mut ()), Status::Running);
    assert_eq!(node.tick(&mut ()), Status::Succeeded);
}

#[test]
fn until_fail_gives_up_at_its_limit() {
    let (child, seen) = scripted::<()>(vec![Status::Succeeded, Status::Succeeded, Status::Failed]);
    let mut node = UntilFail::with_limit(2, child);
    assert_eq!(node.tick(&mut ()), Status::Running);
    assert_eq!(node.tick(&mut ()), Status::Failed);
    assert_eq!(seen.ticks.get(), 2);
    assert_eq!(seen.resets.get(), 2);
}

#[test]
fn until_fail_with_limit_zero_fails_without_ticking_the_child() {
    let mut node: Node<()> = UntilFail::with_limit(0, Node::new(Untouchable));
    assert_eq!(node.tick(&mut ()), Status::Failed);
}

#[test]
fn until_success_succeeds_on_the_tick_on_which_the_child_succeeds() {
    let (child, seen) = scripted::<()>(vec![Status::Failed, Status::Running, Status::Succeeded]);
    let mut node = UntilSuccess::new(child);
    assert_eq!(node.tick(&mut ()), Status::Running);
    assert_eq!(node.tick(&mut ()), Status::Running);
    assert_eq!(node.tick(&mut ()), Status::Succeeded);
    assert_eq!(seen.ticks.get(), 3);
    assert_eq!(seen.resets.get(), 1);
}

#[test]
fn until_success_gives_up_at_its_limit() {
    let (child, _) = steady::<()>(Status::Failed);
    let mut node = UntilSuccess::with_limit(1, child);
    assert_eq!(node.tick(&mut ()), Status::Failed);
}

#[test]
fn until_success_with_limit_zero_fails_without_ticking_the_child() {
    let mut node: Node<()> = UntilSuccess::with_limit(0, Node::new(Untouchable));
    assert_eq!(node.tick(&mut ()), Status::Failed);
}

#[test]
fn until_nodes_settle_what_their_child_returned() {
    let (child, _) = steady::<()>(Status::Running);
    let mut until_fail = UntilFail::internals(Some(2), child);
    assert_eq!(until_fail.settle(Status::Running), Status::Running);
    assert_eq!(until_fail.settle(Status::Succeeded), Status::Running);
    assert_eq!(until_fail.settle(Status::Failed), Status::Succeeded);
    assert_eq!(until_fail.settle(Status::Succeeded), Status::Failed);

    let (child, _) = steady::<()>(Status::Running);
    let mut until_success = UntilSuccess::internals(None, child);
    assert_eq!(until_success.settle(Status::Initialized), Status::Running);
    assert_eq!(until_success.settle(Status::Failed), Status::Running);
    assert_eq!(until_success.settle(Status::Failed), Status::Running);
    assert_eq!(until_success.settle(Status::Succeeded), Status::Succeeded);
}

#[test]
fn decorators_reset_their_child_and_their_count() {
    let (child, seen) = steady::<()>(Status::Succeeded);
    let mut until = UntilFail::internals(Some(2), child);
    assert_eq!(until.tick(&mut ()), Status::Running);
    until.reset();
    // The child had been reset when it succeeded: there is nothing to reset
    assert_eq!(seen.resets.get(), 1);
    assert_eq!(until.tick(&mut ()), Status::Running);
    assert_eq!(until.tick(&mut ()), Status::Failed);

    let (child, seen) = steady::<()>(Status::Running);
    let mut invert = Invert::internals(child);
    invert.tick(&mut ());
    invert.reset();
    assert_eq!(seen.resets.get(), 1);
}

#[test]
fn attempts_count_up_to_their_limit() {
    let mut attempts = Attempts::limited(2);
    assert!(!attempts.is_exhausted());
    attempts.count();
    assert!(!attempts.is_exhausted());
    attempts.count();
    assert!(attempts.is_exhausted());
    attempts.count();
    assert!(attempts.is_exhausted());
    attempts.clear();
    assert!(!attempts.is_exhausted());
    assert!(Attempts::limited(0).is_exhausted());
}

#[test]
fn attempts_without_limit_are_never_exhausted() {
    let mut attempts = Attempts::unlimited();
    for _ in 0..10 {
        attempts.count();
        assert!(!attempts.is_exhausted());
    }
    let mut top = Attempts::limited(u32::MAX);
    top.count();
    assert!(!top.is_exhausted());
}

#[test]
fn invert_swaps_success_and_failure_only() {
    assert_eq!(Invert::<()>::invert(Status::Succeeded), Status::Failed);
    assert_eq!(Invert::<()>::invert(Status::Failed), Status::Succeeded);
    assert_eq!(Invert::<()>::invert(Status::Running), Status::Running);
    assert_eq!(
        Invert::<()>::invert(Status::Initialized),
        Status::Initialized
    );
}

#[test]
fn invert_ticks_its_child_once_per_tick() {
    let (child, seen) = scripted::<()>(vec![Status::Running, Status::Succeeded]);
    let mut node = Invert::new(child);
    assert_eq!(node.tick(&mut ()), Status::Running);
    assert_eq!(node.tick(&mut ()), Status::Failed);
    assert_eq!(seen.ticks.get(), 2);
    assert_eq!(node.children().len(), 1);
    assert_eq!(node.children()[0].status, Status::Succeeded);
}

#[test]
fn decorator_maps_the_status_with_the_world_in_view() {
    let (child, _) = steady::<u32>(Status::Succeeded);
    let mut node = Decorator::new(child, |status: Status, limit: &u32| {
        if *limit > 10 {
            Status::Failed
        } else {
            status
        }
    });
    let mut world = 3u32;
    assert_eq!(node.tick(&mut world), Status::Succeeded);
    world = 11;
    assert_eq!(node.tick(&mut world), Status::Failed);
    assert_eq!(node.kind_name(), "Decorator");
}

#[test]
fn decorator_sees_the_world_as_the_child_left_it() {
    let child = aspen::std_nodes::InlineAction::new(|world: &mut u32| {
        *world += 1;
        Status::Running
    });
    let mut node = Decorator::new(child, |_, world: &u32| {
        if *world >= 2 {
            Status::Succeeded
        } else {
            Status::Running
        }
    });
    let mut world = 0u32;
    assert_eq!(node.tick(&mut world), Status::Running);
    assert_eq!(node.tick(&mut world), Status::Succeeded);
    assert_eq!(world, 2);
}

#[test]
fn decorator_may_return_any_status() {
    let (child, _) = steady::<()>(Status::Failed);
    let mut node = Decorator::new(child, |_, _: &()| Status::Initialized);
    assert_eq!(node.tick(&mut ()), Status::Initialized);
    assert_eq!(node.status(), Status::Initialized);
}

#[test]
fn constant_nodes_wait_for_their_child() {
    let (child, seen) = scripted::<()>(vec![Status::Running, Status::Initialized, Status::Failed]);
    let mut node = AlwaysSucceed::with_child(child);
    assert_eq!(node.tick(&mut ()), Status::Running);
    assert_eq!(node.tick(&mut ()), Status::Running);
    assert_eq!(node.tick(&mut ()), Status::Succeeded);
    assert_eq!(seen.ticks.get(), 3);

    let (child, _) = scripted::<()>(vec![Status::Running, Status::Succeeded]);
    let mut node = AlwaysFail::with_child(child);
    assert_eq!(node.tick(&mut ()), Status::Running);
    assert_eq!(node.tick(&mut ()), Status::Failed);
}

#[test]
fn constant_nodes_have_their_status_on_every_tick() {
    let mut succeed: Node<()> = AlwaysSucceed::new();
    let mut fail: Node<()> = AlwaysFail::new();
    let mut run: Node<()> = AlwaysRunning::new();
    for _ in 0..3 {
        assert_eq!(succeed.tick(&mut ()), Status::Succeeded);
        assert_eq!(fail.tick(&mut ()), Status::Failed);
        assert_eq!(run.tick(&mut ()), Status::Running);
    }
}

#[test]
fn constant_nodes_reset_and_report_their_child() {
    let (child, seen) = steady::<()>(Status::Running);
    let mut node = AlwaysFail::internals(Some(child));
    node.tick(&mut ());
    assert_eq!(node.children().len(), 1);
    assert_eq!(node.children()[0].status, Status::Running);
    node.reset();
    assert_eq!(seen.resets.get(), 1);
    assert_eq!(node.children()[0].status, Status::Initialized);
    assert_eq!(node.kind_name(), "AlwaysFail");

    let mut bare = AlwaysSucceed::<()>::internals(None);
    bare.reset();
    assert!(bare.children().is_empty());
    assert_eq!(bare.kind_name(), "AlwaysSucceed");
}

#[test]
fn condition_reads_the_world() {
    let mut node = Condition::new(|world: &u32| *world > 100);
    let mut world = 10u32;
    assert_eq!(node.tick(&mut world), Status::Failed);
    world = 101;
    assert_eq!(node.tick(&mut world), Status::Succeeded);
    assert_eq!(world, 101);
    assert_eq!(node.kind_name(), "Condition");
    assert!(node.children().is_empty());
}
