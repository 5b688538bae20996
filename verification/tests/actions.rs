//! `Action` nodes with a worker that does what the test tells it, and
//! `InlineAction` nodes.
use aspen::node::{Node, Tickable};
use aspen::std_nodes::action::{Launcher, Worker};
use aspen::std_nodes::{Action, InlineAction, Sequence};
use aspen::Status;
use std::cell::{Cell, RefCell};
use std::rc::Rc;

/// What the test and the workers of one launcher share.
#[derive(Default)]
struct Desk {
    /// The status that a worker hands over when it is polled next.
    ready: Cell<Option<Status>>,
    /// The worlds on which a task was started.
    launched: RefCell<Vec<u32>>,
    /// How often a worker was polled.
    polls: Cell<u32>,
    /// How often a worker was joined.
    joins: Cell<u32>,
    /// How many workers were started and not joined yet.
    at_work: Cell<u32>,
}

struct DeskWorker {
    desk: Rc<Desk>,
}

impl Worker for DeskWorker {
    fn poll(&mut self) -> Option<Status> {
        self.desk.polls.set(self.desk.polls.get() + 1);
        self.desk.ready.take()
    }

    fn join(&mut self) {
        self.desk.joins.set(self.desk.joins.get() + 1);
        self.desk.at_work.set(self.desk.at_work.get() - 1);
    }
}

struct DeskLauncher {
    desk: Rc<Desk>,
}

impl Launcher<u32> for DeskLauncher {
    type Handle = DeskWorker;

    fn launch(&self, world: &u32) -> DeskWorker {
        assert_eq!(self.desk.at_work.get(), 0, "two workers at once");
        self.desk.at_work.set(1);
        self.desk.launched.borrow_mut().push(*world);
        DeskWorker {
            desk: self.desk.clone(),
        }
    }
}

fn desk_action() -> (Node<'static, u32>, Rc<Desk>) {
    let desk = Rc::new(Desk::default());
    (Action::new(DeskLauncher { desk: desk.clone() }), desk)
}

#[test]
fn action_failure() {
    let (mut action, desk) = desk_action();

    for _ in 0..5 {
        assert_eq!(action.tick(&mut 0), Status::Running);
    }

    desk.ready.set(Some(Status::Failed));

    let mut status = Status::Running;
    while status == Status::Running {
        status = action.tick(&mut 0);
    }

    assert_eq!(status, Status::Failed);
}

#[test]
fn action_success() {
    let (mut action, desk) = desk_action();

    for _ in 0..5 {
        assert_eq!(action.tick(&mut 0), Status::Running);
    }

    desk.ready.set(Some(Status::Succeeded));

    let mut status = Status::Running;
    while status == Status::Running {
        status = action.tick(&mut 0);
    }

    assert_eq!(status, Status::Succeeded);
}

#[test]
fn action_starts_nothing_before_the_first_tick() {
    let (action, desk) = desk_action();
    assert_eq!(action.status(), Status::Initialized);
    assert!(desk.launched.borrow().is_empty());
    assert_eq!(action.kind_name(), "Action");
}

#[test]
fn action_starts_one_worker_on_the_first_tick() {
    let (mut action, desk) = desk_action();
    assert_eq!(action.tick(&mut 7), Status::Running);
    assert_eq!(*desk.launched.borrow(), vec![7]);
    // The first tick only starts the task
    assert_eq!(desk.polls.get(), 0);
    for _ in 0..3 {
        assert_eq!(action.tick(&mut 8), Status::Running);
    }
    assert_eq!(*desk.launched.borrow(), vec![7]);
    assert_eq!(desk.polls.get(), 3);
    assert_eq!(desk.joins.get(), 0);
}

#[test]
fn action_keeps_its_final_status_until_it_is_reset() {
    let desk = Rc::new(Desk::default());
    let mut action = Action::internals(DeskLauncher { desk: desk.clone() });
    assert_eq!(action.tick(&mut 0), Status::Running);
    desk.ready.set(Some(Status::Succeeded));
    assert_eq!(action.tick(&mut 0), Status::Succeeded);
    // Ticked as they are, the internals answer without asking the worker
    assert_eq!(action.tick(&mut 0), Status::Succeeded);
    assert_eq!(action.tick(&mut 0), Status::Succeeded);
    assert_eq!(desk.polls.get(), 1);
    assert_eq!(desk.launched.borrow().len(), 1);
    action.reset();
    assert_eq!(desk.joins.get(), 1);
    assert_eq!(action.tick(&mut 1), Status::Running);
    assert_eq!(*desk.launched.borrow(), vec![0, 1]);
}

#[test]
fn action_node_that_is_done_starts_the_task_again() {
    let (mut action, desk) = desk_action();
    action.tick(&mut 1);
    desk.ready.set(Some(Status::Failed));
    assert_eq!(action.tick(&mut 1), Status::Failed);
    // The node resets itself, which joins the worker, and starts anew
    assert_eq!(action.tick(&mut 2), Status::Running);
    assert_eq!(desk.joins.get(), 1);
    assert_eq!(*desk.launched.borrow(), vec![1, 2]);
}

#[test]
fn action_starts_the_task_again_when_it_returned_running() {
    let (mut action, desk) = desk_action();
    action.tick(&mut 1);
    desk.ready.set(Some(Status::Running));
    // The task has ended without being done: the node is running still
    assert_eq!(action.tick(&mut 1), Status::Running);
    assert_eq!(desk.joins.get(), 1);
    assert_eq!(desk.at_work.get(), 0);
    // and the next tick starts the task once more
    assert_eq!(action.tick(&mut 2), Status::Running);
    assert_eq!(*desk.launched.borrow(), vec![1, 2]);
    desk.ready.set(Some(Status::Succeeded));
    assert_eq!(action.tick(&mut 2), Status::Succeeded);
}

#[test]
fn action_reset_waits_for_the_worker() {
    let (mut action, desk) = desk_action();
    action.tick(&mut 0);
    assert_eq!(desk.at_work.get(), 1);
    action.reset();
    assert_eq!(desk.joins.get(), 1);
    assert_eq!(desk.at_work.get(), 0);
    assert_eq!(action.status(), Status::Initialized);
    // With no worker left a second reset has no one to wait for
    action.reset();
    assert_eq!(desk.joins.get(), 1);
}

#[test]
fn action_reset_before_the_first_tick_joins_nothing() {
    let desk = Rc::new(Desk::default());
    let mut action = Action::internals(DeskLauncher { desk: desk.clone() });
    action.reset();
    assert_eq!(desk.joins.get(), 0);
    assert!(desk.launched.borrow().is_empty());
}

#[test]
fn action_has_one_worker_at_most() {
    let (mut action, desk) = desk_action();
    let answers = [
        None,
        Some(Status::Running),
        None,
        None,
        Some(Status::Failed),
        None,
        Some(Status::Initialized),
        None,
        Some(Status::Succeeded),
    ];
    let mut world = 0u32;
    for answer in answers {
        // The launcher fails the test if a worker is still at work
        desk.ready.set(answer);
        action.tick(&mut world);
        assert!(desk.at_work.get() <= 1);
        world += 1;
    }
    action.reset();
    assert_eq!(desk.at_work.get(), 0);
    assert_eq!(desk.joins.get() as usize, desk.launched.borrow().len());
}

#[test]
fn settle_decides_by_the_answer_of_the_worker() {
    type Plain = Action<u32, DeskLauncher>;
    assert_eq!(Plain::settle(None), (Status::Running, false));
    assert_eq!(Plain::settle(Some(Status::Running)), (Status::Running, false));
    assert_eq!(
        Plain::settle(Some(Status::Initialized)),
        (Status::Initialized, false)
    );
    assert_eq!(
        Plain::settle(Some(Status::Succeeded)),
        (Status::Succeeded, true)
    );
    assert_eq!(Plain::settle(Some(Status::Failed)), (Status::Failed, true));
}

#[test]
fn actions_in_a_sequence_run_one_after_the_other() {
    let (first, first_desk) = desk_action();
    let (second, second_desk) = desk_action();
    let mut seq = Sequence::new(vec![first, second]);
    let mut world = 0u32;
    assert_eq!(seq.tick(&mut world), Status::Running);
    assert!(second_desk.launched.borrow().is_empty());
    first_desk.ready.set(Some(Status::Succeeded));
    // The first action is done, and the second one is started at once
    assert_eq!(seq.tick(&mut world), Status::Running);
    assert_eq!(second_desk.launched.borrow().len(), 1);
    second_desk.ready.set(Some(Status::Succeeded));
    assert_eq!(seq.tick(&mut world), Status::Succeeded);
    assert_eq!(first_desk.polls.get(), 1);
}

#[test]
fn inline_action_works_on_the_world() {
    let first = 10u32;
    let second = 100u32;
    let mut result = 0u32;

    let mut action = InlineAction::new(|r: &mut u32| {
        if let Some(n) = second.checked_sub(first) {
            *r = n;
            Status::Succeeded
        } else {
            Status::Failed
        }
    });

    assert_eq!(action.tick(&mut result), Status::Succeeded);
    assert_eq!(result, 90);
    assert_eq!(action.kind_name(), "InlineAction");
}

#[test]
fn inline_action_decides_when_it_is_done() {
    let mut action = InlineAction::new(|steps: &mut u32| {
        *steps += 1;
        if *steps < 3 {
            Status::Running
        } else {
            Status::Succeeded
        }
    });
    let mut steps = 0u32;
    assert_eq!(action.tick(&mut steps), Status::Running);
    assert_eq!(action.tick(&mut steps), Status::Running);
    assert_eq!(action.tick(&mut steps), Status::Succeeded);
    assert_eq!(steps, 3);
}
