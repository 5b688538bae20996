//! Contains a set of commonly used behavior tree nodes.
pub mod children;

pub mod sequence;

pub use self::sequence::{ActiveSequence, Sequence};

pub mod selector;

pub use self::selector::{Selector, StatefulSelector};

pub mod parallel;

pub use self::parallel::Parallel;

pub mod decorator;

pub use self::decorator::{Decorator, Invert, Repeat, UntilFail, UntilSuccess};

pub mod condition;

pub use self::condition::Condition;

pub mod constants;

pub use self::constants::{AlwaysFail, AlwaysRunning, AlwaysSucceed};

pub mod action;

pub use self::action::{Action, InlineAction};
