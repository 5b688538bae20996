//! Nodes that have a single child and modify the behavior of that child in some
//! way.
pub mod attempts;

pub mod decorator;

pub use self::decorator::{Decorator, Invert};

pub mod repeat;

pub use self::repeat::Repeat;

pub mod until;

pub use self::until::{UntilFail, UntilSuccess};
