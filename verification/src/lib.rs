//! Behavior trees: a tree of composable nodes whose collective status is
//! re-evaluated on every discrete time step, the tick.
//!
//! Every node reports one of four statuses. Leaves decide theirs from the
//! world state they are handed; composites and decorators combine the
//! statuses of the children they own.
pub mod bt;
pub mod node;
pub mod status;
pub mod std_nodes;

pub use crate::bt::BehaviorTree;
pub use crate::status::Status;
