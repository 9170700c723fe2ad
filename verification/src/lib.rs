//! A value-equality change filter for an entity/component query engine.
//!
//! A consumer of a query asks, per entity, whether the value of a tracked
//! component differs from what that consumer last saw. Merely writing to the
//! component is not a change: the new value has to compare unequal to the
//! previous one. Every consumer keeps its own notion of what it has seen.
//!
//! The tracking record keeps one canonical value, the tick at which that
//! value last changed, and for each consumer the tick it has acknowledged.
//! Looking a consumer up and acknowledging a change are hash-map operations
//! of expected constant time; a value is cloned once per actual change.

pub mod handled;
pub mod model;
pub mod record;
pub mod command;
pub mod registry;
pub mod filter;
pub mod laws;

pub use command::AttachCommand;
pub use filter::{EqChanged, EqChangedFetch, EqChangedState};
pub use record::PreviousValue;
pub use registry::NextQueryId;
