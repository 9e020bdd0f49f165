//! The resources and tools to create and manage connections.
pub mod resource_id;
pub mod adapter;
pub mod transport;
pub mod poll;
pub mod driver;
pub mod registry;

pub use resource_id::{ResourceId, ResourceType};
pub use adapter::{SendStatus};
pub use transport::{Transport};
pub use poll::{Readiness};
