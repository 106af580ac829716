//! Resource leases and task lifecycles over remotely hosted execution backends.

pub mod decimal;
pub mod error;
pub mod lease;
pub mod models;
pub mod resource;
pub mod resource_type;
pub mod task_status;
pub mod tasks;

pub use error::{ErrorKind, QrmiError};
pub use models::{Payload, Target, TaskResult};
pub use lease::Acquire;
pub use resource::{Device, PyQuantumResource};
pub use resource_type::ResourceType;
pub use task_status::TaskStatus;
