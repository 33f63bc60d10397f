//! The records of the store and the operations on them.

pub mod model_notification;
pub mod model_task;

pub use model_notification::{GroupNotification, Notification};
pub use model_task::Task;
