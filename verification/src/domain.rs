pub mod new_task;
pub mod scope;
pub mod task;
pub mod task_id;
pub mod timestamp;

pub use new_task::NewTask;
pub use scope::Scope;
pub use task::Task;
pub use task_id::TaskId;
pub use timestamp::Timestamp;
