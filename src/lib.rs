//! Keeps a working directory in step with its remote: change notifications are
//! debounced into pushes, a ticker drives pulls, and a coordinator makes sure at
//! most one of them runs at a time.

pub mod settings;
pub mod signal;
pub mod coordinator;
pub mod timer;
pub mod scheduler;
