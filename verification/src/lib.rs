//! The core of a script runner: definitions of commands and workflows, the
//! store that keeps them, and the rules by which a run is prepared, routed
//! to this machine or to a remote shell, and reported as a stream of
//! events.
//!
//! Nothing in this library touches a file, a process or a socket. It says
//! what is to be done and what follows from what was seen; the program
//! around it does the work and reports back.

pub mod codec;
pub mod edit;
pub mod environment;
pub mod executor;
pub mod models;
pub mod navigation;
pub mod orchestration;
pub mod persistence;
pub mod prompt;
pub mod records;
pub mod run_environment;
pub mod session;
pub mod store;
pub mod text;

pub use executor::CommandExecutor;
pub use executor::ExecuteError;
pub use executor::SshExecutor;
pub use models::AuthMethod;
pub use models::Command;
pub use models::CommandV0;
pub use models::EnvVar;
pub use models::ExecutionResult;
pub use models::ExecutionStatus;
pub use models::ExecutionUpdate;
pub use models::Host;
pub use models::Timestamp;
pub use models::Workflow;
pub use models::WorkflowV0;
pub use persistence::save_command;
pub use store::CommandStore;
