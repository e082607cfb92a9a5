//! A module supervisor: launches long-running worker units ("modules") on
//! independent threads of control, hands each a shared read-only context,
//! and observes which one terminates first.
//!
//! The supervisor owns a registry of started modules and a cancellation
//! broadcast channel; `wait` multiplexes over all registered result channels,
//! classifies the first termination, and closes the cancellation channel so
//! that every still-running module can shut down cooperatively.

mod channel;
mod context;
mod outcome;
mod supervisor;

pub use context::Config;
pub use context::Ctx;
pub use context::GlobalModules;
pub use context::PipelineProcessor;
pub use context::RemoteStore;
pub use context::ResourcePool;
pub use context::RpcClient;
pub use outcome::classify;
pub use outcome::classify_spec;
pub use outcome::ModuleError;
pub use outcome::ModuleResult;
pub use outcome::StopClass;
pub use outcome::StopEvent;
pub use outcome::WaitError;
pub use supervisor::Module;
pub use supervisor::ModuleEntry;
pub use supervisor::ModuleTask;
pub use supervisor::WatchDog;
