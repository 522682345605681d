//! Platform abstraction (platform, scheduler, timer) and a telemetry
//! transport abstraction (message, sink, client).

pub mod platform;
pub mod scheduler;
pub mod telemetry;
pub mod timer;

pub use platform::PlatformAbstraction;
pub use platform::PlatformError;
