//! The traits that every platform implementation provides, and the desktop
//! platform.

use std::time::Duration;
use vstd::prelude::*;
use vstd::string::StringExecFns;

verus! {

/// Why a platform operation failed.
#[derive(Debug, Clone)]
pub enum PlatformError {
    InitializationFailed(String),
    OperationFailed(String),
    NotSupported(String),
}

impl PlatformError {
    /// The text of the error: the name of its kind, a colon and a space, then
    /// the detail it carries.
    pub open spec fn text(&self) -> Seq<char> {
        match self {
            PlatformError::InitializationFailed(detail) => "Initialization failed: "@ + detail@,
            PlatformError::OperationFailed(detail) => "Operation failed: "@ + detail@,
            PlatformError::NotSupported(detail) => "Not supported: "@ + detail@,
        }
    }

    /// Renders the error for a reader.
    pub fn to_string(&self) -> (r: String)
        ensures
            r@ == self.text(),
    {
        match self {
            PlatformError::InitializationFailed(detail) => {
                String::from_str("Initialization failed: ").concat(detail.as_str())
            },
            PlatformError::OperationFailed(detail) => {
                String::from_str("Operation failed: ").concat(detail.as_str())
            },
            PlatformError::NotSupported(detail) => {
                String::from_str("Not supported: ").concat(detail.as_str())
            },
        }
    }
}

/// A platform that can be started and stopped.
pub trait PlatformAbstraction: Send + Sync {
    fn platform_name(&self) -> &'static str;

    fn start(&mut self) -> Result<(), PlatformError>;

    fn stop(&mut self) -> Result<(), PlatformError>;
}

/// A timer that a platform supplies.
pub trait TimerBackend: Send + Sync {
    fn start(&mut self, duration: Duration) -> Result<(), PlatformError>;

    fn elapsed(&self) -> Duration;

    fn stop(&mut self) -> Result<(), PlatformError>;
}

/// A task scheduler that a platform supplies.
pub trait SchedulerBackend: Send + Sync {
    fn schedule_task(&mut self, task_id: u32) -> Result<(), PlatformError>;

    fn yield_cpu(&self);

    fn current_task_id(&self) -> u32;
}

/// The desktop platform: it has nothing to set up or tear down.
pub struct DesktopPlatform;

impl PlatformAbstraction for DesktopPlatform {
    fn platform_name(&self) -> (name: &'static str)
        ensures
            name@ == "Desktop (Tokio-based)"@,
    {
        "Desktop (Tokio-based)"
    }

    fn start(&mut self) -> (r: Result<(), PlatformError>)
        ensures
            r is Ok,
    {
        Ok(())
    }

    fn stop(&mut self) -> (r: Result<(), PlatformError>)
        ensures
            r is Ok,
    {
        Ok(())
    }
}

} // verus!
