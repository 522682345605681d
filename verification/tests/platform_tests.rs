use room619_core::platform::DesktopPlatform;
use room619_core::platform::PlatformAbstraction;
use room619_core::platform::PlatformError;
use room619_core::scheduler::DefaultScheduler;
use room619_core::scheduler::Scheduler;
use room619_core::scheduler::Task;
use room619_core::timer::DesktopTimer;
use room619_core::timer::Timer;

#[test]
fn test_desktop_platform() {
    let mut platform = room619_core::platform::DesktopPlatform;
    assert!(platform.start().is_ok());
    assert_eq!(platform.platform_name(), "Desktop (Tokio-based)");
    assert!(platform.stop().is_ok());
}

#[test]
fn test_desktop_timer() {
    let mut timer = room619_core::timer::DesktopTimer::new();

    assert!(!timer.is_running());
    assert!(timer.start().is_ok());
    assert!(timer.is_running());

    let begin = std::time::Instant::now();
    while begin.elapsed() < std::time::Duration::from_millis(10) {
        std::hint::spin_loop();
    }

    let elapsed = timer.elapsed();
    assert!(elapsed.as_millis() >= 10);

    assert!(timer.stop().is_ok());
    assert!(!timer.is_running());
}

#[test]
fn test_scheduler() {
    let mut scheduler = room619_core::scheduler::DefaultScheduler::new();

    let task = Task {
        id: 1,
        priority: 10,
        period_ms: 100,
    };

    assert!(scheduler.add_task(task).is_ok());
    assert!(scheduler.run().is_ok());
    assert!(scheduler.remove_task(1).is_ok());
}

#[test]
fn desktop_platform_restarts() {
    let mut platform = DesktopPlatform;
    assert!(platform.stop().is_ok());
    assert!(platform.start().is_ok());
    assert!(platform.start().is_ok());
}

#[test]
fn platform_error_texts() {
    let e = PlatformError::InitializationFailed("no clock".to_string());
    assert_eq!(e.to_string(), "Initialization failed: no clock");
    let e = PlatformError::OperationFailed("busy".to_string());
    assert_eq!(e.to_string(), "Operation failed: busy");
    let e = PlatformError::NotSupported(String::new());
    assert_eq!(e.to_string(), "Not supported: ");
}

#[test]
fn new_scheduler_has_no_tasks() {
    let scheduler = DefaultScheduler::new();
    assert!(scheduler.tasks().is_empty());
}

#[test]
fn scheduler_keeps_tasks_in_order_of_adding() {
    let mut scheduler = DefaultScheduler::new();
    let a = Task { id: 7, priority: 1, period_ms: 10 };
    let b = Task { id: 3, priority: 2, period_ms: 20 };
    let c = Task { id: 7, priority: 3, period_ms: 30 };
    assert!(scheduler.add_task(a).is_ok());
    assert!(scheduler.add_task(b).is_ok());
    assert!(scheduler.add_task(c).is_ok());
    assert_eq!(scheduler.tasks().as_slice(), &[a, b, c]);
    assert!(scheduler.run().is_ok());
    assert_eq!(scheduler.tasks().as_slice(), &[a, b, c]);
}

#[test]
fn scheduler_removes_every_task_of_an_id() {
    let mut scheduler = DefaultScheduler::new();
    let a = Task { id: 7, priority: 1, period_ms: 10 };
    let b = Task { id: 3, priority: 2, period_ms: 20 };
    let c = Task { id: 7, priority: 3, period_ms: 30 };
    let d = Task { id: 9, priority: 4, period_ms: 40 };
    for task in [a, b, c, d] {
        assert!(scheduler.add_task(task).is_ok());
    }
    assert!(scheduler.remove_task(7).is_ok());
    assert_eq!(scheduler.tasks().as_slice(), &[b, d]);
    assert!(scheduler.remove_task(8).is_ok());
    assert_eq!(scheduler.tasks().as_slice(), &[b, d]);
    assert!(scheduler.remove_task(9).is_ok());
    assert!(scheduler.remove_task(3).is_ok());
    assert!(scheduler.tasks().is_empty());
}

#[test]
fn timer_runs_between_start_and_stop() {
    let mut timer = DesktopTimer::new();
    assert!(!timer.is_running());
    assert_eq!(timer.elapsed(), std::time::Duration::ZERO);
    assert!(timer.start().is_ok());
    assert!(timer.is_running());
    let first = timer.elapsed();
    let second = timer.elapsed();
    assert!(second >= first);
    assert!(timer.stop().is_ok());
    assert!(!timer.is_running());
    assert_eq!(timer.elapsed(), std::time::Duration::ZERO);
}

#[test]
fn default_timer_is_not_running() {
    let timer = DesktopTimer::default();
    assert!(!timer.is_running());
    assert_eq!(timer.elapsed(), std::time::Duration::ZERO);
}

#[test]
fn platform_items_at_the_crate_root() {
    let mut platform = DesktopPlatform;
    assert!(room619_core::PlatformAbstraction::start(&mut platform).is_ok());
    let e = room619_core::PlatformError::OperationFailed("x".to_string());
    assert_eq!(e.to_string(), "Operation failed: x");
}
