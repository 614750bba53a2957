use pros_async::executor::drive;
use pros_async::robot::{HookError, NoOpRobot, Robot};
use pros_async::suspend::Immediate;

#[test]
fn default_hooks_are_immediate_successes() {
    let mut robot = NoOpRobot;
    assert_eq!(robot.opcontrol(), Ok(()));
    assert_eq!(robot.auto(), Ok(()));
    assert_eq!(robot.disabled(), Ok(()));
    assert_eq!(robot.comp_init(), Ok(()));
}

#[test]
fn default_hook_driven_as_root_completes_with_success() {
    // An unoverridden hook's outcome, driven as the root of a fresh
    // executor, completes the driver with Ok(()) on the first reading.
    let mut robot = NoOpRobot;
    assert_eq!(drive(Immediate::new(robot.opcontrol()), &vec![0]), Some(Ok(())));
    assert_eq!(drive(Immediate::new(robot.comp_init()), &vec![17]), Some(Ok(())));
}

struct FailingRobot;

impl Robot for FailingRobot {
    fn opcontrol(&mut self) -> Result<(), HookError> {
        Err(HookError { message: String::from("controller unplugged") })
    }
}

#[test]
fn overridden_hook_surfaces_its_error() {
    let mut robot = FailingRobot;
    let err = robot.opcontrol().unwrap_err();
    assert_eq!(err.message, "controller unplugged");
    // Hooks that were not overridden keep the no-op default.
    assert_eq!(robot.auto(), Ok(()));
}
