use brain_reader::movements::CommandRequest;
use brain_reader::movements::Movements;
use brain_reader::movements::MOVE_STEP_CM;
use brain_reader::movements::ROTATE_STEP_DEGREES;

#[test]
fn canonical_labels_resolve() {
    assert_eq!(Movements::resolve("takeoff"), Movements::Takeoff);
    assert_eq!(Movements::resolve("right"), Movements::Right);
    assert_eq!(Movements::resolve("left"), Movements::Left);
    assert_eq!(Movements::resolve("land"), Movements::Land);
    assert_eq!(Movements::resolve("forward"), Movements::Forward);
    assert_eq!(Movements::resolve("backward"), Movements::Backward);
}

#[test]
fn capitalized_labels_resolve() {
    assert_eq!(Movements::resolve("Takeoff"), Movements::Takeoff);
    assert_eq!(Movements::resolve("Right"), Movements::Right);
    assert_eq!(Movements::resolve("Left"), Movements::Left);
    assert_eq!(Movements::resolve("Land"), Movements::Land);
    assert_eq!(Movements::resolve("Forward"), Movements::Forward);
    assert_eq!(Movements::resolve("Backward"), Movements::Backward);
}

#[test]
fn unknown_labels_resolve_to_noop() {
    assert_eq!(Movements::resolve(""), Movements::NoOp);
    assert_eq!(Movements::resolve(" "), Movements::NoOp);
    assert_eq!(Movements::resolve("hover"), Movements::NoOp);
    assert_eq!(Movements::resolve("LAND"), Movements::NoOp);
    assert_eq!(Movements::resolve("land "), Movements::NoOp);
    assert_eq!(Movements::resolve(" land"), Movements::NoOp);
    assert_eq!(Movements::resolve("takeoff\n"), Movements::NoOp);
    assert_eq!(Movements::resolve("forwards"), Movements::NoOp);
}

#[test]
fn commands_carry_fixed_steps() {
    assert_eq!(Movements::Takeoff.command(), CommandRequest::TakeOff);
    assert_eq!(Movements::Land.command(), CommandRequest::Land);
    assert_eq!(Movements::Right.command(), CommandRequest::RotateClockwise(90));
    assert_eq!(Movements::Left.command(), CommandRequest::RotateCounterClockwise(90));
    assert_eq!(Movements::Forward.command(), CommandRequest::MoveForward(100));
    assert_eq!(Movements::Backward.command(), CommandRequest::MoveBackward(100));
    assert_eq!(ROTATE_STEP_DEGREES, 90);
    assert_eq!(MOVE_STEP_CM, 100);
}
