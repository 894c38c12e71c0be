//! Resolving a textual prediction label into a device command.
//!
//! Classification output arrives as free text; anything outside the known
//! vocabulary must be ignored rather than rejected, so that classifier noise
//! never crashes command dispatch.

use vstd::prelude::*;
use vstd::string::StrSliceExecFns;

verus! {

/// The movement vocabulary the classifier may ask for.
#[derive(Clone, Copy, Debug, PartialEq, Eq, Structural)]
pub enum Movements {
    Takeoff,
    Right,
    Left,
    Land,
    Forward,
    Backward,
    NoOp,
}

/// What `Movements::resolve` returns for a given label: an exact-string match
/// against the canonical lowercase vocabulary and the capitalized variant of
/// each word; everything else is `NoOp`.
pub open spec fn spec_resolve(label: Seq<char>) -> Movements {
    if label == "takeoff"@ || label == "Takeoff"@ {
        Movements::Takeoff
    } else if label == "right"@ || label == "Right"@ {
        Movements::Right
    } else if label == "left"@ || label == "Left"@ {
        Movements::Left
    } else if label == "land"@ || label == "Land"@ {
        Movements::Land
    } else if label == "forward"@ || label == "Forward"@ {
        Movements::Forward
    } else if label == "backward"@ || label == "Backward"@ {
        Movements::Backward
    } else {
        Movements::NoOp
    }
}

/// Character-by-character string comparison, so that label matching is
/// verified down to the view of each string.
fn str_eq(a: &str, b: &str) -> (r: bool)
    ensures
        r == (a@ == b@),
{
    let la = a.unicode_len();
    let lb = b.unicode_len();
    if la != lb {
        return false;
    }
    for i in 0..la
        invariant
            la == a@.len(),
            la == b@.len(),
            forall|j: int| 0 <= j < i ==> a@[j] == b@[j],
    {
        if a.get_char(i) != b.get_char(i) {
            return false;
        }
    }
    proof {
        assert(a@ =~= b@);
    }
    true
}

impl Movements {
    /// Exact-string resolution of a prediction label; unknown labels map to
    /// `NoOp` by design ("ignore unknown, never error").
    pub fn resolve(label: &str) -> (m: Movements)
        ensures
            m == spec_resolve(label@),
    {
        if str_eq(label, "takeoff") || str_eq(label, "Takeoff") {
            Movements::Takeoff
        } else if str_eq(label, "right") || str_eq(label, "Right") {
            Movements::Right
        } else if str_eq(label, "left") || str_eq(label, "Left") {
            Movements::Left
        } else if str_eq(label, "land") || str_eq(label, "Land") {
            Movements::Land
        } else if str_eq(label, "forward") || str_eq(label, "Forward") {
            Movements::Forward
        } else if str_eq(label, "backward") || str_eq(label, "Backward") {
            Movements::Backward
        } else {
            Movements::NoOp
        }
    }
}

/// A resolved, ready-to-dispatch device action, with its fixed magnitude
/// where one applies.
#[derive(Clone, Copy, Debug, PartialEq, Eq, Structural)]
pub enum CommandRequest {
    TakeOff,
    Land,
    RotateClockwise(u32),
    RotateCounterClockwise(u32),
    MoveForward(u32),
    MoveBackward(u32),
    NoOp,
}

/// How far every rotation turns, in degrees.
pub const ROTATE_STEP_DEGREES: u32 = 90;

/// How far every translation moves, in centimeters.
pub const MOVE_STEP_CM: u32 = 100;

/// The device action each movement stands for, with the fixed step sizes.
pub open spec fn spec_command_for(m: Movements) -> CommandRequest {
    match m {
        Movements::Takeoff => CommandRequest::TakeOff,
        Movements::Land => CommandRequest::Land,
        Movements::Right => CommandRequest::RotateClockwise(ROTATE_STEP_DEGREES),
        Movements::Left => CommandRequest::RotateCounterClockwise(ROTATE_STEP_DEGREES),
        Movements::Forward => CommandRequest::MoveForward(MOVE_STEP_CM),
        Movements::Backward => CommandRequest::MoveBackward(MOVE_STEP_CM),
        Movements::NoOp => CommandRequest::NoOp,
    }
}

impl Movements {
    /// Builds the concrete command a movement dispatches; `NoOp` dispatches
    /// nothing.
    pub fn command(self) -> (c: CommandRequest)
        ensures
            c == spec_command_for(self),
    {
        match self {
            Movements::Takeoff => CommandRequest::TakeOff,
            Movements::Land => CommandRequest::Land,
            Movements::Right => CommandRequest::RotateClockwise(ROTATE_STEP_DEGREES),
            Movements::Left => CommandRequest::RotateCounterClockwise(ROTATE_STEP_DEGREES),
            Movements::Forward => CommandRequest::MoveForward(MOVE_STEP_CM),
            Movements::Backward => CommandRequest::MoveBackward(MOVE_STEP_CM),
            Movements::NoOp => CommandRequest::NoOp,
        }
    }
}

/// Any label outside the recognized vocabulary (in canonical or capitalized
/// form) resolves to `NoOp`: command dispatch silently drops it.
pub proof fn lemma_unknown_label_is_noop(label: Seq<char>)
    requires
        label != "takeoff"@,
        label != "Takeoff"@,
        label != "right"@,
        label != "Right"@,
        label != "left"@,
        label != "Left"@,
        label != "land"@,
        label != "Land"@,
        label != "forward"@,
        label != "Forward"@,
        label != "backward"@,
        label != "Backward"@,
    ensures
        spec_resolve(label) == Movements::NoOp,
{
}

} // verus!
