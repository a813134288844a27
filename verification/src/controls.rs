//! Keyboard bindings: which key moves which part of the scene.
//!
//! Every bound key moves one component of the model rotation, the camera
//! rotation or the model translation by one step, up or down. The step sizes
//! themselves belong to the caller, which holds the pose.

use vstd::prelude::*;

verus! {

/// The part of the scene pose that a key moves.
#[derive(Clone, Copy, Debug, PartialEq, Eq, Structural)]
pub enum Target {
    /// The model's rotation about the x, y and z axes.
    ModelRotation,
    /// The camera's rotation about the x, y and z axes.
    CameraRotation,
    /// The model's translation along the x, y and z axes.
    ModelTranslation,
}

/// Whether a key raises or lowers the component it moves.
#[derive(Clone, Copy, Debug, PartialEq, Eq, Structural)]
pub enum Direction {
    Increase,
    Decrease,
}

/// One step of one component: `axis` is 0, 1 or 2 for x, y or z.
#[derive(Clone, Copy, Debug, PartialEq, Eq, Structural)]
pub struct KeyAction {
    pub target: Target,
    pub axis: usize,
    pub direction: Direction,
}

impl Direction {
    /// The other direction.
    pub open spec fn flipped(self) -> Direction {
        match self {
            Direction::Increase => Direction::Decrease,
            Direction::Decrease => Direction::Increase,
        }
    }
}

impl KeyAction {
    /// The step that undoes this one.
    pub open spec fn reversed(self) -> KeyAction {
        KeyAction { target: self.target, axis: self.axis, direction: self.direction.flipped() }
    }

    /// A step along one of the three axes.
    pub open spec fn is_valid(self) -> bool {
        self.axis < 3
    }
}

/// Shorthand for building a step in the binding table.
pub open spec fn step(target: Target, axis: usize, up: bool) -> KeyAction {
    KeyAction {
        target,
        axis,
        direction: if up { Direction::Increase } else { Direction::Decrease },
    }
}

/// The key binding table, by DOM key code.
pub open spec fn key_binding(code: u32) -> Option<KeyAction> {
    if code == 39 { Some(step(Target::ModelRotation, 1, false)) }
    else if code == 38 { Some(step(Target::ModelRotation, 0, true)) }
    else if code == 37 { Some(step(Target::ModelRotation, 1, true)) }
    else if code == 40 { Some(step(Target::ModelRotation, 0, false)) }
    else if code == 186 { Some(step(Target::ModelRotation, 2, true)) }
    else if code == 81 { Some(step(Target::ModelRotation, 2, false)) }
    else if code == 87 { Some(step(Target::CameraRotation, 0, false)) }
    else if code == 90 { Some(step(Target::CameraRotation, 0, true)) }
    else if code == 83 { Some(step(Target::CameraRotation, 1, true)) }
    else if code == 86 { Some(step(Target::CameraRotation, 1, false)) }
    else if code == 66 { Some(step(Target::CameraRotation, 2, true)) }
    else if code == 77 { Some(step(Target::CameraRotation, 2, false)) }
    else if code == 56 { Some(step(Target::ModelTranslation, 0, false)) }
    else if code == 70 { Some(step(Target::ModelTranslation, 1, true)) }
    else if code == 71 { Some(step(Target::ModelTranslation, 0, true)) }
    else if code == 67 { Some(step(Target::ModelTranslation, 1, false)) }
    else if code == 80 { Some(step(Target::ModelTranslation, 2, true)) }
    else if code == 89 { Some(step(Target::ModelTranslation, 2, false)) }
    else { None }
}

/// The key that is bound to the reverse of `code`'s step.
spec fn opposite_key(code: u32) -> u32 {
    if code == 39 { 37 }
    else if code == 37 { 39 }
    else if code == 38 { 40 }
    else if code == 40 { 38 }
    else if code == 186 { 81 }
    else if code == 81 { 186 }
    else if code == 87 { 90 }
    else if code == 90 { 87 }
    else if code == 83 { 86 }
    else if code == 86 { 83 }
    else if code == 66 { 77 }
    else if code == 77 { 66 }
    else if code == 56 { 71 }
    else if code == 71 { 56 }
    else if code == 70 { 67 }
    else if code == 67 { 70 }
    else if code == 80 { 89 }
    else { 80 }
}

/// The step that a key press makes, or `None` for a key that is not bound
/// (such a key leaves the scene as it is).
pub fn key_action(key_code: u32) -> (action: Option<KeyAction>)
    ensures
        action == key_binding(key_code),
        action matches Some(a) ==> a.is_valid(),
        key_code == 39 ==> action == Some(
            (KeyAction { target: Target::ModelRotation, axis: 1, direction: Direction::Decrease }),
        ),
        key_code == 38 ==> action == Some(
            (KeyAction { target: Target::ModelRotation, axis: 0, direction: Direction::Increase }),
        ),
        key_code == 37 ==> action == Some(
            (KeyAction { target: Target::ModelRotation, axis: 1, direction: Direction::Increase }),
        ),
        key_code == 40 ==> action == Some(
            (KeyAction { target: Target::ModelRotation, axis: 0, direction: Direction::Decrease }),
        ),
        key_code == 186 ==> action == Some(
            (KeyAction { target: Target::ModelRotation, axis: 2, direction: Direction::Increase }),
        ),
        key_code == 81 ==> action == Some(
            (KeyAction { target: Target::ModelRotation, axis: 2, direction: Direction::Decrease }),
        ),
        key_code == 87 ==> action == Some(
            (KeyAction { target: Target::CameraRotation, axis: 0, direction: Direction::Decrease }),
        ),
        key_code == 90 ==> action == Some(
            (KeyAction { target: Target::CameraRotation, axis: 0, direction: Direction::Increase }),
        ),
        key_code == 83 ==> action == Some(
            (KeyAction { target: Target::CameraRotation, axis: 1, direction: Direction::Increase }),
        ),
        key_code == 86 ==> action == Some(
            (KeyAction { target: Target::CameraRotation, axis: 1, direction: Direction::Decrease }),
        ),
        key_code == 66 ==> action == Some(
            (KeyAction { target: Target::CameraRotation, axis: 2, direction: Direction::Increase }),
        ),
        key_code == 77 ==> action == Some(
            (KeyAction { target: Target::CameraRotation, axis: 2, direction: Direction::Decrease }),
        ),
        key_code == 56 ==> action == Some(
            (KeyAction { target: Target::ModelTranslation, axis: 0, direction: Direction::Decrease }),
        ),
        key_code == 70 ==> action == Some(
            (KeyAction { target: Target::ModelTranslation, axis: 1, direction: Direction::Increase }),
        ),
        key_code == 71 ==> action == Some(
            (KeyAction { target: Target::ModelTranslation, axis: 0, direction: Direction::Increase }),
        ),
        key_code == 67 ==> action == Some(
            (KeyAction { target: Target::ModelTranslation, axis: 1, direction: Direction::Decrease }),
        ),
        key_code == 80 ==> action == Some(
            (KeyAction { target: Target::ModelTranslation, axis: 2, direction: Direction::Increase }),
        ),
        key_code == 89 ==> action == Some(
            (KeyAction { target: Target::ModelTranslation, axis: 2, direction: Direction::Decrease }),
        ),
        (key_code != 39 && key_code != 38 && key_code != 37 && key_code != 40 && key_code != 186 && key_code != 81 && key_code != 87 && key_code != 90 && key_code != 83 && key_code != 86 && key_code != 66 && key_code != 77 && key_code != 56 && key_code != 70 && key_code != 71 && key_code != 67 && key_code != 80 && key_code != 89) ==> action is None,
{
    match key_code {
        39 => Some(KeyAction { target: Target::ModelRotation, axis: 1, direction: Direction::Decrease }),
        38 => Some(KeyAction { target: Target::ModelRotation, axis: 0, direction: Direction::Increase }),
        37 => Some(KeyAction { target: Target::ModelRotation, axis: 1, direction: Direction::Increase }),
        40 => Some(KeyAction { target: Target::ModelRotation, axis: 0, direction: Direction::Decrease }),
        186 => Some(KeyAction { target: Target::ModelRotation, axis: 2, direction: Direction::Increase }),
        81 => Some(KeyAction { target: Target::ModelRotation, axis: 2, direction: Direction::Decrease }),
        87 => Some(KeyAction { target: Target::CameraRotation, axis: 0, direction: Direction::Decrease }),
        90 => Some(KeyAction { target: Target::CameraRotation, axis: 0, direction: Direction::Increase }),
        83 => Some(KeyAction { target: Target::CameraRotation, axis: 1, direction: Direction::Increase }),
        86 => Some(KeyAction { target: Target::CameraRotation, axis: 1, direction: Direction::Decrease }),
        66 => Some(KeyAction { target: Target::CameraRotation, axis: 2, direction: Direction::Increase }),
        77 => Some(KeyAction { target: Target::CameraRotation, axis: 2, direction: Direction::Decrease }),
        56 => Some(KeyAction { target: Target::ModelTranslation, axis: 0, direction: Direction::Decrease }),
        70 => Some(KeyAction { target: Target::ModelTranslation, axis: 1, direction: Direction::Increase }),
        71 => Some(KeyAction { target: Target::ModelTranslation, axis: 0, direction: Direction::Increase }),
        67 => Some(KeyAction { target: Target::ModelTranslation, axis: 1, direction: Direction::Decrease }),
        80 => Some(KeyAction { target: Target::ModelTranslation, axis: 2, direction: Direction::Increase }),
        89 => Some(KeyAction { target: Target::ModelTranslation, axis: 2, direction: Direction::Decrease }),
        _ => None,
    }
}

/// Every bound key has an opposite key, whose step undoes its step.
pub proof fn lemma_every_key_has_opposite(code: u32)
    requires
        key_binding(code) is Some,
    ensures
        exists|other: u32|
            other != code && #[trigger] key_binding(other) == Some(key_binding(code)->0.reversed()),
{
    let other = opposite_key(code);
    assert(other != code && key_binding(other) == Some(key_binding(code)->0.reversed()));
}

/// No two keys are bound to the same step.
pub proof fn lemma_bindings_distinct(a: u32, b: u32)
    requires
        key_binding(a) is Some,
        key_binding(a) == key_binding(b),
    ensures
        a == b,
{
}

/// Every step of every target along every axis, up or down, has a key.
pub proof fn lemma_every_step_bound(action: KeyAction)
    requires
        action.is_valid(),
    ensures
        exists|code: u32| #[trigger] key_binding(code) == Some(action),
{
    let code: u32 = match action.target {
        Target::ModelRotation => match action.direction {
            Direction::Increase => if action.axis == 0 { 38 } else if action.axis == 1 { 37 } else { 186 },
            Direction::Decrease => if action.axis == 0 { 40 } else if action.axis == 1 { 39 } else { 81 },
        },
        Target::CameraRotation => match action.direction {
            Direction::Increase => if action.axis == 0 { 90 } else if action.axis == 1 { 83 } else { 66 },
            Direction::Decrease => if action.axis == 0 { 87 } else if action.axis == 1 { 86 } else { 77 },
        },
        Target::ModelTranslation => match action.direction {
            Direction::Increase => if action.axis == 0 { 71 } else if action.axis == 1 { 70 } else { 80 },
            Direction::Decrease => if action.axis == 0 { 56 } else if action.axis == 1 { 67 } else { 89 },
        },
    };
    assert(key_binding(code) == Some(action));
}

} // verus!
