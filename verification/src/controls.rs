//! Keyboard controls of the simulation parameters.
//!
//! Each key maps to a command. Up and Down raise and lower vertical gravity,
//! Left and Right raise and lower horizontal gravity. Paired keys move one parameter down and up
//! by the same step, each stopping at its own limit; Space sets gravity to
//! zero; H shows the help text. Steps and limits are given in thousandths:
//! a step of `5` means `0.005`.
use vstd::prelude::*;

verus! {

/// The keys the simulation reacts to; every other key is `Other`.
#[derive(Clone, Copy, Debug, PartialEq, Eq, Structural)]
pub enum Key {
    ArrowUp,
    ArrowDown,
    ArrowLeft,
    ArrowRight,
    KeyD,
    KeyF,
    KeyR,
    KeyT,
    KeyV,
    KeyB,
    KeyC,
    KeyX,
    KeyZ,
    KeyA,
    Space,
    KeyH,
    Other,
}

/// A physics parameter of the compute shader.
#[derive(Clone, Copy, Debug, PartialEq, Eq, Structural)]
pub enum Param {
    /// Horizontal component of gravity, the first of the pair `[x, y]`.
    GravityX,
    /// Vertical component of gravity, the second of the pair `[x, y]`.
    GravityY,
    /// Air resistance factor applied to the velocity each step.
    Damping,
    /// Bounciness of collisions.
    Restitution,
    /// Speed cap.
    MaxVelocity,
    /// How far balls may overlap before they push apart.
    CollisionSoftness,
    /// Length of one simulation step.
    Timestep,
}

/// Which way a key moves its parameter.
#[derive(Clone, Copy, Debug, PartialEq, Eq, Structural)]
pub enum Direction {
    Decrease,
    Increase,
}

/// A change of one parameter by a fixed step. A decrease never goes below
/// `limit_milli` and an increase never goes above it; `None` means the
/// parameter is not clamped.
#[derive(Clone, Copy, Debug, PartialEq, Eq, Structural)]
pub struct Adjustment {
    pub param: Param,
    pub direction: Direction,
    pub step_milli: u32,
    pub limit_milli: Option<u32>,
}

/// What a key press asks for.
#[derive(Clone, Copy, Debug, PartialEq, Eq, Structural)]
pub enum Command {
    /// Move one parameter by a step, clamped to a limit.
    Adjust(Adjustment),
    /// Set both components of gravity to zero.
    ResetGravity,
    /// Print the list of controls and the current parameter values.
    ShowHelp,
    /// Do nothing.
    Ignore,
}

/// The adjustment command with the given fields.
pub open spec fn adjust(param: Param, direction: Direction, step_milli: u32, limit_milli: Option<u32>) -> Command {
    Command::Adjust(Adjustment { param, direction, step_milli, limit_milli })
}

/// The control table: the command of every key.
pub open spec fn key_command(key: Key) -> Command {
    match key {
        Key::ArrowUp => adjust(Param::GravityY, Direction::Increase, 100, None),
        Key::ArrowDown => adjust(Param::GravityY, Direction::Decrease, 100, None),
        Key::ArrowLeft => adjust(Param::GravityX, Direction::Increase, 100, None),
        Key::ArrowRight => adjust(Param::GravityX, Direction::Decrease, 100, None),
        Key::KeyD => adjust(Param::Damping, Direction::Decrease, 5, Some(800)),
        Key::KeyF => adjust(Param::Damping, Direction::Increase, 5, Some(999)),
        Key::KeyR => adjust(Param::Restitution, Direction::Decrease, 50, Some(0)),
        Key::KeyT => adjust(Param::Restitution, Direction::Increase, 50, Some(1000)),
        Key::KeyV => adjust(Param::MaxVelocity, Direction::Decrease, 1000, Some(1000)),
        Key::KeyB => adjust(Param::MaxVelocity, Direction::Increase, 1000, Some(100000)),
        Key::KeyC => adjust(Param::CollisionSoftness, Direction::Decrease, 50, Some(100)),
        Key::KeyX => adjust(Param::CollisionSoftness, Direction::Increase, 50, Some(1000)),
        Key::KeyZ => adjust(Param::Timestep, Direction::Decrease, 1, Some(1)),
        Key::KeyA => adjust(Param::Timestep, Direction::Increase, 1, Some(1000)),
        Key::Space => Command::ResetGravity,
        Key::KeyH => Command::ShowHelp,
        Key::Other => Command::Ignore,
    }
}

/// The command a key press asks for, as the control table gives it.
pub fn command_for_key(key: Key) -> (command: Command)
    ensures
        command == key_command(key),
{
    match key {
        Key::ArrowUp => Command::Adjust(
            Adjustment { param: Param::GravityY, direction: Direction::Increase, step_milli: 100, limit_milli: None },
        ),
        Key::ArrowDown => Command::Adjust(
            Adjustment { param: Param::GravityY, direction: Direction::Decrease, step_milli: 100, limit_milli: None },
        ),
        Key::ArrowLeft => Command::Adjust(
            Adjustment { param: Param::GravityX, direction: Direction::Increase, step_milli: 100, limit_milli: None },
        ),
        Key::ArrowRight => Command::Adjust(
            Adjustment { param: Param::GravityX, direction: Direction::Decrease, step_milli: 100, limit_milli: None },
        ),
        Key::KeyD => Command::Adjust(
            Adjustment { param: Param::Damping, direction: Direction::Decrease, step_milli: 5, limit_milli: Some(800) },
        ),
        Key::KeyF => Command::Adjust(
            Adjustment { param: Param::Damping, direction: Direction::Increase, step_milli: 5, limit_milli: Some(999) },
        ),
        Key::KeyR => Command::Adjust(
            Adjustment { param: Param::Restitution, direction: Direction::Decrease, step_milli: 50, limit_milli: Some(0) },
        ),
        Key::KeyT => Command::Adjust(
            Adjustment { param: Param::Restitution, direction: Direction::Increase, step_milli: 50, limit_milli: Some(1000) },
        ),
        Key::KeyV => Command::Adjust(
            Adjustment { param: Param::MaxVelocity, direction: Direction::Decrease, step_milli: 1000, limit_milli: Some(1000) },
        ),
        Key::KeyB => Command::Adjust(
            Adjustment { param: Param::MaxVelocity, direction: Direction::Increase, step_milli: 1000, limit_milli: Some(100000) },
        ),
        Key::KeyC => Command::Adjust(
            Adjustment { param: Param::CollisionSoftness, direction: Direction::Decrease, step_milli: 50, limit_milli: Some(100) },
        ),
        Key::KeyX => Command::Adjust(
            Adjustment { param: Param::CollisionSoftness, direction: Direction::Increase, step_milli: 50, limit_milli: Some(1000) },
        ),
        Key::KeyZ => Command::Adjust(
            Adjustment { param: Param::Timestep, direction: Direction::Decrease, step_milli: 1, limit_milli: Some(1) },
        ),
        Key::KeyA => Command::Adjust(
            Adjustment { param: Param::Timestep, direction: Direction::Increase, step_milli: 1, limit_milli: Some(1000) },
        ),
        Key::Space => Command::ResetGravity,
        Key::KeyH => Command::ShowHelp,
        Key::Other => Command::Ignore,
    }
}

/// Whether a command changes the parameters, so that the copy of them on
/// the GPU must be rewritten: adjustments and the gravity reset do, the help
/// text and ignored keys do not.
pub fn changes_params(command: &Command) -> (changed: bool)
    ensures
        changed == (command is Adjust || command is ResetGravity),
{
    match command {
        Command::Adjust(_) | Command::ResetGravity => true,
        Command::ShowHelp | Command::Ignore => false,
    }
}

/// Whether `key` moves `param` in `direction`.
pub open spec fn moves(key: Key, param: Param, direction: Direction) -> bool {
    key_command(key) matches Command::Adjust(a) && a.param == param && a.direction == direction
}

/// Law: every parameter has a key that lowers it and a key that raises it.
pub proof fn lemma_every_param_has_both_keys(param: Param)
    ensures
        exists|k: Key| #[trigger] moves(k, param, Direction::Decrease),
        exists|k: Key| #[trigger] moves(k, param, Direction::Increase),
{
    match param {
        Param::GravityX => {
            assert(moves(Key::ArrowRight, param, Direction::Decrease));
            assert(moves(Key::ArrowLeft, param, Direction::Increase));
        },
        Param::GravityY => {
            assert(moves(Key::ArrowDown, param, Direction::Decrease));
            assert(moves(Key::ArrowUp, param, Direction::Increase));
        },
        Param::Damping => {
            assert(moves(Key::KeyD, param, Direction::Decrease));
            assert(moves(Key::KeyF, param, Direction::Increase));
        },
        Param::Restitution => {
            assert(moves(Key::KeyR, param, Direction::Decrease));
            assert(moves(Key::KeyT, param, Direction::Increase));
        },
        Param::MaxVelocity => {
            assert(moves(Key::KeyV, param, Direction::Decrease));
            assert(moves(Key::KeyB, param, Direction::Increase));
        },
        Param::CollisionSoftness => {
            assert(moves(Key::KeyC, param, Direction::Decrease));
            assert(moves(Key::KeyX, param, Direction::Increase));
        },
        Param::Timestep => {
            assert(moves(Key::KeyZ, param, Direction::Decrease));
            assert(moves(Key::KeyA, param, Direction::Increase));
        },
    }
}

/// Law: a parameter is moved in a given direction by one key only.
pub proof fn lemma_one_key_per_direction(k1: Key, k2: Key, param: Param, direction: Direction)
    requires
        moves(k1, param, direction),
        moves(k2, param, direction),
    ensures
        k1 == k2,
{
}

/// Law: the two keys of a parameter move it by the same step; either both
/// are unclamped, or the floor of the lowering key lies strictly below the
/// ceiling of the raising key.
pub proof fn lemma_paired_keys_agree(down: Key, up: Key, param: Param)
    requires
        moves(down, param, Direction::Decrease),
        moves(up, param, Direction::Increase),
    ensures
        key_command(down)->Adjust_0.step_milli == key_command(up)->Adjust_0.step_milli,
        key_command(down)->Adjust_0.limit_milli is None <==> key_command(up)->Adjust_0.limit_milli is None,
        key_command(down)->Adjust_0.limit_milli matches Some(floor) ==> (
            key_command(up)->Adjust_0.limit_milli matches Some(ceiling) && floor < ceiling),
{
}

/// Law: only the paired adjustment keys, Space and H do anything; every
/// other key is ignored, and neither H nor an ignored key changes the
/// parameters.
pub proof fn lemma_only_listed_keys_act(key: Key)
    ensures
        key == Key::Other <==> key_command(key) is Ignore,
        key == Key::KeyH <==> key_command(key) is ShowHelp,
        key == Key::Space <==> key_command(key) is ResetGravity,
{
}

} // verus!
