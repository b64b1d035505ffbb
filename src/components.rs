use vstd::prelude::*;
use crate::clips::Clip;

verus! {

/// The stage of the pitch and swing cycle. The swing outcomes are modelled
/// but no transition enters them yet.
#[derive(Clone, Copy, Debug, PartialEq, Eq, Structural)]
pub enum GamePhase {
    WaitingForPlayer,
    PlayerReady,
    Windup,
    Pitching,
    BallInFlight,
    Foul,
    HomeRun,
    Hit,
    Miss,
}

impl GamePhase {
    /// The phase that follows this one in the cycle; an outcome phase has no
    /// successor.
    pub open spec fn cycle_next(self) -> GamePhase {
        match self {
            GamePhase::WaitingForPlayer => GamePhase::PlayerReady,
            GamePhase::PlayerReady => GamePhase::Windup,
            GamePhase::Windup => GamePhase::Pitching,
            GamePhase::Pitching => GamePhase::BallInFlight,
            GamePhase::BallInFlight => GamePhase::WaitingForPlayer,
            other => other,
        }
    }
}

/// The authoritative phase of the game.
#[derive(Clone, Copy, Debug, PartialEq, Eq, Structural)]
pub struct GameFlow {
    pub active: GamePhase,
}

/// The pitcher: milliseconds left in the current timed phase, and its clip.
#[derive(Clone, Copy, Debug, PartialEq, Eq, Structural)]
pub struct Pitcher {
    pub action_ttl: i64,
    pub active_clip: Option<Clip>,
}

/// The power gauge: milliseconds accumulated during the windup, the gauge
/// level in thousandths (from -1000 to 1000), the bar clip and the pointer
/// clip.
#[derive(Clone, Copy, Debug, PartialEq, Eq, Structural)]
pub struct PowerMeter {
    pub time: u64,
    pub power_level: i32,
    pub active_clip: Option<Clip>,
    pub pointer_clip: Clip,
}

/// Marks that a batter takes part.
#[derive(Clone, Copy, Debug, PartialEq, Eq, Structural)]
pub struct Batter;

/// A point or a pair of scale factors, in whole pixels or units.
#[derive(Clone, Copy, Debug, PartialEq, Eq, Structural)]
pub struct Point {
    pub x: i32,
    pub y: i32,
}

/// An axis-aligned box in pixels.
#[derive(Clone, Copy, Debug, PartialEq, Eq, Structural)]
pub struct Rect {
    pub x: i32,
    pub y: i32,
    pub w: i32,
    pub h: i32,
}

/// The bat's collision state; no system moves it yet.
#[derive(Clone, Copy, Debug, PartialEq, Eq, Structural)]
pub struct Bat {
    pub swinging: bool,
    pub bbox: Rect,
}

/// The ball's flight state, with its angle in thousandths of a radian and
/// its speed in pixels per second; no system moves it yet.
#[derive(Clone, Copy, Debug, PartialEq, Eq, Structural)]
pub struct Ball {
    pub bbox: Rect,
    pub pos: Point,
    pub angle: i32,
    pub velocity: i32,
    pub out_of_bounds: bool,
}

} // verus!
