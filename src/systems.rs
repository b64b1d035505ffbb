use vstd::prelude::*;
use rand::Rng;
use crate::clips::{Clip, ClipName, PlayMode, plays, is_playing};
use crate::components::{GamePhase, GameFlow, Pitcher, PowerMeter, Point};
use crate::gauge::{wave, wave_level};
use crate::input::{InputState, TickData, is_held, key_pressed};

verus! {

/// The sprite atlases that draw commands refer to.
#[derive(Clone, Copy, Debug, PartialEq, Eq, Structural)]
pub enum Sprite {
    PitchingMachine,
    Bar,
    Pointer,
}

impl Sprite {
    pub open spec fn file_name_spec(self) -> Seq<char> {
        match self {
            Sprite::PitchingMachine => "pitching-machine.png"@,
            Sprite::Bar => "bar.png"@,
            Sprite::Pointer => "pointer.png"@,
        }
    }

    /// The image file of the atlas.
    pub fn file_name(&self) -> (r: String)
        ensures
            r@ == self.file_name_spec(),
    {
        match self {
            Sprite::PitchingMachine => "pitching-machine.png".to_string(),
            Sprite::Bar => "bar.png".to_string(),
            Sprite::Pointer => "pointer.png".to_string(),
        }
    }
}

/// One instruction for the drawing side. Positions are in pixels; in
/// `DrawTransformed` the rotation is in thousandths of a radian and the scale
/// factors in thousandths.
#[derive(Debug)]
pub enum DrawCommand {
    DrawTransformed { path: String, x: i32, y: i32, rot: i32, sx: i32, sy: i32 },
    DrawSpriteSheetCell(Sprite, usize, Point, Point),
}

/// The longest extra windup, beyond the fixed part, in milliseconds.
pub const WINDUP_SPREAD_MS: u64 = 2500;

/// The fixed part of the windup, in milliseconds.
pub const WINDUP_BASE_MS: i64 = 3000;

/// How long the ball stays in flight, in milliseconds.
pub const FLIGHT_MS: i64 = 5000;

/// Relies on rand::thread_rng and Rng::gen_range: a draw from `0..bound`
/// lies in that range.
#[verifier::external_body]
fn draw_below(bound: u64) -> (r: u64)
    requires
        bound > 0,
    ensures
        r < bound,
{
    rand::thread_rng().gen_range(0..bound)
}

/// The phase after the batter's decision.
pub open spec fn batter_next(phase: GamePhase, input: InputState) -> GamePhase {
    if phase is WaitingForPlayer && is_held(input) {
        GamePhase::PlayerReady
    } else {
        phase
    }
}

pub open spec fn winding() -> Clip {
    Clip { name: ClipName::Winding, mode: PlayMode::Loop }
}

pub open spec fn pitching() -> Clip {
    Clip { name: ClipName::Pitching, mode: PlayMode::OneShot }
}

pub open spec fn not_ready() -> Clip {
    Clip { name: ClipName::NotReady, mode: PlayMode::Loop }
}

pub open spec fn ready() -> Clip {
    Clip { name: ClipName::Ready, mode: PlayMode::Loop }
}

pub open spec fn no_bar() -> Clip {
    Clip { name: ClipName::NoBar, mode: PlayMode::Loop }
}

pub open spec fn bar() -> Clip {
    Clip { name: ClipName::Bar, mode: PlayMode::Loop }
}

/// The pitcher subtracts the tick's time from `action_ttl` in this state.
pub open spec fn counts_down(phase: GamePhase, pitch: Pitcher) -> bool {
    phase is Windup || (phase is BallInFlight && plays(pitch.active_clip, ClipName::NotReady))
}

/// The pitcher's decision for one tick: the new phase, the new pitcher, and
/// the clip it started, if any. `drained` tells whether the clip it played
/// has drained; `extra` is the random part of a windup that starts now.
pub open spec fn pitcher_next(
    phase: GamePhase,
    pitch: Pitcher,
    delta: int,
    drained: bool,
    extra: int,
) -> (GamePhase, Pitcher, Option<Clip>) {
    match phase {
        GamePhase::PlayerReady => (
            GamePhase::Windup,
            Pitcher { action_ttl: (WINDUP_BASE_MS + extra) as i64, active_clip: Some(winding()) },
            Some(winding()),
        ),
        GamePhase::Windup => {
            let ttl = pitch.action_ttl - delta;
            if ttl < 0 {
                (
                    GamePhase::Pitching,
                    Pitcher { action_ttl: ttl as i64, active_clip: Some(pitching()) },
                    Some(pitching()),
                )
            } else {
                (GamePhase::Windup, Pitcher { action_ttl: ttl as i64, ..pitch }, None)
            }
        },
        GamePhase::Pitching => {
            if pitch.active_clip is None || drained {
                (GamePhase::BallInFlight, pitch, None)
            } else {
                (GamePhase::Pitching, pitch, None)
            }
        },
        GamePhase::BallInFlight => {
            if plays(pitch.active_clip, ClipName::NotReady) {
                let ttl = pitch.action_ttl - delta;
                if ttl < 0 {
                    (
                        GamePhase::WaitingForPlayer,
                        Pitcher { action_ttl: ttl as i64, active_clip: Some(ready()) },
                        Some(ready()),
                    )
                } else {
                    (GamePhase::BallInFlight, Pitcher { action_ttl: ttl as i64, ..pitch }, None)
                }
            } else {
                (
                    GamePhase::BallInFlight,
                    Pitcher { action_ttl: FLIGHT_MS as i64, active_clip: Some(not_ready()) },
                    Some(not_ready()),
                )
            }
        },
        _ => (phase, pitch, None),
    }
}

/// The power meter's update for one tick: the new meter and the clip it
/// started, if any.
pub open spec fn meter_next(phase: GamePhase, meter: PowerMeter, delta: int) -> (
    PowerMeter,
    Option<Clip>,
) {
    let idle = plays(meter.active_clip, ClipName::NoBar);
    match phase {
        GamePhase::WaitingForPlayer => {
            if idle {
                (meter, None)
            } else {
                (PowerMeter { active_clip: Some(no_bar()), ..meter }, Some(no_bar()))
            }
        },
        GamePhase::Windup => {
            let time = meter.time + delta;
            let swung = PowerMeter { time: time as u64, power_level: wave(time) as i32, ..meter };
            if idle {
                (PowerMeter { active_clip: Some(bar()), ..swung }, Some(bar()))
            } else {
                (swung, None)
            }
        },
        _ => (PowerMeter { time: 0, ..meter }, None),
    }
}

/// Moves the phase from waiting to ready once the button is held.
#[derive(Clone, Copy, Debug)]
pub struct BatterThink;

impl BatterThink {
    pub fn run(&self, flow: &mut GameFlow, data: &TickData)
        ensures
            final(flow).active == batter_next(old(flow).active, data.input_state),
    {
        if flow.active == GamePhase::WaitingForPlayer && key_pressed(&data.input_state) {
            flow.active = GamePhase::PlayerReady;
        }
    }
}

/// Runs the pitcher through windup, pitch and flight.
#[derive(Clone, Copy, Debug)]
pub struct PitcherThink;

impl PitcherThink {
    /// One tick of the pitcher, with the random part of a windup that starts
    /// in this tick given as `windup_extra`. `clip_drained` is whether the
    /// pitcher's clip had drained when the tick began. Returns the clip that
    /// the pitcher started, which its player must create before it advances
    /// every clip by the tick's time.
    pub fn run_with_windup(
        &self,
        flow: &mut GameFlow,
        pitch: &mut Pitcher,
        data: &TickData,
        clip_drained: bool,
        windup_extra: u64,
    ) -> (started: Option<Clip>)
        requires
            windup_extra < WINDUP_SPREAD_MS,
            counts_down(old(flow).active, *old(pitch)) ==> old(pitch).action_ttl - data.delta_ms
                >= i64::MIN,
        ensures
            (final(flow).active, *final(pitch), started) == pitcher_next(
                old(flow).active,
                *old(pitch),
                data.delta_ms as int,
                clip_drained,
                windup_extra as int,
            ),
    {
        let delta = data.delta_ms as i64;
        match flow.active {
            GamePhase::PlayerReady => {
                let clip = Clip::new(ClipName::Winding, PlayMode::Loop);
                pitch.active_clip = Some(clip);
                pitch.action_ttl = WINDUP_BASE_MS + windup_extra as i64;
                flow.active = GamePhase::Windup;
                Some(clip)
            },
            GamePhase::Windup => {
                pitch.action_ttl = pitch.action_ttl - delta;
                if pitch.action_ttl < 0 {
                    let clip = Clip::new(ClipName::Pitching, PlayMode::OneShot);
                    pitch.active_clip = Some(clip);
                    flow.active = GamePhase::Pitching;
                    Some(clip)
                } else {
                    None
                }
            },
            GamePhase::Pitching => {
                if pitch.active_clip.is_none() || clip_drained {
                    flow.active = GamePhase::BallInFlight;
                }
                None
            },
            GamePhase::BallInFlight => {
                if is_playing(&pitch.active_clip, ClipName::NotReady) {
                    pitch.action_ttl = pitch.action_ttl - delta;
                    if pitch.action_ttl < 0 {
                        let clip = Clip::new(ClipName::Ready, PlayMode::Loop);
                        pitch.active_clip = Some(clip);
                        flow.active = GamePhase::WaitingForPlayer;
                        Some(clip)
                    } else {
                        None
                    }
                } else {
                    let clip = Clip::new(ClipName::NotReady, PlayMode::Loop);
                    pitch.action_ttl = FLIGHT_MS;
                    pitch.active_clip = Some(clip);
                    Some(clip)
                }
            },
            _ => None,
        }
    }

    /// One tick of the pitcher; a windup that starts now lasts a random time
    /// from 3000 ms up to, not including, 5500 ms.
    pub fn run(&self, flow: &mut GameFlow, pitch: &mut Pitcher, data: &TickData, clip_drained: bool) -> (started: Option<Clip>)
        requires
            counts_down(old(flow).active, *old(pitch)) ==> old(pitch).action_ttl - data.delta_ms
                >= i64::MIN,
        ensures
            exists|extra: int|
                0 <= extra < WINDUP_SPREAD_MS && (final(flow).active, *final(pitch), started)
                    == pitcher_next(
                    old(flow).active,
                    *old(pitch),
                    data.delta_ms as int,
                    clip_drained,
                    extra,
                ),
            old(flow).active is PlayerReady ==> 3000 <= final(pitch).action_ttl < 5500,
    {
        let extra = if flow.active == GamePhase::PlayerReady {
            draw_below(WINDUP_SPREAD_MS)
        } else {
            0
        };
        self.run_with_windup(flow, pitch, data, clip_drained, extra)
    }
}

/// Keeps the power gauge in step with the phase.
#[derive(Clone, Copy, Debug)]
pub struct PowerMeterSys;

impl PowerMeterSys {
    /// One tick of the gauge. Returns the bar clip that it started, which the
    /// gauge's player must create before it advances the bar and pointer
    /// clips by the tick's time.
    pub fn run(&self, flow: &GameFlow, meter: &mut PowerMeter, data: &TickData) -> (started: Option<Clip>)
        requires
            flow.active is Windup ==> old(meter).time + data.delta_ms <= u64::MAX,
        ensures
            (*final(meter), started) == meter_next(flow.active, *old(meter), data.delta_ms as int),
            flow.active is Windup ==> -1000 <= final(meter).power_level <= 1000,
            flow.active !is Windup ==> final(meter).power_level == old(meter).power_level,
    {
        let idle = is_playing(&meter.active_clip, ClipName::NoBar);
        match flow.active {
            GamePhase::WaitingForPlayer => {
                if idle {
                    None
                } else {
                    let clip = Clip::new(ClipName::NoBar, PlayMode::Loop);
                    meter.active_clip = Some(clip);
                    Some(clip)
                }
            },
            GamePhase::Windup => {
                meter.time = meter.time + data.delta_ms as u64;
                meter.power_level = wave_level(meter.time);
                if idle {
                    let clip = Clip::new(ClipName::Bar, PlayMode::Loop);
                    meter.active_clip = Some(clip);
                    Some(clip)
                } else {
                    None
                }
            },
            _ => {
                meter.time = 0;
                None
            },
        }
    }
}

pub open spec fn pitcher_spot() -> (Point, Point) {
    (Point { x: 512, y: 530 }, Point { x: 2, y: 2 })
}

pub open spec fn bar_spot() -> (Point, Point) {
    (Point { x: 200, y: 700 }, Point { x: 1, y: 1 })
}

/// Where the pointer stands: 120 pixels either side of the bar's centre at
/// full level.
pub open spec fn pointer_x(level: int) -> int {
    (200000 + 120 * level) / 1000
}

/// The phases in which the pointer is drawn.
pub open spec fn shows_pointer(phase: GamePhase) -> bool {
    phase is Windup || phase is Pitching || phase is BallInFlight
}

/// The commands of one frame: the pitcher's cell, the bar's cell, then the
/// pointer's cell, each only where its clip has a cell now.
pub open spec fn frame_commands(
    pitch: Pitcher,
    meter: PowerMeter,
    phase: GamePhase,
    pitcher_cell: Option<usize>,
    bar_cell: Option<usize>,
    pointer_cell: Option<usize>,
) -> Seq<DrawCommand> {
    let a = if pitch.active_clip is Some && pitcher_cell is Some {
        seq![DrawCommand::DrawSpriteSheetCell(Sprite::PitchingMachine, pitcher_cell->0, pitcher_spot().0, pitcher_spot().1)]
    } else {
        Seq::empty()
    };
    let b = if meter.active_clip is Some && bar_cell is Some {
        seq![DrawCommand::DrawSpriteSheetCell(Sprite::Bar, bar_cell->0, bar_spot().0, bar_spot().1)]
    } else {
        Seq::empty()
    };
    let c = if shows_pointer(phase) && pointer_cell is Some {
        seq![
            DrawCommand::DrawSpriteSheetCell(
                Sprite::Pointer,
                pointer_cell->0,
                Point { x: pointer_x(meter.power_level as int) as i32, y: 730 },
                Point { x: 1, y: 1 },
            ),
        ]
    } else {
        Seq::empty()
    };
    a + b + c
}

/// Turns component state into draw commands, once per tick after the other
/// systems.
#[derive(Clone, Copy, Debug)]
pub struct Render;

impl Render {
    /// The draw commands of this tick, in order. Each `*_cell` is the cell
    /// that the matching clip shows after this tick's advance, if any: the
    /// pitcher's clip, the gauge's bar clip and its pointer clip.
    pub fn run(
        &self,
        pitch: &Pitcher,
        meter: &PowerMeter,
        flow: &GameFlow,
        pitcher_cell: Option<usize>,
        bar_cell: Option<usize>,
        pointer_cell: Option<usize>,
    ) -> (r: Vec<DrawCommand>)
        requires
            -1000 <= meter.power_level <= 1000,
        ensures
            r@ == frame_commands(*pitch, *meter, flow.active, pitcher_cell, bar_cell, pointer_cell),
            forall|i: int|
                0 <= i < r@.len() ==> match #[trigger] r@[i] {
                    DrawCommand::DrawSpriteSheetCell(sprite, idx, _, _) => match sprite {
                        Sprite::PitchingMachine => pitcher_cell == Some(idx),
                        Sprite::Bar => bar_cell == Some(idx),
                        Sprite::Pointer => pointer_cell == Some(idx),
                    },
                    _ => false,
                },
    {
        let mut out: Vec<DrawCommand> = Vec::new();
        if pitch.active_clip.is_some() {
            if let Some(idx) = pitcher_cell {
                out.push(
                    DrawCommand::DrawSpriteSheetCell(
                        Sprite::PitchingMachine,
                        idx,
                        Point { x: 512, y: 530 },
                        Point { x: 2, y: 2 },
                    ),
                );
            }
        }
        if meter.active_clip.is_some() {
            if let Some(idx) = bar_cell {
                out.push(
                    DrawCommand::DrawSpriteSheetCell(
                        Sprite::Bar,
                        idx,
                        Point { x: 200, y: 700 },
                        Point { x: 1, y: 1 },
                    ),
                );
            }
        }
        match flow.active {
            GamePhase::Windup | GamePhase::Pitching | GamePhase::BallInFlight => {
                if let Some(idx) = pointer_cell {
                    let offset: i32 = 200000 + 120 * meter.power_level;
                    let x: i32 = (offset as u32 / 1000) as i32;
                    out.push(
                        DrawCommand::DrawSpriteSheetCell(
                            Sprite::Pointer,
                            idx,
                            Point { x, y: 730 },
                            Point { x: 1, y: 1 },
                        ),
                    );
                }
            },
            _ => {},
        }
        proof {
            assert(out@ =~= frame_commands(*pitch, *meter, flow.active, pitcher_cell, bar_cell, pointer_cell));
        }
        out
    }
}

} // verus!
