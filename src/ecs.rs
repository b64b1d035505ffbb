use vstd::prelude::*;
use crate::clips::{Clip, ClipName, PlayMode, plays};
use crate::components::{Batter, GameFlow, GamePhase, Pitcher, PowerMeter};
use crate::input::{TickData, is_held};
use crate::systems::{
    BatterThink,
    DrawCommand,
    PitcherThink,
    PowerMeterSys,
    Render,
    WINDUP_SPREAD_MS,
    batter_next,
    frame_commands,
    meter_next,
    pitcher_next,
};

verus! {

/// The clips that one tick started. The clip player creates each of them
/// from its sheet, in place of the component's old clip, before it advances
/// every clip by the tick's time.
#[derive(Clone, Copy, Debug, PartialEq, Eq, Structural)]
pub struct ClipChanges {
    pub pitcher: Option<Clip>,
    pub meter: Option<Clip>,
}

/// The game world: the one entity that carries the flow, the pitcher, the
/// batter and the power meter. Each tick runs the batter's decision, then the
/// pitcher's, then the gauge, in that order; drawing comes after.
#[derive(Clone, Copy, Debug)]
pub struct ECS {
    pub flow: GameFlow,
    pub pitcher: Pitcher,
    pub batter: Batter,
    pub meter: PowerMeter,
}

/// The world after one tick, and the clips that it started. The phase
/// changes at most once a tick: where the batter's decision moved it, the
/// pitcher makes no decision until the next tick.
pub open spec fn tick_next(s: ECS, data: TickData, drained: bool, extra: int) -> (ECS, ClipChanges) {
    let p1 = batter_next(s.flow.active, data.input_state);
    let (p2, pitch, pc) = if p1 == s.flow.active {
        pitcher_next(p1, s.pitcher, data.delta_ms as int, drained, extra)
    } else {
        (p1, s.pitcher, None)
    };
    let (meter, mc) = meter_next(p2, s.meter, data.delta_ms as int);
    (
        ECS { flow: GameFlow { active: p2 }, pitcher: pitch, batter: s.batter, meter },
        ClipChanges { pitcher: pc, meter: mc },
    )
}

impl ECS {
    /// The world between ticks. A running countdown is never below zero when
    /// a tick begins, the gauge only holds time during the windup, and the
    /// gauge level is in range.
    pub open spec fn wf(&self) -> bool {
        let ttl = self.pitcher.action_ttl as int;
        let phase = self.flow.active;
        &&& ttl >= -(u32::MAX as int)
        &&& phase is Windup ==> 0 <= ttl && self.meter.time + ttl <= 5500 + u32::MAX
        &&& (phase is Pitching || phase is BallInFlight) && plays(
            self.pitcher.active_clip,
            ClipName::NotReady,
        ) ==> ttl >= 0
        &&& phase !is Windup ==> self.meter.time == 0
        &&& -1000 <= self.meter.power_level <= 1000
    }

    /// A world waiting for the player: the pitcher plays "Ready", the gauge
    /// holds "No Bar" and its pointer loops "Default".
    pub fn new() -> (r: ECS)
        ensures
            r.wf(),
            r.flow.active is WaitingForPlayer,
            r.pitcher == (Pitcher {
                action_ttl: 0,
                active_clip: Some(Clip { name: ClipName::Ready, mode: PlayMode::Loop }),
            }),
            r.meter == (PowerMeter {
                time: 0,
                power_level: 0,
                active_clip: Some(Clip { name: ClipName::NoBar, mode: PlayMode::Hold }),
                pointer_clip: Clip { name: ClipName::Pointer, mode: PlayMode::Loop },
            }),
    {
        ECS {
            flow: GameFlow { active: GamePhase::WaitingForPlayer },
            pitcher: Pitcher {
                action_ttl: 0,
                active_clip: Some(Clip::new(ClipName::Ready, PlayMode::Loop)),
            },
            batter: Batter,
            meter: PowerMeter {
                time: 0,
                power_level: 0,
                active_clip: Some(Clip::new(ClipName::NoBar, PlayMode::Hold)),
                pointer_clip: Clip::new(ClipName::Pointer, PlayMode::Loop),
            },
        }
    }

    /// One tick, with the random part of a windup that starts in it given as
    /// `windup_extra`. `pitcher_drained` is whether the pitcher's clip had
    /// drained when the tick began.
    pub fn tick_with_windup(
        &mut self,
        tick_data: &TickData,
        pitcher_drained: bool,
        windup_extra: u64,
    ) -> (r: ClipChanges)
        requires
            old(self).wf(),
            windup_extra < WINDUP_SPREAD_MS,
        ensures
            final(self).wf(),
            (*final(self), r) == tick_next(
                *old(self),
                *tick_data,
                pitcher_drained,
                windup_extra as int,
            ),
            final(self).flow.active == old(self).flow.active || final(self).flow.active == old(
                self,
            ).flow.active.cycle_next(),
    {
        let before = self.flow.active;
        BatterThink.run(&mut self.flow, tick_data);
        let pc = if self.flow.active == before {
            PitcherThink.run_with_windup(
                &mut self.flow,
                &mut self.pitcher,
                tick_data,
                pitcher_drained,
                windup_extra,
            )
        } else {
            None
        };
        let mc = PowerMeterSys.run(&self.flow, &mut self.meter, tick_data);
        ClipChanges { pitcher: pc, meter: mc }
    }

    /// One tick; a windup that starts in it lasts a random time from 3000 ms
    /// up to, not including, 5500 ms.
    pub fn tick(&mut self, tick_data: &TickData, pitcher_drained: bool) -> (r: ClipChanges)
        requires
            old(self).wf(),
        ensures
            final(self).wf(),
            exists|extra: int|
                0 <= extra < WINDUP_SPREAD_MS && (*final(self), r) == tick_next(
                    *old(self),
                    *tick_data,
                    pitcher_drained,
                    extra,
                ),
            final(self).flow.active == old(self).flow.active || final(self).flow.active == old(
                self,
            ).flow.active.cycle_next(),
    {
        let ghost start = *self;
        let before = self.flow.active;
        BatterThink.run(&mut self.flow, tick_data);
        let ghost ready = self.flow.active;
        let moved = self.flow.active != before;
        let pc = if moved {
            None
        } else {
            PitcherThink.run(&mut self.flow, &mut self.pitcher, tick_data, pitcher_drained)
        };
        let ghost extra = if moved {
            0int
        } else {
            choose|extra: int|
                0 <= extra < WINDUP_SPREAD_MS && (self.flow.active, self.pitcher, pc)
                    == pitcher_next(
                    ready,
                    start.pitcher,
                    tick_data.delta_ms as int,
                    pitcher_drained,
                    extra,
                )
        };
        let mc = PowerMeterSys.run(&self.flow, &mut self.meter, tick_data);
        let r = ClipChanges { pitcher: pc, meter: mc };
        assert((*self, r) == tick_next(start, *tick_data, pitcher_drained, extra));
        r
    }

    /// The draw commands of the tick that just ran, given the cell that each
    /// clip shows after the tick's advance.
    pub fn render(
        &self,
        pitcher_cell: Option<usize>,
        bar_cell: Option<usize>,
        pointer_cell: Option<usize>,
    ) -> (r: Vec<DrawCommand>)
        requires
            self.wf(),
        ensures
            r@ == frame_commands(
                self.pitcher,
                self.meter,
                self.flow.active,
                pitcher_cell,
                bar_cell,
                pointer_cell,
            ),
    {
        Render.run(&self.pitcher, &self.meter, &self.flow, pitcher_cell, bar_cell, pointer_cell)
    }
}

/// A tick moves the phase along the cycle and nowhere else, by at most one
/// step. From waiting, a held button makes the player ready, and the windup
/// starts on the next tick; no phase of the cycle is skipped.
pub proof fn lemma_phase_cycle(s: ECS, data: TickData, drained: bool, extra: int)
    requires
        s.wf(),
        0 <= extra < WINDUP_SPREAD_MS,
    ensures
        ({
            let start = s.flow.active;
            let end = tick_next(s, data, drained, extra).0.flow.active;
            &&& end == start || end == start.cycle_next()
            &&& start is WaitingForPlayer ==> (end is PlayerReady <==> is_held(data.input_state))
            &&& start is PlayerReady ==> end is Windup
        }),
{
}

/// The time that a run of ticks covers.
pub open spec fn elapsed_ms(ticks: Seq<TickData>) -> int
    decreases ticks.len(),
{
    if ticks.len() == 0 {
        0
    } else {
        ticks[0].delta_ms + elapsed_ms(ticks.drop_first())
    }
}

/// The world after a run of ticks in which the pitcher's clip never drains
/// and a windup that starts takes `extra` as its random part.
pub open spec fn world_run(s: ECS, ticks: Seq<TickData>, extra: int) -> ECS
    decreases ticks.len(),
{
    if ticks.len() == 0 {
        s
    } else {
        world_run(tick_next(s, ticks[0], false, extra).0, ticks.drop_first(), extra)
    }
}

proof fn lemma_elapsed_nonneg(ticks: Seq<TickData>)
    ensures
        elapsed_ms(ticks) >= 0,
    decreases ticks.len(),
{
    if ticks.len() > 0 {
        lemma_elapsed_nonneg(ticks.drop_first());
    }
}

/// Without a drained clip, a run that never reaches the flight: the pitch
/// waits on its clip, and every earlier phase leads only up to it.
proof fn lemma_no_flight(s: ECS, ticks: Seq<TickData>, extra: int)
    requires
        0 <= extra < WINDUP_SPREAD_MS,
        s.flow.active is WaitingForPlayer || s.flow.active is PlayerReady
            || s.flow.active is Windup || s.flow.active is Pitching,
        s.flow.active is Windup ==> s.pitcher.action_ttl >= 0,
        s.flow.active is Pitching ==> s.pitcher.active_clip is Some,
    ensures
        world_run(s, ticks, extra).flow.active !is BallInFlight,
    decreases ticks.len(),
{
    if ticks.len() > 0 {
        lemma_no_flight(tick_next(s, ticks[0], false, extra).0, ticks.drop_first(), extra);
    }
}

/// A windup with `action_ttl` left lasts exactly as long as the ticks fed to
/// it sum to at most `action_ttl`; the first tick that takes the total past
/// it starts the pitch, which then waits on its clip.
pub proof fn lemma_windup_lasts(s: ECS, ticks: Seq<TickData>, extra: int)
    requires
        s.flow.active is Windup,
        0 <= s.pitcher.action_ttl,
    ensures
        world_run(s, ticks, extra).flow.active is Windup <==> elapsed_ms(ticks)
            <= s.pitcher.action_ttl,
        world_run(s, ticks, extra).flow.active is Windup || world_run(
            s,
            ticks,
            extra,
        ).flow.active is Pitching,
    decreases ticks.len(),
{
    if ticks.len() > 0 {
        let rest = ticks.drop_first();
        let next = tick_next(s, ticks[0], false, extra).0;
        lemma_elapsed_nonneg(rest);
        if next.flow.active is Windup {
            lemma_windup_lasts(next, rest, extra);
        } else {
            lemma_pitch_holds(next, rest, extra);
        }
    }
}

proof fn lemma_pitch_holds(s: ECS, ticks: Seq<TickData>, extra: int)
    requires
        s.flow.active is Pitching,
        s.pitcher.active_clip is Some,
    ensures
        world_run(s, ticks, extra).flow.active is Pitching,
    decreases ticks.len(),
{
    if ticks.len() > 0 {
        lemma_pitch_holds(tick_next(s, ticks[0], false, extra).0, ticks.drop_first(), extra);
    }
}

/// A ball in flight with `action_ttl` left (its "Not Ready" clip already
/// started) stays in flight exactly as long as the ticks fed to it sum to at
/// most `action_ttl`; the first tick that takes the total past it returns the
/// game to waiting for the player.
pub proof fn lemma_flight_lasts(s: ECS, ticks: Seq<TickData>, extra: int)
    requires
        0 <= extra < WINDUP_SPREAD_MS,
        s.flow.active is BallInFlight,
        0 <= s.pitcher.action_ttl,
        plays(s.pitcher.active_clip, ClipName::NotReady),
    ensures
        world_run(s, ticks, extra).flow.active is BallInFlight <==> elapsed_ms(ticks)
            <= s.pitcher.action_ttl,
        ticks.len() > 0 && ticks[0].delta_ms > s.pitcher.action_ttl ==> tick_next(
            s,
            ticks[0],
            false,
            extra,
        ).0.flow.active is WaitingForPlayer,
    decreases ticks.len(),
{
    if ticks.len() > 0 {
        let rest = ticks.drop_first();
        let next = tick_next(s, ticks[0], false, extra).0;
        lemma_elapsed_nonneg(rest);
        if next.flow.active is BallInFlight {
            lemma_flight_lasts(next, rest, extra);
        } else {
            lemma_no_flight(next, rest, extra);
        }
    }
}

} // verus!
