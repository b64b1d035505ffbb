use home_world_derby::clips::{Clip, ClipName, PlayMode};
use home_world_derby::components::GamePhase;
use home_world_derby::ecs::ECS;
use home_world_derby::input::{InputState, InputTracker};
use home_world_derby::systems::{DrawCommand, Sprite};

/// A stand-in clip player: a one-shot clip drains once it has played for
/// `ONE_SHOT_MS`; every clip shows cell 0.
const ONE_SHOT_MS: u32 = 480;

struct Player {
    clip: Clip,
    elapsed: u32,
}

impl Player {
    fn drained(&self) -> bool {
        self.clip.mode == PlayMode::OneShot && self.elapsed >= ONE_SHOT_MS
    }
}

struct Game {
    input: InputTracker,
    ecs: ECS,
    pitcher: Player,
    phases: Vec<(u32, GamePhase)>,
    clock: u32,
}

impl Game {
    fn new() -> Game {
        let ecs = ECS::new();
        let pitcher = Player { clip: ecs.pitcher.active_clip.unwrap(), elapsed: 0 };
        Game { input: InputTracker::new(), ecs, pitcher, phases: vec![(0, GamePhase::WaitingForPlayer)], clock: 0 }
    }

    fn frame(&mut self, delta_ms: u32, windup_extra: u64) -> Vec<DrawCommand> {
        let data = self.input.update_current_tick_data(delta_ms);
        let changes = self.ecs.tick_with_windup(&data, self.pitcher.drained(), windup_extra);
        if let Some(c) = changes.pitcher {
            self.pitcher = Player { clip: c, elapsed: 0 };
        }
        self.pitcher.elapsed += delta_ms;
        self.input.finish_tick();
        self.clock += delta_ms;
        if self.phases.last().unwrap().1 != self.ecs.flow.active {
            self.phases.push((self.clock, self.ecs.flow.active));
        }
        self.ecs.render(Some(0), Some(0), Some(0))
    }
}

#[test]
fn press_then_sixteen_ms_ticks() {
    let mut g = Game::new();
    g.input.key_down_event();
    for _ in 0..400 {
        g.frame(16, 1000);
    }
    assert_eq!(g.clock, 6400);
    assert_eq!(
        g.phases,
        vec![
            (0, GamePhase::WaitingForPlayer),
            (32, GamePhase::PlayerReady),
            (48, GamePhase::Windup),
            (4064, GamePhase::Pitching),
            (4544, GamePhase::BallInFlight),
        ]
    );
    for _ in 400..700 {
        g.frame(16, 1000);
    }
    assert_eq!(g.phases.len(), 8);
    assert_eq!(g.phases[5], (9568, GamePhase::WaitingForPlayer));
    assert_eq!(g.phases[6], (9584, GamePhase::PlayerReady));
    assert_eq!(g.phases[7], (9600, GamePhase::Windup));
    assert_eq!(g.ecs.pitcher.active_clip, Some(Clip::new(ClipName::Winding, PlayMode::Loop)));
}

#[test]
fn held_button_replays_the_cycle() {
    let mut g = Game::new();
    g.input.key_down_event();
    for _ in 0..1300 {
        g.frame(16, 0);
    }
    let cycle = [
        GamePhase::WaitingForPlayer,
        GamePhase::PlayerReady,
        GamePhase::Windup,
        GamePhase::Pitching,
        GamePhase::BallInFlight,
    ];
    for (i, p) in g.phases.iter().enumerate() {
        assert_eq!(p.1, cycle[i % 5]);
    }
    assert!(g.phases.len() >= 11);
}

#[test]
fn waiting_without_press_stays() {
    let mut g = Game::new();
    for _ in 0..100 {
        let cmds = g.frame(16, 0);
        assert_eq!(cmds.len(), 2);
    }
    assert_eq!(g.phases.len(), 1);
    assert_eq!(g.ecs.meter.time, 0);
}

#[test]
fn gauge_swings_then_holds_its_level() {
    let mut g = Game::new();
    g.input.key_down_event();
    g.frame(16, 1000);
    assert_eq!(g.ecs.flow.active, GamePhase::WaitingForPlayer);
    g.frame(16, 1000);
    assert_eq!(g.ecs.flow.active, GamePhase::PlayerReady);
    assert_eq!(g.ecs.meter.time, 0);
    g.frame(16, 1000);
    assert_eq!(g.ecs.meter.active_clip, Some(Clip::new(ClipName::Bar, PlayMode::Loop)));
    let mut last = 0;
    while g.ecs.flow.active == GamePhase::Windup {
        g.frame(16, 1000);
        assert!(-1000 <= g.ecs.meter.power_level && g.ecs.meter.power_level <= 1000);
        last = g.ecs.meter.power_level;
    }
    assert_eq!(g.ecs.flow.active, GamePhase::Pitching);
    assert_eq!(g.ecs.meter.time, 0);
    for _ in 0..50 {
        let cmds = g.frame(16, 1000);
        assert_eq!(g.ecs.meter.power_level, last);
        let pointer = cmds.iter().filter(|c| matches!(c, DrawCommand::DrawSpriteSheetCell(Sprite::Pointer, _, _, _))).count();
        assert_eq!(pointer, 1);
    }
}

#[test]
fn random_world_tick_enters_windup() {
    let mut ecs = ECS::new();
    let mut input = InputTracker::new();
    input.current_tick.input_state = InputState::Pressed;
    let data = input.update_current_tick_data(16);
    let changes = ecs.tick(&data, false);
    assert_eq!(ecs.flow.active, GamePhase::PlayerReady);
    assert_eq!(changes.pitcher, None);
    assert_eq!(changes.meter, None);
    let changes = ecs.tick(&data, false);
    assert_eq!(ecs.flow.active, GamePhase::Windup);
    assert!(3000 <= ecs.pitcher.action_ttl && ecs.pitcher.action_ttl < 5500);
    assert_eq!(changes.pitcher, Some(Clip::new(ClipName::Winding, PlayMode::Loop)));
    assert_eq!(changes.meter, Some(Clip::new(ClipName::Bar, PlayMode::Loop)));
}

#[test]
fn one_phase_change_per_tick() {
    let mut g = Game::new();
    g.input.key_down_event();
    let mut prev = g.ecs.flow.active;
    let next = |p: GamePhase| match p {
        GamePhase::WaitingForPlayer => GamePhase::PlayerReady,
        GamePhase::PlayerReady => GamePhase::Windup,
        GamePhase::Windup => GamePhase::Pitching,
        GamePhase::Pitching => GamePhase::BallInFlight,
        GamePhase::BallInFlight => GamePhase::WaitingForPlayer,
        other => other,
    };
    for i in 0..1500 {
        g.frame(16, (i % 2500) as u64);
        let now = g.ecs.flow.active;
        assert!(now == prev || now == next(prev), "{:?} -> {:?}", prev, now);
        prev = now;
    }
}
