use vstd::prelude::*;

use crate::assets::{check_if_loaded, gate_step, is_ready, AssetKind, AssetStatus};
use crate::background::{initialize_background, move_background, scroll_tile, Background, Velocity};
use crate::collision::{handle_collisions, player_hit, survivors, unstruck, Collision};
use crate::constants::{BACKGROUND_SPEED, HALF_WIDTH, MAX_X, MIN_X, SCORE_STEP, SPAWN_HEIGHT};
use crate::enemy::{
    despawn_nonvisible_enemies, spawn_random_enemy, spawned, visible_only, Enemy, Obstacle,
};
use crate::score::{score_step, update_score, Score};
use crate::state::GameState;
use crate::timer::{pulse_count, run_timer, tick_spec, SecondTimer};

verus! {

/// The whole state of a session, owned in one place: each subsystem gets
/// the part it writes for the length of its step.
pub struct Game {
    pub state: GameState,
    pub assets: AssetStatus,
    pub timer: SecondTimer,
    pub score: Score,
    pub background: Background,
    /// The player's entity.
    pub player: u64,
    pub enemies: Vec<Obstacle>,
    /// The entity the next obstacle gets.
    pub next_id: u64,
}

/// Every obstacle's entity was handed out after the player's.
pub open spec fn ids_after(enemies: Seq<Obstacle>, player: u64) -> bool {
    forall|i: int| 0 <= i < enemies.len() ==> (#[trigger] enemies[i]).id > player
}

/// The obstacles left by one in-game frame before anything is spawned:
/// those not hit by the player and seen in the last rendered frame.
pub open spec fn frame_survivors(enemies: Seq<Obstacle>, events: Seq<Collision>, player: u64) -> Seq<
    Obstacle,
> {
    visible_only(survivors(enemies, events, player))
}

proof fn lemma_filter_subset(s: Seq<Obstacle>, p: spec_fn(Obstacle) -> bool, player: u64)
    requires
        ids_after(s, player),
    ensures
        ids_after(s.filter(p), player),
        s.filter(p).len() <= s.len(),
{
    s.lemma_filter_len(p);
    assert forall|i: int| 0 <= i < s.filter(p).len() implies (#[trigger] s.filter(p)[i]).id
        > player by {
        s.lemma_filter_contains_rev(p, s.filter(p)[i]);
    }
}

/// An in-game frame of `delta` microseconds keeps every number in range:
/// the tiles are apart and stay above `i64::MIN`, the score can take one
/// more step and an entity is left for one more obstacle.
pub open spec fn frame_fits(g: Game, delta: nat) -> bool {
    let tiles = g.background.tiles@;
    let d = delta * g.background.velocity.0;
    &&& tiles[0] != tiles[1]
    &&& tiles[0] - d > i64::MIN
    &&& tiles[1] - d > i64::MIN
    &&& g.score.0 + SCORE_STEP <= u32::MAX
    &&& g.next_id < u64::MAX
}

/// A frame outside play: only the loading gate may change the phase.
pub open spec fn idle_frame(g: Game, h: Game) -> bool {
    &&& h.state == gate_step(g.assets, g.state)
    &&& h.timer == g.timer
    &&& h.score == g.score
    &&& h.background.tiles@ == g.background.tiles@
    &&& h.enemies@ == g.enemies@
    &&& h.next_id == g.next_id
}

/// The obstacles after an in-game frame that spawned `pulse` obstacles.
pub open spec fn frame_obstacles(g: Game, h: Game, events: Seq<Collision>, pulse: bool) -> bool {
    let kept = frame_survivors(g.enemies@, events, g.player);
    let last = h.enemies@.last();
    &&& pulse ==> {
        &&& h.enemies@ == kept.push(last)
        &&& last == spawned(g.next_id, Enemy::FrijolAmarillo, last.x, SPAWN_HEIGHT)
        &&& MIN_X <= last.x < MAX_X
        &&& h.next_id == g.next_id + 1
    }
    &&& !pulse ==> {
        &&& h.enemies@ == kept
        &&& h.next_id == g.next_id
    }
    &&& h.enemies@.len() <= g.enemies@.len() + if pulse {
        1int
    } else {
        0int
    }
}

/// The session `h` after an in-game frame of `delta` microseconds from `g`
/// with the collision events `events`.
pub open spec fn game_frame(g: Game, h: Game, delta: nat, events: Seq<Collision>) -> bool {
    let tiles = g.background.tiles@;
    let d = delta * g.background.velocity.0;
    let pulse = h.timer.finished;
    &&& h.timer == tick_spec(g.timer, delta)
    &&& h.score == score_step(g.score, pulse)
    &&& h.state == if player_hit(g.enemies@, events, g.player) {
        GameState::Menu
    } else {
        GameState::InGame
    }
    &&& frame_obstacles(g, h, events, pulse)
    &&& h.background.tiles@[0] == scroll_tile(tiles[0] as int, tiles[1] as int, d)
    &&& h.background.tiles@[1] == scroll_tile(tiles[1] as int, tiles[0] as int, d)
}

/// Each state of `gs` follows the one before it by an in-game frame of
/// the matching duration of `ds` and events of `evs`.
pub open spec fn in_game_run(gs: Seq<Game>, ds: Seq<nat>, evs: Seq<Seq<Collision>>) -> bool {
    &&& gs.len() == ds.len() + 1
    &&& evs.len() == ds.len()
    &&& forall|k: int| 0 <= k < ds.len() ==> #[trigger] game_frame(gs[k], gs[k + 1], ds[k], evs[k])
}

/// Over any run of in-game frames the clock runs as its ticks say, the
/// score grows by exactly `SCORE_STEP` per clock pulse, and the number of
/// live obstacles grows by at most one per pulse: with a bounded session,
/// the obstacles stay bounded.
pub proof fn lemma_session_accounting(gs: Seq<Game>, ds: Seq<nat>, evs: Seq<Seq<Collision>>)
    requires
        in_game_run(gs, ds, evs),
        gs[0].score.0 + SCORE_STEP * pulse_count(gs[0].timer, ds) <= u32::MAX,
    ensures
        gs.last().timer == run_timer(gs[0].timer, ds),
        gs.last().score.0 == gs[0].score.0 + SCORE_STEP * pulse_count(gs[0].timer, ds),
        gs.last().enemies@.len() <= gs[0].enemies@.len() + pulse_count(gs[0].timer, ds),
    decreases ds.len(),
{
    if ds.len() > 0 {
        let n = ds.len() as int;
        let gs0 = gs.drop_last();
        let ds0 = ds.drop_last();
        let evs0 = evs.drop_last();
        assert forall|k: int| 0 <= k < ds0.len() implies #[trigger] game_frame(
            gs0[k],
            gs0[k + 1],
            ds0[k],
            evs0[k],
        ) by {
            assert(game_frame(gs[k], gs[k + 1], ds[k], evs[k]));
        }
        lemma_session_accounting(gs0, ds0, evs0);
        assert(game_frame(gs[n - 1], gs[n], ds[n - 1], evs[n - 1]));
        assert(gs0.last() == gs[n - 1]);
        assert(ds.last() == ds[n - 1]);
    }
}

impl Game {
    pub open spec fn wf(&self) -> bool {
        &&& self.timer.wf()
        &&& self.background.tiles@.len() == 2
        &&& self.player < self.next_id
        &&& ids_after(self.enemies@, self.player)
    }

    /// A session waiting for its assets, with the background in its
    /// starting place, no obstacle and a zero score.
    pub fn new() -> (r: Self)
        ensures
            r.wf(),
            r.state == GameState::AssetLoading,
            forall|k: AssetKind| !is_ready(r.assets, k),
            r.timer.elapsed_us == 0,
            !r.timer.finished,
            r.score.0 == 0,
            r.background.tiles@ == seq![0i64, (MAX_X + HALF_WIDTH) as i64],
            r.background.velocity.0 == BACKGROUND_SPEED,
            r.enemies@.len() == 0,
            r.player == 0,
            r.next_id == 1,
    {
        Game {
            state: GameState::initial(),
            assets: AssetStatus::pending(),
            timer: SecondTimer::new(),
            score: Score::new(),
            background: initialize_background(Velocity(BACKGROUND_SPEED)),
            player: 0,
            enemies: Vec::new(),
            next_id: 1,
        }
    }

    /// Runs one frame of `delta_us` microseconds. While assets load, only
    /// the loading gate runs. In game, the clock ticks; collisions in
    /// `events` are handled, unseen obstacles reaped, and on a clock pulse
    /// one obstacle is spawned and the score raised; the background
    /// scrolls. In `Menu` nothing changes.
    pub fn frame(&mut self, delta_us: u64, events: &Vec<Collision>)
        requires
            old(self).wf(),
            old(self).state == GameState::InGame ==> frame_fits(*old(self), delta_us as nat),
        ensures
            final(self).wf(),
            final(self).player == old(self).player,
            final(self).assets == old(self).assets,
            final(self).background.velocity == old(self).background.velocity,
            old(self).state != GameState::InGame ==> idle_frame(*old(self), *final(self)),
            old(self).state == GameState::InGame ==> game_frame(
                *old(self),
                *final(self),
                delta_us as nat,
                events@,
            ),
    {
        match self.state {
            GameState::AssetLoading => {
                check_if_loaded(&self.assets, &mut self.state);
            },
            GameState::InGame => {
                let ghost start = self.enemies@;
                self.timer.tick(delta_us);
                proof {
                    assert forall|i: int| 0 <= i < start.len() implies (#[trigger] start[i]).id
                        != self.player by {
                        assert(start[i].id > self.player);
                    }
                }
                handle_collisions(events, self.player, &mut self.enemies, &mut self.state);
                proof {
                    lemma_filter_subset(start, unstruck(events@, self.player), self.player);
                }
                let ghost hit = self.enemies@;
                despawn_nonvisible_enemies(&mut self.enemies);
                proof {
                    lemma_filter_subset(hit, |o: Obstacle| o.visible, self.player);
                }
                if spawn_random_enemy(&mut self.enemies, &self.timer, self.next_id) {
                    proof {
                        let s = self.enemies@;
                        assert forall|i: int| 0 <= i < s.len() implies (#[trigger] s[i]).id
                            > self.player by {
                            if i < s.len() - 1 {
                                assert(s[i] == visible_only(hit)[i]);
                            }
                        }
                    }
                    self.next_id = self.next_id + 1;
                }
                update_score(&mut self.score, &self.timer);
                move_background(&mut self.background, delta_us);
            },
            GameState::Menu => {},
        }
    }
}

} // verus!
