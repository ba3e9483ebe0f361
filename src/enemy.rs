use vstd::prelude::*;

use rand::distributions::Uniform;
use rand::Rng;

use crate::constants::{ENEMY_COLLIDER_SIZE, ENEMY_VELOCITY_X, MAX_X, MIN_X, SPAWN_HEIGHT};
use crate::timer::SecondTimer;

verus! {

/// The visual variants of an obstacle. Only `FrijolAmarillo` is spawned.
#[derive(Clone, Copy, Debug, PartialEq, Eq, Structural)]
pub enum Enemy {
    FrijolRojo,
    FrijolAmarillo,
    Other,
}

/// A live obstacle. Positions and collider sizes are in micro-units, the
/// velocity in units per second.
#[derive(Clone, Copy, Debug, PartialEq, Eq, Structural)]
pub struct Obstacle {
    /// The entity that carries the obstacle.
    pub id: u64,
    pub kind: Enemy,
    pub x: i64,
    pub y: i64,
    pub z: i64,
    /// Constant horizontal velocity.
    pub velocity_x: i64,
    /// Radius and segment length of the capsule collider.
    pub collider_radius: i64,
    pub collider_length: i64,
    /// Whether the last rendered frame showed the obstacle in the camera's
    /// view; a new obstacle counts as unseen until the renderer says so.
    pub visible: bool,
}

/// The obstacle that a spawn of `kind` at `(x, y, 0)` creates.
pub open spec fn spawned(id: u64, kind: Enemy, x: i64, y: i64) -> Obstacle {
    Obstacle {
        id,
        kind,
        x,
        y,
        z: 0,
        velocity_x: ENEMY_VELOCITY_X,
        collider_radius: ENEMY_COLLIDER_SIZE,
        collider_length: ENEMY_COLLIDER_SIZE,
        visible: false,
    }
}

/// The obstacles that were seen in the last rendered frame, in order.
pub open spec fn visible_only(s: Seq<Obstacle>) -> Seq<Obstacle> {
    s.filter(|o: Obstacle| o.visible)
}

/// One more element of `s` run through a filter.
pub(crate) proof fn lemma_filter_prefix(s: Seq<Obstacle>, p: spec_fn(Obstacle) -> bool, i: int)
    requires
        0 <= i < s.len(),
    ensures
        s.subrange(0, i + 1).filter(p) == if p(s[i]) {
            s.subrange(0, i).filter(p).push(s[i])
        } else {
            s.subrange(0, i).filter(p)
        },
{
    reveal(Seq::filter);
    assert(s.subrange(0, i + 1).drop_last() =~= s.subrange(0, i));
}

/// Relies on rand's `Uniform::new` with `Rng::sample` on the thread-local
/// generator: a value in the half-open range `[low, high)`; `new` panics
/// unless `low < high`.
#[verifier::external_body]
fn sample_uniform(low: i64, high: i64) -> (r: i64)
    requires
        low < high,
    ensures
        low <= r < high,
{
    rand::thread_rng().sample(Uniform::new(low, high))
}

/// Adds an obstacle of variant `enemy` at `(x, y, 0)` moving left, on
/// entity `id`. Only the yellow variant can be spawned.
pub fn spawn_enemy(enemies: &mut Vec<Obstacle>, enemy: Enemy, id: u64, x: i64, y: i64)
    requires
        enemy == Enemy::FrijolAmarillo,
    ensures
        final(enemies)@ == old(enemies)@.push(spawned(id, enemy, x, y)),
{
    match enemy {
        Enemy::FrijolAmarillo => {
            enemies.push(
                Obstacle {
                    id,
                    kind: enemy,
                    x,
                    y,
                    z: 0,
                    velocity_x: ENEMY_VELOCITY_X,
                    collider_radius: ENEMY_COLLIDER_SIZE,
                    collider_length: ENEMY_COLLIDER_SIZE,
                    visible: false,
                },
            );
        },
        Enemy::FrijolRojo => {},
        Enemy::Other => {},
    }
}

/// On a clock pulse, spawns one yellow obstacle on entity `id` at spawn
/// height and at an x drawn uniformly from the viewport's extent; does
/// nothing otherwise. Returns whether it spawned.
pub fn spawn_random_enemy(enemies: &mut Vec<Obstacle>, timer: &SecondTimer, id: u64) -> (r: bool)
    ensures
        r == timer.finished,
        r ==> ({
            let last = final(enemies)@.last();
            &&& final(enemies)@ == old(enemies)@.push(last)
            &&& last == spawned(id, Enemy::FrijolAmarillo, last.x, SPAWN_HEIGHT)
            &&& MIN_X <= last.x < MAX_X
        }),
        !r ==> final(enemies)@ == old(enemies)@,
{
    if timer.just_finished() {
        let x = sample_uniform(MIN_X, MAX_X);
        spawn_enemy(enemies, Enemy::FrijolAmarillo, id, x, SPAWN_HEIGHT);
        true
    } else {
        false
    }
}

/// Removes every obstacle that the last rendered frame did not show.
pub fn despawn_nonvisible_enemies(enemies: &mut Vec<Obstacle>)
    ensures
        final(enemies)@ == visible_only(old(enemies)@),
{
    let ghost start = enemies@;
    let mut kept: Vec<Obstacle> = Vec::new();
    let mut i: usize = 0;
    while i < enemies.len()
        invariant
            enemies@ == start,
            0 <= i <= start.len(),
            kept@ == start.subrange(0, i as int).filter(|o: Obstacle| o.visible),
        decreases start.len() - i,
    {
        let o = enemies[i];
        proof {
            lemma_filter_prefix(start, |o: Obstacle| o.visible, i as int);
        }
        if o.visible {
            kept.push(o);
        }
        i = i + 1;
    }
    assert(start.subrange(0, start.len() as int) =~= start);
    *enemies = kept;
}

/// After the reaper no unseen obstacle is left, every seen one stays, and
/// the count does not grow.
pub proof fn lemma_reaped_set_is_seen(s: Seq<Obstacle>)
    ensures
        forall|i: int| 0 <= i < visible_only(s).len() ==> (#[trigger] visible_only(s)[i]).visible,
        forall|o: Obstacle| s.contains(o) && o.visible <==> visible_only(s).contains(o),
        visible_only(s).len() <= s.len(),
{
    let p = |o: Obstacle| o.visible;
    s.lemma_filter_len(p);
    assert forall|i: int| 0 <= i < visible_only(s).len() implies (#[trigger] visible_only(
        s,
    )[i]).visible by {
        s.lemma_filter_pred(p, i);
    }
    assert forall|o: Obstacle| s.contains(o) && o.visible implies visible_only(s).contains(o) by {
        let i = choose|i: int| 0 <= i < s.len() && s[i] == o;
        s.lemma_filter_contains(p, i);
    }
    assert forall|o: Obstacle| visible_only(s).contains(o) implies s.contains(o) && o.visible by {
        s.lemma_filter_contains_rev(p, o);
    }
}

} // verus!
