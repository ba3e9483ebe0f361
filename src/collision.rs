use vstd::prelude::*;

use crate::enemy::{lemma_filter_prefix, Obstacle};
use crate::state::GameState;

verus! {

/// A contact reported by the physics engine between two entities, in no
/// particular order.
#[derive(Clone, Copy, Debug, PartialEq, Eq, Structural)]
pub struct Collision {
    pub entity1: u64,
    pub entity2: u64,
}

/// `ev` names the player and the obstacle `o`, in either order.
pub open spec fn strikes(ev: Collision, player: u64, o: Obstacle) -> bool {
    (ev.entity1 == o.id && ev.entity2 == player) || (ev.entity1 == player && ev.entity2 == o.id)
}

/// Some event of `events` names the player and `o`.
pub open spec fn struck(events: Seq<Collision>, player: u64, o: Obstacle) -> bool {
    exists|j: int| 0 <= j < events.len() && strikes(#[trigger] events[j], player, o)
}

/// Whether no event of `events` pairs the player with an obstacle.
pub open spec fn unstruck(events: Seq<Collision>, player: u64) -> spec_fn(Obstacle) -> bool {
    |o: Obstacle| !struck(events, player, o)
}

/// The obstacles that no event pairs with the player, in order.
pub open spec fn survivors(enemies: Seq<Obstacle>, events: Seq<Collision>, player: u64) -> Seq<
    Obstacle,
> {
    enemies.filter(unstruck(events, player))
}

/// Some event pairs the player with one of `enemies`.
pub open spec fn player_hit(enemies: Seq<Obstacle>, events: Seq<Collision>, player: u64) -> bool {
    exists|i: int| 0 <= i < enemies.len() && struck(events, player, #[trigger] enemies[i])
}

/// No obstacle is carried by the player's entity.
pub open spec fn player_apart(enemies: Seq<Obstacle>, player: u64) -> bool {
    forall|i: int| 0 <= i < enemies.len() ==> (#[trigger] enemies[i]).id != player
}

fn is_struck(events: &Vec<Collision>, player: u64, o: &Obstacle) -> (r: bool)
    ensures
        r == struck(events@, player, *o),
{
    let mut j: usize = 0;
    while j < events.len()
        invariant
            0 <= j <= events@.len(),
            forall|k: int| 0 <= k < j ==> !strikes(#[trigger] events@[k], player, *o),
        decreases events@.len() - j,
    {
        let ev = events[j];
        if (ev.entity1 == o.id && ev.entity2 == player) || (ev.entity1 == player && ev.entity2
            == o.id) {
            assert(strikes(events@[j as int], player, *o));
            return true;
        }
        j = j + 1;
    }
    false
}

/// Handles one frame's collision events: each obstacle that an event pairs
/// with the player is removed, and if there is any such obstacle the
/// session ends in `Menu`. Other events change nothing.
pub fn handle_collisions(
    events: &Vec<Collision>,
    player: u64,
    enemies: &mut Vec<Obstacle>,
    state: &mut GameState,
)
    requires
        player_apart(old(enemies)@, player),
    ensures
        final(enemies)@ == survivors(old(enemies)@, events@, player),
        *final(state) == if player_hit(old(enemies)@, events@, player) {
            GameState::Menu
        } else {
            *old(state)
        },
{
    let ghost start = enemies@;
    let mut kept: Vec<Obstacle> = Vec::new();
    let mut hit = false;
    let mut i: usize = 0;
    while i < enemies.len()
        invariant
            enemies@ == start,
            0 <= i <= start.len(),
            kept@ == start.subrange(0, i as int).filter(unstruck(events@, player)),
            hit == exists|k: int| 0 <= k < i && struck(events@, player, #[trigger] start[k]),
        decreases start.len() - i,
    {
        let o = enemies[i];
        proof {
            lemma_filter_prefix(start, unstruck(events@, player), i as int);
        }
        if is_struck(events, player, &o) {
            hit = true;
        } else {
            kept.push(o);
        }
        i = i + 1;
    }
    assert(start.subrange(0, start.len() as int) =~= start);
    *enemies = kept;
    if hit {
        *state = GameState::Menu;
    }
}

/// An event naming the player and a live obstacle removes that obstacle and
/// ends the session; an event naming two entities of which neither is the
/// player removes nothing and leaves the phase alone.
pub proof fn lemma_player_contact_ends_session(enemies: Seq<Obstacle>, player: u64, i: int, other: u64)
    requires
        0 <= i < enemies.len(),
        player_apart(enemies, player),
        other != player,
    ensures
        ({
            let ev = seq![Collision { entity1: player, entity2: enemies[i].id }];
            &&& !survivors(enemies, ev, player).contains(enemies[i])
            &&& player_hit(enemies, ev, player)
        }),
        ({
            let ev = seq![Collision { entity1: enemies[i].id, entity2: other }];
            &&& survivors(enemies, ev, player) == enemies
            &&& !player_hit(enemies, ev, player)
        }),
{
    let ev1 = seq![Collision { entity1: player, entity2: enemies[i].id }];
    let p1 = unstruck(ev1, player);
    assert(strikes(ev1[0], player, enemies[i]));
    assert(struck(ev1, player, enemies[i]));
    if survivors(enemies, ev1, player).contains(enemies[i]) {
        enemies.lemma_filter_contains_rev(p1, enemies[i]);
    }
    let ev2 = seq![Collision { entity1: enemies[i].id, entity2: other }];
    let p2 = unstruck(ev2, player);
    assert forall|k: int| 0 <= k < enemies.len() implies !struck(ev2, player, #[trigger] enemies[k]) by {
        assert(enemies[k].id != player);
        assert(forall|j: int| 0 <= j < ev2.len() ==> #[trigger] ev2[j] == ev2[0]);
    }
    lemma_filter_keeps_all(enemies, p2);
}

proof fn lemma_filter_keeps_all(s: Seq<Obstacle>, p: spec_fn(Obstacle) -> bool)
    requires
        forall|k: int| 0 <= k < s.len() ==> p(#[trigger] s[k]),
    ensures
        s.filter(p) == s,
    decreases s.len(),
{
    reveal(Seq::filter);
    if s.len() > 0 {
        lemma_filter_keeps_all(s.drop_last(), p);
        assert(s.drop_last().push(s.last()) =~= s);
    }
}

} // verus!
