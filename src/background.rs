use vstd::prelude::*;

use itertools::Itertools;

use crate::constants::{HALF_WIDTH, MAX_X, MIN_X, WIDTH};

verus! {

/// Scroll speed shared by both background tiles, in units per second.
pub struct Velocity(pub u32);

/// The two background tiles, by the x position of their centres in
/// micro-units, and the velocity they share.
pub struct Background {
    pub tiles: Vec<i64>,
    pub velocity: Velocity,
}

/// Where a tile whose centre has moved to `x` is placed: a tile that has
/// fully left the viewport on the left is re-seated at `WIDTH` plus the
/// distance by which it passed the edge.
pub open spec fn reseat(x: int) -> int {
    if x + HALF_WIDTH <= MIN_X {
        WIDTH + (MIN_X - (x + HALF_WIDTH))
    } else {
        x
    }
}

/// The new position of a tile at `x`, beside the other tile at `other`,
/// after both move left by `d`: only the left one of the pair is re-seated.
pub open spec fn scroll_tile(x: int, other: int, d: int) -> int {
    if x < other {
        reseat(x - d)
    } else {
        x - d
    }
}

/// Relies on itertools' `Itertools::collect_tuple`: an iterator of exactly
/// two items gives them as a pair, any other gives `None`.
#[verifier::external_body]
fn two_of(xs: &Vec<i64>) -> (r: Option<(i64, i64)>)
    ensures
        xs@.len() == 2 ==> r == Some((xs@[0], xs@[1])),
        xs@.len() != 2 ==> r is None,
{
    xs.iter().copied().collect_tuple()
}

/// The tile pair at the start of a session: one tile filling the viewport,
/// the other just right of it.
pub fn initialize_background(velocity: Velocity) -> (r: Background)
    ensures
        r.tiles@ == seq![0i64, (MAX_X + HALF_WIDTH) as i64],
        r.velocity == velocity,
{
    Background { tiles: vec![0i64, MAX_X + HALF_WIDTH], velocity }
}

/// Moves both tiles left by `delta_us` microseconds at the shared velocity,
/// then re-seats the left tile if it has fully left the viewport.
pub fn move_background(background: &mut Background, delta_us: u64)
    requires
        old(background).tiles@.len() == 2,
        old(background).tiles@[0] != old(background).tiles@[1],
        old(background).tiles@[0] - delta_us * old(background).velocity.0 > i64::MIN,
        old(background).tiles@[1] - delta_us * old(background).velocity.0 > i64::MIN,
    ensures
        final(background).velocity == old(background).velocity,
        final(background).tiles@.len() == 2,
        final(background).tiles@[0] == scroll_tile(
            old(background).tiles@[0] as int,
            old(background).tiles@[1] as int,
            delta_us * old(background).velocity.0,
        ),
        final(background).tiles@[1] == scroll_tile(
            old(background).tiles@[1] as int,
            old(background).tiles@[0] as int,
            delta_us * old(background).velocity.0,
        ),
{
    let (first, second) = two_of(&background.tiles).unwrap();
    let left_first = first < second;
    let (left, right) = if left_first {
        (first, second)
    } else {
        (second, first)
    };
    let d: i128 = delta_us as i128 * background.velocity.0 as i128;
    let mut next_left: i128 = left as i128 - d;
    let next_right: i128 = right as i128 - d;
    if next_left + HALF_WIDTH as i128 <= MIN_X as i128 {
        let overshoot: i128 = MIN_X as i128 - (next_left + HALF_WIDTH as i128);
        next_left = WIDTH as i128 + overshoot;
    }
    let new_left = next_left as i64;
    let new_right = next_right as i64;
    background.tiles = if left_first {
        vec![new_left, new_right]
    } else {
        vec![new_right, new_left]
    };
}

/// The tile that leaves the viewport on the left is re-seated at `WIDTH`
/// plus exactly the overshoot `MIN_X - (x + HALF_WIDTH)` of its moved
/// position `x`, measured before it is re-seated.
pub proof fn lemma_reseat_keeps_overshoot(left: int, right: int, d: int)
    requires
        left < right,
        left - d + HALF_WIDTH <= MIN_X,
    ensures
        scroll_tile(left, right, d) == WIDTH + (MIN_X - (left - d + HALF_WIDTH)),
        scroll_tile(right, left, d) == right - d,
{
}

/// Two tiles side by side, one viewport width apart, stay side by side
/// after a step that either re-seats no tile or re-seats the left one with
/// no overshoot.
pub proof fn lemma_tiles_stay_adjacent(left: int, right: int, d: int)
    requires
        right - left == WIDTH,
        left - d + HALF_WIDTH >= MIN_X,
    ensures
        ({
            let l = scroll_tile(left, right, d);
            let r = scroll_tile(right, left, d);
            l - r == WIDTH || r - l == WIDTH
        }),
{
}

} // verus!
