use vstd::prelude::*;

use crate::constants::SCORE_STEP;
use crate::timer::{pulse_count, run_timer, SecondTimer};

verus! {

/// Points earned by surviving: `SCORE_STEP` for each second of play.
#[derive(Clone, Copy, Debug, PartialEq, Eq, Structural)]
pub struct Score(pub u32);

/// The score after a tick whose clock pulse is `pulse`.
pub open spec fn score_step(s: Score, pulse: bool) -> Score {
    if pulse {
        Score((s.0 + SCORE_STEP) as u32)
    } else {
        s
    }
}

/// The score after ticks of the durations `ds` on the timer `t`, each
/// tick followed by a score update.
pub open spec fn run_score(s: Score, t: SecondTimer, ds: Seq<nat>) -> Score
    decreases ds.len(),
{
    if ds.len() == 0 {
        s
    } else {
        score_step(run_score(s, t, ds.drop_last()), run_timer(t, ds).finished)
    }
}

/// Over any run of ticks the score grows by exactly `SCORE_STEP` per
/// clock pulse, and no tick lowers it.
pub proof fn lemma_score_by_pulses(s: Score, t: SecondTimer, ds: Seq<nat>)
    requires
        s.0 + SCORE_STEP * pulse_count(t, ds) <= u32::MAX,
    ensures
        run_score(s, t, ds).0 == s.0 + SCORE_STEP * pulse_count(t, ds),
        ds.len() > 0 ==> run_score(s, t, ds.drop_last()).0 <= run_score(s, t, ds).0,
    decreases ds.len(),
{
    if ds.len() > 0 {
        lemma_score_by_pulses(s, t, ds.drop_last());
    }
}

impl Score {
    /// The score at the start of a session.
    pub fn new() -> (r: Self)
        ensures
            r.0 == 0,
    {
        Score(0)
    }
}

/// Adds `SCORE_STEP` to the score when the clock has just ended a period.
pub fn update_score(score: &mut Score, timer: &SecondTimer)
    requires
        timer.finished ==> old(score).0 + SCORE_STEP <= u32::MAX,
    ensures
        *final(score) == score_step(*old(score), timer.finished),
        final(score).0 == old(score).0 + if timer.finished { SCORE_STEP as int } else { 0 },
{
    if timer.just_finished() {
        score.0 = score.0 + SCORE_STEP;
    }
}

} // verus!
