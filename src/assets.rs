use vstd::prelude::*;

use crate::state::GameState;

verus! {

/// The assets a session needs before play can start.
#[derive(Clone, Copy, Debug, PartialEq, Eq, Structural)]
pub enum AssetKind {
    PlayerRun,
    EnemyRed,
    EnemyYellow,
    Background,
    Soundtrack,
}

/// Whether each requested asset has finished loading.
#[derive(Clone, Copy, Debug, PartialEq, Eq, Structural)]
pub struct AssetStatus {
    pub player_run: bool,
    pub enemy_red: bool,
    pub enemy_yellow: bool,
    pub background: bool,
    pub soundtrack: bool,
}

/// Whether the asset of kind `k` is ready.
pub open spec fn is_ready(a: AssetStatus, k: AssetKind) -> bool {
    match k {
        AssetKind::PlayerRun => a.player_run,
        AssetKind::EnemyRed => a.enemy_red,
        AssetKind::EnemyYellow => a.enemy_yellow,
        AssetKind::Background => a.background,
        AssetKind::Soundtrack => a.soundtrack,
    }
}

/// Every requested asset is ready.
pub open spec fn all_ready(a: AssetStatus) -> bool {
    forall|k: AssetKind| is_ready(a, k)
}

/// `a` with the asset of kind `k` set to `ready`.
pub open spec fn with_status(a: AssetStatus, k: AssetKind, ready: bool) -> AssetStatus {
    match k {
        AssetKind::PlayerRun => AssetStatus { player_run: ready, ..a },
        AssetKind::EnemyRed => AssetStatus { enemy_red: ready, ..a },
        AssetKind::EnemyYellow => AssetStatus { enemy_yellow: ready, ..a },
        AssetKind::Background => AssetStatus { background: ready, ..a },
        AssetKind::Soundtrack => AssetStatus { soundtrack: ready, ..a },
    }
}

/// The phase after one check of the loading gate.
pub open spec fn gate_step(a: AssetStatus, s: GameState) -> GameState {
    if s == GameState::AssetLoading && all_ready(a) {
        GameState::InGame
    } else {
        s
    }
}

impl AssetStatus {
    /// No asset ready yet.
    pub fn pending() -> (r: Self)
        ensures
            forall|k: AssetKind| !is_ready(r, k),
    {
        AssetStatus {
            player_run: false,
            enemy_red: false,
            enemy_yellow: false,
            background: false,
            soundtrack: false,
        }
    }

    /// Records whether the asset of kind `kind` is ready.
    pub fn set(&mut self, kind: AssetKind, ready: bool)
        ensures
            *final(self) == with_status(*old(self), kind, ready),
    {
        match kind {
            AssetKind::PlayerRun => self.player_run = ready,
            AssetKind::EnemyRed => self.enemy_red = ready,
            AssetKind::EnemyYellow => self.enemy_yellow = ready,
            AssetKind::Background => self.background = ready,
            AssetKind::Soundtrack => self.soundtrack = ready,
        }
    }

    /// Whether every requested asset is ready.
    pub fn all_loaded(&self) -> (r: bool)
        ensures
            r == all_ready(*self),
    {
        let r = self.player_run && self.enemy_red && self.enemy_yellow && self.background
            && self.soundtrack;
        proof {
            if !r {
                if !self.player_run {
                    assert(!is_ready(*self, AssetKind::PlayerRun));
                } else if !self.enemy_red {
                    assert(!is_ready(*self, AssetKind::EnemyRed));
                } else if !self.enemy_yellow {
                    assert(!is_ready(*self, AssetKind::EnemyYellow));
                } else if !self.background {
                    assert(!is_ready(*self, AssetKind::Background));
                } else {
                    assert(!is_ready(*self, AssetKind::Soundtrack));
                }
            }
        }
        r
    }
}

/// The loading gate: while assets load, moves the session to `InGame` as
/// soon as every asset is ready, and leaves the phase as it is otherwise.
pub fn check_if_loaded(status: &AssetStatus, state: &mut GameState)
    ensures
        *final(state) == gate_step(*status, *old(state)),
{
    if *state == GameState::AssetLoading && status.all_loaded() {
        *state = GameState::InGame;
    }
}

/// Play starts from loading if and only if all five assets are ready, so
/// one pending asset is enough to hold it back.
pub proof fn lemma_loading_needs_every_asset(a: AssetStatus, k: AssetKind)
    ensures
        gate_step(a, GameState::AssetLoading) == GameState::InGame <==> (a.player_run
            && a.enemy_red && a.enemy_yellow && a.background && a.soundtrack),
        gate_step(with_status(a, k, false), GameState::AssetLoading)
            == GameState::AssetLoading,
{
    if !all_ready(a) {
        let j = choose|j: AssetKind| !is_ready(a, j);
        match j {
            AssetKind::PlayerRun => {},
            AssetKind::EnemyRed => {},
            AssetKind::EnemyYellow => {},
            AssetKind::Background => {},
            AssetKind::Soundtrack => {},
        }
    } else {
        assert(is_ready(a, AssetKind::PlayerRun));
        assert(is_ready(a, AssetKind::EnemyRed));
        assert(is_ready(a, AssetKind::EnemyYellow));
        assert(is_ready(a, AssetKind::Background));
        assert(is_ready(a, AssetKind::Soundtrack));
    }
    assert(!is_ready(with_status(a, k, false), k));
}

} // verus!
