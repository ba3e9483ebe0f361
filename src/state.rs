use vstd::prelude::*;

verus! {

/// The phase of a session. It starts in `AssetLoading`, moves to `InGame`
/// once every asset is ready, and to `Menu` when the player is hit; `Menu`
/// is never left.
#[derive(Clone, Copy, Debug, PartialEq, Eq, Structural)]
pub enum GameState {
    AssetLoading,
    InGame,
    Menu,
}

impl GameState {
    /// The phase a session starts in.
    pub fn initial() -> (r: Self)
        ensures
            r == GameState::AssetLoading,
    {
        GameState::AssetLoading
    }
}

} // verus!
