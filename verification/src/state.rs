use vstd::prelude::*;

use crate::ball::{wall_response, WallContact};

verus! {

/// The phases of a round of breakout.
#[derive(Clone, Copy, Debug, PartialEq, Eq, Hash, Structural)]
pub enum GameState {
    /// The title screen, shown once when the program starts.
    PreGame,
    /// A round is under way: the paddle, the ball and the blocks are live.
    Playing,
    /// The ball fell past the paddle.
    GameOver,
    /// Every block was destroyed.
    GameClear,
}

impl Default for GameState {
    /// The program starts on the title screen.
    fn default() -> (s: Self)
        ensures
            s == GameState::PreGame,
    {
        GameState::PreGame
    }
}

impl GameState {
    /// The game systems (ball, paddle, collisions) run only in this state.
    pub open spec fn plays(self) -> bool {
        self is Playing
    }

    /// The start key is listened for in every state but `Playing`.
    pub open spec fn waits_for_start(self) -> bool {
        !self.plays()
    }

    /// Whether the round is under way.
    pub fn is_playing(&self) -> (b: bool)
        ensures
            b == self.plays(),
            b == (*self == GameState::Playing),
    {
        match self {
            GameState::Playing => true,
            _ => false,
        }
    }

    /// Whether the start key is listened for.
    pub fn is_waiting_for_start(&self) -> (b: bool)
        ensures
            b == self.waits_for_start(),
            b == (*self != GameState::Playing),
    {
        !self.is_playing()
    }
}

/// The transitions of the game: any waiting state goes to `Playing`,
/// and `Playing` goes to `GameOver` or `GameClear`.
pub open spec fn allowed_transition(from: GameState, to: GameState) -> bool {
    ||| from.waits_for_start() && to == GameState::Playing
    ||| from.plays() && to == GameState::GameOver
    ||| from.plays() && to == GameState::GameClear
}

/// The start key's request: `Some(Playing)` when the game waits for the
/// start and space is held, nothing otherwise.
pub open spec fn start_request(state: GameState, space_pressed: bool) -> Option<GameState> {
    if state.waits_for_start() && space_pressed {
        Some(GameState::Playing)
    } else {
        None
    }
}

/// The clear check's request: `Some(GameClear)` exactly when a round is
/// under way and no block is left.
pub open spec fn clear_request(state: GameState, blocks_left: nat) -> Option<GameState> {
    if state.plays() && blocks_left == 0 {
        Some(GameState::GameClear)
    } else {
        None
    }
}

/// What the start-key system requests in the frame.
pub fn wait_for_start(state: GameState, space_pressed: bool) -> (next: Option<GameState>)
    ensures
        next == start_request(state, space_pressed),
        state != GameState::Playing && space_pressed ==> next == Some(GameState::Playing),
        state == GameState::Playing || !space_pressed ==> next is None,
{
    if state.is_waiting_for_start() && space_pressed {
        Some(GameState::Playing)
    } else {
        None
    }
}

/// What the clear check requests, given how many blocks are left once the
/// frame's block collision is resolved.
pub fn check_clear(state: GameState, blocks_left: usize) -> (next: Option<GameState>)
    ensures
        next == clear_request(state, blocks_left as nat),
        blocks_left > 0 ==> next is None,
        state != GameState::Playing ==> next is None,
        state == GameState::Playing && blocks_left == 0 ==> next == Some(GameState::GameClear),
{
    if state.is_playing() && blocks_left == 0 {
        Some(GameState::GameClear)
    } else {
        None
    }
}

/// Every state change that a frame's systems request follows the game's
/// cycle: a waiting state goes to `Playing` and nowhere else, `Playing` goes
/// to `GameOver` or `GameClear`; in particular a round is never ended before
/// it started and never started while it is under way.
pub proof fn lemma_requests_follow_cycle(
    state: GameState,
    space_pressed: bool,
    contact: WallContact,
    blocks_left: nat,
)
    ensures
        start_request(state, space_pressed) matches Some(next) ==> allowed_transition(state, next),
        wall_response(state, contact) matches Some(r)
            ==> (r.next_state matches Some(next) ==> allowed_transition(state, next)),
        clear_request(state, blocks_left) matches Some(next) ==> allowed_transition(state, next),
{
}

/// The clear check ends a round exactly when no block is left: while any
/// block remains it requests nothing, outside a round it requests nothing,
/// and in a round with the field empty it requests `GameClear`.
pub proof fn lemma_clear_only_when_empty(state: GameState, blocks_left: nat)
    ensures
        blocks_left > 0 ==> clear_request(state, blocks_left) is None,
        state != GameState::Playing ==> clear_request(state, blocks_left) is None,
        state == GameState::Playing && blocks_left == 0 ==> clear_request(state, blocks_left)
            == Some(GameState::GameClear),
        clear_request(state, blocks_left) matches Some(next) ==> next == GameState::GameClear,
{
}

/// From every state that waits for the start, space starts a round; while a
/// round is under way space changes nothing.
pub proof fn lemma_space_restarts(state: GameState)
    ensures
        state != GameState::Playing ==> start_request(state, true) == Some(GameState::Playing),
        state == GameState::Playing ==> start_request(state, true) is None,
        start_request(state, false) is None,
{
}

} // verus!
