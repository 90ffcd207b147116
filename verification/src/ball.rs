use vstd::prelude::*;

use crate::state::GameState;

verus! {

/// The field's bounds that the ball reaches once it moves by this frame's
/// velocity: the top wall, either side wall, or the bottom edge.
#[derive(Clone, Copy, Debug, PartialEq, Eq, Structural)]
pub struct WallContact {
    pub top: bool,
    pub side: bool,
    pub bottom: bool,
}

/// What the ball system does in a frame: which velocity components it
/// reverses before moving the ball, and which state it requests.
#[derive(Clone, Copy, Debug, PartialEq, Eq, Structural)]
pub struct BallResponse {
    pub flip_x: bool,
    pub flip_y: bool,
    pub next_state: Option<GameState>,
}

/// The ball's response to the walls. Outside a round the ball system does not
/// run (`None`). In a round the top wall reverses the vertical velocity, a
/// side wall the horizontal one, and reaching the bottom ends the round.
pub open spec fn wall_response(state: GameState, contact: WallContact) -> Option<BallResponse> {
    if state.plays() {
        Some(
            BallResponse {
                flip_x: contact.side,
                flip_y: contact.top,
                next_state: if contact.bottom {
                    Some(GameState::GameOver)
                } else {
                    None
                },
            },
        )
    } else {
        None
    }
}

/// The ball system's decisions for the frame.
pub fn update_ball(state: GameState, contact: WallContact) -> (r: Option<BallResponse>)
    ensures
        r == wall_response(state, contact),
        state != GameState::Playing ==> r is None,
        state == GameState::Playing ==> (r matches Some(resp) && resp.flip_x == contact.side
            && resp.flip_y == contact.top && resp.next_state == (if contact.bottom {
            Some(GameState::GameOver)
        } else {
            None
        })),
{
    if !state.is_playing() {
        return None;
    }
    let next_state = if contact.bottom {
        Some(GameState::GameOver)
    } else {
        None
    };
    Some(BallResponse { flip_x: contact.side, flip_y: contact.top, next_state })
}

/// Outside a round the ball never moves or bounces, whatever it touches; in a
/// round each contact flips exactly its own component and only the bottom
/// edge ends the round.
pub proof fn lemma_ball_only_moves_in_a_round(state: GameState, contact: WallContact)
    ensures
        state != GameState::Playing ==> wall_response(state, contact) is None,
        state == GameState::Playing ==> (wall_response(state, contact) matches Some(r) && r.flip_x
            == contact.side && r.flip_y == contact.top && (r.next_state is Some <==> contact.bottom)
            && (r.next_state matches Some(s) ==> s == GameState::GameOver)),
{
}

} // verus!
