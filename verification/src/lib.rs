pub mod ball;
pub mod block;
pub mod collision;
pub mod paddle;
pub mod state;
pub mod ui;
