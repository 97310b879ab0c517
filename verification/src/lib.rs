//! The simulation core of a small top-down collecting game.
//!
//! A player walks over a plane under keyboard control and picks up items by
//! coming close to them. Each pickup scores a point, puts a fresh item at a
//! random place and asks for a sound to be played. The crate holds the state
//! of such a game and the rules that advance it; windowing, drawing, sound and
//! input polling belong to whatever engine drives it.
//!
//! All quantities are integers. The crate fixes no unit: a caller picks a
//! resolution for positions and one for time such that a speed times a time
//! span is a distance (positions in millionths of a world unit and time in
//! microseconds go together with speeds in world units per second).

pub mod vector;
pub mod movement;
pub mod pickup;
pub mod score;
mod random;
pub mod game;
