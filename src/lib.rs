//! Facelet state of a 3x3x3 twisty puzzle: a store of 54 facelet colors,
//! the quarter-turn permutations of its six faces, and the placement of
//! every facelet in space.

pub mod error;
pub mod store;
pub mod layout;
pub mod turns;
pub mod laws;
pub mod geometry;

pub use error::CubeError;
pub use store::{face_index, Face, FaceletStore, BACK, DOWN, FACE_SIZE, FRONT, LEFT, NUM_FACELETS, RIGHT, UP};
pub use turns::{face_table, Cycle, TurnTable};
pub use geometry::{face_template, generate_offsets, pair_with_colors, sign_flip, swap_axes, Point};
