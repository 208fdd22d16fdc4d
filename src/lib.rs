//! An idle business game: timed production cycles, levelled revenue, a
//! two-column grid with directional selection, and positioned terminal text.
pub mod account;
pub mod business;
pub mod game;
pub mod menu;
pub mod shapes;
pub mod terminal;
