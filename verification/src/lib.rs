//! Grid traversal and collision-effect resolution for a tile-based arcade
//! game: a circular actor moves continuously across a fixed grid of typed
//! cells, each cell type acting on the actor's motion state or ending the
//! game with a terminal signal.

pub mod constants;

pub mod circle;

pub mod error_handling;

pub mod collision_handler;

pub mod game_status;

pub mod cell_feature;

pub mod mapper;

pub mod field;

pub mod laws;

