//! A tile-grid push puzzle with an in-place level editor: the grid, its geometry, the
//! rules of play, the editor's modes, the level sequencer and the widget runtime's
//! decisions, each with its contract.
pub mod editor;
pub mod game;
pub mod input;
pub mod level;
pub mod ui;
pub mod vecmath;
