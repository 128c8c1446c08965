//! Client-side engine that keeps a local chess board in sync with a remote
//! game server: an optimistic board state machine, the decisions of the
//! background synchronisation worker, and the controller that joins them.

pub mod crate_private;
pub mod text;

pub mod coords;
pub mod chess_piece;
pub mod either;
pub mod server_interface;
pub mod board;
pub mod board_container;

pub mod do_on_interval;
pub mod memcache;
pub mod list_refresher;
pub mod game;
pub mod config;
