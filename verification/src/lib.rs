//! In-process interception layer for a game executable.
//!
//! The crate models the decision logic of the layer: which detours are
//! installed and enabled, how a file-open request is normalized, looked up in
//! the replacement table and forwarded, how the game-load routine is located
//! by byte pattern and its data symbol resolved from RIP-relative machine
//! code, and in which order registered observers are invoked on each load.
//! The raw code patching and pointer reads live outside the library.

pub mod detour;
pub mod dispatch;
pub mod intercept;
pub mod path_norm;
pub mod scanner;
pub mod stage1;
pub mod table;
