//! Decision logic of an in-process AssaultCube helper: target selection for the
//! aim assistant, ESP classification of players and entities, the OpenGL state
//! that drawing sets up and tears down, symbol lookup in the game's ELF image and
//! the address arithmetic of the SDL swap-window hook.
//!
//! Everything that touches game memory, raw function pointers or floating point
//! lives outside this crate; it hands plain values in and performs the actions
//! that come back.

mod err;
pub mod agent_utils;
pub mod aimbot_utils;
pub mod elf;
pub mod esp;
pub mod gl_state;
pub mod hooks;
pub mod laws;
pub mod selection;

pub use err::Error;
