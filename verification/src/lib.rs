//! A turn-based command interpreter for a fixed-scene text adventure.
//!
//! One line of player text per turn is parsed into a typed [`Instruction`],
//! which is then executed against the mutable [`Scene`] to produce a single
//! narrative response string.  Reading input and printing output are the
//! caller's concern; this crate only parses, resolves and responds.

pub mod game;
pub mod parser;
pub mod scene;
pub mod text;

pub use parser::{parse_instruction, EntityIdent, Instruction};
pub use scene::{Apple, Book, Entity, Scene, Wrench};
