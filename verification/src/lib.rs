//! Decision engine of an interactive scaffolding assistant for Flutter
//! projects.
//!
//! The crate decides; it performs no input or output. A caller collects the
//! answers, runs the processes and creates the directories that the engine
//! asks for, and reports back what happened.

pub mod architecture;
pub mod editor;
pub mod fault;
pub mod message;
pub mod process;
pub mod request;
pub mod scaffold;
pub mod selection;
pub mod template;
pub mod text;
