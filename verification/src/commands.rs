//! The operations offered to the user interface: the dictation pipeline,
//! the text injection sequence and the hotkey's decisions.

pub mod injector;
pub mod pipeline;
