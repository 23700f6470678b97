//! The typed script that a markup tree is compiled into.

pub mod breakpoint;
pub mod document;
pub mod message;
pub mod message_text;
pub mod prompt;
pub mod set;
