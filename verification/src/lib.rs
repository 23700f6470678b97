//! A markup-based language for scripting multi-turn conversations with a
//! text-generation backend.
//!
//! A markup tree ([`markup`]) is compiled into a typed script ([`ast`],
//! [`parser`]), with every error of the document reported at once. A named
//! prompt of the script is then run turn by turn as a state machine
//! ([`runtime`]): it walks the script, keeps the log of messages and the
//! generation settings in effect ([`common`]), and stops wherever the backend
//! has to be asked for the next message ([`completion`]). The finished
//! conversation is exported as a plain value ([`snapshot`]).

pub mod ast;
pub mod common;
pub mod completion;
pub mod markup;
pub mod parser;
pub mod runtime;
pub mod snapshot;
pub mod text;
