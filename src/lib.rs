//! A CHIP-8 virtual machine whose instruction semantics are stated as
//! specifications and proved against the executable interpreter.
pub mod display;
pub mod error;
pub mod font;
pub mod instruction;
pub mod laws;
pub mod machine;
