//! Core of a vector-graphics description language: authoring combinators
//! linearize a nested drawing description into a flat, scope-bracketed
//! instruction log, and a pluggable device compiles that log into a
//! serialized document.

pub mod animatable;
pub mod device;
pub mod dimension;
pub mod drawing;
pub mod errors;
pub mod generator;
pub mod instruction;
pub mod markup;
pub mod primitives;
pub mod text;

pub use animatable::Animatable;
pub use device::{Device, Program};
pub use drawing::{animated, apply, with, Appliable, Graphic, WithContent};
pub use errors::Error;
pub use generator::Generator;
pub use instruction::Instr;
