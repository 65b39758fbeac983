//! The compiler's finished intermediate representation of a function, held
//! as plain values: what the transcoder reads of it, and nothing else.
//!
//! Every identifier is the `u32` behind the compiler's index type. A sum
//! type whose compiler counterpart has shapes that the schema does not cover
//! has one variant `Other` that stands for all of them.
pub mod index;
pub mod mir;
pub mod span;
pub mod ty;
pub mod valid;
