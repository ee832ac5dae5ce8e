//! Hand-assembled register-machine programs ("directives") that compute
//! values a constraint system cannot express directly: the inverse of a
//! field element, and the integer quotient and remainder of two field
//! elements.
//!
//! - `opcodes`: the instructions the programs are written in;
//! - `semantics`: what a program computes, over the integers modulo a field
//!   modulus;
//! - `dataflow`: a static account of slots written before they are read;
//! - `directives`: the two programs and their builders;
//! - `correctness`: proofs that the programs compute what their directives
//!   promise and read no slot before writing it.

pub mod opcodes;
pub mod semantics;
pub mod dataflow;
pub mod directives;
pub mod correctness;
