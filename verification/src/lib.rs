//! The verified core of a Cairo back-end for the Piet 2D graphics
//! abstraction.
//!
//! Cairo is a stateful drawing engine; Piet hands over shapes, brushes and
//! images as values. This crate holds the decisions that turn the one into
//! the other: how a pixel buffer is repacked into the engine's native
//! format, which engine calls a drawing operation is made of and in which
//! order, and what styles and colours are to the engine. It makes no engine
//! call itself; the caller carries out the calls that it returns.

pub mod color;
pub mod error;
pub mod geometry;
pub mod image;
pub mod engine;
pub mod path;
pub mod stroke;
pub mod brush;
pub mod render;
