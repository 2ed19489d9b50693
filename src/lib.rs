//! Geometry engine, matrix stacks, status register and interrupt controller
//! of a handheld-console hardware model, with verified register semantics.
pub mod reg;
pub mod interrupt;
pub mod matrix;
pub mod matrix_engine;
pub mod scheduler;
pub mod geometry;
pub mod registers;
pub mod engine3d;
pub mod gpu;
