//! A synchronous digital-logic simulator: a netlist of boolean gates is
//! flattened into a compact graph and stepped forward in discrete ticks, every
//! gate reading the previous tick's frozen state.
//!
//! Beside the simulator stand the plain data types of the circuit editor that
//! produces such netlists.

pub mod clipboard;
pub mod colors;
pub mod config;
pub mod connections;
pub mod driver;
pub mod interaction;
pub mod logic;
pub mod netlist;
pub mod parts;
pub mod simulation;
pub mod state;
pub mod tools;
