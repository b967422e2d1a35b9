//! A scalar wave solver on a rectangular grid, and the screen-side geometry
//! of the programs around it.
//!
//! The solver steps the damped wave equation by the explicit leapfrog
//! scheme on two retained time-slices. It owns everything about a step
//! except the arithmetic on the samples: which cells are updated, from
//! which neighbours, in which order, under which obstacle and boundary
//! policies, and in which states of its life cycle. The sample type is a
//! parameter, and the arithmetic is handed in by the caller as an evaluator
//! (see [`arithmetic`]). Every function is verified against a mathematical
//! model of the grid.
//!
//! The solver, leaf first:
//! - [`field`]: one time-slice, a grid of samples;
//! - [`grid_buffer`]: the two retained slices;
//! - [`registry`]: handles in registration order, for sources and obstacles;
//! - [`arithmetic`]: the parameters, the updates and the evaluator;
//! - [`stability`]: the check that parameters must pass;
//! - [`rule`]: the stencils and the loops that apply them;
//! - [`source`], [`obstacle`], [`boundary`]: the three kinds of configuration
//!   and what each does to a slice;
//! - [`stepper`]: one step, from two slices to the next;
//! - [`simulation`]: the orchestrator and its life cycle;
//! - [`laws`]: what holds of every run.
//!
//! Beside it: [`render`] (a module's frame on a character terminal),
//! [`input`] (named input axes) and [`modules`] (directions and places on a
//! grid of modules).

pub mod arithmetic;
pub mod boundary;
pub mod error;
pub mod field;
pub mod grid_buffer;
pub mod input;
pub mod laws;
pub mod modules;
pub mod obstacle;
pub mod registry;
pub mod render;
pub mod rule;
pub mod simulation;
pub mod source;
pub mod stability;
pub mod stepper;
