//! Small verified building blocks: integer routines, a matrix transpose,
//! an arithmetic expression evaluator and a handful of data types, each with
//! a machine-checked contract.

pub mod closures;
pub mod codes;
pub mod collatz;
pub mod counter;
pub mod defaults;
pub mod elevator;
pub mod expr;
pub mod game;
pub mod lines;
pub mod logger;
pub mod matrix;
pub mod numbers;
pub mod order;
pub mod pairs;
pub mod person;
pub mod pets;
pub mod point;
pub mod race;
pub mod rot;
pub mod text;
pub mod units;

pub use crate::matrix::transpose;
pub use crate::collatz::collatz_length;
pub use crate::numbers::{factorial, fib, fizzbuzz, multiply};
