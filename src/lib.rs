//! A bit-exact reproduction of the subtractive lagged Fibonacci generator
//! behind the .NET 3.5 `System.Random` class.
//!
//! The generator state, its seeding and its integer sampling operations are
//! verified: every call is specified as a step of the mathematical model in
//! [`generator`], and the laws about that model are proved in [`laws`].
pub mod clock;
pub mod consts;
pub mod generator;
pub mod laws;

pub use consts::DotNet35Const;
pub use generator::DotNet35Random;
