//! Generational operators of Differential Evolution for continuous
//! black-box minimization: a seed-pinned population initializer, "rand/1"
//! mutation, binomial crossover and greedy selection, over fixed-point
//! coordinates. Each operator carries a contract saying exactly what it
//! returns, for every input and every random draw.

pub mod de;
pub mod fixed;
pub mod interface;
pub mod rng;
