//! A small expression-evaluation engine: computations are nested call
//! trees (literals, function applications, boxed values, lifted callables)
//! evaluated through one uniform contract, together with arithmetic
//! helpers and sequence combinators usable inside such trees.

pub mod arith;
pub mod call;
pub mod combinators;
pub mod node;

pub use arith::add;
pub use arith::div;
pub use arith::mul;
pub use arith::sub;
pub use arith::Arith;
pub use combinators::reduce;
pub use combinators::to_vec;
pub use node::eval;
pub use node::run;
pub use node::Node;
