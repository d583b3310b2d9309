//! Evaluation core of a small combinator calculus over binary trees of
//! unsigned integers: the structural predicates, tree addressing and the
//! universal reducer, each with a contract over a mathematical model.
pub mod expr;
pub mod noun;
pub mod prim;
pub mod reduce;
pub mod slot;

pub use expr::{eval, Expr};
pub use noun::{cell, Error, Noun, Possibly};
pub use prim::{lus, tis, wut};
pub use reduce::{tar, tar_within, TAR_DEPTH};
pub use slot::{hax, net};
