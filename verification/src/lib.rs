//! Orthogonal decomposition of vectors with respect to a linear subspace.
//!
//! A [`SubSpace`] is described by a spanning matrix and a tolerance. Splitting
//! an input into its projection onto the subspace and the component that is
//! orthogonal to it takes scalar arithmetic (products, a singular value
//! decomposition, a least-squares solve), which this crate does not perform
//! itself: it never looks inside a scalar. It decides which operation is due
//! next and on which operands, hands that out as a [`Request`], and takes the
//! collaborator's [`Reply`] to move on:
//!
//! 1. [`SubSpace::projection`], [`SubSpace::orthogonal_projection`] and
//!    [`SubSpace::orthogonal_decomposition`] check the shapes and begin a
//!    [`Task`]; [`SubSpace::span`] begins a [`SpanTask`].
//! 2. [`Task::request`] lends the operands of the operation that is due.
//! 3. [`Task::advance`] takes the answer and yields the next stage of the
//!    task, its [`Outcome`], or the error.
//!
//! What the crate decides is proved: the order of the operations, that the
//! operands of every request conform, which replies are accepted, when an
//! error is reported, and the shape and the origin of every result. The
//! module [`model`] holds the state machines as mathematics, [`oracle`] a
//! collaborator as mathematics, and [`laws`] what follows for every
//! collaborator.

pub mod collaborator;
pub mod error;
pub mod laws;
pub mod matrix;
pub mod model;
pub mod oracle;
pub mod subspace;
pub mod task;

pub use collaborator::{Reply, ReplyView, Request, RequestView};
pub use error::ProjectionError;
pub use matrix::{Matrix, MatrixView};
pub use model::{
    Goal, OutcomeView, ProgressView, SpanTaskView, StageView, SubSpaceView, TaskView,
};
pub use subspace::{SpanTask, SubSpace};
pub use task::{Outcome, Progress, Task};
