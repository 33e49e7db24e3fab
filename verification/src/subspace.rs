//! Subspaces, and the entry points of their operations.

use vstd::prelude::*;
use crate::collaborator::{Reply, Request};
use crate::error::ProjectionError;
use crate::matrix::{family, Matrix};
use crate::model::{Goal, SpanTaskView, SubSpaceView, TaskView};
use crate::task::{started, Task};

verus! {

/// A linear subspace, given by a matrix whose columns span it.
///
/// The columns need not be orthonormal, nor independent: the solve copes
/// with a rank-deficient spanning set. `epsilon` is the tolerance up to
/// which the solve takes a singular value for zero. Chosen too tight, it
/// lets a nearly dependent spanning set end in `SingularSystem`; chosen
/// too loose, it admits directions that are noise.
#[derive(Debug, PartialEq)]
pub struct SubSpace<T> {
    pub column_space: Matrix<T>,
    pub epsilon: T,
}

impl<T> View for SubSpace<T> {
    type V = SubSpaceView<T>;

    open spec fn view(&self) -> SubSpaceView<T> {
        SubSpaceView { basis: self.column_space@, tolerance: self.epsilon }
    }
}

/// The construction of a subspace from a spanning family, in progress.
#[derive(Debug)]
pub struct SpanTask<T> {
    dimension: usize,
    vectors: Vec<Vec<T>>,
    tolerance: T,
    zero: T,
}

impl<T> View for SpanTask<T> {
    type V = SpanTaskView<T>;

    closed spec fn view(&self) -> SpanTaskView<T> {
        SpanTaskView {
            dimension: self.dimension as nat,
            vectors: family(self.vectors),
            tolerance: self.tolerance,
            zero: self.zero,
        }
    }
}

/// The mathematical content of a freshly started construction, or the error.
pub open spec fn span_started<T>(r: Result<SpanTask<T>, ProjectionError>) -> Result<
    SpanTaskView<T>,
    ProjectionError,
> {
    match r {
        Ok(task) => Ok(task@),
        Err(e) => Err(e),
    }
}

/// The mathematical content of a constructed subspace, or the error.
pub open spec fn spanned<T>(r: Result<SubSpace<T>, ProjectionError>) -> Result<
    SubSpaceView<T>,
    ProjectionError,
> {
    match r {
        Ok(subspace) => Ok(subspace@),
        Err(e) => Err(e),
    }
}

impl<T: Copy> Clone for SubSpace<T> {
    fn clone(&self) -> (r: Self)
        ensures
            r@ == self@,
    {
        SubSpace { column_space: self.column_space.clone(), epsilon: self.epsilon }
    }
}

impl<T: Copy> SubSpace<T> {
    /// Begins the projection of the columns of `x` onto the subspace.
    pub fn projection(&self, x: &Matrix<T>) -> (r: Result<Task<T>, ProjectionError>)
        ensures
            started(r) == TaskView::start(Goal::Projection, self.column_space@, self.epsilon, x@),
            r is Ok ==> r.unwrap()@.inv(),
    {
        Task::start(Goal::Projection, &self.column_space, self.epsilon, x)
    }

    /// Begins the computation of what is left of the columns of `x` once
    /// their projection onto the subspace is taken away.
    pub fn orthogonal_projection(&self, x: &Matrix<T>) -> (r: Result<Task<T>, ProjectionError>)
        ensures
            started(r) == TaskView::start(Goal::Complement, self.column_space@, self.epsilon, x@),
            r is Ok ==> r.unwrap()@.inv(),
    {
        Task::start(Goal::Complement, &self.column_space, self.epsilon, x)
    }

    /// Begins the decomposition of the columns of `x` into their projection
    /// onto the subspace and the rest.
    pub fn orthogonal_decomposition(&self, x: &Matrix<T>) -> (r: Result<Task<T>, ProjectionError>)
        ensures
            started(r) == TaskView::start(
                Goal::Decomposition,
                self.column_space@,
                self.epsilon,
                x@,
            ),
            r is Ok ==> r.unwrap()@.inv(),
    {
        Task::start(Goal::Decomposition, &self.column_space, self.epsilon, x)
    }

    /// Begins the construction of the subspace that the vectors `vs` span
    /// in the space of the given dimension. `zero` is the scalar that fills
    /// the columns of the basis that no independent vector takes.
    pub fn span(dimension: usize, vs: Vec<Vec<T>>, epsilon: T, zero: T) -> (r: Result<
        SpanTask<T>,
        ProjectionError,
    >)
        ensures
            span_started(r) == SpanTaskView::start(dimension as nat, family(vs), epsilon, zero),
            r is Ok ==> r.unwrap()@.inv(),
    {
        let mut i: usize = 0;
        while i < vs.len()
            invariant
                i <= vs@.len(),
                forall|k: int| 0 <= k < i ==> (#[trigger] family(vs)[k]).len() == dimension,
            decreases vs@.len() - i,
        {
            if vs[i].len() != dimension {
                assert(family(vs)[i as int].len() != dimension);
                return Err(ProjectionError::ShapeMismatch);
            }
            i += 1;
        }
        Ok(SpanTask { dimension, vectors: vs, tolerance: epsilon, zero })
    }
}

impl<T> SpanTask<T> {
    #[verifier::type_invariant]
    spec fn type_inv(self) -> bool {
        self@.inv()
    }
}

impl<T: Copy> SpanTask<T> {
    /// The operation that is due, with the family on loan.
    pub fn request(&self) -> (r: Request<'_, T>)
        ensures
            r@ == self@.request(),
            self@.inv(),
    {
        proof {
            use_type_invariant(self);
        }
        Request::Orthonormalize { vectors: &self.vectors }
    }

    /// Takes the collaborator's reply and builds the subspace.
    pub fn finish(self, reply: Reply<T>) -> (r: Result<SubSpace<T>, ProjectionError>)
        ensures
            spanned(r) == self@.finish(reply@),
            self@.inv(),
    {
        proof {
            use_type_invariant(&self);
        }
        match reply {
            Reply::Orthonormalized { vectors, independent } => {
                if vectors.len() != self.vectors.len() {
                    return Err(ProjectionError::UnexpectedReply);
                }
                match Matrix::from_leading_columns(
                    self.dimension,
                    self.dimension,
                    &vectors,
                    independent,
                    self.zero,
                ) {
                    Ok(column_space) => Ok(SubSpace { column_space, epsilon: self.tolerance }),
                    Err(_) => Err(ProjectionError::UnexpectedReply),
                }
            },
            _ => Err(ProjectionError::UnexpectedReply),
        }
    }
}

} // verus!
