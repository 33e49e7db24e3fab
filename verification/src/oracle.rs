//! A collaborator as mathematics.
//!
//! A [`Collaborator`] stands for any deterministic implementation of the
//! operations that the state machines ask for. Running a machine against
//! it says what the machine computes, in terms of these operations.

use vstd::prelude::*;
use crate::collaborator::{ReplyView, RequestView};
use crate::error::ProjectionError;
use crate::matrix::{leading_columns_fit, MatrixView};
use crate::model::{Goal, OutcomeView, ProgressView, SpanTaskView, SubSpaceView, TaskView};

verus! {

/// A deterministic collaborator: the four operations that the state
/// machines ask for, and, to state what exact arithmetic gives, the sum of
/// two matrices and the scalar zero.
#[verifier::reject_recursive_types(T)]
pub struct Collaborator<T> {
    /// The product of two matrices.
    pub multiply: spec_fn(MatrixView<T>, MatrixView<T>) -> MatrixView<T>,
    /// The difference of two matrices.
    pub subtract: spec_fn(MatrixView<T>, MatrixView<T>) -> MatrixView<T>,
    /// The least-squares solution for a matrix, a right-hand side and a
    /// tolerance, where there is one.
    pub solve: spec_fn(MatrixView<T>, MatrixView<T>, T) -> Option<MatrixView<T>>,
    /// A family after orthonormalization, and how many of its leading
    /// members are independent.
    pub orthonormalize: spec_fn(Seq<Seq<T>>) -> (Seq<Seq<T>>, nat),
    /// The sum of two matrices.
    pub add: spec_fn(MatrixView<T>, MatrixView<T>) -> MatrixView<T>,
    /// The scalar zero.
    pub zero: T,
}

impl<T> Collaborator<T> {
    /// Every result has the shape that its operation gives it.
    pub open spec fn keeps_shapes(self) -> bool {
        &&& forall|l: MatrixView<T>, r: MatrixView<T>|
            l.wf() && r.wf() && l.cols() == r.rows ==> (#[trigger] (self.multiply)(l, r)).has_shape(
                l.rows,
                r.cols(),
            )
        &&& forall|l: MatrixView<T>, r: MatrixView<T>|
            l.wf() && r.wf() && l.same_shape(r) ==> (#[trigger] (self.subtract)(l, r)).has_shape(
                l.rows,
                l.cols(),
            )
        &&& forall|m: MatrixView<T>, rhs: MatrixView<T>, tolerance: T|
            m.wf() && rhs.wf() && m.rows == rhs.rows ==> match #[trigger] (self.solve)(
                m,
                rhs,
                tolerance,
            ) {
                Some(c) => c.has_shape(m.cols(), rhs.cols()),
                None => true,
            }
    }

    /// Orthonormalization keeps the size of a family of vectors of one
    /// dimension, and declares independent no more members than the family
    /// or the dimension has, each of them of that dimension.
    pub open spec fn keeps_families(self) -> bool {
        forall|vectors: Seq<Seq<T>>, dimension: nat|
            #![trigger leading_columns_fit(
                dimension,
                dimension,
                (self.orthonormalize)(vectors).0,
                (self.orthonormalize)(vectors).1,
            )]
            (forall|i: int| 0 <= i < vectors.len() ==> (#[trigger] vectors[i]).len() == dimension)
                ==> (self.orthonormalize)(vectors).0.len() == vectors.len() && leading_columns_fit(
                dimension,
                dimension,
                (self.orthonormalize)(vectors).0,
                (self.orthonormalize)(vectors).1,
            )
    }

    /// The columns of a batch are treated one by one: a column of a product,
    /// of a difference or of a solution is what the operation gives for
    /// that column alone, and a solve finds coefficients for a batch
    /// exactly when it finds them for each of its columns.
    pub open spec fn acts_by_columns(self) -> bool {
        &&& forall|l: MatrixView<T>, r: MatrixView<T>, j: int|
            l.wf() && r.wf() && l.cols() == r.rows && 0 <= j < r.cols() ==> #[trigger] (
            self.multiply)(l, r.single(j)) == (self.multiply)(l, r).single(j)
        &&& forall|l: MatrixView<T>, r: MatrixView<T>, j: int|
            l.wf() && r.wf() && l.same_shape(r) && 0 <= j < l.cols() ==> #[trigger] (self.subtract)(
                l.single(j),
                r.single(j),
            ) == (self.subtract)(l, r).single(j)
        &&& forall|m: MatrixView<T>, rhs: MatrixView<T>, tolerance: T, j: int|
            m.wf() && rhs.wf() && m.rows == rhs.rows && 0 <= j < rhs.cols() ==> #[trigger] (
            self.solve)(m, rhs.single(j), tolerance) == match (self.solve)(m, rhs, tolerance) {
                Some(c) => Some(c.single(j)),
                None => None,
            }
    }

    /// Products are associative.
    pub open spec fn associates(self) -> bool {
        forall|a: MatrixView<T>, b: MatrixView<T>, c: MatrixView<T>|
            #![trigger (self.multiply)(a, (self.multiply)(b, c))]
            a.wf() && b.wf() && c.wf() && a.cols() == b.rows && b.cols() == c.rows ==> (
            self.multiply)(a, (self.multiply)(b, c)) == (self.multiply)((self.multiply)(a, b), c)
    }

    /// The product with a difference is the difference of the products.
    pub open spec fn distributes(self) -> bool {
        forall|a: MatrixView<T>, x: MatrixView<T>, y: MatrixView<T>|
            #![trigger (self.multiply)(a, (self.subtract)(x, y))]
            a.wf() && x.wf() && y.wf() && a.cols() == x.rows && x.same_shape(y) ==> (self.multiply)(
                a,
                (self.subtract)(x, y),
            ) == (self.subtract)((self.multiply)(a, x), (self.multiply)(a, y))
    }

    /// The difference of a matrix and itself is zero.
    pub open spec fn cancels(self) -> bool {
        forall|m: MatrixView<T>|
            m.wf() ==> #[trigger] (self.subtract)(m, m) == MatrixView::filled(
                m.rows,
                m.cols(),
                self.zero,
            )
    }

    /// Adding back what was subtracted restores a matrix.
    pub open spec fn restores(self) -> bool {
        forall|x: MatrixView<T>, y: MatrixView<T>|
            x.wf() && y.wf() && x.same_shape(y) ==> #[trigger] (self.add)(
                y,
                (self.subtract)(x, y),
            ) == x
    }

    /// The coefficients that the solve finds for `input` satisfy the
    /// normal equations `(Bᵗ B) c = Bᵗ x` exactly.
    pub open spec fn solves(self, basis: MatrixView<T>, tolerance: T, input: MatrixView<T>) -> bool {
        let gram = (self.multiply)(basis.transposed(), basis);
        let rhs = (self.multiply)(basis.transposed(), input);
        (self.solve)(gram, rhs, tolerance) matches Some(coefficients) ==> (self.multiply)(
            gram,
            coefficients,
        ) == rhs
    }

    /// The answer to `request`, where `factorized` is the matrix that was
    /// factorized last.
    pub open spec fn reply(self, factorized: Option<MatrixView<T>>, request: RequestView<T>)
        -> ReplyView<T> {
        match request {
            RequestView::Multiply { left, right } => ReplyView::Matrix((self.multiply)(left, right)),
            RequestView::Subtract { left, right } => ReplyView::Matrix((self.subtract)(left, right)),
            RequestView::Factorize { matrix, compute_u, compute_v } => ReplyView::Factorized,
            RequestView::Solve { rhs, tolerance } => ReplyView::Solution(
                match factorized {
                    Some(m) => (self.solve)(m, rhs, tolerance),
                    None => None,
                },
            ),
            RequestView::Orthonormalize { vectors } => ReplyView::Orthonormalized {
                vectors: (self.orthonormalize)(vectors).0,
                independent: (self.orthonormalize)(vectors).1,
            },
        }
    }

    /// The matrix factorized last, once `request` is answered.
    pub open spec fn factorized_after(
        self,
        factorized: Option<MatrixView<T>>,
        request: RequestView<T>,
    ) -> Option<MatrixView<T>> {
        match request {
            RequestView::Factorize { matrix, compute_u, compute_v } => Some(matrix),
            _ => factorized,
        }
    }

    /// The projection of `input` onto the column space of `basis`: `B c`,
    /// where `c` solves `(Bᵗ B) c = Bᵗ x`. `None` where the solve finds no
    /// coefficients.
    pub open spec fn projection(self, basis: MatrixView<T>, tolerance: T, input: MatrixView<T>)
        -> Option<MatrixView<T>> {
        let gram = (self.multiply)(basis.transposed(), basis);
        let rhs = (self.multiply)(basis.transposed(), input);
        match (self.solve)(gram, rhs, tolerance) {
            Some(coefficients) => Some((self.multiply)(basis, coefficients)),
            None => None,
        }
    }

    /// What a decomposition with the given goal is to deliver.
    pub open spec fn decomposition(
        self,
        goal: Goal,
        basis: MatrixView<T>,
        tolerance: T,
        input: MatrixView<T>,
    ) -> Result<OutcomeView<T>, ProjectionError> {
        if basis.rows != input.rows {
            Err(ProjectionError::ShapeMismatch)
        } else if basis.cols() == 0 {
            Err(ProjectionError::SingularSystem)
        } else {
            match self.projection(basis, tolerance, input) {
                None => Err(ProjectionError::SingularSystem),
                Some(projection) => {
                    let complement = (self.subtract)(input, projection);
                    Ok(
                        match goal {
                            Goal::Projection => OutcomeView::Projection(projection),
                            Goal::Complement => OutcomeView::Complement(complement),
                            Goal::Decomposition => OutcomeView::Decomposition {
                                projection,
                                complement,
                            },
                        },
                    )
                },
            }
        }
    }

    /// Runs `task` to its end, answering every request.
    pub open spec fn run(self, task: TaskView<T>, factorized: Option<MatrixView<T>>) -> Result<
        OutcomeView<T>,
        ProjectionError,
    >
        decreases task.remaining(),
    {
        let request = task.request();
        match task.advance(self.reply(factorized, request)) {
            Ok(ProgressView::Pending(next)) => self.run(
                next,
                self.factorized_after(factorized, request),
            ),
            Ok(ProgressView::Finished(outcome)) => Ok(outcome),
            Err(e) => Err(e),
        }
    }

    /// The requests that `task` makes until it ends, in their order.
    pub open spec fn requests(self, task: TaskView<T>, factorized: Option<MatrixView<T>>) -> Seq<
        RequestView<T>,
    >
        decreases task.remaining(),
    {
        let request = task.request();
        match task.advance(self.reply(factorized, request)) {
            Ok(ProgressView::Pending(next)) => seq![request] + self.requests(
                next,
                self.factorized_after(factorized, request),
            ),
            _ => seq![request],
        }
    }

    /// The operations of a decomposition, in their order: the Gram matrix,
    /// its factorization, the right-hand side, the solve, and, where the
    /// solve gave coefficients, the projection and then, unless only the
    /// projection is wanted, the complement.
    pub open spec fn operations(
        self,
        goal: Goal,
        basis: MatrixView<T>,
        tolerance: T,
        input: MatrixView<T>,
    ) -> Seq<RequestView<T>> {
        let basis_t = basis.transposed();
        let gram = (self.multiply)(basis_t, basis);
        let rhs = (self.multiply)(basis_t, input);
        let to_solve = seq![
            RequestView::Multiply { left: basis_t, right: basis },
            RequestView::Factorize { matrix: gram, compute_u: true, compute_v: true },
            RequestView::Multiply { left: basis_t, right: input },
            RequestView::Solve { rhs, tolerance },
        ];
        match (self.solve)(gram, rhs, tolerance) {
            None => to_solve,
            Some(coefficients) => {
                let to_project = to_solve.push(
                    RequestView::Multiply { left: basis, right: coefficients },
                );
                if goal == Goal::Projection {
                    to_project
                } else {
                    to_project.push(
                        RequestView::Subtract {
                            left: input,
                            right: (self.multiply)(basis, coefficients),
                        },
                    )
                }
            },
        }
    }

    /// Starts the construction of a subspace and brings it to its end.
    pub open spec fn span(self, dimension: nat, vectors: Seq<Seq<T>>, tolerance: T, zero: T)
        -> Result<SubSpaceView<T>, ProjectionError> {
        match SpanTaskView::start(dimension, vectors, tolerance, zero) {
            Ok(task) => task.finish(self.reply(None, task.request())),
            Err(e) => Err(e),
        }
    }

    /// Starts a decomposition and runs it to its end.
    pub open spec fn decompose(
        self,
        goal: Goal,
        basis: MatrixView<T>,
        tolerance: T,
        input: MatrixView<T>,
    ) -> Result<OutcomeView<T>, ProjectionError> {
        match TaskView::start(goal, basis, tolerance, input) {
            Ok(task) => self.run(task, None),
            Err(e) => Err(e),
        }
    }
}

} // verus!
