//! The decomposition as a state machine over mathematical values.
//!
//! To split an input `x` along the column space of a basis `B`, the
//! coefficients `c` of the projection solve the normal equations
//! `(Bᵗ B) c = Bᵗ x`, in the least-squares sense where `Bᵗ B` is singular;
//! the projection is `B c` and the complement `x - B c`. The machine walks
//! through these operations one request at a time. It transposes by itself
//! and asks the collaborator for everything that computes with scalars.

use vstd::prelude::*;
use crate::collaborator::{ReplyView, RequestView};
use crate::error::ProjectionError;
use crate::matrix::{leading_columns_fit, MatrixView};

verus! {

/// Which parts of the decomposition are wanted.
#[derive(Clone, Copy, Debug, PartialEq, Eq, Structural)]
pub enum Goal {
    /// Only the projection onto the subspace.
    Projection,
    /// Only the component orthogonal to the subspace.
    Complement,
    /// Both, from a single solve.
    Decomposition,
}

/// Where a decomposition stands: what the pending request will deliver, and
/// the intermediate results still needed.
pub enum StageView<T> {
    /// Waiting for the Gram matrix `Bᵗ B`.
    Gram { basis_t: MatrixView<T> },
    /// Waiting for the factorization of the Gram matrix.
    Factorization { basis_t: MatrixView<T>, gram: MatrixView<T> },
    /// Waiting for the right-hand side `Bᵗ x`.
    RightHandSide { basis_t: MatrixView<T> },
    /// Waiting for the coefficients.
    Solution { rhs: MatrixView<T> },
    /// Waiting for the projection `B c`.
    Projection { coefficients: MatrixView<T> },
    /// Waiting for the complement `x - B c`.
    Complement { projection: MatrixView<T> },
}

/// What a finished decomposition delivers.
pub enum OutcomeView<T> {
    Projection(MatrixView<T>),
    Complement(MatrixView<T>),
    Decomposition { projection: MatrixView<T>, complement: MatrixView<T> },
}

impl<T> OutcomeView<T> {
    /// Column `j` alone of every matrix delivered.
    pub open spec fn single(self, j: int) -> OutcomeView<T> {
        match self {
            OutcomeView::Projection(p) => OutcomeView::Projection(p.single(j)),
            OutcomeView::Complement(c) => OutcomeView::Complement(c.single(j)),
            OutcomeView::Decomposition { projection, complement } => OutcomeView::Decomposition {
                projection: projection.single(j),
                complement: complement.single(j),
            },
        }
    }

    /// Every matrix delivered is well formed and has the given shape.
    pub open spec fn shaped(self, rows: nat, cols: nat) -> bool {
        match self {
            OutcomeView::Projection(p) => p.has_shape(rows, cols),
            OutcomeView::Complement(c) => c.has_shape(rows, cols),
            OutcomeView::Decomposition { projection, complement } => projection.has_shape(
                rows,
                cols,
            ) && complement.has_shape(rows, cols),
        }
    }
}

/// A decomposition in progress.
pub struct TaskView<T> {
    pub goal: Goal,
    pub basis: MatrixView<T>,
    pub input: MatrixView<T>,
    pub tolerance: T,
    pub stage: StageView<T>,
}

/// The result of one step: either more work, or the outcome.
pub enum ProgressView<T> {
    Pending(TaskView<T>),
    Finished(OutcomeView<T>),
}

impl<T> TaskView<T> {
    /// The ambient dimension.
    pub open spec fn dimension(self) -> nat {
        self.basis.rows
    }

    /// The number of spanning vectors, which is the order of the normal
    /// equations.
    pub open spec fn order(self) -> nat {
        self.basis.cols()
    }

    /// The number of vectors decomposed at once.
    pub open spec fn batch(self) -> nat {
        self.input.cols()
    }

    /// The number of requests that are still to be answered.
    pub open spec fn remaining(self) -> nat {
        let last: nat = if self.goal == Goal::Projection {
            0
        } else {
            1
        };
        match self.stage {
            StageView::Gram { basis_t } => 5 + last,
            StageView::Factorization { basis_t, gram } => 4 + last,
            StageView::RightHandSide { basis_t } => 3 + last,
            StageView::Solution { rhs } => 2 + last,
            StageView::Projection { coefficients } => 1 + last,
            StageView::Complement { projection } => 1,
        }
    }

    /// Begins a decomposition of `input` along the columns of `basis`.
    ///
    /// `ShapeMismatch` where the two do not share the ambient dimension;
    /// otherwise `SingularSystem` where the basis has no column, for then
    /// there are no coefficients to solve for.
    pub open spec fn start(goal: Goal, basis: MatrixView<T>, tolerance: T, input: MatrixView<T>)
        -> Result<TaskView<T>, ProjectionError> {
        if basis.rows != input.rows {
            Err(ProjectionError::ShapeMismatch)
        } else if basis.cols() == 0 {
            Err(ProjectionError::SingularSystem)
        } else {
            Ok(
                TaskView {
                    goal,
                    basis,
                    input,
                    tolerance,
                    stage: StageView::Gram { basis_t: basis.transposed() },
                },
            )
        }
    }

    /// What holds of every task that `start` and `advance` produce.
    pub open spec fn inv(self) -> bool {
        &&& self.basis.wf()
        &&& self.input.wf()
        &&& self.basis.rows == self.input.rows
        &&& self.basis.cols() >= 1
        &&& match self.stage {
            StageView::Gram { basis_t } => basis_t == self.basis.transposed(),
            StageView::Factorization { basis_t, gram } => basis_t == self.basis.transposed()
                && gram.has_shape(self.order(), self.order()),
            StageView::RightHandSide { basis_t } => basis_t == self.basis.transposed(),
            StageView::Solution { rhs } => rhs.has_shape(self.order(), self.batch()),
            StageView::Projection { coefficients } => coefficients.has_shape(
                self.order(),
                self.batch(),
            ),
            StageView::Complement { projection } => projection.has_shape(
                self.dimension(),
                self.batch(),
            ) && self.goal != Goal::Projection,
        }
    }

    /// The operation that is due.
    pub open spec fn request(self) -> RequestView<T> {
        match self.stage {
            StageView::Gram { basis_t } => RequestView::Multiply { left: basis_t, right: self.basis },
            StageView::Factorization { basis_t, gram } => RequestView::Factorize {
                matrix: gram,
                compute_u: true,
                compute_v: true,
            },
            StageView::RightHandSide { basis_t } => RequestView::Multiply {
                left: basis_t,
                right: self.input,
            },
            StageView::Solution { rhs } => RequestView::Solve { rhs, tolerance: self.tolerance },
            StageView::Projection { coefficients } => RequestView::Multiply {
                left: self.basis,
                right: coefficients,
            },
            StageView::Complement { projection } => RequestView::Subtract {
                left: self.input,
                right: projection,
            },
        }
    }

    /// The same task at another stage.
    pub open spec fn at_stage(self, stage: StageView<T>) -> TaskView<T> {
        TaskView { stage, ..self }
    }

    /// The reply is of the kind that the pending request calls for, and
    /// what it carries has the shape that the operation gives it.
    pub open spec fn accepts(self, reply: ReplyView<T>) -> bool {
        match (self.stage, reply) {
            (StageView::Gram { basis_t }, ReplyView::Matrix(gram)) => gram.has_shape(
                self.order(),
                self.order(),
            ),
            (StageView::Factorization { basis_t, gram }, ReplyView::Factorized) => true,
            (StageView::RightHandSide { basis_t }, ReplyView::Matrix(rhs)) => rhs.has_shape(
                self.order(),
                self.batch(),
            ),
            (StageView::Solution { rhs }, ReplyView::Solution(Some(coefficients))) => {
                coefficients.has_shape(self.order(), self.batch())
            },
            (StageView::Solution { rhs }, ReplyView::Solution(None)) => true,
            (StageView::Projection { coefficients }, ReplyView::Matrix(projection)) => {
                projection.has_shape(self.dimension(), self.batch())
            },
            (StageView::Complement { projection }, ReplyView::Matrix(complement)) => {
                complement.has_shape(self.dimension(), self.batch())
            },
            _ => false,
        }
    }

    /// Takes the collaborator's reply to the pending request.
    ///
    /// A reply that is not accepted ends the task with `UnexpectedReply`,
    /// and a solve without coefficients ends it with `SingularSystem`. Any
    /// other reply moves the task to its next stage, or finishes it: with
    /// the projection where nothing else is wanted, and else, one request
    /// later, with the complement.
    pub open spec fn advance(self, reply: ReplyView<T>) -> Result<ProgressView<T>, ProjectionError> {
        if !self.accepts(reply) {
            Err(ProjectionError::UnexpectedReply)
        } else {
            match (self.stage, reply) {
                (StageView::Gram { basis_t }, ReplyView::Matrix(gram)) => Ok(
                    ProgressView::Pending(self.at_stage(StageView::Factorization { basis_t, gram })),
                ),
                (StageView::Factorization { basis_t, gram }, _) => Ok(
                    ProgressView::Pending(self.at_stage(StageView::RightHandSide { basis_t })),
                ),
                (StageView::RightHandSide { basis_t }, ReplyView::Matrix(rhs)) => Ok(
                    ProgressView::Pending(self.at_stage(StageView::Solution { rhs })),
                ),
                (StageView::Solution { rhs }, ReplyView::Solution(Some(coefficients))) => Ok(
                    ProgressView::Pending(self.at_stage(StageView::Projection { coefficients })),
                ),
                (StageView::Projection { coefficients }, ReplyView::Matrix(projection)) => Ok(
                    if self.goal == Goal::Projection {
                        ProgressView::Finished(OutcomeView::Projection(projection))
                    } else {
                        ProgressView::Pending(self.at_stage(StageView::Complement { projection }))
                    },
                ),
                (StageView::Complement { projection }, ReplyView::Matrix(complement)) => Ok(
                    ProgressView::Finished(
                        if self.goal == Goal::Complement {
                            OutcomeView::Complement(complement)
                        } else {
                            OutcomeView::Decomposition { projection, complement }
                        },
                    ),
                ),
                (StageView::Solution { rhs }, ReplyView::Solution(None)) => Err(
                    ProjectionError::SingularSystem,
                ),
                _ => Err(ProjectionError::UnexpectedReply),
            }
        }
    }
}

/// A subspace: a spanning matrix and the tolerance of the solve.
pub struct SubSpaceView<T> {
    pub basis: MatrixView<T>,
    pub tolerance: T,
}

/// The construction of a subspace from a spanning family, in progress.
pub struct SpanTaskView<T> {
    pub dimension: nat,
    pub vectors: Seq<Seq<T>>,
    pub tolerance: T,
    pub zero: T,
}

impl<T> SpanTaskView<T> {
    /// Begins the construction of the subspace of dimension-sized vectors
    /// that `vectors` span.
    ///
    /// `ShapeMismatch` where a vector does not have `dimension` entries.
    pub open spec fn start(dimension: nat, vectors: Seq<Seq<T>>, tolerance: T, zero: T) -> Result<
        SpanTaskView<T>,
        ProjectionError,
    > {
        if forall|i: int| 0 <= i < vectors.len() ==> (#[trigger] vectors[i]).len() == dimension {
            Ok(SpanTaskView { dimension, vectors, tolerance, zero })
        } else {
            Err(ProjectionError::ShapeMismatch)
        }
    }

    /// What holds of every task that `start` produces.
    pub open spec fn inv(self) -> bool {
        forall|i: int| 0 <= i < self.vectors.len() ==> (#[trigger] self.vectors[i]).len()
            == self.dimension
    }

    /// The operation that is due.
    pub open spec fn request(self) -> RequestView<T> {
        RequestView::Orthonormalize { vectors: self.vectors }
    }

    /// The reply is an orthonormalized family of the size that was sent,
    /// and the members that it declares independent can be the leading
    /// columns of a square matrix of the ambient dimension.
    pub open spec fn accepts(self, reply: ReplyView<T>) -> bool {
        match reply {
            ReplyView::Orthonormalized { vectors, independent } => vectors.len()
                == self.vectors.len() && leading_columns_fit(
                self.dimension,
                self.dimension,
                vectors,
                independent,
            ),
            _ => false,
        }
    }

    /// Takes the collaborator's reply and builds the subspace.
    ///
    /// The basis is square, of the ambient dimension. Its leading columns
    /// are the independent members of the orthonormalized family, in their
    /// order; every other entry is zero. A reply that is not accepted ends
    /// the construction with `UnexpectedReply`.
    pub open spec fn finish(self, reply: ReplyView<T>) -> Result<SubSpaceView<T>, ProjectionError> {
        match reply {
            ReplyView::Orthonormalized { vectors, independent } if self.accepts(reply) => Ok(
                SubSpaceView {
                    basis: MatrixView::with_leading_columns(
                        self.dimension,
                        self.dimension,
                        vectors,
                        independent,
                        self.zero,
                    ),
                    tolerance: self.tolerance,
                },
            ),
            _ => Err(ProjectionError::UnexpectedReply),
        }
    }
}

} // verus!
