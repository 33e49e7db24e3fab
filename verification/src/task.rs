//! A decomposition in progress, as executable code.
//!
//! [`Task`] carries out the state machine of [`crate::model`]: it lends the
//! operands of the operation that is due, and takes the answer.

use vstd::prelude::*;
use crate::collaborator::{Reply, Request};
use crate::error::ProjectionError;
use crate::matrix::Matrix;
use crate::model::{Goal, OutcomeView, ProgressView, StageView, TaskView};

verus! {

#[derive(Debug)]
enum Stage<T> {
    Gram { basis_t: Matrix<T> },
    Factorization { basis_t: Matrix<T>, gram: Matrix<T> },
    RightHandSide { basis_t: Matrix<T> },
    Solution { rhs: Matrix<T> },
    Projection { coefficients: Matrix<T> },
    Complement { projection: Matrix<T> },
}

impl<T> View for Stage<T> {
    type V = StageView<T>;

    closed spec fn view(&self) -> StageView<T> {
        match *self {
            Stage::Gram { basis_t } => StageView::Gram { basis_t: basis_t@ },
            Stage::Factorization { basis_t, gram } => StageView::Factorization {
                basis_t: basis_t@,
                gram: gram@,
            },
            Stage::RightHandSide { basis_t } => StageView::RightHandSide { basis_t: basis_t@ },
            Stage::Solution { rhs } => StageView::Solution { rhs: rhs@ },
            Stage::Projection { coefficients } => StageView::Projection {
                coefficients: coefficients@,
            },
            Stage::Complement { projection } => StageView::Complement { projection: projection@ },
        }
    }
}

/// A decomposition in progress. It owns copies of the basis and the input.
#[derive(Debug)]
pub struct Task<T> {
    goal: Goal,
    basis: Matrix<T>,
    input: Matrix<T>,
    tolerance: T,
    stage: Stage<T>,
}

/// What a finished decomposition delivers.
#[derive(Debug, PartialEq)]
pub enum Outcome<T> {
    /// The projection of the input onto the subspace.
    Projection(Matrix<T>),
    /// The component of the input that is orthogonal to the subspace.
    Complement(Matrix<T>),
    /// Both parts of the input.
    Decomposition { projection: Matrix<T>, complement: Matrix<T> },
}

/// The result of one step: either more work, or the outcome.
#[derive(Debug)]
pub enum Progress<T> {
    Pending(Task<T>),
    Finished(Outcome<T>),
}

impl<T> View for Task<T> {
    type V = TaskView<T>;

    closed spec fn view(&self) -> TaskView<T> {
        TaskView {
            goal: self.goal,
            basis: self.basis@,
            input: self.input@,
            tolerance: self.tolerance,
            stage: self.stage@,
        }
    }
}

impl<T> View for Outcome<T> {
    type V = OutcomeView<T>;

    open spec fn view(&self) -> OutcomeView<T> {
        match *self {
            Outcome::Projection(p) => OutcomeView::Projection(p@),
            Outcome::Complement(c) => OutcomeView::Complement(c@),
            Outcome::Decomposition { projection, complement } => OutcomeView::Decomposition {
                projection: projection@,
                complement: complement@,
            },
        }
    }
}

impl<T> View for Progress<T> {
    type V = ProgressView<T>;

    open spec fn view(&self) -> ProgressView<T> {
        match *self {
            Progress::Pending(task) => ProgressView::Pending(task@),
            Progress::Finished(outcome) => ProgressView::Finished(outcome@),
        }
    }
}

/// The mathematical content of a freshly started task, or the error.
pub open spec fn started<T>(r: Result<Task<T>, ProjectionError>) -> Result<
    TaskView<T>,
    ProjectionError,
> {
    match r {
        Ok(task) => Ok(task@),
        Err(e) => Err(e),
    }
}

/// The mathematical content of a step's result, or the error.
pub open spec fn stepped<T>(r: Result<Progress<T>, ProjectionError>) -> Result<
    ProgressView<T>,
    ProjectionError,
> {
    match r {
        Ok(progress) => Ok(progress@),
        Err(e) => Err(e),
    }
}

impl<T> Task<T> {
    #[verifier::type_invariant]
    spec fn type_inv(self) -> bool {
        self@.inv()
    }
}

impl<T: Copy> Task<T> {
    /// Begins a decomposition of `input` along the columns of `basis`.
    pub fn start(goal: Goal, basis: &Matrix<T>, tolerance: T, input: &Matrix<T>) -> (r: Result<
        Task<T>,
        ProjectionError,
    >)
        ensures
            started(r) == TaskView::start(goal, basis@, tolerance, input@),
            r is Ok ==> r.unwrap()@.inv(),
    {
        if basis.nrows() != input.nrows() {
            Err(ProjectionError::ShapeMismatch)
        } else if basis.ncols() == 0 {
            Err(ProjectionError::SingularSystem)
        } else {
            Ok(
                Task {
                    goal,
                    basis: basis.clone(),
                    input: input.clone(),
                    tolerance,
                    stage: Stage::Gram { basis_t: basis.transpose() },
                },
            )
        }
    }

    /// The operation that is due, with its operands on loan.
    pub fn request(&self) -> (r: Request<'_, T>)
        ensures
            r@ == self@.request(),
            self@.inv(),
    {
        proof {
            use_type_invariant(self);
        }
        match &self.stage {
            Stage::Gram { basis_t } => Request::Multiply { left: basis_t, right: &self.basis },
            Stage::Factorization { basis_t, gram } => Request::Factorize {
                matrix: gram,
                compute_u: true,
                compute_v: true,
            },
            Stage::RightHandSide { basis_t } => Request::Multiply { left: basis_t, right: &self.input },
            Stage::Solution { rhs } => Request::Solve { rhs, tolerance: self.tolerance },
            Stage::Projection { coefficients } => Request::Multiply {
                left: &self.basis,
                right: coefficients,
            },
            Stage::Complement { projection } => Request::Subtract {
                left: &self.input,
                right: projection,
            },
        }
    }

    /// Takes the collaborator's reply to the pending request.
    pub fn advance(self, reply: Reply<T>) -> (r: Result<Progress<T>, ProjectionError>)
        ensures
            stepped(r) == self@.advance(reply@),
            self@.inv(),
            r matches Ok(Progress::Pending(next)) ==> next@.inv(),
            r matches Ok(Progress::Finished(outcome)) ==> outcome@.shaped(
                self@.input.rows,
                self@.input.cols(),
            ),
    {
        proof {
            use_type_invariant(&self);
        }
        let Task { goal, basis, input, tolerance, stage } = self;
        let order = basis.ncols();
        let dimension = input.nrows();
        let batch = input.ncols();
        match (stage, reply) {
            (Stage::Gram { basis_t }, Reply::Matrix(gram)) => {
                if gram.nrows() == order && gram.ncols() == order {
                    Ok(
                        Progress::Pending(
                            Task {
                                goal,
                                basis,
                                input,
                                tolerance,
                                stage: Stage::Factorization { basis_t, gram },
                            },
                        ),
                    )
                } else {
                    Err(ProjectionError::UnexpectedReply)
                }
            },
            (Stage::Factorization { basis_t, gram }, Reply::Factorized) => {
                Ok(
                    Progress::Pending(
                        Task { goal, basis, input, tolerance, stage: Stage::RightHandSide { basis_t } },
                    ),
                )
            },
            (Stage::RightHandSide { basis_t }, Reply::Matrix(rhs)) => {
                if rhs.nrows() == order && rhs.ncols() == batch {
                    Ok(
                        Progress::Pending(
                            Task { goal, basis, input, tolerance, stage: Stage::Solution { rhs } },
                        ),
                    )
                } else {
                    Err(ProjectionError::UnexpectedReply)
                }
            },
            (Stage::Solution { rhs }, Reply::Solution(Some(coefficients))) => {
                if coefficients.nrows() == order && coefficients.ncols() == batch {
                    Ok(
                        Progress::Pending(
                            Task {
                                goal,
                                basis,
                                input,
                                tolerance,
                                stage: Stage::Projection { coefficients },
                            },
                        ),
                    )
                } else {
                    Err(ProjectionError::UnexpectedReply)
                }
            },
            (Stage::Solution { rhs }, Reply::Solution(None)) => Err(ProjectionError::SingularSystem),
            (Stage::Projection { coefficients }, Reply::Matrix(projection)) => {
                if !(projection.nrows() == dimension && projection.ncols() == batch) {
                    Err(ProjectionError::UnexpectedReply)
                } else {
                    match goal {
                        Goal::Projection => Ok(Progress::Finished(Outcome::Projection(projection))),
                        _ => Ok(
                            Progress::Pending(
                                Task {
                                    goal,
                                    basis,
                                    input,
                                    tolerance,
                                    stage: Stage::Complement { projection },
                                },
                            ),
                        ),
                    }
                }
            },
            (Stage::Complement { projection }, Reply::Matrix(complement)) => {
                if !(complement.nrows() == dimension && complement.ncols() == batch) {
                    Err(ProjectionError::UnexpectedReply)
                } else {
                    match goal {
                        Goal::Complement => Ok(Progress::Finished(Outcome::Complement(complement))),
                        _ => Ok(
                            Progress::Finished(Outcome::Decomposition { projection, complement }),
                        ),
                    }
                }
            },
            _ => Err(ProjectionError::UnexpectedReply),
        }
    }
}

} // verus!
