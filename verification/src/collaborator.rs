//! The vocabulary spoken with the linear-algebra collaborator.
//!
//! A [`Request`] names one operation and lends its operands; a [`Reply`]
//! carries what the collaborator made of it. Scalars pass through untouched.

use vstd::prelude::*;
use crate::matrix::{family, Matrix, MatrixView};

verus! {

/// One operation asked of the collaborator.
#[derive(Debug)]
pub enum Request<'a, T> {
    /// The matrix product `left * right`.
    Multiply { left: &'a Matrix<T>, right: &'a Matrix<T> },
    /// The entrywise difference `left - right`.
    Subtract { left: &'a Matrix<T>, right: &'a Matrix<T> },
    /// The singular value decomposition of `matrix`, to be kept for the
    /// `Solve` that follows. The flags say which singular vectors to retain.
    Factorize { matrix: &'a Matrix<T>, compute_u: bool, compute_v: bool },
    /// The least-squares solution of `M * c = rhs` for the matrix `M`
    /// factorized last, singular values up to `tolerance` counting as zero.
    Solve { rhs: &'a Matrix<T>, tolerance: T },
    /// Orthonormalize the family, moving a largest independent subfamily to
    /// the front.
    Orthonormalize { vectors: &'a Vec<Vec<T>> },
}

/// What a [`Request`] asks, as mathematics.
pub enum RequestView<T> {
    Multiply { left: MatrixView<T>, right: MatrixView<T> },
    Subtract { left: MatrixView<T>, right: MatrixView<T> },
    Factorize { matrix: MatrixView<T>, compute_u: bool, compute_v: bool },
    Solve { rhs: MatrixView<T>, tolerance: T },
    Orthonormalize { vectors: Seq<Seq<T>> },
}

impl<'a, T> View for Request<'a, T> {
    type V = RequestView<T>;

    open spec fn view(&self) -> RequestView<T> {
        match *self {
            Request::Multiply { left, right } => RequestView::Multiply { left: left@, right: right@ },
            Request::Subtract { left, right } => RequestView::Subtract { left: left@, right: right@ },
            Request::Factorize { matrix, compute_u, compute_v } => RequestView::Factorize {
                matrix: matrix@,
                compute_u,
                compute_v,
            },
            Request::Solve { rhs, tolerance } => RequestView::Solve { rhs: rhs@, tolerance },
            Request::Orthonormalize { vectors } => RequestView::Orthonormalize {
                vectors: family(*vectors),
            },
        }
    }
}

impl<T> RequestView<T> {
    /// The operands fit the operation, so that the collaborator can carry
    /// it out: the inner dimensions of a product agree, a difference is
    /// taken of equal shapes, a matrix to factorize is square and not
    /// empty, and a right-hand side has as many rows as the system
    /// factorized last, whose order is `order`.
    pub open spec fn conforms(self, order: nat) -> bool {
        match self {
            RequestView::Multiply { left, right } => left.wf() && right.wf() && left.cols()
                == right.rows,
            RequestView::Subtract { left, right } => left.wf() && right.wf() && left.same_shape(
                right,
            ),
            RequestView::Factorize { matrix, compute_u, compute_v } => matrix.wf() && matrix.rows
                == matrix.cols() && matrix.rows >= 1,
            RequestView::Solve { rhs, tolerance } => rhs.wf() && rhs.rows == order,
            RequestView::Orthonormalize { vectors } => forall|i: int, j: int|
                0 <= i < vectors.len() && 0 <= j < vectors.len() ==> vectors[i].len()
                    == vectors[j].len(),
        }
    }
}

/// The collaborator's answer to a [`Request`].
#[derive(Debug)]
pub enum Reply<T> {
    /// The result of a `Multiply` or a `Subtract`.
    Matrix(Matrix<T>),
    /// The factorization asked for is at hand.
    Factorized,
    /// The coefficients that a `Solve` found, or `None` where it found none.
    Solution(Option<Matrix<T>>),
    /// The family after orthonormalization; its first `independent` members
    /// are orthonormal and span what the whole family spanned.
    Orthonormalized { vectors: Vec<Vec<T>>, independent: usize },
}

/// What a [`Reply`] says, as mathematics.
pub enum ReplyView<T> {
    Matrix(MatrixView<T>),
    Factorized,
    Solution(Option<MatrixView<T>>),
    Orthonormalized { vectors: Seq<Seq<T>>, independent: nat },
}

impl<T> View for Reply<T> {
    type V = ReplyView<T>;

    open spec fn view(&self) -> ReplyView<T> {
        match *self {
            Reply::Matrix(m) => ReplyView::Matrix(m@),
            Reply::Factorized => ReplyView::Factorized,
            Reply::Solution(Some(m)) => ReplyView::Solution(Some(m@)),
            Reply::Solution(None) => ReplyView::Solution(None),
            Reply::Orthonormalized { vectors, independent } => ReplyView::Orthonormalized {
                vectors: family(vectors),
                independent: independent as nat,
            },
        }
    }
}

} // verus!
