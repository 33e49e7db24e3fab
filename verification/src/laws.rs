//! What the state machines do, whoever the collaborator is.
//!
//! The first laws speak of single steps. The others run a machine against
//! a [`Collaborator`], and hold for every collaborator that meets what
//! they require of it.

use vstd::prelude::*;
use crate::collaborator::{ReplyView, RequestView};
use crate::error::ProjectionError;
use crate::matrix::{leading_columns_fit, MatrixView};
use crate::model::{Goal, OutcomeView, ProgressView, SpanTaskView, SubSpaceView, TaskView};
use crate::oracle::Collaborator;

verus! {

/// The transpose of a well-formed matrix is well formed, with the two
/// dimensions exchanged.
proof fn lemma_transposed_shape<T>(m: MatrixView<T>)
    requires
        m.wf(),
    ensures
        m.transposed().has_shape(m.cols(), m.rows),
{
}

/// A decomposition can start exactly when basis and input share the
/// ambient dimension and the basis has a column. Where they do not share
/// the dimension, that is a `ShapeMismatch`, whatever else holds; a basis
/// without columns is a `SingularSystem`. A task that has started
/// satisfies the invariant, and five requests lie before it, or six where
/// the complement is wanted.
pub proof fn law_start<T>(goal: Goal, basis: MatrixView<T>, tolerance: T, input: MatrixView<T>)
    requires
        basis.wf(),
        input.wf(),
    ensures
        TaskView::start(goal, basis, tolerance, input) is Ok <==> basis.rows == input.rows
            && basis.cols() >= 1,
        TaskView::start(goal, basis, tolerance, input) == Err::<TaskView<T>, ProjectionError>(
            ProjectionError::ShapeMismatch,
        ) <==> basis.rows != input.rows,
        TaskView::start(goal, basis, tolerance, input) == Err::<TaskView<T>, ProjectionError>(
            ProjectionError::SingularSystem,
        ) <==> basis.rows == input.rows && basis.cols() == 0,
        TaskView::start(goal, basis, tolerance, input) matches Ok(task) ==> {
            &&& task.inv()
            &&& task.goal == goal
            &&& task.basis == basis
            &&& task.input == input
            &&& task.tolerance == tolerance
            &&& task.remaining() == if goal == Goal::Projection {
                5nat
            } else {
                6nat
            }
        },
{
}

/// A step keeps the invariant, and changes nothing of a task but its stage;
/// each step leaves one request less to answer.
pub proof fn law_advance_keeps_invariant<T>(task: TaskView<T>, reply: ReplyView<T>)
    requires
        task.inv(),
    ensures
        task.advance(reply) matches Ok(ProgressView::Pending(next)) ==> next.inv() && next
            == task.at_stage(next.stage) && next.remaining() + 1 == task.remaining(),
{
}

/// Every request that a task makes can be carried out: its operands
/// conform. A factorization is asked for with both families of singular
/// vectors retained.
pub proof fn law_requests_conform<T>(task: TaskView<T>)
    requires
        task.inv(),
    ensures
        task.request().conforms(task.order()),
        task.request() matches RequestView::Factorize { matrix, compute_u, compute_v }
            ==> compute_u && compute_v,
{
    lemma_transposed_shape(task.basis);
}

/// Whatever a finished task delivers has the shape of the input.
pub proof fn law_outcome_has_input_shape<T>(task: TaskView<T>, reply: ReplyView<T>)
    requires
        task.inv(),
    ensures
        task.advance(reply) matches Ok(ProgressView::Finished(outcome)) ==> outcome.shaped(
            task.input.rows,
            task.input.cols(),
        ),
{
}

/// A step fails with `UnexpectedReply` exactly on the replies that the
/// task does not accept, and with `SingularSystem` exactly when the solve
/// it asked for came back without coefficients. It succeeds on every other
/// reply.
pub proof fn law_errors<T>(task: TaskView<T>, reply: ReplyView<T>)
    ensures
        task.advance(reply) == Err::<ProgressView<T>, ProjectionError>(
            ProjectionError::UnexpectedReply,
        ) <==> !task.accepts(reply),
        task.advance(reply) == Err::<ProgressView<T>, ProjectionError>(
            ProjectionError::SingularSystem,
        ) <==> task.stage is Solution && reply == ReplyView::<T>::Solution(None),
        task.advance(reply) is Ok <==> task.accepts(reply) && reply != ReplyView::<T>::Solution(
            None,
        ),
        task.advance(reply) != Err::<ProgressView<T>, ProjectionError>(
            ProjectionError::ShapeMismatch,
        ),
{
}

/// Against a collaborator that keeps shapes, a decomposition delivers the
/// solution of the normal equations: the projection is `B c` for the
/// coefficients `c` that the solve of `(Bᵗ B) c = Bᵗ x` gives, the
/// complement is `x - B c`, and the error is `SingularSystem` where the
/// solve gives none.
pub proof fn law_decomposition<T>(
    c: Collaborator<T>,
    goal: Goal,
    basis: MatrixView<T>,
    tolerance: T,
    input: MatrixView<T>,
)
    requires
        c.keeps_shapes(),
        basis.wf(),
        input.wf(),
    ensures
        c.decompose(goal, basis, tolerance, input) == c.decomposition(
            goal,
            basis,
            tolerance,
            input,
        ),
{
    if basis.rows == input.rows && basis.cols() >= 1 {
        lemma_transposed_shape(basis);
        reveal_with_fuel(Collaborator::run, 8);
        let basis_t = basis.transposed();
        let gram = (c.multiply)(basis_t, basis);
        let rhs = (c.multiply)(basis_t, input);
        assert(gram.has_shape(basis.cols(), basis.cols()));
        assert(rhs.has_shape(basis.cols(), input.cols()));
        match (c.solve)(gram, rhs, tolerance) {
            Some(coefficients) => {
                assert(coefficients.has_shape(basis.cols(), input.cols()));
                let projection = (c.multiply)(basis, coefficients);
                assert(projection.has_shape(basis.rows, input.cols()));
                let complement = (c.subtract)(input, projection);
                assert(complement.has_shape(input.rows, input.cols()));
            },
            None => {},
        }
    }
}

/// Against a collaborator that keeps shapes, the three operations agree.
/// Each of them fails exactly when the others do, with the same error.
/// Where they succeed, the decomposition delivers the projection that the
/// projection alone delivers and the complement that the complement alone
/// delivers, and the complement is the difference of the input and that
/// projection.
pub proof fn law_operations_agree<T>(
    c: Collaborator<T>,
    basis: MatrixView<T>,
    tolerance: T,
    input: MatrixView<T>,
)
    requires
        c.keeps_shapes(),
        basis.wf(),
        input.wf(),
    ensures
        match c.decompose(Goal::Decomposition, basis, tolerance, input) {
            Ok(outcome) => {
                &&& outcome matches OutcomeView::Decomposition { projection, complement }
                &&& c.decompose(Goal::Projection, basis, tolerance, input) == Ok::<
                    OutcomeView<T>,
                    ProjectionError,
                >(OutcomeView::Projection(projection))
                &&& c.decompose(Goal::Complement, basis, tolerance, input) == Ok::<
                    OutcomeView<T>,
                    ProjectionError,
                >(OutcomeView::Complement(complement))
                &&& complement == (c.subtract)(input, projection)
            },
            Err(e) => {
                &&& c.decompose(Goal::Projection, basis, tolerance, input) == Err::<
                    OutcomeView<T>,
                    ProjectionError,
                >(e)
                &&& c.decompose(Goal::Complement, basis, tolerance, input) == Err::<
                    OutcomeView<T>,
                    ProjectionError,
                >(e)
            },
        },
{
    law_decomposition(c, Goal::Projection, basis, tolerance, input);
    law_decomposition(c, Goal::Complement, basis, tolerance, input);
    law_decomposition(c, Goal::Decomposition, basis, tolerance, input);
}

/// Against a collaborator that keeps shapes, a decomposition makes exactly
/// the requests of the normal equations, in their order. Whatever the
/// goal and however many columns the input has, one matrix is factorized
/// and one system is solved.
pub proof fn law_operations<T>(
    c: Collaborator<T>,
    goal: Goal,
    basis: MatrixView<T>,
    tolerance: T,
    input: MatrixView<T>,
)
    requires
        c.keeps_shapes(),
        basis.wf(),
        input.wf(),
        basis.rows == input.rows,
        basis.cols() >= 1,
    ensures
        c.requests(TaskView::start(goal, basis, tolerance, input).unwrap(), None) == c.operations(
            goal,
            basis,
            tolerance,
            input,
        ),
{
    lemma_transposed_shape(basis);
    reveal_with_fuel(Collaborator::requests, 8);
    let basis_t = basis.transposed();
    let gram = (c.multiply)(basis_t, basis);
    let rhs = (c.multiply)(basis_t, input);
    assert(gram.has_shape(basis.cols(), basis.cols()));
    assert(rhs.has_shape(basis.cols(), input.cols()));
    match (c.solve)(gram, rhs, tolerance) {
        Some(coefficients) => {
            assert(coefficients.has_shape(basis.cols(), input.cols()));
            let projection = (c.multiply)(basis, coefficients);
            assert(projection.has_shape(basis.rows, input.cols()));
            let complement = (c.subtract)(input, projection);
            assert(complement.has_shape(input.rows, input.cols()));
        },
        None => {},
    }
    assert(c.requests(TaskView::start(goal, basis, tolerance, input).unwrap(), None)
        =~= c.operations(goal, basis, tolerance, input));
}

/// Where adding back what was subtracted restores a matrix, the two parts
/// of a decomposition sum to the input.
pub proof fn law_completeness<T>(
    c: Collaborator<T>,
    basis: MatrixView<T>,
    tolerance: T,
    input: MatrixView<T>,
)
    requires
        c.keeps_shapes(),
        c.restores(),
        basis.wf(),
        input.wf(),
    ensures
        c.decompose(Goal::Decomposition, basis, tolerance, input) matches Ok(
            OutcomeView::Decomposition { projection, complement },
        ) ==> (c.add)(projection, complement) == input,
{
    law_decomposition(c, Goal::Decomposition, basis, tolerance, input);
    if basis.rows == input.rows && basis.cols() >= 1 {
        lemma_transposed_shape(basis);
        let gram = (c.multiply)(basis.transposed(), basis);
        let rhs = (c.multiply)(basis.transposed(), input);
        assert(gram.has_shape(basis.cols(), basis.cols()));
        assert(rhs.has_shape(basis.cols(), input.cols()));
        match (c.solve)(gram, rhs, tolerance) {
            Some(coefficients) => {
                assert(coefficients.has_shape(basis.cols(), input.cols()));
                assert((c.multiply)(basis, coefficients).has_shape(basis.rows, input.cols()));
            },
            None => {},
        }
    }
}

/// Where products are associative and the coefficients found satisfy the
/// normal equations exactly, projecting a projection gives it back.
pub proof fn law_idempotence<T>(
    c: Collaborator<T>,
    basis: MatrixView<T>,
    tolerance: T,
    input: MatrixView<T>,
)
    requires
        c.keeps_shapes(),
        c.associates(),
        c.solves(basis, tolerance, input),
        basis.wf(),
        input.wf(),
    ensures
        c.decompose(Goal::Projection, basis, tolerance, input) matches Ok(
            OutcomeView::Projection(projection),
        ) ==> c.decompose(Goal::Projection, basis, tolerance, projection) == Ok::<
            OutcomeView<T>,
            ProjectionError,
        >(OutcomeView::Projection(projection)),
{
    law_decomposition(c, Goal::Projection, basis, tolerance, input);
    if basis.rows == input.rows && basis.cols() >= 1 {
        lemma_transposed_shape(basis);
        let basis_t = basis.transposed();
        let gram = (c.multiply)(basis_t, basis);
        let rhs = (c.multiply)(basis_t, input);
        assert(gram.has_shape(basis.cols(), basis.cols()));
        assert(rhs.has_shape(basis.cols(), input.cols()));
        match (c.solve)(gram, rhs, tolerance) {
            Some(coefficients) => {
                assert(coefficients.has_shape(basis.cols(), input.cols()));
                let projection = (c.multiply)(basis, coefficients);
                assert(projection.has_shape(basis.rows, input.cols()));
                law_decomposition(c, Goal::Projection, basis, tolerance, projection);
                // Bᵗ (B c) = (Bᵗ B) c = Bᵗ x: the same system is solved again.
                assert((c.multiply)(basis_t, projection) == (c.multiply)(gram, coefficients));
                assert((c.multiply)(basis_t, projection) == rhs);
            },
            None => {},
        }
    }
}

/// Where products are associative and distribute over differences, the
/// difference of a matrix and itself is zero, and the coefficients found
/// satisfy the normal equations exactly, the complement is orthogonal to
/// every column of the basis: its products with them are all zero.
pub proof fn law_orthogonality<T>(
    c: Collaborator<T>,
    basis: MatrixView<T>,
    tolerance: T,
    input: MatrixView<T>,
)
    requires
        c.keeps_shapes(),
        c.associates(),
        c.distributes(),
        c.cancels(),
        c.solves(basis, tolerance, input),
        basis.wf(),
        input.wf(),
    ensures
        c.decompose(Goal::Complement, basis, tolerance, input) matches Ok(
            OutcomeView::Complement(complement),
        ) ==> (c.multiply)(basis.transposed(), complement) == MatrixView::filled(
            basis.cols(),
            input.cols(),
            c.zero,
        ),
{
    law_decomposition(c, Goal::Complement, basis, tolerance, input);
    if basis.rows == input.rows && basis.cols() >= 1 {
        lemma_transposed_shape(basis);
        let basis_t = basis.transposed();
        let gram = (c.multiply)(basis_t, basis);
        let rhs = (c.multiply)(basis_t, input);
        assert(gram.has_shape(basis.cols(), basis.cols()));
        assert(rhs.has_shape(basis.cols(), input.cols()));
        match (c.solve)(gram, rhs, tolerance) {
            Some(coefficients) => {
                assert(coefficients.has_shape(basis.cols(), input.cols()));
                let projection = (c.multiply)(basis, coefficients);
                assert(projection.has_shape(basis.rows, input.cols()));
                let complement = (c.subtract)(input, projection);
                // Bᵗ (x - B c) = Bᵗ x - (Bᵗ B) c = Bᵗ x - Bᵗ x.
                assert((c.multiply)(basis_t, complement) == (c.subtract)(
                    rhs,
                    (c.multiply)(basis_t, projection),
                ));
                assert((c.multiply)(basis_t, projection) == (c.multiply)(gram, coefficients));
                assert((c.subtract)(rhs, rhs) == MatrixView::filled(rhs.rows, rhs.cols(), c.zero));
            },
            None => {},
        }
    }
}

/// One column of a well-formed matrix is a well-formed matrix of one
/// column and as many rows.
proof fn lemma_single_shape<T>(m: MatrixView<T>, j: int)
    requires
        m.wf(),
        0 <= j < m.cols(),
    ensures
        m.single(j).has_shape(m.rows, 1),
{
}

/// Against a collaborator that keeps shapes and treats the columns of a
/// batch one by one, decomposing a batch gives, column by column, what
/// decomposing each column alone gives.
pub proof fn law_batch_by_columns<T>(
    c: Collaborator<T>,
    goal: Goal,
    basis: MatrixView<T>,
    tolerance: T,
    input: MatrixView<T>,
    j: int,
)
    requires
        c.keeps_shapes(),
        c.acts_by_columns(),
        basis.wf(),
        input.wf(),
        0 <= j < input.cols(),
    ensures
        c.decompose(goal, basis, tolerance, input.single(j)) == match c.decompose(
            goal,
            basis,
            tolerance,
            input,
        ) {
            Ok(outcome) => Ok(outcome.single(j)),
            Err(e) => Err(e),
        },
{
    lemma_single_shape(input, j);
    law_decomposition(c, goal, basis, tolerance, input);
    law_decomposition(c, goal, basis, tolerance, input.single(j));
    if basis.rows == input.rows && basis.cols() >= 1 {
        lemma_transposed_shape(basis);
        let basis_t = basis.transposed();
        let gram = (c.multiply)(basis_t, basis);
        let rhs = (c.multiply)(basis_t, input);
        assert(gram.has_shape(basis.cols(), basis.cols()));
        assert(rhs.has_shape(basis.cols(), input.cols()));
        assert((c.multiply)(basis_t, input.single(j)) == rhs.single(j));
        assert((c.solve)(gram, rhs.single(j), tolerance) == match (c.solve)(gram, rhs, tolerance) {
            Some(k) => Some(k.single(j)),
            None => None,
        });
        match (c.solve)(gram, rhs, tolerance) {
            Some(coefficients) => {
                assert(coefficients.has_shape(basis.cols(), input.cols()));
                let projection = (c.multiply)(basis, coefficients);
                assert(projection.has_shape(basis.rows, input.cols()));
                assert((c.multiply)(basis, coefficients.single(j)) == projection.single(j));
                assert((c.subtract)(input.single(j), projection.single(j)) == (c.subtract)(
                    input,
                    projection,
                ).single(j));
            },
            None => {},
        }
    }
}

/// The family that a construction sends to be orthonormalized is the one
/// it was begun with, and its members have one size.
pub proof fn law_span_request<T>(dimension: nat, vectors: Seq<Seq<T>>, tolerance: T, zero: T)
    ensures
        SpanTaskView::start(dimension, vectors, tolerance, zero) matches Ok(task) ==> task.inv()
            && task.request() == (RequestView::Orthonormalize { vectors }) && task.request().conforms(
            dimension,
        ),
        SpanTaskView::start(dimension, vectors, tolerance, zero) is Err
            ==> SpanTaskView::start(dimension, vectors, tolerance, zero) == Err::<
            SpanTaskView<T>,
            ProjectionError,
        >(ProjectionError::ShapeMismatch) && exists|i: int|
            0 <= i < vectors.len() && (#[trigger] vectors[i]).len() != dimension,
{
}

/// The construction of a subspace succeeds exactly on the replies that it
/// accepts. The basis it builds is square, of the ambient dimension; its
/// leading columns are the independent members of the orthonormalized
/// family, in their order, and every entry of its other columns is zero.
/// The tolerance is the one that the construction was begun with.
pub proof fn law_span<T>(task: SpanTaskView<T>, reply: ReplyView<T>)
    ensures
        task.finish(reply) is Ok <==> task.accepts(reply),
        !task.accepts(reply) ==> task.finish(reply) == Err::<SubSpaceView<T>, ProjectionError>(
            ProjectionError::UnexpectedReply,
        ),
        task.finish(reply) matches Ok(subspace) ==> {
            &&& subspace.tolerance == task.tolerance
            &&& subspace.basis.has_shape(task.dimension, task.dimension)
            &&& reply matches ReplyView::Orthonormalized { vectors, independent }
            &&& forall|j: int|
                0 <= j < independent ==> #[trigger] subspace.basis.columns[j] == vectors[j]
            &&& forall|i: int, j: int|
                0 <= i < task.dimension && independent <= j < task.dimension
                    ==> #[trigger] subspace.basis.at(i, j) == task.zero
        },
{
}

/// Against a collaborator whose orthonormalization keeps families, the
/// subspace spanned by vectors of the ambient dimension is built from what
/// the orthonormalization of these vectors gives; vectors of another
/// dimension are a `ShapeMismatch`.
pub proof fn law_span_of_family<T>(
    c: Collaborator<T>,
    dimension: nat,
    vectors: Seq<Seq<T>>,
    tolerance: T,
    zero: T,
)
    requires
        c.keeps_families(),
    ensures
        c.span(dimension, vectors, tolerance, zero) == if forall|i: int|
            0 <= i < vectors.len() ==> (#[trigger] vectors[i]).len() == dimension {
            Ok(
                SubSpaceView {
                    basis: MatrixView::with_leading_columns(
                        dimension,
                        dimension,
                        (c.orthonormalize)(vectors).0,
                        (c.orthonormalize)(vectors).1,
                        zero,
                    ),
                    tolerance,
                },
            )
        } else {
            Err(ProjectionError::ShapeMismatch)
        },
{
    if forall|i: int| 0 <= i < vectors.len() ==> (#[trigger] vectors[i]).len() == dimension {
        assert(leading_columns_fit(
            dimension,
            dimension,
            (c.orthonormalize)(vectors).0,
            (c.orthonormalize)(vectors).1,
        ));
    }
}

} // verus!
