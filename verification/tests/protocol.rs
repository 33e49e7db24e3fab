//! The state machines, step by step, with replies written by hand.

use subspace::{
    Goal, Matrix, Outcome, Progress, ProjectionError, Reply, Request, SpanTask, SubSpace, Task,
};

fn table(rows: usize, cols: usize, entries: &[i32]) -> Matrix<i32> {
    Matrix::from_column_major(rows, cols, entries.to_vec()).unwrap()
}

/// A basis of two columns in a space of dimension three.
fn basis() -> Matrix<i32> {
    table(3, 2, &[1, 2, 3, 4, 5, 6])
}

/// A batch of two vectors of dimension three.
fn input() -> Matrix<i32> {
    table(3, 2, &[10, 20, 30, 40, 50, 60])
}

fn sub_space() -> SubSpace<i32> {
    SubSpace { column_space: basis(), epsilon: 9 }
}

fn gram() -> Matrix<i32> {
    table(2, 2, &[101, 102, 103, 104])
}

fn rhs() -> Matrix<i32> {
    table(2, 2, &[201, 202, 203, 204])
}

fn coefficients() -> Matrix<i32> {
    table(2, 2, &[301, 302, 303, 304])
}

fn projection() -> Matrix<i32> {
    table(3, 2, &[401, 402, 403, 404, 405, 406])
}

fn complement() -> Matrix<i32> {
    table(3, 2, &[501, 502, 503, 504, 505, 506])
}

fn pending(step: Result<Progress<i32>, ProjectionError>) -> Task<i32> {
    match step {
        Ok(Progress::Pending(task)) => task,
        other => panic!("not pending: {:?}", other),
    }
}

fn finished(step: Result<Progress<i32>, ProjectionError>) -> Outcome<i32> {
    match step {
        Ok(Progress::Finished(outcome)) => outcome,
        other => panic!("not finished: {:?}", other),
    }
}

fn failure(step: Result<Progress<i32>, ProjectionError>) -> ProjectionError {
    match step {
        Err(e) => e,
        other => panic!("no failure: {:?}", other),
    }
}

fn assert_multiply(request: Request<'_, i32>, left: &Matrix<i32>, right: &Matrix<i32>) {
    match request {
        Request::Multiply { left: l, right: r } => {
            assert_eq!(l, left);
            assert_eq!(r, right);
        }
        other => panic!("not a product: {:?}", other),
    }
}

/// The task after the replies up to, and without, the given stage.
fn task_at(goal: Goal, stage: usize) -> Task<i32> {
    let mut task = Task::start(goal, &basis(), 9, &input()).unwrap();
    let replies = vec![
        Reply::Matrix(gram()),
        Reply::Factorized,
        Reply::Matrix(rhs()),
        Reply::Solution(Some(coefficients())),
        Reply::Matrix(projection()),
    ];
    for reply in replies.into_iter().take(stage) {
        task = pending(task.advance(reply));
    }
    task
}

#[test]
fn a_decomposition_asks_for_the_normal_equations_in_order() {
    let task = sub_space().orthogonal_decomposition(&input()).unwrap();
    assert_multiply(task.request(), &basis().transpose(), &basis());

    let task = pending(task.advance(Reply::Matrix(gram())));
    match task.request() {
        Request::Factorize { matrix, compute_u, compute_v } => {
            assert_eq!(matrix, &gram());
            assert!(compute_u);
            assert!(compute_v);
        }
        other => panic!("not a factorization: {:?}", other),
    }

    let task = pending(task.advance(Reply::Factorized));
    assert_multiply(task.request(), &basis().transpose(), &input());

    let task = pending(task.advance(Reply::Matrix(rhs())));
    match task.request() {
        Request::Solve { rhs: asked, tolerance } => {
            assert_eq!(asked, &rhs());
            assert_eq!(tolerance, 9);
        }
        other => panic!("not a solve: {:?}", other),
    }

    let task = pending(task.advance(Reply::Solution(Some(coefficients()))));
    assert_multiply(task.request(), &basis(), &coefficients());

    let task = pending(task.advance(Reply::Matrix(projection())));
    match task.request() {
        Request::Subtract { left, right } => {
            assert_eq!(left, &input());
            assert_eq!(right, &projection());
        }
        other => panic!("not a difference: {:?}", other),
    }

    let outcome = finished(task.advance(Reply::Matrix(complement())));
    assert_eq!(
        outcome,
        Outcome::Decomposition { projection: projection(), complement: complement() }
    );
}

#[test]
fn a_projection_ends_with_the_product_of_basis_and_coefficients() {
    let task = sub_space().projection(&input()).unwrap();
    assert_multiply(task.request(), &basis().transpose(), &basis());
    let task = pending(task.advance(Reply::Matrix(gram())));
    let task = pending(task.advance(Reply::Factorized));
    let task = pending(task.advance(Reply::Matrix(rhs())));
    let task = pending(task.advance(Reply::Solution(Some(coefficients()))));
    assert_multiply(task.request(), &basis(), &coefficients());
    let outcome = finished(task.advance(Reply::Matrix(projection())));
    assert_eq!(outcome, Outcome::Projection(projection()));
}

#[test]
fn a_complement_ends_with_the_difference_alone() {
    let task = sub_space().orthogonal_projection(&input()).unwrap();
    let task = pending(task.advance(Reply::Matrix(gram())));
    let task = pending(task.advance(Reply::Factorized));
    let task = pending(task.advance(Reply::Matrix(rhs())));
    let task = pending(task.advance(Reply::Solution(Some(coefficients()))));
    let task = pending(task.advance(Reply::Matrix(projection())));
    match task.request() {
        Request::Subtract { left, right } => {
            assert_eq!(left, &input());
            assert_eq!(right, &projection());
        }
        other => panic!("not a difference: {:?}", other),
    }
    let outcome = finished(task.advance(Reply::Matrix(complement())));
    assert_eq!(outcome, Outcome::Complement(complement()));
}

#[test]
fn the_entry_points_differ_in_their_goal_only() {
    for (goal, started) in [
        (Goal::Projection, sub_space().projection(&input())),
        (Goal::Complement, sub_space().orthogonal_projection(&input())),
        (Goal::Decomposition, sub_space().orthogonal_decomposition(&input())),
    ] {
        let by_goal = Task::start(goal, &basis(), 9, &input()).unwrap();
        let by_entry = started.unwrap();
        assert_eq!(format!("{:?}", by_entry), format!("{:?}", by_goal));
    }
}

#[test]
fn a_task_works_on_copies() {
    let space = sub_space();
    let x = input();
    let task = space.orthogonal_decomposition(&x).unwrap();
    drop(x);
    assert_eq!(space.column_space, basis());
    assert_eq!(space.epsilon, 9);
    assert_multiply(task.request(), &basis().transpose(), &basis());
}

#[test]
fn different_ambient_dimensions_are_a_shape_mismatch() {
    let x = table(2, 2, &[1, 2, 3, 4]);
    assert!(matches!(sub_space().projection(&x), Err(ProjectionError::ShapeMismatch)));
    assert!(matches!(sub_space().orthogonal_projection(&x), Err(ProjectionError::ShapeMismatch)));
    assert!(matches!(
        sub_space().orthogonal_decomposition(&x),
        Err(ProjectionError::ShapeMismatch)
    ));
    let x = table(4, 1, &[1, 2, 3, 4]);
    assert!(matches!(
        sub_space().orthogonal_decomposition(&x),
        Err(ProjectionError::ShapeMismatch)
    ));
}

#[test]
fn a_basis_without_columns_is_a_singular_system() {
    let space = SubSpace { column_space: table(3, 0, &[]), epsilon: 9 };
    assert!(matches!(space.projection(&input()), Err(ProjectionError::SingularSystem)));
    assert!(matches!(space.orthogonal_projection(&input()), Err(ProjectionError::SingularSystem)));
    assert!(matches!(
        space.orthogonal_decomposition(&input()),
        Err(ProjectionError::SingularSystem)
    ));
}

#[test]
fn a_shape_mismatch_is_reported_before_anything_else() {
    let space = SubSpace { column_space: table(2, 0, &[]), epsilon: 9 };
    assert!(matches!(
        space.orthogonal_decomposition(&input()),
        Err(ProjectionError::ShapeMismatch)
    ));
}

#[test]
fn an_input_without_columns_is_decomposed_into_nothing() {
    let x = table(3, 0, &[]);
    let task = sub_space().orthogonal_decomposition(&x).unwrap();
    let task = pending(task.advance(Reply::Matrix(gram())));
    let task = pending(task.advance(Reply::Factorized));
    let task = pending(task.advance(Reply::Matrix(table(2, 0, &[]))));
    let task = pending(task.advance(Reply::Solution(Some(table(2, 0, &[])))));
    let task = pending(task.advance(Reply::Matrix(table(3, 0, &[]))));
    let outcome = finished(task.advance(Reply::Matrix(table(3, 0, &[]))));
    assert_eq!(
        outcome,
        Outcome::Decomposition { projection: table(3, 0, &[]), complement: table(3, 0, &[]) }
    );
}

#[test]
fn a_solve_without_coefficients_is_a_singular_system() {
    for goal in [Goal::Projection, Goal::Complement, Goal::Decomposition] {
        let task = task_at(goal, 3);
        assert_eq!(failure(task.advance(Reply::Solution(None))), ProjectionError::SingularSystem);
    }
}

#[test]
fn a_missing_solution_is_unexpected_at_every_other_stage() {
    for stage in [0, 1, 2, 4, 5] {
        let task = task_at(Goal::Decomposition, stage);
        assert_eq!(failure(task.advance(Reply::Solution(None))), ProjectionError::UnexpectedReply);
    }
}

#[test]
fn a_reply_of_the_wrong_kind_is_unexpected() {
    // Stages that wait for a matrix.
    for stage in [0, 2, 4, 5] {
        let task = task_at(Goal::Decomposition, stage);
        assert_eq!(failure(task.advance(Reply::Factorized)), ProjectionError::UnexpectedReply);
        let task = task_at(Goal::Decomposition, stage);
        assert_eq!(
            failure(task.advance(Reply::Solution(Some(coefficients())))),
            ProjectionError::UnexpectedReply
        );
    }
    // The stage that waits for the factorization.
    let task = task_at(Goal::Decomposition, 1);
    assert_eq!(failure(task.advance(Reply::Matrix(gram()))), ProjectionError::UnexpectedReply);
    // The stage that waits for the solution.
    let task = task_at(Goal::Decomposition, 3);
    assert_eq!(
        failure(task.advance(Reply::Matrix(coefficients()))),
        ProjectionError::UnexpectedReply
    );
    let task = task_at(Goal::Decomposition, 3);
    assert_eq!(failure(task.advance(Reply::Factorized)), ProjectionError::UnexpectedReply);
    // No stage waits for an orthonormalized family.
    for stage in 0..6 {
        let task = task_at(Goal::Decomposition, stage);
        let reply = Reply::Orthonormalized { vectors: vec![vec![1, 2, 3]], independent: 1 };
        assert_eq!(failure(task.advance(reply)), ProjectionError::UnexpectedReply);
    }
}

#[test]
fn a_matrix_of_the_wrong_shape_is_unexpected() {
    let wide = table(2, 3, &[1, 2, 3, 4, 5, 6]);
    let tall = table(3, 2, &[1, 2, 3, 4, 5, 6]);
    let square = table(2, 2, &[1, 2, 3, 4]);
    let cube = table(3, 3, &[1, 2, 3, 4, 5, 6, 7, 8, 9]);
    // The Gram matrix is 2 by 2.
    for wrong in [wide.clone(), tall.clone(), cube.clone()] {
        let task = task_at(Goal::Decomposition, 0);
        assert_eq!(failure(task.advance(Reply::Matrix(wrong))), ProjectionError::UnexpectedReply);
    }
    // The right-hand side is 2 by 2.
    for wrong in [wide.clone(), tall.clone(), cube.clone()] {
        let task = task_at(Goal::Decomposition, 2);
        assert_eq!(failure(task.advance(Reply::Matrix(wrong))), ProjectionError::UnexpectedReply);
    }
    // The coefficients are 2 by 2.
    for wrong in [wide.clone(), tall.clone(), cube.clone()] {
        let task = task_at(Goal::Decomposition, 3);
        assert_eq!(
            failure(task.advance(Reply::Solution(Some(wrong)))),
            ProjectionError::UnexpectedReply
        );
    }
    // The projection and the complement are 3 by 2.
    for stage in [4, 5] {
        for wrong in [wide.clone(), square.clone(), cube.clone()] {
            let task = task_at(Goal::Decomposition, stage);
            assert_eq!(
                failure(task.advance(Reply::Matrix(wrong))),
                ProjectionError::UnexpectedReply
            );
        }
    }
}

fn span_task() -> SpanTask<i32> {
    SubSpace::span(3, vec![vec![1, 2, 3], vec![4, 5, 6], vec![7, 8, 9], vec![1, 1, 1]], 9, 0)
        .unwrap()
}

#[test]
fn span_asks_for_the_family_to_be_orthonormalized() {
    let task = span_task();
    match task.request() {
        Request::Orthonormalize { vectors } => {
            assert_eq!(
                vectors,
                &vec![vec![1, 2, 3], vec![4, 5, 6], vec![7, 8, 9], vec![1, 1, 1]]
            );
        }
        other => panic!("not an orthonormalization: {:?}", other),
    }
}

#[test]
fn span_takes_the_independent_vectors_as_leading_columns() {
    let reply = Reply::Orthonormalized {
        vectors: vec![vec![11, 12, 13], vec![21, 22, 23], vec![31, 32, 33], vec![41, 42, 43]],
        independent: 2,
    };
    let space = span_task().finish(reply).unwrap();
    assert_eq!(space.column_space, table(3, 3, &[11, 12, 13, 21, 22, 23, 0, 0, 0]));
    assert_eq!(space.epsilon, 9);
}

#[test]
fn span_of_a_full_family_fills_every_column() {
    let reply = Reply::Orthonormalized {
        vectors: vec![vec![11, 12, 13], vec![21, 22, 23], vec![31, 32, 33], vec![41, 42, 43]],
        independent: 3,
    };
    let space = span_task().finish(reply).unwrap();
    assert_eq!(space.column_space, table(3, 3, &[11, 12, 13, 21, 22, 23, 31, 32, 33]));
}

#[test]
fn span_without_independent_vectors_is_the_zero_basis() {
    let reply = Reply::Orthonormalized {
        vectors: vec![vec![11, 12, 13], vec![21, 22, 23], vec![31, 32, 33], vec![41, 42, 43]],
        independent: 0,
    };
    let space = span_task().finish(reply).unwrap();
    assert_eq!(space.column_space, table(3, 3, &[0, 0, 0, 0, 0, 0, 0, 0, 0]));

    let empty = SubSpace::span(2, Vec::<Vec<i32>>::new(), 9, 0).unwrap();
    let space = empty.finish(Reply::Orthonormalized { vectors: Vec::new(), independent: 0 }).unwrap();
    assert_eq!(space.column_space, table(2, 2, &[0, 0, 0, 0]));
}

#[test]
fn span_fills_with_the_zero_it_was_given() {
    let task = SubSpace::span(2, vec![vec![1, 2]], 9, -7).unwrap();
    let reply = Reply::Orthonormalized { vectors: vec![vec![3, 4]], independent: 1 };
    assert_eq!(task.finish(reply).unwrap().column_space, table(2, 2, &[3, 4, -7, -7]));
}

#[test]
fn span_rejects_vectors_of_another_dimension() {
    assert!(matches!(
        SubSpace::span(3, vec![vec![1, 2, 3], vec![4, 5]], 9, 0),
        Err(ProjectionError::ShapeMismatch)
    ));
    assert!(matches!(
        SubSpace::span(3, vec![vec![1, 2, 3, 4]], 9, 0),
        Err(ProjectionError::ShapeMismatch)
    ));
    assert!(matches!(
        SubSpace::span(0, vec![vec![1]], 9, 0),
        Err(ProjectionError::ShapeMismatch)
    ));
}

#[test]
fn span_rejects_replies_that_do_not_fit() {
    let family = vec![vec![11, 12, 13], vec![21, 22, 23], vec![31, 32, 33], vec![41, 42, 43]];
    // Another kind of reply.
    assert_eq!(span_task().finish(Reply::Factorized), Err(ProjectionError::UnexpectedReply));
    assert_eq!(
        span_task().finish(Reply::Matrix(table(3, 3, &[0; 9]))),
        Err(ProjectionError::UnexpectedReply)
    );
    assert_eq!(span_task().finish(Reply::Solution(None)), Err(ProjectionError::UnexpectedReply));
    // A family of another size.
    let reply = Reply::Orthonormalized { vectors: family[..3].to_vec(), independent: 2 };
    assert_eq!(span_task().finish(reply), Err(ProjectionError::UnexpectedReply));
    // More independent vectors than the dimension, or than the family.
    let reply = Reply::Orthonormalized { vectors: family.clone(), independent: 4 };
    assert_eq!(span_task().finish(reply), Err(ProjectionError::UnexpectedReply));
    let reply = Reply::Orthonormalized { vectors: family.clone(), independent: 5 };
    assert_eq!(span_task().finish(reply), Err(ProjectionError::UnexpectedReply));
    // An independent vector of another dimension.
    let mut ragged = family.clone();
    ragged[1] = vec![21, 22];
    let reply = Reply::Orthonormalized { vectors: ragged, independent: 2 };
    assert_eq!(span_task().finish(reply), Err(ProjectionError::UnexpectedReply));
}

#[test]
fn span_reads_the_independent_vectors_only() {
    let mut family = vec![vec![11, 12, 13], vec![21, 22, 23], vec![31, 32, 33], vec![41, 42, 43]];
    family[3] = vec![0];
    let reply = Reply::Orthonormalized { vectors: family, independent: 2 };
    let space = span_task().finish(reply).unwrap();
    assert_eq!(space.column_space, table(3, 3, &[11, 12, 13, 21, 22, 23, 0, 0, 0]));
}

#[test]
fn a_sub_space_clones_into_an_equal_one() {
    let space = sub_space();
    assert_eq!(space.clone(), space);
}
