//! Decompositions carried out in exact integer arithmetic, for bases whose
//! Gram matrix is diagonal and whose coefficients are integers.

use subspace::{Matrix, Outcome, Progress, ProjectionError, Reply, Request, SubSpace, Task};

fn table(rows: usize, cols: usize, entries: &[i64]) -> Matrix<i64> {
    Matrix::from_column_major(rows, cols, entries.to_vec()).unwrap()
}

fn multiply(left: &Matrix<i64>, right: &Matrix<i64>) -> Matrix<i64> {
    assert_eq!(left.ncols(), right.nrows());
    let mut entries = Vec::new();
    for j in 0..right.ncols() {
        for i in 0..left.nrows() {
            let mut sum = 0;
            for k in 0..left.ncols() {
                sum += left.get(i, k).unwrap() * right.get(k, j).unwrap();
            }
            entries.push(sum);
        }
    }
    table(left.nrows(), right.ncols(), &entries)
}

fn subtract(left: &Matrix<i64>, right: &Matrix<i64>) -> Matrix<i64> {
    assert_eq!((left.nrows(), left.ncols()), (right.nrows(), right.ncols()));
    let entries: Vec<i64> = left
        .as_column_major()
        .iter()
        .zip(right.as_column_major())
        .map(|(l, r)| l - r)
        .collect();
    table(left.nrows(), left.ncols(), &entries)
}

/// Solves a diagonal system. A diagonal entry that is not above the
/// tolerance counts as zero, and so does the coefficient that belongs to it.
fn solve(diagonal: &Matrix<i64>, rhs: &Matrix<i64>, tolerance: i64) -> Option<Matrix<i64>> {
    if tolerance < 0 {
        return None;
    }
    let mut entries = Vec::new();
    for j in 0..rhs.ncols() {
        for i in 0..rhs.nrows() {
            let pivot = diagonal.get(i, i).unwrap();
            let value = rhs.get(i, j).unwrap();
            if pivot > tolerance {
                assert_eq!(value % pivot, 0);
                entries.push(value / pivot);
            } else {
                entries.push(0);
            }
        }
    }
    Some(table(rhs.nrows(), rhs.ncols(), &entries))
}

fn run(started: Result<Task<i64>, ProjectionError>) -> Result<Outcome<i64>, ProjectionError> {
    let mut task = started?;
    let mut factorized: Option<Matrix<i64>> = None;
    let mut requests = 0;
    loop {
        requests += 1;
        assert!(requests <= 6);
        let reply = match task.request() {
            Request::Multiply { left, right } => Reply::Matrix(multiply(left, right)),
            Request::Subtract { left, right } => Reply::Matrix(subtract(left, right)),
            Request::Factorize { matrix, compute_u, compute_v } => {
                assert!(compute_u && compute_v);
                assert_eq!(matrix.nrows(), matrix.ncols());
                factorized = Some(matrix.clone());
                Reply::Factorized
            }
            Request::Solve { rhs, tolerance } => {
                Reply::Solution(solve(factorized.as_ref().unwrap(), rhs, tolerance))
            }
            Request::Orthonormalize { .. } => unreachable!(),
        };
        match task.advance(reply)? {
            Progress::Pending(next) => task = next,
            Progress::Finished(outcome) => return Ok(outcome),
        }
    }
}

/// The plane of the first and the third axis, by columns of lengths 1 and 2
/// and a zero column.
fn plane() -> SubSpace<i64> {
    SubSpace { column_space: table(3, 3, &[1, 0, 0, 0, 0, 0, 0, 0, 2]), epsilon: 0 }
}

fn input() -> Matrix<i64> {
    table(3, 2, &[3, 5, 8, -7, 11, 0])
}

#[test]
fn exact_arithmetic_gives_the_exact_parts() {
    let outcome = run(plane().orthogonal_decomposition(&input())).unwrap();
    assert_eq!(
        outcome,
        Outcome::Decomposition {
            projection: table(3, 2, &[3, 0, 8, -7, 0, 0]),
            complement: table(3, 2, &[0, 5, 0, 0, 11, 0]),
        }
    );
    assert_eq!(
        run(plane().projection(&input())),
        Ok(Outcome::Projection(table(3, 2, &[3, 0, 8, -7, 0, 0])))
    );
    assert_eq!(
        run(plane().orthogonal_projection(&input())),
        Ok(Outcome::Complement(table(3, 2, &[0, 5, 0, 0, 11, 0])))
    );
}

#[test]
fn exact_parts_sum_to_the_input() {
    match run(plane().orthogonal_decomposition(&input())).unwrap() {
        Outcome::Decomposition { projection, complement } => {
            let sum: Vec<i64> = projection
                .as_column_major()
                .iter()
                .zip(complement.as_column_major())
                .map(|(p, c)| p + c)
                .collect();
            assert_eq!(&sum, input().as_column_major());
        }
        other => panic!("no decomposition: {:?}", other),
    }
}

#[test]
fn an_exact_projection_projects_onto_itself() {
    let once = match run(plane().projection(&input())).unwrap() {
        Outcome::Projection(p) => p,
        other => panic!("no projection: {:?}", other),
    };
    assert_eq!(run(plane().projection(&once)), Ok(Outcome::Projection(once.clone())));
}

#[test]
fn an_exact_complement_has_no_share_along_the_basis() {
    let complement = match run(plane().orthogonal_projection(&input())).unwrap() {
        Outcome::Complement(c) => c,
        other => panic!("no complement: {:?}", other),
    };
    let products = multiply(&plane().column_space.transpose(), &complement);
    assert_eq!(products, table(3, 2, &[0; 6]));
}

#[test]
fn an_exact_batch_decomposes_column_by_column() {
    let whole = run(plane().orthogonal_decomposition(&input())).unwrap();
    let (projection, complement) = match whole {
        Outcome::Decomposition { projection, complement } => (projection, complement),
        other => panic!("no decomposition: {:?}", other),
    };
    for j in 0..2 {
        let alone = table(3, 1, &input().as_column_major()[3 * j..3 * j + 3]);
        assert_eq!(
            run(plane().orthogonal_decomposition(&alone)),
            Ok(Outcome::Decomposition {
                projection: table(3, 1, &projection.as_column_major()[3 * j..3 * j + 3]),
                complement: table(3, 1, &complement.as_column_major()[3 * j..3 * j + 3]),
            })
        );
    }
}

#[test]
fn a_refused_tolerance_is_a_singular_system() {
    let space = SubSpace { column_space: table(3, 1, &[0, 2, 0]), epsilon: -1 };
    assert_eq!(run(space.orthogonal_decomposition(&input())), Err(ProjectionError::SingularSystem));
}
