use parasail_rs::matrix::{indices_are_valid, Error, Matrix};

#[test]
fn create_custom_matrix() {
    assert!(Matrix::create(b"ACGT", 3, -2).is_ok())
}

#[test]
fn create_round_trip() {
    // Every diagonal in-alphabet cell reads back the match score, every
    // off-diagonal in-alphabet cell the mismatch score.
    let m = Matrix::create(b"ACGT", 3, -2).unwrap();
    assert_eq!(m.size(), 5);
    assert_eq!(m.length(), 5);
    for row in 0..4 {
        for col in 0..4 {
            let expected = if row == col { 3 } else { -2 };
            assert_eq!(m.get_value(row, col).unwrap(), expected);
        }
    }
}

#[test]
fn default_matrix_is_dna_identity() {
    let m = Matrix::default();
    assert!(!m.is_builtin());
    assert_eq!(m.size(), 5);
    for row in 0..4 {
        for col in 0..4 {
            let expected = if row == col { 1 } else { -1 };
            assert_eq!(m.get_value(row, col).unwrap(), expected);
        }
    }
}

#[test]
fn create_rejects_interior_nul() {
    let err = Matrix::create(b"AC\x00GT", 1, -1).unwrap_err();
    assert_eq!(err, Error::InteriorNul { pos: 2 });
}

#[test]
fn edit_custom_matrix() {
    let mut custom_dna = Matrix::default();
    custom_dna.set_value(0, 0, 3).unwrap();
    assert_eq!(custom_dna.get_value(0, 0).unwrap(), 3);
    // The other cells are untouched.
    assert_eq!(custom_dna.get_value(1, 1).unwrap(), 1);
    assert_eq!(custom_dna.get_value(0, 1).unwrap(), -1);
}

#[test]
fn edit_builtin_is_copy_on_write() {
    // A stand-in for a backend-static table: 2x2 over one symbol.
    let table = vec![vec![7, 0], vec![0, 0]];
    let builtin = Matrix::builtin("tiny", 2, 2, table).unwrap();
    assert!(builtin.is_builtin());

    let mut edited = builtin.clone();
    edited.set_value(0, 0, 100).unwrap();

    // The edited copy is owned and carries the new value; the original
    // still answers the old one.
    assert!(!edited.is_builtin());
    assert_eq!(edited.get_value(0, 0).unwrap(), 100);
    assert!(builtin.is_builtin());
    assert_eq!(builtin.get_value(0, 0).unwrap(), 7);
}

#[test]
fn invalid_indices_are_refused() {
    let m = Matrix::default();
    assert_eq!(m.get_value(-1, 0).unwrap_err(), Error::InvalidIndex { row: -1, col: 0 });
    assert_eq!(m.get_value(0, 4).unwrap_err(), Error::InvalidIndex { row: 0, col: 4 });
    assert_eq!(m.get_value(4, 0).unwrap_err(), Error::InvalidIndex { row: 4, col: 0 });

    let mut m = Matrix::default();
    assert_eq!(m.set_value(5, 1, 9).unwrap_err(), Error::InvalidIndex { row: 5, col: 1 });
    // A refused write leaves the matrix untouched.
    assert_eq!(m.get_value(1, 1).unwrap(), 1);
}

#[test]
fn indices_are_valid_bounds() {
    assert!(indices_are_valid(3, 0, 0).is_ok());
    assert!(indices_are_valid(3, 3, 3).is_ok());
    assert_eq!(indices_are_valid(3, 4, 0).unwrap_err(), Error::InvalidIndex { row: 4, col: 0 });
    assert_eq!(indices_are_valid(3, 0, -1).unwrap_err(), Error::InvalidIndex { row: 0, col: -1 });
}

#[test]
fn create_pssm_values() {
    // Two rows over a two-symbol alphabet, read row by row.
    let m = Matrix::create_pssm(b"ab", vec![1, 2, 3, 4], 2).unwrap();
    assert!(!m.is_builtin());
    assert_eq!(m.size(), 3);
    assert_eq!(m.length(), 2);
    assert_eq!(m.get_value(0, 0).unwrap(), 1);
    assert_eq!(m.get_value(0, 1).unwrap(), 2);
    assert_eq!(m.get_value(1, 0).unwrap(), 3);
    assert_eq!(m.get_value(1, 1).unwrap(), 4);
}

#[test]
fn create_pssm_rejects_bad_shapes() {
    assert!(matches!(
        Matrix::create_pssm(b"ab", vec![1, 2], 0),
        Err(Error::PSSMCreationFailed { .. })
    ));
    assert!(matches!(
        Matrix::create_pssm(b"ab", vec![1, 2, 3], 2),
        Err(Error::PSSMCreationFailed { .. })
    ));
    assert!(matches!(
        Matrix::create_pssm(b"a\x00", vec![1, 2], 1),
        Err(Error::InteriorNul { pos: 1 })
    ));
}

#[test]
fn wildcard_score_is_least_value() {
    assert_eq!(Matrix::wildcard_score(&vec![3, -5, 2]), -5);
    assert_eq!(Matrix::wildcard_score(&vec![7]), 7);
    assert_eq!(Matrix::wildcard_score(&Vec::new()), i32::MAX);
}

#[test]
fn builtin_rejects_malformed_tables() {
    let err = Matrix::builtin("short", 2, 2, vec![vec![1, 2]]).unwrap_err();
    assert_eq!(err, Error::MatrixLookupFailed { matrix_name: String::from("short") });
    let err = Matrix::builtin("ragged", 2, 2, vec![vec![1, 2], vec![3]]).unwrap_err();
    assert_eq!(err, Error::MatrixLookupFailed { matrix_name: String::from("ragged") });
}
