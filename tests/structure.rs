use rest_dftd4::{DFTD4Error, DFTD4Structure, StructureInput};

fn local_message(r: Result<StructureInput, DFTD4Error>) -> String {
    match r {
        Err(DFTD4Error::Rust(m)) => m,
        Err(DFTD4Error::C(_)) => panic!("expected a local failure"),
        Ok(_) => panic!("expected a failure"),
    }
}

fn water() -> DFTD4Structure {
    let input = DFTD4Structure::prepare_new(3, &[8, 1, 1], 9, None).unwrap();
    DFTD4Structure::from_native(0x1000, &input)
}

#[test]
fn new_structure_with_short_numbers_fails_locally() {
    let m = local_message(DFTD4Structure::prepare_new(3, &[8, 1], 9, None));
    assert_eq!(m, "Invalid dimension for numbers, expected 3, got 2");
}

#[test]
fn new_structure_with_long_numbers_fails_locally() {
    let m = local_message(DFTD4Structure::prepare_new(0, &[1], 0, None));
    assert_eq!(m, "Invalid dimension for numbers, expected 0, got 1");
}

#[test]
fn new_structure_with_wrong_positions_fails_locally() {
    let m = local_message(DFTD4Structure::prepare_new(3, &[8, 1, 1], 8, None));
    assert_eq!(m, "Invalid dimension for positions, expected 9, got 8");
}

#[test]
fn new_structure_with_wrong_lattice_fails_locally() {
    let m = local_message(DFTD4Structure::prepare_new(2, &[1, 1], 6, Some(6)));
    assert_eq!(m, "Invalid dimension for lattice, expected 9, got 6");
}

#[test]
fn numbers_are_checked_before_positions() {
    let m = local_message(DFTD4Structure::prepare_new(4, &[1, 1], 1, Some(2)));
    assert_eq!(m, "Invalid dimension for numbers, expected 4, got 2");
}

#[test]
fn new_structure_marshals_numbers() {
    let input = DFTD4Structure::prepare_new(3, &[8, 1, 1], 9, Some(9)).unwrap();
    assert_eq!(input.native_natoms(), 3);
    assert_eq!(input.native_numbers(), &[8, 1, 1]);
}

#[test]
fn numbers_narrow_to_native_width() {
    let big = (1usize << 32) + 6;
    let input = DFTD4Structure::prepare_new(1, &[big], 3, None).unwrap();
    assert_eq!(input.native_numbers(), &[6]);
}

#[test]
fn empty_structure_is_accepted() {
    let input = DFTD4Structure::prepare_new(0, &[], 0, None).unwrap();
    assert_eq!(input.native_natoms(), 0);
    assert!(input.native_numbers().is_empty());
}

#[test]
fn structure_keeps_handle_and_atom_count() {
    let s = water();
    assert_eq!(s.get_natoms(), 3);
    assert_eq!(s.native_handle(), 0x1000);
}

#[test]
fn update_with_wrong_positions_fails_locally() {
    let s = water();
    match s.check_update(6, None) {
        Err(DFTD4Error::Rust(m)) => {
            assert_eq!(m, "Invalid dimension for positions, expected 9, got 6")
        }
        _ => panic!("expected a local failure"),
    }
    assert_eq!(s.get_natoms(), 3);
    assert_eq!(s.native_handle(), 0x1000);
}

#[test]
fn update_with_wrong_lattice_fails_locally() {
    let s = water();
    match s.check_update(9, Some(10)) {
        Err(DFTD4Error::Rust(m)) => {
            assert_eq!(m, "Invalid dimension for lattice, expected 9, got 10")
        }
        _ => panic!("expected a local failure"),
    }
}

#[test]
fn update_with_right_lengths_is_accepted() {
    let s = water();
    assert!(s.check_update(9, None).is_ok());
    assert!(s.check_update(9, Some(9)).is_ok());
}
