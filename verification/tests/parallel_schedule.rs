use tmatrix::{uses_parallel, Polarization, PARALLEL_THRESHOLD};

#[test]
fn more_than_a_hundred_wavelengths_run_in_parallel() {
    assert_eq!(PARALLEL_THRESHOLD, 100);
    assert!(!uses_parallel(0));
    assert!(!uses_parallel(3));
    assert!(!uses_parallel(100));
    assert!(uses_parallel(101));
    assert!(uses_parallel(5000));
}

#[test]
fn polarizations_are_distinct() {
    assert_ne!(Polarization::TE, Polarization::TM);
    let p = Polarization::TM;
    let q = p;
    assert_eq!(p, q);
}
