use msrstat::backend::{open_plan, thread_index};
use msrstat::ctlprobe;
use msrstat::errors::Error;
use msrstat::topology;

#[test]
fn core_three_maps_to_thread_six() {
    assert_eq!(thread_index(3, 2), 6);
}

#[test]
fn first_thread_of_each_core() {
    assert_eq!(thread_index(0, 2), 0);
    assert_eq!(thread_index(5, 1), 5);
    assert_eq!(thread_index(2, 4), 8);
}

#[test]
fn plan_for_eight_cores_two_threads() {
    assert_eq!(open_plan(8, 2), vec![0, 2, 4, 6, 8, 10, 12, 14]);
}

#[test]
fn plan_without_multithreading() {
    assert_eq!(open_plan(4, 1), vec![0, 1, 2, 3]);
}

#[test]
fn threads_per_core_is_the_exact_quotient() {
    assert_eq!(topology::derive_threads_per_core(16, 8), Ok(2));
    assert_eq!(topology::derive_threads_per_core(8, 8), Ok(1));
    assert_eq!(topology::derive_threads_per_core(9, 4), Ok(2));
}

#[test]
fn zero_physical_count_is_rejected() {
    assert_eq!(
        topology::derive_threads_per_core(8, 0),
        Err(Error::ConfigNotPositive)
    );
}

#[test]
fn zero_quotient_is_rejected() {
    assert_eq!(
        topology::derive_threads_per_core(3, 4),
        Err(Error::ConfigNotPositive)
    );
}

#[test]
fn probed_counts_are_positive() {
    assert!(topology::get_num_cores() >= 1);
    if let Ok(t) = topology::get_num_threads_per_core() {
        assert!(t >= 1);
    }
}

#[test]
fn count_validation_is_exact() {
    assert_eq!(ctlprobe::validate_count(Some(8)), Ok(8));
    assert_eq!(ctlprobe::validate_count(Some(1)), Ok(1));
    assert_eq!(
        ctlprobe::validate_count(Some(0)),
        Err(Error::ConfigNotPositive)
    );
    assert_eq!(
        ctlprobe::validate_count(Some(-3)),
        Err(Error::ConfigNotPositive)
    );
    assert_eq!(ctlprobe::validate_count(None), Err(Error::ConfigWrongType));
}

#[test]
fn absent_parameter_is_a_fatal_lookup_failure() {
    // This system has no parameter under that name, and the probe must
    // report the lookup failure rather than infer or default anything.
    match ctlprobe::lookup_positive_int("kern.smp.no.such.parameter") {
        Err(Error::ConfigMissing) => {}
        other => panic!("expected a missing-parameter failure, got {:?}", other),
    }
}
