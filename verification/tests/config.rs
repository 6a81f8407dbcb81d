use sponge_fuzz::ConfigurationError;
use sponge_fuzz::FuzzConfiguration;

#[test]
fn partition_divides_budget_evenly() {
    let cfg = FuzzConfiguration::new(4, 100000, 100).unwrap();
    assert_eq!(cfg.iterations_per_worker(), 25000);
}

#[test]
fn partition_drops_the_remainder() {
    let cfg = FuzzConfiguration::new(7, 100, 100).unwrap();
    assert_eq!(cfg.iterations_per_worker(), 14);
    let cfg = FuzzConfiguration::new(3, 2, 100).unwrap();
    assert_eq!(cfg.iterations_per_worker(), 0);
}

#[test]
fn zero_workers_is_rejected() {
    assert!(matches!(
        FuzzConfiguration::new(0, 100000, 100),
        Err(ConfigurationError::ZeroWorkers)
    ));
}

#[test]
fn zero_input_bound_is_rejected() {
    assert!(matches!(
        FuzzConfiguration::new(4, 100000, 0),
        Err(ConfigurationError::ZeroMaxInputBytes)
    ));
}

#[test]
fn accepted_configuration_keeps_its_values() {
    let cfg = FuzzConfiguration::new(2, 10, 1).unwrap();
    assert_eq!(cfg.worker_count, 2);
    assert_eq!(cfg.total_iterations, 10);
    assert_eq!(cfg.max_input_bytes, 1);
}
