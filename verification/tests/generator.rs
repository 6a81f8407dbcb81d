use sponge_fuzz::generate_input;

#[test]
fn bound_of_one_always_draws_the_empty_input() {
    for _ in 0..50 {
        assert_eq!(generate_input(1).len(), 0);
    }
}

#[test]
fn drawn_lengths_stay_below_the_bound() {
    for _ in 0..200 {
        assert!(generate_input(5).len() < 5);
        assert!(generate_input(100).len() < 100);
    }
}

#[test]
fn draws_are_not_all_alike() {
    // With a bound of 100, two hundred draws collapsing to one single
    // length-and-content would mean the generator ignores its source.
    let draws: Vec<Vec<u8>> = (0..200).map(|_| generate_input(100)).collect();
    let first = &draws[0];
    assert!(draws.iter().any(|d| d != first));
}
