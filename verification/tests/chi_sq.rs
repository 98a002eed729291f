use rstat::{ChiSq, Convolution, ConvolutionError, ValidationError};

#[test]
fn new_rejects_zero_degrees_of_freedom() {
    let r = ChiSq::new(0);
    assert_eq!(
        r.unwrap_err(),
        ValidationError::BelowMinimum { value: 0, bound: 1 }
    );
}

#[test]
fn new_accepts_one_degree_of_freedom() {
    let d = ChiSq::new(1).unwrap();
    assert_eq!(d.k, 1);
}

#[test]
fn new_accepts_large_degrees_of_freedom() {
    let d = ChiSq::new(1000).unwrap();
    assert_eq!(d.k, 1000);
}

#[test]
fn new_unchecked_stores_parameter() {
    let d = ChiSq::new_unchecked(7);
    assert_eq!(d.k, 7);
}

#[test]
fn mean_is_degrees_of_freedom() {
    assert_eq!(ChiSq::new_unchecked(1).mean(), 1);
    assert_eq!(ChiSq::new_unchecked(3).mean(), 3);
    assert_eq!(ChiSq::new_unchecked(42).mean(), 42);
}

#[test]
fn variance_is_twice_degrees_of_freedom() {
    assert_eq!(ChiSq::new_unchecked(1).variance(), 2);
    assert_eq!(ChiSq::new_unchecked(3).variance(), 6);
    assert_eq!(ChiSq::new_unchecked(42).variance(), 84);
}

#[test]
fn modes_degenerate_at_low_degrees_of_freedom() {
    assert_eq!(ChiSq::new_unchecked(1).modes(), vec![0]);
    assert_eq!(ChiSq::new_unchecked(2).modes(), vec![0]);
}

#[test]
fn modes_follow_k_minus_two_above_two() {
    assert_eq!(ChiSq::new_unchecked(3).modes(), vec![1]);
    assert_eq!(ChiSq::new_unchecked(10).modes(), vec![8]);
}

#[test]
fn convolve_same_parameters_sums_degrees_of_freedom() {
    let a = ChiSq::new_unchecked(3);
    let b = ChiSq::new_unchecked(3);
    let c = a.convolve(b).unwrap();
    assert_eq!(c.k, 6);
}

#[test]
fn convolve_mixed_parameters_fails() {
    let a = ChiSq::new_unchecked(3);
    let b = ChiSq::new_unchecked(4);
    let r = a.convolve(b);
    assert_eq!(r.unwrap_err(), ConvolutionError::MixedParameters);
}

#[test]
fn convolve_pair_matches_convolve() {
    let a = ChiSq::new_unchecked(5);
    let b = ChiSq::new_unchecked(5);
    let via_pair = ChiSq::convolve_pair(a, b).unwrap();
    let via_method = a.convolve(b).unwrap();
    assert_eq!(via_pair.k, via_method.k);
    assert_eq!(via_pair.k, 10);
}

#[test]
fn convolve_pair_is_symmetric() {
    let a = ChiSq::new_unchecked(3);
    let b = ChiSq::new_unchecked(3);
    assert_eq!(
        ChiSq::convolve_pair(a, b).unwrap().k,
        ChiSq::convolve_pair(b, a).unwrap().k
    );
    let c = ChiSq::new_unchecked(4);
    assert_eq!(
        ChiSq::convolve_pair(a, c).unwrap_err(),
        ChiSq::convolve_pair(c, a).unwrap_err()
    );
}

#[test]
fn display_renders_family_and_parameter() {
    assert_eq!(ChiSq::new_unchecked(3).display_string(), "ChiSq(3)");
    assert_eq!(ChiSq::new_unchecked(1).display_string(), "ChiSq(1)");
    assert_eq!(ChiSq::new_unchecked(120).display_string(), "ChiSq(120)");
    assert_eq!(ChiSq::new_unchecked(1005).display_string(), "ChiSq(1005)");
}
