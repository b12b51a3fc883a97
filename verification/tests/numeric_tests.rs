use xraydb::numeric::partition_point_geq;
use xraydb::numeric::span_at_least;
use xraydb::numeric::spline_bracket;

fn bits(xs: &[f64]) -> Vec<u64> {
    xs.iter().map(|x| x.to_bits()).collect()
}

#[test]
fn partition_point_matches_std() {
    let keys = vec![1.0, 2.0, 4.0, 8.0, 16.0];
    let kb = bits(&keys);
    for q in [0.5f64, 1.0, 1.5, 2.0, 3.0, 8.0, 100.0] {
        let mine = partition_point_geq(&kb, q.to_bits());
        let std_pp = keys.partition_point(|&v| v < q);
        assert_eq!(mine, std_pp);
    }
}

#[test]
fn partition_point_on_empty_and_singleton() {
    assert_eq!(partition_point_geq(&bits(&[]), 1.0f64.to_bits()), 0);
    assert_eq!(partition_point_geq(&bits(&[2.0]), 1.0f64.to_bits()), 0);
    assert_eq!(partition_point_geq(&bits(&[2.0]), 3.0f64.to_bits()), 1);
}

#[test]
fn spline_bracket_clamps_to_interior() {
    let kb = bits(&[1.0, 2.0, 3.0, 4.0]);
    // Below the grid: bracket (0, 1); above: (len-2, len-1).
    assert_eq!(spline_bracket(&kb, 0.5f64.to_bits()), 1);
    assert_eq!(spline_bracket(&kb, 9.0f64.to_bits()), 3);
    assert_eq!(spline_bracket(&kb, 2.5f64.to_bits()), 2);
    // An exact knot belongs to the bracket below it.
    assert_eq!(spline_bracket(&kb, 2.0f64.to_bits()), 1);
}

#[test]
fn span_at_least_finds_half_max_window() {
    let curve = bits(&[0.1, 0.2, 0.6, 0.9, 1.0, 0.8, 0.4, 0.2]);
    let half = 0.5f64.to_bits();
    let (first, last) = span_at_least(&curve, half).unwrap();
    assert_eq!(first, 2);
    assert_eq!(last, 5);
    assert!(span_at_least(&curve, 2.0f64.to_bits()).is_none());
}
