use bitnun::ai::timing::{classify_spread, Spread};

#[test]
fn no_intervals_are_natural() {
    assert_eq!(classify_spread(&[]), Spread::Natural);
}

#[test]
fn equal_intervals_are_regular() {
    assert_eq!(classify_spread(&[100, 100, 100, 100, 100, 100]), Spread::Regular);
    assert_eq!(classify_spread(&[7]), Spread::Regular);
    assert_eq!(classify_spread(&[-5, -5, -5, -5, -5, -5]), Spread::Regular);
}

#[test]
fn small_variance_is_regular() {
    // mean 100, squared distances 0 + 100 + 100 + 25 + 25 + 0, variance 41.67
    assert_eq!(classify_spread(&[100, 110, 90, 105, 95, 100]), Spread::Regular);
}

#[test]
fn moderate_variance_is_natural() {
    // mean 250, variance 11666.67
    assert_eq!(classify_spread(&[100, 300, 200, 400, 150, 350]), Spread::Natural);
}

#[test]
fn large_variance_is_erratic() {
    // mean 500, variance 250000
    assert_eq!(classify_spread(&[0, 1000, 0, 1000, 0, 1000]), Spread::Erratic);
}

#[test]
fn variance_of_exactly_one_hundred_is_not_regular() {
    // mean 10, variance 100
    assert_eq!(classify_spread(&[0, 20]), Spread::Natural);
    // mean 10, variance 90.25
    assert_eq!(classify_spread(&[0, 19]), Spread::Regular);
    // variance 110.25
    assert_eq!(classify_spread(&[0, 21]), Spread::Natural);
}

#[test]
fn variance_of_exactly_one_hundred_thousand_is_not_erratic() {
    // mean 0, sum of squares 1000000 over ten values
    let exact = [500, -500, 500, -500, 0, 0, 0, 0, 0, 0];
    assert_eq!(classify_spread(&exact), Spread::Natural);
    // sum of squares 1002001, mean 0.1: variance 100200.09
    let above = [501, -500, 500, -500, 0, 0, 0, 0, 0, 0];
    assert_eq!(classify_spread(&above), Spread::Erratic);
    // sum of squares 999001, mean -0.1: variance 99900.09
    let below = [499, -500, 500, -500, 0, 0, 0, 0, 0, 0];
    assert_eq!(classify_spread(&below), Spread::Natural);
}

#[test]
fn mean_that_is_not_whole() {
    // mean 1/3, variance 2/9
    assert_eq!(classify_spread(&[0, 0, 1]), Spread::Regular);
    // mean -10/3, variance 200/9 = 22.2
    assert_eq!(classify_spread(&[0, 0, -10]), Spread::Regular);
    // mean 10.5, variance 110.25
    assert_eq!(classify_spread(&[0, 21, 0, 21]), Spread::Natural);
}

#[test]
fn extreme_values_do_not_overflow() {
    assert_eq!(classify_spread(&[i64::MAX; 6]), Spread::Regular);
    assert_eq!(classify_spread(&[i64::MIN; 6]), Spread::Regular);
    assert_eq!(classify_spread(&[i64::MAX, i64::MIN, 0, 0, 0, 0]), Spread::Erratic);
    assert_eq!(classify_spread(&[i64::MAX, i64::MAX - 1]), Spread::Regular);
    assert_eq!(classify_spread(&[i64::MIN, i64::MIN + 1000]), Spread::Erratic);
    assert_eq!(classify_spread(&[i64::MAX - 20, i64::MAX]), Spread::Natural);
}

#[test]
fn shifting_all_values_keeps_the_spread() {
    let base = [100, 300, 200, 400, 150, 350];
    let shifted: Vec<i64> = base.iter().map(|x| x + 1_000_000_000_000).collect();
    assert_eq!(classify_spread(&shifted), classify_spread(&base));
    let lowered: Vec<i64> = base.iter().map(|x| x - 1_000_000_000_000).collect();
    assert_eq!(classify_spread(&lowered), classify_spread(&base));
}

#[test]
fn agrees_with_direct_computation_on_small_series() {
    let series: [&[i64]; 6] = [
        &[1, 2, 3, 4, 5, 6, 7],
        &[0, 30, 0, 30, 0, 30, 0],
        &[-400, 400, -300, 300, 0, 0, 10],
        &[90, 110, 95, 105, 100, 100, 100, 131],
        &[317, 0, 634, 317, 0, 634],
        &[1000, -1000],
    ];
    for xs in series {
        let n = xs.len() as i128;
        let sum: i128 = xs.iter().map(|x| *x as i128).sum();
        let squares: i128 = xs.iter().map(|x| (*x as i128) * (*x as i128)).sum();
        let scaled = n * squares - sum * sum;
        let expected = if scaled < 100 * n * n {
            Spread::Regular
        } else if scaled > 100_000 * n * n {
            Spread::Erratic
        } else {
            Spread::Natural
        };
        assert_eq!(classify_spread(xs), expected);
    }
}
