use mcmc::transition::{draw_uniform, Prob, ONE};
use rand::rngs::StdRng;
use rand::SeedableRng;

#[test]
fn certain_and_never_thresholds() {
    assert_eq!(Prob::certain().threshold(), ONE);
    assert_eq!(Prob::never().threshold(), 0);
}

#[test]
fn capped_ratio_saturates_at_one() {
    assert_eq!(Prob::capped(7).threshold(), 7);
    assert_eq!(Prob::capped(ONE).threshold(), ONE);
    assert_eq!(Prob::capped(ONE + 1).threshold(), ONE);
    assert_eq!(Prob::capped(u64::MAX).threshold(), ONE);
}

#[test]
fn self_transition_ratio_is_certain() {
    // A density ratio of exactly one, scaled, is acceptance one.
    let p = Prob::capped(ONE);
    assert!(p.accepts(0));
    assert!(p.accepts(ONE - 1));
}

#[test]
fn accepts_compares_strictly() {
    let p = Prob::capped(ONE / 2);
    assert!(p.accepts(ONE / 2 - 1));
    assert!(!p.accepts(ONE / 2));
    assert!(!p.accepts(ONE - 1));
    assert!(!Prob::never().accepts(0));
}

#[test]
fn uniform_draws_stay_on_the_grid_and_vary() {
    let mut rng = StdRng::seed_from_u64(7);
    let mut draws = Vec::new();
    for _ in 0..1000 {
        let u = draw_uniform(&mut rng);
        assert!(u < ONE);
        draws.push(u);
    }
    draws.sort();
    draws.dedup();
    assert!(draws.len() > 990);
    // Both halves of the interval are reached.
    assert!(draws[0] < ONE / 2);
    assert!(*draws.last().unwrap() >= ONE / 2);
}

#[test]
fn uniform_draws_average_one_half() {
    let mut rng = StdRng::seed_from_u64(11);
    let n = 20_000;
    let mut sum = 0.0f64;
    for _ in 0..n {
        sum += draw_uniform(&mut rng) as f64 / ONE as f64;
    }
    let mean = sum / n as f64;
    assert!((mean - 0.5).abs() < 0.01, "mean {}", mean);
}
