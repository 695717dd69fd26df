use ethers_confidential::gas_escalator::{eip1559_estimator_accepts, estimate_eip1559_fees_default, u256_less_than};

fn u(x: u64) -> [u64; 4] {
    [x, 0, 0, 0]
}

const GWEI: u64 = 1_000_000_000;

#[test]
fn below_trigger_uses_default_priority_fee() {
    let (base, max_fee, priority) = estimate_eip1559_fees_default(u(30 * GWEI), vec![]);
    assert_eq!(base, u(30 * GWEI));
    assert_eq!(priority, u(3 * GWEI));
    assert_eq!(max_fee, u(60 * GWEI));
}

#[test]
fn tiny_base_fee_adds_priority_to_surged_fee() {
    let (_, max_fee, priority) = estimate_eip1559_fees_default(u(1), vec![vec![u(1)]]);
    assert_eq!(priority, u(3 * GWEI));
    assert_eq!(max_fee, u(3 * GWEI + 2));
}

#[test]
fn above_trigger_takes_median_reward() {
    let rewards = vec![vec![u(5 * GWEI)], vec![u(6 * GWEI)], vec![u(7 * GWEI)]];
    let (base, max_fee, priority) = estimate_eip1559_fees_default(u(150 * GWEI), rewards);
    assert_eq!(base, u(150 * GWEI));
    assert_eq!(priority, u(6 * GWEI));
    assert_eq!(max_fee, u(210 * GWEI));
}

#[test]
fn above_trigger_without_rewards_uses_default_priority_fee() {
    let (_, max_fee, priority) = estimate_eip1559_fees_default(u(300 * GWEI), vec![vec![u(0)]]);
    assert_eq!(priority, u(3 * GWEI));
    assert_eq!(max_fee, u(360 * GWEI));
}

const MAX: [u64; 4] = [u64::MAX; 4];
const HALF: [u64; 4] = [0, 0, 0, 1 << 63];

#[test]
fn estimator_accepts_everything_below_trigger() {
    assert!(eip1559_estimator_accepts(u(30 * GWEI), &vec![vec![], vec![MAX]]));
}

#[test]
fn estimator_refuses_blocks_without_rewards_from_trigger_on() {
    assert!(!eip1559_estimator_accepts(u(150 * GWEI), &vec![vec![u(1)], vec![]]));
    assert!(eip1559_estimator_accepts(u(150 * GWEI), &vec![vec![u(1)], vec![u(2)]]));
}

#[test]
fn estimator_refuses_overflowing_base_fee() {
    assert!(!eip1559_estimator_accepts([0, 0, 0, u64::MAX / 8], &vec![]));
    assert!(eip1559_estimator_accepts([0, 0, 0, u64::MAX / 16], &vec![]));
}

#[test]
fn estimator_refuses_signed_overflows() {
    // a reward of 2^255 does not fit a signed 256-bit number
    assert!(!eip1559_estimator_accepts(u(150 * GWEI), &vec![vec![u(1)], vec![HALF]]));
    // a spread whose hundredfold reaches 2^255
    let big = [0, 0, 0, 1 << 57];
    assert!(!eip1559_estimator_accepts(u(150 * GWEI), &vec![vec![u(1)], vec![big]]));
    let fine = [0, 0, 0, 1 << 55];
    assert!(eip1559_estimator_accepts(u(150 * GWEI), &vec![vec![u(1)], vec![fine]]));
    // a single positive reward is never converted
    assert!(eip1559_estimator_accepts(u(150 * GWEI), &vec![vec![u(0)], vec![HALF]]));
}

#[test]
fn estimator_refuses_overflowing_sum_with_single_reward() {
    assert!(!eip1559_estimator_accepts(u(150 * GWEI), &vec![vec![MAX]]));
    let just_fits = [u64::MAX - 210 * GWEI, u64::MAX, u64::MAX, u64::MAX];
    assert!(eip1559_estimator_accepts(u(150 * GWEI), &vec![vec![just_fits]]));
}

#[test]
fn less_than_compares_from_the_top_limb() {
    assert!(u256_less_than(&[u64::MAX, 0, 0, 0], &[0, 1, 0, 0]));
    assert!(!u256_less_than(&[0, 0, 0, 1], &[u64::MAX, u64::MAX, u64::MAX, 0]));
    assert!(!u256_less_than(&u(5), &u(5)));
}

#[test]
fn accepted_inputs_estimate_without_panic() {
    let fine = [0, 0, 0, 1 << 55];
    let (_, max_fee, priority) = estimate_eip1559_fees_default(u(150 * GWEI), vec![vec![u(1)], vec![fine]]);
    assert!(!u256_less_than(&max_fee, &priority));
    let (_, max_fee, priority) = estimate_eip1559_fees_default(u(150 * GWEI), vec![vec![u(0)], vec![HALF]]);
    assert_eq!(priority, HALF);
    assert_eq!(max_fee, [210 * GWEI, 0, 0, 1 << 63]);
}
