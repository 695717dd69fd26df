//! EIP-1559 fee estimation from a block's base fee and the fee history of recent blocks.
//!
//! 256-bit quantities are held as their four 64-bit limbs, least significant first
//! (the representation of ethers' `U256`).
use vstd::prelude::*;
use ethers_core::types::U256;

verus! {

/// Priority fee used when the base fee is below the trigger, and the least priority
/// fee suggested otherwise.
pub const EIP1559_FEE_ESTIMATION_DEFAULT_PRIORITY_FEE: u64 = 3_000_000_000;

/// Base fee from which on the priority fee is estimated from the fee history.
pub const EIP1559_FEE_ESTIMATION_PRIORITY_FEE_TRIGGER: u64 = 100_000_000_000;

/// The number a 256-bit value's limbs stand for.
pub open spec fn u256_value(limbs: [u64; 4]) -> nat {
    (limbs[0] + limbs[1] * 0x1_0000_0000_0000_0000nat + limbs[2] * 0x1_0000_0000_0000_0000_0000_0000_0000_0000nat
        + limbs[3] * 0x1_0000_0000_0000_0000_0000_0000_0000_0000_0000_0000_0000_0000nat) as nat
}

/// 2^256
pub open spec fn u256_bound() -> nat {
    0x1_0000_0000_0000_0000_0000_0000_0000_0000_0000_0000_0000_0000_0000_0000_0000_0000nat
}

/// 2^255
pub open spec fn i256_bound() -> nat {
    0x8000_0000_0000_0000_0000_0000_0000_0000_0000_0000_0000_0000_0000_0000_0000_0000nat
}

/// The values of the rewards of a fee history: one list per block, one entry per
/// requested percentile.
pub open spec fn reward_values(rewards: Seq<Vec<[u64; 4]>>) -> Seq<Seq<nat>> {
    rewards.map_values(|r: Vec<[u64; 4]>| r@.map_values(|x: [u64; 4]| u256_value(x)))
}

/// The first reward of every block that is greater than zero, in block order.
pub open spec fn positive_first_rewards(rewards: Seq<Seq<nat>>) -> Seq<nat>
    decreases rewards.len(),
{
    if rewards.len() == 0 {
        Seq::empty()
    } else {
        let earlier = positive_first_rewards(rewards.drop_last());
        if rewards.last()[0] > 0 {
            earlier.push(rewards.last()[0])
        } else {
            earlier
        }
    }
}

/// The priority fee that ethers-core estimates from a fee history (its private
/// `estimate_priority_fee`: a median of the blocks' positive first rewards).
pub uninterp spec fn eip1559_priority_fee_estimate(rewards: Seq<Seq<nat>>) -> nat;

/// The maximum fee that a base fee may surge to: twice a base fee up to 40 gwei,
/// 1.6 times up to 100 gwei, 1.4 times up to 200 gwei, 1.2 times above.
pub open spec fn base_fee_surged(base_fee_per_gas: nat) -> nat {
    if base_fee_per_gas <= 40_000_000_000 {
        base_fee_per_gas * 2
    } else if base_fee_per_gas <= 100_000_000_000 {
        base_fee_per_gas * 16 / 10
    } else if base_fee_per_gas <= 200_000_000_000 {
        base_fee_per_gas * 14 / 10
    } else {
        base_fee_per_gas * 12 / 10
    }
}

/// The maximum fee and the maximum priority fee per gas that ethers-core's default
/// estimator suggests, given its estimate of the priority fee from the fee history.
pub open spec fn eip1559_default_fees(base_fee_per_gas: nat, priority_fee_estimate: nat) -> (nat, nat) {
    let max_priority_fee_per_gas = if base_fee_per_gas < EIP1559_FEE_ESTIMATION_PRIORITY_FEE_TRIGGER {
        EIP1559_FEE_ESTIMATION_DEFAULT_PRIORITY_FEE as nat
    } else if priority_fee_estimate > EIP1559_FEE_ESTIMATION_DEFAULT_PRIORITY_FEE {
        priority_fee_estimate
    } else {
        EIP1559_FEE_ESTIMATION_DEFAULT_PRIORITY_FEE as nat
    };
    let potential_max_fee = base_fee_surged(base_fee_per_gas);
    let max_fee_per_gas = if max_priority_fee_per_gas > potential_max_fee {
        max_priority_fee_per_gas + potential_max_fee
    } else {
        potential_max_fee
    };
    (max_fee_per_gas, max_priority_fee_per_gas)
}

/// The inputs on which ethers-core's default estimator returns. Below the trigger it
/// always does. From the trigger on, it reads the first reward of every block, turns
/// the positive ones into signed 256-bit numbers (when there are two or more) and
/// multiplies the differences of neighbours in sorted order, and of the largest and the
/// smallest, by 100; it multiplies the base fee by 12 (or less); and, when the estimate
/// exceeds the surged base fee, it adds the two. Each of these panics on overflow
/// (the signed ones in builds with debug assertions).
pub open spec fn eip1559_estimator_defined(base_fee_per_gas: nat, rewards: Seq<Seq<nat>>) -> bool {
    base_fee_per_gas < EIP1559_FEE_ESTIMATION_PRIORITY_FEE_TRIGGER || {
        let firsts = positive_first_rewards(rewards);
        &&& forall|i: int| 0 <= i < rewards.len() ==> #[trigger] rewards[i].len() > 0
        &&& base_fee_per_gas * 12 < u256_bound()
        &&& firsts.len() >= 2 ==> forall|i: int| 0 <= i < firsts.len() ==> #[trigger] firsts[i] < i256_bound()
        &&& firsts.len() >= 2 ==> forall|i: int, j: int|
            0 <= i < firsts.len() && 0 <= j < firsts.len() && firsts[i] < firsts[j] ==> (#[trigger] firsts[j]
                - #[trigger] firsts[i]) * 100 < i256_bound()
        &&& firsts.len() == 1 ==> (firsts[0] <= base_fee_surged(base_fee_per_gas) || firsts[0]
            + base_fee_surged(base_fee_per_gas) < u256_bound())
    }
}

/// Calls ethers-core: `utils::eip1559_default_estimator(base_fee_per_gas, rewards)`,
/// converting limbs to and from `U256`. The `requires` leaves out the inputs on which
/// its source panics. Claims what the source shows, with the estimate of the priority
/// fee from the fee history named.
#[verifier::external_body]
pub(crate) fn eip1559_default_estimator(base_fee_per_gas: [u64; 4], rewards: &Vec<Vec<[u64; 4]>>) -> (fees: ([u64; 4], [u64; 4]))
    requires
        eip1559_estimator_defined(u256_value(base_fee_per_gas), reward_values(rewards@)),
    ensures
        (u256_value(fees.0), u256_value(fees.1)) == eip1559_default_fees(
            u256_value(base_fee_per_gas),
            eip1559_priority_fee_estimate(reward_values(rewards@)),
        ),
{
    let rewards: Vec<Vec<U256>> = rewards.iter().map(|r| r.iter().map(|x| U256(*x)).collect()).collect();
    let (max_fee, max_priority_fee) = ethers_core::utils::eip1559_default_estimator(U256(base_fee_per_gas), rewards);
    (max_fee.0, max_priority_fee.0)
}

/// Calls uint (ethers' `U256`): `checked_add`, which its documentation describes as
/// returning `None` if overflow occurred. Claims exactly that.
#[verifier::external_body]
fn u256_checked_add(a: [u64; 4], b: [u64; 4]) -> (sum: Option<[u64; 4]>)
    ensures
        sum is Some <==> u256_value(a) + u256_value(b) < u256_bound(),
        sum matches Some(c) ==> u256_value(c) == u256_value(a) + u256_value(b),
{
    U256(a).checked_add(U256(b)).map(|c| c.0)
}

/// Calls uint: `checked_sub`, `None` if overflow (a negative result) occurred.
#[verifier::external_body]
fn u256_checked_sub(a: [u64; 4], b: [u64; 4]) -> (difference: Option<[u64; 4]>)
    ensures
        difference is Some <==> u256_value(a) >= u256_value(b),
        difference matches Some(c) ==> u256_value(c) == u256_value(a) - u256_value(b),
{
    U256(a).checked_sub(U256(b)).map(|c| c.0)
}

/// Calls uint: `checked_mul`, `None` if overflow occurred.
#[verifier::external_body]
fn u256_checked_mul(a: [u64; 4], b: [u64; 4]) -> (product: Option<[u64; 4]>)
    ensures
        product is Some <==> u256_value(a) * u256_value(b) < u256_bound(),
        product matches Some(c) ==> u256_value(c) == u256_value(a) * u256_value(b),
{
    U256(a).checked_mul(U256(b)).map(|c| c.0)
}

/// Calls uint: `checked_div`, `None` if the divisor is zero; the quotient rounds down.
#[verifier::external_body]
fn u256_checked_div(a: [u64; 4], b: [u64; 4]) -> (quotient: Option<[u64; 4]>)
    ensures
        quotient is Some <==> u256_value(b) > 0,
        quotient matches Some(c) ==> u256_value(c) == u256_value(a) / u256_value(b),
{
    U256(a).checked_div(U256(b)).map(|c| c.0)
}

proof fn lemma_limbs_bounded(a: [u64; 4])
    ensures
        a[0] < 0x1_0000_0000_0000_0000nat,
        a[0] + a[1] * 0x1_0000_0000_0000_0000nat < 0x1_0000_0000_0000_0000_0000_0000_0000_0000nat,
        a[0] + a[1] * 0x1_0000_0000_0000_0000nat + a[2] * 0x1_0000_0000_0000_0000_0000_0000_0000_0000nat
            < 0x1_0000_0000_0000_0000_0000_0000_0000_0000_0000_0000_0000_0000nat,
        u256_value(a) < u256_bound(),
{
}

/// Whether `a` stands for a smaller number than `b`, comparing the limbs from the most
/// significant one down.
pub fn u256_less_than(a: &[u64; 4], b: &[u64; 4]) -> (less: bool)
    ensures
        less == (u256_value(*a) < u256_value(*b)),
{
    proof {
        lemma_limbs_bounded(*a);
        lemma_limbs_bounded(*b);
    }
    if a[3] != b[3] {
        a[3] < b[3]
    } else if a[2] != b[2] {
        a[2] < b[2]
    } else if a[1] != b[1] {
        a[1] < b[1]
    } else {
        a[0] < b[0]
    }
}

/// The limbs of a number below 2^64.
pub open spec fn small(x: u64) -> [u64; 4] {
    [x, 0, 0, 0]
}

fn small_limbs(x: u64) -> (limbs: [u64; 4])
    ensures
        limbs == small(x),
        u256_value(limbs) == x,
{
    [x, 0, 0, 0]
}

/// 2^255 as limbs.
fn i256_bound_limbs() -> (limbs: [u64; 4])
    ensures
        u256_value(limbs) == i256_bound(),
{
    [0, 0, 0, 0x8000_0000_0000_0000]
}

/// The maximum fee a base fee may surge to, computed; `None` when the product
/// overflows.
fn surged_base_fee(base_fee_per_gas: [u64; 4]) -> (surged: Option<[u64; 4]>)
    ensures
        surged matches Some(s) ==> u256_value(s) == base_fee_surged(u256_value(base_fee_per_gas)),
        u256_value(base_fee_per_gas) * 12 < u256_bound() ==> surged is Some,
{
    let ghost b = u256_value(base_fee_per_gas);
    if !u256_less_than(&small_limbs(40_000_000_000), &base_fee_per_gas) {
        return u256_checked_mul(base_fee_per_gas, small_limbs(2));
    }
    let factor: u64 = if !u256_less_than(&small_limbs(100_000_000_000), &base_fee_per_gas) {
        16
    } else if !u256_less_than(&small_limbs(200_000_000_000), &base_fee_per_gas) {
        14
    } else {
        12
    };
    match u256_checked_mul(base_fee_per_gas, small_limbs(factor)) {
        Some(product) => u256_checked_div(product, small_limbs(10)),
        None => {
            assert(b * 12 >= u256_bound());
            None
        },
    }
}

/// The positive first rewards of the first `i` blocks.
pub open spec fn positive_firsts_upto(rewards: Seq<Seq<nat>>, i: int) -> Seq<nat> {
    positive_first_rewards(rewards.take(i))
}

proof fn lemma_positive_firsts_step(rewards: Seq<Seq<nat>>, i: int)
    requires
        0 <= i < rewards.len(),
    ensures
        positive_firsts_upto(rewards, i + 1) == (if rewards[i][0] > 0 {
            positive_firsts_upto(rewards, i).push(rewards[i][0])
        } else {
            positive_firsts_upto(rewards, i)
        }),
{
    assert(rewards.take(i + 1).drop_last() =~= rewards.take(i));
    assert(rewards.take(i + 1).last() == rewards[i]);
}

/// Whether ethers-core's default estimator returns on these inputs, that is,
/// `eip1559_estimator_defined`, computed.
pub fn eip1559_estimator_accepts(base_fee_per_gas: [u64; 4], rewards: &Vec<Vec<[u64; 4]>>) -> (accepts: bool)
    ensures
        accepts == eip1559_estimator_defined(u256_value(base_fee_per_gas), reward_values(rewards@)),
{
    let ghost b = u256_value(base_fee_per_gas);
    let ghost rv = reward_values(rewards@);
    if u256_less_than(&base_fee_per_gas, &small_limbs(EIP1559_FEE_ESTIMATION_PRIORITY_FEE_TRIGGER)) {
        return true;
    }
    // the first reward of every block, keeping the positive ones
    let mut firsts: Vec<[u64; 4]> = Vec::new();
    let mut i: usize = 0;
    while i < rewards.len()
        invariant
            i <= rewards@.len(),
            b == u256_value(base_fee_per_gas),
            b >= EIP1559_FEE_ESTIMATION_PRIORITY_FEE_TRIGGER,
            rv == reward_values(rewards@),
            rv.len() == rewards@.len(),
            forall|j: int| 0 <= j < i ==> #[trigger] rv[j].len() > 0,
            firsts@.map_values(|x: [u64; 4]| u256_value(x)) == positive_firsts_upto(rv, i as int),
        decreases rewards@.len() - i,
    {
        let r = &rewards[i];
        assert(rv[i as int] == r@.map_values(|x: [u64; 4]| u256_value(x)));
        if r.len() == 0 {
            assert(rv[i as int].len() == 0);
            return false;
        }
        let first = r[0];
        proof {
            lemma_positive_firsts_step(rv, i as int);
            assert(rv[i as int][0] == u256_value(first));
        }
        if u256_less_than(&small_limbs(0), &first) {
            let ghost before = firsts@;
            firsts.push(first);
            assert(firsts@.map_values(|x: [u64; 4]| u256_value(x)) =~= before.map_values(
                |x: [u64; 4]| u256_value(x),
            ).push(u256_value(first)));
        }
        i = i + 1;
    }
    assert(rv.take(rewards@.len() as int) =~= rv);
    let ghost fv = positive_first_rewards(rv);
    assert(fv == firsts@.map_values(|x: [u64; 4]| u256_value(x)));
    if u256_checked_mul(base_fee_per_gas, small_limbs(12)).is_none() {
        return false;
    }
    if firsts.len() >= 2 {
        let half = i256_bound_limbs();
        let mut low = firsts[0];
        let mut high = firsts[0];
        assert(fv[0] == u256_value(low));
        let mut k: usize = 0;
        while k < firsts.len()
            invariant
                k <= firsts@.len(),
                firsts@.len() >= 2,
                b == u256_value(base_fee_per_gas),
                b >= EIP1559_FEE_ESTIMATION_PRIORITY_FEE_TRIGGER,
                rv == reward_values(rewards@),
                fv == positive_first_rewards(rv),
                fv == firsts@.map_values(|x: [u64; 4]| u256_value(x)),
                u256_value(half) == i256_bound(),
                forall|j: int| 0 <= j < k ==> #[trigger] fv[j] < i256_bound(),
                forall|j: int| 0 <= j < k ==> u256_value(low) <= #[trigger] fv[j] <= u256_value(high),
                exists|j: int| 0 <= j < firsts@.len() && fv[j] == u256_value(low),
                exists|j: int| 0 <= j < firsts@.len() && fv[j] == u256_value(high),
            decreases firsts@.len() - k,
        {
            let x = firsts[k];
            assert(fv[k as int] == u256_value(x));
            if !u256_less_than(&x, &half) {
                return false;
            }
            if u256_less_than(&x, &low) {
                low = x;
            }
            if u256_less_than(&high, &x) {
                high = x;
            }
            k = k + 1;
        }
        let ghost jl = choose|j: int| 0 <= j < firsts@.len() && fv[j] == u256_value(low);
        let ghost jh = choose|j: int| 0 <= j < firsts@.len() && fv[j] == u256_value(high);
        let spread = match u256_checked_sub(high, low) {
            Some(d) => d,
            None => {
                return false;
            },
        };
        let within = match u256_checked_mul(spread, small_limbs(100)) {
            Some(m) => u256_less_than(&m, &half),
            None => false,
        };
        proof {
            if !within && fv[jl] < fv[jh] {
                assert((fv[jh] - fv[jl]) * 100 >= i256_bound());
            }
            if within {
                assert forall|a: int, c: int|
                    0 <= a < fv.len() && 0 <= c < fv.len() && fv[a] < fv[c] implies (#[trigger] fv[c]
                        - #[trigger] fv[a]) * 100 < i256_bound() by {
                    assert(fv[c] - fv[a] <= u256_value(high) - u256_value(low));
                }
            }
        }
        return within;
    }
    if firsts.len() == 1 {
        let p = firsts[0];
        assert(fv[0] == u256_value(p));
        let surged = match surged_base_fee(base_fee_per_gas) {
            Some(sv) => sv,
            None => {
                return false;
            },
        };
        if u256_less_than(&surged, &p) {
            return u256_checked_add(p, surged).is_some();
        }
        return true;
    }
    true
}

/// Estimates the EIP-1559 fees for a block whose base fee is `base_fee_per_gas`, given
/// the rewards of the fee history of the past blocks: returns the base fee, the maximum
/// fee and the maximum priority fee per gas.
pub fn estimate_eip1559_fees_default(
    base_fee_per_gas: [u64; 4],
    rewards: Vec<Vec<[u64; 4]>>,
) -> (fees: ([u64; 4], [u64; 4], [u64; 4]))
    requires
        eip1559_estimator_defined(u256_value(base_fee_per_gas), reward_values(rewards@)),
    ensures
        fees.0 == base_fee_per_gas,
        (u256_value(fees.1), u256_value(fees.2)) == eip1559_default_fees(
            u256_value(base_fee_per_gas),
            eip1559_priority_fee_estimate(reward_values(rewards@)),
        ),
{
    let (max_fee_per_gas, max_priority_fee_per_gas) = eip1559_default_estimator(base_fee_per_gas, &rewards);
    (base_fee_per_gas, max_fee_per_gas, max_priority_fee_per_gas)
}

/// Limbs are little-endian 64-bit digits: a number below 2^64 is its first limb, the
/// largest limbs stand for 2^256 - 1, and the reward values read each reward's limbs.
pub proof fn lemma_limbs_are_base_two_to_the_64(x: u64, rewards: Seq<Vec<[u64; 4]>>, i: int, j: int)
    ensures
        u256_value([x, 0, 0, 0]) == x,
        u256_value([u64::MAX, u64::MAX, u64::MAX, u64::MAX]) + 1 == u256_bound(),
        u256_value([0, 0, 0, 0x8000_0000_0000_0000]) == i256_bound(),
        0 <= i < rewards.len() && 0 <= j < rewards[i]@.len() ==> reward_values(rewards)[i][j] == u256_value(
            rewards[i]@[j],
        ),
        reward_values(rewards).len() == rewards.len(),
{
}

/// The surged base fee: twice the base fee up to 40 gwei, then 1.6, 1.4 and 1.2 times it
/// (rounded down) up to 100 gwei, up to 200 gwei and above.
pub proof fn lemma_base_fee_surge_factors(b: nat)
    ensures
        b <= 40_000_000_000 ==> base_fee_surged(b) == 2 * b,
        40_000_000_000 < b <= 100_000_000_000 ==> base_fee_surged(b) * 10 <= b * 16 < base_fee_surged(b) * 10
            + 10,
        100_000_000_000 < b <= 200_000_000_000 ==> base_fee_surged(b) * 10 <= b * 14 < base_fee_surged(b) * 10
            + 10,
        200_000_000_000 < b ==> base_fee_surged(b) * 10 <= b * 12 < base_fee_surged(b) * 10 + 10,
{
    let x16 = b * 16;
    let x14 = b * 14;
    let x12 = b * 12;
    assert((x16 / 10) * 10 <= x16 < (x16 / 10) * 10 + 10) by (nonlinear_arith);
    assert((x14 / 10) * 10 <= x14 < (x14 / 10) * 10 + 10) by (nonlinear_arith);
    assert((x12 / 10) * 10 <= x12 < (x12 / 10) * 10 + 10) by (nonlinear_arith);
}

/// The default fees: below the trigger the priority fee is 3 gwei; from the trigger on it
/// is the estimate from the fee history, but at least 3 gwei. The maximum fee is the
/// surged base fee, plus the priority fee when that exceeds it.
pub proof fn lemma_default_fee_rules(b: nat, estimate: nat)
    ensures
        b < 100_000_000_000 ==> eip1559_default_fees(b, estimate).1 == 3_000_000_000,
        b >= 100_000_000_000 && estimate > 3_000_000_000 ==> eip1559_default_fees(b, estimate).1 == estimate,
        b >= 100_000_000_000 && estimate <= 3_000_000_000 ==> eip1559_default_fees(b, estimate).1
            == 3_000_000_000,
        eip1559_default_fees(b, estimate).1 > base_fee_surged(b) ==> eip1559_default_fees(b, estimate).0
            == eip1559_default_fees(b, estimate).1 + base_fee_surged(b),
        eip1559_default_fees(b, estimate).1 <= base_fee_surged(b) ==> eip1559_default_fees(b, estimate).0
            == base_fee_surged(b),
{
}

/// The positive first rewards are positive, each is the first reward of some block,
/// none is left out when every block's first reward is positive, and there are none
/// when every block's first reward is zero.
pub proof fn lemma_positive_first_rewards(rewards: Seq<Seq<nat>>)
    ensures
        positive_first_rewards(rewards).len() <= rewards.len(),
        forall|k: int| 0 <= k < positive_first_rewards(rewards).len() ==> #[trigger] positive_first_rewards(rewards)[k] > 0,
        forall|k: int|
            0 <= k < positive_first_rewards(rewards).len() ==> exists|j: int|
                0 <= j < rewards.len() && #[trigger] positive_first_rewards(rewards)[k] == rewards[j][0],
        (forall|j: int| 0 <= j < rewards.len() ==> #[trigger] rewards[j][0] == 0) ==> positive_first_rewards(rewards).len() == 0,
        (forall|j: int| 0 <= j < rewards.len() ==> #[trigger] rewards[j][0] > 0) ==> positive_first_rewards(rewards)
            == rewards.map_values(|r: Seq<nat>| r[0]),
    decreases rewards.len(),
{
    if rewards.len() > 0 {
        let earlier = rewards.drop_last();
        lemma_positive_first_rewards(earlier);
        let p = positive_first_rewards(rewards);
        let q = positive_first_rewards(earlier);
        assert forall|k: int| 0 <= k < p.len() implies exists|j: int|
            0 <= j < rewards.len() && #[trigger] p[k] == rewards[j][0] by {
            if k < q.len() {
                let j = choose|j: int| 0 <= j < earlier.len() && q[k] == earlier[j][0];
                assert(p[k] == rewards[j][0]);
            } else {
                assert(p[k] == rewards[rewards.len() - 1][0]);
            }
        }
        if forall|j: int| 0 <= j < rewards.len() ==> #[trigger] rewards[j][0] == 0 {
            assert(forall|j: int| 0 <= j < earlier.len() ==> #[trigger] earlier[j][0] == rewards[j][0]);
            assert(rewards.last()[0] == rewards[rewards.len() - 1][0]);
        }
        if forall|j: int| 0 <= j < rewards.len() ==> #[trigger] rewards[j][0] > 0 {
            assert(forall|j: int| 0 <= j < earlier.len() ==> #[trigger] earlier[j][0] == rewards[j][0]);
            assert(rewards.last()[0] == rewards[rewards.len() - 1][0]);
            assert(p =~= rewards.map_values(|r: Seq<nat>| r[0]));
        }
    }
}

/// When the estimator returns: always below the trigger; from the trigger on, never
/// when a block has no reward or the base fee times 12 overflows 256 bits, and always
/// when, besides, no block has a positive first reward.
pub proof fn lemma_estimator_defined_cases(b: nat, rewards: Seq<Seq<nat>>, i: int)
    ensures
        b < 100_000_000_000 ==> eip1559_estimator_defined(b, rewards),
        b >= 100_000_000_000 && 0 <= i < rewards.len() && rewards[i].len() == 0 ==> !eip1559_estimator_defined(
            b,
            rewards,
        ),
        b >= 100_000_000_000 && b * 12 >= u256_bound() ==> !eip1559_estimator_defined(b, rewards),
        b >= 100_000_000_000 && b * 12 < u256_bound() && (forall|j: int|
            0 <= j < rewards.len() ==> #[trigger] rewards[j].len() > 0) && positive_first_rewards(rewards).len()
            == 0 ==> eip1559_estimator_defined(b, rewards),
{
}

/// The suggested maximum fee is never below the suggested maximum priority fee, and
/// the priority fee never below the default one.
pub proof fn lemma_max_fee_covers_priority_fee(base_fee_per_gas: nat, priority_fee_estimate: nat)
    ensures
        eip1559_default_fees(base_fee_per_gas, priority_fee_estimate).0 >= eip1559_default_fees(
            base_fee_per_gas,
            priority_fee_estimate,
        ).1,
        eip1559_default_fees(base_fee_per_gas, priority_fee_estimate).1
            >= EIP1559_FEE_ESTIMATION_DEFAULT_PRIORITY_FEE,
{
}

} // verus!
