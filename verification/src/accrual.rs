//! The claimable yield of a stake position: three tiers of compounding
//! rewards factors (global, pool, holder), each folded in only where progress
//! was made since the tier below last looked.

use crate::numeric::clamp_i128;
use crate::numeric::clamp_u64;
use crate::numeric::lemma_fraction_bounds;
use crate::numeric::truncated_quotient;
use crate::numeric::Factor;
use crate::numeric::SCALE;
use vstd::prelude::*;

verus! {

/// The global rewards state: the factor accumulated over all pools and the
/// total weight that new rewards are spread over.
#[derive(Clone, Copy, Debug, PartialEq, Eq, Structural)]
pub struct BoostConfig {
    pub rewards_factor: Factor,
    pub total_weight: u64,
}

/// One pool: its own accumulated factor, the global factor it saw last, its
/// weight among the pools and the deposits it is spread over.
#[derive(Clone, Copy, Debug, PartialEq, Eq, Structural)]
pub struct Boost {
    pub rewards_factor: Factor,
    pub last_rewards_factor: Factor,
    pub weight: u64,
    pub total_deposits: u64,
}

/// The balance of rewards that has not been folded into the global factor yet.
#[derive(Clone, Copy, Debug, PartialEq, Eq, Structural)]
pub struct Proof {
    pub balance: u64,
}

/// One holder's position in a pool: the deposit, the pool factor it saw last
/// and the rewards already accrued and not yet claimed.
#[derive(Clone, Copy, Debug, PartialEq, Eq, Structural)]
pub struct Stake {
    pub balance: u64,
    pub last_rewards_factor: Factor,
    pub rewards: u64,
}

/// The global factor, in raw bits, after the pending balance has been folded
/// in. A zero balance or a zero total weight folds nothing in.
pub open spec fn folded_global_factor(config: BoostConfig, proof: Proof) -> int {
    if proof.balance > 0 && config.total_weight > 0 {
        clamp_i128(
            config.rewards_factor.bits + (proof.balance * SCALE) / (config.total_weight as int),
        )
    } else {
        config.rewards_factor.bits as int
    }
}

/// The pool's factor, in raw bits, once the global factor stands at `global`.
/// The pool gains its weighted share of what the global factor grew by since
/// the pool last looked, spread over its deposits. A global factor that is not
/// ahead, or a pool without deposits, gains nothing.
pub open spec fn folded_pool_factor(boost: Boost, global: int) -> int {
    if global > boost.last_rewards_factor.bits && boost.total_deposits > 0 {
        let grown = clamp_i128(global - boost.last_rewards_factor.bits);
        let weighted = clamp_i128(grown * boost.weight);
        clamp_i128(
            boost.rewards_factor.bits + truncated_quotient(weighted, boost.total_deposits as int),
        )
    } else {
        boost.rewards_factor.bits as int
    }
}

/// The holder's rewards once the pool's factor stands at `pool`: what was
/// accrued already, plus the whole units that the deposit earned from what the
/// pool factor grew by since the holder last looked. A pool factor that is not
/// ahead earns nothing.
pub open spec fn folded_rewards(stake: Stake, pool: int) -> int {
    if pool > stake.last_rewards_factor.bits {
        let grown = clamp_i128(pool - stake.last_rewards_factor.bits);
        let earned = clamp_i128(grown * stake.balance);
        clamp_u64(stake.rewards + clamp_u64(earned / (SCALE as int)))
    } else {
        stake.rewards as int
    }
}

/// The rewards that the holder of `stake` can claim, given the three snapshots
/// above it.
pub open spec fn claimable_yield(
    boost: Boost,
    boost_config: BoostConfig,
    boost_proof: Proof,
    stake: Stake,
) -> int {
    folded_rewards(
        stake,
        folded_pool_factor(boost, folded_global_factor(boost_config, boost_proof)),
    )
}

/// The global factor after the pending balance has been folded in.
pub fn fold_global_factor(config: BoostConfig, proof: Proof) -> (r: Factor)
    ensures
        r.bits == folded_global_factor(config, proof),
{
    if proof.balance > 0 {
        match Factor::from_fraction(proof.balance, config.total_weight) {
            Some(share) => config.rewards_factor.saturating_add(share),
            None => config.rewards_factor,
        }
    } else {
        config.rewards_factor
    }
}

/// The pool's factor once the global factor stands at `global`.
pub fn fold_pool_factor(boost: Boost, global: Factor) -> (r: Factor)
    ensures
        r.bits == folded_pool_factor(boost, global.bits as int),
{
    if global.gt(boost.last_rewards_factor) {
        let grown = global.saturating_sub(boost.last_rewards_factor);
        let weighted = grown.saturating_mul_int(boost.weight);
        match weighted.div_int(boost.total_deposits) {
            Some(share) => boost.rewards_factor.saturating_add(share),
            None => boost.rewards_factor,
        }
    } else {
        boost.rewards_factor
    }
}

/// The holder's rewards once the pool's factor stands at `pool`.
pub fn fold_rewards(stake: Stake, pool: Factor) -> (r: u64)
    ensures
        r == folded_rewards(stake, pool.bits as int),
{
    if pool.gt(stake.last_rewards_factor) {
        let grown = pool.saturating_sub(stake.last_rewards_factor);
        let earned = grown.saturating_mul_int(stake.balance);
        let whole = earned.to_u64();
        if whole > u64::MAX - stake.rewards {
            u64::MAX
        } else {
            stake.rewards + whole
        }
    } else {
        stake.rewards
    }
}

/// The rewards that the holder of `stake` can claim. Never fails: every step
/// saturates, and a zero divisor adds nothing at its stage.
pub fn calculate_claimable_yield(
    boost: Boost,
    boost_config: BoostConfig,
    boost_proof: Proof,
    stake: Stake,
) -> (rewards: u64)
    ensures
        rewards == claimable_yield(boost, boost_config, boost_proof, stake),
        rewards >= stake.rewards,
{
    let global = fold_global_factor(boost_config, boost_proof);
    let pool = fold_pool_factor(boost, global);
    proof {
        lemma_rewards_never_shrink(stake, pool.bits as int);
    }
    fold_rewards(stake, pool)
}

/// Folding the pending balance in never lowers the global factor.
pub proof fn lemma_global_factor_never_shrinks(config: BoostConfig, proof: Proof)
    ensures
        folded_global_factor(config, proof) >= config.rewards_factor.bits,
        i128::MIN <= folded_global_factor(config, proof) <= i128::MAX,
{
    if proof.balance > 0 && config.total_weight > 0 {
        lemma_fraction_bounds(proof.balance, config.total_weight);
    }
}

/// Whatever the global factor, the pool's factor is at least what it was.
pub proof fn lemma_pool_factor_never_shrinks(boost: Boost, global: int)
    ensures
        folded_pool_factor(boost, global) >= boost.rewards_factor.bits,
        i128::MIN <= folded_pool_factor(boost, global) <= i128::MAX,
{
    if global > boost.last_rewards_factor.bits && boost.total_deposits > 0 {
        let grown = clamp_i128(global - boost.last_rewards_factor.bits);
        let weighted = clamp_i128(grown * boost.weight);
        lemma_weighted_growth(grown, boost.weight as int);
        lemma_quotient_monotone(0, weighted, boost.total_deposits as int);
    }
}

/// Whatever the pool's factor, the holder's rewards are at least what was
/// accrued already.
pub proof fn lemma_rewards_never_shrink(stake: Stake, pool: int)
    ensures
        folded_rewards(stake, pool) >= stake.rewards,
        0 <= folded_rewards(stake, pool) <= u64::MAX,
{
}

/// Without progress nothing accrues: where the folded global factor is not
/// ahead of what the pool saw last, and the pool's factor is not ahead of what
/// the holder saw last, the claimable yield is exactly what was accrued
/// already.
pub proof fn lemma_no_progress_no_accrual(
    boost: Boost,
    boost_config: BoostConfig,
    boost_proof: Proof,
    stake: Stake,
)
    requires
        folded_global_factor(boost_config, boost_proof) <= boost.last_rewards_factor.bits,
        boost.rewards_factor.bits <= stake.last_rewards_factor.bits,
    ensures
        claimable_yield(boost, boost_config, boost_proof, stake) == stake.rewards,
{
}

/// The pool's factor does not fall when the global factor rises.
pub proof fn lemma_pool_factor_monotone(boost: Boost, low: int, high: int)
    requires
        low <= high,
    ensures
        folded_pool_factor(boost, low) <= folded_pool_factor(boost, high),
{
    lemma_pool_factor_never_shrinks(boost, high);
    if low > boost.last_rewards_factor.bits && boost.total_deposits > 0 {
        let last = boost.last_rewards_factor.bits as int;
        let grown_low = clamp_i128(low - last);
        let grown_high = clamp_i128(high - last);
        lemma_weighted_growth(grown_low, boost.weight as int);
        lemma_weighted_growth(grown_high, boost.weight as int);
        lemma_product_monotone(grown_low, grown_high, boost.weight as int);
        lemma_quotient_monotone(
            clamp_i128(grown_low * boost.weight),
            clamp_i128(grown_high * boost.weight),
            boost.total_deposits as int,
        );
    }
}

/// The holder's rewards do not fall when the pool's factor rises.
pub proof fn lemma_rewards_monotone(stake: Stake, low: int, high: int)
    requires
        low <= high,
    ensures
        folded_rewards(stake, low) <= folded_rewards(stake, high),
{
    if low > stake.last_rewards_factor.bits {
        let last = stake.last_rewards_factor.bits as int;
        let grown_low = clamp_i128(low - last);
        let grown_high = clamp_i128(high - last);
        lemma_weighted_growth(grown_low, stake.balance as int);
        lemma_weighted_growth(grown_high, stake.balance as int);
        lemma_product_monotone(grown_low, grown_high, stake.balance as int);
        lemma_quotient_monotone(
            clamp_i128(grown_low * stake.balance),
            clamp_i128(grown_high * stake.balance),
            SCALE as int,
        );
    }
}

/// The claimable yield does not fall when the global factor rises and every
/// other input stays as it is.
pub proof fn lemma_yield_monotone_in_global_factor(
    boost: Boost,
    boost_config: BoostConfig,
    risen: BoostConfig,
    boost_proof: Proof,
    stake: Stake,
)
    requires
        risen.total_weight == boost_config.total_weight,
        boost_config.rewards_factor.bits <= risen.rewards_factor.bits,
    ensures
        claimable_yield(boost, boost_config, boost_proof, stake) <= claimable_yield(
            boost,
            risen,
            boost_proof,
            stake,
        ),
{
    let low = folded_global_factor(boost_config, boost_proof);
    let high = folded_global_factor(risen, boost_proof);
    assert(low <= high);
    lemma_pool_factor_monotone(boost, low, high);
    lemma_rewards_monotone(
        stake,
        folded_pool_factor(boost, low),
        folded_pool_factor(boost, high),
    );
}

/// The claimable yield does not fall when the pool's factor rises and every
/// other input stays as it is.
pub proof fn lemma_yield_monotone_in_pool_factor(
    boost: Boost,
    risen: Boost,
    boost_config: BoostConfig,
    boost_proof: Proof,
    stake: Stake,
)
    requires
        risen.last_rewards_factor == boost.last_rewards_factor,
        risen.weight == boost.weight,
        risen.total_deposits == boost.total_deposits,
        boost.rewards_factor.bits <= risen.rewards_factor.bits,
    ensures
        claimable_yield(boost, boost_config, boost_proof, stake) <= claimable_yield(
            risen,
            boost_config,
            boost_proof,
            stake,
        ),
{
    let global = folded_global_factor(boost_config, boost_proof);
    assert(folded_pool_factor(boost, global) <= folded_pool_factor(risen, global));
    lemma_rewards_monotone(
        stake,
        folded_pool_factor(boost, global),
        folded_pool_factor(risen, global),
    );
}

/// A non-negative growth weighted by a count stays non-negative.
proof fn lemma_weighted_growth(grown: int, count: int)
    requires
        count >= 0,
    ensures
        grown >= 0 ==> grown * count >= 0,
{
    assert(grown >= 0 ==> grown * count >= 0) by (nonlinear_arith)
        requires
            count >= 0,
    ;
}

/// Multiplying by a non-negative count keeps the order.
proof fn lemma_product_monotone(low: int, high: int, count: int)
    requires
        low <= high,
        count >= 0,
    ensures
        low * count <= high * count,
{
    assert(low * count <= high * count) by (nonlinear_arith)
        requires
            low <= high,
            count >= 0,
    ;
}

/// Dividing non-negative numbers by a positive divisor keeps the order.
proof fn lemma_quotient_monotone(low: int, high: int, divisor: int)
    requires
        0 <= low <= high,
        divisor > 0,
    ensures
        0 <= low / divisor <= high / divisor,
        truncated_quotient(low, divisor) == low / divisor,
        truncated_quotient(high, divisor) == high / divisor,
{
    vstd::arithmetic::div_mod::lemma_div_is_ordered(low, high, divisor);
    vstd::arithmetic::div_mod::lemma_div_pos_is_pos(low, divisor);
}

} // verus!
