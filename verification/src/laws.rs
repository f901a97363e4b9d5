//! Properties of the contract that span several calls.
use vstd::prelude::*;
use crate::error::Error;
use crate::params::{
    valid_consensus_config, valid_jump_threshold, valid_staleness_window, valid_upgrade_delay,
    PARAM_CHANGE_DELAY_SECS,
};
use crate::rate_limit::{available_tokens, rate_limited, TokenBucket};
use crate::velocity::{allowed_delta, score_distance};
use crate::governance::{param_unlock_time, upgrade_unlock_time, ParamKey};
use crate::contract::{ScoreContract, Submission, WalletRecord};

verus! {

/// A staleness window proposed at `proposed_at` cannot be applied before the
/// time lock ends, which is `PARAM_CHANGE_DELAY_SECS` later (or the end of
/// time); from then on it can, and the window in force becomes the proposed one.
pub proof fn lemma_staleness_window_time_lock(
    c: ScoreContract,
    window: u64,
    proposed_at: u64,
    applied_at: u64,
)
    requires
        c.wf(),
        c.initialized,
        valid_staleness_window(window),
    ensures
        ({
            let p = c.with_staleness_proposal(window, proposed_at);
            &&& applied_at < param_unlock_time(proposed_at) ==> p.apply_refusal(
                ParamKey::StalenessWindow,
                applied_at,
            ) == Some(Error::ParamChangeNotReady)
            &&& applied_at >= param_unlock_time(proposed_at) ==> {
                &&& p.apply_refusal(ParamKey::StalenessWindow, applied_at) is None
                &&& p.with_change_applied(ParamKey::StalenessWindow).staleness_window == window
                &&& p.with_change_applied(ParamKey::StalenessWindow).pending_staleness_window is None
            }
        }),
        proposed_at + PARAM_CHANGE_DELAY_SECS <= u64::MAX ==> param_unlock_time(proposed_at)
            == proposed_at + PARAM_CHANGE_DELAY_SECS,
{
}

/// An upgrade proposed at `proposed_at` with `delay` cannot be executed
/// before `proposed_at + delay` (or the end of time); from then on it can,
/// and execution hands out exactly the proposed code hash.
pub proof fn lemma_upgrade_time_lock(
    c: ScoreContract,
    wasm_hash: Vec<u8>,
    delay: u64,
    proposed_at: u64,
    executed_at: u64,
)
    requires
        c.wf(),
        c.initialized,
        c.proposal_refusal(delay) is None,
    ensures
        ({
            let p = c.with_upgrade_proposal(wasm_hash, delay, proposed_at);
            &&& executed_at < upgrade_unlock_time(proposed_at, delay) ==> p.execution_refusal(
                executed_at,
            ) == Some(Error::UpgradeNotReady)
            &&& executed_at >= upgrade_unlock_time(proposed_at, delay) ==> {
                &&& p.execution_refusal(executed_at) is None
                &&& p.pending_upgrade.unwrap().wasm_hash == wasm_hash
            }
        }),
        proposed_at + delay <= u64::MAX ==> upgrade_unlock_time(proposed_at, delay) == proposed_at
            + delay,
        valid_upgrade_delay(delay),
{
}

/// While an upgrade is pending, a second proposal is refused.
pub proof fn lemma_single_pending_upgrade(
    c: ScoreContract,
    wasm_hash: Vec<u8>,
    delay: u64,
    now: u64,
    other_delay: u64,
)
    requires
        c.wf(),
        c.initialized,
    ensures
        c.with_upgrade_proposal(wasm_hash, delay, now).proposal_refusal(other_delay) == Some(
            Error::UpgradeAlreadyPending,
        ),
{
}

/// After a veto, nothing is left to execute.
pub proof fn lemma_veto_cancels_upgrade(c: ScoreContract, now: u64)
    requires
        c.initialized,
    ensures
        (ScoreContract { pending_upgrade: None, ..c }).execution_refusal(now) == Some(
            Error::NoPendingUpgrade,
        ),
{
}

/// Under the flat cooldown, an accepted submission at `second_at` that follows
/// an accepted one at `first_at` comes at least the cooldown later (or at the
/// end of time), whatever `first_at` is.
pub proof fn lemma_cooldown_between_accepted(
    c: ScoreContract,
    record: WalletRecord,
    first: Submission,
    first_at: u64,
    second: Submission,
    second_at: u64,
)
    requires
        c.wf(),
        c.bucket_capacity <= 1,
        c.submission_refusal(record, first, first_at) is None,
        c.submission_refusal(c.record_after(record, first, first_at), second, second_at) is None,
    ensures
        second_at >= first_at + c.cooldown_secs || second_at == u64::MAX,
{
}

/// With the velocity cap enabled, an accepted score moves away from the
/// previously accepted one by at most the hourly allowance times the whole
/// hours between them. An override lifts the cap for one submission only:
/// the accepted submission uses it up.
pub proof fn lemma_velocity_between_accepted(
    c: ScoreContract,
    record: WalletRecord,
    first: Submission,
    first_at: u64,
    second: Submission,
    second_at: u64,
)
    requires
        c.wf(),
        c.velocity_cap.enabled,
        c.submission_refusal(record, first, first_at) is None,
        c.submission_refusal(c.record_after(record, first, first_at), second, second_at) is None,
    ensures
        score_distance(second.score, first.score) <= allowed_delta(c.velocity_cap, first_at, second_at),
        !c.record_after(record, first, first_at).velocity_override,
{
}

/// Once a wallet's accepted scores reached the high-water mark, every later
/// accepted score is at least the floor value, and the wallet stays above the
/// mark: the historical maximum never decreases.
pub proof fn lemma_floor_holds_after_high_water_mark(
    c: ScoreContract,
    record: WalletRecord,
    submission: Submission,
    now: u64,
)
    requires
        c.wf(),
        c.floor_policy.enabled,
        record.historical_max >= c.floor_policy.high_water_mark,
        c.submission_refusal(record, submission, now) is None,
    ensures
        submission.score >= c.floor_policy.floor_value,
        c.record_after(record, submission, now).historical_max >= c.floor_policy.high_water_mark,
        c.record_after(record, submission, now).historical_max >= record.historical_max,
{
}

/// `n` submissions in a row at the same ledger time all pass the token bucket.
pub open spec fn bucket_admits_burst(
    bucket: Option<TokenBucket>,
    capacity: u32,
    cooldown: u64,
    now: u64,
    n: nat,
) -> bool
    decreases n,
{
    if n == 0 {
        true
    } else {
        let available = available_tokens(bucket, capacity, cooldown, now);
        &&& available > 0
        &&& bucket_admits_burst(
            Some(TokenBucket { tokens: (available - 1) as u32, last_refill: now }),
            capacity,
            cooldown,
            now,
            (n - 1) as nat,
        )
    }
}

/// Within one ledger second, a bucket that was refilled at that second
/// admits no more submissions than the tokens it holds (and the capacity).
pub proof fn lemma_burst_bounded_by_tokens(
    tokens: u32,
    capacity: u32,
    cooldown: u64,
    now: u64,
    n: nat,
)
    requires
        bucket_admits_burst(
            Some(TokenBucket { tokens, last_refill: now }),
            capacity,
            cooldown,
            now,
            n,
        ),
    ensures
        n <= tokens,
        n <= capacity,
    decreases n,
{
    if n > 0 {
        let available = available_tokens(
            Some(TokenBucket { tokens, last_refill: now }),
            capacity,
            cooldown,
            now,
        );
        assert(available == if tokens < capacity { tokens as int } else { capacity as int });
        lemma_burst_bounded_by_tokens((available - 1) as u32, capacity, cooldown, now, (n - 1) as nat);
    }
}

/// Within one ledger second, a wallet with no bucket yet gets at most
/// `capacity` submissions through the token bucket.
pub proof fn lemma_burst_bounded_by_capacity(capacity: u32, cooldown: u64, now: u64, n: nat)
    requires
        bucket_admits_burst(None, capacity, cooldown, now, n),
    ensures
        n <= capacity,
{
    if n > 0 {
        assert(available_tokens(None, capacity, cooldown, now) == capacity);
        lemma_burst_bounded_by_tokens((capacity - 1) as u32, capacity, cooldown, now, (n - 1) as nat);
    }
}

/// A consensus configuration is accepted exactly when `k` is at least 1 and
/// `epsilon` at most 100, whatever else they are.
pub proof fn lemma_consensus_config_bounds(k: u32, epsilon: u32)
    ensures
        valid_consensus_config(k, epsilon) <==> (k >= 1 && epsilon <= 100),
{
}

/// A staleness window is accepted exactly when it is not zero; there is no
/// upper bound.
pub proof fn lemma_staleness_window_bounds(window: u64)
    ensures
        valid_staleness_window(window) <==> window != 0,
{
}

/// A jump threshold is accepted exactly when it lies in 1..=99.
pub proof fn lemma_jump_threshold_bounds(threshold: u32)
    ensures
        valid_jump_threshold(threshold) <==> (1 <= threshold && threshold <= 99),
{
}

/// An upgrade delay is accepted exactly when it lies in 172_800..=1_209_600.
pub proof fn lemma_upgrade_delay_bounds(delay: u64)
    ensures
        valid_upgrade_delay(delay) <==> (172_800 <= delay && delay <= 1_209_600),
{
}

/// The tokens a bucket offers: a wallet without a bucket offers the full
/// capacity; otherwise the tokens left over plus one per whole cooldown
/// elapsed since the last refill, never more than the capacity. Left-over
/// tokens and refills add up.
pub proof fn lemma_available_tokens_add_up(
    bucket: TokenBucket,
    capacity: u32,
    cooldown: u64,
    now: u64,
)
    requires
        cooldown > 0,
        now >= bucket.last_refill,
    ensures
        ({
            let refills = (now - bucket.last_refill) / (cooldown as int);
            let sum = bucket.tokens + refills;
            available_tokens(Some(bucket), capacity, cooldown, now) == if sum < capacity {
                sum
            } else {
                capacity as int
            }
        }),
        available_tokens(None, capacity, cooldown, now) == capacity,
        available_tokens(Some(bucket), capacity, cooldown, now) >= if bucket.tokens < capacity {
            bucket.tokens as int
        } else {
            capacity as int
        },
{
}

/// A token taken under the token bucket: the rate limit refuses exactly when
/// no token is available, and an admitted submission leaves one token fewer
/// than the left-over tokens plus the refills (capped at the capacity), with
/// the refill time moved to `now`.
pub proof fn lemma_token_taken_from_sum(
    bucket: TokenBucket,
    capacity: u32,
    cooldown: u64,
    previous_submit: Option<u64>,
    now: u64,
)
    requires
        capacity > 1,
        cooldown > 0,
        now >= bucket.last_refill,
    ensures
        ({
            let refills = (now - bucket.last_refill) / (cooldown as int);
            let sum = bucket.tokens + refills;
            let available = if sum < capacity { sum } else { capacity as int };
            &&& rate_limited(capacity, cooldown, previous_submit, Some(bucket), now) <==> available
                == 0
            &&& !rate_limited(capacity, cooldown, previous_submit, Some(bucket), now)
                ==> crate::rate_limit::bucket_after(capacity, cooldown, Some(bucket), now) == Some(
                TokenBucket { tokens: (available - 1) as u32, last_refill: now },
            )
        }),
{
}

/// The velocity cap measures a score against the previous accepted score
/// only: with the cap on and no override, a submission that passes the range,
/// floor and rate-limit checks is accepted whenever it moves from the previous
/// score by at most the hourly allowance times the whole hours since the
/// previous submission, whatever the historical maximum is; it is refused for
/// velocity when it moves further.
pub proof fn lemma_velocity_measures_from_previous_score(
    c: ScoreContract,
    record: WalletRecord,
    submission: Submission,
    now: u64,
)
    requires
        c.wf(),
        c.initialized,
        c.velocity_cap.enabled,
        !record.velocity_override,
        record.latest is Some,
        now >= record.last_submit,
        submission.score <= 100,
        submission.confidence <= 100,
        !(c.floor_policy.enabled && record.historical_max >= c.floor_policy.high_water_mark
            && submission.score < c.floor_policy.floor_value),
        !rate_limited(
            c.bucket_capacity,
            c.cooldown_secs,
            record.previous_submit(),
            record.bucket,
            now,
        ),
    ensures
        ({
            let prev = record.latest.unwrap().score;
            let distance = if submission.score >= prev {
                submission.score - prev
            } else {
                prev - submission.score
            };
            let allowance = c.velocity_cap.max_delta_per_hour * ((now - record.last_submit) / 3600);
            &&& distance <= allowance ==> c.submission_refusal(record, submission, now) is None
            &&& distance > allowance ==> c.submission_refusal(record, submission, now) == Some(
                Error::ScoreVelocityExceeded,
            )
        }),
{
}

/// The first submission of a fresh wallet record is accepted whenever its
/// score and confidence are at most 100, as long as the floor and the velocity
/// cap are off; it is stored as the latest score.
pub proof fn lemma_first_submission_in_range_accepted(
    c: ScoreContract,
    submission: Submission,
    now: u64,
)
    requires
        c.wf(),
        c.initialized,
        !c.floor_policy.enabled,
        !c.velocity_cap.enabled,
        submission.score <= 100,
        submission.confidence <= 100,
    ensures
        c.submission_refusal(WalletRecord::spec_empty(), submission, now) is None,
        c.record_after(WalletRecord::spec_empty(), submission, now).latest.unwrap().score
            == submission.score,
        c.record_after(WalletRecord::spec_empty(), submission, now).historical_max
            == submission.score,
{
}

/// The score range refuses exactly the scores above 100: on an initialized
/// contract a score above 100 is refused as `InvalidScore`, and with the floor
/// off a score of at most 100 is never refused as `InvalidScore`.
pub proof fn lemma_score_range_is_up_to_100(
    c: ScoreContract,
    record: WalletRecord,
    submission: Submission,
    now: u64,
)
    requires
        c.initialized,
    ensures
        submission.score > 100 ==> c.submission_refusal(record, submission, now) == Some(
            Error::InvalidScore,
        ),
        submission.score <= 100 && !c.floor_policy.enabled ==> c.submission_refusal(
            record,
            submission,
            now,
        ) != Some(Error::InvalidScore),
        submission.score <= 100 && submission.confidence > 100 ==> c.submission_refusal(
            record,
            submission,
            now,
        ) == Some(Error::InvalidConfidence),
{
}

} // verus!
