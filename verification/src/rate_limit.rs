use vstd::prelude::*;
use crate::error::Error;

verus! {

/// Rate-limit state of one wallet and asset pair when the contract runs a
/// token bucket: the tokens left and the ledger time of the last refill.
#[derive(Clone, Copy, Debug, PartialEq, Eq, Structural)]
pub struct TokenBucket {
    pub tokens: u32,
    pub last_refill: u64,
}

/// `a + b`, capped at `u64::MAX`.
pub open spec fn capped_sum(a: u64, b: u64) -> int {
    if a + b > u64::MAX { u64::MAX as int } else { a + b }
}

/// The flat cooldown refuses a submission that comes before the previous one
/// plus the cooldown. Without a previous submission nothing blocks, whatever
/// the ledger time.
pub open spec fn cooldown_blocks(previous_submit: Option<u64>, cooldown: u64, now: u64) -> bool {
    previous_submit matches Some(last) && now < capped_sum(last, cooldown)
}

/// Whole cooldown periods that passed since the last refill; none when the
/// cooldown is zero or the clock stands before the last refill.
pub open spec fn refills_since(last_refill: u64, cooldown: u64, now: u64) -> int {
    if cooldown == 0 || now < last_refill {
        0
    } else {
        (now - last_refill) / (cooldown as int)
    }
}

/// The tokens available at `now`: a wallet without a bucket starts full; an
/// existing bucket gains one token per elapsed cooldown, up to the capacity.
pub open spec fn available_tokens(
    bucket: Option<TokenBucket>,
    capacity: u32,
    cooldown: u64,
    now: u64,
) -> int {
    match bucket {
        None => capacity as int,
        Some(b) => {
            let refilled = b.tokens + refills_since(b.last_refill, cooldown, now);
            if refilled < capacity { refilled } else { capacity as int }
        },
    }
}

/// Checks the flat cooldown.
pub fn check_cooldown(previous_submit: Option<u64>, cooldown: u64, now: u64) -> (r: Result<(), Error>)
    ensures
        r == (if cooldown_blocks(previous_submit, cooldown, now) {
            Err(Error::RateLimitExceeded)
        } else {
            Ok(())
        }),
{
    match previous_submit {
        Some(last) => if now < last.saturating_add(cooldown) {
            Err(Error::RateLimitExceeded)
        } else {
            Ok(())
        },
        None => Ok(()),
    }
}

/// Refills the bucket and takes one token for a submission at `now`.
/// Fails when no token is available; otherwise the bucket keeps one token
/// less than was available and records `now` as its last refill.
pub fn take_token(bucket: Option<TokenBucket>, capacity: u32, cooldown: u64, now: u64) -> (r:
    Result<TokenBucket, Error>)
    ensures
        available_tokens(bucket, capacity, cooldown, now) == 0 ==> r == Err::<TokenBucket, Error>(
            Error::RateLimitExceeded,
        ),
        available_tokens(bucket, capacity, cooldown, now) > 0 ==> r == Ok::<TokenBucket, Error>(
            TokenBucket {
                tokens: (available_tokens(bucket, capacity, cooldown, now) - 1) as u32,
                last_refill: now,
            },
        ),
        r matches Ok(b) ==> b.tokens < capacity,
{
    let (tokens, last_refill) = match bucket {
        None => (capacity, now),
        Some(b) => (b.tokens, b.last_refill),
    };
    let elapsed = now.saturating_sub(last_refill);
    let refills = match elapsed.checked_div(cooldown) {
        Some(n) => n,
        None => 0,
    };
    let sum = (tokens as u64).saturating_add(refills);
    let available: u32 = if sum < capacity as u64 {
        sum as u32
    } else {
        capacity
    };
    if available == 0 {
        Err(Error::RateLimitExceeded)
    } else {
        Ok(TokenBucket { tokens: available - 1, last_refill: now })
    }
}

/// The rate limit of one submission: with a capacity of at most one token the
/// flat cooldown applies and the bucket stays as it is; with a larger
/// capacity the submission takes a token from the bucket.
pub open spec fn rate_limited(
    capacity: u32,
    cooldown: u64,
    previous_submit: Option<u64>,
    bucket: Option<TokenBucket>,
    now: u64,
) -> bool {
    if capacity <= 1 {
        cooldown_blocks(previous_submit, cooldown, now)
    } else {
        available_tokens(bucket, capacity, cooldown, now) == 0
    }
}

/// The bucket after an admitted submission.
pub open spec fn bucket_after(
    capacity: u32,
    cooldown: u64,
    bucket: Option<TokenBucket>,
    now: u64,
) -> Option<TokenBucket> {
    if capacity <= 1 {
        bucket
    } else {
        Some(
            TokenBucket {
                tokens: (available_tokens(bucket, capacity, cooldown, now) - 1) as u32,
                last_refill: now,
            },
        )
    }
}

/// Admits or refuses one submission under the rate limit, and gives the
/// bucket to store when it is admitted.
pub fn check_rate_limit(
    capacity: u32,
    cooldown: u64,
    previous_submit: Option<u64>,
    bucket: Option<TokenBucket>,
    now: u64,
) -> (r:
    Result<Option<TokenBucket>, Error>)
    ensures
        r == (if rate_limited(capacity, cooldown, previous_submit, bucket, now) {
            Err(Error::RateLimitExceeded)
        } else {
            Ok(bucket_after(capacity, cooldown, bucket, now))
        }),
{
    if capacity <= 1 {
        match check_cooldown(previous_submit, cooldown, now) {
            Ok(()) => Ok(bucket),
            Err(e) => Err(e),
        }
    } else {
        match take_token(bucket, capacity, cooldown, now) {
            Ok(b) => Ok(Some(b)),
            Err(e) => Err(e),
        }
    }
}

} // verus!
