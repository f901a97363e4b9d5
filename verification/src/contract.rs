use vstd::prelude::*;
use crate::error::Error;
use crate::params::{
    check_consensus_config, check_jump_threshold, check_staleness_window, check_upgrade_delay,
    valid_consensus_config, valid_jump_threshold, valid_staleness_window, valid_upgrade_delay,
    DEFAULT_BUCKET_CAPACITY, DEFAULT_CONSENSUS_EPSILON, DEFAULT_CONSENSUS_K,
    DEFAULT_COOLDOWN_SECS, DEFAULT_JUMP_THRESHOLD, DEFAULT_STALENESS_WINDOW_SECS, MAX_CONFIDENCE,
    MAX_SCORE,
};
use crate::rate_limit::{bucket_after, check_rate_limit, rate_limited, TokenBucket};
use crate::velocity::{check_velocity, velocity_exceeded, VelocityCap};
use crate::floor::{floor_blocks, score_floor_blocks, FloorPolicy};
use crate::governance::{
    param_unlock_time, propose_change, upgrade_unlock_time, ParamKey, PendingChange,
    UpgradeProposal,
};

verus! {

/// What the contract publishes after a successful call.
#[derive(Clone, Copy, Debug, PartialEq, Eq, Structural)]
pub enum Event {
    /// The jump threshold was set (topic `jt_upd`).
    JumpThresholdUpdated { threshold: u32 },
    /// A time-locked parameter change was proposed (topic `pc_prop`).
    ParamChangeProposed { key: ParamKey, apply_after: u64 },
}

impl Event {
    /// The topic the event is published under.
    pub open spec fn spec_topic(self) -> Seq<char> {
        match self {
            Event::JumpThresholdUpdated { .. } => "jt_upd"@,
            Event::ParamChangeProposed { .. } => "pc_prop"@,
        }
    }

    /// The topic the event is published under.
    pub fn topic(&self) -> (s: &'static str)
        ensures
            s@ == self.spec_topic(),
    {
        match self {
            Event::JumpThresholdUpdated { .. } => "jt_upd",
            Event::ParamChangeProposed { .. } => "pc_prop",
        }
    }
}

/// One score submission of the scoring service.
#[derive(Clone, Debug)]
pub struct Submission {
    pub score: u32,
    pub flagged: bool,
    pub disputed: bool,
    pub nonce: u64,
    pub confidence: u32,
    pub model_version: u32,
    pub proof: Option<Vec<u8>>,
}

/// An accepted score, as stored and read back.
#[derive(Clone, Debug)]
pub struct ScoreRecord {
    pub score: u32,
    pub flagged: bool,
    pub disputed: bool,
    pub nonce: u64,
    pub confidence: u32,
    pub model_version: u32,
    pub proof: Option<Vec<u8>>,
    pub submitted_at: u64,
}

/// What the contract keeps for one wallet and asset pair.
#[derive(Clone, Debug)]
pub struct WalletRecord {
    /// The latest accepted score.
    pub latest: Option<ScoreRecord>,
    /// The highest score ever accepted (zero before the first one).
    pub historical_max: u32,
    /// Ledger time of the latest accepted score (zero before the first one;
    /// only read when `latest` holds a score).
    pub last_submit: u64,
    /// An administrator lifted the velocity cap for the next accepted score.
    pub velocity_override: bool,
    /// Token bucket, kept when the contract runs one.
    pub bucket: Option<TokenBucket>,
}

/// The record of `submission` accepted at `now`.
pub open spec fn record_of(submission: Submission, now: u64) -> ScoreRecord {
    ScoreRecord {
        score: submission.score,
        flagged: submission.flagged,
        disputed: submission.disputed,
        nonce: submission.nonce,
        confidence: submission.confidence,
        model_version: submission.model_version,
        proof: submission.proof,
        submitted_at: now,
    }
}

impl WalletRecord {
    /// A wallet and asset pair that never had a score.
    pub open spec fn spec_empty() -> WalletRecord {
        WalletRecord {
            latest: None,
            historical_max: 0,
            last_submit: 0,
            velocity_override: false,
            bucket: None,
        }
    }

    /// The stored scores are in range and the historical maximum bounds the latest one.
    pub open spec fn wf(&self) -> bool {
        &&& self.historical_max <= MAX_SCORE
        &&& self.latest matches Some(l) ==> {
            &&& l.score <= self.historical_max
            &&& l.confidence <= MAX_CONFIDENCE
        }
    }

    /// The latest accepted score, if any.
    pub open spec fn previous_score(&self) -> Option<u32> {
        match self.latest {
            Some(l) => Some(l.score),
            None => None,
        }
    }

    /// Ledger time of the latest accepted score, if there is one.
    pub open spec fn previous_submit(&self) -> Option<u64> {
        if self.latest is Some {
            Some(self.last_submit)
        } else {
            None
        }
    }

    /// Ledger time of the latest accepted score, if there is one.
    pub fn previous_submit_time(&self) -> (t: Option<u64>)
        ensures
            t == self.previous_submit(),
    {
        if self.latest.is_some() {
            Some(self.last_submit)
        } else {
            None
        }
    }

    /// The record of a wallet and asset pair that never had a score.
    pub fn new() -> (r: WalletRecord)
        ensures
            r == WalletRecord::spec_empty(),
            r.wf(),
    {
        WalletRecord {
            latest: None,
            historical_max: 0,
            last_submit: 0,
            velocity_override: false,
            bucket: None,
        }
    }

    /// The latest accepted score record; a wallet and asset pair without
    /// one is answered with `ScoreNotFound`.
    pub fn latest_record(&self) -> (r: Result<&ScoreRecord, Error>)
        ensures
            r is Ok <==> self.latest is Some,
            r matches Ok(l) ==> *l == self.latest.unwrap(),
            r matches Err(e) ==> e == Error::ScoreNotFound,
    {
        match &self.latest {
            Some(l) => Ok(l),
            None => Err(Error::ScoreNotFound),
        }
    }

    /// The latest accepted score, if any.
    pub fn latest_score(&self) -> (s: Option<u32>)
        ensures
            s == self.previous_score(),
    {
        match &self.latest {
            Some(l) => Some(l.score),
            None => None,
        }
    }
}

/// The contract's own state: its configuration and its pending proposals.
#[derive(Clone, Debug)]
pub struct ScoreContract {
    pub initialized: bool,
    pub consensus_k: u32,
    pub consensus_epsilon: u32,
    pub jump_threshold: u32,
    pub staleness_window: u64,
    pub pending_staleness_window: Option<PendingChange>,
    pub cooldown_secs: u64,
    pub bucket_capacity: u32,
    pub velocity_cap: VelocityCap,
    pub floor_policy: FloorPolicy,
    pub pending_upgrade: Option<UpgradeProposal>,
}

impl ScoreContract {
    /// Every configured value lies in its valid range.
    pub open spec fn wf(&self) -> bool {
        &&& valid_consensus_config(self.consensus_k, self.consensus_epsilon)
        &&& valid_jump_threshold(self.jump_threshold)
        &&& valid_staleness_window(self.staleness_window)
        &&& self.pending_staleness_window matches Some(p) ==> valid_staleness_window(p.value)
        &&& self.bucket_capacity >= 1
    }

    /// The state of a contract before `initialize`.
    pub open spec fn spec_new() -> ScoreContract {
        ScoreContract {
            initialized: false,
            consensus_k: DEFAULT_CONSENSUS_K,
            consensus_epsilon: DEFAULT_CONSENSUS_EPSILON,
            jump_threshold: DEFAULT_JUMP_THRESHOLD,
            staleness_window: DEFAULT_STALENESS_WINDOW_SECS,
            pending_staleness_window: None,
            cooldown_secs: DEFAULT_COOLDOWN_SECS,
            bucket_capacity: DEFAULT_BUCKET_CAPACITY,
            velocity_cap: VelocityCap { enabled: false, max_delta_per_hour: 0 },
            floor_policy: FloorPolicy { enabled: false, high_water_mark: 0, floor_value: 0 },
            pending_upgrade: None,
        }
    }

    /// A contract before `initialize`, holding the default configuration.
    pub fn new() -> (c: ScoreContract)
        ensures
            c == ScoreContract::spec_new(),
            c.wf(),
    {
        ScoreContract {
            initialized: false,
            consensus_k: DEFAULT_CONSENSUS_K,
            consensus_epsilon: DEFAULT_CONSENSUS_EPSILON,
            jump_threshold: DEFAULT_JUMP_THRESHOLD,
            staleness_window: DEFAULT_STALENESS_WINDOW_SECS,
            pending_staleness_window: None,
            cooldown_secs: DEFAULT_COOLDOWN_SECS,
            bucket_capacity: DEFAULT_BUCKET_CAPACITY,
            velocity_cap: VelocityCap { enabled: false, max_delta_per_hour: 0 },
            floor_policy: FloorPolicy { enabled: false, high_water_mark: 0, floor_value: 0 },
            pending_upgrade: None,
        }
    }

    /// Marks the contract initialized; a second call is refused.
    pub fn initialize(&mut self) -> (r: Result<(), Error>)
        requires
            old(self).wf(),
        ensures
            final(self).wf(),
            r == (if old(self).initialized {
                Err(Error::AlreadyInitialized)
            } else {
                Ok(())
            }),
            r is Ok ==> *final(self) == (ScoreContract { initialized: true, ..*old(self) }),
            r is Err ==> *final(self) == *old(self),
    {
        if self.initialized {
            return Err(Error::AlreadyInitialized);
        }
        self.initialized = true;
        Ok(())
    }

    /// Refuses administration of a contract that is not initialized.
    fn check_initialized(&self) -> (r: Result<(), Error>)
        ensures
            r == (if self.initialized {
                Ok(())
            } else {
                Err(Error::NotInitialized)
            }),
    {
        if self.initialized {
            Ok(())
        } else {
            Err(Error::NotInitialized)
        }
    }

    // ----------------------------------------------------------------------
    // Consensus configuration, jump threshold
    // ----------------------------------------------------------------------

    /// Sets the consensus quorum `k` and tolerance `epsilon` together.
    pub fn set_consensus_config(&mut self, k: u32, epsilon: u32) -> (r: Result<(), Error>)
        requires
            old(self).wf(),
        ensures
            final(self).wf(),
            r == (if !old(self).initialized {
                Err(Error::NotInitialized)
            } else if !valid_consensus_config(k, epsilon) {
                Err(Error::InvalidConsensusConfig)
            } else {
                Ok(())
            }),
            r is Ok ==> *final(self) == (ScoreContract {
                consensus_k: k,
                consensus_epsilon: epsilon,
                ..*old(self)
            }),
            r is Err ==> *final(self) == *old(self),
    {
        self.check_initialized()?;
        check_consensus_config(k, epsilon)?;
        self.consensus_k = k;
        self.consensus_epsilon = epsilon;
        Ok(())
    }

    /// The consensus quorum and tolerance.
    pub fn consensus_config(&self) -> (c: (u32, u32))
        ensures
            c == (self.consensus_k, self.consensus_epsilon),
    {
        (self.consensus_k, self.consensus_epsilon)
    }

    /// Sets the jump threshold and announces it.
    pub fn set_jump_threshold(&mut self, threshold: u32) -> (r: Result<Event, Error>)
        requires
            old(self).wf(),
        ensures
            final(self).wf(),
            r == (if !old(self).initialized {
                Err(Error::NotInitialized)
            } else if !valid_jump_threshold(threshold) {
                Err(Error::InvalidThreshold)
            } else {
                Ok(Event::JumpThresholdUpdated { threshold })
            }),
            r is Ok ==> *final(self) == (ScoreContract { jump_threshold: threshold, ..*old(self) }),
            r is Err ==> *final(self) == *old(self),
    {
        self.check_initialized()?;
        check_jump_threshold(threshold)?;
        self.jump_threshold = threshold;
        Ok(Event::JumpThresholdUpdated { threshold })
    }

    /// The jump threshold.
    pub fn jump_threshold(&self) -> (t: u32)
        ensures
            t == self.jump_threshold,
    {
        self.jump_threshold
    }

    // ----------------------------------------------------------------------
    // Time-locked parameters
    // ----------------------------------------------------------------------

    /// Proposes a new staleness window; it takes effect through
    /// `apply_param_change` once the time lock has passed. A newer proposal
    /// replaces a pending one.
    pub fn set_staleness_window(&mut self, window: u64, now: u64) -> (r: Result<Event, Error>)
        requires
            old(self).wf(),
        ensures
            final(self).wf(),
            r == (if !old(self).initialized {
                Err(Error::NotInitialized)
            } else if !valid_staleness_window(window) {
                Err(Error::InvalidStalenessWindow)
            } else {
                Ok(
                    Event::ParamChangeProposed {
                        key: ParamKey::StalenessWindow,
                        apply_after: param_unlock_time(now),
                    },
                )
            }),
            r is Ok ==> *final(self) == old(self).with_staleness_proposal(window, now),
            r is Err ==> *final(self) == *old(self),
    {
        self.check_initialized()?;
        check_staleness_window(window)?;
        let proposal = propose_change(window, now);
        self.pending_staleness_window = Some(proposal);
        Ok(
            Event::ParamChangeProposed {
                key: ParamKey::StalenessWindow,
                apply_after: proposal.apply_after,
            },
        )
    }

    /// The contract after a staleness-window proposal of `window` at `now`.
    pub open spec fn with_staleness_proposal(self, window: u64, now: u64) -> ScoreContract {
        ScoreContract {
            pending_staleness_window: Some(
                PendingChange { value: window, apply_after: param_unlock_time(now) },
            ),
            ..self
        }
    }

    /// Why `apply_param_change(key, now)` is refused, if it is.
    pub open spec fn apply_refusal(self, key: ParamKey, now: u64) -> Option<Error> {
        if !self.initialized {
            Some(Error::NotInitialized)
        } else {
            match key {
                ParamKey::StalenessWindow => match self.pending_staleness_window {
                    None => Some(Error::NoPendingParamChange),
                    Some(p) => if now < p.apply_after {
                        Some(Error::ParamChangeNotReady)
                    } else {
                        None
                    },
                },
            }
        }
    }

    /// The contract after the pending change of `key` was applied.
    pub open spec fn with_change_applied(self, key: ParamKey) -> ScoreContract {
        match key {
            ParamKey::StalenessWindow => match self.pending_staleness_window {
                Some(p) => ScoreContract {
                    staleness_window: p.value,
                    pending_staleness_window: None,
                    ..self
                },
                None => self,
            },
        }
    }

    /// Applies the pending change of `key` once its time lock has passed.
    pub fn apply_param_change(&mut self, key: ParamKey, now: u64) -> (r: Result<(), Error>)
        requires
            old(self).wf(),
        ensures
            final(self).wf(),
            r == (match old(self).apply_refusal(key, now) {
                Some(e) => Err(e),
                None => Ok(()),
            }),
            r is Ok ==> *final(self) == old(self).with_change_applied(key),
            r is Err ==> *final(self) == *old(self),
    {
        self.check_initialized()?;
        match key {
            ParamKey::StalenessWindow => match self.pending_staleness_window {
                None => Err(Error::NoPendingParamChange),
                Some(p) => {
                    if now < p.apply_after {
                        return Err(Error::ParamChangeNotReady);
                    }
                    self.staleness_window = p.value;
                    self.pending_staleness_window = None;
                    Ok(())
                },
            },
        }
    }

    /// The staleness window in force.
    pub fn staleness_window(&self) -> (w: u64)
        ensures
            w == self.staleness_window,
    {
        self.staleness_window
    }

    // ----------------------------------------------------------------------
    // Submission guards
    // ----------------------------------------------------------------------

    /// Enables or disables the velocity cap and sets its hourly allowance.
    pub fn set_score_velocity_cap(&mut self, enabled: bool, max_delta_per_hour: u32) -> (r: Result<(), Error>)
        requires
            old(self).wf(),
        ensures
            final(self).wf(),
            r == (if old(self).initialized {
                Ok(())
            } else {
                Err(Error::NotInitialized)
            }),
            r is Ok ==> *final(self) == (ScoreContract {
                velocity_cap: VelocityCap { enabled, max_delta_per_hour },
                ..*old(self)
            }),
            r is Err ==> *final(self) == *old(self),
    {
        self.check_initialized()?;
        self.velocity_cap = VelocityCap { enabled, max_delta_per_hour };
        Ok(())
    }

    /// Enables or disables the score floor and sets its high-water mark and floor value.
    pub fn set_score_floor_policy(
        &mut self,
        enabled: bool,
        high_water_mark: u32,
        floor_value: u32,
    ) -> (r: Result<(), Error>)
        requires
            old(self).wf(),
        ensures
            final(self).wf(),
            r == (if old(self).initialized {
                Ok(())
            } else {
                Err(Error::NotInitialized)
            }),
            r is Ok ==> *final(self) == (ScoreContract {
                floor_policy: FloorPolicy { enabled, high_water_mark, floor_value },
                ..*old(self)
            }),
            r is Err ==> *final(self) == *old(self),
    {
        self.check_initialized()?;
        self.floor_policy = FloorPolicy { enabled, high_water_mark, floor_value };
        Ok(())
    }

    /// Sets the token bucket capacity: one token keeps the flat cooldown,
    /// more tokens switch submissions to the token bucket.
    pub fn set_rate_limit_capacity(&mut self, capacity: u32) -> (r: Result<(), Error>)
        requires
            old(self).wf(),
        ensures
            final(self).wf(),
            r == (if !old(self).initialized {
                Err(Error::NotInitialized)
            } else if capacity == 0 {
                Err(Error::InvalidRateLimitCapacity)
            } else {
                Ok(())
            }),
            r is Ok ==> *final(self) == (ScoreContract { bucket_capacity: capacity, ..*old(self) }),
            r is Err ==> *final(self) == *old(self),
    {
        self.check_initialized()?;
        if capacity == 0 {
            return Err(Error::InvalidRateLimitCapacity);
        }
        self.bucket_capacity = capacity;
        Ok(())
    }

    /// Lifts the velocity cap for the next accepted score of one wallet and asset pair.
    pub fn override_score_velocity_cap(&self, record: &mut WalletRecord) -> (r: Result<(), Error>)
        ensures
            r == (if self.initialized {
                Ok(())
            } else {
                Err(Error::NotInitialized)
            }),
            r is Ok ==> *final(record) == (WalletRecord { velocity_override: true, ..*old(record) }),
            r is Err ==> *final(record) == *old(record),
            old(record).wf() ==> final(record).wf(),
    {
        self.check_initialized()?;
        record.velocity_override = true;
        Ok(())
    }

    /// Why a submission is refused, if it is. The checks run in this order:
    /// initialization, score range, confidence range, score floor, rate limit,
    /// velocity cap.
    pub open spec fn submission_refusal(
        self,
        record: WalletRecord,
        submission: Submission,
        now: u64,
    ) -> Option<Error> {
        if !self.initialized {
            Some(Error::NotInitialized)
        } else if submission.score > MAX_SCORE {
            Some(Error::InvalidScore)
        } else if submission.confidence > MAX_CONFIDENCE {
            Some(Error::InvalidConfidence)
        } else if floor_blocks(self.floor_policy, record.historical_max, submission.score) {
            Some(Error::InvalidScore)
        } else if rate_limited(
            self.bucket_capacity,
            self.cooldown_secs,
            record.previous_submit(),
            record.bucket,
            now,
        ) {
            Some(Error::RateLimitExceeded)
        } else if velocity_exceeded(
            self.velocity_cap,
            record.velocity_override,
            record.previous_score(),
            record.last_submit,
            submission.score,
            now,
        ) {
            Some(Error::ScoreVelocityExceeded)
        } else {
            None
        }
    }

    /// The wallet record after `submission` was accepted at `now`: the new
    /// score becomes the latest, the historical maximum grows to it, the
    /// submission time is recorded, an override is used up, and the bucket
    /// pays its token.
    pub open spec fn record_after(
        self,
        record: WalletRecord,
        submission: Submission,
        now: u64,
    ) -> WalletRecord {
        WalletRecord {
            latest: Some(record_of(submission, now)),
            historical_max: if submission.score > record.historical_max {
                submission.score
            } else {
                record.historical_max
            },
            last_submit: now,
            velocity_override: false,
            bucket: bucket_after(self.bucket_capacity, self.cooldown_secs, record.bucket, now),
        }
    }

    /// Submits a score for one wallet and asset pair at ledger time `now`.
    pub fn submit_score(&self, record: &mut WalletRecord, submission: Submission, now: u64) -> (r:
        Result<(), Error>)
        requires
            self.wf(),
        ensures
            r == (match self.submission_refusal(*old(record), submission, now) {
                Some(e) => Err(e),
                None => Ok(()),
            }),
            r is Ok ==> *final(record) == self.record_after(*old(record), submission, now),
            r is Err ==> *final(record) == *old(record),
            old(record).wf() ==> final(record).wf(),
            // What an accepted submission satisfies, guard by guard.
            r is Ok ==> submission.score <= MAX_SCORE && submission.confidence <= MAX_CONFIDENCE,
            r is Ok ==> !floor_blocks(self.floor_policy, old(record).historical_max, submission.score),
            r is Ok && self.bucket_capacity <= 1 && old(record).latest is Some
                ==> now >= old(record).last_submit + self.cooldown_secs || now == u64::MAX,
            r is Ok ==> !velocity_exceeded(
                self.velocity_cap,
                old(record).velocity_override,
                old(record).previous_score(),
                old(record).last_submit,
                submission.score,
                now,
            ),
            r is Ok ==> final(record).historical_max >= old(record).historical_max
                && final(record).historical_max >= submission.score,
    {
        self.check_initialized()?;
        if submission.score > MAX_SCORE {
            return Err(Error::InvalidScore);
        }
        if submission.confidence > MAX_CONFIDENCE {
            return Err(Error::InvalidConfidence);
        }
        if score_floor_blocks(self.floor_policy, record.historical_max, submission.score) {
            return Err(Error::InvalidScore);
        }
        let previous_submit = record.previous_submit_time();
        let bucket = check_rate_limit(
            self.bucket_capacity,
            self.cooldown_secs,
            previous_submit,
            record.bucket,
            now,
        )?;
        let previous = record.latest_score();
        check_velocity(
            self.velocity_cap,
            record.velocity_override,
            previous,
            record.last_submit,
            submission.score,
            now,
        )?;
        let historical_max = if submission.score > record.historical_max {
            submission.score
        } else {
            record.historical_max
        };
        let accepted = ScoreRecord {
            score: submission.score,
            flagged: submission.flagged,
            disputed: submission.disputed,
            nonce: submission.nonce,
            confidence: submission.confidence,
            model_version: submission.model_version,
            proof: submission.proof,
            submitted_at: now,
        };
        *record = WalletRecord {
            latest: Some(accepted),
            historical_max,
            last_submit: now,
            velocity_override: false,
            bucket,
        };
        Ok(())
    }

    // ----------------------------------------------------------------------
    // Upgrade governance
    // ----------------------------------------------------------------------

    /// Why `propose_upgrade(.., delay, ..)` is refused, if it is.
    pub open spec fn proposal_refusal(self, delay: u64) -> Option<Error> {
        if !self.initialized {
            Some(Error::NotInitialized)
        } else if self.pending_upgrade is Some {
            Some(Error::UpgradeAlreadyPending)
        } else if !valid_upgrade_delay(delay) {
            Some(Error::InvalidUpgradeDelay)
        } else {
            None
        }
    }

    /// The contract after an upgrade to `wasm_hash` was proposed at `now` with `delay`.
    pub open spec fn with_upgrade_proposal(self, wasm_hash: Vec<u8>, delay: u64, now: u64) -> ScoreContract {
        ScoreContract {
            pending_upgrade: Some(
                UpgradeProposal { wasm_hash, executable_after: upgrade_unlock_time(now, delay) },
            ),
            ..self
        }
    }

    /// Proposes installing the code with `wasm_hash` once `delay` seconds
    /// have passed; only one proposal may be pending.
    pub fn propose_upgrade(&mut self, wasm_hash: Vec<u8>, delay: u64, now: u64) -> (r: Result<(), Error>)
        requires
            old(self).wf(),
        ensures
            final(self).wf(),
            r == (match old(self).proposal_refusal(delay) {
                Some(e) => Err(e),
                None => Ok(()),
            }),
            r is Ok ==> *final(self) == old(self).with_upgrade_proposal(wasm_hash, delay, now),
            r is Err ==> *final(self) == *old(self),
    {
        self.check_initialized()?;
        if self.pending_upgrade.is_some() {
            return Err(Error::UpgradeAlreadyPending);
        }
        check_upgrade_delay(delay)?;
        self.pending_upgrade = Some(
            UpgradeProposal { wasm_hash, executable_after: now.saturating_add(delay) },
        );
        Ok(())
    }

    /// Why `execute_upgrade(now)` is refused, if it is.
    pub open spec fn execution_refusal(self, now: u64) -> Option<Error> {
        if !self.initialized {
            Some(Error::NotInitialized)
        } else {
            match self.pending_upgrade {
                None => Some(Error::NoPendingUpgrade),
                Some(p) => if now < p.executable_after {
                    Some(Error::UpgradeNotReady)
                } else {
                    None
                },
            }
        }
    }

    /// Takes the pending upgrade once its time lock has passed and gives the
    /// hash of the code to install.
    pub fn execute_upgrade(&mut self, now: u64) -> (r: Result<Vec<u8>, Error>)
        requires
            old(self).wf(),
        ensures
            final(self).wf(),
            old(self).execution_refusal(now) matches Some(e) ==> r == Err::<Vec<u8>, Error>(e),
            old(self).execution_refusal(now) is None ==> r == Ok::<Vec<u8>, Error>(
                old(self).pending_upgrade.unwrap().wasm_hash,
            ),
            r is Ok ==> *final(self) == (ScoreContract { pending_upgrade: None, ..*old(self) }),
            r is Err ==> *final(self) == *old(self),
    {
        self.check_initialized()?;
        match &self.pending_upgrade {
            None => {
                return Err(Error::NoPendingUpgrade);
            },
            Some(p) => {
                if now < p.executable_after {
                    return Err(Error::UpgradeNotReady);
                }
            },
        }
        match self.pending_upgrade.take() {
            Some(p) => Ok(p.wasm_hash),
            None => Err(Error::NoPendingUpgrade),
        }
    }

    /// Withdraws the pending upgrade.
    pub fn veto_upgrade(&mut self) -> (r: Result<(), Error>)
        requires
            old(self).wf(),
        ensures
            final(self).wf(),
            r == (if !old(self).initialized {
                Err(Error::NotInitialized)
            } else if old(self).pending_upgrade is None {
                Err(Error::NoPendingUpgrade)
            } else {
                Ok(())
            }),
            r is Ok ==> *final(self) == (ScoreContract { pending_upgrade: None, ..*old(self) }),
            r is Err ==> *final(self) == *old(self),
    {
        self.check_initialized()?;
        if self.pending_upgrade.is_none() {
            return Err(Error::NoPendingUpgrade);
        }
        self.pending_upgrade = None;
        Ok(())
    }
}

} // verus!
