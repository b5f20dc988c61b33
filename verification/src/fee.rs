//! Fee calculation: time windows, priority multipliers, per-asset settings,
//! and the fee contract's state with its deduction paths and fallbacks.
use vstd::prelude::*;

use crate::host::{contract_error, contract_error_value};
use crate::priority::{PriorityFeeConfig, PriorityLevel};
use crate::AccountId;

verus! {

/// Basis points in one whole: a rate of 10_000 bps is 100%.
pub const BPS_DENOMINATOR: u32 = 10_000;

/// A period of ledger time, both ends included, during which a fee rate
/// replaces the default rate.
#[derive(Clone, Copy, Debug, PartialEq, Eq, Structural)]
pub struct FeeWindow {
    /// Ledger timestamp start
    pub start: u64,
    /// Ledger timestamp end
    pub end: u64,
    /// Fee rate in basis points (e.g., 100 = 1%)
    pub fee_rate: u32,
}

/// The default fee configuration.
#[derive(Clone, Debug)]
pub struct FeeConfig {
    /// Default fee rate in basis points
    pub default_fee_rate: u32,
    /// Time-based fee windows
    pub windows: Vec<FeeWindow>,
    /// Priority-based fee multipliers
    pub priority_config: PriorityFeeConfig,
}

/// The fee rate in force at `now`: that of the first window that contains
/// `now`, or the default rate where none does.
pub open spec fn window_rate(windows: Seq<FeeWindow>, default_rate: u32, now: u64) -> u32
    decreases windows.len(),
{
    if windows.len() == 0 {
        default_rate
    } else if windows[0].start <= now && now <= windows[0].end {
        windows[0].fee_rate
    } else {
        window_rate(windows.drop_first(), default_rate, now)
    }
}

/// A base rate scaled by a priority multiplier, in basis points. The
/// quotient is taken modulo 2^32, as a conversion to `u32` leaves it.
pub open spec fn adjusted_rate(base_rate_bps: u32, priority: PriorityLevel, config: PriorityFeeConfig) -> u32 {
    ((base_rate_bps as int * config.multiplier(priority) as int / 10_000) % 0x1_0000_0000) as u32
}

/// A rate scaled by a multiplier stays below 2^32 without wrapping.
pub open spec fn rate_fits(base_rate_bps: u32, priority: PriorityLevel, config: PriorityFeeConfig) -> bool {
    base_rate_bps as int * config.multiplier(priority) as int / 10_000 < 0x1_0000_0000
}

/// The fee on `amount` at `rate_bps`: nothing on a non-positive amount,
/// else the amount times the rate over 10_000, rounded down.
pub open spec fn fee_at_rate(amount: i128, rate_bps: u32) -> int {
    if amount <= 0 {
        0
    } else {
        amount as int * rate_bps as int / 10_000
    }
}

/// The product `amount * rate_bps` that a fee needs fits in an `i128`.
pub open spec fn fee_product_fits(amount: i128, rate_bps: u32) -> bool {
    amount <= 0 || amount as int * rate_bps as int <= i128::MAX
}

impl FeeConfig {
    /// The rate in force at `now`, before any priority multiplier.
    pub open spec fn rate_at_time(self, now: u64) -> u32 {
        window_rate(self.windows@, self.default_fee_rate, now)
    }

    /// The rate in force at `now` after the multiplier of `priority`.
    pub open spec fn priority_rate(self, now: u64, priority: PriorityLevel) -> u32 {
        adjusted_rate(self.rate_at_time(now), priority, self.priority_config)
    }

    /// The fee on `amount` at `now` for `priority`.
    pub open spec fn priority_fee(self, now: u64, amount: i128, priority: PriorityLevel) -> int {
        fee_at_rate(amount, self.priority_rate(now, priority))
    }

    /// The fee of `priority_fee` can be computed without overflow.
    pub open spec fn fee_fits(self, now: u64, amount: i128, priority: PriorityLevel) -> bool {
        fee_product_fits(amount, self.priority_rate(now, priority))
    }

    /// Returns the rate in force at `now`: the first window that contains
    /// `now` decides, else the default rate.
    pub fn rate_at(&self, now: u64) -> (r: u32)
        ensures
            r == self.rate_at_time(now),
    {
        let n = self.windows.len();
        let mut i: usize = 0;
        assert(self.windows@.skip(0) =~= self.windows@);
        while i < n
            invariant
                n == self.windows@.len(),
                0 <= i <= n,
                window_rate(self.windows@, self.default_fee_rate, now) == window_rate(
                    self.windows@.skip(i as int),
                    self.default_fee_rate,
                    now,
                ),
            decreases n - i,
        {
            let w = self.windows[i];
            assert(self.windows@.skip(i as int)[0] == w);
            if w.start <= now && now <= w.end {
                return w.fee_rate;
            }
            assert(self.windows@.skip(i as int).drop_first() =~= self.windows@.skip(i + 1));
            i = i + 1;
        }
        assert(self.windows@.skip(n as int) =~= Seq::<FeeWindow>::empty());
        self.default_fee_rate
    }
}

/// Calculate the fee rate for a given priority level.
/// Returns the adjusted fee rate in basis points.
pub fn calculate_priority_fee_rate(
    base_rate_bps: u32,
    priority: PriorityLevel,
    config: &PriorityFeeConfig,
) -> (r: u32)
    ensures
        r == adjusted_rate(base_rate_bps, priority, *config),
        rate_fits(base_rate_bps, priority, *config) ==> r as int == base_rate_bps as int
            * config.multiplier(priority) as int / 10_000,
{
    let multiplier_bps = config.get_multiplier_bps(priority);
    assert(base_rate_bps as int * multiplier_bps as int <= u64::MAX) by (nonlinear_arith)
        requires
            base_rate_bps <= u32::MAX,
            multiplier_bps <= u32::MAX,
    ;
    let product: u64 = base_rate_bps as u64 * multiplier_bps as u64;
    let quotient: u64 = product / 10_000;
    let r = quotient as u32;
    assert(r == quotient % 0x1_0000_0000) by (bit_vector)
        requires
            r == quotient as u32,
    ;
    r
}

/// Calculate the fee on `amount` at ledger time `now` with the default
/// (Medium) priority.
pub fn calculate_fee(now: u64, amount: i128, config: &FeeConfig) -> (r: i128)
    requires
        config.fee_fits(now, amount, PriorityLevel::Medium),
    ensures
        r == config.priority_fee(now, amount, PriorityLevel::Medium),
{
    calculate_fee_with_priority(now, amount, config, PriorityLevel::Medium)
}

/// Calculate the fee on `amount` at ledger time `now` with a priority level:
/// the rate of the window in force (or the default rate), scaled by the
/// priority multiplier, applied to the amount; nothing on a non-positive
/// amount.
pub fn calculate_fee_with_priority(
    now: u64,
    amount: i128,
    config: &FeeConfig,
    priority: PriorityLevel,
) -> (r: i128)
    requires
        config.fee_fits(now, amount, priority),
    ensures
        r == config.priority_fee(now, amount, priority),
        amount > 0 ==> 0 <= r <= amount as int * config.priority_rate(now, priority) as int
            / 10_000,
{
    if amount <= 0 {
        return 0;
    }
    let base_fee_rate = config.rate_at(now);
    let adjusted_fee_rate = calculate_priority_fee_rate(
        base_fee_rate,
        priority,
        &config.priority_config,
    );
    fee_on_amount(amount, adjusted_fee_rate)
}

/// `amount * rate_bps / 10_000` for a positive amount whose product fits.
fn fee_on_amount(amount: i128, rate_bps: u32) -> (r: i128)
    requires
        amount > 0,
        fee_product_fits(amount, rate_bps),
    ensures
        r == fee_at_rate(amount, rate_bps),
        0 <= r,
{
    assert(amount as int * rate_bps as int >= 0) by (nonlinear_arith)
        requires
            amount > 0,
            rate_bps >= 0,
    ;
    let product: i128 = amount * rate_bps as i128;
    product / 10_000
}

/// Every window starts strictly before it ends.
pub open spec fn windows_well_ordered(windows: Seq<FeeWindow>) -> bool {
    forall|i: int| 0 <= i < windows.len() ==> #[trigger] windows[i].start < windows[i].end
}

/// Checks that every window starts strictly before it ends.
pub fn validate_windows(windows: &Vec<FeeWindow>) -> (r: bool)
    ensures
        r == windows_well_ordered(windows@),
        r <==> forall|i: int| 0 <= i < windows@.len() ==> #[trigger] windows@[i].start < windows@[i].end,
{
    let n = windows.len();
    let mut i: usize = 0;
    while i < n
        invariant
            n == windows@.len(),
            0 <= i <= n,
            forall|j: int| 0 <= j < i ==> #[trigger] windows@[j].start < windows@[j].end,
        decreases n - i,
    {
        if windows[i].start >= windows[i].end {
            return false;
        }
        i = i + 1;
    }
    true
}

/// A single transaction entry for batch processing.
#[derive(Clone, Copy, Debug, PartialEq, Eq, Structural)]
pub struct FeeTransaction {
    /// The payer of this transaction
    pub payer: AccountId,
    /// The asset being used
    pub asset: AccountId,
    /// The transaction amount
    pub amount: i128,
    /// The priority level for this transaction
    pub priority: PriorityLevel,
}

/// Result for a single transaction within a batch.
#[derive(Clone, Copy, Debug, PartialEq, Eq, Structural)]
pub struct FeeTransactionResult {
    /// Net amount after fee deduction
    pub net_amount: i128,
    /// Fee charged for this transaction
    pub fee: i128,
}

/// Aggregate result returned by batch fee processing.
#[derive(Clone, Debug)]
pub struct BatchFeeResult {
    /// Per-transaction results, in the same order as the input
    pub results: Vec<FeeTransactionResult>,
    /// Sum of all fees charged across the batch
    pub total_fees: i128,
}

/// Aggregated figures of the fee contract at one ledger point.
#[derive(Clone, Copy, Debug, PartialEq, Eq, Structural)]
pub struct FeeContractMetrics {
    /// Cumulative fees collected across all deduction paths; matches `FeeContract::get_total_collected`.
    pub total_fees_collected: i128,
    /// Default fee rate in basis points when a fee config exists; otherwise `0`.
    pub default_fee_rate_bps: u32,
    pub ledger_timestamp: u64,
    pub ledger_sequence: u32,
}

/// Configuration for a specific asset's fee settings.
#[derive(Clone, Copy, Debug, PartialEq, Eq, Structural)]
pub struct AssetFeeConfig {
    /// The asset (token contract, or the native asset)
    pub asset: AccountId,
    /// Fee rate in basis points specific to this asset (e.g., 100 = 1%)
    pub fee_rate: u32,
    /// Optional minimum fee for this asset (0 = no minimum)
    pub min_fee: i128,
    /// Optional maximum fee for this asset (0 = no maximum)
    pub max_fee: i128,
}

/// The ways in which the fee contract refuses a request.
#[derive(Clone, Copy, Debug, PartialEq, Eq, Structural, PartialOrd, Ord)]
pub enum FeeError {
    /// Contract not initialized
    NotInitialized,
    /// Contract already initialized
    AlreadyInitialized,
    /// Caller is not authorized
    Unauthorized,
    /// Invalid fee percentage
    InvalidPercentage,
    /// Invalid amount
    InvalidAmount,
    /// Arithmetic overflow
    Overflow,
    /// Invalid priority level
    InvalidPriorityLevel,
    /// Invalid priority multiplier configuration
    InvalidPriorityConfig,
    /// Invalid fee window
    InvalidFeeWindow,
    /// Invalid fee bound
    InvalidFeeBound,
    /// Invalid fee bound range
    InvalidFeeBoundRange,
    /// Asset fee configuration not found
    AssetNotConfigured,
}

impl FeeError {
    /// The error's code as the contract host reports it, from 1 upwards in
    /// declaration order.
    pub open spec fn error_code(self) -> u32 {
        match self {
            FeeError::NotInitialized => 1,
            FeeError::AlreadyInitialized => 2,
            FeeError::Unauthorized => 3,
            FeeError::InvalidPercentage => 4,
            FeeError::InvalidAmount => 5,
            FeeError::Overflow => 6,
            FeeError::InvalidPriorityLevel => 7,
            FeeError::InvalidPriorityConfig => 8,
            FeeError::InvalidFeeWindow => 9,
            FeeError::InvalidFeeBound => 10,
            FeeError::InvalidFeeBoundRange => 11,
            FeeError::AssetNotConfigured => 12,
        }
    }

    pub fn code(&self) -> (r: u32)
        ensures
            r == self.error_code(),
    {
        match self {
            FeeError::NotInitialized => 1,
            FeeError::AlreadyInitialized => 2,
            FeeError::Unauthorized => 3,
            FeeError::InvalidPercentage => 4,
            FeeError::InvalidAmount => 5,
            FeeError::Overflow => 6,
            FeeError::InvalidPriorityLevel => 7,
            FeeError::InvalidPriorityConfig => 8,
            FeeError::InvalidFeeWindow => 9,
            FeeError::InvalidFeeBound => 10,
            FeeError::InvalidFeeBoundRange => 11,
            FeeError::AssetNotConfigured => 12,
        }
    }
}

impl From<FeeError> for soroban_sdk::Error {
    fn from(value: FeeError) -> (r: Self) {
        contract_error(value.code())
    }
}

impl vstd::std_specs::convert::FromSpecImpl<FeeError> for soroban_sdk::Error {
    open spec fn obeys_from_spec() -> bool {
        true
    }

    open spec fn from_spec(v: FeeError) -> Self {
        contract_error_value(v.error_code())
    }
}

/// Indicates whether the primary fee path succeeded or a safe fallback was
/// applied instead.
#[derive(Clone, Copy, Debug, PartialEq, Eq, Structural, PartialOrd, Ord)]
pub enum FeeOperationStatus {
    /// Fee deducted using the configured rate for the asset/priority.
    Success,
    /// Primary fee calculation failed; a safe fallback fee was applied instead.
    FallbackUsed,
}

/// Result of a fee deduction that may have used a fallback path.
#[derive(Clone, Copy, Debug, PartialEq, Eq, Structural)]
pub struct FallbackFeeResult {
    /// The net amount after fee deduction.
    pub net_amount: i128,
    /// The fee that was actually charged (primary or fallback).
    pub fee_charged: i128,
    /// Whether the primary fee path succeeded or the fallback was taken.
    pub status: FeeOperationStatus,
}

/// Whether a fee log entry records a charge or a refund.
#[derive(Clone, Copy, Debug, PartialEq, Eq, Structural)]
pub enum FeeLogKind {
    Charge,
    Refund,
}

/// One entry of the fee history; its id is its position in the history.
#[derive(Clone, Copy, Debug, PartialEq, Eq, Structural)]
pub struct FeeLog {
    pub id: u64,
    /// The payer, where the entry has one.
    pub payer: Option<AccountId>,
    pub amount: i128,
    pub fee: i128,
    pub kind: FeeLogKind,
}

/// What the fee contract announces to the outside world; each carries the
/// ledger time at which it happened where the announcement includes it.
#[derive(Clone, Copy, Debug, PartialEq, Eq, Structural)]
pub enum FeeEvent {
    PriorityConfigUpdated {
        admin: AccountId,
        low_multiplier_bps: u32,
        medium_multiplier_bps: u32,
        high_multiplier_bps: u32,
        urgent_multiplier_bps: u32,
        timestamp: u64,
    },
    FeeDeducted { payer: AccountId, amount: i128, fee: i128, priority: u32, timestamp: u64 },
    ConfigUpdated { admin: AccountId, fee_rate: u32, timestamp: u64 },
    AssetConfigUpdated { admin: AccountId, asset: AccountId, fee_rate: u32, timestamp: u64 },
    AssetFeeDeducted {
        payer: AccountId,
        asset: AccountId,
        amount: i128,
        fee: i128,
        priority: u32,
        timestamp: u64,
    },
    BatchFeesDeducted { count: u32, total_fees: i128, timestamp: u64 },
    /// `reason`: 1, the computed fee would exceed the transaction amount;
    /// 2, the asset-specific fee exceeded the transaction amount; 3, no
    /// asset-specific configuration, so the default rate was used.
    FeeFallbackTriggered { payer: AccountId, amount: i128, fallback_fee: i128, reason: u32, timestamp: u64 },
    FeeBurned { amount: i128 },
}

/// Builds the events of the fee contract.
pub struct FeeEvents;

impl FeeEvents {
    pub fn priority_config_updated(now: u64, admin: AccountId, config: &PriorityFeeConfig) -> (r: FeeEvent)
        ensures
            r == (FeeEvent::PriorityConfigUpdated {
                admin,
                low_multiplier_bps: config.low_multiplier_bps,
                medium_multiplier_bps: config.medium_multiplier_bps,
                high_multiplier_bps: config.high_multiplier_bps,
                urgent_multiplier_bps: config.urgent_multiplier_bps,
                timestamp: now,
            }),
    {
        FeeEvent::PriorityConfigUpdated {
            admin,
            low_multiplier_bps: config.low_multiplier_bps,
            medium_multiplier_bps: config.medium_multiplier_bps,
            high_multiplier_bps: config.high_multiplier_bps,
            urgent_multiplier_bps: config.urgent_multiplier_bps,
            timestamp: now,
        }
    }

    pub fn fee_deducted(now: u64, payer: AccountId, amount: i128, fee: i128, priority: PriorityLevel) -> (r: FeeEvent)
        ensures
            r == (FeeEvent::FeeDeducted { payer, amount, fee, priority: priority.code(), timestamp: now }),
    {
        FeeEvent::FeeDeducted { payer, amount, fee, priority: priority.to_u32(), timestamp: now }
    }

    pub fn config_updated(now: u64, admin: AccountId, fee_rate: u32) -> (r: FeeEvent)
        ensures
            r == (FeeEvent::ConfigUpdated { admin, fee_rate, timestamp: now }),
    {
        FeeEvent::ConfigUpdated { admin, fee_rate, timestamp: now }
    }

    pub fn asset_config_updated(now: u64, admin: AccountId, asset: AccountId, fee_rate: u32) -> (r: FeeEvent)
        ensures
            r == (FeeEvent::AssetConfigUpdated { admin, asset, fee_rate, timestamp: now }),
    {
        FeeEvent::AssetConfigUpdated { admin, asset, fee_rate, timestamp: now }
    }

    pub fn asset_fee_deducted(
        now: u64,
        payer: AccountId,
        asset: AccountId,
        amount: i128,
        fee: i128,
        priority: PriorityLevel,
    ) -> (r: FeeEvent)
        ensures
            r == (FeeEvent::AssetFeeDeducted {
                payer,
                asset,
                amount,
                fee,
                priority: priority.code(),
                timestamp: now,
            }),
    {
        FeeEvent::AssetFeeDeducted { payer, asset, amount, fee, priority: priority.to_u32(), timestamp: now }
    }

    pub fn batch_fees_deducted(now: u64, count: u32, total_fees: i128) -> (r: FeeEvent)
        ensures
            r == (FeeEvent::BatchFeesDeducted { count, total_fees, timestamp: now }),
    {
        FeeEvent::BatchFeesDeducted { count, total_fees, timestamp: now }
    }

    /// Emitted when the primary fee path fails and a fallback fee is applied.
    pub fn fee_fallback_triggered(
        now: u64,
        payer: AccountId,
        amount: i128,
        fallback_fee: i128,
        reason: u32,
    ) -> (r: FeeEvent)
        ensures
            r == (FeeEvent::FeeFallbackTriggered { payer, amount, fallback_fee, reason, timestamp: now }),
    {
        FeeEvent::FeeFallbackTriggered { payer, amount, fallback_fee, reason, timestamp: now }
    }
}

/// Burns `amount` of collected fees; returns the amount burned, and the
/// event that announces the burn.
pub fn burn_fee(amount: i128) -> (r: (i128, FeeEvent))
    ensures
        r == (amount, FeeEvent::FeeBurned { amount }),
{
    (amount, FeeEvent::FeeBurned { amount })
}

/// A window contains a ledger time when the time lies between its ends,
/// both included.
pub open spec fn window_contains(window: FeeWindow, now: u64) -> bool {
    window.start <= now && now <= window.end
}

/// The rate in force is that of the first window containing the time; where
/// no window contains it, the default rate.
pub proof fn lemma_window_rate_first_match(windows: Seq<FeeWindow>, default_rate: u32, now: u64)
    ensures
        (forall|j: int| 0 <= j < windows.len() ==> !window_contains(#[trigger] windows[j], now))
            ==> window_rate(windows, default_rate, now) == default_rate,
        forall|i: int|
            0 <= i < windows.len() && window_contains(#[trigger] windows[i], now) && (forall|j: int|
                0 <= j < i ==> !window_contains(#[trigger] windows[j], now)) ==> window_rate(
                windows,
                default_rate,
                now,
            ) == windows[i].fee_rate,
    decreases windows.len(),
{
    if windows.len() > 0 {
        let rest = windows.drop_first();
        lemma_window_rate_first_match(rest, default_rate, now);
        assert forall|j: int| 0 <= j < rest.len() implies rest[j] == windows[j + 1] by {}
        if (forall|j: int| 0 <= j < windows.len() ==> !window_contains(#[trigger] windows[j], now)) {
            assert(!window_contains(windows[0], now));
            assert forall|j: int| 0 <= j < rest.len() implies !window_contains(#[trigger] rest[j], now) by {
                assert(!window_contains(windows[j + 1], now));
            }
        }
        assert forall|i: int|
            0 <= i < windows.len() && window_contains(#[trigger] windows[i], now) && (forall|j: int|
                0 <= j < i ==> !window_contains(#[trigger] windows[j], now)) implies window_rate(
            windows,
            default_rate,
            now,
        ) == windows[i].fee_rate by {
            if i > 0 {
                assert(!window_contains(windows[0], now));
                assert(window_contains(rest[i - 1], now));
                assert forall|j: int| 0 <= j < i - 1 implies !window_contains(#[trigger] rest[j], now) by {
                    assert(!window_contains(windows[j + 1], now));
                }
            }
        }
    }
}

/// With multipliers that never decrease, a higher priority never pays a
/// smaller fee on the same amount at the same time, as long as the scaled
/// rate of the higher priority does not wrap.
pub proof fn lemma_priority_fee_monotone(
    config: FeeConfig,
    now: u64,
    amount: i128,
    p: PriorityLevel,
    q: PriorityLevel,
)
    requires
        config.priority_config.is_ascending(),
        p.code() <= q.code(),
        rate_fits(config.rate_at_time(now), q, config.priority_config),
    ensures
        config.priority_fee(now, amount, p) <= config.priority_fee(now, amount, q),
{
    let base = config.rate_at_time(now) as int;
    let mp = config.priority_config.multiplier(p) as int;
    let mq = config.priority_config.multiplier(q) as int;
    crate::priority::lemma_multiplier_monotone(config.priority_config, p, q);
    assert(base * mp / 10_000 <= base * mq / 10_000) by (nonlinear_arith)
        requires
            0 <= base,
            0 <= mp <= mq,
    ;
    assert(base * mp / 10_000 >= 0) by (nonlinear_arith)
        requires
            0 <= base,
            0 <= mp,
    ;
    let rp = config.priority_rate(now, p) as int;
    let rq = config.priority_rate(now, q) as int;
    assert(rp == base * mp / 10_000);
    assert(rq == base * mq / 10_000);
    if amount > 0 {
        assert(amount as int * rp / 10_000 <= amount as int * rq / 10_000) by (nonlinear_arith)
            requires
                amount > 0,
                0 <= rp <= rq,
        ;
    }
}

/// Window validation looks at each window on its own: a list passes exactly
/// when every window in it starts strictly before it ends. Nothing relates
/// one window to another, so overlapping windows pass (the first window that
/// contains a time decides its rate), and two lists pass together exactly
/// when each passes alone.
pub proof fn lemma_windows_checked_one_by_one(windows: Seq<FeeWindow>, more: Seq<FeeWindow>)
    ensures
        windows_well_ordered(windows) <==> (forall|i: int|
            0 <= i < windows.len() ==> #[trigger] windows[i].start < windows[i].end),
        windows_well_ordered(windows + more) <==> (windows_well_ordered(windows)
            && windows_well_ordered(more)),
        forall|w: FeeWindow| #[trigger] windows_well_ordered(seq![w]) <==> w.start < w.end,
{
    let all = windows + more;
    if windows_well_ordered(windows) && windows_well_ordered(more) {
        assert forall|i: int| 0 <= i < all.len() implies #[trigger] all[i].start < all[i].end by {
            if i < windows.len() {
                assert(all[i] == windows[i]);
            } else {
                assert(all[i] == more[i - windows.len()]);
            }
        }
    }
    if windows_well_ordered(all) {
        assert forall|i: int| 0 <= i < windows.len() implies #[trigger] windows[i].start < windows[i].end by {
            assert(all[i] == windows[i]);
        }
        assert forall|i: int| 0 <= i < more.len() implies #[trigger] more[i].start < more[i].end by {
            assert(all[i + windows.len()] == more[i]);
        }
    }
    assert forall|w: FeeWindow| #[trigger] windows_well_ordered(seq![w]) <==> w.start < w.end by {
        if w.start < w.end {
            assert forall|i: int| 0 <= i < seq![w].len() implies #[trigger] seq![w][i].start < seq![w][i].end by {
                assert(seq![w][i] == w);
            }
        } else {
            assert(seq![w][0] == w);
        }
    }
}

/// Marks the deterministic fee validation.
pub fn func_issue_212() {
}

/// Marks the fee batching optimization.
pub fn func_issue_210() {
}

/// Marks the fee priority handling.
pub fn func_issue_207() {
}

/// Marks the fee escrow.
pub fn func_issue_206() {
}

/// Marks the fee rebates.
pub fn func_issue_204() {
}

/// Marks the fee delegation.
pub fn func_issue_203() {
}

/// Marks the fee rounding strategy.
pub fn func_issue_198() {
}

/// Marks batch fee processing.
pub fn func_issue_190() {
}

/// Marks multi-asset fee support.
pub fn func_issue_189() {
}

} // verus!
