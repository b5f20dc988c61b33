//! The fee contract's state, and its operations: configuration by the
//! administrator, fee quotes, deductions with their fallbacks, and history.
use vstd::prelude::*;

use std::collections::HashMap;

use crate::amounts::{
    amount_in, amount_of, fits_i128, lemma_total_of_empty, lemma_total_of_insert, make_pair_key,
    pair_key, total_of,
};
use crate::fee::{
    adjusted_rate, calculate_fee_with_priority, calculate_priority_fee_rate, fee_at_rate,
    fee_product_fits, rate_fits, validate_windows, windows_well_ordered, AssetFeeConfig, FallbackFeeResult,
    calculate_fee, FeeConfig, FeeContractMetrics, FeeError, FeeEvent, FeeEvents, FeeLog, FeeLogKind,
    FeeOperationStatus, FeeWindow, BPS_DENOMINATOR,
};
use crate::priority::{PriorityFeeConfig, PriorityLevel};
use crate::AccountId;

verus! {

broadcast use vstd::std_specs::hash::group_hash_axioms;

/// The fee on `amount` for an asset with its own settings: the asset's rate
/// scaled by the priority multiplier, raised to the asset's minimum and then
/// capped at its maximum, where those are set (non-zero).
pub open spec fn asset_fee(
    amount: i128,
    asset_config: AssetFeeConfig,
    priority_config: PriorityFeeConfig,
    priority: PriorityLevel,
) -> int {
    let raw = fee_at_rate(amount, adjusted_rate(asset_config.fee_rate, priority, priority_config));
    let raised = if asset_config.min_fee > 0 && raw < asset_config.min_fee {
        asset_config.min_fee as int
    } else {
        raw
    };
    if asset_config.max_fee > 0 && raised > asset_config.max_fee {
        asset_config.max_fee as int
    } else {
        raised
    }
}

/// The product that `asset_fee` needs fits in an `i128`.
pub open spec fn asset_fee_fits(
    amount: i128,
    asset_config: AssetFeeConfig,
    priority_config: PriorityFeeConfig,
    priority: PriorityLevel,
) -> bool {
    fee_product_fits(amount, adjusted_rate(asset_config.fee_rate, priority, priority_config))
}

/// The fee on `amount` in an asset with its own settings; see `asset_fee`.
pub fn calculate_fee_for_asset_with_priority(
    amount: i128,
    asset_config: &AssetFeeConfig,
    priority_config: &PriorityFeeConfig,
    priority: PriorityLevel,
) -> (r: i128)
    requires
        asset_fee_fits(amount, *asset_config, *priority_config, priority),
    ensures
        r == asset_fee(amount, *asset_config, *priority_config, priority),
        amount > 0 && asset_config.min_fee == 0 && asset_config.max_fee == 0 && rate_fits(
            asset_config.fee_rate,
            priority,
            *priority_config,
        ) ==> r == amount as int * (asset_config.fee_rate as int * priority_config.multiplier(priority) as int
            / 10_000) / 10_000,
{
    proof {
        lemma_asset_fee_unbounded(amount, *asset_config, *priority_config, priority);
    }
    let rate = calculate_priority_fee_rate(asset_config.fee_rate, priority, priority_config);
    let raw = if amount <= 0 {
        0
    } else {
        assert(amount as int * rate as int >= 0) by (nonlinear_arith)
            requires
                amount > 0,
        ;
        amount * rate as i128 / 10_000
    };
    let raised = if asset_config.min_fee > 0 && raw < asset_config.min_fee {
        asset_config.min_fee
    } else {
        raw
    };
    if asset_config.max_fee > 0 && raised > asset_config.max_fee {
        asset_config.max_fee
    } else {
        raised
    }
}

/// Without a minimum or maximum, the fee on a positive amount in an asset is
/// the amount times the asset's rate scaled by the multiplier of the given
/// priority, each quotient rounded down; the priority passed in is the one
/// whose multiplier applies. A higher priority never pays less.
pub proof fn lemma_asset_fee_unbounded(
    amount: i128,
    asset_config: AssetFeeConfig,
    priority_config: PriorityFeeConfig,
    priority: PriorityLevel,
)
    ensures
        amount > 0 && asset_config.min_fee == 0 && asset_config.max_fee == 0 && rate_fits(
            asset_config.fee_rate,
            priority,
            priority_config,
        ) ==> asset_fee(amount, asset_config, priority_config, priority) == amount as int * (
        asset_config.fee_rate as int * priority_config.multiplier(priority) as int / 10_000)
            / 10_000,
{
}

/// With no asset bounds and multipliers that never decrease, a higher
/// priority never pays a smaller asset fee; with the multiplier of one
/// priority twice that of another, the scaled rate doubles too.
pub proof fn lemma_asset_fee_priority_monotone(
    amount: i128,
    asset_config: AssetFeeConfig,
    priority_config: PriorityFeeConfig,
    p: PriorityLevel,
    q: PriorityLevel,
)
    requires
        amount > 0,
        asset_config.min_fee == 0,
        asset_config.max_fee == 0,
        priority_config.multiplier(p) <= priority_config.multiplier(q),
        rate_fits(asset_config.fee_rate, q, priority_config),
    ensures
        asset_fee(amount, asset_config, priority_config, p) <= asset_fee(
            amount,
            asset_config,
            priority_config,
            q,
        ),
{
    let base = asset_config.fee_rate as int;
    let mp = priority_config.multiplier(p) as int;
    let mq = priority_config.multiplier(q) as int;
    assert(base * mp / 10_000 <= base * mq / 10_000) by (nonlinear_arith)
        requires
            0 <= base,
            0 <= mp <= mq,
    ;
    assert(base * mp / 10_000 >= 0) by (nonlinear_arith)
        requires
            0 <= base,
            0 <= mp,
    ;
    lemma_asset_fee_unbounded(amount, asset_config, priority_config, p);
    lemma_asset_fee_unbounded(amount, asset_config, priority_config, q);
    let rp = base * mp / 10_000;
    let rq = base * mq / 10_000;
    assert(amount as int * rp / 10_000 <= amount as int * rq / 10_000) by (nonlinear_arith)
        requires
            amount > 0,
            0 <= rp <= rq,
    ;
}

/// An asset's bounds act on its unbounded fee: the fee with bounds is the
/// fee without them, raised to the minimum where one is set (non-zero) and
/// the fee falls short of it, then capped at the maximum where one is set
/// and the fee exceeds it. With both set and the minimum not above the
/// maximum, the fee lies between them.
pub proof fn lemma_asset_fee_bounds(
    amount: i128,
    asset_config: AssetFeeConfig,
    priority_config: PriorityFeeConfig,
    priority: PriorityLevel,
)
    ensures
        ({
            let unbounded = asset_fee(
                amount,
                AssetFeeConfig { min_fee: 0, max_fee: 0, ..asset_config },
                priority_config,
                priority,
            );
            let raised = if asset_config.min_fee > 0 && unbounded < asset_config.min_fee {
                asset_config.min_fee as int
            } else {
                unbounded
            };
            let fee = asset_fee(amount, asset_config, priority_config, priority);
            &&& fee == if asset_config.max_fee > 0 && raised > asset_config.max_fee {
                asset_config.max_fee as int
            } else {
                raised
            }
            &&& 0 < asset_config.min_fee <= asset_config.max_fee ==> asset_config.min_fee <= fee
                <= asset_config.max_fee
        }),
{
}

/// Who administers the fee contract, and how it computes fees.
pub struct FeeSettings {
    pub admin: Option<AccountId>,
    pub fee_config: Option<FeeConfig>,
    pub priority_config: Option<PriorityFeeConfig>,
    /// Lower bound of a fee on the default asset; none means zero.
    pub min_fee: Option<i128>,
    /// Upper bound of a fee on the default asset; none means no bound.
    pub max_fee: Option<i128>,
    pub asset_configs: HashMap<AccountId, AssetFeeConfig>,
}

/// The fees collected so far: in all, per payer, per asset, and per payer
/// and asset (under `pair_key`).
pub struct FeeLedger {
    pub total_collected: i128,
    pub user_fees: HashMap<AccountId, i128>,
    pub asset_collected: HashMap<AccountId, i128>,
    pub user_asset_fees: HashMap<u128, i128>,
}

/// The fee contract: its settings, what it has collected, its fee history,
/// and the events it has emitted (oldest first).
pub struct FeeContract {
    pub settings: FeeSettings,
    pub ledger: FeeLedger,
    pub logs: Vec<FeeLog>,
    pub events: Vec<FeeEvent>,
}

impl FeeContract {
    /// The lower fee bound in force: the configured one, else zero.
    pub open spec fn min_fee_bound(self) -> i128 {
        match self.settings.min_fee {
            Some(v) => v,
            None => 0,
        }
    }

    /// The upper fee bound in force: the configured one, else the largest `i128`.
    pub open spec fn max_fee_bound(self) -> i128 {
        match self.settings.max_fee {
            Some(v) => v,
            None => i128::MAX,
        }
    }

    /// A fee raised to the lower bound, then capped at the upper bound.
    pub open spec fn bounded(self, fee: int) -> int {
        let raised = if fee >= self.min_fee_bound() {
            fee
        } else {
            self.min_fee_bound() as int
        };
        if raised <= self.max_fee_bound() {
            raised
        } else {
            self.max_fee_bound() as int
        }
    }

    /// The priority multipliers in force: the configured ones, else the standard ones.
    pub open spec fn effective_priority_config(self) -> PriorityFeeConfig {
        match self.settings.priority_config {
            Some(c) => c,
            None => PriorityFeeConfig::standard(),
        }
    }

    /// The fee that the contract quotes on `amount`: the configured fee,
    /// within the bounds. Meaningful where a fee configuration exists.
    pub open spec fn quoted_fee(self, now: u64, amount: i128, priority: PriorityLevel) -> int {
        self.bounded(self.settings.fee_config.unwrap().priority_fee(now, amount, priority))
    }

    /// The products that a quote on `amount` needs fit, where a fee
    /// configuration exists.
    pub open spec fn quote_fits(self, now: u64, amount: i128, priority: PriorityLevel) -> bool {
        self.settings.fee_config matches Some(cfg) ==> cfg.fee_fits(now, amount, priority)
    }

    /// The fees that `payer` has paid on the default asset.
    pub open spec fn user_fees_of(self, payer: AccountId) -> int {
        amount_in(self.ledger.user_fees@, payer)
    }

    /// The fees collected in `asset`.
    pub open spec fn asset_fees_of(self, asset: AccountId) -> int {
        amount_in(self.ledger.asset_collected@, asset)
    }

    /// The fees that `payer` has paid in `asset`.
    pub open spec fn user_asset_fees_of(self, payer: AccountId, asset: AccountId) -> int {
        amount_in(self.ledger.user_asset_fees@, pair_key(payer, asset))
    }

    /// The ledger balances: the total collected is what payers paid on the
    /// default asset plus what was collected per asset, and what was
    /// collected per asset is what payers paid per asset.
    pub open spec fn ledger_balanced(self) -> bool {
        &&& self.ledger.total_collected == total_of(self.ledger.user_fees@) + total_of(
            self.ledger.asset_collected@,
        )
        &&& total_of(self.ledger.asset_collected@) == total_of(self.ledger.user_asset_fees@)
    }

    /// The contract as it stands before anything is configured.
    pub open spec fn is_blank(self) -> bool {
        &&& self.settings.admin is None
        &&& self.settings.fee_config is None
        &&& self.settings.priority_config is None
        &&& self.settings.min_fee is None
        &&& self.settings.max_fee is None
        &&& self.settings.asset_configs@ == Map::<AccountId, AssetFeeConfig>::empty()
        &&& self.ledger.total_collected == 0
        &&& self.ledger.user_fees@ == Map::<AccountId, i128>::empty()
        &&& self.ledger.asset_collected@ == Map::<AccountId, i128>::empty()
        &&& self.ledger.user_asset_fees@ == Map::<u128, i128>::empty()
        &&& self.logs@ == Seq::<FeeLog>::empty()
        &&& self.events@ == Seq::<FeeEvent>::empty()
    }

    /// A contract with no settings, nothing collected and no history.
    pub fn new() -> (r: Self)
        ensures
            r.is_blank(),
            r.ledger_balanced(),
    {
        proof {
            lemma_total_of_empty::<AccountId>();
            lemma_total_of_empty::<u128>();
        }
        FeeContract {
            settings: FeeSettings {
                admin: None,
                fee_config: None,
                priority_config: None,
                min_fee: None,
                max_fee: None,
                asset_configs: HashMap::new(),
            },
            ledger: FeeLedger {
                total_collected: 0,
                user_fees: HashMap::new(),
                asset_collected: HashMap::new(),
                user_asset_fees: HashMap::new(),
            },
            logs: Vec::new(),
            events: Vec::new(),
        }
    }

    fn require_initialized(&self) -> (r: Result<AccountId, FeeError>)
        ensures
            match self.settings.admin {
                Some(a) => r == Ok::<AccountId, FeeError>(a),
                None => r == Err::<AccountId, FeeError>(FeeError::NotInitialized),
            },
    {
        match self.settings.admin {
            Some(a) => Ok(a),
            None => Err(FeeError::NotInitialized),
        }
    }

    /// The error, if any, with which an administrative request by `caller`
    /// is refused: the contract must be initialized and `caller` its admin.
    pub open spec fn admin_error(self, caller: AccountId) -> Option<FeeError> {
        match self.settings.admin {
            None => Some(FeeError::NotInitialized),
            Some(a) => if a == caller {
                None
            } else {
                Some(FeeError::Unauthorized)
            },
        }
    }

    fn require_admin(&self, caller: AccountId) -> (r: Result<(), FeeError>)
        ensures
            match self.admin_error(caller) {
                Some(e) => r == Err::<(), FeeError>(e),
                None => r is Ok,
            },
    {
        let admin = self.require_initialized()?;
        if caller != admin {
            return Err(FeeError::Unauthorized);
        }
        Ok(())
    }

    fn bounded_fee(&self, fee: i128) -> (r: i128)
        ensures
            r == self.bounded(fee as int),
    {
        let lo = match self.settings.min_fee {
            Some(v) => v,
            None => 0,
        };
        let hi = match self.settings.max_fee {
            Some(v) => v,
            None => i128::MAX,
        };
        let raised = if fee >= lo {
            fee
        } else {
            lo
        };
        if raised <= hi {
            raised
        } else {
            hi
        }
    }
}

impl FeeContract {
    /// The fee charged by `deduct_fee_with_fallback` and whether the primary
    /// path was kept: the quoted fee where it does not exceed the amount, else
    /// the lower bound, capped at the amount.
    pub open spec fn fallback_charge(self, now: u64, amount: i128, priority: PriorityLevel) -> (int, FeeOperationStatus) {
        let primary = self.quoted_fee(now, amount, priority);
        if primary <= amount {
            (primary, FeeOperationStatus::Success)
        } else if self.min_fee_bound() <= amount {
            (self.min_fee_bound() as int, FeeOperationStatus::FallbackUsed)
        } else {
            (amount as int, FeeOperationStatus::FallbackUsed)
        }
    }

    /// The error with which `deduct_fee_with_fallback` refuses, if it does.
    pub open spec fn fallback_error(self, payer: AccountId, now: u64, amount: i128, priority: PriorityLevel) -> Option<FeeError> {
        if self.settings.admin is None {
            Some(FeeError::NotInitialized)
        } else if amount <= 0 {
            Some(FeeError::InvalidAmount)
        } else if self.settings.fee_config is None {
            Some(FeeError::NotInitialized)
        } else {
            let fee = self.fallback_charge(now, amount, priority).0;
            if fits_i128(amount - fee) && fits_i128(self.ledger.total_collected + fee) && fits_i128(
                self.user_fees_of(payer) + fee,
            ) {
                None
            } else {
                Some(FeeError::Overflow)
            }
        }
    }

    /// The fee computation of `deduct_fee_with_fallback` does not overflow
    /// where it is reached.
    pub open spec fn deduction_fits(self, now: u64, amount: i128, priority: PriorityLevel) -> bool {
        (self.settings.admin is Some && amount > 0) ==> self.quote_fits(now, amount, priority)
    }

    /// Tells whether `deduct_fee_with_fallback` can compute its fee without
    /// overflow, so that a caller can refuse the request beforehand.
    pub fn deduct_fee_fits(&self, now: u64, amount: i128, priority: PriorityLevel) -> (r: bool)
        ensures
            r == self.deduction_fits(now, amount, priority),
    {
        if self.settings.admin.is_none() || amount <= 0 {
            return true;
        }
        match &self.settings.fee_config {
            Some(cfg) => {
                let rate = calculate_priority_fee_rate(cfg.rate_at(now), priority, &cfg.priority_config);
                amount.checked_mul(rate as i128).is_some()
            },
            None => true,
        }
    }

    /// Deduct a fee for a default-asset transaction with fallback safety.
    ///
    /// If the computed fee would exceed the transaction amount, the minimum
    /// fee (capped at the amount) is charged instead. The charge is added to
    /// the total collected and to the payer's accrued fees.
    pub fn deduct_fee_with_fallback(
        &mut self,
        now: u64,
        payer: AccountId,
        amount: i128,
        priority: PriorityLevel,
    ) -> (r: Result<FallbackFeeResult, FeeError>)
        requires
            old(self).deduction_fits(now, amount, priority),
        ensures
            old(self).ledger_balanced() ==> final(self).ledger_balanced(),
            match r {
                Err(e) => {
                    &&& old(self).fallback_error(payer, now, amount, priority) == Some(e)
                    &&& *final(self) == *old(self)
                },
                Ok(res) => {
                    let fee = old(self).fallback_charge(now, amount, priority).0;
                    let status = old(self).fallback_charge(now, amount, priority).1;
                    &&& old(self).fallback_error(payer, now, amount, priority) is None
                    &&& res.fee_charged == fee
                    &&& res.net_amount == amount - fee
                    &&& res.status == status
                    &&& res.net_amount >= 0
                    &&& res.fee_charged <= amount
                    &&& (res.status == FeeOperationStatus::Success) == (old(self).quoted_fee(now, amount, priority) <= amount)
                    &&& res.status == FeeOperationStatus::Success ==> res.fee_charged == old(self).quoted_fee(now, amount, priority)
                    &&& res.status == FeeOperationStatus::FallbackUsed ==> res.fee_charged == (if old(self).min_fee_bound() <= amount {
                        old(self).min_fee_bound()
                    } else {
                        amount
                    })
                    &&& final(self).settings == old(self).settings
                    &&& final(self).logs == old(self).logs
                    &&& final(self).ledger.total_collected == old(self).ledger.total_collected + fee
                    &&& final(self).ledger.user_fees@ == old(self).ledger.user_fees@.insert(
                        payer,
                        (old(self).user_fees_of(payer) + fee) as i128,
                    )
                    &&& final(self).ledger.asset_collected == old(self).ledger.asset_collected
                    &&& final(self).ledger.user_asset_fees == old(self).ledger.user_asset_fees
                    &&& final(self).events@ == old(self).events@.push(
                        if status == FeeOperationStatus::Success {
                            FeeEvent::FeeDeducted {
                                payer,
                                amount,
                                fee: fee as i128,
                                priority: priority.code(),
                                timestamp: now,
                            }
                        } else {
                            FeeEvent::FeeFallbackTriggered {
                                payer,
                                amount,
                                fallback_fee: fee as i128,
                                reason: 1,
                                timestamp: now,
                            }
                        },
                    )
                },
            },
    {
        self.require_initialized()?;
        if amount <= 0 {
            return Err(FeeError::InvalidAmount);
        }
        let primary_fee = match &self.settings.fee_config {
            Some(config) => self.bounded_fee(calculate_fee_with_priority(now, amount, config, priority)),
            None => {
                return Err(FeeError::NotInitialized);
            },
        };
        let min_fee: i128 = match self.settings.min_fee {
            Some(v) => v,
            None => 0,
        };
        // Fall back to the minimum fee when the primary fee would swallow the
        // entire amount, capped at the amount so that the net stays >= 0.
        let (fee, status) = if primary_fee <= amount {
            (primary_fee, FeeOperationStatus::Success)
        } else {
            let fallback = if min_fee <= amount {
                min_fee
            } else {
                amount
            };
            (fallback, FeeOperationStatus::FallbackUsed)
        };
        let net_amount = match amount.checked_sub(fee) {
            Some(v) => v,
            None => {
                return Err(FeeError::Overflow);
            },
        };
        let total = match self.ledger.total_collected.checked_add(fee) {
            Some(v) => v,
            None => {
                return Err(FeeError::Overflow);
            },
        };
        let user_fees = match amount_of(&self.ledger.user_fees, &payer).checked_add(fee) {
            Some(v) => v,
            None => {
                return Err(FeeError::Overflow);
            },
        };
        proof {
            lemma_total_of_insert(self.ledger.user_fees@, payer, user_fees);
        }
        self.ledger.total_collected = total;
        self.ledger.user_fees.insert(payer, user_fees);
        let event = if status == FeeOperationStatus::Success {
            FeeEvents::fee_deducted(now, payer, amount, fee, priority)
        } else {
            FeeEvents::fee_fallback_triggered(now, payer, amount, fee, 1)
        };
        self.events.push(event);
        Ok(FallbackFeeResult { net_amount, fee_charged: fee, status })
    }
}

impl FeeContract {
    /// The fee charged by `deduct_asset_fee_with_fallback`, whether the
    /// primary path was kept, and the reason for a fallback (zero where there
    /// is none): the asset's own fee where the asset is configured and the fee
    /// does not exceed the amount; else the fee of the default configuration,
    /// with reason 2 where the asset's fee was too large and 3 where the asset
    /// has no settings of its own.
    pub open spec fn asset_charge(self, asset: AccountId, now: u64, amount: i128, priority: PriorityLevel) -> (int, FeeOperationStatus, u32) {
        let default_fee = self.settings.fee_config.unwrap().priority_fee(now, amount, priority);
        if self.settings.asset_configs@.contains_key(asset) {
            let f = asset_fee(
                amount,
                self.settings.asset_configs@[asset],
                self.effective_priority_config(),
                priority,
            );
            if f <= amount {
                (f, FeeOperationStatus::Success, 0)
            } else {
                (default_fee, FeeOperationStatus::FallbackUsed, 2)
            }
        } else {
            (default_fee, FeeOperationStatus::FallbackUsed, 3)
        }
    }

    /// The asset path of `deduct_asset_fee_with_fallback` falls back to the
    /// default configuration.
    pub open spec fn asset_falls_back(self, asset: AccountId, amount: i128, priority: PriorityLevel) -> bool {
        !self.settings.asset_configs@.contains_key(asset) || asset_fee(
            amount,
            self.settings.asset_configs@[asset],
            self.effective_priority_config(),
            priority,
        ) > amount
    }

    /// The error with which `deduct_asset_fee_with_fallback` refuses, if it does.
    pub open spec fn asset_error(
        self,
        payer: AccountId,
        asset: AccountId,
        now: u64,
        amount: i128,
        priority: PriorityLevel,
    ) -> Option<FeeError> {
        if self.settings.admin is None {
            Some(FeeError::NotInitialized)
        } else if amount <= 0 {
            Some(FeeError::InvalidAmount)
        } else if self.asset_falls_back(asset, amount, priority) && self.settings.fee_config is None {
            Some(FeeError::NotInitialized)
        } else {
            let fee = self.asset_charge(asset, now, amount, priority).0;
            if fits_i128(amount - fee) && fits_i128(self.asset_fees_of(asset) + fee) && fits_i128(
                self.ledger.total_collected + fee,
            ) && fits_i128(self.user_asset_fees_of(payer, asset) + fee) {
                None
            } else {
                Some(FeeError::Overflow)
            }
        }
    }

    /// The fee computations of `deduct_asset_fee_with_fallback` do not
    /// overflow where they are reached.
    pub open spec fn asset_fits(self, asset: AccountId, now: u64, amount: i128, priority: PriorityLevel) -> bool {
        (self.settings.admin is Some && amount > 0) ==> {
            &&& self.settings.asset_configs@.contains_key(asset) ==> asset_fee_fits(
                amount,
                self.settings.asset_configs@[asset],
                self.effective_priority_config(),
                priority,
            )
            &&& self.asset_falls_back(asset, amount, priority) ==> self.quote_fits(now, amount, priority)
        }
    }

    fn priority_config_in_force(&self) -> (r: PriorityFeeConfig)
        ensures
            r == self.effective_priority_config(),
    {
        match self.settings.priority_config {
            Some(c) => c,
            None => PriorityFeeConfig::default(),
        }
    }

    /// Tells whether `deduct_asset_fee_with_fallback` can compute its fee
    /// without overflow, so that a caller can refuse the request beforehand.
    pub fn deduct_asset_fee_fits(&self, asset: AccountId, now: u64, amount: i128, priority: PriorityLevel) -> (r: bool)
        ensures
            r == self.asset_fits(asset, now, amount, priority),
    {
        if self.settings.admin.is_none() || amount <= 0 {
            return true;
        }
        let priority_config = self.priority_config_in_force();
        let falls_back = match self.settings.asset_configs.get(&asset) {
            Some(asset_cfg) => {
                let rate = calculate_priority_fee_rate(asset_cfg.fee_rate, priority, &priority_config);
                if amount.checked_mul(rate as i128).is_none() {
                    return false;
                }
                calculate_fee_for_asset_with_priority(amount, asset_cfg, &priority_config, priority)
                    > amount
            },
            None => true,
        };
        if !falls_back {
            return true;
        }
        match &self.settings.fee_config {
            Some(cfg) => {
                let rate = calculate_priority_fee_rate(cfg.rate_at(now), priority, &cfg.priority_config);
                amount.checked_mul(rate as i128).is_some()
            },
            None => true,
        }
    }

    /// Deduct a fee for an asset-denominated transaction with fallback safety.
    ///
    /// Where the asset has no settings of its own, or its fee would exceed
    /// the amount, the default fee configuration is used instead and the
    /// result says so. The charge is added to the asset's total, to the total
    /// collected and to what the payer has paid in the asset.
    pub fn deduct_asset_fee_with_fallback(
        &mut self,
        now: u64,
        payer: AccountId,
        asset: AccountId,
        amount: i128,
        priority: PriorityLevel,
    ) -> (r: Result<FallbackFeeResult, FeeError>)
        requires
            old(self).asset_fits(asset, now, amount, priority),
        ensures
            old(self).ledger_balanced() ==> final(self).ledger_balanced(),
            match r {
                Err(e) => {
                    &&& old(self).asset_error(payer, asset, now, amount, priority) == Some(e)
                    &&& *final(self) == *old(self)
                },
                Ok(res) => {
                    let fee = old(self).asset_charge(asset, now, amount, priority).0;
                    let status = old(self).asset_charge(asset, now, amount, priority).1;
                    let reason = old(self).asset_charge(asset, now, amount, priority).2;
                    &&& old(self).asset_error(payer, asset, now, amount, priority) is None
                    &&& res.fee_charged == fee
                    &&& res.net_amount == amount - fee
                    &&& res.status == status
                    &&& final(self).settings == old(self).settings
                    &&& final(self).logs == old(self).logs
                    &&& final(self).ledger.total_collected == old(self).ledger.total_collected + fee
                    &&& final(self).ledger.user_fees == old(self).ledger.user_fees
                    &&& final(self).ledger.asset_collected@ == old(self).ledger.asset_collected@.insert(
                        asset,
                        (old(self).asset_fees_of(asset) + fee) as i128,
                    )
                    &&& final(self).ledger.user_asset_fees@ == old(self).ledger.user_asset_fees@.insert(
                        pair_key(payer, asset),
                        (old(self).user_asset_fees_of(payer, asset) + fee) as i128,
                    )
                    &&& final(self).events@ == old(self).events@.push(
                        if status == FeeOperationStatus::Success {
                            FeeEvent::AssetFeeDeducted {
                                payer,
                                asset,
                                amount,
                                fee: fee as i128,
                                priority: priority.code(),
                                timestamp: now,
                            }
                        } else {
                            FeeEvent::FeeFallbackTriggered {
                                payer,
                                amount,
                                fallback_fee: fee as i128,
                                reason,
                                timestamp: now,
                            }
                        },
                    )
                },
            },
    {
        self.require_initialized()?;
        if amount <= 0 {
            return Err(FeeError::InvalidAmount);
        }
        let priority_config = self.priority_config_in_force();
        let asset_attempt: Option<i128> = match self.settings.asset_configs.get(&asset) {
            Some(asset_cfg) => {
                let f = calculate_fee_for_asset_with_priority(amount, asset_cfg, &priority_config, priority);
                if f <= amount {
                    Some(f)
                } else {
                    // The asset's fee would consume the entire amount.
                    None
                }
            },
            None => None,
        };
        let (fee, status, reason) = match asset_attempt {
            Some(f) => (f, FeeOperationStatus::Success, 0u32),
            None => {
                let reason: u32 = if self.settings.asset_configs.contains_key(&asset) {
                    2
                } else {
                    3
                };
                match &self.settings.fee_config {
                    Some(cfg) => (
                        calculate_fee_with_priority(now, amount, cfg, priority),
                        FeeOperationStatus::FallbackUsed,
                        reason,
                    ),
                    None => {
                        return Err(FeeError::NotInitialized);
                    },
                }
            },
        };
        let net_amount = match amount.checked_sub(fee) {
            Some(v) => v,
            None => {
                return Err(FeeError::Overflow);
            },
        };
        let asset_total = match amount_of(&self.ledger.asset_collected, &asset).checked_add(fee) {
            Some(v) => v,
            None => {
                return Err(FeeError::Overflow);
            },
        };
        let total = match self.ledger.total_collected.checked_add(fee) {
            Some(v) => v,
            None => {
                return Err(FeeError::Overflow);
            },
        };
        let key = make_pair_key(payer, asset);
        let user_asset_fees = match amount_of(&self.ledger.user_asset_fees, &key).checked_add(fee) {
            Some(v) => v,
            None => {
                return Err(FeeError::Overflow);
            },
        };
        proof {
            lemma_total_of_insert(self.ledger.asset_collected@, asset, asset_total);
            lemma_total_of_insert(self.ledger.user_asset_fees@, key, user_asset_fees);
        }
        self.ledger.asset_collected.insert(asset, asset_total);
        self.ledger.total_collected = total;
        self.ledger.user_asset_fees.insert(key, user_asset_fees);
        let event = if status == FeeOperationStatus::Success {
            FeeEvents::asset_fee_deducted(now, payer, asset, amount, fee, priority)
        } else {
            FeeEvents::fee_fallback_triggered(now, payer, amount, fee, reason)
        };
        self.events.push(event);
        Ok(FallbackFeeResult { net_amount, fee_charged: fee, status })
    }
}

impl FeeContract {
    /// Sets up the contract: `admin` administers it, and fees are charged at
    /// `default_fee_rate` basis points with the standard priority multipliers
    /// and no time windows. Refused once set up, and for a rate above 100%.
    pub fn initialize(&mut self, admin: AccountId, default_fee_rate: u32) -> (r: Result<(), FeeError>)
        ensures
            old(self).settings.admin is Some ==> r == Err::<(), FeeError>(FeeError::AlreadyInitialized),
            old(self).settings.admin is None && default_fee_rate > BPS_DENOMINATOR ==> r == Err::<(), FeeError>(
                FeeError::InvalidPercentage,
            ),
            old(self).settings.admin is None && default_fee_rate <= BPS_DENOMINATOR ==> r is Ok,
            r is Err ==> *final(self) == *old(self),
            r is Ok ==> {
                &&& old(self).settings.admin is None
                &&& default_fee_rate <= BPS_DENOMINATOR
                &&& final(self).settings.admin == Some(admin)
                &&& final(self).settings.fee_config matches Some(cfg) && cfg.default_fee_rate
                    == default_fee_rate && cfg.windows@ == Seq::<FeeWindow>::empty()
                    && cfg.priority_config == PriorityFeeConfig::standard()
                &&& final(self).settings.priority_config == Some(PriorityFeeConfig::standard())
                &&& final(self).settings.min_fee == old(self).settings.min_fee
                &&& final(self).settings.max_fee == old(self).settings.max_fee
                &&& final(self).settings.asset_configs == old(self).settings.asset_configs
                &&& final(self).ledger == old(self).ledger
                &&& final(self).logs == old(self).logs
                &&& final(self).events == old(self).events
            },
    {
        if self.settings.admin.is_some() {
            return Err(FeeError::AlreadyInitialized);
        }
        if default_fee_rate > BPS_DENOMINATOR {
            return Err(FeeError::InvalidPercentage);
        }
        let priority_config = PriorityFeeConfig::default();
        self.settings.admin = Some(admin);
        self.settings.fee_config = Some(
            FeeConfig { default_fee_rate, windows: Vec::new(), priority_config },
        );
        self.settings.priority_config = Some(priority_config);
        Ok(())
    }

    /// The default fee configuration; refused before initialization.
    pub fn get_fee_config(&self) -> (r: Result<&FeeConfig, FeeError>)
        ensures
            match self.settings.fee_config {
                Some(cfg) => r == Ok::<&FeeConfig, FeeError>(&cfg),
                None => r == Err::<&FeeConfig, FeeError>(FeeError::NotInitialized),
            },
    {
        match &self.settings.fee_config {
            Some(cfg) => Ok(cfg),
            None => Err(FeeError::NotInitialized),
        }
    }

    /// The priority multipliers in force (the standard ones until set).
    pub fn get_priority_config(&self) -> (r: PriorityFeeConfig)
        ensures
            r == self.effective_priority_config(),
    {
        self.priority_config_in_force()
    }

    /// The multiplier in force for one priority level.
    pub fn get_priority_multiplier(&self, priority: PriorityLevel) -> (r: u32)
        ensures
            r == self.effective_priority_config().multiplier(priority),
    {
        self.priority_config_in_force().get_multiplier_bps(priority)
    }

    /// Replaces the priority multipliers, both those in force and those of
    /// the default fee configuration. Only the admin may; the multipliers
    /// must not decrease from Low to Urgent.
    pub fn set_priority_multipliers(
        &mut self,
        now: u64,
        caller: AccountId,
        low_multiplier_bps: u32,
        medium_multiplier_bps: u32,
        high_multiplier_bps: u32,
        urgent_multiplier_bps: u32,
    ) -> (r: Result<(), FeeError>)
        ensures
            ({
                let config = PriorityFeeConfig {
                    low_multiplier_bps,
                    medium_multiplier_bps,
                    high_multiplier_bps,
                    urgent_multiplier_bps,
                };
                match r {
                    Err(e) => {
                        &&& *final(self) == *old(self)
                        &&& match old(self).admin_error(caller) {
                            Some(a) => e == a,
                            None => e == FeeError::InvalidPriorityConfig && !config.is_ascending(),
                        }
                    },
                    Ok(_) => {
                        &&& old(self).admin_error(caller) is None
                        &&& config.is_ascending()
                        &&& final(self).settings.priority_config == Some(config)
                        &&& match old(self).settings.fee_config {
                            Some(c) => final(self).settings.fee_config matches Some(n) && n.priority_config
                                == config && n.default_fee_rate == c.default_fee_rate && n.windows
                                == c.windows,
                            None => final(self).settings.fee_config is None,
                        }
                        &&& final(self).settings.admin == old(self).settings.admin
                        &&& final(self).settings.min_fee == old(self).settings.min_fee
                        &&& final(self).settings.max_fee == old(self).settings.max_fee
                        &&& final(self).settings.asset_configs == old(self).settings.asset_configs
                        &&& final(self).ledger == old(self).ledger
                        &&& final(self).logs == old(self).logs
                        &&& final(self).events@ == old(self).events@.push(
                            FeeEvent::PriorityConfigUpdated {
                                admin: caller,
                                low_multiplier_bps,
                                medium_multiplier_bps,
                                high_multiplier_bps,
                                urgent_multiplier_bps,
                                timestamp: now,
                            },
                        )
                    },
                }
            }),
    {
        self.require_admin(caller)?;
        let config = PriorityFeeConfig {
            low_multiplier_bps,
            medium_multiplier_bps,
            high_multiplier_bps,
            urgent_multiplier_bps,
        };
        if !config.is_valid() {
            return Err(FeeError::InvalidPriorityConfig);
        }
        self.settings.priority_config = Some(config);
        let current = self.settings.fee_config.take();
        match current {
            Some(mut cfg) => {
                cfg.priority_config = config;
                self.settings.fee_config = Some(cfg);
            },
            None => {},
        }
        self.events.push(FeeEvents::priority_config_updated(now, caller, &config));
        Ok(())
    }

    /// Replaces the default rate and the time windows of the fee
    /// configuration, keeping its priority multipliers. Only the admin may;
    /// the rate must not exceed 100% and each window must start before it ends.
    pub fn set_fee_config(
        &mut self,
        now: u64,
        caller: AccountId,
        default_fee_rate: u32,
        windows: Vec<FeeWindow>,
    ) -> (r: Result<(), FeeError>)
        ensures
            match r {
                Err(e) => {
                    &&& *final(self) == *old(self)
                    &&& match old(self).admin_error(caller) {
                        Some(a) => e == a,
                        None => if default_fee_rate > BPS_DENOMINATOR {
                            e == FeeError::InvalidPercentage
                        } else {
                            e == FeeError::InvalidFeeWindow && !windows_well_ordered(windows@) && exists|i: int|
                                0 <= i < windows@.len() && #[trigger] windows@[i].start >= windows@[i].end
                        },
                    }
                },
                Ok(_) => {
                    &&& old(self).admin_error(caller) is None
                    &&& default_fee_rate <= BPS_DENOMINATOR
                    &&& windows_well_ordered(windows@)
                    &&& forall|i: int| 0 <= i < windows@.len() ==> #[trigger] windows@[i].start < windows@[i].end
                    &&& final(self).settings.fee_config matches Some(n) && n.default_fee_rate
                        == default_fee_rate && n.windows@ == windows@ && n.priority_config
                        == old(self).effective_priority_config()
                    &&& final(self).settings.admin == old(self).settings.admin
                    &&& final(self).settings.priority_config == old(self).settings.priority_config
                    &&& final(self).settings.min_fee == old(self).settings.min_fee
                    &&& final(self).settings.max_fee == old(self).settings.max_fee
                    &&& final(self).settings.asset_configs == old(self).settings.asset_configs
                    &&& final(self).ledger == old(self).ledger
                    &&& final(self).logs == old(self).logs
                    &&& final(self).events@ == old(self).events@.push(
                        FeeEvent::ConfigUpdated { admin: caller, fee_rate: default_fee_rate, timestamp: now },
                    )
                },
            },
    {
        self.require_admin(caller)?;
        if default_fee_rate > BPS_DENOMINATOR {
            return Err(FeeError::InvalidPercentage);
        }
        if !validate_windows(&windows) {
            return Err(FeeError::InvalidFeeWindow);
        }
        let priority_config = self.priority_config_in_force();
        self.settings.fee_config = Some(FeeConfig { default_fee_rate, windows, priority_config });
        self.events.push(FeeEvents::config_updated(now, caller, default_fee_rate));
        Ok(())
    }

    /// Sets the bounds within which a fee on the default asset is kept.
    /// Only the admin may; neither bound may be negative, and the lower one
    /// may not exceed the upper one.
    pub fn set_fee_bounds(&mut self, caller: AccountId, min_fee: i128, max_fee: i128) -> (r: Result<(), FeeError>)
        ensures
            match r {
                Err(e) => {
                    &&& *final(self) == *old(self)
                    &&& match old(self).admin_error(caller) {
                        Some(a) => e == a,
                        None => if min_fee < 0 || max_fee < 0 {
                            e == FeeError::InvalidFeeBound
                        } else {
                            e == FeeError::InvalidFeeBoundRange && min_fee > max_fee
                        },
                    }
                },
                Ok(_) => {
                    &&& old(self).admin_error(caller) is None
                    &&& 0 <= min_fee <= max_fee
                    &&& final(self).settings.min_fee == Some(min_fee)
                    &&& final(self).settings.max_fee == Some(max_fee)
                    &&& final(self).settings.admin == old(self).settings.admin
                    &&& final(self).settings.fee_config == old(self).settings.fee_config
                    &&& final(self).settings.priority_config == old(self).settings.priority_config
                    &&& final(self).settings.asset_configs == old(self).settings.asset_configs
                    &&& final(self).ledger == old(self).ledger
                    &&& final(self).logs == old(self).logs
                    &&& final(self).events == old(self).events
                },
            },
    {
        self.require_admin(caller)?;
        if min_fee < 0 || max_fee < 0 {
            return Err(FeeError::InvalidFeeBound);
        }
        if min_fee > max_fee {
            return Err(FeeError::InvalidFeeBoundRange);
        }
        self.settings.min_fee = Some(min_fee);
        self.settings.max_fee = Some(max_fee);
        Ok(())
    }

    /// Gives an asset settings of its own. Only the admin may; the rate must
    /// not exceed 100%, neither bound may be negative, and where both bounds
    /// are set the lower one may not exceed the upper one.
    pub fn set_asset_fee_config(&mut self, now: u64, caller: AccountId, config: AssetFeeConfig) -> (r: Result<(), FeeError>)
        ensures
            match r {
                Err(e) => {
                    &&& *final(self) == *old(self)
                    &&& match old(self).admin_error(caller) {
                        Some(a) => e == a,
                        None => if config.fee_rate > BPS_DENOMINATOR {
                            e == FeeError::InvalidPercentage
                        } else if config.min_fee < 0 || config.max_fee < 0 {
                            e == FeeError::InvalidFeeBound
                        } else {
                            e == FeeError::InvalidFeeBoundRange && config.max_fee > 0 && config.min_fee
                                > config.max_fee
                        },
                    }
                },
                Ok(_) => {
                    &&& old(self).admin_error(caller) is None
                    &&& config.fee_rate <= BPS_DENOMINATOR
                    &&& config.min_fee >= 0 && config.max_fee >= 0
                    &&& !(config.max_fee > 0 && config.min_fee > config.max_fee)
                    &&& final(self).settings.asset_configs@ == old(self).settings.asset_configs@.insert(
                        config.asset,
                        config,
                    )
                    &&& final(self).settings.admin == old(self).settings.admin
                    &&& final(self).settings.fee_config == old(self).settings.fee_config
                    &&& final(self).settings.priority_config == old(self).settings.priority_config
                    &&& final(self).settings.min_fee == old(self).settings.min_fee
                    &&& final(self).settings.max_fee == old(self).settings.max_fee
                    &&& final(self).ledger == old(self).ledger
                    &&& final(self).logs == old(self).logs
                    &&& final(self).events@ == old(self).events@.push(
                        FeeEvent::AssetConfigUpdated {
                            admin: caller,
                            asset: config.asset,
                            fee_rate: config.fee_rate,
                            timestamp: now,
                        },
                    )
                },
            },
    {
        self.require_admin(caller)?;
        if config.fee_rate > BPS_DENOMINATOR {
            return Err(FeeError::InvalidPercentage);
        }
        if config.min_fee < 0 || config.max_fee < 0 {
            return Err(FeeError::InvalidFeeBound);
        }
        if config.max_fee > 0 && config.min_fee > config.max_fee {
            return Err(FeeError::InvalidFeeBoundRange);
        }
        self.settings.asset_configs.insert(config.asset, config);
        self.events.push(FeeEvents::asset_config_updated(now, caller, config.asset, config.fee_rate));
        Ok(())
    }

    /// The settings of one asset; refused for an asset without settings.
    pub fn get_asset_fee_config(&self, asset: AccountId) -> (r: Result<AssetFeeConfig, FeeError>)
        ensures
            self.settings.asset_configs@.contains_key(asset) ==> r == Ok::<AssetFeeConfig, FeeError>(
                self.settings.asset_configs@[asset],
            ),
            !self.settings.asset_configs@.contains_key(asset) ==> r == Err::<AssetFeeConfig, FeeError>(
                FeeError::AssetNotConfigured,
            ),
    {
        match self.settings.asset_configs.get(&asset) {
            Some(c) => Ok(*c),
            None => Err(FeeError::AssetNotConfigured),
        }
    }
}

impl FeeContract {
    /// Tells whether a quote on `amount` can be computed without overflow,
    /// so that a caller can refuse the request beforehand.
    pub fn quote_fits_check(&self, now: u64, amount: i128, priority: PriorityLevel) -> (r: bool)
        ensures
            r == self.quote_fits(now, amount, priority),
    {
        match &self.settings.fee_config {
            Some(cfg) => {
                if amount <= 0 {
                    return true;
                }
                let rate = calculate_priority_fee_rate(cfg.rate_at(now), priority, &cfg.priority_config);
                amount.checked_mul(rate as i128).is_some()
            },
            None => true,
        }
    }

    /// The fee on `amount` at ledger time `now` for a priority level, kept
    /// within the configured bounds; refused before initialization.
    pub fn calculate_fee_with_priority(&self, now: u64, amount: i128, priority: PriorityLevel) -> (r: Result<i128, FeeError>)
        requires
            self.quote_fits(now, amount, priority),
        ensures
            self.settings.fee_config is None ==> r == Err::<i128, FeeError>(FeeError::NotInitialized),
            self.settings.fee_config is Some ==> (r matches Ok(fee) && fee == self.quoted_fee(
                now,
                amount,
                priority,
            )),
    {
        match &self.settings.fee_config {
            Some(config) => Ok(self.bounded_fee(calculate_fee_with_priority(now, amount, config, priority))),
            None => Err(FeeError::NotInitialized),
        }
    }

    /// The error with which `deduct_fee_with_priority` refuses, if it does.
    pub open spec fn priority_deduct_error(self, payer: AccountId, now: u64, amount: i128, priority: PriorityLevel) -> Option<FeeError> {
        if self.settings.admin is None {
            Some(FeeError::NotInitialized)
        } else if amount <= 0 {
            Some(FeeError::InvalidAmount)
        } else if self.settings.fee_config is None {
            Some(FeeError::NotInitialized)
        } else {
            let fee = self.quoted_fee(now, amount, priority);
            if fits_i128(amount - fee) && fits_i128(self.ledger.total_collected + fee) && fits_i128(
                self.user_fees_of(payer) + fee,
            ) {
                None
            } else {
                Some(FeeError::Overflow)
            }
        }
    }

    /// Deducts the quoted fee on `amount` from the payer: returns the net
    /// amount and the fee, and adds the fee to the total collected and to
    /// the payer's accrued fees.
    pub fn deduct_fee_with_priority(
        &mut self,
        now: u64,
        payer: AccountId,
        amount: i128,
        priority: PriorityLevel,
    ) -> (r: Result<(i128, i128), FeeError>)
        requires
            old(self).deduction_fits(now, amount, priority),
        ensures
            old(self).ledger_balanced() ==> final(self).ledger_balanced(),
            match r {
                Err(e) => {
                    &&& old(self).priority_deduct_error(payer, now, amount, priority) == Some(e)
                    &&& *final(self) == *old(self)
                },
                Ok((net, fee)) => {
                    &&& old(self).priority_deduct_error(payer, now, amount, priority) is None
                    &&& fee == old(self).quoted_fee(now, amount, priority)
                    &&& net == amount - fee
                    &&& final(self).settings == old(self).settings
                    &&& final(self).logs == old(self).logs
                    &&& final(self).ledger.total_collected == old(self).ledger.total_collected + fee
                    &&& final(self).ledger.user_fees@ == old(self).ledger.user_fees@.insert(
                        payer,
                        (old(self).user_fees_of(payer) + fee) as i128,
                    )
                    &&& final(self).ledger.asset_collected == old(self).ledger.asset_collected
                    &&& final(self).ledger.user_asset_fees == old(self).ledger.user_asset_fees
                    &&& final(self).events@ == old(self).events@.push(
                        FeeEvent::FeeDeducted { payer, amount, fee, priority: priority.code(), timestamp: now },
                    )
                },
            },
    {
        self.require_initialized()?;
        if amount <= 0 {
            return Err(FeeError::InvalidAmount);
        }
        let fee = self.calculate_fee_with_priority(now, amount, priority)?;
        let net = match amount.checked_sub(fee) {
            Some(v) => v,
            None => {
                return Err(FeeError::Overflow);
            },
        };
        let total = match self.ledger.total_collected.checked_add(fee) {
            Some(v) => v,
            None => {
                return Err(FeeError::Overflow);
            },
        };
        let user_fees = match amount_of(&self.ledger.user_fees, &payer).checked_add(fee) {
            Some(v) => v,
            None => {
                return Err(FeeError::Overflow);
            },
        };
        proof {
            lemma_total_of_insert(self.ledger.user_fees@, payer, user_fees);
        }
        self.ledger.total_collected = total;
        self.ledger.user_fees.insert(payer, user_fees);
        self.events.push(FeeEvents::fee_deducted(now, payer, amount, fee, priority));
        Ok((net, fee))
    }

    /// The fees collected so far, over all payers and assets.
    pub fn get_total_collected(&self) -> (r: i128)
        ensures
            r == self.ledger.total_collected,
    {
        self.ledger.total_collected
    }

    /// The fees that `payer` has paid on the default asset.
    pub fn get_user_fees_accrued(&self, payer: AccountId) -> (r: i128)
        ensures
            r == self.user_fees_of(payer),
    {
        amount_of(&self.ledger.user_fees, &payer)
    }

    /// The fees collected in `asset`.
    pub fn get_asset_fees_collected(&self, asset: AccountId) -> (r: i128)
        ensures
            r == self.asset_fees_of(asset),
    {
        amount_of(&self.ledger.asset_collected, &asset)
    }

    /// The fees that `payer` has paid in `asset`.
    pub fn get_user_asset_fees_accrued(&self, payer: AccountId, asset: AccountId) -> (r: i128)
        ensures
            r == self.user_asset_fees_of(payer, asset),
    {
        amount_of(&self.ledger.user_asset_fees, &make_pair_key(payer, asset))
    }

    /// The contract's figures at one ledger point.
    pub fn get_metrics(&self, ledger_timestamp: u64, ledger_sequence: u32) -> (r: FeeContractMetrics)
        ensures
            r.total_fees_collected == self.ledger.total_collected,
            r.default_fee_rate_bps == match self.settings.fee_config {
                Some(cfg) => cfg.default_fee_rate,
                None => 0,
            },
            r.ledger_timestamp == ledger_timestamp,
            r.ledger_sequence == ledger_sequence,
    {
        let default_fee_rate_bps = match &self.settings.fee_config {
            Some(cfg) => cfg.default_fee_rate,
            None => 0,
        };
        FeeContractMetrics {
            total_fees_collected: self.ledger.total_collected,
            default_fee_rate_bps,
            ledger_timestamp,
            ledger_sequence,
        }
    }
}

/// The fee history with one more entry at its end, numbered by its position.
pub open spec fn logged(logs: Seq<FeeLog>, payer: Option<AccountId>, amount: i128, fee: i128, kind: FeeLogKind) -> Seq<FeeLog> {
    logs.push(FeeLog { id: logs.len() as u64, payer, amount, fee, kind })
}

impl FeeContract {
    fn append_fee_log(&mut self, payer: Option<AccountId>, amount: i128, fee: i128, kind: FeeLogKind) -> (r: FeeLog)
        ensures
            r == (FeeLog { id: old(self).logs@.len() as u64, payer, amount, fee, kind }),
            final(self).logs@ == logged(old(self).logs@, payer, amount, fee, kind),
            final(self).settings == old(self).settings,
            final(self).ledger == old(self).ledger,
            final(self).events == old(self).events,
    {
        let entry = FeeLog { id: self.logs.len() as u64, payer, amount, fee, kind };
        self.logs.push(entry);
        entry
    }

    /// A quote of the fee on `amount` at the default priority, without any
    /// change to the contract; refused before a fee configuration exists.
    pub fn simulate_fee(&self, now: u64, amount: i128, _user: AccountId) -> (r: Result<i128, FeeError>)
        requires
            self.settings.fee_config matches Some(cfg) ==> cfg.fee_fits(now, amount, PriorityLevel::Medium),
        ensures
            match self.settings.fee_config {
                Some(cfg) => r == Ok::<i128, FeeError>(cfg.priority_fee(now, amount, PriorityLevel::Medium) as i128),
                None => r == Err::<i128, FeeError>(FeeError::NotInitialized),
            },
    {
        match &self.settings.fee_config {
            Some(config) => Ok(calculate_fee(now, amount, config)),
            None => Err(FeeError::NotInitialized),
        }
    }

    /// The fee on `amount` at the default priority, recorded in the history
    /// as a charge without a payer.
    pub fn get_fee(&mut self, now: u64, amount: i128) -> (r: Result<i128, FeeError>)
        requires
            old(self).settings.fee_config matches Some(cfg) ==> cfg.fee_fits(now, amount, PriorityLevel::Medium),
        ensures
            match old(self).settings.fee_config {
                Some(cfg) => {
                    let fee = cfg.priority_fee(now, amount, PriorityLevel::Medium) as i128;
                    &&& r == Ok::<i128, FeeError>(fee)
                    &&& final(self).logs@ == logged(old(self).logs@, None, amount, fee, FeeLogKind::Charge)
                    &&& final(self).settings == old(self).settings
                    &&& final(self).ledger == old(self).ledger
                    &&& final(self).events == old(self).events
                },
                None => r == Err::<i128, FeeError>(FeeError::NotInitialized) && *final(self) == *old(self),
            },
    {
        let fee = match &self.settings.fee_config {
            Some(config) => calculate_fee(now, amount, config),
            None => {
                return Err(FeeError::NotInitialized);
            },
        };
        self.append_fee_log(None, amount, fee, FeeLogKind::Charge);
        Ok(fee)
    }

    /// The fee on `amount` at the default priority, recorded in the history
    /// as a charge to `payer`.
    pub fn charge_fee(&mut self, now: u64, payer: AccountId, amount: i128) -> (r: Result<i128, FeeError>)
        requires
            old(self).settings.fee_config matches Some(cfg) ==> cfg.fee_fits(now, amount, PriorityLevel::Medium),
        ensures
            match old(self).settings.fee_config {
                Some(cfg) => {
                    let fee = cfg.priority_fee(now, amount, PriorityLevel::Medium) as i128;
                    &&& r == Ok::<i128, FeeError>(fee)
                    &&& final(self).logs@ == logged(old(self).logs@, Some(payer), amount, fee, FeeLogKind::Charge)
                    &&& final(self).settings == old(self).settings
                    &&& final(self).ledger == old(self).ledger
                    &&& final(self).events == old(self).events
                },
                None => r == Err::<i128, FeeError>(FeeError::NotInitialized) && *final(self) == *old(self),
            },
    {
        let fee = match &self.settings.fee_config {
            Some(config) => calculate_fee(now, amount, config),
            None => {
                return Err(FeeError::NotInitialized);
            },
        };
        self.append_fee_log(Some(payer), amount, fee, FeeLogKind::Charge);
        Ok(fee)
    }

    /// Records in the history that `refunded_fee` of the fee on `amount` was
    /// given back to `payer`; returns the new entry.
    pub fn record_fee_refund(&mut self, payer: AccountId, amount: i128, refunded_fee: i128) -> (r: FeeLog)
        ensures
            r == (FeeLog {
                id: old(self).logs@.len() as u64,
                payer: Some(payer),
                amount,
                fee: refunded_fee,
                kind: FeeLogKind::Refund,
            }),
            final(self).logs@ == logged(old(self).logs@, Some(payer), amount, refunded_fee, FeeLogKind::Refund),
            final(self).settings == old(self).settings,
            final(self).ledger == old(self).ledger,
            final(self).events == old(self).events,
    {
        self.append_fee_log(Some(payer), amount, refunded_fee, FeeLogKind::Refund)
    }

    /// The history entry numbered `id`, if there is one.
    pub fn get_fee_log(&self, id: u64) -> (r: Option<FeeLog>)
        ensures
            id < self.logs@.len() ==> r == Some(self.logs@[id as int]),
            id >= self.logs@.len() ==> r is None,
    {
        if id < self.logs.len() as u64 {
            Some(self.logs[id as usize])
        } else {
            None
        }
    }

    /// The number of history entries.
    pub fn get_fee_log_count(&self) -> (r: u64)
        ensures
            r == self.logs@.len(),
    {
        self.logs.len() as u64
    }

    /// The history entries numbered from `start` up to, not including, `end`
    /// (as far as the history reaches), in order.
    pub fn get_fee_logs(&self, start: u64, end: u64) -> (r: Vec<FeeLog>)
        ensures
            ({
                let n = self.logs@.len() as int;
                let lo = if start < n {
                    start as int
                } else {
                    n
                };
                let hi = if end < n {
                    end as int
                } else {
                    n
                };
                r@ == if lo < hi {
                    self.logs@.subrange(lo, hi)
                } else {
                    Seq::<FeeLog>::empty()
                }
            }),
    {
        let n = self.logs.len();
        let lo: usize = if start < n as u64 {
            start as usize
        } else {
            n
        };
        let hi: usize = if end < n as u64 {
            end as usize
        } else {
            n
        };
        let mut out: Vec<FeeLog> = Vec::new();
        if lo >= hi {
            return out;
        }
        let mut i: usize = lo;
        while i < hi
            invariant
                n == self.logs@.len(),
                lo <= hi <= n,
                lo <= i <= hi,
                out@ == self.logs@.subrange(lo as int, i as int),
            decreases hi - i,
        {
            out.push(self.logs[i]);
            i = i + 1;
        }
        out
    }
}

/// With a lower bound not above the upper bound, a bounded fee lies between
/// them; a fee already between them is left as it is.
pub proof fn lemma_bounded_within(contract: FeeContract, fee: int)
    requires
        contract.min_fee_bound() <= contract.max_fee_bound(),
    ensures
        contract.min_fee_bound() <= contract.bounded(fee) <= contract.max_fee_bound(),
        contract.min_fee_bound() <= fee <= contract.max_fee_bound() ==> contract.bounded(fee) == fee,
{
}

/// A deduction with fallback never charges more than the amount, so the net
/// amount is never negative; with bounds that are not negative, the fee is
/// not negative either.
pub proof fn lemma_fallback_charge_within_amount(
    contract: FeeContract,
    now: u64,
    amount: i128,
    priority: PriorityLevel,
)
    requires
        amount > 0,
        contract.settings.fee_config is Some,
    ensures
        contract.fallback_charge(now, amount, priority).0 <= amount,
        0 <= contract.min_fee_bound() && 0 <= contract.max_fee_bound() ==> 0
            <= contract.fallback_charge(now, amount, priority).0,
{
}

/// The fallback of a default-asset deduction charges the lower fee bound,
/// capped at the amount: where the bounded fee exceeds the amount, the
/// charge is `min(lower bound, amount)`; in particular with a lower bound not
/// above the amount the charge is exactly the lower bound, whatever the
/// amount. Where the bounded fee fits in the amount, it is charged as it is.
pub proof fn lemma_fallback_charges_min_fee(contract: FeeContract, now: u64, amount: i128, priority: PriorityLevel)
    requires
        amount > 0,
        contract.settings.fee_config is Some,
    ensures
        ({
            let lo: int = match contract.settings.min_fee {
                Some(v) => v as int,
                None => 0,
            };
            let charge = contract.fallback_charge(now, amount, priority);
            &&& contract.quoted_fee(now, amount, priority) > amount ==> {
                &&& charge.1 == FeeOperationStatus::FallbackUsed
                &&& charge.0 == if lo <= amount {
                    lo
                } else {
                    amount as int
                }
            }
            &&& contract.quoted_fee(now, amount, priority) > amount && lo <= amount ==> charge.0 == lo
            &&& contract.quoted_fee(now, amount, priority) <= amount ==> {
                &&& charge.1 == FeeOperationStatus::Success
                &&& charge.0 == contract.quoted_fee(now, amount, priority)
            }
        }),
{
}

/// Two deductions that fall back, on different amounts not below the lower
/// bound, charge the same fee: the lower bound.
pub proof fn lemma_fallback_charge_independent_of_amount(
    contract: FeeContract,
    now: u64,
    a1: i128,
    a2: i128,
    priority: PriorityLevel,
)
    requires
        a1 > 0,
        a2 > 0,
        contract.settings.fee_config is Some,
        contract.quoted_fee(now, a1, priority) > a1,
        contract.quoted_fee(now, a2, priority) > a2,
        contract.min_fee_bound() <= a1,
        contract.min_fee_bound() <= a2,
    ensures
        contract.fallback_charge(now, a1, priority).0 == contract.fallback_charge(now, a2, priority).0,
        contract.fallback_charge(now, a1, priority).0 == contract.min_fee_bound(),
{
    lemma_fallback_charges_min_fee(contract, now, a1, priority);
    lemma_fallback_charges_min_fee(contract, now, a2, priority);
}

} // verus!
