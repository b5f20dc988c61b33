//! The fee escrow contract: fees are collected into escrow under the
//! current billing cycle, rolled over from cycle to cycle, and released to
//! the treasury by the administrator.
use vstd::prelude::*;

use std::collections::HashMap;

use crate::amounts::{
    amount_in, amount_of, fits_i128, lemma_total_of_empty, lemma_total_of_insert,
    lemma_total_of_remove, total_of,
};
use crate::host::{contract_error, contract_error_value};
use crate::AccountId;

verus! {

broadcast use vstd::std_specs::hash::group_hash_axioms;

/// The largest fee rate that can be configured, in basis points (100%).
pub const MAX_FEE_BPS: u32 = 10_000;

/// The largest number of fees that one batch may carry.
pub const MAX_BATCH_SIZE: u32 = 100;

/// The ways in which the escrow contract refuses a request.
#[derive(Copy, Clone, Debug, Eq, PartialEq, Structural)]
pub enum FeeContractError {
    NotInitialized,
    Unauthorized,
    Locked,
    InvalidAmount,
    EmptyBatch,
    BatchTooLarge,
    Overflow,
    InsufficientEscrow,
    InvalidCycle,
    InvalidConfig,
    NoPendingFees,
}

impl FeeContractError {
    /// The error's code as the contract host reports it, from 1 upwards in
    /// declaration order.
    pub open spec fn error_code(self) -> u32 {
        match self {
            FeeContractError::NotInitialized => 1,
            FeeContractError::Unauthorized => 2,
            FeeContractError::Locked => 3,
            FeeContractError::InvalidAmount => 4,
            FeeContractError::EmptyBatch => 5,
            FeeContractError::BatchTooLarge => 6,
            FeeContractError::Overflow => 7,
            FeeContractError::InsufficientEscrow => 8,
            FeeContractError::InvalidCycle => 9,
            FeeContractError::InvalidConfig => 10,
            FeeContractError::NoPendingFees => 11,
        }
    }

    pub fn code(&self) -> (r: u32)
        ensures
            r == self.error_code(),
    {
        match self {
            FeeContractError::NotInitialized => 1,
            FeeContractError::Unauthorized => 2,
            FeeContractError::Locked => 3,
            FeeContractError::InvalidAmount => 4,
            FeeContractError::EmptyBatch => 5,
            FeeContractError::BatchTooLarge => 6,
            FeeContractError::Overflow => 7,
            FeeContractError::InsufficientEscrow => 8,
            FeeContractError::InvalidCycle => 9,
            FeeContractError::InvalidConfig => 10,
            FeeContractError::NoPendingFees => 11,
        }
    }
}

impl From<FeeContractError> for soroban_sdk::Error {
    fn from(value: FeeContractError) -> (r: Self) {
        contract_error(value.code())
    }
}

impl vstd::std_specs::convert::FromSpecImpl<FeeContractError> for soroban_sdk::Error {
    open spec fn obeys_from_spec() -> bool {
        true
    }

    open spec fn from_spec(v: FeeContractError) -> Self {
        contract_error_value(v.error_code())
    }
}

/// What a batch collection did: the sum collected, how many fees the batch
/// carried, and the cycle they were escrowed under.
#[derive(Clone, Copy, Debug, PartialEq, Eq, Structural)]
pub struct BatchFeeResult {
    pub total_amount: i128,
    pub batch_size: u32,
    pub cycle: u64,
}

/// What the escrow contract announces to the outside world.
#[derive(Clone, Copy, Debug, PartialEq, Eq, Structural)]
pub enum EscrowEvent {
    FeeEscrowed { payer: AccountId, amount: i128, cycle: u64 },
    FeeBatched { payer: AccountId, total_amount: i128, batch_size: u32, cycle: u64 },
    FeeReleased { cycle: u64, amount: i128, treasury: AccountId },
    FeeRolled { from_cycle: u64, to_cycle: u64, amount: i128 },
    Locked,
    Unlocked,
    FeeBpsUpdated { fee_bps: u32 },
    TreasuryUpdated { treasury: AccountId },
    MinFeeUpdated { min_fee: i128 },
}

/// Builds the events of the escrow contract.
pub struct FeeEvents;

impl FeeEvents {
    pub fn fee_escrowed(payer: AccountId, amount: i128, cycle: u64) -> (r: EscrowEvent)
        ensures
            r == (EscrowEvent::FeeEscrowed { payer, amount, cycle }),
    {
        EscrowEvent::FeeEscrowed { payer, amount, cycle }
    }

    pub fn fee_batched(payer: AccountId, total_amount: i128, batch_size: u32, cycle: u64) -> (r: EscrowEvent)
        ensures
            r == (EscrowEvent::FeeBatched { payer, total_amount, batch_size, cycle }),
    {
        EscrowEvent::FeeBatched { payer, total_amount, batch_size, cycle }
    }

    pub fn fee_released(cycle: u64, amount: i128, treasury: AccountId) -> (r: EscrowEvent)
        ensures
            r == (EscrowEvent::FeeReleased { cycle, amount, treasury }),
    {
        EscrowEvent::FeeReleased { cycle, amount, treasury }
    }

    pub fn fee_rolled(from_cycle: u64, to_cycle: u64, amount: i128) -> (r: EscrowEvent)
        ensures
            r == (EscrowEvent::FeeRolled { from_cycle, to_cycle, amount }),
    {
        EscrowEvent::FeeRolled { from_cycle, to_cycle, amount }
    }

    pub fn locked() -> (r: EscrowEvent)
        ensures
            r == EscrowEvent::Locked,
    {
        EscrowEvent::Locked
    }

    pub fn unlocked() -> (r: EscrowEvent)
        ensures
            r == EscrowEvent::Unlocked,
    {
        EscrowEvent::Unlocked
    }

    pub fn fee_bps_updated(fee_bps: u32) -> (r: EscrowEvent)
        ensures
            r == (EscrowEvent::FeeBpsUpdated { fee_bps }),
    {
        EscrowEvent::FeeBpsUpdated { fee_bps }
    }

    pub fn treasury_updated(treasury: AccountId) -> (r: EscrowEvent)
        ensures
            r == (EscrowEvent::TreasuryUpdated { treasury }),
    {
        EscrowEvent::TreasuryUpdated { treasury }
    }

    pub fn min_fee_updated(min_fee: i128) -> (r: EscrowEvent)
        ensures
            r == (EscrowEvent::MinFeeUpdated { min_fee }),
    {
        EscrowEvent::MinFeeUpdated { min_fee }
    }
}

/// A movement of the fee token that the contract orders: a deposit from a
/// payer into escrow, or a payout from escrow to the treasury.
#[derive(Clone, Copy, Debug, PartialEq, Eq, Structural)]
pub enum TokenTransfer {
    Deposit { from: AccountId, amount: i128 },
    Payout { to: AccountId, amount: i128 },
}

/// The escrow contract's configuration.
#[derive(Clone, Copy, Debug, PartialEq, Eq, Structural)]
pub struct EscrowConfig {
    pub admin: Option<AccountId>,
    pub token: Option<AccountId>,
    pub treasury: Option<AccountId>,
    pub fee_bps: u32,
    /// The least fee that a collection accepts.
    pub min_fee: i128,
    /// While locked, fees are not released and the configuration is frozen.
    pub locked: bool,
}

/// The escrow's books: the current cycle, the balance held, what is pending
/// per cycle, and running totals.
pub struct EscrowBooks {
    pub current_cycle: u64,
    pub escrow_balance: i128,
    pub pending: HashMap<u64, i128>,
    pub total_collected: i128,
    pub total_released: i128,
    pub total_batch_calls: u64,
}

/// The escrow contract: configuration, books, and the token transfers and
/// events it has ordered (oldest first).
pub struct FeeContract {
    pub config: EscrowConfig,
    pub books: EscrowBooks,
    pub transfers: Vec<TokenTransfer>,
    pub events: Vec<EscrowEvent>,
}

/// The scan of a batch over its first `n` fees: each fee must be positive
/// and at least `min_fee`, and the running sum must stay within an `i128`;
/// the first fee that fails decides the error.
pub open spec fn batch_scan(amounts: Seq<i128>, min_fee: i128, n: nat) -> Result<int, FeeContractError>
    decreases n,
{
    if n == 0 {
        Ok(0)
    } else {
        match batch_scan(amounts, min_fee, (n - 1) as nat) {
            Err(e) => Err(e),
            Ok(total) => {
                let amount = amounts[n - 1];
                if amount <= 0 || amount < min_fee {
                    Err(FeeContractError::InvalidAmount)
                } else if !fits_i128(total + amount) {
                    Err(FeeContractError::Overflow)
                } else {
                    Ok(total + amount)
                }
            },
        }
    }
}

/// The checks on a whole batch: not empty, not above `MAX_BATCH_SIZE`, then
/// the scan of all its fees.
pub open spec fn batch_outcome(amounts: Seq<i128>, min_fee: i128) -> Result<int, FeeContractError> {
    if amounts.len() == 0 {
        Err(FeeContractError::EmptyBatch)
    } else if amounts.len() > MAX_BATCH_SIZE {
        Err(FeeContractError::BatchTooLarge)
    } else {
        batch_scan(amounts, min_fee, amounts.len())
    }
}

/// A successful scan sums positive fees, each at least `min_fee`.
pub proof fn lemma_batch_scan_positive(amounts: Seq<i128>, min_fee: i128, n: nat)
    requires
        n <= amounts.len(),
        batch_scan(amounts, min_fee, n) is Ok,
    ensures
        batch_scan(amounts, min_fee, n)->Ok_0 >= n,
        forall|i: int| 0 <= i < n ==> #[trigger] amounts[i] > 0 && amounts[i] >= min_fee,
    decreases n,
{
    if n > 0 {
        lemma_batch_scan_positive(amounts, min_fee, (n - 1) as nat);
    }
}

/// Once a prefix of the batch fails, every longer prefix fails the same way.
proof fn lemma_batch_scan_err_persists(amounts: Seq<i128>, min_fee: i128, k: nat, m: nat)
    requires
        k <= m,
        batch_scan(amounts, min_fee, k) is Err,
    ensures
        batch_scan(amounts, min_fee, m) == batch_scan(amounts, min_fee, k),
    decreases m - k,
{
    if k < m {
        lemma_batch_scan_err_persists(amounts, min_fee, k, (m - 1) as nat);
    }
}

/// Scans a batch; see `batch_outcome`.
fn scan_batch(amounts: &Vec<i128>, min_fee: i128) -> (r: Result<i128, FeeContractError>)
    ensures
        match r {
            Ok(t) => batch_outcome(amounts@, min_fee) == Ok::<int, FeeContractError>(t as int),
            Err(e) => batch_outcome(amounts@, min_fee) == Err::<int, FeeContractError>(e),
        },
{
    let batch_size = amounts.len();
    if batch_size == 0 {
        return Err(FeeContractError::EmptyBatch);
    }
    if batch_size > MAX_BATCH_SIZE as usize {
        return Err(FeeContractError::BatchTooLarge);
    }
    let mut total: i128 = 0;
    let mut i: usize = 0;
    while i < batch_size
        invariant
            batch_size == amounts@.len(),
            0 < batch_size <= MAX_BATCH_SIZE,
            0 <= i <= batch_size,
            batch_scan(amounts@, min_fee, i as nat) == Ok::<int, FeeContractError>(total as int),
        decreases batch_size - i,
    {
        let amount = amounts[i];
        if amount <= 0 || amount < min_fee {
            proof {
                lemma_batch_scan_err_persists(amounts@, min_fee, (i + 1) as nat, batch_size as nat);
            }
            return Err(FeeContractError::InvalidAmount);
        }
        total = match total.checked_add(amount) {
            Some(t) => t,
            None => {
                proof {
                    lemma_batch_scan_err_persists(amounts@, min_fee, (i + 1) as nat, batch_size as nat);
                }
                return Err(FeeContractError::Overflow);
            },
        };
        i = i + 1;
    }
    Ok(total)
}

/// Distinct errors are reported to the host under distinct codes.
pub proof fn lemma_error_codes_distinct(a: FeeContractError, b: FeeContractError)
    ensures
        a.error_code() == b.error_code() <==> a == b,
{
}

/// The preview of a batch agrees with its collection: once the contract is
/// set up and its books can take the sum, a batch that the preview accepts
/// is collected for the previewed total, and a batch that the preview
/// refuses is refused for the same reason.
pub proof fn lemma_preview_matches_collect(contract: FeeContract, amounts: Seq<i128>)
    requires
        contract.config.admin is Some,
        contract.books.total_batch_calls < u64::MAX,
    ensures
        match batch_outcome(amounts, contract.config.min_fee) {
            Err(e) => contract.batch_error(amounts) == Some(e),
            Ok(total) => contract.escrow_error(total) is None ==> contract.batch_error(amounts) is None,
        },
{
}

impl FeeContract {
    /// The contract as it stands before it is set up.
    pub open spec fn is_blank(self) -> bool {
        &&& self.config == EscrowConfig {
            admin: None,
            token: None,
            treasury: None,
            fee_bps: 0,
            min_fee: 0,
            locked: false,
        }
        &&& self.books.current_cycle == 0
        &&& self.books.escrow_balance == 0
        &&& self.books.pending@ == Map::<u64, i128>::empty()
        &&& self.books.total_collected == 0
        &&& self.books.total_released == 0
        &&& self.books.total_batch_calls == 0
        &&& self.transfers@ == Seq::<TokenTransfer>::empty()
        &&& self.events@ == Seq::<EscrowEvent>::empty()
    }

    /// The books balance: the escrow holds exactly what was collected and
    /// not yet released, which is exactly what is pending over all cycles;
    /// nothing is negative, and no cycle has a negative amount pending.
    pub open spec fn books_balance(self) -> bool {
        &&& self.books.escrow_balance == self.books.total_collected - self.books.total_released
        &&& self.books.escrow_balance == total_of(self.books.pending@)
        &&& self.books.escrow_balance >= 0
        &&& self.books.total_released >= 0
        &&& forall|c: u64| #[trigger] self.books.pending@.contains_key(c) ==> self.books.pending@[c] >= 0
    }

    /// The amount pending for `cycle`.
    pub open spec fn pending_of(self, cycle: u64) -> int {
        amount_in(self.books.pending@, cycle)
    }

    /// A contract that is not set up and holds nothing.
    pub fn new() -> (r: Self)
        ensures
            r.is_blank(),
            r.books_balance(),
    {
        proof {
            lemma_total_of_empty::<u64>();
        }
        FeeContract {
            config: EscrowConfig {
                admin: None,
                token: None,
                treasury: None,
                fee_bps: 0,
                min_fee: 0,
                locked: false,
            },
            books: EscrowBooks {
                current_cycle: 0,
                escrow_balance: 0,
                pending: HashMap::new(),
                total_collected: 0,
                total_released: 0,
                total_batch_calls: 0,
            },
            transfers: Vec::new(),
            events: Vec::new(),
        }
    }

    /// Whether an administrator has been set, i.e. the contract is set up.
    pub fn has_admin(&self) -> (r: bool)
        ensures
            r == self.config.admin is Some,
    {
        self.config.admin.is_some()
    }

    /// Sets the contract up. Refused (with `InvalidConfig`) for a fee rate
    /// above `MAX_FEE_BPS` or a first cycle of zero. The contract must not be
    /// set up already.
    pub fn initialize(
        &mut self,
        admin: AccountId,
        token: AccountId,
        treasury: AccountId,
        fee_bps: u32,
        initial_cycle: u64,
    ) -> (r: Result<(), FeeContractError>)
        requires
            old(self).config.admin is None,
        ensures
            r is Err <==> (fee_bps > MAX_FEE_BPS || initial_cycle == 0),
            r is Err ==> r == Err::<(), FeeContractError>(FeeContractError::InvalidConfig) && *final(self)
                == *old(self),
            r is Ok ==> {
                &&& final(self).config == EscrowConfig {
                    admin: Some(admin),
                    token: Some(token),
                    treasury: Some(treasury),
                    fee_bps,
                    locked: false,
                    ..old(self).config
                }
                &&& final(self).books.current_cycle == initial_cycle
                &&& final(self).books.escrow_balance == old(self).books.escrow_balance
                &&& final(self).books.pending == old(self).books.pending
                &&& final(self).books.total_collected == old(self).books.total_collected
                &&& final(self).books.total_released == old(self).books.total_released
                &&& final(self).books.total_batch_calls == old(self).books.total_batch_calls
                &&& final(self).transfers == old(self).transfers
                &&& final(self).events == old(self).events
            },
            old(self).books_balance() ==> final(self).books_balance(),
    {
        if fee_bps > MAX_FEE_BPS || initial_cycle == 0 {
            return Err(FeeContractError::InvalidConfig);
        }
        self.config.admin = Some(admin);
        self.config.token = Some(token);
        self.config.treasury = Some(treasury);
        self.config.fee_bps = fee_bps;
        self.config.locked = false;
        self.books.current_cycle = initial_cycle;
        Ok(())
    }

    /// The error, if any, with which an administrative request by `caller`
    /// is refused.
    pub open spec fn admin_error(self, caller: AccountId) -> Option<FeeContractError> {
        match self.config.admin {
            None => Some(FeeContractError::NotInitialized),
            Some(a) => if a == caller {
                None
            } else {
                Some(FeeContractError::Unauthorized)
            },
        }
    }

    fn require_admin(&self, caller: AccountId) -> (r: Result<(), FeeContractError>)
        ensures
            match self.admin_error(caller) {
                Some(e) => r == Err::<(), FeeContractError>(e),
                None => r is Ok,
            },
    {
        match self.config.admin {
            None => Err(FeeContractError::NotInitialized),
            Some(admin) => if admin != caller {
                Err(FeeContractError::Unauthorized)
            } else {
                Ok(())
            },
        }
    }

    fn require_unlocked(&self) -> (r: Result<(), FeeContractError>)
        ensures
            self.config.locked ==> r == Err::<(), FeeContractError>(FeeContractError::Locked),
            !self.config.locked ==> r is Ok,
    {
        if self.config.locked {
            return Err(FeeContractError::Locked);
        }
        Ok(())
    }

    /// The error with which escrowing `amount` (one fee, or the sum of a
    /// batch) is refused, given that each fee has been checked: the contract
    /// must be set up, and the books must be able to take the amount.
    pub open spec fn escrow_error(self, amount: int) -> Option<FeeContractError> {
        if self.config.admin is None {
            Some(FeeContractError::NotInitialized)
        } else if fits_i128(self.pending_of(self.books.current_cycle) + amount) && fits_i128(
            self.books.escrow_balance + amount,
        ) && fits_i128(self.books.total_collected + amount) {
            None
        } else {
            Some(FeeContractError::Overflow)
        }
    }

    /// The books after `amount` from `payer` is escrowed under the current
    /// cycle: the cycle's pending amount, the escrow balance and the total
    /// collected grow by `amount`, a deposit is ordered, nothing else changes.
    pub open spec fn escrowed(self, post: Self, payer: AccountId, amount: int) -> bool {
        &&& post.config == self.config
        &&& post.books.current_cycle == self.books.current_cycle
        &&& post.books.pending@ == self.books.pending@.insert(
            self.books.current_cycle,
            (self.pending_of(self.books.current_cycle) + amount) as i128,
        )
        &&& post.books.escrow_balance == self.books.escrow_balance + amount
        &&& post.books.total_collected == self.books.total_collected + amount
        &&& post.books.total_released == self.books.total_released
        &&& post.transfers@ == self.transfers@.push(TokenTransfer::Deposit { from: payer, amount: amount as i128 })
    }

    fn escrow_amount(&mut self, payer: AccountId, amount: i128) -> (r: Result<i128, FeeContractError>)
        requires
            amount > 0,
        ensures
            match r {
                Err(e) => old(self).escrow_error(amount as int) == Some(e) && *final(self) == *old(self),
                Ok(p) => {
                    &&& old(self).escrow_error(amount as int) is None
                    &&& p == old(self).pending_of(old(self).books.current_cycle) + amount
                    &&& old(self).escrowed(*final(self), payer, amount as int)
                    &&& final(self).books.total_batch_calls == old(self).books.total_batch_calls
                    &&& final(self).events == old(self).events
                },
            },
            old(self).books_balance() ==> final(self).books_balance(),
    {
        if self.config.admin.is_none() {
            return Err(FeeContractError::NotInitialized);
        }
        let cycle = self.books.current_cycle;
        let pending = match amount_of(&self.books.pending, &cycle).checked_add(amount) {
            Some(v) => v,
            None => {
                return Err(FeeContractError::Overflow);
            },
        };
        let balance = match self.books.escrow_balance.checked_add(amount) {
            Some(v) => v,
            None => {
                return Err(FeeContractError::Overflow);
            },
        };
        let collected = match self.books.total_collected.checked_add(amount) {
            Some(v) => v,
            None => {
                return Err(FeeContractError::Overflow);
            },
        };
        proof {
            lemma_total_of_insert(self.books.pending@, cycle, pending);
        }
        self.books.pending.insert(cycle, pending);
        self.books.escrow_balance = balance;
        self.books.total_collected = collected;
        self.transfers.push(TokenTransfer::Deposit { from: payer, amount });
        Ok(pending)
    }

    /// The error with which `collect_fee` refuses, if it does.
    pub open spec fn collect_error(self, amount: i128) -> Option<FeeContractError> {
        if self.config.admin is None {
            Some(FeeContractError::NotInitialized)
        } else if amount <= 0 || amount < self.config.min_fee {
            Some(FeeContractError::InvalidAmount)
        } else {
            self.escrow_error(amount as int)
        }
    }

    /// Collects one fee from `payer` into escrow under the current cycle;
    /// returns the amount now pending for that cycle. The fee must be
    /// positive and at least the minimum fee.
    pub fn collect_fee(&mut self, payer: AccountId, amount: i128) -> (r: Result<i128, FeeContractError>)
        ensures
            match r {
                Err(e) => old(self).collect_error(amount) == Some(e) && *final(self) == *old(self),
                Ok(p) => {
                    &&& old(self).collect_error(amount) is None
                    &&& p == old(self).pending_of(old(self).books.current_cycle) + amount
                    &&& old(self).escrowed(*final(self), payer, amount as int)
                    &&& final(self).books.total_batch_calls == old(self).books.total_batch_calls
                    &&& final(self).events@ == old(self).events@.push(
                        EscrowEvent::FeeEscrowed { payer, amount, cycle: old(self).books.current_cycle },
                    )
                },
            },
            old(self).books_balance() ==> final(self).books_balance(),
    {
        if self.config.admin.is_none() {
            return Err(FeeContractError::NotInitialized);
        }
        if amount <= 0 || amount < self.config.min_fee {
            return Err(FeeContractError::InvalidAmount);
        }
        let pending = self.escrow_amount(payer, amount)?;
        let cycle = self.books.current_cycle;
        self.events.push(FeeEvents::fee_escrowed(payer, amount, cycle));
        Ok(pending)
    }

    /// The error with which `collect_fee_batch` refuses, if it does.
    pub open spec fn batch_error(self, amounts: Seq<i128>) -> Option<FeeContractError> {
        if amounts.len() == 0 {
            Some(FeeContractError::EmptyBatch)
        } else if amounts.len() > MAX_BATCH_SIZE {
            Some(FeeContractError::BatchTooLarge)
        } else if self.config.admin is None {
            Some(FeeContractError::NotInitialized)
        } else {
            match batch_outcome(amounts, self.config.min_fee) {
                Err(e) => Some(e),
                Ok(total) => match self.escrow_error(total) {
                    Some(e) => Some(e),
                    None => if self.books.total_batch_calls < u64::MAX {
                        None
                    } else {
                        Some(FeeContractError::Overflow)
                    },
                },
            }
        }
    }

    /// Collects a batch of fees from `payer` into escrow, as one deposit of
    /// their sum under the current cycle, and counts the batch. The batch
    /// must hold between one and `MAX_BATCH_SIZE` fees, each positive and at
    /// least the minimum fee.
    pub fn collect_fee_batch(&mut self, payer: AccountId, amounts: &Vec<i128>) -> (r: Result<BatchFeeResult, FeeContractError>)
        ensures
            match r {
                Err(e) => old(self).batch_error(amounts@) == Some(e) && *final(self) == *old(self),
                Ok(res) => {
                    let total = batch_outcome(amounts@, old(self).config.min_fee)->Ok_0;
                    &&& old(self).batch_error(amounts@) is None
                    &&& res == BatchFeeResult {
                        total_amount: total as i128,
                        batch_size: amounts@.len() as u32,
                        cycle: old(self).books.current_cycle,
                    }
                    &&& old(self).escrowed(*final(self), payer, total)
                    &&& final(self).books.total_batch_calls == old(self).books.total_batch_calls + 1
                    &&& final(self).events@ == old(self).events@.push(
                        EscrowEvent::FeeBatched {
                            payer,
                            total_amount: total as i128,
                            batch_size: amounts@.len() as u32,
                            cycle: old(self).books.current_cycle,
                        },
                    )
                },
            },
            old(self).books_balance() ==> final(self).books_balance(),
    {
        let batch_size = amounts.len();
        if batch_size == 0 {
            return Err(FeeContractError::EmptyBatch);
        }
        if batch_size > MAX_BATCH_SIZE as usize {
            return Err(FeeContractError::BatchTooLarge);
        }
        if self.config.admin.is_none() {
            return Err(FeeContractError::NotInitialized);
        }
        let total = scan_batch(amounts, self.config.min_fee)?;
        proof {
            lemma_batch_scan_positive(amounts@, self.config.min_fee, amounts@.len());
        }
        match self.escrow_error_check(total) {
            Some(e) => {
                return Err(e);
            },
            None => {},
        }
        if self.books.total_batch_calls == u64::MAX {
            return Err(FeeContractError::Overflow);
        }
        let _ = self.escrow_amount(payer, total);
        self.books.total_batch_calls = self.books.total_batch_calls + 1;
        let cycle = self.books.current_cycle;
        let result = BatchFeeResult { total_amount: total, batch_size: batch_size as u32, cycle };
        self.events.push(FeeEvents::fee_batched(payer, total, batch_size as u32, cycle));
        Ok(result)
    }

    fn escrow_error_check(&self, amount: i128) -> (r: Option<FeeContractError>)
        ensures
            r == self.escrow_error(amount as int),
    {
        if self.config.admin.is_none() {
            return Some(FeeContractError::NotInitialized);
        }
        let cycle = self.books.current_cycle;
        if amount_of(&self.books.pending, &cycle).checked_add(amount).is_none()
            || self.books.escrow_balance.checked_add(amount).is_none()
            || self.books.total_collected.checked_add(amount).is_none() {
            return Some(FeeContractError::Overflow);
        }
        None
    }

    /// The fee total that `collect_fee_batch` would collect for `amounts`,
    /// without any change: the same checks on the batch and on each fee.
    pub fn preview_batch_fee(&self, _user: AccountId, amounts: &Vec<i128>) -> (r: Result<i128, FeeContractError>)
        ensures
            match r {
                Ok(t) => batch_outcome(amounts@, self.config.min_fee) == Ok::<int, FeeContractError>(t as int),
                Err(e) => batch_outcome(amounts@, self.config.min_fee) == Err::<int, FeeContractError>(e),
            },
    {
        scan_batch(amounts, self.config.min_fee)
    }
}

impl FeeContract {
    /// The error with which `release_fees` refuses, if it does.
    pub open spec fn release_error(self, caller: AccountId, cycle: u64) -> Option<FeeContractError> {
        match self.admin_error(caller) {
            Some(e) => Some(e),
            None => if self.config.locked {
                Some(FeeContractError::Locked)
            } else if self.config.treasury is None {
                Some(FeeContractError::NotInitialized)
            } else if cycle > self.books.current_cycle {
                Some(FeeContractError::InvalidCycle)
            } else if self.pending_of(cycle) <= 0 {
                Some(FeeContractError::NoPendingFees)
            } else if self.books.escrow_balance < self.pending_of(cycle) {
                Some(FeeContractError::InsufficientEscrow)
            } else if !fits_i128(self.books.total_released + self.pending_of(cycle)) {
                Some(FeeContractError::Overflow)
            } else {
                None
            },
        }
    }

    /// Releases everything pending for `cycle` (the current one or an
    /// earlier one) from escrow to the treasury; returns the amount released.
    /// Only the admin may, and not while the contract is locked.
    pub fn release_fees(&mut self, caller: AccountId, cycle: u64) -> (r: Result<i128, FeeContractError>)
        ensures
            match r {
                Err(e) => old(self).release_error(caller, cycle) == Some(e) && *final(self) == *old(self),
                Ok(released) => {
                    let treasury = old(self).config.treasury->Some_0;
                    &&& old(self).release_error(caller, cycle) is None
                    &&& released == old(self).pending_of(cycle)
                    &&& released > 0
                    &&& final(self).config == old(self).config
                    &&& final(self).books.current_cycle == old(self).books.current_cycle
                    &&& final(self).books.pending@ == old(self).books.pending@.remove(cycle)
                    &&& final(self).books.escrow_balance == old(self).books.escrow_balance - released
                    &&& final(self).books.total_collected == old(self).books.total_collected
                    &&& final(self).books.total_released == old(self).books.total_released + released
                    &&& final(self).books.total_batch_calls == old(self).books.total_batch_calls
                    &&& final(self).transfers@ == old(self).transfers@.push(
                        TokenTransfer::Payout { to: treasury, amount: released },
                    )
                    &&& final(self).events@ == old(self).events@.push(
                        EscrowEvent::FeeReleased { cycle, amount: released, treasury },
                    )
                },
            },
            old(self).books_balance() ==> final(self).books_balance(),
    {
        self.require_admin(caller)?;
        self.require_unlocked()?;
        let treasury = match self.config.treasury {
            Some(t) => t,
            None => {
                return Err(FeeContractError::NotInitialized);
            },
        };
        if cycle > self.books.current_cycle {
            return Err(FeeContractError::InvalidCycle);
        }
        let pending = amount_of(&self.books.pending, &cycle);
        if pending <= 0 {
            return Err(FeeContractError::NoPendingFees);
        }
        if self.books.escrow_balance < pending {
            return Err(FeeContractError::InsufficientEscrow);
        }
        let released_total = match self.books.total_released.checked_add(pending) {
            Some(v) => v,
            None => {
                return Err(FeeContractError::Overflow);
            },
        };
        proof {
            lemma_total_of_remove(self.books.pending@, cycle);
        }
        self.books.pending.remove(&cycle);
        self.books.escrow_balance = self.books.escrow_balance - pending;
        self.books.total_released = released_total;
        self.transfers.push(TokenTransfer::Payout { to: treasury, amount: pending });
        self.events.push(FeeEvents::fee_released(cycle, pending, treasury));
        Ok(pending)
    }

    /// The error with which `rollover_fees` refuses, if it does.
    pub open spec fn rollover_error(self, caller: AccountId, next_cycle: u64) -> Option<FeeContractError> {
        match self.admin_error(caller) {
            Some(e) => Some(e),
            None => if next_cycle <= self.books.current_cycle {
                Some(FeeContractError::InvalidCycle)
            } else if !fits_i128(self.pending_of(next_cycle) + self.pending_of(self.books.current_cycle)) {
                Some(FeeContractError::Overflow)
            } else {
                None
            },
        }
    }

    /// Moves what is pending for the current cycle onto `next_cycle`, which
    /// becomes the current cycle; returns the amount moved. Only the admin
    /// may, and only forward in time.
    pub fn rollover_fees(&mut self, caller: AccountId, next_cycle: u64) -> (r: Result<i128, FeeContractError>)
        ensures
            match r {
                Err(e) => old(self).rollover_error(caller, next_cycle) == Some(e) && *final(self) == *old(self),
                Ok(rolled) => {
                    let current = old(self).books.current_cycle;
                    &&& old(self).rollover_error(caller, next_cycle) is None
                    &&& rolled == old(self).pending_of(current)
                    &&& final(self).config == old(self).config
                    &&& final(self).books.current_cycle == next_cycle
                    &&& final(self).books.pending@ == old(self).books.pending@.remove(current).insert(
                        next_cycle,
                        (old(self).pending_of(next_cycle) + rolled) as i128,
                    )
                    &&& final(self).books.escrow_balance == old(self).books.escrow_balance
                    &&& final(self).books.total_collected == old(self).books.total_collected
                    &&& final(self).books.total_released == old(self).books.total_released
                    &&& final(self).books.total_batch_calls == old(self).books.total_batch_calls
                    &&& final(self).transfers == old(self).transfers
                    &&& final(self).events@ == old(self).events@.push(
                        EscrowEvent::FeeRolled { from_cycle: current, to_cycle: next_cycle, amount: rolled },
                    )
                },
            },
            old(self).books_balance() ==> final(self).books_balance(),
    {
        self.require_admin(caller)?;
        let current_cycle = self.books.current_cycle;
        if next_cycle <= current_cycle {
            return Err(FeeContractError::InvalidCycle);
        }
        let rolled = amount_of(&self.books.pending, &current_cycle);
        let carried = match amount_of(&self.books.pending, &next_cycle).checked_add(rolled) {
            Some(v) => v,
            None => {
                return Err(FeeContractError::Overflow);
            },
        };
        proof {
            let before = self.books.pending@;
            lemma_total_of_remove(before, current_cycle);
            lemma_total_of_insert(before.remove(current_cycle), next_cycle, carried);
        }
        self.books.pending.remove(&current_cycle);
        self.books.pending.insert(next_cycle, carried);
        self.books.current_cycle = next_cycle;
        self.events.push(FeeEvents::fee_rolled(current_cycle, next_cycle, rolled));
        Ok(rolled)
    }

    /// The contract with its configuration replaced by `config` and one more
    /// event, and nothing else changed.
    pub open spec fn reconfigured(self, post: Self, config: EscrowConfig, event: EscrowEvent) -> bool {
        &&& post.config == config
        &&& post.books == self.books
        &&& post.transfers == self.transfers
        &&& post.events@ == self.events@.push(event)
    }

    /// Locks the contract: no releases and no configuration changes until
    /// it is unlocked. Only the admin may.
    pub fn lock(&mut self, caller: AccountId) -> (r: Result<(), FeeContractError>)
        ensures
            match old(self).admin_error(caller) {
                Some(e) => r == Err::<(), FeeContractError>(e) && *final(self) == *old(self),
                None => r is Ok && old(self).reconfigured(
                    *final(self),
                    EscrowConfig { locked: true, ..old(self).config },
                    EscrowEvent::Locked,
                ),
            },
    {
        self.require_admin(caller)?;
        self.config.locked = true;
        self.events.push(FeeEvents::locked());
        Ok(())
    }

    /// Unlocks the contract. Only the admin may.
    pub fn unlock(&mut self, caller: AccountId) -> (r: Result<(), FeeContractError>)
        ensures
            match old(self).admin_error(caller) {
                Some(e) => r == Err::<(), FeeContractError>(e) && *final(self) == *old(self),
                None => r is Ok && old(self).reconfigured(
                    *final(self),
                    EscrowConfig { locked: false, ..old(self).config },
                    EscrowEvent::Unlocked,
                ),
            },
    {
        self.require_admin(caller)?;
        self.config.locked = false;
        self.events.push(FeeEvents::unlocked());
        Ok(())
    }

    /// The error, if any, with which a configuration change by `caller` is
    /// refused: the admin only, and not while locked.
    pub open spec fn config_change_error(self, caller: AccountId) -> Option<FeeContractError> {
        match self.admin_error(caller) {
            Some(e) => Some(e),
            None => if self.config.locked {
                Some(FeeContractError::Locked)
            } else {
                None
            },
        }
    }

    /// Sets the fee rate; at most `MAX_FEE_BPS`.
    pub fn set_fee_bps(&mut self, caller: AccountId, fee_bps: u32) -> (r: Result<(), FeeContractError>)
        ensures
            match old(self).config_change_error(caller) {
                Some(e) => r == Err::<(), FeeContractError>(e) && *final(self) == *old(self),
                None => if fee_bps > MAX_FEE_BPS {
                    r == Err::<(), FeeContractError>(FeeContractError::InvalidConfig) && *final(self)
                        == *old(self)
                } else {
                    r is Ok && old(self).reconfigured(
                        *final(self),
                        EscrowConfig { fee_bps, ..old(self).config },
                        EscrowEvent::FeeBpsUpdated { fee_bps },
                    )
                },
            },
    {
        self.require_admin(caller)?;
        self.require_unlocked()?;
        if fee_bps > MAX_FEE_BPS {
            return Err(FeeContractError::InvalidConfig);
        }
        self.config.fee_bps = fee_bps;
        self.events.push(FeeEvents::fee_bps_updated(fee_bps));
        Ok(())
    }

    /// Sets the account that released fees are paid to.
    pub fn set_treasury(&mut self, caller: AccountId, treasury: AccountId) -> (r: Result<(), FeeContractError>)
        ensures
            match old(self).config_change_error(caller) {
                Some(e) => r == Err::<(), FeeContractError>(e) && *final(self) == *old(self),
                None => r is Ok && old(self).reconfigured(
                    *final(self),
                    EscrowConfig { treasury: Some(treasury), ..old(self).config },
                    EscrowEvent::TreasuryUpdated { treasury },
                ),
            },
    {
        self.require_admin(caller)?;
        self.require_unlocked()?;
        self.config.treasury = Some(treasury);
        self.events.push(FeeEvents::treasury_updated(treasury));
        Ok(())
    }

    /// Sets the least fee that a collection accepts; not negative.
    pub fn set_min_fee(&mut self, caller: AccountId, min_fee: i128) -> (r: Result<(), FeeContractError>)
        ensures
            match old(self).config_change_error(caller) {
                Some(e) => r == Err::<(), FeeContractError>(e) && *final(self) == *old(self),
                None => if min_fee < 0 {
                    r == Err::<(), FeeContractError>(FeeContractError::InvalidConfig) && *final(self)
                        == *old(self)
                } else {
                    r is Ok && old(self).reconfigured(
                        *final(self),
                        EscrowConfig { min_fee, ..old(self).config },
                        EscrowEvent::MinFeeUpdated { min_fee },
                    )
                },
            },
    {
        self.require_admin(caller)?;
        self.require_unlocked()?;
        if min_fee < 0 {
            return Err(FeeContractError::InvalidConfig);
        }
        self.config.min_fee = min_fee;
        self.events.push(FeeEvents::min_fee_updated(min_fee));
        Ok(())
    }

    /// The administrator; refused before set-up.
    pub fn get_admin(&self) -> (r: Result<AccountId, FeeContractError>)
        ensures
            r == match self.config.admin {
                Some(a) => Ok::<AccountId, FeeContractError>(a),
                None => Err(FeeContractError::NotInitialized),
            },
    {
        match self.config.admin {
            Some(a) => Ok(a),
            None => Err(FeeContractError::NotInitialized),
        }
    }

    /// The fee token; refused before set-up.
    pub fn get_token(&self) -> (r: Result<AccountId, FeeContractError>)
        ensures
            r == match self.config.token {
                Some(a) => Ok::<AccountId, FeeContractError>(a),
                None => Err(FeeContractError::NotInitialized),
            },
    {
        match self.config.token {
            Some(a) => Ok(a),
            None => Err(FeeContractError::NotInitialized),
        }
    }

    /// The treasury; refused before set-up.
    pub fn get_treasury(&self) -> (r: Result<AccountId, FeeContractError>)
        ensures
            r == match self.config.treasury {
                Some(a) => Ok::<AccountId, FeeContractError>(a),
                None => Err(FeeContractError::NotInitialized),
            },
    {
        match self.config.treasury {
            Some(a) => Ok(a),
            None => Err(FeeContractError::NotInitialized),
        }
    }

    pub fn get_fee_bps(&self) -> (r: u32)
        ensures
            r == self.config.fee_bps,
    {
        self.config.fee_bps
    }

    pub fn get_min_fee(&self) -> (r: i128)
        ensures
            r == self.config.min_fee,
    {
        self.config.min_fee
    }

    pub fn is_locked(&self) -> (r: bool)
        ensures
            r == self.config.locked,
    {
        self.config.locked
    }

    pub fn get_current_cycle(&self) -> (r: u64)
        ensures
            r == self.books.current_cycle,
    {
        self.books.current_cycle
    }

    pub fn get_escrow_balance(&self) -> (r: i128)
        ensures
            r == self.books.escrow_balance,
    {
        self.books.escrow_balance
    }

    /// The amount pending for `cycle` (zero where nothing is).
    pub fn get_pending_fees(&self, cycle: u64) -> (r: i128)
        ensures
            r == self.pending_of(cycle),
    {
        amount_of(&self.books.pending, &cycle)
    }

    pub fn get_total_collected(&self) -> (r: i128)
        ensures
            r == self.books.total_collected,
    {
        self.books.total_collected
    }

    pub fn get_total_released(&self) -> (r: i128)
        ensures
            r == self.books.total_released,
    {
        self.books.total_released
    }

    pub fn get_total_batch_calls(&self) -> (r: u64)
        ensures
            r == self.books.total_batch_calls,
    {
        self.books.total_batch_calls
    }
}

} // verus!
