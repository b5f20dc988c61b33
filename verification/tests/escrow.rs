use fee_contracts::escrow::{
    BatchFeeResult, EscrowEvent, FeeContract, FeeContractError, FeeEvents, TokenTransfer,
    MAX_BATCH_SIZE, MAX_FEE_BPS,
};

const ADMIN: u64 = 1;
const TOKEN: u64 = 2;
const TREASURY: u64 = 3;
const PAYER: u64 = 4;
const STRANGER: u64 = 5;

fn set_up() -> FeeContract {
    let mut contract = FeeContract::new();
    contract.initialize(ADMIN, TOKEN, TREASURY, 250, 1).unwrap();
    contract
}

fn balanced(contract: &FeeContract) -> bool {
    contract.get_escrow_balance() == contract.get_total_collected() - contract.get_total_released()
}

#[test]
fn escrow_initialize_sets_configuration() {
    let contract = set_up();
    assert_eq!(contract.get_admin(), Ok(ADMIN));
    assert_eq!(contract.get_token(), Ok(TOKEN));
    assert_eq!(contract.get_treasury(), Ok(TREASURY));
    assert_eq!(contract.get_fee_bps(), 250);
    assert!(!contract.is_locked());
    assert_eq!(contract.get_current_cycle(), 1);
    assert!(contract.has_admin());
}

#[test]
fn escrow_initialize_rejects_bad_config() {
    let mut contract = FeeContract::new();
    assert_eq!(
        contract.initialize(ADMIN, TOKEN, TREASURY, MAX_FEE_BPS + 1, 1),
        Err(FeeContractError::InvalidConfig)
    );
    assert_eq!(
        contract.initialize(ADMIN, TOKEN, TREASURY, 100, 0),
        Err(FeeContractError::InvalidConfig)
    );
    assert!(!contract.has_admin());
    assert_eq!(contract.get_admin(), Err(FeeContractError::NotInitialized));
}

#[test]
fn collect_fee_escrows_under_current_cycle() {
    let mut contract = set_up();
    assert_eq!(contract.collect_fee(PAYER, 100), Ok(100));
    assert_eq!(contract.collect_fee(PAYER, 50), Ok(150));
    assert_eq!(contract.get_pending_fees(1), 150);
    assert_eq!(contract.get_escrow_balance(), 150);
    assert_eq!(contract.get_total_collected(), 150);
    assert_eq!(
        contract.transfers,
        vec![
            TokenTransfer::Deposit { from: PAYER, amount: 100 },
            TokenTransfer::Deposit { from: PAYER, amount: 50 },
        ]
    );
    assert_eq!(
        contract.events.last(),
        Some(&EscrowEvent::FeeEscrowed { payer: PAYER, amount: 50, cycle: 1 })
    );
    assert!(balanced(&contract));
}

#[test]
fn collect_fee_rejects_small_or_uninitialized() {
    let mut blank = FeeContract::new();
    assert_eq!(blank.collect_fee(PAYER, 10), Err(FeeContractError::NotInitialized));
    let mut contract = set_up();
    assert_eq!(contract.collect_fee(PAYER, 0), Err(FeeContractError::InvalidAmount));
    contract.set_min_fee(ADMIN, 20).unwrap();
    assert_eq!(contract.collect_fee(PAYER, 19), Err(FeeContractError::InvalidAmount));
    assert_eq!(contract.collect_fee(PAYER, 20), Ok(20));
}

#[test]
fn batch_collects_sum_and_counts_calls() {
    let mut contract = set_up();
    let result = contract.collect_fee_batch(PAYER, &vec![10, 20, 30]).unwrap();
    assert_eq!(result, BatchFeeResult { total_amount: 60, batch_size: 3, cycle: 1 });
    assert_eq!(contract.get_total_batch_calls(), 1);
    assert_eq!(contract.get_pending_fees(1), 60);
    assert_eq!(
        contract.events.last(),
        Some(&EscrowEvent::FeeBatched { payer: PAYER, total_amount: 60, batch_size: 3, cycle: 1 })
    );
    assert_eq!(contract.transfers, vec![TokenTransfer::Deposit { from: PAYER, amount: 60 }]);
}

#[test]
fn batch_rejections() {
    let mut contract = set_up();
    assert_eq!(contract.collect_fee_batch(PAYER, &vec![]), Err(FeeContractError::EmptyBatch));
    let too_many = vec![1i128; MAX_BATCH_SIZE as usize + 1];
    assert_eq!(contract.collect_fee_batch(PAYER, &too_many), Err(FeeContractError::BatchTooLarge));
    assert_eq!(contract.collect_fee_batch(PAYER, &vec![5, -1, 5]), Err(FeeContractError::InvalidAmount));
    assert_eq!(
        contract.collect_fee_batch(PAYER, &vec![i128::MAX, 1]),
        Err(FeeContractError::Overflow)
    );
    assert_eq!(contract.get_total_batch_calls(), 0);
    assert_eq!(contract.get_escrow_balance(), 0);
}

#[test]
fn preview_matches_batch_collection() {
    let contract = set_up();
    assert_eq!(contract.preview_batch_fee(PAYER, &vec![7, 8, 9]), Ok(24));
    assert_eq!(contract.preview_batch_fee(PAYER, &vec![]), Err(FeeContractError::EmptyBatch));
    assert_eq!(contract.preview_batch_fee(PAYER, &vec![0]), Err(FeeContractError::InvalidAmount));
    let mut collecting = set_up();
    let collected = collecting.collect_fee_batch(PAYER, &vec![7, 8, 9]).unwrap();
    assert_eq!(collected.total_amount, 24);
}

#[test]
fn release_pays_treasury_pending_amount() {
    let mut contract = set_up();
    contract.collect_fee(PAYER, 400).unwrap();
    assert_eq!(contract.release_fees(STRANGER, 1), Err(FeeContractError::Unauthorized));
    assert_eq!(contract.release_fees(ADMIN, 2), Err(FeeContractError::InvalidCycle));
    assert_eq!(contract.release_fees(ADMIN, 1), Ok(400));
    assert_eq!(contract.get_pending_fees(1), 0);
    assert_eq!(contract.get_escrow_balance(), 0);
    assert_eq!(contract.get_total_released(), 400);
    assert_eq!(contract.transfers.last(), Some(&TokenTransfer::Payout { to: TREASURY, amount: 400 }));
    assert_eq!(
        contract.events.last(),
        Some(&EscrowEvent::FeeReleased { cycle: 1, amount: 400, treasury: TREASURY })
    );
    assert_eq!(contract.release_fees(ADMIN, 1), Err(FeeContractError::NoPendingFees));
    assert!(balanced(&contract));
}

#[test]
fn lock_blocks_release_and_configuration() {
    let mut contract = set_up();
    contract.collect_fee(PAYER, 10).unwrap();
    assert_eq!(contract.lock(STRANGER), Err(FeeContractError::Unauthorized));
    contract.lock(ADMIN).unwrap();
    assert!(contract.is_locked());
    assert_eq!(contract.release_fees(ADMIN, 1), Err(FeeContractError::Locked));
    assert_eq!(contract.set_fee_bps(ADMIN, 10), Err(FeeContractError::Locked));
    assert_eq!(contract.set_treasury(ADMIN, STRANGER), Err(FeeContractError::Locked));
    assert_eq!(contract.set_min_fee(ADMIN, 1), Err(FeeContractError::Locked));
    contract.unlock(ADMIN).unwrap();
    assert_eq!(contract.events.last(), Some(&EscrowEvent::Unlocked));
    assert_eq!(contract.release_fees(ADMIN, 1), Ok(10));
}

#[test]
fn rollover_moves_pending_forward() {
    let mut contract = set_up();
    contract.collect_fee(PAYER, 300).unwrap();
    assert_eq!(contract.rollover_fees(ADMIN, 1), Err(FeeContractError::InvalidCycle));
    assert_eq!(contract.rollover_fees(ADMIN, 3), Ok(300));
    assert_eq!(contract.get_current_cycle(), 3);
    assert_eq!(contract.get_pending_fees(1), 0);
    assert_eq!(contract.get_pending_fees(3), 300);
    assert_eq!(contract.get_escrow_balance(), 300);
    assert_eq!(
        contract.events.last(),
        Some(&EscrowEvent::FeeRolled { from_cycle: 1, to_cycle: 3, amount: 300 })
    );
    contract.collect_fee(PAYER, 5).unwrap();
    assert_eq!(contract.get_pending_fees(3), 305);
    assert_eq!(contract.release_fees(ADMIN, 3), Ok(305));
    assert!(balanced(&contract));
}

#[test]
fn configuration_setters() {
    let mut contract = set_up();
    assert_eq!(contract.set_fee_bps(ADMIN, MAX_FEE_BPS + 1), Err(FeeContractError::InvalidConfig));
    contract.set_fee_bps(ADMIN, 500).unwrap();
    assert_eq!(contract.get_fee_bps(), 500);
    assert_eq!(contract.events.last(), Some(&FeeEvents::fee_bps_updated(500)));
    contract.set_treasury(ADMIN, STRANGER).unwrap();
    assert_eq!(contract.get_treasury(), Ok(STRANGER));
    assert_eq!(contract.set_min_fee(ADMIN, -1), Err(FeeContractError::InvalidConfig));
    contract.set_min_fee(ADMIN, 3).unwrap();
    assert_eq!(contract.get_min_fee(), 3);
    assert_eq!(contract.events.last(), Some(&EscrowEvent::MinFeeUpdated { min_fee: 3 }));
}

#[test]
fn escrow_errors_convert_to_host_contract_errors() {
    let e: soroban_sdk::Error = FeeContractError::Locked.into();
    assert_eq!(e, soroban_sdk::Error::from_contract_error(3));
    assert_eq!(e.get_code(), 3);
    assert_eq!(FeeContractError::NotInitialized.code(), 1);
    assert_eq!(FeeContractError::NoPendingFees.code(), 11);
}
