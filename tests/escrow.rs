use dca_integration::close::{close, BurnPlan, Close, TokenAccountState};
use dca_integration::error::EscrowError;
use dca_integration::math::{checked_as_u64, checked_div, checked_mul, checked_sub, compute_fee};
use dca_integration::pda::{
    build_escrow_seeds, build_reserve_seeds, find_escrow_authority, find_reserve_authority,
    Address,
};
use dca_integration::setup_dca::{setup_dca, SetupDca, NATIVE_MINT, TOKEN_ACCOUNT_SPACE};
use dca_integration::state::Escrow;

const PROGRAM: Address = [7u8; 32];
const USER: Address = [1u8; 32];
const OUTPUT_MINT: Address = [2u8; 32];
const DCA: Address = [3u8; 32];
const IN_ATA: Address = [4u8; 32];
const OUT_ATA: Address = [5u8; 32];

fn setup_ctx(heehee_lamports: u64, min_rent: u64, idx: u64) -> SetupDca {
    let escrow = find_escrow_authority(&PROGRAM, &USER, &NATIVE_MINT, &OUTPUT_MINT, idx).unwrap();
    let heehee = find_reserve_authority(&PROGRAM, &OUTPUT_MINT).unwrap();
    SetupDca {
        program_id: PROGRAM,
        jup_dca: DCA,
        input_mint: NATIVE_MINT,
        output_mint: OUTPUT_MINT,
        user: USER,
        escrow_address: escrow.address,
        heehee: heehee.address,
        heehee_lamports,
        min_rent,
        escrow_in_ata: IN_ATA,
    }
}

fn close_ctx(dca_lamports: u64, in_amount: u64, out_amount: u64) -> Close {
    let idx: u64 = 9;
    let auth = find_escrow_authority(&PROGRAM, &USER, &NATIVE_MINT, &OUTPUT_MINT, idx).unwrap();
    let escrow = Escrow {
        idx,
        user: USER,
        dca: DCA,
        input_mint: NATIVE_MINT,
        output_mint: OUTPUT_MINT,
        input_amount: 10_000,
        output_amount: 0,
        airdrop_amount: 0,
        completed: false,
        airdropped: false,
        bump: auth.bump,
    };
    Close {
        program_id: PROGRAM,
        input_mint: NATIVE_MINT,
        output_mint: OUTPUT_MINT,
        user: USER,
        escrow_address: auth.address,
        escrow,
        escrow_in_ata: TokenAccountState {
            address: IN_ATA,
            mint: NATIVE_MINT,
            owner: auth.address,
            amount: in_amount,
        },
        dca: DCA,
        dca_lamports,
        escrow_out_ata: TokenAccountState {
            address: OUT_ATA,
            mint: OUTPUT_MINT,
            owner: auth.address,
            amount: out_amount,
        },
    }
}

#[test]
fn fee_of_one_million_at_five_percent() {
    assert_eq!(Close::compute_airdrop_amount(1_000_000), Ok(50_000));
    assert_eq!(compute_fee(1_000_000, 500), Ok(50_000));
}

#[test]
fn fee_rounds_down() {
    assert_eq!(Close::compute_airdrop_amount(19_999), Ok(999));
    assert_eq!(Close::compute_airdrop_amount(19), Ok(0));
    assert_eq!(Close::compute_airdrop_amount(0), Ok(0));
}

#[test]
fn fee_of_largest_amount_fits() {
    assert_eq!(Close::compute_airdrop_amount(u64::MAX), Ok(u64::MAX / 20));
}

#[test]
fn fee_fails_when_quotient_does_not_fit() {
    assert_eq!(compute_fee(u64::MAX, 20_000), Err(EscrowError::ArithmeticError));
    assert_eq!(compute_fee(u64::MAX, 10_000), Ok(u64::MAX));
}

#[test]
fn checked_primitives_fail_instead_of_wrapping() {
    assert_eq!(checked_mul(u128::MAX, 2), Err(EscrowError::ArithmeticError));
    assert_eq!(checked_mul(u128::MAX / 2, 2), Ok(u128::MAX - 1));
    assert_eq!(checked_div(7, 0), Err(EscrowError::ArithmeticError));
    assert_eq!(checked_div(7, 2), Ok(3));
    assert_eq!(checked_as_u64(u64::MAX as u128 + 1), Err(EscrowError::ArithmeticError));
    assert_eq!(checked_as_u64(u64::MAX as u128), Ok(u64::MAX));
    assert_eq!(checked_sub(3, 4), Err(EscrowError::ArithmeticError));
    assert_eq!(checked_sub(4, 3), Ok(1));
}

#[test]
fn escrow_derivation_is_deterministic() {
    let a = find_escrow_authority(&PROGRAM, &USER, &NATIVE_MINT, &OUTPUT_MINT, 5);
    let b = find_escrow_authority(&PROGRAM, &USER, &NATIVE_MINT, &OUTPUT_MINT, 5);
    assert!(a.is_some());
    assert_eq!(a, b);
    let other = find_escrow_authority(&PROGRAM, &USER, &NATIVE_MINT, &OUTPUT_MINT, 6);
    assert_ne!(a.unwrap().address, other.unwrap().address);
    let reserve = find_reserve_authority(&PROGRAM, &OUTPUT_MINT).unwrap();
    assert_eq!(Some(reserve), find_reserve_authority(&PROGRAM, &OUTPUT_MINT));
    assert_ne!(reserve.address, a.unwrap().address);
}

#[test]
fn escrow_derivation_matches_program_address_search() {
    let idx: u64 = 42;
    let found = find_escrow_authority(&PROGRAM, &USER, &NATIVE_MINT, &OUTPUT_MINT, idx).unwrap();
    let program = solana_program::pubkey::Pubkey::new_from_array(PROGRAM);
    let idx_bytes = idx.to_le_bytes();
    let (key, bump) = solana_program::pubkey::Pubkey::find_program_address(
        &[b"escrow", &USER, &NATIVE_MINT, &OUTPUT_MINT, &idx_bytes],
        &program,
    );
    assert_eq!(found.address, key.to_bytes());
    assert_eq!(found.bump, bump);
    assert_ne!(found.address, PROGRAM);
    let reserve = find_reserve_authority(&PROGRAM, &OUTPUT_MINT).unwrap();
    let (rkey, rbump) =
        solana_program::pubkey::Pubkey::find_program_address(&[b"heehee", &OUTPUT_MINT], &program);
    assert_eq!(reserve.address, rkey.to_bytes());
    assert_eq!(reserve.bump, rbump);
}

#[test]
fn seed_lists_hold_the_identifiers() {
    let seeds = build_escrow_seeds(&USER, &NATIVE_MINT, &OUTPUT_MINT, 258);
    assert_eq!(seeds.len(), 5);
    assert_eq!(seeds[0], b"escrow".to_vec());
    assert_eq!(seeds[1], USER.to_vec());
    assert_eq!(seeds[4], vec![2u8, 1, 0, 0, 0, 0, 0, 0]);
    let reserve = build_reserve_seeds(&OUTPUT_MINT);
    assert_eq!(reserve, vec![b"heehee".to_vec(), OUTPUT_MINT.to_vec()]);
}

#[test]
fn native_mint_is_wrapped_native_currency() {
    assert_eq!(NATIVE_MINT, anchor_spl::token::spl_token::native_mint::id().to_bytes());
}

#[test]
fn close_fails_while_schedule_holds_balance() {
    let mut ctx = close_ctx(1, 0, 500);
    let before = ctx;
    assert_eq!(close(&mut ctx), Err(EscrowError::ScheduleNotClosed));
    assert_eq!(ctx, before);
}

#[test]
fn close_fails_with_residual_input_balance() {
    let mut ctx = close_ctx(0, 1, 500);
    let before = ctx;
    assert_eq!(close(&mut ctx), Err(EscrowError::UnexpectedResidualBalance));
    assert_eq!(ctx, before);
}

#[test]
fn close_snapshots_output_and_fee() {
    let mut ctx = close_ctx(0, 0, 1_000_000);
    let before = ctx;
    let plan = close(&mut ctx).unwrap();
    assert_eq!(plan, BurnPlan { input_burn: 0, output_burn: 1_000_000, signer_bump: before.escrow.bump });
    assert_eq!(ctx.escrow.output_amount, 1_000_000);
    assert_eq!(ctx.escrow.airdrop_amount, 50_000);
    assert!(ctx.escrow.completed);
    assert!(!ctx.escrow.airdropped);
    assert_eq!(ctx.escrow.input_amount, before.escrow.input_amount);
    assert_eq!(ctx.escrow_out_ata, before.escrow_out_ata);
}

#[test]
fn close_twice_is_refused() {
    let mut ctx = close_ctx(0, 0, 1_000_000);
    close(&mut ctx).unwrap();
    let after_first = ctx;
    ctx.escrow_out_ata.amount = 0;
    assert_eq!(close(&mut ctx), Err(EscrowError::AlreadyCompleted));
    assert_eq!(ctx.escrow, after_first.escrow);
}

#[test]
fn close_by_another_user_is_refused() {
    let mut ctx = close_ctx(0, 0, 10);
    ctx.user = [9u8; 32];
    let before = ctx;
    assert_eq!(close(&mut ctx), Err(EscrowError::AuthorityMismatch));
    assert_eq!(ctx, before);
}

#[test]
fn close_with_foreign_custody_account_is_refused() {
    let mut ctx = close_ctx(0, 0, 10);
    ctx.escrow_out_ata.owner = USER;
    assert_eq!(close(&mut ctx), Err(EscrowError::AuthorityMismatch));
    let mut ctx = close_ctx(0, 0, 10);
    ctx.escrow.bump = ctx.escrow.bump.wrapping_sub(1);
    assert_eq!(close(&mut ctx), Err(EscrowError::AuthorityMismatch));
}

#[test]
fn setup_below_floor_is_insufficient() {
    let ctx = setup_ctx(199, 100, 0);
    assert_eq!(setup_dca(&ctx, 0, 0, 0, 0, None, None, None), Err(EscrowError::InsufficientFunds));
    let ctx = setup_ctx(50, 100, 0);
    assert_eq!(setup_dca(&ctx, 0, 0, 0, 0, None, None, None), Err(EscrowError::InsufficientFunds));
}

#[test]
fn setup_end_to_end_amounts() {
    let ctx = setup_ctx(10_100, 100, 3);
    let plan = setup_dca(&ctx, 3, 1, 2, 3, Some(7), Some(8), Some(1_700_000_000)).unwrap();
    assert_eq!(plan.transfer_amount, 10_000);
    assert_eq!(plan.escrow.input_amount, 10_000);
    assert_eq!(plan.open_dca.in_amount_per_cycle, 100);
    // The total handed to the engine subtracts the retained minimum twice more.
    assert_eq!(plan.open_dca.in_amount, 9_800);
    assert_eq!(plan.open_dca.cycle_frequency, 60);
    assert_eq!(plan.open_dca.application_idx, 3);
    assert_eq!(plan.open_dca.min_out_amount, Some(7));
    assert_eq!(plan.open_dca.max_out_amount, Some(8));
    assert_eq!(plan.open_dca.start_at, Some(1_700_000_000));
    assert_eq!(plan.custody_rent, 100);
    assert_eq!(plan.custody_space, TOKEN_ACCOUNT_SPACE);
    let escrow_auth = find_escrow_authority(&PROGRAM, &USER, &NATIVE_MINT, &OUTPUT_MINT, 3).unwrap();
    let heehee_auth = find_reserve_authority(&PROGRAM, &OUTPUT_MINT).unwrap();
    assert_eq!(plan.heehee_bump, heehee_auth.bump);
    assert_eq!(
        plan.escrow,
        Escrow {
            idx: 3,
            user: USER,
            dca: DCA,
            input_mint: NATIVE_MINT,
            output_mint: OUTPUT_MINT,
            input_amount: 10_000,
            output_amount: 0,
            airdrop_amount: 0,
            completed: false,
            airdropped: false,
            bump: escrow_auth.bump,
        }
    );
}

#[test]
fn setup_fails_when_engine_total_underflows() {
    let ctx = setup_ctx(2_500, 1_000, 0);
    assert_eq!(setup_dca(&ctx, 0, 0, 0, 0, None, None, None), Err(EscrowError::ArithmeticError));
}

#[test]
fn setup_checks_accounts() {
    let mut ctx = setup_ctx(10_100, 100, 1);
    ctx.input_mint = OUTPUT_MINT;
    assert_eq!(setup_dca(&ctx, 1, 0, 0, 0, None, None, None), Err(EscrowError::AuthorityMismatch));
    let ctx = setup_ctx(10_100, 100, 1);
    assert_eq!(setup_dca(&ctx, 2, 0, 0, 0, None, None, None), Err(EscrowError::AuthorityMismatch));
    let mut ctx = setup_ctx(10_100, 100, 1);
    ctx.heehee = USER;
    assert_eq!(setup_dca(&ctx, 1, 0, 0, 0, None, None, None), Err(EscrowError::AuthorityMismatch));
}

#[test]
fn setup_then_close_completes_record() {
    let ctx = setup_ctx(10_100, 100, 9);
    let plan = setup_dca(&ctx, 9, 0, 0, 0, None, None, None).unwrap();
    let mut closing = close_ctx(0, 0, 2_000);
    closing.escrow = plan.escrow;
    let burn = close(&mut closing).unwrap();
    assert_eq!(burn.output_burn, 2_000);
    assert_eq!(closing.escrow.airdrop_amount, 100);
    assert!(closing.escrow.completed);
}
