use vstd::prelude::*;

use crate::close::same_address;
use crate::error::EscrowError;
use crate::pda::{
    escrow_derivation, find_escrow_authority, find_reserve_authority, reserve_derivation, Address,
};
use crate::state::Escrow;

verus! {

/// The wrapped native currency's mint address; the input asset must be it.
pub const NATIVE_MINT: Address = [
    6u8, 155u8, 136u8, 87u8, 254u8, 171u8, 129u8, 132u8, 251u8, 104u8, 127u8, 99u8, 70u8, 24u8,
    192u8, 53u8, 218u8, 196u8, 57u8, 220u8, 26u8, 235u8, 59u8, 85u8, 152u8, 160u8, 240u8, 0u8, 0u8,
    0u8, 0u8, 1u8,
];

/// Number of cycles the input is split over.
pub const CYCLE_COUNT: u64 = 100;

/// Smallest spendable reserve balance for which a schedule is opened.
pub const MIN_SPENDABLE: u64 = 100;

/// Seconds between two cycles.
pub const CYCLE_FREQUENCY: i64 = 60;

/// Size in bytes of a token account.
pub const TOKEN_ACCOUNT_SPACE: u64 = 165;

/// The accounts and balances that setting up an escrow reads.
#[derive(Clone, Copy, Debug, PartialEq, Eq)]
pub struct SetupDca {
    /// This program's id, under which the escrow and reserve addresses are derived.
    pub program_id: Address,
    /// The external schedule's account address.
    pub jup_dca: Address,
    pub input_mint: Address,
    pub output_mint: Address,
    /// The signing user.
    pub user: Address,
    /// The address at which the escrow record is to be created.
    pub escrow_address: Address,
    /// The reserve account for the output asset.
    pub heehee: Address,
    /// The reserve's current balance.
    pub heehee_lamports: u64,
    /// The minimum balance an account must keep to stay valid.
    pub min_rent: u64,
    /// The fresh account that becomes the input custody account.
    pub escrow_in_ata: Address,
}

/// What is handed to the external schedule engine to open a schedule.
#[derive(Clone, Copy, Debug, PartialEq, Eq, Structural)]
pub struct OpenDcaParams {
    pub application_idx: u64,
    pub in_amount: u64,
    pub in_amount_per_cycle: u64,
    pub cycle_frequency: i64,
    pub min_out_amount: Option<u64>,
    pub max_out_amount: Option<u64>,
    pub start_at: Option<i64>,
}

/// The effects of a successful setup, in the order they are carried out:
/// create the input custody account from the reserve, fund it with the
/// spendable balance, resynchronize its wrapped balance, persist the record,
/// and open the schedule under the escrow's authority.
#[derive(Clone, Copy, Debug, PartialEq, Eq)]
pub struct SetupPlan {
    /// The bump under which the reserve signs.
    pub heehee_bump: u8,
    /// Balance given to the new custody account at creation.
    pub custody_rent: u64,
    /// Size of the new custody account.
    pub custody_space: u64,
    /// Amount moved from the reserve into the custody account.
    pub transfer_amount: u64,
    /// The record to persist.
    pub escrow: Escrow,
    pub open_dca: OpenDcaParams,
}

/// The accounts presented to a setup are the expected ones: the input asset
/// is the wrapped native currency, and the escrow and reserve sit at their
/// derived addresses.
pub open spec fn setup_accounts_valid(s: SetupDca, application_idx: u64) -> bool {
    &&& s.input_mint == NATIVE_MINT
    &&& escrow_derivation(s.program_id@, s.user@, s.input_mint@, s.output_mint@, application_idx) matches Some(
        d,
    ) && d.0 == s.escrow_address@
    &&& reserve_derivation(s.program_id@, s.output_mint@) matches Some(d) && d.0 == s.heehee@
}

/// The reserve's balance above what it must retain.
pub open spec fn spendable(s: SetupDca) -> int {
    s.heehee_lamports - s.min_rent
}

/// Plans the setup of an escrow for `(user, input asset, output asset,
/// application_idx)`. The declared amounts and frequency are advisory and
/// ignored: the whole spendable reserve balance is escrowed, split over a
/// fixed number of cycles at a fixed frequency. The amount handed to the
/// schedule engine is the spendable balance less twice the retained minimum.
pub fn setup_dca(
    ctx: &SetupDca,
    application_idx: u64,
    _in_amount: u64,
    _in_amount_per_cycle: u64,
    _cycle_frequency: i64,
    min_out_amount: Option<u64>,
    max_out_amount: Option<u64>,
    start_at: Option<i64>,
) -> (r: Result<SetupPlan, EscrowError>)
    ensures
        !setup_accounts_valid(*ctx, application_idx) ==> r == Err::<SetupPlan, EscrowError>(
            EscrowError::AuthorityMismatch,
        ),
        setup_accounts_valid(*ctx, application_idx) && spendable(*ctx) < MIN_SPENDABLE ==> r
            == Err::<SetupPlan, EscrowError>(EscrowError::InsufficientFunds),
        setup_accounts_valid(*ctx, application_idx) && spendable(*ctx) >= MIN_SPENDABLE
            && spendable(*ctx) < 2 * ctx.min_rent ==> r == Err::<SetupPlan, EscrowError>(
            EscrowError::ArithmeticError,
        ),
        setup_accounts_valid(*ctx, application_idx) && spendable(*ctx) >= MIN_SPENDABLE
            && spendable(*ctx) >= 2 * ctx.min_rent ==> r is Ok,
        r matches Ok(plan) ==> {
            &&& reserve_derivation(ctx.program_id@, ctx.output_mint@) == Some(
                (ctx.heehee@, plan.heehee_bump),
            )
            &&& escrow_derivation(
                ctx.program_id@,
                ctx.user@,
                ctx.input_mint@,
                ctx.output_mint@,
                application_idx,
            ) == Some((ctx.escrow_address@, plan.escrow.bump))
            &&& plan.custody_rent == ctx.min_rent
            &&& plan.custody_space == TOKEN_ACCOUNT_SPACE
            &&& plan.transfer_amount == spendable(*ctx)
            &&& plan.escrow == (Escrow {
                idx: application_idx,
                user: ctx.user,
                dca: ctx.jup_dca,
                input_mint: ctx.input_mint,
                output_mint: ctx.output_mint,
                input_amount: spendable(*ctx) as u64,
                output_amount: 0,
                airdrop_amount: 0,
                completed: false,
                airdropped: false,
                bump: plan.escrow.bump,
            })
            &&& plan.escrow.wf()
            &&& plan.open_dca == (OpenDcaParams {
                application_idx,
                in_amount: (spendable(*ctx) - 2 * ctx.min_rent) as u64,
                in_amount_per_cycle: (spendable(*ctx) / CYCLE_COUNT as int) as u64,
                cycle_frequency: CYCLE_FREQUENCY,
                min_out_amount,
                max_out_amount,
                start_at,
            })
        },
{
    if !same_address(&ctx.input_mint, &NATIVE_MINT) {
        return Err(EscrowError::AuthorityMismatch);
    }
    let escrow_auth = match find_escrow_authority(
        &ctx.program_id,
        &ctx.user,
        &ctx.input_mint,
        &ctx.output_mint,
        application_idx,
    ) {
        Some(d) => d,
        None => {
            return Err(EscrowError::AuthorityMismatch);
        },
    };
    if !same_address(&escrow_auth.address, &ctx.escrow_address) {
        return Err(EscrowError::AuthorityMismatch);
    }
    let heehee_auth = match find_reserve_authority(&ctx.program_id, &ctx.output_mint) {
        Some(d) => d,
        None => {
            return Err(EscrowError::AuthorityMismatch);
        },
    };
    if !same_address(&heehee_auth.address, &ctx.heehee) {
        return Err(EscrowError::AuthorityMismatch);
    }
    let lamport_ss = match ctx.heehee_lamports.checked_sub(ctx.min_rent) {
        Some(v) => v,
        None => {
            return Err(EscrowError::InsufficientFunds);
        },
    };
    if lamport_ss < MIN_SPENDABLE {
        return Err(EscrowError::InsufficientFunds);
    }
    let in_amount_per_cycle = match lamport_ss.checked_div(CYCLE_COUNT) {
        Some(v) => v,
        None => {
            return Err(EscrowError::ArithmeticError);
        },
    };
    let once = match lamport_ss.checked_sub(ctx.min_rent) {
        Some(v) => v,
        None => {
            return Err(EscrowError::ArithmeticError);
        },
    };
    let in_amount = match once.checked_sub(ctx.min_rent) {
        Some(v) => v,
        None => {
            return Err(EscrowError::ArithmeticError);
        },
    };
    let escrow = Escrow {
        idx: application_idx,
        user: ctx.user,
        dca: ctx.jup_dca,
        input_mint: ctx.input_mint,
        output_mint: ctx.output_mint,
        input_amount: lamport_ss,
        output_amount: 0,
        airdrop_amount: 0,
        completed: false,
        airdropped: false,
        bump: escrow_auth.bump,
    };
    let open_dca = OpenDcaParams {
        application_idx,
        in_amount,
        in_amount_per_cycle,
        cycle_frequency: CYCLE_FREQUENCY,
        min_out_amount,
        max_out_amount,
        start_at,
    };
    proof {
        assert(escrow_auth.address =~= ctx.escrow_address);
        assert(heehee_auth.address =~= ctx.heehee);
    }
    Ok(
        SetupPlan {
            heehee_bump: heehee_auth.bump,
            custody_rent: ctx.min_rent,
            custody_space: TOKEN_ACCOUNT_SPACE,
            transfer_amount: lamport_ss,
            escrow,
            open_dca,
        },
    )
}

} // verus!
