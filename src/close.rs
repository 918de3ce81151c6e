use vstd::prelude::*;

use crate::error::EscrowError;
use crate::math::{compute_fee, fee_of};
use crate::pda::{authority_view, escrow_derivation, find_escrow_authority, Address};
use crate::state::{Escrow, AIRDROP_BPS};

verus! {

/// The fields of a token account that the workflows read.
#[derive(Clone, Copy, Debug, PartialEq, Eq)]
pub struct TokenAccountState {
    pub address: Address,
    pub mint: Address,
    /// The authority that may debit the account.
    pub owner: Address,
    pub amount: u64,
}

/// The accounts that closing an escrow reads and writes.
#[derive(Clone, Copy, Debug, PartialEq, Eq)]
pub struct Close {
    /// This program's id, under which the escrow address is derived.
    pub program_id: Address,
    pub input_mint: Address,
    pub output_mint: Address,
    /// The signing user.
    pub user: Address,
    /// The escrow record's account address.
    pub escrow_address: Address,
    pub escrow: Escrow,
    pub escrow_in_ata: TokenAccountState,
    /// The external schedule's account address.
    pub dca: Address,
    /// The external schedule's retained balance; zero once it has wound down.
    pub dca_lamports: u64,
    pub escrow_out_ata: TokenAccountState,
}

/// The custody balances that a successful close retires, and the bump under
/// which the escrow authority signs for it.
#[derive(Clone, Copy, Debug, PartialEq, Eq, Structural)]
pub struct BurnPlan {
    pub input_burn: u64,
    pub output_burn: u64,
    pub signer_bump: u8,
}

/// The accounts presented to a close belong to its escrow record: the mints
/// and the schedule are the recorded ones, the signer is the record's user,
/// the record sits at its derived address with its recorded bump, and both
/// custody accounts are held by that address in the right asset.
pub open spec fn close_accounts_valid(c: Close) -> bool {
    &&& c.input_mint == c.escrow.input_mint
    &&& c.output_mint == c.escrow.output_mint
    &&& c.user == c.escrow.user
    &&& escrow_derivation(
        c.program_id@,
        c.escrow.user@,
        c.escrow.input_mint@,
        c.escrow.output_mint@,
        c.escrow.idx,
    ) == Some((c.escrow_address@, c.escrow.bump))
    &&& c.escrow_in_ata.owner == c.escrow_address
    &&& c.escrow_in_ata.mint == c.escrow.input_mint
    &&& c.dca == c.escrow.dca
    &&& c.escrow_out_ata.owner == c.escrow_address
    &&& c.escrow_out_ata.mint == c.escrow.output_mint
}

/// The record after a successful close of `e` with output balance `output`.
pub open spec fn closed_record(e: Escrow, output: u64) -> Escrow {
    Escrow {
        output_amount: output,
        airdrop_amount: fee_of(output as int, AIRDROP_BPS as int) as u64,
        completed: true,
        ..e
    }
}

impl Close {
    /// The protocol fee on a converted output: `floor(out_amount * 500 / 10000)`.
    pub fn compute_airdrop_amount(out_amount: u64) -> (r: Result<u64, EscrowError>)
        ensures
            r == Ok::<u64, EscrowError>(fee_of(out_amount as int, AIRDROP_BPS as int) as u64),
            fee_of(out_amount as int, AIRDROP_BPS as int) <= out_amount,
    {
        proof {
            let a = out_amount as int;
            assert(a * 500 / 10000 <= a) by (nonlinear_arith)
                requires
                    a >= 0,
            ;
        }
        compute_fee(out_amount, AIRDROP_BPS)
    }
}

pub(crate) fn same_address(a: &Address, b: &Address) -> (r: bool)
    ensures
        r == (*a == *b),
        r == (a@ == b@),
{
    let mut i: usize = 0;
    while i < 32
        invariant
            0 <= i <= 32,
            forall|j: int| 0 <= j < i ==> a[j] == b[j],
        decreases 32 - i,
    {
        if a[i] != b[i] {
            assert(a@[i as int] != b@[i as int]);
            return false;
        }
        i = i + 1;
    }
    assert(*a =~= *b);
    true
}

/// Checks that the accounts presented to a close belong to its escrow record.
pub fn validate_close_accounts(c: &Close) -> (r: Result<(), EscrowError>)
    ensures
        close_accounts_valid(*c) ==> r == Ok::<(), EscrowError>(()),
        !close_accounts_valid(*c) ==> r == Err::<(), EscrowError>(EscrowError::AuthorityMismatch),
{
    let derived = find_escrow_authority(
        &c.program_id,
        &c.escrow.user,
        &c.escrow.input_mint,
        &c.escrow.output_mint,
        c.escrow.idx,
    );
    let derived_ok = match derived {
        Some(d) => same_address(&d.address, &c.escrow_address) && d.bump == c.escrow.bump,
        None => false,
    };
    proof {
        if derived_ok {
            assert(authority_view(derived) == Some((c.escrow_address@, c.escrow.bump)));
        }
        if let Some(d) = derived {
            if authority_view(derived) == Some((c.escrow_address@, c.escrow.bump)) {
                assert(d.address =~= c.escrow_address);
            }
        }
    }
    if same_address(&c.input_mint, &c.escrow.input_mint) && same_address(
        &c.output_mint,
        &c.escrow.output_mint,
    ) && same_address(&c.user, &c.escrow.user) && derived_ok && same_address(
        &c.escrow_in_ata.owner,
        &c.escrow_address,
    ) && same_address(&c.escrow_in_ata.mint, &c.escrow.input_mint) && same_address(
        &c.dca,
        &c.escrow.dca,
    ) && same_address(&c.escrow_out_ata.owner, &c.escrow_address) && same_address(
        &c.escrow_out_ata.mint,
        &c.escrow.output_mint,
    ) {
        Ok(())
    } else {
        Err(EscrowError::AuthorityMismatch)
    }
}

/// Finalizes an escrow once its schedule has wound down and its input custody
/// account is drained: snapshots the output balance, records the fee, marks
/// the record completed, and returns the custody balances to burn. On any
/// failure the accounts are left as they were.
pub fn close(ctx: &mut Close) -> (r: Result<BurnPlan, EscrowError>)
    ensures
        !close_accounts_valid(*old(ctx)) ==> r == Err::<BurnPlan, EscrowError>(
            EscrowError::AuthorityMismatch,
        ),
        close_accounts_valid(*old(ctx)) && old(ctx).escrow.completed ==> r == Err::<
            BurnPlan,
            EscrowError,
        >(EscrowError::AlreadyCompleted),
        close_accounts_valid(*old(ctx)) && !old(ctx).escrow.completed && old(ctx).dca_lamports
            != 0 ==> r == Err::<BurnPlan, EscrowError>(EscrowError::ScheduleNotClosed),
        close_accounts_valid(*old(ctx)) && !old(ctx).escrow.completed && old(ctx).dca_lamports
            == 0 && old(ctx).escrow_in_ata.amount != 0 ==> r == Err::<BurnPlan, EscrowError>(
            EscrowError::UnexpectedResidualBalance,
        ),
        close_accounts_valid(*old(ctx)) && !old(ctx).escrow.completed && old(ctx).dca_lamports
            == 0 && old(ctx).escrow_in_ata.amount == 0 ==> r == Ok::<BurnPlan, EscrowError>(
            (BurnPlan {
                input_burn: 0,
                output_burn: old(ctx).escrow_out_ata.amount,
                signer_bump: old(ctx).escrow.bump,
            }),
        ) && *final(ctx) == (Close {
            escrow: closed_record(old(ctx).escrow, old(ctx).escrow_out_ata.amount),
            ..*old(ctx)
        }),
        r is Err ==> *final(ctx) == *old(ctx),
        r is Ok ==> final(ctx).escrow.wf(),
{
    validate_close_accounts(ctx)?;
    if ctx.escrow.completed {
        return Err(EscrowError::AlreadyCompleted);
    }
    if ctx.dca_lamports != 0 {
        return Err(EscrowError::ScheduleNotClosed);
    }
    if ctx.escrow_in_ata.amount != 0 {
        return Err(EscrowError::UnexpectedResidualBalance);
    }
    let output = ctx.escrow_out_ata.amount;
    let fee = Close::compute_airdrop_amount(output)?;
    ctx.escrow.output_amount = output;
    ctx.escrow.completed = true;
    ctx.escrow.airdrop_amount = fee;
    Ok(BurnPlan { input_burn: ctx.escrow_in_ata.amount, output_burn: output, signer_bump: ctx.escrow.bump })
}

} // verus!
