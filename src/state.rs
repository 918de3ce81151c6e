use vstd::prelude::*;

use crate::math::fee_of;
use crate::pda::Address;

verus! {

/// The protocol fee, in basis points of the converted output (5%).
pub const AIRDROP_BPS: u64 = 500;

/// The persistent record of one custody-and-delegation arrangement.
#[derive(Clone, Copy, Debug, PartialEq, Eq)]
pub struct Escrow {
    /// Disambiguates several escrows of one user and asset pair.
    pub idx: u64,
    /// The depositing user.
    pub user: Address,
    /// The external schedule this escrow delegates to.
    pub dca: Address,
    pub input_mint: Address,
    pub output_mint: Address,
    /// Total funded at setup.
    pub input_amount: u64,
    /// Output balance snapshotted at close; zero until then.
    pub output_amount: u64,
    /// Protocol fee computed at close; zero until then.
    pub airdrop_amount: u64,
    pub completed: bool,
    /// Reserved for a later payout step.
    pub airdropped: bool,
    /// The bump seed that makes the record's derived address valid.
    pub bump: u8,
}

impl Escrow {
    /// A pending record holds no output and no fee; a completed one holds
    /// the fee on its snapshotted output.
    pub open spec fn wf(&self) -> bool {
        &&& !self.completed ==> self.output_amount == 0 && self.airdrop_amount == 0
        &&& self.completed ==> self.airdrop_amount == fee_of(
            self.output_amount as int,
            AIRDROP_BPS as int,
        )
    }
}

} // verus!
