//! Setting up the platform.

use crate::errors::{ErrorCode, Failure};
use crate::fees::MAX_FEE_PERCENTAGE;
use crate::identity::Identity;
use crate::state::PlatformState;
use vstd::prelude::*;

verus! {

/// What setting up the platform works on.
#[derive(Clone, Copy, Debug, PartialEq, Eq)]
pub struct Initialize {
    /// The platform's record, if there is one already.
    pub platform_state: Option<PlatformState>,
    /// The caller, who becomes the administrator.
    pub admin: Identity,
}

impl Initialize {
    /// Why setting up the platform with this fee fails, if it does: the
    /// first of these that applies. The platform has been set up before; the
    /// fee is above 100 percent.
    pub open spec fn failure(self, fee_percentage: u8) -> Option<Failure> {
        if self.platform_state is Some {
            Some(Failure::AlreadyExists)
        } else if fee_percentage > MAX_FEE_PERCENTAGE {
            Some(Failure::Rejected(ErrorCode::InvalidFeePercentage))
        } else {
            None
        }
    }

    /// The platform's record once the platform has been set up: the caller
    /// is the administrator, the fee is the given one, and nothing has been
    /// counted yet.
    pub open spec fn initialized(self, fee_percentage: u8) -> Initialize {
        Initialize {
            platform_state: Some(
                PlatformState {
                    admin: self.admin,
                    fee_percentage,
                    total_games: 0,
                    total_fees_collected: 0,
                },
            ),
            ..self
        }
    }

    /// A platform that has not been set up before accepts every fee from 0
    /// to 100 percent, and no other.
    pub proof fn lemma_percentages_are_accepted(self, fee_percentage: u8)
        requires
            self.platform_state is None,
        ensures
            fee_percentage <= 100 ==> self.failure(fee_percentage) is None,
            fee_percentage > 100 ==> self.failure(fee_percentage) == Some(
                Failure::Rejected(ErrorCode::InvalidFeePercentage),
            ),
    {
    }

    /// The platform cannot be set up a second time, whatever the fee.
    pub proof fn lemma_platform_is_set_up_once(self, fee_percentage: u8, again: u8)
        requires
            self.failure(fee_percentage) is None,
        ensures
            self.initialized(fee_percentage).failure(again) == Some(Failure::AlreadyExists),
    {
    }

    /// The platform's record is valid once the platform has been set up, and
    /// its totals start at zero.
    pub proof fn lemma_initialized_record(self, fee_percentage: u8)
        requires
            self.failure(fee_percentage) is None,
        ensures
            self.initialized(fee_percentage).platform_state is Some,
            self.initialized(fee_percentage).platform_state->Some_0.wf(),
            self.initialized(fee_percentage).platform_state->Some_0.admin == self.admin,
            self.initialized(fee_percentage).platform_state->Some_0.fee_percentage
                == fee_percentage,
            self.initialized(fee_percentage).platform_state->Some_0.total_games == 0,
            self.initialized(fee_percentage).platform_state->Some_0.total_fees_collected == 0,
    {
    }
}

/// Sets up the platform with the caller as its administrator and the given
/// fee, which must be at most 100 percent. This can be done once.
pub fn initialize(ctx: &mut Initialize, fee_percentage: u8) -> (done: Result<(), Failure>)
    ensures
        match done {
            Ok(()) => {
                &&& old(ctx).failure(fee_percentage) is None
                &&& *final(ctx) == old(ctx).initialized(fee_percentage)
            },
            Err(why) => {
                &&& old(ctx).failure(fee_percentage) == Some(why)
                &&& *final(ctx) == *old(ctx)
            },
        },
{
    if ctx.platform_state.is_some() {
        return Err(Failure::AlreadyExists);
    }
    if fee_percentage > MAX_FEE_PERCENTAGE {
        return Err(Failure::Rejected(ErrorCode::InvalidFeePercentage));
    }
    ctx.platform_state = Some(
        PlatformState {
            admin: ctx.admin,
            fee_percentage,
            total_games: 0,
            total_fees_collected: 0,
        },
    );
    Ok(())
}

} // verus!
