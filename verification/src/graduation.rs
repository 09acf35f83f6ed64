//! Moving a position off its bonding curve.

use vstd::prelude::*;
use crate::accounts::MarkGraduated;
use crate::error::{ErrorCode, InstructionError};
use crate::state::{Config, Position, PositionStatus};

verus! {

/// `mark_graduated` as a step of the position.
pub open spec fn mark_graduated_step(
    ctx: MarkGraduated,
    config: Config,
    position: Position,
    now: i64,
) -> Result<Position, InstructionError> {
    if ctx.quote_authority != config.quote_authority {
        Err(InstructionError::ConstraintHasOne)
    } else if position.status != PositionStatus::OnCurve {
        Err(InstructionError::Program(ErrorCode::Status))
    } else {
        Ok(Position { status: PositionStatus::Graduated, updated_at: now, ..position })
    }
}

/// The quote authority records that the token of a position on its bonding
/// curve has graduated from it.
pub fn mark_graduated(ctx: &MarkGraduated, config: &Config, position: &mut Position, now: i64) -> (r:
    Result<(), InstructionError>)
    ensures
        r is Ok <==> mark_graduated_step(*ctx, *config, *old(position), now) is Ok,
        r matches Err(e) ==> mark_graduated_step(*ctx, *config, *old(position), now) == Err::<
            Position,
            InstructionError,
        >(e) && *final(position) == *old(position),
        r is Ok ==> mark_graduated_step(*ctx, *config, *old(position), now) == Ok::<
            Position,
            InstructionError,
        >(*final(position)),
{
    if !config.quote_authority.same(&ctx.quote_authority) {
        return Err(InstructionError::ConstraintHasOne);
    }
    if position.status != PositionStatus::OnCurve {
        return Err(InstructionError::Program(ErrorCode::Status));
    }
    position.status = PositionStatus::Graduated;
    position.updated_at = now;
    Ok(())
}

} // verus!
