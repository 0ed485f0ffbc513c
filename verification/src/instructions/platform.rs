//! Platform configuration. Only the platform authority may change it.

use vstd::prelude::*;
use crate::contexts::{InitializePlatform, PlatformAdmin};
use crate::errors::{EscrowError, VerbittoError};
use crate::events::PlatformInitialized;
use crate::identity::Identity;
use crate::state::{Platform, MAX_FEE_BPS};

verus! {

/// Why these settings are refused, if they are: a fee above the highest rate,
/// then a voting period or a quorum that is not positive, then a negative
/// minimum reputation or grace period.
pub open spec fn settings_refusal(
    fee_bps: u16,
    dispute_voting_period: i64,
    dispute_min_votes: u8,
    min_voter_reputation: i64,
    claim_grace_period: i64,
) -> Option<EscrowError> {
    if fee_bps > MAX_FEE_BPS {
        Some(EscrowError::Rule(VerbittoError::InvalidFee))
    } else if dispute_voting_period <= 0 || dispute_min_votes == 0 || min_voter_reputation < 0
        || claim_grace_period < 0 {
        Some(EscrowError::Rule(VerbittoError::InvalidConfig))
    } else {
        None
    }
}

/// Tests platform settings.
pub fn check_settings(
    fee_bps: u16,
    dispute_voting_period: i64,
    dispute_min_votes: u8,
    min_voter_reputation: i64,
    claim_grace_period: i64,
) -> (r: Result<(), EscrowError>)
    ensures
        r is Ok <==> settings_refusal(
            fee_bps,
            dispute_voting_period,
            dispute_min_votes,
            min_voter_reputation,
            claim_grace_period,
        ) is None,
        r matches Err(e) ==> settings_refusal(
            fee_bps,
            dispute_voting_period,
            dispute_min_votes,
            min_voter_reputation,
            claim_grace_period,
        ) == Some(e),
{
    if fee_bps > MAX_FEE_BPS {
        return Err(EscrowError::Rule(VerbittoError::InvalidFee));
    }
    if dispute_voting_period <= 0 {
        return Err(EscrowError::Rule(VerbittoError::InvalidConfig));
    }
    if dispute_min_votes == 0 {
        return Err(EscrowError::Rule(VerbittoError::InvalidConfig));
    }
    if min_voter_reputation < 0 {
        return Err(EscrowError::Rule(VerbittoError::InvalidConfig));
    }
    if claim_grace_period < 0 {
        return Err(EscrowError::Rule(VerbittoError::InvalidConfig));
    }
    Ok(())
}

/// Why `initialize_platform` refuses, if it does: the platform exists
/// already, or the settings are refused.
pub open spec fn initialize_platform_refusal(
    ctx: InitializePlatform,
    fee_bps: u16,
    dispute_voting_period: i64,
    dispute_min_votes: u8,
    min_voter_reputation: i64,
    claim_grace_period: i64,
) -> Option<EscrowError> {
    if ctx.platform is Some {
        Some(EscrowError::RecordExists)
    } else {
        settings_refusal(
            fee_bps,
            dispute_voting_period,
            dispute_min_votes,
            min_voter_reputation,
            claim_grace_period,
        )
    }
}

/// A platform as `initialize_platform` leaves it: running, with all counters
/// at zero.
pub open spec fn new_platform(
    authority: Identity,
    treasury: Identity,
    fee_bps: u16,
    min_bounty_lamports: u64,
    dispute_voting_period: i64,
    dispute_min_votes: u8,
    min_voter_reputation: i64,
    claim_grace_period: i64,
) -> Platform {
    Platform {
        authority,
        fee_bps,
        min_bounty_lamports,
        treasury,
        task_count: 0,
        template_count: 0,
        total_settled_lamports: 0,
        dispute_voting_period,
        dispute_min_votes,
        min_voter_reputation,
        claim_grace_period,
        is_paused: false,
    }
}

/// The records after `initialize_platform` has succeeded.
pub open spec fn initialize_platform_records(
    ctx: InitializePlatform,
    fee_bps: u16,
    min_bounty_lamports: u64,
    dispute_voting_period: i64,
    dispute_min_votes: u8,
    min_voter_reputation: i64,
    claim_grace_period: i64,
) -> InitializePlatform {
    InitializePlatform {
        platform: Some(
            new_platform(
                ctx.authority,
                ctx.treasury,
                fee_bps,
                min_bounty_lamports,
                dispute_voting_period,
                dispute_min_votes,
                min_voter_reputation,
                claim_grace_period,
            ),
        ),
        ..ctx
    }
}

/// The event that `initialize_platform` publishes.
pub open spec fn initialize_platform_event(ctx: InitializePlatform, fee_bps: u16) -> PlatformInitialized {
    PlatformInitialized { authority: ctx.authority, fee_bps, treasury: ctx.treasury }
}

/// What `initialize_platform` leaves of the records and what it returns: the
/// refusal and the records as they were, or the new records and the event.
pub open spec fn initialize_platform_outcome(
    ctx: InitializePlatform,
    fee_bps: u16,
    min_bounty_lamports: u64,
    dispute_voting_period: i64,
    dispute_min_votes: u8,
    min_voter_reputation: i64,
    claim_grace_period: i64,
) -> (InitializePlatform, Result<PlatformInitialized, EscrowError>) {
    match initialize_platform_refusal(
        ctx,
        fee_bps,
        dispute_voting_period,
        dispute_min_votes,
        min_voter_reputation,
        claim_grace_period,
    ) {
        Some(e) => (ctx, Err(e)),
        None => (
            initialize_platform_records(
                ctx,
                fee_bps,
                min_bounty_lamports,
                dispute_voting_period,
                dispute_min_votes,
                min_voter_reputation,
                claim_grace_period,
            ),
            Ok(initialize_platform_event(ctx, fee_bps)),
        ),
    }
}

/// Sets the platform up, once. The caller becomes its authority. A refusal
/// changes nothing.
pub fn initialize_platform(
    ctx: &mut InitializePlatform,
    fee_bps: u16,
    min_bounty_lamports: u64,
    dispute_voting_period: i64,
    dispute_min_votes: u8,
    min_voter_reputation: i64,
    claim_grace_period: i64,
) -> (r: Result<PlatformInitialized, EscrowError>)
    ensures
        (*final(ctx), r) == initialize_platform_outcome(
            *old(ctx),
            fee_bps,
            min_bounty_lamports,
            dispute_voting_period,
            dispute_min_votes,
            min_voter_reputation,
            claim_grace_period,
        ),
        r is Ok ==> final(ctx).platform->0.wf(),
{
    if ctx.platform.is_some() {
        return Err(EscrowError::RecordExists);
    }
    check_settings(
        fee_bps,
        dispute_voting_period,
        dispute_min_votes,
        min_voter_reputation,
        claim_grace_period,
    )?;
    ctx.platform = Some(
        Platform {
            authority: ctx.authority,
            fee_bps,
            min_bounty_lamports,
            treasury: ctx.treasury,
            task_count: 0,
            template_count: 0,
            total_settled_lamports: 0,
            dispute_voting_period,
            dispute_min_votes,
            min_voter_reputation,
            claim_grace_period,
            is_paused: false,
        },
    );
    Ok(PlatformInitialized { authority: ctx.authority, fee_bps, treasury: ctx.treasury })
}

/// Why `pause_platform` refuses, if it does: the caller is not the
/// authority, or else the platform is paused already.
pub open spec fn pause_platform_refusal(ctx: PlatformAdmin) -> Option<EscrowError> {
    if ctx.platform.authority != ctx.authority {
        Some(EscrowError::Rule(VerbittoError::NotPlatformAuthority))
    } else if ctx.platform.is_paused {
        Some(EscrowError::Rule(VerbittoError::PlatformAlreadyPaused))
    } else {
        None
    }
}

/// The platform with the pause set to `paused`.
pub open spec fn with_pause(ctx: PlatformAdmin, paused: bool) -> PlatformAdmin {
    PlatformAdmin { platform: Platform { is_paused: paused, ..ctx.platform }, ..ctx }
}

/// What `pause_platform` leaves of the records and what it returns.
pub open spec fn pause_platform_outcome(ctx: PlatformAdmin) -> (
    PlatformAdmin,
    Result<(), EscrowError>,
) {
    match pause_platform_refusal(ctx) {
        Some(e) => (ctx, Err(e)),
        None => (with_pause(ctx, true), Ok(())),
    }
}

/// Pauses the platform. A refusal changes nothing.
pub fn pause_platform(ctx: &mut PlatformAdmin) -> (r: Result<(), EscrowError>)
    ensures
        (*final(ctx), r) == pause_platform_outcome(*old(ctx)),
{
    if ctx.platform.authority != ctx.authority {
        return Err(EscrowError::Rule(VerbittoError::NotPlatformAuthority));
    }
    if ctx.platform.is_paused {
        return Err(EscrowError::Rule(VerbittoError::PlatformAlreadyPaused));
    }
    ctx.platform.is_paused = true;
    Ok(())
}

/// Why `resume_platform` refuses, if it does: the caller is not the
/// authority, or else the platform is not paused.
pub open spec fn resume_platform_refusal(ctx: PlatformAdmin) -> Option<EscrowError> {
    if ctx.platform.authority != ctx.authority {
        Some(EscrowError::Rule(VerbittoError::NotPlatformAuthority))
    } else if !ctx.platform.is_paused {
        Some(EscrowError::Rule(VerbittoError::PlatformNotPaused))
    } else {
        None
    }
}

/// What `resume_platform` leaves of the records and what it returns.
pub open spec fn resume_platform_outcome(ctx: PlatformAdmin) -> (
    PlatformAdmin,
    Result<(), EscrowError>,
) {
    match resume_platform_refusal(ctx) {
        Some(e) => (ctx, Err(e)),
        None => (with_pause(ctx, false), Ok(())),
    }
}

/// Resumes the paused platform. A refusal changes nothing.
pub fn resume_platform(ctx: &mut PlatformAdmin) -> (r: Result<(), EscrowError>)
    ensures
        (*final(ctx), r) == resume_platform_outcome(*old(ctx)),
{
    if ctx.platform.authority != ctx.authority {
        return Err(EscrowError::Rule(VerbittoError::NotPlatformAuthority));
    }
    if !ctx.platform.is_paused {
        return Err(EscrowError::Rule(VerbittoError::PlatformNotPaused));
    }
    ctx.platform.is_paused = false;
    Ok(())
}

/// Why `update_platform` refuses, if it does: the caller is not the
/// authority, or else the settings are refused.
pub open spec fn update_platform_refusal(
    ctx: PlatformAdmin,
    fee_bps: u16,
    dispute_voting_period: i64,
    dispute_min_votes: u8,
    min_voter_reputation: i64,
    claim_grace_period: i64,
) -> Option<EscrowError> {
    if ctx.platform.authority != ctx.authority {
        Some(EscrowError::Rule(VerbittoError::NotPlatformAuthority))
    } else {
        settings_refusal(
            fee_bps,
            dispute_voting_period,
            dispute_min_votes,
            min_voter_reputation,
            claim_grace_period,
        )
    }
}

/// The platform with new settings and treasury; authority, counters and the
/// pause stay.
pub open spec fn with_settings(
    platform: Platform,
    fee_bps: u16,
    min_bounty_lamports: u64,
    dispute_voting_period: i64,
    dispute_min_votes: u8,
    min_voter_reputation: i64,
    claim_grace_period: i64,
    treasury: Identity,
) -> Platform {
    Platform {
        fee_bps,
        min_bounty_lamports,
        dispute_voting_period,
        dispute_min_votes,
        min_voter_reputation,
        claim_grace_period,
        treasury,
        ..platform
    }
}

/// What `update_platform` leaves of the records and what it returns.
pub open spec fn update_platform_outcome(
    ctx: PlatformAdmin,
    fee_bps: u16,
    min_bounty_lamports: u64,
    dispute_voting_period: i64,
    dispute_min_votes: u8,
    min_voter_reputation: i64,
    claim_grace_period: i64,
    treasury: Identity,
) -> (PlatformAdmin, Result<(), EscrowError>) {
    match update_platform_refusal(
        ctx,
        fee_bps,
        dispute_voting_period,
        dispute_min_votes,
        min_voter_reputation,
        claim_grace_period,
    ) {
        Some(e) => (ctx, Err(e)),
        None => (
            PlatformAdmin {
                platform: with_settings(
                    ctx.platform,
                    fee_bps,
                    min_bounty_lamports,
                    dispute_voting_period,
                    dispute_min_votes,
                    min_voter_reputation,
                    claim_grace_period,
                    treasury,
                ),
                ..ctx
            },
            Ok(()),
        ),
    }
}

/// Replaces the platform's settings and its treasury. A refusal changes
/// nothing.
pub fn update_platform(
    ctx: &mut PlatformAdmin,
    fee_bps: u16,
    min_bounty_lamports: u64,
    dispute_voting_period: i64,
    dispute_min_votes: u8,
    min_voter_reputation: i64,
    claim_grace_period: i64,
    treasury: Identity,
) -> (r: Result<(), EscrowError>)
    ensures
        (*final(ctx), r) == update_platform_outcome(
            *old(ctx),
            fee_bps,
            min_bounty_lamports,
            dispute_voting_period,
            dispute_min_votes,
            min_voter_reputation,
            claim_grace_period,
            treasury,
        ),
        r is Ok ==> final(ctx).platform.wf(),
{
    if ctx.platform.authority != ctx.authority {
        return Err(EscrowError::Rule(VerbittoError::NotPlatformAuthority));
    }
    check_settings(
        fee_bps,
        dispute_voting_period,
        dispute_min_votes,
        min_voter_reputation,
        claim_grace_period,
    )?;
    ctx.platform.fee_bps = fee_bps;
    ctx.platform.min_bounty_lamports = min_bounty_lamports;
    ctx.platform.dispute_voting_period = dispute_voting_period;
    ctx.platform.dispute_min_votes = dispute_min_votes;
    ctx.platform.min_voter_reputation = min_voter_reputation;
    ctx.platform.claim_grace_period = claim_grace_period;
    ctx.platform.treasury = treasury;
    Ok(())
}

} // verus!
