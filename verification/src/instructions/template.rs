//! Task templates: creation and deactivation.

use vstd::prelude::*;
use crate::contexts::{CreateTemplate, DeactivateTemplate};
use crate::errors::{EscrowError, VerbittoError};
use crate::escrow::{add_u64, fits_u64, overflow};
use crate::events::TemplateCreated;
use crate::state::{Platform, TaskCategory, TaskTemplate, MAX_TITLE_LEN};

verus! {

/// Why `create_template` refuses, if it does. The conditions are tested in
/// this order and the first that holds decides.
pub open spec fn create_template_refusal(ctx: CreateTemplate, title: Seq<char>) -> Option<
    EscrowError,
> {
    if ctx.template is Some {
        Some(EscrowError::RecordExists)
    } else if title.len() > MAX_TITLE_LEN {
        Some(EscrowError::Rule(VerbittoError::TitleTooLong))
    } else if !fits_u64(ctx.platform.template_count + 1) {
        Some(overflow())
    } else {
        None
    }
}

/// The records after `create_template` has succeeded: the template takes the
/// platform's next template index, is active and unused.
pub open spec fn create_template_records(
    ctx: CreateTemplate,
    title: String,
    description_hash: [u8; 32],
    default_bounty_lamports: u64,
    category: TaskCategory,
) -> CreateTemplate {
    CreateTemplate {
        template: Some(
            TaskTemplate {
                creator: ctx.creator,
                template_index: ctx.platform.template_count,
                title,
                description_hash,
                default_bounty_lamports,
                times_used: 0,
                category,
                is_active: true,
            },
        ),
        platform: Platform {
            template_count: (ctx.platform.template_count + 1) as u64,
            ..ctx.platform
        },
        ..ctx
    }
}

/// The event that `create_template` publishes.
pub open spec fn create_template_event(ctx: CreateTemplate, category: TaskCategory) -> TemplateCreated {
    TemplateCreated {
        template: ctx.template_key,
        creator: ctx.creator,
        template_index: ctx.platform.template_count,
        category,
    }
}

/// What `create_template` leaves of the records and what it returns: the
/// refusal and the records as they were, or the new records and the event.
pub open spec fn create_template_outcome(
    ctx: CreateTemplate,
    title: String,
    description_hash: [u8; 32],
    default_bounty_lamports: u64,
    category: TaskCategory,
) -> (CreateTemplate, Result<TemplateCreated, EscrowError>) {
    match create_template_refusal(ctx, title@) {
        Some(e) => (ctx, Err(e)),
        None => (
            create_template_records(
                ctx,
                title,
                description_hash,
                default_bounty_lamports,
                category,
            ),
            Ok(create_template_event(ctx, category)),
        ),
    }
}

/// Creates a reusable task template. A refusal changes nothing.
pub fn create_template(
    ctx: &mut CreateTemplate,
    title: String,
    description_hash: [u8; 32],
    default_bounty_lamports: u64,
    category: TaskCategory,
) -> (r: Result<TemplateCreated, EscrowError>)
    ensures
        (*final(ctx), r) == create_template_outcome(
            *old(ctx),
            title,
            description_hash,
            default_bounty_lamports,
            category,
        ),
        r is Ok ==> final(ctx).template->0.wf(),
{
    if ctx.template.is_some() {
        return Err(EscrowError::RecordExists);
    }
    if title.as_str().unicode_len() > MAX_TITLE_LEN {
        return Err(EscrowError::Rule(VerbittoError::TitleTooLong));
    }
    let template_index = ctx.platform.template_count;
    let template_count = add_u64(template_index, 1)?;
    ctx.platform.template_count = template_count;
    ctx.template = Some(
        TaskTemplate {
            creator: ctx.creator,
            template_index,
            title,
            description_hash,
            default_bounty_lamports,
            times_used: 0,
            category,
            is_active: true,
        },
    );
    Ok(
        TemplateCreated {
            template: ctx.template_key,
            creator: ctx.creator,
            template_index,
            category,
        },
    )
}

/// Why `deactivate_template` refuses, if it does: the caller is not the
/// template's creator, or else the template is inactive already.
pub open spec fn deactivate_template_refusal(ctx: DeactivateTemplate) -> Option<EscrowError> {
    if ctx.template.creator != ctx.creator {
        Some(EscrowError::Rule(VerbittoError::NotTaskCreator))
    } else if !ctx.template.is_active {
        Some(EscrowError::Rule(VerbittoError::TemplateInactive))
    } else {
        None
    }
}

/// What `deactivate_template` leaves of the records and what it returns.
pub open spec fn deactivate_template_outcome(ctx: DeactivateTemplate) -> (
    DeactivateTemplate,
    Result<(), EscrowError>,
) {
    match deactivate_template_refusal(ctx) {
        Some(e) => (ctx, Err(e)),
        None => (
            DeactivateTemplate {
                template: TaskTemplate { is_active: false, ..ctx.template },
                ..ctx
            },
            Ok(()),
        ),
    }
}

/// Deactivates a template. The record stays, for the tasks made from it.
/// A refusal changes nothing.
pub fn deactivate_template(ctx: &mut DeactivateTemplate) -> (r: Result<(), EscrowError>)
    ensures
        (*final(ctx), r) == deactivate_template_outcome(*old(ctx)),
{
    if ctx.template.creator != ctx.creator {
        return Err(EscrowError::Rule(VerbittoError::NotTaskCreator));
    }
    if !ctx.template.is_active {
        return Err(EscrowError::Rule(VerbittoError::TemplateInactive));
    }
    ctx.template.is_active = false;
    Ok(())
}

} // verus!
