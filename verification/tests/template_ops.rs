//! Task templates.

use task_escrow::contexts::{CreateTemplate, DeactivateTemplate};
use task_escrow::errors::{EscrowError, VerbittoError};
use task_escrow::events::TemplateCreated;
use task_escrow::identity::Identity;
use task_escrow::instructions::{create_template, deactivate_template};
use task_escrow::state::{Platform, TaskCategory, TaskTemplate};

fn id(n: u8) -> Identity {
    Identity::new([n; 32])
}

fn platform(template_count: u64) -> Platform {
    Platform {
        authority: id(1),
        fee_bps: 250,
        min_bounty_lamports: 1000,
        treasury: id(2),
        task_count: 0,
        template_count,
        total_settled_lamports: 0,
        dispute_voting_period: 100,
        dispute_min_votes: 3,
        min_voter_reputation: 0,
        claim_grace_period: 50,
        is_paused: false,
    }
}

fn place(template_count: u64) -> CreateTemplate {
    CreateTemplate {
        template_key: id(70),
        template: None,
        platform: platform(template_count),
        creator: id(3),
    }
}

fn template() -> TaskTemplate {
    TaskTemplate {
        creator: id(3),
        template_index: 5,
        title: String::from("Review a pull request"),
        description_hash: [4; 32],
        default_bounty_lamports: 2500,
        times_used: 9,
        category: TaskCategory::CodeReview,
        is_active: true,
    }
}

#[test]
fn template_takes_the_next_platform_index() {
    let mut ctx = place(5);
    let ev = create_template(
        &mut ctx,
        String::from("Review a pull request"),
        [4; 32],
        2500,
        TaskCategory::CodeReview,
    )
    .unwrap();
    assert_eq!(
        ev,
        TemplateCreated {
            template: id(70),
            creator: id(3),
            template_index: 5,
            category: TaskCategory::CodeReview,
        }
    );
    assert_eq!(ctx.template, Some(TaskTemplate { times_used: 0, ..template() }));
    assert_eq!(ctx.platform, platform(6));
}

#[test]
fn template_title_has_64_characters_at_most() {
    let mut ctx = place(0);
    let r = create_template(&mut ctx, "x".repeat(65), [4; 32], 2500, TaskCategory::Other);
    assert_eq!(r, Err(EscrowError::Rule(VerbittoError::TitleTooLong)));
    assert_eq!(ctx, place(0));
    create_template(&mut ctx, "x".repeat(64), [4; 32], 2500, TaskCategory::Other).unwrap();
    assert_eq!(ctx.template.unwrap().title.chars().count(), 64);
}

#[test]
fn title_length_counts_characters_not_bytes() {
    let mut ctx = place(0);
    let title = "é".repeat(64);
    assert_eq!(title.len(), 128);
    create_template(&mut ctx, title, [4; 32], 2500, TaskCategory::Translation).unwrap();
    let mut ctx = place(0);
    let r = create_template(&mut ctx, "é".repeat(65), [4; 32], 2500, TaskCategory::Translation);
    assert_eq!(r, Err(EscrowError::Rule(VerbittoError::TitleTooLong)));
}

#[test]
fn template_is_not_created_over_another() {
    let mut ctx = CreateTemplate { template: Some(template()), ..place(6) };
    let before = ctx.clone();
    let r = create_template(&mut ctx, String::from("Other"), [1; 32], 1, TaskCategory::Other);
    assert_eq!(r, Err(EscrowError::RecordExists));
    assert_eq!(ctx, before);
}

#[test]
fn template_counter_does_not_wrap() {
    let mut ctx = place(u64::MAX);
    let r = create_template(&mut ctx, String::from("Last"), [1; 32], 1, TaskCategory::Other);
    assert_eq!(r, Err(EscrowError::Rule(VerbittoError::ArithmeticOverflow)));
    assert_eq!(ctx, place(u64::MAX));
}

#[test]
fn deactivation_keeps_the_record() {
    let mut ctx = DeactivateTemplate { template: template(), creator: id(3) };
    assert_eq!(deactivate_template(&mut ctx), Ok(()));
    assert_eq!(ctx.template, TaskTemplate { is_active: false, ..template() });
}

#[test]
fn deactivating_twice_fails_without_effect() {
    let mut ctx = DeactivateTemplate { template: template(), creator: id(3) };
    deactivate_template(&mut ctx).unwrap();
    let before = ctx.clone();
    assert_eq!(
        deactivate_template(&mut ctx),
        Err(EscrowError::Rule(VerbittoError::TemplateInactive))
    );
    assert_eq!(ctx, before);
}

#[test]
fn only_its_creator_deactivates_a_template() {
    let mut ctx = DeactivateTemplate { template: template(), creator: id(8) };
    assert_eq!(
        deactivate_template(&mut ctx),
        Err(EscrowError::Rule(VerbittoError::NotTaskCreator))
    );
    assert!(ctx.template.is_active);
    // The caller is tested before the template's state.
    let mut ctx = DeactivateTemplate {
        template: TaskTemplate { is_active: false, ..template() },
        creator: id(8),
    };
    assert_eq!(
        deactivate_template(&mut ctx),
        Err(EscrowError::Rule(VerbittoError::NotTaskCreator))
    );
}
