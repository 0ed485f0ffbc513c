//! Value custody: the fee, the shares of a split, the ruling of a vote and
//! what each ruling pays to whom.

use vstd::prelude::*;
use crate::errors::{EscrowError, VerbittoError};
use crate::state::{lifecycle_edge, Task, Verdict, BPS_DENOMINATOR};

verus! {

/// The fee on `bounty` at `fee_bps` basis points: the product over 10000,
/// rounded down.
pub open spec fn fee_of(bounty: int, fee_bps: int) -> int {
    bounty * fee_bps / 10000
}

/// Whether `x` can be held in a `u64`.
pub open spec fn fits_u64(x: int) -> bool {
    0 <= x <= u64::MAX
}

/// Whether `x` can be held in an `i64`.
pub open spec fn fits_i64(x: int) -> bool {
    i64::MIN <= x <= i64::MAX
}

/// The refusal of an operation in which a value or a counter would leave
/// its range.
pub open spec fn overflow() -> EscrowError {
    EscrowError::Rule(VerbittoError::ArithmeticOverflow)
}

/// A fee at a rate of at most 10000 basis points is at most the bounty.
pub proof fn lemma_fee_bounded(bounty: int, fee_bps: int)
    requires
        0 <= bounty,
        0 <= fee_bps <= 10000,
    ensures
        0 <= fee_of(bounty, fee_bps) <= bounty,
{
    assert(0 <= bounty * fee_bps <= bounty * 10000) by (nonlinear_arith)
        requires
            0 <= bounty,
            0 <= fee_bps <= 10000,
    ;
    assert(bounty * 10000 / 10000 == bounty);
    assert(bounty * fee_bps / 10000 <= bounty * 10000 / 10000) by (nonlinear_arith)
        requires
            0 <= bounty * fee_bps <= bounty * 10000,
    ;
    assert(0 <= bounty * fee_bps / 10000) by (nonlinear_arith)
        requires
            0 <= bounty * fee_bps,
    ;
}

/// The platform's fee on a bounty. The product of bounty and rate is formed
/// first; the fee is refused where that product leaves the range of `u64`.
pub fn platform_fee(bounty: u64, fee_bps: u16) -> (fee: Result<u64, EscrowError>)
    ensures
        fee is Ok <==> fits_u64(bounty * fee_bps),
        fee matches Ok(f) ==> f == fee_of(bounty as int, fee_bps as int),
        fee matches Err(e) ==> e == overflow(),
{
    let rate: u64 = fee_bps as u64;
    match bounty.checked_mul(rate) {
        Some(product) => Ok(product / BPS_DENOMINATOR),
        None => Err(EscrowError::Rule(VerbittoError::ArithmeticOverflow)),
    }
}

/// `a + b`, refused where it leaves the range of `u64`.
pub fn add_u64(a: u64, b: u64) -> (sum: Result<u64, EscrowError>)
    ensures
        sum is Ok <==> fits_u64(a + b),
        sum matches Ok(s) ==> s == a + b,
        sum matches Err(e) ==> e == overflow(),
{
    match a.checked_add(b) {
        Some(s) => Ok(s),
        None => Err(EscrowError::Rule(VerbittoError::ArithmeticOverflow)),
    }
}

/// `a - b`, refused where it leaves the range of `u64`.
pub fn sub_u64(a: u64, b: u64) -> (difference: Result<u64, EscrowError>)
    ensures
        difference is Ok <==> b <= a,
        difference matches Ok(d) ==> d == a - b,
        difference matches Err(e) ==> e == overflow(),
{
    match a.checked_sub(b) {
        Some(d) => Ok(d),
        None => Err(EscrowError::Rule(VerbittoError::ArithmeticOverflow)),
    }
}

/// `a + b`, refused where it leaves the range of `i64`.
pub fn add_i64(a: i64, b: i64) -> (sum: Result<i64, EscrowError>)
    ensures
        sum is Ok <==> fits_i64(a + b),
        sum matches Ok(s) ==> s == a + b,
        sum matches Err(e) ==> e == overflow(),
{
    match a.checked_add(b) {
        Some(s) => Ok(s),
        None => Err(EscrowError::Rule(VerbittoError::ArithmeticOverflow)),
    }
}

/// The two shares of a split of `after_fee`: the agent's is the half rounded
/// down, the creator's the rest.
pub open spec fn split_of(after_fee: int) -> (int, int) {
    (after_fee - after_fee / 2, after_fee / 2)
}

/// Splits what is left after the fee between creator and agent. The creator
/// gets the larger half where the amount is odd.
pub fn split_shares(after_fee: u64) -> (shares: (u64, u64))
    ensures
        shares.0 == split_of(after_fee as int).0,
        shares.1 == split_of(after_fee as int).1,
        shares.0 + shares.1 == after_fee,
        shares.0 - shares.1 == 0 || shares.0 - shares.1 == 1,
{
    let half: u64 = after_fee / 2;
    (after_fee - half, half)
}

/// What leaves a task's held balance in one operation, by recipient.
#[derive(Clone, Copy, Debug, PartialEq, Eq, Structural)]
pub struct Payout {
    /// To the task's creator.
    pub to_creator: u64,
    /// To the task's agent.
    pub to_agent: u64,
    /// To the platform's treasury.
    pub to_treasury: u64,
}

impl Payout {
    /// The sum of the three amounts.
    pub open spec fn total(&self) -> int {
        self.to_creator + self.to_agent + self.to_treasury
    }

    /// The payout that moves nothing.
    pub open spec fn nothing() -> Payout {
        Payout { to_creator: 0, to_agent: 0, to_treasury: 0 }
    }

    /// The payout that returns `amount` to the creator.
    pub open spec fn refund(amount: u64) -> Payout {
        Payout { to_creator: amount, to_agent: 0, to_treasury: 0 }
    }
}

/// What one operation may do to the custody of a task: the bounty stays as it
/// was deposited, the status stays or moves along an edge of the lifecycle,
/// and what the task held before is what it holds after and what was paid out.
pub open spec fn custody_step(before: Task, after: Task, paid: Payout) -> bool {
    &&& after.bounty_lamports == before.bounty_lamports
    &&& after.status == before.status || lifecycle_edge(before.status, after.status)
    &&& after.spec_held_lamports() + paid.total() == before.spec_held_lamports()
}

/// The sum of all that a row of payouts moved.
pub open spec fn disbursed(payouts: Seq<Payout>) -> int
    decreases payouts.len(),
{
    if payouts.len() == 0 {
        0
    } else {
        disbursed(payouts.drop_last()) + payouts.last().total()
    }
}

/// The ruling of a vote: the creator wins with at least as many votes as each
/// of the others; else the agent wins with at least as many as the split;
/// else the bounty is split.
pub open spec fn majority_of(for_creator: u16, for_agent: u16, for_split: u16) -> Verdict {
    if for_creator >= for_agent && for_creator >= for_split {
        Verdict::CreatorWins
    } else if for_agent >= for_split {
        Verdict::AgentWins
    } else {
        Verdict::Split
    }
}

/// Decides a vote by simple majority; ties go to the creator before the
/// agent, and to the agent before the split.
pub fn majority(for_creator: u16, for_agent: u16, for_split: u16) -> (verdict: Verdict)
    ensures
        verdict == majority_of(for_creator, for_agent, for_split),
{
    if for_creator >= for_agent && for_creator >= for_split {
        Verdict::CreatorWins
    } else if for_agent >= for_split {
        Verdict::AgentWins
    } else {
        Verdict::Split
    }
}

/// What a verdict pays out of `bounty` when the fee is `fee`. The creator's win
/// returns the whole bounty and charges no fee.
pub open spec fn distribution_of(verdict: Verdict, bounty: u64, fee: u64) -> Payout {
    match verdict {
        Verdict::CreatorWins => Payout::refund(bounty),
        Verdict::AgentWins => Payout {
            to_creator: 0,
            to_agent: (bounty - fee) as u64,
            to_treasury: fee,
        },
        Verdict::Split => Payout {
            to_creator: split_of(bounty - fee).0 as u64,
            to_agent: split_of(bounty - fee).1 as u64,
            to_treasury: fee,
        },
    }
}

/// Distributes a disputed bounty according to the verdict. Refused where the
/// fee is charged and exceeds the bounty.
pub fn distribute(verdict: Verdict, bounty: u64, fee: u64) -> (payout: Result<Payout, EscrowError>)
    ensures
        payout is Ok <==> (verdict is CreatorWins || fee <= bounty),
        payout matches Ok(p) ==> p == distribution_of(verdict, bounty, fee) && p.total() == bounty,
        payout matches Err(e) ==> e == overflow(),
{
    match verdict {
        Verdict::CreatorWins => Ok(Payout { to_creator: bounty, to_agent: 0, to_treasury: 0 }),
        Verdict::AgentWins => {
            let to_agent = sub_u64(bounty, fee)?;
            Ok(Payout { to_creator: 0, to_agent, to_treasury: fee })
        },
        Verdict::Split => {
            let after_fee = sub_u64(bounty, fee)?;
            let shares = split_shares(after_fee);
            Ok(Payout { to_creator: shares.0, to_agent: shares.1, to_treasury: fee })
        },
    }
}

} // verus!
