//! The escrow custody protocol: one-time funding, milestone completion,
//! per-milestone payment release, and the terminal refund.
//!
//! The custody rule is `custody_intact`: the escrow's token balance equals
//! `total_amount - released_amount` at every observation point. Funding
//! establishes it and release and refund preserve it, so escrowed value
//! can neither leak nor be paid twice: every outflow is recorded in
//! `released_amount`, which only grows and never passes `total_amount`.

use vstd::prelude::*;
use crate::errors::AgoraError;
use crate::state::Address;
use crate::state::Bid;
use crate::state::Escrow;
use crate::state::Milestone;
use crate::state::Task;
use crate::state::TaskStatus;
use crate::state::escrow_wf;
use crate::state::task_wf;
use crate::token::TokenAccount;
use crate::token::transfer;
use crate::token::transfer_error;

verus! {

/// The custody rule: the escrow's token account holds exactly what was
/// funded and not yet paid out or refunded.
pub open spec fn custody_intact(e: Escrow, escrow_tokens: TokenAccount) -> bool {
    &&& escrow_wf(e)
    &&& escrow_tokens.amount == e.total_amount - e.released_amount
}

/// Every milestone of the sequence is paid.
pub open spec fn all_paid(ms: Seq<Milestone>) -> bool {
    forall|j: int| 0 <= j < ms.len() ==> (#[trigger] ms[j]).paid
}

/// Whether every milestone of the task is paid.
pub fn all_milestones_paid(ms: &Vec<Milestone>) -> (b: bool)
    ensures
        b == all_paid(ms@),
{
    let mut acc = true;
    for j in 0..ms.len()
        invariant
            acc == (forall|k: int| 0 <= k < j ==> (#[trigger] ms@[k]).paid),
    {
        acc = acc && ms[j].paid;
    }
    acc
}

/// Equality of every task field except `milestones` and `status`: what
/// the milestone operations leave untouched.
pub open spec fn task_fields_fixed(a: Task, b: Task) -> bool {
    &&& a.owner == b.owner
    &&& a.title == b.title
    &&& a.description == b.description
    &&& a.budget == b.budget
    &&& a.deadline == b.deadline
    &&& a.accepted_bid == b.accepted_bid
    &&& a.escrow_account == b.escrow_account
    &&& a.created_at == b.created_at
    &&& a.updated_at == b.updated_at
}

/// The checks of `fund_escrow`, in order: only the task's owner, only on
/// an `InProgress` task whose accepted bid is the one passed in, at most
/// one escrow per task, and then the token collaborator's own checks on
/// moving the bid amount out of the client's account into a fresh escrow
/// account.
pub open spec fn fund_escrow_error(
    task: Task,
    accepted_bid: Bid,
    client: Address,
    task_address: Address,
    bid_address: Address,
    escrow_address: Address,
    token_mint: Address,
    client_tokens: TokenAccount,
) -> Option<AgoraError> {
    if client != task.owner {
        Some(AgoraError::Unauthorized)
    } else if task.status != TaskStatus::InProgress {
        Some(AgoraError::InvalidTaskStatus)
    } else if task.accepted_bid is None {
        Some(AgoraError::NoAcceptedBid)
    } else if task.accepted_bid != Some(bid_address) || accepted_bid.task != task_address {
        Some(AgoraError::AccountMismatch)
    } else if task.escrow_account is Some {
        Some(AgoraError::EscrowExists)
    } else {
        transfer_error(
            client_tokens,
            TokenAccount { owner: escrow_address, mint: token_mint, amount: 0 },
            client,
            accepted_bid.amount,
        )
    }
}

/// Fund the escrow for a task, exactly once.
///
/// Moves the accepted bid's amount from the client's token account into a
/// fresh token account owned by the escrow's derived address, and returns
/// the new escrow record together with that account. The task records the
/// escrow's address, which both makes a second funding attempt fail with
/// `EscrowExists` and blocks `cancel_task` from then on.
pub fn fund_escrow(
    task: &mut Task,
    accepted_bid: &Bid,
    client: Address,
    task_address: Address,
    bid_address: Address,
    escrow_address: Address,
    token_mint: Address,
    bump: u8,
    client_tokens: &mut TokenAccount,
) -> (r: Result<(Escrow, TokenAccount), AgoraError>)
    requires
        task_wf(*old(task)),
    ensures
        r is Ok <==> fund_escrow_error(
            *old(task),
            *accepted_bid,
            client,
            task_address,
            bid_address,
            escrow_address,
            token_mint,
            *old(client_tokens),
        ) is None,
        r matches Err(e) ==> Some(e) == fund_escrow_error(
            *old(task),
            *accepted_bid,
            client,
            task_address,
            bid_address,
            escrow_address,
            token_mint,
            *old(client_tokens),
        ),
        r is Err ==> *final(task) == *old(task) && *final(client_tokens) == *old(client_tokens),
        r matches Ok(p) ==> {
            &&& p.0 == (Escrow {
                task: task_address,
                client,
                freelancer: accepted_bid.bidder,
                total_amount: accepted_bid.amount,
                released_amount: 0,
                token_mint,
                bump,
            })
            &&& p.1 == (TokenAccount {
                owner: escrow_address,
                mint: token_mint,
                amount: accepted_bid.amount,
            })
            &&& custody_intact(p.0, p.1)
        },
        r is Ok ==> *final(task) == (Task {
            escrow_account: Some(escrow_address),
            ..*old(task)
        }),
        r is Ok ==> *final(client_tokens) == (TokenAccount {
            amount: (old(client_tokens).amount - accepted_bid.amount) as u64,
            ..*old(client_tokens)
        }),
        task_wf(*final(task)),
{
    if client != task.owner {
        return Err(AgoraError::Unauthorized);
    }
    if task.status != TaskStatus::InProgress {
        return Err(AgoraError::InvalidTaskStatus);
    }
    let accepted = match task.accepted_bid {
        Some(a) => a,
        None => {
            return Err(AgoraError::NoAcceptedBid);
        },
    };
    if accepted != bid_address || accepted_bid.task != task_address {
        return Err(AgoraError::AccountMismatch);
    }
    if task.escrow_account.is_some() {
        return Err(AgoraError::EscrowExists);
    }

    let mut escrow_tokens = TokenAccount { owner: escrow_address, mint: token_mint, amount: 0 };
    match transfer(client_tokens, &mut escrow_tokens, client, accepted_bid.amount) {
        Ok(()) => {},
        Err(e) => {
            return Err(e);
        },
    }

    task.escrow_account = Some(escrow_address);
    let escrow = Escrow {
        task: task_address,
        client,
        freelancer: accepted_bid.bidder,
        total_amount: accepted_bid.amount,
        released_amount: 0,
        token_mint,
        bump,
    };
    Ok((escrow, escrow_tokens))
}

/// The checks of `complete_milestone`, in order: the task must have an
/// accepted bid, the caller must be the accepted bidder through that very
/// bid, the index must be valid, and the milestone must not already be
/// completed.
pub open spec fn complete_milestone_error(
    task: Task,
    bid: Bid,
    caller: Address,
    task_address: Address,
    bid_address: Address,
    milestone_index: u8,
) -> Option<AgoraError> {
    if task.accepted_bid is None {
        Some(AgoraError::NoAcceptedBid)
    } else if caller != bid.bidder {
        Some(AgoraError::Unauthorized)
    } else if bid.task != task_address || task.accepted_bid != Some(bid_address) {
        Some(AgoraError::AccountMismatch)
    } else if milestone_index >= task.milestones@.len() {
        Some(AgoraError::InvalidMilestoneIndex)
    } else if task.milestones@[milestone_index as int].completed {
        Some(AgoraError::MilestoneAlreadyCompleted)
    } else {
        None
    }
}

/// Mark a milestone completed, as the accepted bidder's signal that the
/// deliverable is ready. No value moves; completion only gates payment.
pub fn complete_milestone(
    task: &mut Task,
    bid: &Bid,
    caller: Address,
    task_address: Address,
    bid_address: Address,
    milestone_index: u8,
) -> (r: Result<(), AgoraError>)
    requires
        task_wf(*old(task)),
    ensures
        r is Ok <==> complete_milestone_error(
            *old(task),
            *bid,
            caller,
            task_address,
            bid_address,
            milestone_index,
        ) is None,
        r matches Err(e) ==> Some(e) == complete_milestone_error(
            *old(task),
            *bid,
            caller,
            task_address,
            bid_address,
            milestone_index,
        ),
        r is Err ==> *final(task) == *old(task),
        r is Ok ==> final(task).milestones@ == old(task).milestones@.update(
            milestone_index as int,
            (Milestone { completed: true, ..old(task).milestones@[milestone_index as int] }),
        ),
        r is Ok ==> final(task).status == old(task).status && task_fields_fixed(
            *old(task),
            *final(task),
        ),
        task_wf(*final(task)),
{
    if task.accepted_bid.is_none() {
        return Err(AgoraError::NoAcceptedBid);
    }
    if caller != bid.bidder {
        return Err(AgoraError::Unauthorized);
    }
    let accepted_matches = match task.accepted_bid {
        Some(a) => a == bid_address,
        None => false,
    };
    if bid.task != task_address || !accepted_matches {
        return Err(AgoraError::AccountMismatch);
    }
    let index = milestone_index as usize;
    if index >= task.milestones.len() {
        return Err(AgoraError::InvalidMilestoneIndex);
    }
    if task.milestones[index].completed {
        return Err(AgoraError::MilestoneAlreadyCompleted);
    }
    let updated = Milestone {
        description: task.milestones[index].description.clone(),
        amount: task.milestones[index].amount,
        completed: true,
        paid: task.milestones[index].paid,
    };
    task.milestones.set(index, updated);
    Ok(())
}

/// The checks of `release_payment`, in order: only the task's owner, on
/// the task's own escrow and correctly wired token accounts, a valid
/// index whose milestone is completed and unpaid, then the token
/// collaborator's checks on paying the milestone amount to the
/// freelancer, and last the defensive guard on the release counter.
pub open spec fn release_payment_error(
    task: Task,
    escrow: Escrow,
    escrow_tokens: TokenAccount,
    freelancer_tokens: TokenAccount,
    caller: Address,
    task_address: Address,
    escrow_address: Address,
    milestone_index: u8,
) -> Option<AgoraError> {
    if caller != task.owner {
        Some(AgoraError::Unauthorized)
    } else if escrow.task != task_address {
        Some(AgoraError::AccountMismatch)
    } else if escrow_tokens.owner != escrow_address {
        Some(AgoraError::AccountMismatch)
    } else if escrow_tokens.mint != escrow.token_mint {
        Some(AgoraError::MintMismatch)
    } else if freelancer_tokens.mint != escrow.token_mint {
        Some(AgoraError::MintMismatch)
    } else if milestone_index >= task.milestones@.len() {
        Some(AgoraError::InvalidMilestoneIndex)
    } else if !task.milestones@[milestone_index as int].completed {
        Some(AgoraError::MilestoneNotCompleted)
    } else if task.milestones@[milestone_index as int].paid {
        Some(AgoraError::MilestoneAlreadyPaid)
    } else if transfer_error(
        escrow_tokens,
        freelancer_tokens,
        escrow_address,
        task.milestones@[milestone_index as int].amount,
    ) is Some {
        transfer_error(
            escrow_tokens,
            freelancer_tokens,
            escrow_address,
            task.milestones@[milestone_index as int].amount,
        )
    } else if escrow.released_amount + task.milestones@[milestone_index as int].amount
        > u64::MAX {
        Some(AgoraError::ArithmeticOverflow)
    } else {
        None
    }
}

/// Pay a completed, unpaid milestone out of the escrow to the freelancer.
///
/// The milestone becomes paid; if it was the last unpaid one the task
/// moves to `Completed`, and never before. The milestone's amount moves
/// from the escrow's token account to the freelancer's under the escrow's
/// derived authority, and `released_amount` grows by the same amount, so
/// the custody rule is preserved. The guard on the release counter is
/// defensive: under an intact custody it cannot trip, but it stands, as
/// an invariant-violation signal.
pub fn release_payment(
    task: &mut Task,
    escrow: &mut Escrow,
    escrow_tokens: &mut TokenAccount,
    freelancer_tokens: &mut TokenAccount,
    caller: Address,
    task_address: Address,
    escrow_address: Address,
    milestone_index: u8,
) -> (r: Result<(), AgoraError>)
    requires
        task_wf(*old(task)),
    ensures
        r is Ok <==> release_payment_error(
            *old(task),
            *old(escrow),
            *old(escrow_tokens),
            *old(freelancer_tokens),
            caller,
            task_address,
            escrow_address,
            milestone_index,
        ) is None,
        r matches Err(e) ==> Some(e) == release_payment_error(
            *old(task),
            *old(escrow),
            *old(escrow_tokens),
            *old(freelancer_tokens),
            caller,
            task_address,
            escrow_address,
            milestone_index,
        ),
        r is Err ==> *final(task) == *old(task) && *final(escrow) == *old(escrow)
            && *final(escrow_tokens) == *old(escrow_tokens)
            && *final(freelancer_tokens) == *old(freelancer_tokens),
        r is Ok ==> final(task).milestones@ == old(task).milestones@.update(
            milestone_index as int,
            (Milestone { paid: true, ..old(task).milestones@[milestone_index as int] }),
        ),
        r is Ok ==> final(task).status == (if all_paid(final(task).milestones@) {
            TaskStatus::Completed
        } else {
            old(task).status
        }),
        r is Ok ==> task_fields_fixed(*old(task), *final(task)),
        r is Ok ==> *final(escrow) == (Escrow {
            released_amount: (old(escrow).released_amount + old(task).milestones@[
                milestone_index as int
            ].amount) as u64,
            ..*old(escrow)
        }),
        r is Ok ==> *final(escrow_tokens) == (TokenAccount {
            amount: (old(escrow_tokens).amount - old(task).milestones@[
                milestone_index as int
            ].amount) as u64,
            ..*old(escrow_tokens)
        }),
        r is Ok ==> *final(freelancer_tokens) == (TokenAccount {
            amount: (old(freelancer_tokens).amount + old(task).milestones@[
                milestone_index as int
            ].amount) as u64,
            ..*old(freelancer_tokens)
        }),
        final(escrow).released_amount >= old(escrow).released_amount,
        custody_intact(*old(escrow), *old(escrow_tokens)) ==> custody_intact(
            *final(escrow),
            *final(escrow_tokens),
        ),
        custody_intact(*old(escrow), *old(escrow_tokens)) ==> final(escrow).released_amount
            <= final(escrow).total_amount,
        r is Ok && old(task).status != TaskStatus::Completed ==> (final(task).status
            == TaskStatus::Completed <==> all_paid(final(task).milestones@)),
        task_wf(*final(task)),
{
    if caller != task.owner {
        return Err(AgoraError::Unauthorized);
    }
    if escrow.task != task_address {
        return Err(AgoraError::AccountMismatch);
    }
    if escrow_tokens.owner != escrow_address {
        return Err(AgoraError::AccountMismatch);
    }
    if escrow_tokens.mint != escrow.token_mint {
        return Err(AgoraError::MintMismatch);
    }
    if freelancer_tokens.mint != escrow.token_mint {
        return Err(AgoraError::MintMismatch);
    }
    let index = milestone_index as usize;
    if index >= task.milestones.len() {
        return Err(AgoraError::InvalidMilestoneIndex);
    }
    if !task.milestones[index].completed {
        return Err(AgoraError::MilestoneNotCompleted);
    }
    if task.milestones[index].paid {
        return Err(AgoraError::MilestoneAlreadyPaid);
    }
    let amount = task.milestones[index].amount;

    // The collaborator's checks and the release-counter guard, made
    // before any mutation so that a rejection leaves every record as it
    // was: the whole operation commits or none of it does.
    if escrow_tokens.amount < amount {
        return Err(AgoraError::InsufficientFunds);
    }
    if freelancer_tokens.amount.checked_add(amount).is_none() {
        return Err(AgoraError::ArithmeticOverflow);
    }
    let new_released = match escrow.released_amount.checked_add(amount) {
        Some(v) => v,
        None => {
            return Err(AgoraError::ArithmeticOverflow);
        },
    };

    let updated = Milestone {
        description: task.milestones[index].description.clone(),
        amount: task.milestones[index].amount,
        completed: task.milestones[index].completed,
        paid: true,
    };
    task.milestones.set(index, updated);

    if all_milestones_paid(&task.milestones) {
        task.status = TaskStatus::Completed;
    }

    // Every condition the collaborator checks was established above, so
    // the transfer under the escrow's derived authority cannot be refused.
    match transfer(escrow_tokens, freelancer_tokens, escrow_address, amount) {
        Ok(()) => {},
        Err(_) => {
            proof {
                assert(false);
            }
        },
    }

    escrow.released_amount = new_released;
    Ok(())
}

/// The refund the client is owed: whatever was funded and never released.
pub open spec fn refund_amount(escrow: Escrow) -> int {
    escrow.total_amount - escrow.released_amount
}

/// The checks of `request_refund`, in order: only the task's owner, never
/// on a completed task, on the task's own escrow and correctly wired
/// token accounts; the refund path must be open — the task was cancelled,
/// or its deadline passed with nothing released yet. The refund is then
/// computed by checked subtraction: an over-released escrow is an
/// arithmetic fault (an invariant was already broken), a refund of zero
/// finds no funds, and last come the token collaborator's checks.
pub open spec fn request_refund_error(
    task: Task,
    escrow: Escrow,
    escrow_tokens: TokenAccount,
    client_tokens: TokenAccount,
    caller: Address,
    task_address: Address,
    escrow_address: Address,
    now: i64,
) -> Option<AgoraError> {
    if caller != task.owner {
        Some(AgoraError::Unauthorized)
    } else if task.status == TaskStatus::Completed {
        Some(AgoraError::InvalidTaskStatus)
    } else if escrow.task != task_address {
        Some(AgoraError::AccountMismatch)
    } else if escrow_tokens.owner != escrow_address {
        Some(AgoraError::AccountMismatch)
    } else if escrow_tokens.mint != escrow.token_mint {
        Some(AgoraError::MintMismatch)
    } else if client_tokens.owner != caller {
        Some(AgoraError::AccountMismatch)
    } else if client_tokens.mint != escrow.token_mint {
        Some(AgoraError::MintMismatch)
    } else if !(task.status == TaskStatus::Cancelled || (now > task.deadline
        && escrow.released_amount == 0)) {
        Some(AgoraError::RefundNotAllowed)
    } else if escrow.released_amount > escrow.total_amount {
        // An over-released escrow would underflow the checked
        // subtraction: an invariant-violation signal, not an ordinary
        // input error.
        Some(AgoraError::ArithmeticOverflow)
    } else if refund_amount(escrow) == 0 {
        Some(AgoraError::NoFundsToRefund)
    } else if transfer_error(
        escrow_tokens,
        client_tokens,
        escrow_address,
        (escrow.total_amount - escrow.released_amount) as u64,
    ) is Some {
        transfer_error(
            escrow_tokens,
            client_tokens,
            escrow_address,
            (escrow.total_amount - escrow.released_amount) as u64,
        )
    } else {
        None
    }
}

/// Refund the client whatever the escrow still custodies.
///
/// Allowed on a cancelled task, or after the deadline if nothing was
/// released yet; a partially-paid expired task is not refundable through
/// this path. The refund moves `total_amount - released_amount` back to
/// the client under the escrow's derived authority, and is recorded in
/// `released_amount` like every other outflow, so the custody rule is
/// preserved and a second refund finds nothing to pay.
pub fn request_refund(
    task: &Task,
    escrow: &mut Escrow,
    escrow_tokens: &mut TokenAccount,
    client_tokens: &mut TokenAccount,
    caller: Address,
    task_address: Address,
    escrow_address: Address,
    now: i64,
) -> (r: Result<(), AgoraError>)
    ensures
        r is Ok <==> request_refund_error(
            *task,
            *old(escrow),
            *old(escrow_tokens),
            *old(client_tokens),
            caller,
            task_address,
            escrow_address,
            now,
        ) is None,
        r matches Err(e) ==> Some(e) == request_refund_error(
            *task,
            *old(escrow),
            *old(escrow_tokens),
            *old(client_tokens),
            caller,
            task_address,
            escrow_address,
            now,
        ),
        r is Err ==> *final(escrow) == *old(escrow)
            && *final(escrow_tokens) == *old(escrow_tokens)
            && *final(client_tokens) == *old(client_tokens),
        r is Ok ==> *final(escrow) == (Escrow {
            released_amount: old(escrow).total_amount,
            ..*old(escrow)
        }),
        r is Ok ==> *final(escrow_tokens) == (TokenAccount {
            amount: (old(escrow_tokens).amount - refund_amount(*old(escrow))) as u64,
            ..*old(escrow_tokens)
        }),
        r is Ok ==> *final(client_tokens) == (TokenAccount {
            amount: (old(client_tokens).amount + refund_amount(*old(escrow))) as u64,
            ..*old(client_tokens)
        }),
        final(escrow).released_amount >= old(escrow).released_amount,
        escrow_wf(*old(escrow)) ==> escrow_wf(*final(escrow)),
        custody_intact(*old(escrow), *old(escrow_tokens)) ==> custody_intact(
            *final(escrow),
            *final(escrow_tokens),
        ),
{
    if caller != task.owner {
        return Err(AgoraError::Unauthorized);
    }
    if task.status == TaskStatus::Completed {
        return Err(AgoraError::InvalidTaskStatus);
    }
    if escrow.task != task_address {
        return Err(AgoraError::AccountMismatch);
    }
    if escrow_tokens.owner != escrow_address {
        return Err(AgoraError::AccountMismatch);
    }
    if escrow_tokens.mint != escrow.token_mint {
        return Err(AgoraError::MintMismatch);
    }
    if client_tokens.owner != caller {
        return Err(AgoraError::AccountMismatch);
    }
    if client_tokens.mint != escrow.token_mint {
        return Err(AgoraError::MintMismatch);
    }
    let allowed = task.status == TaskStatus::Cancelled || (now > task.deadline
        && escrow.released_amount == 0);
    if !allowed {
        return Err(AgoraError::RefundNotAllowed);
    }
    let refund = match escrow.total_amount.checked_sub(escrow.released_amount) {
        Some(v) => v,
        None => {
            return Err(AgoraError::ArithmeticOverflow);
        },
    };
    if refund == 0 {
        return Err(AgoraError::NoFundsToRefund);
    }

    // The collaborator's checks, made before any mutation.
    if escrow_tokens.amount < refund {
        return Err(AgoraError::InsufficientFunds);
    }
    if client_tokens.amount.checked_add(refund).is_none() {
        return Err(AgoraError::ArithmeticOverflow);
    }

    match transfer(escrow_tokens, client_tokens, escrow_address, refund) {
        Ok(()) => {},
        Err(_) => {
            proof {
                assert(false);
            }
        },
    }

    escrow.released_amount = escrow.total_amount;
    Ok(())
}

} // verus!
