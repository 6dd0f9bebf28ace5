//! The library's global guarantees, each proved from the spec-level
//! transitions alone.

use vstd::prelude::*;

use crate::error::{EscrowError, ProcessError};
use crate::processor::{
    spec_approve_release, spec_cancel_escrow, spec_create_escrow, ApproveView, CancelView,
    CreateView,
};
use crate::state::EscrowView;

verus! {

/// Escrow ids are strictly increasing and never reused: a successful
/// creation assigns the id one above the counter it read and advances the
/// counter to exactly that id, so the second of two successive successful
/// creations always gets a strictly greater id, and no id at or below the
/// counter is ever handed out again.
pub proof fn lemma_escrow_ids_strictly_increase(
    program_id1: Seq<u8>,
    creator1: Seq<u8>,
    escrow_account1: Seq<u8>,
    count: u64,
    amount1: u64,
    beneficiary1: Seq<u8>,
    approver1a: Seq<u8>,
    approver1b: Seq<u8>,
    approver1c: Option<Seq<u8>>,
    description1: Seq<u8>,
    now1: i64,
    o1: CreateView,
    program_id2: Seq<u8>,
    creator2: Seq<u8>,
    escrow_account2: Seq<u8>,
    amount2: u64,
    beneficiary2: Seq<u8>,
    approver2a: Seq<u8>,
    approver2b: Seq<u8>,
    approver2c: Option<Seq<u8>>,
    description2: Seq<u8>,
    now2: i64,
    o2: CreateView,
)
    requires
        spec_create_escrow(
            program_id1,
            creator1,
            true,
            escrow_account1,
            count,
            amount1,
            beneficiary1,
            approver1a,
            approver1b,
            approver1c,
            description1,
            now1,
        ) == Ok::<CreateView, ProcessError>(o1),
        spec_create_escrow(
            program_id2,
            creator2,
            true,
            escrow_account2,
            o1.count,
            amount2,
            beneficiary2,
            approver2a,
            approver2b,
            approver2c,
            description2,
            now2,
        ) == Ok::<CreateView, ProcessError>(o2),
    ensures
        o1.escrow.id == count + 1,
        o1.count == o1.escrow.id,
        o2.escrow.id == o1.escrow.id + 1,
        o2.escrow.id > o1.escrow.id,
{
}

/// The quorum never exceeds two sign-offs and never drops below one: it is
/// one exactly when a single distinct approver is configured, two otherwise,
/// however many approver slots are filled.
pub proof fn lemma_quorum_capped(v: EscrowView)
    ensures
        1 <= v.spec_required_approvals() <= 2,
        v.spec_required_approvals() == 1 <==> v.spec_total_approvers() == 1,
{
}

/// Rejection of a repeated sign-off: once an approver's sign-off succeeds,
/// a second attempt by the same approver fails — with `AlreadyApproved`
/// while the record is still open, with `EscrowCompleted` if that first
/// sign-off reached quorum — and a failing attempt carries no state change
/// and no transfer.
pub proof fn lemma_approve_rejects_repeat(
    e: EscrowView,
    approver: Seq<u8>,
    escrow_account1: Seq<u8>,
    beneficiary_account1: Seq<u8>,
    now1: i64,
    o: ApproveView,
    escrow_account2: Seq<u8>,
    beneficiary_account2: Seq<u8>,
    now2: i64,
)
    requires
        spec_approve_release(e, approver, true, escrow_account1, beneficiary_account1, now1)
            == Ok::<ApproveView, ProcessError>(o),
    ensures
        spec_approve_release(o.escrow, approver, true, escrow_account2, beneficiary_account2, now2)
            == Err::<ApproveView, ProcessError>(
            ProcessError::Escrow(
                if o.escrow.is_completed {
                    EscrowError::EscrowCompleted
                } else {
                    EscrowError::AlreadyApproved
                },
            ),
        ),
{
    assert(o.escrow.approvals.contains(approver)) by {
        assert(o.escrow.approvals == e.approvals.push(approver));
        assert(o.escrow.approvals[e.approvals.len() as int] == approver);
    }
}

/// A completed record is terminal: every further approval or cancellation
/// attempt is rejected, so no field of a frozen record ever changes and no
/// further value moves through it.
pub proof fn lemma_completed_record_is_terminal(
    e: EscrowView,
    caller: Seq<u8>,
    caller_is_signer: bool,
    escrow_account: Seq<u8>,
    beneficiary_account: Seq<u8>,
    now: i64,
)
    requires
        e.is_completed,
    ensures
        spec_approve_release(e, caller, caller_is_signer, escrow_account, beneficiary_account, now)
            is Err,
        spec_cancel_escrow(e, caller, caller_is_signer, escrow_account, now) is Err,
{
}

/// Cancellation is possible only while no approval is recorded: a cancel
/// that succeeds was run against a record with an empty approval list.
pub proof fn lemma_cancel_only_without_approvals(
    e: EscrowView,
    creator: Seq<u8>,
    creator_is_signer: bool,
    escrow_account: Seq<u8>,
    now: i64,
)
    ensures
        spec_cancel_escrow(e, creator, creator_is_signer, escrow_account, now) is Ok
            ==> e.approvals.len() == 0,
{
}

/// Any prior successful approval permanently blocks cancellation: after a
/// sign-off succeeds, every later cancel attempt fails — with
/// `CannotCancelAfterApprovals` once it passes the signature, creator and
/// open-record checks — so no cancel ever moves the escrowed value again.
pub proof fn lemma_approval_blocks_cancellation(
    e: EscrowView,
    approver: Seq<u8>,
    escrow_account1: Seq<u8>,
    beneficiary_account1: Seq<u8>,
    now1: i64,
    o: ApproveView,
    creator: Seq<u8>,
    creator_is_signer: bool,
    escrow_account2: Seq<u8>,
    now2: i64,
)
    requires
        spec_approve_release(e, approver, true, escrow_account1, beneficiary_account1, now1)
            == Ok::<ApproveView, ProcessError>(o),
    ensures
        spec_cancel_escrow(o.escrow, creator, creator_is_signer, escrow_account2, now2) is Err,
        creator_is_signer && o.escrow.creator == creator && !o.escrow.is_completed
            ==> spec_cancel_escrow(o.escrow, creator, creator_is_signer, escrow_account2, now2)
            == Err::<CancelView, ProcessError>(
            ProcessError::Escrow(EscrowError::CannotCancelAfterApprovals),
        ),
{
    assert(o.escrow.approvals.len() > 0) by {
        assert(o.escrow.approvals == e.approvals.push(approver));
    }
}

} // verus!
