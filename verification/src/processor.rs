//! The lifecycle state machine: the four operations that transition the
//! counter and the escrow records and decide every custody movement. Each
//! operation builds its full new state in memory and either returns it whole
//! or fails with the first violated check, committing nothing.

use vstd::prelude::*;
use vstd::seq_lib::*;
use vstd::set_lib::lemma_len_subset;

use crate::addr::Address;
use crate::codec::{deserialize_counter, deserialize_escrow, spec_parse_counter, spec_parse_escrow};
use crate::error::{EscrowError, ProcessError};
use crate::instruction::{spec_parse_instruction, EscrowInstruction, InstructionView};
use crate::pda::{counter_derivation, escrow_derivation, find_counter_address, find_escrow_address};
use crate::state::{Escrow, EscrowCounter, EscrowView};

verus! {

/// One custody movement the caller must perform: `lamports` from `from`
/// to `to`.
#[derive(Clone, Copy, Debug)]
pub struct Transfer {
    pub from: Address,
    pub to: Address,
    pub lamports: u64,
}

/// The mathematical value of a [`Transfer`].
#[verifier::ext_equal]
pub ghost struct TransferView {
    pub from: Seq<u8>,
    pub to: Seq<u8>,
    pub lamports: u64,
}

impl View for Transfer {
    type V = TransferView;

    open spec fn view(&self) -> TransferView {
        TransferView { from: self.from@, to: self.to@, lamports: self.lamports }
    }
}

/// The result of a successful `Initialize`: the fresh counter record and the
/// bump seed under which its storage is allocated.
pub struct InitOutcome {
    pub counter: EscrowCounter,
    pub bump: u8,
}

#[verifier::ext_equal]
pub ghost struct InitView {
    pub count: u64,
    pub bump: u8,
}

impl View for InitOutcome {
    type V = InitView;

    open spec fn view(&self) -> InitView {
        InitView { count: self.counter.count, bump: self.bump }
    }
}

/// The result of a successful `CreateEscrow`: the incremented counter, the
/// new record, the bump seed of its storage address, and the deposit to move
/// from the creator into custody.
pub struct CreateOutcome {
    pub counter: EscrowCounter,
    pub escrow: Escrow,
    pub bump: u8,
    pub transfer: Transfer,
}

#[verifier::ext_equal]
pub ghost struct CreateView {
    pub count: u64,
    pub escrow: EscrowView,
    pub bump: u8,
    pub transfer: TransferView,
}

impl View for CreateOutcome {
    type V = CreateView;

    open spec fn view(&self) -> CreateView {
        CreateView {
            count: self.counter.count,
            escrow: self.escrow@,
            bump: self.bump,
            transfer: self.transfer@,
        }
    }
}

/// The result of a successful `ApproveRelease`: the updated record and, when
/// this approval reached quorum, the release of the full amount to the
/// supplied beneficiary account.
pub struct ApproveOutcome {
    pub escrow: Escrow,
    pub transfer: Option<Transfer>,
}

#[verifier::ext_equal]
pub ghost struct ApproveView {
    pub escrow: EscrowView,
    pub transfer: Option<TransferView>,
}

impl View for ApproveOutcome {
    type V = ApproveView;

    open spec fn view(&self) -> ApproveView {
        ApproveView {
            escrow: self.escrow@,
            transfer: match self.transfer {
                Some(t) => Some(t@),
                None => None,
            },
        }
    }
}

/// The result of a successful `CancelEscrow`: the frozen record and the
/// refund of the full amount to the creator.
pub struct CancelOutcome {
    pub escrow: Escrow,
    pub transfer: Transfer,
}

#[verifier::ext_equal]
pub ghost struct CancelView {
    pub escrow: EscrowView,
    pub transfer: TransferView,
}

impl View for CancelOutcome {
    type V = CancelView;

    open spec fn view(&self) -> CancelView {
        CancelView { escrow: self.escrow@, transfer: self.transfer@ }
    }
}

/// What `Initialize` does: require the authority's signature and the exact
/// derived counter address, then produce a counter record holding zero.
pub open spec fn spec_initialize(
    program_id: Seq<u8>,
    authority_is_signer: bool,
    counter_account: Seq<u8>,
) -> Result<InitView, ProcessError> {
    if !authority_is_signer {
        Err(ProcessError::MissingRequiredSignature)
    } else {
        match counter_derivation(program_id) {
            Some((pda, bump)) => if pda == counter_account {
                Ok(InitView { count: 0, bump })
            } else {
                Err(ProcessError::Escrow(EscrowError::InvalidCounterAccount))
            },
            None => Err(ProcessError::Escrow(EscrowError::InvalidCounterAccount)),
        }
    }
}

/// What `CreateEscrow` does: validate amount, description length, signature
/// and counter headroom in that order, reserve the next id, require the
/// exact derived escrow address, and produce the new record with no
/// approvals together with the deposit into custody.
pub open spec fn spec_create_escrow(
    program_id: Seq<u8>,
    creator: Seq<u8>,
    creator_is_signer: bool,
    escrow_account: Seq<u8>,
    count: u64,
    amount: u64,
    beneficiary: Seq<u8>,
    approver1: Seq<u8>,
    approver2: Seq<u8>,
    approver3: Option<Seq<u8>>,
    description: Seq<u8>,
    now: i64,
) -> Result<CreateView, ProcessError> {
    if amount == 0 {
        Err(ProcessError::Escrow(EscrowError::InsufficientFunds))
    } else if description.len() > 200 {
        Err(ProcessError::InvalidInstructionData)
    } else if !creator_is_signer {
        Err(ProcessError::MissingRequiredSignature)
    } else if count == u64::MAX {
        Err(ProcessError::Escrow(EscrowError::AmountOverflow))
    } else {
        let id = (count + 1) as u64;
        match escrow_derivation(program_id, id) {
            Some((pda, bump)) => if pda == escrow_account {
                Ok(
                    CreateView {
                        count: id,
                        escrow: EscrowView {
                            id,
                            creator,
                            beneficiary,
                            amount,
                            approver1,
                            approver2,
                            approver3,
                            description,
                            approvals: Seq::empty(),
                            is_completed: false,
                            created_at: now,
                            completed_at: 0,
                        },
                        bump,
                        transfer: TransferView { from: creator, to: escrow_account, lamports: amount },
                    },
                )
            } else {
                Err(ProcessError::Escrow(EscrowError::InvalidEscrowAccount))
            },
            None => Err(ProcessError::Escrow(EscrowError::InvalidEscrowAccount)),
        }
    }
}

/// What `ApproveRelease` does: validate the signature, that the record is
/// open, that the signer is a configured approver and has not yet approved,
/// in that order; then append the approval and, exactly when quorum is
/// reached, freeze the record and release the full amount to the supplied
/// beneficiary account.
pub open spec fn spec_approve_release(
    e: EscrowView,
    approver: Seq<u8>,
    approver_is_signer: bool,
    escrow_account: Seq<u8>,
    beneficiary_account: Seq<u8>,
    now: i64,
) -> Result<ApproveView, ProcessError> {
    if !approver_is_signer {
        Err(ProcessError::MissingRequiredSignature)
    } else if e.is_completed {
        Err(ProcessError::Escrow(EscrowError::EscrowCompleted))
    } else if !e.spec_is_approver(approver) {
        Err(ProcessError::Escrow(EscrowError::Unauthorized))
    } else if e.spec_has_approved(approver) {
        Err(ProcessError::Escrow(EscrowError::AlreadyApproved))
    } else {
        let appended = EscrowView { approvals: e.approvals.push(approver), ..e };
        if appended.spec_can_be_released() {
            Ok(
                ApproveView {
                    escrow: EscrowView { is_completed: true, completed_at: now, ..appended },
                    transfer: Some(
                        TransferView {
                            from: escrow_account,
                            to: beneficiary_account,
                            lamports: e.amount,
                        },
                    ),
                },
            )
        } else {
            Ok(ApproveView { escrow: appended, transfer: None })
        }
    }
}

/// What `CancelEscrow` does: validate the signature, that the caller is the
/// original creator, that the record is open and that no approval has been
/// recorded, in that order; then freeze the record and refund the full
/// amount to the creator.
pub open spec fn spec_cancel_escrow(
    e: EscrowView,
    creator: Seq<u8>,
    creator_is_signer: bool,
    escrow_account: Seq<u8>,
    now: i64,
) -> Result<CancelView, ProcessError> {
    if !creator_is_signer {
        Err(ProcessError::MissingRequiredSignature)
    } else if e.creator != creator {
        Err(ProcessError::Escrow(EscrowError::Unauthorized))
    } else if e.is_completed {
        Err(ProcessError::Escrow(EscrowError::EscrowCompleted))
    } else if e.approvals.len() != 0 {
        Err(ProcessError::Escrow(EscrowError::CannotCancelAfterApprovals))
    } else {
        Ok(
            CancelView {
                escrow: EscrowView { is_completed: true, completed_at: now, ..e },
                transfer: TransferView { from: escrow_account, to: creator, lamports: e.amount },
            },
        )
    }
}

/// An approval appended to a well-formed record keeps the approvals distinct,
/// inside the approver set, and at most three.
proof fn lemma_push_approval_wf(e: EscrowView, approver: Seq<u8>)
    requires
        e.wf(),
        e.spec_is_approver(approver),
        !e.spec_has_approved(approver),
    ensures
        (EscrowView { approvals: e.approvals.push(approver), ..e }).wf(),
{
    let appended = EscrowView { approvals: e.approvals.push(approver), ..e };
    assert(appended.approvals.no_duplicates()) by {
        assert(forall|i: int, j: int|
            0 <= i < appended.approvals.len() && 0 <= j < appended.approvals.len() && i != j
                ==> appended.approvals[i] != appended.approvals[j]) by {
            assert(forall|i: int| 0 <= i < e.approvals.len() ==> appended.approvals[i]
                == e.approvals[i]);
            assert(forall|i: int| 0 <= i < e.approvals.len() ==> e.approvals.contains(
                #[trigger] e.approvals[i],
            ));
        }
    }
    assert(forall|i: int| 0 <= i < appended.approvals.len() ==> appended.spec_is_approver(
        #[trigger] appended.approvals[i],
    ));
    assert(appended.approvals.len() <= 3) by {
        let s = appended.approvals;
        s.unique_seq_to_set();
        assert(s.to_set().len() == s.len());
        let approvers = e.approver_set();
        assert(s.to_set().subset_of(approvers)) by {
            assert(forall|x: Seq<u8>| s.to_set().contains(x) ==> s.contains(x));
            assert(forall|x: Seq<u8>| #[trigger] s.contains(x) ==> e.spec_is_approver(x)) by {
                assert(forall|i: int| 0 <= i < s.len() ==> e.spec_is_approver(#[trigger] s[i]));
            }
            assert(forall|x: Seq<u8>| e.spec_is_approver(x) ==> approvers.contains(x));
        }
        assert(approvers.len() <= 3) by {
            match e.approver3 {
                None => {
                    assert(set![e.approver1, e.approver2] == Set::empty().insert(
                        e.approver1,
                    ).insert(e.approver2));
                },
                Some(a3) => {
                    assert(set![e.approver1, e.approver2, a3] == Set::empty().insert(
                        e.approver1,
                    ).insert(e.approver2).insert(a3));
                },
            }
        }
        lemma_len_subset(s.to_set(), approvers);
    }
}

/// The lifecycle state machine.
pub struct Processor;

impl Processor {
    /// `Initialize`: produce the counter record, or the first violated
    /// check's error. The caller allocates the counter's storage and
    /// persists the returned record.
    pub fn process_initialize(
        program_id: &Address,
        authority: &Address,
        authority_is_signer: bool,
        counter_account: &Address,
    ) -> (r: Result<InitOutcome, ProcessError>)
        ensures
            match r {
                Ok(o) => spec_initialize(program_id@, authority_is_signer, counter_account@)
                    == Ok::<InitView, ProcessError>(o@),
                Err(e) => spec_initialize(program_id@, authority_is_signer, counter_account@)
                    == Err::<InitView, ProcessError>(e),
            },
    {
        if !authority_is_signer {
            return Err(ProcessError::MissingRequiredSignature);
        }
        match find_counter_address(program_id) {
            Some((pda, bump)) => {
                if pda.eq_addr(counter_account) {
                    Ok(InitOutcome { counter: EscrowCounter { count: 0 }, bump })
                } else {
                    Err(ProcessError::Escrow(EscrowError::InvalidCounterAccount))
                }
            },
            None => Err(ProcessError::Escrow(EscrowError::InvalidCounterAccount)),
        }
    }

    /// `CreateEscrow`: validate, reserve the next id, check the derived
    /// escrow address, and produce the new record together with the deposit
    /// to perform. The caller allocates the escrow's storage, moves the
    /// deposit, and persists both returned records together.
    pub fn process_create_escrow(
        program_id: &Address,
        creator: &Address,
        creator_is_signer: bool,
        escrow_account: &Address,
        counter: &EscrowCounter,
        amount: u64,
        beneficiary: Address,
        approver1: Address,
        approver2: Address,
        approver3: Option<Address>,
        description: Vec<u8>,
        now: i64,
    ) -> (r: Result<CreateOutcome, ProcessError>)
        ensures
            match r {
                Ok(o) => spec_create_escrow(
                    program_id@,
                    creator@,
                    creator_is_signer,
                    escrow_account@,
                    counter.count,
                    amount,
                    beneficiary@,
                    approver1@,
                    approver2@,
                    match approver3 {
                        Some(a) => Some(a@),
                        None => None,
                    },
                    description@,
                    now,
                ) == Ok::<CreateView, ProcessError>(o@),
                Err(e) => spec_create_escrow(
                    program_id@,
                    creator@,
                    creator_is_signer,
                    escrow_account@,
                    counter.count,
                    amount,
                    beneficiary@,
                    approver1@,
                    approver2@,
                    match approver3 {
                        Some(a) => Some(a@),
                        None => None,
                    },
                    description@,
                    now,
                ) == Err::<CreateView, ProcessError>(e),
            },
            r matches Ok(o) ==> o.escrow@.wf(),
            r matches Ok(o) ==> o.counter.count == counter.count + 1 && o.escrow.id
                == counter.count + 1,
    {
        if amount == 0 {
            return Err(ProcessError::Escrow(EscrowError::InsufficientFunds));
        }
        if description.len() > 200 {
            return Err(ProcessError::InvalidInstructionData);
        }
        if !creator_is_signer {
            return Err(ProcessError::MissingRequiredSignature);
        }
        if counter.count == u64::MAX {
            return Err(ProcessError::Escrow(EscrowError::AmountOverflow));
        }
        let escrow_id = counter.count + 1;
        match find_escrow_address(program_id, escrow_id) {
            Some((pda, bump)) => {
                if pda.eq_addr(escrow_account) {
                    let escrow = Escrow {
                        id: escrow_id,
                        creator: *creator,
                        beneficiary,
                        amount,
                        approver1,
                        approver2,
                        approver3,
                        description,
                        approvals: Vec::new(),
                        is_completed: false,
                        created_at: now,
                        completed_at: 0,
                    };
                    let outcome = CreateOutcome {
                        counter: EscrowCounter { count: escrow_id },
                        escrow,
                        bump,
                        transfer: Transfer { from: *creator, to: *escrow_account, lamports: amount },
                    };
                    proof {
                        assert(outcome.escrow@.approvals =~= Seq::<Seq<u8>>::empty());
                        assert(spec_create_escrow(
                            program_id@,
                            creator@,
                            creator_is_signer,
                            escrow_account@,
                            counter.count,
                            amount,
                            beneficiary@,
                            approver1@,
                            approver2@,
                            match approver3 {
                                Some(a) => Some(a@),
                                None => None,
                            },
                            description@,
                            now,
                        ) =~~= Ok::<CreateView, ProcessError>(outcome@));
                    }
                    Ok(outcome)
                } else {
                    Err(ProcessError::Escrow(EscrowError::InvalidEscrowAccount))
                }
            },
            None => Err(ProcessError::Escrow(EscrowError::InvalidEscrowAccount)),
        }
    }

    /// `ApproveRelease`: record one approver's sign-off and, exactly when
    /// quorum is reached by it, freeze the record and release the funds to
    /// the supplied beneficiary account. The caller performs the returned
    /// transfer, if any, and persists the returned record.
    pub fn process_approve_release(
        escrow: &Escrow,
        approver: &Address,
        approver_is_signer: bool,
        escrow_account: &Address,
        beneficiary_account: &Address,
        now: i64,
    ) -> (r: Result<ApproveOutcome, ProcessError>)
        ensures
            match r {
                Ok(o) => spec_approve_release(
                    escrow@,
                    approver@,
                    approver_is_signer,
                    escrow_account@,
                    beneficiary_account@,
                    now,
                ) == Ok::<ApproveView, ProcessError>(o@),
                Err(e) => spec_approve_release(
                    escrow@,
                    approver@,
                    approver_is_signer,
                    escrow_account@,
                    beneficiary_account@,
                    now,
                ) == Err::<ApproveView, ProcessError>(e),
            },
            escrow@.wf() ==> (r matches Ok(o) ==> o.escrow@.wf()),
    {
        if !approver_is_signer {
            return Err(ProcessError::MissingRequiredSignature);
        }
        if escrow.is_completed {
            return Err(ProcessError::Escrow(EscrowError::EscrowCompleted));
        }
        if !escrow.is_approver(approver) {
            return Err(ProcessError::Escrow(EscrowError::Unauthorized));
        }
        if escrow.has_approved(approver) {
            return Err(ProcessError::Escrow(EscrowError::AlreadyApproved));
        }
        let mut updated = escrow.clone();
        let ghost pre = updated;
        updated.approvals.push(*approver);
        proof {
            assert(updated.approvals@ == pre.approvals@.push(*approver));
            assert(updated@.approvals =~= escrow@.approvals.push(approver@)) by {
                assert(forall|i: int| 0 <= i < pre.approvals@.len() ==> #[trigger] updated@
                    .approvals[i] == pre@.approvals[i]);
            }
            assert(updated@ =~~= (EscrowView {
                approvals: escrow@.approvals.push(approver@),
                ..escrow@
            }));
            if escrow@.wf() {
                lemma_push_approval_wf(escrow@, approver@);
            }
        }
        if updated.can_be_released() {
            updated.is_completed = true;
            updated.completed_at = now;
            let transfer = Transfer {
                from: *escrow_account,
                to: *beneficiary_account,
                lamports: escrow.amount,
            };
            let outcome = ApproveOutcome { escrow: updated, transfer: Some(transfer) };
            proof {
                assert(spec_approve_release(
                    escrow@,
                    approver@,
                    approver_is_signer,
                    escrow_account@,
                    beneficiary_account@,
                    now,
                ) =~~= Ok::<ApproveView, ProcessError>(outcome@));
            }
            Ok(outcome)
        } else {
            let outcome = ApproveOutcome { escrow: updated, transfer: None };
            proof {
                assert(spec_approve_release(
                    escrow@,
                    approver@,
                    approver_is_signer,
                    escrow_account@,
                    beneficiary_account@,
                    now,
                ) =~~= Ok::<ApproveView, ProcessError>(outcome@));
            }
            Ok(outcome)
        }
    }

    /// `CancelEscrow`: allowed only to the original creator, only while the
    /// record is open and holds no approval; freezes the record and refunds
    /// the full amount. The caller performs the returned transfer and
    /// persists the returned record.
    pub fn process_cancel_escrow(
        escrow: &Escrow,
        creator: &Address,
        creator_is_signer: bool,
        escrow_account: &Address,
        now: i64,
    ) -> (r: Result<CancelOutcome, ProcessError>)
        ensures
            match r {
                Ok(o) => spec_cancel_escrow(
                    escrow@,
                    creator@,
                    creator_is_signer,
                    escrow_account@,
                    now,
                ) == Ok::<CancelView, ProcessError>(o@),
                Err(e) => spec_cancel_escrow(
                    escrow@,
                    creator@,
                    creator_is_signer,
                    escrow_account@,
                    now,
                ) == Err::<CancelView, ProcessError>(e),
            },
            escrow@.wf() ==> (r matches Ok(o) ==> o.escrow@.wf()),
    {
        if !creator_is_signer {
            return Err(ProcessError::MissingRequiredSignature);
        }
        if !escrow.creator.eq_addr(creator) {
            return Err(ProcessError::Escrow(EscrowError::Unauthorized));
        }
        if escrow.is_completed {
            return Err(ProcessError::Escrow(EscrowError::EscrowCompleted));
        }
        if escrow.approvals.len() != 0 {
            return Err(ProcessError::Escrow(EscrowError::CannotCancelAfterApprovals));
        }
        let mut updated = escrow.clone();
        updated.is_completed = true;
        updated.completed_at = now;
        let outcome = CancelOutcome {
            escrow: updated,
            transfer: Transfer { from: *escrow_account, to: *creator, lamports: escrow.amount },
        };
        proof {
            assert(spec_cancel_escrow(escrow@, creator@, creator_is_signer, escrow_account@, now)
                =~~= Ok::<CancelView, ProcessError>(outcome@));
        }
        Ok(outcome)
    }

    /// The dispatcher: decode the instruction, take the accounts it names in
    /// order, read the stored records it touches, and run the matching
    /// operation. The caller persists the returned records and performs the
    /// returned transfers, all together or not at all.
    pub fn process(
        program_id: &Address,
        accounts: &Vec<AccountInput>,
        instruction_data: &Vec<u8>,
        now: i64,
    ) -> (r: Result<ProcessOutcome, ProcessError>)
        ensures
            match r {
                Ok(o) => spec_process(program_id@, accounts@, instruction_data@, now)
                    == Ok::<ProcessView, ProcessError>(o@),
                Err(e) => spec_process(program_id@, accounts@, instruction_data@, now)
                    == Err::<ProcessView, ProcessError>(e),
            },
    {
        let instruction = match EscrowInstruction::unpack(instruction_data) {
            Ok(ins) => ins,
            Err(e) => {
                return Err(e);
            },
        };
        match instruction {
            EscrowInstruction::Initialize => {
                if accounts.len() < 3 {
                    return Err(ProcessError::NotEnoughAccountKeys);
                }
                let authority = &accounts[0];
                let counter_account = &accounts[1];
                match Self::process_initialize(
                    program_id,
                    &authority.address,
                    authority.is_signer,
                    &counter_account.address,
                ) {
                    Ok(o) => Ok(ProcessOutcome::Initialized(o)),
                    Err(e) => Err(e),
                }
            },
            EscrowInstruction::CreateEscrow {
                amount,
                beneficiary,
                approver1,
                approver2,
                approver3,
                description,
            } => {
                if amount == 0 {
                    return Err(ProcessError::Escrow(EscrowError::InsufficientFunds));
                }
                if description.len() > 200 {
                    return Err(ProcessError::InvalidInstructionData);
                }
                if accounts.len() < 4 {
                    return Err(ProcessError::NotEnoughAccountKeys);
                }
                let creator = &accounts[0];
                let escrow_account = &accounts[1];
                let counter_account = &accounts[2];
                if !creator.is_signer {
                    return Err(ProcessError::MissingRequiredSignature);
                }
                let counter = match deserialize_counter(&counter_account.data) {
                    Some((c, _)) => c,
                    None => {
                        return Err(ProcessError::BorshIo);
                    },
                };
                match Self::process_create_escrow(
                    program_id,
                    &creator.address,
                    creator.is_signer,
                    &escrow_account.address,
                    &counter,
                    amount,
                    beneficiary,
                    approver1,
                    approver2,
                    approver3,
                    description,
                    now,
                ) {
                    Ok(o) => Ok(ProcessOutcome::Created(o)),
                    Err(e) => Err(e),
                }
            },
            EscrowInstruction::ApproveRelease => {
                if accounts.len() < 4 {
                    return Err(ProcessError::NotEnoughAccountKeys);
                }
                let approver = &accounts[0];
                let escrow_account = &accounts[1];
                let beneficiary_account = &accounts[2];
                if !approver.is_signer {
                    return Err(ProcessError::MissingRequiredSignature);
                }
                let escrow = match deserialize_escrow(&escrow_account.data) {
                    Some((e, _)) => e,
                    None => {
                        return Err(ProcessError::BorshIo);
                    },
                };
                match Self::process_approve_release(
                    &escrow,
                    &approver.address,
                    approver.is_signer,
                    &escrow_account.address,
                    &beneficiary_account.address,
                    now,
                ) {
                    Ok(o) => Ok(ProcessOutcome::Approved(o)),
                    Err(e) => Err(e),
                }
            },
            EscrowInstruction::CancelEscrow => {
                if accounts.len() < 3 {
                    return Err(ProcessError::NotEnoughAccountKeys);
                }
                let creator = &accounts[0];
                let escrow_account = &accounts[1];
                if !creator.is_signer {
                    return Err(ProcessError::MissingRequiredSignature);
                }
                let escrow = match deserialize_escrow(&escrow_account.data) {
                    Some((e, _)) => e,
                    None => {
                        return Err(ProcessError::BorshIo);
                    },
                };
                match Self::process_cancel_escrow(
                    &escrow,
                    &creator.address,
                    creator.is_signer,
                    &escrow_account.address,
                    now,
                ) {
                    Ok(o) => Ok(ProcessOutcome::Cancelled(o)),
                    Err(e) => Err(e),
                }
            },
        }
    }
}

/// One account handed to the dispatcher: its address, whether its owner
/// signed the instruction, and the bytes stored under it.
pub struct AccountInput {
    pub address: Address,
    pub is_signer: bool,
    pub data: Vec<u8>,
}

/// The result of one dispatched instruction.
pub enum ProcessOutcome {
    Initialized(InitOutcome),
    Created(CreateOutcome),
    Approved(ApproveOutcome),
    Cancelled(CancelOutcome),
}

/// The mathematical value of a [`ProcessOutcome`].
#[verifier::ext_equal]
pub ghost enum ProcessView {
    Initialized(InitView),
    Created(CreateView),
    Approved(ApproveView),
    Cancelled(CancelView),
}

impl View for ProcessOutcome {
    type V = ProcessView;

    open spec fn view(&self) -> ProcessView {
        match self {
            ProcessOutcome::Initialized(o) => ProcessView::Initialized(o@),
            ProcessOutcome::Created(o) => ProcessView::Created(o@),
            ProcessOutcome::Approved(o) => ProcessView::Approved(o@),
            ProcessOutcome::Cancelled(o) => ProcessView::Cancelled(o@),
        }
    }
}

/// What one dispatched instruction does: decode, take the accounts in the
/// instruction's order, read the touched records, and apply the matching
/// operation's transition.
pub open spec fn spec_process(
    program_id: Seq<u8>,
    accounts: Seq<AccountInput>,
    instruction_data: Seq<u8>,
    now: i64,
) -> Result<ProcessView, ProcessError> {
    match spec_parse_instruction(instruction_data) {
        None => Err(ProcessError::InvalidInstructionData),
        Some(InstructionView::Initialize) => {
            if accounts.len() < 3 {
                Err(ProcessError::NotEnoughAccountKeys)
            } else {
                match spec_initialize(program_id, accounts[0].is_signer, accounts[1].address@) {
                    Ok(o) => Ok(ProcessView::Initialized(o)),
                    Err(e) => Err(e),
                }
            }
        },
        Some(
            InstructionView::CreateEscrow {
                amount,
                beneficiary,
                approver1,
                approver2,
                approver3,
                description,
            },
        ) => {
            if amount == 0 {
                Err(ProcessError::Escrow(EscrowError::InsufficientFunds))
            } else if description.len() > 200 {
                Err(ProcessError::InvalidInstructionData)
            } else if accounts.len() < 4 {
                Err(ProcessError::NotEnoughAccountKeys)
            } else if !accounts[0].is_signer {
                Err(ProcessError::MissingRequiredSignature)
            } else {
                match spec_parse_counter(accounts[2].data@) {
                    None => Err(ProcessError::BorshIo),
                    Some((count, _)) => match spec_create_escrow(
                        program_id,
                        accounts[0].address@,
                        accounts[0].is_signer,
                        accounts[1].address@,
                        count,
                        amount,
                        beneficiary,
                        approver1,
                        approver2,
                        approver3,
                        description,
                        now,
                    ) {
                        Ok(o) => Ok(ProcessView::Created(o)),
                        Err(e) => Err(e),
                    },
                }
            }
        },
        Some(InstructionView::ApproveRelease) => {
            if accounts.len() < 4 {
                Err(ProcessError::NotEnoughAccountKeys)
            } else if !accounts[0].is_signer {
                Err(ProcessError::MissingRequiredSignature)
            } else {
                match spec_parse_escrow(accounts[1].data@) {
                    None => Err(ProcessError::BorshIo),
                    Some((v, _)) => match spec_approve_release(
                        v,
                        accounts[0].address@,
                        accounts[0].is_signer,
                        accounts[1].address@,
                        accounts[2].address@,
                        now,
                    ) {
                        Ok(o) => Ok(ProcessView::Approved(o)),
                        Err(e) => Err(e),
                    },
                }
            }
        },
        Some(InstructionView::CancelEscrow) => {
            if accounts.len() < 3 {
                Err(ProcessError::NotEnoughAccountKeys)
            } else if !accounts[0].is_signer {
                Err(ProcessError::MissingRequiredSignature)
            } else {
                match spec_parse_escrow(accounts[1].data@) {
                    None => Err(ProcessError::BorshIo),
                    Some((v, _)) => match spec_cancel_escrow(
                        v,
                        accounts[0].address@,
                        accounts[0].is_signer,
                        accounts[1].address@,
                        now,
                    ) {
                        Ok(o) => Ok(ProcessView::Cancelled(o)),
                        Err(e) => Err(e),
                    },
                }
            }
        },
    }
}

} // verus!
