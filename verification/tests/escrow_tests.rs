use escrow_program::{
    find_counter_address, find_escrow_address, Address, Escrow, EscrowCounter, EscrowError,
    ProcessError, Processor,
};

fn addr(b: u8) -> Address {
    Address { bytes: [b; 32] }
}

fn new_escrow(
    amount: u64,
    approver1: Address,
    approver2: Address,
    approver3: Option<Address>,
) -> Escrow {
    Escrow {
        id: 1,
        creator: addr(10),
        beneficiary: addr(11),
        amount,
        approver1,
        approver2,
        approver3,
        description: b"test escrow".to_vec(),
        approvals: Vec::new(),
        is_completed: false,
        created_at: 1_700_000_000,
        completed_at: 0,
    }
}

#[test]
fn quorum_one_distinct_approver_requires_one() {
    let e = new_escrow(1000, addr(1), addr(1), None);
    assert_eq!(e.total_approvers(), 1);
    assert_eq!(e.required_approvals(), 1);
}

#[test]
fn quorum_two_distinct_approvers_requires_two() {
    let e = new_escrow(1000, addr(1), addr(2), None);
    assert_eq!(e.total_approvers(), 2);
    assert_eq!(e.required_approvals(), 2);
}

#[test]
fn quorum_three_distinct_approvers_still_requires_two() {
    let e = new_escrow(1000, addr(1), addr(2), Some(addr(3)));
    assert_eq!(e.total_approvers(), 3);
    assert_eq!(e.required_approvals(), 2);
}

#[test]
fn quorum_duplicate_third_approver_counts_once() {
    let e = new_escrow(1000, addr(1), addr(2), Some(addr(1)));
    assert_eq!(e.total_approvers(), 2);
    assert_eq!(e.required_approvals(), 2);
    let e = new_escrow(1000, addr(1), addr(1), Some(addr(1)));
    assert_eq!(e.total_approvers(), 1);
    assert_eq!(e.required_approvals(), 1);
}

#[test]
fn approver_membership() {
    let e = new_escrow(1000, addr(1), addr(2), Some(addr(3)));
    assert!(e.is_approver(&addr(1)));
    assert!(e.is_approver(&addr(2)));
    assert!(e.is_approver(&addr(3)));
    assert!(!e.is_approver(&addr(4)));
    let e2 = new_escrow(1000, addr(1), addr(2), None);
    assert!(!e2.is_approver(&addr(3)));
}

#[test]
fn scenario_two_approvers_release_on_second_signoff() {
    let program_id = addr(200);
    let creator = addr(10);
    let beneficiary = addr(11);
    let counter = EscrowCounter { count: 0 };
    let (escrow_pda, _bump) = find_escrow_address(&program_id, 1).unwrap();
    let created = Processor::process_create_escrow(
        &program_id,
        &creator,
        true,
        &escrow_pda,
        &counter,
        1000,
        beneficiary,
        addr(1),
        addr(2),
        None,
        b"two approvers".to_vec(),
        1_700_000_000,
    )
    .unwrap();
    assert_eq!(created.counter.count, 1);
    assert_eq!(created.escrow.id, 1);
    assert_eq!(created.escrow.required_approvals(), 2);
    assert_eq!(created.transfer.lamports, 1000);
    assert_eq!(created.transfer.from.bytes, creator.bytes);
    assert_eq!(created.transfer.to.bytes, escrow_pda.bytes);

    let first = Processor::process_approve_release(
        &created.escrow,
        &addr(1),
        true,
        &escrow_pda,
        &beneficiary,
        1_700_000_100,
    )
    .unwrap();
    assert!(!first.escrow.is_completed);
    assert_eq!(first.escrow.approvals.len(), 1);
    assert_eq!(first.escrow.approvals[0].bytes, addr(1).bytes);
    assert!(first.transfer.is_none());

    let second = Processor::process_approve_release(
        &first.escrow,
        &addr(2),
        true,
        &escrow_pda,
        &beneficiary,
        1_700_000_200,
    )
    .unwrap();
    assert!(second.escrow.is_completed);
    assert_eq!(second.escrow.completed_at, 1_700_000_200);
    assert_eq!(second.escrow.approvals.len(), 2);
    let t = second.transfer.unwrap();
    assert_eq!(t.lamports, 1000);
    assert_eq!(t.from.bytes, escrow_pda.bytes);
    assert_eq!(t.to.bytes, beneficiary.bytes);
}

#[test]
fn scenario_same_approver_twice_releases_on_single_signoff() {
    let e = new_escrow(1000, addr(1), addr(1), None);
    assert_eq!(e.required_approvals(), 1);
    let outcome = Processor::process_approve_release(
        &e,
        &addr(1),
        true,
        &addr(20),
        &addr(11),
        1_700_000_100,
    )
    .unwrap();
    assert!(outcome.escrow.is_completed);
    assert_eq!(outcome.escrow.approvals.len(), 1);
    let t = outcome.transfer.unwrap();
    assert_eq!(t.lamports, 1000);
}

#[test]
fn scenario_cancel_before_any_approval_refunds_creator() {
    let e = new_escrow(500, addr(1), addr(2), None);
    let cancelled = Processor::process_cancel_escrow(
        &e,
        &addr(10),
        true,
        &addr(20),
        1_700_000_300,
    )
    .unwrap();
    assert!(cancelled.escrow.is_completed);
    assert_eq!(cancelled.escrow.completed_at, 1_700_000_300);
    assert_eq!(cancelled.transfer.lamports, 500);
    assert_eq!(cancelled.transfer.to.bytes, addr(10).bytes);

    let late = Processor::process_approve_release(
        &cancelled.escrow,
        &addr(1),
        true,
        &addr(20),
        &addr(11),
        1_700_000_400,
    );
    assert!(matches!(
        late,
        Err(ProcessError::Escrow(EscrowError::EscrowCompleted))
    ));
}

#[test]
fn scenario_cancel_after_approval_is_rejected() {
    let e = new_escrow(1000, addr(1), addr(2), None);
    let approved = Processor::process_approve_release(
        &e,
        &addr(1),
        true,
        &addr(20),
        &addr(11),
        1_700_000_100,
    )
    .unwrap();
    assert!(!approved.escrow.is_completed);
    let cancel = Processor::process_cancel_escrow(
        &approved.escrow,
        &addr(10),
        true,
        &addr(20),
        1_700_000_200,
    );
    assert!(matches!(
        cancel,
        Err(ProcessError::Escrow(EscrowError::CannotCancelAfterApprovals))
    ));
}

#[test]
fn repeated_approval_is_rejected_and_changes_nothing() {
    let e = new_escrow(1000, addr(1), addr(2), Some(addr(3)));
    let first = Processor::process_approve_release(
        &e,
        &addr(1),
        true,
        &addr(20),
        &addr(11),
        1_700_000_100,
    )
    .unwrap();
    assert!(!first.escrow.is_completed);
    let again = Processor::process_approve_release(
        &first.escrow,
        &addr(1),
        true,
        &addr(20),
        &addr(11),
        1_700_000_200,
    );
    assert!(matches!(
        again,
        Err(ProcessError::Escrow(EscrowError::AlreadyApproved))
    ));
}

#[test]
fn create_rejects_zero_amount() {
    let r = Processor::process_create_escrow(
        &addr(200),
        &addr(10),
        true,
        &addr(20),
        &EscrowCounter { count: 0 },
        0,
        addr(11),
        addr(1),
        addr(2),
        None,
        Vec::new(),
        0,
    );
    assert!(matches!(
        r,
        Err(ProcessError::Escrow(EscrowError::InsufficientFunds))
    ));
}

#[test]
fn create_rejects_long_description() {
    let r = Processor::process_create_escrow(
        &addr(200),
        &addr(10),
        true,
        &addr(20),
        &EscrowCounter { count: 0 },
        5,
        addr(11),
        addr(1),
        addr(2),
        None,
        vec![b'x'; 201],
        0,
    );
    assert!(matches!(r, Err(ProcessError::InvalidInstructionData)));
}

#[test]
fn create_rejects_missing_signature() {
    let r = Processor::process_create_escrow(
        &addr(200),
        &addr(10),
        false,
        &addr(20),
        &EscrowCounter { count: 0 },
        5,
        addr(11),
        addr(1),
        addr(2),
        None,
        Vec::new(),
        0,
    );
    assert!(matches!(r, Err(ProcessError::MissingRequiredSignature)));
}

#[test]
fn create_rejects_counter_overflow() {
    let r = Processor::process_create_escrow(
        &addr(200),
        &addr(10),
        true,
        &addr(20),
        &EscrowCounter { count: u64::MAX },
        5,
        addr(11),
        addr(1),
        addr(2),
        None,
        Vec::new(),
        0,
    );
    assert!(matches!(
        r,
        Err(ProcessError::Escrow(EscrowError::AmountOverflow))
    ));
}

#[test]
fn create_rejects_wrong_escrow_account() {
    let r = Processor::process_create_escrow(
        &addr(200),
        &addr(10),
        true,
        &addr(20),
        &EscrowCounter { count: 0 },
        5,
        addr(11),
        addr(1),
        addr(2),
        None,
        Vec::new(),
        0,
    );
    assert!(matches!(
        r,
        Err(ProcessError::Escrow(EscrowError::InvalidEscrowAccount))
    ));
}

#[test]
fn escrow_ids_increase_one_by_one() {
    let program_id = addr(200);
    let counter = EscrowCounter { count: 0 };
    let (pda1, _) = find_escrow_address(&program_id, 1).unwrap();
    let first = Processor::process_create_escrow(
        &program_id,
        &addr(10),
        true,
        &pda1,
        &counter,
        100,
        addr(11),
        addr(1),
        addr(2),
        None,
        Vec::new(),
        0,
    )
    .unwrap();
    assert_eq!(first.escrow.id, 1);
    let (pda2, _) = find_escrow_address(&program_id, 2).unwrap();
    let second = Processor::process_create_escrow(
        &program_id,
        &addr(10),
        true,
        &pda2,
        &first.counter,
        100,
        addr(11),
        addr(1),
        addr(2),
        None,
        Vec::new(),
        0,
    )
    .unwrap();
    assert_eq!(second.escrow.id, 2);
    assert!(second.escrow.id > first.escrow.id);
}

#[test]
fn approve_rejects_non_approver_and_missing_signature() {
    let e = new_escrow(1000, addr(1), addr(2), None);
    let r = Processor::process_approve_release(&e, &addr(9), true, &addr(20), &addr(11), 0);
    assert!(matches!(r, Err(ProcessError::Escrow(EscrowError::Unauthorized))));
    let r = Processor::process_approve_release(&e, &addr(1), false, &addr(20), &addr(11), 0);
    assert!(matches!(r, Err(ProcessError::MissingRequiredSignature)));
}

#[test]
fn cancel_rejects_wrong_creator() {
    let e = new_escrow(1000, addr(1), addr(2), None);
    let r = Processor::process_cancel_escrow(&e, &addr(99), true, &addr(20), 0);
    assert!(matches!(r, Err(ProcessError::Escrow(EscrowError::Unauthorized))));
}

#[test]
fn initialize_checks_counter_address() {
    let program_id = addr(200);
    let (counter_pda, bump) = find_counter_address(&program_id).unwrap();
    let ok = Processor::process_initialize(&program_id, &addr(10), true, &counter_pda).unwrap();
    assert_eq!(ok.counter.count, 0);
    assert_eq!(ok.bump, bump);

    let bad = Processor::process_initialize(&program_id, &addr(10), true, &addr(77));
    assert!(matches!(
        bad,
        Err(ProcessError::Escrow(EscrowError::InvalidCounterAccount))
    ));
    let unsigned = Processor::process_initialize(&program_id, &addr(10), false, &counter_pda);
    assert!(matches!(unsigned, Err(ProcessError::MissingRequiredSignature)));
}

#[test]
fn derived_addresses_are_deterministic_and_distinct() {
    let program_id = addr(200);
    let (c1, b1) = find_counter_address(&program_id).unwrap();
    let (c2, b2) = find_counter_address(&program_id).unwrap();
    assert_eq!(c1.bytes, c2.bytes);
    assert_eq!(b1, b2);
    assert_ne!(c1.bytes, program_id.bytes);
    let (e1, _) = find_escrow_address(&program_id, 1).unwrap();
    let (e2, _) = find_escrow_address(&program_id, 2).unwrap();
    assert_ne!(e1.bytes, e2.bytes);
    assert_ne!(e1.bytes, c1.bytes);
}

#[test]
fn error_codes_follow_declaration_order() {
    assert_eq!(EscrowError::InvalidInstruction.code(), 0);
    assert_eq!(EscrowError::NotRentExempt.code(), 1);
    assert_eq!(EscrowError::ExpectedAmountMismatch.code(), 2);
    assert_eq!(EscrowError::AmountOverflow.code(), 3);
    assert_eq!(EscrowError::Unauthorized.code(), 4);
    assert_eq!(EscrowError::EscrowCompleted.code(), 5);
    assert_eq!(EscrowError::InsufficientFunds.code(), 6);
    assert_eq!(EscrowError::AlreadyApproved.code(), 7);
    assert_eq!(EscrowError::CannotCancelAfterApprovals.code(), 8);
    assert_eq!(EscrowError::InvalidEscrowAccount.code(), 9);
    assert_eq!(EscrowError::InvalidCounterAccount.code(), 10);
}

#[test]
fn can_be_released_tracks_quorum() {
    let mut e = new_escrow(1000, addr(1), addr(2), None);
    assert!(!e.can_be_released());
    e.approvals.push(addr(1));
    assert!(!e.can_be_released());
    e.approvals.push(addr(2));
    assert!(e.can_be_released());
    e.is_completed = true;
    assert!(!e.can_be_released());
}

#[test]
fn has_approved_tracks_recorded_signoffs() {
    let mut e = new_escrow(1000, addr(1), addr(2), None);
    assert!(!e.has_approved(&addr(1)));
    e.approvals.push(addr(1));
    assert!(e.has_approved(&addr(1)));
    assert!(!e.has_approved(&addr(2)));
}
