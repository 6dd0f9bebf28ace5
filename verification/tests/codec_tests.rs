use escrow_program::{
    deserialize_counter, deserialize_escrow, find_counter_address, find_escrow_address, is_utf8,
    serialize_counter, serialize_escrow, AccountInput, Address, Escrow, EscrowCounter,
    EscrowError, EscrowInstruction, ProcessError, ProcessOutcome, Processor,
};

fn addr(b: u8) -> Address {
    Address { bytes: [b; 32] }
}

#[test]
fn counter_round_trip() {
    let c = EscrowCounter { count: 42 };
    let bytes = serialize_counter(&c);
    assert_eq!(bytes, 42u64.to_le_bytes().to_vec());
    let (back, used) = deserialize_counter(&bytes).unwrap();
    assert_eq!(back.count, 42);
    assert_eq!(used, 8);
}

#[test]
fn counter_reads_prefix_of_padded_allocation() {
    let mut bytes = serialize_counter(&EscrowCounter { count: 7 });
    bytes.extend_from_slice(&[0u8; 24]);
    let (back, used) = deserialize_counter(&bytes).unwrap();
    assert_eq!(back.count, 7);
    assert_eq!(used, 8);
    let short = vec![1u8; 7];
    assert!(deserialize_counter(&short).is_none());
}

fn assert_records_equal(a: &Escrow, b: &Escrow) {
    assert_eq!(a.id, b.id);
    assert_eq!(a.creator.bytes, b.creator.bytes);
    assert_eq!(a.beneficiary.bytes, b.beneficiary.bytes);
    assert_eq!(a.amount, b.amount);
    assert_eq!(a.approver1.bytes, b.approver1.bytes);
    assert_eq!(a.approver2.bytes, b.approver2.bytes);
    match (&a.approver3, &b.approver3) {
        (Some(x), Some(y)) => assert_eq!(x.bytes, y.bytes),
        (None, None) => {},
        _ => panic!("approver3 mismatch"),
    }
    assert_eq!(a.description, b.description);
    assert_eq!(a.approvals.len(), b.approvals.len());
    for i in 0..a.approvals.len() {
        assert_eq!(a.approvals[i].bytes, b.approvals[i].bytes);
    }
    assert_eq!(a.is_completed, b.is_completed);
    assert_eq!(a.created_at, b.created_at);
    assert_eq!(a.completed_at, b.completed_at);
}

#[test]
fn escrow_round_trip_without_third_approver_and_full_description() {
    let e = Escrow {
        id: 9,
        creator: addr(10),
        beneficiary: addr(11),
        amount: 123_456,
        approver1: addr(1),
        approver2: addr(2),
        approver3: None,
        description: vec![b'd'; 200],
        approvals: vec![addr(1)],
        is_completed: false,
        created_at: 1_700_000_000,
        completed_at: 0,
    };
    let bytes = serialize_escrow(&e);
    let (back, used) = deserialize_escrow(&bytes).unwrap();
    assert_eq!(used, bytes.len());
    assert_records_equal(&e, &back);
}

#[test]
fn escrow_round_trip_with_third_approver_and_padding() {
    let e = Escrow {
        id: u64::MAX,
        creator: addr(10),
        beneficiary: addr(11),
        amount: 1,
        approver1: addr(1),
        approver2: addr(2),
        approver3: Some(addr(3)),
        description: Vec::new(),
        approvals: vec![addr(3), addr(1)],
        is_completed: true,
        created_at: -5,
        completed_at: i64::MIN,
    };
    let mut bytes = serialize_escrow(&e);
    let written = bytes.len();
    bytes.resize(Escrow::MAX_SIZE, 0);
    let (back, used) = deserialize_escrow(&bytes).unwrap();
    assert_eq!(used, written);
    assert_records_equal(&e, &back);
}

#[test]
fn escrow_layout_matches_field_order() {
    let e = Escrow {
        id: 0x0102030405060708,
        creator: addr(10),
        beneficiary: addr(11),
        amount: 5,
        approver1: addr(1),
        approver2: addr(2),
        approver3: None,
        description: vec![b'h', b'i'],
        approvals: Vec::new(),
        is_completed: false,
        created_at: 0,
        completed_at: 0,
    };
    let bytes = serialize_escrow(&e);
    assert_eq!(&bytes[0..8], 0x0102030405060708u64.to_le_bytes().as_slice());
    assert_eq!(&bytes[8..40], [10u8; 32].as_slice());
    assert_eq!(&bytes[40..72], [11u8; 32].as_slice());
    assert_eq!(&bytes[72..80], 5u64.to_le_bytes().as_slice());
    assert_eq!(&bytes[80..112], [1u8; 32].as_slice());
    assert_eq!(&bytes[112..144], [2u8; 32].as_slice());
    assert_eq!(bytes[144], 0);
    assert_eq!(&bytes[145..149], 2u32.to_le_bytes().as_slice());
    assert_eq!(&bytes[149..151], b"hi".as_slice());
    assert_eq!(&bytes[151..155], 0u32.to_le_bytes().as_slice());
    assert_eq!(bytes[155], 0);
    assert_eq!(&bytes[156..164], 0u64.to_le_bytes().as_slice());
    assert_eq!(&bytes[164..172], 0u64.to_le_bytes().as_slice());
    assert_eq!(bytes.len(), 172);
}

#[test]
fn max_size_matches_worst_case_encoding() {
    let e = Escrow {
        id: 1,
        creator: addr(10),
        beneficiary: addr(11),
        amount: 5,
        approver1: addr(1),
        approver2: addr(2),
        approver3: Some(addr(3)),
        description: vec![b'd'; 200],
        approvals: vec![addr(1), addr(2), addr(3)],
        is_completed: true,
        created_at: 1,
        completed_at: 2,
    };
    let bytes = serialize_escrow(&e);
    assert_eq!(bytes.len(), Escrow::MAX_SIZE);
}

#[test]
fn escrow_rejects_truncated_and_bad_flag_bytes() {
    let e = Escrow {
        id: 1,
        creator: addr(10),
        beneficiary: addr(11),
        amount: 5,
        approver1: addr(1),
        approver2: addr(2),
        approver3: None,
        description: Vec::new(),
        approvals: Vec::new(),
        is_completed: false,
        created_at: 0,
        completed_at: 0,
    };
    let bytes = serialize_escrow(&e);
    let truncated = bytes[..bytes.len() - 1].to_vec();
    assert!(deserialize_escrow(&truncated).is_none());
    let mut bad_option = bytes.clone();
    bad_option[144] = 2;
    assert!(deserialize_escrow(&bad_option).is_none());
    let mut bad_bool = bytes.clone();
    bad_bool[151] = 7;
    assert!(deserialize_escrow(&bad_bool).is_none());
}

#[test]
fn utf8_checker_accepts_and_rejects() {
    assert!(is_utf8(&Vec::new()));
    assert!(is_utf8(&b"plain ascii".to_vec()));
    assert!(is_utf8(&"héllo wörld".as_bytes().to_vec()));
    assert!(is_utf8(&"日本語テキスト".as_bytes().to_vec()));
    assert!(is_utf8(&"🎉🎊".as_bytes().to_vec()));
    assert!(!is_utf8(&vec![0xFF]));
    assert!(!is_utf8(&vec![0xC0, 0xAF]));
    assert!(!is_utf8(&vec![0xED, 0xA0, 0x80]));
    assert!(!is_utf8(&vec![0xE2, 0x82]));
    assert!(!is_utf8(&vec![0xF5, 0x80, 0x80, 0x80]));
    assert!(!is_utf8(&vec![0x80]));
}

fn create_instruction_bytes(
    amount: u64,
    beneficiary: &Address,
    approver1: &Address,
    approver2: &Address,
    approver3: Option<&Address>,
    description: &[u8],
) -> Vec<u8> {
    let mut data = vec![1u8];
    data.extend_from_slice(&amount.to_le_bytes());
    data.extend_from_slice(&beneficiary.bytes);
    data.extend_from_slice(&approver1.bytes);
    data.extend_from_slice(&approver2.bytes);
    match approver3 {
        Some(a) => {
            data.push(1);
            data.extend_from_slice(&a.bytes);
        },
        None => data.push(0),
    }
    data.extend_from_slice(&(description.len() as u32).to_le_bytes());
    data.extend_from_slice(description);
    data
}

#[test]
fn unpack_decodes_each_instruction() {
    let ins = EscrowInstruction::unpack(&vec![0u8]).unwrap();
    assert!(matches!(ins, EscrowInstruction::Initialize));
    let ins = EscrowInstruction::unpack(&vec![2u8]).unwrap();
    assert!(matches!(ins, EscrowInstruction::ApproveRelease));
    let ins = EscrowInstruction::unpack(&vec![3u8]).unwrap();
    assert!(matches!(ins, EscrowInstruction::CancelEscrow));

    let data = create_instruction_bytes(77, &addr(11), &addr(1), &addr(2), Some(&addr(3)), b"hi");
    match EscrowInstruction::unpack(&data).unwrap() {
        EscrowInstruction::CreateEscrow {
            amount,
            beneficiary,
            approver1,
            approver2,
            approver3,
            description,
        } => {
            assert_eq!(amount, 77);
            assert_eq!(beneficiary.bytes, [11; 32]);
            assert_eq!(approver1.bytes, [1; 32]);
            assert_eq!(approver2.bytes, [2; 32]);
            assert_eq!(approver3.unwrap().bytes, [3; 32]);
            assert_eq!(description, b"hi".to_vec());
        },
        _ => panic!("wrong instruction"),
    }
}

#[test]
fn unpack_rejects_malformed_input() {
    assert!(matches!(
        EscrowInstruction::unpack(&Vec::new()),
        Err(ProcessError::InvalidInstructionData)
    ));
    assert!(matches!(
        EscrowInstruction::unpack(&vec![9u8]),
        Err(ProcessError::InvalidInstructionData)
    ));
    assert!(matches!(
        EscrowInstruction::unpack(&vec![0u8, 0u8]),
        Err(ProcessError::InvalidInstructionData)
    ));
    let mut data = create_instruction_bytes(7, &addr(11), &addr(1), &addr(2), None, b"ok");
    data.push(0);
    assert!(matches!(
        EscrowInstruction::unpack(&data),
        Err(ProcessError::InvalidInstructionData)
    ));
    let truncated = create_instruction_bytes(7, &addr(11), &addr(1), &addr(2), None, b"ok");
    assert!(matches!(
        EscrowInstruction::unpack(&truncated[..truncated.len() - 1].to_vec()),
        Err(ProcessError::InvalidInstructionData)
    ));
    let bad_utf8 = create_instruction_bytes(7, &addr(11), &addr(1), &addr(2), None, &[0xFF, 0xFE]);
    assert!(matches!(
        EscrowInstruction::unpack(&bad_utf8),
        Err(ProcessError::InvalidInstructionData)
    ));
}

#[test]
fn dispatcher_runs_a_full_lifecycle() {
    let program_id = addr(200);
    let creator = addr(10);
    let beneficiary = addr(11);

    let (counter_pda, _) = find_counter_address(&program_id).unwrap();
    let accounts = vec![
        AccountInput { address: creator, is_signer: true, data: Vec::new() },
        AccountInput { address: counter_pda, is_signer: false, data: Vec::new() },
        AccountInput { address: addr(0), is_signer: false, data: Vec::new() },
    ];
    let outcome = Processor::process(&program_id, &accounts, &vec![0u8], 100).unwrap();
    let counter = match outcome {
        ProcessOutcome::Initialized(o) => o.counter,
        _ => panic!("wrong outcome"),
    };
    assert_eq!(counter.count, 0);

    let (escrow_pda, _) = find_escrow_address(&program_id, 1).unwrap();
    let data = create_instruction_bytes(1000, &beneficiary, &addr(1), &addr(2), None, b"deal");
    let accounts = vec![
        AccountInput { address: creator, is_signer: true, data: Vec::new() },
        AccountInput { address: escrow_pda, is_signer: false, data: Vec::new() },
        AccountInput { address: counter_pda, is_signer: false, data: serialize_counter(&counter) },
        AccountInput { address: addr(0), is_signer: false, data: Vec::new() },
    ];
    let outcome = Processor::process(&program_id, &accounts, &data, 200).unwrap();
    let created = match outcome {
        ProcessOutcome::Created(o) => o,
        _ => panic!("wrong outcome"),
    };
    assert_eq!(created.counter.count, 1);
    assert_eq!(created.escrow.id, 1);
    assert_eq!(created.transfer.lamports, 1000);

    let accounts = vec![
        AccountInput { address: addr(1), is_signer: true, data: Vec::new() },
        AccountInput {
            address: escrow_pda,
            is_signer: false,
            data: serialize_escrow(&created.escrow),
        },
        AccountInput { address: beneficiary, is_signer: false, data: Vec::new() },
        AccountInput { address: addr(0), is_signer: false, data: Vec::new() },
    ];
    let outcome = Processor::process(&program_id, &accounts, &vec![2u8], 300).unwrap();
    let approved = match outcome {
        ProcessOutcome::Approved(o) => o,
        _ => panic!("wrong outcome"),
    };
    assert!(!approved.escrow.is_completed);
    assert!(approved.transfer.is_none());

    let accounts = vec![
        AccountInput { address: addr(2), is_signer: true, data: Vec::new() },
        AccountInput {
            address: escrow_pda,
            is_signer: false,
            data: serialize_escrow(&approved.escrow),
        },
        AccountInput { address: beneficiary, is_signer: false, data: Vec::new() },
        AccountInput { address: addr(0), is_signer: false, data: Vec::new() },
    ];
    let outcome = Processor::process(&program_id, &accounts, &vec![2u8], 400).unwrap();
    let released = match outcome {
        ProcessOutcome::Approved(o) => o,
        _ => panic!("wrong outcome"),
    };
    assert!(released.escrow.is_completed);
    let t = released.transfer.unwrap();
    assert_eq!(t.lamports, 1000);
    assert_eq!(t.to.bytes, beneficiary.bytes);
}

#[test]
fn dispatcher_reports_missing_accounts_and_bad_storage() {
    let program_id = addr(200);
    let r = Processor::process(&program_id, &Vec::new(), &vec![0u8], 0);
    assert!(matches!(r, Err(ProcessError::NotEnoughAccountKeys)));

    let data = create_instruction_bytes(5, &addr(11), &addr(1), &addr(2), None, b"");
    let accounts = vec![
        AccountInput { address: addr(10), is_signer: true, data: Vec::new() },
        AccountInput { address: addr(20), is_signer: false, data: Vec::new() },
        AccountInput { address: addr(21), is_signer: false, data: vec![1, 2, 3] },
        AccountInput { address: addr(0), is_signer: false, data: Vec::new() },
    ];
    let r = Processor::process(&program_id, &accounts, &data, 0);
    assert!(matches!(r, Err(ProcessError::BorshIo)));

    let accounts = vec![
        AccountInput { address: addr(1), is_signer: true, data: Vec::new() },
        AccountInput { address: addr(20), is_signer: false, data: vec![9u8; 4] },
        AccountInput { address: addr(11), is_signer: false, data: Vec::new() },
        AccountInput { address: addr(0), is_signer: false, data: Vec::new() },
    ];
    let r = Processor::process(&program_id, &accounts, &vec![2u8], 0);
    assert!(matches!(r, Err(ProcessError::BorshIo)));

    let r = Processor::process(&program_id, &accounts, &vec![8u8], 0);
    assert!(matches!(r, Err(ProcessError::InvalidInstructionData)));
}

#[test]
fn dispatcher_rejects_unauthorized_cancel() {
    let program_id = addr(200);
    let e = Escrow {
        id: 1,
        creator: addr(10),
        beneficiary: addr(11),
        amount: 5,
        approver1: addr(1),
        approver2: addr(2),
        approver3: None,
        description: Vec::new(),
        approvals: Vec::new(),
        is_completed: false,
        created_at: 0,
        completed_at: 0,
    };
    let accounts = vec![
        AccountInput { address: addr(99), is_signer: true, data: Vec::new() },
        AccountInput { address: addr(20), is_signer: false, data: serialize_escrow(&e) },
        AccountInput { address: addr(0), is_signer: false, data: Vec::new() },
    ];
    let r = Processor::process(&program_id, &accounts, &vec![3u8], 0);
    assert!(matches!(r, Err(ProcessError::Escrow(EscrowError::Unauthorized))));
}
