//! The wire instructions: a one-byte discriminant, then the fields in
//! declaration order. The whole input must be consumed, and a description
//! must be valid UTF-8, exactly as the standard text decoding demands.

use vstd::prelude::*;

use crate::addr::Address;
use crate::codec::{
    parse_addr_at, parse_byte_at, parse_bytes_at, parse_opt_addr_at, parse_u64_at, spec_parse_addr,
    spec_parse_byte, spec_parse_bytes, spec_parse_opt_addr, spec_parse_u64,
};
use crate::error::ProcessError;

verus! {

/// Whether `b` is a UTF-8 continuation byte.
pub open spec fn spec_is_cont(b: u8) -> bool {
    0x80 <= b < 0xC0
}

/// Whether the bytes of `s` from `i` on are a well-formed UTF-8 sequence:
/// the shortest-form encodings of scalar values up to 0x10FFFF, surrogates
/// excluded.
pub open spec fn spec_is_utf8_from(s: Seq<u8>, i: int) -> bool
    decreases s.len() - i,
{
    if i < 0 || i >= s.len() {
        true
    } else {
        let b0 = s[i];
        if b0 < 0x80 {
            spec_is_utf8_from(s, i + 1)
        } else if 0xC2 <= b0 <= 0xDF {
            i + 2 <= s.len() && spec_is_cont(s[i + 1]) && spec_is_utf8_from(s, i + 2)
        } else if b0 == 0xE0 {
            i + 3 <= s.len() && 0xA0 <= s[i + 1] <= 0xBF && spec_is_cont(s[i + 2])
                && spec_is_utf8_from(s, i + 3)
        } else if 0xE1 <= b0 <= 0xEC || 0xEE <= b0 <= 0xEF {
            i + 3 <= s.len() && spec_is_cont(s[i + 1]) && spec_is_cont(s[i + 2])
                && spec_is_utf8_from(s, i + 3)
        } else if b0 == 0xED {
            i + 3 <= s.len() && 0x80 <= s[i + 1] <= 0x9F && spec_is_cont(s[i + 2])
                && spec_is_utf8_from(s, i + 3)
        } else if b0 == 0xF0 {
            i + 4 <= s.len() && 0x90 <= s[i + 1] <= 0xBF && spec_is_cont(s[i + 2]) && spec_is_cont(
                s[i + 3],
            ) && spec_is_utf8_from(s, i + 4)
        } else if 0xF1 <= b0 <= 0xF3 {
            i + 4 <= s.len() && spec_is_cont(s[i + 1]) && spec_is_cont(s[i + 2]) && spec_is_cont(
                s[i + 3],
            ) && spec_is_utf8_from(s, i + 4)
        } else if b0 == 0xF4 {
            i + 4 <= s.len() && 0x80 <= s[i + 1] <= 0x8F && spec_is_cont(s[i + 2]) && spec_is_cont(
                s[i + 3],
            ) && spec_is_utf8_from(s, i + 4)
        } else {
            false
        }
    }
}

/// Whether `s` is a well-formed UTF-8 sequence.
pub open spec fn spec_is_utf8(s: Seq<u8>) -> bool {
    spec_is_utf8_from(s, 0)
}

/// Checks whether `v` is well-formed UTF-8.
pub fn is_utf8(v: &Vec<u8>) -> (r: bool)
    ensures
        r == spec_is_utf8(v@),
{
    let n = v.len();
    let mut i: usize = 0;
    while i < n
        invariant
            i <= n,
            n == v.len(),
            spec_is_utf8(v@) == spec_is_utf8_from(v@, i as int),
        decreases n - i,
    {
        let b0 = v[i];
        if b0 < 0x80 {
            i += 1;
        } else if 0xC2 <= b0 && b0 <= 0xDF {
            if n - i < 2 || !(0x80 <= v[i + 1] && v[i + 1] < 0xC0) {
                return false;
            }
            i += 2;
        } else if b0 == 0xE0 {
            if n - i < 3 || !(0xA0 <= v[i + 1] && v[i + 1] <= 0xBF) || !(0x80 <= v[i + 2] && v[i
                + 2] < 0xC0) {
                return false;
            }
            i += 3;
        } else if (0xE1 <= b0 && b0 <= 0xEC) || (0xEE <= b0 && b0 <= 0xEF) {
            if n - i < 3 || !(0x80 <= v[i + 1] && v[i + 1] < 0xC0) || !(0x80 <= v[i + 2] && v[i
                + 2] < 0xC0) {
                return false;
            }
            i += 3;
        } else if b0 == 0xED {
            if n - i < 3 || !(0x80 <= v[i + 1] && v[i + 1] <= 0x9F) || !(0x80 <= v[i + 2] && v[i
                + 2] < 0xC0) {
                return false;
            }
            i += 3;
        } else if b0 == 0xF0 {
            if n - i < 4 || !(0x90 <= v[i + 1] && v[i + 1] <= 0xBF) || !(0x80 <= v[i + 2] && v[i
                + 2] < 0xC0) || !(0x80 <= v[i + 3] && v[i + 3] < 0xC0) {
                return false;
            }
            i += 4;
        } else if 0xF1 <= b0 && b0 <= 0xF3 {
            if n - i < 4 || !(0x80 <= v[i + 1] && v[i + 1] < 0xC0) || !(0x80 <= v[i + 2] && v[i
                + 2] < 0xC0) || !(0x80 <= v[i + 3] && v[i + 3] < 0xC0) {
                return false;
            }
            i += 4;
        } else if b0 == 0xF4 {
            if n - i < 4 || !(0x80 <= v[i + 1] && v[i + 1] <= 0x8F) || !(0x80 <= v[i + 2] && v[i
                + 2] < 0xC0) || !(0x80 <= v[i + 3] && v[i + 3] < 0xC0) {
                return false;
            }
            i += 4;
        } else {
            return false;
        }
    }
    true
}

/// One decoded wire instruction.
#[derive(Debug)]
pub enum EscrowInstruction {
    /// Create the global counter record.
    Initialize,
    /// Create a new escrow holding `amount` for `beneficiary`, to be
    /// released on the approvers' quorum.
    CreateEscrow {
        amount: u64,
        beneficiary: Address,
        approver1: Address,
        approver2: Address,
        approver3: Option<Address>,
        description: Vec<u8>,
    },
    /// Record one approver's sign-off, releasing the funds at quorum.
    ApproveRelease,
    /// Cancel an escrow that has no approvals and refund the creator.
    CancelEscrow,
}

/// The mathematical value of an [`EscrowInstruction`].
#[verifier::ext_equal]
pub ghost enum InstructionView {
    Initialize,
    CreateEscrow {
        amount: u64,
        beneficiary: Seq<u8>,
        approver1: Seq<u8>,
        approver2: Seq<u8>,
        approver3: Option<Seq<u8>>,
        description: Seq<u8>,
    },
    ApproveRelease,
    CancelEscrow,
}

impl View for EscrowInstruction {
    type V = InstructionView;

    open spec fn view(&self) -> InstructionView {
        match self {
            EscrowInstruction::Initialize => InstructionView::Initialize,
            EscrowInstruction::CreateEscrow {
                amount,
                beneficiary,
                approver1,
                approver2,
                approver3,
                description,
            } => InstructionView::CreateEscrow {
                amount: *amount,
                beneficiary: beneficiary@,
                approver1: approver1@,
                approver2: approver2@,
                approver3: match approver3 {
                    Some(a) => Some(a@),
                    None => None,
                },
                description: description@,
            },
            EscrowInstruction::ApproveRelease => InstructionView::ApproveRelease,
            EscrowInstruction::CancelEscrow => InstructionView::CancelEscrow,
        }
    }
}

/// What decoding a wire instruction yields: the tagged payload when the
/// input is exactly one well-formed instruction, nothing otherwise.
pub open spec fn spec_parse_instruction(s: Seq<u8>) -> Option<InstructionView> {
    match spec_parse_byte(s, 0) {
        Some((tag, p0)) => if tag == 0 {
            if s.len() == p0 {
                Some(InstructionView::Initialize)
            } else {
                None
            }
        } else if tag == 1 {
            match spec_parse_u64(s, p0) {
                Some((amount, p1)) => match spec_parse_addr(s, p1) {
                    Some((beneficiary, p2)) => match spec_parse_addr(s, p2) {
                        Some((approver1, p3)) => match spec_parse_addr(s, p3) {
                            Some((approver2, p4)) => match spec_parse_opt_addr(s, p4) {
                                Some((approver3, p5)) => match spec_parse_bytes(s, p5) {
                                    Some((description, p6)) => if s.len() == p6 && spec_is_utf8(
                                        description,
                                    ) {
                                        Some(
                                            InstructionView::CreateEscrow {
                                                amount,
                                                beneficiary,
                                                approver1,
                                                approver2,
                                                approver3,
                                                description,
                                            },
                                        )
                                    } else {
                                        None
                                    },
                                    None => None,
                                },
                                None => None,
                            },
                            None => None,
                        },
                        None => None,
                    },
                    None => None,
                },
                None => None,
            }
        } else if tag == 2 {
            if s.len() == p0 {
                Some(InstructionView::ApproveRelease)
            } else {
                None
            }
        } else if tag == 3 {
            if s.len() == p0 {
                Some(InstructionView::CancelEscrow)
            } else {
                None
            }
        } else {
            None
        },
        None => None,
    }
}

impl EscrowInstruction {
    /// Decodes one wire instruction; every malformed input — short, overlong,
    /// unknown tag, or a description that is not UTF-8 — is rejected as
    /// invalid instruction data.
    pub fn unpack(input: &Vec<u8>) -> (r: Result<EscrowInstruction, ProcessError>)
        ensures
            match r {
                Ok(ins) => spec_parse_instruction(input@) == Some(ins@),
                Err(e) => e == ProcessError::InvalidInstructionData && spec_parse_instruction(
                    input@,
                ) is None,
            },
    {
        let r0 = parse_byte_at(input, 0);
        let (tag, p0) = match r0 {
            Some(x) => x,
            None => {
                return Err(ProcessError::InvalidInstructionData);
            },
        };
        if tag == 0 {
            if input.len() == p0 {
                Ok(EscrowInstruction::Initialize)
            } else {
                Err(ProcessError::InvalidInstructionData)
            }
        } else if tag == 1 {
            let r1 = parse_u64_at(input, p0);
            let (amount, p1) = match r1 {
                Some(x) => x,
                None => {
                    return Err(ProcessError::InvalidInstructionData);
                },
            };
            let r2 = parse_addr_at(input, p1);
            let (beneficiary, p2) = match r2 {
                Some(x) => x,
                None => {
                    return Err(ProcessError::InvalidInstructionData);
                },
            };
            let r3 = parse_addr_at(input, p2);
            let (approver1, p3) = match r3 {
                Some(x) => x,
                None => {
                    return Err(ProcessError::InvalidInstructionData);
                },
            };
            let r4 = parse_addr_at(input, p3);
            let (approver2, p4) = match r4 {
                Some(x) => x,
                None => {
                    return Err(ProcessError::InvalidInstructionData);
                },
            };
            let r5 = parse_opt_addr_at(input, p4);
            let (approver3, p5) = match r5 {
                Some(x) => x,
                None => {
                    return Err(ProcessError::InvalidInstructionData);
                },
            };
            let r6 = parse_bytes_at(input, p5);
            let (description, p6) = match r6 {
                Some(x) => x,
                None => {
                    return Err(ProcessError::InvalidInstructionData);
                },
            };
            if input.len() != p6 {
                return Err(ProcessError::InvalidInstructionData);
            }
            if !is_utf8(&description) {
                return Err(ProcessError::InvalidInstructionData);
            }
            let ins = EscrowInstruction::CreateEscrow {
                amount,
                beneficiary,
                approver1,
                approver2,
                approver3,
                description,
            };
            proof {
                assert(spec_parse_instruction(input@) matches Some(v) && v =~~= ins@);
            }
            Ok(ins)
        } else if tag == 2 {
            if input.len() == p0 {
                Ok(EscrowInstruction::ApproveRelease)
            } else {
                Err(ProcessError::InvalidInstructionData)
            }
        } else if tag == 3 {
            if input.len() == p0 {
                Ok(EscrowInstruction::CancelEscrow)
            } else {
                Err(ProcessError::InvalidInstructionData)
            }
        } else {
            Err(ProcessError::InvalidInstructionData)
        }
    }
}

} // verus!
