//! A multi-party fund-release escrow: a creator deposits value naming a
//! beneficiary and up to three approvers; release requires a quorum of
//! distinct approver sign-offs; the creator may cancel only before any
//! approval is recorded.

mod addr;
mod codec;
mod error;
mod instruction;
mod laws;
mod pda;
mod processor;
mod state;

pub use addr::Address;
pub use error::{EscrowError, ProcessError};
pub use instruction::{
    is_utf8, spec_is_utf8, spec_parse_instruction, EscrowInstruction, InstructionView,
};
pub use pda::{find_counter_address, find_escrow_address};
pub use laws::{
    lemma_approval_blocks_cancellation, lemma_approve_rejects_repeat,
    lemma_cancel_only_without_approvals, lemma_completed_record_is_terminal,
    lemma_escrow_ids_strictly_increase, lemma_quorum_capped,
};
pub use processor::{
    spec_approve_release, spec_cancel_escrow, spec_create_escrow, spec_initialize, spec_process,
    AccountInput, ApproveOutcome, ApproveView, CancelOutcome, CancelView, CreateOutcome,
    CreateView, InitOutcome, InitView, ProcessOutcome, ProcessView, Processor, Transfer,
    TransferView,
};
pub use codec::{
    deserialize_counter, deserialize_escrow, lemma_counter_round_trip, lemma_escrow_round_trip,
    serialize_counter, serialize_escrow, spec_encodable, spec_parse_counter, spec_parse_escrow,
    spec_ser_counter, spec_ser_escrow,
};
pub use state::{Escrow, EscrowCounter, EscrowView};
