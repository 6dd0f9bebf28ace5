//! The durable records: the global escrow counter and one record per escrow,
//! together with the quorum rules over a record's approver set.

use vstd::prelude::*;

use crate::addr::Address;

verus! {

/// One escrow's durable record. Created once, mutated only by approval and
/// cancellation, then frozen.
#[derive(Debug)]
pub struct Escrow {
    pub id: u64,
    pub creator: Address,
    pub beneficiary: Address,
    pub amount: u64,
    pub approver1: Address,
    pub approver2: Address,
    pub approver3: Option<Address>,
    pub description: Vec<u8>,
    pub approvals: Vec<Address>,
    pub is_completed: bool,
    pub created_at: i64,
    pub completed_at: i64,
}

/// The mathematical value of an [`Escrow`]: every address as its byte
/// sequence, the approvals as the sequence of approving addresses in order.
#[verifier::ext_equal]
pub ghost struct EscrowView {
    pub id: u64,
    pub creator: Seq<u8>,
    pub beneficiary: Seq<u8>,
    pub amount: u64,
    pub approver1: Seq<u8>,
    pub approver2: Seq<u8>,
    pub approver3: Option<Seq<u8>>,
    pub description: Seq<u8>,
    pub approvals: Seq<Seq<u8>>,
    pub is_completed: bool,
    pub created_at: i64,
    pub completed_at: i64,
}

impl View for Escrow {
    type V = EscrowView;

    open spec fn view(&self) -> EscrowView {
        EscrowView {
            id: self.id,
            creator: self.creator@,
            beneficiary: self.beneficiary@,
            amount: self.amount,
            approver1: self.approver1@,
            approver2: self.approver2@,
            approver3: match self.approver3 {
                Some(a) => Some(a@),
                None => None,
            },
            description: self.description@,
            approvals: self.approvals@.map_values(|a: Address| a@),
            is_completed: self.is_completed,
            created_at: self.created_at,
            completed_at: self.completed_at,
        }
    }
}

impl EscrowView {
    /// Whether `a` occupies one of the record's approver slots.
    pub open spec fn spec_is_approver(self, a: Seq<u8>) -> bool {
        a == self.approver1 || a == self.approver2 || (self.approver3 matches Some(a3)
            && a == a3)
    }

    /// Whether `a` has already recorded an approval.
    pub open spec fn spec_has_approved(self, a: Seq<u8>) -> bool {
        self.approvals.contains(a)
    }

    /// The number of distinct addresses among the configured approver slots.
    pub open spec fn spec_total_approvers(self) -> int {
        match self.approver3 {
            None => if self.approver1 == self.approver2 {
                1
            } else {
                2
            },
            Some(a3) => if self.approver1 == self.approver2 && self.approver2 == a3 {
                1
            } else if self.approver1 == self.approver2 || self.approver1 == a3
                || self.approver2 == a3 {
                2
            } else {
                3
            },
        }
    }

    /// The quorum: 1 when only one distinct approver is configured, else 2,
    /// capped at 2 even with three distinct approvers.
    pub open spec fn spec_required_approvals(self) -> int {
        let unique = self.spec_total_approvers();
        if unique == 0 {
            0
        } else if unique == 1 {
            1
        } else {
            2
        }
    }

    /// Whether the record has reached quorum and is still open.
    pub open spec fn spec_can_be_released(self) -> bool {
        !self.is_completed && self.approvals.len() >= self.spec_required_approvals()
    }

    /// The set of configured approver addresses.
    pub open spec fn approver_set(self) -> Set<Seq<u8>> {
        match self.approver3 {
            None => set![self.approver1, self.approver2],
            Some(a3) => set![self.approver1, self.approver2, a3],
        }
    }

    /// The invariant of every reachable record: positive amount, bounded
    /// description, and approvals that are distinct configured approvers.
    pub open spec fn wf(self) -> bool {
        &&& self.amount > 0
        &&& self.description.len() <= 200
        &&& self.approvals.no_duplicates()
        &&& forall|i: int| 0 <= i < self.approvals.len() ==> self.spec_is_approver(
            #[trigger] self.approvals[i],
        )
        &&& self.approvals.len() <= 3
    }
}

impl Escrow {
    /// The fixed storage allocation of one record: sized for the worst case
    /// (third approver present, description at the cap, three approvals).
    pub const MAX_SIZE: usize = 8 + 32 + 32 + 8 + 32 + 32 + 1 + 32 + 4 + 200 + 4 + (32 * 3) + 1
        + 8 + 8;

    /// Whether `addr` occupies one of this record's approver slots.
    pub fn is_approver(&self, addr: &Address) -> (r: bool)
        ensures
            r == self@.spec_is_approver(addr@),
    {
        if self.approver1.eq_addr(addr) {
            return true;
        }
        if self.approver2.eq_addr(addr) {
            return true;
        }
        match &self.approver3 {
            Some(a3) => a3.eq_addr(addr),
            None => false,
        }
    }

    /// Whether `addr` has already recorded an approval on this record.
    pub fn has_approved(&self, addr: &Address) -> (r: bool)
        ensures
            r == self@.spec_has_approved(addr@),
    {
        let ghost view = self@.approvals;
        let mut i: usize = 0;
        while i < self.approvals.len()
            invariant
                i <= self.approvals.len(),
                view == self@.approvals,
                view.len() == self.approvals.len(),
                forall|j: int| 0 <= j < self.approvals.len() ==> view[j] == self.approvals@[j]@,
                forall|j: int| 0 <= j < i ==> view[j] != addr@,
            decreases self.approvals.len() - i,
        {
            if self.approvals[i].eq_addr(addr) {
                assert(view[i as int] == addr@);
                return true;
            }
            i += 1;
        }
        assert(forall|j: int| 0 <= j < view.len() ==> view[j] != addr@);
        false
    }

    /// The number of distinct addresses among the configured approver slots.
    pub fn total_approvers(&self) -> (r: usize)
        ensures
            r as int == self@.spec_total_approvers(),
    {
        let d12 = self.approver1.eq_addr(&self.approver2);
        match &self.approver3 {
            None => if d12 {
                1
            } else {
                2
            },
            Some(a3) => {
                let d13 = self.approver1.eq_addr(a3);
                let d23 = self.approver2.eq_addr(a3);
                if d12 && d23 {
                    1
                } else if d12 || d13 || d23 {
                    2
                } else {
                    3
                }
            },
        }
    }

    /// The quorum of distinct sign-offs needed to release the funds.
    pub fn required_approvals(&self) -> (r: usize)
        ensures
            r as int == self@.spec_required_approvals(),
    {
        let unique_approvers = self.total_approvers();
        match unique_approvers {
            0 => 0,
            1 => 1,
            2 => 2,
            _ => 2,
        }
    }

    /// Whether the record has reached quorum and is still open.
    pub fn can_be_released(&self) -> (r: bool)
        ensures
            r == self@.spec_can_be_released(),
    {
        !self.is_completed && self.approvals.len() >= self.required_approvals()
    }
}

/// Copies a byte vector element by element.
fn clone_bytes(v: &Vec<u8>) -> (r: Vec<u8>)
    ensures
        r@ == v@,
{
    let mut r: Vec<u8> = Vec::new();
    let mut i: usize = 0;
    while i < v.len()
        invariant
            i <= v.len(),
            r@ =~= v@.subrange(0, i as int),
        decreases v.len() - i,
    {
        r.push(v[i]);
        i += 1;
    }
    proof {
        assert(r@ =~= v@);
    }
    r
}

/// Copies an address vector element by element.
fn clone_addrs(v: &Vec<Address>) -> (r: Vec<Address>)
    ensures
        r@ == v@,
{
    let mut r: Vec<Address> = Vec::new();
    let mut i: usize = 0;
    while i < v.len()
        invariant
            i <= v.len(),
            r@ =~= v@.subrange(0, i as int),
        decreases v.len() - i,
    {
        r.push(v[i]);
        i += 1;
    }
    proof {
        assert(r@ =~= v@);
    }
    r
}

impl Clone for Escrow {
    /// A field-for-field copy with the same mathematical value.
    fn clone(&self) -> (res: Self)
        ensures
            res@ == self@,
    {
        let res = Escrow {
            id: self.id,
            creator: self.creator,
            beneficiary: self.beneficiary,
            amount: self.amount,
            approver1: self.approver1,
            approver2: self.approver2,
            approver3: self.approver3,
            description: clone_bytes(&self.description),
            approvals: clone_addrs(&self.approvals),
            is_completed: self.is_completed,
            created_at: self.created_at,
            completed_at: self.completed_at,
        };
        proof {
            assert(res@ =~~= self@);
        }
        res
    }
}

/// The global monotonic counter: the number of escrows ever created.
#[derive(Clone, Copy, Debug, PartialEq, Eq, Structural)]
pub struct EscrowCounter {
    pub count: u64,
}

impl EscrowCounter {
    /// The fixed storage allocation of the counter record.
    pub const SIZE: usize = 8;
}

} // verus!
