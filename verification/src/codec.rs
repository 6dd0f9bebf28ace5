//! The wire and storage encoding: fixed-width little-endian integers, raw
//! 32-byte addresses, presence-flagged optional addresses, length-prefixed
//! byte strings and lists, one byte per bool. Records are read from a
//! fixed-capacity allocation, so a parse accepts trailing bytes and reports
//! how many bytes it consumed.

use vstd::bytes::{
    spec_u32_from_le_bytes, spec_u32_to_le_bytes, spec_u64_from_le_bytes, spec_u64_to_le_bytes,
    u32_from_le_bytes, u32_to_le_bytes, u64_from_le_bytes, u64_to_le_bytes,
};
use vstd::prelude::*;

use crate::addr::Address;
use crate::state::{Escrow, EscrowCounter, EscrowView};

verus! {

/// The encoding of an optional address: a presence byte, then the address.
pub open spec fn spec_ser_opt_addr(o: Option<Seq<u8>>) -> Seq<u8> {
    match o {
        None => seq![0u8],
        Some(a) => seq![1u8] + a,
    }
}

/// The encoding of a byte string: a 4-byte length, then the bytes.
pub open spec fn spec_ser_bytes(b: Seq<u8>) -> Seq<u8> {
    spec_u32_to_le_bytes(b.len() as u32) + b
}

/// The encoding of the addresses of a list, back to back.
pub open spec fn spec_ser_addr_list(v: Seq<Seq<u8>>) -> Seq<u8>
    decreases v.len(),
{
    if v.len() == 0 {
        Seq::empty()
    } else {
        v[0] + spec_ser_addr_list(v.drop_first())
    }
}

/// The encoding of an address list: a 4-byte count, then the addresses.
pub open spec fn spec_ser_addrs(v: Seq<Seq<u8>>) -> Seq<u8> {
    spec_u32_to_le_bytes(v.len() as u32) + spec_ser_addr_list(v)
}

/// The encoding of a bool: one byte, 1 for true and 0 for false.
pub open spec fn spec_ser_bool(b: bool) -> Seq<u8> {
    seq![if b { 1u8 } else { 0u8 }]
}

/// The encoding of a signed 64-bit value: its two's-complement bits,
/// little-endian.
pub open spec fn spec_ser_i64(x: i64) -> Seq<u8> {
    spec_u64_to_le_bytes(x as u64)
}

/// The encoding of the counter record.
pub open spec fn spec_ser_counter(count: u64) -> Seq<u8> {
    spec_u64_to_le_bytes(count)
}

/// The encoding of an escrow record: every field in declaration order.
pub open spec fn spec_ser_escrow(v: EscrowView) -> Seq<u8> {
    spec_u64_to_le_bytes(v.id) + v.creator + v.beneficiary + spec_u64_to_le_bytes(v.amount)
        + v.approver1 + v.approver2 + spec_ser_opt_addr(v.approver3) + spec_ser_bytes(v.description)
        + spec_ser_addrs(v.approvals) + spec_ser_bool(v.is_completed) + spec_ser_i64(v.created_at)
        + spec_ser_i64(v.completed_at)
}

/// Whether a view fits the encoding: addresses 32 bytes, lengths within a
/// 4-byte prefix.
pub open spec fn spec_encodable(v: EscrowView) -> bool {
    &&& v.creator.len() == 32
    &&& v.beneficiary.len() == 32
    &&& v.approver1.len() == 32
    &&& v.approver2.len() == 32
    &&& (v.approver3 matches Some(a) ==> a.len() == 32)
    &&& v.description.len() <= u32::MAX
    &&& v.approvals.len() <= u32::MAX
    &&& forall|i: int| 0 <= i < v.approvals.len() ==> (#[trigger] v.approvals[i]).len() == 32
}

/// Reading one byte at `pos`.
pub open spec fn spec_parse_byte(s: Seq<u8>, pos: int) -> Option<(u8, int)> {
    if 0 <= pos && pos + 1 <= s.len() {
        Some((s[pos], pos + 1))
    } else {
        None
    }
}

/// Reading a little-endian u32 at `pos`.
pub open spec fn spec_parse_u32(s: Seq<u8>, pos: int) -> Option<(u32, int)> {
    if 0 <= pos && pos + 4 <= s.len() {
        Some((spec_u32_from_le_bytes(s.subrange(pos, pos + 4)), pos + 4))
    } else {
        None
    }
}

/// Reading a little-endian u64 at `pos`.
pub open spec fn spec_parse_u64(s: Seq<u8>, pos: int) -> Option<(u64, int)> {
    if 0 <= pos && pos + 8 <= s.len() {
        Some((spec_u64_from_le_bytes(s.subrange(pos, pos + 8)), pos + 8))
    } else {
        None
    }
}

/// Reading a signed 64-bit value at `pos`.
pub open spec fn spec_parse_i64(s: Seq<u8>, pos: int) -> Option<(i64, int)> {
    match spec_parse_u64(s, pos) {
        Some((x, p)) => Some((x as i64, p)),
        None => None,
    }
}

/// Reading a 32-byte address at `pos`.
pub open spec fn spec_parse_addr(s: Seq<u8>, pos: int) -> Option<(Seq<u8>, int)> {
    if 0 <= pos && pos + 32 <= s.len() {
        Some((s.subrange(pos, pos + 32), pos + 32))
    } else {
        None
    }
}

/// Reading an optional address at `pos`: the presence byte must be 0 or 1.
pub open spec fn spec_parse_opt_addr(s: Seq<u8>, pos: int) -> Option<(Option<Seq<u8>>, int)> {
    match spec_parse_byte(s, pos) {
        Some((tag, p)) => if tag == 0 {
            Some((None, p))
        } else if tag == 1 {
            match spec_parse_addr(s, p) {
                Some((a, p2)) => Some((Some(a), p2)),
                None => None,
            }
        } else {
            None
        },
        None => None,
    }
}

/// Reading a length-prefixed byte string at `pos`.
pub open spec fn spec_parse_bytes(s: Seq<u8>, pos: int) -> Option<(Seq<u8>, int)> {
    match spec_parse_u32(s, pos) {
        Some((n, p)) => if p + n <= s.len() {
            Some((s.subrange(p, p + n), p + n))
        } else {
            None
        },
        None => None,
    }
}

/// Reading `n` addresses back to back at `pos`.
pub open spec fn spec_parse_addr_list(s: Seq<u8>, pos: int, n: int) -> Option<
    (Seq<Seq<u8>>, int),
>
    decreases n,
{
    if n <= 0 {
        Some((Seq::empty(), pos))
    } else {
        match spec_parse_addr(s, pos) {
            Some((a, p)) => match spec_parse_addr_list(s, p, n - 1) {
                Some((l, e)) => Some((seq![a] + l, e)),
                None => None,
            },
            None => None,
        }
    }
}

/// Reading a count-prefixed address list at `pos`.
pub open spec fn spec_parse_addrs(s: Seq<u8>, pos: int) -> Option<(Seq<Seq<u8>>, int)> {
    match spec_parse_u32(s, pos) {
        Some((n, p)) => spec_parse_addr_list(s, p, n as int),
        None => None,
    }
}

/// Reading a bool at `pos`: the byte must be 0 or 1.
pub open spec fn spec_parse_bool(s: Seq<u8>, pos: int) -> Option<(bool, int)> {
    match spec_parse_byte(s, pos) {
        Some((tag, p)) => if tag == 0 {
            Some((false, p))
        } else if tag == 1 {
            Some((true, p))
        } else {
            None
        },
        None => None,
    }
}

/// Reading the counter record from the head of `s`.
pub open spec fn spec_parse_counter(s: Seq<u8>) -> Option<(u64, int)> {
    spec_parse_u64(s, 0)
}

/// Reading an escrow record from the head of `s`: every field in
/// declaration order; trailing bytes stay unread.
pub open spec fn spec_parse_escrow(s: Seq<u8>) -> Option<(EscrowView, int)> {
    match spec_parse_u64(s, 0) {
        Some((id, p1)) => match spec_parse_addr(s, p1) {
            Some((creator, p2)) => match spec_parse_addr(s, p2) {
                Some((beneficiary, p3)) => match spec_parse_u64(s, p3) {
                    Some((amount, p4)) => match spec_parse_addr(s, p4) {
                        Some((approver1, p5)) => match spec_parse_addr(s, p5) {
                            Some((approver2, p6)) => match spec_parse_opt_addr(s, p6) {
                                Some((approver3, p7)) => match spec_parse_bytes(s, p7) {
                                    Some((description, p8)) => match spec_parse_addrs(s, p8) {
                                        Some((approvals, p9)) => match spec_parse_bool(s, p9) {
                                            Some((is_completed, p10)) => match spec_parse_i64(
                                                s,
                                                p10,
                                            ) {
                                                Some((created_at, p11)) => match spec_parse_i64(
                                                    s,
                                                    p11,
                                                ) {
                                                    Some((completed_at, p12)) => Some(
                                                        (
                                                            EscrowView {
                                                                id,
                                                                creator,
                                                                beneficiary,
                                                                amount,
                                                                approver1,
                                                                approver2,
                                                                approver3,
                                                                description,
                                                                approvals,
                                                                is_completed,
                                                                created_at,
                                                                completed_at,
                                                            },
                                                            p12,
                                                        ),
                                                    ),
                                                    None => None,
                                                },
                                                None => None,
                                            },
                                            None => None,
                                        },
                                        None => None,
                                    },
                                    None => None,
                                },
                                None => None,
                            },
                            None => None,
                        },
                        None => None,
                    },
                    None => None,
                },
                None => None,
            },
            None => None,
        },
        None => None,
    }
}

/// Appends `src` to `dst`.
pub fn append_bytes(dst: &mut Vec<u8>, src: &Vec<u8>)
    ensures
        final(dst)@ == old(dst)@ + src@,
{
    let mut i: usize = 0;
    while i < src.len()
        invariant
            i <= src.len(),
            dst@ =~= old(dst)@ + src@.subrange(0, i as int),
        decreases src.len() - i,
    {
        dst.push(src[i]);
        i += 1;
    }
    proof {
        assert(dst@ =~= old(dst)@ + src@);
    }
}

/// Appends an address's 32 bytes to `dst`.
pub fn append_addr(dst: &mut Vec<u8>, a: &Address)
    ensures
        final(dst)@ == old(dst)@ + a@,
{
    let mut i: usize = 0;
    while i < 32
        invariant
            i <= 32,
            dst@ =~= old(dst)@ + a@.subrange(0, i as int),
        decreases 32 - i,
    {
        dst.push(a.bytes[i]);
        i += 1;
    }
    proof {
        assert(dst@ =~= old(dst)@ + a@);
    }
}

/// Appends a little-endian u64 to `dst`.
pub fn append_u64(dst: &mut Vec<u8>, x: u64)
    ensures
        final(dst)@ == old(dst)@ + spec_u64_to_le_bytes(x),
{
    let b = u64_to_le_bytes(x);
    append_bytes(dst, &b);
}

/// Appends a little-endian u32 to `dst`.
pub fn append_u32(dst: &mut Vec<u8>, x: u32)
    ensures
        final(dst)@ == old(dst)@ + spec_u32_to_le_bytes(x),
{
    let b = u32_to_le_bytes(x);
    append_bytes(dst, &b);
}

/// The encoded counter record.
pub fn serialize_counter(c: &EscrowCounter) -> (r: Vec<u8>)
    ensures
        r@ == spec_ser_counter(c.count),
        r@.len() == 8,
{
    u64_to_le_bytes(c.count)
}

/// The encoded escrow record.
pub fn serialize_escrow(e: &Escrow) -> (r: Vec<u8>)
    requires
        e@.description.len() <= u32::MAX,
        e@.approvals.len() <= u32::MAX,
    ensures
        r@ == spec_ser_escrow(e@),
{
    let mut out: Vec<u8> = Vec::new();
    append_u64(&mut out, e.id);
    append_addr(&mut out, &e.creator);
    append_addr(&mut out, &e.beneficiary);
    append_u64(&mut out, e.amount);
    append_addr(&mut out, &e.approver1);
    append_addr(&mut out, &e.approver2);
    match &e.approver3 {
        None => out.push(0),
        Some(a) => {
            out.push(1);
            append_addr(&mut out, a);
            proof {
                assert(seq![1u8] + a@ =~= spec_ser_opt_addr(e@.approver3));
            }
        },
    }
    let ghost head7 = out@;
    append_u32(&mut out, e.description.len() as u32);
    append_bytes(&mut out, &e.description);
    proof {
        assert(out@ =~= head7 + spec_ser_bytes(e@.description));
    }
    let ghost head8 = out@;
    append_u32(&mut out, e.approvals.len() as u32);
    let mut i: usize = 0;
    while i < e.approvals.len()
        invariant
            i <= e.approvals.len(),
            e@.approvals.len() == e.approvals.len(),
            forall|j: int| 0 <= j < e.approvals.len() ==> e@.approvals[j] == e.approvals@[j]@,
            out@ =~= head8 + spec_u32_to_le_bytes(e.approvals.len() as u32) + spec_ser_addr_list(
                e@.approvals.subrange(0, i as int),
            ),
        decreases e.approvals.len() - i,
    {
        let ghost pre = out@;
        append_addr(&mut out, &e.approvals[i]);
        proof {
            let sub_next = e@.approvals.subrange(0, i + 1);
            lemma_ser_addr_list_snoc(e@.approvals.subrange(0, i as int), e@.approvals[i as int]);
            assert(e@.approvals.subrange(0, i as int).push(e@.approvals[i as int]) =~= sub_next);
            assert(out@ =~= head8 + spec_u32_to_le_bytes(e.approvals.len() as u32)
                + spec_ser_addr_list(sub_next));
        }
        i += 1;
    }
    proof {
        assert(e@.approvals.subrange(0, e@.approvals.len() as int) =~= e@.approvals);
        assert(out@ =~= head8 + spec_ser_addrs(e@.approvals));
    }
    let ghost head9 = out@;
    if e.is_completed {
        out.push(1);
    } else {
        out.push(0);
    }
    proof {
        assert(out@ =~= head9 + spec_ser_bool(e@.is_completed));
    }
    append_u64(&mut out, e.created_at as u64);
    append_u64(&mut out, e.completed_at as u64);
    proof {
        assert(out@ =~= spec_ser_escrow(e@));
    }
    out
}

/// The length of an address list's encoding: 32 bytes per address.
pub proof fn lemma_ser_addr_list_len(v: Seq<Seq<u8>>)
    requires
        forall|i: int| 0 <= i < v.len() ==> (#[trigger] v[i]).len() == 32,
    ensures
        spec_ser_addr_list(v).len() == 32 * v.len(),
    decreases v.len(),
{
    if v.len() == 0 {
    } else {
        assert(forall|i: int| 0 <= i < v.drop_first().len() ==> (#[trigger] v.drop_first()[i]).len()
            == 32);
        lemma_ser_addr_list_len(v.drop_first());
    }
}

/// Where each address sits inside the list's encoding.
proof fn lemma_ser_addr_list_index(v: Seq<Seq<u8>>, i: int)
    requires
        forall|k: int| 0 <= k < v.len() ==> (#[trigger] v[k]).len() == 32,
        0 <= i < v.len(),
    ensures
        spec_ser_addr_list(v).subrange(32 * i, 32 * i + 32) == v[i],
    decreases i,
{
    lemma_ser_addr_list_len(v);
    if i == 0 {
        assert(spec_ser_addr_list(v).subrange(0, 32) =~= v[0]);
    } else {
        assert(forall|k: int| 0 <= k < v.drop_first().len() ==> (#[trigger] v.drop_first()[k]).len()
            == 32);
        lemma_ser_addr_list_index(v.drop_first(), i - 1);
        lemma_ser_addr_list_len(v.drop_first());
        assert(spec_ser_addr_list(v).subrange(32 * i, 32 * i + 32) =~= spec_ser_addr_list(
            v.drop_first(),
        ).subrange(32 * (i - 1), 32 * (i - 1) + 32));
        assert(v.drop_first()[i - 1] == v[i]);
    }
}

/// What reading `n` addresses yields: the `n` 32-byte windows when they fit,
/// nothing when they run past the end.
pub proof fn lemma_parse_addr_list_shape(s: Seq<u8>, pos: int, n: int)
    requires
        0 <= pos <= s.len(),
        0 <= n,
    ensures
        pos + 32 * n <= s.len() ==> spec_parse_addr_list(s, pos, n) == Some(
            (
                Seq::new(n as nat, |i: int| s.subrange(pos + 32 * i, pos + 32 * i + 32)),
                pos + 32 * n,
            ),
        ),
        pos + 32 * n > s.len() ==> spec_parse_addr_list(s, pos, n) is None,
    decreases n,
{
    if n == 0 {
        assert(Seq::new(0nat, |i: int| s.subrange(pos + 32 * i, pos + 32 * i + 32))
            =~= Seq::<Seq<u8>>::empty());
    } else {
        if pos + 32 > s.len() {
            assert(spec_parse_addr(s, pos) is None);
        } else {
            lemma_parse_addr_list_shape(s, pos + 32, n - 1);
            if pos + 32 * n <= s.len() {
                let tail = Seq::new(
                    (n - 1) as nat,
                    |i: int| s.subrange(pos + 32 + 32 * i, pos + 32 + 32 * i + 32),
                );
                let whole = Seq::new(n as nat, |i: int| s.subrange(pos + 32 * i, pos + 32 * i + 32));
                assert(seq![s.subrange(pos, pos + 32)] + tail =~= whole);
            }
        }
    }
}

/// Copies `n` bytes out of `data` starting at `pos`, when they are there.
pub(crate) fn take_bytes(data: &Vec<u8>, pos: usize, n: usize) -> (r: Option<(Vec<u8>, usize)>)
    requires
        pos <= data.len(),
    ensures
        match r {
            Some((v, end)) => pos + n <= data@.len() && end == pos + n && v@ == data@.subrange(
                pos as int,
                pos + n,
            ),
            None => pos + n > data@.len(),
        },
{
    if data.len() - pos < n {
        return None;
    }
    let mut v: Vec<u8> = Vec::new();
    let mut i: usize = 0;
    while i < n
        invariant
            i <= n,
            pos + n <= data.len(),
            v@ =~= data@.subrange(pos as int, pos + i),
        decreases n - i,
    {
        v.push(data[pos + i]);
        i += 1;
    }
    proof {
        assert(v@ =~= data@.subrange(pos as int, pos + n));
    }
    Some((v, pos + n))
}

/// Reads one byte.
pub(crate) fn parse_byte_at(data: &Vec<u8>, pos: usize) -> (r: Option<(u8, usize)>)
    requires
        pos <= data.len(),
    ensures
        match r {
            Some((x, end)) => spec_parse_byte(data@, pos as int) == Some((x, end as int)),
            None => spec_parse_byte(data@, pos as int) is None,
        },
{
    if pos < data.len() {
        Some((data[pos], pos + 1))
    } else {
        None
    }
}

/// Reads a little-endian u32.
pub(crate) fn parse_u32_at(data: &Vec<u8>, pos: usize) -> (r: Option<(u32, usize)>)
    requires
        pos <= data.len(),
    ensures
        match r {
            Some((x, end)) => spec_parse_u32(data@, pos as int) == Some((x, end as int)),
            None => spec_parse_u32(data@, pos as int) is None,
        },
{
    match take_bytes(data, pos, 4) {
        Some((buf, end)) => {
            let x = u32_from_le_bytes(buf.as_slice());
            Some((x, end))
        },
        None => None,
    }
}

/// Reads a little-endian u64.
pub(crate) fn parse_u64_at(data: &Vec<u8>, pos: usize) -> (r: Option<(u64, usize)>)
    requires
        pos <= data.len(),
    ensures
        match r {
            Some((x, end)) => spec_parse_u64(data@, pos as int) == Some((x, end as int)),
            None => spec_parse_u64(data@, pos as int) is None,
        },
{
    match take_bytes(data, pos, 8) {
        Some((buf, end)) => {
            let x = u64_from_le_bytes(buf.as_slice());
            Some((x, end))
        },
        None => None,
    }
}

/// Reads a signed 64-bit value.
pub(crate) fn parse_i64_at(data: &Vec<u8>, pos: usize) -> (r: Option<(i64, usize)>)
    requires
        pos <= data.len(),
    ensures
        match r {
            Some((x, end)) => spec_parse_i64(data@, pos as int) == Some((x, end as int)),
            None => spec_parse_i64(data@, pos as int) is None,
        },
{
    match parse_u64_at(data, pos) {
        Some((x, end)) => Some((x as i64, end)),
        None => None,
    }
}

/// Reads a 32-byte address.
pub(crate) fn parse_addr_at(data: &Vec<u8>, pos: usize) -> (r: Option<(Address, usize)>)
    requires
        pos <= data.len(),
    ensures
        match r {
            Some((a, end)) => spec_parse_addr(data@, pos as int) == Some((a@, end as int)),
            None => spec_parse_addr(data@, pos as int) is None,
        },
{
    if data.len() - pos < 32 {
        return None;
    }
    let mut bytes: [u8; 32] = [0u8; 32];
    let mut i: usize = 0;
    while i < 32
        invariant
            i <= 32,
            pos + 32 <= data.len(),
            forall|j: int| 0 <= j < i ==> bytes@[j] == data@[pos + j],
        decreases 32 - i,
    {
        bytes[i] = data[pos + i];
        i += 1;
    }
    let a = Address { bytes };
    proof {
        assert(a@ =~= data@.subrange(pos as int, pos + 32));
    }
    Some((a, pos + 32))
}

/// Reads an optional address.
pub(crate) fn parse_opt_addr_at(data: &Vec<u8>, pos: usize) -> (r: Option<(Option<Address>, usize)>)
    requires
        pos <= data.len(),
    ensures
        match r {
            Some((o, end)) => spec_parse_opt_addr(data@, pos as int) == Some(
                (
                    match o {
                        Some(a) => Some(a@),
                        None => None,
                    },
                    end as int,
                ),
            ),
            None => spec_parse_opt_addr(data@, pos as int) is None,
        },
{
    match parse_byte_at(data, pos) {
        Some((tag, p)) => {
            if tag == 0 {
                Some((None, p))
            } else if tag == 1 {
                match parse_addr_at(data, p) {
                    Some((a, end)) => Some((Some(a), end)),
                    None => None,
                }
            } else {
                None
            }
        },
        None => None,
    }
}

/// Reads a length-prefixed byte string.
pub(crate) fn parse_bytes_at(data: &Vec<u8>, pos: usize) -> (r: Option<(Vec<u8>, usize)>)
    requires
        pos <= data.len(),
    ensures
        match r {
            Some((b, end)) => spec_parse_bytes(data@, pos as int) == Some((b@, end as int)),
            None => spec_parse_bytes(data@, pos as int) is None,
        },
{
    match parse_u32_at(data, pos) {
        Some((n, p)) => {
            if n as usize > data.len() - p {
                return None;
            }
            take_bytes(data, p, n as usize)
        },
        None => None,
    }
}

/// Reads a count-prefixed address list.
pub(crate) fn parse_addrs_at(data: &Vec<u8>, pos: usize) -> (r: Option<(Vec<Address>, usize)>)
    requires
        pos <= data.len(),
    ensures
        match r {
            Some((v, end)) => end <= data@.len() && spec_parse_addrs(data@, pos as int) == Some(
                (v@.map_values(|a: Address| a@), end as int),
            ),
            None => spec_parse_addrs(data@, pos as int) is None,
        },
{
    match parse_u32_at(data, pos) {
        Some((n, p)) => {
            proof {
                lemma_parse_addr_list_shape(data@, p as int, n as int);
            }
            if (n as u64) > ((data.len() - p) as u64) / 32 {
                proof {
                    assert(p + 32 * (n as int) > data@.len());
                }
                return None;
            }
            proof {
                assert(p + 32 * (n as int) <= data@.len());
            }
            let count = n as usize;
            let mut v: Vec<Address> = Vec::new();
            let mut k: usize = 0;
            while k < count
                invariant
                    k <= count,
                    p + 32 * count <= data.len(),
                    v@.len() == k,
                    forall|j: int| 0 <= j < k ==> v@[j]@ == data@.subrange(
                        p + 32 * j,
                        p + 32 * j + 32,
                    ),
                decreases count - k,
            {
                let mut bytes: [u8; 32] = [0u8; 32];
                let mut i: usize = 0;
                while i < 32
                    invariant
                        i <= 32,
                        k < count,
                        p + 32 * count <= data.len(),
                        forall|j: int| 0 <= j < i ==> bytes@[j] == data@[p + 32 * (k as int) + j],
                    decreases 32 - i,
                {
                    bytes[i] = data[p + 32 * k + i];
                    i += 1;
                }
                let a = Address { bytes };
                proof {
                    assert(a@ =~= data@.subrange(p + 32 * (k as int), p + 32 * (k as int) + 32));
                }
                v.push(a);
                k += 1;
            }
            proof {
                assert(v@.map_values(|a: Address| a@) =~= Seq::new(
                    n as nat,
                    |i: int| data@.subrange(p + 32 * i, p + 32 * i + 32),
                ));
            }
            Some((v, p + 32 * count))
        },
        None => None,
    }
}

/// Reads a bool.
pub(crate) fn parse_bool_at(data: &Vec<u8>, pos: usize) -> (r: Option<(bool, usize)>)
    requires
        pos <= data.len(),
    ensures
        match r {
            Some((b, end)) => spec_parse_bool(data@, pos as int) == Some((b, end as int)),
            None => spec_parse_bool(data@, pos as int) is None,
        },
{
    match parse_byte_at(data, pos) {
        Some((tag, p)) => {
            if tag == 0 {
                Some((false, p))
            } else if tag == 1 {
                Some((true, p))
            } else {
                None
            }
        },
        None => None,
    }
}

/// Reads the counter record from the head of the stored bytes; trailing
/// bytes stay unread, as the record sits in a fixed-size allocation.
pub fn deserialize_counter(data: &Vec<u8>) -> (r: Option<(EscrowCounter, usize)>)
    ensures
        match r {
            Some((c, end)) => spec_parse_counter(data@) == Some((c.count, end as int)),
            None => spec_parse_counter(data@) is None,
        },
{
    match parse_u64_at(data, 0) {
        Some((x, end)) => Some((EscrowCounter { count: x }, end)),
        None => None,
    }
}

/// Reads an escrow record from the head of the stored bytes; trailing bytes
/// stay unread, as the record sits in a fixed-size allocation.
pub fn deserialize_escrow(data: &Vec<u8>) -> (r: Option<(Escrow, usize)>)
    ensures
        match r {
            Some((e, end)) => spec_parse_escrow(data@) == Some((e@, end as int)),
            None => spec_parse_escrow(data@) is None,
        },
{
    let r1 = parse_u64_at(data, 0);
    let (id, p1) = match r1 {
        Some(x) => x,
        None => {
            return None;
        },
    };
    let r2 = parse_addr_at(data, p1);
    let (creator, p2) = match r2 {
        Some(x) => x,
        None => {
            return None;
        },
    };
    let r3 = parse_addr_at(data, p2);
    let (beneficiary, p3) = match r3 {
        Some(x) => x,
        None => {
            return None;
        },
    };
    let r4 = parse_u64_at(data, p3);
    let (amount, p4) = match r4 {
        Some(x) => x,
        None => {
            return None;
        },
    };
    let r5 = parse_addr_at(data, p4);
    let (approver1, p5) = match r5 {
        Some(x) => x,
        None => {
            return None;
        },
    };
    let r6 = parse_addr_at(data, p5);
    let (approver2, p6) = match r6 {
        Some(x) => x,
        None => {
            return None;
        },
    };
    let r7 = parse_opt_addr_at(data, p6);
    let (approver3, p7) = match r7 {
        Some(x) => x,
        None => {
            return None;
        },
    };
    let r8 = parse_bytes_at(data, p7);
    let (description, p8) = match r8 {
        Some(x) => x,
        None => {
            return None;
        },
    };
    let r9 = parse_addrs_at(data, p8);
    let (approvals, p9) = match r9 {
        Some(x) => x,
        None => {
            return None;
        },
    };
    let r10 = parse_bool_at(data, p9);
    let (is_completed, p10) = match r10 {
        Some(x) => x,
        None => {
            return None;
        },
    };
    let r11 = parse_i64_at(data, p10);
    let (created_at, p11) = match r11 {
        Some(x) => x,
        None => {
            return None;
        },
    };
    let r12 = parse_i64_at(data, p11);
    let (completed_at, p12) = match r12 {
        Some(x) => x,
        None => {
            return None;
        },
    };
    let e = Escrow {
        id,
        creator,
        beneficiary,
        amount,
        approver1,
        approver2,
        approver3,
        description,
        approvals,
        is_completed,
        created_at,
        completed_at,
    };
    proof {
        assert(spec_parse_escrow(data@) matches Some((v, end)) && v =~~= e@ && end == p12 as int);
    }
    Some((e, p12))
}

/// Round trip of the counter record: reading back what was written yields
/// the same count, whatever trails it in the fixed-size allocation.
pub proof fn lemma_counter_round_trip(count: u64, rest: Seq<u8>)
    ensures
        spec_parse_counter(spec_ser_counter(count) + rest) == Some((count, 8int)),
{
    vstd::bytes::lemma_auto_spec_u64_to_from_le_bytes();
    let s = spec_ser_counter(count) + rest;
    assert(s.subrange(0, 8) =~= spec_u64_to_le_bytes(count));
}

/// Round trip of an escrow record: reading back what was written yields an
/// identical record, whatever trails it in the fixed-size allocation.
#[verifier::rlimit(100)]
pub proof fn lemma_escrow_round_trip(v: EscrowView, rest: Seq<u8>)
    requires
        spec_encodable(v),
    ensures
        spec_parse_escrow(spec_ser_escrow(v) + rest) == Some(
            (v, spec_ser_escrow(v).len() as int),
        ),
{
    vstd::bytes::lemma_auto_spec_u64_to_from_le_bytes();
    vstd::bytes::lemma_auto_spec_u32_to_from_le_bytes();
    lemma_ser_addr_list_len(v.approvals);
    let s = spec_ser_escrow(v) + rest;
    let l6 = spec_ser_opt_addr(v.approver3).len() as int;
    assert(l6 == match v.approver3 {
        None => 1int,
        Some(_) => 33int,
    });
    let dlen = v.description.len() as int;
    let alen = v.approvals.len() as int;
    let o7 = 144 + l6;
    let o8 = o7 + 4 + dlen;
    let o9 = o8 + 4 + 32 * alen;
    let total = o9 + 17;
    assert(spec_ser_escrow(v).len() == total);
    assert(s.subrange(0, 8) =~= spec_u64_to_le_bytes(v.id));
    assert(spec_parse_u64(s, 0) == Some((v.id, 8int)));
    assert(s.subrange(8, 40) =~= v.creator);
    assert(s.subrange(40, 72) =~= v.beneficiary);
    assert(s.subrange(72, 80) =~= spec_u64_to_le_bytes(v.amount));
    assert(spec_parse_u64(s, 72) == Some((v.amount, 80int)));
    assert(s.subrange(80, 112) =~= v.approver1);
    assert(s.subrange(112, 144) =~= v.approver2);
    match v.approver3 {
        None => {
            assert(s[144] == 0u8);
            assert(spec_parse_opt_addr(s, 144) == Some((None::<Seq<u8>>, o7)));
        },
        Some(a) => {
            assert(s[144] == 1u8);
            assert(s.subrange(145, 177) =~= a);
            assert(spec_parse_opt_addr(s, 144) == Some((Some(a), o7)));
        },
    }
    assert(s.subrange(o7, o7 + 4) =~= spec_u32_to_le_bytes(v.description.len() as u32));
    assert(spec_parse_u32(s, o7) == Some((v.description.len() as u32, o7 + 4)));
    assert(s.subrange(o7 + 4, o8) =~= v.description);
    assert(spec_parse_bytes(s, o7) == Some((v.description, o8)));
    assert(s.subrange(o8, o8 + 4) =~= spec_u32_to_le_bytes(v.approvals.len() as u32));
    assert(spec_parse_u32(s, o8) == Some((v.approvals.len() as u32, o8 + 4)));
    assert(s.subrange(o8 + 4, o9) =~= spec_ser_addr_list(v.approvals));
    lemma_parse_addr_list_shape(s, o8 + 4, alen);
    let windows = Seq::new(alen as nat, |i: int| s.subrange(o8 + 4 + 32 * i, o8 + 4 + 32 * i + 32));
    assert(windows =~= v.approvals) by {
        assert forall|i: int| 0 <= i < alen implies windows[i] == v.approvals[i] by {
            lemma_ser_addr_list_index(v.approvals, i);
            assert(s.subrange(o8 + 4 + 32 * i, o8 + 4 + 32 * i + 32) =~= spec_ser_addr_list(
                v.approvals,
            ).subrange(32 * i, 32 * i + 32));
        }
    }
    assert(spec_parse_addrs(s, o8) == Some((v.approvals, o9)));
    assert(s[o9] == (if v.is_completed { 1u8 } else { 0u8 }));
    assert(spec_parse_bool(s, o9) == Some((v.is_completed, o9 + 1)));
    assert(s.subrange(o9 + 1, o9 + 9) =~= spec_u64_to_le_bytes(v.created_at as u64));
    assert(spec_parse_u64(s, o9 + 1) == Some((v.created_at as u64, o9 + 9)));
    let ca = v.created_at;
    assert(((ca as u64) as i64) == ca) by (bit_vector);
    assert(spec_parse_i64(s, o9 + 1) == Some((v.created_at, o9 + 9)));
    assert(s.subrange(o9 + 9, o9 + 17) =~= spec_u64_to_le_bytes(v.completed_at as u64));
    assert(spec_parse_u64(s, o9 + 9) == Some((v.completed_at as u64, o9 + 17)));
    let cb = v.completed_at;
    assert(((cb as u64) as i64) == cb) by (bit_vector);
    assert(spec_parse_i64(s, o9 + 9) == Some((v.completed_at, o9 + 17)));
    assert(spec_parse_escrow(s) matches Some((w, e)) && w =~~= v && e == total);
}

/// Appending one element to a list appends its bytes to the list's encoding.
proof fn lemma_ser_addr_list_snoc(v: Seq<Seq<u8>>, a: Seq<u8>)
    ensures
        spec_ser_addr_list(v.push(a)) == spec_ser_addr_list(v) + a,
    decreases v.len(),
{
    if v.len() == 0 {
        assert(v.push(a)[0] == a);
        assert(v.push(a).drop_first() =~= Seq::<Seq<u8>>::empty());
        assert(spec_ser_addr_list(Seq::<Seq<u8>>::empty()) == Seq::<u8>::empty());
        assert(spec_ser_addr_list(v.push(a)) == a + Seq::<u8>::empty());
        assert(spec_ser_addr_list(v) == Seq::<u8>::empty());
        assert(spec_ser_addr_list(v.push(a)) =~= spec_ser_addr_list(v) + a);
    } else {
        assert(v.push(a).drop_first() =~= v.drop_first().push(a));
        lemma_ser_addr_list_snoc(v.drop_first(), a);
        assert(v.push(a)[0] == v[0]);
        assert(spec_ser_addr_list(v.push(a)) == v[0] + spec_ser_addr_list(v.drop_first().push(a)));
        assert(spec_ser_addr_list(v.push(a)) =~= spec_ser_addr_list(v) + a);
    }
}

} // verus!
