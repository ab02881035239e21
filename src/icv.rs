//! The message integrity check: CRC-32-ISCSI over a constant lead byte and
//! the message, appended little-endian.
use vstd::prelude::*;
use crate::wire::{le32, u32_at, push_le32};

verus! {

/// MCTP message type 4 (NVMe-MI) with the integrity-check bit set.
pub const ICV_LEAD: u8 = 0x84;

/// The CRC-32-ISCSI (Castagnoli) checksum of `data`.
pub uninterp spec fn crc32_iscsi(data: Seq<u8>) -> u32;

/// Relies on `crc::Crc::<u32>::checksum` with `crc::CRC_32_ISCSI`: the
/// checksum depends on the bytes alone.
#[verifier::external_body]
fn iscsi_checksum(data: &[u8]) -> (r: u32)
    ensures
        r == crc32_iscsi(data@),
{
    crc::Crc::<u32>::new(&crc::CRC_32_ISCSI).checksum(data)
}

/// The integrity check value of a message body.
pub open spec fn icv_of(body: Seq<u8>) -> u32 {
    crc32_iscsi(seq![ICV_LEAD] + body)
}

/// A body followed by its integrity check value.
pub open spec fn sealed(body: Seq<u8>) -> Seq<u8> {
    body + le32(icv_of(body))
}

/// The bytes of a message that precede its integrity check value.
pub open spec fn icv_body(m: Seq<u8>) -> Seq<u8> {
    m.subrange(0, m.len() - 4)
}

/// A message whose last four bytes are the integrity check value of the rest.
pub open spec fn icv_valid(m: Seq<u8>) -> bool {
    m.len() >= 4 && u32_at(m, m.len() - 4) == icv_of(icv_body(m))
}

/// Computes the integrity check value over the first `n` bytes of `m`.
pub fn compute_icv(m: &[u8], n: usize) -> (r: u32)
    requires
        n <= m@.len(),
    ensures
        r == icv_of(m@.subrange(0, n as int)),
{
    let mut data: Vec<u8> = Vec::new();
    data.push(ICV_LEAD);
    let mut i: usize = 0;
    while i < n
        invariant
            i <= n,
            n <= m@.len(),
            data@ =~= seq![ICV_LEAD] + m@.subrange(0, i as int),
        decreases n - i,
    {
        data.push(m[i]);
        i = i + 1;
    }
    iscsi_checksum(data.as_slice())
}

/// Appends the integrity check value to a response body.
pub fn seal(body: Vec<u8>) -> (r: Vec<u8>)
    ensures
        r@ == sealed(body@),
{
    let mut out = body;
    let n = out.len();
    let icv = compute_icv(out.as_slice(), n);
    assert(out@.subrange(0, n as int) =~= body@);
    push_le32(&mut out, icv);
    out
}

/// Checks the trailing integrity check value of a received message.
pub fn check_icv(m: &[u8]) -> (r: bool)
    ensures
        r == icv_valid(m@),
{
    if m.len() < 4 {
        return false;
    }
    let n = m.len() - 4;
    let expected = compute_icv(m, n);
    let found = crate::wire::read_u32(m, n);
    found == expected
}

/// Every sealed body passes the integrity check, and the check recovers the
/// body.
pub proof fn lemma_sealed_is_valid(body: Seq<u8>)
    ensures
        icv_valid(sealed(body)),
        icv_body(sealed(body)) == body,
{
    let s = sealed(body);
    crate::wire::lemma_le32_round_trip(icv_of(body));
    assert(icv_body(s) =~= body);
    assert(s.subrange(body.len() as int, s.len() as int) =~= le32(icv_of(body)));
    assert(u32_at(s, s.len() - 4) == u32_at(le32(icv_of(body)), 0));
}

} // verus!
