//! Byte-level codec primitives: little-endian integer fields, zero gaps and
//! fixed-length strings, each with the mathematical encoding it produces.
use vstd::prelude::*;
use vstd::string::{StrSliceExecFns, StringSliceAdditionalSpecFns};

verus! {

/// Two little-endian bytes of `x`.
pub open spec fn le16(x: u16) -> Seq<u8> {
    seq![(x & 0xff) as u8, (x >> 8) as u8]
}

/// Four little-endian bytes of `x`.
pub open spec fn le32(x: u32) -> Seq<u8> {
    seq![(x & 0xff) as u8, ((x >> 8) & 0xff) as u8, ((x >> 16) & 0xff) as u8, (x >> 24) as u8]
}

/// Eight little-endian bytes of `x`.
pub open spec fn le64(x: u64) -> Seq<u8> {
    le32((x & 0xffff_ffff) as u32) + le32((x >> 32) as u32)
}

/// Sixteen little-endian bytes of `x`.
pub open spec fn le128(x: u128) -> Seq<u8> {
    le64((x & 0xffff_ffff_ffff_ffff) as u64) + le64((x >> 64) as u64)
}

/// `n` zero bytes.
pub open spec fn zeros(n: nat) -> Seq<u8> {
    Seq::new(n, |i: int| 0u8)
}

pub open spec fn compose16(b0: u8, b1: u8) -> u16 {
    (b0 as u16) | ((b1 as u16) << 8)
}

pub open spec fn compose32(b0: u8, b1: u8, b2: u8, b3: u8) -> u32 {
    (b0 as u32) | ((b1 as u32) << 8) | ((b2 as u32) << 16) | ((b3 as u32) << 24)
}

/// The little-endian 16-bit field that starts at `off`.
pub open spec fn u16_at(b: Seq<u8>, off: int) -> u16 {
    compose16(b[off], b[off + 1])
}

/// The little-endian 32-bit field that starts at `off`.
pub open spec fn u32_at(b: Seq<u8>, off: int) -> u32 {
    compose32(b[off], b[off + 1], b[off + 2], b[off + 3])
}

/// The little-endian 64-bit field that starts at `off`.
pub open spec fn u64_at(b: Seq<u8>, off: int) -> u64 {
    (u32_at(b, off) as u64) | ((u32_at(b, off + 4) as u64) << 32)
}

/// A string field of exactly `n` bytes: truncated when longer, zero padded
/// when shorter.
pub open spec fn fixed_str(s: Seq<u8>, n: nat) -> Seq<u8> {
    if s.len() >= n {
        s.subrange(0, n as int)
    } else {
        s + zeros((n - s.len()) as nat)
    }
}

/// Decoding a 16-bit field gives back the value that was encoded.
pub proof fn lemma_le16_round_trip(x: u16)
    ensures
        le16(x).len() == 2,
        u16_at(le16(x), 0) == x,
{
    let b0 = (x & 0xff) as u8;
    let b1 = (x >> 8) as u8;
    assert(compose16(b0, b1) == x) by (bit_vector)
        requires
            b0 == (x & 0xff) as u8,
            b1 == (x >> 8) as u8,
    ;
}

/// Decoding a 32-bit field gives back the value that was encoded.
pub proof fn lemma_le32_round_trip(x: u32)
    ensures
        le32(x).len() == 4,
        u32_at(le32(x), 0) == x,
{
    let b0 = (x & 0xff) as u8;
    let b1 = ((x >> 8) & 0xff) as u8;
    let b2 = ((x >> 16) & 0xff) as u8;
    let b3 = (x >> 24) as u8;
    assert(compose32(b0, b1, b2, b3) == x) by (bit_vector)
        requires
            b0 == (x & 0xff) as u8,
            b1 == ((x >> 8) & 0xff) as u8,
            b2 == ((x >> 16) & 0xff) as u8,
            b3 == (x >> 24) as u8,
    ;
}

/// Decoding a 64-bit field gives back the value that was encoded.
pub proof fn lemma_le64_round_trip(x: u64)
    ensures
        le64(x).len() == 8,
        u64_at(le64(x), 0) == x,
{
    let lo = (x & 0xffff_ffff) as u32;
    let hi = (x >> 32) as u32;
    lemma_le32_round_trip(lo);
    lemma_le32_round_trip(hi);
    assert(u32_at(le64(x), 4) == u32_at(le32(hi), 0));
    assert((lo as u64) | ((hi as u64) << 32) == x) by (bit_vector)
        requires
            lo == (x & 0xffff_ffff) as u32,
            hi == (x >> 32) as u32,
    ;
}

pub fn push_le16(v: &mut Vec<u8>, x: u16)
    ensures
        final(v)@ == old(v)@ + le16(x),
{
    v.push((x & 0xff) as u8);
    v.push((x >> 8) as u8);
    assert(final(v)@ =~= old(v)@ + le16(x));
}

pub fn push_le32(v: &mut Vec<u8>, x: u32)
    ensures
        final(v)@ == old(v)@ + le32(x),
{
    v.push((x & 0xff) as u8);
    v.push(((x >> 8) & 0xff) as u8);
    v.push(((x >> 16) & 0xff) as u8);
    v.push((x >> 24) as u8);
    assert(final(v)@ =~= old(v)@ + le32(x));
}

pub fn push_le64(v: &mut Vec<u8>, x: u64)
    ensures
        final(v)@ == old(v)@ + le64(x),
{
    push_le32(v, (x & 0xffff_ffff) as u32);
    push_le32(v, (x >> 32) as u32);
    assert(final(v)@ =~= old(v)@ + le64(x));
}

pub fn push_le128(v: &mut Vec<u8>, x: u128)
    ensures
        final(v)@ == old(v)@ + le128(x),
{
    push_le64(v, (x & 0xffff_ffff_ffff_ffff) as u64);
    push_le64(v, (x >> 64) as u64);
    assert(final(v)@ =~= old(v)@ + le128(x));
}

pub fn push_zeros(v: &mut Vec<u8>, n: usize)
    ensures
        final(v)@ == old(v)@ + zeros(n as nat),
{
    let ghost start = v@;
    let mut i: usize = 0;
    while i < n
        invariant
            i <= n,
            v@ =~= start + zeros(i as nat),
        decreases n - i,
    {
        v.push(0u8);
        i = i + 1;
    }
}

pub fn push_bytes(v: &mut Vec<u8>, s: &[u8])
    ensures
        final(v)@ == old(v)@ + s@,
{
    let ghost start = v@;
    let mut i: usize = 0;
    while i < s.len()
        invariant
            i <= s.len(),
            v@ =~= start + s@.subrange(0, i as int),
        decreases s.len() - i,
    {
        v.push(s[i]);
        i = i + 1;
    }
    assert(s@.subrange(0, s.len() as int) =~= s@);
}

/// Appends `s` as a string field of exactly `n` bytes.
pub fn push_fixed_str(v: &mut Vec<u8>, s: &[u8], n: usize)
    ensures
        final(v)@ == old(v)@ + fixed_str(s@, n as nat),
{
    let ghost start = v@;
    let mut i: usize = 0;
    while i < n && i < s.len()
        invariant
            i <= n,
            i <= s.len(),
            v@ =~= start + s@.subrange(0, i as int),
        decreases n - i,
    {
        v.push(s[i]);
        i = i + 1;
    }
    push_zeros(v, n - i);
    assert(v@ =~= start + fixed_str(s@, n as nat));
}

pub fn read_u16(b: &[u8], off: usize) -> (r: u16)
    requires
        off + 2 <= b.len(),
    ensures
        r == u16_at(b@, off as int),
{
    (b[off] as u16) | ((b[off + 1] as u16) << 8)
}

pub fn read_u32(b: &[u8], off: usize) -> (r: u32)
    requires
        off + 4 <= b.len(),
    ensures
        r == u32_at(b@, off as int),
{
    (b[off] as u32) | ((b[off + 1] as u32) << 8) | ((b[off + 2] as u32) << 16) | ((b[off
        + 3] as u32) << 24)
}

pub fn read_u64(b: &[u8], off: usize) -> (r: u64)
    requires
        off + 8 <= b.len(),
    ensures
        r == u64_at(b@, off as int),
{
    let lo = read_u32(b, off);
    let hi = read_u32(b, off + 4);
    (lo as u64) | ((hi as u64) << 32)
}

/// A UUID on the wire: its 16 bytes in order.
#[derive(Clone, Copy, Debug)]
pub struct WireUuid(pub [u8; 16]);

impl WireUuid {
    pub fn new(uuid: [u8; 16]) -> (r: Self)
        ensures
            r.0 == uuid,
    {
        WireUuid(uuid)
    }

    pub fn encode(&self, v: &mut Vec<u8>)
        ensures
            final(v)@ == old(v)@ + self.0@,
    {
        push_bytes(v, &self.0);
    }
}

/// A flag set on the wire: an integer whose set bits must all be flags that
/// the set's type defines.
#[derive(Clone, Copy, Debug, PartialEq, Eq, Structural)]
pub struct WireFlagSet {
    pub bits: u32,
}

impl WireFlagSet {
    /// Decodes `bits` against the flags in `defined`; undefined bits are a
    /// parse error.
    pub fn from_bits(bits: u32, defined: u32) -> (r: Option<WireFlagSet>)
        ensures
            r is Some <==> bits & !defined == 0,
            r matches Some(f) ==> f.bits == bits,
    {
        if bits & !defined != 0 {
            None
        } else {
            Some(WireFlagSet { bits })
        }
    }

    /// The flag set as a one-byte field.
    pub fn to_byte(&self) -> (r: u8)
        requires
            self.bits <= 0xff,
        ensures
            r as u32 == self.bits,
    {
        self.bits as u8
    }

    /// Whether every flag of `flags` is set.
    pub fn contains(&self, flags: u32) -> (r: bool)
        ensures
            r == (self.bits & flags == flags),
    {
        self.bits & flags == flags
    }
}

/// A string field of exactly `S` bytes on the wire, holding at most `S`
/// bytes of text.
pub struct WireString<const S: usize> {
    pub bytes: Vec<u8>,
}

impl<const S: usize> WireString<S> {
    pub open spec fn wf(&self) -> bool {
        self.bytes@.len() <= S
    }

    pub fn new() -> (r: Self)
        ensures
            r.wf(),
            r.bytes@.len() == 0,
    {
        WireString { bytes: Vec::new() }
    }

    /// The text of `s`; fails when it does not fit in `S` bytes.
    pub fn from(s: &str) -> (r: Result<Self, ()>)
        ensures
            r is Ok <==> s.spec_bytes().len() <= S,
            r matches Ok(w) ==> w.wf() && w.bytes@ == s.spec_bytes(),
    {
        let bytes = s.as_bytes_vec();
        if bytes.len() > S {
            Err(())
        } else {
            Ok(WireString { bytes })
        }
    }

    /// Appends one byte of text; fails when the string is full.
    pub fn push(&mut self, b: u8) -> (r: Result<(), ()>)
        requires
            old(self).wf(),
        ensures
            final(self).wf(),
            old(self).bytes@.len() < S ==> r is Ok && final(self).bytes@ == old(self).bytes@.push(b),
            old(self).bytes@.len() >= S ==> r is Err && final(self).bytes@ == old(self).bytes@,
    {
        if self.bytes.len() >= S {
            return Err(());
        }
        self.bytes.push(b);
        Ok(())
    }

    /// Appends the field: the text, zero padded to `S` bytes.
    pub fn encode(&self, v: &mut Vec<u8>)
        requires
            self.wf(),
        ensures
            final(v)@ == old(v)@ + fixed_str(self.bytes@, S as nat),
    {
        push_fixed_str(v, self.bytes.as_slice(), S);
    }
}

/// A vector of at most `S` elements.
pub struct WireVec<T, const S: usize> {
    pub items: Vec<T>,
}

impl<T, const S: usize> WireVec<T, S> {
    pub open spec fn wf(&self) -> bool {
        self.items@.len() <= S
    }

    pub fn new() -> (r: Self)
        ensures
            r.wf(),
            r.items@.len() == 0,
    {
        WireVec { items: Vec::new() }
    }

    pub fn len(&self) -> (r: usize)
        ensures
            r == self.items@.len(),
    {
        self.items.len()
    }

    pub fn last(&self) -> (r: Option<&T>)
        ensures
            self.items@.len() == 0 ==> r is None,
            self.items@.len() > 0 ==> (r matches Some(x) && *x == self.items@.last()),
    {
        if self.items.len() == 0 {
            None
        } else {
            Some(&self.items[self.items.len() - 1])
        }
    }

    /// Appends an element; a full vector hands it back.
    pub fn push(&mut self, item: T) -> (r: Result<(), T>)
        requires
            old(self).wf(),
        ensures
            final(self).wf(),
            old(self).items@.len() < S ==> r is Ok && final(self).items@ == old(self).items@.push(
                item,
            ),
            old(self).items@.len() >= S ==> r == Err::<(), T>(item) && final(self).items@ == old(self).items@,
    {
        if self.items.len() >= S {
            return Err(item);
        }
        self.items.push(item);
        Ok(())
    }
}

} // verus!
