//! Checksums and byte helpers shared by the wire formats.

use vstd::prelude::*;

verus! {

/// The seed of the envelope checksum.
pub const CHECKSUM_SEED: u16 = 0xBEAF;

/// Sum of all bytes of `s`.
pub open spec fn byte_sum(s: Seq<u8>) -> nat
    decreases s.len(),
{
    if s.len() == 0 {
        0
    } else {
        byte_sum(s.drop_last()) + s.last() as nat
    }
}

/// The envelope checksum: `0xBEAF` plus every byte, truncated to 16 bits.
pub open spec fn checksum_of(s: Seq<u8>) -> u16 {
    ((0xBEAF + byte_sum(s)) % 0x10000) as u16
}

/// Computes the envelope checksum of a slice of bytes.
///
/// The checksum is the sum of all of the bytes and 0xBEAF, masked with 0xFFFF.
pub fn checksum(data: &[u8]) -> (r: u16)
    ensures
        r == checksum_of(data@),
{
    let mut sum: u16 = CHECKSUM_SEED;
    let mut i: usize = 0;
    while i < data.len()
        invariant
            i <= data@.len(),
            sum == checksum_of(data@.subrange(0, i as int)),
        decreases data@.len() - i,
    {
        proof {
            let prefix = data@.subrange(0, i as int);
            let next = data@.subrange(0, i as int + 1);
            assert(next.drop_last() =~= prefix);
            vstd::arithmetic::div_mod::lemma_add_mod_noop(
                0xBEAF + byte_sum(prefix) as int,
                data@[i as int] as int,
                0x10000,
            );
            vstd::arithmetic::div_mod::lemma_mod_twice(data@[i as int] as int, 0x10000);
        }
        sum = ((sum as u32 + data[i] as u32) % 0x10000) as u16;
        i = i + 1;
    }
    assert(data@.subrange(0, i as int) =~= data@);
    sum
}

/// `m` in reverse byte order.
pub open spec fn reversed_mac(m: Seq<u8>) -> Seq<u8> {
    Seq::new(6, |i: int| m[5 - i])
}

/// Reverses a MAC address: the wire carries it backwards.
pub fn reverse_mac(mac_flipped: [u8; 6]) -> (r: [u8; 6])
    ensures
        r@ == reversed_mac(mac_flipped@),
{
    let mut mac = [0u8; 6];
    let mut i: usize = 0;
    while i < 6
        invariant
            i <= 6,
            mac@.len() == 6,
            forall|j: int| 0 <= j < i ==> mac@[j] == mac_flipped@[5 - j],
        decreases 6 - i,
    {
        mac[i] = mac_flipped[5 - i];
        i = i + 1;
    }
    assert(mac@ =~= reversed_mac(mac_flipped@));
    mac
}

/// Reversing a MAC address twice gives it back.
pub proof fn lemma_reverse_mac_involutive(m: [u8; 6])
    ensures
        reversed_mac(reversed_mac(m@)) == m@,
{
    assert(reversed_mac(reversed_mac(m@)) =~= m@);
}

/// One shift step of the reflected CRC-16 with polynomial 0xA001, `n` times.
pub open spec fn crc_shift(crc: u16, n: nat) -> u16
    decreases n,
{
    if n == 0 {
        crc
    } else {
        let c = crc_shift(crc, (n - 1) as nat);
        if c & 1 == 1 {
            (c >> 1) ^ 0xA001
        } else {
            c >> 1
        }
    }
}

/// The CRC register after feeding one byte.
pub open spec fn crc_update(crc: u16, b: u8) -> u16 {
    crc_shift(crc ^ (b as u16), 8)
}

/// The CRC-16/MODBUS register after feeding `s`, starting from 0xFFFF.
pub open spec fn crc16_modbus(s: Seq<u8>) -> u16
    decreases s.len(),
{
    if s.len() == 0 {
        0xFFFF
    } else {
        crc_update(crc16_modbus(s.drop_last()), s.last())
    }
}

/// Computes the CRC-16/MODBUS checksum used by the HVAC sub-protocol
/// (polynomial 0xA001, initial value 0xFFFF, reflected, no final xor).
pub fn compute_generic_checksum(data: &[u8]) -> (r: u16)
    ensures
        r == crc16_modbus(data@),
{
    assert(data@.subrange(0, data@.len() as int) =~= data@);
    crc16_of_range(data, 0, data.len())
}

/// The CRC-16/MODBUS of `data[start..end]`.
pub fn crc16_of_range(data: &[u8], start: usize, end: usize) -> (r: u16)
    requires
        start <= end <= data@.len(),
    ensures
        r == crc16_modbus(data@.subrange(start as int, end as int)),
{
    let mut crc: u16 = 0xFFFF;
    let mut i: usize = start;
    while i < end
        invariant
            start <= i <= end <= data@.len(),
            crc == crc16_modbus(data@.subrange(start as int, i as int)),
        decreases end - i,
    {
        let ghost before = crc;
        assert(data@.subrange(start as int, i as int + 1).drop_last() =~= data@.subrange(
            start as int,
            i as int,
        ));
        crc = crc ^ (data[i] as u16);
        let mut bit: usize = 0;
        while bit < 8
            invariant
                bit <= 8,
                crc == crc_shift(before ^ (data@[i as int] as u16), bit as nat),
            decreases 8 - bit,
        {
            if crc & 1 == 1 {
                crc = (crc >> 1) ^ 0xA001;
            } else {
                crc = crc >> 1;
            }
            bit = bit + 1;
        }
        i = i + 1;
    }
    crc
}

} // verus!

verus! {

/// The little-endian encoding of a 16-bit value.
pub open spec fn le16(v: u16) -> Seq<u8> {
    Seq::empty().push((v % 256) as u8).push((v / 256) as u8)
}

/// The 16-bit value of two little-endian bytes.
pub open spec fn read_le16(lo: u8, hi: u8) -> u16 {
    (lo as int + 256 * hi as int) as u16
}

/// The little-endian encoding of a 32-bit value.
pub open spec fn le32(v: u32) -> Seq<u8> {
    Seq::empty().push((v % 0x100) as u8).push(((v / 0x100) % 0x100) as u8).push(
        ((v / 0x10000) % 0x100) as u8,
    ).push((v / 0x1000000) as u8)
}

/// The 32-bit value of four little-endian bytes.
pub open spec fn read_le32(b: Seq<u8>) -> u32 {
    (b[0] as int + 0x100 * b[1] as int + 0x10000 * b[2] as int + 0x1000000 * b[3] as int) as u32
}

/// Encodes a 16-bit value little-endian.
pub fn u16_le(v: u16) -> (r: [u8; 2])
    ensures
        r@ == le16(v),
{
    let r = [(v % 256) as u8, (v / 256) as u8];
    assert(r@ =~= le16(v));
    r
}

/// Decodes two little-endian bytes.
pub fn u16_from_le(lo: u8, hi: u8) -> (r: u16)
    ensures
        r == read_le16(lo, hi),
{
    lo as u16 + 256 * (hi as u16)
}

/// Encodes a 32-bit value little-endian.
pub fn u32_le(v: u32) -> (r: [u8; 4])
    ensures
        r@ == le32(v),
{
    let r = [(v % 0x100) as u8, ((v / 0x100) % 0x100) as u8, ((v / 0x10000) % 0x100) as u8, (v / 0x1000000) as u8];
    assert(r@ =~= le32(v));
    r
}

/// Reading back an encoded 16-bit value gives the value.
pub proof fn lemma_le16_round_trip(v: u16)
    ensures
        read_le16(le16(v)[0], le16(v)[1]) == v,
{
}

} // verus!

verus! {

/// The bytes of `v` as an array of its length.
pub fn to_array<const N: usize>(v: &Vec<u8>) -> (r: [u8; N])
    requires
        v@.len() == N,
    ensures
        r@ == v@,
{
    let mut r = [0u8; N];
    let mut i: usize = 0;
    while i < N
        invariant
            i <= N,
            v@.len() == N,
            r@.len() == N,
            forall|j: int| 0 <= j < i ==> r@[j] == v@[j],
        decreases N - i,
    {
        r[i] = v[i];
        i = i + 1;
    }
    assert(r@ =~= v@);
    r
}

} // verus!

verus! {

/// `n` zero bytes.
pub open spec fn zeros(n: nat) -> Seq<u8> {
    Seq::new(n, |i: int| 0u8)
}

/// Appends the little-endian encoding of `x`.
pub fn push_le16(v: &mut Vec<u8>, x: u16)
    ensures
        final(v)@ == old(v)@ + le16(x),
{
    v.push((x % 256) as u8);
    v.push((x / 256) as u8);
    assert(final(v)@ =~= old(v)@ + le16(x));
}

/// Appends the little-endian encoding of `x`.
pub fn push_le32(v: &mut Vec<u8>, x: u32)
    ensures
        final(v)@ == old(v)@ + le32(x),
{
    v.push((x % 0x100) as u8);
    v.push(((x / 0x100) % 0x100) as u8);
    v.push(((x / 0x10000) % 0x100) as u8);
    v.push((x / 0x1000000) as u8);
    assert(final(v)@ =~= old(v)@ + le32(x));
}

/// Appends `n` zero bytes.
pub fn push_zeros(v: &mut Vec<u8>, n: usize)
    ensures
        final(v)@ == old(v)@ + zeros(n as nat),
{
    let ghost start = v@;
    let mut i: usize = 0;
    while i < n
        invariant
            i <= n,
            v@ =~= start + zeros(i as nat),
        decreases n - i,
    {
        v.push(0);
        i = i + 1;
    }
}

/// Appends the bytes of `s`.
pub fn push_bytes(v: &mut Vec<u8>, s: &[u8])
    ensures
        final(v)@ == old(v)@ + s@,
{
    let ghost start = v@;
    let mut i: usize = 0;
    while i < s.len()
        invariant
            i <= s@.len(),
            v@ =~= start + s@.subrange(0, i as int),
        decreases s@.len() - i,
    {
        v.push(s[i]);
        i = i + 1;
    }
    assert(s@.subrange(0, i as int) =~= s@);
}

} // verus!

verus! {

/// `b` with the two bytes at `at` set to zero.
pub open spec fn zero_field(b: Seq<u8>, at: int) -> Seq<u8> {
    b.update(at, 0u8).update(at + 1, 0u8)
}

/// The 16-bit field at `at` holds the envelope checksum of `b` taken with
/// that field zeroed.
pub open spec fn checksum_holds(b: Seq<u8>, at: int) -> bool {
    read_le16(b[at], b[at + 1]) == checksum_of(zero_field(b, at))
}

/// A copy of `s[start..end]`.
pub fn copy_range(s: &[u8], start: usize, end: usize) -> (r: Vec<u8>)
    requires
        start <= end <= s@.len(),
    ensures
        r@ == s@.subrange(start as int, end as int),
{
    let mut r: Vec<u8> = Vec::new();
    let mut i: usize = start;
    while i < end
        invariant
            start <= i <= end <= s@.len(),
            r@ =~= s@.subrange(start as int, i as int),
        decreases end - i,
    {
        r.push(s[i]);
        i = i + 1;
    }
    r
}

} // verus!

verus! {

/// The first IPv4 address in `c` that is not a loopback address.
pub open spec fn first_non_loopback(c: Seq<Option<[u8; 4]>>) -> Option<[u8; 4]>
    decreases c.len(),
{
    if c.len() == 0 {
        None
    } else if c[0] matches Some(a) && a[0] != 127 {
        c[0]
    } else {
        first_non_loopback(c.drop_first())
    }
}

/// The given address, or else the first non-loopback IPv4 address among the
/// local interfaces' addresses (`None` stands for an address that is not IPv4).
pub fn pick_local_ip(ip: Option<[u8; 4]>, interfaces: &Vec<Option<[u8; 4]>>) -> (r: Result<[u8; 4], crate::error::Error>)
    ensures
        ip matches Some(a) ==> r == Ok::<[u8; 4], crate::error::Error>(a),
        ip is None ==> (r matches Ok(a) ==> first_non_loopback(interfaces@) == Some(a)),
        ip is None ==> (r matches Err(e) ==> first_non_loopback(interfaces@) is None && e == crate::error::Error::NoLocalAddress),
        ip is None ==> (first_non_loopback(interfaces@) is None <==> r is Err),
{
    if let Some(a) = ip {
        return Ok(a);
    }
    let mut i: usize = 0;
    assert(interfaces@.subrange(0, interfaces@.len() as int) =~= interfaces@);
    while i < interfaces.len()
        invariant
            ip is None,
            i <= interfaces@.len(),
            first_non_loopback(interfaces@) == first_non_loopback(interfaces@.subrange(i as int, interfaces@.len() as int)),
        decreases interfaces@.len() - i,
    {
        let ghost rest = interfaces@.subrange(i as int, interfaces@.len() as int);
        assert(rest.drop_first() =~= interfaces@.subrange(i + 1, interfaces@.len() as int));
        if let Some(a) = interfaces[i] {
            if a[0] != 127 {
                return Ok(a);
            }
        }
        i = i + 1;
    }
    Err(crate::error::Error::NoLocalAddress)
}

} // verus!
