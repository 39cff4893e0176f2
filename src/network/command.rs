//! The outer command envelope: a 0x38-byte header followed by the payload,
//! encrypted with AES-128-CBC.

use block_modes::BlockMode;
use rand::Rng;
use vstd::prelude::*;

use crate::constants::INITIAL_VECTOR;
use crate::error::{bytes_result, ChecksumKind, Error};
use crate::network::util::{
    checksum, checksum_of, le16, le32, push_bytes, push_le16, push_le32, push_zeros, read_le16,
    reverse_mac, reversed_mac, to_array, u16_from_le, zeros, zero_field, checksum_holds, copy_range,
};
use crate::traits::CommandTrait;

verus! {

/// The ciphertext that AES-128-CBC with zero padding makes of `data`.
pub uninterp spec fn cbc_encrypt(key: Seq<u8>, iv: Seq<u8>, data: Seq<u8>) -> Seq<u8>;

/// The plaintext, trailing zeros removed, that AES-128-CBC makes of `data`.
pub uninterp spec fn cbc_decrypt(key: Seq<u8>, iv: Seq<u8>, data: Seq<u8>) -> Seq<u8>;

/// `n` rounded up to a whole number of 16-byte blocks.
pub open spec fn padded_len(n: nat) -> nat {
    if n % 16 == 0 {
        n
    } else {
        (n - n % 16 + 16) as nat
    }
}

/// Relies on block_modes' `Cbc<Aes128, ZeroPadding>::encrypt_vec`: the data,
/// padded with zeros to whole 16-byte blocks, encrypted in CBC mode.
#[verifier::external_body]
fn aes_cbc_encrypt(key: &[u8; 16], iv: &[u8; 16], data: &[u8]) -> (r: Vec<u8>)
    ensures
        r@ == cbc_encrypt(key@, iv@, data@),
        r@.len() == padded_len(data@.len()),
{
    block_modes::Cbc::<aes::Aes128, block_modes::block_padding::ZeroPadding>::new_from_slices(
        key,
        iv,
    ).expect("a 16-byte key and IV are accepted").encrypt_vec(data)
}

/// Relies on block_modes' `Cbc<Aes128, ZeroPadding>::decrypt_vec`: whole
/// blocks decrypted in CBC mode, trailing zeros removed but for the first byte.
#[verifier::external_body]
fn aes_cbc_decrypt(key: &[u8; 16], iv: &[u8; 16], data: &[u8]) -> (r: Vec<u8>)
    requires
        data@.len() % 16 == 0,
        data@.len() > 0,
    ensures
        r@ == cbc_decrypt(key@, iv@, data@),
        1 <= r@.len() <= data@.len(),
{
    block_modes::Cbc::<aes::Aes128, block_modes::block_padding::ZeroPadding>::new_from_slices(
        key,
        iv,
    ).expect("a 16-byte key and IV are accepted").decrypt_vec(data).expect(
        "whole blocks decrypt",
    )
}

/// Relies on rand's `Rng::gen_range` over `thread_rng`: a value in `[low, high]`.
#[verifier::external_body]
fn random_in_range(low: u16, high: u16) -> (r: u16)
    requires
        low <= high,
    ensures
        low <= r <= high,
{
    rand::thread_rng().gen_range(low..=high)
}

/// The magic bytes that open every command.
pub open spec fn command_magic() -> Seq<u8> {
    Seq::empty().push(0x5Au8).push(0xA5u8).push(0xAAu8).push(0x55u8).push(0x5Au8).push(
        0xA5u8,
    ).push(0xAAu8).push(0x55u8)
}

/// The packed command header with these field values.
pub open spec fn header_of(
    device_type: u16,
    packet_type: u16,
    count: u16,
    mac_reversed: Seq<u8>,
    id: u32,
    checksum: u16,
    payload_checksum: u16,
) -> Seq<u8> {
    command_magic() + zeros(24) + le16(checksum) + zeros(2) + le16(device_type) + le16(packet_type)
        + le16(count) + mac_reversed + le32(id) + le16(payload_checksum) + zeros(2)
}

/// The complete command frame carrying `payload`: the header with the
/// checksum of the cleartext payload at 0x34, followed by the payload
/// encrypted with `key`, with the envelope checksum of both (taken with a zero
/// field) at 0x20.
pub open spec fn frame_of(
    device_type: u16,
    packet_type: u16,
    count: u16,
    mac_reversed: Seq<u8>,
    id: u32,
    payload: Seq<u8>,
    key: Seq<u8>,
) -> Seq<u8> {
    let pc = checksum_of(payload);
    let enc = cbc_encrypt(key, INITIAL_VECTOR@, payload);
    let c = checksum_of(
        header_of(device_type, packet_type, count, mac_reversed, id, 0, pc) + enc,
    );
    header_of(device_type, packet_type, count, mac_reversed, id, c, pc) + enc
}

/// The size of the command header.
pub const COMMAND_HEADER_SIZE: usize = 0x38;

/// The header of a command sent to a device.
#[derive(Clone, Copy, Debug)]
pub struct CommandMessage {
    /// The model code of the receiving device.
    device_type: u16,
    /// The packet type of the payload.
    packet_type: u16,
    /// The message count, high bit set.
    count: u16,
    /// The MAC address, reversed.
    mac_reversed: [u8; 6],
    /// The authentication id; 0 before authentication.
    id: u32,
    /// The checksum of the header and encrypted payload.
    checksum: u16,
    /// The checksum of the payload before encryption.
    payload_checksum: u16,
}

impl CommandMessage {
    pub closed spec fn spec_device_type(self) -> u16 {
        self.device_type
    }

    pub closed spec fn spec_packet_type(self) -> u16 {
        self.packet_type
    }

    pub closed spec fn spec_count(self) -> u16 {
        self.count
    }

    pub closed spec fn spec_mac_reversed(self) -> Seq<u8> {
        self.mac_reversed@
    }

    pub closed spec fn spec_id(self) -> u32 {
        self.id
    }

    pub closed spec fn spec_checksum(self) -> u16 {
        self.checksum
    }

    pub closed spec fn spec_payload_checksum(self) -> u16 {
        self.payload_checksum
    }

    /// Creates a header with the given message count (its high bit is set).
    pub fn with_count<T: CommandTrait>(count: u16, device_model_code: u16, mac: [u8; 6], id: u32) -> (r: CommandMessage)
        ensures
            r.spec_count() == count | 0x8000,
            r.spec_count() >= 0x8000,
            r.spec_device_type() == device_model_code,
            r.spec_packet_type() == T::spec_packet_type(),
            r.spec_mac_reversed() == reversed_mac(mac@),
            r.spec_id() == id,
            r.spec_checksum() == 0,
            r.spec_payload_checksum() == 0,
    {
        assert((count | 0x8000u16) >= 0x8000u16) by (bit_vector);
        CommandMessage {
            device_type: device_model_code,
            packet_type: T::packet_type(),
            count: count | 0x8000,
            mac_reversed: reverse_mac(mac),
            id,
            checksum: 0,
            payload_checksum: 0,
        }
    }

    /// Creates a header with a random message count in `[0x8000, 0xFFFF]`.
    pub fn new<T: CommandTrait>(device_model_code: u16, mac: [u8; 6], id: u32) -> (r: CommandMessage)
        ensures
            0x8000 <= r.spec_count() <= 0xFFFF,
            r.spec_device_type() == device_model_code,
            r.spec_packet_type() == T::spec_packet_type(),
            r.spec_mac_reversed() == reversed_mac(mac@),
            r.spec_id() == id,
            r.spec_checksum() == 0,
            r.spec_payload_checksum() == 0,
    {
        let random_count = random_in_range(0x8000, 0xFFFF);
        assert(random_count | 0x8000u16 == random_count) by (bit_vector)
            requires
                0x8000u16 <= random_count,
        ;
        CommandMessage::with_count::<T>(random_count, device_model_code, mac, id)
    }

    /// The packed header.
    fn header_bytes(&self) -> (r: Vec<u8>)
        ensures
            r@ == header_of(
                self.device_type,
                self.packet_type,
                self.count,
                self.mac_reversed@,
                self.id,
                self.checksum,
                self.payload_checksum,
            ),
    {
        let mut v: Vec<u8> = Vec::new();
        v.push(0x5A);
        v.push(0xA5);
        v.push(0xAA);
        v.push(0x55);
        v.push(0x5A);
        v.push(0xA5);
        v.push(0xAA);
        v.push(0x55);
        assert(v@ =~= command_magic());
        push_zeros(&mut v, 24);
        push_le16(&mut v, self.checksum);
        push_zeros(&mut v, 2);
        push_le16(&mut v, self.device_type);
        push_le16(&mut v, self.packet_type);
        push_le16(&mut v, self.count);
        push_bytes(&mut v, self.mac_reversed.as_slice());
        push_le32(&mut v, self.id);
        push_le16(&mut v, self.payload_checksum);
        push_zeros(&mut v, 2);
        v
    }

    /// Packs the header alone.
    pub fn pack(&self) -> (r: [u8; 0x38])
        ensures
            r@ == header_of(
                self.spec_device_type(),
                self.spec_packet_type(),
                self.spec_count(),
                self.spec_mac_reversed(),
                self.spec_id(),
                self.spec_checksum(),
                self.spec_payload_checksum(),
            ),
            r@.len() == 0x38,
            self.spec_mac_reversed().len() == 6,
    {
        let v = self.header_bytes();
        to_array(&v)
    }

    /// Packs the command with `payload`: the payload checksum is taken over the
    /// cleartext, the payload is encrypted with `key`, and the envelope
    /// checksum is taken over header and ciphertext with that field zeroed.
    pub fn pack_with_payload(self, payload: &[u8], key: &[u8; 16]) -> (r: Result<Vec<u8>, Error>)
        ensures
            bytes_result(r) == Ok::<Seq<u8>, Error>(
                frame_of(
                    self.spec_device_type(),
                    self.spec_packet_type(),
                    self.spec_count(),
                    self.spec_mac_reversed(),
                    self.spec_id(),
                    payload@,
                    key@,
                ),
            ),
            r matches Ok(f) && f@.len() == 0x38 + padded_len(payload@.len()),
            self.spec_mac_reversed().len() == 6,
    {
        let mut msg = self;
        msg.checksum = 0;
        msg.payload_checksum = checksum(payload);
        let encrypted = aes_cbc_encrypt(key, &INITIAL_VECTOR, payload);
        let mut appended = msg.header_bytes();
        push_bytes(&mut appended, encrypted.as_slice());
        msg.checksum = checksum(appended.as_slice());
        let mut complete = msg.header_bytes();
        push_bytes(&mut complete, encrypted.as_slice());
        Ok(complete)
    }
}

/// What a device's reply `b` opens to under `key`: its decrypted payload, or
/// why it was rejected.
pub open spec fn opened(b: Seq<u8>, key: Seq<u8>) -> Result<Seq<u8>, Error> {
    if b.len() < 0x38 {
        Err(Error::ShortReply { expected: 0x38, got: b.len() as usize })
    } else if read_le16(b[0x20], b[0x21]) != checksum_of(zero_field(b, 0x20)) {
        Err(
            Error::ChecksumMismatch {
                kind: ChecksumKind::Envelope,
                stored: read_le16(b[0x20], b[0x21]),
                computed: checksum_of(zero_field(b, 0x20)),
            },
        )
    } else {
        decrypted(key, b.subrange(0x38, b.len() as int))
    }
}

/// The cleartext of ciphertext `c` under `key`: nothing for no ciphertext,
/// and only whole blocks can be decrypted.
pub open spec fn decrypted(key: Seq<u8>, c: Seq<u8>) -> Result<Seq<u8>, Error> {
    if c.len() == 0 {
        Ok(Seq::empty())
    } else if c.len() % 16 != 0 {
        Err(Error::CryptoFailure)
    } else {
        Ok(cbc_decrypt(key, INITIAL_VECTOR@, c))
    }
}

impl CommandMessage {
    /// Unpacks a command reply: checks the envelope checksum, then decrypts
    /// the payload with `key`.
    pub fn unpack_with_payload(bytes: Vec<u8>, key: &[u8; 16]) -> (r: Result<Vec<u8>, Error>)
        ensures
            bytes_result(r) == opened(bytes@, key@),
    {
        let len = bytes.len();
        if len < COMMAND_HEADER_SIZE {
            return Err(Error::ShortReply { expected: COMMAND_HEADER_SIZE, got: len });
        }
        let stored = u16_from_le(bytes[0x20], bytes[0x21]);
        let ghost received = bytes@;
        let mut bytes = bytes;
        bytes.set(0x20, 0);
        bytes.set(0x21, 0);
        assert(bytes@ =~= zero_field(received, 0x20));
        let computed = checksum(bytes.as_slice());
        if stored != computed {
            return Err(
                Error::ChecksumMismatch { kind: ChecksumKind::Envelope, stored, computed },
            );
        }
        if len == COMMAND_HEADER_SIZE {
            return Ok(Vec::new());
        }
        if (len - COMMAND_HEADER_SIZE) % 16 != 0 {
            return Err(Error::CryptoFailure);
        }
        let ciphertext = copy_range(bytes.as_slice(), COMMAND_HEADER_SIZE, len);
        assert(ciphertext@ =~= received.subrange(0x38, len as int));
        Ok(aes_cbc_decrypt(key, &INITIAL_VECTOR, ciphertext.as_slice()))
    }
}

proof fn lemma_header_zeroed(
    device_type: u16,
    packet_type: u16,
    count: u16,
    mac_reversed: Seq<u8>,
    id: u32,
    c: u16,
    pc: u16,
)
    requires
        mac_reversed.len() == 6,
    ensures
        header_of(device_type, packet_type, count, mac_reversed, id, c, pc).len() == 0x38,
        zero_field(header_of(device_type, packet_type, count, mac_reversed, id, c, pc), 0x20)
            == header_of(device_type, packet_type, count, mac_reversed, id, 0, pc),
        read_le16(
            header_of(device_type, packet_type, count, mac_reversed, id, c, pc)[0x20],
            header_of(device_type, packet_type, count, mac_reversed, id, c, pc)[0x21],
        ) == c,
{
    let h = header_of(device_type, packet_type, count, mac_reversed, id, c, pc);
    let z = header_of(device_type, packet_type, count, mac_reversed, id, 0, pc);
    assert(h[0x20] == le16(c)[0] && h[0x21] == le16(c)[1]);
    assert(zero_field(h, 0x20) =~= z);
}

/// Every command frame carries, at 0x20, the envelope checksum of the frame
/// taken with that field zeroed.
pub proof fn lemma_command_checksum_holds(
    device_type: u16,
    packet_type: u16,
    count: u16,
    mac_reversed: Seq<u8>,
    id: u32,
    payload: Seq<u8>,
    key: Seq<u8>,
)
    requires
        mac_reversed.len() == 6,
    ensures
        checksum_holds(frame_of(device_type, packet_type, count, mac_reversed, id, payload, key), 0x20),
{
    let pc = checksum_of(payload);
    let enc = cbc_encrypt(key, INITIAL_VECTOR@, payload);
    let c = checksum_of(header_of(device_type, packet_type, count, mac_reversed, id, 0, pc) + enc);
    let f = frame_of(device_type, packet_type, count, mac_reversed, id, payload, key);
    lemma_header_zeroed(device_type, packet_type, count, mac_reversed, id, c, pc);
    let h = header_of(device_type, packet_type, count, mac_reversed, id, c, pc);
    assert(zero_field(f, 0x20) =~= zero_field(h, 0x20) + enc);
    assert(f[0x20] == h[0x20] && f[0x21] == h[0x21]);
}

/// A command frame passes the length and checksum checks of
/// `unpack_with_payload`, which then decrypts, under the same key, the very
/// ciphertext that packing produced.
pub proof fn lemma_command_round_trip(
    device_type: u16,
    packet_type: u16,
    count: u16,
    mac_reversed: Seq<u8>,
    id: u32,
    payload: Seq<u8>,
    key: Seq<u8>,
)
    requires
        mac_reversed.len() == 6,
    ensures
        opened(frame_of(device_type, packet_type, count, mac_reversed, id, payload, key), key)
            == decrypted(key, cbc_encrypt(key, INITIAL_VECTOR@, payload)),
{
    let pc = checksum_of(payload);
    let enc = cbc_encrypt(key, INITIAL_VECTOR@, payload);
    let c = checksum_of(header_of(device_type, packet_type, count, mac_reversed, id, 0, pc) + enc);
    let f = frame_of(device_type, packet_type, count, mac_reversed, id, payload, key);
    lemma_command_checksum_holds(device_type, packet_type, count, mac_reversed, id, payload, key);
    lemma_header_zeroed(device_type, packet_type, count, mac_reversed, id, c, pc);
    assert(f.subrange(0x38, f.len() as int) =~= enc);
}

} // verus!
