//! Checksums over byte sequences, and the CRC-8/SMBUS checksum that
//! payloads carry.

use vstd::prelude::*;

verus! {

/// One shift of the CRC-8 register with the generator polynomial 0x07.
pub open spec fn spec_crc8_shift(s: u8) -> u8 {
    if s >= 128 {
        (((s - 128) * 2) as u8) ^ 0x07u8
    } else {
        (s * 2) as u8
    }
}

/// The register after feeding one byte: the byte is xor-ed into the register,
/// which then shifts eight times.
pub open spec fn spec_crc8_byte(s: u8, b: u8) -> u8 {
    let x = s ^ b;
    spec_crc8_shift(
        spec_crc8_shift(
            spec_crc8_shift(
                spec_crc8_shift(
                    spec_crc8_shift(spec_crc8_shift(spec_crc8_shift(spec_crc8_shift(x)))),
                ),
            ),
        ),
    )
}

/// CRC-8/SMBUS of a byte sequence: polynomial 0x07, initial register 0, no
/// reflection of input or output, no final xor.
pub open spec fn spec_crc8_smbus(data: Seq<u8>) -> u8
    decreases data.len(),
{
    if data.len() == 0 {
        0
    } else {
        spec_crc8_byte(spec_crc8_smbus(data.drop_last()), data.last())
    }
}

/// The catalog's check value: the CRC-8/SMBUS of the ASCII digits "123456789"
/// is 0xf4.
pub proof fn lemma_crc8_smbus_check_value()
    ensures
        spec_crc8_smbus(seq![0x31u8, 0x32u8, 0x33u8, 0x34u8, 0x35u8, 0x36u8, 0x37u8, 0x38u8, 0x39u8])
            == 0xf4u8,
{
    let digits = seq![0x31u8, 0x32u8, 0x33u8, 0x34u8, 0x35u8, 0x36u8, 0x37u8, 0x38u8, 0x39u8];
    assert(spec_crc8_byte(0x00, 0x31) == 0x97) by (bit_vector);
    assert(spec_crc8_byte(0x97, 0x32) == 0x72) by (bit_vector);
    assert(spec_crc8_byte(0x72, 0x33) == 0xc0) by (bit_vector);
    assert(spec_crc8_byte(0xc0, 0x34) == 0xc2) by (bit_vector);
    assert(spec_crc8_byte(0xc2, 0x35) == 0xcb) by (bit_vector);
    assert(spec_crc8_byte(0xcb, 0x36) == 0xfd) by (bit_vector);
    assert(spec_crc8_byte(0xfd, 0x37) == 0x78) by (bit_vector);
    assert(spec_crc8_byte(0x78, 0x38) == 0xc7) by (bit_vector);
    assert(spec_crc8_byte(0xc7, 0x39) == 0xf4) by (bit_vector);
    assert(spec_crc8_smbus(digits.take(0)) == 0u8);
    assert(digits.take(1).drop_last() =~= digits.take(0));
    assert(spec_crc8_smbus(digits.take(1)) == 0x97u8);
    assert(digits.take(2).drop_last() =~= digits.take(1));
    assert(spec_crc8_smbus(digits.take(2)) == 0x72u8);
    assert(digits.take(3).drop_last() =~= digits.take(2));
    assert(spec_crc8_smbus(digits.take(3)) == 0xc0u8);
    assert(digits.take(4).drop_last() =~= digits.take(3));
    assert(spec_crc8_smbus(digits.take(4)) == 0xc2u8);
    assert(digits.take(5).drop_last() =~= digits.take(4));
    assert(spec_crc8_smbus(digits.take(5)) == 0xcbu8);
    assert(digits.take(6).drop_last() =~= digits.take(5));
    assert(spec_crc8_smbus(digits.take(6)) == 0xfdu8);
    assert(digits.take(7).drop_last() =~= digits.take(6));
    assert(spec_crc8_smbus(digits.take(7)) == 0x78u8);
    assert(digits.take(8).drop_last() =~= digits.take(7));
    assert(spec_crc8_smbus(digits.take(8)) == 0xc7u8);
    assert(digits.take(9).drop_last() =~= digits.take(8));
    assert(spec_crc8_smbus(digits.take(9)) == 0xf4u8);
    assert(digits.take(9) =~= digits);
}

/// Calls `crc::Crc::<u8>::checksum` with the `crc::CRC_8_SMBUS` algorithm.
/// Claimed: the result is the CRC-8/SMBUS of the bytes, as `spec_crc8_smbus`
/// states it (the algorithm's parameters in the crate's catalog are width 8,
/// polynomial 0x07, initial value 0, no reflection, no final xor, and the
/// check value that `lemma_crc8_smbus_check_value` derives from the statement).
#[verifier::external_body]
pub(crate) fn crc8_smbus(vals: &[u8]) -> (r: u8)
    ensures
        r == spec_crc8_smbus(vals@),
{
    let crc: crc::Crc<u8> = crc::Crc::<u8>::new(&crc::CRC_8_SMBUS);
    crc.checksum(vals)
}

/// An inline vector of up to eight bytes (spilling to the heap beyond that),
/// held opaquely.
#[verifier::external_body]
pub struct ChecksumBytes {
    inner: smallvec::SmallVec<[u8; 8]>,
}

/// The bytes that a [`ChecksumBytes`] holds.
pub uninterp spec fn small_bytes(v: ChecksumBytes) -> Seq<u8>;

/// Calls `smallvec::SmallVec::new`. Claimed: the vector is empty.
#[verifier::external_body]
fn small_bytes_new() -> (r: ChecksumBytes)
    ensures
        small_bytes(r) == Seq::<u8>::empty(),
{
    ChecksumBytes { inner: smallvec::SmallVec::new() }
}

/// Calls `smallvec::SmallVec::push`. Claimed: the byte is appended at the end.
#[verifier::external_body]
fn small_bytes_push(v: &mut ChecksumBytes, b: u8)
    requires
        small_bytes(*old(v)).len() < usize::MAX,
    ensures
        small_bytes(*final(v)) == small_bytes(*old(v)).push(b),
{
    v.inner.push(b)
}

impl ChecksumBytes {
    /// Calls `smallvec::SmallVec::as_slice`. Claimed: the slice holds the
    /// vector's bytes in order.
    #[verifier::external_body]
    pub fn as_slice(&self) -> (r: &[u8])
        ensures
            r@ == small_bytes(*self),
    {
        self.inner.as_slice()
    }
}

/// A checksum algorithm over byte sequences.
pub trait Checksum {
    type Output;

    /// The checksum of a byte sequence.
    spec fn spec_checksum(vals: Seq<u8>) -> Self::Output;

    /// The bytes that stand for the checksum of a byte sequence.
    spec fn spec_checksum_bytes(vals: Seq<u8>) -> Seq<u8>;

    fn checksum(vals: &[u8]) -> (r: Self::Output)
        ensures
            r == Self::spec_checksum(vals@),
    ;

    /// The checksum that bytes stand for, read in the algorithm's byte order.
    spec fn spec_from_bytes(bytes: Seq<u8>) -> Self::Output;

    /// The bytes of a checksum: as many as the checksum type occupies, and
    /// reading them back gives the checksum.
    fn checksum_array(vals: &[u8]) -> (r: ChecksumBytes)
        ensures
            small_bytes(r) == Self::spec_checksum_bytes(vals@),
            small_bytes(r).len() == vstd::layout::size_of::<Self::Output>(),
            Self::spec_from_bytes(small_bytes(r)) == Self::spec_checksum(vals@),
    ;
}

/// The checksum of every message payload: CRC-8/SMBUS, one byte.
#[derive(Debug, Clone, Copy, PartialEq, Eq, Structural, Hash)]
pub struct StandardCRC;

impl Checksum for StandardCRC {
    type Output = u8;

    open spec fn spec_checksum(vals: Seq<u8>) -> u8 {
        spec_crc8_smbus(vals)
    }

    open spec fn spec_checksum_bytes(vals: Seq<u8>) -> Seq<u8> {
        seq![spec_crc8_smbus(vals)]
    }

    open spec fn spec_from_bytes(bytes: Seq<u8>) -> u8 {
        bytes[0]
    }

    fn checksum(vals: &[u8]) -> (r: u8) {
        crc8_smbus(vals)
    }

    fn checksum_array(vals: &[u8]) -> (r: ChecksumBytes) {
        let mut ret = small_bytes_new();
        small_bytes_push(&mut ret, Self::checksum(vals));
        assert(small_bytes(ret) =~= seq![spec_crc8_smbus(vals@)]);
        proof {
            broadcast use vstd::layout::layout_of_primitives;

            assert(vstd::layout::size_of::<u8>() == 1);
        }
        ret
    }
}

/// The number of bytes of a checksum's output.
pub fn size<T: Checksum>() -> (r: usize)
    ensures
        r as nat == vstd::layout::size_of::<T::Output>(),
{
    core::mem::size_of::<T::Output>()
}

} // verus!
