//! 256-bit unsigned words, held as four 64-bit limbs (least significant
//! first), and the ethers-core operations the tracer applies to them.
use vstd::prelude::*;
use crate::encoding::{decimal, digit_char, hex_pairs};

verus! {

/// A 256-bit unsigned integer: `limbs[0]` holds the least significant 64 bits.
/// This is the layout of `ethers_core::types::U256`.
#[derive(Clone, Copy, Debug, PartialEq, Eq)]
pub struct Uint256 {
    pub limbs: [u64; 4],
}

impl View for Uint256 {
    type V = nat;

    /// The number the limbs stand for.
    open spec fn view(&self) -> nat {
        (self.limbs[0] as nat + self.limbs[1] as nat * 0x1_0000_0000_0000_0000
            + self.limbs[2] as nat * 0x1_0000_0000_0000_0000_0000_0000_0000_0000
            + self.limbs[3] as nat * 0x1_0000_0000_0000_0000_0000_0000_0000_0000_0000_0000_0000_0000) as nat
    }
}

/// Lower-case hexadecimal text of a natural number, without leading zeros
/// (`0` is `"0"`).
pub open spec fn lower_hex(n: nat) -> Seq<char>
    decreases n,
{
    if n < 16 {
        seq![digit_char(n as int)]
    } else {
        lower_hex(n / 16).push(digit_char((n % 16) as int))
    }
}

/// The eight bytes of a `u64`, most significant first.
pub open spec fn u64_be_bytes(x: u64) -> Seq<u8> {
    seq![
        (x >> 56u64) as u8,
        (x >> 48u64) as u8,
        (x >> 40u64) as u8,
        (x >> 32u64) as u8,
        (x >> 24u64) as u8,
        (x >> 16u64) as u8,
        (x >> 8u64) as u8,
        x as u8,
    ]
}

/// The 32 bytes of a 256-bit word, most significant first.
pub open spec fn u256_be_bytes(x: Uint256) -> Seq<u8> {
    u64_be_bytes(x.limbs[3]) + u64_be_bytes(x.limbs[2]) + u64_be_bytes(x.limbs[1])
        + u64_be_bytes(x.limbs[0])
}

impl Uint256 {
    /// The word that stands for a `u64`.
    pub fn from_u64(x: u64) -> (r: Uint256)
        ensures
            r@ == x,
            r.limbs@ == seq![x, 0u64, 0u64, 0u64],
    {
        Uint256 { limbs: [x, 0, 0, 0] }
    }
}

/// `U256::is_zero` of ethers-core: true exactly when every limb is zero,
/// that is when the word stands for 0.
#[verifier::external_body]
pub(crate) fn u256_is_zero(x: &Uint256) -> (r: bool)
    ensures
        r == (x@ == 0),
{
    ethers_core::types::U256(x.limbs).is_zero()
}

/// `U256::to_big_endian` of ethers-core, into a 32-byte buffer: each limb,
/// most significant limb first, written as eight big-endian bytes.
#[verifier::external_body]
pub(crate) fn u256_to_big_endian(x: &Uint256) -> (r: [u8; 32])
    ensures
        r@ == u256_be_bytes(*x),
{
    let mut bytes = [0u8; 32];
    ethers_core::types::U256(x.limbs).to_big_endian(&mut bytes);
    bytes
}

/// The `Display` of ethers-core's `U256`: the decimal digits of the number.
#[verifier::external_body]
pub(crate) fn u256_to_decimal(x: &Uint256) -> (r: String)
    ensures
        r@ == decimal(x@),
{
    format!("{}", ethers_core::types::U256(x.limbs))
}

/// The `LowerHex` of ethers-core's `U256` (`{:x}`): lower-case hexadecimal
/// digits of the number without leading zeros, `"0"` for zero.
#[verifier::external_body]
pub(crate) fn u256_to_lower_hex(x: &Uint256) -> (r: String)
    ensures
        r@ == lower_hex(x@),
{
    format!("{:x}", ethers_core::types::U256(x.limbs))
}

/// The `LowerHex` of ethers-core's `H160` (`{:x}` of an address): every byte
/// as two lower-case hexadecimal digits.
#[verifier::external_body]
pub(crate) fn h160_to_lower_hex(x: &[u8; 20]) -> (r: String)
    ensures
        r@ == hex_pairs(x@),
{
    format!("{:x}", ethers_core::types::H160(*x))
}

/// The `LowerHex` of ethers-core's `H256` (`{:x}` of a hash): every byte as
/// two lower-case hexadecimal digits.
#[verifier::external_body]
pub(crate) fn h256_to_lower_hex(x: &[u8; 32]) -> (r: String)
    ensures
        r@ == hex_pairs(x@),
{
    format!("{:x}", ethers_core::types::H256(*x))
}

/// The `LowerHex` of ethers-core's `Bloom` (`{:x}` of a 256-byte logs bloom):
/// every byte as two lower-case hexadecimal digits.
#[verifier::external_body]
pub(crate) fn bloom_to_lower_hex(x: &[u8; 256]) -> (r: String)
    ensures
        r@ == hex_pairs(x@),
{
    format!("{:x}", ethers_core::types::Bloom(*x))
}

/// `H64::from_low_u64_be` of ethers-core: the eight big-endian bytes of `x`.
#[verifier::external_body]
pub(crate) fn h64_from_low_u64_be(x: u64) -> (r: [u8; 8])
    ensures
        r@ == u64_be_bytes(x),
{
    ethers_core::types::H64::from_low_u64_be(x).0
}

/// A `u64` is zero when its eight big-endian bytes are.
pub proof fn lemma_u64_be_bytes_zero(x: u64)
    ensures
        (x == 0) <==> (forall|i: int| 0 <= i < 8 ==> #[trigger] u64_be_bytes(x)[i] == 0),
{
    let b = u64_be_bytes(x);
    if forall|i: int| 0 <= i < 8 ==> #[trigger] u64_be_bytes(x)[i] == 0 {
        assert(b[0] == 0 && b[1] == 0 && b[2] == 0 && b[3] == 0);
        assert(b[4] == 0 && b[5] == 0 && b[6] == 0 && b[7] == 0);
        assert(((x >> 56u64) as u8 == 0 && (x >> 48u64) as u8 == 0 && (x >> 40u64) as u8 == 0
            && (x >> 32u64) as u8 == 0 && (x >> 24u64) as u8 == 0 && (x >> 16u64) as u8 == 0
            && (x >> 8u64) as u8 == 0 && x as u8 == 0) ==> x == 0) by (bit_vector);
    }
    if x == 0 {
        assert(((x >> 56u64) as u8 == 0 && (x >> 48u64) as u8 == 0 && (x >> 40u64) as u8 == 0
            && (x >> 32u64) as u8 == 0 && (x >> 24u64) as u8 == 0 && (x >> 16u64) as u8 == 0
            && (x >> 8u64) as u8 == 0 && x as u8 == 0)) by (bit_vector)
            requires x == 0;
    }
}

} // verus!
