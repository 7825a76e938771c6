//! Fixed-width values and their little-endian byte encoding.
//!
//! Every multi-byte field of an image, and every numeric parameter written
//! into a process, is stored least significant byte first. [`Pod`] ties a
//! value type to that encoding; it is implemented for the unsigned integers
//! of one, two, four and eight bytes.

use vstd::prelude::*;

verus! {

/// `256` to the power `n`.
pub open spec fn pow256(n: nat) -> nat
    decreases n,
{
    if n == 0 {
        1
    } else {
        256 * pow256((n - 1) as nat)
    }
}

/// The number that `bytes` encodes, least significant byte first.
pub open spec fn le_value(bytes: Seq<u8>) -> nat
    decreases bytes.len(),
{
    if bytes.len() == 0 {
        0
    } else {
        bytes[0] as nat + 256 * le_value(bytes.skip(1))
    }
}

/// The `width` low bytes of `value`, least significant byte first.
pub open spec fn le_bytes(value: nat, width: nat) -> Seq<u8>
    decreases width,
{
    if width == 0 {
        Seq::empty()
    } else {
        seq![(value % 256) as u8] + le_bytes(value / 256, (width - 1) as nat)
    }
}

/// `le_bytes` yields exactly `width` bytes.
pub proof fn lemma_le_bytes_len(value: nat, width: nat)
    ensures
        le_bytes(value, width).len() == width,
    decreases width,
{
    if width > 0 {
        lemma_le_bytes_len(value / 256, (width - 1) as nat);
    }
}

/// A sequence of `n` bytes encodes a number below `256^n`.
pub proof fn lemma_le_value_bound(bytes: Seq<u8>)
    ensures
        le_value(bytes) < pow256(bytes.len()),
    decreases bytes.len(),
{
    if bytes.len() > 0 {
        lemma_le_value_bound(bytes.skip(1));
    }
}

/// Decoding what was encoded gives the value back, as long as the value
/// fits in `width` bytes.
pub proof fn lemma_value_of_bytes(value: nat, width: nat)
    requires
        value < pow256(width),
    ensures
        le_value(le_bytes(value, width)) == value,
    decreases width,
{
    if width > 0 {
        let rest = le_bytes(value / 256, (width - 1) as nat);
        let all = le_bytes(value, width);
        assert(all.skip(1) =~= rest);
        assert(all[0] == (value % 256) as u8);
        lemma_value_of_bytes(value / 256, (width - 1) as nat);
    }
}

/// Encoding what was decoded gives the bytes back.
pub proof fn lemma_bytes_of_value(bytes: Seq<u8>)
    ensures
        le_bytes(le_value(bytes), bytes.len()) == bytes,
    decreases bytes.len(),
{
    if bytes.len() > 0 {
        let tail = bytes.skip(1);
        lemma_bytes_of_value(tail);
        let value = le_value(bytes);
        assert(value % 256 == bytes[0] as nat);
        assert(value / 256 == le_value(tail));
        assert(le_bytes(value, bytes.len()) =~= bytes);
    }
}

/// Reads up to eight bytes as one number.
pub fn decode_le(bytes: &[u8]) -> (value: u64)
    requires
        bytes@.len() <= 8,
    ensures
        value == le_value(bytes@),
{
    let n: usize = bytes.len();
    let mut value: u64 = 0;
    let mut i: usize = n;
    proof {
        assert(bytes@.subrange(n as int, n as int) =~= Seq::<u8>::empty());
    }
    while i > 0
        invariant
            n == bytes@.len(),
            n <= 8,
            i <= n,
            value == le_value(bytes@.subrange(i as int, n as int)),
        decreases i,
    {
        let ghost tail = bytes@.subrange(i as int, n as int);
        i = i - 1;
        let ghost whole = bytes@.subrange(i as int, n as int);
        proof {
            assert(whole.skip(1) =~= tail);
            assert(whole[0] == bytes@[i as int]);
            lemma_le_value_bound(tail);
            lemma_pow256_monotonic(tail.len(), 7);
            reveal_with_fuel(pow256, 9);
            assert(pow256(7) == 0x100_0000_0000_0000);
        }
        value = value * 256 + bytes[i] as u64;
    }
    proof {
        assert(bytes@.subrange(0, n as int) =~= bytes@);
    }
    value
}

/// `pow256` grows with its argument.
pub proof fn lemma_pow256_monotonic(a: nat, b: nat)
    requires
        a <= b,
    ensures
        pow256(a) <= pow256(b),
        pow256(a) >= 1,
    decreases b,
{
    if a < b {
        lemma_pow256_monotonic(a, (b - 1) as nat);
    } else if a > 0 {
        lemma_pow256_monotonic((a - 1) as nat, (a - 1) as nat);
    }
}

/// Writes the `width` low bytes of `value`.
pub fn encode_le(value: u64, width: usize) -> (bytes: Vec<u8>)
    ensures
        bytes@ == le_bytes(value as nat, width as nat),
{
    let mut bytes: Vec<u8> = Vec::new();
    let mut rest: u64 = value;
    let mut i: usize = 0;
    while i < width
        invariant
            i <= width,
            bytes@ + le_bytes(rest as nat, (width - i) as nat) == le_bytes(
                value as nat,
                width as nat,
            ),
        decreases width - i,
    {
        let ghost before = bytes@;
        let low: u8 = (rest % 256) as u8;
        bytes.push(low);
        proof {
            let k = (width - i) as nat;
            assert(le_bytes(rest as nat, k) == seq![low] + le_bytes(
                (rest / 256) as nat,
                (k - 1) as nat,
            ));
            assert(bytes@ + le_bytes((rest / 256) as nat, (k - 1) as nat) =~= before + le_bytes(
                rest as nat,
                k,
            ));
        }
        rest = rest / 256;
        i = i + 1;
    }
    proof {
        assert(bytes@ + Seq::<u8>::empty() =~= bytes@);
    }
    bytes
}

/// A value type of fixed width whose every bit pattern is a value, stored
/// least significant byte first.
pub trait Pod: Copy + Sized {
    /// The number of bytes a value occupies.
    spec fn spec_size() -> nat;

    /// The bytes that store `self`.
    spec fn spec_to_bytes(self) -> Seq<u8>;

    /// The value that `bytes` store.
    spec fn spec_from_bytes(bytes: Seq<u8>) -> Self;

    /// A value occupies `spec_size()` bytes and is recovered from them.
    proof fn lemma_value_round_trip(value: Self)
        ensures
            value.spec_to_bytes().len() == Self::spec_size(),
            Self::spec_from_bytes(value.spec_to_bytes()) == value,
    ;

    /// Bytes of the right width are recovered from the value they store.
    proof fn lemma_bytes_round_trip(bytes: Seq<u8>)
        requires
            bytes.len() == Self::spec_size(),
        ensures
            Self::spec_from_bytes(bytes).spec_to_bytes() == bytes,
    ;

    /// The width in bytes; never zero.
    fn size() -> (n: usize)
        ensures
            n == Self::spec_size(),
            0 < n <= 8,
    ;

    /// Decodes a value from exactly `size()` bytes.
    fn from_bytes(bytes: &[u8]) -> (value: Self)
        requires
            bytes@.len() == Self::spec_size(),
        ensures
            value == Self::spec_from_bytes(bytes@),
    ;

    /// Encodes the value.
    fn to_bytes(&self) -> (bytes: Vec<u8>)
        ensures
            bytes@ == self.spec_to_bytes(),
    ;
}

impl Pod for u8 {
    open spec fn spec_size() -> nat {
        1
    }

    open spec fn spec_to_bytes(self) -> Seq<u8> {
        le_bytes(self as nat, 1)
    }

    open spec fn spec_from_bytes(bytes: Seq<u8>) -> u8 {
        le_value(bytes) as u8
    }

    proof fn lemma_value_round_trip(value: u8) {
        reveal_with_fuel(pow256, 3);
        lemma_le_bytes_len(value as nat, 1);
        lemma_value_of_bytes(value as nat, 1);
    }

    proof fn lemma_bytes_round_trip(bytes: Seq<u8>) {
        reveal_with_fuel(pow256, 3);
        lemma_le_value_bound(bytes);
        lemma_bytes_of_value(bytes);
    }

    fn size() -> (n: usize) {
        1
    }

    fn from_bytes(bytes: &[u8]) -> (value: u8) {
        proof {
            reveal_with_fuel(pow256, 3);
            lemma_le_value_bound(bytes@);
        }
        decode_le(bytes) as u8
    }

    fn to_bytes(&self) -> (bytes: Vec<u8>) {
        encode_le(*self as u64, 1)
    }
}

impl Pod for u16 {
    open spec fn spec_size() -> nat {
        2
    }

    open spec fn spec_to_bytes(self) -> Seq<u8> {
        le_bytes(self as nat, 2)
    }

    open spec fn spec_from_bytes(bytes: Seq<u8>) -> u16 {
        le_value(bytes) as u16
    }

    proof fn lemma_value_round_trip(value: u16) {
        reveal_with_fuel(pow256, 3);
        lemma_le_bytes_len(value as nat, 2);
        lemma_value_of_bytes(value as nat, 2);
    }

    proof fn lemma_bytes_round_trip(bytes: Seq<u8>) {
        reveal_with_fuel(pow256, 3);
        lemma_le_value_bound(bytes);
        lemma_bytes_of_value(bytes);
    }

    fn size() -> (n: usize) {
        2
    }

    fn from_bytes(bytes: &[u8]) -> (value: u16) {
        proof {
            reveal_with_fuel(pow256, 3);
            lemma_le_value_bound(bytes@);
        }
        decode_le(bytes) as u16
    }

    fn to_bytes(&self) -> (bytes: Vec<u8>) {
        encode_le(*self as u64, 2)
    }
}

impl Pod for u32 {
    open spec fn spec_size() -> nat {
        4
    }

    open spec fn spec_to_bytes(self) -> Seq<u8> {
        le_bytes(self as nat, 4)
    }

    open spec fn spec_from_bytes(bytes: Seq<u8>) -> u32 {
        le_value(bytes) as u32
    }

    proof fn lemma_value_round_trip(value: u32) {
        reveal_with_fuel(pow256, 5);
        lemma_le_bytes_len(value as nat, 4);
        lemma_value_of_bytes(value as nat, 4);
    }

    proof fn lemma_bytes_round_trip(bytes: Seq<u8>) {
        reveal_with_fuel(pow256, 5);
        lemma_le_value_bound(bytes);
        lemma_bytes_of_value(bytes);
    }

    fn size() -> (n: usize) {
        4
    }

    fn from_bytes(bytes: &[u8]) -> (value: u32) {
        proof {
            reveal_with_fuel(pow256, 5);
            lemma_le_value_bound(bytes@);
        }
        decode_le(bytes) as u32
    }

    fn to_bytes(&self) -> (bytes: Vec<u8>) {
        encode_le(*self as u64, 4)
    }
}

impl Pod for u64 {
    open spec fn spec_size() -> nat {
        8
    }

    open spec fn spec_to_bytes(self) -> Seq<u8> {
        le_bytes(self as nat, 8)
    }

    open spec fn spec_from_bytes(bytes: Seq<u8>) -> u64 {
        le_value(bytes) as u64
    }

    proof fn lemma_value_round_trip(value: u64) {
        reveal_with_fuel(pow256, 9);
        lemma_le_bytes_len(value as nat, 8);
        lemma_value_of_bytes(value as nat, 8);
    }

    proof fn lemma_bytes_round_trip(bytes: Seq<u8>) {
        reveal_with_fuel(pow256, 9);
        lemma_le_value_bound(bytes);
        lemma_bytes_of_value(bytes);
    }

    fn size() -> (n: usize) {
        8
    }

    fn from_bytes(bytes: &[u8]) -> (value: u64) {
        decode_le(bytes)
    }

    fn to_bytes(&self) -> (bytes: Vec<u8>) {
        encode_le(*self, 8)
    }
}

} // verus!
