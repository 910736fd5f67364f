//! Plain values of the chain: addresses, 256-bit and 48-bit unsigned
//! numbers, and the hexadecimal text that addresses are written in.
use alloy::primitives::hex::FromHexError;
use std::str::FromStr;
use vstd::prelude::*;

verus! {

/// Whether `c` is one of `0-9`, `a-f`, `A-F`.
pub open spec fn is_hex_digit(c: char) -> bool {
    ('0' <= c && c <= '9') || ('a' <= c && c <= 'f') || ('A' <= c && c <= 'F')
}

/// The number a hexadecimal digit stands for.
pub open spec fn hex_digit_value(c: char) -> int
    recommends
        is_hex_digit(c),
{
    if '0' <= c && c <= '9' {
        c as int - '0' as int
    } else if 'a' <= c && c <= 'f' {
        c as int - 'a' as int + 10
    } else {
        c as int - 'A' as int + 10
    }
}

/// `s` without a leading `0x` or `0X`, if it has one.
pub open spec fn strip_hex_prefix(s: Seq<char>) -> Seq<char> {
    if s.len() >= 2 && s[0] == '0' && (s[1] == 'x' || s[1] == 'X') {
        s.skip(2)
    } else {
        s
    }
}

/// Whether every element of `s` is a hexadecimal digit.
pub open spec fn all_hex_digits(s: Seq<char>) -> bool {
    forall|i: int| 0 <= i < s.len() ==> is_hex_digit(#[trigger] s[i])
}

/// The bytes that an even number of hexadecimal digits spell, two digits a
/// byte, the high digit first.
pub open spec fn hex_decoded(digits: Seq<char>) -> Seq<u8>
    recommends
        all_hex_digits(digits),
        digits.len() % 2 == 0,
{
    Seq::new(
        digits.len() / 2,
        |i: int| (16 * hex_digit_value(digits[2 * i]) + hex_digit_value(digits[2 * i + 1])) as u8,
    )
}

/// Whether `c` is one of `0-9`, `a-f`.
pub open spec fn is_lower_hex_digit(c: char) -> bool {
    ('0' <= c && c <= '9') || ('a' <= c && c <= 'f')
}

/// The lower-case hexadecimal digit for a number below sixteen.
pub open spec fn lower_hex_digit(v: int) -> char
    recommends
        0 <= v < 16,
{
    if v < 10 {
        ('0' as int + v) as char
    } else {
        ('a' as int + v - 10) as char
    }
}

/// The lower-case hexadecimal text of `bytes`: two digits a byte, the high
/// digit first.
pub open spec fn lower_hex(bytes: Seq<u8>) -> Seq<char> {
    Seq::new(
        2 * bytes.len(),
        |i: int|
            lower_hex_digit(
                if i % 2 == 0 {
                    bytes[i / 2] as int / 16
                } else {
                    bytes[i / 2] as int % 16
                },
            ),
    )
}

/// `0x` and the lower-case hexadecimal text of `bytes`.
pub open spec fn prefixed_lower_hex(bytes: Seq<u8>) -> Seq<char> {
    seq!['0', 'x'] + lower_hex(bytes)
}

/// Every element of the lower-case hexadecimal text is a lower-case digit.
pub proof fn lemma_lower_hex_digits(bytes: Seq<u8>, i: int)
    requires
        0 <= i < 2 * bytes.len(),
    ensures
        lower_hex(bytes).len() == 2 * bytes.len(),
        is_lower_hex_digit(lower_hex(bytes)[i]),
{
    let b = bytes[i / 2] as int;
    assert(0 <= b / 16 < 16);
    assert(0 <= b % 16 < 16);
}

/// Whether `s` is the text of an address: forty hexadecimal digits of either
/// case, with or without a `0x` prefix.
pub open spec fn is_address_text(s: Seq<char>) -> bool {
    let digits = strip_hex_prefix(s);
    digits.len() == 40 && all_hex_digits(digits)
}

/// The twenty bytes that the text of an address spells.
pub open spec fn address_bytes_of(s: Seq<char>) -> Seq<u8>
    recommends
        is_address_text(s),
{
    hex_decoded(strip_hex_prefix(s))
}

/// A twenty-byte account or contract address.
#[derive(Debug, Clone, Copy, PartialEq, Eq)]
pub struct Address {
    /// The address, first byte first.
    pub bytes: [u8; 20],
}

impl View for Address {
    type V = Seq<u8>;

    open spec fn view(&self) -> Seq<u8> {
        self.bytes@
    }
}

/// The view of an [`Address`] loses nothing: two addresses of the same
/// bytes are equal.
pub proof fn lemma_address_view_injective(a: Address, b: Address)
    requires
        a@ == b@,
    ensures
        a == b,
{
    assert(a.bytes =~= b.bytes);
}

/// The text given is not the text of an address.
#[derive(Debug, Clone, Copy, PartialEq, Eq, Structural)]
pub struct InvalidAddress;

/// Decodes the text of an address with `Address::from_str` of
/// alloy-primitives, which hands the text to const-hex's `decode_to_array`.
///
/// Claimed of it: the call succeeds exactly on forty hexadecimal digits with
/// an optional `0x` or `0X` in front, and then returns the bytes those digits
/// spell, two digits a byte. No checksum is looked at.
#[verifier::external_body]
fn address_from_str(s: &str) -> (r: Result<[u8; 20], FromHexError>)
    ensures
        r is Ok <==> is_address_text(s@),
        r matches Ok(bytes) ==> bytes@ == address_bytes_of(s@),
{
    match alloy::primitives::Address::from_str(s) {
        Ok(address) => Ok(address.into_array()),
        Err(e) => Err(e),
    }
}

impl Address {
    /// Reads an address from its hexadecimal text.
    pub fn parse(s: &str) -> (r: Result<Address, InvalidAddress>)
        ensures
            r is Ok <==> is_address_text(s@),
            r matches Ok(address) ==> address@ == address_bytes_of(s@),
    {
        match address_from_str(s) {
            Ok(bytes) => Ok(Address { bytes }),
            Err(_) => Err(InvalidAddress),
        }
    }
}

/// Two to the power of sixty-four: the weight of the second limb of a [`U256`].
pub open spec fn limb_weight() -> nat {
    0x1_0000_0000_0000_0000
}

/// A 256-bit unsigned number, held as four 64-bit limbs.
#[derive(Debug, Clone, Copy, PartialEq, Eq)]
pub struct U256 {
    /// The limbs, least significant first.
    pub limbs: [u64; 4],
}

impl View for U256 {
    type V = nat;

    /// The number that the limbs spell.
    open spec fn view(&self) -> nat {
        let w = limb_weight();
        self.limbs[0] as nat + w * (self.limbs[1] as nat + w * (self.limbs[2] as nat + w
            * self.limbs[3] as nat))
    }
}

impl U256 {
    /// The 256-bit number equal to `value`.
    pub fn from_u64(value: u64) -> (n: Self)
        ensures
            n@ == value,
            n.limbs@ == seq![value, 0u64, 0u64, 0u64],
    {
        U256 { limbs: [value, 0, 0, 0] }
    }
}

/// The view of a [`U256`] loses nothing: two numbers of one value have the
/// same limbs.
pub proof fn lemma_u256_view_injective(a: U256, b: U256)
    requires
        a@ == b@,
    ensures
        a == b,
{
    let w = limb_weight() as int;
    let a2 = a.limbs[2] as int + w * a.limbs[3] as int;
    let b2 = b.limbs[2] as int + w * b.limbs[3] as int;
    let a1 = a.limbs[1] as int + w * a2;
    let b1 = b.limbs[1] as int + w * b2;
    lemma_digit_unique(a.limbs[0] as int, a1, b.limbs[0] as int, b1);
    lemma_digit_unique(a.limbs[1] as int, a2, b.limbs[1] as int, b2);
    lemma_digit_unique(a.limbs[2] as int, a.limbs[3] as int, b.limbs[2] as int, b.limbs[3] as int);
    assert(a.limbs =~= b.limbs);
}

/// A number written as a digit below `limb_weight()` and a rest is written
/// so in one way only.
proof fn lemma_digit_unique(d1: int, rest1: int, d2: int, rest2: int)
    requires
        0 <= d1 < limb_weight(),
        0 <= d2 < limb_weight(),
        d1 + limb_weight() * rest1 == d2 + limb_weight() * rest2,
    ensures
        d1 == d2,
        rest1 == rest2,
{
    let w = limb_weight() as int;
    assert(d1 + w * rest1 == rest1 * w + d1) by (nonlinear_arith);
    assert(d2 + w * rest2 == rest2 * w + d2) by (nonlinear_arith);
    vstd::arithmetic::div_mod::lemma_fundamental_div_mod_converse(d1 + w * rest1, w, rest1, d1);
    vstd::arithmetic::div_mod::lemma_fundamental_div_mod_converse(d2 + w * rest2, w, rest2, d2);
}

/// The largest number that fits in 48 bits.
pub const U48_MAX: u64 = 0xffff_ffff_ffff;

/// A 48-bit unsigned number, the width of a forward request's deadline.
#[derive(Debug, Clone, Copy, PartialEq, Eq)]
pub struct U48 {
    value: u64,
}

impl View for U48 {
    type V = nat;

    closed spec fn view(&self) -> nat {
        self.value as nat
    }
}

/// The view of a [`U48`] loses nothing: two numbers of one value are equal.
pub proof fn lemma_u48_view_injective(a: U48, b: U48)
    requires
        a@ == b@,
    ensures
        a == b,
{
}

impl U48 {
    #[verifier::type_invariant]
    spec fn fits(self) -> bool {
        self.value <= U48_MAX
    }

    /// The 48-bit number equal to `value`, where there is one.
    pub fn new(value: u64) -> (n: Option<Self>)
        ensures
            n is Some <==> value <= U48_MAX,
            n matches Some(n) ==> n@ == value,
    {
        if value <= U48_MAX {
            Some(U48 { value })
        } else {
            None
        }
    }

    /// The number as a `u64`.
    pub fn get(&self) -> (value: u64)
        ensures
            value == self@,
            value <= U48_MAX,
    {
        proof {
            use_type_invariant(self);
        }
        self.value
    }
}

/// The error of alloy's hexadecimal decoder, carried from the decoder to the
/// place where it becomes an error of this library.
#[verifier::external_type_specification]
#[verifier::external_body]
pub struct ExFromHexError(alloy::primitives::hex::FromHexError);

} // verus!
