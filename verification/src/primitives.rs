//! Addresses, hashes and 256-bit numbers as plain integers, with the textual
//! forms the panels print.

use vstd::prelude::*;

use crate::text::all_hex;
use crate::text::dec;
use crate::text::hex_bytes;
use crate::text::hex_fixed;
use crate::text::hex_number;
use crate::text::hex_value;
use crate::text::lowered;

verus! {

/// Two to the 128th.
pub open spec fn word() -> nat {
    0x1_0000_0000_0000_0000_0000_0000_0000_0000nat
}

/// A 20-byte account address: `hi` holds the first four bytes, `lo` the other
/// sixteen, both big-endian.
#[derive(Debug, Clone, Copy, PartialEq, Eq, Structural)]
pub struct Address {
    pub hi: u32,
    pub lo: u128,
}

impl View for Address {
    type V = Address;

    open spec fn view(&self) -> Address {
        *self
    }
}

/// A 32-byte hash, as two big-endian halves.
#[derive(Debug, Clone, Copy, PartialEq, Eq, Structural)]
pub struct B256 {
    pub hi: u128,
    pub lo: u128,
}

impl View for B256 {
    type V = B256;

    open spec fn view(&self) -> B256 {
        *self
    }
}

/// An unsigned 256-bit number, as two halves.
#[derive(Debug, Clone, Copy, PartialEq, Eq, Structural)]
pub struct U256 {
    pub hi: u128,
    pub lo: u128,
}

impl View for U256 {
    type V = U256;

    open spec fn view(&self) -> U256 {
        *self
    }
}

impl U256 {
    /// Zero.
    pub open spec fn zero_value() -> U256 {
        U256 { hi: 0, lo: 0 }
    }

    /// Whether the number is zero.
    pub fn is_zero(self) -> (r: bool)
        ensures
            r == (self == U256::zero_value()),
    {
        self.hi == 0 && self.lo == 0
    }
}

/// What follows an optional `0x` or `0X`.
pub open spec fn after_prefix(s: Seq<char>) -> Seq<char> {
    if s.len() >= 2 && s[0] == '0' && (s[1] == 'x' || s[1] == 'X') {
        s.skip(2)
    } else {
        s
    }
}

/// The address a text spells: forty hexadecimal digits of any case, with or
/// without a `0x` in front. No checksum is consulted.
pub open spec fn spelled_address(s: Seq<char>) -> Option<Address> {
    let digits = after_prefix(s);
    if digits.len() == 40 && all_hex(digits) {
        Some(Address::of_value(hex_number(digits)))
    } else {
        None
    }
}

impl Address {
    /// The address as a number.
    pub open spec fn value(self) -> nat {
        self.hi as nat * word() + self.lo as nat
    }

    /// The address whose number is `n`.
    pub open spec fn of_value(n: nat) -> Address {
        Address { hi: (n / word()) as u32, lo: (n % word()) as u128 }
    }

    /// `0x` and forty lower-case hexadecimal digits.
    pub open spec fn hex_text(self) -> Seq<char> {
        "0x"@ + hex_fixed(self.value(), 40)
    }

    /// The first six and the last four characters of the full form.
    pub open spec fn short_text(self) -> Seq<char> {
        self.hex_text().take(6) + "…"@ + self.hex_text().skip(38)
    }
}

impl B256 {
    /// The hash as a number.
    pub open spec fn value(self) -> nat {
        self.hi as nat * word() + self.lo as nat
    }

    /// `0x` and sixty-four lower-case hexadecimal digits.
    pub open spec fn hex_text(self) -> Seq<char> {
        "0x"@ + hex_fixed(self.value(), 64)
    }
}

/// `<alloy::primitives::Address as FromStr>::from_str`: the address that forty
/// hexadecimal digits spell, after an optional `0x` or `0X`; nothing for any
/// other text.
#[verifier::external_body]
pub(crate) fn parse_hex_address(s: &str) -> (r: Option<Address>)
    ensures
        r == spelled_address(s@),
{
    match s.parse::<alloy::primitives::Address>() {
        Ok(a) => {
            let b: [u8; 20] = a.into();
            Some(
                Address {
                    hi: u32::from_be_bytes(b[..4].try_into().ok()?),
                    lo: u128::from_be_bytes(b[4..].try_into().ok()?),
                },
            )
        },
        Err(_) => None,
    }
}

/// `LowerHex` of `alloy::primitives::Address` with the alternate flag: `0x` and
/// forty lower-case hexadecimal digits.
#[verifier::external_body]
pub(crate) fn hex_of_address(a: Address) -> (r: String)
    ensures
        r@ == a.hex_text(),
{
    let mut bytes: [u8; 20] = [0; 20];
    bytes[..4].copy_from_slice(&a.hi.to_be_bytes());
    bytes[4..].copy_from_slice(&a.lo.to_be_bytes());
    format!("{:#x}", alloy::primitives::Address::from(bytes))
}

/// The EIP-55 form of an address: its full form with the case of some letters
/// raised, as a hash of the digits decides.
pub uninterp spec fn checksum_text(a: Address) -> Seq<char>;

/// `Display` of `alloy::primitives::Address`: the full form with EIP-55
/// capitals. Which letters are capitals is a function of the address; folding
/// the case gives the lower-case full form.
#[verifier::external_body]
pub(crate) fn checksum_of_address(a: Address) -> (r: String)
    ensures
        r@ == checksum_text(a),
        lowered(r@) == a.hex_text(),
{
    let mut bytes: [u8; 20] = [0; 20];
    bytes[..4].copy_from_slice(&a.hi.to_be_bytes());
    bytes[4..].copy_from_slice(&a.lo.to_be_bytes());
    format!("{}", alloy::primitives::Address::from(bytes))
}

/// `LowerHex` of `alloy::primitives::B256` with the alternate flag: `0x` and
/// sixty-four lower-case hexadecimal digits.
#[verifier::external_body]
pub(crate) fn hex_of_hash(h: B256) -> (r: String)
    ensures
        r@ == h.hex_text(),
{
    let mut bytes: [u8; 32] = [0; 32];
    bytes[..16].copy_from_slice(&h.hi.to_be_bytes());
    bytes[16..].copy_from_slice(&h.lo.to_be_bytes());
    format!("{:#x}", alloy::primitives::B256::from(bytes))
}

impl U256 {
    /// The number itself.
    pub open spec fn value(self) -> nat {
        self.hi as nat * word() + self.lo as nat
    }
}

/// `Display` of `alloy::primitives::U256`: the number in decimal.
#[verifier::external_body]
pub(crate) fn decimal_of_number(n: U256) -> (r: String)
    ensures
        r@ == dec(n.value()),
{
    let mut bytes: [u8; 32] = [0; 32];
    bytes[..16].copy_from_slice(&n.hi.to_be_bytes());
    bytes[16..].copy_from_slice(&n.lo.to_be_bytes());
    format!("{}", alloy::primitives::U256::from_be_bytes(bytes))
}

/// `alloy::hex::encode`: two lower-case hexadecimal digits for each byte.
#[verifier::external_body]
pub(crate) fn hex_of_bytes(b: &Vec<u8>) -> (r: String)
    ensures
        r@ == hex_bytes(b@),
{
    alloy::hex::encode(b)
}

/// A fixed-width hexadecimal number has exactly that many digits.
pub proof fn lemma_hex_fixed_len(n: nat, width: nat)
    ensures
        hex_fixed(n, width).len() == width,
    decreases width,
{
    if width > 0 {
        lemma_hex_fixed_len(n / 16, (width - 1) as nat);
    }
}

/// The full form of an address is 42 characters long.
pub proof fn lemma_hex_text_len(a: Address)
    ensures
        a.hex_text().len() == 42,
{
    reveal_strlit("0x");
    lemma_hex_fixed_len(a.value(), 40);
}

/// The compact form of an address: its first six and last four characters.
pub fn short_address(a: Address) -> (r: String)
    ensures
        r@ == a.short_text(),
{
    let full: String = hex_of_address(a);
    proof {
        lemma_hex_text_len(a);
    }
    let mut s: String = full.as_str().substring_char(0, 6).to_owned();
    s.append("…");
    s.append(full.as_str().substring_char(38, 42));
    proof {
        assert(full@.subrange(0, 6) =~= full@.take(6));
        assert(full@.subrange(38, 42) =~= full@.skip(38));
    }
    s
}

/// Sixteen to the power of `n`.
spec fn pow16(n: nat) -> nat
    decreases n,
{
    if n == 0 {
        1
    } else {
        16 * pow16((n - 1) as nat)
    }
}

/// The digits of a number denote it, if they are enough.
proof fn lemma_hex_round_trip(n: nat, width: nat)
    requires
        n < pow16(width),
    ensures
        all_hex(hex_fixed(n, width)),
        hex_number(hex_fixed(n, width)) == n,
    decreases width,
{
    if width > 0 {
        let s = hex_fixed(n, width);
        let init = hex_fixed(n / 16, (width - 1) as nat);
        lemma_hex_round_trip(n / 16, (width - 1) as nat);
        assert(s.drop_last() =~= init);
        assert(hex_value(s.last()) == Some(n % 16));
        assert forall|i: int| 0 <= i < s.len() implies hex_value(#[trigger] s[i]) is Some by {
            if i < s.len() - 1 {
                assert(s[i] == init[i]);
            }
        }
    }
}

/// The full form of an address spells that address.
pub proof fn a_printed_address_is_read_back(a: Address)
    ensures
        spelled_address(a.hex_text()) == Some(a),
{
    reveal_strlit("0x");
    assert(pow16(40) == 0x1_0000_0000 * word()) by {
        reveal_with_fuel(pow16, 41);
    }
    let n = a.value();
    lemma_hex_round_trip(n, 40);
    lemma_hex_text_len(a);
    lemma_hex_fixed_len(n, 40);
    assert(after_prefix(a.hex_text()) =~= hex_fixed(n, 40));
    assert(n / word() == a.hi as nat && n % word() == a.lo as nat) by {
        vstd::arithmetic::div_mod::lemma_fundamental_div_mod_converse(
            n as int,
            word() as int,
            a.hi as int,
            a.lo as int,
        );
    }
}

/// Different addresses never look the same in full.
pub proof fn printed_addresses_differ(a: Address, b: Address)
    requires
        a != b,
    ensures
        a.hex_text() != b.hex_text(),
{
    a_printed_address_is_read_back(a);
    a_printed_address_is_read_back(b);
}

/// The compact form is the first six and the last four characters of the full
/// one, in lower case, with an ellipsis between them.
pub proof fn the_compact_form_shows_both_ends(a: Address)
    ensures
        a.hex_text().len() == 42,
        a.hex_text().take(2) == "0x"@,
        a.short_text().len() == 11,
        a.short_text().take(6) == a.hex_text().take(6),
        a.short_text()[6] == '…',
        a.short_text().skip(7) == a.hex_text().skip(38),
{
    reveal_strlit("0x");
    reveal_strlit("…");
    lemma_hex_text_len(a);
    assert(a.hex_text().take(2) =~= "0x"@);
    assert(a.short_text().take(6) =~= a.hex_text().take(6));
    assert(a.short_text().skip(7) =~= a.hex_text().skip(38));
}

/// A printed hash is `0x` and sixty-four digits, which read back as the hash.
pub proof fn a_printed_hash_is_read_back(h: B256)
    ensures
        h.hex_text().len() == 66,
        h.hex_text().take(2) == "0x"@,
        all_hex(h.hex_text().skip(2)),
        hex_number(h.hex_text().skip(2)) == h.hi as nat * word() + h.lo as nat,
{
    reveal_strlit("0x");
    assert(pow16(64) == word() * word()) by {
        reveal_with_fuel(pow16, 65);
    }
    let n = h.value();
    assert(n < word() * word()) by (nonlinear_arith)
        requires
            n == h.hi as nat * word() + h.lo as nat,
            word() == 0x1_0000_0000_0000_0000_0000_0000_0000_0000nat,
            h.hi <= 0xffff_ffff_ffff_ffff_ffff_ffff_ffff_ffff,
            h.lo <= 0xffff_ffff_ffff_ffff_ffff_ffff_ffff_ffff,
    ;
    lemma_hex_round_trip(n, 64);
    lemma_hex_fixed_len(n, 64);
    assert(h.hex_text().take(2) =~= "0x"@);
    assert(h.hex_text().skip(2) =~= hex_fixed(n, 64));
}

/// A text spells an address exactly when it is forty hexadecimal digits, with
/// `0x` before them or without, and then it spells the one they denote.
pub proof fn an_address_is_forty_digits(s: Seq<char>)
    ensures
        s.len() == 40 && all_hex(s) ==> spelled_address(s) is Some,
        s.len() == 42 && s[0] == '0' && s[1] == 'x' && all_hex(s.skip(2)) ==> spelled_address(
            s,
        ) is Some,
        spelled_address(s) is Some ==> s.len() == 40 || s.len() == 42,
        spelled_address(s) matches Some(a) ==> s.len() == 40 ==> a.value() == hex_number(s),
        spelled_address(s) matches Some(a) ==> s.len() == 42 ==> a.value() == hex_number(s.skip(2)),
{
    if s.len() == 40 && all_hex(s) && s[1] == 'x' {
        assert(hex_value(s[1]) is Some);
    }
    if s.len() == 40 && all_hex(s) && s[1] == 'X' {
        assert(hex_value(s[1]) is Some);
    }
    if spelled_address(s) is Some {
        let digits = after_prefix(s);
        lemma_hex_bound(digits);
        assert(pow16(40) == 0x1_0000_0000 * word()) by {
            reveal_with_fuel(pow16, 41);
        }
        let n = hex_number(digits);
        vstd::arithmetic::div_mod::lemma_fundamental_div_mod(n as int, word() as int);
        assert(n / word() < 0x1_0000_0000) by (nonlinear_arith)
            requires
                n < 0x1_0000_0000 * word(),
                word() == 0x1_0000_0000_0000_0000_0000_0000_0000_0000nat,
        ;
        assert(word() * (n / word()) == (n / word()) * word()) by (nonlinear_arith);
    }
}

/// So many digits denote a number below the next power.
proof fn lemma_hex_bound(s: Seq<char>)
    requires
        all_hex(s),
    ensures
        hex_number(s) < pow16(s.len()),
    decreases s.len(),
{
    if s.len() > 0 {
        let init = s.drop_last();
        assert forall|i: int| 0 <= i < init.len() implies hex_value(#[trigger] init[i]) is Some by {
            assert(hex_value(s[i]) is Some);
        }
        lemma_hex_bound(init);
        assert(hex_value(s[s.len() - 1]) is Some);
    }
}

/// An amount is read from its two halves, the high one first.
pub proof fn an_amount_is_its_two_halves(v: U256)
    ensures
        v.value() == v.hi as nat * 0x1_0000_0000_0000_0000_0000_0000_0000_0000nat + v.lo as nat,
        (v.value() == 0) == (v == U256::zero_value()),
{
    assert(v.hi > 0 ==> v.hi as nat * word() > 0) by (nonlinear_arith)
        requires
            word() == 0x1_0000_0000_0000_0000_0000_0000_0000_0000nat,
    ;
}

} // verus!
