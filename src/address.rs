use vstd::prelude::*;
use vstd::string::*;
use crate::key_policy::{keccak256, keccak256_of};

verus! {

/// A 20-byte account or contract address.
#[derive(Clone, Copy, Debug, PartialEq, Eq, Hash)]
pub struct Address(pub [u8; 20]);

impl Address {
    /// The zero address, which no contract can have.
    pub fn zero() -> (r: Address)
        ensures
            r.is_zero_spec(),
    {
        Address([0u8; 20])
    }

    pub open spec fn is_zero_spec(&self) -> bool {
        forall|i: int| 0 <= i < 20 ==> #[trigger] self.0@[i] == 0
    }

    /// Whether every byte of the address is zero.
    pub fn is_zero(&self) -> (r: bool)
        ensures
            r == self.is_zero_spec(),
    {
        let mut i: usize = 0;
        while i < 20
            invariant
                i <= 20,
                forall|j: int| 0 <= j < i ==> #[trigger] self.0@[j] == 0,
            decreases 20 - i,
        {
            if self.0[i] != 0 {
                return false;
            }
            i = i + 1;
        }
        true
    }

    /// Whether two addresses hold the same bytes.
    pub fn same_as(&self, other: &Address) -> (r: bool)
        ensures
            r == (self.0@ == other.0@),
    {
        let mut i: usize = 0;
        while i < 20
            invariant
                i <= 20,
                forall|j: int| 0 <= j < i ==> #[trigger] self.0@[j] == other.0@[j],
            decreases 20 - i,
        {
            if self.0[i] != other.0[i] {
                return false;
            }
            i = i + 1;
        }
        assert(self.0@ =~= other.0@);
        true
    }
}


/// The value of a hexadecimal digit, of either case.
pub open spec fn hex_value(c: char) -> Option<u8> {
    if '0' <= c && c <= '9' {
        Some((c as u32 - '0' as u32) as u8)
    } else if 'a' <= c && c <= 'f' {
        Some((c as u32 - 'a' as u32 + 10) as u8)
    } else if 'A' <= c && c <= 'F' {
        Some((c as u32 - 'A' as u32 + 10) as u8)
    } else {
        None
    }
}

/// `0x` followed by exactly forty hexadecimal digits.
pub open spec fn is_hex_address(s: Seq<char>) -> bool {
    s.len() == 42 && s[0] == '0' && s[1] == 'x' && forall|i: int| 2 <= i < 42 ==> (#[trigger] hex_value(s[i])) is Some
}

/// The bytes that the forty digits of a hexadecimal address stand for, two digits a byte.
pub open spec fn hex_address_bytes(s: Seq<char>) -> Seq<u8> {
    Seq::new(20, |i: int| (hex_value(s[2 + 2 * i])->0 * 16 + hex_value(s[3 + 2 * i])->0) as u8)
}

fn hex_digit(c: char) -> (r: Option<u8>)
    ensures
        r == hex_value(c),
{
    if '0' <= c && c <= '9' {
        Some((c as u32 - '0' as u32) as u8)
    } else if 'a' <= c && c <= 'f' {
        Some((c as u32 - 'a' as u32 + 10) as u8)
    } else if 'A' <= c && c <= 'F' {
        Some((c as u32 - 'A' as u32 + 10) as u8)
    } else {
        None
    }
}

/// Reads an address written as `0x` and forty hexadecimal digits.
pub fn addr_from_str(s: &str) -> (r: Option<Address>)
    ensures
        r is Some <==> is_hex_address(s@),
        r matches Some(a) ==> a.0@ == hex_address_bytes(s@),
{
    let n = s.unicode_len();
    if n != 42 || s.get_char(0) != '0' || s.get_char(1) != 'x' {
        return None;
    }
    let mut out = [0u8; 20];
    let mut i: usize = 0;
    while i < 20
        invariant
            n == s@.len() == 42,
            s@[0] == '0' && s@[1] == 'x',
            i <= 20,
            forall|j: int| 2 <= j < 2 + 2 * i ==> (#[trigger] hex_value(s@[j])) is Some,
            forall|j: int| 0 <= j < i ==> #[trigger] out@[j] == hex_address_bytes(s@)[j],
        decreases 20 - i,
    {
        let hi = hex_digit(s.get_char(2 + 2 * i));
        let lo = hex_digit(s.get_char(3 + 2 * i));
        match (hi, lo) {
            (Some(h), Some(l)) => {
                out[i] = h * 16 + l;
            },
            _ => {
                return None;
            },
        }
        i = i + 1;
    }
    let a = Address(out);
    assert(a.0@ =~= hex_address_bytes(s@));
    Some(a)
}


pub open spec fn lower_hex_digits() -> Seq<char> {
    seq!['0', '1', '2', '3', '4', '5', '6', '7', '8', '9', 'a', 'b', 'c', 'd', 'e', 'f']
}

pub open spec fn upper_hex_letters() -> Seq<char> {
    seq!['A', 'B', 'C', 'D', 'E', 'F']
}

/// The `i`-th four-bit digit of some bytes, high digit first.
pub open spec fn nibble(b: Seq<u8>, i: int) -> u8 {
    if i % 2 == 0 {
        (b[i / 2] / 16) as u8
    } else {
        (b[i / 2] % 16) as u8
    }
}

/// The forty lower-case hexadecimal digits of an address.
pub open spec fn lower_hex_spec(a: Seq<u8>) -> Seq<char> {
    Seq::new(40, |i: int| lower_hex_digits()[nibble(a, i) as int])
}

/// The ASCII bytes of the lower-case hexadecimal digits of an address.
pub open spec fn lower_hex_bytes(a: Seq<u8>) -> Seq<u8> {
    Seq::new(40, |i: int| if nibble(a, i) < 10 { (48 + nibble(a, i)) as u8 } else { (87 + nibble(a, i)) as u8 })
}

/// The mixed-case checksum encoding of an address: `0x`, then each hexadecimal letter
/// in upper case where the matching digit of the Keccak-256 digest of the lower-case
/// text is 8 or more.
pub open spec fn checksum_spec(a: Seq<u8>) -> Seq<char> {
    seq!['0', 'x'] + Seq::new(40, |i: int|
        if nibble(a, i) >= 10 && nibble(keccak256_of(lower_hex_bytes(a)), i) >= 8 {
            upper_hex_letters()[nibble(a, i) - 10]
        } else {
            lower_hex_digits()[nibble(a, i) as int]
        })
}

/// Relies on std's `FromIterator<char> for String`: the string of these characters.
#[verifier::external_body]
pub(crate) fn string_from_chars(cs: &Vec<char>) -> (r: String)
    ensures
        r@ == cs@,
{
    cs.iter().collect()
}

/// The mixed-case checksum text of an address.
pub fn checksum_address(a: &Address) -> (r: String)
    ensures
        r@ == checksum_spec(a.0@),
{
    let mut lower: Vec<u8> = Vec::new();
    let mut i: usize = 0;
    while i < 40
        invariant
            i <= 40,
            lower@ == lower_hex_bytes(a.0@).subrange(0, i as int),
        decreases 40 - i,
    {
        let byte = a.0[i / 2];
        let n: u8 = if i % 2 == 0 { byte / 16 } else { byte % 16 };
        assert(n == nibble(a.0@, i as int));
        let c: u8 = if n < 10 { 48 + n } else { 87 + n };
        lower.push(c);
        assert(lower@ =~= lower_hex_bytes(a.0@).subrange(0, i + 1));
        i = i + 1;
    }
    assert(lower@ =~= lower_hex_bytes(a.0@));
    let digest = keccak256(lower.as_slice());
    let digits = ['0', '1', '2', '3', '4', '5', '6', '7', '8', '9', 'a', 'b', 'c', 'd', 'e', 'f'];
    let upper = ['A', 'B', 'C', 'D', 'E', 'F'];
    assert(digits@ =~= lower_hex_digits());
    assert(upper@ =~= upper_hex_letters());
    let mut out: Vec<char> = vec!['0', 'x'];
    let mut j: usize = 0;
    while j < 40
        invariant
            j <= 40,
            digest@ == keccak256_of(lower_hex_bytes(a.0@)),
            digest@.len() == 32,
            digits@ == lower_hex_digits(),
            upper@ == upper_hex_letters(),
            out@ == checksum_spec(a.0@).subrange(0, j + 2),
        decreases 40 - j,
    {
        let byte = a.0[j / 2];
        let n: u8 = if j % 2 == 0 { byte / 16 } else { byte % 16 };
        let hb = digest[j / 2];
        let h: u8 = if j % 2 == 0 { hb / 16 } else { hb % 16 };
        assert(n == nibble(a.0@, j as int));
        assert(h == nibble(digest@, j as int));
        let c = if n >= 10 && h >= 8 { upper[(n - 10) as usize] } else { digits[n as usize] };
        out.push(c);
        assert(out@ =~= checksum_spec(a.0@).subrange(0, j + 3));
        j = j + 1;
    }
    assert(out@ =~= checksum_spec(a.0@));
    string_from_chars(&out)
}

} // verus!
