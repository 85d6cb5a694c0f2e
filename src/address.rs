//! Device addresses in their canonical text form `XX:XX:XX:XX:XX:XX`.
use vstd::prelude::*;

verus! {

/// Number of characters in a canonical device address.
pub const ADDRESS_LEN: usize = 17;

/// An upper-case hexadecimal digit.
pub open spec fn is_upper_hex(c: char) -> bool {
    ('0' <= c && c <= '9') || ('A' <= c && c <= 'F')
}

/// The value of an upper-case hexadecimal digit.
pub open spec fn hex_value(c: char) -> int {
    if '0' <= c && c <= '9' {
        c as int - '0' as int
    } else {
        c as int - 'A' as int + 10
    }
}

/// Six pairs of upper-case hex digits separated by colons, 17 characters in all.
pub open spec fn valid_address(s: Seq<char>) -> bool {
    &&& s.len() == 17
    &&& forall|i: int|
        0 <= i < 17 ==> (if i % 3 == 2 {
            s[i] == ':'
        } else {
            is_upper_hex(#[trigger] s[i])
        })
}

/// The octet written at pair `k` (0-based, left to right) of an address text.
pub open spec fn octet_at(s: Seq<char>, k: int) -> int {
    hex_value(s[3 * k]) * 16 + hex_value(s[3 * k + 1])
}

/// `s` is the canonical text of the radio address whose little-endian bytes are
/// `bytes`: the most significant octet (`bytes[5]`) is written first.
pub open spec fn names_device(s: Seq<char>, bytes: Seq<u8>) -> bool {
    &&& bytes.len() == 6
    &&& valid_address(s)
    &&& forall|k: int| 0 <= k < 6 ==> #[trigger] octet_at(s, k) == bytes[5 - k] as int
}

fn is_upper_hex_char(c: char) -> (r: bool)
    ensures
        r == is_upper_hex(c),
{
    ('0' <= c && c <= '9') || ('A' <= c && c <= 'F')
}

fn hex_char_value(c: char) -> (r: u8)
    requires
        is_upper_hex(c),
    ensures
        r as int == hex_value(c),
        r < 16,
{
    if '0' <= c && c <= '9' {
        (c as u32 - '0' as u32) as u8
    } else {
        (c as u32 - 'A' as u32 + 10) as u8
    }
}

/// Whether `s` is a well-formed canonical device address.
pub fn is_valid_address(s: &str) -> (r: bool)
    ensures
        r == valid_address(s@),
{
    let n = s.unicode_len();
    if n != ADDRESS_LEN {
        return false;
    }
    let mut i: usize = 0;
    while i < ADDRESS_LEN
        invariant
            s@.len() == 17,
            i <= 17,
            forall|j: int|
                0 <= j < i ==> (if j % 3 == 2 {
                    s@[j] == ':'
                } else {
                    is_upper_hex(#[trigger] s@[j])
                }),
        decreases 17 - i,
    {
        let c = s.get_char(i);
        if i % 3 == 2 {
            if c != ':' {
                return false;
            }
        } else if !is_upper_hex_char(c) {
            return false;
        }
        i = i + 1;
    }
    true
}

/// Whether `s` is the canonical text of the device whose radio address has the
/// little-endian bytes `bytes`.
pub fn address_names_device(s: &str, bytes: &[u8; 6]) -> (r: bool)
    ensures
        r == names_device(s@, bytes@),
{
    if !is_valid_address(s) {
        return false;
    }
    let mut k: usize = 0;
    while k < 6
        invariant
            valid_address(s@),
            bytes@.len() == 6,
            k <= 6,
            forall|j: int| 0 <= j < k ==> #[trigger] octet_at(s@, j) == bytes@[5 - j] as int,
        decreases 6 - k,
    {
        let hi = s.get_char(3 * k);
        let lo = s.get_char(3 * k + 1);
        assert(is_upper_hex(s@[3 * k as int])) by {
            assert((3 * k as int) % 3 == 0);
        }
        assert(is_upper_hex(s@[3 * k as int + 1])) by {
            assert((3 * k as int + 1) % 3 == 1);
        }
        let v = hex_char_value(hi) as u16 * 16 + hex_char_value(lo) as u16;
        assert(octet_at(s@, k as int) == v as int);
        if v != bytes[5 - k] as u16 {
            return false;
        }
        k = k + 1;
    }
    true
}

} // verus!
