//! The user-program side of the system-call interface: how results are read
//! back and how numbers are printed.
use vstd::prelude::*;

verus! {

/// Length of a printed number: `0x` and sixteen hexadecimal digits.
pub const HEX_SLICE_LENGTH: usize = 18;

/// The lower-case hexadecimal digit of `d`, which is below 16.
pub open spec fn hex_digit(d: u64) -> u8 {
    if d < 10 {
        (d + 0x30) as u8
    } else {
        (d - 10 + 0x61) as u8
    }
}

/// The digit at position `j` of a printed number, most significant first.
pub open spec fn nibble(value: u64, j: nat) -> u64 {
    (value >> (60 - 4 * j) as u64) & 0xf
}

/// The text a number is printed as: `0x` and its sixteen hexadecimal digits,
/// most significant first, in lower case.
pub fn format_hex(value: u64) -> (r: [u8; 18])
    ensures
        r[0] == 0x30u8,
        r[1] == 0x78u8,
        forall|j: nat| j < 16 ==> #[trigger] r[j + 2int] == hex_digit(nibble(value, j)),
{
    let mut hex_slice: [u8; 18] = [0; 18];
    hex_slice[0] = '0' as u8;
    hex_slice[1] = 'x' as u8;
    let mut j: usize = 2;
    while j < HEX_SLICE_LENGTH
        invariant
            2 <= j <= 18,
            hex_slice[0] == 0x30u8,
            hex_slice[1] == 0x78u8,
            forall|k: nat| 2 <= k < j ==> #[trigger] hex_slice[k as int] == hex_digit(nibble(value, (k - 2) as nat)),
        decreases 18 - j,
    {
        let shift: u64 = 60 - 4 * (j as u64 - 2);
        let d = (value >> shift) & 0x0f;
        assert(d < 16) by (bit_vector)
            requires
                d == (value >> shift) & 0x0f,
        ;
        let s: u8 = if d < 10 {
            d as u8 + '0' as u8
        } else {
            d as u8 - 10 + 'a' as u8
        };
        hex_slice[j] = s;
        j = j + 1;
    }
    assert forall|j: nat| j < 16 implies #[trigger] hex_slice[j + 2int] == hex_digit(nibble(value, j)) by {
        assert(hex_slice[(j + 2) as nat as int] == hex_digit(nibble(value, ((j + 2) as nat - 2) as nat)));
    }
    hex_slice
}

/// The character a `GetChar` call returned: its low byte, or none for zero.
pub fn decode_char(res: usize) -> (r: Option<char>)
    ensures
        res == 0 ==> r.is_none(),
        res != 0 ==> r == Some(((res % 256) as u8) as char),
{
    if res == 0 {
        return None;
    }
    Some((res % 256) as u8 as char)
}

} // verus!
