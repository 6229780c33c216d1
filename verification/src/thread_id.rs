//! The identity of threads and its written form.

use vstd::prelude::*;

verus! {

/// The identity of a thread: the 128 bits of its UUID.
pub type ThreadId = u128;

/// The lower-case hexadecimal digit of a value below 16.
pub open spec fn hex_char(digit: int) -> char {
    if digit < 10 {
        ('0' as int + digit) as char
    } else {
        ('a' as int + (digit - 10)) as char
    }
}

/// The last `digits` hexadecimal digits of `value`, the most significant first.
pub open spec fn hex_field(value: int, digits: nat) -> Seq<char>
    decreases digits,
{
    if digits == 0 {
        Seq::empty()
    } else {
        hex_field(value / 16, (digits - 1) as nat).push(hex_char(value % 16))
    }
}

/// The hyphenated form of a UUID: groups of 8, 4, 4, 4 and 12 hexadecimal digits.
pub open spec fn thread_text(id: ThreadId) -> Seq<char> {
    hex_field(id as int / 0x1_0000_0000_0000_0000_0000_0000, 8) + seq!['-'] + hex_field(
        id as int / 0x1_0000_0000_0000_0000_0000,
        4,
    ) + seq!['-'] + hex_field(id as int / 0x1_0000_0000_0000_0000, 4) + seq!['-'] + hex_field(
        id as int / 0x1_0000_0000_0000,
        4,
    ) + seq!['-'] + hex_field(id as int, 12)
}

/// The written form of a thread id, by `uuid::Uuid::from_u128` and `Uuid`'s `Display`.
///
/// Claimed of them: the 128 bits are written as 32 lower-case hexadecimal digits, the most
/// significant first, with hyphens after the 8th, 12th, 16th and 20th.
#[verifier::external_body]
pub(crate) fn thread_id_text(id: ThreadId) -> (result: String)
    ensures
        result@ == thread_text(id),
{
    uuid::Uuid::from_u128(id).to_string()
}

} // verus!
