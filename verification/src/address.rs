//! Account addresses: twenty bytes, read from hexadecimal text by `ethers`.

use vstd::prelude::*;
use crate::text::starts_with;

verus! {

/// An account address.
#[derive(Debug, Clone, Copy, PartialEq, Eq)]
pub struct Address {
    /// The twenty bytes, first byte first.
    pub bytes: [u8; 20],
}

impl View for Address {
    type V = Seq<u8>;

    open spec fn view(&self) -> Seq<u8> {
        self.bytes@
    }
}

/// Whether `c` is a character that is passed over when hexadecimal text is read.
pub open spec fn is_hex_space(c: char) -> bool {
    c == ' ' || c == '\r' || c == '\n' || c == '\t'
}

/// Whether `c` is a hexadecimal digit, in either case.
pub open spec fn is_hex_digit(c: char) -> bool {
    ('0' <= c && c <= '9') || ('a' <= c && c <= 'f') || ('A' <= c && c <= 'F')
}

/// The number a hexadecimal digit stands for.
pub open spec fn hex_value(c: char) -> int {
    if '0' <= c && c <= '9' {
        c as int - '0' as int
    } else if 'a' <= c && c <= 'f' {
        c as int - 'a' as int + 10
    } else {
        c as int - 'A' as int + 10
    }
}

/// `s` without the characters that are passed over.
pub open spec fn without_hex_spaces(s: Seq<char>) -> Seq<char>
    decreases s.len(),
{
    if s.len() == 0 {
        s
    } else if is_hex_space(s.last()) {
        without_hex_spaces(s.drop_last())
    } else {
        without_hex_spaces(s.drop_last()).push(s.last())
    }
}

/// The address a text writes: after a leading `0x`, if there is one, and
/// apart from spaces, tabs and line ends, the text must be exactly forty
/// hexadecimal digits, two for each byte, first byte first. `None` for every
/// other text.
pub open spec fn address_of_text(text: Seq<char>) -> Option<Seq<u8>> {
    let body = if starts_with(text, "0x"@) {
        text.skip(2)
    } else {
        text
    };
    let hex = without_hex_spaces(body);
    if hex.len() == 40 && (forall|i: int| 0 <= i < 40 ==> is_hex_digit(#[trigger] hex[i])) {
        Some(Seq::new(20, |i: int| (16 * hex_value(hex[2 * i]) + hex_value(hex[2 * i + 1])) as u8))
    } else {
        None
    }
}

/// Reads an address from text; where the text is refused, gives the reason
/// in words.
///
/// Calls `FromStr` of `ethers::types::Address`, which drops a leading `0x`,
/// then decodes pairs of hexadecimal digits, passing over spaces, tabs and
/// line ends, into exactly twenty bytes, and fails on any other character,
/// on a digit without its pair and on more or fewer than twenty bytes. The
/// reason is the error's `Display` text.
#[verifier::external_body]
fn address_from_str(text: &str) -> (r: Result<Address, String>)
    ensures
        match r {
            Ok(a) => address_of_text(text@) == Some(a@),
            Err(_) => address_of_text(text@) is None,
        },
{
    match text.parse::<ethers::types::Address>() {
        Ok(a) => Ok(Address { bytes: a.0 }),
        Err(e) => Err(format!("{}", e)),
    }
}

impl Address {
    /// Reads an address from hexadecimal text, with or without a leading
    /// `0x`. Where the text is refused, the error says why.
    pub fn parse(text: &str) -> (r: Result<Address, String>)
        ensures
            match r {
                Ok(a) => address_of_text(text@) == Some(a@),
                Err(_) => address_of_text(text@) is None,
            },
    {
        address_from_str(text)
    }
}

} // verus!
