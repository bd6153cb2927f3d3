//! Byte strings as C reads them: the characters of a text, one byte each,
//! closed by a single zero byte.

use vstd::prelude::*;

verus! {

/// A byte that prints: ASCII from the space to the tilde.
pub open spec fn printable(b: u8) -> bool {
    0x20 <= b <= 0x7e
}

/// The bytes end in a zero byte and hold no other.
pub open spec fn nul_terminated(bytes: Seq<u8>) -> bool {
    &&& bytes.len() >= 1
    &&& bytes.last() == 0
    &&& forall|i: int| 0 <= i < bytes.len() - 1 ==> bytes[i] != 0
}

/// A text of ASCII characters, none of them the character of code zero.
pub open spec fn ascii_text(text: Seq<char>) -> bool {
    forall|i: int| 0 <= i < text.len() ==> '\0' < #[trigger] text[i] <= '\u{7f}'
}

/// The C string of an ASCII text: the code of each character, then the
/// zero byte.
pub open spec fn c_string(text: Seq<char>) -> Seq<u8>
    recommends
        ascii_text(text),
{
    Seq::new(text.len(), |i: int| text[i] as u8).push(0u8)
}

/// The C string of an ASCII text is one byte longer than the text, and its
/// last byte is its only zero byte.
pub proof fn lemma_c_string_terminated(text: Seq<char>)
    requires
        ascii_text(text),
    ensures
        c_string(text).len() == text.len() + 1,
        nul_terminated(c_string(text)),
{
    let codes = Seq::new(text.len(), |i: int| text[i] as u8);
    let bytes = c_string(text);
    assert(bytes == codes.push(0u8));
    assert forall|i: int| 0 <= i < bytes.len() - 1 implies bytes[i] != 0 by {
        assert(bytes[i] == codes[i]);
        assert('\0' < text[i] <= '\u{7f}');
    }
}

} // verus!
