//! Text that is handed to the plotting backend as a NUL-terminated string.
//!
//! The backend reads a label up to the first zero byte, so a label must not
//! hold one. [`Label`] keeps that promise in its type: every value of it is
//! free of zero bytes, and [`Label::to_bytes_with_nul`] appends the single
//! terminator that the backend expects.
//!
//! A text is handed over as its UTF-8 bytes. Those hold a zero byte exactly
//! where the text holds the character with the number zero, so a text can be
//! judged by its characters as well as by its bytes.
use vstd::prelude::*;
use vstd::slice::slice_to_vec;
use vstd::utf8::{char_is_scalar, char_u32_cast, encode_scalar, encode_utf8, is_scalar};

verus! {

/// The bytes that stand for `text` in memory: its UTF-8 encoding.
pub open spec fn text_bytes(text: Seq<char>) -> Seq<u8> {
    encode_utf8(text)
}

/// Whether `bytes` holds a zero byte anywhere.
pub open spec fn has_nul(bytes: Seq<u8>) -> bool {
    exists|i: int| 0 <= i < bytes.len() && bytes[i] == 0u8
}

/// Whether `text` holds the character with the number zero anywhere.
pub open spec fn has_nul_char(text: Seq<char>) -> bool {
    exists|i: int| 0 <= i < text.len() && text[i] == '\0'
}

/// Whether `position` is the index of the first zero byte of `bytes`.
pub open spec fn is_first_nul(bytes: Seq<u8>, position: int) -> bool {
    &&& 0 <= position < bytes.len()
    &&& bytes[position] == 0u8
    &&& forall|i: int| 0 <= i < position ==> bytes[i] != 0u8
}

/// Whether `bytes` is one C string: zero-free text followed by one zero byte.
pub open spec fn is_c_string(bytes: Seq<u8>) -> bool {
    &&& bytes.len() > 0
    &&& bytes.last() == 0u8
    &&& !has_nul(bytes.drop_last())
}

/// The encoding of one character holds a zero byte only where the character
/// has the number zero.
proof fn lemma_bytes_of_scalar(scalar: u32)
    requires
        is_scalar(scalar),
    ensures
        has_nul(encode_scalar(scalar)) <==> scalar == 0,
{
    assert(scalar <= 0x7f ==> (((scalar & 0x7F) as u8 == 0u8) <==> scalar == 0)) by (bit_vector);
    assert((0xC0u8 | ((scalar >> 6) & 0x1F) as u8) != 0u8) by (bit_vector);
    assert((0xE0u8 | ((scalar >> 12) & 0x0F) as u8) != 0u8) by (bit_vector);
    assert((0xF0u8 | ((scalar >> 18) & 0x7) as u8) != 0u8) by (bit_vector);
    assert((0x80u8 | (scalar & 0x3F) as u8) != 0u8) by (bit_vector);
    assert((0x80u8 | ((scalar >> 6) & 0x3F) as u8) != 0u8) by (bit_vector);
    assert((0x80u8 | ((scalar >> 12) & 0x3F) as u8) != 0u8) by (bit_vector);
    if scalar == 0 {
        assert(encode_scalar(scalar)[0] == 0u8);
    }
}

/// Two sequences joined hold a zero byte exactly where one of them does.
pub proof fn lemma_nul_in_concat(a: Seq<u8>, b: Seq<u8>)
    ensures
        has_nul(a + b) <==> has_nul(a) || has_nul(b),
{
    if has_nul(a) {
        let i = choose|i: int| 0 <= i < a.len() && a[i] == 0u8;
        assert((a + b)[i] == 0u8);
    }
    if has_nul(b) {
        let i = choose|i: int| 0 <= i < b.len() && b[i] == 0u8;
        assert((a + b)[a.len() + i] == 0u8);
    }
    if has_nul(a + b) {
        let i = choose|i: int| 0 <= i < (a + b).len() && (a + b)[i] == 0u8;
        if i < a.len() {
            assert(a[i] == 0u8);
        } else {
            assert(b[i - a.len()] == 0u8);
        }
    }
}

/// The bytes of a text hold a zero byte exactly where the text holds the
/// character with the number zero.
pub proof fn lemma_nul_byte_iff_nul_char(text: Seq<char>)
    ensures
        has_nul(text_bytes(text)) <==> has_nul_char(text),
    decreases text.len(),
{
    if text.len() > 0 {
        let rest = text.drop_first();
        lemma_nul_byte_iff_nul_char(rest);
        char_is_scalar(text[0]);
        lemma_bytes_of_scalar(text[0] as u32);
        lemma_nul_in_concat(encode_scalar(text[0] as u32), encode_utf8(rest));
        assert('\0' as u32 == 0u32);
        if text[0] as u32 == 0u32 {
            char_u32_cast(text[0], 0u32);
            char_u32_cast('\0', 0u32);
        }
        if has_nul_char(rest) {
            let i = choose|i: int| 0 <= i < rest.len() && rest[i] == '\0';
            assert(text[i + 1] == '\0');
        }
        if has_nul_char(text) {
            let i = choose|i: int| 0 <= i < text.len() && text[i] == '\0';
            if i > 0 {
                assert(rest[i - 1] == '\0');
            }
        }
    }
}

/// The text given for a label holds a zero byte.
#[derive(Clone, Copy, Debug, PartialEq, Eq, Structural)]
pub struct NulError {
    /// Index of the first zero byte among the bytes of the rejected text.
    pub nul_position: usize,
}

/// The bytes of a label, none of them zero.
#[derive(Debug, PartialEq, Eq)]
pub struct Label {
    bytes: Vec<u8>,
}

impl View for Label {
    type V = Seq<u8>;

    closed spec fn view(&self) -> Seq<u8> {
        self.bytes@
    }
}

/// Finds the first zero byte of `bytes`, if there is one.
pub fn find_nul(bytes: &[u8]) -> (found: Option<usize>)
    ensures
        found is None <==> !has_nul(bytes@),
        found matches Some(position) ==> is_first_nul(bytes@, position as int),
{
    let mut i: usize = 0;
    while i < bytes.len()
        invariant
            i <= bytes@.len(),
            forall|j: int| 0 <= j < i ==> bytes@[j] != 0u8,
        decreases bytes@.len() - i,
    {
        if bytes[i] == 0 {
            return Some(i);
        }
        i += 1;
    }
    None
}

impl Label {
    #[verifier::type_invariant]
    spec fn zero_free(self) -> bool {
        !has_nul(self.bytes@)
    }

    /// The label without any text.
    pub fn empty() -> (label: Label)
        ensures
            label@ == Seq::<u8>::empty(),
    {
        Label { bytes: Vec::new() }
    }

    /// Makes a label of `text`, or reports the first zero byte where the
    /// text holds one.
    pub fn new(text: &str) -> (made: Result<Label, NulError>)
        ensures
            made is Ok <==> !has_nul_char(text@),
            made matches Ok(label) ==> label@ == text_bytes(text@),
            made matches Err(error) ==> is_first_nul(text_bytes(text@), error.nul_position as int),
    {
        proof {
            lemma_nul_byte_iff_nul_char(text@);
        }
        Label::from_bytes(text.as_bytes())
    }

    /// Makes a label of a text that does not hold the character with the
    /// number zero.
    pub fn from_clean_text(text: &str) -> (label: Label)
        requires
            !has_nul_char(text@),
        ensures
            label@ == text_bytes(text@),
    {
        proof {
            lemma_nul_byte_iff_nul_char(text@);
        }
        Label { bytes: slice_to_vec(text.as_bytes()) }
    }

    /// Makes a label of `bytes`, or reports the first zero byte where they
    /// hold one.
    pub fn from_bytes(bytes: &[u8]) -> (made: Result<Label, NulError>)
        ensures
            made is Ok <==> !has_nul(bytes@),
            made matches Ok(label) ==> label@ == bytes@,
            made matches Err(error) ==> is_first_nul(bytes@, error.nul_position as int),
    {
        match find_nul(bytes) {
            Some(position) => Err(NulError { nul_position: position }),
            None => Ok(Label { bytes: slice_to_vec(bytes) }),
        }
    }

    /// The bytes of the label, without a terminator.
    pub fn as_bytes(&self) -> (bytes: &[u8])
        ensures
            bytes@ == self@,
            !has_nul(bytes@),
    {
        proof {
            use_type_invariant(self);
        }
        self.bytes.as_slice()
    }

    /// Length of the label in bytes.
    pub fn len(&self) -> (n: usize)
        ensures
            n == self@.len(),
    {
        self.bytes.len()
    }

    /// Whether the label holds no text at all.
    pub fn is_empty(&self) -> (none: bool)
        ensures
            none == (self@.len() == 0),
    {
        self.bytes.len() == 0
    }

    /// The label as the backend reads it: its bytes, then one zero byte.
    pub fn to_bytes_with_nul(&self) -> (bytes: Vec<u8>)
        ensures
            bytes@ == self@.push(0u8),
            is_c_string(bytes@),
    {
        proof {
            use_type_invariant(self);
        }
        let mut bytes = slice_to_vec(self.bytes.as_slice());
        bytes.push(0);
        assert(bytes@.drop_last() =~= self.bytes@);
        bytes
    }
}

impl Clone for Label {
    fn clone(&self) -> (copy: Label)
        ensures
            copy@ == self@,
    {
        proof {
            use_type_invariant(self);
        }
        Label { bytes: slice_to_vec(self.bytes.as_slice()) }
    }
}

} // verus!
