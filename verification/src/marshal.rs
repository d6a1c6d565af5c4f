//! Strings at the boundary: from the host's null-terminated bytes to owned
//! text, and from text to the null-terminated bytes handed to the host.

use vstd::prelude::*;
use vstd::slice::{slice_subrange, slice_to_vec};
use vstd::utf8::{
    decode_utf8, encode_utf8, encode_utf8_decode_utf8, encode_utf8_valid_utf8, is_ascii_chars,
    is_ascii_chars_encode_utf8, valid_utf8,
};

verus! {

/// A zero byte inside text that was to become a null-terminated string.
#[derive(Clone, Copy, Debug, PartialEq, Eq, Structural)]
pub struct NulError {
    /// Index of the first zero byte.
    pub position: usize,
}

/// Why a string of the host could not be decoded.
#[derive(Debug, PartialEq, Eq)]
pub enum DecodeError {
    /// The host passed a null pointer.
    NullPointer,
    /// No zero byte ends the bytes behind the pointer.
    MissingTerminator,
    /// The bytes before the terminator are not UTF-8.
    InvalidUtf8 { reason: String },
}

/// A [`DecodeError`] as mathematical values.
pub enum DecodeErrorView {
    NullPointer,
    MissingTerminator,
    InvalidUtf8 { reason: Seq<char> },
}

impl View for DecodeError {
    type V = DecodeErrorView;

    open spec fn view(&self) -> DecodeErrorView {
        match self {
            DecodeError::NullPointer => DecodeErrorView::NullPointer,
            DecodeError::MissingTerminator => DecodeErrorView::MissingTerminator,
            DecodeError::InvalidUtf8 { reason } => DecodeErrorView::InvalidUtf8 { reason: reason@ },
        }
    }
}

impl DecodeErrorView {
    /// The description of the failure that messages to the host embed.
    pub open spec fn message(self) -> Seq<char> {
        match self {
            DecodeErrorView::NullPointer => "null pointer"@,
            DecodeErrorView::MissingTerminator => "missing nul terminator"@,
            DecodeErrorView::InvalidUtf8 { reason } => reason,
        }
    }
}

impl DecodeError {
    /// The description of the failure that messages to the host embed.
    pub fn message(&self) -> (text: String)
        ensures
            text@ == self@.message(),
    {
        match self {
            DecodeError::NullPointer => "null pointer".to_owned(),
            DecodeError::MissingTerminator => "missing nul terminator".to_owned(),
            DecodeError::InvalidUtf8 { reason } => reason.clone(),
        }
    }
}

/// Index of the first zero byte, if there is one.
pub open spec fn first_nul(bytes: Seq<u8>) -> Option<int> {
    bytes.index_of_first(0u8)
}

/// The null-terminated form of `bytes`, or the index of the zero byte that
/// rules it out.
pub open spec fn c_string(bytes: Seq<u8>) -> Result<Seq<u8>, int> {
    match first_nul(bytes) {
        Some(position) => Err(position),
        None => Ok(bytes.push(0u8)),
    }
}

/// The two bytes of the text `[]`, an empty list.
pub open spec fn empty_list_bytes() -> Seq<u8> {
    seq![0x5bu8, 0x5du8]
}

/// The buffer handed to the host for text with these bytes: the bytes and a
/// terminator, or an empty list where the bytes hold a zero.
pub open spec fn host_string(bytes: Seq<u8>) -> Seq<u8> {
    match c_string(bytes) {
        Ok(buffer) => buffer,
        Err(_) => empty_list_bytes().push(0u8),
    }
}

/// What the host's pointer stands for: nothing for a null pointer, else the
/// bytes behind it.
pub open spec fn borrowed(ptr: Option<&[u8]>) -> Option<Seq<u8>> {
    match ptr {
        Some(bytes) => Some(bytes@),
        None => None,
    }
}

/// The bytes of a string of the host: those before the first zero byte
/// behind its pointer.
pub open spec fn c_text(ptr: Option<Seq<u8>>) -> Result<Seq<u8>, DecodeErrorView> {
    match ptr {
        None => Err(DecodeErrorView::NullPointer),
        Some(bytes) => match first_nul(bytes) {
            None => Err(DecodeErrorView::MissingTerminator),
            Some(end) => Ok(bytes.take(end)),
        },
    }
}

/// Whether a string of the host decodes, and to `text`.
pub open spec fn decodes_to(ptr: Option<Seq<u8>>, text: Seq<char>) -> bool {
    match c_text(ptr) {
        Ok(bytes) => valid_utf8(bytes) && text == decode_utf8(bytes),
        Err(_) => false,
    }
}

/// The text that a string of the host decodes to, or why it does not.
pub open spec fn decoded(ptr: Option<Seq<u8>>) -> Result<Seq<char>, DecodeErrorView> {
    match c_text(ptr) {
        Err(err) => Err(err),
        Ok(bytes) => if valid_utf8(bytes) {
            Ok(decode_utf8(bytes))
        } else {
            Err(DecodeErrorView::InvalidUtf8 { reason: utf8_error_text(bytes) })
        },
    }
}

/// An index at which `bytes` holds its first zero is `first_nul(bytes)`.
pub proof fn lemma_first_nul_at(bytes: Seq<u8>, position: int)
    requires
        0 <= position < bytes.len(),
        bytes[position] == 0,
        forall|j: int| 0 <= j < position ==> bytes[j] != 0,
    ensures
        first_nul(bytes) == Some(position),
{
    bytes.index_of_first_ensures(0u8);
}

/// Bytes without a zero have no first zero.
pub proof fn lemma_first_nul_none(bytes: Seq<u8>)
    requires
        forall|j: int| 0 <= j < bytes.len() ==> bytes[j] != 0,
    ensures
        first_nul(bytes) is None,
{
    bytes.index_of_first_ensures(0u8);
}

/// A null-terminated string ends in its only zero byte, and what stands
/// before that byte are the bytes it was made from.
pub proof fn lemma_c_string_terminated(bytes: Seq<u8>)
    ensures
        c_string(bytes) matches Ok(buffer) ==> {
            &&& first_nul(buffer) == Some(buffer.len() - 1)
            &&& buffer.take(buffer.len() - 1) == bytes
        },
{
    bytes.index_of_first_ensures(0u8);
    if let Ok(buffer) = c_string(bytes) {
        assert forall|j: int| 0 <= j < bytes.len() implies bytes[j] != 0 by {
            if bytes[j] == 0 {
                assert(bytes.contains(0u8));
            }
        }
        lemma_first_nul_at(buffer, buffer.len() - 1);
        assert(buffer.take(buffer.len() - 1) =~= bytes);
    }
}

/// The buffer handed to the host ends in its only zero byte.
pub proof fn lemma_host_string_terminated(bytes: Seq<u8>)
    ensures
        first_nul(host_string(bytes)) == Some(host_string(bytes).len() - 1),
{
    lemma_c_string_terminated(bytes);
    if c_string(bytes) is Err {
        lemma_first_nul_at(host_string(bytes), 2);
    }
}

/// The text of an empty list goes out to the host as its two bytes and a
/// terminator.
pub proof fn lemma_empty_list_text()
    ensures
        encode_utf8("[]"@) == empty_list_bytes(),
        host_string(encode_utf8("[]"@)) == empty_list_bytes().push(0u8),
{
    reveal_strlit("[]");
    let chars = "[]"@;
    assert(is_ascii_chars(chars));
    is_ascii_chars_encode_utf8(chars);
    assert(encode_utf8(chars) =~= empty_list_bytes());
    lemma_first_nul_none(empty_list_bytes());
}

/// Text without a zero byte that went out to the host comes back from it as
/// it was.
pub proof fn lemma_string_round_trip(text: Seq<char>)
    requires
        first_nul(encode_utf8(text)) is None,
    ensures
        decoded(Some(host_string(encode_utf8(text)))) == Ok::<Seq<char>, DecodeErrorView>(text),
{
    lemma_c_string_terminated(encode_utf8(text));
    encode_utf8_valid_utf8(text);
    encode_utf8_decode_utf8(text);
}

/// Finds the first zero byte.
pub fn find_nul(bytes: &[u8]) -> (found: Option<usize>)
    ensures
        match found {
            Some(position) => {
                &&& position < bytes@.len()
                &&& first_nul(bytes@) == Some(position as int)
            },
            None => first_nul(bytes@) is None,
        },
{
    let mut i: usize = 0;
    while i < bytes.len()
        invariant
            i <= bytes.len(),
            forall|j: int| 0 <= j < i ==> bytes@[j] != 0,
        decreases bytes.len() - i,
    {
        if bytes[i] == 0 {
            proof {
                lemma_first_nul_at(bytes@, i as int);
            }
            return Some(i);
        }
        i += 1;
    }
    proof {
        lemma_first_nul_none(bytes@);
    }
    None
}

/// Encodes text as a null-terminated string. Text that holds a zero byte has
/// no such form: the error gives the index of the first one.
pub fn to_c_string(value: &str) -> (r: Result<Vec<u8>, NulError>)
    ensures
        match r {
            Ok(buffer) => {
                &&& c_string(encode_utf8(value@)) == Ok::<Seq<u8>, int>(buffer@)
                &&& first_nul(buffer@) == Some(buffer@.len() - 1)
            },
            Err(err) => c_string(encode_utf8(value@)) == Err::<Seq<u8>, int>(err.position as int),
        },
{
    proof {
        lemma_c_string_terminated(encode_utf8(value@));
    }
    let bytes = value.as_bytes();
    match find_nul(bytes) {
        Some(position) => Err(NulError { position }),
        None => {
            let mut buffer = slice_to_vec(bytes);
            buffer.push(0u8);
            Ok(buffer)
        },
    }
}

/// Encodes text for the host as a null-terminated buffer that the host owns
/// from then on. Text that cannot be encoded is replaced by an empty list.
pub fn string_out(value: &str) -> (buffer: Vec<u8>)
    ensures
        buffer@ == host_string(encode_utf8(value@)),
        first_nul(buffer@) == Some(buffer@.len() - 1),
{
    proof {
        lemma_host_string_terminated(encode_utf8(value@));
    }
    match to_c_string(value) {
        Ok(buffer) => buffer,
        Err(_) => {
            let mut fallback: Vec<u8> = Vec::new();
            fallback.push(0x5bu8);
            fallback.push(0x5du8);
            fallback.push(0u8);
            assert(fallback@ =~= empty_list_bytes().push(0u8));
            fallback
        },
    }
}

/// The description that `String::from_utf8` gives of its failure on bytes
/// that are not UTF-8.
pub uninterp spec fn utf8_error_text(bytes: Seq<u8>) -> Seq<char>;

/// `String::from_utf8`: succeeds exactly on valid UTF-8, with the string that
/// these bytes encode; on other bytes the result is the text of the error it
/// returns, as its `Display` writes it.
#[verifier::external_body]
fn string_from_utf8(bytes: Vec<u8>) -> (r: Result<String, String>)
    ensures
        match r {
            Ok(text) => valid_utf8(bytes@) && encode_utf8(text@) == bytes@,
            Err(reason) => !valid_utf8(bytes@) && reason@ == utf8_error_text(bytes@),
        },
{
    String::from_utf8(bytes).map_err(|err| err.to_string())
}

/// Decodes a string of the host: the bytes behind its pointer up to the
/// first zero byte, read as UTF-8. `None` stands for a null pointer.
pub fn string_in(ptr: Option<&[u8]>) -> (r: Result<String, DecodeError>)
    ensures
        match r {
            Ok(text) => decoded(borrowed(ptr)) == Ok::<Seq<char>, DecodeErrorView>(text@),
            Err(err) => decoded(borrowed(ptr)) == Err::<Seq<char>, DecodeErrorView>(err@),
        },
{
    let bytes = match ptr {
        Some(bytes) => bytes,
        None => {
            return Err(DecodeError::NullPointer);
        },
    };
    let end: usize = match find_nul(bytes) {
        Some(end) => end,
        None => {
            return Err(DecodeError::MissingTerminator);
        },
    };
    let text = slice_to_vec(slice_subrange(bytes, 0, end));
    match string_from_utf8(text) {
        Ok(text) => {
            proof {
                encode_utf8_decode_utf8(text@);
            }
            Ok(text)
        },
        Err(reason) => Err(DecodeError::InvalidUtf8 { reason }),
    }
}

} // verus!
