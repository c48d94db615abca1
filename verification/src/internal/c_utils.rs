use vstd::prelude::*;
use vstd::utf8::{decode_utf8, valid_utf8};

verus! {

/// `core::str::Utf8Error`, the error of strict decoding. It is carried
/// through as it is; nothing is known of what it holds.
#[verifier::external_type_specification]
#[verifier::external_body]
pub struct ExUtf8Error(core::str::Utf8Error);

/// `Clone::clone` of `core::str::Utf8Error`, which the derive of the error
/// types here calls. `Utf8Error` is a `Copy` type: its clone is the same
/// value.
pub assume_specification[ <core::str::Utf8Error as Clone>::clone ](
    error: &core::str::Utf8Error,
) -> (copy: core::str::Utf8Error)
    ensures
        copy == *error,
;

/// What `String::from_utf8_lossy` makes of a byte string.
pub uninterp spec fn utf8_lossy(bytes: Seq<u8>) -> Seq<char>;

/// Strict decoding by `core::str::from_utf8`: the bytes are accepted exactly
/// when they are well-formed UTF-8, and the text is then their decoding.
/// Nothing is claimed about the error value.
#[verifier::external_body]
pub(crate) fn decode_utf8_strict(bytes: &[u8]) -> (res: Result<String, core::str::Utf8Error>)
    ensures
        res is Ok <==> valid_utf8(bytes@),
        res matches Ok(text) ==> text@ == decode_utf8(bytes@),
{
    match core::str::from_utf8(bytes) {
        Ok(text) => Ok(text.to_owned()),
        Err(error) => Err(error),
    }
}

/// Lossy decoding by `String::from_utf8_lossy`: the result depends on the
/// bytes alone, and well-formed UTF-8 decodes to exactly its text. What
/// ill-formed input turns into is left to `utf8_lossy`.
#[verifier::external_body]
pub(crate) fn decode_utf8_lossy(bytes: &[u8]) -> (text: String)
    ensures
        text@ == utf8_lossy(bytes@),
        valid_utf8(bytes@) ==> text@ == decode_utf8(bytes@),
{
    String::from_utf8_lossy(bytes).into_owned()
}

/// Number of bytes before the first NUL of a buffer, or the whole length if
/// there is none.
pub open spec fn spec_c_string_len(buffer: Seq<u8>) -> int
    decreases buffer.len(),
{
    if buffer.len() == 0 || buffer[0] == 0 {
        0
    } else {
        1 + spec_c_string_len(buffer.drop_first())
    }
}

/// The C string that a buffer holds: its bytes before the first NUL, or all
/// of them if there is none.
pub open spec fn spec_c_string_bytes(buffer: Seq<u8>) -> Seq<u8> {
    buffer.take(spec_c_string_len(buffer))
}

/// The length of the C string in a buffer is the one position that has no
/// NUL before it and is either the end of the buffer or a NUL.
pub proof fn lemma_c_string_len(buffer: Seq<u8>, n: int)
    requires
        0 <= n <= buffer.len(),
        forall|j: int| 0 <= j < n ==> buffer[j] != 0,
        n == buffer.len() || buffer[n] == 0,
    ensures
        spec_c_string_len(buffer) == n,
    decreases n,
{
    if n > 0 {
        let rest = buffer.drop_first();
        assert forall|j: int| 0 <= j < n - 1 implies rest[j] != 0 by {
            assert(rest[j] == buffer[j + 1]);
        }
        lemma_c_string_len(rest, n - 1);
    }
}

/// Copies the C string out of a buffer: the bytes before the first NUL, or
/// the whole buffer if it holds no NUL.
pub fn c_string_bytes(buffer: &[u8]) -> (out: Vec<u8>)
    ensures
        out@ == spec_c_string_bytes(buffer@),
        out@.len() <= buffer@.len(),
        forall|j: int| 0 <= j < out@.len() ==> out@[j] != 0,
{
    let mut out: Vec<u8> = Vec::new();
    let mut i: usize = 0;
    while i < buffer.len() && buffer[i] != 0
        invariant
            i <= buffer.len(),
            out@ == buffer@.take(i as int),
            forall|j: int| 0 <= j < i ==> buffer@[j] != 0,
        decreases buffer.len() - i,
    {
        out.push(buffer[i]);
        i += 1;
        proof {
            assert(out@ =~= buffer@.take(i as int));
        }
    }
    proof {
        lemma_c_string_len(buffer@, i as int);
    }
    out
}

/// Decodes a possibly-null C string strictly. `None` stands for the null
/// pointer and is no error; otherwise the bytes are those before the
/// terminating NUL, and they are text exactly when they are well-formed.
pub fn try_c_char_ptr_to_str(bytes: Option<&[u8]>) -> (res: Result<
    Option<String>,
    core::str::Utf8Error,
>)
    ensures
        res is Ok <==> (bytes matches Some(b) ==> valid_utf8(b@)),
        res matches Ok(text) ==> match bytes {
            None => text is None,
            Some(b) => text matches Some(t) && t@ == decode_utf8(b@),
        },
{
    match bytes {
        None => Ok(None),
        Some(b) => match decode_utf8_strict(b) {
            Ok(text) => Ok(Some(text)),
            Err(error) => Err(error),
        },
    }
}

} // verus!
