//! Text in the form in which the engine takes it.

use vstd::prelude::*;
use vstd::utf8::encode_utf8;
use crate::error::RsqliteError;

verus! {

/// Whether `position` is the offset of the first zero byte in `bytes`.
pub open spec fn is_first_zero(bytes: Seq<u8>, position: int) -> bool {
    &&& 0 <= position < bytes.len()
    &&& bytes[position] == 0
    &&& forall|i: int| 0 <= i < position ==> bytes[i] != 0
}

/// Whether `bytes` holds no zero byte.
pub open spec fn zero_free(bytes: Seq<u8>) -> bool {
    forall|i: int| 0 <= i < bytes.len() ==> bytes[i] != 0
}

/// The C string of `text`: its bytes, followed by a terminating zero.
///
/// A C string ends at its first zero byte, so text that holds one has no such
/// form. It is refused here, before anything is handed to the engine, with the
/// offset of its first zero byte.
pub fn c_string(text: &str) -> (outcome: Result<Vec<u8>, RsqliteError>)
    ensures
        match outcome {
            Ok(bytes) => {
                &&& zero_free(encode_utf8(text@))
                &&& bytes@ == encode_utf8(text@).push(0u8)
            },
            Err(error) => {
                &&& error matches RsqliteError::InvalidCString(position)
                &&& is_first_zero(encode_utf8(text@), position as int)
            },
        },
{
    let bytes = text.as_bytes();
    let mut copy: Vec<u8> = Vec::new();
    let mut i: usize = 0;
    while i < bytes.len()
        invariant
            i <= bytes.len(),
            bytes@ == encode_utf8(text@),
            copy@ == bytes@.subrange(0, i as int),
            forall|j: int| 0 <= j < i ==> bytes@[j] != 0,
        decreases bytes.len() - i,
    {
        let byte: u8 = bytes[i];
        if byte == 0 {
            return Err(RsqliteError::InvalidCString(i));
        }
        copy.push(byte);
        assert(copy@ == bytes@.subrange(0, i + 1));
        i = i + 1;
    }
    assert(bytes@.subrange(0, i as int) == bytes@);
    copy.push(0);
    Ok(copy)
}

} // verus!
