//! Paths as the kernel takes them: the bytes of the text, closed by a zero byte.

use crate::decimal::{decimal, push_decimal};
use crate::error::{Error, ErrorView};
use vstd::prelude::*;
use vstd::string::{StringExecFns, StringSliceAdditionalSpecFns};

verus! {

/// Whether no byte is zero.
pub open spec fn zero_free(bytes: Seq<u8>) -> bool {
    forall|i: int| 0 <= i < bytes.len() ==> bytes[i] != 0
}

/// Whether `at` is the place of the first zero byte.
pub open spec fn first_zero(bytes: Seq<u8>, at: int) -> bool {
    &&& 0 <= at < bytes.len()
    &&& bytes[at] == 0
    &&& zero_free(bytes.take(at))
}

/// The text that reports a zero byte inside a path.
pub open spec fn zero_byte_message(at: nat) -> Seq<char> {
    "nul byte found in provided data at position: "@ + decimal(at)
}

/// The bytes of `path` closed by a zero byte, as a C function reads a string.
/// A path with a zero byte inside cannot be written so; the error names the place
/// of the first one.
pub fn c_string(path: &str) -> (r: Result<Vec<u8>, Error>)
    ensures
        zero_free(path.spec_bytes()) ==> (r matches Ok(text) && text@ == path.spec_bytes().push(
            0u8,
        )),
        !zero_free(path.spec_bytes()) ==> (r matches Err(e) && exists|at: int|
            #[trigger] first_zero(path.spec_bytes(), at) && e@ == ErrorView::InvalidInput(
                zero_byte_message(at as nat),
            )),
{
    let bytes = path.as_bytes();
    let mut text: Vec<u8> = Vec::new();
    let mut i: usize = 0;
    while i < bytes.len()
        invariant
            bytes@ == path.spec_bytes(),
            i <= bytes@.len(),
            text@ == bytes@.take(i as int),
            zero_free(text@),
        decreases bytes@.len() - i,
    {
        let byte = bytes[i];
        if byte == 0 {
            let mut message = String::from_str("nul byte found in provided data at position: ");
            push_decimal(&mut message, i as u64);
            assert(first_zero(path.spec_bytes(), i as int));
            return Err(Error::InvalidInput(message));
        }
        text.push(byte);
        assert(text@ =~= bytes@.take(i + 1));
        i += 1;
    }
    assert(bytes@.take(i as int) =~= bytes@);
    text.push(0u8);
    Ok(text)
}

} // verus!
