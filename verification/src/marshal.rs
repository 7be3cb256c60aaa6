//! Conversion of caller-supplied text into the nul-terminated byte string the
//! native engine's calls expect.

use vstd::prelude::*;
use vstd::slice::slice_index_get;
use vstd::string::StringSliceAdditionalSpecFns;
use crate::enums::has_nul;
use crate::error::GenericError;

verus! {

/// A well-formed C string: at least the terminator, which is the only nul
/// byte in it.
pub open spec fn c_str_wf(bs: Seq<u8>) -> bool {
    bs.len() >= 1 && bs.last() == 0u8 && !has_nul(bs.drop_last())
}

/// Converts text into the engine's nul-terminated representation. Succeeds
/// exactly when the text carries no embedded nul byte; the result is then the
/// text's bytes with one terminator appended.
pub fn c_string_bytes(s: &str) -> (r: Result<Vec<u8>, GenericError>)
    ensures
        match r {
            Ok(v) => !has_nul(s.spec_bytes()) && v@ == s.spec_bytes().push(0u8),
            Err(e) => has_nul(s.spec_bytes()) && e@ == "string contains an embedded nul byte"@,
        },
{
    let bytes = s.as_bytes();
    let n = bytes.len();
    let mut v: Vec<u8> = Vec::new();
    let mut i: usize = 0;
    while i < n
        invariant
            n == bytes@.len(),
            bytes@ == s.spec_bytes(),
            0 <= i <= n,
            v@ == bytes@.subrange(0, i as int),
            forall|j: int| 0 <= j < i ==> bytes@[j] != 0u8,
        decreases n - i,
    {
        let b = *slice_index_get(bytes, i);
        if b == 0u8 {
            return Err(GenericError::new("string contains an embedded nul byte"));
        }
        v.push(b);
        i = i + 1;
    }
    v.push(0u8);
    proof {
        assert(bytes@.subrange(0, n as int) =~= bytes@);
        assert(v@ =~= s.spec_bytes().push(0u8));
    }
    Ok(v)
}

/// A successful conversion yields a well-formed C string.
pub proof fn lemma_converted_is_wf(text: Seq<u8>)
    requires
        !has_nul(text),
    ensures
        c_str_wf(text.push(0u8)),
{
    assert(text.push(0u8).drop_last() =~= text);
}

} // verus!
