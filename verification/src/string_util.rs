//! Conversion of Rust strings into the NUL-terminated byte strings that the
//! game engine's text routines expect.

use vstd::prelude::*;
use vstd::string::StringSliceAdditionalSpecFns;

verus! {

/// A NUL-terminated byte string, as the game engine's text routines expect.
///
/// The view is the whole byte sequence, terminator included.
#[derive(Clone, Debug, PartialEq, Eq)]
pub struct CString {
    bytes: Vec<u8>,
}

impl CString {
    /// The byte sequence, including the trailing NUL.
    pub closed spec fn view(&self) -> Seq<u8> {
        self.bytes@
    }

    /// A well-formed C string: non-empty, ends in NUL, no interior NUL.
    pub open spec fn wf(&self) -> bool {
        &&& self@.len() >= 1
        &&& self@[self@.len() - 1] == 0
        &&& forall|i: int| 0 <= i < self@.len() - 1 ==> self@[i] != 0
    }

    /// The raw bytes, including the trailing NUL, for handing to the engine.
    pub fn as_bytes_with_nul(&self) -> (r: &[u8])
        ensures
            r@ == self@,
    {
        self.bytes.as_slice()
    }
}

/// Converts a string to a NUL-terminated byte string, or reports that the
/// string contains an interior NUL byte and so has no such form.
pub fn try_str_to_cstring(s: &str) -> (r: Option<CString>)
    ensures
        r is Some <==> (forall|i: int|
            0 <= i < s.spec_bytes().len() ==> s.spec_bytes()[i] != 0),
        r matches Some(c) ==> c@ == s.spec_bytes().push(0) && c.wf(),
{
    let bytes: &[u8] = s.as_bytes();
    let mut out: Vec<u8> = Vec::new();
    let n: usize = bytes.len();
    let mut i: usize = 0;
    while i < n
        invariant
            bytes@ == s.spec_bytes(),
            n == bytes@.len(),
            0 <= i <= n,
            out@ == bytes@.subrange(0, i as int),
            forall|j: int| 0 <= j < i ==> bytes@[j] != 0,
        decreases n - i,
    {
        let b: u8 = bytes[i];
        if b == 0 {
            assert(s.spec_bytes()[i as int] == 0);
            return None;
        }
        out.push(b);
        i += 1;
    }
    assert(out@ =~= bytes@);
    out.push(0);
    Some(CString { bytes: out })
}

/// Converts a string without interior NUL bytes to its NUL-terminated form.
pub fn str_to_cstring(s: &str) -> (r: CString)
    requires
        forall|i: int| 0 <= i < s.spec_bytes().len() ==> s.spec_bytes()[i] != 0,
    ensures
        r@ == s.spec_bytes().push(0),
        r.wf(),
{
    let r = try_str_to_cstring(s);
    match r {
        Some(c) => c,
        None => vstd::pervasive::unreached(),
    }
}

} // verus!
