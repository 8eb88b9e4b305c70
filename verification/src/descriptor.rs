//! The identity that the adapter's descriptor publishes.

use vstd::prelude::*;

verus! {

/// ABI version exported by this adapter.
pub const ABI_VERSION: u32 = 1;

/// The stable name that selects this adapter capability, as text.
pub open spec fn capability_text() -> Seq<char> {
    "rptadv.samplerate"@
}

/// Whether `bytes` is a NUL-terminated C string whose characters are, one byte
/// each, the characters of `text`.
pub open spec fn is_c_string_of(bytes: Seq<u8>, text: Seq<char>) -> bool {
    &&& bytes.len() == text.len() + 1
    &&& bytes.last() == 0u8
    &&& forall|i: int| 0 <= i < text.len() ==> bytes[i] as int == text[i] as int
}

/// The stable capability name `rptadv.samplerate` as a NUL-terminated C
/// string, with no NUL before its end.
pub fn capability_name() -> (r: Vec<u8>)
    ensures
        is_c_string_of(r@, capability_text()),
        is_c_string_of(r@, "rptadv.samplerate"@),
        forall|i: int| 0 <= i < r@.len() - 1 ==> r@[i] != 0u8,
{
    // ASCII codes of "rptadv.samplerate", then the terminating NUL.
    let r: Vec<u8> = vec![
        114u8, 112u8, 116u8, 97u8, 100u8, 118u8, 46u8, 115u8, 97u8,
        109u8, 112u8, 108u8, 101u8, 114u8, 97u8, 116u8, 101u8, 0u8,
    ];
    proof {
        reveal_strlit("rptadv.samplerate");
        assert(r@.len() == 18);
    }
    r
}

} // verus!
