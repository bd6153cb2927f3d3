//! What a loader reads before it accepts the probe: a license and a version.

use crate::cstr::{c_string, lemma_c_string_terminated, nul_terminated, printable};
use vstd::prelude::*;

verus! {

/// The license declaration: `GPL` and the closing zero byte.
pub const LICENSE: [u8; 4] = [71, 80, 76, 0];

/// The version declaration. This value pins no kernel version: a loader
/// takes it to stand for the version of the kernel that is running.
pub const VERSION: u32 = 0xFFFF_FFFE;

/// The two declarations together, for whoever places them in the object.
#[derive(Clone, Copy, Debug, PartialEq, Eq)]
pub struct Metadata {
    pub license: [u8; 4],
    pub version: u32,
}

impl Metadata {
    /// The shape that a loader expects of the license: three printable
    /// characters, then a zero byte. Any version has the right shape.
    pub open spec fn well_formed(&self) -> bool {
        &&& forall|i: int| 0 <= i < 3 ==> printable(#[trigger] self.license@[i])
        &&& self.license@[3] == 0
    }
}

/// The declarations of this probe.
pub open spec fn declared() -> Metadata {
    Metadata { license: LICENSE, version: VERSION }
}

/// The license is the C string of `GPL`, four bytes closed by the last, and
/// the declarations are well formed.
pub proof fn lemma_declared()
    ensures
        LICENSE@ == c_string("GPL"@),
        LICENSE@.len() == 4,
        nul_terminated(LICENSE@),
        VERSION == 0xFFFF_FFFE,
        declared().well_formed(),
{
    reveal_strlit("GPL");
    assert(LICENSE@ =~= c_string("GPL"@));
    lemma_c_string_terminated("GPL"@);
}

/// Returns the probe's license and version declarations.
pub fn metadata() -> (m: Metadata)
    ensures
        m == declared(),
        m.well_formed(),
{
    Metadata { license: LICENSE, version: VERSION }
}

} // verus!
