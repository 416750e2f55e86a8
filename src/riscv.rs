use vstd::prelude::*;

use crate::cpu::PrivilegeLevel;

verus! {

/// How software may treat a CSR field.
#[derive(Debug, Clone, Copy, PartialEq, Eq, Structural)]
pub enum CSRFieldSpec {
    /// Reserved writes preserve values, reads ignore values.
    WPRI,
    /// Write/read only legal values.
    WLRL,
    /// Write any values, reads legal values.
    WARL,
}

/// The `mstatus.MPP` field (bits 12:11).
pub open spec fn mpp_of(mstatus: u64) -> u64 {
    (mstatus >> 11u64) % 4
}

/// The previous privilege mode recorded in `mstatus.MPP`.
pub fn get_mode(mstatus: u64) -> (r: PrivilegeLevel)
    requires
        mpp_of(mstatus) != 2,
    ensures
        r.bits() == mpp_of(mstatus),
{
    PrivilegeLevel::from_mpp(mstatus >> 11u64)
}

} // verus!
