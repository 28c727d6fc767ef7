//! PJSIP version number decoding.

use vstd::prelude::*;

verus! {

/// Minimum supported PJSIP version (2.13.0).
pub const MIN_VERSION: u32 = 0x020D_0000;

/// Maximum tested PJSIP version (2.15.0).
pub const MAX_TESTED_VERSION: u32 = 0x020F_0000;

/// Parse a PJSIP version number into (major, minor, patch) components.
///
/// PJSIP encodes versions as `0xMMmmpp00` (major, minor, patch, then a
/// low byte that is not part of the triple).
pub fn parse_version(version_num: u32) -> (v: (u8, u8, u8))
    ensures
        v.0 == version_num / 0x100_0000,
        v.1 == (version_num / 0x1_0000) % 0x100,
        v.2 == (version_num / 0x100) % 0x100,
        version_num == v.0 * 0x100_0000 + v.1 * 0x1_0000 + v.2 * 0x100 + version_num % 0x100,
{
    let major = ((version_num >> 24) & 0xFF) as u8;
    let minor = ((version_num >> 16) & 0xFF) as u8;
    let patch = ((version_num >> 8) & 0xFF) as u8;
    assert(((version_num >> 24) & 0xFF) == version_num / 0x100_0000) by (bit_vector);
    assert(((version_num >> 16) & 0xFF) == (version_num / 0x1_0000) % 0x100) by (bit_vector);
    assert(((version_num >> 8) & 0xFF) == (version_num / 0x100) % 0x100) by (bit_vector);
    assert(version_num == (version_num / 0x100_0000) * 0x100_0000 + ((version_num / 0x1_0000)
        % 0x100) * 0x1_0000 + ((version_num / 0x100) % 0x100) * 0x100 + version_num % 0x100)
        by (bit_vector);
    (major, minor, patch)
}

} // verus!
