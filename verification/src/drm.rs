//! DRM (graphics device) ioctl encodings and the recognition of DRM device paths.
use crate::text::{is_prefix, starts_with};
use vstd::prelude::*;

verus! {

/// The ioctl type letter of DRM requests (see drm.h).
pub const DRM_IOCTL_BASE: u8 = 0x64;

/// The command number of `DRM_IOCTL_SET_MASTER`.
pub const DRM_IOCTL_SET_MASTER: u8 = 0x1e;

/// The command number of `DRM_IOCTL_DROP_MASTER`.
pub const DRM_IOCTL_DROP_MASTER: u8 = 0x1f;

/// The request code of an argument-less DRM ioctl: `_IO('d', nr)`, that is
/// `('d' << 8) | nr`.
pub open spec fn drm_io_code(nr: u8) -> int {
    (DRM_IOCTL_BASE as u64) * 256 + nr as u64
}

/// Encodes the request code of an argument-less DRM ioctl.
pub fn drm_io(nr: u8) -> (code: u64)
    ensures
        code == drm_io_code(nr),
{
    let code = ((DRM_IOCTL_BASE as u64) << 8u64) | (nr as u64);
    assert(((0x64u64 << 8u64) | (nr as u64)) == 0x64u64 * 256 + nr as u64) by (bit_vector)
        requires
            nr < 256,
    ;
    code
}

/// Paths under this directory are DRM devices.
pub open spec fn drm_prefix() -> Seq<char> {
    "/dev/dri/"@
}

/// Check if a device path is a DRM device
pub fn is_drm_device(path: &str) -> (res: bool)
    ensures
        res == is_prefix(drm_prefix(), path@),
{
    starts_with(path, "/dev/dri/")
}

} // verus!
