//! Virtual terminal ioctl requests, modes, and the mode records that the
//! terminal is switched with (see linux/vt.h and linux/kd.h).
use crate::text::{decimal, push_decimal};
use vstd::prelude::*;

verus! {

pub const VT_OPENQRY: u64 = 0x5600;
pub const VT_GETSTATE: u64 = 0x5603;
pub const VT_ACTIVATE: u64 = 0x5606;
pub const VT_WAITACTIVE: u64 = 0x5607;
pub const VT_SETMODE: u64 = 0x5602;
pub const VT_RELDISP: u64 = 0x5605;
pub const KDSETMODE: u64 = 0x4B3A;
pub const KDGKBMODE: u64 = 0x4B44;
pub const KDSKBMODE: u64 = 0x4B45;

/// VT switching is done by the kernel.
pub const VT_AUTO: i16 = 0;
/// VT switching is negotiated with the process through signals.
pub const VT_PROCESS: i16 = 1;

/// Text console.
pub const KD_TEXT: i64 = 0x00;
/// Graphics, no text console.
pub const KD_GRAPHICS: i64 = 0x01;

/// Keyboard off.
pub const K_OFF: i64 = 0x04;

/// Answer to the kernel that the VT was acquired.
pub const VT_ACKACQ: i32 = 2;

/// Answer to the kernel that the VT may be released.
pub const VT_ACK_RELEASE: i32 = 1;

/// The path of the terminal device of VT `vt_num`: `/dev/tty` and the number.
pub fn tty_path(vt_num: u32) -> (path: String)
    ensures
        path@ == "/dev/tty"@ + decimal(vt_num as nat),
{
    let mut path = "/dev/tty".to_string();
    push_decimal(&mut path, vt_num);
    path
}

/// The record handed to `VT_SETMODE`.
#[derive(Debug, Clone, Copy, PartialEq, Eq)]
pub struct VtMode {
    pub mode: i16,
    pub waitv: i16,
    pub relsig: i16,
    pub acqsig: i16,
    pub frsig: i16,
}

impl VtMode {
    /// Process mode: the kernel signals `release_sig` and `acquire_sig`
    /// (each cut to the `short` of the kernel record) around a VT switch.
    pub fn process(release_sig: i32, acquire_sig: i32) -> (m: VtMode)
        ensures
            m.mode == VT_PROCESS,
            m.waitv == 0,
            m.relsig == release_sig as i16,
            m.acqsig == acquire_sig as i16,
            m.frsig == 0,
    {
        VtMode {
            mode: VT_PROCESS,
            waitv: 0,
            relsig: release_sig as i16,
            acqsig: acquire_sig as i16,
            frsig: 0,
        }
    }

    /// Auto mode: the kernel switches VTs without asking.
    pub fn auto() -> (m: VtMode)
        ensures
            m == (VtMode { mode: VT_AUTO, waitv: 0, relsig: 0, acqsig: 0, frsig: 0 }),
    {
        VtMode { mode: VT_AUTO, waitv: 0, relsig: 0, acqsig: 0, frsig: 0 }
    }
}

} // verus!
