use seatd::vt::{tty_path, VtMode, KD_GRAPHICS, KD_TEXT, VT_AUTO, VT_PROCESS};

#[test]
fn test_vt_constants() {
    // Just verify our constants are reasonable
    assert_eq!(VT_AUTO, 0);
    assert_eq!(VT_PROCESS, 1);
    assert_eq!(KD_TEXT, 0);
    assert_eq!(KD_GRAPHICS, 1);
}

#[test]
fn vt_modes_carry_the_signals() {
    let m = VtMode::process(10, 12);
    assert_eq!(
        m,
        VtMode {
            mode: VT_PROCESS,
            waitv: 0,
            relsig: 10,
            acqsig: 12,
            frsig: 0
        }
    );
    assert_eq!(VtMode::process(0x1_0005, -1).relsig, 5);
    assert_eq!(VtMode::process(0x1_0005, -1).acqsig, -1);
    assert_eq!(
        VtMode::auto(),
        VtMode {
            mode: VT_AUTO,
            waitv: 0,
            relsig: 0,
            acqsig: 0,
            frsig: 0
        }
    );
}

#[test]
fn tty_paths_number_the_terminal() {
    assert_eq!(tty_path(1), "/dev/tty1");
    assert_eq!(tty_path(0), "/dev/tty0");
    assert_eq!(tty_path(63), format!("/dev/tty{}", 63));
}
