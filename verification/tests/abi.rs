use aero::abi::MMapProt;
use aero::abi::OpenFlags;
use aero::abi::Termios;
use aero::abi::TermiosLFlag;
use aero::abi::Utsname;
use aero::abi::WinSize;
use aero::abi::ECHO;
use aero::abi::ICANON;
use aero::abi::O_CLOEXEC;
use aero::abi::O_RDWR;
use aero::abi::PROT_NONE;
use aero::abi::PROT_READ;
use aero::abi::PROT_WRITE;
use aero::abi::TCGETS;
use aero::abi::TIOCGWINSZ;

#[test]
fn flag_sets_carry_their_bits() {
    let f = OpenFlags::from_bits(O_RDWR | O_CLOEXEC);
    assert_eq!(f.bits(), O_RDWR | O_CLOEXEC);
    assert!(f.contains(OpenFlags::from_bits(O_RDWR)));
    assert!(!f.contains(OpenFlags::from_bits(0x10)));
    assert_eq!(OpenFlags::empty().bits(), 0);
}

#[test]
fn flag_union_combines() {
    let p = MMapProt::from_bits(PROT_READ).union(MMapProt::from_bits(PROT_WRITE));
    assert_eq!(p.bits(), PROT_READ | PROT_WRITE);
    assert_eq!(MMapProt::from_bits(PROT_NONE).bits(), 0);
}

#[test]
fn terminal_flags_and_requests() {
    let lflag = TermiosLFlag::from_bits(ECHO | ICANON);
    assert!(lflag.contains(TermiosLFlag::from_bits(ECHO)));
    assert_eq!(TIOCGWINSZ, 0x5413);
    assert_eq!(TCGETS, 0x5401);
}

#[test]
fn winsize_default_is_zero() {
    let w = WinSize::default();
    assert_eq!(w.ws_row, 0);
    assert_eq!(w.ws_col, 0);
    assert_eq!(w.ws_xpixel, 0);
    assert_eq!(w.ws_ypixel, 0);
}

#[test]
fn termios_default_is_zeroed() {
    let t = Termios::default();
    assert_eq!(t.c_iflag, 0);
    assert_eq!(t.c_lflag.bits(), 0);
    assert!(t.c_cc.iter().all(|b| *b == 0));
}

#[test]
fn utsname_default_has_full_zeroed_fields() {
    let u = Utsname::default();
    assert_eq!(u.name().len(), 65);
    assert_eq!(u.nodename().len(), 65);
    assert_eq!(u.release().len(), 65);
    assert_eq!(u.version().len(), 65);
    assert_eq!(u.machine().len(), 65);
    assert!(u.name().iter().all(|b| *b == 0));
}
