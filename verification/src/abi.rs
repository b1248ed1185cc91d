//! Data carried across the syscall boundary: flag sets, the directory-entry
//! and terminal records, and the machine-identity record.

use vstd::prelude::*;

verus! {

/// `ioctl` request: report the window size of a terminal.
pub const TIOCGWINSZ: usize = 0x5413;

/// `ioctl` request: read the terminal discipline.
pub const TCGETS: usize = 0x5401;

/// `ioctl` request: set the terminal discipline after flushing.
pub const TCSETSF: usize = 0x5404;

/// Directory-descriptor value naming the current working directory.
pub const AT_FDCWD: isize = -100;

/// Length of each textual field of `Utsname`.
pub const UTSNAME_FIELD_LEN: usize = 65;

/// `MMapProt` bit: see the kernel ABI.
pub const PROT_NONE: usize = 0x0;

/// `MMapProt` bit: see the kernel ABI.
pub const PROT_READ: usize = 0x1;

/// `MMapProt` bit: see the kernel ABI.
pub const PROT_WRITE: usize = 0x2;

/// `MMapProt` bit: see the kernel ABI.
pub const PROT_EXEC: usize = 0x4;

/// Memory-protection bits requested of `sys_mmap`.
#[derive(Clone, Copy, Debug, PartialEq, Eq, Structural)]
pub struct MMapProt {
    bits: usize,
}

impl MMapProt {
    /// The raw bit set.
    pub closed spec fn spec_bits(&self) -> usize {
        self.bits
    }

    /// The empty bit set.
    pub fn empty() -> (r: Self)
        ensures
            r.spec_bits() == 0,
    {
        MMapProt { bits: 0 }
    }

    /// The bit set carrying exactly `bits`.
    pub fn from_bits(bits: usize) -> (r: Self)
        ensures
            r.spec_bits() == bits,
    {
        MMapProt { bits }
    }

    /// The raw bit set.
    pub fn bits(&self) -> (r: usize)
        ensures
            r == self.spec_bits(),
    {
        self.bits
    }

    /// Whether every bit of `other` is set in `self`.
    pub fn contains(&self, other: Self) -> (r: bool)
        ensures
            r == (self.spec_bits() & other.spec_bits() == other.spec_bits()),
    {
        self.bits & other.bits == other.bits
    }

    /// Both bit sets combined.
    pub fn union(&self, other: Self) -> (r: Self)
        ensures
            r.spec_bits() == self.spec_bits() | other.spec_bits(),
    {
        MMapProt { bits: self.bits | other.bits }
    }
}

/// `MMapFlags` bit: see the kernel ABI.
pub const MAP_PRIVATE: usize = 0x1;

/// `MMapFlags` bit: see the kernel ABI.
pub const MAP_SHARED: usize = 0x2;

/// `MMapFlags` bit: see the kernel ABI.
pub const MAP_FIXED: usize = 0x4;

/// `MMapFlags` bit: see the kernel ABI.
pub const MAP_ANONYOMUS: usize = 0x8;

/// Mapping-kind bits requested of `sys_mmap`.
#[derive(Clone, Copy, Debug, PartialEq, Eq, Structural)]
pub struct MMapFlags {
    bits: usize,
}

impl MMapFlags {
    /// The raw bit set.
    pub closed spec fn spec_bits(&self) -> usize {
        self.bits
    }

    /// The empty bit set.
    pub fn empty() -> (r: Self)
        ensures
            r.spec_bits() == 0,
    {
        MMapFlags { bits: 0 }
    }

    /// The bit set carrying exactly `bits`.
    pub fn from_bits(bits: usize) -> (r: Self)
        ensures
            r.spec_bits() == bits,
    {
        MMapFlags { bits }
    }

    /// The raw bit set.
    pub fn bits(&self) -> (r: usize)
        ensures
            r == self.spec_bits(),
    {
        self.bits
    }

    /// Whether every bit of `other` is set in `self`.
    pub fn contains(&self, other: Self) -> (r: bool)
        ensures
            r == (self.spec_bits() & other.spec_bits() == other.spec_bits()),
    {
        self.bits & other.bits == other.bits
    }

    /// Both bit sets combined.
    pub fn union(&self, other: Self) -> (r: Self)
        ensures
            r.spec_bits() == self.spec_bits() | other.spec_bits(),
    {
        MMapFlags { bits: self.bits | other.bits }
    }
}

/// `OpenFlags` bit: see the kernel ABI.
pub const O_RDONLY: usize = 2;

/// `OpenFlags` bit: see the kernel ABI.
pub const O_RDWR: usize = 3;

/// `OpenFlags` bit: see the kernel ABI.
pub const O_WRONLY: usize = 5;

/// `OpenFlags` bit: see the kernel ABI.
pub const O_CREAT: usize = 0x10;

/// `OpenFlags` bit: see the kernel ABI.
pub const O_DIRECTORY: usize = 0x20;

/// `OpenFlags` bit: see the kernel ABI.
pub const O_EXCL: usize = 0x40;

/// `OpenFlags` bit: see the kernel ABI.
pub const O_NOCTTY: usize = 0x80;

/// `OpenFlags` bit: see the kernel ABI.
pub const O_TRUNC: usize = 0x0200;

/// `OpenFlags` bit: see the kernel ABI.
pub const O_CLOEXEC: usize = 0x4000;

/// Open-mode bits handed to `sys_open`.
#[derive(Clone, Copy, Debug, PartialEq, Eq, Structural)]
pub struct OpenFlags {
    bits: usize,
}

impl OpenFlags {
    /// The raw bit set.
    pub closed spec fn spec_bits(&self) -> usize {
        self.bits
    }

    /// The empty bit set.
    pub fn empty() -> (r: Self)
        ensures
            r.spec_bits() == 0,
    {
        OpenFlags { bits: 0 }
    }

    /// The bit set carrying exactly `bits`.
    pub fn from_bits(bits: usize) -> (r: Self)
        ensures
            r.spec_bits() == bits,
    {
        OpenFlags { bits }
    }

    /// The raw bit set.
    pub fn bits(&self) -> (r: usize)
        ensures
            r == self.spec_bits(),
    {
        self.bits
    }

    /// Whether every bit of `other` is set in `self`.
    pub fn contains(&self, other: Self) -> (r: bool)
        ensures
            r == (self.spec_bits() & other.spec_bits() == other.spec_bits()),
    {
        self.bits & other.bits == other.bits
    }

    /// Both bit sets combined.
    pub fn union(&self, other: Self) -> (r: Self)
        ensures
            r.spec_bits() == self.spec_bits() | other.spec_bits(),
    {
        OpenFlags { bits: self.bits | other.bits }
    }
}

/// `TermiosLFlag` bit: see the kernel ABI.
pub const ECHO: u32 = 10;

/// `TermiosLFlag` bit: see the kernel ABI.
pub const ECHOE: u32 = 20;

/// `TermiosLFlag` bit: see the kernel ABI.
pub const ECHOK: u32 = 40;

/// `TermiosLFlag` bit: see the kernel ABI.
pub const ECHONL: u32 = 100;

/// `TermiosLFlag` bit: see the kernel ABI.
pub const NOFLSH: u32 = 200;

/// `TermiosLFlag` bit: see the kernel ABI.
pub const TOSTOP: u32 = 400;

/// `TermiosLFlag` bit: see the kernel ABI.
pub const ICANON: u32 = 2;

/// Local-mode bits of the terminal discipline.
#[derive(Clone, Copy, Debug, PartialEq, Eq, Structural)]
pub struct TermiosLFlag {
    bits: u32,
}

impl TermiosLFlag {
    /// The raw bit set.
    pub closed spec fn spec_bits(&self) -> u32 {
        self.bits
    }

    /// The empty bit set.
    pub fn empty() -> (r: Self)
        ensures
            r.spec_bits() == 0,
    {
        TermiosLFlag { bits: 0 }
    }

    /// The bit set carrying exactly `bits`.
    pub fn from_bits(bits: u32) -> (r: Self)
        ensures
            r.spec_bits() == bits,
    {
        TermiosLFlag { bits }
    }

    /// The raw bit set.
    pub fn bits(&self) -> (r: u32)
        ensures
            r == self.spec_bits(),
    {
        self.bits
    }

    /// Whether every bit of `other` is set in `self`.
    pub fn contains(&self, other: Self) -> (r: bool)
        ensures
            r == (self.spec_bits() & other.spec_bits() == other.spec_bits()),
    {
        self.bits & other.bits == other.bits
    }

    /// Both bit sets combined.
    pub fn union(&self, other: Self) -> (r: Self)
        ensures
            r.spec_bits() == self.spec_bits() | other.spec_bits(),
    {
        TermiosLFlag { bits: self.bits | other.bits }
    }
}
/// What kind of object a directory entry names.
#[derive(Clone, Copy, Debug, PartialEq, Eq, Structural)]
pub enum SysFileType {
    File,
    Directory,
    Device,
}

/// One record of the buffer `sys_getdents` fills.
pub struct SysDirEntry {
    pub inode: usize,
    pub offset: usize,
    pub reclen: usize,
    pub file_type: SysFileType,
    pub name: Vec<u8>,
}

/// The machine-identity record `sys_uname` fills: five fixed-length textual
/// fields.
pub struct Utsname {
    pub name: Vec<u8>,
    pub nodename: Vec<u8>,
    pub release: Vec<u8>,
    pub version: Vec<u8>,
    pub machine: Vec<u8>,
}

impl Utsname {
    /// Every field holds exactly its fixed length.
    pub open spec fn wf(&self) -> bool {
        &&& self.name@.len() == UTSNAME_FIELD_LEN
        &&& self.nodename@.len() == UTSNAME_FIELD_LEN
        &&& self.release@.len() == UTSNAME_FIELD_LEN
        &&& self.version@.len() == UTSNAME_FIELD_LEN
        &&& self.machine@.len() == UTSNAME_FIELD_LEN
    }

    /// The operating-system name field.
    pub fn name(&self) -> (r: &Vec<u8>)
        ensures
            r@ == self.name@,
    {
        &self.name
    }

    /// The network-node name field.
    pub fn nodename(&self) -> (r: &Vec<u8>)
        ensures
            r@ == self.nodename@,
    {
        &self.nodename
    }

    /// The release field.
    pub fn release(&self) -> (r: &Vec<u8>)
        ensures
            r@ == self.release@,
    {
        &self.release
    }

    /// The version field.
    pub fn version(&self) -> (r: &Vec<u8>)
        ensures
            r@ == self.version@,
    {
        &self.version
    }

    /// The machine (hardware) field.
    pub fn machine(&self) -> (r: &Vec<u8>)
        ensures
            r@ == self.machine@,
    {
        &self.machine
    }
}

/// A field of `Utsname`'s length, filled with zeroes.
fn zeroed_field() -> (r: Vec<u8>)
    ensures
        r@.len() == UTSNAME_FIELD_LEN,
        forall|i: int| 0 <= i < UTSNAME_FIELD_LEN ==> r@[i] == 0,
{
    let mut v: Vec<u8> = Vec::new();
    let mut i: usize = 0;
    while i < UTSNAME_FIELD_LEN
        invariant
            i <= UTSNAME_FIELD_LEN,
            v@.len() == i,
            forall|j: int| 0 <= j < i ==> v@[j] == 0,
        decreases UTSNAME_FIELD_LEN - i,
    {
        v.push(0);
        i = i + 1;
    }
    v
}

impl Default for Utsname {
    /// All five fields present, zero-filled.
    fn default() -> (r: Self)
        ensures
            r.wf(),
            forall|i: int| 0 <= i < UTSNAME_FIELD_LEN ==> r.name@[i] == 0,
            forall|i: int| 0 <= i < UTSNAME_FIELD_LEN ==> r.nodename@[i] == 0,
            forall|i: int| 0 <= i < UTSNAME_FIELD_LEN ==> r.release@[i] == 0,
            forall|i: int| 0 <= i < UTSNAME_FIELD_LEN ==> r.version@[i] == 0,
            forall|i: int| 0 <= i < UTSNAME_FIELD_LEN ==> r.machine@[i] == 0,
    {
        Utsname {
            name: zeroed_field(),
            nodename: zeroed_field(),
            release: zeroed_field(),
            version: zeroed_field(),
            machine: zeroed_field(),
        }
    }
}

/// The terminal window size `TIOCGWINSZ` reports.
#[derive(Clone, Copy, Debug, PartialEq, Eq, Structural)]
pub struct WinSize {
    pub ws_row: u16,
    pub ws_col: u16,
    pub ws_xpixel: u16,
    pub ws_ypixel: u16,
}

impl Default for WinSize {
    fn default() -> (r: Self)
        ensures
            r.ws_row == 0 && r.ws_col == 0 && r.ws_xpixel == 0 && r.ws_ypixel == 0,
    {
        WinSize { ws_row: 0, ws_col: 0, ws_xpixel: 0, ws_ypixel: 0 }
    }
}

/// The terminal discipline `TCGETS` reads and `TCSETSF` sets.
#[derive(Clone, Copy, Debug)]
pub struct Termios {
    pub c_iflag: u32,
    pub c_oflag: u32,
    pub c_cflag: u32,
    pub c_lflag: TermiosLFlag,
    pub c_line: u8,
    pub c_cc: [u8; 32],
    pub c_ispeed: u32,
    pub c_ospeed: u32,
}

impl Default for Termios {
    fn default() -> (r: Self)
        ensures
            r.c_iflag == 0 && r.c_oflag == 0 && r.c_cflag == 0,
            r.c_lflag.spec_bits() == 0,
            r.c_line == 0,
            forall|i: int| 0 <= i < 32 ==> r.c_cc@[i] == 0,
            r.c_ispeed == 0 && r.c_ospeed == 0,
    {
        Termios {
            c_iflag: 0,
            c_oflag: 0,
            c_cflag: 0,
            c_lflag: TermiosLFlag::empty(),
            c_line: 0,
            c_cc: [0u8; 32],
            c_ispeed: 0,
            c_ospeed: 0,
        }
    }
}

} // verus!
