//! Syscall numbers of the kernel's ABI.

use vstd::prelude::*;

verus! {

pub const SYS_READ: usize = 0;

pub const SYS_WRITE: usize = 1;

pub const SYS_OPEN: usize = 2;

pub const SYS_CLOSE: usize = 3;

pub const SYS_SHUTDOWN: usize = 4;

pub const SYS_EXIT: usize = 5;

pub const SYS_FORK: usize = 6;

pub const SYS_REBOOT: usize = 7;

pub const SYS_MMAP: usize = 8;

pub const SYS_MUNMAP: usize = 9;

pub const SYS_ARCH_PRCTL: usize = 10;

pub const SYS_GETDENTS: usize = 11;

pub const SYS_GETCWD: usize = 12;

pub const SYS_CHDIR: usize = 13;

pub const SYS_MKDIR: usize = 14;

pub const SYS_EXEC: usize = 15;

pub const SYS_LOG: usize = 16;

pub const SYS_UNAME: usize = 17;

pub const SYS_WAITPID: usize = 18;

pub const SYS_IOCTL: usize = 19;

pub const SYS_RMDIR: usize = 20;

pub const SYS_MKDIR_AT: usize = 21;

} // verus!
