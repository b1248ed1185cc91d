use aero::errno::isize_as_syscall_result;
use aero::errno::syscall_result_as_usize;
use aero::errno::AeroSyscallError;

#[test]
fn decode_success_values() {
    assert_eq!(isize_as_syscall_result(0), Ok(0));
    assert_eq!(isize_as_syscall_result(7), Ok(7));
    assert_eq!(isize_as_syscall_result(isize::MAX), Ok(isize::MAX as usize));
}

#[test]
fn decode_known_errors() {
    assert_eq!(isize_as_syscall_result(-1), Err(AeroSyscallError::EDOM));
    assert_eq!(isize_as_syscall_result(-3), Err(AeroSyscallError::ERANGE));
    assert_eq!(isize_as_syscall_result(-1008), Err(AeroSyscallError::EBADF));
    assert_eq!(isize_as_syscall_result(-1026), Err(AeroSyscallError::EINVAL));
    assert_eq!(isize_as_syscall_result(-1047), Err(AeroSyscallError::ENOMEM));
    assert_eq!(isize_as_syscall_result(-1051), Err(AeroSyscallError::ENOSYS));
    assert_eq!(isize_as_syscall_result(-1083), Err(AeroSyscallError::ENOTBLK));
}

#[test]
fn decode_unknown_codes() {
    assert_eq!(isize_as_syscall_result(-4), Err(AeroSyscallError::Unknown));
    assert_eq!(isize_as_syscall_result(-999_999), Err(AeroSyscallError::Unknown));
    assert_eq!(isize_as_syscall_result(isize::MIN), Err(AeroSyscallError::Unknown));
}

#[test]
fn encode_results_as_raw_words() {
    assert_eq!(syscall_result_as_usize(Ok(42)), 42);
    assert_eq!(syscall_result_as_usize(Ok(0)), 0);
    assert_eq!(
        syscall_result_as_usize(Err(AeroSyscallError::EDOM)),
        (-1isize) as usize
    );
    assert_eq!(
        syscall_result_as_usize(Err(AeroSyscallError::EACCES)),
        (-1002isize) as usize
    );
}

#[test]
fn errors_roundtrip_through_their_codes() {
    let samples = [
        AeroSyscallError::EDOM,
        AeroSyscallError::EILSEQ,
        AeroSyscallError::ERANGE,
        AeroSyscallError::E2BIG,
        AeroSyscallError::EAGAIN,
        AeroSyscallError::EEXIST,
        AeroSyscallError::EINTR,
        AeroSyscallError::ENOENT,
        AeroSyscallError::EPERM,
        AeroSyscallError::ESHUTDOWN,
        AeroSyscallError::ENOTBLK,
    ];
    for e in samples {
        let raw = syscall_result_as_usize(Err(e));
        assert_eq!(isize_as_syscall_result(raw as isize), Err(e));
    }
}
