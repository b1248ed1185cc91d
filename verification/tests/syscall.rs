use aero::abi::MMapFlags;
use aero::abi::MMapProt;
use aero::abi::OpenFlags;
use aero::abi::Utsname;
use aero::abi::AT_FDCWD;
use aero::abi::MAP_ANONYOMUS;
use aero::abi::O_CREAT;
use aero::abi::O_RDONLY;
use aero::abi::PROT_READ;
use aero::abi::PROT_WRITE;
use aero::consts::SYS_CLOSE;
use aero::consts::SYS_EXEC;
use aero::consts::SYS_FORK;
use aero::consts::SYS_GETCWD;
use aero::consts::SYS_MKDIR_AT;
use aero::consts::SYS_MMAP;
use aero::consts::SYS_OPEN;
use aero::consts::SYS_READ;
use aero::consts::SYS_UNAME;
use aero::consts::SYS_WAITPID;
use aero::consts::SYS_WRITE;
use aero::errno::AeroSyscallError;
use aero::syscall::sys_close;
use aero::syscall::sys_exec;
use aero::syscall::sys_fork;
use aero::syscall::sys_getcwd;
use aero::syscall::sys_mkdirat;
use aero::syscall::sys_mmap;
use aero::syscall::sys_open;
use aero::syscall::sys_read;
use aero::syscall::sys_uname;
use aero::syscall::sys_waitpid;
use aero::syscall::sys_write;
use aero::syscall::SyscallArg;
use aero::syscall::SyscallPort;

#[test]
fn open_records_marshaling_and_decodes_reply() {
    let mut port = SyscallPort::new();
    port.push_reply(3, Vec::new());
    let r = sys_open(
        &mut port,
        "/etc/hosts",
        OpenFlags::from_bits(O_RDONLY | O_CREAT),
    );
    assert_eq!(r, Ok(3));
    assert_eq!(port.call_count(), 1);
    let call = port.call_at(0);
    assert_eq!(call.number, SYS_OPEN);
    assert_eq!(call.args.len(), 3);
    assert_eq!(call.args[0], SyscallArg::Num(0));
    assert_eq!(call.args[1], SyscallArg::Text(String::from("/etc/hosts")));
    assert_eq!(call.args[2], SyscallArg::Num(O_RDONLY | O_CREAT));
    assert_eq!(port.replies_left(), 0);
}

#[test]
fn unscripted_call_is_unimplemented() {
    let mut port = SyscallPort::new();
    let r = sys_close(&mut port, 5);
    assert_eq!(r, Err(AeroSyscallError::ENOSYS));
    assert_eq!(port.call_count(), 1);
    assert_eq!(port.call_at(0).number, SYS_CLOSE);
    assert_eq!(port.call_at(0).args[0], SyscallArg::Num(5));
}

#[test]
fn error_reply_decodes_to_its_variant() {
    let mut port = SyscallPort::new();
    port.push_reply(-1008, Vec::new());
    assert_eq!(sys_close(&mut port, 99), Err(AeroSyscallError::EBADF));
}

#[test]
fn write_records_the_bytes_passed() {
    let mut port = SyscallPort::new();
    port.push_reply(5, Vec::new());
    let r = sys_write(&mut port, 1, b"hello");
    assert_eq!(r, Ok(5));
    let call = port.call_at(0);
    assert_eq!(call.number, SYS_WRITE);
    assert_eq!(call.args[0], SyscallArg::Num(1));
    assert_eq!(call.args[1], SyscallArg::Bytes(b"hello".to_vec()));
}

#[test]
fn read_fills_the_buffer_front() {
    let mut port = SyscallPort::new();
    port.push_reply(5, b"hello".to_vec());
    let mut buf = vec![0xffu8; 8];
    let r = sys_read(&mut port, 4, &mut buf);
    assert_eq!(r, Ok(5));
    assert_eq!(&buf, &[b'h', b'e', b'l', b'l', b'o', 0xff, 0xff, 0xff]);
    let call = port.call_at(0);
    assert_eq!(call.number, SYS_READ);
    assert_eq!(call.args[0], SyscallArg::Num(4));
    assert_eq!(call.args[1], SyscallArg::OutCap(8));
}

#[test]
fn read_never_writes_past_the_buffer() {
    let mut port = SyscallPort::new();
    port.push_reply(8, b"overlong".to_vec());
    let mut buf = vec![0u8; 4];
    let r = sys_read(&mut port, 4, &mut buf);
    assert_eq!(r, Ok(8));
    assert_eq!(&buf, b"over");
}

#[test]
fn getcwd_records_capacity() {
    let mut port = SyscallPort::new();
    port.push_reply(1, b"/".to_vec());
    let mut buf = vec![0u8; 16];
    let r = sys_getcwd(&mut port, &mut buf);
    assert_eq!(r, Ok(1));
    assert_eq!(buf[0], b'/');
    assert_eq!(port.call_at(0).number, SYS_GETCWD);
    assert_eq!(port.call_at(0).args[0], SyscallArg::OutCap(16));
}

#[test]
fn fork_takes_no_arguments() {
    let mut port = SyscallPort::new();
    port.push_reply(1234, Vec::new());
    assert_eq!(sys_fork(&mut port), Ok(1234));
    assert_eq!(port.call_at(0).number, SYS_FORK);
    assert!(port.call_at(0).args.is_empty());
}

#[test]
fn exec_passes_four_zero_arguments() {
    let mut port = SyscallPort::new();
    port.push_reply(0, Vec::new());
    assert_eq!(sys_exec(&mut port, "/bin/init"), Ok(0));
    let call = port.call_at(0);
    assert_eq!(call.number, SYS_EXEC);
    assert_eq!(call.args.len(), 5);
    assert_eq!(call.args[0], SyscallArg::Text(String::from("/bin/init")));
    for i in 1..5 {
        assert_eq!(call.args[i], SyscallArg::Num(0));
    }
}

#[test]
fn mkdirat_wraps_the_directory_descriptor() {
    let mut port = SyscallPort::new();
    port.push_reply(0, Vec::new());
    assert_eq!(sys_mkdirat(&mut port, AT_FDCWD, "logs"), Ok(0));
    let call = port.call_at(0);
    assert_eq!(call.number, SYS_MKDIR_AT);
    assert_eq!(call.args[0], SyscallArg::Num(AT_FDCWD as usize));
    assert_eq!(call.args[1], SyscallArg::Text(String::from("logs")));
}

#[test]
fn mmap_records_all_six_arguments() {
    let mut port = SyscallPort::new();
    port.push_reply(0x5000, Vec::new());
    let r = sys_mmap(
        &mut port,
        0,
        8192,
        MMapProt::from_bits(PROT_READ | PROT_WRITE),
        MMapFlags::from_bits(MAP_ANONYOMUS),
        0,
        0,
    );
    assert_eq!(r, Ok(0x5000));
    let call = port.call_at(0);
    assert_eq!(call.number, SYS_MMAP);
    assert_eq!(call.args.len(), 6);
    assert_eq!(call.args[1], SyscallArg::Num(8192));
    assert_eq!(call.args[2], SyscallArg::Num(PROT_READ | PROT_WRITE));
    assert_eq!(call.args[3], SyscallArg::Num(MAP_ANONYOMUS));
}

#[test]
fn waitpid_deposits_the_status() {
    let mut port = SyscallPort::new();
    port.push_reply(77, vec![0x2a, 0, 0, 0]);
    let mut status: u32 = 999;
    let r = sys_waitpid(&mut port, 77, &mut status, 0);
    assert_eq!(r, Ok(77));
    assert_eq!(status, 42);
    let call = port.call_at(0);
    assert_eq!(call.number, SYS_WAITPID);
    assert_eq!(call.args[1], SyscallArg::OutCap(4));
}

#[test]
fn waitpid_keeps_status_without_data() {
    let mut port = SyscallPort::new();
    port.push_reply(77, Vec::new());
    let mut status: u32 = 999;
    assert_eq!(sys_waitpid(&mut port, 77, &mut status, 0), Ok(77));
    assert_eq!(status, 999);
}

#[test]
fn uname_fills_the_record_fields() {
    let mut port = SyscallPort::new();
    let mut data = vec![0u8; 325];
    data[..4].copy_from_slice(b"Aero");
    data[65..69].copy_from_slice(b"node");
    data[260..263].copy_from_slice(b"x86");
    port.push_reply(0, data);
    let mut record = Utsname::default();
    assert_eq!(sys_uname(&mut port, &mut record), Ok(0));
    assert_eq!(&record.name()[..4], b"Aero");
    assert_eq!(&record.nodename()[..4], b"node");
    assert_eq!(&record.machine()[..3], b"x86");
    assert_eq!(record.release()[0], 0);
    assert_eq!(port.call_at(0).number, SYS_UNAME);
    assert_eq!(port.call_at(0).args[0], SyscallArg::OutCap(325));
}

#[test]
fn uname_keeps_the_record_on_short_data() {
    let mut port = SyscallPort::new();
    port.push_reply(0, vec![1u8; 10]);
    let mut record = Utsname::default();
    assert_eq!(sys_uname(&mut port, &mut record), Ok(0));
    assert_eq!(record.name()[0], 0);
}

#[test]
fn replies_are_consumed_in_order() {
    let mut port = SyscallPort::new();
    port.push_reply(10, Vec::new());
    port.push_reply(-1043, Vec::new());
    assert_eq!(sys_close(&mut port, 1), Ok(10));
    assert_eq!(sys_close(&mut port, 2), Err(AeroSyscallError::ENOENT));
    assert_eq!(sys_close(&mut port, 3), Err(AeroSyscallError::ENOSYS));
    assert_eq!(port.call_count(), 3);
}

#[test]
fn exit_and_shutdown_record_their_requests() {
    let mut port = SyscallPort::new();
    aero::syscall::sys_exit(&mut port, 1);
    aero::syscall::sys_shutdown(&mut port);
    assert_eq!(port.call_count(), 2);
    assert_eq!(port.call_at(0).number, aero::consts::SYS_EXIT);
    assert_eq!(port.call_at(0).args[0], SyscallArg::Num(1));
    assert_eq!(port.call_at(1).number, aero::consts::SYS_SHUTDOWN);
    assert!(port.call_at(1).args.is_empty());
}
