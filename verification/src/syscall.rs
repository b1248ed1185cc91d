//! Userland syscall wrappers, verified against a model of the raw syscall
//! boundary. The model records every invocation — with pointer-and-length
//! argument pairs recorded as the data they denote — and answers each call
//! from a script of replies, so each wrapper's marshaling and result
//! decoding is pinned down exactly.

use crate::abi::MMapFlags;
use crate::abi::MMapProt;
use crate::abi::OpenFlags;
use crate::abi::Utsname;
use crate::abi::UTSNAME_FIELD_LEN;
use crate::consts::SYS_CHDIR;
use crate::consts::SYS_CLOSE;
use crate::consts::SYS_EXEC;
use crate::consts::SYS_EXIT;
use crate::consts::SYS_FORK;
use crate::consts::SYS_GETCWD;
use crate::consts::SYS_GETDENTS;
use crate::consts::SYS_IOCTL;
use crate::consts::SYS_LOG;
use crate::consts::SYS_MKDIR;
use crate::consts::SYS_MKDIR_AT;
use crate::consts::SYS_MMAP;
use crate::consts::SYS_MUNMAP;
use crate::consts::SYS_OPEN;
use crate::consts::SYS_READ;
use crate::consts::SYS_RMDIR;
use crate::consts::SYS_SHUTDOWN;
use crate::consts::SYS_UNAME;
use crate::consts::SYS_WAITPID;
use crate::consts::SYS_WRITE;
use crate::errno::isize_as_syscall_result;
use crate::errno::spec_error_code;
use crate::errno::spec_syscall_result;
use crate::errno::AeroSyscallError;
use vstd::prelude::*;
use vstd::string::StringExecFns;

verus! {

/// One argument as the kernel receives it: a plain number, or what a
/// pointer-and-length pair of the caller's address space denotes — the text
/// or bytes passed in, or the capacity of an output buffer to be filled.
#[derive(Debug, PartialEq, Eq)]
pub enum SyscallArg {
    Num(usize),
    Text(String),
    Bytes(Vec<u8>),
    OutCap(usize),
}

/// The view of one syscall argument.
pub ghost enum ArgView {
    Num(usize),
    Text(Seq<char>),
    Bytes(Seq<u8>),
    OutCap(usize),
}

impl View for SyscallArg {
    type V = ArgView;

    open spec fn view(&self) -> ArgView {
        match self {
            SyscallArg::Num(n) => ArgView::Num(*n),
            SyscallArg::Text(s) => ArgView::Text(s@),
            SyscallArg::Bytes(b) => ArgView::Bytes(b@),
            SyscallArg::OutCap(n) => ArgView::OutCap(*n),
        }
    }
}

/// The views of a sequence of arguments.
pub open spec fn args_view(args: Seq<SyscallArg>) -> Seq<ArgView> {
    args.map_values(|a: SyscallArg| a@)
}

/// One recorded invocation: the syscall number and its arguments.
#[derive(Debug, PartialEq, Eq)]
pub struct SyscallCall {
    pub number: usize,
    pub args: Vec<SyscallArg>,
}

/// The view of one recorded invocation.
pub ghost struct CallView {
    pub number: usize,
    pub args: Seq<ArgView>,
}

impl View for SyscallCall {
    type V = CallView;

    open spec fn view(&self) -> CallView {
        CallView { number: self.number, args: args_view(self.args@) }
    }
}

/// One scripted kernel reply: the raw return value, and the bytes the kernel
/// deposits into the caller's output buffer, if the call has one.
#[derive(Debug, PartialEq, Eq)]
pub struct Reply {
    pub value: isize,
    pub data: Vec<u8>,
}

/// The view of one scripted reply.
pub ghost struct ReplyView {
    pub value: isize,
    pub data: Seq<u8>,
}

impl View for Reply {
    type V = ReplyView;

    open spec fn view(&self) -> ReplyView {
        ReplyView { value: self.value, data: self.data@ }
    }
}

/// Where verified code hands its syscalls: a model of the kernel boundary
/// that records every invocation in order and answers each from a script of
/// replies consumed front to back. An unscripted call is answered as
/// unimplemented, with no bytes deposited.
pub struct SyscallPort {
    replies: Vec<Reply>,
    calls: Vec<SyscallCall>,
}

impl SyscallPort {
    /// Every invocation made through this port so far, oldest first.
    pub closed spec fn log(&self) -> Seq<CallView> {
        self.calls@.map_values(|c: SyscallCall| c@)
    }

    /// The replies still scripted, next first.
    pub closed spec fn script(&self) -> Seq<ReplyView> {
        self.replies@.map_values(|r: Reply| r@)
    }

    /// The raw value the next invocation will return: the head of the
    /// script, or the unimplemented-syscall error when the script is empty.
    pub open spec fn next_value(&self) -> isize {
        if self.script().len() > 0 {
            self.script()[0].value
        } else {
            (-spec_error_code(AeroSyscallError::ENOSYS)) as isize
        }
    }

    /// The bytes the next invocation will deposit into its output buffer, if
    /// it has one: the head reply's data, or nothing.
    pub open spec fn next_data(&self) -> Seq<u8> {
        if self.script().len() > 0 {
            self.script()[0].data
        } else {
            Seq::empty()
        }
    }

    /// A port with nothing scripted and nothing recorded.
    pub fn new() -> (r: SyscallPort)
        ensures
            r.log() == Seq::<CallView>::empty(),
            r.script() == Seq::<ReplyView>::empty(),
    {
        let r = SyscallPort { replies: Vec::new(), calls: Vec::new() };
        proof {
            assert(r.log() =~= Seq::<CallView>::empty());
            assert(r.script() =~= Seq::<ReplyView>::empty());
        }
        r
    }

    /// Scripts one more reply, behind those already scripted.
    pub fn push_reply(&mut self, value: isize, data: Vec<u8>)
        ensures
            final(self).script() == old(self).script().push(ReplyView { value, data: data@ }),
            final(self).log() == old(self).log(),
    {
        self.replies.push(Reply { value, data });
        proof {
            assert(self.script() =~= old(self).script().push(ReplyView { value, data: data@ }));
            assert(self.log() =~= old(self).log());
        }
    }

    /// How many invocations have been recorded.
    pub fn call_count(&self) -> (r: usize)
        ensures
            r == self.log().len(),
    {
        self.calls.len()
    }

    /// The `i`-th recorded invocation, oldest first.
    pub fn call_at(&self, i: usize) -> (r: &SyscallCall)
        requires
            i < self.log().len(),
        ensures
            r@ == self.log()[i as int],
    {
        &self.calls[i]
    }

    /// How many scripted replies are left.
    pub fn replies_left(&self) -> (r: usize)
        ensures
            r == self.script().len(),
    {
        self.replies.len()
    }

    /// Performs one raw syscall: records the invocation and hands back the
    /// next scripted reply, or the unimplemented-syscall reply.
    fn invoke(&mut self, number: usize, args: Vec<SyscallArg>) -> (r: Reply)
        ensures
            stepped(*old(self), *final(self), CallView { number, args: args_view(args@) }),
            r.value == old(self).next_value(),
            r.data@ == old(self).next_data(),
    {
        let reply = if self.replies.len() > 0 {
            self.replies.remove(0)
        } else {
            let code = AeroSyscallError::ENOSYS.code();
            Reply { value: -code, data: Vec::new() }
        };
        self.calls.push(SyscallCall { number, args });
        proof {
            assert(self.log() =~= old(self).log().push(
                CallView { number, args: args_view(args@) },
            ));
            if old(self).script().len() > 0 {
                assert(self.script() =~= old(self).script().drop_first());
            } else {
                assert(self.script() =~= old(self).script());
            }
        }
        reply
    }
}

/// One invocation `c` happened: it is appended to the log, and one scripted
/// reply (if any was left) is consumed.
pub open spec fn stepped(pre: SyscallPort, post: SyscallPort, c: CallView) -> bool {
    &&& post.log() == pre.log().push(c)
    &&& post.script() == (if pre.script().len() > 0 {
        pre.script().drop_first()
    } else {
        pre.script()
    })
}

/// Copies the reply's bytes over the front of `buf`, as the kernel does when
/// it fills a caller's buffer: at most the buffer's capacity is written, and
/// the rest keeps its old contents.
fn fill_buffer(buf: &mut Vec<u8>, data: &Vec<u8>)
    ensures
        final(buf)@.len() == old(buf)@.len(),
        forall|i: int| 0 <= i < old(buf)@.len() ==> final(buf)@[i] == (if i < data@.len() {
            data@[i]
        } else {
            old(buf)@[i]
        }),
{
    let n = if data.len() < buf.len() {
        data.len()
    } else {
        buf.len()
    };
    let mut i: usize = 0;
    while i < n
        invariant
            n <= data@.len() || n <= old(buf)@.len(),
            n == vstd::math::min(data@.len() as int, old(buf)@.len() as int),
            i <= n,
            buf@.len() == old(buf)@.len(),
            forall|j: int| 0 <= j < i ==> buf@[j] == data@[j],
            forall|j: int| i <= j < old(buf)@.len() ==> buf@[j] == old(buf)@[j],
        decreases n - i,
    {
        let b = data[i];
        buf[i] = b;
        i = i + 1;
    }
}

/// Issues `SYS_OPEN` — opens `path` under `mode` — and decodes the kernel's reply.
pub fn sys_open(port: &mut SyscallPort, path: &str, mode: OpenFlags) -> (r: Result<usize, AeroSyscallError>)
    ensures
        stepped(
            *old(port),
            *final(port),
            CallView { number: SYS_OPEN, args: seq![ArgView::Num(0), ArgView::Text(path@), ArgView::Num(mode.spec_bits())] },
        ),
        r == spec_syscall_result(old(port).next_value()),
{
    let mut args: Vec<SyscallArg> = Vec::new();
    args.push(SyscallArg::Num(0));
    let path_text = String::from_str(path);
    args.push(SyscallArg::Text(path_text));
    args.push(SyscallArg::Num(mode.bits()));
    proof {
        assert(args_view(args@) =~= seq![ArgView::Num(0), ArgView::Text(path@), ArgView::Num(mode.spec_bits())]);
    }
    let reply = port.invoke(SYS_OPEN, args);
    isize_as_syscall_result(reply.value)
}

/// Issues `SYS_WRITE` — writes `buf` to the open file `fd` — and decodes the kernel's reply.
pub fn sys_write(port: &mut SyscallPort, fd: usize, buf: &[u8]) -> (r: Result<usize, AeroSyscallError>)
    ensures
        stepped(
            *old(port),
            *final(port),
            CallView { number: SYS_WRITE, args: seq![ArgView::Num(fd), ArgView::Bytes(buf@)] },
        ),
        r == spec_syscall_result(old(port).next_value()),
{
    let mut args: Vec<SyscallArg> = Vec::new();
    args.push(SyscallArg::Num(fd));
    let bytes = vstd::slice::slice_to_vec(buf);
    args.push(SyscallArg::Bytes(bytes));
    proof {
        assert(args_view(args@) =~= seq![ArgView::Num(fd), ArgView::Bytes(buf@)]);
    }
    let reply = port.invoke(SYS_WRITE, args);
    isize_as_syscall_result(reply.value)
}

/// Issues `SYS_CHDIR` — changes the working directory to `path` — and decodes the kernel's reply.
pub fn sys_chdir(port: &mut SyscallPort, path: &str) -> (r: Result<usize, AeroSyscallError>)
    ensures
        stepped(
            *old(port),
            *final(port),
            CallView { number: SYS_CHDIR, args: seq![ArgView::Text(path@)] },
        ),
        r == spec_syscall_result(old(port).next_value()),
{
    let mut args: Vec<SyscallArg> = Vec::new();
    let path_text = String::from_str(path);
    args.push(SyscallArg::Text(path_text));
    proof {
        assert(args_view(args@) =~= seq![ArgView::Text(path@)]);
    }
    let reply = port.invoke(SYS_CHDIR, args);
    isize_as_syscall_result(reply.value)
}

/// Issues `SYS_CLOSE` — closes the open file `fd` — and decodes the kernel's reply.
pub fn sys_close(port: &mut SyscallPort, fd: usize) -> (r: Result<usize, AeroSyscallError>)
    ensures
        stepped(
            *old(port),
            *final(port),
            CallView { number: SYS_CLOSE, args: seq![ArgView::Num(fd)] },
        ),
        r == spec_syscall_result(old(port).next_value()),
{
    let mut args: Vec<SyscallArg> = Vec::new();
    args.push(SyscallArg::Num(fd));
    proof {
        assert(args_view(args@) =~= seq![ArgView::Num(fd)]);
    }
    let reply = port.invoke(SYS_CLOSE, args);
    isize_as_syscall_result(reply.value)
}

/// Issues `SYS_FORK` — forks the calling process — and decodes the kernel's reply.
pub fn sys_fork(port: &mut SyscallPort) -> (r: Result<usize, AeroSyscallError>)
    ensures
        stepped(
            *old(port),
            *final(port),
            CallView { number: SYS_FORK, args: Seq::<ArgView>::empty() },
        ),
        r == spec_syscall_result(old(port).next_value()),
{
    let mut args: Vec<SyscallArg> = Vec::new();
    proof {
        assert(args_view(args@) =~= Seq::<ArgView>::empty());
    }
    let reply = port.invoke(SYS_FORK, args);
    isize_as_syscall_result(reply.value)
}

/// Issues `SYS_MUNMAP` — unmaps `size` bytes at `address` — and decodes the kernel's reply.
pub fn sys_munmap(port: &mut SyscallPort, address: usize, size: usize) -> (r: Result<usize, AeroSyscallError>)
    ensures
        stepped(
            *old(port),
            *final(port),
            CallView { number: SYS_MUNMAP, args: seq![ArgView::Num(address), ArgView::Num(size)] },
        ),
        r == spec_syscall_result(old(port).next_value()),
{
    let mut args: Vec<SyscallArg> = Vec::new();
    args.push(SyscallArg::Num(address));
    args.push(SyscallArg::Num(size));
    proof {
        assert(args_view(args@) =~= seq![ArgView::Num(address), ArgView::Num(size)]);
    }
    let reply = port.invoke(SYS_MUNMAP, args);
    isize_as_syscall_result(reply.value)
}

/// Issues `SYS_MKDIR` — creates the directory `path` — and decodes the kernel's reply.
pub fn sys_mkdir(port: &mut SyscallPort, path: &str) -> (r: Result<usize, AeroSyscallError>)
    ensures
        stepped(
            *old(port),
            *final(port),
            CallView { number: SYS_MKDIR, args: seq![ArgView::Text(path@)] },
        ),
        r == spec_syscall_result(old(port).next_value()),
{
    let mut args: Vec<SyscallArg> = Vec::new();
    let path_text = String::from_str(path);
    args.push(SyscallArg::Text(path_text));
    proof {
        assert(args_view(args@) =~= seq![ArgView::Text(path@)]);
    }
    let reply = port.invoke(SYS_MKDIR, args);
    isize_as_syscall_result(reply.value)
}

/// Issues `SYS_LOG` — writes `message` to the kernel log — and decodes the kernel's reply.
pub fn sys_log(port: &mut SyscallPort, message: &str) -> (r: Result<usize, AeroSyscallError>)
    ensures
        stepped(
            *old(port),
            *final(port),
            CallView { number: SYS_LOG, args: seq![ArgView::Text(message@)] },
        ),
        r == spec_syscall_result(old(port).next_value()),
{
    let mut args: Vec<SyscallArg> = Vec::new();
    let message_text = String::from_str(message);
    args.push(SyscallArg::Text(message_text));
    proof {
        assert(args_view(args@) =~= seq![ArgView::Text(message@)]);
    }
    let reply = port.invoke(SYS_LOG, args);
    isize_as_syscall_result(reply.value)
}

/// Issues `SYS_MKDIR_AT` — creates the directory `path` relative to the directory `dfd` — and decodes the kernel's reply.
pub fn sys_mkdirat(port: &mut SyscallPort, dfd: isize, path: &str) -> (r: Result<usize, AeroSyscallError>)
    ensures
        stepped(
            *old(port),
            *final(port),
            CallView { number: SYS_MKDIR_AT, args: seq![ArgView::Num(dfd as usize), ArgView::Text(path@)] },
        ),
        r == spec_syscall_result(old(port).next_value()),
{
    let mut args: Vec<SyscallArg> = Vec::new();
    args.push(SyscallArg::Num(#[verifier::truncate] (dfd as usize)));
    let path_text = String::from_str(path);
    args.push(SyscallArg::Text(path_text));
    proof {
        assert(args_view(args@) =~= seq![ArgView::Num(dfd as usize), ArgView::Text(path@)]);
    }
    let reply = port.invoke(SYS_MKDIR_AT, args);
    isize_as_syscall_result(reply.value)
}

/// Issues `SYS_EXEC` — replaces the process image with the program at `path` — and decodes the kernel's reply.
pub fn sys_exec(port: &mut SyscallPort, path: &str) -> (r: Result<usize, AeroSyscallError>)
    ensures
        stepped(
            *old(port),
            *final(port),
            CallView { number: SYS_EXEC, args: seq![ArgView::Text(path@), ArgView::Num(0), ArgView::Num(0), ArgView::Num(0), ArgView::Num(0)] },
        ),
        r == spec_syscall_result(old(port).next_value()),
{
    let mut args: Vec<SyscallArg> = Vec::new();
    let path_text = String::from_str(path);
    args.push(SyscallArg::Text(path_text));
    args.push(SyscallArg::Num(0));
    args.push(SyscallArg::Num(0));
    args.push(SyscallArg::Num(0));
    args.push(SyscallArg::Num(0));
    proof {
        assert(args_view(args@) =~= seq![ArgView::Text(path@), ArgView::Num(0), ArgView::Num(0), ArgView::Num(0), ArgView::Num(0)]);
    }
    let reply = port.invoke(SYS_EXEC, args);
    isize_as_syscall_result(reply.value)
}

/// Issues `SYS_RMDIR` — removes the directory `path` — and decodes the kernel's reply.
pub fn sys_rmdir(port: &mut SyscallPort, path: &str) -> (r: Result<usize, AeroSyscallError>)
    ensures
        stepped(
            *old(port),
            *final(port),
            CallView { number: SYS_RMDIR, args: seq![ArgView::Text(path@)] },
        ),
        r == spec_syscall_result(old(port).next_value()),
{
    let mut args: Vec<SyscallArg> = Vec::new();
    let path_text = String::from_str(path);
    args.push(SyscallArg::Text(path_text));
    proof {
        assert(args_view(args@) =~= seq![ArgView::Text(path@)]);
    }
    let reply = port.invoke(SYS_RMDIR, args);
    isize_as_syscall_result(reply.value)
}

/// Issues `SYS_IOCTL` — issues the device request `command` with `arg` on the open file `fd` — and decodes the kernel's reply.
pub fn sys_ioctl(port: &mut SyscallPort, fd: usize, command: usize, arg: usize) -> (r: Result<usize, AeroSyscallError>)
    ensures
        stepped(
            *old(port),
            *final(port),
            CallView { number: SYS_IOCTL, args: seq![ArgView::Num(fd), ArgView::Num(command), ArgView::Num(arg)] },
        ),
        r == spec_syscall_result(old(port).next_value()),
{
    let mut args: Vec<SyscallArg> = Vec::new();
    args.push(SyscallArg::Num(fd));
    args.push(SyscallArg::Num(command));
    args.push(SyscallArg::Num(arg));
    proof {
        assert(args_view(args@) =~= seq![ArgView::Num(fd), ArgView::Num(command), ArgView::Num(arg)]);
    }
    let reply = port.invoke(SYS_IOCTL, args);
    isize_as_syscall_result(reply.value)
}

/// Issues `SYS_MMAP` — maps `size` bytes at `address` under `protocol` and `flags`, backed by `fd` at `offset` — and decodes the kernel's reply.
pub fn sys_mmap(port: &mut SyscallPort, address: usize, size: usize, protocol: MMapProt, flags: MMapFlags, fd: usize, offset: usize) -> (r: Result<usize, AeroSyscallError>)
    ensures
        stepped(
            *old(port),
            *final(port),
            CallView { number: SYS_MMAP, args: seq![ArgView::Num(address), ArgView::Num(size), ArgView::Num(protocol.spec_bits()), ArgView::Num(flags.spec_bits()), ArgView::Num(fd), ArgView::Num(offset)] },
        ),
        r == spec_syscall_result(old(port).next_value()),
{
    let mut args: Vec<SyscallArg> = Vec::new();
    args.push(SyscallArg::Num(address));
    args.push(SyscallArg::Num(size));
    args.push(SyscallArg::Num(protocol.bits()));
    args.push(SyscallArg::Num(flags.bits()));
    args.push(SyscallArg::Num(fd));
    args.push(SyscallArg::Num(offset));
    proof {
        assert(args_view(args@) =~= seq![ArgView::Num(address), ArgView::Num(size), ArgView::Num(protocol.spec_bits()), ArgView::Num(flags.spec_bits()), ArgView::Num(fd), ArgView::Num(offset)]);
    }
    let reply = port.invoke(SYS_MMAP, args);
    isize_as_syscall_result(reply.value)
}


/// Copies one fixed-length field of the machine-identity record out of the
/// kernel's reply bytes.
fn copy_chunk(dst: &mut Vec<u8>, src: &Vec<u8>, off: usize)
    requires
        old(dst)@.len() == UTSNAME_FIELD_LEN,
        off + UTSNAME_FIELD_LEN <= src@.len(),
    ensures
        final(dst)@ == src@.subrange(off as int, off + UTSNAME_FIELD_LEN),
{
    let src_len = src.len();
    let mut i: usize = 0;
    while i < UTSNAME_FIELD_LEN
        invariant
            off + UTSNAME_FIELD_LEN <= src_len,
            src_len == src@.len(),
            i <= UTSNAME_FIELD_LEN,
            dst@.len() == UTSNAME_FIELD_LEN,
            forall|j: int| 0 <= j < i ==> dst@[j] == src@[off + j],
        decreases UTSNAME_FIELD_LEN - i,
    {
        let b = src[off + i];
        dst[i] = b;
        i = i + 1;
    }
    proof {
        assert(dst@ =~= src@.subrange(off as int, off + UTSNAME_FIELD_LEN));
    }
}

/// Issues `SYS_READ` — reads from the open file `fd` into `buf` — and
/// decodes the kernel's reply. The kernel's bytes land at the front of
/// `buf`, at most its capacity; the rest keeps its contents.
pub fn sys_read(port: &mut SyscallPort, fd: usize, buf: &mut Vec<u8>) -> (r: Result<
    usize,
    AeroSyscallError,
>)
    ensures
        stepped(
            *old(port),
            *final(port),
            CallView {
                number: SYS_READ,
                args: seq![ArgView::Num(fd), ArgView::OutCap(old(buf)@.len() as usize)],
            },
        ),
        r == spec_syscall_result(old(port).next_value()),
        final(buf)@.len() == old(buf)@.len(),
        forall|i: int| 0 <= i < old(buf)@.len() ==> final(buf)@[i] == (if i < old(
            port,
        ).next_data().len() {
            old(port).next_data()[i]
        } else {
            old(buf)@[i]
        }),
{
    let cap = buf.len();
    let mut args: Vec<SyscallArg> = Vec::new();
    args.push(SyscallArg::Num(fd));
    args.push(SyscallArg::OutCap(cap));
    proof {
        assert(args_view(args@) =~= seq![ArgView::Num(fd), ArgView::OutCap(cap)]);
    }
    let reply = port.invoke(SYS_READ, args);
    fill_buffer(buf, &reply.data);
    isize_as_syscall_result(reply.value)
}

/// Issues `SYS_GETCWD` — writes the working directory's path into `buf` —
/// and decodes the kernel's reply. The kernel's bytes land at the front of
/// `buf`, at most its capacity; the rest keeps its contents.
pub fn sys_getcwd(port: &mut SyscallPort, buf: &mut Vec<u8>) -> (r: Result<
    usize,
    AeroSyscallError,
>)
    ensures
        stepped(
            *old(port),
            *final(port),
            CallView {
                number: SYS_GETCWD,
                args: seq![ArgView::OutCap(old(buf)@.len() as usize)],
            },
        ),
        r == spec_syscall_result(old(port).next_value()),
        final(buf)@.len() == old(buf)@.len(),
        forall|i: int| 0 <= i < old(buf)@.len() ==> final(buf)@[i] == (if i < old(
            port,
        ).next_data().len() {
            old(port).next_data()[i]
        } else {
            old(buf)@[i]
        }),
{
    let cap = buf.len();
    let mut args: Vec<SyscallArg> = Vec::new();
    args.push(SyscallArg::OutCap(cap));
    proof {
        assert(args_view(args@) =~= seq![ArgView::OutCap(cap)]);
    }
    let reply = port.invoke(SYS_GETCWD, args);
    fill_buffer(buf, &reply.data);
    isize_as_syscall_result(reply.value)
}

/// Issues `SYS_GETDENTS` — writes directory entries of the open directory
/// `fd` into `buf` — and decodes the kernel's reply. The kernel's bytes land
/// at the front of `buf`, at most its capacity; the rest keeps its contents.
pub fn sys_getdents(port: &mut SyscallPort, fd: usize, buf: &mut Vec<u8>) -> (r: Result<
    usize,
    AeroSyscallError,
>)
    ensures
        stepped(
            *old(port),
            *final(port),
            CallView {
                number: SYS_GETDENTS,
                args: seq![ArgView::Num(fd), ArgView::OutCap(old(buf)@.len() as usize)],
            },
        ),
        r == spec_syscall_result(old(port).next_value()),
        final(buf)@.len() == old(buf)@.len(),
        forall|i: int| 0 <= i < old(buf)@.len() ==> final(buf)@[i] == (if i < old(
            port,
        ).next_data().len() {
            old(port).next_data()[i]
        } else {
            old(buf)@[i]
        }),
{
    let cap = buf.len();
    let mut args: Vec<SyscallArg> = Vec::new();
    args.push(SyscallArg::Num(fd));
    args.push(SyscallArg::OutCap(cap));
    proof {
        assert(args_view(args@) =~= seq![ArgView::Num(fd), ArgView::OutCap(cap)]);
    }
    let reply = port.invoke(SYS_GETDENTS, args);
    fill_buffer(buf, &reply.data);
    isize_as_syscall_result(reply.value)
}

/// Issues `SYS_WAITPID` — waits for child `pid` under `flags`, letting the
/// kernel deposit the exit status — and decodes the kernel's reply. The
/// status cell takes the reply's first four bytes, little-endian, when the
/// kernel supplies them; otherwise it keeps its value.
pub fn sys_waitpid(port: &mut SyscallPort, pid: usize, status: &mut u32, flags: usize) -> (r:
    Result<usize, AeroSyscallError>)
    ensures
        stepped(
            *old(port),
            *final(port),
            CallView {
                number: SYS_WAITPID,
                args: seq![ArgView::Num(pid), ArgView::OutCap(4), ArgView::Num(flags)],
            },
        ),
        r == spec_syscall_result(old(port).next_value()),
        old(port).next_data().len() >= 4 ==> *final(status)
            == vstd::bytes::spec_u32_from_le_bytes(old(port).next_data().subrange(0, 4)),
        old(port).next_data().len() < 4 ==> *final(status) == *old(status),
{
    let mut args: Vec<SyscallArg> = Vec::new();
    args.push(SyscallArg::Num(pid));
    args.push(SyscallArg::OutCap(4));
    args.push(SyscallArg::Num(flags));
    proof {
        assert(args_view(args@) =~= seq![
            ArgView::Num(pid),
            ArgView::OutCap(4),
            ArgView::Num(flags),
        ]);
    }
    let reply = port.invoke(SYS_WAITPID, args);
    if reply.data.len() >= 4 {
        let mut le: Vec<u8> = Vec::new();
        le.push(reply.data[0]);
        le.push(reply.data[1]);
        le.push(reply.data[2]);
        le.push(reply.data[3]);
        proof {
            assert(le@ =~= old(port).next_data().subrange(0, 4));
        }
        *status = vstd::bytes::u32_from_le_bytes(le.as_slice());
    }
    isize_as_syscall_result(reply.value)
}

/// Issues `SYS_UNAME` — lets the kernel fill the machine-identity record —
/// and decodes the kernel's reply. The five fields take consecutive
/// fixed-length chunks of the reply's bytes when the kernel supplies exactly
/// that many; otherwise the record keeps its contents.
pub fn sys_uname(port: &mut SyscallPort, struc: &mut Utsname) -> (r: Result<
    usize,
    AeroSyscallError,
>)
    requires
        old(struc).wf(),
    ensures
        stepped(
            *old(port),
            *final(port),
            CallView {
                number: SYS_UNAME,
                args: seq![ArgView::OutCap((5 * UTSNAME_FIELD_LEN) as usize)],
            },
        ),
        r == spec_syscall_result(old(port).next_value()),
        final(struc).wf(),
        old(port).next_data().len() == 5 * UTSNAME_FIELD_LEN ==> {
            let d = old(port).next_data();
            &&& final(struc).name@ == d.subrange(0, UTSNAME_FIELD_LEN as int)
            &&& final(struc).nodename@ == d.subrange(
                UTSNAME_FIELD_LEN as int,
                2 * UTSNAME_FIELD_LEN,
            )
            &&& final(struc).release@ == d.subrange(2 * UTSNAME_FIELD_LEN, 3 * UTSNAME_FIELD_LEN)
            &&& final(struc).version@ == d.subrange(3 * UTSNAME_FIELD_LEN, 4 * UTSNAME_FIELD_LEN)
            &&& final(struc).machine@ == d.subrange(4 * UTSNAME_FIELD_LEN, 5 * UTSNAME_FIELD_LEN)
        },
        old(port).next_data().len() != 5 * UTSNAME_FIELD_LEN ==> *final(struc) == *old(struc),
{
    let mut args: Vec<SyscallArg> = Vec::new();
    args.push(SyscallArg::OutCap(5 * UTSNAME_FIELD_LEN));
    proof {
        assert(args_view(args@) =~= seq![ArgView::OutCap((5 * UTSNAME_FIELD_LEN) as usize)]);
    }
    let reply = port.invoke(SYS_UNAME, args);
    if reply.data.len() == 5 * UTSNAME_FIELD_LEN {
        copy_chunk(&mut struc.name, &reply.data, 0);
        copy_chunk(&mut struc.nodename, &reply.data, UTSNAME_FIELD_LEN);
        copy_chunk(&mut struc.release, &reply.data, 2 * UTSNAME_FIELD_LEN);
        copy_chunk(&mut struc.version, &reply.data, 3 * UTSNAME_FIELD_LEN);
        copy_chunk(&mut struc.machine, &reply.data, 4 * UTSNAME_FIELD_LEN);
    }
    isize_as_syscall_result(reply.value)
}



/// Issues `SYS_EXIT` — terminates the calling process with `status`. In the
/// running kernel this call never returns; the model hands control back so
/// that the recorded request can be observed.
pub fn sys_exit(port: &mut SyscallPort, status: usize)
    ensures
        stepped(
            *old(port),
            *final(port),
            CallView { number: SYS_EXIT, args: seq![ArgView::Num(status)] },
        ),
{
    let mut args: Vec<SyscallArg> = Vec::new();
    args.push(SyscallArg::Num(status));
    proof {
        assert(args_view(args@) =~= seq![ArgView::Num(status)]);
    }
    let _ = port.invoke(SYS_EXIT, args);
}

/// Issues `SYS_SHUTDOWN` — powers the machine down. In the running kernel
/// this call never returns; the model hands control back so that the
/// recorded request can be observed.
pub fn sys_shutdown(port: &mut SyscallPort)
    ensures
        stepped(
            *old(port),
            *final(port),
            CallView { number: SYS_SHUTDOWN, args: Seq::<ArgView>::empty() },
        ),
{
    let args: Vec<SyscallArg> = Vec::new();
    proof {
        assert(args_view(args@) =~= Seq::<ArgView>::empty());
    }
    let _ = port.invoke(SYS_SHUTDOWN, args);
}

} // verus!
