//! The syscall error taxonomy of the kernel's ABI, and the conversions
//! between raw syscall return values and `Result`.

use vstd::prelude::*;

verus! {

/// Why a syscall failed. Each variant travels over the syscall boundary
/// as a fixed positive code, negated; `Unknown` stands for every code no
/// other variant carries.
#[derive(Clone, Copy, Debug, PartialEq, Eq, Structural)]
pub enum AeroSyscallError {
    EDOM,
    EILSEQ,
    ERANGE,
    E2BIG,
    EACCES,
    EADDRINUSE,
    EADDRNOTAVAIL,
    EAFNOSUPPORT,
    EAGAIN,
    EALREADY,
    EBADF,
    EBADMSG,
    EBUSY,
    ECANCELED,
    ECHILD,
    ECONNABORTED,
    ECONNREFUSED,
    ECONNRESET,
    EDEADLK,
    EDESTADDRREQ,
    EDQUOT,
    EEXIST,
    EFAULT,
    EFBIG,
    EHOSTUNREACH,
    EIDRM,
    EINPROGRESS,
    EINTR,
    EINVAL,
    EIO,
    EISCONN,
    EISDIR,
    ELOOP,
    EMFILE,
    EMLINK,
    EMSGSIZE,
    EMULTIHOP,
    ENAMETOOLONG,
    ENETDOWN,
    ENETRESET,
    ENETUNREACH,
    ENFILE,
    ENOBUFS,
    ENODEV,
    ENOENT,
    ENOEXEC,
    ENOLCK,
    ENOLINK,
    ENOMEM,
    ENOMSG,
    ENOPROTOOPT,
    ENOSPC,
    ENOSYS,
    ENOTCONN,
    ENOTDIR,
    ENOTEMPTY,
    ENOTRECOVERABLE,
    ENOTSOCK,
    ENOTSUP,
    ENOTTY,
    ENXIO,
    EOPNOTSUPP,
    EOVERFLOW,
    EOWNERDEAD,
    EPERM,
    EPIPE,
    EPROTO,
    EPROTONOSUPPORT,
    EPROTOTYPE,
    EROFS,
    ESPIPE,
    ESRCH,
    ESTALE,
    ETIMEDOUT,
    ETXTBSY,
    EXDEV,
    ENODATA,
    ETIME,
    ENOKEY,
    ESHUTDOWN,
    EHOSTDOWN,
    EBADFD,
    ENOMEDIUM,
    ENOTBLK,
    Unknown,
}

/// The positive code each error travels as.
pub open spec fn spec_error_code(e: AeroSyscallError) -> isize {
    match e {
        AeroSyscallError::EDOM => 1,
        AeroSyscallError::EILSEQ => 2,
        AeroSyscallError::ERANGE => 3,
        AeroSyscallError::E2BIG => 1001,
        AeroSyscallError::EACCES => 1002,
        AeroSyscallError::EADDRINUSE => 1003,
        AeroSyscallError::EADDRNOTAVAIL => 1004,
        AeroSyscallError::EAFNOSUPPORT => 1005,
        AeroSyscallError::EAGAIN => 1006,
        AeroSyscallError::EALREADY => 1007,
        AeroSyscallError::EBADF => 1008,
        AeroSyscallError::EBADMSG => 1009,
        AeroSyscallError::EBUSY => 1010,
        AeroSyscallError::ECANCELED => 1011,
        AeroSyscallError::ECHILD => 1012,
        AeroSyscallError::ECONNABORTED => 1013,
        AeroSyscallError::ECONNREFUSED => 1014,
        AeroSyscallError::ECONNRESET => 1015,
        AeroSyscallError::EDEADLK => 1016,
        AeroSyscallError::EDESTADDRREQ => 1017,
        AeroSyscallError::EDQUOT => 1018,
        AeroSyscallError::EEXIST => 1019,
        AeroSyscallError::EFAULT => 1020,
        AeroSyscallError::EFBIG => 1021,
        AeroSyscallError::EHOSTUNREACH => 1022,
        AeroSyscallError::EIDRM => 1023,
        AeroSyscallError::EINPROGRESS => 1024,
        AeroSyscallError::EINTR => 1025,
        AeroSyscallError::EINVAL => 1026,
        AeroSyscallError::EIO => 1027,
        AeroSyscallError::EISCONN => 1028,
        AeroSyscallError::EISDIR => 1029,
        AeroSyscallError::ELOOP => 1030,
        AeroSyscallError::EMFILE => 1031,
        AeroSyscallError::EMLINK => 1032,
        AeroSyscallError::EMSGSIZE => 1034,
        AeroSyscallError::EMULTIHOP => 1035,
        AeroSyscallError::ENAMETOOLONG => 1036,
        AeroSyscallError::ENETDOWN => 1037,
        AeroSyscallError::ENETRESET => 1038,
        AeroSyscallError::ENETUNREACH => 1039,
        AeroSyscallError::ENFILE => 1040,
        AeroSyscallError::ENOBUFS => 1041,
        AeroSyscallError::ENODEV => 1042,
        AeroSyscallError::ENOENT => 1043,
        AeroSyscallError::ENOEXEC => 1044,
        AeroSyscallError::ENOLCK => 1045,
        AeroSyscallError::ENOLINK => 1046,
        AeroSyscallError::ENOMEM => 1047,
        AeroSyscallError::ENOMSG => 1048,
        AeroSyscallError::ENOPROTOOPT => 1049,
        AeroSyscallError::ENOSPC => 1050,
        AeroSyscallError::ENOSYS => 1051,
        AeroSyscallError::ENOTCONN => 1052,
        AeroSyscallError::ENOTDIR => 1053,
        AeroSyscallError::ENOTEMPTY => 1054,
        AeroSyscallError::ENOTRECOVERABLE => 1055,
        AeroSyscallError::ENOTSOCK => 1056,
        AeroSyscallError::ENOTSUP => 1057,
        AeroSyscallError::ENOTTY => 1058,
        AeroSyscallError::ENXIO => 1059,
        AeroSyscallError::EOPNOTSUPP => 1060,
        AeroSyscallError::EOVERFLOW => 1061,
        AeroSyscallError::EOWNERDEAD => 1062,
        AeroSyscallError::EPERM => 1063,
        AeroSyscallError::EPIPE => 1064,
        AeroSyscallError::EPROTO => 1065,
        AeroSyscallError::EPROTONOSUPPORT => 1066,
        AeroSyscallError::EPROTOTYPE => 1067,
        AeroSyscallError::EROFS => 1068,
        AeroSyscallError::ESPIPE => 1069,
        AeroSyscallError::ESRCH => 1070,
        AeroSyscallError::ESTALE => 1071,
        AeroSyscallError::ETIMEDOUT => 1072,
        AeroSyscallError::ETXTBSY => 1073,
        AeroSyscallError::EXDEV => 1075,
        AeroSyscallError::ENODATA => 1076,
        AeroSyscallError::ETIME => 1077,
        AeroSyscallError::ENOKEY => 1078,
        AeroSyscallError::ESHUTDOWN => 1079,
        AeroSyscallError::EHOSTDOWN => 1080,
        AeroSyscallError::EBADFD => 1081,
        AeroSyscallError::ENOMEDIUM => 1082,
        AeroSyscallError::ENOTBLK => 1083,
        AeroSyscallError::Unknown => isize::MAX,
    }
}

/// The error a positive code denotes; a code no variant carries denotes
/// `Unknown`.
pub open spec fn spec_error_from_code(code: int) -> AeroSyscallError {
    if code == 1 {
        AeroSyscallError::EDOM
    } else if code == 2 {
        AeroSyscallError::EILSEQ
    } else if code == 3 {
        AeroSyscallError::ERANGE
    } else if code == 1001 {
        AeroSyscallError::E2BIG
    } else if code == 1002 {
        AeroSyscallError::EACCES
    } else if code == 1003 {
        AeroSyscallError::EADDRINUSE
    } else if code == 1004 {
        AeroSyscallError::EADDRNOTAVAIL
    } else if code == 1005 {
        AeroSyscallError::EAFNOSUPPORT
    } else if code == 1006 {
        AeroSyscallError::EAGAIN
    } else if code == 1007 {
        AeroSyscallError::EALREADY
    } else if code == 1008 {
        AeroSyscallError::EBADF
    } else if code == 1009 {
        AeroSyscallError::EBADMSG
    } else if code == 1010 {
        AeroSyscallError::EBUSY
    } else if code == 1011 {
        AeroSyscallError::ECANCELED
    } else if code == 1012 {
        AeroSyscallError::ECHILD
    } else if code == 1013 {
        AeroSyscallError::ECONNABORTED
    } else if code == 1014 {
        AeroSyscallError::ECONNREFUSED
    } else if code == 1015 {
        AeroSyscallError::ECONNRESET
    } else if code == 1016 {
        AeroSyscallError::EDEADLK
    } else if code == 1017 {
        AeroSyscallError::EDESTADDRREQ
    } else if code == 1018 {
        AeroSyscallError::EDQUOT
    } else if code == 1019 {
        AeroSyscallError::EEXIST
    } else if code == 1020 {
        AeroSyscallError::EFAULT
    } else if code == 1021 {
        AeroSyscallError::EFBIG
    } else if code == 1022 {
        AeroSyscallError::EHOSTUNREACH
    } else if code == 1023 {
        AeroSyscallError::EIDRM
    } else if code == 1024 {
        AeroSyscallError::EINPROGRESS
    } else if code == 1025 {
        AeroSyscallError::EINTR
    } else if code == 1026 {
        AeroSyscallError::EINVAL
    } else if code == 1027 {
        AeroSyscallError::EIO
    } else if code == 1028 {
        AeroSyscallError::EISCONN
    } else if code == 1029 {
        AeroSyscallError::EISDIR
    } else if code == 1030 {
        AeroSyscallError::ELOOP
    } else if code == 1031 {
        AeroSyscallError::EMFILE
    } else if code == 1032 {
        AeroSyscallError::EMLINK
    } else if code == 1034 {
        AeroSyscallError::EMSGSIZE
    } else if code == 1035 {
        AeroSyscallError::EMULTIHOP
    } else if code == 1036 {
        AeroSyscallError::ENAMETOOLONG
    } else if code == 1037 {
        AeroSyscallError::ENETDOWN
    } else if code == 1038 {
        AeroSyscallError::ENETRESET
    } else if code == 1039 {
        AeroSyscallError::ENETUNREACH
    } else if code == 1040 {
        AeroSyscallError::ENFILE
    } else if code == 1041 {
        AeroSyscallError::ENOBUFS
    } else if code == 1042 {
        AeroSyscallError::ENODEV
    } else if code == 1043 {
        AeroSyscallError::ENOENT
    } else if code == 1044 {
        AeroSyscallError::ENOEXEC
    } else if code == 1045 {
        AeroSyscallError::ENOLCK
    } else if code == 1046 {
        AeroSyscallError::ENOLINK
    } else if code == 1047 {
        AeroSyscallError::ENOMEM
    } else if code == 1048 {
        AeroSyscallError::ENOMSG
    } else if code == 1049 {
        AeroSyscallError::ENOPROTOOPT
    } else if code == 1050 {
        AeroSyscallError::ENOSPC
    } else if code == 1051 {
        AeroSyscallError::ENOSYS
    } else if code == 1052 {
        AeroSyscallError::ENOTCONN
    } else if code == 1053 {
        AeroSyscallError::ENOTDIR
    } else if code == 1054 {
        AeroSyscallError::ENOTEMPTY
    } else if code == 1055 {
        AeroSyscallError::ENOTRECOVERABLE
    } else if code == 1056 {
        AeroSyscallError::ENOTSOCK
    } else if code == 1057 {
        AeroSyscallError::ENOTSUP
    } else if code == 1058 {
        AeroSyscallError::ENOTTY
    } else if code == 1059 {
        AeroSyscallError::ENXIO
    } else if code == 1060 {
        AeroSyscallError::EOPNOTSUPP
    } else if code == 1061 {
        AeroSyscallError::EOVERFLOW
    } else if code == 1062 {
        AeroSyscallError::EOWNERDEAD
    } else if code == 1063 {
        AeroSyscallError::EPERM
    } else if code == 1064 {
        AeroSyscallError::EPIPE
    } else if code == 1065 {
        AeroSyscallError::EPROTO
    } else if code == 1066 {
        AeroSyscallError::EPROTONOSUPPORT
    } else if code == 1067 {
        AeroSyscallError::EPROTOTYPE
    } else if code == 1068 {
        AeroSyscallError::EROFS
    } else if code == 1069 {
        AeroSyscallError::ESPIPE
    } else if code == 1070 {
        AeroSyscallError::ESRCH
    } else if code == 1071 {
        AeroSyscallError::ESTALE
    } else if code == 1072 {
        AeroSyscallError::ETIMEDOUT
    } else if code == 1073 {
        AeroSyscallError::ETXTBSY
    } else if code == 1075 {
        AeroSyscallError::EXDEV
    } else if code == 1076 {
        AeroSyscallError::ENODATA
    } else if code == 1077 {
        AeroSyscallError::ETIME
    } else if code == 1078 {
        AeroSyscallError::ENOKEY
    } else if code == 1079 {
        AeroSyscallError::ESHUTDOWN
    } else if code == 1080 {
        AeroSyscallError::EHOSTDOWN
    } else if code == 1081 {
        AeroSyscallError::EBADFD
    } else if code == 1082 {
        AeroSyscallError::ENOMEDIUM
    } else if code == 1083 {
        AeroSyscallError::ENOTBLK
    } else {
        AeroSyscallError::Unknown
    }
}

impl AeroSyscallError {
    /// The positive code this error travels as.
    pub fn code(&self) -> (r: isize)
        ensures
            r == spec_error_code(*self),
    {
        match self {
            AeroSyscallError::EDOM => 1,
            AeroSyscallError::EILSEQ => 2,
            AeroSyscallError::ERANGE => 3,
            AeroSyscallError::E2BIG => 1001,
            AeroSyscallError::EACCES => 1002,
            AeroSyscallError::EADDRINUSE => 1003,
            AeroSyscallError::EADDRNOTAVAIL => 1004,
            AeroSyscallError::EAFNOSUPPORT => 1005,
            AeroSyscallError::EAGAIN => 1006,
            AeroSyscallError::EALREADY => 1007,
            AeroSyscallError::EBADF => 1008,
            AeroSyscallError::EBADMSG => 1009,
            AeroSyscallError::EBUSY => 1010,
            AeroSyscallError::ECANCELED => 1011,
            AeroSyscallError::ECHILD => 1012,
            AeroSyscallError::ECONNABORTED => 1013,
            AeroSyscallError::ECONNREFUSED => 1014,
            AeroSyscallError::ECONNRESET => 1015,
            AeroSyscallError::EDEADLK => 1016,
            AeroSyscallError::EDESTADDRREQ => 1017,
            AeroSyscallError::EDQUOT => 1018,
            AeroSyscallError::EEXIST => 1019,
            AeroSyscallError::EFAULT => 1020,
            AeroSyscallError::EFBIG => 1021,
            AeroSyscallError::EHOSTUNREACH => 1022,
            AeroSyscallError::EIDRM => 1023,
            AeroSyscallError::EINPROGRESS => 1024,
            AeroSyscallError::EINTR => 1025,
            AeroSyscallError::EINVAL => 1026,
            AeroSyscallError::EIO => 1027,
            AeroSyscallError::EISCONN => 1028,
            AeroSyscallError::EISDIR => 1029,
            AeroSyscallError::ELOOP => 1030,
            AeroSyscallError::EMFILE => 1031,
            AeroSyscallError::EMLINK => 1032,
            AeroSyscallError::EMSGSIZE => 1034,
            AeroSyscallError::EMULTIHOP => 1035,
            AeroSyscallError::ENAMETOOLONG => 1036,
            AeroSyscallError::ENETDOWN => 1037,
            AeroSyscallError::ENETRESET => 1038,
            AeroSyscallError::ENETUNREACH => 1039,
            AeroSyscallError::ENFILE => 1040,
            AeroSyscallError::ENOBUFS => 1041,
            AeroSyscallError::ENODEV => 1042,
            AeroSyscallError::ENOENT => 1043,
            AeroSyscallError::ENOEXEC => 1044,
            AeroSyscallError::ENOLCK => 1045,
            AeroSyscallError::ENOLINK => 1046,
            AeroSyscallError::ENOMEM => 1047,
            AeroSyscallError::ENOMSG => 1048,
            AeroSyscallError::ENOPROTOOPT => 1049,
            AeroSyscallError::ENOSPC => 1050,
            AeroSyscallError::ENOSYS => 1051,
            AeroSyscallError::ENOTCONN => 1052,
            AeroSyscallError::ENOTDIR => 1053,
            AeroSyscallError::ENOTEMPTY => 1054,
            AeroSyscallError::ENOTRECOVERABLE => 1055,
            AeroSyscallError::ENOTSOCK => 1056,
            AeroSyscallError::ENOTSUP => 1057,
            AeroSyscallError::ENOTTY => 1058,
            AeroSyscallError::ENXIO => 1059,
            AeroSyscallError::EOPNOTSUPP => 1060,
            AeroSyscallError::EOVERFLOW => 1061,
            AeroSyscallError::EOWNERDEAD => 1062,
            AeroSyscallError::EPERM => 1063,
            AeroSyscallError::EPIPE => 1064,
            AeroSyscallError::EPROTO => 1065,
            AeroSyscallError::EPROTONOSUPPORT => 1066,
            AeroSyscallError::EPROTOTYPE => 1067,
            AeroSyscallError::EROFS => 1068,
            AeroSyscallError::ESPIPE => 1069,
            AeroSyscallError::ESRCH => 1070,
            AeroSyscallError::ESTALE => 1071,
            AeroSyscallError::ETIMEDOUT => 1072,
            AeroSyscallError::ETXTBSY => 1073,
            AeroSyscallError::EXDEV => 1075,
            AeroSyscallError::ENODATA => 1076,
            AeroSyscallError::ETIME => 1077,
            AeroSyscallError::ENOKEY => 1078,
            AeroSyscallError::ESHUTDOWN => 1079,
            AeroSyscallError::EHOSTDOWN => 1080,
            AeroSyscallError::EBADFD => 1081,
            AeroSyscallError::ENOMEDIUM => 1082,
            AeroSyscallError::ENOTBLK => 1083,
            AeroSyscallError::Unknown => isize::MAX,
        }
    }

    /// The error a positive code denotes.
    pub fn from_code(code: isize) -> (r: AeroSyscallError)
        ensures
            r == spec_error_from_code(code as int),
    {
        if code == 1 {
            AeroSyscallError::EDOM
        } else if code == 2 {
            AeroSyscallError::EILSEQ
        } else if code == 3 {
            AeroSyscallError::ERANGE
        } else if code == 1001 {
            AeroSyscallError::E2BIG
        } else if code == 1002 {
            AeroSyscallError::EACCES
        } else if code == 1003 {
            AeroSyscallError::EADDRINUSE
        } else if code == 1004 {
            AeroSyscallError::EADDRNOTAVAIL
        } else if code == 1005 {
            AeroSyscallError::EAFNOSUPPORT
        } else if code == 1006 {
            AeroSyscallError::EAGAIN
        } else if code == 1007 {
            AeroSyscallError::EALREADY
        } else if code == 1008 {
            AeroSyscallError::EBADF
        } else if code == 1009 {
            AeroSyscallError::EBADMSG
        } else if code == 1010 {
            AeroSyscallError::EBUSY
        } else if code == 1011 {
            AeroSyscallError::ECANCELED
        } else if code == 1012 {
            AeroSyscallError::ECHILD
        } else if code == 1013 {
            AeroSyscallError::ECONNABORTED
        } else if code == 1014 {
            AeroSyscallError::ECONNREFUSED
        } else if code == 1015 {
            AeroSyscallError::ECONNRESET
        } else if code == 1016 {
            AeroSyscallError::EDEADLK
        } else if code == 1017 {
            AeroSyscallError::EDESTADDRREQ
        } else if code == 1018 {
            AeroSyscallError::EDQUOT
        } else if code == 1019 {
            AeroSyscallError::EEXIST
        } else if code == 1020 {
            AeroSyscallError::EFAULT
        } else if code == 1021 {
            AeroSyscallError::EFBIG
        } else if code == 1022 {
            AeroSyscallError::EHOSTUNREACH
        } else if code == 1023 {
            AeroSyscallError::EIDRM
        } else if code == 1024 {
            AeroSyscallError::EINPROGRESS
        } else if code == 1025 {
            AeroSyscallError::EINTR
        } else if code == 1026 {
            AeroSyscallError::EINVAL
        } else if code == 1027 {
            AeroSyscallError::EIO
        } else if code == 1028 {
            AeroSyscallError::EISCONN
        } else if code == 1029 {
            AeroSyscallError::EISDIR
        } else if code == 1030 {
            AeroSyscallError::ELOOP
        } else if code == 1031 {
            AeroSyscallError::EMFILE
        } else if code == 1032 {
            AeroSyscallError::EMLINK
        } else if code == 1034 {
            AeroSyscallError::EMSGSIZE
        } else if code == 1035 {
            AeroSyscallError::EMULTIHOP
        } else if code == 1036 {
            AeroSyscallError::ENAMETOOLONG
        } else if code == 1037 {
            AeroSyscallError::ENETDOWN
        } else if code == 1038 {
            AeroSyscallError::ENETRESET
        } else if code == 1039 {
            AeroSyscallError::ENETUNREACH
        } else if code == 1040 {
            AeroSyscallError::ENFILE
        } else if code == 1041 {
            AeroSyscallError::ENOBUFS
        } else if code == 1042 {
            AeroSyscallError::ENODEV
        } else if code == 1043 {
            AeroSyscallError::ENOENT
        } else if code == 1044 {
            AeroSyscallError::ENOEXEC
        } else if code == 1045 {
            AeroSyscallError::ENOLCK
        } else if code == 1046 {
            AeroSyscallError::ENOLINK
        } else if code == 1047 {
            AeroSyscallError::ENOMEM
        } else if code == 1048 {
            AeroSyscallError::ENOMSG
        } else if code == 1049 {
            AeroSyscallError::ENOPROTOOPT
        } else if code == 1050 {
            AeroSyscallError::ENOSPC
        } else if code == 1051 {
            AeroSyscallError::ENOSYS
        } else if code == 1052 {
            AeroSyscallError::ENOTCONN
        } else if code == 1053 {
            AeroSyscallError::ENOTDIR
        } else if code == 1054 {
            AeroSyscallError::ENOTEMPTY
        } else if code == 1055 {
            AeroSyscallError::ENOTRECOVERABLE
        } else if code == 1056 {
            AeroSyscallError::ENOTSOCK
        } else if code == 1057 {
            AeroSyscallError::ENOTSUP
        } else if code == 1058 {
            AeroSyscallError::ENOTTY
        } else if code == 1059 {
            AeroSyscallError::ENXIO
        } else if code == 1060 {
            AeroSyscallError::EOPNOTSUPP
        } else if code == 1061 {
            AeroSyscallError::EOVERFLOW
        } else if code == 1062 {
            AeroSyscallError::EOWNERDEAD
        } else if code == 1063 {
            AeroSyscallError::EPERM
        } else if code == 1064 {
            AeroSyscallError::EPIPE
        } else if code == 1065 {
            AeroSyscallError::EPROTO
        } else if code == 1066 {
            AeroSyscallError::EPROTONOSUPPORT
        } else if code == 1067 {
            AeroSyscallError::EPROTOTYPE
        } else if code == 1068 {
            AeroSyscallError::EROFS
        } else if code == 1069 {
            AeroSyscallError::ESPIPE
        } else if code == 1070 {
            AeroSyscallError::ESRCH
        } else if code == 1071 {
            AeroSyscallError::ESTALE
        } else if code == 1072 {
            AeroSyscallError::ETIMEDOUT
        } else if code == 1073 {
            AeroSyscallError::ETXTBSY
        } else if code == 1075 {
            AeroSyscallError::EXDEV
        } else if code == 1076 {
            AeroSyscallError::ENODATA
        } else if code == 1077 {
            AeroSyscallError::ETIME
        } else if code == 1078 {
            AeroSyscallError::ENOKEY
        } else if code == 1079 {
            AeroSyscallError::ESHUTDOWN
        } else if code == 1080 {
            AeroSyscallError::EHOSTDOWN
        } else if code == 1081 {
            AeroSyscallError::EBADFD
        } else if code == 1082 {
            AeroSyscallError::ENOMEDIUM
        } else if code == 1083 {
            AeroSyscallError::ENOTBLK
        } else {
            AeroSyscallError::Unknown
        }
    }
}
/// The `Result` a raw syscall return value denotes: non-negative values are
/// success, negative values carry a negated error code.
pub open spec fn spec_syscall_result(value: isize) -> Result<usize, AeroSyscallError> {
    if value >= 0 {
        Ok(value as usize)
    } else {
        Err(spec_error_from_code(-value))
    }
}

/// Converts a raw syscall return value into the Rust `Result` type.
pub fn isize_as_syscall_result(value: isize) -> (r: Result<usize, AeroSyscallError>)
    ensures
        r == spec_syscall_result(value),
{
    if value >= 0 {
        Ok(value as usize)
    } else if value == isize::MIN {
        // The negation of this one value is not representable; no error
        // carries a code that large, so it decodes as `Unknown`.
        Err(AeroSyscallError::Unknown)
    } else {
        Err(AeroSyscallError::from_code(-value))
    }
}

/// The raw value a syscall result travels back as: the value itself on
/// success, the negated error code (reinterpreted as an address-sized word)
/// on failure.
pub open spec fn spec_result_as_usize(result: Result<usize, AeroSyscallError>) -> usize {
    match result {
        Ok(value) => value,
        Err(error) => (-spec_error_code(error)) as usize,
    }
}

/// Encodes a syscall result as the raw address-sized word of the ABI.
pub fn syscall_result_as_usize(result: Result<usize, AeroSyscallError>) -> (r: usize)
    ensures
        r == spec_result_as_usize(result),
{
    match result {
        Ok(value) => value,
        Err(error) => {
            let code = error.code();
            #[verifier::truncate] ((-code) as usize)
        },
    }
}

/// Decoding inverts encoding: every error that is not `Unknown` comes back
/// from its own code, and every successful value comes back unchanged.
pub proof fn lemma_error_code_roundtrip(e: AeroSyscallError)
    requires
        e != AeroSyscallError::Unknown,
    ensures
        spec_error_from_code(spec_error_code(e) as int) == e,
        1 <= spec_error_code(e) < isize::MAX,
{
}

} // verus!
