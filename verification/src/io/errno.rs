//! The `errno` values that the named errors of the system-call layer stand
//! for, as the Linux ABI on x86-64 numbers them. `Error::from_errno(INTR)`
//! is the error `EINTR`.
use vstd::prelude::*;

verus! {

/// `EACCES`
pub const ACCES: u32 = 13;
/// `EADDRINUSE`
pub const ADDRINUSE: u32 = 98;
/// `EADDRNOTAVAIL`
pub const ADDRNOTAVAIL: u32 = 99;
/// `EADV`
pub const ADV: u32 = 68;
/// `EAFNOSUPPORT`
pub const AFNOSUPPORT: u32 = 97;
/// `EAGAIN`
pub const AGAIN: u32 = 11;
/// `EALREADY`
pub const ALREADY: u32 = 114;
/// `EBADE`
pub const BADE: u32 = 52;
/// `EBADF`
pub const BADF: u32 = 9;
/// `EBADFD`
pub const BADFD: u32 = 77;
/// `EBADMSG`
pub const BADMSG: u32 = 74;
/// `EBADR`
pub const BADR: u32 = 53;
/// `EBADRQC`
pub const BADRQC: u32 = 56;
/// `EBADSLT`
pub const BADSLT: u32 = 57;
/// `EBFONT`
pub const BFONT: u32 = 59;
/// `EBUSY`
pub const BUSY: u32 = 16;
/// `ECANCELED`
pub const CANCELED: u32 = 125;
/// `ECHILD`
pub const CHILD: u32 = 10;
/// `ECHRNG`
pub const CHRNG: u32 = 44;
/// `ECOMM`
pub const COMM: u32 = 70;
/// `ECONNABORTED`
pub const CONNABORTED: u32 = 103;
/// `ECONNREFUSED`
pub const CONNREFUSED: u32 = 111;
/// `ECONNRESET`
pub const CONNRESET: u32 = 104;
/// `EDEADLK`
pub const DEADLK: u32 = 35;
/// `EDEADLOCK`
pub const DEADLOCK: u32 = 35;
/// `EDESTADDRREQ`
pub const DESTADDRREQ: u32 = 89;
/// `EDOM`
pub const DOM: u32 = 33;
/// `EDOTDOT`
pub const DOTDOT: u32 = 73;
/// `EDQUOT`
pub const DQUOT: u32 = 122;
/// `EEXIST`
pub const EXIST: u32 = 17;
/// `EFAULT`
pub const FAULT: u32 = 14;
/// `EFBIG`
pub const FBIG: u32 = 27;
/// `EHOSTDOWN`
pub const HOSTDOWN: u32 = 112;
/// `EHOSTUNREACH`
pub const HOSTUNREACH: u32 = 113;
/// `EHWPOISON`
pub const HWPOISON: u32 = 133;
/// `EIDRM`
pub const IDRM: u32 = 43;
/// `EILSEQ`
pub const ILSEQ: u32 = 84;
/// `EINPROGRESS`
pub const INPROGRESS: u32 = 115;
/// `EINTR`
pub const INTR: u32 = 4;
/// `EINVAL`
pub const INVAL: u32 = 22;
/// `EIO`
pub const IO: u32 = 5;
/// `EISCONN`
pub const ISCONN: u32 = 106;
/// `EISDIR`
pub const ISDIR: u32 = 21;
/// `EISNAM`
pub const ISNAM: u32 = 120;
/// `EKEYEXPIRED`
pub const KEYEXPIRED: u32 = 127;
/// `EKEYREJECTED`
pub const KEYREJECTED: u32 = 129;
/// `EKEYREVOKED`
pub const KEYREVOKED: u32 = 128;
/// `EL2HLT`
pub const L2HLT: u32 = 51;
/// `EL2NSYNC`
pub const L2NSYNC: u32 = 45;
/// `EL3HLT`
pub const L3HLT: u32 = 46;
/// `EL3RST`
pub const L3RST: u32 = 47;
/// `ELIBACC`
pub const LIBACC: u32 = 79;
/// `ELIBBAD`
pub const LIBBAD: u32 = 80;
/// `ELIBEXEC`
pub const LIBEXEC: u32 = 83;
/// `ELIBMAX`
pub const LIBMAX: u32 = 82;
/// `ELIBSCN`
pub const LIBSCN: u32 = 81;
/// `ELNRNG`
pub const LNRNG: u32 = 48;
/// `ELOOP`
pub const LOOP: u32 = 40;
/// `EMEDIUMTYPE`
pub const MEDIUMTYPE: u32 = 124;
/// `EMFILE`
pub const MFILE: u32 = 24;
/// `EMLINK`
pub const MLINK: u32 = 31;
/// `EMSGSIZE`
pub const MSGSIZE: u32 = 90;
/// `EMULTIHOP`
pub const MULTIHOP: u32 = 72;
/// `ENAMETOOLONG`
pub const NAMETOOLONG: u32 = 36;
/// `ENAVAIL`
pub const NAVAIL: u32 = 119;
/// `ENETDOWN`
pub const NETDOWN: u32 = 100;
/// `ENETRESET`
pub const NETRESET: u32 = 102;
/// `ENETUNREACH`
pub const NETUNREACH: u32 = 101;
/// `ENFILE`
pub const NFILE: u32 = 23;
/// `ENOANO`
pub const NOANO: u32 = 55;
/// `ENOBUFS`
pub const NOBUFS: u32 = 105;
/// `ENOCSI`
pub const NOCSI: u32 = 50;
/// `ENODATA`
pub const NODATA: u32 = 61;
/// `ENODEV`
pub const NODEV: u32 = 19;
/// `ENOENT`
pub const NOENT: u32 = 2;
/// `ENOEXEC`
pub const NOEXEC: u32 = 8;
/// `ENOKEY`
pub const NOKEY: u32 = 126;
/// `ENOLCK`
pub const NOLCK: u32 = 37;
/// `ENOLINK`
pub const NOLINK: u32 = 67;
/// `ENOMEDIUM`
pub const NOMEDIUM: u32 = 123;
/// `ENOMEM`
pub const NOMEM: u32 = 12;
/// `ENOMSG`
pub const NOMSG: u32 = 42;
/// `ENONET`
pub const NONET: u32 = 64;
/// `ENOPKG`
pub const NOPKG: u32 = 65;
/// `ENOPROTOOPT`
pub const NOPROTOOPT: u32 = 92;
/// `ENOSPC`
pub const NOSPC: u32 = 28;
/// `ENOSR`
pub const NOSR: u32 = 63;
/// `ENOSTR`
pub const NOSTR: u32 = 60;
/// `ENOSYS`
pub const NOSYS: u32 = 38;
/// `ENOTBLK`
pub const NOTBLK: u32 = 15;
/// `ENOTCONN`
pub const NOTCONN: u32 = 107;
/// `ENOTDIR`
pub const NOTDIR: u32 = 20;
/// `ENOTEMPTY`
pub const NOTEMPTY: u32 = 39;
/// `ENOTNAM`
pub const NOTNAM: u32 = 118;
/// `ENOTRECOVERABLE`
pub const NOTRECOVERABLE: u32 = 131;
/// `ENOTSOCK`
pub const NOTSOCK: u32 = 88;
/// `EOPNOTSUPP`
pub const NOTSUP: u32 = 95;
/// `ENOTTY`
pub const NOTTY: u32 = 25;
/// `ENOTUNIQ`
pub const NOTUNIQ: u32 = 76;
/// `ENXIO`
pub const NXIO: u32 = 6;
/// `EOPNOTSUPP`
pub const OPNOTSUPP: u32 = 95;
/// `EOVERFLOW`
pub const OVERFLOW: u32 = 75;
/// `EOWNERDEAD`
pub const OWNERDEAD: u32 = 130;
/// `EPERM`
pub const PERM: u32 = 1;
/// `EPFNOSUPPORT`
pub const PFNOSUPPORT: u32 = 96;
/// `EPIPE`
pub const PIPE: u32 = 32;
/// `EPROTO`
pub const PROTO: u32 = 71;
/// `EPROTONOSUPPORT`
pub const PROTONOSUPPORT: u32 = 93;
/// `EPROTOTYPE`
pub const PROTOTYPE: u32 = 91;
/// `ERANGE`
pub const RANGE: u32 = 34;
/// `EREMCHG`
pub const REMCHG: u32 = 78;
/// `EREMOTE`
pub const REMOTE: u32 = 66;
/// `EREMOTEIO`
pub const REMOTEIO: u32 = 121;
/// `ERESTART`
pub const RESTART: u32 = 85;
/// `ERFKILL`
pub const RFKILL: u32 = 132;
/// `EROFS`
pub const ROFS: u32 = 30;
/// `ESHUTDOWN`
pub const SHUTDOWN: u32 = 108;
/// `ESOCKTNOSUPPORT`
pub const SOCKTNOSUPPORT: u32 = 94;
/// `ESPIPE`
pub const SPIPE: u32 = 29;
/// `ESRCH`
pub const SRCH: u32 = 3;
/// `ESRMNT`
pub const SRMNT: u32 = 69;
/// `ESTALE`
pub const STALE: u32 = 116;
/// `ESTRPIPE`
pub const STRPIPE: u32 = 86;
/// `ETIME`
pub const TIME: u32 = 62;
/// `ETIMEDOUT`
pub const TIMEDOUT: u32 = 110;
/// `E2BIG`
pub const TOOBIG: u32 = 7;
/// `ETOOMANYREFS`
pub const TOOMANYREFS: u32 = 109;
/// `ETXTBSY`
pub const TXTBSY: u32 = 26;
/// `EUCLEAN`
pub const UCLEAN: u32 = 117;
/// `EUNATCH`
pub const UNATCH: u32 = 49;
/// `EUSERS`
pub const USERS: u32 = 87;
/// `EWOULDBLOCK`
pub const WOULDBLOCK: u32 = 11;
/// `EXDEV`
pub const XDEV: u32 = 18;
/// `EXFULL`
pub const XFULL: u32 = 54;

} // verus!
