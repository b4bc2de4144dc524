//! The constant table. Types are those of the C declarations (`int` as
//! `i32`, `unsigned` as `u32`, `short` as `i16`); `long` and `unsigned long`
//! are held at their widest, 64 bits. Constants that differ between
//! architectures, and those defined from them, are functions of the target's
//! architecture.
use vstd::prelude::*;
use crate::target::Arch;

verus! {

// include/sys/mman.h: huge page size encodings used with MAP_HUGETLB.
pub const MAP_HUGE_SHIFT: i32 = 26;
pub const MAP_HUGE_MASK: i32 = 0x3f;

pub const MAP_HUGE_64KB: i32 = 16 << MAP_HUGE_SHIFT;
pub const MAP_HUGE_512KB: i32 = 19 << MAP_HUGE_SHIFT;
pub const MAP_HUGE_1MB: i32 = 20 << MAP_HUGE_SHIFT;
pub const MAP_HUGE_2MB: i32 = 21 << MAP_HUGE_SHIFT;
pub const MAP_HUGE_8MB: i32 = 23 << MAP_HUGE_SHIFT;
pub const MAP_HUGE_16MB: i32 = 24 << MAP_HUGE_SHIFT;
pub const MAP_HUGE_32MB: i32 = 25 << MAP_HUGE_SHIFT;
pub const MAP_HUGE_256MB: i32 = 28 << MAP_HUGE_SHIFT;
pub const MAP_HUGE_512MB: i32 = 29 << MAP_HUGE_SHIFT;
pub const MAP_HUGE_1GB: i32 = 30 << MAP_HUGE_SHIFT;
pub const MAP_HUGE_2GB: i32 = 31 << MAP_HUGE_SHIFT;
pub const MAP_HUGE_16GB: i32 = 34 << MAP_HUGE_SHIFT;

pub const MS_RMT_MASK: u64 = 0x02800051;

// include/utmpx.h
pub const EMPTY: i16 = 0;
pub const RUN_LVL: i16 = 1;
pub const BOOT_TIME: i16 = 2;
pub const NEW_TIME: i16 = 3;
pub const OLD_TIME: i16 = 4;
pub const INIT_PROCESS: i16 = 5;
pub const LOGIN_PROCESS: i16 = 6;
pub const USER_PROCESS: i16 = 7;
pub const DEAD_PROCESS: i16 = 8;
pub const ACCOUNTING: i16 = 9;

pub const SFD_CLOEXEC: i32 = 0x080000;

pub const O_TRUNC: i32 = 512;
pub const O_NOATIME: i32 = 0o1000000;
pub const O_CLOEXEC: i32 = 0x80000;

pub const EBFONT: i32 = 59;
pub const ENOSTR: i32 = 60;
pub const ENODATA: i32 = 61;
pub const ETIME: i32 = 62;
pub const ENOSR: i32 = 63;
pub const ENONET: i32 = 64;
pub const ENOPKG: i32 = 65;
pub const EREMOTE: i32 = 66;
pub const ENOLINK: i32 = 67;
pub const EADV: i32 = 68;
pub const ESRMNT: i32 = 69;
pub const ECOMM: i32 = 70;
pub const EPROTO: i32 = 71;
pub const EDOTDOT: i32 = 73;

pub const F_OFD_GETLK: i32 = 36;
pub const F_OFD_SETLK: i32 = 37;
pub const F_OFD_SETLKW: i32 = 38;

pub const F_RDLCK: i32 = 0;
pub const F_WRLCK: i32 = 1;
pub const F_UNLCK: i32 = 2;

pub const SA_NODEFER: i32 = 0x40000000;
/// The bit pattern `0x80000000` read as a C `int`.
pub const SA_RESETHAND: i32 = -0x8000_0000;
pub const SA_RESTART: i32 = 0x10000000;
pub const SA_NOCLDSTOP: i32 = 0x00000001;

pub const EPOLL_CLOEXEC: i32 = 0x80000;

pub const EFD_CLOEXEC: i32 = 0x80000;

pub const BUFSIZ: u32 = 1024;
pub const TMP_MAX: u32 = 10000;
pub const FOPEN_MAX: u32 = 1000;
pub const FILENAME_MAX: u32 = 4096;
pub const O_PATH: i32 = 0o10000000;
pub const O_EXEC: i32 = 0o10000000;
pub const O_SEARCH: i32 = 0o10000000;
pub const O_ACCMODE: i32 = 0o10000003;
pub const NI_MAXHOST: u32 = 255;
pub const PTHREAD_STACK_MIN: usize = 2048;

pub const POSIX_MADV_DONTNEED: i32 = 4;

pub const SOCK_SEQPACKET: i32 = 5;
pub const SOCK_DCCP: i32 = 6;
pub const SOCK_PACKET: i32 = 10;

pub const SOMAXCONN: i32 = 128;

pub const __SIZEOF_PTHREAD_CONDATTR_T: usize = 4;
pub const __SIZEOF_PTHREAD_MUTEXATTR_T: usize = 4;
pub const __SIZEOF_PTHREAD_RWLOCKATTR_T: usize = 8;
pub const __SIZEOF_PTHREAD_BARRIERATTR_T: usize = 4;

pub const PTRACE_TRACEME: i32 = 0;
pub const PTRACE_PEEKTEXT: i32 = 1;
pub const PTRACE_PEEKDATA: i32 = 2;
pub const PTRACE_PEEKUSER: i32 = 3;
pub const PTRACE_POKETEXT: i32 = 4;
pub const PTRACE_POKEDATA: i32 = 5;
pub const PTRACE_POKEUSER: i32 = 6;
pub const PTRACE_CONT: i32 = 7;
pub const PTRACE_KILL: i32 = 8;
pub const PTRACE_SINGLESTEP: i32 = 9;
pub const PTRACE_GETREGS: i32 = 12;
pub const PTRACE_SETREGS: i32 = 13;
pub const PTRACE_GETFPREGS: i32 = 14;
pub const PTRACE_SETFPREGS: i32 = 15;
pub const PTRACE_ATTACH: i32 = 16;
pub const PTRACE_DETACH: i32 = 17;
pub const PTRACE_GETFPXREGS: i32 = 18;
pub const PTRACE_SETFPXREGS: i32 = 19;
pub const PTRACE_SYSCALL: i32 = 24;
pub const PTRACE_SETOPTIONS: i32 = 0x4200;
pub const PTRACE_GETEVENTMSG: i32 = 0x4201;
pub const PTRACE_GETSIGINFO: i32 = 0x4202;
pub const PTRACE_SETSIGINFO: i32 = 0x4203;
pub const PTRACE_GETREGSET: i32 = 0x4204;
pub const PTRACE_SETREGSET: i32 = 0x4205;
pub const PTRACE_SEIZE: i32 = 0x4206;
pub const PTRACE_INTERRUPT: i32 = 0x4207;
pub const PTRACE_LISTEN: i32 = 0x4208;
pub const PTRACE_PEEKSIGINFO: i32 = 0x4209;
pub const PTRACE_GETSIGMASK: u32 = 0x420a;
pub const PTRACE_SETSIGMASK: u32 = 0x420b;

pub const AF_IB: i32 = 27;
pub const AF_MPLS: i32 = 28;
pub const AF_NFC: i32 = 39;
pub const AF_VSOCK: i32 = 40;
pub const AF_XDP: i32 = 44;
pub const PF_IB: i32 = AF_IB;
pub const PF_MPLS: i32 = AF_MPLS;
pub const PF_NFC: i32 = AF_NFC;
pub const PF_VSOCK: i32 = AF_VSOCK;
pub const PF_XDP: i32 = AF_XDP;

pub const TCSANOW: i32 = 0;
pub const TCSADRAIN: i32 = 1;
pub const TCSAFLUSH: i32 = 2;

pub const RTLD_GLOBAL: i32 = 0x100;
pub const RTLD_NOLOAD: i32 = 0x4;

pub const CLOCK_SGI_CYCLE: i32 = 10;

pub const B0: u32 = 0o000000;
pub const B50: u32 = 0o000001;
pub const B75: u32 = 0o000002;
pub const B110: u32 = 0o000003;
pub const B134: u32 = 0o000004;
pub const B150: u32 = 0o000005;
pub const B200: u32 = 0o000006;
pub const B300: u32 = 0o000007;
pub const B600: u32 = 0o000010;
pub const B1200: u32 = 0o000011;
pub const B1800: u32 = 0o000012;
pub const B2400: u32 = 0o000013;
pub const B4800: u32 = 0o000014;
pub const B9600: u32 = 0o000015;
pub const B19200: u32 = 0o000016;
pub const B38400: u32 = 0o000017;
pub const EXTA: u32 = B19200;
pub const EXTB: u32 = B38400;

pub const REG_OK: i32 = 0;

pub const PRIO_PROCESS: i32 = 0;
pub const PRIO_PGRP: i32 = 1;
pub const PRIO_USER: i32 = 2;

pub const ADJ_OFFSET: u32 = 0x0001;
pub const ADJ_FREQUENCY: u32 = 0x0002;
pub const ADJ_MAXERROR: u32 = 0x0004;
pub const ADJ_ESTERROR: u32 = 0x0008;
pub const ADJ_STATUS: u32 = 0x0010;
pub const ADJ_TIMECONST: u32 = 0x0020;
pub const ADJ_TAI: u32 = 0x0080;
pub const ADJ_SETOFFSET: u32 = 0x0100;
pub const ADJ_MICRO: u32 = 0x1000;
pub const ADJ_NANO: u32 = 0x2000;
pub const ADJ_TICK: u32 = 0x4000;
pub const ADJ_OFFSET_SINGLESHOT: u32 = 0x8001;
pub const ADJ_OFFSET_SS_READ: u32 = 0xa001;
pub const MOD_OFFSET: u32 = ADJ_OFFSET;
pub const MOD_FREQUENCY: u32 = ADJ_FREQUENCY;
pub const MOD_MAXERROR: u32 = ADJ_MAXERROR;
pub const MOD_ESTERROR: u32 = ADJ_ESTERROR;
pub const MOD_STATUS: u32 = ADJ_STATUS;
pub const MOD_TIMECONST: u32 = ADJ_TIMECONST;
pub const MOD_CLKB: u32 = ADJ_TICK;
pub const MOD_CLKA: u32 = ADJ_OFFSET_SINGLESHOT;
pub const MOD_TAI: u32 = ADJ_TAI;
pub const MOD_MICRO: u32 = ADJ_MICRO;
pub const MOD_NANO: u32 = ADJ_NANO;
pub const STA_PLL: i32 = 0x0001;
pub const STA_PPSFREQ: i32 = 0x0002;
pub const STA_PPSTIME: i32 = 0x0004;
pub const STA_FLL: i32 = 0x0008;
pub const STA_INS: i32 = 0x0010;
pub const STA_DEL: i32 = 0x0020;
pub const STA_UNSYNC: i32 = 0x0040;
pub const STA_FREQHOLD: i32 = 0x0080;
pub const STA_PPSSIGNAL: i32 = 0x0100;
pub const STA_PPSJITTER: i32 = 0x0200;
pub const STA_PPSWANDER: i32 = 0x0400;
pub const STA_PPSERROR: i32 = 0x0800;
pub const STA_CLOCKERR: i32 = 0x1000;
pub const STA_NANO: i32 = 0x2000;
pub const STA_MODE: i32 = 0x4000;
pub const STA_CLK: i32 = 0x8000;
pub const STA_RONLY: i32 = STA_PPSSIGNAL | STA_PPSJITTER | STA_PPSWANDER | STA_PPSERROR | STA_CLOCKERR | STA_NANO | STA_MODE | STA_CLK;

pub const TIME_OK: i32 = 0;
pub const TIME_INS: i32 = 1;
pub const TIME_DEL: i32 = 2;
pub const TIME_OOP: i32 = 3;
pub const TIME_WAIT: i32 = 4;
pub const TIME_ERROR: i32 = 5;
pub const TIME_BAD: i32 = TIME_ERROR;
pub const MAXTC: i64 = 6;

pub const _CS_V6_ENV: i32 = 1148;
pub const _CS_V7_ENV: i32 = 1149;

pub const CLONE_NEWTIME: i32 = 0x80;

pub const UT_HOSTSIZE: usize = 256;
pub const UT_LINESIZE: usize = 32;
pub const UT_NAMESIZE: usize = 32;

/// `SIGSYS`, the "bad system call" signal.
pub open spec fn sigsys_spec(a: Arch) -> i32 {
    if a == Arch::Mips || a == Arch::Mips64 {
        12
    } else {
        31
    }
}

/// `O_NONBLOCK`.
pub open spec fn o_nonblock_spec(a: Arch) -> i32 {
    if a == Arch::Mips || a == Arch::Mips64 {
        0x80
    } else {
        0o4000
    }
}

/// `O_DIRECTORY`.
pub open spec fn o_directory_spec(a: Arch) -> i32 {
    if a == Arch::Arm || a == Arch::Aarch64 || a == Arch::Powerpc || a == Arch::Powerpc64 {
        0o40000
    } else {
        0o200000
    }
}

/// `MAP_ANON`.
pub open spec fn map_anon_spec(a: Arch) -> i32 {
    if a == Arch::Mips || a == Arch::Mips64 {
        0x800
    } else {
        0x20
    }
}

/// `NCCS`, the number of terminal control characters.
pub open spec fn nccs_spec(a: Arch) -> usize {
    if a == Arch::Powerpc || a == Arch::Powerpc64 {
        19
    } else {
        32
    }
}

/// `CPU_SETSIZE`.
pub open spec fn cpu_setsize_spec(a: Arch) -> i32 {
    if a == Arch::Loongarch64 {
        1024
    } else {
        128
    }
}

/// `POSIX_FADV_DONTNEED`.
pub open spec fn posix_fadv_dontneed_spec(a: Arch) -> i32 {
    if a == Arch::S390x {
        6
    } else {
        4
    }
}

/// `POSIX_FADV_NOREUSE`.
pub open spec fn posix_fadv_noreuse_spec(a: Arch) -> i32 {
    if a == Arch::S390x {
        7
    } else {
        5
    }
}

/// `O_TMPFILE`: its own bit together with `O_DIRECTORY`.
pub open spec fn o_tmpfile_spec(a: Arch) -> i32 {
    0o20000000 | o_directory_spec(a)
}

/// `O_NDELAY`, another name for `O_NONBLOCK`.
pub open spec fn o_ndelay_spec(a: Arch) -> i32 {
    o_nonblock_spec(a)
}

/// `MAP_ANONYMOUS`, another name for `MAP_ANON`.
pub open spec fn map_anonymous_spec(a: Arch) -> i32 {
    map_anon_spec(a)
}

/// `SOCK_NONBLOCK`, defined as `O_NONBLOCK`.
pub open spec fn sock_nonblock_spec(a: Arch) -> i32 {
    o_nonblock_spec(a)
}

/// `EFD_NONBLOCK`, defined as `O_NONBLOCK`.
pub open spec fn efd_nonblock_spec(a: Arch) -> i32 {
    o_nonblock_spec(a)
}

/// `SFD_NONBLOCK`, defined as `O_NONBLOCK`.
pub open spec fn sfd_nonblock_spec(a: Arch) -> i32 {
    o_nonblock_spec(a)
}

/// `SIGUNUSED`, the deprecated name of `SIGSYS`.
pub open spec fn sigunused_spec(a: Arch) -> i32 {
    sigsys_spec(a)
}

/// `SIGSYS` on the architecture.
pub fn sigsys(a: Arch) -> (r: i32)
    ensures
        r == sigsys_spec(a),
{
    match a {
        Arch::Mips | Arch::Mips64 => 12,
        _ => 31,
    }
}

/// `O_NONBLOCK` on the architecture.
pub fn o_nonblock(a: Arch) -> (r: i32)
    ensures
        r == o_nonblock_spec(a),
{
    match a {
        Arch::Mips | Arch::Mips64 => 0x80,
        _ => 0o4000,
    }
}

/// `O_DIRECTORY` on the architecture.
pub fn o_directory(a: Arch) -> (r: i32)
    ensures
        r == o_directory_spec(a),
{
    match a {
        Arch::Arm | Arch::Aarch64 | Arch::Powerpc | Arch::Powerpc64 => 0o40000,
        _ => 0o200000,
    }
}

/// `MAP_ANON` on the architecture.
pub fn map_anon(a: Arch) -> (r: i32)
    ensures
        r == map_anon_spec(a),
{
    match a {
        Arch::Mips | Arch::Mips64 => 0x800,
        _ => 0x20,
    }
}

/// `NCCS` on the architecture.
pub fn nccs(a: Arch) -> (n: usize)
    ensures
        n == nccs_spec(a),
{
    match a {
        Arch::Powerpc | Arch::Powerpc64 => 19,
        _ => 32,
    }
}

/// `CPU_SETSIZE` on the architecture.
pub fn cpu_setsize(a: Arch) -> (r: i32)
    ensures
        r == cpu_setsize_spec(a),
{
    match a {
        Arch::Loongarch64 => 1024,
        _ => 128,
    }
}

/// `POSIX_FADV_DONTNEED` on the architecture.
pub fn posix_fadv_dontneed(a: Arch) -> (r: i32)
    ensures
        r == posix_fadv_dontneed_spec(a),
{
    match a {
        Arch::S390x => 6,
        _ => 4,
    }
}

/// `POSIX_FADV_NOREUSE` on the architecture.
pub fn posix_fadv_noreuse(a: Arch) -> (r: i32)
    ensures
        r == posix_fadv_noreuse_spec(a),
{
    match a {
        Arch::S390x => 7,
        _ => 5,
    }
}

/// `O_TMPFILE`: its own bit together with `O_DIRECTORY`.
pub fn o_tmpfile(a: Arch) -> (r: i32)
    ensures
        r == o_tmpfile_spec(a),
{
    0o20000000 | o_directory(a)
}

/// `O_NDELAY`, another name for `O_NONBLOCK`.
pub fn o_ndelay(a: Arch) -> (r: i32)
    ensures
        r == o_ndelay_spec(a),
{
    o_nonblock(a)
}

/// `MAP_ANONYMOUS`, another name for `MAP_ANON`.
pub fn map_anonymous(a: Arch) -> (r: i32)
    ensures
        r == map_anonymous_spec(a),
{
    map_anon(a)
}

/// `SOCK_NONBLOCK`, which is `O_NONBLOCK`.
pub fn sock_nonblock(a: Arch) -> (r: i32)
    ensures
        r == sock_nonblock_spec(a),
{
    o_nonblock(a)
}

/// `EFD_NONBLOCK`, which is `O_NONBLOCK`.
pub fn efd_nonblock(a: Arch) -> (r: i32)
    ensures
        r == efd_nonblock_spec(a),
{
    o_nonblock(a)
}

/// `SFD_NONBLOCK`, which is `O_NONBLOCK`.
pub fn sfd_nonblock(a: Arch) -> (r: i32)
    ensures
        r == sfd_nonblock_spec(a),
{
    o_nonblock(a)
}

/// `SIGUNUSED`, the deprecated name of `SIGSYS`.
pub fn sigunused(a: Arch) -> (r: i32)
    ensures
        r == sigunused_spec(a),
{
    sigsys(a)
}

/// Composed constants equal the combination of their operands' current
/// values, and come to the values of the C headers.
pub proof fn lemma_composed(a: Arch)
    ensures
        STA_RONLY == STA_PPSSIGNAL | STA_PPSJITTER | STA_PPSWANDER | STA_PPSERROR | STA_CLOCKERR
            | STA_NANO | STA_MODE | STA_CLK,
        STA_RONLY == 0xff00,
        MAP_HUGE_64KB == 16i32 << MAP_HUGE_SHIFT,
        MAP_HUGE_2MB == 21i32 << MAP_HUGE_SHIFT,
        MAP_HUGE_1GB == 30i32 << MAP_HUGE_SHIFT,
        MAP_HUGE_2MB == 0x5400_0000,
        MAP_HUGE_1GB == 0x7800_0000,
        o_tmpfile_spec(a) == 0o20000000 | o_directory_spec(a),
        o_tmpfile_spec(a) & o_directory_spec(a) == o_directory_spec(a),
        o_tmpfile_spec(a) == (if a == Arch::Arm || a == Arch::Aarch64 || a == Arch::Powerpc
            || a == Arch::Powerpc64 {
            0o20040000i32
        } else {
            0o20200000i32
        }),
{
    assert(STA_RONLY == 0xff00) by (bit_vector)
        requires
            STA_RONLY == 0x0100i32 | 0x0200i32 | 0x0400i32 | 0x0800i32 | 0x1000i32 | 0x2000i32
                | 0x4000i32 | 0x8000i32,
    ;
    assert(MAP_HUGE_2MB == 0x5400_0000) by (bit_vector)
        requires
            MAP_HUGE_2MB == 21i32 << 26i32,
    ;
    assert(MAP_HUGE_1GB == 0x7800_0000) by (bit_vector)
        requires
            MAP_HUGE_1GB == 30i32 << 26i32,
    ;
    let d = o_directory_spec(a);
    assert((0o20000000i32 | d) & d == d) by (bit_vector);
    assert(0o20000000i32 | 0o40000i32 == 0o20040000i32) by (bit_vector);
    assert(0o20000000i32 | 0o200000i32 == 0o20200000i32) by (bit_vector);
}

/// Names documented as other names of a constant hold its value, on every
/// architecture.
pub proof fn lemma_aliases(a: Arch)
    ensures
        MOD_OFFSET == ADJ_OFFSET,
        MOD_FREQUENCY == ADJ_FREQUENCY,
        MOD_MAXERROR == ADJ_MAXERROR,
        MOD_ESTERROR == ADJ_ESTERROR,
        MOD_STATUS == ADJ_STATUS,
        MOD_TIMECONST == ADJ_TIMECONST,
        MOD_CLKB == ADJ_TICK,
        MOD_CLKA == ADJ_OFFSET_SINGLESHOT,
        MOD_TAI == ADJ_TAI,
        MOD_MICRO == ADJ_MICRO,
        MOD_NANO == ADJ_NANO,
        PF_IB == AF_IB,
        PF_MPLS == AF_MPLS,
        PF_NFC == AF_NFC,
        PF_VSOCK == AF_VSOCK,
        PF_XDP == AF_XDP,
        EXTA == B19200,
        EXTB == B38400,
        TIME_BAD == TIME_ERROR,
        O_EXEC == O_PATH,
        O_SEARCH == O_PATH,
        EFD_CLOEXEC == O_CLOEXEC,
        SFD_CLOEXEC == O_CLOEXEC,
        EPOLL_CLOEXEC == O_CLOEXEC,
        o_ndelay_spec(a) == o_nonblock_spec(a),
        map_anonymous_spec(a) == map_anon_spec(a),
        sock_nonblock_spec(a) == o_nonblock_spec(a),
        efd_nonblock_spec(a) == o_nonblock_spec(a),
        sfd_nonblock_spec(a) == o_nonblock_spec(a),
        sigunused_spec(a) == sigsys_spec(a),
{
}

/// The deprecated "unused signal" number is the "bad system call" signal,
/// whatever the architecture.
pub proof fn lemma_sigunused_is_sigsys(a: Arch)
    ensures
        sigunused_spec(a) == sigsys_spec(a),
        sigunused_spec(a) == (if a == Arch::Mips || a == Arch::Mips64 {
            12i32
        } else {
            31i32
        }),
{
}

} // verus!
