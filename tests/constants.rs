use musl_abi::consts::{
    cpu_setsize, efd_nonblock, map_anon, map_anonymous, o_directory, o_ndelay, o_nonblock,
    o_tmpfile, posix_fadv_dontneed, posix_fadv_noreuse, sfd_nonblock, sigsys, sigunused,
    sock_nonblock, ADJ_OFFSET_SINGLESHOT, ADJ_TICK, AF_XDP, B19200, B38400, EXTA, EXTB,
    MAP_HUGE_16GB, MAP_HUGE_1GB, MAP_HUGE_2MB, MAP_HUGE_64KB, MAP_HUGE_SHIFT, MOD_CLKA,
    MOD_CLKB, O_ACCMODE, O_CLOEXEC, O_EXEC, O_PATH, O_TRUNC, PF_XDP, PTRACE_GETSIGMASK,
    SA_RESETHAND, STA_CLK, STA_PPSSIGNAL, STA_RONLY, TIME_BAD, TIME_ERROR,
};
use musl_abi::target::Arch;

const ALL: [Arch; 15] = [
    Arch::X86_64,
    Arch::Aarch64,
    Arch::Mips64,
    Arch::Powerpc64,
    Arch::S390x,
    Arch::Riscv64,
    Arch::Loongarch64,
    Arch::Wasm32,
    Arch::X86,
    Arch::Mips,
    Arch::Powerpc,
    Arch::Hexagon,
    Arch::Riscv32,
    Arch::Arm,
    Arch::Other,
];

#[test]
fn truncate_on_open_is_512() {
    assert_eq!(O_TRUNC, 512);
}

#[test]
fn sigunused_equals_sigsys_everywhere() {
    for a in ALL {
        assert_eq!(sigunused(a), sigsys(a));
    }
    assert_eq!(sigunused(Arch::X86_64), 31);
    assert_eq!(sigunused(Arch::Mips), 12);
}

#[test]
fn composed_constants() {
    assert_eq!(STA_RONLY, 0xff00);
    assert_eq!(STA_RONLY & STA_PPSSIGNAL, STA_PPSSIGNAL);
    assert_eq!(STA_RONLY & STA_CLK, STA_CLK);
    assert_eq!(MAP_HUGE_SHIFT, 26);
    assert_eq!(MAP_HUGE_64KB, 16 << 26);
    assert_eq!(MAP_HUGE_2MB, 0x5400_0000);
    assert_eq!(MAP_HUGE_1GB, 0x7800_0000);
    assert_eq!(MAP_HUGE_16GB as u32, 0x8800_0000);
    assert_eq!(o_tmpfile(Arch::X86_64), 0o20200000);
    assert_eq!(o_tmpfile(Arch::Aarch64), 0o20040000);
    for a in ALL {
        assert_eq!(o_tmpfile(a) & o_directory(a), o_directory(a));
    }
}

#[test]
fn renamed_constants_keep_their_values() {
    assert_eq!(PF_XDP, AF_XDP);
    assert_eq!(PF_XDP, 44);
    assert_eq!(EXTA, B19200);
    assert_eq!(EXTB, B38400);
    assert_eq!(EXTA, 0o16);
    assert_eq!(TIME_BAD, TIME_ERROR);
    assert_eq!(MOD_CLKB, ADJ_TICK);
    assert_eq!(MOD_CLKA, ADJ_OFFSET_SINGLESHOT);
    assert_eq!(O_EXEC, O_PATH);
    assert_eq!(O_ACCMODE, 0o10000003);
    for a in ALL {
        assert_eq!(o_ndelay(a), o_nonblock(a));
        assert_eq!(sock_nonblock(a), o_nonblock(a));
        assert_eq!(efd_nonblock(a), o_nonblock(a));
        assert_eq!(sfd_nonblock(a), o_nonblock(a));
        assert_eq!(map_anonymous(a), map_anon(a));
    }
}

#[test]
fn architecture_specific_values() {
    assert_eq!(o_nonblock(Arch::X86_64), 0o4000);
    assert_eq!(o_nonblock(Arch::Mips), 0x80);
    assert_eq!(map_anon(Arch::Arm), 0x20);
    assert_eq!(map_anon(Arch::Mips64), 0x800);
    assert_eq!(cpu_setsize(Arch::Loongarch64), 1024);
    assert_eq!(cpu_setsize(Arch::X86_64), 128);
    assert_eq!(posix_fadv_dontneed(Arch::S390x), 6);
    assert_eq!(posix_fadv_noreuse(Arch::S390x), 7);
    assert_eq!(posix_fadv_dontneed(Arch::Riscv64), 4);
    assert_eq!(posix_fadv_noreuse(Arch::Riscv64), 5);
}

#[test]
fn wide_flag_values() {
    assert_eq!(SA_RESETHAND as u32, 0x8000_0000);
    assert_eq!(O_CLOEXEC, 0x80000);
    assert_eq!(PTRACE_GETSIGMASK, 0x420a);
}
