use musl_abi::bytes::{read_int, read_uint};
use musl_abi::siginfo::{siginfo_t, SIGINFO_SIZE};
use musl_abi::target::{Arch, Endian, Target};

fn put(b: &mut [u8], off: usize, v: u64, n: usize, e: Endian) {
    for i in 0..n {
        let byte = ((v >> (8 * i)) & 0xff) as u8;
        match e {
            Endian::Little => b[off + i] = byte,
            Endian::Big => b[off + n - 1 - i] = byte,
        }
    }
}

fn info(bytes: Vec<u8>, arch: Arch, endian: Endian) -> siginfo_t {
    siginfo_t::from_bytes(bytes, Target { arch, endian, musl_v1_2_3: false }).unwrap()
}

#[test]
fn from_bytes_needs_exact_size() {
    let t = Target { arch: Arch::X86_64, endian: Endian::Little, musl_v1_2_3: false };
    assert!(siginfo_t::from_bytes(vec![0; 127], t).is_none());
    assert!(siginfo_t::from_bytes(vec![0; 129], t).is_none());
    assert!(siginfo_t::from_bytes(vec![0; SIGINFO_SIZE], t).is_some());
}

#[test]
fn sigchld_payload_x86_64() {
    let e = Endian::Little;
    let mut b = vec![0u8; 128];
    put(&mut b, 0, 17, 4, e);
    put(&mut b, 8, 1, 4, e);
    put(&mut b, 16, 4321, 4, e);
    put(&mut b, 20, 1000, 4, e);
    put(&mut b, 24, (-9i32) as u32 as u64, 4, e);
    put(&mut b, 32, 77, 8, e);
    put(&mut b, 40, (-5i64) as u64, 8, e);
    let s = info(b, Arch::X86_64, e);
    assert_eq!(s.si_signo(), 17);
    assert_eq!(s.si_code(), 1);
    assert_eq!(s.si_errno(), 0);
    assert_eq!(s.si_pid(), 4321);
    assert_eq!(s.si_uid(), 1000);
    assert_eq!(s.si_status(), -9);
    assert_eq!(s.si_utime(), 77);
    assert_eq!(s.si_stime(), -5);
}

#[test]
fn sigchld_payload_i386() {
    let e = Endian::Little;
    let mut b = vec![0u8; 128];
    put(&mut b, 12, 4321, 4, e);
    put(&mut b, 16, 1000, 4, e);
    put(&mut b, 20, 3, 4, e);
    put(&mut b, 24, 0xffff_ffff, 4, e);
    put(&mut b, 28, 12, 4, e);
    let s = info(b, Arch::X86, e);
    assert_eq!(s.si_pid(), 4321);
    assert_eq!(s.si_uid(), 1000);
    assert_eq!(s.si_status(), 3);
    assert_eq!(s.si_utime(), -1);
    assert_eq!(s.si_stime(), 12);
}

#[test]
fn fault_address_and_value() {
    let e = Endian::Little;
    let mut b = vec![0u8; 128];
    put(&mut b, 16, 0x7fff_dead_beef, 8, e);
    let s = info(b, Arch::Aarch64, e);
    assert_eq!(s.si_addr(), 0x7fff_dead_beef);
    let mut b = vec![0u8; 128];
    put(&mut b, 24, 0x1234_5678_9abc, 8, e);
    let s = info(b, Arch::X86_64, e);
    assert_eq!(s.si_value(), 0x1234_5678_9abc);
    let mut b = vec![0u8; 128];
    put(&mut b, 12, 0xdead_beef, 4, e);
    put(&mut b, 20, 42, 4, e);
    let s = info(b, Arch::Arm, e);
    assert_eq!(s.si_addr(), 0xdead_beef);
    assert_eq!(s.si_value(), 42);
}

#[test]
fn mips_big_endian_swaps_errno_and_code() {
    let e = Endian::Big;
    let mut b = vec![0u8; 128];
    put(&mut b, 0, 18, 4, e);
    put(&mut b, 4, 2, 4, e);
    put(&mut b, 8, 5, 4, e);
    put(&mut b, 12, 99, 4, e);
    let s = info(b, Arch::Mips, e);
    assert_eq!(s.si_signo(), 18);
    assert_eq!(s.si_code(), 2);
    assert_eq!(s.si_errno(), 5);
    assert_eq!(s.si_pid(), 99);
}

#[test]
fn byte_order_of_reads() {
    let b = vec![0x01, 0x02, 0x03, 0x04, 0xff, 0xff, 0xff, 0xff];
    assert_eq!(read_uint(&b, 0, 4, Endian::Little), 0x0403_0201);
    assert_eq!(read_uint(&b, 0, 4, Endian::Big), 0x0102_0304);
    assert_eq!(read_uint(&b, 0, 0, Endian::Big), 0);
    assert_eq!(read_int(&b, 4, 4, Endian::Little), -1);
    assert_eq!(read_int(&b, 0, 8, Endian::Big), 0x0102_0304_ffff_ffff);
}
