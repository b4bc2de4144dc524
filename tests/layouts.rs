use musl_abi::ctypes::{alias, scalar_align, scalar_size, Alias, Scalar};
use musl_abi::layout::{compute_layout, Layout, Member};
use musl_abi::records::{members, record_layout, Record};
use musl_abi::target::{family, pointer_bytes, Arch, Endian, Family, Target};

fn target(arch: Arch, endian: Endian) -> Target {
    Target { arch, endian, musl_v1_2_3: false }
}

fn x86_64() -> Target {
    target(Arch::X86_64, Endian::Little)
}

fn layout(r: Record, t: Target) -> Layout {
    record_layout(r, t).unwrap()
}

#[test]
fn statvfs_x86_64_matches_native() {
    let l = layout(Record::Statvfs, x86_64());
    assert_eq!(l.offsets, vec![0, 8, 16, 24, 32, 40, 48, 56, 64, 72, 80, 88]);
    assert_eq!(l.offsets[1], 8);
    assert_eq!(l.size, 112);
    assert_eq!(l.align, 8);
}

#[test]
fn statvfs64_same_as_statvfs() {
    let a = layout(Record::Statvfs, x86_64());
    let b = layout(Record::Statvfs64, x86_64());
    assert_eq!(a.offsets, b.offsets);
    assert_eq!(a.size, b.size);
}

#[test]
fn statvfs_i386_pads_after_fsid() {
    let l = layout(Record::Statvfs, target(Arch::X86, Endian::Little));
    // f_fsid, then the 32-bit padding, then f_flag.
    assert_eq!(l.offsets[8], 56);
    assert_eq!(l.offsets[9], 60);
    assert_eq!(l.offsets[10], 64);
    assert_eq!(l.size, 96);
    assert_eq!(l.align, 4);
}

#[test]
fn statvfs_big_endian_32_pads_before_fsid() {
    let t = target(Arch::Mips, Endian::Big);
    let ms = members(Record::Statvfs, t).unwrap();
    assert_eq!(ms.len(), 13);
    // The padding int comes first, then f_fsid (a long).
    assert_eq!(ms[8].size, 4);
    assert_eq!(ms[9].size, 4);
    let l = layout(Record::Statvfs, t);
    assert_eq!(l.offsets[8], 56);
    assert_eq!(l.offsets[9], 60);
    assert_eq!(l.size, 96);
}

#[test]
fn siginfo_is_128_bytes_everywhere() {
    for arch in [Arch::X86_64, Arch::X86, Arch::Arm, Arch::Mips, Arch::Wasm32, Arch::S390x] {
        let l = layout(Record::SiginfoT, target(arch, Endian::Little));
        assert_eq!(l.size, 128);
        assert_eq!(l.align, pointer_bytes(arch));
    }
}

#[test]
fn flock_per_architecture() {
    let l = layout(Record::Flock, x86_64());
    assert_eq!(l.offsets, vec![0, 2, 8, 16, 24]);
    assert_eq!(l.size, 32);
    let l = layout(Record::Flock, target(Arch::X86, Endian::Little));
    assert_eq!(l.offsets, vec![0, 2, 4, 12, 20]);
    assert_eq!(l.size, 24);
    let l = layout(Record::Flock64, target(Arch::Arm, Endian::Little));
    assert_eq!(l.offsets, vec![0, 2, 8, 16, 24]);
    assert_eq!(l.size, 32);
}

#[test]
fn termios_x86_64_and_powerpc() {
    let l = layout(Record::Termios, x86_64());
    assert_eq!(l.offsets, vec![0, 4, 8, 12, 16, 17, 52, 56]);
    assert_eq!(l.size, 60);
    assert!(record_layout(Record::Termios, target(Arch::Powerpc64, Endian::Big)).is_none());
    assert!(members(Record::Termios, target(Arch::Powerpc, Endian::Big)).is_none());
}

#[test]
fn statfs_x86_64_and_mips() {
    let l = layout(Record::Statfs, x86_64());
    assert_eq!(l.offsets[7], 56);
    assert_eq!(l.offsets[8], 64);
    assert_eq!(l.offsets[11], 88);
    assert_eq!(l.size, 120);
    assert!(record_layout(Record::Statfs64, target(Arch::Mips64, Endian::Big)).is_none());
}

#[test]
fn fanotify_metadata_is_aligned_to_eight() {
    for arch in [Arch::X86_64, Arch::X86, Arch::Arm] {
        let l = layout(Record::FanotifyEventMetadata, target(arch, Endian::Little));
        assert_eq!(l.offsets, vec![0, 4, 5, 6, 8, 16, 20]);
        assert_eq!(l.size, 24);
        assert_eq!(l.align, 8);
    }
}

#[test]
fn tcp_info_x86_64() {
    let l = layout(Record::TcpInfo, x86_64());
    assert_eq!(l.offsets.len(), 54);
    assert_eq!(l.offsets[8], 8);
    assert_eq!(l.offsets[32], 104);
    assert_eq!(l.offsets[53], 228);
    assert_eq!(l.size, 232);
}

#[test]
fn sysinfo_x86_64() {
    let l = layout(Record::Sysinfo, x86_64());
    assert_eq!(l.offsets[8], 80);
    assert_eq!(l.offsets[9], 82);
    assert_eq!(l.offsets[12], 104);
    assert_eq!(l.offsets[13], 108);
    assert_eq!(l.size, 368);
}

#[test]
fn utmpx_session_before_and_after_1_2_3() {
    let old = layout(Record::Utmpx, x86_64());
    assert_eq!(old.offsets[7], 332);
    assert_eq!(old.offsets[8], 336);
    assert_eq!(old.offsets[9], 344);
    assert_eq!(old.size, 400);
    let le = Target { arch: Arch::X86_64, endian: Endian::Little, musl_v1_2_3: true };
    let l = layout(Record::Utmpx, le);
    assert_eq!(l.offsets.len(), 13);
    assert_eq!(l.offsets[8], 336);
    assert_eq!(l.offsets[9], 340);
    assert_eq!(l.offsets[10], 344);
    assert_eq!(l.size, 400);
    let be = Target { arch: Arch::Mips64, endian: Endian::Big, musl_v1_2_3: true };
    let ms = members(Record::Utmpx, be).unwrap();
    assert_eq!(ms.len(), 13);
}

#[test]
fn rtentry_pointer_width_padding() {
    let l = layout(Record::Rtentry, x86_64());
    assert_eq!(l.offsets, vec![0, 8, 56, 58, 64, 72, 73, 74, 80, 88, 96, 104, 112]);
    assert_eq!(l.size, 120);
    let l = layout(Record::Rtentry, target(Arch::Arm, Endian::Little));
    assert_eq!(l.offsets, vec![0, 4, 52, 54, 56, 60, 61, 62, 64, 68, 72, 76, 80]);
    assert_eq!(l.size, 84);
}

#[test]
fn timex_and_ntptimeval_x86_64() {
    let l = layout(Record::Timex, x86_64());
    assert_eq!(l.offsets[9], 72);
    assert_eq!(l.offsets[19], 160);
    assert_eq!(l.size, 208);
    let l = layout(Record::Ntptimeval, x86_64());
    assert_eq!(l.offsets, vec![0, 16, 24]);
    assert_eq!(l.size, 32);
}

#[test]
fn small_records() {
    assert_eq!(layout(Record::RegexT, x86_64()).size, 64);
    assert_eq!(layout(Record::Elf64Chdr, x86_64()).size, 24);
    assert_eq!(layout(Record::Elf64Chdr, target(Arch::X86, Endian::Little)).size, 24);
    assert_eq!(layout(Record::Elf32Chdr, x86_64()).size, 12);
    let l = layout(Record::ExitStatus, x86_64());
    assert_eq!(l.size, 4);
    assert_eq!(l.align, 2);
}

#[test]
fn layout_rejects_zero_alignment() {
    let ms = vec![Member { size: 4, align: 4, count: 1 }, Member { size: 1, align: 0, count: 1 }];
    assert!(compute_layout(&ms, 1).is_none());
    let ok = vec![Member { size: 4, align: 4, count: 1 }];
    assert!(compute_layout(&ok, 0).is_none());
}

#[test]
fn layout_rejects_overflow() {
    let ms = vec![Member { size: usize::MAX, align: 1, count: 2 }];
    assert!(compute_layout(&ms, 1).is_none());
    let ms = vec![Member { size: usize::MAX - 2, align: 1, count: 1 }, Member { size: 4, align: 4, count: 1 }];
    assert!(compute_layout(&ms, 1).is_none());
}

#[test]
fn layout_pads_and_rounds() {
    let ms = vec![
        Member { size: 1, align: 1, count: 1 },
        Member { size: 8, align: 8, count: 1 },
        Member { size: 2, align: 2, count: 3 },
    ];
    let l = compute_layout(&ms, 1).unwrap();
    assert_eq!(l.offsets, vec![0, 8, 16]);
    assert_eq!(l.size, 24);
    assert_eq!(l.align, 8);
    let l = compute_layout(&Vec::new(), 16).unwrap();
    assert_eq!(l.size, 0);
    assert_eq!(l.align, 16);
}

#[test]
fn one_variant_per_architecture() {
    assert_eq!(family(Arch::X86_64), Family::B64);
    assert_eq!(family(Arch::Wasm32), Family::B64);
    assert_eq!(pointer_bytes(Arch::Wasm32), 4);
    assert_eq!(family(Arch::Arm), Family::B32);
    assert_eq!(family(Arch::Hexagon), Family::B32);
    assert_eq!(family(Arch::Other), Family::Bare);
}

#[test]
fn scalar_aliases_and_sizes() {
    assert_eq!(alias(Alias::TimeT), (Scalar::Long, true));
    assert_eq!(alias(Alias::OffT), (Scalar::LongLong, true));
    assert_eq!(alias(Alias::FsblkcntT), (Scalar::LongLong, false));
    assert_eq!(alias(Alias::UidT), (Scalar::Int, false));
    assert_eq!(scalar_size(Scalar::Long, Arch::X86_64), 8);
    assert_eq!(scalar_size(Scalar::Long, Arch::Arm), 4);
    assert_eq!(scalar_size(Scalar::Long, Arch::Wasm32), 4);
    assert_eq!(scalar_align(Scalar::LongLong, Arch::X86), 4);
    assert_eq!(scalar_align(Scalar::LongLong, Arch::Arm), 8);
}

#[test]
fn sigaction_layouts() {
    let l = layout(Record::Sigaction, x86_64());
    assert_eq!(l.offsets, vec![0, 8, 136, 144]);
    assert_eq!(l.size, 152);
    let l = layout(Record::Sigaction, target(Arch::X86, Endian::Little));
    assert_eq!(l.offsets, vec![0, 4, 132, 136]);
    assert_eq!(l.size, 140);
}

#[test]
fn aiocb_layouts() {
    let l = layout(Record::Aiocb, x86_64());
    assert_eq!(l.offsets, vec![0, 4, 8, 16, 24, 32, 96, 104, 112, 120, 128, 136, 144, 152]);
    assert_eq!(l.size, 168);
    let l = layout(Record::Aiocb, target(Arch::X86, Endian::Little));
    assert_eq!(l.offsets, vec![0, 4, 8, 12, 16, 20, 84, 88, 96, 100, 104, 112, 116, 120]);
    assert_eq!(l.size, 144);
}
