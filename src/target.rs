//! Targets and the architecture variant that each one selects.
use vstd::prelude::*;

verus! {

/// The CPU families that the musl/Linux ABI distinguishes.
#[derive(Clone, Copy, Debug, PartialEq, Eq, Structural)]
pub enum Arch {
    X86_64,
    Aarch64,
    Mips64,
    Powerpc64,
    S390x,
    Riscv64,
    Loongarch64,
    Wasm32,
    X86,
    Mips,
    Powerpc,
    Hexagon,
    Riscv32,
    Arm,
    /// Any architecture for which no variant exists.
    Other,
}

/// Byte order of a target.
#[derive(Clone, Copy, Debug, PartialEq, Eq, Structural)]
pub enum Endian {
    Little,
    Big,
}

/// A build target: its architecture, its byte order, and whether the C
/// library is at least musl 1.2.3 (which changed the layout of `utmpx`).
#[derive(Clone, Copy, Debug, PartialEq, Eq, Structural)]
pub struct Target {
    pub arch: Arch,
    pub endian: Endian,
    pub musl_v1_2_3: bool,
}

/// The architecture-specific extension that a build pulls in.
#[derive(Clone, Copy, Debug, PartialEq, Eq, Structural)]
pub enum Family {
    /// The 64-bit convention (also followed by wasm32).
    B64,
    /// The 32-bit convention.
    B32,
    /// No extension: the architecture is not supported.
    Bare,
}

/// Architectures whose build uses the 64-bit extension.
pub open spec fn in_b64_list(a: Arch) -> bool {
    a == Arch::X86_64 || a == Arch::Aarch64 || a == Arch::Mips64 || a == Arch::Powerpc64
        || a == Arch::S390x || a == Arch::Riscv64 || a == Arch::Loongarch64 || a == Arch::Wasm32
}

/// Architectures whose build uses the 32-bit extension.
pub open spec fn in_b32_list(a: Arch) -> bool {
    a == Arch::X86 || a == Arch::Mips || a == Arch::Powerpc || a == Arch::Hexagon
        || a == Arch::Riscv32 || a == Arch::Arm
}

/// The variant that the selector resolves to: the first list that names the
/// architecture, else the empty extension.
pub open spec fn family_spec(a: Arch) -> Family {
    if in_b64_list(a) {
        Family::B64
    } else if in_b32_list(a) {
        Family::B32
    } else {
        Family::Bare
    }
}

/// Width of a pointer, in bytes.
pub open spec fn pointer_bytes_spec(a: Arch) -> nat {
    if a == Arch::Wasm32 || in_b32_list(a) {
        4
    } else {
        8
    }
}

/// Alignment of an 8-byte integer inside a record (i386 keeps it at 4).
pub open spec fn long_long_align_spec(a: Arch) -> nat {
    if a == Arch::X86 {
        4
    } else {
        8
    }
}

/// Selects the architecture variant of a build.
pub fn family(a: Arch) -> (f: Family)
    ensures
        f == family_spec(a),
{
    match a {
        Arch::X86_64 | Arch::Aarch64 | Arch::Mips64 | Arch::Powerpc64 | Arch::S390x
        | Arch::Riscv64 | Arch::Loongarch64 | Arch::Wasm32 => Family::B64,
        Arch::X86 | Arch::Mips | Arch::Powerpc | Arch::Hexagon | Arch::Riscv32 | Arch::Arm => {
            Family::B32
        },
        Arch::Other => Family::Bare,
    }
}

/// Width of a pointer on the architecture, in bytes.
pub fn pointer_bytes(a: Arch) -> (n: usize)
    ensures
        n == pointer_bytes_spec(a),
{
    match a {
        Arch::Wasm32 | Arch::X86 | Arch::Mips | Arch::Powerpc | Arch::Hexagon | Arch::Riscv32
        | Arch::Arm => 4,
        _ => 8,
    }
}

/// Alignment of `long long` and of 64-bit integers as record members.
pub fn long_long_align(a: Arch) -> (n: usize)
    ensures
        n == long_long_align_spec(a),
{
    match a {
        Arch::X86 => 4,
        _ => 8,
    }
}

/// The two variant lists are disjoint, so every architecture selects exactly
/// one variant; every listed architecture selects a real extension, and an
/// unlisted one selects the empty extension rather than failing.
pub proof fn lemma_one_variant(a: Arch)
    ensures
        !(in_b64_list(a) && in_b32_list(a)),
        family_spec(a) == Family::B64 <==> in_b64_list(a),
        family_spec(a) == Family::B32 <==> in_b32_list(a),
        family_spec(a) == Family::Bare <==> (a == Arch::Other),
{
}

} // verus!
