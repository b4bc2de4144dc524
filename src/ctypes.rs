//! C scalar types and the library's type aliases, as sized on each target.
use vstd::prelude::*;
use crate::layout::{Member, max_align, record_size};
use crate::target::{Arch, long_long_align, long_long_align_spec, pointer_bytes, pointer_bytes_spec};

verus! {

/// The C scalar kinds that record members are built from. Fixed-width
/// integers map onto them: `u8` is `Char`, `u16` is `Short`, `u32` is `Int`,
/// `u64` is `LongLong`.
#[derive(Clone, Copy, Debug, PartialEq, Eq, Structural)]
pub enum Scalar {
    Char,
    Short,
    Int,
    Long,
    LongLong,
    Pointer,
}

/// Size in bytes of a scalar; `long` is as wide as a pointer on every target.
pub open spec fn scalar_size_spec(k: Scalar, a: Arch) -> nat {
    match k {
        Scalar::Char => 1,
        Scalar::Short => 2,
        Scalar::Int => 4,
        Scalar::Long => pointer_bytes_spec(a),
        Scalar::LongLong => 8,
        Scalar::Pointer => pointer_bytes_spec(a),
    }
}

/// Alignment of a scalar as a record member.
pub open spec fn scalar_align_spec(k: Scalar, a: Arch) -> nat {
    match k {
        Scalar::LongLong => long_long_align_spec(a),
        _ => scalar_size_spec(k, a),
    }
}

/// A member of `n` elements of scalar kind `k`.
pub open spec fn elems(k: Scalar, a: Arch, n: usize) -> Member {
    Member { size: scalar_size_spec(k, a) as usize, align: scalar_align_spec(k, a) as usize, count: n }
}

/// A single scalar member.
pub open spec fn elem(k: Scalar, a: Arch) -> Member {
    elems(k, a, 1)
}

/// A member of `n` records that have layout members `ms` and minimum alignment `min`.
pub open spec fn nested_spec(ms: Seq<Member>, min: nat, n: usize) -> Member {
    Member { size: record_size(ms, min) as usize, align: max_align(ms, min) as usize, count: n }
}

/// What a member of scalars holds.
pub proof fn lemma_elems(k: Scalar, a: Arch, n: usize)
    ensures
        elems(k, a, n).size == scalar_size_spec(k, a),
        elems(k, a, n).align == scalar_align_spec(k, a),
        elems(k, a, n).count == n,
        1 <= scalar_size_spec(k, a) <= 8,
{
    let m = elems(k, a, n);
    assert(m.size as nat == scalar_size_spec(k, a));
}

/// Size of a scalar on the architecture.
pub fn scalar_size(k: Scalar, a: Arch) -> (n: usize)
    ensures
        n == scalar_size_spec(k, a),
{
    match k {
        Scalar::Char => 1,
        Scalar::Short => 2,
        Scalar::Int => 4,
        Scalar::Long => pointer_bytes(a),
        Scalar::LongLong => 8,
        Scalar::Pointer => pointer_bytes(a),
    }
}

/// Alignment of a scalar as a record member on the architecture.
pub fn scalar_align(k: Scalar, a: Arch) -> (n: usize)
    ensures
        n == scalar_align_spec(k, a),
{
    match k {
        Scalar::LongLong => long_long_align(a),
        _ => scalar_size(k, a),
    }
}

/// A member of `n` scalars.
pub fn array(k: Scalar, a: Arch, n: usize) -> (m: Member)
    ensures
        m == elems(k, a, n),
{
    Member { size: scalar_size(k, a), align: scalar_align(k, a), count: n }
}

/// A member holding one scalar.
pub fn scalar(k: Scalar, a: Arch) -> (m: Member)
    ensures
        m == elem(k, a),
{
    array(k, a, 1)
}

/// The library's scalar type aliases.
#[derive(Clone, Copy, Debug, PartialEq, Eq, Structural)]
pub enum Alias {
    ClockT,
    TimeT,
    SusecondsT,
    InoT,
    OffT,
    BlkcntT,
    ShmattT,
    MsgqnumT,
    MsglenT,
    FsblkcntT,
    FsfilcntT,
    RlimT,
    PidT,
    UidT,
    Ioctl,
}

/// The C kind that each alias stands for, with its signedness.
pub open spec fn alias_spec(t: Alias) -> (Scalar, bool) {
    match t {
        Alias::ClockT => (Scalar::Long, true),
        Alias::TimeT => (Scalar::Long, true),
        Alias::SusecondsT => (Scalar::Long, true),
        Alias::InoT => (Scalar::LongLong, false),
        Alias::OffT => (Scalar::LongLong, true),
        Alias::BlkcntT => (Scalar::LongLong, true),
        Alias::ShmattT => (Scalar::Long, false),
        Alias::MsgqnumT => (Scalar::Long, false),
        Alias::MsglenT => (Scalar::Long, false),
        Alias::FsblkcntT => (Scalar::LongLong, false),
        Alias::FsfilcntT => (Scalar::LongLong, false),
        Alias::RlimT => (Scalar::LongLong, false),
        Alias::PidT => (Scalar::Int, true),
        Alias::UidT => (Scalar::Int, false),
        Alias::Ioctl => (Scalar::Int, true),
    }
}

/// Resolves an alias to its C kind and whether it is signed.
pub fn alias(t: Alias) -> (r: (Scalar, bool))
    ensures
        r == alias_spec(t),
{
    match t {
        Alias::ClockT => (Scalar::Long, true),
        Alias::TimeT => (Scalar::Long, true),
        Alias::SusecondsT => (Scalar::Long, true),
        Alias::InoT => (Scalar::LongLong, false),
        Alias::OffT => (Scalar::LongLong, true),
        Alias::BlkcntT => (Scalar::LongLong, true),
        Alias::ShmattT => (Scalar::Long, false),
        Alias::MsgqnumT => (Scalar::Long, false),
        Alias::MsglenT => (Scalar::Long, false),
        Alias::FsblkcntT => (Scalar::LongLong, false),
        Alias::FsfilcntT => (Scalar::LongLong, false),
        Alias::RlimT => (Scalar::LongLong, false),
        Alias::PidT => (Scalar::Int, true),
        Alias::UidT => (Scalar::Int, false),
        Alias::Ioctl => (Scalar::Int, true),
    }
}

} // verus!
