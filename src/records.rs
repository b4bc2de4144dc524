//! The records that this layer declares, member by member, for each target.
//! Members are listed in declaration order, reserved and padding members
//! included, so that member `i` of a description is field `i` of the record.
use vstd::prelude::*;
use crate::ctypes::{Scalar, elem, elems, lemma_elems, nested_spec, scalar, array};
use crate::layout::{
    Layout, Member, compute_layout, end_of, is_layout_of, lemma_align_table, lemma_layout_sound,
    lemma_modest_representable, lemma_push, lemma_span_of, modest, offset_of, record_size, representable,
    span,
};
use crate::consts::{nccs, nccs_spec};
use crate::target::{Arch, Endian, Target, pointer_bytes, pointer_bytes_spec};

verus! {

/// `struct timeval { time_t tv_sec; suseconds_t tv_usec; }`
pub open spec fn timeval_spec(a: Arch) -> Seq<Member> {
    seq![elem(Scalar::Long, a), elem(Scalar::Long, a)]
}

/// `struct sockaddr { sa_family_t sa_family; char sa_data[14]; }`
pub open spec fn sockaddr_spec(a: Arch) -> Seq<Member> {
    seq![elem(Scalar::Short, a), elems(Scalar::Char, a, 14)]
}

/// `fsid_t { int __val[2]; }`
pub open spec fn fsid_spec(a: Arch) -> Seq<Member> {
    seq![elems(Scalar::Int, a, 2)]
}

/// `struct __exit_status { short e_termination; short e_exit; }`
pub open spec fn exit_status_spec(a: Arch) -> Seq<Member> {
    seq![elem(Scalar::Short, a), elem(Scalar::Short, a)]
}

/// `struct sigevent`: `union sigval` (pointer-sized), signal number, notify
/// kind, thread id, and reserved ints up to 64 bytes.
pub open spec fn sigevent_spec(a: Arch) -> Seq<Member> {
    let i = elem(Scalar::Int, a);
    let rest: usize = if pointer_bytes_spec(a) == 8 {
        11
    } else {
        12
    };
    seq![elem(Scalar::Pointer, a), i, i, i, elems(Scalar::Int, a, rest)]
}

proof fn lemma_timeval(a: Arch)
    ensures
        nested_spec(timeval_spec(a), 1, 1) == (Member {
            size: (2 * pointer_bytes_spec(a)) as usize,
            align: pointer_bytes_spec(a) as usize,
            count: 1,
        }),
{
    lemma_align_table();
    let l = elem(Scalar::Long, a);
    let e = Seq::<Member>::empty();
    lemma_elems(Scalar::Long, a, 1);
    lemma_push(e, l, 1);
    lemma_push(e.push(l), l, 1);
    assert(timeval_spec(a) == e.push(l).push(l));
    if pointer_bytes_spec(a) == 4 {
        lemma_span_of(l, 4, 1);
        assert(end_of(e.push(l)) == 4);
        assert(end_of(e.push(l).push(l)) == 8);
    } else {
        lemma_span_of(l, 8, 1);
        assert(end_of(e.push(l)) == 8);
        assert(end_of(e.push(l).push(l)) == 16);
    }
}

proof fn lemma_sigevent(a: Arch)
    ensures
        nested_spec(sigevent_spec(a), 1, 1) == (Member {
            size: 64,
            align: pointer_bytes_spec(a) as usize,
            count: 1,
        }),
{
    lemma_align_table();
    let p = pointer_bytes_spec(a);
    let e = Seq::<Member>::empty();
    let v = elem(Scalar::Pointer, a);
    let i = elem(Scalar::Int, a);
    lemma_elems(Scalar::Pointer, a, 1);
    lemma_elems(Scalar::Int, a, 1);
    lemma_span_of(v, p, 1);
    lemma_span_of(i, 4, 1);
    lemma_push(e, v, 1);
    lemma_push(e.push(v), i, 1);
    lemma_push(e.push(v).push(i), i, 1);
    lemma_push(e.push(v).push(i).push(i), i, 1);
    let s4 = e.push(v).push(i).push(i).push(i);
    if p == 8 {
        let r = elems(Scalar::Int, a, 11);
        lemma_elems(Scalar::Int, a, 11);
        lemma_span_of(r, 4, 11);
        lemma_push(s4, r, 1);
        assert(end_of(e.push(v)) == 8);
        assert(end_of(e.push(v).push(i)) == 12);
        assert(end_of(e.push(v).push(i).push(i)) == 16);
        assert(end_of(s4) == 20);
        assert(end_of(s4.push(r)) == 64);
        assert(sigevent_spec(a) == s4.push(r));
    } else {
        let r = elems(Scalar::Int, a, 12);
        lemma_elems(Scalar::Int, a, 12);
        lemma_span_of(r, 4, 12);
        lemma_push(s4, r, 1);
        assert(end_of(e.push(v)) == 4);
        assert(end_of(e.push(v).push(i)) == 8);
        assert(end_of(e.push(v).push(i).push(i)) == 12);
        assert(end_of(s4) == 16);
        assert(end_of(s4.push(r)) == 64);
        assert(sigevent_spec(a) == s4.push(r));
    }
}

proof fn lemma_sockaddr(a: Arch)
    ensures
        nested_spec(sockaddr_spec(a), 1, 3) == (Member { size: 16, align: 2, count: 3 }),
{
    lemma_align_table();
    let e = Seq::<Member>::empty();
    let s = elem(Scalar::Short, a);
    let d = elems(Scalar::Char, a, 14);
    lemma_elems(Scalar::Short, a, 1);
    lemma_elems(Scalar::Char, a, 14);
    lemma_span_of(s, 2, 1);
    lemma_span_of(d, 1, 14);
    lemma_push(e, s, 1);
    assert(end_of(e.push(s)) == 2);
    lemma_push(e.push(s), d, 1);
    assert(end_of(e.push(s).push(d)) == 16);
    assert(sockaddr_spec(a) == e.push(s).push(d));
}

proof fn lemma_exit_status(a: Arch)
    ensures
        nested_spec(exit_status_spec(a), 1, 1) == (Member { size: 4, align: 2, count: 1 }),
{
    lemma_align_table();
    let e = Seq::<Member>::empty();
    let s = elem(Scalar::Short, a);
    lemma_elems(Scalar::Short, a, 1);
    lemma_span_of(s, 2, 1);
    lemma_push(e, s, 1);
    assert(end_of(e.push(s)) == 2);
    lemma_push(e.push(s), s, 1);
    assert(end_of(e.push(s).push(s)) == 4);
    assert(exit_status_spec(a) == e.push(s).push(s));
}

proof fn lemma_fsid(a: Arch)
    ensures
        nested_spec(fsid_spec(a), 1, 1) == (Member { size: 8, align: 4, count: 1 }),
{
    lemma_align_table();
    let e = Seq::<Member>::empty();
    let f = elems(Scalar::Int, a, 2);
    lemma_elems(Scalar::Int, a, 2);
    lemma_span_of(f, 4, 2);
    lemma_push(e, f, 1);
    assert(end_of(e.push(f)) == 8);
    assert(fsid_spec(a) == e.push(f));
}

fn sigevent(a: Arch) -> (m: Member)
    ensures
        m == nested_spec(sigevent_spec(a), 1, 1),
{
    proof {
        lemma_sigevent(a);
    }
    Member { size: 64, align: pointer_bytes(a), count: 1 }
}

fn timeval(a: Arch) -> (m: Member)
    ensures
        m == nested_spec(timeval_spec(a), 1, 1),
{
    proof {
        lemma_timeval(a);
    }
    let p = pointer_bytes(a);
    Member { size: 2 * p, align: p, count: 1 }
}

/// Three `struct sockaddr` in a row.
fn sockaddr3(a: Arch) -> (m: Member)
    ensures
        m == nested_spec(sockaddr_spec(a), 1, 3),
{
    proof {
        lemma_sockaddr(a);
    }
    Member { size: 16, align: 2, count: 3 }
}

fn fsid(a: Arch) -> (m: Member)
    ensures
        m == nested_spec(fsid_spec(a), 1, 1),
{
    proof {
        lemma_fsid(a);
    }
    Member { size: 8, align: 4, count: 1 }
}

fn exit_status(a: Arch) -> (m: Member)
    ensures
        m == nested_spec(exit_status_spec(a), 1, 1),
{
    proof {
        lemma_exit_status(a);
    }
    Member { size: 4, align: 2, count: 1 }
}

/// The records whose layout this layer declares.
#[derive(Clone, Copy, Debug, PartialEq, Eq, Structural)]
pub enum Record {
    SiginfoT,
    Statvfs,
    Statvfs64,
    Termios,
    Flock,
    Flock64,
    RegexT,
    Rtentry,
    ExitStatus,
    Elf64Chdr,
    Elf32Chdr,
    Timex,
    Ntptimeval,
    Statfs,
    Statfs64,
    Sysinfo,
    Utmpx,
    FanotifyEventMetadata,
    TcpInfo,
    Sigaction,
    Aiocb,
}

/// `siginfo_t`: `si_signo`, then `si_errno` and `si_code` (swapped on MIPS,
/// which leaves the layout unchanged), the 29-int payload, and a zero-length
/// `usize` array that gives the record pointer alignment.
pub open spec fn siginfo_spec(a: Arch) -> Seq<Member> {
    seq![
        elem(Scalar::Int, a),
        elem(Scalar::Int, a),
        elem(Scalar::Int, a),
        elems(Scalar::Int, a, 29),
        elems(Scalar::Pointer, a, 0),
    ]
}

/// `statvfs` and `statvfs64`: `f_fsid` comes before the 32-bit padding on
/// little-endian targets and after it on big-endian ones.
pub open spec fn statvfs_spec(t: Target) -> Seq<Member> {
    let a = t.arch;
    let l = elem(Scalar::Long, a);
    let q = elem(Scalar::LongLong, a);
    let pad = if pointer_bytes_spec(a) == 4 {
        seq![elem(Scalar::Int, a)]
    } else {
        Seq::empty()
    };
    let mid = if t.endian == Endian::Little {
        seq![l] + pad
    } else {
        pad + seq![l]
    };
    seq![l, l, q, q, q, q, q, q] + mid + seq![l, l, elems(Scalar::Int, a, 6)]
}

/// `termios` (not on PowerPC, which declares its own).
pub open spec fn termios_spec(a: Arch) -> Seq<Member> {
    let i = elem(Scalar::Int, a);
    seq![i, i, i, i, elem(Scalar::Char, a), elems(Scalar::Char, a, nccs_spec(a)), i, i]
}

/// `flock` and `flock64`.
pub open spec fn flock_spec(a: Arch) -> Seq<Member> {
    let s = elem(Scalar::Short, a);
    let q = elem(Scalar::LongLong, a);
    seq![s, s, q, q, elem(Scalar::Int, a)]
}

/// `regex_t`, whose members are all private.
pub open spec fn regex_spec(a: Arch) -> Seq<Member> {
    seq![
        elem(Scalar::Long, a),
        elem(Scalar::Pointer, a),
        elems(Scalar::Pointer, a, 4),
        elem(Scalar::Long, a),
        elem(Scalar::Char, a),
    ]
}

/// `rtentry`; the three `sockaddr` members are one member of three records.
/// `rt_pad4` has three shorts when pointers are 64-bit, else one.
pub open spec fn rtentry_spec(a: Arch) -> Seq<Member> {
    let l = elem(Scalar::Long, a);
    let s = elem(Scalar::Short, a);
    let c = elem(Scalar::Char, a);
    let pad4: usize = if pointer_bytes_spec(a) == 8 {
        3
    } else {
        1
    };
    seq![
        l,
        nested_spec(sockaddr_spec(a), 1, 3),
        s,
        s,
        l,
        c,
        c,
        elems(Scalar::Short, a, pad4),
        s,
        elem(Scalar::Pointer, a),
        l,
        l,
        s,
    ]
}

/// `Elf64_Chdr`.
pub open spec fn elf64_chdr_spec(a: Arch) -> Seq<Member> {
    let w = elem(Scalar::Int, a);
    let x = elem(Scalar::LongLong, a);
    seq![w, w, x, x]
}

/// `Elf32_Chdr`.
pub open spec fn elf32_chdr_spec(a: Arch) -> Seq<Member> {
    let w = elem(Scalar::Int, a);
    seq![w, w, w]
}

/// `timex`.
pub open spec fn timex_spec(a: Arch) -> Seq<Member> {
    let i = elem(Scalar::Int, a);
    let l = elem(Scalar::Long, a);
    seq![i, l, l, l, l, i, l, l, l, nested_spec(timeval_spec(a), 1, 1), l, l, l, i, l, l, l, l, l, i]
        + seq![elems(Scalar::Int, a, 11)]
}

/// `ntptimeval`.
pub open spec fn ntptimeval_spec(a: Arch) -> Seq<Member> {
    let l = elem(Scalar::Long, a);
    seq![nested_spec(timeval_spec(a), 1, 1), l, l]
}

/// `statfs` and `statfs64` (not on MIPS, which declares its own).
pub open spec fn statfs_spec(a: Arch) -> Seq<Member> {
    let l = elem(Scalar::Long, a);
    let q = elem(Scalar::LongLong, a);
    seq![l, l, q, q, q, q, q, nested_spec(fsid_spec(a), 1, 1), l, l, l, elems(Scalar::Long, a, 4)]
}

/// `sysinfo`.
pub open spec fn sysinfo_spec(a: Arch) -> Seq<Member> {
    let l = elem(Scalar::Long, a);
    let s = elem(Scalar::Short, a);
    seq![
        l,
        elems(Scalar::Long, a, 3),
        l,
        l,
        l,
        l,
        l,
        l,
        s,
        s,
        l,
        l,
        elem(Scalar::Int, a),
        elems(Scalar::Char, a, 256),
    ]
}

/// `utmpx`. Before musl 1.2.3 `ut_session` is a `long`; from 1.2.3 on it is an
/// `int` with an `int` of padding, after it on little-endian targets and
/// before it on big-endian ones.
pub open spec fn utmpx_spec(t: Target) -> Seq<Member> {
    let a = t.arch;
    let i = elem(Scalar::Int, a);
    let s = elem(Scalar::Short, a);
    let session = if !t.musl_v1_2_3 {
        seq![elem(Scalar::Long, a)]
    } else {
        seq![i, i]
    };
    seq![
        s,
        s,
        i,
        elems(Scalar::Char, a, 32),
        elems(Scalar::Char, a, 4),
        elems(Scalar::Char, a, 32),
        elems(Scalar::Char, a, 256),
        nested_spec(exit_status_spec(a), 1, 1),
    ] + session + seq![
        nested_spec(timeval_spec(a), 1, 1),
        elems(Scalar::Int, a, 4),
        elems(Scalar::Char, a, 20),
    ]
}

/// `fanotify_event_metadata`, which is declared with 8-byte alignment.
pub open spec fn fanotify_spec(a: Arch) -> Seq<Member> {
    let c = elem(Scalar::Char, a);
    let i = elem(Scalar::Int, a);
    seq![i, c, c, elem(Scalar::Short, a), elem(Scalar::LongLong, a), i, i]
}

/// `sigaction`: the handler (`sighandler_t`, as wide as `size_t`), the
/// 128-byte signal mask as `unsigned long`s, the flags, and the restorer.
pub open spec fn sigaction_spec(a: Arch) -> Seq<Member> {
    let l = elem(Scalar::Long, a);
    let words: usize = if pointer_bytes_spec(a) == 8 {
        16
    } else {
        32
    };
    seq![l, elems(Scalar::Long, a, words), elem(Scalar::Int, a), elem(Scalar::Pointer, a)]
}

/// `aiocb`; its trailing reserved bytes keep the private tail at 32 bytes
/// beyond the two list pointers.
pub open spec fn aiocb_spec(a: Arch) -> Seq<Member> {
    let i = elem(Scalar::Int, a);
    let ptr = elem(Scalar::Pointer, a);
    let l = elem(Scalar::Long, a);
    let dummy: usize = if pointer_bytes_spec(a) == 4 {
        24
    } else {
        16
    };
    seq![
        i,
        i,
        i,
        ptr,
        l,
        nested_spec(sigevent_spec(a), 1, 1),
        ptr,
        elems(Scalar::Int, a, 2),
        i,
        l,
        elem(Scalar::LongLong, a),
        ptr,
        ptr,
        elems(Scalar::Char, a, dummy),
    ]
}

/// `k` copies of member `m`.
pub open spec fn rep(m: Member, k: nat) -> Seq<Member> {
    Seq::new(k, |i: int| m)
}

/// `tcp_info`: eight bytes (two of which pack bit-fields), then runs of
/// `u32` and `u64` counters.
pub open spec fn tcp_info_spec(a: Arch) -> Seq<Member> {
    let b = elem(Scalar::Char, a);
    let w = elem(Scalar::Int, a);
    let x = elem(Scalar::LongLong, a);
    rep(b, 8) + rep(w, 24) + rep(x, 4) + rep(w, 6) + rep(x, 4) + rep(w, 2) + rep(x, 2) + rep(w, 4)
}

/// The members of a record on a target; `None` where the architecture's own
/// module declares the record instead (termios on PowerPC, statfs on MIPS).
pub open spec fn members_spec(r: Record, t: Target) -> Option<Seq<Member>> {
    let a = t.arch;
    match r {
        Record::SiginfoT => Some(siginfo_spec(a)),
        Record::Statvfs | Record::Statvfs64 => Some(statvfs_spec(t)),
        Record::Termios => if a == Arch::Powerpc || a == Arch::Powerpc64 {
            None
        } else {
            Some(termios_spec(a))
        },
        Record::Flock | Record::Flock64 => Some(flock_spec(a)),
        Record::RegexT => Some(regex_spec(a)),
        Record::Rtentry => Some(rtentry_spec(a)),
        Record::ExitStatus => Some(exit_status_spec(a)),
        Record::Elf64Chdr => Some(elf64_chdr_spec(a)),
        Record::Elf32Chdr => Some(elf32_chdr_spec(a)),
        Record::Timex => Some(timex_spec(a)),
        Record::Ntptimeval => Some(ntptimeval_spec(a)),
        Record::Statfs | Record::Statfs64 => if a == Arch::Mips || a == Arch::Mips64 {
            None
        } else {
            Some(statfs_spec(a))
        },
        Record::Sysinfo => Some(sysinfo_spec(a)),
        Record::Utmpx => Some(utmpx_spec(t)),
        Record::FanotifyEventMetadata => Some(fanotify_spec(a)),
        Record::TcpInfo => Some(tcp_info_spec(a)),
        Record::Sigaction => Some(sigaction_spec(a)),
        Record::Aiocb => Some(aiocb_spec(a)),
    }
}

/// The alignment that a record's declaration demands of itself.
pub open spec fn min_align_spec(r: Record) -> nat {
    if r == Record::FanotifyEventMetadata {
        8
    } else {
        1
    }
}

fn siginfo_members(a: Arch) -> (v: Vec<Member>)
    ensures
        v@ == siginfo_spec(a),
{
    let i = scalar(Scalar::Int, a);
    let v = vec![i, i, i, array(Scalar::Int, a, 29), array(Scalar::Pointer, a, 0)];
    assert(v@ =~= siginfo_spec(a));
    v
}

fn statvfs_members(t: Target) -> (v: Vec<Member>)
    ensures
        v@ == statvfs_spec(t),
{
    let a = t.arch;
    let l = scalar(Scalar::Long, a);
    let q = scalar(Scalar::LongLong, a);
    let mut v = vec![l, l, q, q, q, q, q, q];
    let narrow = pointer_bytes(a) == 4;
    if t.endian == Endian::Little {
        v.push(l);
    }
    if narrow {
        v.push(scalar(Scalar::Int, a));
    }
    if t.endian == Endian::Big {
        v.push(l);
    }
    v.push(l);
    v.push(l);
    v.push(array(Scalar::Int, a, 6));
    assert(v@ =~= statvfs_spec(t));
    v
}

fn termios_members(a: Arch) -> (v: Vec<Member>)
    ensures
        v@ == termios_spec(a),
{
    let i = scalar(Scalar::Int, a);
    let v = vec![i, i, i, i, scalar(Scalar::Char, a), array(Scalar::Char, a, nccs(a)), i, i];
    assert(v@ =~= termios_spec(a));
    v
}

fn flock_members(a: Arch) -> (v: Vec<Member>)
    ensures
        v@ == flock_spec(a),
{
    let s = scalar(Scalar::Short, a);
    let q = scalar(Scalar::LongLong, a);
    let v = vec![s, s, q, q, scalar(Scalar::Int, a)];
    assert(v@ =~= flock_spec(a));
    v
}

fn regex_members(a: Arch) -> (v: Vec<Member>)
    ensures
        v@ == regex_spec(a),
{
    let v = vec![
        scalar(Scalar::Long, a),
        scalar(Scalar::Pointer, a),
        array(Scalar::Pointer, a, 4),
        scalar(Scalar::Long, a),
        scalar(Scalar::Char, a),
    ];
    assert(v@ =~= regex_spec(a));
    v
}

fn rtentry_members(a: Arch) -> (v: Vec<Member>)
    ensures
        v@ == rtentry_spec(a),
{
    let l = scalar(Scalar::Long, a);
    let s = scalar(Scalar::Short, a);
    let c = scalar(Scalar::Char, a);
    let pad4: usize = if pointer_bytes(a) == 8 {
        3
    } else {
        1
    };
    let v = vec![
        l,
        sockaddr3(a),
        s,
        s,
        l,
        c,
        c,
        array(Scalar::Short, a, pad4),
        s,
        scalar(Scalar::Pointer, a),
        l,
        l,
        s,
    ];
    assert(v@ =~= rtentry_spec(a));
    v
}

fn elf64_chdr_members(a: Arch) -> (v: Vec<Member>)
    ensures
        v@ == elf64_chdr_spec(a),
{
    let w = scalar(Scalar::Int, a);
    let x = scalar(Scalar::LongLong, a);
    let v = vec![w, w, x, x];
    assert(v@ =~= elf64_chdr_spec(a));
    v
}

fn elf32_chdr_members(a: Arch) -> (v: Vec<Member>)
    ensures
        v@ == elf32_chdr_spec(a),
{
    let w = scalar(Scalar::Int, a);
    let v = vec![w, w, w];
    assert(v@ =~= elf32_chdr_spec(a));
    v
}

fn exit_status_members(a: Arch) -> (v: Vec<Member>)
    ensures
        v@ == exit_status_spec(a),
{
    let s = scalar(Scalar::Short, a);
    let v = vec![s, s];
    assert(v@ =~= exit_status_spec(a));
    v
}

fn timex_members(a: Arch) -> (v: Vec<Member>)
    ensures
        v@ == timex_spec(a),
{
    let i = scalar(Scalar::Int, a);
    let l = scalar(Scalar::Long, a);
    let tv = timeval(a);
    let v = vec![
        i, l, l, l, l, i, l, l, l, tv, l, l, l, i, l, l, l, l, l, i,
        array(Scalar::Int, a, 11),
    ];
    assert(v@ =~= timex_spec(a));
    v
}

fn ntptimeval_members(a: Arch) -> (v: Vec<Member>)
    ensures
        v@ == ntptimeval_spec(a),
{
    let l = scalar(Scalar::Long, a);
    let v = vec![timeval(a), l, l];
    assert(v@ =~= ntptimeval_spec(a));
    v
}

fn statfs_members(a: Arch) -> (v: Vec<Member>)
    ensures
        v@ == statfs_spec(a),
{
    let l = scalar(Scalar::Long, a);
    let q = scalar(Scalar::LongLong, a);
    let v = vec![l, l, q, q, q, q, q, fsid(a), l, l, l, array(Scalar::Long, a, 4)];
    assert(v@ =~= statfs_spec(a));
    v
}

fn sysinfo_members(a: Arch) -> (v: Vec<Member>)
    ensures
        v@ == sysinfo_spec(a),
{
    let l = scalar(Scalar::Long, a);
    let s = scalar(Scalar::Short, a);
    let v = vec![
        l,
        array(Scalar::Long, a, 3),
        l,
        l,
        l,
        l,
        l,
        l,
        s,
        s,
        l,
        l,
        scalar(Scalar::Int, a),
        array(Scalar::Char, a, 256),
    ];
    assert(v@ =~= sysinfo_spec(a));
    v
}

fn utmpx_members(t: Target) -> (v: Vec<Member>)
    ensures
        v@ == utmpx_spec(t),
{
    let a = t.arch;
    let i = scalar(Scalar::Int, a);
    let s = scalar(Scalar::Short, a);
    let mut v = vec![
        s,
        s,
        i,
        array(Scalar::Char, a, 32),
        array(Scalar::Char, a, 4),
        array(Scalar::Char, a, 32),
        array(Scalar::Char, a, 256),
        exit_status(a),
    ];
    if t.musl_v1_2_3 {
        v.push(i);
        v.push(i);
    } else {
        v.push(scalar(Scalar::Long, a));
    }
    v.push(timeval(a));
    v.push(array(Scalar::Int, a, 4));
    v.push(array(Scalar::Char, a, 20));
    assert(v@ =~= utmpx_spec(t));
    v
}

fn fanotify_members(a: Arch) -> (v: Vec<Member>)
    ensures
        v@ == fanotify_spec(a),
{
    let c = scalar(Scalar::Char, a);
    let i = scalar(Scalar::Int, a);
    let v = vec![i, c, c, scalar(Scalar::Short, a), scalar(Scalar::LongLong, a), i, i];
    assert(v@ =~= fanotify_spec(a));
    v
}

/// Appends `k` copies of `m`.
fn push_rep(v: &mut Vec<Member>, m: Member, k: usize)
    ensures
        final(v)@ == old(v)@ + rep(m, k as nat),
{
    let ghost start = v@;
    let mut i: usize = 0;
    while i < k
        invariant
            i <= k,
            v@ == start + rep(m, i as nat),
        decreases k - i,
    {
        v.push(m);
        i = i + 1;
        assert(v@ =~= start + rep(m, i as nat));
    }
}

fn tcp_info_members(a: Arch) -> (v: Vec<Member>)
    ensures
        v@ == tcp_info_spec(a),
{
    let b = scalar(Scalar::Char, a);
    let w = scalar(Scalar::Int, a);
    let x = scalar(Scalar::LongLong, a);
    let mut v: Vec<Member> = Vec::new();
    push_rep(&mut v, b, 8);
    push_rep(&mut v, w, 24);
    push_rep(&mut v, x, 4);
    push_rep(&mut v, w, 6);
    push_rep(&mut v, x, 4);
    push_rep(&mut v, w, 2);
    push_rep(&mut v, x, 2);
    push_rep(&mut v, w, 4);
    assert(v@ =~= tcp_info_spec(a));
    v
}

/// Every member of `ms` is modest.
pub open spec fn all_modest(ms: Seq<Member>) -> bool {
    forall|i: int| 0 <= i < ms.len() ==> #[trigger] modest(ms[i])
}

proof fn lemma_scalars_modest(a: Arch)
    ensures
        forall|k: Scalar, n: usize| n <= 256 ==> #[trigger] modest(elems(k, a, n)),
{
    assert forall|k: Scalar, n: usize| n <= 256 implies #[trigger] modest(elems(k, a, n)) by {
        lemma_elems(k, a, n);
    }
}

proof fn lemma_concat_modest(x: Seq<Member>, y: Seq<Member>)
    requires
        all_modest(x),
        all_modest(y),
    ensures
        all_modest(x + y),
{
    assert forall|i: int| 0 <= i < (x + y).len() implies #[trigger] modest((x + y)[i]) by {
        if i < x.len() {
            assert(modest(x[i]));
        } else {
            assert(modest(y[i - x.len()]));
        }
    }
}

/// Every record that this layer declares has modest members, at most 4096 of them.
proof fn lemma_declared_modest(r: Record, t: Target)
    ensures
        members_spec(r, t) matches Some(ms) ==> all_modest(ms) && ms.len() <= 4096,
{
    let a = t.arch;
    lemma_scalars_modest(a);
    lemma_timeval(a);
    lemma_sockaddr(a);
    lemma_fsid(a);
    lemma_exit_status(a);
    lemma_sigevent(a);
    match r {
        Record::SiginfoT => {
            assert(all_modest(siginfo_spec(a)));
        },
        Record::Statvfs | Record::Statvfs64 => {
            let l = elem(Scalar::Long, a);
            let q = elem(Scalar::LongLong, a);
            let head = seq![l, l, q, q, q, q, q, q];
            let pad = if pointer_bytes_spec(a) == 4 {
                seq![elem(Scalar::Int, a)]
            } else {
                Seq::empty()
            };
            let mid = if t.endian == Endian::Little {
                seq![l] + pad
            } else {
                pad + seq![l]
            };
            let tail = seq![l, l, elems(Scalar::Int, a, 6)];
            assert(all_modest(head));
            assert(all_modest(pad));
            assert(all_modest(seq![l]));
            assert(all_modest(tail));
            lemma_concat_modest(seq![l], pad);
            lemma_concat_modest(pad, seq![l]);
            lemma_concat_modest(head, mid);
            lemma_concat_modest(head + mid, tail);
        },
        Record::Termios => {
            assert(all_modest(termios_spec(a)));
        },
        Record::Flock | Record::Flock64 => {
            assert(all_modest(flock_spec(a)));
        },
        Record::RegexT => {
            assert(all_modest(regex_spec(a)));
        },
        Record::Rtentry => {
            assert(all_modest(rtentry_spec(a)));
        },
        Record::ExitStatus => {
            assert(all_modest(exit_status_spec(a)));
        },
        Record::Elf64Chdr => {
            assert(all_modest(elf64_chdr_spec(a)));
        },
        Record::Elf32Chdr => {
            assert(all_modest(elf32_chdr_spec(a)));
        },
        Record::Timex => {
            let i = elem(Scalar::Int, a);
            let l = elem(Scalar::Long, a);
            let tv = nested_spec(timeval_spec(a), 1, 1);
            let x = seq![i, l, l, l, l, i, l, l, l, tv, l, l, l, i, l, l, l, l, l, i];
            assert(all_modest(x));
            assert(all_modest(seq![elems(Scalar::Int, a, 11)]));
            lemma_concat_modest(x, seq![elems(Scalar::Int, a, 11)]);
        },
        Record::Ntptimeval => {
            assert(all_modest(ntptimeval_spec(a)));
        },
        Record::Statfs | Record::Statfs64 => {
            assert(all_modest(statfs_spec(a)));
        },
        Record::Sysinfo => {
            assert(all_modest(sysinfo_spec(a)));
        },
        Record::Utmpx => {
            let i = elem(Scalar::Int, a);
            let s = elem(Scalar::Short, a);
            let session = if !t.musl_v1_2_3 {
                seq![elem(Scalar::Long, a)]
            } else {
                seq![i, i]
            };
            let head = seq![
                s,
                s,
                i,
                elems(Scalar::Char, a, 32),
                elems(Scalar::Char, a, 4),
                elems(Scalar::Char, a, 32),
                elems(Scalar::Char, a, 256),
                nested_spec(exit_status_spec(a), 1, 1),
            ];
            let tail = seq![
                nested_spec(timeval_spec(a), 1, 1),
                elems(Scalar::Int, a, 4),
                elems(Scalar::Char, a, 20),
            ];
            assert(all_modest(head));
            assert(all_modest(session));
            assert(all_modest(tail));
            lemma_concat_modest(head, session);
            lemma_concat_modest(head + session, tail);
        },
        Record::FanotifyEventMetadata => {
            assert(all_modest(fanotify_spec(a)));
        },
        Record::Sigaction => {
            assert(all_modest(sigaction_spec(a)));
        },
        Record::Aiocb => {
            assert(all_modest(aiocb_spec(a)));
        },
        Record::TcpInfo => {
            let b = elem(Scalar::Char, a);
            let w = elem(Scalar::Int, a);
            let x = elem(Scalar::LongLong, a);
            assert(all_modest(rep(b, 8)));
            assert(all_modest(rep(w, 24)));
            assert(all_modest(rep(x, 4)));
            assert(all_modest(rep(w, 6)));
            assert(all_modest(rep(w, 2)));
            assert(all_modest(rep(x, 2)));
            assert(all_modest(rep(w, 4)));
            lemma_concat_modest(rep(b, 8), rep(w, 24));
            lemma_concat_modest(rep(b, 8) + rep(w, 24), rep(x, 4));
            lemma_concat_modest(rep(b, 8) + rep(w, 24) + rep(x, 4), rep(w, 6));
            lemma_concat_modest(rep(b, 8) + rep(w, 24) + rep(x, 4) + rep(w, 6), rep(x, 4));
            lemma_concat_modest(rep(b, 8) + rep(w, 24) + rep(x, 4) + rep(w, 6) + rep(x, 4), rep(w, 2));
            lemma_concat_modest(
                rep(b, 8) + rep(w, 24) + rep(x, 4) + rep(w, 6) + rep(x, 4) + rep(w, 2),
                rep(x, 2),
            );
            lemma_concat_modest(
                rep(b, 8) + rep(w, 24) + rep(x, 4) + rep(w, 6) + rep(x, 4) + rep(w, 2) + rep(x, 2),
                rep(w, 4),
            );
        },
    }
}

fn sigaction_members(a: Arch) -> (v: Vec<Member>)
    ensures
        v@ == sigaction_spec(a),
{
    let l = scalar(Scalar::Long, a);
    let words: usize = if pointer_bytes(a) == 8 {
        16
    } else {
        32
    };
    let v = vec![l, array(Scalar::Long, a, words), scalar(Scalar::Int, a), scalar(Scalar::Pointer, a)];
    assert(v@ =~= sigaction_spec(a));
    v
}

fn aiocb_members(a: Arch) -> (v: Vec<Member>)
    ensures
        v@ == aiocb_spec(a),
{
    let i = scalar(Scalar::Int, a);
    let ptr = scalar(Scalar::Pointer, a);
    let l = scalar(Scalar::Long, a);
    let dummy: usize = if pointer_bytes(a) == 4 {
        24
    } else {
        16
    };
    let v = vec![
        i,
        i,
        i,
        ptr,
        l,
        sigevent(a),
        ptr,
        array(Scalar::Int, a, 2),
        i,
        l,
        scalar(Scalar::LongLong, a),
        ptr,
        ptr,
        array(Scalar::Char, a, dummy),
    ];
    assert(v@ =~= aiocb_spec(a));
    v
}

/// The members of a record on a target, in declaration order; `None` where
/// the architecture's own module declares the record instead.
pub fn members(r: Record, t: Target) -> (v: Option<Vec<Member>>)
    ensures
        v.is_some() == members_spec(r, t).is_some(),
        v matches Some(ms) ==> members_spec(r, t) == Some(ms@),
{
    let a = t.arch;
    match r {
        Record::SiginfoT => Some(siginfo_members(a)),
        Record::Statvfs | Record::Statvfs64 => Some(statvfs_members(t)),
        Record::Termios => match a {
            Arch::Powerpc | Arch::Powerpc64 => None,
            _ => Some(termios_members(a)),
        },
        Record::Flock | Record::Flock64 => Some(flock_members(a)),
        Record::RegexT => Some(regex_members(a)),
        Record::Rtentry => Some(rtentry_members(a)),
        Record::ExitStatus => Some(exit_status_members(a)),
        Record::Elf64Chdr => Some(elf64_chdr_members(a)),
        Record::Elf32Chdr => Some(elf32_chdr_members(a)),
        Record::Timex => Some(timex_members(a)),
        Record::Ntptimeval => Some(ntptimeval_members(a)),
        Record::Statfs | Record::Statfs64 => match a {
            Arch::Mips | Arch::Mips64 => None,
            _ => Some(statfs_members(a)),
        },
        Record::Sysinfo => Some(sysinfo_members(a)),
        Record::Utmpx => Some(utmpx_members(t)),
        Record::FanotifyEventMetadata => Some(fanotify_members(a)),
        Record::TcpInfo => Some(tcp_info_members(a)),
        Record::Sigaction => Some(sigaction_members(a)),
        Record::Aiocb => Some(aiocb_members(a)),
    }
}

/// The alignment that a record's declaration demands of itself.
pub fn min_align(r: Record) -> (n: usize)
    ensures
        n == min_align_spec(r),
{
    match r {
        Record::FanotifyEventMetadata => 8,
        _ => 1,
    }
}

/// The layout of a record on a target: `Some` exactly when this layer
/// declares the record for the target's architecture, and then the C layout
/// of its members.
pub fn record_layout(r: Record, t: Target) -> (l: Option<Layout>)
    ensures
        l.is_some() <==> members_spec(r, t).is_some(),
        l matches Some(x) ==> (members_spec(r, t) matches Some(ms) && is_layout_of(x, ms, min_align_spec(r))),
{
    proof {
        lemma_declared_modest(r, t);
        if let Some(ms) = members_spec(r, t) {
            lemma_modest_representable(ms, min_align_spec(r));
        }
    }
    match members(r, t) {
        Some(ms) => compute_layout(&ms, min_align(r)),
        None => None,
    }
}

/// Every record that this layer declares can be laid out on every target, and
/// its layout is sound: each member starts at a multiple of its alignment,
/// members keep their order without overlapping, and all of them lie within
/// the record.
pub proof fn lemma_declared_records_sound(r: Record, t: Target, i: int, j: int)
    requires
        members_spec(r, t) is Some,
        0 <= i < j < members_spec(r, t)->Some_0.len(),
    ensures
        ({
            let ms = members_spec(r, t)->Some_0;
            let min = min_align_spec(r);
            &&& representable(ms, min)
            &&& offset_of(ms, i) % (ms[i].align as nat) == 0
            &&& offset_of(ms, i) + span(ms[i]) <= offset_of(ms, j)
            &&& offset_of(ms, j) + span(ms[j]) <= record_size(ms, min)
        }),
{
    let ms = members_spec(r, t)->Some_0;
    lemma_declared_modest(r, t);
    lemma_modest_representable(ms, min_align_spec(r));
    lemma_layout_sound(ms, min_align_spec(r), i, j);
}

} // verus!
