//! `siginfo_t` as the bytes that the C library fills in, and the projections
//! that read its union-backed payload. Each projection reads the bytes that a
//! C program would read through the corresponding union member: the offset is
//! the one the record layout rules give to that member in a view of the
//! record as the C header declares it.
use vstd::prelude::*;
use vstd::arithmetic::div_mod::lemma_mod_multiples_basic;
use crate::bytes::{read_i32, read_int, read_u32, read_uint, signed, uint_at};
use crate::ctypes::{Scalar, elem, elems, lemma_elems, nested_spec};
use crate::layout::{Member, align_up, end_of, lemma_align_table, lemma_push, lemma_span_of, max_align, offset_of, record_size, span};
use crate::records::siginfo_spec;
use crate::target::{Arch, Endian, Target, pointer_bytes, pointer_bytes_spec};

verus! {

/// Size in bytes of `siginfo_t` on every target.
pub const SIGINFO_SIZE: usize = 128;

/// `k` consecutive `int` members.
pub open spec fn ints(a: Arch, k: nat) -> Seq<Member> {
    Seq::new(k, |i: int| elem(Scalar::Int, a))
}

/// A union of two members: as large as the larger, rounded up to the stricter
/// alignment.
pub open spec fn union_spec(x: Member, y: Member) -> Member {
    let al: usize = if x.align >= y.align {
        x.align
    } else {
        y.align
    };
    let sz: nat = if span(x) >= span(y) {
        span(x)
    } else {
        span(y)
    };
    Member { size: align_up(sz, al as nat) as usize, align: al, count: 1 }
}

/// The fault view: three `int`s, then `void *si_addr`.
pub open spec fn sigfault_view(a: Arch) -> Seq<Member> {
    ints(a, 3).push(elem(Scalar::Pointer, a))
}

/// `union sigval { int sival_int; void *sival_ptr; }`
pub open spec fn sigval_spec(a: Arch) -> Member {
    union_spec(elem(Scalar::Int, a), elem(Scalar::Pointer, a))
}

/// The timer/queue view: five `int`s (signo, errno, code, timer id,
/// overrun), then `union sigval si_value`.
pub open spec fn sival_view(a: Arch) -> Seq<Member> {
    ints(a, 5).push(sigval_spec(a))
}

/// The child-status payload: `pid_t si_pid; uid_t si_uid; int si_status;
/// clock_t si_utime; clock_t si_stime;`
pub open spec fn sigchld_view(a: Arch) -> Seq<Member> {
    ints(a, 3).push(elem(Scalar::Long, a)).push(elem(Scalar::Long, a))
}

/// The payload union: it holds a pointer-aligned member and the child-status
/// payload, so its alignment is that of a pointer on every target.
pub open spec fn sifields_spec(a: Arch) -> Member {
    union_spec(elem(Scalar::Pointer, a), nested_spec(sigchld_view(a), 1, 1))
}

/// The record seen as three `int`s followed by the payload union.
pub open spec fn siginfo_f_view(a: Arch) -> Seq<Member> {
    seq![elems(Scalar::Int, a, 3), sifields_spec(a)]
}

/// Offset in `siginfo_t` of member `k` of the child-status payload.
pub open spec fn sigchld_offset_spec(a: Arch, k: int) -> nat {
    offset_of(siginfo_f_view(a), 1) + offset_of(sigchld_view(a), k)
}

/// Index in `siginfo_t` of `si_errno`: MIPS swaps it with `si_code`.
pub open spec fn errno_index(a: Arch) -> int {
    if a == Arch::Mips || a == Arch::Mips64 {
        2
    } else {
        1
    }
}

/// Index in `siginfo_t` of `si_code`.
pub open spec fn code_index(a: Arch) -> int {
    if a == Arch::Mips || a == Arch::Mips64 {
        1
    } else {
        2
    }
}

proof fn lemma_ints(a: Arch, k: nat)
    ensures
        end_of(ints(a, k)) == 4 * k,
        k > 0 ==> max_align(ints(a, k), 1) == 4,
        forall|j: int| 0 <= j <= k ==> #[trigger] ints(a, k).take(j) == ints(a, j as nat),
    decreases k,
{
    lemma_elems(Scalar::Int, a, 1);
    let i = elem(Scalar::Int, a);
    lemma_span_of(i, 4, 1);
    assert forall|j: int| 0 <= j <= k implies #[trigger] ints(a, k).take(j) == ints(a, j as nat) by {
        assert(ints(a, k).take(j) =~= ints(a, j as nat));
    }
    if k > 0 {
        let p = ints(a, (k - 1) as nat);
        lemma_ints(a, (k - 1) as nat);
        assert(ints(a, k) =~= p.push(i));
        lemma_push(p, i, 1);
        lemma_mod_multiples_basic((k - 1) as int, 4);
        assert(align_up(4 * (k - 1) as nat, 4) == 4 * (k - 1));
    } else {
        lemma_push(Seq::empty(), i, 1);
        assert(ints(a, 0) =~= Seq::<Member>::empty());
    }
}

/// The record is 128 bytes on every target, pointer-aligned, and its first
/// four `int`s sit at offsets 0, 4, 8, 12.
pub proof fn lemma_siginfo_layout(a: Arch)
    ensures
        record_size(siginfo_spec(a), 1) == SIGINFO_SIZE,
        max_align(siginfo_spec(a), 1) == pointer_bytes_spec(a),
        forall|k: int| 0 <= k < 4 ==> #[trigger] offset_of(siginfo_spec(a), k) == 4 * k,
{
    lemma_align_table();
    let p = pointer_bytes_spec(a);
    let i = elem(Scalar::Int, a);
    let pad = elems(Scalar::Int, a, 29);
    let z = elems(Scalar::Pointer, a, 0);
    lemma_elems(Scalar::Int, a, 1);
    lemma_elems(Scalar::Int, a, 29);
    lemma_elems(Scalar::Pointer, a, 0);
    lemma_span_of(i, 4, 1);
    lemma_span_of(pad, 4, 29);
    lemma_span_of(z, p, 0);
    lemma_ints(a, 3);
    let s3 = ints(a, 3);
    lemma_push(s3, pad, 1);
    assert(end_of(s3.push(pad)) == 128);
    lemma_push(s3.push(pad), z, 1);
    assert(siginfo_spec(a) =~= s3.push(pad).push(z));
    if p == 4 {
        assert(end_of(s3.push(pad).push(z)) == 128);
    } else {
        assert(end_of(s3.push(pad).push(z)) == 128);
    }
    assert forall|k: int| 0 <= k < 4 implies #[trigger] offset_of(siginfo_spec(a), k) == 4 * k by {
        let t = siginfo_spec(a).take(k);
        assert(t =~= ints(a, k as nat));
        lemma_ints(a, k as nat);
        lemma_mod_multiples_basic(k, 4);
    }
}

/// Offsets of the union-backed members: the fault address, the signal value,
/// and the child-status payload, which begins where the payload union does.
pub proof fn lemma_payload_offsets(a: Arch)
    ensures
        offset_of(sigfault_view(a), 3) == (if pointer_bytes_spec(a) == 8 { 16nat } else { 12nat }),
        offset_of(sival_view(a), 5) == (if pointer_bytes_spec(a) == 8 { 24nat } else { 20nat }),
        sigval_spec(a).size == pointer_bytes_spec(a),
        offset_of(siginfo_f_view(a), 1) == (if pointer_bytes_spec(a) == 8 { 16nat } else { 12nat }),
        offset_of(sigchld_view(a), 0) == 0,
        offset_of(sigchld_view(a), 1) == 4,
        offset_of(sigchld_view(a), 2) == 8,
        offset_of(sigchld_view(a), 3) == (if pointer_bytes_spec(a) == 8 { 16nat } else { 12nat }),
        offset_of(sigchld_view(a), 4) == (if pointer_bytes_spec(a) == 8 { 24nat } else { 16nat }),
        offset_of(sigchld_view(a), 4) + pointer_bytes_spec(a) <= 32,
{
    lemma_align_table();
    let p = pointer_bytes_spec(a);
    let i = elem(Scalar::Int, a);
    let ptr = elem(Scalar::Pointer, a);
    let l = elem(Scalar::Long, a);
    lemma_elems(Scalar::Int, a, 1);
    lemma_elems(Scalar::Int, a, 3);
    lemma_elems(Scalar::Pointer, a, 1);
    lemma_elems(Scalar::Long, a, 1);
    lemma_span_of(i, 4, 1);
    lemma_span_of(ptr, p, 1);
    lemma_span_of(l, p, 1);
    lemma_ints(a, 3);
    lemma_ints(a, 5);
    let s3 = ints(a, 3);
    lemma_push(s3, ptr, 1);
    lemma_push(ints(a, 5), sigval_spec(a), 1);
    lemma_push(s3, l, 1);
    lemma_push(s3.push(l), l, 1);
    let c = sigchld_view(a);
    assert(c.take(3) =~= s3);
    assert(c.take(4) =~= s3.push(l));
    assert forall|k: int| 0 <= k < 3 implies #[trigger] c.take(k) == ints(a, k as nat) by {
        assert(c.take(k) =~= ints(a, k as nat));
    }
    lemma_ints(a, 0);
    lemma_ints(a, 1);
    lemma_ints(a, 2);
    let f = siginfo_f_view(a);
    let e = Seq::<Member>::empty();
    let i3 = elems(Scalar::Int, a, 3);
    lemma_span_of(i3, 4, 3);
    lemma_push(e, i3, 1);
    assert(f.take(1) =~= e.push(i3));
    assert(max_align(s3, 1) == 4);
    if p == 8 {
        assert(end_of(s3.push(l)) == 24);
        assert(end_of(s3.push(l).push(l)) == 32);
        assert(max_align(c, 1) == 8);
        assert(sifields_spec(a).align == 8);
        assert(sigval_spec(a).size == 8);
    } else {
        assert(end_of(s3.push(l)) == 16);
        assert(end_of(s3.push(l).push(l)) == 20);
        assert(max_align(c, 1) == 4);
        assert(sifields_spec(a).align == 4);
        assert(sigval_spec(a).size == 4);
    }
}

/// The signal information that the C library fills in, as its raw bytes,
/// with the target whose layout and byte order they follow.
#[allow(non_camel_case_types)]
#[derive(Clone, Debug)]
pub struct siginfo_t {
    pub bytes: Vec<u8>,
    pub target: Target,
}

/// The `int` at `off` of `b`, in byte order `e`.
pub open spec fn int_at(b: Seq<u8>, off: int, e: Endian) -> int {
    signed(uint_at(b, off, 4, e), 4)
}

impl siginfo_t {
    /// The record holds exactly the bytes of one `siginfo_t`.
    pub open spec fn wf(&self) -> bool {
        self.bytes@.len() == SIGINFO_SIZE
    }

    /// Wraps the bytes of one `siginfo_t`; `None` when there are not exactly
    /// that many.
    pub fn from_bytes(bytes: Vec<u8>, target: Target) -> (r: Option<siginfo_t>)
        ensures
            r.is_some() <==> bytes@.len() == SIGINFO_SIZE,
            r matches Some(s) ==> s.bytes@ == bytes@ && s.target == target,
    {
        if bytes.len() == SIGINFO_SIZE {
            Some(siginfo_t { bytes, target })
        } else {
            None
        }
    }

    /// Offset of member `k` of the child-status payload.
    fn sigchld_offset(&self, k: usize) -> (off: usize)
        requires
            k < 5,
        ensures
            off == sigchld_offset_spec(self.target.arch, k as int),
            off + pointer_bytes_spec(self.target.arch) <= 48,
    {
        proof {
            lemma_payload_offsets(self.target.arch);
        }
        let p = pointer_bytes(self.target.arch);
        let base: usize = if p == 8 {
            16
        } else {
            12
        };
        if k < 3 {
            base + 4 * k
        } else if k == 3 {
            base + base
        } else {
            base + base + p
        }
    }

    /// `si_signo`, the signal number.
    pub fn si_signo(&self) -> (r: i32)
        requires
            self.wf(),
        ensures
            r == int_at(self.bytes@, offset_of(siginfo_spec(self.target.arch), 0) as int, self.target.endian),
    {
        proof {
            lemma_siginfo_layout(self.target.arch);
        }
        read_i32(&self.bytes, 0, self.target.endian)
    }

    /// `si_errno`, which MIPS places after `si_code`.
    pub fn si_errno(&self) -> (r: i32)
        requires
            self.wf(),
        ensures
            r == int_at(
                self.bytes@,
                offset_of(siginfo_spec(self.target.arch), errno_index(self.target.arch)) as int,
                self.target.endian,
            ),
    {
        proof {
            lemma_siginfo_layout(self.target.arch);
        }
        let off: usize = match self.target.arch {
            Arch::Mips | Arch::Mips64 => 8,
            _ => 4,
        };
        read_i32(&self.bytes, off, self.target.endian)
    }

    /// `si_code`, which says which payload the signal carries.
    pub fn si_code(&self) -> (r: i32)
        requires
            self.wf(),
        ensures
            r == int_at(
                self.bytes@,
                offset_of(siginfo_spec(self.target.arch), code_index(self.target.arch)) as int,
                self.target.endian,
            ),
    {
        proof {
            lemma_siginfo_layout(self.target.arch);
        }
        let off: usize = match self.target.arch {
            Arch::Mips | Arch::Mips64 => 4,
            _ => 8,
        };
        read_i32(&self.bytes, off, self.target.endian)
    }

    /// `si_addr`, the faulting address, read as an unsigned integer as wide
    /// as a pointer. Meaningful only for signals that carry a fault address;
    /// the caller knows which from `si_signo` and `si_code`.
    pub fn si_addr(&self) -> (r: u64)
        requires
            self.wf(),
        ensures
            r == uint_at(
                self.bytes@,
                offset_of(sigfault_view(self.target.arch), 3) as int,
                pointer_bytes_spec(self.target.arch),
                self.target.endian,
            ),
    {
        proof {
            lemma_payload_offsets(self.target.arch);
        }
        let p = pointer_bytes(self.target.arch);
        let off: usize = if p == 8 {
            16
        } else {
            12
        };
        read_uint(&self.bytes, off, p, self.target.endian)
    }

    /// `si_value`, the value sent with a queued signal or a timer, read as
    /// the bytes of `union sigval` (as wide as a pointer).
    pub fn si_value(&self) -> (r: u64)
        requires
            self.wf(),
        ensures
            r == uint_at(
                self.bytes@,
                offset_of(sival_view(self.target.arch), 5) as int,
                sigval_spec(self.target.arch).size as nat,
                self.target.endian,
            ),
    {
        proof {
            lemma_payload_offsets(self.target.arch);
        }
        let p = pointer_bytes(self.target.arch);
        let off: usize = if p == 8 {
            24
        } else {
            20
        };
        read_uint(&self.bytes, off, p, self.target.endian)
    }

    /// `si_pid` of the child-status payload.
    pub fn si_pid(&self) -> (r: i32)
        requires
            self.wf(),
        ensures
            r == int_at(self.bytes@, sigchld_offset_spec(self.target.arch, 0) as int, self.target.endian),
    {
        let off = self.sigchld_offset(0);
        read_i32(&self.bytes, off, self.target.endian)
    }

    /// `si_uid` of the child-status payload.
    pub fn si_uid(&self) -> (r: u32)
        requires
            self.wf(),
        ensures
            r == uint_at(self.bytes@, sigchld_offset_spec(self.target.arch, 1) as int, 4, self.target.endian),
    {
        let off = self.sigchld_offset(1);
        read_u32(&self.bytes, off, self.target.endian)
    }

    /// `si_status` of the child-status payload.
    pub fn si_status(&self) -> (r: i32)
        requires
            self.wf(),
        ensures
            r == int_at(self.bytes@, sigchld_offset_spec(self.target.arch, 2) as int, self.target.endian),
    {
        let off = self.sigchld_offset(2);
        read_i32(&self.bytes, off, self.target.endian)
    }

    /// `si_utime` of the child-status payload, a `clock_t` (as wide as a pointer).
    pub fn si_utime(&self) -> (r: i64)
        requires
            self.wf(),
        ensures
            r == signed(
                uint_at(
                    self.bytes@,
                    sigchld_offset_spec(self.target.arch, 3) as int,
                    pointer_bytes_spec(self.target.arch),
                    self.target.endian,
                ),
                pointer_bytes_spec(self.target.arch),
            ),
    {
        let off = self.sigchld_offset(3);
        read_int(&self.bytes, off, pointer_bytes(self.target.arch), self.target.endian)
    }

    /// `si_stime` of the child-status payload, a `clock_t` (as wide as a pointer).
    pub fn si_stime(&self) -> (r: i64)
        requires
            self.wf(),
        ensures
            r == signed(
                uint_at(
                    self.bytes@,
                    sigchld_offset_spec(self.target.arch, 4) as int,
                    pointer_bytes_spec(self.target.arch),
                    self.target.endian,
                ),
                pointer_bytes_spec(self.target.arch),
            ),
    {
        let off = self.sigchld_offset(4);
        read_int(&self.bytes, off, pointer_bytes(self.target.arch), self.target.endian)
    }
}

} // verus!
