//! C record layout: member offsets, padding and total size, as a C compiler
//! assigns them to a `struct` whose members are given in order.
use vstd::prelude::*;
use vstd::arithmetic::div_mod::{lemma_fundamental_div_mod, lemma_mod_multiples_basic};

verus! {

/// One member of a record: `count` consecutive elements of `size` bytes each,
/// the first of which must start at a multiple of `align`.
#[derive(Clone, Copy, Debug, PartialEq, Eq, Structural)]
pub struct Member {
    pub size: usize,
    pub align: usize,
    pub count: usize,
}

/// The layout of a record: each member's offset, the total size, and the
/// record's own alignment.
#[derive(Debug)]
pub struct Layout {
    pub offsets: Vec<usize>,
    pub size: usize,
    pub align: usize,
}

/// Bytes occupied by a member.
pub open spec fn span(m: Member) -> nat {
    (m.size as nat * m.count as nat) as nat
}

/// The least multiple of `a` that is at least `n` (`n` itself when `a` is 0).
pub open spec fn align_up(n: nat, a: nat) -> nat {
    if a == 0 || n % a == 0 {
        n
    } else {
        (n + (a - n % a)) as nat
    }
}

/// Where the last member of `ms` ends, once each member is placed at the first
/// suitably aligned offset after the one before it.
pub open spec fn end_of(ms: Seq<Member>) -> nat
    decreases ms.len(),
{
    if ms.len() == 0 {
        0
    } else {
        align_up(end_of(ms.drop_last()), ms.last().align as nat) + span(ms.last())
    }
}

/// Offset of member `i`.
pub open spec fn offset_of(ms: Seq<Member>, i: int) -> nat {
    align_up(end_of(ms.take(i)), ms[i].align as nat)
}

/// The record's alignment: the largest member alignment, and at least `min`
/// (an explicit `align(n)` on the record).
pub open spec fn max_align(ms: Seq<Member>, min: nat) -> nat
    decreases ms.len(),
{
    if ms.len() == 0 {
        min
    } else {
        let r = max_align(ms.drop_last(), min);
        if ms.last().align as nat > r {
            ms.last().align as nat
        } else {
            r
        }
    }
}

/// Total size: the end of the last member, rounded up to the record's alignment.
pub open spec fn record_size(ms: Seq<Member>, min: nat) -> nat {
    align_up(end_of(ms), max_align(ms, min))
}

/// Every member has a non-zero alignment.
pub open spec fn aligns_positive(ms: Seq<Member>) -> bool {
    forall|i: int| 0 <= i < ms.len() ==> #[trigger] ms[i].align > 0
}

/// The record can be laid out: alignments are non-zero and its size fits a `usize`.
pub open spec fn representable(ms: Seq<Member>, min: nat) -> bool {
    min > 0 && aligns_positive(ms) && record_size(ms, min) <= usize::MAX
}

/// The layout `l` is the one C gives to members `ms` with minimum alignment `min`.
pub open spec fn is_layout_of(l: Layout, ms: Seq<Member>, min: nat) -> bool {
    &&& l.offsets@.len() == ms.len()
    &&& forall|i: int| 0 <= i < ms.len() ==> #[trigger] l.offsets@[i] == offset_of(ms, i)
    &&& l.size == record_size(ms, min)
    &&& l.align == max_align(ms, min)
}

proof fn lemma_align_up(n: nat, a: nat)
    requires
        a > 0,
    ensures
        n <= align_up(n, a),
        align_up(n, a) < n + a,
        align_up(n, a) % a == 0,
{
    let (ni, ai) = (n as int, a as int);
    lemma_fundamental_div_mod(ni, ai);
    let q = ni / ai;
    let r = ni % ai;
    if r != 0 {
        assert(ni + (ai - r) == (q + 1) * ai) by (nonlinear_arith)
            requires
                ni == ai * q + r,
        ;
        lemma_mod_multiples_basic(q + 1, ai);
    }
}

proof fn lemma_align_up_ge(n: nat, a: nat)
    ensures
        n <= align_up(n, a),
{
    if a > 0 {
        lemma_align_up(n, a);
    }
}

proof fn lemma_take_step(ms: Seq<Member>, i: int)
    requires
        0 <= i < ms.len(),
    ensures
        ms.take(i + 1).drop_last() == ms.take(i),
        ms.take(i + 1).last() == ms[i],
        end_of(ms.take(i + 1)) == offset_of(ms, i) + span(ms[i]),
{
    assert(ms.take(i + 1).drop_last() =~= ms.take(i));
}

/// Appending a member places it after the current end and may raise the
/// record's alignment; this is how the layout of a written-out record unfolds.
pub proof fn lemma_push(ms: Seq<Member>, m: Member, min: nat)
    ensures
        end_of(ms.push(m)) == align_up(end_of(ms), m.align as nat) + span(m),
        max_align(ms.push(m), min) == (if m.align as nat > max_align(ms, min) {
            m.align as nat
        } else {
            max_align(ms, min)
        }),
        ms.push(m).take(ms.len() as int) == ms,
        end_of(Seq::<Member>::empty()) == 0,
        max_align(Seq::<Member>::empty(), min) == min,
{
    assert(ms.push(m).drop_last() =~= ms);
    assert(ms.push(m).take(ms.len() as int) =~= ms);
}

/// The span of a member whose size and count are known.
pub proof fn lemma_span_of(m: Member, size: nat, count: nat)
    requires
        m.size == size,
        m.count == count,
    ensures
        span(m) == size * count,
{
}

/// Rounding of the small offsets that the records of this layer reach.
pub proof fn lemma_align_table()
    ensures
        align_up(0, 1) == 0,
        align_up(0, 2) == 0,
        align_up(0, 4) == 0,
        align_up(0, 8) == 0,
        align_up(1, 1) == 1,
        align_up(2, 1) == 2,
        align_up(2, 2) == 2,
        align_up(4, 2) == 4,
        align_up(4, 4) == 4,
        align_up(4, 8) == 8,
        align_up(8, 4) == 8,
        align_up(8, 8) == 8,
        align_up(12, 4) == 12,
        align_up(12, 8) == 16,
        align_up(16, 2) == 16,
        align_up(16, 4) == 16,
        align_up(16, 8) == 16,
        align_up(20, 4) == 20,
        align_up(20, 8) == 24,
        align_up(24, 4) == 24,
        align_up(24, 8) == 24,
        align_up(28, 4) == 28,
        align_up(28, 8) == 32,
        align_up(32, 4) == 32,
        align_up(32, 8) == 32,
        align_up(40, 8) == 40,
        align_up(48, 8) == 48,
        align_up(64, 4) == 64,
        align_up(64, 8) == 64,
        align_up(128, 4) == 128,
        align_up(128, 8) == 128,
{
}

/// The end of a prefix never exceeds the end of the whole.
proof fn lemma_end_prefix(ms: Seq<Member>, i: int)
    requires
        0 <= i <= ms.len(),
    ensures
        end_of(ms.take(i)) <= end_of(ms),
    decreases ms.len(),
{
    if i == ms.len() {
        assert(ms.take(i) =~= ms);
    } else {
        let d = ms.drop_last();
        lemma_align_up_ge(end_of(d), ms.last().align as nat);
        assert(d.take(i) =~= ms.take(i));
        lemma_end_prefix(d, i);
    }
}

proof fn lemma_max_align_ge(ms: Seq<Member>, min: nat, i: int)
    requires
        0 <= i < ms.len(),
    ensures
        ms[i].align <= max_align(ms, min),
        min <= max_align(ms, min),
    decreases ms.len(),
{
    let d = ms.drop_last();
    if i < d.len() {
        lemma_max_align_ge(d, min, i);
    } else if d.len() > 0 {
        lemma_max_align_ge(d, min, 0);
    }
}

proof fn lemma_max_align_min(ms: Seq<Member>, min: nat)
    ensures
        min <= max_align(ms, min),
{
    if ms.len() > 0 {
        lemma_max_align_ge(ms, min, 0);
    }
}

/// A layout is sound: every member starts at a multiple of its alignment,
/// members do not overlap and keep their order, every member lies inside the
/// record, and the size is a multiple of the record's alignment, so that
/// elements of an array of records stay aligned.
pub proof fn lemma_layout_sound(ms: Seq<Member>, min: nat, i: int, j: int)
    requires
        min > 0,
        aligns_positive(ms),
        0 <= i < j < ms.len(),
    ensures
        offset_of(ms, i) % (ms[i].align as nat) == 0,
        offset_of(ms, i) + span(ms[i]) <= offset_of(ms, j),
        offset_of(ms, j) + span(ms[j]) <= record_size(ms, min),
        record_size(ms, min) % max_align(ms, min) == 0,
        ms[i].align <= max_align(ms, min),
{
    lemma_align_up(end_of(ms.take(i)), ms[i].align as nat);
    lemma_take_step(ms, i);
    lemma_take_step(ms, j);
    let tj = ms.take(j);
    assert(tj.take(i + 1) =~= ms.take(i + 1));
    lemma_end_prefix(tj, i + 1);
    lemma_align_up_ge(end_of(tj), ms[j].align as nat);
    lemma_end_prefix(ms, j + 1);
    lemma_max_align_ge(ms, min, i);
    lemma_align_up(end_of(ms), max_align(ms, min));
}

/// A member of modest size: alignment 1 to 8, at most 256 elements of at most
/// 256 bytes.
pub open spec fn modest(m: Member) -> bool {
    0 < m.align <= 8 && m.size <= 256 && m.count <= 256
}

proof fn lemma_end_bound(ms: Seq<Member>)
    requires
        forall|i: int| 0 <= i < ms.len() ==> #[trigger] modest(ms[i]),
    ensures
        end_of(ms) <= ms.len() * 0x10008,
    decreases ms.len(),
{
    if ms.len() > 0 {
        let d = ms.drop_last();
        let m = ms.last();
        assert forall|i: int| 0 <= i < d.len() implies #[trigger] modest(d[i]) by {
            assert(modest(ms[i]));
        }
        lemma_end_bound(d);
        assert(modest(ms[ms.len() - 1]));
        lemma_align_up(end_of(d), m.align as nat);
        assert(span(m) <= 0x10000) by (nonlinear_arith)
            requires
                m.size <= 256,
                m.count <= 256,
        ;
        assert(d.len() * 0x10008 + 0x10008 == ms.len() * 0x10008) by (nonlinear_arith)
            requires
                d.len() + 1 == ms.len(),
        ;
    }
}

proof fn lemma_max_align_bound(ms: Seq<Member>, min: nat)
    requires
        forall|i: int| 0 <= i < ms.len() ==> #[trigger] modest(ms[i]),
        0 < min <= 8,
    ensures
        0 < max_align(ms, min) <= 8,
    decreases ms.len(),
{
    if ms.len() > 0 {
        let d = ms.drop_last();
        assert forall|i: int| 0 <= i < d.len() implies #[trigger] modest(d[i]) by {
            assert(modest(ms[i]));
        }
        assert(modest(ms[ms.len() - 1]));
        lemma_max_align_bound(d, min);
    }
}

/// A record of at most 4096 modest members, with a minimum alignment of 1
/// to 8, can always be laid out.
pub proof fn lemma_modest_representable(ms: Seq<Member>, min: nat)
    requires
        forall|i: int| 0 <= i < ms.len() ==> #[trigger] modest(ms[i]),
        ms.len() <= 4096,
        0 < min <= 8,
    ensures
        representable(ms, min),
{
    lemma_end_bound(ms);
    lemma_max_align_bound(ms, min);
    lemma_align_up(end_of(ms), max_align(ms, min));
    assert(ms.len() * 0x10008 <= 4096 * 0x10008) by (nonlinear_arith)
        requires
            ms.len() <= 4096,
    ;
    assert forall|i: int| 0 <= i < ms.len() implies #[trigger] ms[i].align > 0 by {
        assert(modest(ms[i]));
    }
}

/// Lays out a record, as C does: each member at the first offset after the
/// previous one that is a multiple of its alignment, the record aligned to its
/// strictest member (and at least `min_align`), and its size rounded up to that
/// alignment. `None` exactly when an alignment is zero or the size overflows.
pub fn compute_layout(members: &Vec<Member>, min_align: usize) -> (r: Option<Layout>)
    ensures
        r.is_some() <==> representable(members@, min_align as nat),
        r matches Some(l) ==> is_layout_of(l, members@, min_align as nat),
{
    let ghost ms = members@;
    if min_align == 0 {
        return None;
    }
    let mut offsets: Vec<usize> = Vec::new();
    let mut end: usize = 0;
    let mut align: usize = min_align;
    let mut i: usize = 0;
    while i < members.len()
        invariant
            ms == members@,
            0 <= i <= ms.len(),
            min_align > 0,
            end == end_of(ms.take(i as int)),
            align == max_align(ms.take(i as int), min_align as nat),
            offsets@.len() == i,
            forall|k: int| 0 <= k < i ==> #[trigger] offsets@[k] == offset_of(ms, k),
            forall|k: int| 0 <= k < i ==> #[trigger] ms[k].align > 0,
        decreases ms.len() - i,
    {
        let m = members[i];
        proof {
            lemma_take_step(ms, i as int);
            lemma_end_prefix(ms, i as int + 1);
            lemma_max_align_min(ms, min_align as nat);
            lemma_align_up_ge(end_of(ms), max_align(ms, min_align as nat));
        }
        if m.align == 0 {
            return None;
        }
        let rem = end % m.align;
        let pad = if rem == 0 {
            0
        } else {
            m.align - rem
        };
        let off = match end.checked_add(pad) {
            Some(v) => v,
            None => return None,
        };
        assert(off == offset_of(ms, i as int));
        let bytes = match m.size.checked_mul(m.count) {
            Some(v) => v,
            None => {
                assert(span(m) <= end_of(ms.take(i + 1)));
                return None;
            },
        };
        let next = match off.checked_add(bytes) {
            Some(v) => v,
            None => return None,
        };
        offsets.push(off);
        end = next;
        if m.align > align {
            align = m.align;
        }
        i = i + 1;
    }
    assert(ms.take(ms.len() as int) =~= ms);
    let rem = end % align;
    let pad = if rem == 0 {
        0
    } else {
        align - rem
    };
    let size = match end.checked_add(pad) {
        Some(v) => v,
        None => return None,
    };
    Some(Layout { offsets, size, align })
}

} // verus!
