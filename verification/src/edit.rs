//! Byte-exact application of text edits.
//!
//! An edit set is validated (in-bounds, pairwise non-overlapping, distinct
//! start offsets), brought into ascending start order, and applied by slicing
//! and concatenation against the original buffer, so that every byte outside
//! the edited spans is carried over unchanged.

use vstd::prelude::*;

use crate::errors::LibError;

verus! {

/// A single replacement: the byte range `[start, end)` of the original buffer
/// is replaced by `replacement`. Offsets always refer to the original buffer.
pub struct TextEdit {
    pub start: usize,
    pub end: usize,
    pub replacement: Vec<u8>,
}

/// An edit sequence is well formed for a buffer of length `len` when every
/// range lies inside the buffer, ranges appear in ascending order without
/// overlap, and no two edits share a start offset.
pub open spec fn wf_edit_seq(s: Seq<TextEdit>, len: nat) -> bool {
    &&& forall|k: int|
        0 <= k < s.len() ==> (#[trigger] s[k].start) <= s[k].end <= len
    &&& forall|k: int|
        0 <= k < s.len() - 1 ==> (#[trigger] s[k].end) <= s[k + 1].start
    &&& forall|k: int|
        0 <= k < s.len() - 1 ==> (#[trigger] s[k].start) < s[k + 1].start
}

/// Insertion of one edit into a sequence, before the first element whose
/// start offset is not smaller.
pub open spec fn spec_insert_by_start(e: TextEdit, s: Seq<TextEdit>) -> Seq<TextEdit>
    decreases s.len(),
{
    if s.len() == 0 {
        seq![e]
    } else if e.start <= s[0].start {
        seq![e] + s
    } else {
        seq![s[0]] + spec_insert_by_start(e, s.drop_first())
    }
}

/// The ascending-start arrangement of an edit sequence (insertion sort).
pub open spec fn spec_sort_by_start(s: Seq<TextEdit>) -> Seq<TextEdit>
    decreases s.len(),
{
    if s.len() == 0 {
        Seq::empty()
    } else {
        spec_insert_by_start(s[0], spec_sort_by_start(s.drop_first()))
    }
}

/// The buffer produced by applying the ascending edits `s` to the part of
/// `src` from offset `from` on: the bytes up to the next edit, then the
/// replacement, then the rest.
pub open spec fn spec_apply_from(src: Seq<u8>, s: Seq<TextEdit>, from: int) -> Seq<u8>
    decreases s.len(),
{
    if s.len() == 0 {
        src.subrange(from, src.len() as int)
    } else {
        src.subrange(from, s[0].start as int) + s[0].replacement@ + spec_apply_from(
            src,
            s.drop_first(),
            s[0].end as int,
        )
    }
}

/// The buffer produced by applying the ascending edit sequence `s` to `src`.
pub open spec fn spec_apply(src: Seq<u8>, s: Seq<TextEdit>) -> Seq<u8> {
    spec_apply_from(src, s, 0)
}

/// How far a byte of the original buffer that lies behind the first `k` edits
/// is displaced in the output: replacements grow or shrink the buffer by the
/// difference between their length and the length of the range they replace.
pub open spec fn spec_shift(s: Seq<TextEdit>, k: int) -> int
    decreases k,
{
    if k <= 0 {
        0
    } else {
        spec_shift(s, k - 1) + s[k - 1].replacement@.len() - (s[k - 1].end - s[k - 1].start)
    }
}

/// Start of the unedited gap that follows the first `k` edits.
pub open spec fn spec_gap_lo(s: Seq<TextEdit>, k: int) -> int {
    if k == 0 {
        0
    } else {
        s[k - 1].end as int
    }
}

/// End of the unedited gap that follows the first `k` edits.
pub open spec fn spec_gap_hi(src: Seq<u8>, s: Seq<TextEdit>, k: int) -> int {
    if k < s.len() {
        s[k].start as int
    } else {
        src.len() as int
    }
}

/// Sorting a single edit leaves it alone.
pub proof fn lemma_sort_singleton(e: TextEdit)
    ensures
        spec_sort_by_start(seq![e]) == seq![e],
{
    assert(seq![e].drop_first() =~= Seq::<TextEdit>::empty());
    assert(spec_sort_by_start(Seq::<TextEdit>::empty()) == Seq::<TextEdit>::empty());
    assert(spec_insert_by_start(e, Seq::<TextEdit>::empty()) == seq![e]);
}

/// Sorting a pair orders it by start offset.
pub proof fn lemma_sort_pair(e1: TextEdit, e2: TextEdit)
    ensures
        spec_sort_by_start(seq![e1, e2]) == if e1.start <= e2.start {
            seq![e1, e2]
        } else {
            seq![e2, e1]
        },
{
    let s = seq![e1, e2];
    assert(s.drop_first() =~= seq![e2]);
    lemma_sort_singleton(e2);
    assert(spec_sort_by_start(s) == spec_insert_by_start(e1, seq![e2]));
    if e1.start <= e2.start {
        assert(spec_insert_by_start(e1, seq![e2]) =~= seq![e1, e2]);
    } else {
        assert(seq![e2].drop_first() =~= Seq::<TextEdit>::empty());
        assert(spec_insert_by_start(e1, Seq::<TextEdit>::empty()) == seq![e1]);
        assert(spec_insert_by_start(e1, seq![e2]) =~= seq![e2, e1]);
    }
}

/// Applying zero edits leaves the buffer unchanged, byte for byte.
pub proof fn lemma_empty_edit_identity(src: Seq<u8>)
    ensures
        spec_apply(src, Seq::empty()) == src,
{
    assert(spec_apply(src, Seq::empty()) =~= src);
}

proof fn lemma_shift_drop_first(s: Seq<TextEdit>, k: int)
    requires
        1 <= k <= s.len(),
    ensures
        spec_shift(s, k) == s[0].replacement@.len() - (s[0].end - s[0].start) + spec_shift(
            s.drop_first(),
            k - 1,
        ),
    decreases k,
{
    if k == 1 {
        assert(spec_shift(s, 0) == 0);
        assert(spec_shift(s.drop_first(), 0) == 0);
    } else {
        lemma_shift_drop_first(s, k - 1);
        assert(s.drop_first()[k - 2] == s[k - 1]);
        assert(spec_shift(s.drop_first(), k - 1) == spec_shift(s.drop_first(), k - 2)
            + s.drop_first()[k - 2].replacement@.len() - (s.drop_first()[k - 2].end
            - s.drop_first()[k - 2].start));
    }
}

proof fn lemma_preserved_from(src: Seq<u8>, s: Seq<TextEdit>, from: int, k: int, p: int)
    requires
        wf_edit_seq(s, src.len()),
        0 <= from <= src.len(),
        s.len() > 0 ==> from <= s[0].start,
        0 <= k <= s.len(),
        if k == 0 {
            from
        } else {
            spec_gap_lo(s, k)
        } <= p < spec_gap_hi(src, s, k),
    ensures
        0 <= p - from + spec_shift(s, k) < spec_apply_from(src, s, from).len(),
        spec_apply_from(src, s, from)[p - from + spec_shift(s, k)] == src[p],
    decreases s.len(),
{
    if s.len() == 0 {
        assert(spec_apply_from(src, s, from) == src.subrange(from, src.len() as int));
    } else if k == 0 {
        let out = spec_apply_from(src, s, from);
        assert(out[p - from] == src.subrange(from, s[0].start as int)[p - from]);
    } else {
        let rest = s.drop_first();
        assert(wf_edit_seq(rest, src.len())) by {
            assert(forall|j: int| 0 <= j < rest.len() ==> rest[j] == s[j + 1]);
        }
        assert(rest.len() > 0 ==> s[0].end <= rest[0].start);
        assert(spec_gap_lo(s, k) == if k == 1 {
            s[0].end as int
        } else {
            spec_gap_lo(rest, k - 1)
        });
        assert(spec_gap_hi(src, s, k) == spec_gap_hi(src, rest, k - 1));
        lemma_preserved_from(src, rest, s[0].end as int, k - 1, p);
        lemma_shift_drop_first(s, k);
        let prefix = src.subrange(from, s[0].start as int) + s[0].replacement@;
        let tail = spec_apply_from(src, rest, s[0].end as int);
        assert(spec_apply_from(src, s, from) == prefix + tail);
        let q = p - s[0].end + spec_shift(rest, k - 1);
        assert((prefix + tail)[prefix.len() + q] == tail[q]);
        assert(prefix.len() + q == p - from + spec_shift(s, k));
    }
}

/// Byte preservation: for a well-formed edit sequence, every byte of the
/// original buffer that lies outside all edited ranges — in the gap that
/// follows the first `k` edits — reappears unchanged in the output, displaced
/// exactly by the accumulated length difference of the first `k` replacements.
pub proof fn lemma_byte_preservation(src: Seq<u8>, s: Seq<TextEdit>, k: int, p: int)
    requires
        wf_edit_seq(s, src.len()),
        0 <= k <= s.len(),
        spec_gap_lo(s, k) <= p < spec_gap_hi(src, s, k),
    ensures
        0 <= p + spec_shift(s, k) < spec_apply(src, s).len(),
        spec_apply(src, s)[p + spec_shift(s, k)] == src[p],
{
    lemma_preserved_from(src, s, 0, k, p);
}

fn insert_by_start(acc: &mut Vec<TextEdit>, e: TextEdit)
    ensures
        final(acc)@ == spec_insert_by_start(e, old(acc)@),
{
    let ghost orig = acc@;
    let mut j: usize = 0;
    while j < acc.len() && acc[j].start < e.start
        invariant
            acc@ == orig,
            j <= acc.len(),
            forall|i: int| 0 <= i < j ==> (#[trigger] acc@[i].start) < e.start,
        decreases acc.len() - j,
    {
        j = j + 1;
    }
    assert(j < acc@.len() ==> e.start <= acc@[j as int].start);
    proof {
        lemma_insert_by_start_at(e, orig, j as int);
    }
    acc.insert(j, e);
}

proof fn lemma_insert_by_start_at(e: TextEdit, s: Seq<TextEdit>, j: int)
    requires
        0 <= j <= s.len(),
        forall|i: int| 0 <= i < j ==> (#[trigger] s[i].start) < e.start,
        j < s.len() ==> e.start <= s[j].start,
    ensures
        spec_insert_by_start(e, s) == s.insert(j, e),
    decreases s.len(),
{
    if s.len() == 0 {
        assert(spec_insert_by_start(e, s) =~= s.insert(0, e));
    } else if j == 0 {
        assert(spec_insert_by_start(e, s) =~= s.insert(0, e));
    } else {
        lemma_insert_by_start_at(e, s.drop_first(), j - 1);
        assert(seq![s[0]] + s.drop_first().insert(j - 1, e) =~= s.insert(j, e));
    }
}

fn sort_by_start(edits: Vec<TextEdit>) -> (r: Vec<TextEdit>)
    ensures
        r@ == spec_sort_by_start(edits@),
{
    let ghost orig = edits@;
    let mut rest = edits;
    let mut acc: Vec<TextEdit> = Vec::new();
    proof {
        assert(orig.subrange(0, orig.len() as int) =~= orig);
        assert(orig.skip(orig.len() as int) =~= Seq::<TextEdit>::empty());
    }
    while rest.len() > 0
        invariant
            rest@.len() <= orig.len(),
            rest@ == orig.subrange(0, rest@.len() as int),
            acc@ == spec_sort_by_start(orig.skip(rest@.len() as int)),
        decreases rest.len(),
    {
        let ghost n = rest@.len() as int;
        let e = match rest.pop() {
            Some(e) => e,
            None => {
                // unreachable: the loop condition guarantees an element
                return acc;
            },
        };
        proof {
            assert(e == orig[n - 1]);
            let suffix = orig.skip(n - 1);
            assert(suffix[0] == orig[n - 1]);
            assert(suffix.drop_first() =~= orig.skip(n));
            assert(spec_sort_by_start(suffix) == spec_insert_by_start(
                e,
                spec_sort_by_start(orig.skip(n)),
            ));
            assert(rest@ =~= orig.subrange(0, n - 1));
        }
        insert_by_start(&mut acc, e);
    }
    proof {
        assert(orig.skip(0) =~= orig);
    }
    acc
}

fn check_wf(sorted: &Vec<TextEdit>, len: usize) -> (r: bool)
    ensures
        r == wf_edit_seq(sorted@, len as nat),
{
    let n = sorted.len();
    let mut k: usize = 0;
    while k < n
        invariant
            k <= n,
            n == sorted@.len(),
            forall|i: int| 0 <= i < k ==> (#[trigger] sorted@[i].start) <= sorted@[i].end <= len,
            forall|i: int|
                0 <= i < k && i < n - 1 ==> (#[trigger] sorted@[i].end) <= sorted@[i + 1].start,
            forall|i: int|
                0 <= i < k && i < n - 1 ==> (#[trigger] sorted@[i].start) < sorted@[i + 1].start,
        decreases n - k,
    {
        let e_start = sorted[k].start;
        let e_end = sorted[k].end;
        if !(e_start <= e_end && e_end <= len) {
            return false;
        }
        if k + 1 < n {
            if !(e_end <= sorted[k + 1].start && e_start < sorted[k + 1].start) {
                return false;
            }
        }
        k = k + 1;
    }
    true
}

fn push_subrange(out: &mut Vec<u8>, src: &Vec<u8>, from: usize, to: usize)
    requires
        from <= to <= src.len(),
    ensures
        final(out)@ == old(out)@ + src@.subrange(from as int, to as int),
{
    let mut i: usize = from;
    while i < to
        invariant
            from <= i <= to <= src.len(),
            out@ == old(out)@ + src@.subrange(from as int, i as int),
        decreases to - i,
    {
        out.push(src[i]);
        proof {
            assert(old(out)@ + src@.subrange(from as int, i + 1) =~= (old(out)@ + src@.subrange(
                from as int,
                i as int,
            )).push(src@[i as int]));
        }
        i = i + 1;
    }
}

/// Applies a set of text edits to the original buffer.
///
/// The edit set may arrive in any order; it is brought into ascending start
/// order first. If the arranged set is not well formed — a range out of
/// bounds, overlapping ranges, or two edits at one start offset — no output
/// is produced and the edit-overlap error is returned. Otherwise the output
/// is the original buffer with each range replaced, all offsets read against
/// the original buffer.
#[verifier::rlimit(60)]
pub fn apply_edits(src: &Vec<u8>, edits: Vec<TextEdit>) -> (r: Result<Vec<u8>, LibError>)
    ensures
        r is Ok <==> wf_edit_seq(spec_sort_by_start(edits@), src@.len()),
        r is Ok ==> r->Ok_0@ == spec_apply(src@, spec_sort_by_start(edits@)),
        r is Err ==> r->Err_0 == LibError::EditOverlap,
        edits@.len() == 0 ==> r is Ok && r->Ok_0@ == src@,
{
    let ghost input = edits@;
    let sorted = sort_by_start(edits);
    if !check_wf(&sorted, src.len()) {
        return Err(LibError::EditOverlap);
    }
    let ghost sseq = sorted@;
    let mut out: Vec<u8> = Vec::new();
    let mut from: usize = 0;
    let mut k: usize = 0;
    let n = sorted.len();
    proof {
        assert(sseq.skip(0) =~= sseq);
        assert(out@ + spec_apply_from(src@, sseq, 0) =~= spec_apply_from(src@, sseq, 0));
    }
    while k < n
        invariant
            n == sseq.len(),
            sorted@ == sseq,
            wf_edit_seq(sseq, src@.len()),
            k <= n,
            from <= src.len(),
            k < n ==> from <= sseq[k as int].start,
            k == 0 ==> from == 0,
            spec_apply(src@, sseq) == out@ + spec_apply_from(src@, sseq.skip(k as int), from as int),
        decreases n - k,
    {
        let ghost pre = out@;
        let e_start = sorted[k].start;
        let e_end = sorted[k].end;
        push_subrange(&mut out, src, from, e_start);
        let mut i: usize = 0;
        let ghost mid = out@;
        while i < sorted[k].replacement.len()
            invariant
                k < sorted@.len(),
                sorted@ == sseq,
                i <= sseq[k as int].replacement@.len(),
                out@ == mid + sseq[k as int].replacement@.subrange(0, i as int),
            decreases sseq[k as int].replacement@.len() - i,
        {
            out.push(sorted[k].replacement[i]);
            proof {
                assert(mid + sseq[k as int].replacement@.subrange(0, i + 1) =~= (mid
                    + sseq[k as int].replacement@.subrange(0, i as int)).push(
                    sseq[k as int].replacement@[i as int],
                ));
            }
            i = i + 1;
        }
        proof {
            assert(out@ =~= pre + src@.subrange(from as int, e_start as int)
                + sseq[k as int].replacement@);
            let tail = sseq.skip(k as int);
            assert(tail[0] == sseq[k as int]);
            assert(tail.drop_first() =~= sseq.skip(k + 1));
            assert(spec_apply_from(src@, tail, from as int) == src@.subrange(
                from as int,
                e_start as int,
            ) + sseq[k as int].replacement@ + spec_apply_from(src@, sseq.skip(k + 1), e_end as int));
        }
        from = e_end;
        k = k + 1;
    }
    proof {
        assert(sseq.skip(n as int) =~= Seq::<TextEdit>::empty());
    }
    push_subrange(&mut out, src, from, src.len());
    proof {
        if input.len() == 0 {
            assert(spec_sort_by_start(input) =~= Seq::<TextEdit>::empty());
            lemma_empty_edit_identity(src@);
        }
    }
    Ok(out)
}

} // verus!
